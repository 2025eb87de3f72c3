use vstd::prelude::*;

verus! {

/// A 32-byte ledger address.
#[derive(Clone, Copy, Debug)]
pub struct Pubkey {
    pub bytes: [u8; 32],
}

impl View for Pubkey {
    type V = Seq<u8>;

    open spec fn view(&self) -> Seq<u8> {
        self.bytes@
    }
}

impl Pubkey {
    /// The address made of the given bytes.
    pub fn new_from_array(bytes: [u8; 32]) -> (r: Pubkey)
        ensures
            r@ == bytes@,
    {
        Pubkey { bytes }
    }

    /// The all-zero address, which is the system program's.
    pub fn zeroed() -> (r: Pubkey)
        ensures
            r@ == Seq::new(32, |i: int| 0u8),
    {
        let r = Pubkey { bytes: [0u8; 32] };
        assert(r@ =~= Seq::new(32, |i: int| 0u8));
        r
    }

    /// Whether two addresses hold the same bytes.
    pub fn equals(&self, other: &Pubkey) -> (r: bool)
        ensures
            r == (self@ == other@),
    {
        let mut i: usize = 0;
        while i < 32
            invariant
                i <= 32,
                self@.len() == 32,
                other@.len() == 32,
                forall|j: int| 0 <= j < i ==> self@[j] == other@[j],
            decreases 32 - i,
        {
            if self.bytes[i] != other.bytes[i] {
                return false;
            }
            i = i + 1;
        }
        assert(self@ =~= other@);
        true
    }

    /// The address as a byte vector, as it stands in a seed list.
    pub fn to_vec(&self) -> (r: Vec<u8>)
        ensures
            r@ == self@,
    {
        let mut v: Vec<u8> = Vec::new();
        let mut i: usize = 0;
        while i < 32
            invariant
                i <= 32,
                self@.len() == 32,
                v@ == self@.subrange(0, i as int),
            decreases 32 - i,
        {
            v.push(self.bytes[i]);
            i = i + 1;
        }
        assert(v@ =~= self@);
        v
    }
}

/// The byte strings that a seed list holds.
pub open spec fn seed_view(seeds: Seq<Vec<u8>>) -> Seq<Seq<u8>> {
    seeds.map_values(|v: Vec<u8>| v@)
}

impl PartialEq for Pubkey {
    fn eq(&self, other: &Pubkey) -> (r: bool) {
        self.equals(other)
    }
}

impl vstd::std_specs::cmp::PartialEqSpecImpl for Pubkey {
    open spec fn obeys_eq_spec() -> bool {
        true
    }

    open spec fn eq_spec(&self, other: &Pubkey) -> bool {
        self@ == other@
    }
}

/// The address and canonical bump that the addressing rule derives from
/// `seeds` under `program`.
pub uninterp spec fn program_address(seeds: Seq<Seq<u8>>, program: Seq<u8>) -> (Seq<u8>, u8);

/// Relies on const_crypto::ed25519::derive_program_address: it scans bumps from
/// 255 down and returns the first whose hash of seeds, bump, program id and
/// marker lies off the curve, with that bump. The result depends on its
/// arguments alone. Only when no bump qualifies, which has negligible
/// probability, does it fail to return (its bump counter runs out).
#[verifier::external_body]
fn derive_program_address(seeds: &Vec<Vec<u8>>, program: &Pubkey) -> (r: (Pubkey, u8))
    ensures
        r.0@ == program_address(seed_view(seeds@), program@).0,
        r.1 == program_address(seed_view(seeds@), program@).1,
{
    let refs: Vec<&[u8]> = seeds.iter().map(|s| s.as_slice()).collect();
    let (address, bump) = const_crypto::ed25519::derive_program_address(&refs, &program.bytes);
    (Pubkey { bytes: address }, bump)
}

/// Derives the address of the record with `seeds` under `program_id`, with its
/// canonical bump.
pub fn find_program_address(seeds: &Vec<Vec<u8>>, program_id: &Pubkey) -> (r: (Pubkey, u8))
    ensures
        (r.0@, r.1) == program_address(seed_view(seeds@), program_id@),
{
    derive_program_address(seeds, program_id)
}

/// Derivation is a function of its inputs: the same seeds under the same
/// program always give the same address and the same canonical bump.
pub proof fn lemma_derivation_deterministic(
    seeds_a: Seq<Seq<u8>>,
    program_a: Seq<u8>,
    seeds_b: Seq<Seq<u8>>,
    program_b: Seq<u8>,
)
    requires
        seeds_a == seeds_b,
        program_a == program_b,
    ensures
        program_address(seeds_a, program_a) == program_address(seeds_b, program_b),
{
}

/// A seed list of one seed.
pub fn seeds1(a: Vec<u8>) -> (r: Vec<Vec<u8>>)
    ensures
        seed_view(r@) == seq![a@],
{
    let mut r: Vec<Vec<u8>> = Vec::new();
    r.push(a);
    assert(seed_view(r@) =~= seq![a@]);
    r
}

/// A seed list of two seeds.
pub fn seeds2(a: Vec<u8>, b: Vec<u8>) -> (r: Vec<Vec<u8>>)
    ensures
        seed_view(r@) == seq![a@, b@],
{
    let mut r: Vec<Vec<u8>> = Vec::new();
    r.push(a);
    r.push(b);
    assert(seed_view(r@) =~= seq![a@, b@]);
    r
}

} // verus!
