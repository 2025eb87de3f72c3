use vstd::prelude::*;

use crate::error::ProgramError;
use crate::pda::Pubkey;

verus! {

/// The unsigned value of little-endian bytes.
pub open spec fn le_value(s: Seq<u8>) -> nat
    decreases s.len(),
{
    if s.len() == 0 {
        0
    } else {
        s[0] as nat + 256 * le_value(s.drop_first())
    }
}

/// The `n` little-endian bytes of `v` (truncated to `n` bytes).
pub open spec fn le_bytes(v: nat, n: nat) -> Seq<u8>
    decreases n,
{
    if n == 0 {
        seq![]
    } else {
        seq![(v % 256) as u8] + le_bytes(v / 256, (n - 1) as nat)
    }
}

/// The `u64` stored little-endian at `off` in `b`.
pub open spec fn u64_at(b: Seq<u8>, off: int) -> u64 {
    le_value(b.subrange(off, off + 8)) as u64
}

/// The 32 bytes at `off` in `b`.
pub open spec fn key_at(b: Seq<u8>, off: int) -> Seq<u8> {
    b.subrange(off, off + 32)
}

/// Whether `data` has the layout of a record with `tag` and a body of `size` bytes.
pub open spec fn layout_ok(data: Seq<u8>, tag: u8, size: nat) -> bool {
    data.len() == 1 + size && data[0] == tag
}

proof fn lemma_le_value_bound(s: Seq<u8>)
    ensures
        le_value(s) < pow256(s.len()),
    decreases s.len(),
{
    if s.len() > 0 {
        lemma_le_value_bound(s.drop_first());
        assert(s[0] as nat + 256 * le_value(s.drop_first()) < 256 * pow256((s.len() - 1) as nat))
            by (nonlinear_arith)
            requires
                s[0] < 256,
                le_value(s.drop_first()) < pow256((s.len() - 1) as nat),
        ;
    }
}

pub open spec fn pow256(n: nat) -> nat
    decreases n,
{
    if n == 0 {
        1
    } else {
        256 * pow256((n - 1) as nat)
    }
}

proof fn lemma_le_bytes_len(v: nat, n: nat)
    ensures
        le_bytes(v, n).len() == n,
    decreases n,
{
    if n > 0 {
        lemma_le_bytes_len(v / 256, (n - 1) as nat);
    }
}

/// Every encoding of a `u64` takes eight bytes.
pub proof fn lemma_le_bytes_len_8()
    ensures
        forall|v: nat| #[trigger] le_bytes(v, 8).len() == 8,
{
    assert forall|v: nat| #[trigger] le_bytes(v, 8).len() == 8 by {
        lemma_le_bytes_len(v, 8);
    }
}

/// Reads the little-endian `u64` at `off`.
pub fn read_u64(b: &[u8], off: usize) -> (r: u64)
    requires
        off + 8 <= b@.len(),
    ensures
        r == u64_at(b@, off as int),
        r as nat == le_value(b@.subrange(off as int, off + 8)),
{
    let n = b.len();
    let mut v: u64 = 0;
    let mut k: usize = 8;
    while k > 0
        invariant
            0 <= k <= 8,
            n == b@.len(),
            off + 8 <= b@.len(),
            v as nat == le_value(b@.subrange(off + k, off + 8)),
        decreases k,
    {
        let ghost tail = b@.subrange(off + k, off + 8);
        let ghost next = b@.subrange(off + k - 1, off + 8);
        proof {
            assert(next.drop_first() =~= tail);
            lemma_le_value_bound(tail);
            assert(pow256(0) == 1);
            assert(pow256(1) == 256);
            assert(pow256(2) == 65536);
            assert(pow256(3) == 16777216);
            assert(pow256(4) == 4294967296);
            assert(pow256(5) == 1099511627776);
            assert(pow256(6) == 281474976710656);
            assert(pow256(7) == 72057594037927936);
            assert(v * 256 + 255 <= u64::MAX) by (nonlinear_arith)
                requires v < 72057594037927936;
        }
        v = v * 256 + b[off + k - 1] as u64;
        k = k - 1;
    }
    v
}

/// Appends the 8 little-endian bytes of `v` to `out`.
pub fn write_u64(out: &mut Vec<u8>, v: u64)
    ensures
        final(out)@ == old(out)@ + le_bytes(v as nat, 8),
{
    let mut x: u64 = v;
    let mut k: usize = 0;
    while k < 8
        invariant
            k <= 8,
            out@ + le_bytes(x as nat, (8 - k) as nat) == old(out)@ + le_bytes(v as nat, 8),
        decreases 8 - k,
    {
        let ghost before = out@;
        proof {
            assert(le_bytes(x as nat, (8 - k) as nat) == seq![(x % 256) as u8] + le_bytes(
                (x / 256) as nat,
                (8 - k - 1) as nat,
            ));
        }
        out.push((x % 256) as u8);
        proof {
            assert(out@ + le_bytes((x / 256) as nat, (8 - k - 1) as nat) =~= before + le_bytes(
                x as nat,
                (8 - k) as nat,
            ));
        }
        x = x / 256;
        k = k + 1;
    }
    assert(le_bytes(x as nat, 0) == Seq::<u8>::empty());
    assert(out@ =~= out@ + le_bytes(x as nat, 0));
}

/// Reads the 32-byte address at `off`.
pub fn read_key(b: &[u8], off: usize) -> (r: Pubkey)
    requires
        off + 32 <= b@.len(),
    ensures
        r@ == key_at(b@, off as int),
{
    Pubkey::new_from_array(read_bytes32(b, off))
}

/// Reads the 32 bytes at `off`.
pub fn read_bytes32(b: &[u8], off: usize) -> (r: [u8; 32])
    requires
        off + 32 <= b@.len(),
    ensures
        r@ == key_at(b@, off as int),
{
    let n = b.len();
    let mut bytes: [u8; 32] = [0u8; 32];
    let mut i: usize = 0;
    while i < 32
        invariant
            i <= 32,
            n == b@.len(),
            off + 32 <= b@.len(),
            bytes@.len() == 32,
            forall|j: int| 0 <= j < i ==> bytes@[j] == b@[off + j],
        decreases 32 - i,
    {
        bytes[i] = b[off + i];
        i = i + 1;
    }
    assert(bytes@ =~= key_at(b@, off as int));
    bytes
}

/// Appends the 32 bytes of `k` to `out`.
pub fn write_bytes32(out: &mut Vec<u8>, k: &[u8; 32])
    ensures
        final(out)@ == old(out)@ + k@,
{
    let mut i: usize = 0;
    while i < 32
        invariant
            i <= 32,
            k@.len() == 32,
            out@ == old(out)@ + k@.subrange(0, i as int),
        decreases 32 - i,
    {
        out.push(k[i]);
        proof {
            assert(k@.subrange(0, i + 1) =~= k@.subrange(0, i as int).push(k@[i as int]));
        }
        i = i + 1;
    }
    assert(k@.subrange(0, 32) =~= k@);
}

/// Fails with InvalidAccountData unless `data` is exactly a `tag` byte followed
/// by `size` bytes.
pub fn check_layout(data: &[u8], tag: u8, size: usize) -> (r: Result<(), ProgramError>)
    ensures
        r == (if layout_ok(data@, tag, size as nat) {
            Ok(())
        } else {
            Err(ProgramError::InvalidAccountData)
        }),
{
    let n = data.len();
    if size >= n || n - size != 1 || data[0] != tag {
        return Err(ProgramError::InvalidAccountData);
    }
    Ok(())
}

} // verus!
