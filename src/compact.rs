//! The compact integer encoding of the SCALE codec.
use vstd::prelude::*;

verus! {

/// The `k` lowest bytes of `n`, least significant first.
pub open spec fn le_bytes(n: nat, k: nat) -> Seq<u8>
    decreases k,
{
    if k == 0 {
        seq![]
    } else {
        seq![(n % 256) as u8] + le_bytes(n / 256, (k - 1) as nat)
    }
}

/// The bytes of `n`, least significant first, without leading zero bytes
/// (one byte for zero).
pub open spec fn minimal_le(n: nat) -> Seq<u8>
    decreases n,
{
    if n < 256 {
        seq![n as u8]
    } else {
        seq![(n % 256) as u8] + minimal_le(n / 256)
    }
}

/// The compact encoding of `n`: one, two or four bytes holding `n` shifted
/// left by two with the mode in the low bits, or, from 2^30 on, a header
/// byte giving the byte count followed by the bytes of `n`.
pub open spec fn compact(n: u128) -> Seq<u8> {
    if n < 64 {
        le_bytes(n as nat * 4, 1)
    } else if n < 16384 {
        le_bytes(n as nat * 4 + 1, 2)
    } else if n < 1073741824 {
        le_bytes(n as nat * 4 + 2, 4)
    } else {
        seq![((((minimal_le(n as nat).len() - 4) as int) % 64) * 4 + 3) as u8] + minimal_le(n as nat)
    }
}

proof fn lemma_minimal_le_len(n: nat)
    requires
        n >= 16777216,
    ensures
        minimal_le(n).len() >= 4,
{
    reveal_with_fuel(minimal_le, 4);
}

/// Appends the `k` lowest bytes of `x`, least significant first.
fn push_le(out: &mut Vec<u8>, x: u128, k: usize)
    ensures
        final(out)@ == old(out)@ + le_bytes(x as nat, k as nat),
{
    let mut y: u128 = x;
    let mut i: usize = 0;
    while i < k
        invariant
            0 <= i <= k,
            out@ + le_bytes(y as nat, (k - i) as nat) == old(out)@ + le_bytes(x as nat, k as nat),
        decreases k - i,
    {
        let ghost before = out@;
        let ghost rest = le_bytes((y / 256) as nat, (k - i - 1) as nat);
        assert(le_bytes(y as nat, (k - i) as nat) == seq![(y % 256) as u8] + rest);
        out.push((y % 256) as u8);
        assert(out@ + rest =~= before + (seq![(y % 256) as u8] + rest));
        y = y / 256;
        i = i + 1;
    }
    assert(le_bytes(y as nat, 0) =~= Seq::<u8>::empty());
    assert(out@ + le_bytes(y as nat, 0) =~= out@);
}

/// Appends the compact encoding of `n`.
pub fn push_compact(out: &mut Vec<u8>, n: u128)
    ensures
        final(out)@ == old(out)@ + compact(n),
{
    if n < 64 {
        push_le(out, n * 4, 1);
    } else if n < 16384 {
        push_le(out, n * 4 + 1, 2);
    } else if n < 1073741824 {
        push_le(out, n * 4 + 2, 4);
    } else {
        let mut digits: Vec<u8> = Vec::new();
        let mut y: u128 = n;
        while y >= 256
            invariant
                digits@ + minimal_le(y as nat) == minimal_le(n as nat),
            decreases y,
        {
            let ghost before = digits@;
            let ghost rest = minimal_le((y / 256) as nat);
            digits.push((y % 256) as u8);
            assert(digits@ + rest =~= before + (seq![(y % 256) as u8] + rest));
            y = y / 256;
        }
        digits.push(y as u8);
        assert(digits@ =~= minimal_le(n as nat));
        proof {
            lemma_minimal_le_len(n as nat);
        }
        let header: u8 = (((digits.len() - 4) % 64) as u8) * 4 + 3;
        out.push(header);
        let ghost start = out@;
        let mut i: usize = 0;
        while i < digits.len()
            invariant
                0 <= i <= digits@.len(),
                out@ == start + digits@.subrange(0, i as int),
            decreases digits@.len() - i,
        {
            out.push(digits[i]);
            i = i + 1;
            assert(out@ =~= start + digits@.subrange(0, i as int));
        }
        assert(digits@.subrange(0, digits@.len() as int) =~= digits@);
        assert(out@ =~= old(out)@ + compact(n));
    }
}

} // verus!
