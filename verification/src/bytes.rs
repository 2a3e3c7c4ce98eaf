//! Little-endian byte strings of unsigned integers.

use vstd::prelude::*;

verus! {

/// The `n` low-order bytes of `x`, least significant first.
pub open spec fn le_bytes(x: nat, n: nat) -> Seq<u8>
    decreases n,
{
    if n == 0 {
        Seq::empty()
    } else {
        seq![(x % 256) as u8] + le_bytes(x / 256, (n - 1) as nat)
    }
}

/// The number that a little-endian byte string stands for.
pub open spec fn le_value(bytes: Seq<u8>) -> nat
    decreases bytes.len(),
{
    if bytes.len() == 0 {
        0
    } else {
        bytes[0] as nat + 256 * le_value(bytes.drop_first())
    }
}

/// 256 to the power `n`.
pub open spec fn pow256(n: nat) -> nat
    decreases n,
{
    if n == 0 {
        1
    } else {
        256 * pow256((n - 1) as nat)
    }
}

/// `le_bytes(x, n)` has `n` bytes.
pub proof fn lemma_le_bytes_len(x: nat, n: nat)
    ensures
        le_bytes(x, n).len() == n,
    decreases n,
{
    if n > 0 {
        lemma_le_bytes_len(x / 256, (n - 1) as nat);
    }
}

/// Decoding the `n` little-endian bytes of `x` gives `x` back when `x` fits in `n` bytes,
/// and `x` modulo `256^n` in general.
pub proof fn lemma_le_round_trip(x: nat, n: nat)
    ensures
        le_value(le_bytes(x, n)) == x % pow256(n),
        x < pow256(n) ==> le_value(le_bytes(x, n)) == x,
    decreases n,
{
    if n == 0 {
        assert(le_bytes(x, n).len() == 0);
    } else {
        let m = (n - 1) as nat;
        let rest = le_bytes(x / 256, m);
        let all = le_bytes(x, n);
        lemma_le_bytes_len(x / 256, m);
        lemma_le_round_trip(x / 256, m);
        assert(all.drop_first() =~= rest);
        assert(all[0] == (x % 256) as u8);
        lemma_pow256_positive(m);
        lemma_split_mod(x, pow256(m));
        if x < pow256(n) {
            assert(x % pow256(n) == x) by (nonlinear_arith)
                requires
                    x < pow256(n),
            ;
        }
    }
}

/// 256 to any power is positive.
pub proof fn lemma_pow256_positive(n: nat)
    ensures
        pow256(n) > 0,
    decreases n,
{
    if n > 0 {
        lemma_pow256_positive((n - 1) as nat);
        assert(256 * pow256((n - 1) as nat) > 0) by (nonlinear_arith)
            requires
                pow256((n - 1) as nat) > 0,
        ;
    }
}

/// Splitting off the lowest byte commutes with reduction modulo `256 * p`.
proof fn lemma_split_mod(x: nat, p: nat)
    requires
        p > 0,
    ensures
        x % (256 * p) == x % 256 + 256 * ((x / 256) % p),
{
    let q = x / 256;
    let r = x % 256;
    let a = q / p;
    let b = q % p;
    assert(q == a * p + b) by (nonlinear_arith)
        requires
            a == q / p,
            b == q % p,
            p > 0,
    ;
    assert(x == a * (256 * p) + (r + 256 * b)) by (nonlinear_arith)
        requires
            x == 256 * q + r,
            q == a * p + b,
    ;
    assert(0 <= r + 256 * b < 256 * p) by (nonlinear_arith)
        requires
            0 <= r < 256,
            0 <= b < p,
    ;
    vstd::arithmetic::div_mod::lemma_fundamental_div_mod_converse(
        x as int,
        (256 * p) as int,
        a as int,
        (r + 256 * b) as int,
    );
}

/// The eight little-endian bytes of a 64-bit number.
pub fn u64_le_bytes(x: u64) -> (out: [u8; 8])
    ensures
        out@ == le_bytes(x as nat, 8),
{
    let mut out: [u8; 8] = [0u8; 8];
    let mut rest: u64 = x;
    let mut k: usize = 0;
    while k < 8
        invariant
            k <= 8,
            out@.len() == 8,
            out@.subrange(0, k as int) + le_bytes(rest as nat, (8 - k) as nat) == le_bytes(
                x as nat,
                8,
            ),
        decreases 8 - k,
    {
        let ghost before = out@.subrange(0, k as int);
        out[k] = (rest % 256) as u8;
        proof {
            let tail = le_bytes(rest as nat, (8 - k) as nat);
            assert(tail == seq![(rest % 256) as u8] + le_bytes(
                (rest / 256) as nat,
                (8 - k - 1) as nat,
            ));
            assert(out@.subrange(0, k as int + 1) =~= before + seq![(rest % 256) as u8]);
            assert(out@.subrange(0, k as int + 1) + le_bytes(
                (rest / 256) as nat,
                (8 - k - 1) as nat,
            ) =~= before + tail);
        }
        rest = rest / 256;
        k = k + 1;
    }
    proof {
        assert(le_bytes(rest as nat, 0) =~= Seq::<u8>::empty());
        assert(out@.subrange(0, 8) =~= out@);
        assert(out@ + Seq::<u8>::empty() =~= out@);
    }
    out
}

/// The sixteen little-endian bytes of a 128-bit number.
pub fn u128_le_bytes(x: u128) -> (out: [u8; 16])
    ensures
        out@ == le_bytes(x as nat, 16),
{
    let mut out: [u8; 16] = [0u8; 16];
    let mut rest: u128 = x;
    let mut k: usize = 0;
    while k < 16
        invariant
            k <= 16,
            out@.len() == 16,
            out@.subrange(0, k as int) + le_bytes(rest as nat, (16 - k) as nat) == le_bytes(
                x as nat,
                16,
            ),
        decreases 16 - k,
    {
        let ghost before = out@.subrange(0, k as int);
        out[k] = (rest % 256) as u8;
        proof {
            let tail = le_bytes(rest as nat, (16 - k) as nat);
            assert(tail == seq![(rest % 256) as u8] + le_bytes(
                (rest / 256) as nat,
                (16 - k - 1) as nat,
            ));
            assert(out@.subrange(0, k as int + 1) =~= before + seq![(rest % 256) as u8]);
            assert(out@.subrange(0, k as int + 1) + le_bytes(
                (rest / 256) as nat,
                (16 - k - 1) as nat,
            ) =~= before + tail);
        }
        rest = rest / 256;
        k = k + 1;
    }
    proof {
        assert(le_bytes(rest as nat, 0) =~= Seq::<u8>::empty());
        assert(out@.subrange(0, 16) =~= out@);
        assert(out@ + Seq::<u8>::empty() =~= out@);
    }
    out
}

} // verus!
