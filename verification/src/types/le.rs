use vstd::prelude::*;

verus! {

/// 256 to the power `n`: the number of values `n` bytes can hold.
pub open spec fn pow256(n: nat) -> int
    decreases n,
{
    if n == 0 {
        1
    } else {
        256 * pow256((n - 1) as nat)
    }
}

/// The unsigned integer a byte sequence encodes little-endian: the first
/// byte is the least significant.
pub open spec fn spec_le_value(bytes: Seq<u8>) -> int
    decreases bytes.len(),
{
    if bytes.len() == 0 {
        0
    } else {
        bytes[0] + 256 * spec_le_value(bytes.skip(1))
    }
}

/// An unsigned `w`-byte value reinterpreted as two's-complement signed.
pub open spec fn spec_to_signed(v: int, w: nat) -> int {
    if 2 * v < pow256(w) {
        v
    } else {
        v - pow256(w)
    }
}

/// The `w` little-endian bytes of `v`, least significant first.
pub open spec fn spec_le_bytes(v: int, w: nat) -> Seq<u8>
    decreases w,
{
    if w == 0 {
        Seq::empty()
    } else {
        seq![(v % 256) as u8] + spec_le_bytes(v / 256, (w - 1) as nat)
    }
}

/// Powers of 256 are positive.
pub proof fn lemma_pow256_pos(n: nat)
    ensures
        pow256(n) >= 1,
    decreases n,
{
    if n > 0 {
        lemma_pow256_pos((n - 1) as nat);
    }
}

/// Powers of 256 grow with the exponent.
pub proof fn lemma_pow256_increases(a: nat, b: nat)
    requires
        a <= b,
    ensures
        pow256(a) <= pow256(b),
    decreases b,
{
    if a < b {
        lemma_pow256_increases(a, (b - 1) as nat);
        lemma_pow256_pos((b - 1) as nat);
    }
}

/// A byte sequence encodes a value between zero and 256 to its length.
pub proof fn lemma_le_value_bound(bytes: Seq<u8>)
    ensures
        0 <= spec_le_value(bytes) < pow256(bytes.len()),
    decreases bytes.len(),
{
    if bytes.len() > 0 {
        lemma_le_value_bound(bytes.skip(1));
    }
}

/// Decoding the bytes produced by the encoder gives the value back: the
/// little-endian codec round-trips for every value that fits in `w` bytes.
pub proof fn lemma_le_round_trip(v: int, w: nat)
    requires
        0 <= v < pow256(w),
    ensures
        spec_le_bytes(v, w).len() == w,
        spec_le_value(spec_le_bytes(v, w)) == v,
    decreases w,
{
    if w > 0 {
        let head: u8 = (v % 256) as u8;
        let rest = spec_le_bytes(v / 256, (w - 1) as nat);
        assert(0 <= v / 256 < pow256((w - 1) as nat)) by (nonlinear_arith)
            requires
                0 <= v < pow256(w),
                pow256(w) == 256 * pow256((w - 1) as nat),
        {}
        lemma_le_round_trip(v / 256, (w - 1) as nat);
        let whole = spec_le_bytes(v, w);
        assert(whole == seq![head] + rest);
        assert(whole[0] == head);
        assert(whole.skip(1) =~= rest);
    }
}

/// Reads the first `w` bytes (at most 16) of `bytes` as a little-endian
/// unsigned integer.
pub fn le_to_u128(bytes: &Vec<u8>, w: usize) -> (r: u128)
    requires
        w <= 16,
        bytes@.len() == w,
    ensures
        r == spec_le_value(bytes@),
{
    proof {
        lemma_le_value_bound(bytes@);
    }
    let mut acc: u128 = 0;
    let mut i: usize = w;
    proof {
        assert(bytes@.skip(w as int).len() == 0);
    }
    while i > 0
        invariant
            0 <= i <= w,
            w <= 16,
            bytes@.len() == w,
            acc == spec_le_value(bytes@.skip(i as int)),
        decreases i,
    {
        i = i - 1;
        proof {
            lemma_le_value_bound(bytes@.skip(i + 1));
            lemma_pow256_increases((w - i - 1) as nat, 15);
            assert(pow256(15) == 0x1000000000000000000000000000000) by {
                reveal_with_fuel(pow256, 16);
            }
            assert(bytes@.skip(i as int)[0] == bytes@[i as int]);
            assert(bytes@.skip(i as int).skip(1) =~= bytes@.skip(i + 1));
        }
        acc = acc * 256 + (bytes[i] as u128);
    }
    proof {
        assert(bytes@.skip(0) =~= bytes@);
    }
    acc
}

/// The `w` little-endian bytes (at most 16) of `v`, least significant
/// first. The value must fit.
pub fn u128_to_le(v: u128, w: usize) -> (r: Vec<u8>)
    requires
        w <= 16,
        v < pow256(w as nat),
    ensures
        r@ == spec_le_bytes(v as int, w as nat),
        r@.len() == w,
{
    let mut out: Vec<u8> = Vec::new();
    let mut cur: u128 = v;
    let mut j: usize = 0;
    while j < w
        invariant
            0 <= j <= w,
            spec_le_bytes(v as int, w as nat) == out@ + spec_le_bytes(cur as int, (w - j) as nat),
            out@.len() == j,
        decreases w - j,
    {
        let b: u8 = (cur % 256) as u8;
        proof {
            assert(spec_le_bytes(cur as int, (w - j) as nat) == seq![b] + spec_le_bytes(
                cur as int / 256,
                (w - j - 1) as nat,
            ));
            assert(out@ + spec_le_bytes(cur as int, (w - j) as nat) =~= out@.push(b)
                + spec_le_bytes(cur as int / 256, (w - j - 1) as nat));
        }
        out.push(b);
        cur = cur / 256;
        j = j + 1;
    }
    proof {
        assert(spec_le_bytes(cur as int, 0) == Seq::<u8>::empty());
        assert(out@ + Seq::<u8>::empty() =~= out@);
    }
    out
}

/// The powers of 256 at the widths the wire types use.
pub proof fn lemma_pow256_values()
    ensures
        pow256(1) == 0x100,
        pow256(2) == 0x10000,
        pow256(4) == 0x100000000,
        pow256(8) == 0x10000000000000000,
        pow256(16) == 0x100000000000000000000000000000000,
{
    reveal_with_fuel(pow256, 17);
}

} // verus!
