use vstd::prelude::*;

verus! {

/// `256` raised to the power `n`.
pub open spec fn pow256(n: nat) -> nat
    decreases n,
{
    if n == 0 {
        1
    } else {
        256 * pow256((n - 1) as nat)
    }
}

/// The unsigned number whose little-endian byte encoding is `s`.
pub open spec fn le_value(s: Seq<u8>) -> nat
    decreases s.len(),
{
    if s.len() == 0 {
        0
    } else {
        s[0] as nat + 256 * le_value(s.drop_first())
    }
}

/// The `n` lowest bytes of `v`, least significant first.
pub open spec fn le_encode(v: nat, n: nat) -> Seq<u8>
    decreases n,
{
    if n == 0 {
        Seq::empty()
    } else {
        seq![(v % 256) as u8] + le_encode(v / 256, (n - 1) as nat)
    }
}

pub proof fn lemma_pow256_pos(n: nat)
    ensures
        pow256(n) > 0,
    decreases n,
{
    if n > 0 {
        lemma_pow256_pos((n - 1) as nat);
    }
}

pub proof fn lemma_le_encode_len(v: nat, n: nat)
    ensures
        le_encode(v, n).len() == n,
    decreases n,
{
    if n > 0 {
        lemma_le_encode_len(v / 256, (n - 1) as nat);
    }
}

/// A value is bounded by the number of bytes that encode it.
pub proof fn lemma_le_value_bound(s: Seq<u8>)
    ensures
        le_value(s) < pow256(s.len()),
    decreases s.len(),
{
    if s.len() > 0 {
        lemma_le_value_bound(s.drop_first());
        let r = le_value(s.drop_first());
        let p = pow256((s.len() - 1) as nat);
        let b = s[0] as nat;
        assert(b + 256 * r < 256 * p) by (nonlinear_arith)
            requires
                b < 256,
                r < p,
        ;
    }
}

/// Decoding what was encoded gives back the value, for values that fit.
pub proof fn lemma_le_value_of_encode(v: nat, n: nat)
    requires
        v < pow256(n),
    ensures
        le_value(le_encode(v, n)) == v,
    decreases n,
{
    if n > 0 {
        let p = pow256((n - 1) as nat);
        assert(v / 256 < p) by (nonlinear_arith)
            requires
                v < 256 * p,
        ;
        lemma_le_value_of_encode(v / 256, (n - 1) as nat);
        let s = le_encode(v, n);
        assert(s.drop_first() =~= le_encode(v / 256, (n - 1) as nat));
        assert(v == v % 256 + 256 * (v / 256)) by (nonlinear_arith);
    }
}

/// Encoding a decoded byte sequence gives back the sequence.
pub proof fn lemma_le_encode_of_value(s: Seq<u8>)
    ensures
        le_encode(le_value(s), s.len()) == s,
    decreases s.len(),
{
    if s.len() > 0 {
        lemma_le_encode_of_value(s.drop_first());
        let r = le_value(s.drop_first());
        let b = s[0] as nat;
        let v = b + 256 * r;
        assert(v % 256 == b && v / 256 == r) by (nonlinear_arith)
            requires
                v == b + 256 * r,
                b < 256,
        ;
        assert(le_encode(v, s.len()) =~= s);
    }
}

/// Reads an unsigned little-endian number of at most 16 bytes.
pub fn read_le(bs: &[u8]) -> (r: u128)
    requires
        bs@.len() <= 16,
    ensures
        r as nat == le_value(bs@),
{
    let len = bs.len();
    let mut acc: u128 = 0;
    let mut i: usize = len;
    proof {
        assert(bs@.subrange(len as int, len as int) =~= Seq::<u8>::empty());
    }
    while i > 0
        invariant
            i <= len,
            len == bs@.len(),
            len <= 16,
            acc as nat == le_value(bs@.subrange(i as int, len as int)),
        decreases i,
    {
        let ghost old_i = i;
        i = i - 1;
        let b = bs[i];
        proof {
            let tail = bs@.subrange(old_i as int, len as int);
            let cur = bs@.subrange(i as int, len as int);
            assert(cur.drop_first() =~= tail);
            lemma_le_value_bound(tail);
            lemma_pow256_le_16((len - old_i) as nat);
            let p = pow256((len - old_i) as nat);
            assert(b as nat + 256 * (acc as nat) < 256 * p) by (nonlinear_arith)
                requires
                    (b as nat) < 256,
                    (acc as nat) < p,
            ;
            assert(256 * p <= pow256(16)) by {
                lemma_pow256_mono((len - old_i + 1) as nat, 16);
            }
            lemma_pow256_16();
        }
        acc = acc * 256 + b as u128;
    }
    proof {
        assert(bs@.subrange(0, len as int) =~= bs@);
    }
    acc
}

/// Writes the `n` lowest bytes of `v`, least significant first.
pub fn write_le(v: u128, n: usize) -> (r: Vec<u8>)
    requires
        n <= 16,
    ensures
        r@ == le_encode(v as nat, n as nat),
{
    let mut out: Vec<u8> = Vec::new();
    let mut cur: u128 = v;
    let mut i: usize = 0;
    while i < n
        invariant
            i <= n,
            out@ + le_encode(cur as nat, (n - i) as nat) == le_encode(v as nat, n as nat),
        decreases n - i,
    {
        let b = (cur % 256) as u8;
        proof {
            let rest = le_encode(cur as nat, (n - i) as nat);
            assert(rest == seq![b] + le_encode((cur / 256) as nat, (n - i - 1) as nat));
            assert(out@.push(b) + le_encode((cur / 256) as nat, (n - i - 1) as nat) =~= out@ + rest);
        }
        out.push(b);
        cur = cur / 256;
        i = i + 1;
    }
    proof {
        assert(le_encode(cur as nat, 0) =~= Seq::<u8>::empty());
        assert(out@ + Seq::<u8>::empty() =~= out@);
    }
    out
}

proof fn lemma_pow256_le_16(n: nat)
    requires
        n <= 15,
    ensures
        pow256(n + 1) <= pow256(16),
{
    lemma_pow256_mono(n + 1, 16);
}

/// `pow256` grows with its exponent.
pub proof fn lemma_pow256_mono(a: nat, b: nat)
    requires
        a <= b,
    ensures
        pow256(a) <= pow256(b),
    decreases b,
{
    if a < b {
        lemma_pow256_mono(a, (b - 1) as nat);
        lemma_pow256_pos((b - 1) as nat);
    }
}

/// `pow256(4)` is one more than the largest `u32`.
pub proof fn lemma_pow256_4()
    ensures
        pow256(4) == 0x1_0000_0000,
{
    reveal_with_fuel(pow256, 5);
}

/// `pow256(8)` is one more than the largest `u64`.
pub proof fn lemma_pow256_8()
    ensures
        pow256(8) == 0x1_0000_0000_0000_0000,
{
    reveal_with_fuel(pow256, 9);
}

/// `pow256(16)` exceeds every `u128`.
pub proof fn lemma_pow256_16()
    ensures
        pow256(16) == 0x1_0000_0000_0000_0000_0000_0000_0000_0000,
{
    reveal_with_fuel(pow256, 17);
}

/// The little-endian 4-byte words that make up `bytes`, the first word first.
pub open spec fn le_words(bytes: Seq<u8>) -> Seq<u32> {
    Seq::new(bytes.len() / 4, |k: int| le_value(bytes.subrange(4 * k, 4 * k + 4)) as u32)
}

/// Splits bytes into little-endian 4-byte words.
pub fn split_le_words(bytes: &[u8]) -> (r: Vec<u32>)
    requires
        bytes@.len() % 4 == 0,
    ensures
        r@ == le_words(bytes@),
{
    let mut r: Vec<u32> = Vec::new();
    let mut k: usize = 0;
    let len = bytes.len();
    let n = len / 4;
    while k < n
        invariant
            len == bytes@.len(),
            n == bytes@.len() / 4,
            bytes@.len() % 4 == 0,
            k <= n,
            r@.len() == k,
            forall|j: int| 0 <= j < k ==> #[trigger] r@[j] == le_words(bytes@)[j],
        decreases n - k,
    {
        assert(4 * k + 4 <= len) by (nonlinear_arith)
            requires
                k < n,
                n == len / 4,
        ;
        let chunk = vstd::slice::slice_subrange(bytes, 4 * k, 4 * k + 4);
        proof {
            lemma_le_value_bound(chunk@);
            lemma_pow256_4();
        }
        let w = read_le(chunk);
        r.push(w as u32);
        k = k + 1;
    }
    assert(r@ =~= le_words(bytes@));
    r
}

/// Each word, written back in little-endian order, gives the four bytes it was read from.
pub proof fn law_le_words_round_trip(bytes: Seq<u8>, k: int)
    requires
        bytes.len() % 4 == 0,
        0 <= k < bytes.len() / 4,
    ensures
        le_encode(le_words(bytes)[k] as nat, 4) == bytes.subrange(4 * k, 4 * k + 4),
{
    let chunk = bytes.subrange(4 * k, 4 * k + 4);
    lemma_le_value_bound(chunk);
    lemma_pow256_4();
    lemma_le_encode_of_value(chunk);
}

} // verus!
