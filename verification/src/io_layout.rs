use crate::typed::{law_decode_encode, vals_have_types, Val, ValType, ValTypeByteCount};
use vstd::arithmetic::div_mod::{
    lemma_div_multiples_vanish, lemma_fundamental_div_mod, lemma_mod_multiples_basic,
    lemma_mod_self_0,
};
use vstd::prelude::*;
use vstd::slice::slice_subrange;

verus! {

/// How arguments and results are laid out in the buffers that the device reads and writes.
#[derive(Debug, Clone, Copy, PartialEq, Eq, Structural)]
pub struct IoAlignment {
    /// Every argument starts on a multiple of this many 4-byte words.
    pub argument_words: u32,
    /// Every invocation's block of arguments starts on a multiple of this many words.
    pub invocation_words: u32,
}

impl IoAlignment {
    pub open spec fn wf(self) -> bool {
        &&& self.argument_words > 0
        &&& self.invocation_words > 0
        &&& 4 * self.argument_words <= u32::MAX
        &&& 4 * self.invocation_words <= u32::MAX
    }

    /// The alignment of an argument, in bytes.
    pub open spec fn argument_bytes(self) -> nat {
        4 * self.argument_words as nat
    }

    /// The alignment of an invocation's block, in bytes.
    pub open spec fn invocation_bytes(self) -> nat {
        4 * self.invocation_words as nat
    }
}

/// The smallest multiple of `m` that is at least `n`.
pub open spec fn round_up(n: nat, m: nat) -> nat {
    if n % m == 0 {
        n
    } else {
        (n / m + 1) * m
    }
}

pub proof fn lemma_round_up(n: nat, m: nat)
    requires
        m > 0,
    ensures
        n <= round_up(n, m) < n + m,
        round_up(n, m) % m == 0,
{
    assert(n == (n / m) * m + n % m) by (nonlinear_arith)
        requires
            m > 0,
    ;
    if n % m != 0 {
        assert(((n / m + 1) * m) % m == 0) by (nonlinear_arith)
            requires
                m > 0,
        ;
        assert(n < (n / m + 1) * m < n + m) by (nonlinear_arith)
            requires
                m > 0,
                n == (n / m) * m + n % m,
                0 < n % m < m,
        ;
    }
}

/// No multiple of `m` between `n` and `round_up(n, m)` is smaller than it.
pub proof fn lemma_round_up_min(n: nat, m: nat, k: nat)
    requires
        m > 0,
        k % m == 0,
        n <= k,
    ensures
        round_up(n, m) <= k,
{
    assert(n == (n / m) * m + n % m) by (nonlinear_arith)
        requires
            m > 0,
    ;
    assert(k == (k / m) * m) by (nonlinear_arith)
        requires
            m > 0,
            k % m == 0,
    ;
    if n % m != 0 {
        assert((n / m + 1) * m <= k) by (nonlinear_arith)
            requires
                m > 0,
                k == (k / m) * m,
                n <= k,
                n == (n / m) * m + n % m,
                0 < n % m,
        ;
    }
}

/// Two multiples of `m` less than `m` apart are equal.
pub proof fn lemma_unique_multiple(a: int, b: int, m: int)
    requires
        m > 0,
        a % m == 0,
        b % m == 0,
        a <= b < a + m,
    ensures
        a == b,
{
    lemma_fundamental_div_mod(a, m);
    lemma_fundamental_div_mod(b, m);
    let ka = a / m;
    let kb = b / m;
    assert(ka <= kb) by (nonlinear_arith)
        requires
            m * ka <= m * kb,
            m > 0,
    ;
    assert(kb < ka + 1) by (nonlinear_arith)
        requires
            m * kb < m * ka + m,
            m > 0,
    ;
}

/// Rounding up to a multiple commutes with scaling both numbers by the same factor.
pub proof fn lemma_round_up_scale(n: nat, m: nat, c: nat)
    requires
        m > 0,
        c > 0,
    ensures
        round_up(c * n, c * m) == c * round_up(n, m),
{
    lemma_round_up(n, m);
    let r = round_up(n, m);
    let cm = c * m;
    assert(cm > 0) by (nonlinear_arith)
        requires
            cm == c * m,
            c > 0,
            m > 0,
    ;
    lemma_round_up(c * n, cm);
    let q = round_up(c * n, cm);
    lemma_fundamental_div_mod(r as int, m as int);
    let k = r / m;
    assert(c * r == k * cm) by (nonlinear_arith)
        requires
            r == m * k,
            cm == c * m,
    ;
    lemma_mod_multiples_basic(k as int, cm as int);
    assert(c * n <= c * r && c * r < c * n + cm) by (nonlinear_arith)
        requires
            n <= r < n + m,
            c > 0,
            cm == c * m,
    ;
    if q <= c * r {
        lemma_unique_multiple(q as int, (c * r) as int, cm as int);
    } else {
        lemma_unique_multiple((c * r) as int, q as int, cm as int);
    }
}

/// A byte count of at most 16 rounds up to at most the alignment or to less than 32 bytes.
pub proof fn lemma_round_up_small(n: nat, m: nat)
    requires
        m > 0,
        n <= 16,
    ensures
        round_up(n, m) <= if m >= 32 {
            m
        } else {
            32
        },
{
    lemma_round_up(n, m);
    if n <= m {
        lemma_mod_self_0(m as int);
        lemma_round_up_min(n, m, m);
    }
}

/// Rounds `n` up to a multiple of `m`.
pub fn next_multiple_u32(n: u32, m: u32) -> (r: u32)
    requires
        m > 0,
        round_up(n as nat, m as nat) <= u32::MAX,
    ensures
        r == round_up(n as nat, m as nat),
{
    if n % m == 0 {
        n
    } else {
        proof {
            assert(n + (m - n % m) == (n / m + 1) * m) by (nonlinear_arith)
                requires
                    m > 0,
            ;
        }
        n + (m - n % m)
    }
}

/// Rounds `n` up to a multiple of `m`.
pub fn next_multiple_u64(n: u64, m: u64) -> (r: u64)
    requires
        m > 0,
        round_up(n as nat, m as nat) <= u64::MAX,
    ensures
        r == round_up(n as nat, m as nat),
{
    if n % m == 0 {
        n
    } else {
        proof {
            assert(n + (m - n % m) == (n / m + 1) * m) by (nonlinear_arith)
                requires
                    m > 0,
            ;
        }
        n + (m - n % m)
    }
}

/// The bytes that an argument or result of type `ty` occupies, padding included.
pub open spec fn slot_bytes(ty: ValType, al: IoAlignment) -> nat {
    round_up(ty.spec_byte_count() as nat, al.argument_bytes())
}

/// The bytes that arguments or results of the given types occupy one after another, padding
/// included.
pub open spec fn slots_bytes(tys: Seq<ValType>, al: IoAlignment) -> nat
    decreases tys.len(),
{
    if tys.len() == 0 {
        0
    } else {
        slots_bytes(tys.drop_last(), al) + slot_bytes(tys.last(), al)
    }
}

/// The words that arguments of the given types occupy one after another, padding included.
pub open spec fn slots_words(tys: Seq<ValType>, al: IoAlignment) -> nat
    decreases tys.len(),
{
    if tys.len() == 0 {
        0
    } else {
        slots_words(tys.drop_last(), al) + slot_bytes(tys.last(), al) / 4
    }
}

/// The words that one invocation's arguments occupy in the input buffer.
pub open spec fn spec_word_alignment(tys: Seq<ValType>, al: IoAlignment) -> nat {
    round_up(slots_words(tys, al), al.invocation_words as nat)
}

/// The bytes that one invocation's results occupy in the output buffer.
pub open spec fn spec_output_instance_len(tys: Seq<ValType>, al: IoAlignment) -> nat {
    round_up(slots_bytes(tys, al), al.invocation_bytes())
}

proof fn lemma_slots_words_bytes(tys: Seq<ValType>, al: IoAlignment)
    requires
        al.wf(),
    ensures
        slots_bytes(tys, al) == 4 * slots_words(tys, al),
    decreases tys.len(),
{
    if tys.len() > 0 {
        lemma_slots_words_bytes(tys.drop_last(), al);
        let b = tys.last().spec_byte_count() as nat;
        let m = al.argument_words as nat;
        lemma_round_up(b, 4 * m);
        let s = slot_bytes(tys.last(), al);
        lemma_fundamental_div_mod(s as int, (4 * m) as int);
        let k = s / (4 * m);
        assert(s == 4 * (m * k)) by (nonlinear_arith)
            requires
                s == (4 * m) * k,
        ;
        lemma_div_multiples_vanish((m * k) as int, 4);
    }
}

proof fn lemma_slots_prefix(tys: Seq<ValType>, i: int, al: IoAlignment)
    requires
        0 <= i <= tys.len(),
    ensures
        slots_words(tys.take(i), al) <= slots_words(tys, al),
        slots_bytes(tys.take(i), al) <= slots_bytes(tys, al),
    decreases tys.len() - i,
{
    if i < tys.len() {
        lemma_slots_prefix(tys, i + 1, al);
        assert(tys.take(i + 1).drop_last() =~= tys.take(i));
    } else {
        assert(tys.take(i) =~= tys);
    }
}

/// The results of one invocation occupy, in bytes, four times the words that its arguments of
/// the same types occupy: results are read back at the positions that arguments are laid out at.
pub proof fn law_output_len_is_word_alignment_in_bytes(tys: Seq<ValType>, al: IoAlignment)
    requires
        al.wf(),
    ensures
        spec_output_instance_len(tys, al) == 4 * spec_word_alignment(tys, al),
{
    lemma_slots_words_bytes(tys, al);
    lemma_round_up_scale(slots_words(tys, al), al.invocation_words as nat, 4);
}

/// An invocation's block holds the padded slots of all its values, ends on the invocation
/// alignment, and is no longer than it must be to do both.
pub proof fn law_block_fits_its_slots(tys: Seq<ValType>, al: IoAlignment)
    requires
        al.wf(),
    ensures
        slots_bytes(tys, al) <= spec_output_instance_len(tys, al),
        spec_output_instance_len(tys, al) % al.invocation_bytes() == 0,
        spec_output_instance_len(tys, al) < slots_bytes(tys, al) + al.invocation_bytes(),
        forall|j: int|
            0 <= j < tys.len() ==> slots_bytes(tys.take(j), al) + (#[trigger] tys[j]).spec_byte_count()
                <= spec_output_instance_len(tys, al),
{
    lemma_round_up(slots_bytes(tys, al), al.invocation_bytes());
    assert forall|j: int| 0 <= j < tys.len() implies slots_bytes(tys.take(j), al)
        + (#[trigger] tys[j]).spec_byte_count() <= spec_output_instance_len(tys, al) by {
        lemma_slot_within(tys, j, al);
    }
}

/// Calculates the word alignment in memory (i.e. buffer bindings) that arguments of these types
/// must occupy.
pub fn word_alignment(tys: &[ValType], al: IoAlignment) -> (r: u32)
    requires
        al.wf(),
        spec_word_alignment(tys@, al) <= u32::MAX,
    ensures
        r == spec_word_alignment(tys@, al),
{
    let mut word_offset: u32 = 0;
    let mut i: usize = 0;
    proof {
        lemma_round_up(slots_words(tys@, al), al.invocation_words as nat);
    }
    while i < tys.len()
        invariant
            al.wf(),
            i <= tys@.len(),
            word_offset == slots_words(tys@.take(i as int), al),
            slots_words(tys@, al) <= u32::MAX,
        decreases tys.len() - i,
    {
        proof {
            assert(tys@.take(i + 1).drop_last() =~= tys@.take(i as int));
            lemma_slots_prefix(tys@, i + 1, al);
            lemma_round_up(tys@[i as int].spec_byte_count() as nat, al.argument_bytes());
            lemma_round_up_small(tys@[i as int].spec_byte_count() as nat, al.argument_bytes());
        }
        let slot = next_multiple_u32(tys[i].byte_count() as u32, al.argument_words * 4);
        word_offset = word_offset + slot / 4;
        i = i + 1;
    }
    proof {
        assert(tys@.take(tys@.len() as int) =~= tys@);
    }
    next_multiple_u32(word_offset, al.invocation_words)
}

/// The bytes that one invocation's results of these types occupy in the output buffer.
pub fn output_instance_len(tys: &[ValType], al: IoAlignment) -> (r: u64)
    requires
        al.wf(),
        spec_output_instance_len(tys@, al) <= u64::MAX,
    ensures
        r == spec_output_instance_len(tys@, al),
{
    let mut output_length: u64 = 0;
    let mut i: usize = 0;
    proof {
        lemma_round_up(slots_bytes(tys@, al), al.invocation_bytes());
    }
    while i < tys.len()
        invariant
            al.wf(),
            i <= tys@.len(),
            output_length == slots_bytes(tys@.take(i as int), al),
            slots_bytes(tys@, al) <= u64::MAX,
        decreases tys.len() - i,
    {
        proof {
            assert(tys@.take(i + 1).drop_last() =~= tys@.take(i as int));
            lemma_slots_prefix(tys@, i + 1, al);
        }
        let bs = tys[i].byte_count() as u64;
        proof {
            lemma_round_up(bs as nat, al.argument_bytes());
            lemma_round_up_small(bs as nat, al.argument_bytes());
        }
        output_length = output_length + next_multiple_u64(bs, (al.argument_words * 4) as u64);
        i = i + 1;
    }
    proof {
        assert(tys@.take(tys@.len() as int) =~= tys@);
    }
    next_multiple_u64(output_length, (al.invocation_words * 4) as u64)
}


/// `n` zero bytes.
pub open spec fn zeros(n: nat) -> Seq<u8> {
    Seq::new(n, |i: int| 0u8)
}

/// `s` followed by zero bytes up to the next multiple of `m` bytes.
pub open spec fn pad_to(s: Seq<u8>, m: nat) -> Seq<u8> {
    s + zeros((round_up(s.len(), m) - s.len()) as nat)
}

/// `data` followed by the bytes of each value, each padded to the argument alignment.
pub open spec fn append_args(data: Seq<u8>, vals: Seq<Val>, al: IoAlignment) -> Seq<u8>
    decreases vals.len(),
{
    if vals.len() == 0 {
        data
    } else {
        pad_to(
            append_args(data, vals.drop_last(), al) + vals.last().spec_to_bytes(),
            al.argument_bytes(),
        )
    }
}

/// The arguments of each invocation in turn, each invocation's block padded to the invocation
/// alignment.
pub open spec fn append_invocations(args: Seq<Seq<Val>>, al: IoAlignment) -> Seq<u8>
    decreases args.len(),
{
    if args.len() == 0 {
        Seq::empty()
    } else {
        pad_to(
            append_args(append_invocations(args.drop_last(), al), args.last(), al),
            al.invocation_bytes(),
        )
    }
}

/// The smallest size of a buffer handed to the device.
pub open spec fn min_buffer_len() -> nat {
    128
}

/// The contents of the input buffer for the given invocations' arguments.
pub open spec fn spec_input_bytes(args: Seq<Seq<Val>>, al: IoAlignment) -> Seq<u8> {
    let data = append_invocations(args, al);
    if data.len() < min_buffer_len() {
        data + zeros((min_buffer_len() - data.len()) as nat)
    } else {
        data
    }
}

/// Appends zero bytes up to the next multiple of `m` bytes.
fn pad_in_place(data: &mut Vec<u8>, m: usize)
    requires
        m > 0,
    ensures
        final(data)@ == pad_to(old(data)@, m as nat),
{
    let ghost start = data@;
    proof {
        lemma_round_up(start.len(), m as nat);
        assert(data@ =~= start + zeros(0));
    }
    while data.len() % m != 0
        invariant
            m > 0,
            start.len() <= data@.len() <= round_up(start.len(), m as nat),
            data@ == start + zeros((data@.len() - start.len()) as nat),
            round_up(start.len(), m as nat) % (m as nat) == 0,
        decreases round_up(start.len(), m as nat) - data@.len(),
    {
        data.push(0u8);
        proof {
            assert(data@ =~= start + zeros((data@.len() - start.len()) as nat));
        }
    }
    proof {
        lemma_round_up_min(start.len(), m as nat, data@.len());
    }
}

/// Lays out each invocation's arguments for the input buffer.
pub fn input_bytes(args: &[Vec<Val>], al: IoAlignment) -> (r: Vec<u8>)
    requires
        al.wf(),
    ensures
        r@ == spec_input_bytes(args@.map_values(|v: Vec<Val>| v@), al),
{
    let ghost arg_seqs = args@.map_values(|v: Vec<Val>| v@);
    let mut data: Vec<u8> = Vec::new();
    let mut i: usize = 0;
    while i < args.len()
        invariant
            al.wf(),
            i <= args@.len(),
            arg_seqs == args@.map_values(|v: Vec<Val>| v@),
            data@ == append_invocations(arg_seqs.take(i as int), al),
        decreases args.len() - i,
    {
        let input_set = &args[i];
        let ghost before = data@;
        let mut j: usize = 0;
        while j < input_set.len()
            invariant
                al.wf(),
                j <= input_set@.len(),
                data@ == append_args(before, input_set@.take(j as int), al),
            decreases input_set.len() - j,
        {
            let mut bytes = input_set[j].to_bytes();
            data.append(&mut bytes);
            pad_in_place(&mut data, (al.argument_words * 4) as usize);
            proof {
                assert(input_set@.take(j + 1).drop_last() =~= input_set@.take(j as int));
            }
            j = j + 1;
        }
        pad_in_place(&mut data, (al.invocation_words * 4) as usize);
        proof {
            assert(input_set@.take(input_set@.len() as int) =~= input_set@);
            assert(arg_seqs.take(i + 1).drop_last() =~= arg_seqs.take(i as int));
            assert(arg_seqs.take(i + 1).last() == input_set@);
        }
        i = i + 1;
    }
    proof {
        assert(arg_seqs.take(args@.len() as int) =~= arg_seqs);
    }
    let ghost body = data@;
    while data.len() < 128
        invariant
            body.len() <= data@.len() <= if body.len() < 128 {
                128
            } else {
                body.len()
            },
            data@ == body + zeros((data@.len() - body.len()) as nat),
        decreases 128 - data@.len(),
    {
        data.push(0u8);
        proof {
            assert(data@ =~= body + zeros((data@.len() - body.len()) as nat));
        }
    }
    proof {
        if body.len() >= 128 {
            assert(data@ =~= body);
        }
    }
    data
}


/// The bytes of slot `j` of a block laid out for values of the types `tys`, the block starting
/// at byte `start` of `s`: as many bytes as a value of type `tys[j]` has, after the padded slots
/// of the values before it.
pub open spec fn slot_at(s: Seq<u8>, start: int, tys: Seq<ValType>, j: int, al: IoAlignment) -> Seq<
    u8,
> {
    let p = start + slots_bytes(tys.take(j), al);
    s.subrange(p, p + tys[j].spec_byte_count() as int)
}

/// Slot `j` of invocation `n`'s block, each invocation's block taking the output length of
/// values of the types `tys`.
pub open spec fn invocation_slot(
    s: Seq<u8>,
    n: int,
    tys: Seq<ValType>,
    j: int,
    al: IoAlignment,
) -> Seq<u8> {
    slot_at(s, n * spec_output_instance_len(tys, al), tys, j, al)
}

/// The values of the given types read from their slots in `out`, the first slot starting at
/// byte `start`.
pub open spec fn spec_read_slots(tys: Seq<ValType>, out: Seq<u8>, start: int, al: IoAlignment) -> Seq<
    Val,
> {
    Seq::new(tys.len(), |j: int| Val::spec_from_bytes(tys[j], slot_at(out, start, tys, j, al)))
}

proof fn lemma_slot_holds_value(ty: ValType, al: IoAlignment)
    requires
        al.wf(),
    ensures
        ty.spec_byte_count() <= slot_bytes(ty, al),
        slot_bytes(ty, al) % al.argument_bytes() == 0,
        slot_bytes(ty, al) <= if al.argument_bytes() >= 32 {
            al.argument_bytes()
        } else {
            32
        },
{
    lemma_round_up(ty.spec_byte_count() as nat, al.argument_bytes());
    lemma_round_up_small(ty.spec_byte_count() as nat, al.argument_bytes());
}

/// Reads values of the given types from their slots, the first slot starting at byte `start`.
pub fn read_slots(tys: &[ValType], out: &[u8], start: usize, al: IoAlignment) -> (r: Vec<Val>)
    requires
        al.wf(),
        start + slots_bytes(tys@, al) <= out@.len(),
    ensures
        r@ == spec_read_slots(tys@, out@, start as int, al),
{
    let mut results: Vec<Val> = Vec::new();
    let mut offset: usize = start;
    let mut i: usize = 0;
    while i < tys.len()
        invariant
            al.wf(),
            i <= tys@.len(),
            start + slots_bytes(tys@, al) <= out@.len(),
            offset == start + slots_bytes(tys@.take(i as int), al),
            results@.len() == i,
            forall|k: int|
                0 <= k < i ==> #[trigger] results@[k] == Val::spec_from_bytes(
                    tys@[k],
                    slot_at(out@, start as int, tys@, k, al),
                ),
        decreases tys.len() - i,
    {
        let ty = tys[i];
        proof {
            assert(tys@.take(i + 1).drop_last() =~= tys@.take(i as int));
            assert(tys@.take(i + 1).last() == ty);
            lemma_slots_prefix(tys@, i + 1, al);
            lemma_slot_holds_value(ty, al);
            assert(slots_bytes(tys@.take(i + 1), al) == slots_bytes(tys@.take(i as int), al)
                + slot_bytes(ty, al));
        }
        let byte_count = ty.byte_count() as usize;
        let out_len = out.len();
        proof {
            assert(offset + slot_bytes(ty, al) <= out_len);
        }
        let part = slice_subrange(out, offset, offset + byte_count);
        results.push(ty.try_from_bytes(part).unwrap());
        offset = offset + next_multiple_u32(byte_count as u32, al.argument_words * 4) as usize;
        i = i + 1;
    }
    assert(results@ =~= spec_read_slots(tys@, out@, start as int, al));
    results
}

/// Collects the results of each invocation: the trap that stopped it, or the values that it
/// returned, read from its block of the output buffer.
pub fn extract_results<T: Copy>(ret_tys: &[ValType], traps: &[Option<T>], output: &[u8], al: IoAlignment) -> (r: Vec<Result<Vec<Val>, T>>)
    requires
        al.wf(),
        traps@.len() * spec_output_instance_len(ret_tys@, al) <= output@.len(),
    ensures
        r@.len() == traps@.len(),
        forall|i: int|
            0 <= i < traps@.len() ==> match #[trigger] traps@[i] {
                Some(t) => r@[i] == Err::<Vec<Val>, T>(t),
                None => r@[i] matches Ok(v) && v@ == spec_read_slots(
                    ret_tys@,
                    output@,
                    i * spec_output_instance_len(ret_tys@, al),
                    al,
                ),
            },
{
    let ghost len = spec_output_instance_len(ret_tys@, al);
    proof {
        lemma_round_up(slots_bytes(ret_tys@, al), al.invocation_bytes());
        if traps@.len() > 0 {
            assert(len <= traps@.len() * len) by (nonlinear_arith)
                requires
                    traps@.len() > 0,
            ;
        }
    }
    let output_len: usize = if traps.len() == 0 {
        0
    } else {
        let total = output.len();
        proof {
            assert(len <= total);
        }
        output_instance_len(ret_tys, al) as usize
    };
    let mut results: Vec<Result<Vec<Val>, T>> = Vec::new();
    let mut i: usize = 0;
    let total = output.len();
    while i < traps.len()
        invariant
            al.wf(),
            i <= traps@.len(),
            len == spec_output_instance_len(ret_tys@, al),
            slots_bytes(ret_tys@, al) <= len,
            traps@.len() * len <= output@.len(),
            total == output@.len(),
            traps@.len() > 0 ==> output_len == len,
            results@.len() == i,
            forall|k: int|
                0 <= k < i ==> match #[trigger] traps@[k] {
                    Some(t) => results@[k] == Err::<Vec<Val>, T>(t),
                    None => results@[k] matches Ok(v) && v@ == spec_read_slots(
                        ret_tys@,
                        output@,
                        k * len,
                        al,
                    ),
                },
        decreases traps.len() - i,
    {
        match traps[i] {
            Some(trap) => {
                results.push(Err(trap));
            },
            None => {
                proof {
                    assert((i + 1) * len <= traps@.len() * len) by (nonlinear_arith)
                        requires
                            i + 1 <= traps@.len(),
                    ;
                    assert(i * len + len == (i + 1) * len) by (nonlinear_arith);
                    assert(output_len * i == i * len) by (nonlinear_arith)
                        requires
                            output_len == len,
                    ;
                }
                let output_offset = output_len * i;
                let values = read_slots(ret_tys, output, output_offset, al);
                results.push(Ok(values));
            },
        }
        i = i + 1;
    }
    results
}

} // verus!

verus! {

/// The sum of two multiples of `m` is a multiple of `m`.
proof fn lemma_add_multiples(a: nat, b: nat, m: nat)
    requires
        m > 0,
        a % m == 0,
        b % m == 0,
    ensures
        (a + b) % m == 0,
{
    lemma_fundamental_div_mod(a as int, m as int);
    lemma_fundamental_div_mod(b as int, m as int);
    let ka = a / m;
    let kb = b / m;
    assert(a + b == (ka + kb) * m) by (nonlinear_arith)
        requires
            a == m * ka,
            b == m * kb,
    ;
    lemma_mod_multiples_basic((ka + kb) as int, m as int);
}

/// A multiple of a multiple of `a` is a multiple of `a`.
proof fn lemma_multiple_of_multiple(x: nat, a: nat, b: nat)
    requires
        a > 0,
        b > 0,
        x % b == 0,
        b % a == 0,
    ensures
        x % a == 0,
{
    lemma_fundamental_div_mod(x as int, b as int);
    lemma_fundamental_div_mod(b as int, a as int);
    let kx = x / b;
    let kb = b / a;
    assert(x == (kx * kb) * a) by (nonlinear_arith)
        requires
            x == b * kx,
            b == a * kb,
    ;
    lemma_mod_multiples_basic((kx * kb) as int, a as int);
}

/// Rounding up commutes with adding a multiple of the modulus.
proof fn lemma_round_up_shift(p: nat, n: nat, m: nat)
    requires
        m > 0,
        p % m == 0,
    ensures
        round_up(p + n, m) == p + round_up(n, m),
{
    lemma_round_up(n, m);
    lemma_round_up(p + n, m);
    let r = round_up(n, m);
    let q = round_up(p + n, m);
    lemma_add_multiples(p, r, m);
    if q <= p + r {
        lemma_unique_multiple(q as int, (p + r) as int, m as int);
    } else {
        lemma_unique_multiple((p + r) as int, q as int, m as int);
    }
}

/// Slots are laid out on the argument alignment.
proof fn lemma_slots_bytes_aligned(tys: Seq<ValType>, al: IoAlignment)
    requires
        al.wf(),
    ensures
        slots_bytes(tys, al) % al.argument_bytes() == 0,
    decreases tys.len(),
{
    if tys.len() > 0 {
        lemma_slots_bytes_aligned(tys.drop_last(), al);
        lemma_slot_holds_value(tys.last(), al);
        lemma_add_multiples(
            slots_bytes(tys.drop_last(), al),
            slot_bytes(tys.last(), al),
            al.argument_bytes(),
        );
    } else {
        let a = al.argument_bytes();
        assert(0nat % a == 0) by (nonlinear_arith)
            requires
                a > 0,
        ;
    }
}

/// Slot `j` ends within the slots of all the types.
proof fn lemma_slot_within(tys: Seq<ValType>, j: int, al: IoAlignment)
    requires
        al.wf(),
        0 <= j < tys.len(),
    ensures
        slots_bytes(tys.take(j), al) + tys[j].spec_byte_count() <= slots_bytes(tys, al),
{
    lemma_slots_prefix(tys, j + 1, al);
    lemma_slot_holds_value(tys[j], al);
    assert(tys.take(j + 1).drop_last() =~= tys.take(j));
    assert(tys.take(j + 1).last() == tys[j]);
}

/// The bytes at positions `p..q` of a sequence that starts with `small` are those of `small`.
proof fn lemma_prefix_subrange(big: Seq<u8>, small: Seq<u8>, p: int, q: int)
    requires
        small.len() <= big.len(),
        big.subrange(0, small.len() as int) == small,
        0 <= p <= q <= small.len(),
    ensures
        big.subrange(p, q) == small.subrange(p, q),
{
    assert forall|k: int| 0 <= k < q - p implies big.subrange(p, q)[k] == small.subrange(p, q)[k] by {
        assert(big.subrange(0, small.len() as int)[p + k] == big[p + k]);
    }
    assert(big.subrange(p, q) =~= small.subrange(p, q));
}

/// Padding keeps what was there.
proof fn lemma_pad_to_prefix(s: Seq<u8>, m: nat)
    requires
        m > 0,
    ensures
        pad_to(s, m).len() == round_up(s.len(), m),
        pad_to(s, m).subrange(0, s.len() as int) == s,
{
    lemma_round_up(s.len(), m);
    assert(pad_to(s, m).subrange(0, s.len() as int) =~= s);
}

/// Appending values whose types are `tys` to a buffer whose length is a multiple of the argument
/// alignment adds their padded slots, each value's bytes in its slot.
proof fn lemma_append_args(data: Seq<u8>, vals: Seq<Val>, tys: Seq<ValType>, al: IoAlignment)
    requires
        al.wf(),
        data.len() % al.argument_bytes() == 0,
        vals_have_types(vals, tys),
    ensures
        append_args(data, vals, al).len() == data.len() + slots_bytes(tys, al),
        append_args(data, vals, al).subrange(0, data.len() as int) == data,
        forall|j: int|
            0 <= j < vals.len() ==> #[trigger] slot_at(
                append_args(data, vals, al),
                data.len() as int,
                tys,
                j,
                al,
            ) == vals[j].spec_to_bytes(),
    decreases vals.len(),
{
    if vals.len() == 0 {
        assert(data.subrange(0, data.len() as int) =~= data);
    } else {
        let a = al.argument_bytes();
        let vs = vals.drop_last();
        let ts = tys.drop_last();
        let last = vals.last();
        assert(vals_have_types(vs, ts));
        lemma_append_args(data, vs, ts, al);
        let x = append_args(data, vs, al);
        let b = last.spec_to_bytes();
        law_decode_encode(last);
        assert(last.spec_get_type() == tys.last());
        lemma_slots_bytes_aligned(ts, al);
        lemma_add_multiples(data.len(), slots_bytes(ts, al), a);
        lemma_round_up_shift(x.len(), b.len(), a);
        let xb = x + b;
        let y = append_args(data, vals, al);
        assert(y == pad_to(xb, a));
        lemma_pad_to_prefix(xb, a);
        assert(xb.subrange(0, x.len() as int) =~= x);
        lemma_prefix_subrange(y, xb, 0, x.len() as int);
        lemma_prefix_subrange(y, xb, 0, data.len() as int);
        lemma_prefix_subrange(xb, x, 0, data.len() as int);
        assert forall|j: int| 0 <= j < vals.len() implies #[trigger] slot_at(
            y,
            data.len() as int,
            tys,
            j,
            al,
        ) == vals[j].spec_to_bytes() by {
            let d = data.len() as int;
            if j < vals.len() - 1 {
                assert(tys.take(j) =~= ts.take(j));
                lemma_slot_within(ts, j, al);
                let p = d + slots_bytes(ts.take(j), al);
                let q = p + ts[j].spec_byte_count();
                lemma_prefix_subrange(y, xb, p, q);
                lemma_prefix_subrange(xb, x, p, q);
                assert(slot_at(x, d, ts, j, al) == vs[j].spec_to_bytes());
            } else {
                assert(tys.take(j) =~= ts);
                let p = x.len() as int;
                let q = p + b.len();
                lemma_prefix_subrange(y, xb, p, q);
                assert(xb.subrange(p, q) =~= b);
            }
        }
    }
}

/// Laying out invocations whose arguments all have the types `tys` gives each invocation a
/// block of the output length, each argument's bytes in its slot.
proof fn lemma_append_invocations(args: Seq<Seq<Val>>, tys: Seq<ValType>, al: IoAlignment)
    requires
        al.wf(),
        al.invocation_words % al.argument_words == 0,
        forall|k: int| 0 <= k < args.len() ==> vals_have_types(#[trigger] args[k], tys),
    ensures
        append_invocations(args, al).len() == args.len() * spec_output_instance_len(tys, al),
        forall|n: int, j: int|
            0 <= n < args.len() && 0 <= j < tys.len() ==> #[trigger] invocation_slot(
                append_invocations(args, al),
                n,
                tys,
                j,
                al,
            ) == args[n][j].spec_to_bytes(),
    decreases args.len(),
{
    let len = spec_output_instance_len(tys, al);
    let a = al.argument_bytes();
    let ib = al.invocation_bytes();
    lemma_round_up(slots_bytes(tys, al), ib);
    if args.len() > 0 {
        let m = args.len();
        let prev = args.drop_last();
        let last = args.last();
        assert forall|k: int| 0 <= k < prev.len() implies vals_have_types(
            #[trigger] prev[k],
            tys,
        ) by {
            assert(prev[k] == args[k]);
        }
        lemma_append_invocations(prev, tys, al);
        let x = append_invocations(prev, al);
        assert(vals_have_types(last, tys));
        // The invocation blocks so far end on the invocation alignment, hence on the argument one.
        lemma_fundamental_div_mod(len as int, ib as int);
        let kl = len / ib;
        assert(x.len() == ((m - 1) * kl) * ib) by (nonlinear_arith)
            requires
                x.len() == (m - 1) * len,
                len == ib * kl,
        ;
        lemma_mod_multiples_basic(((m - 1) * kl) as int, ib as int);
        let kw = (al.invocation_words / al.argument_words) as nat;
        lemma_fundamental_div_mod(al.invocation_words as int, al.argument_words as int);
        assert(ib == kw * a) by (nonlinear_arith)
            requires
                al.invocation_words == al.argument_words * kw,
                ib == 4 * al.invocation_words,
                a == 4 * al.argument_words,
        ;
        lemma_mod_multiples_basic(kw as int, a as int);
        lemma_multiple_of_multiple(x.len(), a, ib);
        lemma_append_args(x, last, tys, al);
        let z = append_args(x, last, al);
        let y = append_invocations(args, al);
        assert(y == pad_to(z, ib));
        lemma_pad_to_prefix(z, ib);
        lemma_round_up_shift(x.len(), slots_bytes(tys, al), ib);
        assert(y.len() == m * len) by (nonlinear_arith)
            requires
                y.len() == x.len() + len,
                x.len() == (m - 1) * len,
        ;
        assert forall|n: int, j: int| 0 <= n < args.len() && 0 <= j < tys.len() implies #[trigger]
            invocation_slot(y, n, tys, j, al) == args[n][j].spec_to_bytes() by {
            lemma_slot_within(tys, j, al);
            let p = n * len + slots_bytes(tys.take(j), al);
            let q = p + tys[j].spec_byte_count();
            if n < m - 1 {
                assert(q <= x.len()) by (nonlinear_arith)
                    requires
                        q <= n * len + slots_bytes(tys, al),
                        slots_bytes(tys, al) <= len,
                        x.len() == (m - 1) * len,
                        n + 1 <= m - 1,
                ;
                lemma_prefix_subrange(y, z, p, q);
                lemma_prefix_subrange(z, x, p, q);
                assert(invocation_slot(x, n, tys, j, al) == prev[n][j].spec_to_bytes());
            } else {
                assert(n * len == x.len());
                lemma_prefix_subrange(y, z, p, q);
                assert(slot_at(z, x.len() as int, tys, j, al) == last[j].spec_to_bytes());
            }
        }
    }
}

/// Each argument of each invocation lies in the input buffer where the device reads it:
/// invocation `n`'s block starts `n` output lengths into the buffer, and its argument `j`
/// after the padded slots of the arguments before it. This holds when every invocation has
/// arguments of the same types, and the invocation alignment is a multiple of the argument
/// alignment. The buffer holds exactly these blocks, padded with zeros to the smallest buffer
/// size.
pub proof fn law_input_layout(
    args: Seq<Seq<Val>>,
    tys: Seq<ValType>,
    al: IoAlignment,
    n: int,
    j: int,
)
    requires
        al.wf(),
        al.invocation_words % al.argument_words == 0,
        forall|k: int| 0 <= k < args.len() ==> vals_have_types(#[trigger] args[k], tys),
        0 <= n < args.len(),
        0 <= j < tys.len(),
    ensures
        invocation_slot(spec_input_bytes(args, al), n, tys, j, al) == args[n][j].spec_to_bytes(),
        spec_input_bytes(args, al).len() == if args.len() * spec_output_instance_len(tys, al)
            < min_buffer_len() {
            min_buffer_len()
        } else {
            args.len() * spec_output_instance_len(tys, al)
        },
{
    lemma_append_invocations(args, tys, al);
    let data = append_invocations(args, al);
    let all = spec_input_bytes(args, al);
    assert(all.subrange(0, data.len() as int) =~= data);
    let len = spec_output_instance_len(tys, al);
    lemma_round_up(slots_bytes(tys, al), al.invocation_bytes());
    lemma_slot_within(tys, j, al);
    let p = n * len + slots_bytes(tys.take(j), al);
    let q = p + tys[j].spec_byte_count();
    assert(q <= data.len()) by (nonlinear_arith)
        requires
            q <= n * len + slots_bytes(tys, al),
            slots_bytes(tys, al) <= len,
            data.len() == args.len() * len,
            n + 1 <= args.len(),
    ;
    lemma_prefix_subrange(all, data, p, q);
    assert(invocation_slot(data, n, tys, j, al) == args[n][j].spec_to_bytes());
}

/// Reading an invocation's block back from a buffer laid out as the input buffer gives that
/// invocation's values: results that the device writes in the layout in which it reads its
/// arguments are read back as written.
pub proof fn law_read_back_invocation(args: Seq<Seq<Val>>, tys: Seq<ValType>, al: IoAlignment, n: int)
    requires
        al.wf(),
        al.invocation_words % al.argument_words == 0,
        forall|k: int| 0 <= k < args.len() ==> vals_have_types(#[trigger] args[k], tys),
        0 <= n < args.len(),
    ensures
        spec_read_slots(
            tys,
            spec_input_bytes(args, al),
            n * spec_output_instance_len(tys, al),
            al,
        ) == args[n],
{
    let out = spec_input_bytes(args, al);
    let start = n * spec_output_instance_len(tys, al);
    assert(vals_have_types(args[n], tys));
    assert forall|j: int| 0 <= j < tys.len() implies #[trigger] spec_read_slots(
        tys,
        out,
        start,
        al,
    )[j] == args[n][j] by {
        law_input_layout(args, tys, al, n, j);
        law_decode_encode(args[n][j]);
    }
    assert(spec_read_slots(tys, out, start, al) =~= args[n]);
}

/// The word offset of each argument within an invocation's block, where the device reads it.
pub fn argument_word_offsets(tys: &[ValType], al: IoAlignment) -> (r: Vec<u32>)
    requires
        al.wf(),
        slots_words(tys@, al) <= u32::MAX,
    ensures
        r@.len() == tys@.len(),
        forall|j: int| 0 <= j < tys@.len() ==> #[trigger] r@[j] == slots_words(tys@.take(j), al),
{
    let mut r: Vec<u32> = Vec::new();
    let mut offset: u32 = 0;
    let mut i: usize = 0;
    proof {
        assert(tys@.take(0) =~= Seq::<ValType>::empty());
    }
    while i < tys.len()
        invariant
            al.wf(),
            i <= tys@.len(),
            slots_words(tys@, al) <= u32::MAX,
            offset == slots_words(tys@.take(i as int), al),
            r@.len() == i,
            forall|j: int| 0 <= j < i ==> #[trigger] r@[j] == slots_words(tys@.take(j), al),
        decreases tys.len() - i,
    {
        r.push(offset);
        proof {
            assert(tys@.take(i + 1).drop_last() =~= tys@.take(i as int));
            lemma_slots_prefix(tys@, i + 1, al);
            lemma_round_up(tys@[i as int].spec_byte_count() as nat, al.argument_bytes());
            lemma_round_up_small(tys@[i as int].spec_byte_count() as nat, al.argument_bytes());
        }
        let slot = next_multiple_u32(tys[i].byte_count() as u32, al.argument_words * 4);
        offset = offset + slot / 4;
        i = i + 1;
    }
    r
}

/// The device reads argument `j` of invocation `n` at word `n * word_alignment + offset_j`;
/// that word is where the host lays the argument out: `n` output lengths into the buffer and
/// the padded slots of the arguments before it further.
pub proof fn law_device_reads_where_host_writes(tys: Seq<ValType>, al: IoAlignment, n: nat, j: int)
    requires
        al.wf(),
        0 <= j <= tys.len(),
    ensures
        4 * (n * spec_word_alignment(tys, al) + slots_words(tys.take(j), al)) == n
            * spec_output_instance_len(tys, al) + slots_bytes(tys.take(j), al),
{
    law_output_len_is_word_alignment_in_bytes(tys, al);
    lemma_slots_words_bytes(tys.take(j), al);
    let w = spec_word_alignment(tys, al);
    assert(4 * (n * w) == n * (4 * w)) by (nonlinear_arith);
}

/// The size of the output buffer for `instances` invocations: their blocks, but no smaller than
/// the smallest buffer.
pub fn output_buffer_len(instances: usize, tys: &[ValType], al: IoAlignment) -> (r: usize)
    requires
        al.wf(),
        spec_output_instance_len(tys@, al) <= usize::MAX,
        instances * spec_output_instance_len(tys@, al) <= usize::MAX,
    ensures
        r == if instances * spec_output_instance_len(tys@, al) < min_buffer_len() {
            min_buffer_len() as int
        } else {
            instances * spec_output_instance_len(tys@, al)
        },
{
    let len = output_instance_len(tys, al) as usize;
    let total = instances * len;
    if total < 128 {
        128
    } else {
        total
    }
}

/// The size of the flags buffer for `instances` invocations, each with `flags_len_bytes` bytes
/// of flags.
pub fn flags_buffer_len(instances: usize, flags_len_bytes: u32) -> (r: usize)
    requires
        instances * flags_len_bytes <= usize::MAX,
    ensures
        r == instances * flags_len_bytes,
{
    instances * flags_len_bytes as usize
}

/// The constants buffer: `len_bytes` zero bytes but for the number of invocations, in
/// little-endian order, at word `count_index`.
pub fn constants_bytes(len_bytes: u32, count_index: u32, count: u32) -> (r: Vec<u8>)
    requires
        4 * count_index + 4 <= len_bytes,
    ensures
        r@ == crate::globals::write_at(
            zeros(len_bytes as nat),
            4 * count_index,
            crate::le_bytes::le_encode(count as nat, 4),
        ),
{
    let mut data: Vec<u8> = Vec::new();
    let mut i: u32 = 0;
    while i < len_bytes
        invariant
            i <= len_bytes,
            data@ == zeros(i as nat),
        decreases len_bytes - i,
    {
        data.push(0u8);
        i = i + 1;
        proof {
            assert(data@ =~= zeros(i as nat));
        }
    }
    let word = crate::le_bytes::write_le(count as u128, 4);
    proof {
        crate::le_bytes::lemma_le_encode_len(count as nat, 4);
    }
    let at = (4 * count_index) as usize;
    let ghost start = data@;
    let n = data.len();
    let mut k: usize = 0;
    while k < 4
        invariant
            n == start.len(),
            k <= 4,
            word@.len() == 4,
            at + 4 <= start.len(),
            data@.len() == start.len(),
            forall|j: int|
                0 <= j < start.len() ==> #[trigger] data@[j] == if at <= j < at + k {
                    word@[j - at]
                } else {
                    start[j]
                },
        decreases 4 - k,
    {
        data.set(at + k, word[k]);
        k = k + 1;
    }
    assert(data@ =~= crate::globals::write_at(start, at as int, word@));
    data
}

/// The trap word of each of `count` invocations: the little-endian word at word `trap_index` of
/// the invocation's `flags_len` bytes of flags.
pub fn trap_words(flags: &[u8], flags_len: usize, trap_index: usize, count: usize) -> (r: Vec<u32>)
    requires
        count > 0 ==> (count - 1) * flags_len + 4 * trap_index + 4 <= flags@.len(),
    ensures
        r@.len() == count,
        forall|i: int|
            0 <= i < count ==> #[trigger] r@[i] as nat == crate::le_bytes::le_value(
                flags@.subrange(i * flags_len + 4 * trap_index, i * flags_len + 4 * trap_index + 4),
            ),
{
    let mut r: Vec<u32> = Vec::new();
    let mut i: usize = 0;
    let total = flags.len();
    while i < count
        invariant
            total == flags@.len(),
            count > 0 ==> (count - 1) * flags_len + 4 * trap_index + 4 <= flags@.len(),
            i <= count,
            r@.len() == i,
            forall|k: int|
                0 <= k < i ==> #[trigger] r@[k] as nat == crate::le_bytes::le_value(
                    flags@.subrange(
                        k * flags_len + 4 * trap_index,
                        k * flags_len + 4 * trap_index + 4,
                    ),
                ),
        decreases count - i,
    {
        assert(i * flags_len <= (count - 1) * flags_len) by (nonlinear_arith)
            requires
                i <= count - 1,
        ;
        let flags_offset = flags_len * i;
        let trap_flag_offset = 4 * trap_index + flags_offset;
        let bytes = slice_subrange(flags, trap_flag_offset, trap_flag_offset + 4);
        proof {
            crate::le_bytes::lemma_le_value_bound(bytes@);
            crate::le_bytes::lemma_pow256_4();
        }
        let word = crate::le_bytes::read_le(bytes) as u32;
        r.push(word);
        i = i + 1;
    }
    r
}

/// The word alignment of arguments of types `tys` is their padded slot words rounded up to the
/// invocation alignment; four times it is the output length of one invocation; and the input
/// buffer holds argument `j` of invocation `n` at byte `4 * (n * word_alignment + offset_j)`,
/// where `offset_j` is the argument's word offset: the word alignment is the stride between
/// invocations, on the host and on the device alike.
pub proof fn law_word_alignment_is_the_stride(
    args: Seq<Seq<Val>>,
    tys: Seq<ValType>,
    al: IoAlignment,
    n: int,
    j: int,
)
    requires
        al.wf(),
        al.invocation_words % al.argument_words == 0,
        forall|k: int| 0 <= k < args.len() ==> vals_have_types(#[trigger] args[k], tys),
        0 <= n < args.len(),
        0 <= j < tys.len(),
    ensures
        spec_word_alignment(tys, al) == round_up(slots_words(tys, al), al.invocation_words as nat),
        4 * spec_word_alignment(tys, al) == spec_output_instance_len(tys, al),
        ({
            let at = 4 * (n * spec_word_alignment(tys, al) + slots_words(tys.take(j), al));
            spec_input_bytes(args, al).subrange(at, at + tys[j].spec_byte_count() as int)
                == args[n][j].spec_to_bytes()
        }),
{
    law_output_len_is_word_alignment_in_bytes(tys, al);
    law_input_layout(args, tys, al, n, j);
    law_device_reads_where_host_writes(tys, al, n as nat, j);
}

} // verus!
