//! The byte-level vocabulary of the canvas: decimal rendering of
//! integers, occurrence counting, and the small lemmas about both that
//! the drawing contracts lean on.

use vstd::prelude::*;

verus! {

/// The decimal digits of `n`, most significant first, as ASCII bytes.
pub open spec fn dec_nat(n: nat) -> Seq<u8>
    decreases n,
{
    if n < 10 {
        seq![(0x30 + n) as u8]
    } else {
        dec_nat(n / 10).push((0x30 + n % 10) as u8)
    }
}

/// The ASCII rendering of a possibly negative integer, as `format!`
/// would print it: a minus sign, then the digits of the magnitude.
pub open spec fn dec_int(v: int) -> Seq<u8> {
    if v < 0 {
        seq![0x2du8] + dec_nat((-v) as nat)
    } else {
        dec_nat(v as nat)
    }
}

/// Concatenation of byte sequences is associative.
pub proof fn lemma_concat_assoc(a: Seq<u8>, b: Seq<u8>, c: Seq<u8>)
    ensures
        a + (b + c) == (a + b) + c,
{
    assert(a + (b + c) =~= (a + b) + c);
}

/// How many times the byte `b` occurs in `s`.
pub open spec fn count_byte(s: Seq<u8>, b: u8) -> int
    decreases s.len(),
{
    if s.len() == 0 {
        0
    } else {
        count_byte(s.drop_last(), b) + if s.last() == b { 1int } else { 0int }
    }
}

pub broadcast proof fn lemma_count_byte_concat(a: Seq<u8>, c: Seq<u8>, b: u8)
    ensures
        #[trigger] count_byte(a + c, b) == count_byte(a, b) + count_byte(c, b),
    decreases c.len(),
{
    if c.len() == 0 {
        assert(a + c =~= a);
    } else {
        lemma_count_byte_concat(a, c.drop_last(), b);
        assert((a + c).drop_last() =~= a + c.drop_last());
        assert((a + c).last() == c.last());
    }
}

pub proof fn lemma_count_byte_absent(s: Seq<u8>, b: u8)
    requires
        forall|i: int| 0 <= i < s.len() ==> s[i] != b,
    ensures
        count_byte(s, b) == 0,
    decreases s.len(),
{
    if s.len() > 0 {
        lemma_count_byte_absent(s.drop_last(), b);
    }
}

pub proof fn lemma_count_byte_singleton(a: u8, b: u8)
    ensures
        count_byte(seq![a], b) == if a == b { 1int } else { 0int },
{
    assert(seq![a].drop_last() =~= Seq::<u8>::empty());
    assert(count_byte(Seq::<u8>::empty(), b) == 0);
    assert(seq![a].last() == a);
}

/// Every byte of `dec_nat(n)` is an ASCII digit.
pub proof fn lemma_dec_nat_digits(n: nat)
    ensures
        forall|i: int| 0 <= i < dec_nat(n).len() ==> 0x30 <= #[trigger] dec_nat(n)[i] <= 0x39,
    decreases n,
{
    if n < 10 {
        assert(dec_nat(n)[0] == (0x30 + n) as u8);
    } else {
        lemma_dec_nat_digits(n / 10);
        assert forall|i: int| 0 <= i < dec_nat(n).len() implies 0x30 <= #[trigger] dec_nat(n)[i]
            <= 0x39 by {
            if i < dec_nat(n / 10).len() {
                assert(dec_nat(n)[i] == dec_nat(n / 10)[i]);
            } else {
                assert(dec_nat(n)[i] == (0x30 + n % 10) as u8);
            }
        }
    }
}

/// Every byte of `dec_int(v)` is an ASCII digit or the minus sign.
pub proof fn lemma_dec_int_digits(v: int)
    ensures
        forall|i: int| 0 <= i < dec_int(v).len() ==> (0x30 <= #[trigger] dec_int(v)[i] <= 0x39
            || dec_int(v)[i] == 0x2d),
{
    if v < 0 {
        lemma_dec_nat_digits((-v) as nat);
    } else {
        lemma_dec_nat_digits(v as nat);
    }
}

/// Appends the decimal digits of `n` to `out`.
pub fn push_dec_u64(out: &mut Vec<u8>, n: u64)
    ensures
        final(out)@ == old(out)@ + dec_nat(n as nat),
    decreases n,
{
    let ghost pre = out@;
    if n < 10 {
        out.push(0x30 + n as u8);
        assert(out@ =~= pre + dec_nat(n as nat));
    } else {
        push_dec_u64(out, n / 10);
        out.push(0x30 + (n % 10) as u8);
        assert(out@ =~= pre + dec_nat(n as nat));
    }
}

/// Appends the decimal rendering of `v`, sign included, to `out`.
pub fn push_dec_i32(out: &mut Vec<u8>, v: i32)
    ensures
        final(out)@ == old(out)@ + dec_int(v as int),
{
    let ghost pre = out@;
    if v < 0 {
        out.push(0x2d);
        let m: u64 = (-(v as i64)) as u64;
        push_dec_u64(out, m);
        assert(out@ =~= pre + dec_int(v as int));
    } else {
        push_dec_u64(out, v as u64);
    }
}

} // verus!
