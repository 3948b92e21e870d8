//! Percent-encoding of query components, over bytes.
//!
//! URLs are modelled as UTF-8 byte sequences: a query component is
//! percent-encoded byte by byte, so arbitrary Unicode input is handled
//! through its UTF-8 bytes, as RFC 3986 prescribes. Unreserved bytes
//! pass through unchanged; every other byte becomes `%` followed by two
//! uppercase hex digits.

use vstd::prelude::*;
use vstd::utf8::{encode_utf8, valid_utf8, partial_valid_utf8};
use vstd::utf8::{is_leading_byte_width_1, partial_valid_utf8_extend_ascii_block};
use vstd::string::StringSliceAdditionalSpecFns;
use crate::generator::{all_unreserved, is_unreserved_byte};

verus! {

/// The ASCII byte of the uppercase hex digit for a nibble.
pub open spec fn hex_upper(n: u8) -> u8
    recommends
        n < 16,
{
    if n < 10 {
        (48 + n) as u8  // '0'..='9'
    } else {
        (55 + n) as u8  // 'A'..='F'
    }
}

/// Percent-encoding of one byte: itself if unreserved, else `%XX`.
pub open spec fn pe_byte(b: u8) -> Seq<u8> {
    if is_unreserved_byte(b) {
        seq![b]
    } else {
        seq![37u8, hex_upper(b / 16), hex_upper(b % 16)]
    }
}

/// Percent-encoding of a byte sequence.
pub open spec fn pe(s: Seq<u8>) -> Seq<u8>
    decreases s.len(),
{
    if s.len() == 0 {
        Seq::empty()
    } else {
        pe(s.drop_last()) + pe_byte(s.last())
    }
}

/// `needle` occurs contiguously somewhere in `hay`.
pub open spec fn contains_seq(hay: Seq<u8>, needle: Seq<u8>) -> bool {
    exists|i: int|
        0 <= i && i + needle.len() <= hay.len() && #[trigger] hay.subrange(i, i + needle.len())
            == needle
}

/// A needle contained in `a` is contained in `a + b`.
pub proof fn lemma_contains_extend(a: Seq<u8>, b: Seq<u8>, n: Seq<u8>)
    requires
        contains_seq(a, n),
    ensures
        contains_seq(a + b, n),
{
    let i = choose|i: int|
        0 <= i && i + n.len() <= a.len() && #[trigger] a.subrange(i, i + n.len()) == n;
    assert((a + b).subrange(i, i + n.len()) =~= a.subrange(i, i + n.len()));
}

/// `n` is contained in `a + n`.
pub proof fn lemma_contains_at_end(a: Seq<u8>, n: Seq<u8>)
    ensures
        contains_seq(a + n, n),
{
    assert((a + n).subrange(a.len() as int, (a.len() + n.len()) as int) =~= n);
}

/// Encoding distributes over appending one byte.
pub proof fn lemma_pe_snoc(s: Seq<u8>, b: u8)
    ensures
        pe(s.push(b)) == pe(s) + pe_byte(b),
{
    assert(s.push(b).drop_last() =~= s);
    assert(s.push(b).last() == b);
}

/// Every byte of an encoded sequence is ASCII.
pub proof fn lemma_pe_ascii(s: Seq<u8>)
    ensures
        forall|i: int| 0 <= i < pe(s).len() ==> #[trigger] pe(s)[i] < 128,
    decreases s.len(),
{
    if s.len() != 0 {
        lemma_pe_ascii(s.drop_last());
        let a = pe(s.drop_last());
        let b = pe_byte(s.last());
        assert forall|i: int| 0 <= i < pe(s).len() implies #[trigger] pe(s)[i] < 128 by {
            if i < a.len() {
                assert(pe(s)[i] == a[i]);
            } else {
                assert(pe(s)[i] == b[i - a.len()]);
            }
        }
    }
}

/// A sequence of ASCII bytes is valid UTF-8.
pub proof fn lemma_ascii_bytes_valid_utf8(s: Seq<u8>)
    requires
        forall|i: int| 0 <= i < s.len() ==> #[trigger] s[i] < 128,
    ensures
        valid_utf8(s),
{
    assert(s.subrange(0, 0) =~= Seq::<u8>::empty());
    assert(partial_valid_utf8(s, 0));
    assert forall|i: int| 0 <= i < s.len() implies #[trigger] is_leading_byte_width_1(s[i]) by {}
    partial_valid_utf8_extend_ascii_block(s, 0, s.len() as int);
    assert(s.subrange(0, s.len() as int) =~= s);
}

/// Percent-encoded output is valid UTF-8 (it is all ASCII).
pub proof fn lemma_pe_valid_utf8(s: Seq<u8>)
    ensures
        valid_utf8(pe(s)),
{
    lemma_pe_ascii(s);
    lemma_ascii_bytes_valid_utf8(pe(s));
}

/// Encoding is the identity on sequences of unreserved bytes: such a
/// component appears in the URL exactly as it is.
pub proof fn lemma_pe_unreserved_identity(s: Seq<u8>)
    requires
        all_unreserved(s),
    ensures
        pe(s) == s,
    decreases s.len(),
{
    if s.len() == 0 {
        assert(pe(s) =~= s);
    } else {
        assert(is_unreserved_byte(s.last()));
        assert forall|i: int| 0 <= i < s.drop_last().len() implies is_unreserved_byte(
            #[trigger] s.drop_last()[i],
        ) by {
            assert(s.drop_last()[i] == s[i]);
        }
        lemma_pe_unreserved_identity(s.drop_last());
        assert(pe(s) =~= s);
    }
}

/// Whether `b` is in the RFC 3986 unreserved set, decided at run time.
fn is_unreserved_exec(b: u8) -> (r: bool)
    ensures
        r == is_unreserved_byte(b),
{
    (65 <= b && b <= 90) || (97 <= b && b <= 122) || (48 <= b && b <= 57) || b == 45 || b == 46
        || b == 95 || b == 126
}

/// The ASCII uppercase hex digit of a nibble, at run time.
fn hex_upper_exec(n: u8) -> (r: u8)
    requires
        n < 16,
    ensures
        r == hex_upper(n),
{
    if n < 10 {
        48 + n
    } else {
        55 + n
    }
}

/// Appends the percent-encoding of `input` to `out`.
pub fn append_encoded(out: &mut Vec<u8>, input: &Vec<u8>)
    ensures
        final(out)@ == old(out)@ + pe(input@),
        valid_utf8(old(out)@) ==> valid_utf8(final(out)@),
{
    proof {
        if valid_utf8(out@) {
            lemma_pe_valid_utf8(input@);
            vstd::utf8::valid_utf8_concat(out@, pe(input@));
        }
    }
    let ghost start = out@;
    let mut i: usize = 0;
    while i < input.len()
        invariant
            i <= input@.len(),
            out@ == start + pe(input@.take(i as int)),
        decreases input@.len() - i,
    {
        let b = input[i];
        if is_unreserved_exec(b) {
            out.push(b);
        } else {
            out.push(37);
            out.push(hex_upper_exec(b / 16));
            out.push(hex_upper_exec(b % 16));
        }
        proof {
            assert(input@.take(i + 1 as int) =~= input@.take(i as int).push(input@[i as int]));
            lemma_pe_snoc(input@.take(i as int), input@[i as int]);
        }
        i = i + 1;
    }
    proof {
        assert(input@.take(input@.len() as int) =~= input@);
    }
}

/// Appends the UTF-8 bytes of a fixed piece of the URL to `out`.
pub fn append_literal(out: &mut Vec<u8>, s: &str)
    ensures
        final(out)@ == old(out)@ + s.spec_bytes(),
        valid_utf8(old(out)@) ==> valid_utf8(final(out)@),
{
    proof {
        if valid_utf8(out@) {
            vstd::utf8::encode_utf8_valid_utf8(s@);
            vstd::utf8::valid_utf8_concat(out@, s.spec_bytes());
        }
    }
    let mut b = vstd::string::StrSliceExecFns::as_bytes_vec(s);
    out.append(&mut b);
}

/// Appends the percent-encoding of the UTF-8 bytes of `s` to `out`.
pub fn append_encoded_str(out: &mut Vec<u8>, s: &str)
    ensures
        final(out)@ == old(out)@ + pe(s.spec_bytes()),
        valid_utf8(old(out)@) ==> valid_utf8(final(out)@),
{
    let b = vstd::string::StrSliceExecFns::as_bytes_vec(s);
    append_encoded(out, &b);
}

/// Relies on String::from_utf8: on bytes that are valid UTF-8 it returns
/// (without copying) the string whose UTF-8 encoding is exactly those
/// bytes; `requires` rules out the bytes on which it would return an
/// error.
#[verifier::external_body]
pub(crate) fn utf8_string(b: Vec<u8>) -> (r: String)
    requires
        valid_utf8(b@),
    ensures
        encode_utf8(r@) == b@,
{
    match String::from_utf8(b) {
        Ok(s) => s,
        Err(_) => String::new(),
    }
}

} // verus!
