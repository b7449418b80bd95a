//! Generation and validation of fixed-length hexadecimal identifiers.
use vstd::prelude::*;

use crate::text::push_char;

verus! {

/// A character of `[0-9a-fA-F]`.
pub open spec fn is_hex_char(c: char) -> bool {
    ('0' <= c && c <= '9') || ('a' <= c && c <= 'f') || ('A' <= c && c <= 'F')
}

/// Every character of `s` is a hexadecimal digit, in either case.
pub open spec fn all_hex(s: Seq<char>) -> bool {
    forall|i: int| 0 <= i < s.len() ==> is_hex_char(#[trigger] s[i])
}

/// `s` is a hexadecimal identifier of `bits` bits: one digit for each four bits.
pub open spec fn is_hex_id(s: Seq<char>, bits: u8) -> bool {
    s.len() == bits / 4 && all_hex(s)
}

/// A character of `[0-9A-F]`: what generation produces.
pub open spec fn is_upper_hex_char(c: char) -> bool {
    ('0' <= c && c <= '9') || ('A' <= c && c <= 'F')
}

/// Every character of `s` is an upper-case hexadecimal digit.
pub open spec fn all_upper_hex(s: Seq<char>) -> bool {
    forall|i: int| 0 <= i < s.len() ==> is_upper_hex_char(#[trigger] s[i])
}

/// The upper-case digit that stands for the nibble `n`.
pub open spec fn upper_hex_digit(n: u8) -> char
    recommends
        n < 16,
{
    if n < 10 {
        (48 + n) as u8 as char
    } else {
        (55 + n) as u8 as char
    }
}

fn allow_char(c: char) -> (r: bool)
    ensures
        r == is_hex_char(c),
{
    match c {
        '0'..='9' | 'a'..='f' | 'A'..='F' => true,
        _ => false,
    }
}

/// Whether every character of `s` is a hexadecimal digit; the length is not checked.
pub fn is_hex(s: &str) -> (r: bool)
    ensures
        r == all_hex(s@),
{
    for c in it: s.chars()
        invariant
            it.seq() == s@,
            forall|j: int| 0 <= j < it.index() ==> is_hex_char(#[trigger] s@[j]),
    {
        if !allow_char(c) {
            return false;
        }
    }
    true
}

/// Relies on rand::random: a byte drawn from the thread-local generator.
#[verifier::external_body]
fn random_byte() -> u8 {
    rand::random::<u8>()
}

/// A random nibble.
fn get_rand_half_octet() -> (r: u8)
    ensures
        r < 16,
{
    let b = random_byte();
    let r = b & 0x0F;
    assert(b & 0x0F < 16) by (bit_vector);
    r
}

pub(crate) fn nibble_digit(n: u8) -> (c: char)
    requires
        n < 16,
    ensures
        c == upper_hex_digit(n),
        is_upper_hex_char(c),
{
    if n < 10 {
        (48 + n) as char
    } else {
        (55 + n) as char
    }
}

/// A random upper-case hexadecimal digit.
fn get_rand_half_octet_hex() -> (c: char)
    ensures
        is_upper_hex_char(c),
{
    nibble_digit(get_rand_half_octet())
}

/// A random upper-case hexadecimal string of `bits / 4` digits.
pub fn get_rand_hex_str(bits: u8) -> (r: String)
    ensures
        r@.len() == bits / 4,
        all_upper_hex(r@),
{
    let mut r = String::new();
    let half_octets: u8 = bits / 4;
    for i in 0..half_octets
        invariant
            r@.len() == i,
            all_upper_hex(r@),
    {
        push_char(&mut r, get_rand_half_octet_hex());
    }
    r
}

/// A random DevEUI: 16 upper-case hexadecimal digits.
pub fn get_rand_dev_eui() -> (r: String)
    ensures
        r@.len() == 16,
        all_upper_hex(r@),
{
    get_rand_hex_str(64)
}

/// A random AppKey: 32 upper-case hexadecimal digits.
pub fn get_rand_app_key() -> (r: String)
    ensures
        r@.len() == 32,
        all_upper_hex(r@),
{
    get_rand_hex_str(128)
}

/// Whether `s` is a hexadecimal identifier of exactly `bits / 4` digits, in any case.
pub fn verify_hex_str(s: &str, bits: u8) -> (r: bool)
    ensures
        r == is_hex_id(s@, bits),
{
    let want: usize = (bits / 4) as usize;
    let mut n: usize = 0;
    for c in it: s.chars()
        invariant
            it.seq() == s@,
            n == it.index(),
            n <= want,
            want == bits / 4,
            forall|j: int| 0 <= j < it.index() ==> is_hex_char(#[trigger] s@[j]),
    {
        if !allow_char(c) {
            return false;
        }
        if n == want {
            return false;
        }
        n = n + 1;
    }
    n == want
}

/// Whether `s` is a valid AppKey: 32 hexadecimal digits.
pub fn verify_app_key(s: &str) -> (r: bool)
    ensures
        r == is_hex_id(s@, 128),
{
    verify_hex_str(s, 128)
}

/// Whether `s` is a valid DevEUI: 16 hexadecimal digits.
pub fn verify_dev_eui(s: &str) -> (r: bool)
    ensures
        r == is_hex_id(s@, 64),
{
    verify_hex_str(s, 64)
}

/// `candidate` where it is a hexadecimal identifier of `bits` bits; else a
/// fresh random one of that length. The flag tells whether it was replaced,
/// so that the caller can report the value that was generated.
pub fn resolve_hex_str(candidate: &str, bits: u8) -> (r: (String, bool))
    ensures
        r.1 == !is_hex_id(candidate@, bits),
        !r.1 ==> r.0@ == candidate@,
        r.1 ==> r.0@.len() == bits / 4 && all_upper_hex(r.0@),
        is_hex_id(r.0@, bits),
{
    if verify_hex_str(candidate, bits) {
        (candidate.to_owned(), false)
    } else {
        let g = get_rand_hex_str(bits);
        proof {
            lemma_generated_is_valid(g@, bits);
        }
        (g, true)
    }
}

/// Validation accepts whatever generation produces: a string of `bits / 4`
/// upper-case hexadecimal digits is a hexadecimal identifier of `bits` bits.
pub proof fn lemma_generated_is_valid(s: Seq<char>, bits: u8)
    requires
        s.len() == bits / 4,
        all_upper_hex(s),
    ensures
        is_hex_id(s, bits),
{
    assert forall|i: int| 0 <= i < s.len() implies is_hex_char(#[trigger] s[i]) by {
        assert(is_upper_hex_char(s[i]));
    }
}

} // verus!
