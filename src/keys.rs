//! Cache keys: which logical icon a request stands for.
use crate::text::{ends_with, has_suffix, lower_of, lowercase};
use vstd::prelude::*;

verus! {

/// The decimal digit for a value below ten.
pub open spec fn dec_digit(d: int) -> char {
    seq!['0', '1', '2', '3', '4', '5', '6', '7', '8', '9'][d]
}

/// The decimal digits of a natural number, most significant first.
pub open spec fn digits_of(n: nat) -> Seq<char>
    decreases n,
{
    if n < 10 {
        seq![dec_digit(n as int)]
    } else {
        digits_of(n / 10).push(dec_digit((n % 10) as int))
    }
}

/// An integer written in decimal, with a leading `-` when negative.
pub open spec fn decimal_of(i: int) -> Seq<char> {
    if i < 0 {
        seq!['-'] + digits_of((-i) as nat)
    } else {
        digits_of(i as nat)
    }
}

/// The cache key of an icon embedded in a resource container:
/// `{resource_path}:{resource_index}`.
pub open spec fn resource_key_of(path: Seq<char>, index: i32) -> Seq<char> {
    path + seq![':'] + decimal_of(index as int)
}

/// Whether a path names a shell link: lowercased, it ends in `.lnk`.
pub open spec fn has_link_suffix(p: Seq<char>) -> bool {
    ends_with(lower_of(p), ".lnk"@)
}

/// Relies on `String::push`: appends one character.
#[verifier::external_body]
fn push_char(s: &mut String, c: char)
    ensures
        final(s)@ == old(s)@.push(c),
{
    s.push(c)
}

fn digit_char(d: u32) -> (c: char)
    requires
        d < 10,
    ensures
        c == dec_digit(d as int),
{
    match d {
        0 => '0',
        1 => '1',
        2 => '2',
        3 => '3',
        4 => '4',
        5 => '5',
        6 => '6',
        7 => '7',
        8 => '8',
        _ => '9',
    }
}

fn push_digits(s: &mut String, n: u32)
    ensures
        final(s)@ == old(s)@ + digits_of(n as nat),
    decreases n,
{
    if n >= 10 {
        push_digits(s, n / 10);
    }
    push_char(s, digit_char(n % 10));
    assert(final(s)@ =~= old(s)@ + digits_of(n as nat));
}

/// Appends `i` written in decimal to `s`.
pub fn push_decimal(s: &mut String, i: i32)
    ensures
        final(s)@ == old(s)@ + decimal_of(i as int),
{
    if i < 0 {
        push_char(s, '-');
        let m: u32 = (-(i as i64)) as u32;
        push_digits(s, m);
        assert(final(s)@ =~= old(s)@ + decimal_of(i as int));
    } else {
        push_digits(s, i as u32);
    }
}

/// The cache key `{path}:{index}` of an icon inside a resource container.
pub fn resource_key(path: &str, index: i32) -> (r: String)
    ensures
        r@ == resource_key_of(path@, index),
{
    let mut key = String::from_str(path);
    push_char(&mut key, ':');
    push_decimal(&mut key, index);
    assert(key@ =~= resource_key_of(path@, index));
    key
}

/// Whether `path`, lowercased, ends in `.lnk`.
pub fn is_link_path(path: &str) -> (r: bool)
    ensures
        r == has_link_suffix(path@),
{
    has_suffix(lowercase(path).as_str(), ".lnk")
}

} // verus!
