//! Building strings: decimal numbers, padding and joining.
use vstd::prelude::*;
use vstd::string::StringExecFns;

verus! {

/// `==` on string slices compares their characters.
pub assume_specification[ <str as PartialEq>::eq ](a: &str, b: &str) -> (r: bool)
    ensures
        r == (a@ == b@),
;

/// `String::push` appends one character.
#[verifier::external_body]
pub(crate) fn push_char(s: &mut String, c: char)
    ensures
        final(s)@ == old(s)@.push(c),
{
    s.push(c)
}

/// `String::pop` removes and returns the last character, if any.
#[verifier::external_body]
pub(crate) fn pop_char(s: &mut String) -> (r: Option<char>)
    ensures
        old(s)@.len() > 0 ==> r == Some(old(s)@.last()) && final(s)@ == old(s)@.drop_last(),
        old(s)@.len() == 0 ==> r is None && final(s)@ == old(s)@,
{
    s.pop()
}

/// `String::clear` empties the string.
#[verifier::external_body]
pub(crate) fn clear_string(s: &mut String)
    ensures
        final(s)@ == Seq::<char>::empty(),
{
    s.clear()
}

/// Whether two strings hold the same characters.
pub fn str_equal(a: &str, b: &str) -> (r: bool)
    ensures
        r == (a@ == b@),
{
    <str as PartialEq>::eq(a, b)
}

/// A new string with the characters of `s`.
pub fn owned(s: &str) -> (r: String)
    ensures
        r@ == s@,
{
    String::from_str(s)
}

/// The decimal digit for `d`.
pub open spec fn digit_char(d: nat) -> char {
    if d == 0 { '0' }
    else if d == 1 { '1' }
    else if d == 2 { '2' }
    else if d == 3 { '3' }
    else if d == 4 { '4' }
    else if d == 5 { '5' }
    else if d == 6 { '6' }
    else if d == 7 { '7' }
    else if d == 8 { '8' }
    else { '9' }
}

/// The decimal representation of `n`, as `{}` prints an unsigned integer.
pub open spec fn decimal(n: nat) -> Seq<char>
    decreases n,
{
    if n < 10 {
        seq![digit_char(n)]
    } else {
        decimal(n / 10).push(digit_char(n % 10))
    }
}

/// At least two digits, zero-padded, as `{:02}` prints an unsigned integer.
pub open spec fn decimal2(n: nat) -> Seq<char> {
    if n < 10 {
        seq!['0'].add(decimal(n))
    } else {
        decimal(n)
    }
}

/// Right-aligned in a field of at least two characters, as `{:>2}` prints.
pub open spec fn decimal_right2(n: nat) -> Seq<char> {
    if n < 10 {
        seq![' '].add(decimal(n))
    } else {
        decimal(n)
    }
}

/// Right-aligned in a field of at least three characters, as `{:>3}` prints.
pub open spec fn decimal_right3(n: nat) -> Seq<char> {
    if n < 10 {
        seq![' ', ' '].add(decimal(n))
    } else if n < 100 {
        seq![' '].add(decimal(n))
    } else {
        decimal(n)
    }
}

fn digit(d: u64) -> (c: char)
    requires
        d < 10,
    ensures
        c == digit_char(d as nat),
{
    if d == 0 { '0' }
    else if d == 1 { '1' }
    else if d == 2 { '2' }
    else if d == 3 { '3' }
    else if d == 4 { '4' }
    else if d == 5 { '5' }
    else if d == 6 { '6' }
    else if d == 7 { '7' }
    else if d == 8 { '8' }
    else { '9' }
}

/// Appends the decimal representation of `n`.
pub fn push_decimal(s: &mut String, n: u64)
    ensures
        final(s)@ == old(s)@ + decimal(n as nat),
    decreases n,
{
    if n >= 10 {
        push_decimal(s, n / 10);
    }
    push_char(s, digit(n % 10));
    assert(n >= 10 ==> decimal(n as nat) == decimal((n / 10) as nat).push(digit_char((n % 10) as nat)));
}

/// Appends `n` zero-padded to two digits.
pub fn push_decimal2(s: &mut String, n: u64)
    ensures
        final(s)@ == old(s)@ + decimal2(n as nat),
{
    if n < 10 {
        push_char(s, '0');
    }
    push_decimal(s, n);
}

/// Appends `n` right-aligned in two columns.
pub fn push_decimal_right2(s: &mut String, n: u64)
    ensures
        final(s)@ == old(s)@ + decimal_right2(n as nat),
{
    if n < 10 {
        push_char(s, ' ');
    }
    push_decimal(s, n);
}

/// Appends `n` right-aligned in three columns.
pub fn push_decimal_right3(s: &mut String, n: u64)
    ensures
        final(s)@ == old(s)@ + decimal_right3(n as nat),
{
    if n < 10 {
        push_char(s, ' ');
        push_char(s, ' ');
    } else if n < 100 {
        push_char(s, ' ');
    }
    push_decimal(s, n);
}

/// The decimal representation of `n`.
pub fn decimal_string(n: u64) -> (r: String)
    ensures
        r@ == decimal(n as nat),
{
    let mut s = String::new();
    push_decimal(&mut s, n);
    s
}

/// Appends a string slice.
pub fn push_str(s: &mut String, t: &str)
    ensures
        final(s)@ == old(s)@ + t@,
{
    s.append(t);
}

/// The items joined with `sep` between them.
pub open spec fn joined(items: Seq<Seq<char>>, sep: Seq<char>) -> Seq<char>
    decreases items.len(),
{
    if items.len() == 0 {
        Seq::empty()
    } else if items.len() == 1 {
        items[0]
    } else {
        joined(items.drop_last(), sep) + sep + items.last()
    }
}

/// The strings joined with `sep`, as `[..].join(sep)` does.
pub fn join_strings(items: &[String], sep: &str) -> (r: String)
    ensures
        r@ == joined(items@.map_values(|v: String| v@), sep@),
{
    let ghost views = items@.map_values(|v: String| v@);
    let mut out = String::new();
    for i in 0..items.len()
        invariant
            views == items@.map_values(|v: String| v@),
            out@ == joined(views.take(i as int), sep@),
    {
        if i != 0 {
            push_str(&mut out, sep);
        }
        push_str(&mut out, items[i].as_str());
        assert(views.take(i + 1).drop_last() == views.take(i as int));
    }
    assert(views.take(items@.len() as int) == views);
    out
}

} // verus!
