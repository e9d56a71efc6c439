//! Small text-building helpers shared by the rendering and request code.

use vstd::prelude::*;
use vstd::string::*;

verus! {

/// Relies on `String::push`: the character is appended at the end.
pub assume_specification[ String::push ](s: &mut String, ch: char)
    ensures
        final(s)@ == old(s)@.push(ch),
;

/// Relies on `String::pop`: removes and returns the last character, or
/// returns `None` and leaves an empty string as it is.
pub assume_specification[ String::pop ](s: &mut String) -> (r: Option<char>)
    ensures
        old(s)@.len() == 0 ==> r is None && final(s)@ == old(s)@,
        old(s)@.len() > 0 ==> r == Some(old(s)@.last()) && final(s)@ == old(s)@.drop_last(),
;

/// `n` space characters.
pub open spec fn spaces(n: nat) -> Seq<char> {
    Seq::new(n, |i: int| ' ')
}

/// The decimal digit for `d < 10`.
pub open spec fn digit_char(d: nat) -> char {
    if d == 0 { '0' }
    else if d == 1 { '1' }
    else if d == 2 { '2' }
    else if d == 3 { '3' }
    else if d == 4 { '4' }
    else if d == 5 { '5' }
    else if d == 6 { '6' }
    else if d == 7 { '7' }
    else if d == 8 { '8' }
    else { '9' }
}

/// The decimal notation of `n`, without leading zeros.
pub open spec fn decimal(n: nat) -> Seq<char>
    decreases n,
{
    if n < 10 {
        seq![digit_char(n)]
    } else {
        decimal(n / 10).push(digit_char(n % 10))
    }
}

/// `s` padded with spaces on the right to at least `w` characters.
pub open spec fn pad_right(s: Seq<char>, w: nat) -> Seq<char> {
    if s.len() < w { s + spaces((w - s.len()) as nat) } else { s }
}

/// `s` padded with spaces on the left to at least `w` characters.
pub open spec fn pad_left(s: Seq<char>, w: nat) -> Seq<char> {
    if s.len() < w { spaces((w - s.len()) as nat) + s } else { s }
}

/// `s` centred in `w` characters; an odd leftover space goes to the right.
pub open spec fn center(s: Seq<char>, w: nat) -> Seq<char> {
    if s.len() < w {
        let free = (w - s.len()) as nat;
        spaces(free / 2) + s + spaces((free - free / 2) as nat)
    } else {
        s
    }
}

pub fn digit(d: u64) -> (c: char)
    requires
        d < 10,
    ensures
        c == digit_char(d as nat),
{
    if d == 0 { '0' }
    else if d == 1 { '1' }
    else if d == 2 { '2' }
    else if d == 3 { '3' }
    else if d == 4 { '4' }
    else if d == 5 { '5' }
    else if d == 6 { '6' }
    else if d == 7 { '7' }
    else if d == 8 { '8' }
    else { '9' }
}

/// Appends the decimal notation of `n`.
pub fn push_decimal(out: &mut String, n: u64)
    ensures
        final(out)@ == old(out)@ + decimal(n as nat),
    decreases n,
{
    if n >= 10 {
        push_decimal(out, n / 10);
    }
    out.push(digit(n % 10));
    proof {
        assert(old(out)@ + decimal(n as nat) =~= final(out)@) by {
            if n >= 10 {
                assert(decimal(n as nat) == decimal((n / 10) as nat).push(digit_char((n % 10) as nat)));
            }
        }
    }
}

/// Appends `n` spaces.
pub fn push_spaces(out: &mut String, n: usize)
    ensures
        final(out)@ == old(out)@ + spaces(n as nat),
{
    let ghost start = out@;
    let mut i: usize = 0;
    while i < n
        invariant
            i <= n,
            out@ == start + spaces(i as nat),
        decreases n - i,
    {
        out.push(' ');
        i = i + 1;
        assert(out@ =~= start + spaces(i as nat));
    }
}

/// Appends the characters of `s`.
pub fn push_str(out: &mut String, s: &str)
    ensures
        final(out)@ == old(out)@ + s@,
{
    out.append(s);
}

} // verus!
