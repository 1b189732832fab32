//! The slot namespace in which the batch processor holds pre-built objects.
//!
//! Slots are numbered in octal from `40` up to `57`; file `60` is the job's
//! own output, so the namespace ends below it.

use vstd::prelude::*;
use vstd::string::*;

verus! {

/// The first slot number (octal 40).
pub const FIRST_SLOT: u8 = 0o40;

/// One past the last slot number (octal 60, the job's output file).
pub const SLOT_END: u8 = 0o60;

/// How many objects one build can bind.
pub const SLOT_COUNT: usize = 16;

/// The character of an octal digit.
pub open spec fn octal_digit(d: int) -> char {
    if d == 0 {
        '0'
    } else if d == 1 {
        '1'
    } else if d == 2 {
        '2'
    } else if d == 3 {
        '3'
    } else if d == 4 {
        '4'
    } else if d == 5 {
        '5'
    } else if d == 6 {
        '6'
    } else {
        '7'
    }
}

/// A number from 8 to 63 written as two octal digits.
pub open spec fn octal_text(n: int) -> Seq<char> {
    seq![octal_digit(n / 8), octal_digit(n % 8)]
}

/// Name of the staging file that holds the object bound to slot `n`.
pub open spec fn staging_name(n: int) -> Seq<char> {
    "pers"@ + octal_text(n) + ".bin"@
}

/// Script line that binds slot `n` to its staging file.
pub open spec fn binding_line(n: int) -> Seq<char> {
    "*file:pers"@ + octal_text(n) + ","@ + octal_text(n) + "\n"@
}

/// Script line that calls the object held in slot `n`.
pub open spec fn reference_line(n: int) -> Seq<char> {
    "*call perso:"@ + octal_text(n) + ",cont\n"@
}

fn octal_digit_text(d: u8) -> (s: &'static str)
    requires
        d < 8,
    ensures
        s@ == seq![octal_digit(d as int)],
{
    proof {
        reveal_strlit("0");
        reveal_strlit("1");
        reveal_strlit("2");
        reveal_strlit("3");
        reveal_strlit("4");
        reveal_strlit("5");
        reveal_strlit("6");
        reveal_strlit("7");
    }
    let s = if d == 0 {
        "0"
    } else if d == 1 {
        "1"
    } else if d == 2 {
        "2"
    } else if d == 3 {
        "3"
    } else if d == 4 {
        "4"
    } else if d == 5 {
        "5"
    } else if d == 6 {
        "6"
    } else {
        "7"
    };
    assert(s@ =~= seq![octal_digit(d as int)]);
    s
}

/// Appends `n`, written as two octal digits, to `s`.
fn push_octal(s: &mut String, n: u8)
    requires
        8 <= n < 64,
    ensures
        final(s)@ == old(s)@ + octal_text(n as int),
{
    s.append(octal_digit_text(n / 8));
    s.append(octal_digit_text(n % 8));
    assert(final(s)@ =~= old(s)@ + octal_text(n as int));
}

/// A number from 8 to 63 written as two octal digits.
pub fn octal(n: u8) -> (r: String)
    requires
        8 <= n < 64,
    ensures
        r@ == octal_text(n as int),
{
    let mut s = String::new();
    push_octal(&mut s, n);
    assert(s@ =~= octal_text(n as int));
    s
}

/// Name of the staging file for slot `n`, such as `pers40.bin`.
pub fn staging_file_name(n: u8) -> (r: String)
    requires
        8 <= n < 64,
    ensures
        r@ == staging_name(n as int),
{
    let mut s = String::from_str("pers");
    push_octal(&mut s, n);
    s.append(".bin");
    s
}

/// The `*file:` line that binds slot `n`.
pub fn slot_binding_line(n: u8) -> (r: String)
    requires
        8 <= n < 64,
    ensures
        r@ == binding_line(n as int),
{
    let mut s = String::from_str("*file:pers");
    push_octal(&mut s, n);
    s.append(",");
    push_octal(&mut s, n);
    s.append("\n");
    s
}

/// The `*call perso:` line that calls slot `n`.
pub fn slot_reference_line(n: u8) -> (r: String)
    requires
        8 <= n < 64,
    ensures
        r@ == reference_line(n as int),
{
    let mut s = String::from_str("*call perso:");
    push_octal(&mut s, n);
    s.append(",cont\n");
    s
}

} // verus!
