//! Small text utilities the transformers need: ASCII lower-casing for the
//! constructs whose identifiers are canonicalized, and decimal rendering of
//! counts that appear in type parameters and window frames.
use vstd::prelude::*;
use vstd::string::StrSliceExecFns;

verus! {

/// Relies on `String::push`: appends exactly the one character to the end
/// of the string.
pub assume_specification[ String::push ](s: &mut String, ch: char)
    ensures
        final(s)@ == old(s)@ + seq![ch],
;

/// The lower-case form of an ASCII letter; any other character is itself.
pub open spec fn lower_char(c: char) -> char {
    match c {
        'A' => 'a',
        'B' => 'b',
        'C' => 'c',
        'D' => 'd',
        'E' => 'e',
        'F' => 'f',
        'G' => 'g',
        'H' => 'h',
        'I' => 'i',
        'J' => 'j',
        'K' => 'k',
        'L' => 'l',
        'M' => 'm',
        'N' => 'n',
        'O' => 'o',
        'P' => 'p',
        'Q' => 'q',
        'R' => 'r',
        'S' => 's',
        'T' => 't',
        'U' => 'u',
        'V' => 'v',
        'W' => 'w',
        'X' => 'x',
        'Y' => 'y',
        'Z' => 'z',
        _ => c,
    }
}

/// A text with each ASCII letter lower-cased.
pub open spec fn lower_text(s: Seq<char>) -> Seq<char> {
    Seq::new(s.len(), |i: int| lower_char(s[i]))
}

fn lower_char_exec(c: char) -> (r: char)
    ensures
        r == lower_char(c),
{
    match c {
        'A' => 'a',
        'B' => 'b',
        'C' => 'c',
        'D' => 'd',
        'E' => 'e',
        'F' => 'f',
        'G' => 'g',
        'H' => 'h',
        'I' => 'i',
        'J' => 'j',
        'K' => 'k',
        'L' => 'l',
        'M' => 'm',
        'N' => 'n',
        'O' => 'o',
        'P' => 'p',
        'Q' => 'q',
        'R' => 'r',
        'S' => 's',
        'T' => 't',
        'U' => 'u',
        'V' => 'v',
        'W' => 'w',
        'X' => 'x',
        'Y' => 'y',
        'Z' => 'z',
        _ => c,
    }
}

/// Lower-cases the ASCII letters of a string, leaving every other
/// character as it is.
pub fn to_lowercase(s: &str) -> (r: String)
    ensures
        r@ == lower_text(s@),
{
    let n = s.unicode_len();
    let mut out = String::new();
    let mut i: usize = 0;
    while i < n
        invariant
            i <= n,
            n == s@.len(),
            out@ == lower_text(s@).take(i as int),
        decreases n - i,
    {
        let c = s.get_char(i);
        out.push(lower_char_exec(c));
        i = i + 1;
        proof {
            assert(out@ =~= lower_text(s@).take(i as int));
        }
    }
    proof {
        assert(lower_text(s@).take(n as int) =~= lower_text(s@));
    }
    out
}

/// The decimal digit character for a value below ten.
pub open spec fn digit_char(n: int) -> char {
    if n == 0 {
        '0'
    } else if n == 1 {
        '1'
    } else if n == 2 {
        '2'
    } else if n == 3 {
        '3'
    } else if n == 4 {
        '4'
    } else if n == 5 {
        '5'
    } else if n == 6 {
        '6'
    } else if n == 7 {
        '7'
    } else if n == 8 {
        '8'
    } else if n == 9 {
        '9'
    } else {
        '0'
    }
}

/// The decimal digits of a number, most significant first.
pub open spec fn digits_text(n: int) -> Seq<char>
    decreases n,
{
    if n < 10 {
        seq![digit_char(n)]
    } else {
        digits_text(n / 10).push(digit_char(n % 10))
    }
}

fn digit_char_exec(n: u64) -> (r: char)
    requires
        n < 10,
    ensures
        r == digit_char(n as int),
{
    match n {
        0 => '0',
        1 => '1',
        2 => '2',
        3 => '3',
        4 => '4',
        5 => '5',
        6 => '6',
        7 => '7',
        8 => '8',
        _ => '9',
    }
}

/// The decimal rendering of a number.
pub fn u64_string(n: u64) -> (r: String)
    ensures
        r@ == digits_text(n as int),
    decreases n,
{
    if n < 10 {
        let mut out = String::new();
        out.push(digit_char_exec(n));
        proof {
            assert(out@ =~= seq![digit_char(n as int)]);
        }
        out
    } else {
        let mut out = u64_string(n / 10);
        out.push(digit_char_exec(n % 10));
        proof {
            assert(out@ =~= digits_text((n / 10) as int).push(digit_char((n % 10) as int)));
        }
        out
    }
}

} // verus!
