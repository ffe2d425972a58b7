//! Characters and decimal numbers as they are written into the document.

use vstd::prelude::*;
use vstd::string::*;

verus! {

/// The markup that stands for `ch` inside a quoted attribute value.
pub open spec fn escaped(ch: char) -> Seq<char> {
    if ch == '"' {
        seq!['&', 'q', 'u', 'o', 't', ';']
    } else if ch == '&' {
        seq!['&', 'a', 'm', 'p', ';']
    } else if ch == '<' {
        seq!['&', 'l', 't', ';']
    } else if ch == '>' {
        seq!['&', 'g', 't', ';']
    } else {
        seq![ch]
    }
}

/// `char::to_string` of std: the string that holds `ch` and nothing else.
#[verifier::external_body]
fn char_to_string(ch: char) -> (s: String)
    ensures
        s@ == seq![ch],
{
    ch.to_string()
}

/// Escapes the four characters that cannot stand in an attribute value;
/// every other character is handed back as it is.
pub fn escape_xml_char(ch: char) -> (s: String)
    ensures
        s@ == escaped(ch),
{
    proof {
        reveal_strlit("&quot;");
        reveal_strlit("&amp;");
        reveal_strlit("&lt;");
        reveal_strlit("&gt;");
    }
    if ch == '"' {
        let s = String::from_str("&quot;");
        assert(s@ =~= escaped(ch));
        s
    } else if ch == '&' {
        let s = String::from_str("&amp;");
        assert(s@ =~= escaped(ch));
        s
    } else if ch == '<' {
        let s = String::from_str("&lt;");
        assert(s@ =~= escaped(ch));
        s
    } else if ch == '>' {
        let s = String::from_str("&gt;");
        assert(s@ =~= escaped(ch));
        s
    } else {
        char_to_string(ch)
    }
}

/// The decimal digit `d` as a character.
pub open spec fn digit_char(d: int) -> char {
    if d == 0 {
        '0'
    } else if d == 1 {
        '1'
    } else if d == 2 {
        '2'
    } else if d == 3 {
        '3'
    } else if d == 4 {
        '4'
    } else if d == 5 {
        '5'
    } else if d == 6 {
        '6'
    } else if d == 7 {
        '7'
    } else if d == 8 {
        '8'
    } else {
        '9'
    }
}

/// The decimal digits of `n`, most significant first, without leading zeros.
pub open spec fn decimal(n: nat) -> Seq<char>
    decreases n,
{
    if n < 10 {
        seq![digit_char(n as int)]
    } else {
        decimal(n / 10) + seq![digit_char((n % 10) as int)]
    }
}

/// The magnitude of `v`.
pub open spec fn magnitude(v: int) -> nat {
    if v < 0 {
        (-v) as nat
    } else {
        v as nat
    }
}

/// A minus sign for a negative number, nothing otherwise.
pub open spec fn sign(v: int) -> Seq<char> {
    if v < 0 {
        seq!['-']
    } else {
        Seq::empty()
    }
}

/// A length of `v` hundredths written with two decimals.
pub open spec fn two_decimals(v: int) -> Seq<char> {
    sign(v) + decimal(magnitude(v) / 100) + seq![
        '.',
        digit_char((magnitude(v) / 10 % 10) as int),
        digit_char((magnitude(v) % 10) as int),
    ]
}

/// A length of `v` tenths written with one decimal.
pub open spec fn one_decimal(v: int) -> Seq<char> {
    sign(v) + decimal(magnitude(v) / 10) + seq!['.', digit_char((magnitude(v) % 10) as int)]
}

/// A length of `v` hundredths rounded to the nearest whole unit, halves away
/// from zero.
pub open spec fn nearest_unit(v: int) -> int {
    if v < 0 {
        -((-v + 50) / 100)
    } else {
        (v + 50) / 100
    }
}

/// A length of `v` hundredths written as a whole number of units.
pub open spec fn no_decimals(v: int) -> Seq<char> {
    sign(nearest_unit(v)) + decimal(magnitude(nearest_unit(v)))
}

fn digit_str(d: u8) -> (s: &'static str)
    requires
        d < 10,
    ensures
        s@ == seq![digit_char(d as int)],
{
    proof {
        reveal_strlit("0");
        reveal_strlit("1");
        reveal_strlit("2");
        reveal_strlit("3");
        reveal_strlit("4");
        reveal_strlit("5");
        reveal_strlit("6");
        reveal_strlit("7");
        reveal_strlit("8");
        reveal_strlit("9");
    }
    let s = if d == 0 {
        "0"
    } else if d == 1 {
        "1"
    } else if d == 2 {
        "2"
    } else if d == 3 {
        "3"
    } else if d == 4 {
        "4"
    } else if d == 5 {
        "5"
    } else if d == 6 {
        "6"
    } else if d == 7 {
        "7"
    } else if d == 8 {
        "8"
    } else {
        "9"
    };
    assert(s@ =~= seq![digit_char(d as int)]);
    s
}

/// Appends the decimal digits of `n`.
pub fn push_decimal(out: &mut String, n: u128)
    ensures
        final(out)@ == old(out)@ + decimal(n as nat),
    decreases n,
{
    if n >= 10 {
        push_decimal(out, n / 10);
    }
    let d: u8 = (n % 10) as u8;
    out.append(digit_str(d));
    assert(final(out)@ =~= old(out)@ + decimal(n as nat));
}

fn push_sign(out: &mut String, v: i128) -> (m: u128)
    ensures
        final(out)@ == old(out)@ + sign(v as int),
        m == magnitude(v as int),
{
    if v < 0 {
        proof {
            reveal_strlit("-");
        }
        out.append("-");
        assert(final(out)@ =~= old(out)@ + sign(v as int));
        let m: u128 = ((-(v + 1)) as u128) + 1;
        m
    } else {
        assert(final(out)@ =~= old(out)@ + sign(v as int));
        v as u128
    }
}

/// Appends `v` hundredths with two decimals.
pub fn push_two_decimals(out: &mut String, v: i128)
    ensures
        final(out)@ == old(out)@ + two_decimals(v as int),
{
    let m = push_sign(out, v);
    push_decimal(out, m / 100);
    proof {
        reveal_strlit(".");
    }
    out.append(".");
    out.append(digit_str((m / 10 % 10) as u8));
    out.append(digit_str((m % 10) as u8));
    assert(final(out)@ =~= old(out)@ + two_decimals(v as int));
}

/// Appends `v` tenths with one decimal.
pub fn push_one_decimal(out: &mut String, v: i128)
    ensures
        final(out)@ == old(out)@ + one_decimal(v as int),
{
    let m = push_sign(out, v);
    push_decimal(out, m / 10);
    proof {
        reveal_strlit(".");
    }
    out.append(".");
    out.append(digit_str((m % 10) as u8));
    assert(final(out)@ =~= old(out)@ + one_decimal(v as int));
}

/// Appends `v` hundredths as a whole number of units.
pub fn push_no_decimals(out: &mut String, v: i128)
    ensures
        final(out)@ == old(out)@ + no_decimals(v as int),
{
    let m: u128 = if v < 0 {
        ((-(v + 1)) as u128) + 1
    } else {
        v as u128
    };
    let q: u128 = (m + 50) / 100;
    if v < 0 && q > 0 {
        proof {
            reveal_strlit("-");
        }
        out.append("-");
    }
    push_decimal(out, q);
    assert(final(out)@ =~= old(out)@ + no_decimals(v as int));
}

/// Whether `ch` has the Unicode property White_Space.
pub uninterp spec fn is_white_space(ch: char) -> bool;

/// `char::is_whitespace` of std.
#[verifier::external_body]
pub(crate) fn char_is_whitespace(ch: char) -> (r: bool)
    ensures
        r == is_white_space(ch),
{
    ch.is_whitespace()
}

/// `str::chars` of std, collected: the characters of `s` in order.
#[verifier::external_body]
pub(crate) fn chars_of(s: &str) -> (v: Vec<char>)
    ensures
        v@ == s@,
{
    s.chars().collect()
}

/// Where the first line feed of `s` stands; the length of `s` where it has
/// none.
pub open spec fn first_break(s: Seq<char>) -> int
    decreases s.len(),
{
    if s.len() == 0 || s[0] == '\n' {
        0
    } else {
        1 + first_break(s.drop_first())
    }
}

/// A line without the carriage return that stood before its line feed.
pub open spec fn without_return(line: Seq<char>) -> Seq<char> {
    if line.len() > 0 && line.last() == '\r' {
        line.drop_last()
    } else {
        line
    }
}

/// The lines of a text. A line ends at a line feed, which is no part of
/// it, nor is a carriage return directly before the line feed. What
/// follows the last line feed is a line of its own unless it is empty.
pub open spec fn lines_of(s: Seq<char>) -> Seq<Seq<char>>
    decreases s.len(),
{
    let k = first_break(s);
    if s.len() == 0 {
        Seq::empty()
    } else if k < 0 || k >= s.len() {
        seq![s]
    } else {
        seq![without_return(s.take(k))] + lines_of(s.skip(k + 1))
    }
}

/// The character sequences that the vectors hold.
pub open spec fn rows(lines: Seq<Vec<char>>) -> Seq<Seq<char>> {
    lines.map_values(|line: Vec<char>| line@)
}

proof fn first_break_found(s: Seq<char>, k: int)
    requires
        0 <= k <= s.len(),
        forall|j: int| 0 <= j < k ==> s[j] != '\n',
        k == s.len() || s[k] == '\n',
    ensures
        first_break(s) == k,
    decreases k,
{
    if k > 0 {
        first_break_found(s.drop_first(), k - 1);
    }
}

/// Splits a text into its lines.
pub fn split_lines(text: &Vec<char>) -> (lines: Vec<Vec<char>>)
    ensures
        rows(lines@) == lines_of(text@),
{
    let mut lines: Vec<Vec<char>> = Vec::new();
    let mut current: Vec<char> = Vec::new();
    let ghost mut start: int = 0;
    let mut i: usize = 0;
    proof {
        assert(text@.skip(0) =~= text@);
        assert(rows(lines@) + lines_of(text@.skip(0)) =~= lines_of(text@));
    }
    while i < text.len()
        invariant
            0 <= start <= i <= text.len(),
            current@ == text@.subrange(start, i as int),
            forall|j: int| start <= j < i ==> text@[j] != '\n',
            rows(lines@) + lines_of(text@.skip(start)) == lines_of(text@),
        decreases text.len() - i,
    {
        let c = text[i];
        if c == '\n' {
            let ghost rest = text@.skip(start);
            let ghost done = rows(lines@);
            proof {
                first_break_found(rest, i - start);
                assert(rest.take(i - start) =~= current@);
                assert(rest.skip(i - start + 1) =~= text@.skip(i + 1));
            }
            if current.len() > 0 && current[current.len() - 1] == '\r' {
                current.pop();
            }
            assert(current@ =~= without_return(rest.take(i - start)));
            lines.push(current);
            current = Vec::new();
            proof {
                assert(rows(lines@) =~= done + seq![without_return(rest.take(i - start))]);
                start = i + 1;
                assert(rows(lines@) + lines_of(text@.skip(start)) =~= done + lines_of(rest));
                assert(current@ =~= text@.subrange(start, i + 1));
            }
        } else {
            current.push(c);
            proof {
                assert(current@ =~= text@.subrange(start, i + 1));
            }
        }
        i += 1;
    }
    let ghost rest = text@.skip(start);
    let ghost done = rows(lines@);
    proof {
        assert(rest =~= current@);
    }
    if current.len() > 0 {
        proof {
            first_break_found(rest, rest.len() as int);
        }
        lines.push(current);
        proof {
            assert(rows(lines@) =~= done + seq![rest]);
        }
    } else {
        proof {
            assert(done + lines_of(rest) =~= done);
        }
    }
    lines
}

} // verus!
