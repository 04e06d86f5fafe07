//! Fiscal-period strings: parsing `YYYY-Qn` provider strings into a
//! `(year, quarter)` pair and rendering the pair back.
//!
//! Parsing a non-matching string yields no match, never a fault; parsing and
//! rendering are mutually inverse over all matching strings and all in-range
//! pairs.
use vstd::prelude::*;
use vstd::string::StrSliceExecFns;
use vstd::string::StringExecFns;

verus! {

/// An ASCII decimal digit.
pub open spec fn is_digit_char(c: char) -> bool {
    '0' as int <= c as int && c as int <= '9' as int
}

/// The numeric value of an ASCII decimal digit.
pub open spec fn digit_val(c: char) -> int {
    c as int - '0' as int
}

/// The ASCII digit for a value in 0..=9.
pub open spec fn digit_char(d: int) -> char {
    if d == 0 {
        '0'
    } else if d == 1 {
        '1'
    } else if d == 2 {
        '2'
    } else if d == 3 {
        '3'
    } else if d == 4 {
        '4'
    } else if d == 5 {
        '5'
    } else if d == 6 {
        '6'
    } else if d == 7 {
        '7'
    } else if d == 8 {
        '8'
    } else {
        '9'
    }
}

/// The expected fiscal-period pattern: four digits, `-Q`, and a quarter
/// digit 1 through 4.
pub open spec fn fiscal_matches(s: Seq<char>) -> bool {
    &&& s.len() == 7
    &&& is_digit_char(s[0])
    &&& is_digit_char(s[1])
    &&& is_digit_char(s[2])
    &&& is_digit_char(s[3])
    &&& s[4] == '-'
    &&& s[5] == 'Q'
    &&& is_digit_char(s[6])
    &&& 1 <= digit_val(s[6]) <= 4
}

/// The year encoded by a matching fiscal-period string.
pub open spec fn fiscal_year_of(s: Seq<char>) -> int {
    1000 * digit_val(s[0]) + 100 * digit_val(s[1]) + 10 * digit_val(s[2]) + digit_val(s[3])
}

/// The quarter encoded by a matching fiscal-period string.
pub open spec fn fiscal_quarter_of(s: Seq<char>) -> int {
    digit_val(s[6])
}

/// The fiscal-period string built from a year in 0..=9999 (zero-padded to
/// four digits) and a quarter in 1..=4.
pub open spec fn fiscal_seq(year: int, quarter: int) -> Seq<char> {
    seq![
        digit_char(year / 1000 % 10),
        digit_char(year / 100 % 10),
        digit_char(year / 10 % 10),
        digit_char(year % 10),
        '-',
        'Q',
        digit_char(quarter),
    ]
}

/// Parses a provider fiscal-period string; yields the (year, quarter) pair
/// exactly on strings matching the expected pattern, and no match otherwise.
pub fn process_fiscal_string(s: &str) -> (r: Option<(i16, i16)>)
    ensures
        r is Some <==> fiscal_matches(s@),
        r is Some ==> r->Some_0.0 as int == fiscal_year_of(s@),
        r is Some ==> r->Some_0.1 as int == fiscal_quarter_of(s@),
        r is Some ==> 0 <= r->Some_0.0 <= 9999 && 1 <= r->Some_0.1 <= 4,
{
    if s.unicode_len() != 7 {
        return None;
    }
    let c0 = s.get_char(0);
    let c1 = s.get_char(1);
    let c2 = s.get_char(2);
    let c3 = s.get_char(3);
    let c4 = s.get_char(4);
    let c5 = s.get_char(5);
    let c6 = s.get_char(6);
    let d0 = digit_of(c0);
    let d1 = digit_of(c1);
    let d2 = digit_of(c2);
    let d3 = digit_of(c3);
    let dq = digit_of(c6);
    match (d0, d1, d2, d3, dq) {
        (Some(d0), Some(d1), Some(d2), Some(d3), Some(dq)) => {
            if c4 == '-' && c5 == 'Q' && 1 <= dq && dq <= 4 {
                let year: i16 = (d0 as i16) * 1000 + (d1 as i16) * 100 + (d2 as i16) * 10 + (
                d3 as i16);
                Some((year, dq as i16))
            } else {
                None
            }
        },
        _ => None,
    }
}

/// The digit value of an ASCII digit character, if it is one.
fn digit_of(c: char) -> (r: Option<u8>)
    ensures
        r is Some <==> is_digit_char(c),
        r is Some ==> r->Some_0 as int == digit_val(c) && r->Some_0 <= 9,
{
    let v = c as u32;
    if 48 <= v && v <= 57 {
        Some((v - 48) as u8)
    } else {
        None
    }
}

/// The one-character string for a digit value.
fn digit_str(d: u8) -> (r: &'static str)
    requires
        d <= 9,
    ensures
        r@ == seq![digit_char(d as int)],
{
    proof {
        reveal_strlit("0");
        reveal_strlit("1");
        reveal_strlit("2");
        reveal_strlit("3");
        reveal_strlit("4");
        reveal_strlit("5");
        reveal_strlit("6");
        reveal_strlit("7");
        reveal_strlit("8");
        reveal_strlit("9");
    }
    let r: &'static str = if d == 0 {
        "0"
    } else if d == 1 {
        "1"
    } else if d == 2 {
        "2"
    } else if d == 3 {
        "3"
    } else if d == 4 {
        "4"
    } else if d == 5 {
        "5"
    } else if d == 6 {
        "6"
    } else if d == 7 {
        "7"
    } else if d == 8 {
        "8"
    } else {
        "9"
    };
    proof {
        assert(r@ =~= seq![digit_char(d as int)]);
    }
    r
}

/// Renders the fiscal-period string for a (year, quarter) pair; the result
/// always matches the expected pattern and parses back to the same pair.
pub fn render_fiscal_string(year: i16, quarter: i16) -> (r: String)
    requires
        0 <= year <= 9999,
        1 <= quarter <= 4,
    ensures
        r@ == fiscal_seq(year as int, quarter as int),
        fiscal_matches(r@),
        fiscal_year_of(r@) == year as int,
        fiscal_quarter_of(r@) == quarter as int,
{
    let y = year as u16;
    let q = quarter as u8;
    let mut out = String::new();
    out.append(digit_str((y / 1000 % 10) as u8));
    out.append(digit_str((y / 100 % 10) as u8));
    out.append(digit_str((y / 10 % 10) as u8));
    out.append(digit_str((y % 10) as u8));
    out.append("-Q");
    out.append(digit_str(q));
    proof {
        reveal_strlit("-Q");
        assert(out@ =~= fiscal_seq(year as int, quarter as int));
        lemma_fiscal_render_parse(year as int, quarter as int);
    }
    out
}

/// Each digit value is recovered from its digit character.
proof fn lemma_digit_char_val(d: int)
    requires
        0 <= d <= 9,
    ensures
        digit_val(digit_char(d)) == d,
        is_digit_char(digit_char(d)),
{
}

/// A digit character is rebuilt from its digit value.
proof fn lemma_digit_val_char(c: char)
    requires
        is_digit_char(c),
    ensures
        digit_char(digit_val(c)) == c,
{
    assert(c as int == digit_char(digit_val(c)) as int);
}

/// Rendering a (year, quarter) pair yields a matching fiscal-period string
/// that parses back to exactly that pair.
pub proof fn lemma_fiscal_render_parse(year: int, quarter: int)
    requires
        0 <= year <= 9999,
        1 <= quarter <= 4,
    ensures
        fiscal_matches(fiscal_seq(year, quarter)),
        fiscal_year_of(fiscal_seq(year, quarter)) == year,
        fiscal_quarter_of(fiscal_seq(year, quarter)) == quarter,
{
    let s = fiscal_seq(year, quarter);
    lemma_digit_char_val(year / 1000 % 10);
    lemma_digit_char_val(year / 100 % 10);
    lemma_digit_char_val(year / 10 % 10);
    lemma_digit_char_val(year % 10);
    lemma_digit_char_val(quarter);
    assert(1000 * (year / 1000 % 10) + 100 * (year / 100 % 10) + 10 * (year / 10 % 10) + year % 10
        == year) by (nonlinear_arith)
        requires
            0 <= year <= 9999,
    ;
}

/// A matching fiscal-period string is rebuilt, character for character, from
/// its parsed (year, quarter) pair.
pub proof fn lemma_fiscal_parse_render(s: Seq<char>)
    requires
        fiscal_matches(s),
    ensures
        fiscal_seq(fiscal_year_of(s), fiscal_quarter_of(s)) == s,
{
    let y = fiscal_year_of(s);
    let q = fiscal_quarter_of(s);
    let d0 = digit_val(s[0]);
    let d1 = digit_val(s[1]);
    let d2 = digit_val(s[2]);
    let d3 = digit_val(s[3]);
    assert(y / 1000 % 10 == d0 && y / 100 % 10 == d1 && y / 10 % 10 == d2 && y % 10 == d3)
        by (nonlinear_arith)
        requires
            0 <= d0 <= 9 && 0 <= d1 <= 9 && 0 <= d2 <= 9 && 0 <= d3 <= 9 && y == 1000 * d0 + 100
                * d1 + 10 * d2 + d3,
    ;
    lemma_digit_val_char(s[0]);
    lemma_digit_val_char(s[1]);
    lemma_digit_val_char(s[2]);
    lemma_digit_val_char(s[3]);
    lemma_digit_val_char(s[6]);
    assert(fiscal_seq(y, q) =~= s);
}

} // verus!
