//! Verified text utilities: fixed-width digit fields, and calendar-date and
//! timestamp rendering and parsing.
//!
//! These back the wire codec: date-valued fields travel as `YYYY-MM-DD`
//! strings, timestamps as `YYYY-MM-DDTHH:MM:SS` with a UTC offset.

use vstd::prelude::*;
use vstd::string::StrSliceExecFns;
use vstd::string::StringExecFns;

use crate::scalar::Date;
use crate::scalar::Timestamp;

verus! {

/// The character for one decimal digit.
pub open spec fn digit_char(d: int) -> char {
    if d == 0 {
        '0'
    } else if d == 1 {
        '1'
    } else if d == 2 {
        '2'
    } else if d == 3 {
        '3'
    } else if d == 4 {
        '4'
    } else if d == 5 {
        '5'
    } else if d == 6 {
        '6'
    } else if d == 7 {
        '7'
    } else if d == 8 {
        '8'
    } else {
        '9'
    }
}

/// The value of a decimal digit character, `-1` for any other character.
pub open spec fn digit_val(c: char) -> int {
    if c == '0' {
        0
    } else if c == '1' {
        1
    } else if c == '2' {
        2
    } else if c == '3' {
        3
    } else if c == '4' {
        4
    } else if c == '5' {
        5
    } else if c == '6' {
        6
    } else if c == '7' {
        7
    } else if c == '8' {
        8
    } else if c == '9' {
        9
    } else {
        -1
    }
}

pub open spec fn is_digit(c: char) -> bool {
    digit_val(c) >= 0
}

/// A two-digit zero-padded field.
pub open spec fn two_digits(n: int) -> Seq<char> {
    seq![digit_char(n / 10), digit_char(n % 10)]
}

/// A four-digit zero-padded field.
pub open spec fn four_digits(n: int) -> Seq<char> {
    seq![
        digit_char(n / 1000),
        digit_char((n / 100) % 10),
        digit_char((n / 10) % 10),
        digit_char(n % 10),
    ]
}

/// Appends one decimal digit character.
pub fn push_digit(s: &mut String, d: u32)
    requires
        d < 10,
    ensures
        final(s)@ == old(s)@ + seq![digit_char(d as int)],
{
    if d == 0 {
        s.append("0");
        proof {
            reveal_strlit("0");
            assert(("0")@ =~= seq![digit_char(0)]);
        }
    } else if d == 1 {
        s.append("1");
        proof {
            reveal_strlit("1");
            assert(("1")@ =~= seq![digit_char(1)]);
        }
    } else if d == 2 {
        s.append("2");
        proof {
            reveal_strlit("2");
            assert(("2")@ =~= seq![digit_char(2)]);
        }
    } else if d == 3 {
        s.append("3");
        proof {
            reveal_strlit("3");
            assert(("3")@ =~= seq![digit_char(3)]);
        }
    } else if d == 4 {
        s.append("4");
        proof {
            reveal_strlit("4");
            assert(("4")@ =~= seq![digit_char(4)]);
        }
    } else if d == 5 {
        s.append("5");
        proof {
            reveal_strlit("5");
            assert(("5")@ =~= seq![digit_char(5)]);
        }
    } else if d == 6 {
        s.append("6");
        proof {
            reveal_strlit("6");
            assert(("6")@ =~= seq![digit_char(6)]);
        }
    } else if d == 7 {
        s.append("7");
        proof {
            reveal_strlit("7");
            assert(("7")@ =~= seq![digit_char(7)]);
        }
    } else if d == 8 {
        s.append("8");
        proof {
            reveal_strlit("8");
            assert(("8")@ =~= seq![digit_char(8)]);
        }
    } else {
        s.append("9");
        proof {
            reveal_strlit("9");
            assert(("9")@ =~= seq![digit_char(9)]);
        }
    }
}

/// Appends a two-digit zero-padded field.
pub fn push_two_digits(s: &mut String, n: u32)
    requires
        n < 100,
    ensures
        final(s)@ == old(s)@ + two_digits(n as int),
{
    push_digit(s, n / 10);
    push_digit(s, n % 10);
    proof {
        assert(final(s)@ =~= old(s)@ + two_digits(n as int));
    }
}

/// Appends a four-digit zero-padded field.
pub fn push_four_digits(s: &mut String, n: u32)
    requires
        n < 10000,
    ensures
        final(s)@ == old(s)@ + four_digits(n as int),
{
    push_digit(s, n / 1000);
    push_digit(s, (n / 100) % 10);
    push_digit(s, (n / 10) % 10);
    push_digit(s, n % 10);
    proof {
        assert(final(s)@ =~= old(s)@ + four_digits(n as int));
    }
}

/// The rendered form of a calendar date.
pub open spec fn date_chars(d: Date) -> Seq<char> {
    four_digits(d.year as int) + seq!['-'] + two_digits(d.month as int) + seq!['-'] + two_digits(
        d.day as int,
    )
}

/// Renders a calendar date as `YYYY-MM-DD`.
pub fn date_to_string(d: &Date) -> (r: String)
    requires
        d.is_valid(),
    ensures
        r@ == date_chars(*d),
{
    let mut s = String::new();
    push_four_digits(&mut s, d.year);
    s.append("-");
    push_two_digits(&mut s, d.month);
    s.append("-");
    push_two_digits(&mut s, d.day);
    proof {
        reveal_strlit("-");
        assert(("-")@ =~= seq!['-']);
        assert(s@ =~= date_chars(*d));
    }
    s
}

/// The date a `YYYY-MM-DD` character sequence denotes, if it is well formed
/// and in calendar range.
pub open spec fn spec_parse_date(cs: Seq<char>) -> Option<Date> {
    if cs.len() == 10 && is_digit(cs[0]) && is_digit(cs[1]) && is_digit(cs[2]) && is_digit(cs[3])
        && cs[4] == '-' && is_digit(cs[5]) && is_digit(cs[6]) && cs[7] == '-' && is_digit(cs[8])
        && is_digit(cs[9]) {
        let y = 1000 * digit_val(cs[0]) + 100 * digit_val(cs[1]) + 10 * digit_val(cs[2])
            + digit_val(cs[3]);
        let m = 10 * digit_val(cs[5]) + digit_val(cs[6]);
        let d = 10 * digit_val(cs[8]) + digit_val(cs[9]);
        if 1 <= m <= 12 && 1 <= d <= 31 {
            Some(Date { year: y as u32, month: m as u32, day: d as u32 })
        } else {
            None
        }
    } else {
        None
    }
}

/// The numeric value of one decimal digit character.
pub fn char_digit(c: char) -> (r: Option<u32>)
    ensures
        r is Some <==> is_digit(c),
        r is Some ==> r->0 == digit_val(c),
{
    match c {
        '0' => Some(0),
        '1' => Some(1),
        '2' => Some(2),
        '3' => Some(3),
        '4' => Some(4),
        '5' => Some(5),
        '6' => Some(6),
        '7' => Some(7),
        '8' => Some(8),
        '9' => Some(9),
        _ => None,
    }
}

/// Parses a `YYYY-MM-DD` date.
pub fn parse_date(s: &str) -> (r: Option<Date>)
    ensures
        r == spec_parse_date(s@),
{
    let n = s.unicode_len();
    if n != 10 {
        return None;
    }
    let d0 = match char_digit(s.get_char(0)) {
        Some(v) => v,
        None => { return None; },
    };
    let d1 = match char_digit(s.get_char(1)) {
        Some(v) => v,
        None => { return None; },
    };
    let d2 = match char_digit(s.get_char(2)) {
        Some(v) => v,
        None => { return None; },
    };
    let d3 = match char_digit(s.get_char(3)) {
        Some(v) => v,
        None => { return None; },
    };
    if s.get_char(4) != '-' {
        return None;
    }
    let d5 = match char_digit(s.get_char(5)) {
        Some(v) => v,
        None => { return None; },
    };
    let d6 = match char_digit(s.get_char(6)) {
        Some(v) => v,
        None => { return None; },
    };
    if s.get_char(7) != '-' {
        return None;
    }
    let d8 = match char_digit(s.get_char(8)) {
        Some(v) => v,
        None => { return None; },
    };
    let d9 = match char_digit(s.get_char(9)) {
        Some(v) => v,
        None => { return None; },
    };
    let y = 1000 * d0 + 100 * d1 + 10 * d2 + d3;
    let m = 10 * d5 + d6;
    let d = 10 * d8 + d9;
    if 1 <= m && m <= 12 && 1 <= d && d <= 31 {
        Some(Date { year: y, month: m, day: d })
    } else {
        None
    }
}

/// Rendering then parsing a valid date gives the date back.
#[verifier::rlimit(100)]
pub proof fn lemma_date_roundtrip(d: Date)
    requires
        d.is_valid(),
    ensures
        spec_parse_date(date_chars(d)) == Some(d),
{
    let cs = date_chars(d);
    assert(cs[0] == digit_char(d.year as int / 1000));
    assert(cs[1] == digit_char((d.year as int / 100) % 10));
    assert(cs[2] == digit_char((d.year as int / 10) % 10));
    assert(cs[3] == digit_char(d.year as int % 10));
    assert(cs[4] == '-');
    assert(cs[5] == digit_char(d.month as int / 10));
    assert(cs[6] == digit_char(d.month as int % 10));
    assert(cs[7] == '-');
    assert(cs[8] == digit_char(d.day as int / 10));
    assert(cs[9] == digit_char(d.day as int % 10));
    lemma_digit_roundtrip();
    let y = d.year as int;
    assert(y == 1000 * (y / 1000) + 100 * ((y / 100) % 10) + 10 * ((y / 10) % 10) + y % 10);
    let m = d.month as int;
    assert(m == 10 * (m / 10) + m % 10);
    let dd = d.day as int;
    assert(dd == 10 * (dd / 10) + dd % 10);
}

/// A digit's character maps back to its value.
pub proof fn lemma_digit_roundtrip()
    ensures
        forall|x: int| 0 <= x < 10 ==> digit_val(digit_char(x)) == x,
{
}

/// The rendered form of a UTC offset: `Z` for zero, else a signed `HH:MM`.
pub open spec fn offset_chars(om: int) -> Seq<char> {
    if om == 0 {
        seq!['Z']
    } else if om > 0 {
        seq!['+'] + two_digits(om / 60) + seq![':'] + two_digits(om % 60)
    } else {
        seq!['-'] + two_digits((-om) / 60) + seq![':'] + two_digits((-om) % 60)
    }
}

/// The rendered form of a timestamp.
pub open spec fn timestamp_chars(t: Timestamp) -> Seq<char> {
    date_chars(t.date) + seq!['T'] + two_digits(t.hour as int) + seq![':'] + two_digits(
        t.minute as int,
    ) + seq![':'] + two_digits(t.second as int) + offset_chars(t.offset_minutes as int)
}

/// Renders a timestamp as `YYYY-MM-DDTHH:MM:SS` with its UTC offset.
pub fn timestamp_to_string(t: &Timestamp) -> (r: String)
    requires
        t.is_valid(),
    ensures
        r@ == timestamp_chars(*t),
{
    let mut s = date_to_string(&t.date);
    s.append("T");
    push_two_digits(&mut s, t.hour);
    s.append(":");
    push_two_digits(&mut s, t.minute);
    s.append(":");
    push_two_digits(&mut s, t.second);
    if t.offset_minutes == 0 {
        s.append("Z");
        proof {
            reveal_strlit("T");
            reveal_strlit(":");
            reveal_strlit("Z");
            assert(("T")@ =~= seq!['T']);
            assert((":")@ =~= seq![':']);
            assert(("Z")@ =~= seq!['Z']);
            assert(s@ =~= timestamp_chars(*t));
        }
    } else {
        let magnitude: u32 = if t.offset_minutes > 0 {
            s.append("+");
            t.offset_minutes as u32
        } else {
            s.append("-");
            (-t.offset_minutes) as u32
        };
        push_two_digits(&mut s, magnitude / 60);
        s.append(":");
        push_two_digits(&mut s, magnitude % 60);
        proof {
            reveal_strlit("T");
            reveal_strlit(":");
            reveal_strlit("+");
            reveal_strlit("-");
            assert(("T")@ =~= seq!['T']);
            assert((":")@ =~= seq![':']);
            assert(("+")@ =~= seq!['+']);
            assert(("-")@ =~= seq!['-']);
            assert(s@ =~= timestamp_chars(*t));
        }
    }
    s
}

/// Whether the characters from `from` (inclusive) to `to` (exclusive) form
/// a fractional-seconds part: a dot followed by at least one digit.
pub open spec fn frac_ok(cs: Seq<char>, from: int, to: int) -> bool {
    &&& 0 <= from
    &&& to <= cs.len()
    &&& cs[from] == '.'
    &&& to - from >= 2
    &&& forall|k: int| from < k < to ==> is_digit(#[trigger] cs[k])
}

/// The timestamp a character sequence denotes, if well formed: a date, `T`,
/// a time of day, an optional fractional-seconds part, and either `Z` or a
/// signed `HH:MM` offset.
///
/// The model carries whole seconds: a fractional part is accepted and
/// discarded.
pub open spec fn spec_parse_timestamp(cs: Seq<char>) -> Option<Timestamp> {
    if cs.len() >= 20 && spec_parse_date(cs.subrange(0, 10)) is Some && cs[10] == 'T' && is_digit(
        cs[11],
    ) && is_digit(cs[12]) && cs[13] == ':' && is_digit(cs[14]) && is_digit(cs[15]) && cs[16]
        == ':' && is_digit(cs[17]) && is_digit(cs[18]) {
        let date = spec_parse_date(cs.subrange(0, 10))->0;
        let hour = 10 * digit_val(cs[11]) + digit_val(cs[12]);
        let minute = 10 * digit_val(cs[14]) + digit_val(cs[15]);
        let second = 10 * digit_val(cs[17]) + digit_val(cs[18]);
        if hour < 24 && minute < 60 && second < 60 {
            if cs.last() == 'Z' {
                if cs.len() == 20 || frac_ok(cs, 19, cs.len() - 1) {
                    Some(
                        Timestamp {
                            date,
                            hour: hour as u32,
                            minute: minute as u32,
                            second: second as u32,
                            offset_minutes: 0,
                        },
                    )
                } else {
                    None
                }
            } else if cs.len() >= 25 && (cs[cs.len() - 6] == '+' || cs[cs.len() - 6] == '-')
                && is_digit(cs[cs.len() - 5]) && is_digit(cs[cs.len() - 4]) && cs[cs.len() - 3]
                == ':' && is_digit(cs[cs.len() - 2]) && is_digit(cs[cs.len() - 1]) && (cs.len()
                == 25 || frac_ok(cs, 19, cs.len() - 6)) {
                let oh = 10 * digit_val(cs[cs.len() - 5]) + digit_val(cs[cs.len() - 4]);
                let om = 10 * digit_val(cs[cs.len() - 2]) + digit_val(cs[cs.len() - 1]);
                if oh < 24 && om < 60 {
                    let magnitude = 60 * oh + om;
                    Some(
                        Timestamp {
                            date,
                            hour: hour as u32,
                            minute: minute as u32,
                            second: second as u32,
                            offset_minutes: if cs[cs.len() - 6] == '+' {
                                magnitude as i32
                            } else {
                                (-magnitude) as i32
                            },
                        },
                    )
                } else {
                    None
                }
            } else {
                None
            }
        } else {
            None
        }
    } else {
        None
    }
}

/// Parses a timestamp rendered by [`timestamp_to_string`] or an equivalent
/// form with a fractional-seconds part or an explicit `+HH:MM`/`-HH:MM`
/// offset; a fractional part is discarded.
pub fn parse_timestamp(s: &str) -> (r: Option<Timestamp>)
    ensures
        r == spec_parse_timestamp(s@),
{
    let n = s.unicode_len();
    if n < 20 {
        return None;
    }
    let date = match parse_date(s.substring_char(0, 10)) {
        Some(d) => d,
        None => { return None; },
    };
    if s.get_char(10) != 'T' {
        return None;
    }
    let h1 = match char_digit(s.get_char(11)) {
        Some(v) => v,
        None => { return None; },
    };
    let h2 = match char_digit(s.get_char(12)) {
        Some(v) => v,
        None => { return None; },
    };
    if s.get_char(13) != ':' {
        return None;
    }
    let m1 = match char_digit(s.get_char(14)) {
        Some(v) => v,
        None => { return None; },
    };
    let m2 = match char_digit(s.get_char(15)) {
        Some(v) => v,
        None => { return None; },
    };
    if s.get_char(16) != ':' {
        return None;
    }
    let s1 = match char_digit(s.get_char(17)) {
        Some(v) => v,
        None => { return None; },
    };
    let s2 = match char_digit(s.get_char(18)) {
        Some(v) => v,
        None => { return None; },
    };
    let hour = 10 * h1 + h2;
    let minute = 10 * m1 + m2;
    let second = 10 * s1 + s2;
    if !(hour < 24 && minute < 60 && second < 60) {
        return None;
    }
    if s.get_char(n - 1) == 'Z' {
        if n > 20 && !check_frac(s, 19, n - 1) {
            return None;
        }
        return Some(Timestamp { date, hour, minute, second, offset_minutes: 0 });
    }
    if n < 25 {
        return None;
    }
    let p = n - 6;
    let sign = s.get_char(p);
    if sign != '+' && sign != '-' {
        return None;
    }
    let o1 = match char_digit(s.get_char(p + 1)) {
        Some(v) => v,
        None => { return None; },
    };
    let o2 = match char_digit(s.get_char(p + 2)) {
        Some(v) => v,
        None => { return None; },
    };
    if s.get_char(p + 3) != ':' {
        return None;
    }
    let o3 = match char_digit(s.get_char(p + 4)) {
        Some(v) => v,
        None => { return None; },
    };
    let o4 = match char_digit(s.get_char(p + 5)) {
        Some(v) => v,
        None => { return None; },
    };
    if n > 25 && !check_frac(s, 19, p) {
        return None;
    }
    let oh = 10 * o1 + o2;
    let om = 10 * o3 + o4;
    if !(oh < 24 && om < 60) {
        return None;
    }
    let magnitude = 60 * oh + om;
    let offset_minutes: i32 = if sign == '+' {
        magnitude as i32
    } else {
        -(magnitude as i32)
    };
    Some(Timestamp { date, hour, minute, second, offset_minutes })
}

/// Runtime check mirroring [`frac_ok`].
fn check_frac(s: &str, from: usize, to: usize) -> (r: bool)
    requires
        from < to,
        to <= s@.len(),
    ensures
        r == frac_ok(s@, from as int, to as int),
{
    if s.get_char(from) != '.' {
        return false;
    }
    if to - from < 2 {
        return false;
    }
    let mut k = from + 1;
    while k < to
        invariant
            from < k <= to,
            to <= s@.len(),
            forall|j: int| from < j < k ==> is_digit(#[trigger] s@[j]),
        decreases to - k,
    {
        match char_digit(s.get_char(k)) {
            Some(_) => (),
            None => { return false; },
        }
        k = k + 1;
    }
    true
}

/// Rendering then parsing a valid timestamp gives the timestamp back.
#[verifier::rlimit(100)]
pub proof fn lemma_timestamp_roundtrip(t: Timestamp)
    requires
        t.is_valid(),
    ensures
        spec_parse_timestamp(timestamp_chars(t)) == Some(t),
{
    let cs = timestamp_chars(t);
    lemma_digit_roundtrip();
    assert(cs.subrange(0, 10) =~= date_chars(t.date));
    lemma_date_roundtrip(t.date);
    let h = t.hour as int;
    let m = t.minute as int;
    let sec = t.second as int;
    assert(cs[10] == 'T');
    assert(cs[11] == digit_char(h / 10));
    assert(cs[12] == digit_char(h % 10));
    assert(cs[13] == ':');
    assert(cs[14] == digit_char(m / 10));
    assert(cs[15] == digit_char(m % 10));
    assert(cs[16] == ':');
    assert(cs[17] == digit_char(sec / 10));
    assert(cs[18] == digit_char(sec % 10));
    assert(h == 10 * (h / 10) + h % 10);
    assert(m == 10 * (m / 10) + m % 10);
    assert(sec == 10 * (sec / 10) + sec % 10);
    let om = t.offset_minutes as int;
    if om == 0 {
        assert(cs.len() == 20);
        assert(cs[19] == 'Z');
        assert(cs.last() == 'Z');
    } else {
        let magnitude = if om > 0 {
            om
        } else {
            -om
        };
        assert(cs.len() == 25);
        assert(cs[19] == if om > 0 {
            '+'
        } else {
            '-'
        });
        assert(cs.last() == digit_char(magnitude % 60 % 10));
        assert(cs.last() != 'Z');
        assert(cs[20] == digit_char(magnitude / 60 / 10));
        assert(cs[21] == digit_char(magnitude / 60 % 10));
        assert(cs[22] == ':');
        assert(cs[23] == digit_char(magnitude % 60 / 10));
        assert(cs[24] == digit_char(magnitude % 60 % 10));
        assert(magnitude == 60 * (magnitude / 60) + magnitude % 60);
        assert(magnitude / 60 == 10 * (magnitude / 60 / 10) + magnitude / 60 % 10);
        assert(magnitude % 60 == 10 * (magnitude % 60 / 10) + magnitude % 60 % 10);
    }
}

/// Whether the character is one of the white-space characters a trim
/// strips: the ASCII blanks and the Unicode space separators.
pub open spec fn is_space_char(c: char) -> bool {
    ||| c == ' '
    ||| c == '\t'
    ||| c == '\n'
    ||| c == '\u{000b}'
    ||| c == '\u{000c}'
    ||| c == '\r'
    ||| c == '\u{0085}'
    ||| c == '\u{00a0}'
    ||| c == '\u{1680}'
    ||| c == '\u{2000}'
    ||| c == '\u{2001}'
    ||| c == '\u{2002}'
    ||| c == '\u{2003}'
    ||| c == '\u{2004}'
    ||| c == '\u{2005}'
    ||| c == '\u{2006}'
    ||| c == '\u{2007}'
    ||| c == '\u{2008}'
    ||| c == '\u{2009}'
    ||| c == '\u{200a}'
    ||| c == '\u{2028}'
    ||| c == '\u{2029}'
    ||| c == '\u{202f}'
    ||| c == '\u{205f}'
    ||| c == '\u{3000}'
}

/// Runtime check mirroring [`is_space_char`].
fn char_is_space(c: char) -> (r: bool)
    ensures
        r == is_space_char(c),
{
    c == ' ' || c == '\t' || c == '\n' || c == '\u{000b}' || c == '\u{000c}' || c == '\r'
        || c == '\u{0085}' || c == '\u{00a0}' || c == '\u{1680}' || c == '\u{2000}'
        || c == '\u{2001}' || c == '\u{2002}' || c == '\u{2003}' || c == '\u{2004}'
        || c == '\u{2005}' || c == '\u{2006}' || c == '\u{2007}' || c == '\u{2008}'
        || c == '\u{2009}' || c == '\u{200a}' || c == '\u{2028}' || c == '\u{2029}'
        || c == '\u{202f}' || c == '\u{205f}' || c == '\u{3000}'
}

/// Whether the sequence holds any character that is not blank.
pub open spec fn has_visible_char(cs: Seq<char>) -> bool {
    exists|i: int| 0 <= i < cs.len() && !is_space_char(cs[i])
}

/// Runtime check mirroring [`has_visible_char`].
pub fn str_has_visible(s: &str) -> (r: bool)
    ensures
        r == has_visible_char(s@),
{
    let n = s.unicode_len();
    let mut i: usize = 0;
    while i < n
        invariant
            n == s@.len(),
            i <= n,
            forall|j: int| 0 <= j < i ==> is_space_char(s@[j]),
        decreases n - i,
    {
        let c = s.get_char(i);
        if !char_is_space(c) {
            return true;
        }
        i = i + 1;
    }
    false
}

} // verus!
