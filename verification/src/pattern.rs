//! The directory-name grammar: version-tagged names of the shape
//! `YYYY_MM_DD_HH_MM(version)`, and the date pattern that date-tagged
//! names are formatted with.

use vstd::prelude::*;
use crate::calendar::{Date, Stamp};

verus! {

/// ASCII decimal digit.
pub open spec fn is_digit(c: char) -> bool {
    48 <= c as u32 <= 57
}

/// Numeric value of a decimal digit character.
pub open spec fn dval(c: char) -> int {
    c as u32 - 48
}

/// The version-tagged shape: sixteen fixed characters of digits and
/// underscores, an opening parenthesis, at least one inner character none
/// of which is a newline, and a closing parenthesis at the very end.
pub open spec fn shape_ok(s: Seq<char>) -> bool {
    &&& s.len() >= 19
    &&& is_digit(s[0]) && is_digit(s[1]) && is_digit(s[2]) && is_digit(s[3])
    &&& s[4] == '_'
    &&& is_digit(s[5]) && is_digit(s[6])
    &&& s[7] == '_'
    &&& is_digit(s[8]) && is_digit(s[9])
    &&& s[10] == '_'
    &&& is_digit(s[11]) && is_digit(s[12])
    &&& s[13] == '_'
    &&& is_digit(s[14]) && is_digit(s[15])
    &&& s[16] == '('
    &&& s[s.len() - 1] == ')'
    &&& forall|i: int| 17 <= i < s.len() - 1 ==> s[i] != '\n'
}

/// The parenthesized version text of a well-shaped name.
pub open spec fn version_of(s: Seq<char>) -> Seq<char> {
    s.subrange(17, s.len() - 1)
}

/// Numeric fields of the fixed-width date segment of a well-shaped name.
pub open spec fn fields_of(s: Seq<char>) -> Stamp {
    Stamp {
        date: Date {
            year: (dval(s[0]) * 1000 + dval(s[1]) * 100 + dval(s[2]) * 10 + dval(s[3])) as i64,
            month: (dval(s[5]) * 10 + dval(s[6])) as u32,
            day: (dval(s[8]) * 10 + dval(s[9])) as u32,
        },
        hour: (dval(s[11]) * 10 + dval(s[12])) as u32,
        minute: (dval(s[14]) * 10 + dval(s[15])) as u32,
    }
}

/// The timestamp of a well-shaped name: the digit fields when they name a
/// real calendar date and time of day, otherwise nothing.
pub open spec fn stamp_of(s: Seq<char>) -> Option<Stamp> {
    let st = fields_of(s);
    if st.wf() {
        Option::Some(st)
    } else {
        Option::None
    }
}

/// A directory entry, parsed: its name, its version tag (empty when the
/// name is not of the versioned shape) and its timestamp (missing when the
/// name is not of the shape or its date segment names no real date).
#[derive(Clone, Debug)]
pub struct Candidate {
    pub name: String,
    pub version: String,
    pub stamp: Option<Stamp>,
}

impl Candidate {
    /// The parse of `name` is faithful to the grammar.
    pub open spec fn parses(self, s: Seq<char>) -> bool {
        &&& self.name@ == s
        &&& shape_ok(s) ==> self.version@ == version_of(s) && self.stamp == stamp_of(s)
        &&& !shape_ok(s) ==> self.version@ == Seq::<char>::empty() && self.stamp is None
    }
}

/// Value of the digit at position `i` of `s`, when it is one.
fn digit_at(s: &str, i: usize, n: usize) -> (r: Option<u32>)
    requires
        n == s@.len(),
        i < n,
    ensures
        match r {
            Option::Some(v) => is_digit(s@[i as int]) && v == dval(s@[i as int]) && v <= 9,
            Option::None => !is_digit(s@[i as int]),
        },
{
    let c = s.get_char(i);
    let v = c as u32;
    if 48 <= v && v <= 57 {
        Option::Some(v - 48)
    } else {
        Option::None
    }
}

/// Parse a directory-entry name into a `Candidate`.
///
/// A name of the versioned shape yields its parenthesized text verbatim as
/// the version tag and, when the digits name a real date and time, its
/// timestamp; every other name yields the empty tag and no timestamp, the
/// sentinel that loses every recency comparison.
pub fn parse_candidate(name: &str) -> (c: Candidate)
    ensures
        c.parses(name@),
{
    let n = crate::text::char_len(name);
    if n < 19 {
        return Candidate { name: name.to_owned(), version: String::new(), stamp: Option::None };
    }
    let d0 = digit_at(name, 0, n);
    let d1 = digit_at(name, 1, n);
    let d2 = digit_at(name, 2, n);
    let d3 = digit_at(name, 3, n);
    let d5 = digit_at(name, 5, n);
    let d6 = digit_at(name, 6, n);
    let d8 = digit_at(name, 8, n);
    let d9 = digit_at(name, 9, n);
    let d11 = digit_at(name, 11, n);
    let d12 = digit_at(name, 12, n);
    let d14 = digit_at(name, 14, n);
    let d15 = digit_at(name, 15, n);
    let seps_ok = name.get_char(4) == '_' && name.get_char(7) == '_' && name.get_char(10) == '_'
        && name.get_char(13) == '_' && name.get_char(16) == '(' && name.get_char(n - 1) == ')';
    match (d0, d1, d2, d3, d5, d6, d8, d9, d11, d12, d14, d15) {
        (
            Option::Some(y0),
            Option::Some(y1),
            Option::Some(y2),
            Option::Some(y3),
            Option::Some(m0),
            Option::Some(m1),
            Option::Some(a0),
            Option::Some(a1),
            Option::Some(h0),
            Option::Some(h1),
            Option::Some(u0),
            Option::Some(u1),
        ) => {
            if !seps_ok {
                return Candidate { name: name.to_owned(), version: String::new(), stamp: Option::None };
            }
            let mut i: usize = 17;
            while i < n - 1
                invariant
                    17 <= i <= n - 1,
                    19 <= n == name@.len(),
                    forall|q: int| 17 <= q < i ==> name@[q] != '\n',
                decreases n - i,
            {
                if name.get_char(i) == '\n' {
                    return Candidate {
                        name: name.to_owned(),
                        version: String::new(),
                        stamp: Option::None,
                    };
                }
                i += 1;
            }
            assert(shape_ok(name@));
            let version = name.substring_char(17, n - 1).to_owned();
            let year = y0 * 1000 + y1 * 100 + y2 * 10 + y3;
            let month = m0 * 10 + m1;
            let day = a0 * 10 + a1;
            let hour = h0 * 10 + h1;
            let minute = u0 * 10 + u1;
            let date = Date { year: year as i64, month, day };
            let stamp = if 1 <= month && month <= 12 && 1 <= day
                && day <= crate::calendar::month_days(year as i64, month) && hour <= 23
                && minute <= 59 {
                Option::Some(Stamp { date, hour, minute })
            } else {
                Option::None
            };
            Candidate { name: name.to_owned(), version, stamp }
        },
        _ => Candidate { name: name.to_owned(), version: String::new(), stamp: Option::None },
    }
}

/// The character for decimal digit `v`.
pub open spec fn digit_char(v: int) -> char {
    if v == 0 {
        '0'
    } else if v == 1 {
        '1'
    } else if v == 2 {
        '2'
    } else if v == 3 {
        '3'
    } else if v == 4 {
        '4'
    } else if v == 5 {
        '5'
    } else if v == 6 {
        '6'
    } else if v == 7 {
        '7'
    } else if v == 8 {
        '8'
    } else {
        '9'
    }
}

/// Two-digit zero-padded decimal rendering of `v` modulo 100.
pub open spec fn two_digits(v: int) -> Seq<char> {
    seq![digit_char(v / 10 % 10), digit_char(v % 10)]
}

/// Four-digit zero-padded decimal rendering of `v` modulo 10000.
pub open spec fn four_digits(v: int) -> Seq<char> {
    seq![
        digit_char(v / 1000 % 10),
        digit_char(v / 100 % 10),
        digit_char(v / 10 % 10),
        digit_char(v % 10),
    ]
}

/// Rendering of date `d` under pattern `pat`: `%y` expands to the two-digit
/// year, `%Y` to the four-digit year, `%m` and `%d` to the zero-padded
/// month and day, `%%` to a percent sign; any other directive and any
/// other character stand for themselves.
pub open spec fn fmt_date(pat: Seq<char>, d: Date) -> Seq<char>
    decreases pat.len(),
{
    if pat.len() == 0 {
        Seq::<char>::empty()
    } else if pat[0] == '%' && pat.len() >= 2 {
        let rest = fmt_date(pat.skip(2), d);
        if pat[1] == 'y' {
            two_digits(d.year as int % 100) + rest
        } else if pat[1] == 'Y' {
            four_digits(d.year as int) + rest
        } else if pat[1] == 'm' {
            two_digits(d.month as int) + rest
        } else if pat[1] == 'd' {
            two_digits(d.day as int) + rest
        } else if pat[1] == '%' {
            seq!['%'] + rest
        } else {
            seq![pat[0], pat[1]] + rest
        }
    } else {
        seq![pat[0]] + fmt_date(pat.skip(1), d)
    }
}

/// The string for decimal digit `v`.
fn digit_str(v: u32) -> (r: &'static str)
    requires
        v <= 9,
    ensures
        r@ == seq![digit_char(v as int)],
{
    if v == 0 {
        proof { reveal_strlit("0"); }
        let s = "0";
        assert(s@ =~= seq![digit_char(0)]);
        s
    } else if v == 1 {
        proof { reveal_strlit("1"); }
        let s = "1";
        assert(s@ =~= seq![digit_char(1)]);
        s
    } else if v == 2 {
        proof { reveal_strlit("2"); }
        let s = "2";
        assert(s@ =~= seq![digit_char(2)]);
        s
    } else if v == 3 {
        proof { reveal_strlit("3"); }
        let s = "3";
        assert(s@ =~= seq![digit_char(3)]);
        s
    } else if v == 4 {
        proof { reveal_strlit("4"); }
        let s = "4";
        assert(s@ =~= seq![digit_char(4)]);
        s
    } else if v == 5 {
        proof { reveal_strlit("5"); }
        let s = "5";
        assert(s@ =~= seq![digit_char(5)]);
        s
    } else if v == 6 {
        proof { reveal_strlit("6"); }
        let s = "6";
        assert(s@ =~= seq![digit_char(6)]);
        s
    } else if v == 7 {
        proof { reveal_strlit("7"); }
        let s = "7";
        assert(s@ =~= seq![digit_char(7)]);
        s
    } else if v == 8 {
        proof { reveal_strlit("8"); }
        let s = "8";
        assert(s@ =~= seq![digit_char(8)]);
        s
    } else {
        proof { reveal_strlit("9"); }
        let s = "9";
        assert(s@ =~= seq![digit_char(9)]);
        s
    }
}

/// Append the two-digit rendering of `v` to `out`.
fn push_two_digits(out: &mut String, v: u64)
    ensures
        final(out)@ == old(out)@ + two_digits(v as int),
{
    out.append(digit_str(((v / 10) % 10) as u32));
    out.append(digit_str((v % 10) as u32));
    assert(final(out)@ =~= old(out)@ + two_digits(v as int));
}

/// Append the four-digit rendering of `v` to `out`.
fn push_four_digits(out: &mut String, v: u64)
    ensures
        final(out)@ == old(out)@ + four_digits(v as int),
{
    out.append(digit_str(((v / 1000) % 10) as u32));
    out.append(digit_str(((v / 100) % 10) as u32));
    out.append(digit_str(((v / 10) % 10) as u32));
    out.append(digit_str((v % 10) as u32));
    assert(final(out)@ =~= old(out)@ + four_digits(v as int));
}

/// Render date `d` under pattern `pat`, as `fmt_date` describes.
pub fn format_date(pat: &str, d: Date) -> (r: String)
    requires
        d.year >= 0,
    ensures
        r@ == fmt_date(pat@, d),
{
    let n = crate::text::char_len(pat);
    let mut out = String::new();
    let mut i: usize = 0;
    proof {
        assert(pat@.skip(0) =~= pat@);
        assert(out@ + fmt_date(pat@, d) =~= fmt_date(pat@, d));
    }
    while i < n
        invariant
            i <= n,
            n == pat@.len(),
            d.year >= 0,
            out@ + fmt_date(pat@.skip(i as int), d) == fmt_date(pat@, d),
        decreases n - i,
    {
        let ghost tail = pat@.skip(i as int);
        let c = pat.get_char(i);
        proof {
            assert(tail[0] == pat@[i as int]);
        }
        if c == '%' && i + 1 < n {
            let c2 = pat.get_char(i + 1);
            proof {
                assert(tail[1] == pat@[i + 1]);
                assert(tail.skip(2) =~= pat@.skip(i + 2));
            }
            if c2 == 'y' {
                push_two_digits(&mut out, (d.year as u64) % 100);
            } else if c2 == 'Y' {
                push_four_digits(&mut out, d.year as u64);
            } else if c2 == 'm' {
                push_two_digits(&mut out, d.month as u64);
            } else if c2 == 'd' {
                push_two_digits(&mut out, d.day as u64);
            } else if c2 == '%' {
                proof {
                    reveal_strlit("%");
                    assert("%"@ =~= seq!['%']);
                }
                out.append("%");
            } else {
                let piece = pat.substring_char(i, i + 2);
                proof {
                    assert(piece@ =~= seq![tail[0], tail[1]]);
                }
                out.append(piece);
            }
            i += 2;
        } else {
            let piece = pat.substring_char(i, i + 1);
            proof {
                assert(piece@ =~= seq![tail[0]]);
                assert(tail.skip(1) =~= pat@.skip(i + 1));
            }
            out.append(piece);
            i += 1;
        }
    }
    proof {
        assert(pat@.skip(n as int) =~= Seq::<char>::empty());
        assert(out@ + fmt_date(Seq::<char>::empty(), d) =~= out@);
    }
    out
}

/// The default date pattern: two-digit year, month and day.
pub fn default_date_pattern() -> (r: &'static str)
    ensures
        r@ == "%y%m%d"@,
{
    "%y%m%d"
}

} // verus!
