//! The time-window gate: a scan cycle is admitted when the current time of
//! day falls inside any configured `"HH:MM-HH:MM"` range, both ends
//! inclusive; an empty range list always admits; malformed entries are
//! ignored.

use vstd::prelude::*;
use crate::pattern::{is_digit, dval};

verus! {

/// Least index of `c` in `s`, when it occurs.
pub open spec fn find_char(s: Seq<char>, c: char) -> Option<int>
    decreases s.len(),
{
    if s.len() == 0 {
        Option::None
    } else if s[0] == c {
        Option::Some(0int)
    } else {
        match find_char(s.skip(1), c) {
            Option::Some(i) => Option::Some(i + 1),
            Option::None => Option::None,
        }
    }
}

/// `find_char` returns the least occurrence, or reports that none exists.
pub proof fn lemma_find_char(s: Seq<char>, c: char)
    ensures
        match find_char(s, c) {
            Option::Some(i) => 0 <= i < s.len() && s[i] == c && forall|j: int|
                0 <= j < i ==> s[j] != c,
            Option::None => forall|j: int| 0 <= j < s.len() ==> s[j] != c,
        },
    decreases s.len(),
{
    if s.len() > 0 && s[0] != c {
        let t = s.skip(1);
        lemma_find_char(t, c);
        match find_char(t, c) {
            Option::Some(i) => {
                assert(find_char(s, c) == Option::Some(i + 1));
                assert(s[i + 1] == t[i]);
                assert forall|j: int| 0 <= j < i + 1 implies s[j] != c by {
                    if j > 0 {
                        assert(t[j - 1] == s[j]);
                        assert(t[j - 1] != c);
                    }
                }
            },
            Option::None => {
                assert forall|j: int| 0 <= j < s.len() implies s[j] != c by {
                    if j > 0 {
                        assert(t[j - 1] == s[j]);
                        assert(t[j - 1] != c);
                    }
                }
            },
        }
    }
}

/// Minutes past midnight read from an `"HH:MM"` text: one or two digits of
/// hour, a colon, one or two digits of minute, nothing else, hour at most
/// 23 and minute at most 59.
pub open spec fn hm_value(s: Seq<char>) -> Option<u32> {
    if s.len() >= 1 && is_digit(s[0]) {
        let two_h = s.len() >= 2 && is_digit(s[1]);
        let h = if two_h {
            dval(s[0]) * 10 + dval(s[1])
        } else {
            dval(s[0])
        };
        let p = if two_h {
            2int
        } else {
            1int
        };
        if p < s.len() && s[p] == ':' && p + 1 < s.len() && is_digit(s[p + 1]) {
            let two_m = p + 2 < s.len() && is_digit(s[p + 2]);
            let m = if two_m {
                dval(s[p + 1]) * 10 + dval(s[p + 2])
            } else {
                dval(s[p + 1])
            };
            let e = if two_m {
                p + 3
            } else {
                p + 2
            };
            if e == s.len() && h <= 23 && m <= 59 {
                Option::Some((h * 60 + m) as u32)
            } else {
                Option::None
            }
        } else {
            Option::None
        }
    } else {
        Option::None
    }
}

/// The window of a range entry: the text must split at a single dash into
/// two `"HH:MM"` halves; the window is their pair of minute values.
pub open spec fn window_of(s: Seq<char>) -> Option<(u32, u32)> {
    match find_char(s, '-') {
        Option::None => Option::None,
        Option::Some(i) => {
            let left = s.take(i);
            let right = s.skip(i + 1);
            if find_char(right, '-') is Some {
                Option::None
            } else {
                match (hm_value(left), hm_value(right)) {
                    (Option::Some(a), Option::Some(b)) => Option::Some((a, b)),
                    _ => Option::None,
                }
            }
        },
    }
}

/// Whether a single range entry admits second-of-day `t`.
pub open spec fn window_admits(s: Seq<char>, t: u32) -> bool {
    match window_of(s) {
        Option::Some(w) => w.0 * 60 <= t <= w.1 * 60,
        Option::None => false,
    }
}

/// Whether the configured ranges admit second-of-day `t`: an empty list
/// always admits, otherwise some entry must.
pub open spec fn cycle_admitted(ranges: Seq<Seq<char>>, t: u32) -> bool {
    ranges.len() == 0 || exists|j: int| 0 <= j < ranges.len() && window_admits(ranges[j], t)
}

/// A range whose two ends are the same minute admits exactly that minute:
/// with `"09:00-09:00"` as the only entry, a cycle is admitted at second
/// 32400 of the day and at no other.
pub proof fn lemma_degenerate_window(ranges: Seq<Seq<char>>, t: u32)
    requires
        ranges.len() == 1,
        ranges[0] == "09:00-09:00"@,
    ensures
        cycle_admitted(ranges, t) <==> t == 32400,
{
    let s = ranges[0];
    reveal_strlit("09:00-09:00");
    assert(s.len() == 11);
    assert(s[0] == '0' && s[1] == '9' && s[2] == ':' && s[3] == '0' && s[4] == '0');
    assert(s[5] == '-');
    assert(s[6] == '0' && s[7] == '9' && s[8] == ':' && s[9] == '0' && s[10] == '0');
    lemma_find_char(s, '-');
    let i = find_char(s, '-');
    if i is None {
        assert(false);
    }
    let iv = i->0;
    assert(s[iv] == '-');
    assert(iv == 5) by {
        if iv < 5 {
            assert(s[iv] == '-');
        } else if iv > 5 {
            assert(s[5] != '-');
        }
    }
    let left = s.take(5);
    let right = s.skip(6);
    assert(left.len() == 5);
    assert(left[0] == '0' && left[1] == '9' && left[2] == ':' && left[3] == '0' && left[4]
        == '0');
    assert(hm_value(left) == Option::Some(540u32));
    assert(right.len() == 5);
    assert(right[0] == '0' && right[1] == '9' && right[2] == ':' && right[3] == '0' && right[4]
        == '0');
    assert(hm_value(right) == Option::Some(540u32));
    lemma_find_char(right, '-');
    if find_char(right, '-') is Some {
        let rv = find_char(right, '-')->0;
        assert(right[rv] == '-');
        assert(false);
    }
    assert(window_of(s) == Option::Some((540u32, 540u32)));
    assert(window_admits(s, t) <==> 32400 <= t <= 32400);
    if cycle_admitted(ranges, t) {
        let j = choose|j: int| 0 <= j < ranges.len() && window_admits(ranges[j], t);
        assert(j == 0);
    }
    if t == 32400 {
        assert(window_admits(ranges[0], t));
    }
}

/// Minutes past midnight read from `s`, as `hm_value` describes.
fn hm_of(s: &str) -> (r: Option<u32>)
    ensures
        r == hm_value(s@),
{
    let n = crate::text::char_len(s);
    if n == 0 {
        return Option::None;
    }
    let c0 = s.get_char(0);
    let v0 = c0 as u32;
    if !(48 <= v0 && v0 <= 57) {
        return Option::None;
    }
    let two_h = if n >= 2 {
        let c1 = s.get_char(1);
        48 <= c1 as u32 && c1 as u32 <= 57
    } else {
        false
    };
    let h: u32 = if two_h {
        (v0 - 48) * 10 + (s.get_char(1) as u32 - 48)
    } else {
        v0 - 48
    };
    let p: usize = if two_h {
        2
    } else {
        1
    };
    if !(p < n) {
        return Option::None;
    }
    if s.get_char(p) != ':' {
        return Option::None;
    }
    if !(p + 1 < n) {
        return Option::None;
    }
    let cm = s.get_char(p + 1);
    if !(48 <= cm as u32 && cm as u32 <= 57) {
        return Option::None;
    }
    let two_m = if p + 2 < n {
        let c2 = s.get_char(p + 2);
        48 <= c2 as u32 && c2 as u32 <= 57
    } else {
        false
    };
    let m: u32 = if two_m {
        (cm as u32 - 48) * 10 + (s.get_char(p + 2) as u32 - 48)
    } else {
        cm as u32 - 48
    };
    let e: usize = if two_m {
        p + 3
    } else {
        p + 2
    };
    if e == n && h <= 23 && m <= 59 {
        Option::Some(h * 60 + m)
    } else {
        Option::None
    }
}

/// First index of `c` in `s`, related to `find_char`.
fn find_char_str(s: &str, c: char) -> (r: Option<usize>)
    ensures
        match r {
            Option::Some(i) => find_char(s@, c) == Option::Some(i as int),
            Option::None => find_char(s@, c) is None,
        },
{
    let n = crate::text::char_len(s);
    let mut i: usize = 0;
    while i < n
        invariant
            i <= n,
            n == s@.len(),
            forall|j: int| 0 <= j < i ==> s@[j] != c,
        decreases n - i,
    {
        if s.get_char(i) == c {
            proof {
                lemma_find_char(s@, c);
            }
            return Option::Some(i);
        }
        i += 1;
    }
    proof {
        lemma_find_char(s@, c);
    }
    Option::None
}

/// Whether the range entry `s` admits second-of-day `t`.
fn window_check(s: &str, t: u32) -> (r: bool)
    ensures
        r == window_admits(s@, t),
{
    let n = crate::text::char_len(s);
    match find_char_str(s, '-') {
        Option::None => false,
        Option::Some(i) => {
            proof {
                lemma_find_char(s@, '-');
            }
            let left = s.substring_char(0, i);
            let right = s.substring_char(i + 1, n);
            proof {
                assert(left@ =~= s@.take(i as int));
                assert(right@ =~= s@.skip(i + 1));
            }
            match find_char_str(right, '-') {
                Option::Some(_) => false,
                Option::None => {
                    match (hm_of(left), hm_of(right)) {
                        (Option::Some(a), Option::Some(b)) => {
                            a * 60 <= t && t <= b * 60
                        },
                        _ => false,
                    }
                },
            }
        },
    }
}

/// Whether the configured ranges admit second-of-day `t`, as
/// `cycle_admitted` describes.
pub fn cycle_gate(ranges: &Vec<String>, t: u32) -> (r: bool)
    ensures
        r == cycle_admitted(ranges.deep_view(), t),
{
    let n = ranges.len();
    if n == 0 {
        return true;
    }
    let mut j: usize = 0;
    while j < n
        invariant
            j <= n,
            n == ranges@.len(),
            forall|q: int| 0 <= q < j ==> !window_admits(ranges.deep_view()[q], t),
        decreases n - j,
    {
        if window_check(ranges[j].as_str(), t) {
            assert(window_admits(ranges.deep_view()[j as int], t));
            return true;
        }
        j += 1;
    }
    false
}

} // verus!
