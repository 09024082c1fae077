//! Character-sequence predicates and string helpers shared by the name
//! matcher, the transfer filters and the command templating.

use vstd::prelude::*;

verus! {

/// Code point of `c` with ASCII upper-case letters folded to lower case.
pub open spec fn fold_val(c: char) -> int {
    if 65 <= c as u32 && c as u32 <= 90 {
        c as u32 + 32
    } else {
        c as u32 as int
    }
}

/// `pat` occurs in `s` starting at position `i`.
pub open spec fn matches_at(s: Seq<char>, pat: Seq<char>, i: int) -> bool {
    &&& 0 <= i
    &&& i + pat.len() <= s.len()
    &&& forall|k: int| 0 <= k < pat.len() ==> s[i + k] == pat[k]
}

/// `pat` occurs somewhere in `s`.
pub open spec fn has_sub(s: Seq<char>, pat: Seq<char>) -> bool {
    exists|i: int| matches_at(s, pat, i)
}

/// `s` ends with `suf`, character for character.
pub open spec fn ends_with(s: Seq<char>, suf: Seq<char>) -> bool {
    matches_at(s, suf, s.len() - suf.len())
}

/// `s` ends with `suf` up to ASCII case folding.
pub open spec fn ends_with_fold(s: Seq<char>, suf: Seq<char>) -> bool {
    &&& s.len() >= suf.len()
    &&& forall|k: int|
        0 <= k < suf.len() ==> fold_val(s[s.len() - suf.len() + k]) == fold_val(suf[k])
}

/// Case-folded code point of `c`, as `fold_val` describes.
pub fn fold_char(c: char) -> (r: u32)
    ensures
        r == fold_val(c),
{
    let v = c as u32;
    if 65 <= v && v <= 90 {
        v + 32
    } else {
        v
    }
}

/// Number of characters in `s`.
pub fn char_len(s: &str) -> (n: usize)
    ensures
        n == s@.len(),
{
    s.unicode_len()
}

/// Whether `pat` occurs in `s` starting at character position `i`.
pub fn check_match_at(s: &str, pat: &str, i: usize, n: usize, m: usize) -> (r: bool)
    requires
        n == s@.len(),
        m == pat@.len(),
        i + m <= n,
    ensures
        r == matches_at(s@, pat@, i as int),
{
    let mut k: usize = 0;
    while k < m
        invariant
            k <= m,
            n == s@.len(),
            m == pat@.len(),
            i + m <= n,
            forall|q: int| 0 <= q < k ==> s@[i + q] == pat@[q],
        decreases m - k,
    {
        if s.get_char(i + k) != pat.get_char(k) {
            assert(!matches_at(s@, pat@, i as int));
            return false;
        }
        k += 1;
    }
    true
}

/// Whether `pat` occurs anywhere in `s`.
pub fn has_sub_str(s: &str, pat: &str) -> (r: bool)
    ensures
        r == has_sub(s@, pat@),
{
    let n = char_len(s);
    let m = char_len(pat);
    if m > n {
        assert(!has_sub(s@, pat@));
        return false;
    }
    let mut i: usize = 0;
    while i <= n - m
        invariant
            m <= n,
            n == s@.len(),
            m == pat@.len(),
            i <= n - m + 1,
            forall|q: int| 0 <= q < i ==> !matches_at(s@, pat@, q),
        decreases n + 1 - i,
    {
        if check_match_at(s, pat, i, n, m) {
            return true;
        }
        i += 1;
    }
    assert forall|q: int| !matches_at(s@, pat@, q) by {
        if 0 <= q && q + m <= n {
            assert(q < i);
        }
    }
    false
}

/// Whether `s` ends with `suf`, character for character.
pub fn ends_with_str(s: &str, suf: &str) -> (r: bool)
    ensures
        r == ends_with(s@, suf@),
{
    let n = char_len(s);
    let m = char_len(suf);
    if m > n {
        assert(!ends_with(s@, suf@));
        return false;
    }
    check_match_at(s, suf, n - m, n, m)
}

/// Result of repeatedly removing the suffix `suf` from the end of `s`.
pub open spec fn strip_all(s: Seq<char>, suf: Seq<char>) -> Seq<char>
    decreases s.len() when suf.len() > 0
{
    if ends_with(s, suf) {
        strip_all(s.take(s.len() - suf.len()), suf)
    } else {
        s
    }
}

/// A path separator, in either spelling.
pub open spec fn is_sep(c: char) -> bool {
    c == '/' || c == '\\'
}

/// Result of removing every trailing path separator from `s`.
pub open spec fn strip_seps(s: Seq<char>) -> Seq<char>
    decreases s.len(),
{
    if s.len() > 0 && is_sep(s[s.len() - 1]) {
        strip_seps(s.drop_last())
    } else {
        s
    }
}

/// Result of replacing every occurrence of `pat` in `s` by `rep`, leftmost
/// first and without rescanning the replacement text.
pub open spec fn replace_all(s: Seq<char>, pat: Seq<char>, rep: Seq<char>) -> Seq<char>
    decreases s.len() when pat.len() > 0
{
    if s.len() < pat.len() {
        s
    } else if matches_at(s, pat, 0) {
        rep + replace_all(s.skip(pat.len() as int), pat, rep)
    } else {
        seq![s[0]] + replace_all(s.skip(1), pat, rep)
    }
}

/// The extension rule `e` prefixed with a dot when it does not carry one.
pub open spec fn dotted(e: Seq<char>) -> Seq<char> {
    seq!['.'] + e
}

/// Whether the configured extension `e` matches `name`: the name must end,
/// up to ASCII case folding, with `e` itself when `e` starts with a dot and
/// with `"." + e` otherwise.
pub open spec fn ext_rule_matches(name: Seq<char>, e: Seq<char>) -> bool {
    if e.len() > 0 && e[0] == '.' {
        ends_with_fold(name, e)
    } else {
        ends_with_fold(name, dotted(e))
    }
}

/// Whether two strings hold the same characters.
pub fn str_eq(a: &str, b: &str) -> (r: bool)
    ensures
        r == (a@ == b@),
{
    let n = char_len(a);
    let m = char_len(b);
    if n != m {
        return false;
    }
    let r = check_match_at(a, b, 0, n, m);
    if r {
        assert(a@ =~= b@);
    } else {
        assert(a@ != b@);
    }
    r
}

/// The characters of `s` after repeatedly removing the suffix `suf`.
pub fn strip_all_str<'a>(s: &'a str, suf: &str) -> (r: &'a str)
    requires
        suf@.len() > 0,
    ensures
        r@ == strip_all(s@, suf@),
{
    let m = char_len(suf);
    let mut cur: &str = s;
    let mut n = char_len(cur);
    loop
        invariant
            suf@.len() > 0,
            m == suf@.len(),
            n == cur@.len(),
            strip_all(cur@, suf@) == strip_all(s@, suf@),
        decreases n,
    {
        if ends_with_str(cur, suf) {
            cur = cur.substring_char(0, n - m);
            n = n - m;
        } else {
            return cur;
        }
    }
}

/// The characters of `s` after removing every trailing path separator.
pub fn strip_seps_str<'a>(s: &'a str) -> (r: &'a str)
    ensures
        r@ == strip_seps(s@),
{
    let mut cur: &str = s;
    let mut n = char_len(cur);
    loop
        invariant
            n == cur@.len(),
            strip_seps(cur@) == strip_seps(s@),
        decreases n,
    {
        if n > 0 {
            let c = cur.get_char(n - 1);
            if c == '/' || c == '\\' {
                assert(cur@.take(n - 1) =~= cur@.drop_last());
                cur = cur.substring_char(0, n - 1);
                n = n - 1;
                continue;
            }
        }
        return cur;
    }
}

/// `s` with every occurrence of `pat` replaced by `rep`, leftmost first.
pub fn replace_all_str(s: &str, pat: &str, rep: &str) -> (r: String)
    requires
        pat@.len() > 0,
    ensures
        r@ == replace_all(s@, pat@, rep@),
{
    let n = char_len(s);
    let m = char_len(pat);
    let mut out = String::new();
    let mut i: usize = 0;
    proof {
        assert(s@.skip(0) =~= s@);
        assert(out@ + replace_all(s@, pat@, rep@) =~= replace_all(s@, pat@, rep@));
    }
    while i < n
        invariant
            0 < m == pat@.len(),
            n == s@.len(),
            i <= n,
            out@ + replace_all(s@.skip(i as int), pat@, rep@) == replace_all(s@, pat@, rep@),
        decreases n - i,
    {
        let ghost tail = s@.skip(i as int);
        if m <= n - i && check_match_at(s, pat, i, n, m) {
            proof {
                assert(matches_at(tail, pat@, 0)) by {
                    assert forall|k: int| 0 <= k < pat@.len() implies tail[k] == pat@[k] by {
                        assert(tail[k] == s@[i + k]);
                    }
                }
                assert(tail.skip(m as int) =~= s@.skip(i + m));
            }
            out.append(rep);
            i += m;
        } else {
            proof {
                if i + m <= n {
                    assert(!matches_at(s@, pat@, i as int));
                    assert forall|k: int| 0 <= k < pat@.len() && tail[k] != pat@[k] implies true by {}
                    if matches_at(tail, pat@, 0) {
                        assert forall|k: int| 0 <= k < pat@.len() implies s@[i + k] == pat@[k] by {
                            assert(tail[k] == s@[i + k]);
                        }
                        assert(false);
                    }
                } else {
                    assert(tail.len() < pat@.len());
                }
                assert(tail.skip(1) =~= s@.skip(i + 1));
                assert(s@.subrange(i as int, i + 1) =~= seq![s@[i as int]]);
            }
            let piece = s.substring_char(i, i + 1);
            out.append(piece);
            i += 1;
        }
    }
    proof {
        assert(s@.skip(n as int) =~= Seq::<char>::empty());
    }
    out
}

/// The concatenation of three strings.
pub fn concat3(a: &str, b: &str, c: &str) -> (r: String)
    ensures
        r@ == a@ + b@ + c@,
{
    let mut out = String::new();
    out.append(a);
    out.append(b);
    out.append(c);
    out
}

/// Whether `name` ends with `suf` up to ASCII case folding.
pub fn ends_with_fold_str(name: &str, suf: &str) -> (r: bool)
    ensures
        r == ends_with_fold(name@, suf@),
{
    let n = char_len(name);
    let m = char_len(suf);
    if m > n {
        return false;
    }
    let mut k: usize = 0;
    while k < m
        invariant
            k <= m <= n,
            n == name@.len(),
            m == suf@.len(),
            forall|q: int| 0 <= q < k ==> fold_val(name@[n - m + q]) == fold_val(suf@[q]),
        decreases m - k,
    {
        if fold_char(name.get_char(n - m + k)) != fold_char(suf.get_char(k)) {
            return false;
        }
        k += 1;
    }
    true
}

/// Whether the configured extension `e` matches `name`, as `ext_rule_matches`
/// describes.
pub fn ext_rule_check(name: &str, e: &str) -> (r: bool)
    ensures
        r == ext_rule_matches(name@, e@),
{
    let m = char_len(e);
    if m > 0 && e.get_char(0) == '.' {
        return ends_with_fold_str(name, e);
    }
    let ghost de = dotted(e@);
    let n = char_len(name);
    if n <= m {
        assert(!ends_with_fold(name@, de));
        return false;
    }
    if fold_char(name.get_char(n - m - 1)) != 46 {
        assert(fold_val(name@[n - de.len() + 0]) != fold_val(de[0]));
        return false;
    }
    let mut k: usize = 0;
    while k < m
        invariant
            k <= m,
            n == name@.len(),
            m == e@.len(),
            n >= m + 1,
            de == dotted(e@),
            fold_val(name@[n - m - 1]) == 46,
            forall|q: int| 0 <= q < k ==> fold_val(name@[n - m + q]) == fold_val(e@[q]),
        decreases m - k,
    {
        if fold_char(name.get_char(n - m + k)) != fold_char(e.get_char(k)) {
            assert(fold_val(name@[n - de.len() + (k + 1)]) != fold_val(de[k + 1]));
            return false;
        }
        k += 1;
    }
    assert(ends_with_fold(name@, de)) by {
        assert forall|q: int| 0 <= q < de.len() implies fold_val(name@[n - de.len() + q])
            == fold_val(de[q]) by {
            if q == 0 {
                assert(de[0] == '.');
                assert(fold_val('.') == 46);
            } else {
                assert(de[q] == e@[q - 1]);
            }
        }
    }
    true
}

} // verus!
