//! Verified text utilities: equality, search, slicing, trimming and
//! line splitting over `&str` and `String`, with their mathematical
//! counterparts on `Seq<char>`.

use vstd::prelude::*;
use vstd::string::*;

verus! {

/// One character of ASCII whitespace. The library treats exactly these
/// four characters as whitespace wherever it trims.
pub open spec fn is_ws_char(c: char) -> bool {
    c == ' ' || c == '\t' || c == '\r' || c == '\n'
}

/// ASCII lowercase of one character; everything else is unchanged.
pub open spec fn lower_char(c: char) -> char {
    if 'A' <= c && c <= 'Z' {
        ((c as u32) + 32) as char
    } else {
        c
    }
}

pub fn char_is_ws(c: char) -> (r: bool)
    ensures
        r == is_ws_char(c),
{
    c == ' ' || c == '\t' || c == '\r' || c == '\n'
}

/// Character-wise equality of two string slices.
pub fn str_eq(a: &str, b: &str) -> (r: bool)
    ensures
        r == (a@ == b@),
{
    let n = a.unicode_len();
    let m = b.unicode_len();
    if n != m {
        proof {
            assert(a@ != b@) by {
                if a@ == b@ {
                    assert(a@.len() == b@.len());
                }
            }
        }
        return false;
    }
    let mut i: usize = 0;
    while i < n
        invariant
            n == a@.len(),
            n == b@.len(),
            i <= n,
            forall|j: int| 0 <= j < i ==> a@[j] == b@[j],
        decreases n - i,
    {
        if a.get_char(i) != b.get_char(i) {
            return false;
        }
        i = i + 1;
    }
    proof {
        assert(a@ =~= b@);
    }
    true
}

/// `p` is a prefix of `s`.
pub open spec fn starts_with_spec(s: Seq<char>, p: Seq<char>) -> bool {
    p.len() <= s.len() && s.subrange(0, p.len() as int) == p
}

/// `p` is a suffix of `s`.
pub open spec fn ends_with_spec(s: Seq<char>, p: Seq<char>) -> bool {
    p.len() <= s.len() && s.subrange(s.len() - p.len(), s.len() as int) == p
}

pub fn starts_with(s: &str, p: &str) -> (r: bool)
    ensures
        r == starts_with_spec(s@, p@),
{
    let n = s.unicode_len();
    let m = p.unicode_len();
    if m > n {
        return false;
    }
    let mut i: usize = 0;
    while i < m
        invariant
            n == s@.len(),
            m == p@.len(),
            m <= n,
            i <= m,
            forall|j: int| 0 <= j < i ==> s@[j] == p@[j],
        decreases m - i,
    {
        if s.get_char(i) != p.get_char(i) {
            proof {
                assert(s@.subrange(0, m as int)[i as int] == s@[i as int]);
            }
            return false;
        }
        i = i + 1;
    }
    proof {
        assert(s@.subrange(0, m as int) =~= p@);
    }
    true
}

pub fn ends_with(s: &str, p: &str) -> (r: bool)
    ensures
        r == ends_with_spec(s@, p@),
{
    let n = s.unicode_len();
    let m = p.unicode_len();
    if m > n {
        return false;
    }
    let off: usize = n - m;
    let mut i: usize = 0;
    while i < m
        invariant
            n == s@.len(),
            m == p@.len(),
            m <= n,
            off == n - m,
            i <= m,
            forall|j: int| 0 <= j < i ==> s@[off + j] == p@[j],
        decreases m - i,
    {
        if s.get_char(off + i) != p.get_char(i) {
            proof {
                assert(s@.subrange(off as int, n as int)[i as int] == s@[off + i]);
            }
            return false;
        }
        i = i + 1;
    }
    proof {
        assert(s@.subrange(off as int, n as int) =~= p@);
    }
    true
}

/// First index `i` with `from <= i` and `s[i] == c`, or `s.len()` if none.
pub open spec fn find_from(s: Seq<char>, c: char, from: int) -> int
    decreases s.len() - from,
{
    if from < 0 {
        find_from(s, c, 0)
    } else if from >= s.len() {
        s.len() as int
    } else if s[from] == c {
        from
    } else {
        find_from(s, c, from + 1)
    }
}

pub proof fn lemma_find_from(s: Seq<char>, c: char, from: int)
    requires
        0 <= from <= s.len(),
    ensures
        from <= find_from(s, c, from) <= s.len(),
        find_from(s, c, from) < s.len() ==> s[find_from(s, c, from)] == c,
        forall|j: int| from <= j < find_from(s, c, from) ==> s[j] != c,
    decreases s.len() - from,
{
    if from < s.len() && s[from] != c {
        lemma_find_from(s, c, from + 1);
    }
}

pub fn find_char(s: &str, c: char, from: usize) -> (r: usize)
    requires
        from <= s@.len(),
    ensures
        r == find_from(s@, c, from as int),
{
    let n = s.unicode_len();
    let mut i: usize = from;
    while i < n
        invariant
            n == s@.len(),
            from <= i <= n,
            find_from(s@, c, from as int) == find_from(s@, c, i as int),
        decreases n - i,
    {
        if s.get_char(i) == c {
            return i;
        }
        i = i + 1;
    }
    i
}

/// First index `i` with `from <= i` holding whitespace, or `s.len()`
/// if none.
pub open spec fn find_ws(s: Seq<char>, from: int) -> int
    decreases s.len() - from,
{
    if from < 0 {
        find_ws(s, 0)
    } else if from >= s.len() {
        s.len() as int
    } else if is_ws_char(s[from]) {
        from
    } else {
        find_ws(s, from + 1)
    }
}

pub proof fn lemma_find_ws(s: Seq<char>, from: int)
    requires
        0 <= from <= s.len(),
    ensures
        from <= find_ws(s, from) <= s.len(),
        find_ws(s, from) < s.len() ==> is_ws_char(s[find_ws(s, from)]),
        forall|j: int| from <= j < find_ws(s, from) ==> !is_ws_char(s[j]),
    decreases s.len() - from,
{
    if from < s.len() && !is_ws_char(s[from]) {
        lemma_find_ws(s, from + 1);
    }
}

pub fn find_ws_char(s: &str, from: usize) -> (r: usize)
    requires
        from <= s@.len(),
    ensures
        r == find_ws(s@, from as int),
{
    let n = s.unicode_len();
    let mut i: usize = from;
    while i < n
        invariant
            n == s@.len(),
            from <= i <= n,
            find_ws(s@, from as int) == find_ws(s@, i as int),
        decreases n - i,
    {
        if char_is_ws(s.get_char(i)) {
            return i;
        }
        i = i + 1;
    }
    i
}

/// Characters of `s` from `from` (inclusive) to `to` (exclusive), as a slice.
pub fn substr<'a>(s: &'a str, from: usize, to: usize) -> (r: &'a str)
    requires
        from <= to <= s@.len(),
    ensures
        r@ == s@.subrange(from as int, to as int),
{
    s.substring_char(from, to)
}

/// Owned copy of the characters of `s` from `from` to `to`.
pub fn substr_string(s: &str, from: usize, to: usize) -> (r: String)
    requires
        from <= to <= s@.len(),
    ensures
        r@ == s@.subrange(from as int, to as int),
{
    String::from_str(s.substring_char(from, to))
}

/// Index of the first non-whitespace character at or after `from`;
/// `s.len()` if there is none.
pub open spec fn skip_ws(s: Seq<char>, from: int) -> int
    decreases s.len() - from,
{
    if from < 0 {
        skip_ws(s, 0)
    } else if from >= s.len() {
        s.len() as int
    } else if is_ws_char(s[from]) {
        skip_ws(s, from + 1)
    } else {
        from
    }
}

/// End (exclusive) of the last non-whitespace character before `upto`;
/// 0 if all of `s` up to `upto` is whitespace.
pub open spec fn rskip_ws(s: Seq<char>, upto: int) -> int
    decreases upto,
{
    if upto <= 0 {
        0
    } else if upto > s.len() {
        rskip_ws(s, s.len() as int)
    } else if is_ws_char(s[upto - 1]) {
        rskip_ws(s, upto - 1)
    } else {
        upto
    }
}

/// `s` with leading and trailing ASCII whitespace removed.
pub open spec fn trim_spec(s: Seq<char>) -> Seq<char> {
    let f = skip_ws(s, 0);
    let l = rskip_ws(s, s.len() as int);
    if f <= l {
        s.subrange(f, l)
    } else {
        Seq::empty()
    }
}

/// `s` with trailing ASCII whitespace removed.
pub open spec fn trim_end_spec(s: Seq<char>) -> Seq<char> {
    s.subrange(0, rskip_ws(s, s.len() as int))
}

pub proof fn lemma_skip_ws(s: Seq<char>, from: int)
    requires
        0 <= from <= s.len(),
    ensures
        from <= skip_ws(s, from) <= s.len(),
        skip_ws(s, from) < s.len() ==> !is_ws_char(s[skip_ws(s, from)]),
        forall|j: int| from <= j < skip_ws(s, from) ==> is_ws_char(s[j]),
    decreases s.len() - from,
{
    if from < s.len() && is_ws_char(s[from]) {
        lemma_skip_ws(s, from + 1);
    }
}

pub proof fn lemma_rskip_ws(s: Seq<char>, upto: int)
    requires
        0 <= upto <= s.len(),
    ensures
        0 <= rskip_ws(s, upto) <= upto,
        rskip_ws(s, upto) > 0 ==> !is_ws_char(s[rskip_ws(s, upto) - 1]),
        forall|j: int| rskip_ws(s, upto) <= j < upto ==> is_ws_char(s[j]),
    decreases upto,
{
    if upto > 0 && is_ws_char(s[upto - 1]) {
        lemma_rskip_ws(s, upto - 1);
    }
}

pub fn skip_ws_exec(s: &str, from: usize) -> (r: usize)
    requires
        from <= s@.len(),
    ensures
        r == skip_ws(s@, from as int),
{
    let n = s.unicode_len();
    let mut i: usize = from;
    while i < n
        invariant
            n == s@.len(),
            from <= i <= n,
            skip_ws(s@, from as int) == skip_ws(s@, i as int),
        decreases n - i,
    {
        if !char_is_ws(s.get_char(i)) {
            return i;
        }
        i = i + 1;
    }
    i
}

fn rskip_ws_exec(s: &str, upto: usize) -> (r: usize)
    requires
        upto <= s@.len(),
    ensures
        r == rskip_ws(s@, upto as int),
{
    let mut i: usize = upto;
    while i > 0
        invariant
            upto <= s@.len(),
            i <= upto,
            rskip_ws(s@, upto as int) == rskip_ws(s@, i as int),
        decreases i,
    {
        if !char_is_ws(s.get_char(i - 1)) {
            return i;
        }
        i = i - 1;
    }
    0
}

/// Trim leading and trailing ASCII whitespace.
pub fn trim<'a>(s: &'a str) -> (r: &'a str)
    ensures
        r@ == trim_spec(s@),
{
    let n = s.unicode_len();
    let f = skip_ws_exec(s, 0);
    let l = rskip_ws_exec(s, n);
    proof {
        lemma_skip_ws(s@, 0);
        lemma_rskip_ws(s@, s@.len() as int);
    }
    if f <= l {
        s.substring_char(f, l)
    } else {
        proof {
            reveal_strlit("");
            assert(""@ =~= Seq::<char>::empty());
        }
        ""
    }
}

/// Trim trailing ASCII whitespace, returning an owned string.
pub fn trim_end_string(s: &str) -> (r: String)
    ensures
        r@ == trim_end_spec(s@),
{
    let n = s.unicode_len();
    let l = rskip_ws_exec(s, n);
    proof {
        lemma_rskip_ws(s@, s@.len() as int);
    }
    String::from_str(s.substring_char(0, l))
}

/// `s` with every character ASCII-lowercased.
pub open spec fn lower_seq(s: Seq<char>) -> Seq<char> {
    s.map_values(|c: char| lower_char(c))
}

/// Case-insensitive (ASCII) equality of `s` against `t`.
pub fn eq_ignore_ascii_case(s: &str, t: &str) -> (r: bool)
    ensures
        r == (lower_seq(s@) == lower_seq(t@)),
{
    let ghost ls = s@.map_values(|c: char| lower_char(c));
    let ghost lt = t@.map_values(|c: char| lower_char(c));
    proof {
        assert(ls.len() == s@.len());
        assert(lt.len() == t@.len());
    }
    let n = s.unicode_len();
    let m = t.unicode_len();
    if n != m {
        return false;
    }
    let mut i: usize = 0;
    while i < n
        invariant
            n == s@.len(),
            n == t@.len(),
            ls == s@.map_values(|c: char| lower_char(c)),
            lt == t@.map_values(|c: char| lower_char(c)),
            i <= n,
            forall|j: int| 0 <= j < i ==> lower_char(s@[j]) == lower_char(t@[j]),
        decreases n - i,
    {
        let a = s.get_char(i);
        let b = t.get_char(i);
        let la: u32 = if 'A' <= a && a <= 'Z' {
            a as u32 + 32
        } else {
            a as u32
        };
        let lb: u32 = if 'A' <= b && b <= 'Z' {
            b as u32 + 32
        } else {
            b as u32
        };
        if la != lb {
            proof {
                assert(lower_char(s@[i as int]) != lower_char(t@[i as int]));
                assert(ls[i as int] == lower_char(s@[i as int]));
                assert(lt[i as int] == lower_char(t@[i as int]));
            }
            return false;
        }
        i = i + 1;
    }
    proof {
        assert forall|j: int| 0 <= j < ls.len() implies ls[j] == lt[j] by {
            assert(ls[j] == lower_char(s@[j]));
            assert(lt[j] == lower_char(t@[j]));
        }
        assert(ls =~= lt);
    }
    true
}

/// `p` occurs as a contiguous run somewhere in `s`.
pub open spec fn contains_spec(s: Seq<char>, p: Seq<char>) -> bool {
    exists|i: int|
        0 <= i && i + p.len() <= s.len() && #[trigger] s.subrange(i, i + p.len() as int) == p
}

pub fn contains_sub(s: &str, p: &str) -> (r: bool)
    ensures
        r == contains_spec(s@, p@),
{
    let n = s.unicode_len();
    let m = p.unicode_len();
    if m > n {
        return false;
    }
    if m == 0 {
        proof {
            assert(s@.subrange(0, 0 + p@.len() as int) =~= p@);
        }
        return true;
    }
    let lim: usize = n - m;
    let mut i: usize = 0;
    while i <= lim
        invariant
            n == s@.len(),
            m == p@.len(),
            0 < m <= n,
            lim == n - m,
            i <= lim + 1,
            forall|k: int|
                0 <= k < i ==> #[trigger] s@.subrange(k, k + p@.len() as int) != p@,
        decreases lim + 1 - i,
    {
        let mut j: usize = 0;
        let mut matched = true;
        while j < m
            invariant_except_break
                matched,
            invariant
                n == s@.len(),
                m == p@.len(),
                i + m <= n,
                j <= m,
                forall|q: int| 0 <= q < j ==> s@[i + q] == p@[q],
            ensures
                matched ==> forall|q: int| 0 <= q < m ==> s@[i + q] == p@[q],
                !matched ==> s@.subrange(i as int, i + p@.len() as int) != p@,
            decreases m - j,
        {
            if s.get_char(i + j) != p.get_char(j) {
                proof {
                    assert(s@.subrange(i as int, i + p@.len() as int)[j as int] == s@[i + j]);
                }
                matched = false;
                break ;
            }
            j = j + 1;
        }
        if matched {
            proof {
                assert(s@.subrange(i as int, i + p@.len() as int) =~= p@);
            }
            return true;
        }
        i = i + 1;
    }
    proof {
        if contains_spec(s@, p@) {
            let k = choose|k: int|
                0 <= k && k + p@.len() <= s@.len() && #[trigger] s@.subrange(
                    k,
                    k + p@.len() as int,
                ) == p@;
            assert(k < i);
            assert(false);
        }
    }
    false
}

/// One cut trailing carriage return, as `str::lines` strips it.
pub open spec fn strip_cr(l: Seq<char>) -> Seq<char> {
    if l.len() > 0 && l[l.len() - 1] == '\r' {
        l.subrange(0, l.len() - 1)
    } else {
        l
    }
}

/// The lines of `s`: split at `'\n'`, one trailing `'\r'` stripped from
/// each line, and no final empty line after a terminating newline.
pub open spec fn lines_spec(s: Seq<char>) -> Seq<Seq<char>>
    decreases s.len(),
{
    if s.len() == 0 {
        Seq::empty()
    } else {
        let k = find_from(s, '\n', 0);
        if 0 <= k < s.len() {
            seq![strip_cr(s.subrange(0, k))] + lines_spec(s.subrange(k + 1, s.len() as int))
        } else {
            seq![strip_cr(s)]
        }
    }
}

/// Split `s` into its lines.
pub fn split_lines(s: &str) -> (r: Vec<String>)
    ensures
        r@.len() == lines_spec(s@).len(),
        forall|i: int| 0 <= i < r@.len() ==> r@[i]@ == lines_spec(s@)[i],
{
    let n = s.unicode_len();
    let mut out: Vec<String> = Vec::new();
    let ghost mut done: Seq<Seq<char>> = Seq::empty();
    let mut pos: usize = 0;
    proof {
        assert(s@.subrange(0, n as int) =~= s@);
    }
    while pos < n
        invariant
            n == s@.len(),
            pos <= n,
            lines_spec(s@) == done + lines_spec(s@.subrange(pos as int, n as int)),
            out@.len() == done.len(),
            forall|i: int| 0 <= i < out@.len() ==> out@[i]@ == done[i],
        decreases n - pos,
    {
        let ghost rest = s@.subrange(pos as int, n as int);
        let k = find_char(s, '\n', pos);
        proof {
            lemma_find_from(s@, '\n', pos as int);
            lemma_find_from(rest, '\n', 0);
            // the first newline of the suffix sits at the same spot
            assert(forall|j: int| 0 <= j < rest.len() ==> rest[j] == s@[pos + j]);
            assert(find_from(rest, '\n', 0) == find_from(s@, '\n', pos as int) - pos) by {
                let kk = find_from(rest, '\n', 0);
                let kg = find_from(s@, '\n', pos as int) - pos;
                if kk < kg {
                    assert(rest[kk] == '\n');
                    assert(s@[pos + kk] == '\n');
                } else if kg < kk {
                    assert(s@[pos + kg] == '\n');
                    assert(rest[kg] == '\n');
                }
            }
        }
        let line_end_nocr: usize = if k > pos && s.get_char(k - 1) == '\r' {
            k - 1
        } else {
            k
        };
        let line = substr_string(s, pos, line_end_nocr);
        out.push(line);
        proof {
            done = done + seq![line@];
        }
        if k == n {
            proof {
                assert(strip_cr(rest) =~= line@);
                assert(lines_spec(rest) == seq![strip_cr(rest)]);
                assert(lines_spec(s@.subrange(n as int, n as int)) == Seq::<Seq<char>>::empty());
                assert(lines_spec(s@) == done + lines_spec(s@.subrange(n as int, n as int)));
            }
            pos = n;
        } else {
            proof {
                let kg = k - pos;
                assert(rest.subrange(0, kg as int) =~= s@.subrange(pos as int, k as int));
                assert(strip_cr(rest.subrange(0, kg as int)) =~= line@);
                assert(rest.subrange(kg + 1, rest.len() as int) =~= s@.subrange(
                    k + 1,
                    n as int,
                ));
                assert(lines_spec(rest) == seq![strip_cr(rest.subrange(0, kg as int))]
                    + lines_spec(rest.subrange(kg + 1, rest.len() as int)));
                assert(lines_spec(s@) == done + lines_spec(s@.subrange(k + 1, n as int)));
            }
            pos = k + 1;
        }
    }
    proof {
        assert(lines_spec(s@.subrange(pos as int, n as int)) == Seq::<Seq<char>>::empty());
        assert(lines_spec(s@) =~= done);
    }
    out
}

} // verus!

