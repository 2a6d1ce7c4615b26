//! Verified text utilities the pipeline's parsing and filtering build on:
//! trimming, prefix and substring tests, ASCII case folding, and splitting
//! on a separator character.

use vstd::prelude::*;

verus! {

/// Whitespace recognized by [`trim_spec`]: the ASCII blank characters.
pub open spec fn is_ws(c: char) -> bool {
    c == ' ' || c == '\t' || c == '\r' || c == '\n' || c == '\u{b}' || c == '\u{c}'
}

/// `s` with leading whitespace removed.
pub open spec fn trim_front(s: Seq<char>) -> Seq<char>
    decreases s.len(),
{
    if s.len() > 0 && is_ws(s[0]) {
        trim_front(s.subrange(1, s.len() as int))
    } else {
        s
    }
}

/// `s` with trailing whitespace removed.
pub open spec fn trim_back(s: Seq<char>) -> Seq<char>
    decreases s.len(),
{
    if s.len() > 0 && is_ws(s[s.len() - 1]) {
        trim_back(s.subrange(0, s.len() - 1))
    } else {
        s
    }
}

/// `s` with leading and trailing whitespace removed.
pub open spec fn trim_spec(s: Seq<char>) -> Seq<char> {
    trim_back(trim_front(s))
}

/// `p` is a prefix of `s`.
pub open spec fn starts_with_spec(s: Seq<char>, p: Seq<char>) -> bool {
    p.len() <= s.len() && s.subrange(0, p.len() as int) == p
}

/// `p` occurs in `s` at position `i`.
pub open spec fn matches_at(s: Seq<char>, p: Seq<char>, i: int) -> bool {
    0 <= i && i + p.len() <= s.len() && s.subrange(i, i + p.len()) == p
}

/// `p` occurs somewhere in `s`.
pub open spec fn contains_spec(s: Seq<char>, p: Seq<char>) -> bool {
    exists|i: int| matches_at(s, p, i)
}

/// ASCII lowercasing of one character; anything but an ASCII capital is
/// left alone.
pub open spec fn lower_char(c: char) -> char {
    match c {
        'A' => 'a',
        'B' => 'b',
        'C' => 'c',
        'D' => 'd',
        'E' => 'e',
        'F' => 'f',
        'G' => 'g',
        'H' => 'h',
        'I' => 'i',
        'J' => 'j',
        'K' => 'k',
        'L' => 'l',
        'M' => 'm',
        'N' => 'n',
        'O' => 'o',
        'P' => 'p',
        'Q' => 'q',
        'R' => 'r',
        'S' => 's',
        'T' => 't',
        'U' => 'u',
        'V' => 'v',
        'W' => 'w',
        'X' => 'x',
        'Y' => 'y',
        'Z' => 'z',
        _ => c,
    }
}

/// ASCII lowercasing of a whole sequence.
pub open spec fn to_lower_spec(s: Seq<char>) -> Seq<char> {
    s.map_values(|c: char| lower_char(c))
}

/// `s` split on `sep`: the pieces between separators, in order. Splitting
/// the empty sequence gives one empty piece; every separator opens a new
/// piece.
pub open spec fn split_spec(s: Seq<char>, sep: char) -> Seq<Seq<char>>
    decreases s.len(),
{
    if s.len() == 0 {
        seq![Seq::<char>::empty()]
    } else if s.last() == sep {
        split_spec(s.drop_last(), sep).push(Seq::<char>::empty())
    } else {
        let r = split_spec(s.drop_last(), sep);
        r.update(r.len() - 1, r.last().push(s.last()))
    }
}

/// Splitting always yields at least one piece.
pub proof fn lemma_split_nonempty(s: Seq<char>, sep: char)
    ensures
        split_spec(s, sep).len() >= 1,
    decreases s.len(),
{
    if s.len() > 0 {
        lemma_split_nonempty(s.drop_last(), sep);
    }
}

/// A run of whitespace of length `i` at the front, ended by a
/// non-whitespace character (or the end), pins down `trim_front`.
proof fn lemma_trim_front_range(s: Seq<char>, i: int)
    requires
        0 <= i <= s.len(),
        forall|k: int| 0 <= k < i ==> is_ws(s[k]),
        i == s.len() || !is_ws(s[i]),
    ensures
        trim_front(s) == s.subrange(i, s.len() as int),
    decreases i,
{
    if i == 0 {
        if s.len() == 0 || !is_ws(s[0]) {
            assert(s.subrange(0, s.len() as int) =~= s);
        }
    } else {
        let t = s.subrange(1, s.len() as int);
        lemma_trim_front_range(t, i - 1);
        assert(t.subrange(i - 1, t.len() as int) =~= s.subrange(i, s.len() as int));
    }
}

/// A run of whitespace from position `j` to the end, preceded by a
/// non-whitespace character (or the start), pins down `trim_back`.
proof fn lemma_trim_back_range(s: Seq<char>, j: int)
    requires
        0 <= j <= s.len(),
        forall|k: int| j <= k < s.len() ==> is_ws(s[k]),
        j == 0 || !is_ws(s[j - 1]),
    ensures
        trim_back(s) == s.subrange(0, j),
    decreases s.len(),
{
    if s.len() == 0 {
        assert(s.subrange(0, 0) =~= s);
    } else if is_ws(s[s.len() - 1]) {
        let t = s.subrange(0, s.len() - 1);
        lemma_trim_back_range(t, j);
        assert(t.subrange(0, j) =~= s.subrange(0, j));
    } else {
        assert(s.subrange(0, j) =~= s);
    }
}

/// Whether `c` counts as whitespace for trimming.
pub fn is_whitespace_char(c: char) -> (r: bool)
    ensures
        r == is_ws(c),
{
    c == ' ' || c == '\t' || c == '\r' || c == '\n' || c == '\u{b}' || c == '\u{c}'
}

/// `s` with leading and trailing whitespace removed.
pub fn trim_str(s: &str) -> (r: String)
    ensures
        r@ == trim_spec(s@),
{
    let n = s.unicode_len();
    let mut i: usize = 0;
    let mut stop: bool = false;
    while !stop && i < n
        invariant
            n == s@.len(),
            0 <= i <= n,
            forall|k: int| 0 <= k < i ==> is_ws(s@[k]),
            stop ==> i < n && !is_ws(s@[i as int]),
        decreases n - i + (if stop { 0int } else { 1int }),
    {
        if is_whitespace_char(s.get_char(i)) {
            i = i + 1;
        } else {
            stop = true;
        }
    }
    proof {
        lemma_trim_front_range(s@, i as int);
    }
    let ghost t = s@.subrange(i as int, s@.len() as int);
    let mut j: usize = n;
    let mut stop2: bool = false;
    while !stop2 && j > i
        invariant
            n == s@.len(),
            0 <= i <= j <= n,
            forall|k: int| j <= k < n ==> is_ws(s@[k]),
            stop2 ==> j > i && !is_ws(s@[j - 1]),
        decreases j - i + (if stop2 { 0int } else { 1int }),
    {
        if is_whitespace_char(s.get_char(j - 1)) {
            j = j - 1;
        } else {
            stop2 = true;
        }
    }
    proof {
        if i == n {
            assert(j == i);
            lemma_trim_back_range(t, 0);
            assert(t.subrange(0, 0) =~= s@.subrange(i as int, j as int));
        } else {
            assert(!is_ws(s@[i as int]));
            assert(j > i);
            assert(!is_ws(t[j - i - 1]));
            lemma_trim_back_range(t, j - i);
            assert(t.subrange(0, j - i) =~= s@.subrange(i as int, j as int));
        }
    }
    let piece = s.substring_char(i, j);
    piece.to_owned()
}

/// Whether `p` is a prefix of `s`.
pub fn starts_with_str(s: &str, p: &str) -> (r: bool)
    ensures
        r == starts_with_spec(s@, p@),
{
    let n = s.unicode_len();
    let m = p.unicode_len();
    if m > n {
        return false;
    }
    let mut j: usize = 0;
    while j < m
        invariant
            n == s@.len(),
            m == p@.len(),
            m <= n,
            0 <= j <= m,
            forall|k: int| 0 <= k < j ==> s@[k] == p@[k],
        decreases m - j,
    {
        if s.get_char(j) != p.get_char(j) {
            proof {
                assert(s@.subrange(0, m as int)[j as int] == s@[j as int]);
            }
            return false;
        }
        j = j + 1;
    }
    proof {
        assert(s@.subrange(0, m as int) =~= p@);
    }
    true
}

/// The position of the first occurrence of `c` in `s`, if any.
pub fn find_char(s: &str, c: char) -> (r: Option<usize>)
    ensures
        match r {
            Some(i) => i < s@.len() && s@[i as int] == c && forall|k: int|
                0 <= k < i ==> s@[k] != c,
            None => forall|k: int| 0 <= k < s@.len() ==> s@[k] != c,
        },
{
    let n = s.unicode_len();
    let mut i: usize = 0;
    while i < n
        invariant
            n == s@.len(),
            0 <= i <= n,
            forall|k: int| 0 <= k < i ==> s@[k] != c,
        decreases n - i,
    {
        if s.get_char(i) == c {
            return Some(i);
        }
        i = i + 1;
    }
    None
}

/// The position of the last occurrence of `c` in `s`, if any.
pub fn rfind_char(s: &str, c: char) -> (r: Option<usize>)
    ensures
        match r {
            Some(i) => i < s@.len() && s@[i as int] == c && forall|k: int|
                i < k < s@.len() ==> s@[k] != c,
            None => forall|k: int| 0 <= k < s@.len() ==> s@[k] != c,
        },
{
    let n = s.unicode_len();
    let mut j: usize = n;
    while j > 0
        invariant
            n == s@.len(),
            0 <= j <= n,
            forall|k: int| j <= k < n ==> s@[k] != c,
        decreases j,
    {
        if s.get_char(j - 1) == c {
            return Some(j - 1);
        }
        j = j - 1;
    }
    None
}

/// ASCII lowercasing of one character.
pub fn lower_char_exec(c: char) -> (r: char)
    ensures
        r == lower_char(c),
{
    match c {
        'A' => 'a',
        'B' => 'b',
        'C' => 'c',
        'D' => 'd',
        'E' => 'e',
        'F' => 'f',
        'G' => 'g',
        'H' => 'h',
        'I' => 'i',
        'J' => 'j',
        'K' => 'k',
        'L' => 'l',
        'M' => 'm',
        'N' => 'n',
        'O' => 'o',
        'P' => 'p',
        'Q' => 'q',
        'R' => 'r',
        'S' => 's',
        'T' => 't',
        'U' => 'u',
        'V' => 'v',
        'W' => 'w',
        'X' => 'x',
        'Y' => 'y',
        'Z' => 'z',
        _ => c,
    }
}

/// Whether `a` and `b` are equal once ASCII-lowercased.
pub fn eq_ignore_ascii_case(a: &str, b: &str) -> (r: bool)
    ensures
        r == (to_lower_spec(a@) == to_lower_spec(b@)),
{
    let n = a.unicode_len();
    let m = b.unicode_len();
    if n != m {
        proof {
            assert(to_lower_spec(a@).len() == a@.len());
            assert(to_lower_spec(b@).len() == b@.len());
        }
        return false;
    }
    let mut j: usize = 0;
    while j < n
        invariant
            n == a@.len(),
            n == b@.len(),
            0 <= j <= n,
            forall|k: int| 0 <= k < j ==> lower_char(a@[k]) == lower_char(b@[k]),
        decreases n - j,
    {
        if lower_char_exec(a.get_char(j)) != lower_char_exec(b.get_char(j)) {
            proof {
                assert(to_lower_spec(a@)[j as int] == lower_char(a@[j as int]));
                assert(to_lower_spec(b@)[j as int] == lower_char(b@[j as int]));
            }
            return false;
        }
        j = j + 1;
    }
    proof {
        assert(to_lower_spec(a@) =~= to_lower_spec(b@));
    }
    true
}

/// Whether `p` occurs in `s`, comparing ASCII-case-insensitively.
pub fn contains_ignore_ascii_case(s: &str, p: &str) -> (r: bool)
    ensures
        r == contains_spec(to_lower_spec(s@), to_lower_spec(p@)),
{
    let ghost ls = to_lower_spec(s@);
    let ghost lp = to_lower_spec(p@);
    let n = s.unicode_len();
    let m = p.unicode_len();
    if m > n {
        proof {
            assert forall|i: int| !matches_at(ls, lp, i) by {
                assert(ls.len() == s@.len() && lp.len() == p@.len());
            }
        }
        return false;
    }
    let mut i: usize = 0;
    while i <= n - m
        invariant
            n == s@.len(),
            m == p@.len(),
            ls == to_lower_spec(s@),
            lp == to_lower_spec(p@),
            m <= n,
            0 <= i,
            i <= n - m + 1,
            forall|ii: int| 0 <= ii < i ==> !matches_at(ls, lp, ii),
        decreases n - i,
    {
        let mut j: usize = 0;
        let mut hit: bool = true;
        while j < m
            invariant
                n == s@.len(),
                m == p@.len(),
                ls == to_lower_spec(s@),
                lp == to_lower_spec(p@),
                0 <= i,
                i + m <= n,
                0 <= j <= m,
                hit ==> forall|k: int| 0 <= k < j ==> ls[i + k] == lp[k],
                !hit ==> exists|k: int| 0 <= k < j && ls[i + k] != lp[k],
            decreases m - j,
        {
            if lower_char_exec(s.get_char(i + j)) != lower_char_exec(p.get_char(j)) {
                proof {
                    assert(ls[i + j] == lower_char(s@[i + j]));
                    assert(lp[j as int] == lower_char(p@[j as int]));
                }
                hit = false;
                proof {
                    assert(0 <= j < j + 1 && ls[i + j] != lp[j as int]);
                }
                j = m;
            } else {
                proof {
                    assert(ls[i + j] == lower_char(s@[i + j]));
                    assert(lp[j as int] == lower_char(p@[j as int]));
                }
                j = j + 1;
            }
        }
        if hit {
            proof {
                assert(ls.subrange(i as int, i + m) =~= lp);
                assert(matches_at(ls, lp, i as int));
            }
            return true;
        }
        proof {
            let k = choose|k: int| 0 <= k < m && ls[i + k] != lp[k];
            assert forall|ii: int| 0 <= ii < i + 1 implies !matches_at(ls, lp, ii) by {
                if ii == i {
                    if matches_at(ls, lp, ii) {
                        assert(ls.subrange(ii, ii + lp.len() as int)[k] == ls[ii + k]);
                    }
                }
            }
        }
        i = i + 1;
    }
    proof {
        assert forall|ii: int| !matches_at(ls, lp, ii) by {
            assert(ls.len() == s@.len() && lp.len() == p@.len());
        }
    }
    false
}

/// Whether `a` and `b` hold the same characters.
pub fn eq_str(a: &str, b: &str) -> (r: bool)
    ensures
        r == (a@ == b@),
{
    let n = a.unicode_len();
    let m = b.unicode_len();
    if n != m {
        return false;
    }
    let mut j: usize = 0;
    while j < n
        invariant
            n == a@.len(),
            n == b@.len(),
            0 <= j <= n,
            forall|k: int| 0 <= k < j ==> a@[k] == b@[k],
        decreases n - j,
    {
        if a.get_char(j) != b.get_char(j) {
            return false;
        }
        j = j + 1;
    }
    proof {
        assert(a@ =~= b@);
    }
    true
}

/// `s` split on `sep`, each piece an owned string.
pub fn split_str(s: &str, sep: char) -> (r: Vec<String>)
    ensures
        r.deep_view() == split_spec(s@, sep),
{
    let n = s.unicode_len();
    let mut done: Vec<String> = Vec::new();
    let mut start: usize = 0;
    let mut i: usize = 0;
    proof {
        assert(s@.take(0) =~= Seq::<char>::empty());
        assert(done.deep_view().push(s@.subrange(0, 0)) =~= split_spec(s@.take(0), sep));
    }
    while i < n
        invariant
            n == s@.len(),
            0 <= start <= i <= n,
            done.deep_view().push(s@.subrange(start as int, i as int)) == split_spec(
                s@.take(i as int),
                sep,
            ),
        decreases n - i,
    {
        let ghost prev = s@.take(i as int);
        let ghost prev_split = split_spec(prev, sep);
        proof {
            assert(s@.take(i + 1).drop_last() =~= prev);
            assert(s@.take(i + 1).last() == s@[i as int]);
        }
        let c = s.get_char(i);
        if c == sep {
            let piece = s.substring_char(start, i);
            let owned = piece.to_owned();
            done.push(owned);
            start = i + 1;
            proof {
                assert(split_spec(s@.take(i + 1), sep) == prev_split.push(Seq::<char>::empty()));
                assert(done.deep_view() =~= prev_split);
                assert(s@.subrange(start as int, i + 1) =~= Seq::<char>::empty());
                assert(done.deep_view().push(s@.subrange(start as int, i + 1)) =~= split_spec(
                    s@.take(i + 1),
                    sep,
                ));
            }
        } else {
            proof {
                lemma_split_nonempty(prev, sep);
                let r0 = prev_split;
                assert(split_spec(s@.take(i + 1), sep) == r0.update(
                    r0.len() - 1,
                    r0.last().push(s@[i as int]),
                ));
                assert(r0.last() == s@.subrange(start as int, i as int));
                assert(s@.subrange(start as int, i as int).push(s@[i as int]) =~= s@.subrange(
                    start as int,
                    i + 1,
                ));
                assert(done.deep_view().push(s@.subrange(start as int, i + 1)) =~= r0.update(
                    r0.len() - 1,
                    r0.last().push(s@[i as int]),
                ));
            }
        }
        i = i + 1;
    }
    let piece = s.substring_char(start, n);
    let owned = piece.to_owned();
    done.push(owned);
    proof {
        assert(s@.take(n as int) =~= s@);
        assert(done.deep_view() =~= split_spec(s@, sep));
    }
    done
}

} // verus!
