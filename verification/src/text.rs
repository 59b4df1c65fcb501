//! Verified text utilities: whitespace trimming for control-script output
//! lines.

use vstd::prelude::*;

verus! {

/// The whitespace characters recognized when trimming: the Unicode
/// `White_Space` set.
pub open spec fn is_space_char(c: char) -> bool {
    ||| c == ' '
    ||| c == '\t'
    ||| c == '\n'
    ||| c == '\u{b}'
    ||| c == '\u{c}'
    ||| c == '\r'
    ||| c == '\u{85}'
    ||| c == '\u{a0}'
    ||| c == '\u{1680}'
    ||| ('\u{2000}' <= c && c <= '\u{200a}')
    ||| c == '\u{2028}'
    ||| c == '\u{2029}'
    ||| c == '\u{202f}'
    ||| c == '\u{205f}'
    ||| c == '\u{3000}'
}

/// Whether `c` is one of the recognized whitespace characters.
pub fn is_space(c: char) -> (r: bool)
    ensures
        r == is_space_char(c),
{
    match c {
        ' ' | '\t' | '\n' | '\u{b}' | '\u{c}' | '\r' | '\u{85}' | '\u{a0}' | '\u{1680}'
            | '\u{2000}'..='\u{200a}' | '\u{2028}' | '\u{2029}' | '\u{202f}' | '\u{205f}'
            | '\u{3000}' => true,
        _ => false,
    }
}

/// `s` with its leading whitespace removed.
pub open spec fn trim_front(s: Seq<char>) -> Seq<char>
    decreases s.len(),
{
    if s.len() > 0 && is_space_char(s[0]) {
        trim_front(s.subrange(1, s.len() as int))
    } else {
        s
    }
}

/// `s` with its trailing whitespace removed.
pub open spec fn trim_back(s: Seq<char>) -> Seq<char>
    decreases s.len(),
{
    if s.len() > 0 && is_space_char(s[s.len() - 1]) {
        trim_back(s.subrange(0, s.len() - 1))
    } else {
        s
    }
}

/// `s` with leading and trailing whitespace removed.
pub open spec fn trimmed(s: Seq<char>) -> Seq<char> {
    trim_back(trim_front(s))
}

/// If everything before position `i` is whitespace and `i` is the end or a
/// non-whitespace position, the front-trimmed sequence is the suffix from
/// `i`.
proof fn lemma_trim_front_at(s: Seq<char>, i: int)
    requires
        0 <= i <= s.len(),
        forall|m: int| 0 <= m < i ==> is_space_char(s[m]),
        i == s.len() || !is_space_char(s[i]),
    ensures
        trim_front(s) == s.subrange(i, s.len() as int),
    decreases i,
{
    if i == 0 {
        assert(s.subrange(0, s.len() as int) =~= s);
    } else {
        let rest = s.subrange(1, s.len() as int);
        lemma_trim_front_at(rest, i - 1);
        assert(rest.subrange(i - 1, rest.len() as int) =~= s.subrange(i, s.len() as int));
    }
}

/// If everything from position `j` on is whitespace and `j` is the start or
/// follows a non-whitespace position, the back-trimmed sequence is the
/// prefix up to `j`.
proof fn lemma_trim_back_at(s: Seq<char>, j: int)
    requires
        0 <= j <= s.len(),
        forall|m: int| j <= m < s.len() ==> is_space_char(s[m]),
        j == 0 || !is_space_char(s[j - 1]),
    ensures
        trim_back(s) == s.subrange(0, j),
    decreases s.len() - j,
{
    if j == s.len() {
        if s.len() > 0 && is_space_char(s[s.len() - 1]) {
            let rest = s.subrange(0, s.len() - 1);
            lemma_trim_back_at(rest, j - 1);
            assert(rest.subrange(0, j - 1) =~= s.subrange(0, j - 1));
        } else {
            assert(s.subrange(0, j) =~= s);
        }
    } else {
        let rest = s.subrange(0, s.len() - 1);
        lemma_trim_back_at(rest, j);
        assert(rest.subrange(0, j) =~= s.subrange(0, j));
    }
}

/// Removes leading and trailing whitespace.
pub fn trim_spaces(s: &str) -> (r: String)
    ensures
        r@ == trimmed(s@),
{
    let n = s.unicode_len();
    let mut i: usize = 0;
    while i < n && is_space(s.get_char(i))
        invariant
            0 <= i <= n,
            n == s@.len(),
            forall|m: int| 0 <= m < i ==> is_space_char(s@[m]),
        decreases n - i,
    {
        i = i + 1;
    }
    let mut j: usize = n;
    while j > i && is_space(s.get_char(j - 1))
        invariant
            i <= j <= n,
            n == s@.len(),
            forall|m: int| j <= m < n ==> is_space_char(s@[m]),
        decreases j,
    {
        j = j - 1;
    }
    proof {
        lemma_trim_front_at(s@, i as int);
        let mid = s@.subrange(i as int, n as int);
        lemma_trim_back_at(mid, j - i);
        assert(mid.subrange(0, j - i) =~= s@.subrange(i as int, j as int));
    }
    let piece = s.substring_char(i, j);
    piece.to_owned()
}

/// The trimmed line, or `None` if the line is blank.  Control-script output
/// is relayed to observers only for non-blank lines.
pub fn trim_nonblank(s: &str) -> (r: Option<String>)
    ensures
        trimmed(s@).len() == 0 ==> r is None,
        trimmed(s@).len() > 0 ==> (r matches Some(t) && t@ == trimmed(s@)),
{
    let t = trim_spaces(s);
    if t.as_str().unicode_len() == 0 {
        None
    } else {
        Some(t)
    }
}

/// The position of the first occurrence of `c` in `s`, or the length of
/// `s` when `c` does not occur.
pub open spec fn find_char(s: Seq<char>, c: char) -> int
    decreases s.len(),
{
    if s.len() == 0 {
        0
    } else if s[0] == c {
        0
    } else {
        1 + find_char(s.skip(1), c)
    }
}

/// `find_char` is determined by its characterization: everything before `k`
/// differs from `c`, and `k` is the end or an occurrence.
pub proof fn lemma_find_char_at(s: Seq<char>, c: char, k: int)
    requires
        0 <= k <= s.len(),
        forall|m: int| 0 <= m < k ==> s[m] != c,
        k == s.len() || s[k] == c,
    ensures
        find_char(s, c) == k,
    decreases k,
{
    if k > 0 {
        lemma_find_char_at(s.skip(1), c, k - 1);
    }
}

/// `s` split at every occurrence of `c`, occurrences removed; an empty
/// input yields one empty piece, and adjacent occurrences yield empty
/// pieces, as `str::split` does.
pub open spec fn split_on(s: Seq<char>, c: char) -> Seq<Seq<char>>
    decreases s.len(),
{
    if s.len() == 0 {
        seq![Seq::empty()]
    } else if s[0] == c {
        seq![Seq::<char>::empty()] + split_on(s.skip(1), c)
    } else {
        let rest = split_on(s.skip(1), c);
        seq![seq![s[0]] + rest[0]] + rest.skip(1)
    }
}

/// Splitting never yields an empty list of pieces.
pub proof fn lemma_split_on_nonempty(s: Seq<char>, c: char)
    ensures
        split_on(s, c).len() >= 1,
    decreases s.len(),
{
    if s.len() > 0 {
        lemma_split_on_nonempty(s.skip(1), c);
    }
}

/// When `c` first occurs at `k`, the first piece is the prefix before `k`
/// and the rest is the split of the suffix after it.
pub proof fn lemma_split_on_at(s: Seq<char>, c: char, k: int)
    requires
        0 <= k < s.len(),
        forall|m: int| 0 <= m < k ==> s[m] != c,
        s[k] == c,
    ensures
        split_on(s, c) == seq![s.take(k)] + split_on(s.skip(k + 1), c),
    decreases k,
{
    lemma_split_on_nonempty(s.skip(1), c);
    if k == 0 {
        assert(s.take(0) =~= Seq::<char>::empty());
        assert(s.skip(1) =~= s.skip(k + 1));
        assert(seq![s.take(0)] + split_on(s.skip(1), c) =~= seq![Seq::<char>::empty()] + split_on(
            s.skip(1),
            c,
        ));
    } else {
        lemma_split_on_at(s.skip(1), c, k - 1);
        let rest = split_on(s.skip(1), c);
        assert(s.skip(1).take(k - 1) =~= s.take(k).skip(1));
        assert(seq![s[0]] + s.take(k).skip(1) =~= s.take(k));
        assert(s.skip(1).skip(k) =~= s.skip(k + 1));
        assert(rest.skip(1) =~= split_on(s.skip(k + 1), c));
        assert(split_on(s, c) =~= seq![s.take(k)] + split_on(s.skip(k + 1), c));
    }
}

/// When `c` does not occur in `s`, the split is `s` itself as one piece.
pub proof fn lemma_split_on_absent(s: Seq<char>, c: char)
    requires
        forall|m: int| 0 <= m < s.len() ==> s[m] != c,
    ensures
        split_on(s, c) == seq![s],
    decreases s.len(),
{
    if s.len() == 0 {
        assert(s =~= Seq::<char>::empty());
    } else {
        lemma_split_on_absent(s.skip(1), c);
        assert(seq![s[0]] + s.skip(1) =~= s);
        assert(split_on(s, c) =~= seq![s]);
    }
}

/// The views of a sequence of strings.
pub open spec fn string_views(v: Seq<String>) -> Seq<Seq<char>> {
    v.map_values(|s: String| s@)
}

/// Splits `s` at every occurrence of `c`, as `str::split` does.
pub fn split_on_char(s: &str, c: char) -> (r: Vec<String>)
    ensures
        string_views(r@) == split_on(s@, c),
    decreases s@.len(),
{
    let n = s.unicode_len();
    let mut i: usize = 0;
    while i < n && s.get_char(i) != c
        invariant
            0 <= i <= n,
            n == s@.len(),
            forall|m: int| 0 <= m < i ==> s@[m] != c,
        decreases n - i,
    {
        i = i + 1;
    }
    if i == n {
        let mut out: Vec<String> = Vec::new();
        out.push(s.to_owned());
        proof {
            lemma_split_on_absent(s@, c);
            assert(string_views(out@) =~= seq![s@]);
        }
        out
    } else {
        let head = s.substring_char(0, i).to_owned();
        let tail = s.substring_char(i + 1, n);
        proof {
            assert(tail@ =~= s@.skip(i + 1));
        }
        let rest = split_on_char(tail, c);
        let mut out = rest;
        out.insert(0, head);
        proof {
            lemma_split_on_at(s@, c, i as int);
            assert(head@ =~= s@.take(i as int));
            assert(string_views(out@) =~= seq![head@] + string_views(rest@));
        }
        out
    }
}

/// The whitespace-separated tokens of `s`, in order, as
/// `str::split_whitespace` yields them.
pub open spec fn ws_tokens(s: Seq<char>) -> Seq<Seq<char>>
    decreases s.len(),
{
    if s.len() == 0 {
        Seq::empty()
    } else if is_space_char(s[0]) {
        ws_tokens(s.skip(1))
    } else {
        let rest = ws_tokens(s.skip(1));
        if s.len() > 1 && !is_space_char(s[1]) {
            seq![seq![s[0]] + rest[0]] + rest.skip(1)
        } else {
            seq![seq![s[0]]] + rest
        }
    }
}

/// Leading whitespace does not change the tokens.
pub proof fn lemma_ws_tokens_skip_spaces(s: Seq<char>, k: int)
    requires
        0 <= k <= s.len(),
        forall|m: int| 0 <= m < k ==> is_space_char(s[m]),
    ensures
        ws_tokens(s) == ws_tokens(s.skip(k)),
    decreases k,
{
    if k > 0 {
        lemma_ws_tokens_skip_spaces(s.skip(1), k - 1);
        assert(s.skip(1).skip(k - 1) =~= s.skip(k));
        assert(s.skip(0) =~= s);
    } else {
        assert(s.skip(0) =~= s);
    }
}

/// When `s` opens with a maximal non-whitespace run of length `k`, that run
/// is the first token and the rest of the tokens follow it.
pub proof fn lemma_ws_tokens_token(s: Seq<char>, k: int)
    requires
        1 <= k <= s.len(),
        forall|m: int| 0 <= m < k ==> !is_space_char(s[m]),
        k == s.len() || is_space_char(s[k]),
    ensures
        ws_tokens(s) == seq![s.take(k)] + ws_tokens(s.skip(k)),
        ws_tokens(s).len() >= 1,
    decreases k,
{
    if k == 1 {
        if s.len() > 1 && !is_space_char(s[1]) {
            assert(false);
        }
        assert(s.take(1) =~= seq![s[0]]);
        assert(s.skip(1) =~= s.skip(k));
    } else {
        lemma_ws_tokens_token(s.skip(1), k - 1);
        let rest = ws_tokens(s.skip(1));
        assert(s.skip(1).take(k - 1) =~= s.take(k).skip(1));
        assert(seq![s[0]] + s.take(k).skip(1) =~= s.take(k));
        assert(s.skip(1).skip(k - 1) =~= s.skip(k));
        assert(rest.skip(1) =~= ws_tokens(s.skip(k)));
        assert(ws_tokens(s) =~= seq![s.take(k)] + ws_tokens(s.skip(k)));
    }
}

/// The ASCII-lowercase counterpart of `c`: ASCII capitals map to their
/// lowercase letters, everything else is unchanged.
pub open spec fn lower_char(c: char) -> char {
    match c {
        'A' => 'a',
        'B' => 'b',
        'C' => 'c',
        'D' => 'd',
        'E' => 'e',
        'F' => 'f',
        'G' => 'g',
        'H' => 'h',
        'I' => 'i',
        'J' => 'j',
        'K' => 'k',
        'L' => 'l',
        'M' => 'm',
        'N' => 'n',
        'O' => 'o',
        'P' => 'p',
        'Q' => 'q',
        'R' => 'r',
        'S' => 's',
        'T' => 't',
        'U' => 'u',
        'V' => 'v',
        'W' => 'w',
        'X' => 'x',
        'Y' => 'y',
        'Z' => 'z',
        _ => c,
    }
}

/// Lowercases one character as [`lower_char`] describes.
pub fn to_lower(c: char) -> (r: char)
    ensures
        r == lower_char(c),
{
    match c {
        'A' => 'a',
        'B' => 'b',
        'C' => 'c',
        'D' => 'd',
        'E' => 'e',
        'F' => 'f',
        'G' => 'g',
        'H' => 'h',
        'I' => 'i',
        'J' => 'j',
        'K' => 'k',
        'L' => 'l',
        'M' => 'm',
        'N' => 'n',
        'O' => 'o',
        'P' => 'p',
        'Q' => 'q',
        'R' => 'r',
        'S' => 's',
        'T' => 't',
        'U' => 'u',
        'V' => 'v',
        'W' => 'w',
        'X' => 'x',
        'Y' => 'y',
        'Z' => 'z',
        _ => c,
    }
}

/// Whether, ignoring ASCII case in `h`, the needle `n` occurs at position
/// `i` of `h`.
pub open spec fn ci_matches_at(h: Seq<char>, n: Seq<char>, i: int) -> bool {
    forall|k: int| 0 <= k < n.len() ==> lower_char(h[i + k]) == n[k]
}

/// Whether, ignoring ASCII case in `h`, the needle `n` occurs anywhere in
/// `h`.
pub open spec fn ci_contains(h: Seq<char>, n: Seq<char>) -> bool {
    exists|i: int| 0 <= i <= h.len() - n.len() && ci_matches_at(h, n, i)
}

/// Whether the (already lowercase) needle occurs in the haystack, ignoring
/// the haystack's ASCII case.
pub fn contains_lower(hay: &str, needle: &str) -> (r: bool)
    ensures
        r == ci_contains(hay@, needle@),
{
    let hn = hay.unicode_len();
    let nn = needle.unicode_len();
    if nn > hn {
        return false;
    }
    let mut i: usize = 0;
    while i <= hn - nn
        invariant
            0 <= i <= hn - nn + 1,
            nn <= hn,
            hn == hay@.len(),
            nn == needle@.len(),
            forall|p: int| 0 <= p < i ==> !ci_matches_at(hay@, needle@, p),
        decreases hn + 1 - nn - i,
    {
        let mut k: usize = 0;
        let mut hit = true;
        while k < nn && hit
            invariant
                0 <= k <= nn,
                0 <= i <= hn - nn,
                hn == hay@.len(),
                nn == needle@.len(),
                hit ==> (forall|q: int| 0 <= q < k ==> lower_char(hay@[i + q]) == needle@[q]),
                !hit ==> !ci_matches_at(hay@, needle@, i as int),
            decreases nn - k,
        {
            if to_lower(hay.get_char(i + k)) != needle.get_char(k) {
                hit = false;
                proof {
                    assert(lower_char(hay@[i + k]) != needle@[k as int]);
                }
            }
            k = k + 1;
        }
        if hit {
            proof {
                assert(ci_matches_at(hay@, needle@, i as int));
            }
            return true;
        }
        i = i + 1;
    }
    false
}

/// Whether `s` is blank: empty or whitespace only.
pub fn is_blank(s: &str) -> (r: bool)
    ensures
        r == (trimmed(s@).len() == 0),
{
    let t = trim_spaces(s);
    t.as_str().unicode_len() == 0
}

/// Whether `s` has no characters at all.
pub fn str_is_empty(s: &String) -> (r: bool)
    ensures
        r == (s@.len() == 0),
{
    s.as_str().unicode_len() == 0
}

} // verus!
