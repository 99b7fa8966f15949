//! Line tokenization: trimming, splitting on a delimiter, and the
//! skippable-line test shared by both document parsers.

use vstd::prelude::*;

verus! {

// ---------------------------------------------------------------------
// Character classes
// ---------------------------------------------------------------------

/// Whitespace stripped from the ends of a line before splitting.
pub open spec fn is_space(c: char) -> bool {
    c == ' ' || c == '\t' || c == '\n' || c == '\r' || c == '\u{b}' || c == '\u{c}'
}

pub fn is_space_exec(c: char) -> (r: bool)
    ensures
        r == is_space(c),
{
    c == ' ' || c == '\t' || c == '\n' || c == '\r' || c == '\u{b}' || c == '\u{c}'
}

// ---------------------------------------------------------------------
// Trimming
// ---------------------------------------------------------------------

pub open spec fn trim_start(s: Seq<char>) -> Seq<char>
    decreases s.len(),
{
    if s.len() > 0 && is_space(s[0]) {
        trim_start(s.drop_first())
    } else {
        s
    }
}

pub open spec fn trim_end(s: Seq<char>) -> Seq<char>
    decreases s.len(),
{
    if s.len() > 0 && is_space(s.last()) {
        trim_end(s.drop_last())
    } else {
        s
    }
}

/// The line with surrounding whitespace removed.
pub open spec fn trim(s: Seq<char>) -> Seq<char> {
    trim_end(trim_start(s))
}

proof fn lemma_trim_start_skip(s: Seq<char>, i: int)
    requires
        0 <= i <= s.len(),
        forall|k: int| 0 <= k < i ==> is_space(#[trigger] s[k]),
        i == s.len() || !is_space(s[i]),
    ensures
        trim_start(s) == s.skip(i),
    decreases i,
{
    if i == 0 {
        assert(s.skip(0) =~= s);
    } else {
        assert(is_space(s[0]));
        lemma_trim_start_skip(s.drop_first(), i - 1);
        assert(s.drop_first().skip(i - 1) =~= s.skip(i));
    }
}

proof fn lemma_trim_end_take(s: Seq<char>, j: int)
    requires
        0 <= j <= s.len(),
        forall|k: int| j <= k < s.len() ==> is_space(#[trigger] s[k]),
        j == 0 || !is_space(s[j - 1]),
    ensures
        trim_end(s) == s.take(j),
    decreases s.len() - j,
{
    if j == s.len() {
        assert(s.take(j) =~= s);
    } else {
        assert(is_space(s.last()));
        lemma_trim_end_take(s.drop_last(), j);
        assert(s.drop_last().take(j) =~= s.take(j));
    }
}

// ---------------------------------------------------------------------
// Searching and splitting
// ---------------------------------------------------------------------

/// Index of the first occurrence of `c` in `s`, or -1 when absent.
pub open spec fn find_char(s: Seq<char>, c: char) -> int
    decreases s.len(),
{
    if s.len() == 0 {
        -1
    } else if s[0] == c {
        0
    } else if find_char(s.drop_first(), c) < 0 {
        -1
    } else {
        find_char(s.drop_first(), c) + 1
    }
}

pub proof fn lemma_find_char_at(s: Seq<char>, c: char, j: int)
    requires
        0 <= j < s.len(),
        s[j] == c,
        forall|k: int| 0 <= k < j ==> #[trigger] s[k] != c,
    ensures
        find_char(s, c) == j,
    decreases j,
{
    if j > 0 {
        lemma_find_char_at(s.drop_first(), c, j - 1);
    }
}

pub proof fn lemma_find_char_none(s: Seq<char>, c: char)
    requires
        forall|k: int| 0 <= k < s.len() ==> #[trigger] s[k] != c,
    ensures
        find_char(s, c) == -1,
    decreases s.len(),
{
    if s.len() > 0 {
        lemma_find_char_none(s.drop_first(), c);
    }
}

/// Split on every occurrence of `c`; empty pieces are kept.
pub open spec fn split_char(s: Seq<char>, c: char) -> Seq<Seq<char>>
    decreases s.len(),
{
    let i = find_char(s, c);
    if i < 0 || i >= s.len() {
        seq![s]
    } else {
        seq![s.take(i)] + split_char(s.skip(i + 1), c)
    }
}

pub proof fn lemma_split_char_none(s: Seq<char>, c: char)
    requires
        forall|k: int| 0 <= k < s.len() ==> #[trigger] s[k] != c,
    ensures
        split_char(s, c) == seq![s],
{
    lemma_find_char_none(s, c);
}

pub proof fn lemma_split_char_at(s: Seq<char>, c: char, j: int)
    requires
        0 <= j < s.len(),
        s[j] == c,
        forall|k: int| 0 <= k < j ==> #[trigger] s[k] != c,
    ensures
        split_char(s, c) == seq![s.take(j)] + split_char(s.skip(j + 1), c),
{
    lemma_find_char_at(s, c, j);
}

// ---------------------------------------------------------------------
// The tokenizer
// ---------------------------------------------------------------------

/// The tokens of a line: the trimmed line split on single spaces.
/// Consecutive spaces therefore yield empty tokens.
pub open spec fn tokens_of(line: Seq<char>) -> Seq<Seq<char>> {
    split_char(trim(line), ' ')
}

/// A line that yields no directive: blank, or a comment.
pub open spec fn skippable(line: Seq<char>) -> bool {
    let t = tokens_of(line);
    t.len() == 0 || t[0].len() == 0 || t[0][0] == '#'
}

/// Character-wise string equality.
pub fn str_eq(a: &str, b: &str) -> (r: bool)
    ensures
        r == (a@ == b@),
{
    let na = a.unicode_len();
    let nb = b.unicode_len();
    if na != nb {
        return false;
    }
    let mut i: usize = 0;
    while i < na
        invariant
            na == a@.len(),
            na == b@.len(),
            0 <= i <= na,
            forall|k: int| 0 <= k < i ==> a@[k] == b@[k],
        decreases na - i,
    {
        if a.get_char(i) != b.get_char(i) {
            return false;
        }
        i = i + 1;
    }
    proof {
        assert(a@ =~= b@);
    }
    true
}

/// First occurrence of `c` in `s` at or after `from`.
pub(crate) fn find_char_from(s: &str, from: usize, c: char) -> (r: Option<usize>)
    requires
        from <= s@.len(),
    ensures
        match r {
            Some(j) => from <= j < s@.len() && s@[j as int] == c && forall|k: int|
                from <= k < j ==> #[trigger] s@[k] != c,
            None => forall|k: int| from <= k < s@.len() ==> #[trigger] s@[k] != c,
        },
{
    let n = s.unicode_len();
    let mut i: usize = from;
    while i < n
        invariant
            n == s@.len(),
            from <= i <= n,
            forall|k: int| from <= k < i ==> #[trigger] s@[k] != c,
        decreases n - i,
    {
        if s.get_char(i) == c {
            return Some(i);
        }
        i = i + 1;
    }
    None
}

/// Split `s` on every occurrence of `c`, keeping empty pieces.
pub fn split_on(s: &str, c: char) -> (r: Vec<String>)
    ensures
        r.deep_view() == split_char(s@, c),
    decreases s@.len(),
{
    let n = s.unicode_len();
    match find_char_from(s, 0, c) {
        None => {
            proof {
                lemma_split_char_none(s@, c);
            }
            let mut v: Vec<String> = Vec::new();
            v.push(s.to_owned());
            proof {
                assert(v.deep_view() =~= seq![s@]);
            }
            v
        },
        Some(j) => {
            let head = s.substring_char(0, j);
            let tail = s.substring_char(j + 1, n);
            proof {
                assert(head@ =~= s@.take(j as int));
                assert(tail@ =~= s@.skip(j + 1));
            }
            let mut rest = split_on(tail, c);
            let mut v: Vec<String> = Vec::new();
            v.push(head.to_owned());
            v.append(&mut rest);
            proof {
                lemma_split_char_at(s@, c, j as int);
                assert(v.deep_view() =~= seq![s@.take(j as int)] + split_char(
                    s@.skip(j + 1),
                    c,
                ));
            }
            v
        },
    }
}

/// Tokenize one line: trim surrounding whitespace, split on spaces.
pub fn tokenize(line: &str) -> (r: Vec<String>)
    ensures
        r.deep_view() == tokens_of(line@),
{
    let n = line.unicode_len();
    let mut i: usize = 0;
    while i < n && is_space_exec(line.get_char(i))
        invariant
            n == line@.len(),
            0 <= i <= n,
            forall|k: int| 0 <= k < i ==> is_space(#[trigger] line@[k]),
        decreases n - i,
    {
        i = i + 1;
    }
    let mut j: usize = n;
    while j > i && is_space_exec(line.get_char(j - 1))
        invariant
            n == line@.len(),
            0 <= i <= j <= n,
            forall|k: int| j <= k < n ==> is_space(#[trigger] line@[k]),
        decreases j,
    {
        j = j - 1;
    }
    proof {
        lemma_trim_start_skip(line@, i as int);
        let t = line@.skip(i as int);
        lemma_trim_end_take(t, j - i as int);
        assert(t.take(j - i as int) =~= line@.subrange(i as int, j as int));
    }
    let trimmed = line.substring_char(i, j);
    proof {
        assert(trimmed@ =~= trim(line@));
    }
    split_on(trimmed, ' ')
}

/// Whether the tokens of a line make it skippable.
pub(crate) fn tokens_skippable(toks: &Vec<String>, Ghost(line): Ghost<Seq<char>>) -> (r: bool)
    requires
        toks.deep_view() == tokens_of(line),
    ensures
        r == skippable(line),
{
    if toks.len() == 0 {
        return true;
    }
    proof {
        assert(toks.deep_view()[0] == toks@[0]@);
    }
    let first = &toks[0];
    let len0 = first.as_str().unicode_len();
    if len0 == 0 {
        return true;
    }
    first.as_str().get_char(0) == '#'
}

} // verus!
