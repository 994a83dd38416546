//! Text helpers.
//!
//! Every text is modelled by its view, a `Seq<char>`: lengths and positions
//! count characters, never bytes, so no helper can cut a character in two.

use vstd::prelude::*;
use vstd::string::*;

verus! {

/// `String::push` appends the character to the end of the string, and
/// changes nothing else of it.
pub assume_specification[ String::push ](s: &mut String, c: char)
    ensures
        final(s)@ == old(s)@.push(c),
;

/// Whether `c` is white space: one of the twenty-five characters with the
/// Unicode property White_Space, which is what `char::is_whitespace` of the
/// standard library tells.
pub open spec fn is_white_space(c: char) -> bool {
    ||| ('\u{9}' <= c && c <= '\u{d}')
    ||| c == ' '
    ||| c == '\u{85}'
    ||| c == '\u{a0}'
    ||| c == '\u{1680}'
    ||| ('\u{2000}' <= c && c <= '\u{200a}')
    ||| c == '\u{2028}'
    ||| c == '\u{2029}'
    ||| c == '\u{202f}'
    ||| c == '\u{205f}'
    ||| c == '\u{3000}'
}

/// Whether `c` is white space.
pub fn char_is_whitespace(c: char) -> (b: bool)
    ensures
        b == is_white_space(c),
{
    ('\u{9}' <= c && c <= '\u{d}') || c == ' ' || c == '\u{85}' || c == '\u{a0}' || c
        == '\u{1680}' || ('\u{2000}' <= c && c <= '\u{200a}') || c == '\u{2028}' || c
        == '\u{2029}' || c == '\u{202f}' || c == '\u{205f}' || c == '\u{3000}'
}

// ---------------------------------------------------------------------------
// Characters in and out
// ---------------------------------------------------------------------------

/// The characters of `s`, in order.
pub fn chars_of(s: &str) -> (v: Vec<char>)
    ensures
        v@ == s@,
{
    let mut v: Vec<char> = Vec::new();
    for c in it: s.chars()
        invariant
            v@ == it.seq().take(it.index() as int),
    {
        v.push(c);
    }
    v
}

/// The text made of the characters `v[from..to]`.
pub(crate) fn text_of(v: &Vec<char>, from: usize, to: usize) -> (s: String)
    requires
        from <= to <= v.len(),
    ensures
        s@ == v@.subrange(from as int, to as int),
{
    let mut s = String::new();
    let mut i: usize = from;
    assert(v@.subrange(from as int, from as int) =~= Seq::<char>::empty());
    while i < to
        invariant
            from <= i <= to <= v.len(),
            s@ == v@.subrange(from as int, i as int),
        decreases to - i,
    {
        s.push(v[i]);
        i += 1;
        assert(v@.subrange(from as int, i as int) =~= v@.subrange(from as int, i - 1).push(
            v@[i - 1],
        ));
    }
    s
}

/// The text made of all the characters of `v`.
pub fn text_of_all(v: &Vec<char>) -> (s: String)
    ensures
        s@ == v@,
{
    let s = text_of(v, 0, v.len());
    assert(v@.subrange(0, v.len() as int) =~= v@);
    s
}

/// A copy of `s`.
pub fn copy_text(s: &str) -> (r: String)
    ensures
        r@ == s@,
{
    String::from_str(s)
}

/// A copy of each text of `v`.
pub fn copy_texts(v: &Vec<String>) -> (r: Vec<String>)
    ensures
        r.deep_view() == v.deep_view(),
{
    let mut out: Vec<String> = Vec::new();
    let mut i: usize = 0;
    assert(out.deep_view() =~= v.deep_view().take(0));
    while i < v.len()
        invariant
            i <= v.len(),
            out.deep_view() == v.deep_view().take(i as int),
        decreases v.len() - i,
    {
        let ghost before = out;
        let s = v[i].clone();
        out.push(s);
        proof {
            lemma_deep_view_push(before, out, s);
            assert(v.deep_view().take(i as int).push(v@[i as int]@) =~= v.deep_view().take(
                i + 1,
            ));
        }
        i += 1;
    }
    assert(v.deep_view().take(v.len() as int) =~= v.deep_view());
    out
}

/// Two texts in a row.
pub(crate) fn text2(a: &str, b: &str) -> (r: String)
    ensures
        r@ == a@ + b@,
{
    let mut r = String::from_str(a);
    r.append(b);
    r
}

/// Three texts in a row.
pub(crate) fn text3(a: &str, b: &str, c: &str) -> (r: String)
    ensures
        r@ == a@ + b@ + c@,
{
    let mut r = text2(a, b);
    r.append(c);
    r
}

/// Four texts in a row.
pub(crate) fn text4(a: &str, b: &str, c: &str, d: &str) -> (r: String)
    ensures
        r@ == a@ + b@ + c@ + d@,
{
    let mut r = text3(a, b, c);
    r.append(d);
    r
}

/// Five texts in a row.
pub(crate) fn text5(a: &str, b: &str, c: &str, d: &str, e: &str) -> (r: String)
    ensures
        r@ == a@ + b@ + c@ + d@ + e@,
{
    let mut r = text4(a, b, c, d);
    r.append(e);
    r
}

// ---------------------------------------------------------------------------
// Equality, prefixes and substrings
// ---------------------------------------------------------------------------

/// `needle` stands in `hay` at position `at`.
pub open spec fn is_match_at(hay: Seq<char>, needle: Seq<char>, at: int) -> bool {
    &&& 0 <= at
    &&& at + needle.len() <= hay.len()
    &&& hay.subrange(at, at + needle.len()) == needle
}

/// `needle` stands somewhere in `hay`.
pub open spec fn contains_text(hay: Seq<char>, needle: Seq<char>) -> bool {
    exists|at: int| is_match_at(hay, needle, at)
}

/// `hay` begins with `prefix`.
pub open spec fn starts_with_text(hay: Seq<char>, prefix: Seq<char>) -> bool {
    is_match_at(hay, prefix, 0)
}

/// Compares `needle` with the characters of `hay` that start at `at`.
pub(crate) fn matches_at(hay: &Vec<char>, needle: &Vec<char>, at: usize) -> (b: bool)
    requires
        at + needle.len() <= hay.len(),
    ensures
        b == is_match_at(hay@, needle@, at as int),
{
    let mut j: usize = 0;
    while j < needle.len()
        invariant
            j <= needle.len(),
            at + needle.len() <= hay.len(),
            forall|k: int| 0 <= k < j ==> hay@[at + k] == needle@[k],
        decreases needle.len() - j,
    {
        if hay[at + j] != needle[j] {
            assert(hay@.subrange(at as int, at + needle.len())[j as int] == hay@[at + j]);
            return false;
        }
        j += 1;
    }
    assert(hay@.subrange(at as int, at + needle.len()) =~= needle@);
    true
}

/// Whether two character vectors hold the same text.
pub fn same_chars(a: &Vec<char>, b: &Vec<char>) -> (r: bool)
    ensures
        r == (a@ == b@),
{
    if a.len() != b.len() {
        return false;
    }
    let r = matches_at(a, b, 0);
    assert(a@.subrange(0, b@.len() as int) =~= a@);
    r
}

/// Whether two texts are equal.
pub fn same_text(a: &str, b: &str) -> (r: bool)
    ensures
        r == (a@ == b@),
{
    let av = chars_of(a);
    let bv = chars_of(b);
    same_chars(&av, &bv)
}

/// Whether `hay` begins with `prefix`.
pub fn starts_with_chars(hay: &Vec<char>, prefix: &Vec<char>) -> (r: bool)
    ensures
        r == starts_with_text(hay@, prefix@),
{
    if prefix.len() > hay.len() {
        return false;
    }
    matches_at(hay, prefix, 0)
}

/// Whether `hay` begins with `prefix`.
pub fn starts_with(hay: &str, prefix: &str) -> (r: bool)
    ensures
        r == starts_with_text(hay@, prefix@),
{
    let h = chars_of(hay);
    let p = chars_of(prefix);
    starts_with_chars(&h, &p)
}

/// Whether `needle` stands somewhere in `hay`.
pub fn contains_chars(hay: &Vec<char>, needle: &Vec<char>) -> (r: bool)
    ensures
        r == contains_text(hay@, needle@),
{
    if needle.len() > hay.len() {
        return false;
    }
    let last: usize = hay.len() - needle.len();
    let mut at: usize = 0;
    loop
        invariant
            at <= last,
            last == hay.len() - needle.len(),
            forall|k: int| 0 <= k < at ==> !is_match_at(hay@, needle@, k),
        decreases last - at,
    {
        if matches_at(hay, needle, at) {
            return true;
        }
        if at == last {
            return false;
        }
        at += 1;
    }
}

/// Whether `needle` stands somewhere in `hay`.
pub fn contains(hay: &str, needle: &str) -> (r: bool)
    ensures
        r == contains_text(hay@, needle@),
{
    let h = chars_of(hay);
    let n = chars_of(needle);
    contains_chars(&h, &n)
}

// ---------------------------------------------------------------------------
// Line endings
// ---------------------------------------------------------------------------

/// `s` with every line ending turned into a single line feed: a carriage
/// return followed by a line feed becomes one line feed, and so does every
/// other carriage return.
pub open spec fn normalized(s: Seq<char>) -> Seq<char>
    decreases s.len(),
{
    if s.len() == 0 {
        s
    } else if s[0] == '\r' && s.len() >= 2 && s[1] == '\n' {
        seq!['\n'] + normalized(s.skip(2))
    } else if s[0] == '\r' {
        seq!['\n'] + normalized(s.skip(1))
    } else {
        seq![s[0]] + normalized(s.skip(1))
    }
}

/// No carriage return is left in a normalized text.
pub proof fn lemma_normalized_has_no_carriage_return(s: Seq<char>)
    ensures
        forall|i: int| 0 <= i < normalized(s).len() ==> normalized(s)[i] != '\r',
    decreases s.len(),
{
    if s.len() > 0 {
        let rest = if s[0] == '\r' && s.len() >= 2 && s[1] == '\n' {
            s.skip(2)
        } else {
            s.skip(1)
        };
        lemma_normalized_has_no_carriage_return(rest);
        assert forall|i: int| 0 <= i < normalized(s).len() implies normalized(s)[i] != '\r' by {
            if i > 0 {
                assert(normalized(s)[i] == normalized(rest)[i - 1]);
            }
        }
    }
}

/// A text without carriage returns is its own normal form.
pub proof fn lemma_normalized_keeps_clean_text(s: Seq<char>)
    requires
        forall|i: int| 0 <= i < s.len() ==> s[i] != '\r',
    ensures
        normalized(s) == s,
    decreases s.len(),
{
    if s.len() > 0 {
        lemma_normalized_keeps_clean_text(s.skip(1));
        assert(seq![s[0]] + s.skip(1) =~= s);
    }
}

/// Normalizing twice changes nothing more.
pub proof fn lemma_normalized_idempotent(s: Seq<char>)
    ensures
        normalized(normalized(s)) == normalized(s),
{
    lemma_normalized_has_no_carriage_return(s);
    lemma_normalized_keeps_clean_text(normalized(s));
}

/// Normalizes the line endings of `v`.
pub fn normalize_chars(v: &Vec<char>) -> (r: String)
    ensures
        r@ == normalized(v@),
{
    let mut out = String::new();
    let mut i: usize = 0;
    assert(v@.skip(0) =~= v@);
    while i < v.len()
        invariant
            i <= v.len(),
            normalized(v@) == out@ + normalized(v@.skip(i as int)),
        decreases v.len() - i,
    {
        let ghost before = out@;
        let ghost rest = v@.skip(i as int);
        let c = v[i];
        if c == '\r' {
            out.push('\n');
            if i + 1 < v.len() && v[i + 1] == '\n' {
                assert(rest.skip(2) =~= v@.skip(i + 2));
                i += 2;
            } else {
                assert(rest.skip(1) =~= v@.skip(i + 1));
                i += 1;
            }
            assert(before + (seq!['\n'] + normalized(v@.skip(i as int))) =~= out@ + normalized(
                v@.skip(i as int),
            ));
        } else {
            out.push(c);
            assert(rest.skip(1) =~= v@.skip(i + 1));
            i += 1;
            assert(before + (seq![c] + normalized(v@.skip(i as int))) =~= out@ + normalized(
                v@.skip(i as int),
            ));
        }
    }
    assert(out@ + normalized(v@.skip(i as int)) =~= out@);
    out
}

/// Normalizes the line endings of `s`.
pub fn normalize_line_endings(s: &str) -> (r: String)
    ensures
        r@ == normalized(s@),
{
    let v = chars_of(s);
    normalize_chars(&v)
}

// ---------------------------------------------------------------------------
// Lines
// ---------------------------------------------------------------------------

/// The position of the first `c` in `s`, or the length of `s` where there is
/// none.
pub open spec fn first_index_of(s: Seq<char>, c: char) -> int
    decreases s.len(),
{
    if s.len() == 0 || s[0] == c {
        0
    } else {
        1 + first_index_of(s.skip(1), c)
    }
}

/// `first_index_of` is the one position before which no `c` stands and at
/// which one does, or the text ends.
pub proof fn lemma_first_index_of(s: Seq<char>, c: char, k: int)
    requires
        0 <= k <= s.len(),
        forall|j: int| 0 <= j < k ==> s[j] != c,
        k < s.len() ==> s[k] == c,
    ensures
        first_index_of(s, c) == k,
    decreases s.len(),
{
    if s.len() == 0 || s[0] == c {
    } else {
        lemma_first_index_of(s.skip(1), c, k - 1);
    }
}

/// `line` without the carriage return that may end it.
pub open spec fn without_trailing_cr(line: Seq<char>) -> Seq<char> {
    if line.len() > 0 && line.last() == '\r' {
        line.drop_last()
    } else {
        line
    }
}

/// The lines of `s`. A line ends at a line feed, or at a carriage return
/// directly followed by one; neither belongs to the line. A carriage return
/// elsewhere is an ordinary character. The last line needs no line ending,
/// and a text that ends with one has no empty line after it.
pub open spec fn lines(s: Seq<char>) -> Seq<Seq<char>>
    decreases s.len(),
{
    let n = first_index_of(s, '\n');
    if s.len() == 0 {
        Seq::empty()
    } else if n < 0 || n >= s.len() {
        seq![s]
    } else {
        seq![without_trailing_cr(s.take(n))] + lines(s.skip(n + 1))
    }
}

/// The views of the texts in `v` after one more was pushed.
pub proof fn lemma_deep_view_push(before: Vec<String>, after: Vec<String>, s: String)
    requires
        after@ == before@.push(s),
    ensures
        after.deep_view() == before.deep_view().push(s@),
{
    assert(after.deep_view() =~= before.deep_view().push(s@));
}

/// The lines of `v`.
pub fn lines_of_chars(v: &Vec<char>) -> (r: Vec<String>)
    ensures
        r.deep_view() == lines(v@),
{
    let mut out: Vec<String> = Vec::new();
    let mut start: usize = 0;
    let mut i: usize = 0;
    assert(v@.skip(0) =~= v@);
    assert(out.deep_view() =~= Seq::<Seq<char>>::empty());
    while i < v.len()
        invariant
            start <= i <= v.len(),
            lines(v@) == out.deep_view() + lines(v@.skip(start as int)),
            forall|k: int| start <= k < i ==> v@[k] != '\n',
        decreases v.len() - i,
    {
        if v[i] == '\n' {
            let ghost rest = v@.skip(start as int);
            let ghost before = out;
            proof {
                lemma_first_index_of(rest, '\n', i - start);
            }
            let end: usize = if i > start && v[i - 1] == '\r' {
                i - 1
            } else {
                i
            };
            let line = text_of(v, start, end);
            assert(line@ == without_trailing_cr(rest.take(i - start))) by {
                assert(rest.take(i - start) =~= v@.subrange(start as int, i as int));
                if i > start && v@[i - 1] == '\r' {
                    assert(v@.subrange(start as int, i as int).drop_last() =~= v@.subrange(
                        start as int,
                        i - 1,
                    ));
                }
            }
            out.push(line);
            proof {
                lemma_deep_view_push(before, out, line);
                assert(rest.skip(i - start + 1) =~= v@.skip(i + 1));
                assert(before.deep_view() + (seq![line@] + lines(v@.skip(i + 1)))
                    =~= out.deep_view() + lines(v@.skip(i + 1)));
            }
            start = i + 1;
        }
        i += 1;
    }
    if start < v.len() {
        let ghost rest = v@.skip(start as int);
        let ghost before = out;
        proof {
            lemma_first_index_of(rest, '\n', v.len() - start);
        }
        let line = text_of(v, start, v.len());
        assert(line@ =~= rest);
        out.push(line);
        proof {
            lemma_deep_view_push(before, out, line);
        }
    } else {
        assert(out.deep_view() + lines(v@.skip(start as int)) =~= out.deep_view());
    }
    out
}

/// The lines of `s`.
pub fn lines_of(s: &str) -> (r: Vec<String>)
    ensures
        r.deep_view() == lines(s@),
{
    let v = chars_of(s);
    lines_of_chars(&v)
}

// ---------------------------------------------------------------------------
// Trimming
// ---------------------------------------------------------------------------

/// `s` without the white space that begins it.
pub open spec fn trimmed_start(s: Seq<char>) -> Seq<char>
    decreases s.len(),
{
    if s.len() > 0 && is_white_space(s[0]) {
        trimmed_start(s.skip(1))
    } else {
        s
    }
}

/// `s` without the white space that ends it.
pub open spec fn trimmed_end(s: Seq<char>) -> Seq<char>
    decreases s.len(),
{
    if s.len() > 0 && is_white_space(s.last()) {
        trimmed_end(s.drop_last())
    } else {
        s
    }
}

/// `s` without the white space around it.
pub open spec fn trimmed(s: Seq<char>) -> Seq<char> {
    trimmed_end(trimmed_start(s))
}

/// Where the white space that begins `s` is `k` characters long,
/// `trimmed_start` skips exactly those.
pub proof fn lemma_trimmed_start(s: Seq<char>, k: int)
    requires
        0 <= k <= s.len(),
        forall|j: int| 0 <= j < k ==> is_white_space(s[j]),
        k < s.len() ==> !is_white_space(s[k]),
    ensures
        trimmed_start(s) == s.skip(k),
    decreases k,
{
    if k == 0 {
        assert(s.skip(0) =~= s);
    } else {
        lemma_trimmed_start(s.skip(1), k - 1);
        assert(s.skip(1).skip(k - 1) =~= s.skip(k));
    }
}

/// Where the white space that ends `s` starts at `k`, `trimmed_end` keeps
/// exactly what stands before it.
pub proof fn lemma_trimmed_end(s: Seq<char>, k: int)
    requires
        0 <= k <= s.len(),
        forall|j: int| k <= j < s.len() ==> is_white_space(s[j]),
        k > 0 ==> !is_white_space(s[k - 1]),
    ensures
        trimmed_end(s) == s.take(k),
    decreases s.len() - k,
{
    if k == s.len() {
        assert(s.take(k) =~= s);
    } else {
        lemma_trimmed_end(s.drop_last(), k);
        assert(s.drop_last().take(k) =~= s.take(k));
    }
}

/// Trims the characters `v[from..to]` and returns the two ends of what is
/// left.
pub(crate) fn trim_bounds(v: &Vec<char>, from: usize, to: usize) -> (r: (usize, usize))
    requires
        from <= to <= v.len(),
    ensures
        from <= r.0 <= r.1 <= to,
        v@.subrange(r.0 as int, r.1 as int) == trimmed(v@.subrange(from as int, to as int)),
{
    let ghost s = v@.subrange(from as int, to as int);
    let mut a: usize = from;
    while a < to && char_is_whitespace(v[a])
        invariant
            from <= a <= to <= v.len(),
            forall|j: int| from <= j < a ==> is_white_space(v@[j]),
        decreases to - a,
    {
        a += 1;
    }
    let mut b: usize = to;
    while b > a && char_is_whitespace(v[b - 1])
        invariant
            a <= b <= to <= v.len(),
            forall|j: int| b <= j < to ==> is_white_space(v@[j]),
        decreases b,
    {
        b -= 1;
    }
    proof {
        lemma_trimmed_start(s, a - from);
        let t = s.skip(a - from);
        assert(t =~= v@.subrange(a as int, to as int));
        lemma_trimmed_end(t, b - a);
        assert(t.take(b - a) =~= v@.subrange(a as int, b as int));
    }
    (a, b)
}

/// `s` without the white space around it.
pub fn trim(s: &str) -> (r: String)
    ensures
        r@ == trimmed(s@),
{
    let v = chars_of(s);
    let (a, b) = trim_bounds(&v, 0, v.len());
    assert(v@.subrange(0, v.len() as int) =~= v@);
    text_of(&v, a, b)
}

// ---------------------------------------------------------------------------
// Splitting and joining
// ---------------------------------------------------------------------------

/// The pieces of `s` between the occurrences of `sep`: one more piece than
/// there are separators, empty pieces included.
pub open spec fn split(s: Seq<char>, sep: char) -> Seq<Seq<char>>
    decreases s.len(),
{
    let n = first_index_of(s, sep);
    if n < 0 || n >= s.len() {
        seq![s]
    } else {
        seq![s.take(n)] + split(s.skip(n + 1), sep)
    }
}

/// The pieces of `s` between the occurrences of `sep`.
pub fn split_on(s: &str, sep: char) -> (r: Vec<String>)
    ensures
        r.deep_view() == split(s@, sep),
{
    let v = chars_of(s);
    let mut out: Vec<String> = Vec::new();
    let mut start: usize = 0;
    let mut i: usize = 0;
    assert(v@.skip(0) =~= v@);
    assert(out.deep_view() =~= Seq::<Seq<char>>::empty());
    while i < v.len()
        invariant
            start <= i <= v.len(),
            split(v@, sep) == out.deep_view() + split(v@.skip(start as int), sep),
            forall|k: int| start <= k < i ==> v@[k] != sep,
        decreases v.len() - i,
    {
        if v[i] == sep {
            let ghost rest = v@.skip(start as int);
            let ghost before = out;
            let piece = text_of(&v, start, i);
            out.push(piece);
            proof {
                lemma_first_index_of(rest, sep, i - start);
                assert(rest.take(i - start) =~= v@.subrange(start as int, i as int));
                lemma_deep_view_push(before, out, piece);
                assert(rest.skip(i - start + 1) =~= v@.skip(i + 1));
                assert(before.deep_view() + (seq![piece@] + split(v@.skip(i + 1), sep))
                    =~= out.deep_view() + split(v@.skip(i + 1), sep));
            }
            start = i + 1;
        }
        i += 1;
    }
    let ghost rest = v@.skip(start as int);
    let ghost before = out;
    let piece = text_of(&v, start, v.len());
    out.push(piece);
    proof {
        lemma_first_index_of(rest, sep, v.len() - start);
        assert(piece@ =~= rest);
        lemma_deep_view_push(before, out, piece);
    }
    out
}

/// The texts of `parts` in a row, with `sep` between each two.
pub open spec fn joined(parts: Seq<Seq<char>>, sep: Seq<char>) -> Seq<char>
    decreases parts.len(),
{
    if parts.len() == 0 {
        Seq::empty()
    } else if parts.len() == 1 {
        parts[0]
    } else {
        joined(parts.drop_last(), sep) + sep + parts.last()
    }
}

/// The texts of `parts` in a row, with `sep` between each two.
pub fn join(parts: &Vec<String>, sep: &str) -> (r: String)
    ensures
        r@ == joined(parts.deep_view(), sep@),
{
    let mut out = String::new();
    let mut i: usize = 0;
    while i < parts.len()
        invariant
            i <= parts.len(),
            out@ == joined(parts.deep_view().take(i as int), sep@),
        decreases parts.len() - i,
    {
        let ghost before = parts.deep_view().take(i as int);
        let ghost now = parts.deep_view().take(i + 1);
        assert(now.drop_last() =~= before);
        assert(now.last() == parts@[i as int]@);
        if i > 0 {
            out.append(sep);
        } else {
            assert(out@ + parts@[i as int]@ =~= parts@[i as int]@);
        }
        out.append(parts[i].as_str());
        i += 1;
    }
    assert(parts.deep_view().take(parts.len() as int) =~= parts.deep_view());
    out
}

// ---------------------------------------------------------------------------
// Numbers
// ---------------------------------------------------------------------------

/// The character of the digit `d`.
pub open spec fn digit(d: int) -> char {
    if d == 0 {
        '0'
    } else if d == 1 {
        '1'
    } else if d == 2 {
        '2'
    } else if d == 3 {
        '3'
    } else if d == 4 {
        '4'
    } else if d == 5 {
        '5'
    } else if d == 6 {
        '6'
    } else if d == 7 {
        '7'
    } else if d == 8 {
        '8'
    } else {
        '9'
    }
}

/// `n` in decimal digits, without leading zeros.
pub open spec fn decimal(n: nat) -> Seq<char>
    decreases n,
{
    if n < 10 {
        seq![digit(n as int)]
    } else {
        decimal(n / 10).push(digit((n % 10) as int))
    }
}

/// `n` in decimal digits, with a minus sign before a negative number.
pub open spec fn signed_decimal(n: int) -> Seq<char> {
    if n < 0 {
        seq!['-'] + decimal((-n) as nat)
    } else {
        decimal(n as nat)
    }
}

fn digit_char(d: u64) -> (c: char)
    requires
        d < 10,
    ensures
        c == digit(d as int),
{
    if d == 0 {
        '0'
    } else if d == 1 {
        '1'
    } else if d == 2 {
        '2'
    } else if d == 3 {
        '3'
    } else if d == 4 {
        '4'
    } else if d == 5 {
        '5'
    } else if d == 6 {
        '6'
    } else if d == 7 {
        '7'
    } else if d == 8 {
        '8'
    } else {
        '9'
    }
}

/// Appends `n` in decimal digits to `out`.
pub fn push_decimal(out: &mut String, n: u64)
    ensures
        final(out)@ == old(out)@ + decimal(n as nat),
{
    let mut digits: Vec<char> = Vec::new();
    let mut m: u64 = n;
    while m >= 10
        invariant
            decimal(n as nat) == decimal(m as nat) + digits@,
        decreases m,
    {
        let d = digit_char(m % 10);
        let ghost before = digits@;
        digits.insert(0, d);
        assert(decimal((m / 10) as nat).push(d) + before =~= decimal((m / 10) as nat) + digits@);
        m = m / 10;
    }
    out.push(digit_char(m));
    let mut i: usize = 0;
    while i < digits.len()
        invariant
            i <= digits.len(),
            out@ == old(out)@ + (seq![digit(m as int)] + digits@.take(i as int)),
        decreases digits.len() - i,
    {
        out.push(digits[i]);
        i += 1;
        assert(digits@.take(i as int) =~= digits@.take(i - 1).push(digits@[i - 1]));
        assert(out@ =~= old(out)@ + (seq![digit(m as int)] + digits@.take(i as int)));
    }
    assert(digits@.take(digits.len() as int) =~= digits@);
}

/// `n` in decimal digits.
pub fn decimal_text(n: u64) -> (r: String)
    ensures
        r@ == decimal(n as nat),
{
    let mut out = String::new();
    push_decimal(&mut out, n);
    assert(Seq::<char>::empty() + decimal(n as nat) =~= decimal(n as nat));
    out
}

/// `n` in decimal digits, with a minus sign before a negative number.
pub fn signed_decimal_text(n: i64) -> (r: String)
    ensures
        r@ == signed_decimal(n as int),
{
    let mut out = String::new();
    if n < 0 {
        out.push('-');
        let m: u64 = ((-(n + 1)) as u64) + 1;
        push_decimal(&mut out, m);
        assert(out@ =~= seq!['-'] + decimal((-n) as nat));
    } else {
        push_decimal(&mut out, n as u64);
        assert(out@ =~= decimal(n as nat));
    }
    out
}

// ---------------------------------------------------------------------------
// Shortening and replacing
// ---------------------------------------------------------------------------

/// `s` where it has at most `limit` characters; else its first `keep`
/// characters and three dots.
pub open spec fn shortened(s: Seq<char>, limit: int, keep: int) -> Seq<char> {
    if s.len() > limit {
        s.take(keep) + "..."@
    } else {
        s
    }
}

/// Shortens the characters `v[from..to]` as `shortened` says.
pub(crate) fn shorten_chars(v: &Vec<char>, from: usize, to: usize, limit: usize, keep: usize) -> (r:
    String)
    requires
        from <= to <= v.len(),
        keep <= limit,
    ensures
        r@ == shortened(v@.subrange(from as int, to as int), limit as int, keep as int),
{
    if to - from > limit {
        let mut out = text_of(v, from, from + keep);
        out.append("...");
        assert(v@.subrange(from as int, to as int).take(keep as int) =~= v@.subrange(
            from as int,
            from + keep,
        ));
        out
    } else {
        text_of(v, from, to)
    }
}

/// `s` with every `from` turned into `to`.
pub open spec fn with_char_replaced(s: Seq<char>, from: char, to: char) -> Seq<char> {
    s.map_values(
        |c: char|
            if c == from {
                to
            } else {
                c
            },
    )
}

/// The characters `v[start..]` with every `from` turned into `to`.
pub(crate) fn replace_char_from(v: &Vec<char>, start: usize, from: char, to: char) -> (r: String)
    requires
        start <= v.len(),
    ensures
        r@ == with_char_replaced(v@.skip(start as int), from, to),
{
    let mut out = String::new();
    let mut i: usize = start;
    while i < v.len()
        invariant
            start <= i <= v.len(),
            out@ == with_char_replaced(v@.subrange(start as int, i as int), from, to),
        decreases v.len() - i,
    {
        let c = v[i];
        if c == from {
            out.push(to);
        } else {
            out.push(c);
        }
        i += 1;
        assert(out@ =~= with_char_replaced(v@.subrange(start as int, i as int), from, to));
    }
    assert(v@.subrange(start as int, v.len() as int) =~= v@.skip(start as int));
    out
}

/// An upper-case letter of ASCII as its lower-case letter; any other
/// character unchanged.
pub open spec fn ascii_lower(c: char) -> char {
    if 'A' <= c && c <= 'Z' {
        ((c as u8) + 32) as char
    } else {
        c
    }
}

/// An upper-case letter of ASCII as its lower-case letter; any other
/// character unchanged.
pub fn to_ascii_lower(c: char) -> (r: char)
    ensures
        r == ascii_lower(c),
{
    if 'A' <= c && c <= 'Z' {
        ((c as u8) + 32) as char
    } else {
        c
    }
}

} // verus!
