//! Text as sequences of characters: copies of optional text, and splitting at a mark.

use vstd::prelude::*;
use vstd::string::*;

verus! {

/// Copies an optional string slice into an owned optional string.
pub fn owned(text: Option<&str>) -> (r: Option<String>)
    ensures
        r.deep_view() == text.deep_view(),
{
    match text {
        Some(t) => Some(t.to_string()),
        None => None,
    }
}

/// Copies an optional string.
pub fn cloned(text: &Option<String>) -> (r: Option<String>)
    ensures
        r.deep_view() == text.deep_view(),
{
    match text {
        Some(t) => Some(t.clone()),
        None => None,
    }
}

/// The characters of `text`.
pub fn chars_of(text: &str) -> (r: Vec<char>)
    ensures
        r@ == text@,
{
    let mut out: Vec<char> = Vec::new();
    for c in it: text.chars()
        invariant
            it.seq() == text@,
            out@ == it.seq().take(it.index() as int),
    {
        out.push(c);
    }
    out
}

/// Number of characters of `text` before its first `mark`; its length if it has none.
pub open spec fn run_len(text: Seq<char>, mark: char) -> nat
    decreases text.len(),
{
    if text.len() == 0 || text[0] == mark {
        0
    } else {
        1 + run_len(text.drop_first(), mark)
    }
}

/// The run before the first `mark` is the prefix that holds no `mark` and that ends
/// the text or is followed by a `mark`.
pub proof fn lemma_run_len(text: Seq<char>, mark: char, n: int)
    requires
        0 <= n <= text.len(),
        forall|j: int| 0 <= j < n ==> text[j] != mark,
        n == text.len() || text[n] == mark,
    ensures
        run_len(text, mark) == n,
    decreases n,
{
    if n > 0 {
        lemma_run_len(text.drop_first(), mark, n - 1);
    }
}

/// The run before the first `mark` holds no `mark`, and a `mark` follows it unless it
/// ends the text.
pub proof fn lemma_run_len_marks(text: Seq<char>, mark: char)
    ensures
        run_len(text, mark) <= text.len(),
        forall|j: int| 0 <= j < run_len(text, mark) ==> text[j] != mark,
        run_len(text, mark) < text.len() ==> text[run_len(text, mark) as int] == mark,
    decreases text.len(),
{
    if text.len() > 0 && text[0] != mark {
        let rest = text.drop_first();
        lemma_run_len_marks(rest, mark);
        assert forall|j: int| 0 <= j < run_len(text, mark) implies text[j] != mark by {
            if j > 0 {
                assert(rest[j - 1] == text[j]);
            }
        }
    }
}

/// The place of the first `mark` of `chars` at or after `from`; the length of `chars`
/// if there is none.
fn scan(chars: &Vec<char>, from: usize, mark: char) -> (r: usize)
    requires
        from <= chars.len(),
    ensures
        from <= r <= chars.len(),
        r == from + run_len(chars@.skip(from as int), mark),
{
    let mut at = from;
    while at < chars.len() && chars[at] != mark
        invariant
            from <= at <= chars.len(),
            forall|j: int| from <= j < at ==> chars@[j] != mark,
        decreases chars.len() - at,
    {
        at += 1;
    }
    proof {
        lemma_run_len(chars@.skip(from as int), mark, at - from);
    }
    at
}

/// Number of characters of `text` before its first `mark`; its length if it has none.
pub fn run_length(text: &str, mark: char) -> (r: usize)
    ensures
        r == run_len(text@, mark),
        r <= text@.len(),
{
    let chars = chars_of(text);
    assert(chars@.skip(0) =~= text@);
    scan(&chars, 0, mark)
}

/// The pieces of `text` between its `mark`s, in their order: one more piece than
/// there are marks, each without a mark, empty where two marks meet or a mark begins or
/// ends the text.
pub open spec fn split(text: Seq<char>, mark: char) -> Seq<Seq<char>>
    decreases text.len(),
{
    let run = run_len(text, mark) as int;
    if run >= text.len() {
        seq![text]
    } else {
        seq![text.take(run)] + split(text.skip(run + 1), mark)
    }
}

/// The texts `pieces` with a `mark` between each two of them.
pub open spec fn joined(pieces: Seq<Seq<char>>, mark: char) -> Seq<char>
    decreases pieces.len(),
{
    if pieces.len() == 0 {
        Seq::empty()
    } else if pieces.len() == 1 {
        pieces[0]
    } else {
        pieces[0] + seq![mark] + joined(pieces.drop_first(), mark)
    }
}

/// A text is split into at least one piece, no piece holds a mark, and the pieces with
/// the marks back between them are the text.
pub proof fn law_split_joins_back(text: Seq<char>, mark: char)
    ensures
        split(text, mark).len() >= 1,
        forall|i: int, j: int|
            0 <= i < split(text, mark).len() && 0 <= j < split(text, mark)[i].len() ==> split(
                text,
                mark,
            )[i][j] != mark,
        joined(split(text, mark), mark) == text,
    decreases text.len(),
{
    lemma_run_len_marks(text, mark);
    let run = run_len(text, mark) as int;
    let pieces = split(text, mark);
    if run < text.len() {
        let head = text.take(run);
        let rest = text.skip(run + 1);
        law_split_joins_back(rest, mark);
        let later = split(rest, mark);
        assert(pieces.drop_first() =~= later);
        assert(head + seq![mark] + rest =~= text);
        assert forall|i: int, j: int|
            0 <= i < pieces.len() && 0 <= j < pieces[i].len() implies pieces[i][j] != mark by {
            if i > 0 {
                assert(pieces[i] == later[i - 1]);
            }
        }
    }
}

/// A text without a mark is one piece.
pub proof fn lemma_split_one(text: Seq<char>, mark: char)
    requires
        forall|j: int| 0 <= j < text.len() ==> text[j] != mark,
    ensures
        split(text, mark) == seq![text],
{
    lemma_run_len(text, mark, text.len() as int);
}

/// A text that begins with a piece and a mark is split after that piece.
pub proof fn lemma_split_first(head: Seq<char>, tail: Seq<char>, mark: char)
    requires
        forall|j: int| 0 <= j < head.len() ==> head[j] != mark,
    ensures
        split(head + seq![mark] + tail, mark) == seq![head] + split(tail, mark),
{
    let text = head + seq![mark] + tail;
    lemma_run_len(text, mark, head.len() as int);
    assert(text.take(head.len() as int) =~= head);
    assert(text.skip(head.len() as int + 1) =~= tail);
}

/// The pieces of `text` between its `mark`s, in their order.
pub fn split_at_marks(text: &str, mark: char) -> (r: Vec<String>)
    ensures
        r.deep_view() == split(text@, mark),
{
    let chars = chars_of(text);
    let mut pieces: Vec<String> = Vec::new();
    let mut start: usize = 0;
    assert(chars@.skip(0) =~= text@);
    assert(pieces.deep_view() + split(chars@.skip(0), mark) =~= split(text@, mark));
    loop
        invariant_except_break
            start <= chars.len(),
            pieces.deep_view() + split(chars@.skip(start as int), mark) == split(text@, mark),
        invariant
            chars@ == text@,
        ensures
            pieces.deep_view() == split(text@, mark),
        decreases chars.len() - start,
    {
        let end = scan(&chars, start, mark);
        let ghost rest = chars@.skip(start as int);
        let ghost before = pieces.deep_view();
        let piece = text.substring_char(start, end).to_string();
        assert(piece@ =~= rest.take(end - start));
        pieces.push(piece);
        assert(pieces.deep_view() =~= before.push(piece@));
        if end >= chars.len() {
            assert(rest.take(end - start) =~= rest);
            assert(before + seq![rest] =~= before.push(rest));
            break;
        }
        assert(rest.skip(end - start + 1) =~= chars@.skip(end + 1));
        assert(before + (seq![piece@] + split(chars@.skip(end + 1), mark)) =~= before.push(
            piece@,
        ) + split(chars@.skip(end + 1), mark));
        start = end + 1;
    }
    pieces
}

/// Whether `c` is white space: a character with the Unicode property `White_Space`.
pub open spec fn is_white_space(c: char) -> bool {
    let code = c as u32;
    ||| 0x09 <= code <= 0x0d
    ||| code == 0x20
    ||| code == 0x85
    ||| code == 0xa0
    ||| code == 0x1680
    ||| 0x2000 <= code <= 0x200a
    ||| code == 0x2028
    ||| code == 0x2029
    ||| code == 0x202f
    ||| code == 0x205f
    ||| code == 0x3000
}

/// Whether `c` is white space.
pub fn white_space(c: char) -> (r: bool)
    ensures
        r == is_white_space(c),
{
    let code = c as u32;
    (0x09 <= code && code <= 0x0d) || code == 0x20 || code == 0x85 || code == 0xa0 || code
        == 0x1680 || (0x2000 <= code && code <= 0x200a) || code == 0x2028 || code == 0x2029
        || code == 0x202f || code == 0x205f || code == 0x3000
}

/// `text` without the white space it begins with.
pub open spec fn trimmed_start(text: Seq<char>) -> Seq<char>
    decreases text.len(),
{
    if text.len() > 0 && is_white_space(text[0]) {
        trimmed_start(text.drop_first())
    } else {
        text
    }
}

/// `text` without the white space it ends with.
pub open spec fn trimmed_end(text: Seq<char>) -> Seq<char>
    decreases text.len(),
{
    if text.len() > 0 && is_white_space(text.last()) {
        trimmed_end(text.drop_last())
    } else {
        text
    }
}

/// `text` without the white space at its ends.
pub open spec fn trimmed(text: Seq<char>) -> Seq<char> {
    trimmed_end(trimmed_start(text))
}

/// White space at the start can be dropped all at once.
proof fn lemma_trimmed_start(text: Seq<char>, n: int)
    requires
        0 <= n <= text.len(),
        forall|j: int| 0 <= j < n ==> is_white_space(text[j]),
    ensures
        trimmed_start(text) == trimmed_start(text.skip(n)),
    decreases n,
{
    if n == 0 {
        assert(text.skip(0) =~= text);
    } else {
        lemma_trimmed_start(text.drop_first(), n - 1);
        assert(text.drop_first().skip(n - 1) =~= text.skip(n));
    }
}

/// White space at the end can be dropped all at once.
proof fn lemma_trimmed_end(text: Seq<char>, n: int)
    requires
        0 <= n <= text.len(),
        forall|j: int| n <= j < text.len() ==> is_white_space(text[j]),
    ensures
        trimmed_end(text) == trimmed_end(text.take(n)),
    decreases text.len() - n,
{
    if n == text.len() {
        assert(text.take(n) =~= text);
    } else {
        lemma_trimmed_end(text.drop_last(), n);
        assert(text.drop_last().take(n) =~= text.take(n));
    }
}

/// What is left of a text without the white space it begins with: where it starts.
proof fn lemma_start_of_trimmed(text: Seq<char>) -> (n: int)
    ensures
        0 <= n <= text.len(),
        trimmed_start(text) == text.skip(n),
        forall|j: int| 0 <= j < n ==> is_white_space(text[j]),
        n < text.len() ==> !is_white_space(text[n]),
    decreases text.len(),
{
    if text.len() > 0 && is_white_space(text[0]) {
        let rest = text.drop_first();
        let m = lemma_start_of_trimmed(rest);
        assert(rest.skip(m) =~= text.skip(m + 1));
        assert forall|j: int| 0 <= j < m + 1 implies is_white_space(text[j]) by {
            if j > 0 {
                assert(rest[j - 1] == text[j]);
            }
        }
        m + 1
    } else {
        assert(text.skip(0) =~= text);
        0
    }
}

/// What is left of a text without the white space it ends with: where it ends.
proof fn lemma_end_of_trimmed(text: Seq<char>) -> (n: int)
    ensures
        0 <= n <= text.len(),
        trimmed_end(text) == text.take(n),
        forall|j: int| n <= j < text.len() ==> is_white_space(text[j]),
        n > 0 ==> !is_white_space(text[n - 1]),
    decreases text.len(),
{
    if text.len() > 0 && is_white_space(text.last()) {
        let rest = text.drop_last();
        let m = lemma_end_of_trimmed(rest);
        assert(rest.take(m) =~= text.take(m));
        assert forall|j: int| m <= j < text.len() implies is_white_space(text[j]) by {
            if j < rest.len() {
                assert(rest[j] == text[j]);
            }
        }
        if m > 0 {
            assert(rest[m - 1] == text[m - 1]);
        }
        m
    } else {
        assert(text.take(text.len() as int) =~= text);
        text.len() as int
    }
}

/// A trimmed text is the part of the text between the white space at its ends: all
/// that stands before it and after it is white space, and it neither begins nor ends
/// with white space.
pub proof fn law_trimmed_is_the_middle(text: Seq<char>)
    ensures
        exists|start: int, end: int|
            {
                &&& 0 <= start <= end <= text.len()
                &&& #[trigger] text.subrange(start, end) == trimmed(text)
                &&& forall|j: int| 0 <= j < start || end <= j < text.len() ==> is_white_space(text[j])
                &&& start < end ==> !is_white_space(text[start]) && !is_white_space(text[end - 1])
            },
{
    let start = lemma_start_of_trimmed(text);
    let rest = text.skip(start);
    let kept = lemma_end_of_trimmed(rest);
    let end = start + kept;
    assert(rest.take(kept) =~= text.subrange(start, end));
    assert forall|j: int| 0 <= j < start || end <= j < text.len() implies is_white_space(
        text[j],
    ) by {
        if j >= end {
            assert(rest[j - start] == text[j]);
        }
    }
    if start < end {
        assert(rest[kept - 1] == text[end - 1]);
    }
}

/// `text` without the white space at its ends.
pub fn trim(text: &str) -> (r: &str)
    ensures
        r@ == trimmed(text@),
{
    let chars = chars_of(text);
    let mut start: usize = 0;
    while start < chars.len() && white_space(chars[start])
        invariant
            start <= chars.len(),
            forall|j: int| 0 <= j < start ==> is_white_space(chars@[j]),
        decreases chars.len() - start,
    {
        start += 1;
    }
    let mut end: usize = chars.len();
    while end > start && white_space(chars[end - 1])
        invariant
            start <= end <= chars.len(),
            forall|j: int| end <= j < chars.len() ==> is_white_space(chars@[j]),
        decreases end,
    {
        end -= 1;
    }
    proof {
        let rest = chars@.skip(start as int);
        lemma_trimmed_start(chars@, start as int);
        assert(trimmed_start(rest) == rest);
        lemma_trimmed_end(rest, end - start);
        assert(rest.take(end - start) =~= chars@.subrange(start as int, end as int));
        assert(trimmed_end(rest.take(end - start)) == rest.take(end - start));
    }
    text.substring_char(start, end)
}

/// `String::push` of the standard library. The contract claims what its documentation
/// says: the character is appended to the end of the string, and nothing else of the
/// string changes.
pub assume_specification[ String::push ](text: &mut String, c: char)
    ensures
        final(text)@ == old(text)@.push(c),
;

/// What `str::to_lowercase` makes of a text: its lower case, by the rules of Unicode.
pub uninterp spec fn lowercased(text: Seq<char>) -> Seq<char>;

/// Calls `str::to_lowercase` of the standard library. The contract gives what comes back
/// the name [`lowercased`] and claims nothing more of it: only that the same text
/// always has the same lower case.
#[verifier::external_body]
pub(crate) fn to_lowercase(text: &str) -> (r: String)
    ensures
        r@ == lowercased(text@),
{
    text.to_lowercase()
}

/// What `str::to_uppercase` makes of a text: its upper case, by the rules of Unicode.
pub uninterp spec fn uppercased(text: Seq<char>) -> Seq<char>;

/// Calls `str::to_uppercase` of the standard library. The contract gives what comes back
/// the name [`uppercased`] and claims nothing more of it: only that the same text
/// always has the same upper case.
#[verifier::external_body]
pub(crate) fn to_uppercase(text: &str) -> (r: String)
    ensures
        r@ == uppercased(text@),
{
    text.to_uppercase()
}

} // verus!
