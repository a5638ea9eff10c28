//! Character-level text helpers: reading a string as characters, trimming
//! white space, and dropping filler from an alphabet.
use vstd::prelude::*;

verus! {

/// Whether `char::is_whitespace` holds of a character, that is, whether it
/// has the Unicode property White_Space.
pub uninterp spec fn white_space(c: char) -> bool;

/// `char::is_whitespace`. Trusted: the result is `white_space` of the
/// character; nothing is claimed about which characters those are.
pub assume_specification[ char::is_whitespace ](c: char) -> (b: bool)
    ensures
        b == white_space(c),
;

/// `String::push`: appends one character to the end of the string.
pub assume_specification[ String::push ](s: &mut String, c: char)
    ensures
        final(s)@ == old(s)@.push(c),
;

/// The text without its leading white space.
pub open spec fn trim_start(text: Seq<char>) -> Seq<char>
    decreases text.len(),
{
    if text.len() > 0 && white_space(text.first()) {
        trim_start(text.drop_first())
    } else {
        text
    }
}

/// The text without its trailing white space.
pub open spec fn trim_end(text: Seq<char>) -> Seq<char>
    decreases text.len(),
{
    if text.len() > 0 && white_space(text.last()) {
        trim_end(text.drop_last())
    } else {
        text
    }
}

/// The text without leading and trailing white space.
pub open spec fn trimmed(text: Seq<char>) -> Seq<char> {
    trim_end(trim_start(text))
}

/// Tab, carriage return, line feed and space: the characters that lay out an
/// alphabet in a settings file and are no part of it.
pub open spec fn is_filler(c: char) -> bool {
    c == '\t' || c == '\r' || c == '\n' || c == ' '
}

/// The predicate that keeps a character in the alphabet.
pub open spec fn not_filler() -> spec_fn(char) -> bool {
    |c: char| !is_filler(c)
}

/// The alphabet that a text spells: the trimmed text without filler.
pub open spec fn plain(text: Seq<char>) -> Seq<char> {
    trimmed(text).filter(not_filler())
}

/// Dropping leading white space one character at a time.
proof fn lemma_trim_start_skip(text: Seq<char>, k: int)
    requires
        0 <= k <= text.len(),
        forall|j: int| 0 <= j < k ==> white_space(#[trigger] text[j]),
    ensures
        trim_start(text) == trim_start(text.skip(k)),
    decreases k,
{
    if k == 0 {
        assert(text.skip(0) =~= text);
    } else {
        let rest = text.drop_first();
        assert forall|j: int| 0 <= j < k - 1 implies white_space(#[trigger] rest[j]) by {}
        lemma_trim_start_skip(rest, k - 1);
        assert(rest.skip(k - 1) =~= text.skip(k));
    }
}

/// Dropping trailing white space one character at a time.
proof fn lemma_trim_end_take(text: Seq<char>, k: int)
    requires
        0 <= k <= text.len(),
        forall|j: int| k <= j < text.len() ==> white_space(#[trigger] text[j]),
    ensures
        trim_end(text) == trim_end(text.take(k)),
    decreases text.len() - k,
{
    if k == text.len() {
        assert(text.take(k) =~= text);
    } else {
        let rest = text.drop_last();
        assert forall|j: int| k <= j < rest.len() implies white_space(#[trigger] rest[j]) by {}
        lemma_trim_end_take(rest, k);
        assert(rest.take(k) =~= text.take(k));
    }
}

/// Filtering a sequence with one more element keeps that element exactly
/// when the predicate holds of it.
pub(crate) proof fn lemma_filter_push<A>(s: Seq<A>, x: A, pred: spec_fn(A) -> bool)
    ensures
        s.push(x).filter(pred) == if pred(x) {
            s.filter(pred).push(x)
        } else {
            s.filter(pred)
        },
{
    reveal(Seq::filter);
    assert(s.push(x).drop_last() =~= s);
}

/// The characters of a string, in order.
pub fn chars_of(text: &str) -> (chars: Vec<char>)
    ensures
        chars@ == text@,
{
    let mut chars: Vec<char> = Vec::new();
    for c in it: text.chars()
        invariant
            chars@ == it.seq().take(it.index() as int),
            it.seq() == text@,
    {
        chars.push(c);
    }
    chars
}

/// The alphabet that a text spells, as characters: leading and trailing
/// white space dropped, then every tab, carriage return, line feed and space.
pub fn plain_chars(text: &str) -> (letters: Vec<char>)
    ensures
        letters@ == plain(text@),
{
    let chars = chars_of(text);
    let n = chars.len();
    let mut start: usize = 0;
    while start < n && chars[start].is_whitespace()
        invariant
            start <= n,
            n == chars@.len(),
            forall|j: int| 0 <= j < start ==> white_space(#[trigger] chars@[j]),
        decreases n - start,
    {
        start = start + 1;
    }
    let mut end: usize = n;
    while end > start && chars[end - 1].is_whitespace()
        invariant
            start <= end <= n,
            n == chars@.len(),
            forall|j: int| end <= j < n ==> white_space(#[trigger] chars@[j]),
        decreases end,
    {
        end = end - 1;
    }
    let ghost core = chars@.subrange(start as int, end as int);
    proof {
        let front = chars@.skip(start as int);
        lemma_trim_start_skip(chars@, start as int);
        assert(trim_start(chars@) == front);
        assert forall|j: int| end - start <= j < front.len() implies white_space(
            #[trigger] front[j],
        ) by {}
        lemma_trim_end_take(front, end - start);
        assert(trim_end(core) == core);
        assert(trimmed(text@) == core);
    }
    let mut letters: Vec<char> = Vec::new();
    let mut i: usize = start;
    while i < end
        invariant
            start <= i <= end <= n,
            n == chars@.len(),
            core == chars@.subrange(start as int, end as int),
            letters@ == core.take(i - start).filter(not_filler()),
        decreases end - i,
    {
        let c = chars[i];
        proof {
            assert(core.take(i + 1 - start) =~= core.take(i - start).push(c));
            lemma_filter_push(core.take(i - start), c, not_filler());
        }
        if !(c == '\t' || c == '\r' || c == '\n' || c == ' ') {
            letters.push(c);
        }
        i = i + 1;
    }
    assert(core.take(end - start) =~= core);
    letters
}

/// The string that spells the given characters.
pub fn string_of(chars: &Vec<char>) -> (text: String)
    ensures
        text@ == chars@,
{
    let mut text = String::new();
    let n = chars.len();
    let mut i: usize = 0;
    while i < n
        invariant
            i <= n,
            n == chars@.len(),
            text@ == chars@.take(i as int),
        decreases n - i,
    {
        text.push(chars[i]);
        i = i + 1;
    }
    text
}

} // verus!
