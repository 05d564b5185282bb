//! Texts as sequences of characters: trimming, case, searching.
//!
//! The functions here work on `Vec<char>` so that every position is a
//! character; [`chars_of`] and [`string_of`] lead in from and out to `str`.

use vstd::prelude::*;

verus! {

/// Calls `String::push`, which appends one character to the text.
#[verifier::external_body]
fn push_char(text: &mut String, c: char)
    ensures
        final(text)@ == old(text)@.push(c),
{
    text.push(c)
}

/// The characters of `text`.
pub fn chars_of(text: &str) -> (chars: Vec<char>)
    ensures
        chars@ == text@,
{
    let mut chars: Vec<char> = Vec::new();
    for c in it: text.chars()
        invariant
            chars@ == it.seq().subrange(0, it.index()),
            it.seq() == text@,
    {
        chars.push(c);
    }
    chars
}

/// The text made of `chars`.
pub fn string_of(chars: &Vec<char>) -> (text: String)
    ensures
        text@ == chars@,
{
    let mut text = String::new();
    let mut i: usize = 0;
    while i < chars.len()
        invariant
            i <= chars.len(),
            text@ == chars@.subrange(0, i as int),
        decreases chars.len() - i,
    {
        push_char(&mut text, chars[i]);
        i = i + 1;
    }
    text
}

/// The part of `chars` from `from` up to `to`.
pub fn slice_of(chars: &Vec<char>, from: usize, to: usize) -> (part: Vec<char>)
    requires
        from <= to <= chars.len(),
    ensures
        part@ == chars@.subrange(from as int, to as int),
{
    let mut part: Vec<char> = Vec::new();
    let mut i: usize = from;
    while i < to
        invariant
            from <= i <= to <= chars.len(),
            part@ == chars@.subrange(from as int, i as int),
        decreases to - i,
    {
        part.push(chars[i]);
        i = i + 1;
    }
    part
}

/// `first` followed by `second`.
pub fn append_text(first: &Vec<char>, second: &Vec<char>) -> (both: Vec<char>)
    ensures
        both@ == first@ + second@,
{
    let mut both: Vec<char> = slice_of(first, 0, first.len());
    let mut i: usize = 0;
    while i < second.len()
        invariant
            i <= second.len(),
            both@ == first@ + second@.subrange(0, i as int),
        decreases second.len() - i,
    {
        both.push(second[i]);
        i = i + 1;
    }
    both
}

/// Whether `c` is white space: a character that Unicode classes as
/// `White_Space`.
pub open spec fn is_whitespace(c: char) -> bool {
    ||| '\u{9}' <= c && c <= '\u{d}'
    ||| c == ' '
    ||| c == '\u{85}'
    ||| c == '\u{a0}'
    ||| c == '\u{1680}'
    ||| '\u{2000}' <= c && c <= '\u{200a}'
    ||| c == '\u{2028}'
    ||| c == '\u{2029}'
    ||| c == '\u{202f}'
    ||| c == '\u{205f}'
    ||| c == '\u{3000}'
}

/// Whether `c` is white space.
pub fn char_is_whitespace(c: char) -> (white: bool)
    ensures
        white == is_whitespace(c),
{
    ('\u{9}' <= c && c <= '\u{d}') || c == ' ' || c == '\u{85}' || c == '\u{a0}' || c
        == '\u{1680}' || ('\u{2000}' <= c && c <= '\u{200a}') || c == '\u{2028}' || c
        == '\u{2029}' || c == '\u{202f}' || c == '\u{205f}' || c == '\u{3000}'
}

/// Whether `c` is an ASCII letter or digit.
pub open spec fn is_alphanumeric(c: char) -> bool {
    ('0' <= c && c <= '9') || ('a' <= c && c <= 'z') || ('A' <= c && c <= 'Z')
}

/// Whether `c` is an ASCII letter or digit.
pub fn char_is_alphanumeric(c: char) -> (alnum: bool)
    ensures
        alnum == is_alphanumeric(c),
{
    ('0' <= c && c <= '9') || ('a' <= c && c <= 'z') || ('A' <= c && c <= 'Z')
}

/// `c` with an ASCII capital letter turned into the small one.
pub open spec fn lower_char(c: char) -> char {
    if 'A' <= c && c <= 'Z' {
        ((c as u8) + 32) as char
    } else {
        c
    }
}

/// `c` with an ASCII capital letter turned into the small one.
pub fn char_to_lower(c: char) -> (lower: char)
    ensures
        lower == lower_char(c),
{
    if 'A' <= c && c <= 'Z' {
        ((c as u8) + 32) as char
    } else {
        c
    }
}

/// `text` with every ASCII capital letter turned into the small one.
pub open spec fn ascii_lower(text: Seq<char>) -> Seq<char> {
    Seq::new(text.len(), |i: int| lower_char(text[i]))
}

/// Turns every ASCII capital letter of `chars` into the small one.
pub fn to_ascii_lower(chars: &Vec<char>) -> (lower: Vec<char>)
    ensures
        lower@ == ascii_lower(chars@),
{
    let mut lower: Vec<char> = Vec::new();
    let mut i: usize = 0;
    while i < chars.len()
        invariant
            i <= chars.len(),
            lower@ == ascii_lower(chars@.subrange(0, i as int)),
        decreases chars.len() - i,
    {
        lower.push(char_to_lower(chars[i]));
        i = i + 1;
        assert(lower@ =~= ascii_lower(chars@.subrange(0, i as int)));
    }
    assert(chars@.subrange(0, i as int) == chars@);
    lower
}

/// Whether two texts are equal up to the case of ASCII letters.
pub open spec fn same_ignoring_case(first: Seq<char>, second: Seq<char>) -> bool {
    ascii_lower(first) == ascii_lower(second)
}

/// Whether two texts are equal.
pub fn same_text(first: &Vec<char>, second: &Vec<char>) -> (same: bool)
    ensures
        same == (first@ == second@),
{
    if first.len() != second.len() {
        return false;
    }
    let mut i: usize = 0;
    while i < first.len()
        invariant
            i <= first.len(),
            first.len() == second.len(),
            first@.subrange(0, i as int) == second@.subrange(0, i as int),
        decreases first.len() - i,
    {
        if first[i] != second[i] {
            return false;
        }
        i = i + 1;
        assert(first@.subrange(0, i as int) == first@.subrange(0, i - 1).push(first@[i - 1]));
        assert(second@.subrange(0, i as int) == second@.subrange(0, i - 1).push(second@[i - 1]));
    }
    assert(first@.subrange(0, i as int) == first@);
    assert(second@.subrange(0, i as int) == second@);
    true
}

/// Whether two texts are equal up to the case of ASCII letters.
pub fn eq_ignore_ascii_case(first: &Vec<char>, second: &Vec<char>) -> (same: bool)
    ensures
        same == same_ignoring_case(first@, second@),
{
    let lower_first = to_ascii_lower(first);
    let lower_second = to_ascii_lower(second);
    same_text(&lower_first, &lower_second)
}

/// Which characters to strip from the ends of a text.
#[derive(Clone, Copy, Debug, PartialEq, Eq, Structural)]
pub enum Strip {
    /// White space.
    Whitespace,
    /// This character.
    Char(char),
    /// Either of these two characters.
    Either(char, char),
}

impl Strip {
    /// Whether `c` is stripped.
    pub open spec fn strips(self, c: char) -> bool {
        match self {
            Strip::Whitespace => is_whitespace(c),
            Strip::Char(stripped) => c == stripped,
            Strip::Either(first, second) => c == first || c == second,
        }
    }

    /// Whether `c` is stripped.
    pub fn test(&self, c: char) -> (stripped: bool)
        ensures
            stripped == self.strips(c),
    {
        match self {
            Strip::Whitespace => char_is_whitespace(c),
            Strip::Char(stripped) => c == *stripped,
            Strip::Either(first, second) => c == *first || c == *second,
        }
    }
}

/// `text` without the stripped characters at its start.
pub open spec fn trim_start_by(text: Seq<char>, strip: Strip) -> Seq<char>
    decreases text.len(),
{
    if text.len() > 0 && strip.strips(text[0]) {
        trim_start_by(text.drop_first(), strip)
    } else {
        text
    }
}

/// `text` without the stripped characters at its end.
pub open spec fn trim_end_by(text: Seq<char>, strip: Strip) -> Seq<char>
    decreases text.len(),
{
    if text.len() > 0 && strip.strips(text.last()) {
        trim_end_by(text.drop_last(), strip)
    } else {
        text
    }
}

/// `text` without the stripped characters at both ends.
pub open spec fn trim_by(text: Seq<char>, strip: Strip) -> Seq<char> {
    trim_end_by(trim_start_by(text, strip), strip)
}

/// `text` without white space at both ends.
pub open spec fn trim(text: Seq<char>) -> Seq<char> {
    trim_by(text, Strip::Whitespace)
}

/// `text` without the characters `c` at both ends.
pub open spec fn trim_matches(text: Seq<char>, c: char) -> Seq<char> {
    trim_by(text, Strip::Char(c))
}

/// Stripping at the start leaves the text from the first character that is
/// not stripped.
proof fn lemma_trim_start(text: Seq<char>, strip: Strip, from: int)
    requires
        0 <= from <= text.len(),
        forall|k: int| 0 <= k < from ==> strip.strips(#[trigger] text[k]),
        from == text.len() || !strip.strips(text[from]),
    ensures
        trim_start_by(text, strip) == text.subrange(from, text.len() as int),
    decreases from,
{
    if from == 0 {
        assert(text.subrange(0, text.len() as int) == text);
    } else {
        let rest = text.drop_first();
        assert forall|k: int| 0 <= k < from - 1 implies strip.strips(#[trigger] rest[k]) by {
            assert(rest[k] == text[k + 1]);
        }
        lemma_trim_start(rest, strip, from - 1);
        assert(rest.subrange(from - 1, rest.len() as int) == text.subrange(
            from,
            text.len() as int,
        ));
    }
}

/// Stripping at the end leaves the text up to the last character that is
/// not stripped.
proof fn lemma_trim_end(text: Seq<char>, strip: Strip, to: int)
    requires
        0 <= to <= text.len(),
        forall|k: int| to <= k < text.len() ==> strip.strips(#[trigger] text[k]),
        to == 0 || !strip.strips(text[to - 1]),
    ensures
        trim_end_by(text, strip) == text.subrange(0, to),
    decreases text.len() - to,
{
    if to == text.len() {
        assert(text.subrange(0, to) == text);
    } else {
        let rest = text.drop_last();
        lemma_trim_end(rest, strip, to);
        assert(rest.subrange(0, to) == text.subrange(0, to));
    }
}

/// Strips characters from both ends of `chars`.
pub fn trimmed(chars: &Vec<char>, strip: Strip) -> (out: Vec<char>)
    ensures
        out@ == trim_by(chars@, strip),
{
    let len: usize = chars.len();
    let mut from: usize = 0;
    while from < len && strip.test(chars[from])
        invariant
            from <= len == chars.len(),
            forall|k: int| 0 <= k < from ==> strip.strips(#[trigger] chars@[k]),
        decreases len - from,
    {
        from = from + 1;
    }
    let mut to: usize = len;
    while to > from && strip.test(chars[to - 1])
        invariant
            from <= to <= len == chars.len(),
            forall|k: int| to <= k < len ==> strip.strips(#[trigger] chars@[k]),
        decreases to,
    {
        to = to - 1;
    }
    proof {
        lemma_trim_start(chars@, strip, from as int);
        let rest = chars@.subrange(from as int, len as int);
        assert forall|k: int| to - from <= k < rest.len() implies strip.strips(
            #[trigger] rest[k],
        ) by {
            assert(rest[k] == chars@[from + k]);
        }
        if to > from {
            assert(rest[to - from - 1] == chars@[to - 1]);
        }
        lemma_trim_end(rest, strip, to - from);
        assert(rest.subrange(0, to - from) == chars@.subrange(from as int, to as int));
    }
    slice_of(chars, from, to)
}

/// Whether `text` ends with `suffix`.
pub open spec fn ends_with(text: Seq<char>, suffix: Seq<char>) -> bool {
    suffix.len() <= text.len() && text.subrange(text.len() - suffix.len(), text.len() as int)
        == suffix
}

/// Whether `pattern` stands in `text` at position `at`.
pub open spec fn occurs_at(text: Seq<char>, pattern: Seq<char>, at: int) -> bool {
    0 <= at && at + pattern.len() <= text.len() && text.subrange(at, at + pattern.len())
        == pattern
}

/// The first position at or after `from` where `pattern` stands in `text`.
pub open spec fn find_from(text: Seq<char>, pattern: Seq<char>, from: int) -> Option<int>
    decreases text.len() - from,
{
    if from < 0 || from + pattern.len() > text.len() {
        None
    } else if occurs_at(text, pattern, from) || from == text.len() {
        Some(from)
    } else {
        find_from(text, pattern, from + 1)
    }
}

/// The first position where `pattern` stands in `text`.
pub open spec fn find(text: Seq<char>, pattern: Seq<char>) -> Option<int> {
    find_from(text, pattern, 0)
}

/// Whether `pattern` stands somewhere in `text`.
pub open spec fn contains_text(text: Seq<char>, pattern: Seq<char>) -> bool {
    find(text, pattern) is Some
}

/// Whether `pattern` stands in `chars` at position `at`.
pub fn matches_at(chars: &Vec<char>, pattern: &Vec<char>, at: usize) -> (found: bool)
    ensures
        found == occurs_at(chars@, pattern@, at as int),
{
    if pattern.len() > chars.len() || at > chars.len() - pattern.len() {
        return false;
    }
    let mut i: usize = 0;
    while i < pattern.len()
        invariant
            i <= pattern.len(),
            at + pattern.len() <= chars.len(),
            chars@.subrange(at as int, at + i) == pattern@.subrange(0, i as int),
        decreases pattern.len() - i,
    {
        if chars[at + i] != pattern[i] {
            proof {
                let part = chars@.subrange(at as int, at + pattern.len());
                assert(part[i as int] != pattern@[i as int]);
            }
            return false;
        }
        i = i + 1;
        assert(chars@.subrange(at as int, at + i) == chars@.subrange(at as int, at + i - 1).push(
            chars@[at + i - 1],
        ));
        assert(pattern@.subrange(0, i as int) == pattern@.subrange(0, i - 1).push(
            pattern@[i - 1],
        ));
    }
    assert(pattern@.subrange(0, i as int) == pattern@);
    true
}

/// Finds the first position at or after `from` where `pattern` stands in
/// `chars`.
pub fn find_in(chars: &Vec<char>, pattern: &Vec<char>, from: usize) -> (found: Option<usize>)
    ensures
        match found {
            Some(at) => find_from(chars@, pattern@, from as int) == Some(at as int) && from <= at
                && at + pattern.len() <= chars.len(),
            None => find_from(chars@, pattern@, from as int) is None,
        },
{
    if pattern.len() > chars.len() {
        return None;
    }
    let last: usize = chars.len() - pattern.len();
    let mut at: usize = from;
    while at <= last
        invariant
            from <= at,
            last == chars.len() - pattern.len(),
            find_from(chars@, pattern@, from as int) == find_from(chars@, pattern@, at as int),
        decreases last + 1 - at,
    {
        if matches_at(chars, pattern, at) {
            return Some(at);
        }
        if at == last {
            proof {
                if at == chars.len() {
                    assert(chars@.subrange(at as int, at as int) =~= pattern@);
                }
                assert(find_from(chars@, pattern@, at + 1) is None);
            }
            return None;
        }
        at = at + 1;
    }
    None
}

/// Whether `chars` ends with `suffix`.
pub fn has_suffix(chars: &Vec<char>, suffix: &Vec<char>) -> (found: bool)
    ensures
        found == ends_with(chars@, suffix@),
{
    if suffix.len() > chars.len() {
        false
    } else {
        matches_at(chars, suffix, chars.len() - suffix.len())
    }
}

/// The ASCII letters and digits of `text`, in order.
pub open spec fn alphanumerics(text: Seq<char>) -> Seq<char>
    decreases text.len(),
{
    if text.len() == 0 {
        text
    } else if is_alphanumeric(text.last()) {
        alphanumerics(text.drop_last()).push(text.last())
    } else {
        alphanumerics(text.drop_last())
    }
}

/// Keeps the ASCII letters and digits of `chars`.
pub fn keep_alphanumerics(chars: &Vec<char>) -> (kept: Vec<char>)
    ensures
        kept@ == alphanumerics(chars@),
{
    let mut kept: Vec<char> = Vec::new();
    let mut i: usize = 0;
    while i < chars.len()
        invariant
            i <= chars.len(),
            kept@ == alphanumerics(chars@.subrange(0, i as int)),
        decreases chars.len() - i,
    {
        if char_is_alphanumeric(chars[i]) {
            kept.push(chars[i]);
        }
        i = i + 1;
        assert(chars@.subrange(0, i as int).drop_last() == chars@.subrange(0, i - 1));
    }
    assert(chars@.subrange(0, i as int) == chars@);
    kept
}

/// Content of a list of texts held as characters.
pub open spec fn lists_view(list: Seq<Vec<char>>) -> Seq<Seq<char>> {
    Seq::new(list.len(), |i: int| list[i]@)
}

/// Content of a list of texts.
pub open spec fn strings_view(list: Seq<String>) -> Seq<Seq<char>> {
    Seq::new(list.len(), |i: int| list[i]@)
}

/// Content of an optional text.
pub open spec fn opt_string_view(text: Option<String>) -> Option<Seq<char>> {
    match text {
        Some(text) => Some(text@),
        None => None,
    }
}

/// Content of an optional borrowed text.
pub open spec fn opt_str_view(text: Option<&str>) -> Option<Seq<char>> {
    match text {
        Some(text) => Some(text@),
        None => None,
    }
}

/// Turns a list of texts held as characters into strings.
pub fn strings_of(list: &Vec<Vec<char>>) -> (texts: Vec<String>)
    ensures
        strings_view(texts@) == lists_view(list@),
{
    let mut texts: Vec<String> = Vec::new();
    let mut i: usize = 0;
    while i < list.len()
        invariant
            i <= list.len(),
            texts.len() == i,
            strings_view(texts@) == lists_view(list@.subrange(0, i as int)),
        decreases list.len() - i,
    {
        let ghost before = texts@;
        texts.push(string_of(&list[i]));
        i = i + 1;
        assert forall|k: int| 0 <= k < i implies strings_view(texts@)[k] == lists_view(
            list@.subrange(0, i as int),
        )[k] by {
            if k < i - 1 {
                assert(strings_view(before)[k] == lists_view(list@.subrange(0, i - 1))[k]);
            }
        }
        assert(strings_view(texts@) =~= lists_view(list@.subrange(0, i as int)));
    }
    assert(list@.subrange(0, i as int) == list@);
    texts
}

/// `done` with the piece `current` added, unless the piece is empty.
pub open spec fn add_piece(done: Seq<Seq<char>>, current: Seq<char>) -> Seq<Seq<char>> {
    if current.len() > 0 {
        done.push(current)
    } else {
        done
    }
}

/// The pieces of `text` that are complete, and the piece that its end is
/// in, when the stripped characters separate the pieces.
pub open spec fn scan_pieces(text: Seq<char>, strip: Strip) -> (Seq<Seq<char>>, Seq<char>)
    decreases text.len(),
{
    if text.len() == 0 {
        (Seq::empty(), Seq::empty())
    } else {
        let (done, current) = scan_pieces(text.drop_last(), strip);
        if strip.strips(text.last()) {
            (add_piece(done, current), Seq::empty())
        } else {
            (done, current.push(text.last()))
        }
    }
}

/// The pieces of `text` between stripped characters: the longest runs of
/// characters that are not stripped, in order.
pub open spec fn pieces(text: Seq<char>, strip: Strip) -> Seq<Seq<char>> {
    add_piece(scan_pieces(text, strip).0, scan_pieces(text, strip).1)
}

/// The words of `text`: its pieces between white space.
pub open spec fn words(text: Seq<char>) -> Seq<Seq<char>> {
    pieces(text, Strip::Whitespace)
}

/// Adds the piece `current` to `done`, unless it is empty.
fn push_piece(done: &mut Vec<Vec<char>>, current: Vec<char>)
    ensures
        lists_view(final(done)@) == add_piece(lists_view(old(done)@), current@),
{
    if current.len() > 0 {
        done.push(current);
        assert(lists_view(done@) =~= lists_view(old(done)@).push(current@));
    }
}

/// Splits `chars` into its pieces between stripped characters.
pub fn split_pieces(chars: &Vec<char>, strip: Strip) -> (out: Vec<Vec<char>>)
    ensures
        lists_view(out@) == pieces(chars@, strip),
{
    let mut done: Vec<Vec<char>> = Vec::new();
    let mut current: Vec<char> = Vec::new();
    let mut i: usize = 0;
    assert(lists_view(done@) =~= Seq::<Seq<char>>::empty());
    while i < chars.len()
        invariant
            i <= chars.len(),
            (lists_view(done@), current@) == scan_pieces(chars@.subrange(0, i as int), strip),
        decreases chars.len() - i,
    {
        let c = chars[i];
        if strip.test(c) {
            push_piece(&mut done, current);
            current = Vec::new();
        } else {
            current.push(c);
        }
        i = i + 1;
        assert(chars@.subrange(0, i as int).drop_last() == chars@.subrange(0, i - 1));
    }
    assert(chars@.subrange(0, i as int) == chars@);
    push_piece(&mut done, current);
    done
}

} // verus!
