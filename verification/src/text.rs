//! Text primitives: characters, trimming, comparison and joining.
//!
//! A string is modelled by the sequence of its characters.
use vstd::prelude::*;
use vstd::string::*;

verus! {

/// Characters with the Unicode property `White_Space`.
pub open spec fn is_white_space(c: char) -> bool {
    ||| '\u{9}' <= c <= '\u{d}'
    ||| c == '\u{20}'
    ||| c == '\u{85}'
    ||| c == '\u{a0}'
    ||| c == '\u{1680}'
    ||| '\u{2000}' <= c <= '\u{200a}'
    ||| c == '\u{2028}'
    ||| c == '\u{2029}'
    ||| c == '\u{202f}'
    ||| c == '\u{205f}'
    ||| c == '\u{3000}'
}

/// `s` without its leading white space.
pub open spec fn trimmed_start(s: Seq<char>) -> Seq<char>
    decreases s.len(),
{
    if s.len() > 0 && is_white_space(s[0]) {
        trimmed_start(s.subrange(1, s.len() as int))
    } else {
        s
    }
}

/// `s` without its trailing white space.
pub open spec fn trimmed_end(s: Seq<char>) -> Seq<char>
    decreases s.len(),
{
    if s.len() > 0 && is_white_space(s.last()) {
        trimmed_end(s.drop_last())
    } else {
        s
    }
}

/// `s` without leading and trailing white space.
pub open spec fn trimmed(s: Seq<char>) -> Seq<char> {
    trimmed_end(trimmed_start(s))
}

/// Nothing but white space.
pub open spec fn is_blank(s: Seq<char>) -> bool {
    forall|i: int| 0 <= i < s.len() ==> is_white_space(#[trigger] s[i])
}

/// ASCII upper case letters become lower case; every other character stays.
pub open spec fn ascii_lower_char(c: char) -> char {
    if 'A' <= c <= 'Z' {
        ((c as u32) + 32) as char
    } else {
        c
    }
}

/// A text with its ASCII letters in lower case.
pub open spec fn ascii_lower(s: Seq<char>) -> Seq<char> {
    Seq::new(s.len(), |i: int| ascii_lower_char(s[i]))
}

/// The texts that a sequence of strings holds.
pub open spec fn texts(list: Seq<String>) -> Seq<Seq<char>> {
    Seq::new(list.len(), |i: int| list[i]@)
}

/// The text of an optional string.
pub open spec fn opt_text(value: Option<String>) -> Option<Seq<char>> {
    match value {
        Some(s) => Some(s@),
        None => None,
    }
}

/// The trimmed text of an optional string, where it is not blank.
pub open spec fn content(value: Option<String>) -> Option<Seq<char>> {
    match value {
        Some(s) => if is_blank(s@) {
            None
        } else {
            Some(trimmed(s@))
        },
        None => None,
    }
}

/// `String::push`: the character follows the text.
pub assume_specification[ String::push ](s: &mut String, c: char)
    ensures
        final(s)@ == old(s)@.push(c),
;

/// Whether a character is white space.
pub fn white_space(c: char) -> (r: bool)
    ensures
        r == is_white_space(c),
{
    ('\u{9}' <= c && c <= '\u{d}') || c == '\u{20}' || c == '\u{85}' || c == '\u{a0}'
        || c == '\u{1680}' || ('\u{2000}' <= c && c <= '\u{200a}') || c == '\u{2028}'
        || c == '\u{2029}' || c == '\u{202f}' || c == '\u{205f}' || c == '\u{3000}'
}

/// The characters of a string.
pub fn chars_of(s: &str) -> (r: Vec<char>)
    ensures
        r@ == s@,
{
    let mut out: Vec<char> = Vec::new();
    for c in it: s.chars()
        invariant
            it.seq() == s@,
            out@ == s@.subrange(0, it.index() as int),
    {
        out.push(c);
    }
    out
}

/// `s` without its leading white space.
pub fn trim_start(s: &str) -> (r: &str)
    ensures
        r@ == trimmed_start(s@),
{
    let cs = chars_of(s);
    let n: usize = cs.len();
    let mut from: usize = 0;
    assert(s@.subrange(0, n as int) =~= s@);
    while from < n && white_space(cs[from])
        invariant
            cs@ == s@,
            n == s@.len(),
            from <= n,
            trimmed_start(s@) == trimmed_start(s@.subrange(from as int, n as int)),
        decreases n - from,
    {
        assert(s@.subrange(from as int, n as int).subrange(1, n - from) =~= s@.subrange(
            from + 1,
            n as int,
        ));
        from = from + 1;
    }
    s.substring_char(from, n)
}

/// `s` without leading and trailing white space.
pub fn trim(s: &str) -> (r: &str)
    ensures
        r@ == trimmed(s@),
{
    let t = trim_start(s);
    let cs = chars_of(t);
    let mut to: usize = cs.len();
    assert(t@.subrange(0, to as int) =~= t@);
    while to > 0 && white_space(cs[to - 1])
        invariant
            cs@ == t@,
            to <= t@.len(),
            trimmed_end(t@) == trimmed_end(t@.subrange(0, to as int)),
        decreases to,
    {
        assert(t@.subrange(0, to as int).drop_last() =~= t@.subrange(0, to - 1));
        to = to - 1;
    }
    t.substring_char(0, to)
}

/// How many characters of `s` come before its first white space.
pub open spec fn word_length(s: Seq<char>) -> int
    decreases s.len(),
{
    if s.len() == 0 || is_white_space(s[0]) {
        0
    } else {
        1 + word_length(s.subrange(1, s.len() as int))
    }
}

/// The first word of `s`, words being parted by white space; empty where there is none.
pub open spec fn first_word(s: Seq<char>) -> Seq<char> {
    let t = trimmed_start(s);
    t.subrange(0, word_length(t))
}

/// What follows the first word of `s`.
pub open spec fn after_first_word(s: Seq<char>) -> Seq<char> {
    let t = trimmed_start(s);
    t.subrange(word_length(t), t.len() as int)
}

/// The first word of `s`, and what follows it.
pub fn split_first_word(s: &str) -> (r: (&str, &str))
    ensures
        r.0@ == first_word(s@),
        r.1@ == after_first_word(s@),
{
    let t = trim_start(s);
    let cs = chars_of(t);
    let n: usize = cs.len();
    let mut i: usize = 0;
    assert(t@.subrange(0, n as int) =~= t@);
    while i < n && !white_space(cs[i])
        invariant
            cs@ == t@,
            n == t@.len(),
            i <= n,
            word_length(t@) == i + word_length(t@.subrange(i as int, n as int)),
        decreases n - i,
    {
        let ghost rest = t@.subrange(i as int, n as int);
        assert(rest.subrange(1, rest.len() as int) =~= t@.subrange(i + 1, n as int));
        i = i + 1;
    }
    (t.substring_char(0, i), t.substring_char(i, n))
}

/// A text is blank exactly when trimming leaves nothing.
pub proof fn lemma_blank_iff_trimmed_empty(s: Seq<char>)
    ensures
        is_blank(s) <==> trimmed(s).len() == 0,
    decreases s.len(),
{
    if s.len() > 0 && is_white_space(s[0]) {
        let rest = s.subrange(1, s.len() as int);
        lemma_blank_iff_trimmed_empty(rest);
        if is_blank(s) {
            assert forall|i: int| 0 <= i < rest.len() implies is_white_space(#[trigger] rest[i]) by {
                assert(rest[i] == s[i + 1]);
            }
        }
        if is_blank(rest) {
            assert forall|i: int| 0 <= i < s.len() implies is_white_space(#[trigger] s[i]) by {
                if i > 0 {
                    assert(rest[i - 1] == s[i]);
                }
            }
        }
    } else if s.len() > 0 {
        lemma_trimmed_end_keeps_first(s);
        assert(!is_white_space(s[0]));
    }
}

proof fn lemma_trimmed_end_keeps_first(s: Seq<char>)
    requires
        s.len() > 0,
        !is_white_space(s[0]),
    ensures
        trimmed_end(s).len() > 0,
    decreases s.len(),
{
    if is_white_space(s.last()) {
        assert(s.drop_last()[0] == s[0]);
        lemma_trimmed_end_keeps_first(s.drop_last());
    }
}

/// A trimmed text does not start with white space.
proof fn lemma_trimmed_head(s: Seq<char>)
    ensures
        trimmed(s).len() > 0 ==> !is_white_space(trimmed(s)[0]),
{
    lemma_trimmed_start_head(s);
    lemma_trimmed_end_is_prefix(trimmed_start(s));
}

proof fn lemma_trimmed_start_head(s: Seq<char>)
    ensures
        trimmed_start(s).len() > 0 ==> !is_white_space(trimmed_start(s)[0]),
    decreases s.len(),
{
    if s.len() > 0 && is_white_space(s[0]) {
        lemma_trimmed_start_head(s.subrange(1, s.len() as int));
    }
}

proof fn lemma_trimmed_end_is_prefix(s: Seq<char>)
    ensures
        trimmed_end(s).len() <= s.len(),
        trimmed_end(s) == s.subrange(0, trimmed_end(s).len() as int),
    decreases s.len(),
{
    if s.len() > 0 && is_white_space(s.last()) {
        lemma_trimmed_end_is_prefix(s.drop_last());
    }
}

/// The content of a setting is never blank.
pub proof fn lemma_content_is_not_blank(value: Option<String>)
    ensures
        content(value) matches Some(s) ==> !is_blank(s),
{
    if let Some(v) = value {
        lemma_blank_iff_trimmed_empty(v@);
        lemma_trimmed_head(v@);
        if !is_blank(v@) {
            assert(is_blank(trimmed(v@)) ==> is_white_space(trimmed(v@)[0]));
        }
    }
}

/// Nothing but white space.
pub fn blank(s: &str) -> (r: bool)
    ensures
        r == is_blank(s@),
        r == (trimmed(s@).len() == 0),
{
    proof {
        lemma_blank_iff_trimmed_empty(s@);
    }
    trim(s).is_empty()
}

/// The trimmed text of an optional string, where it is not blank.
pub fn content_of(value: &Option<String>) -> (r: Option<&str>)
    ensures
        match r {
            Some(s) => content(*value) == Some(s@),
            None => content(*value) is None,
        },
{
    match value {
        Some(s) => if blank(s.as_str()) {
            None
        } else {
            Some(trim(s.as_str()))
        },
        None => None,
    }
}

/// The same text.
pub fn same(a: &str, b: &str) -> (r: bool)
    ensures
        r == (a@ == b@),
{
    a.to_owned() == b.to_owned()
}

/// ASCII letters in lower case.
pub fn lower(s: &str) -> (r: String)
    ensures
        r@ == ascii_lower(s@),
{
    let mut out = String::new();
    for c in it: s.chars()
        invariant
            it.seq() == s@,
            out@ == ascii_lower(s@.subrange(0, it.index() as int)),
    {
        let l: char = if 'A' <= c && c <= 'Z' {
            (c as u8 + 32) as char
        } else {
            c
        };
        out.push(l);
    }
    out
}

/// The same text, ASCII letters of either case being the same.
pub fn same_ignoring_case(a: &str, b: &str) -> (r: bool)
    ensures
        r == (ascii_lower(a@) == ascii_lower(b@)),
{
    lower(a) == lower(b)
}

/// Whether `s` starts with `prefix`.
pub fn starts_with(s: &str, prefix: &str) -> (r: bool)
    ensures
        r == prefix@.is_prefix_of(s@),
{
    let n: usize = prefix.unicode_len();
    if s.unicode_len() < n {
        return false;
    }
    same(s.substring_char(0, n), prefix)
}

/// Whether `s` ends with `suffix`.
pub fn ends_with(s: &str, suffix: &str) -> (r: bool)
    ensures
        r == suffix@.is_suffix_of(s@),
{
    let n: usize = suffix.unicode_len();
    let len: usize = s.unicode_len();
    if len < n {
        return false;
    }
    same(s.substring_char(len - n, len), suffix)
}

/// `s` without its trailing slashes.
pub open spec fn without_trailing_slashes(s: Seq<char>) -> Seq<char>
    decreases s.len(),
{
    if s.len() > 0 && s.last() == '/' {
        without_trailing_slashes(s.drop_last())
    } else {
        s
    }
}

/// `s` without its trailing slashes.
pub fn trim_trailing_slashes(s: &str) -> (r: &str)
    ensures
        r@ == without_trailing_slashes(s@),
{
    let cs = chars_of(s);
    let mut to: usize = cs.len();
    assert(s@.subrange(0, to as int) =~= s@);
    while to > 0 && cs[to - 1] == '/'
        invariant
            cs@ == s@,
            to <= s@.len(),
            without_trailing_slashes(s@) == without_trailing_slashes(s@.subrange(0, to as int)),
        decreases to,
    {
        assert(s@.subrange(0, to as int).drop_last() =~= s@.subrange(0, to - 1));
        to = to - 1;
    }
    s.substring_char(0, to)
}

/// The position of the first `c` in `s`, or the length of `s` where there is none.
pub open spec fn first_position(s: Seq<char>, c: char) -> int
    decreases s.len(),
{
    if s.len() == 0 || s[0] == c {
        0
    } else {
        1 + first_position(s.subrange(1, s.len() as int), c)
    }
}

/// The position of the first `c` in `s`, or the length of `s` where there is none.
pub fn find_char(s: &str, c: char) -> (r: usize)
    ensures
        r == first_position(s@, c),
        r <= s@.len(),
        r < s@.len() ==> s@[r as int] == c,
        forall|j: int| 0 <= j < r ==> s@[j] != c,
{
    let cs = chars_of(s);
    let mut i: usize = 0;
    assert(s@.subrange(0, s@.len() as int) =~= s@);
    while i < cs.len() && cs[i] != c
        invariant
            cs@ == s@,
            i <= cs@.len(),
            first_position(s@, c) == i + first_position(s@.subrange(i as int, s@.len() as int), c),
            forall|j: int| 0 <= j < i ==> s@[j] != c,
        decreases cs@.len() - i,
    {
        let ghost rest = s@.subrange(i as int, s@.len() as int);
        assert(rest.subrange(1, rest.len() as int) =~= s@.subrange(i + 1, s@.len() as int));
        i = i + 1;
    }
    i
}

/// `a` followed by `b`.
pub fn join(a: &str, b: &str) -> (r: String)
    ensures
        r@ == a@ + b@,
{
    let mut out = a.to_owned();
    out.append(b);
    out
}

/// The trimmed text of an optional string, or another one where it is missing or blank.
pub open spec fn content_or(value: Option<String>, default: Seq<char>) -> Seq<char> {
    match content(value) {
        Some(s) => s,
        None => default,
    }
}

/// Appends a text to a list of strings.
pub fn push_text(list: &mut Vec<String>, t: &str)
    ensures
        texts(final(list)@) == texts(old(list)@).push(t@),
{
    list.push(t.to_owned());
    assert(texts(list@) =~= texts(old(list)@).push(t@));
}

/// The text of an optional string, or another one where there is none.
pub open spec fn text_or(value: Option<String>, default: Seq<char>) -> Seq<char> {
    match value {
        Some(s) => s@,
        None => default,
    }
}

/// An optional string, or another one where there is none.
pub fn given_or(value: Option<String>, default: &str) -> (r: String)
    ensures
        r@ == text_or(value, default@),
{
    match value {
        Some(s) => s,
        None => default.to_owned(),
    }
}

/// The text that `String::from_utf8_lossy` reads from bytes.
pub uninterp spec fn lossy_text(bytes: Seq<u8>) -> Seq<char>;

/// `String::from_utf8_lossy`: the text that the bytes encode. Where they are no UTF-8, replacement
/// characters stand for what could not be read.
#[verifier::external_body]
pub(crate) fn read_lossy(bytes: &[u8]) -> (r: String)
    ensures
        r@ == lossy_text(bytes@),
        vstd::utf8::valid_utf8(bytes@) ==> r@ == vstd::utf8::decode_utf8(bytes@),
{
    String::from_utf8_lossy(bytes).into_owned()
}

/// Trimming cuts white space off both ends and nothing else: what is left is a part of the text
/// with nothing but white space around it, and neither starts nor ends with white space.
pub proof fn law_trimming_cuts_white_space_only(s: Seq<char>)
    ensures
        exists|from: int, to: int|
            {
                &&& 0 <= from <= to <= s.len()
                &&& trimmed(s) == #[trigger] s.subrange(from, to)
                &&& forall|i: int| 0 <= i < from ==> is_white_space(#[trigger] s[i])
                &&& forall|i: int| to <= i < s.len() ==> is_white_space(#[trigger] s[i])
            },
        trimmed(s).len() > 0 ==> !is_white_space(trimmed(s)[0]) && !is_white_space(
            trimmed(s).last(),
        ),
{
    let t = trimmed_start(s);
    let from = lemma_trimmed_start_is_suffix(s);
    lemma_trimmed_head(s);
    lemma_trimmed_end_is_prefix(t);
    lemma_trimmed_end_cuts_white_space(t);
    let to = from + trimmed_end(t).len();
    assert(trimmed(s) =~= s.subrange(from, to));
    assert forall|i: int| to <= i < s.len() implies is_white_space(#[trigger] s[i]) by {
        assert(s[i] == t[i - from]);
    }
}

proof fn lemma_trimmed_start_is_suffix(s: Seq<char>) -> (from: int)
    ensures
        0 <= from <= s.len(),
        trimmed_start(s) == s.subrange(from, s.len() as int),
        forall|i: int| 0 <= i < from ==> is_white_space(#[trigger] s[i]),
    decreases s.len(),
{
    if s.len() > 0 && is_white_space(s[0]) {
        let rest = s.subrange(1, s.len() as int);
        let inner = lemma_trimmed_start_is_suffix(rest);
        assert(rest.subrange(inner, rest.len() as int) =~= s.subrange(inner + 1, s.len() as int));
        assert forall|i: int| 0 <= i < inner + 1 implies is_white_space(#[trigger] s[i]) by {
            if i > 0 {
                assert(rest[i - 1] == s[i]);
            }
        }
        inner + 1
    } else {
        assert(s.subrange(0, s.len() as int) =~= s);
        0
    }
}

proof fn lemma_trimmed_end_cuts_white_space(s: Seq<char>)
    ensures
        trimmed_end(s).len() <= s.len(),
        trimmed_end(s).len() > 0 ==> !is_white_space(trimmed_end(s).last()),
        forall|i: int| trimmed_end(s).len() <= i < s.len() ==> is_white_space(#[trigger] s[i]),
    decreases s.len(),
{
    if s.len() > 0 && is_white_space(s.last()) {
        lemma_trimmed_end_cuts_white_space(s.drop_last());
        assert forall|i: int| trimmed_end(s).len() <= i < s.len() implies is_white_space(
            #[trigger] s[i],
        ) by {
            if i < s.len() - 1 {
                assert(s.drop_last()[i] == s[i]);
            }
        }
    }
}

/// A setting has content exactly where it is given and holds a character that is not white space.
pub proof fn law_content_needs_a_visible_character(value: Option<String>)
    ensures
        content(value) is Some <==> (value matches Some(s) && exists|i: int|
            0 <= i < s@.len() && !is_white_space(#[trigger] s@[i])),
        content(value) matches Some(c) ==> c == trimmed(value->0@),
{
}

/// What is left without trailing slashes ends in none, and only slashes were cut off.
pub proof fn law_only_trailing_slashes_are_cut(s: Seq<char>)
    ensures
        without_trailing_slashes(s).len() <= s.len(),
        without_trailing_slashes(s) == s.subrange(0, without_trailing_slashes(s).len() as int),
        without_trailing_slashes(s).len() > 0 ==> without_trailing_slashes(s).last() != '/',
        forall|i: int|
            without_trailing_slashes(s).len() <= i < s.len() ==> #[trigger] s[i] == '/',
    decreases s.len(),
{
    if s.len() > 0 && s.last() == '/' {
        let front = s.drop_last();
        law_only_trailing_slashes_are_cut(front);
        assert(front.subrange(0, without_trailing_slashes(front).len() as int) =~= s.subrange(
            0,
            without_trailing_slashes(front).len() as int,
        ));
        assert forall|i: int|
            without_trailing_slashes(s).len() <= i < s.len() implies #[trigger] s[i] == '/' by {
            if i < s.len() - 1 {
                assert(front[i] == s[i]);
            }
        }
    } else {
        assert(s.subrange(0, s.len() as int) =~= s);
    }
}

/// Lower case differs from a text in its ASCII capitals alone, each of which becomes its small
/// letter.
pub proof fn law_lower_case_changes_capitals_only(s: Seq<char>, i: int)
    requires
        0 <= i < s.len(),
    ensures
        ascii_lower(s).len() == s.len(),
        'A' <= s[i] <= 'Z' ==> ascii_lower(s)[i] as int == s[i] as int + 32,
        !('A' <= s[i] <= 'Z') ==> ascii_lower(s)[i] == s[i],
{
}

/// The first word of a text is the part between the leading white space and the next one.
pub proof fn law_first_word_is_parted_by_white_space(
    lead: Seq<char>,
    word: Seq<char>,
    tail: Seq<char>,
)
    requires
        is_blank(lead),
        forall|i: int| 0 <= i < word.len() ==> !is_white_space(#[trigger] word[i]),
        word.len() > 0,
        tail.len() > 0 ==> is_white_space(tail[0]),
    ensures
        first_word(lead + word + tail) == word,
        after_first_word(lead + word + tail) == tail,
{
    let s = lead + word + tail;
    lemma_blank_lead_is_trimmed(lead, word + tail);
    assert(lead + (word + tail) =~= s);
    assert((word + tail)[0] == word[0]);
    lemma_word_length(word, tail);
    assert((word + tail).subrange(0, word.len() as int) =~= word);
    assert((word + tail).subrange(word.len() as int, (word + tail).len() as int) =~= tail);
}

/// A blank text has no word.
pub proof fn law_blank_text_has_no_word(s: Seq<char>)
    requires
        is_blank(s),
    ensures
        first_word(s) == Seq::<char>::empty(),
        after_first_word(s) == Seq::<char>::empty(),
{
    lemma_blank_lead_is_trimmed(s, seq![]);
    assert(s + Seq::<char>::empty() =~= s);
    assert(trimmed_start(s) =~= seq![]);
}

proof fn lemma_blank_lead_is_trimmed(lead: Seq<char>, rest: Seq<char>)
    requires
        is_blank(lead),
        rest.len() > 0 ==> !is_white_space(rest[0]),
    ensures
        trimmed_start(lead + rest) == rest,
    decreases lead.len(),
{
    let s = lead + rest;
    if lead.len() > 0 {
        let shorter = lead.subrange(1, lead.len() as int);
        assert forall|i: int| 0 <= i < shorter.len() implies is_white_space(
            #[trigger] shorter[i],
        ) by {
            assert(shorter[i] == lead[i + 1]);
        }
        lemma_blank_lead_is_trimmed(shorter, rest);
        assert(s[0] == lead[0]);
        assert(s.subrange(1, s.len() as int) =~= shorter + rest);
    } else {
        assert(s =~= rest);
    }
}

proof fn lemma_word_length(word: Seq<char>, tail: Seq<char>)
    requires
        forall|i: int| 0 <= i < word.len() ==> !is_white_space(#[trigger] word[i]),
        tail.len() > 0 ==> is_white_space(tail[0]),
    ensures
        word_length(word + tail) == word.len(),
    decreases word.len(),
{
    let s = word + tail;
    if word.len() > 0 {
        let shorter = word.subrange(1, word.len() as int);
        assert forall|i: int| 0 <= i < shorter.len() implies !is_white_space(
            #[trigger] shorter[i],
        ) by {
            assert(shorter[i] == word[i + 1]);
        }
        lemma_word_length(shorter, tail);
        assert(s[0] == word[0]);
        assert(s.subrange(1, s.len() as int) =~= shorter + tail);
    } else {
        assert(s =~= tail);
    }
}

/// Twenty-five characters are white space: in ASCII the tab, the four that break a line or page,
/// and the space; beyond it nineteen more, none of them past the ideographic space.
pub proof fn law_white_space(c: char)
    ensures
        c as int <= 0x7f ==> (is_white_space(c) <==> 9 <= c as int <= 13 || c as int == 32),
        0x80 <= c as int <= 0x1fff ==> (is_white_space(c) <==> c as int == 0x85 || c as int == 0xa0
            || c as int == 0x1680),
        0x2000 <= c as int <= 0x206f ==> (is_white_space(c) <==> c as int <= 0x200a || c as int
            == 0x2028 || c as int == 0x2029 || c as int == 0x202f || c as int == 0x205f),
        0x2070 <= c as int ==> (is_white_space(c) <==> c as int == 0x3000),
{
}

/// A text that is given counts as it is, blank or not; content counts without its surroundings, and
/// where there is none the default does.
pub proof fn law_what_is_given_counts(given: String, default: Seq<char>)
    ensures
        text_or(Some(given), default) == given@,
        text_or(None, default) == default,
        is_blank(given@) ==> content_or(Some(given), default) == default,
        !is_blank(given@) ==> content_or(Some(given), default) == trimmed(given@),
        content_or(None, default) == default,
{
}

} // verus!
