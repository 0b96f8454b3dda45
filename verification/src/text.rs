//! Small operations on text that the request builders share.

use regex::Regex;
use vstd::prelude::*;
use vstd::utf8::{decode_utf8, valid_utf8};

verus! {

/// The regular expression that matches a run of whitespace.
pub const WHITESPACE_RUN: &'static str = "\\s+";

/// What a run of whitespace is replaced by.
pub const SINGLE_SPACE: &'static str = " ";

/// Whether `c` is whitespace: a character with the Unicode property
/// `White_Space`.
pub open spec fn is_whitespace(c: char) -> bool {
    let code = c as u32;
    ||| 0x09 <= code <= 0x0D
    ||| code == 0x20
    ||| code == 0x85
    ||| code == 0xA0
    ||| code == 0x1680
    ||| 0x2000 <= code <= 0x200A
    ||| code == 0x2028
    ||| code == 0x2029
    ||| code == 0x202F
    ||| code == 0x205F
    ||| code == 0x3000
}

/// `text` with every maximal run of whitespace replaced by one space. Each
/// other character stays where it is; of a run, only its first character
/// leaves a space behind.
pub open spec fn collapse_whitespace(text: Seq<char>) -> Seq<char>
    decreases text.len(),
{
    if text.len() == 0 {
        text
    } else {
        let before = collapse_whitespace(text.drop_last());
        if !is_whitespace(text.last()) {
            before.push(text.last())
        } else if text.len() >= 2 && is_whitespace(text[text.len() - 2]) {
            before
        } else {
            before.push(' ')
        }
    }
}

/// Whether every whitespace character of `text` is a space that no other
/// whitespace follows.
pub open spec fn is_single_spaced(text: Seq<char>) -> bool {
    forall|i: int|
        0 <= i < text.len() && is_whitespace(#[trigger] text[i]) ==> text[i] == ' ' && (i + 1
            < text.len() ==> !is_whitespace(text[i + 1]))
}

/// Calls `regex::Regex::new` to compile `pattern`, then
/// `regex::Regex::replace_all` to replace every match in `haystack` by
/// `replacement`. Trusted, for the one pattern and replacement that
/// `requires` admits: `\s` matches the characters of `White_Space`, `+` is
/// greedy, matches are found from left to right without overlap, and a
/// replacement without `$` is inserted as it stands. So every maximal run of
/// whitespace is replaced by one space.
#[verifier::external_body]
fn regex_replace_all(pattern: &str, haystack: &str, replacement: &str) -> (replaced: String)
    requires
        pattern@ == WHITESPACE_RUN@,
        replacement@ == SINGLE_SPACE@,
    ensures
        replaced@ == collapse_whitespace(haystack@),
{
    Regex::new(pattern).unwrap().replace_all(haystack, replacement).into_owned()
}

/// `soql` with every run of whitespace collapsed to one space, so that a
/// query written over several lines is sent as one line.
pub fn normalize_soql(soql: &str) -> (normalized: String)
    ensures
        normalized@ == collapse_whitespace(soql@),
        is_single_spaced(normalized@),
{
    proof {
        lemma_collapsed_is_single_spaced(soql@);
    }
    regex_replace_all(WHITESPACE_RUN, soql, SINGLE_SPACE)
}

/// The last character of a collapsed text is whitespace exactly when the
/// last character of the text is.
proof fn lemma_collapsed_ends_alike(text: Seq<char>)
    requires
        text.len() > 0,
    ensures
        collapse_whitespace(text).len() > 0,
        is_whitespace(collapse_whitespace(text).last()) == is_whitespace(text.last()),
    decreases text.len(),
{
    if is_whitespace(text.last()) && text.len() >= 2 && is_whitespace(text[text.len() - 2]) {
        lemma_collapsed_ends_alike(text.drop_last());
    }
}

/// Collapsing leaves no whitespace but single spaces.
pub proof fn lemma_collapsed_is_single_spaced(text: Seq<char>)
    ensures
        is_single_spaced(collapse_whitespace(text)),
    decreases text.len(),
{
    if text.len() > 0 {
        lemma_collapsed_is_single_spaced(text.drop_last());
        if text.len() >= 2 {
            lemma_collapsed_ends_alike(text.drop_last());
        }
    }
}

/// Collapsing a text that is single-spaced already changes nothing.
pub proof fn lemma_single_spaced_is_unchanged(text: Seq<char>)
    requires
        is_single_spaced(text),
    ensures
        collapse_whitespace(text) == text,
    decreases text.len(),
{
    if text.len() > 0 {
        let front = text.drop_last();
        assert forall|i: int|
            0 <= i < front.len() && is_whitespace(#[trigger] front[i]) implies front[i] == ' '
            && (i + 1 < front.len() ==> !is_whitespace(front[i + 1])) by {
            assert(front[i] == text[i]);
            if i + 1 < front.len() {
                assert(front[i + 1] == text[i + 1]);
            }
        }
        lemma_single_spaced_is_unchanged(front);
        if text.len() >= 2 && is_whitespace(text[text.len() - 2]) {
            assert(!is_whitespace(text[text.len() - 2 + 1]));
        }
        assert(collapse_whitespace(text) =~= text);
    }
}

/// Collapsing twice is collapsing once.
pub proof fn lemma_collapse_is_idempotent(text: Seq<char>)
    ensures
        collapse_whitespace(collapse_whitespace(text)) == collapse_whitespace(text),
{
    lemma_collapsed_is_single_spaced(text);
    lemma_single_spaced_is_unchanged(collapse_whitespace(text));
}

/// A collapsed text whose spaces are written as plus signs holds no
/// whitespace at all.
pub proof fn lemma_encoded_text_has_no_whitespace(text: Seq<char>)
    ensures
        forall|i: int|
            0 <= i < spec_spaces_to_plus(collapse_whitespace(text)).len() ==> !is_whitespace(
                #[trigger] spec_spaces_to_plus(collapse_whitespace(text))[i],
            ),
{
    let collapsed = collapse_whitespace(text);
    lemma_collapsed_is_single_spaced(text);
    assert forall|i: int| 0 <= i < spec_spaces_to_plus(collapsed).len() implies !is_whitespace(
        #[trigger] spec_spaces_to_plus(collapsed)[i],
    ) by {
        if is_whitespace(collapsed[i]) {
            assert(collapsed[i] == ' ');
        }
    }
}

/// The text that `String::from_utf8_lossy` reads `bytes` as.
pub uninterp spec fn lossy_text(bytes: Seq<u8>) -> Seq<char>;

/// Calls `String::from_utf8_lossy` to read `bytes` as text. Trusted: the
/// text depends on the bytes alone, and bytes that are valid UTF-8 are read
/// as the characters they encode. What stands in place of a byte that is not
/// valid is not stated.
#[verifier::external_body]
pub(crate) fn read_lossy(bytes: &[u8]) -> (text: String)
    ensures
        text@ == lossy_text(bytes@),
        valid_utf8(bytes@) ==> text@ == decode_utf8(bytes@),
{
    String::from_utf8_lossy(bytes).into_owned()
}

/// Calls `String::push`. Trusted: the character is appended and nothing else
/// changes.
#[verifier::external_body]
pub(crate) fn push_char(text: &mut String, c: char)
    ensures
        final(text)@ == old(text)@.push(c),
{
    text.push(c)
}

/// `query` with every space replaced by a plus sign.
pub open spec fn spec_spaces_to_plus(query: Seq<char>) -> Seq<char> {
    Seq::new(query.len(), |i: int| if query[i] == ' ' { '+' } else { query[i] })
}

/// Replaces every space of `query` by a plus sign.
pub fn spaces_to_plus(query: &str) -> (encoded: String)
    ensures
        encoded@ == spec_spaces_to_plus(query@),
{
    let mut encoded = String::new();
    for c in it: query.chars()
        invariant
            it.seq() == query@,
            encoded@ == spec_spaces_to_plus(query@).take(it.index() as int),
    {
        if c == ' ' {
            push_char(&mut encoded, '+');
        } else {
            push_char(&mut encoded, c);
        }
    }
    encoded
}

/// The character that writes the digit `d`.
pub open spec fn spec_digit(d: nat) -> char {
    (48 + d) as u8 as char
}

/// `n` written in decimal, without leading zeros.
pub open spec fn spec_decimal(n: nat) -> Seq<char>
    decreases n,
{
    if n < 10 {
        seq![spec_digit(n)]
    } else {
        spec_decimal(n / 10).push(spec_digit(n % 10))
    }
}

/// Writes `n` in decimal.
pub fn decimal(n: u16) -> (text: String)
    ensures
        text@ == spec_decimal(n as nat),
    decreases n,
{
    if n < 10 {
        let mut text = String::new();
        let digit: u8 = 48 + n as u8;
        push_char(&mut text, digit as char);
        assert(text@ =~= seq![spec_digit(n as nat)]);
        text
    } else {
        let mut text = decimal(n / 10);
        let digit: u8 = 48 + (n % 10) as u8;
        push_char(&mut text, digit as char);
        text
    }
}

} // verus!
