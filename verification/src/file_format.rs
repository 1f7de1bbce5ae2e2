//! Telling apart the two kinds of encrypted files the command line writes:
//! a JSON envelope (from file encryption) and Base64 text (from text
//! encryption).
use vstd::prelude::*;

use crate::primitives::{is_base64_char, is_whitespace, white_space};

verus! {

/// The kind of an encrypted file's contents.
#[derive(Debug, Clone, Copy, PartialEq, Eq)]
pub enum InputFormat {
    /// A JSON envelope: the first character that is not white space is `{`.
    Envelope,
    /// Base64 text: every character is an ASCII letter or digit, `+`, `/`,
    /// `=` or white space.
    Base64Text,
    /// Anything else.
    Unsupported,
}

/// An ASCII letter or digit.
pub open spec fn is_ascii_alphanumeric(c: char) -> bool {
    ('0' <= c && c <= '9') || ('a' <= c && c <= 'z') || ('A' <= c && c <= 'Z')
}

/// A character that may appear in a Base64 text file.
pub open spec fn is_base64_text_char(c: char) -> bool {
    is_ascii_alphanumeric(c) || c == '+' || c == '/' || c == '=' || white_space(c)
}

/// The first character of `content` that is not white space is `{`.
pub open spec fn starts_like_envelope(content: Seq<char>) -> bool {
    exists|i: int|
        0 <= i < content.len() && #[trigger] content[i] == '{' && !white_space(content[i])
            && forall|j: int| 0 <= j < i ==> white_space(#[trigger] content[j])
}

/// The kind of `content`, tested in the order: envelope, Base64 text.
pub open spec fn input_format(content: Seq<char>) -> InputFormat {
    if starts_like_envelope(content) {
        InputFormat::Envelope
    } else if forall|i: int| 0 <= i < content.len() ==> is_base64_text_char(#[trigger] content[i]) {
        InputFormat::Base64Text
    } else {
        InputFormat::Unsupported
    }
}

/// Text made only of Base64 alphabet characters (digits, letters, `+`, `/`,
/// `=`) and white space is read as Base64 text, never as an envelope or as
/// unsupported.
pub proof fn lemma_base64_and_white_space_is_text(content: Seq<char>)
    requires
        forall|i: int|
            0 <= i < content.len() ==> is_base64_char(#[trigger] content[i]) || white_space(
                content[i],
            ),
    ensures
        input_format(content) == InputFormat::Base64Text,
{
    assert forall|i: int| 0 <= i < content.len() && #[trigger] content[i] == '{' implies false by {
        assert(is_base64_char(content[i]) || white_space(content[i]));
    }
    assert(!starts_like_envelope(content));
    assert forall|i: int| 0 <= i < content.len() implies is_base64_text_char(#[trigger] content[i])
        by {
        assert(is_base64_char(content[i]) || white_space(content[i]));
    }
}

/// Whether the first character of `content` that is not white space is `{`.
fn first_visible_is_brace(content: &[char]) -> (b: bool)
    ensures
        b == starts_like_envelope(content@),
{
    let mut i: usize = 0;
    while i < content.len()
        invariant
            i <= content@.len(),
            forall|j: int| 0 <= j < i ==> white_space(#[trigger] content@[j]),
        decreases content@.len() - i,
    {
        let c = content[i];
        if !is_whitespace(c) {
            if c == '{' {
                assert(content@[i as int] == '{' && !white_space(content@[i as int]));
                return true;
            } else {
                assert forall|k: int|
                    0 <= k < content@.len() && #[trigger] content@[k] == '{' && !white_space(
                        content@[k],
                    ) implies !(forall|j: int| 0 <= j < k ==> white_space(#[trigger] content@[j])) by {
                    if k > i {
                        assert(!white_space(content@[i as int]));
                    }
                }
                return false;
            }
        }
        i = i + 1;
    }
    assert forall|k: int|
        0 <= k < content@.len() && #[trigger] content@[k] == '{' implies white_space(content@[k]) by {
    }
    false
}

/// Whether `c` is an ASCII letter or digit, `+`, `/`, `=` or white space.
fn is_base64_text_character(c: char) -> (b: bool)
    ensures
        b == is_base64_text_char(c),
{
    (c >= '0' && c <= '9') || (c >= 'a' && c <= 'z') || (c >= 'A' && c <= 'Z') || c == '+' || c
        == '/' || c == '=' || is_whitespace(c)
}

/// The kind of an encrypted file, given its characters.
pub fn detect_input_format(content: &[char]) -> (format: InputFormat)
    ensures
        format == input_format(content@),
{
    if first_visible_is_brace(content) {
        return InputFormat::Envelope;
    }
    let mut i: usize = 0;
    while i < content.len()
        invariant
            i <= content@.len(),
            !starts_like_envelope(content@),
            forall|j: int| 0 <= j < i ==> is_base64_text_char(#[trigger] content@[j]),
        decreases content@.len() - i,
    {
        if !is_base64_text_character(content[i]) {
            assert(!is_base64_text_char(content@[i as int]));
            return InputFormat::Unsupported;
        }
        i = i + 1;
    }
    InputFormat::Base64Text
}

} // verus!
