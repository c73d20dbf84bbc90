//! The text-marker extractor: a stateless scan of one buffer of partial,
//! not necessarily well-formed JSON for the value of its first text field.
//! Beside it stand the steps of the typing effect and the encoding of image
//! bytes.

use crate::codec::{encodable, encode_standard, standard_encoding};
use crate::emitter::{typing_steps, SinkEvent};
use crate::text::{
    chars_of, contains, find_from, first_occurrence, lemma_first_occurrence, occurs_at, string_of,
};
use vstd::prelude::*;

verus! {

/// The marker that opens a text value: `"text": "`.
pub open spec fn text_marker() -> Seq<char> {
    seq!['"', 't', 'e', 'x', 't', '"', ':', ' ', '"']
}

/// The index of the first double quote at or after `from` that no backslash
/// escapes. A backslash escapes the character that follows it, whatever it is.
pub open spec fn closing_quote(buffer: Seq<char>, from: int) -> Option<int>
    decreases buffer.len() - from,
{
    if from < 0 || from >= buffer.len() {
        None
    } else if buffer[from] == '"' {
        Some(from)
    } else if buffer[from] == '\\' {
        if from + 1 < buffer.len() {
            closing_quote(buffer, from + 2)
        } else {
            None
        }
    } else {
        closing_quote(buffer, from + 1)
    }
}

/// The text value of `buffer`: what stands between the first marker and the
/// next unescaped double quote. There is none where the marker is missing,
/// and none where the buffer ends before the closing quote.
pub open spec fn extracted_text(buffer: Seq<char>) -> Option<Seq<char>> {
    match first_occurrence(buffer, text_marker(), 0) {
        None => None,
        Some(at) => {
            let start = at + text_marker().len();
            match closing_quote(buffer, start) {
                None => None,
                Some(end) => Some(buffer.subrange(start, end)),
            }
        },
    }
}

fn marker_chars() -> (marker: Vec<char>)
    ensures
        marker@ == text_marker(),
{
    let marker = vec!['"', 't', 'e', 'x', 't', '"', ':', ' ', '"'];
    assert(marker@ =~= text_marker());
    marker
}

/// The index of the first unescaped double quote at or after `from`.
pub fn find_closing_quote(buffer: &Vec<char>, from: usize) -> (found: Option<usize>)
    ensures
        match found {
            Some(end) => closing_quote(buffer@, from as int) == Some(end as int),
            None => closing_quote(buffer@, from as int) is None,
        },
{
    let mut at: usize = from;
    let mut escaped: bool = false;
    while at < buffer.len()
        invariant
            from <= at,
            closing_quote(buffer@, from as int) == closing_quote(
                buffer@,
                if escaped {
                    at + 1
                } else {
                    at as int
                },
            ),
        decreases buffer.len() - at,
    {
        let c = buffer[at];
        if escaped {
            escaped = false;
        } else if c == '"' {
            return Some(at);
        } else if c == '\\' {
            escaped = true;
        }
        at += 1;
    }
    None
}

/// Extracts the text value from a buffer of partial JSON.
///
/// Returns the characters between the first `"text": "` and the next
/// unescaped double quote, and nothing where either is missing: a value that
/// the buffer cuts short is never returned in part.
pub fn extract_text_from_partial_json(partial_json: &str) -> (text: Option<String>)
    ensures
        match text {
            Some(value) => extracted_text(partial_json@) == Some(value@),
            None => extracted_text(partial_json@) is None,
        },
        !contains(partial_json@, text_marker()) ==> text is None,
{
    let buffer = chars_of(partial_json);
    let marker = marker_chars();
    proof {
        lemma_first_occurrence(buffer@, marker@, 0);
    }
    match find_from(&buffer, &marker, 0) {
        None => None,
        Some(at) => {
            let start = at + marker.len();
            match find_closing_quote(&buffer, start) {
                None => None,
                Some(end) => {
                    proof {
                        lemma_closing_quote_in_range(buffer@, start as int);
                    }
                    Some(string_of(&buffer, start, end))
                },
            }
        },
    }
}

/// A closing quote lies at or after the index the scan began at, inside the
/// buffer, and is a double quote.
pub proof fn lemma_closing_quote_in_range(buffer: Seq<char>, from: int)
    requires
        0 <= from,
    ensures
        closing_quote(buffer, from) matches Some(end) ==> from <= end < buffer.len() && buffer[end]
            == '"',
    decreases buffer.len() - from,
{
    if from >= buffer.len() {
    } else if buffer[from] == '"' {
    } else if buffer[from] == '\\' {
        if from + 1 < buffer.len() {
            lemma_closing_quote_in_range(buffer, from + 2);
        }
    } else {
        lemma_closing_quote_in_range(buffer, from + 1);
    }
}

/// The steps that type `text` out with a cursor effect: each character is
/// written, then `delay` milliseconds pass.
pub fn type_with_cursor_effect(text: &str, delay: u64) -> (steps: Vec<SinkEvent>)
    ensures
        steps@ == typing_steps(text@, delay),
{
    let chars = chars_of(text);
    let mut steps: Vec<SinkEvent> = Vec::new();
    let mut i: usize = 0;
    while i < chars.len()
        invariant
            i <= chars.len(),
            chars@ == text@,
            steps@ == typing_steps(text@.take(i as int), delay),
        decreases chars.len() - i,
    {
        assert(text@.take(i + 1).drop_last() =~= text@.take(i as int));
        steps.push(SinkEvent::Write(chars[i]));
        steps.push(SinkEvent::Pause(delay));
        i += 1;
    }
    assert(text@.take(chars.len() as int) =~= text@);
    steps
}

/// The base64 text of the bytes of an image, as the standard engine writes
/// it. The bytes must be few enough for the text to fit a buffer.
pub fn encode_image(bytes: &[u8]) -> (text: String)
    requires
        encodable(bytes@.len()),
    ensures
        text@ == standard_encoding(bytes@),
{
    encode_standard(bytes)
}

/// The base64 text of the bytes of an image, where they are few enough for
/// the text to fit a buffer, and nothing where they are not.
pub fn try_encode_image(bytes: &[u8]) -> (text: Option<String>)
    ensures
        match text {
            Some(encoded) => encodable(bytes@.len()) && encoded@ == standard_encoding(bytes@),
            None => !encodable(bytes@.len()),
        },
{
    let most: usize = (isize::MAX as usize - 4) / 4;
    if bytes.len() / 3 <= most {
        Some(encode_image(bytes))
    } else {
        None
    }
}

/// A buffer without the marker holds no text value.
pub proof fn lemma_no_marker_no_text(buffer: Seq<char>)
    requires
        !contains(buffer, text_marker()),
    ensures
        extracted_text(buffer) is None,
{
    lemma_first_occurrence(buffer, text_marker(), 0);
}

/// A buffer that holds no double quote behind its first marker holds no text
/// value: a value that the buffer cuts short is not returned in part.
pub proof fn lemma_unclosed_value_is_no_text(buffer: Seq<char>)
    requires
        first_occurrence(buffer, text_marker(), 0) matches Some(at) ==> forall|j: int|
            at + text_marker().len() <= j < buffer.len() ==> buffer[j] != '"',
    ensures
        extracted_text(buffer) is None,
{
    lemma_first_occurrence(buffer, text_marker(), 0);
    if let Some(at) = first_occurrence(buffer, text_marker(), 0) {
        lemma_closing_quote_in_range(buffer, at + text_marker().len());
    }
}

/// A text value is a slice of its buffer: it begins behind the first marker
/// and ends before a double quote.
pub proof fn lemma_text_is_between_marker_and_quote(buffer: Seq<char>)
    ensures
        extracted_text(buffer) matches Some(text) ==> exists|at: int, end: int|
            {
                &&& occurs_at(buffer, text_marker(), at)
                &&& forall|j: int| 0 <= j < at ==> !occurs_at(buffer, text_marker(), j)
                &&& at + text_marker().len() <= end < buffer.len()
                &&& buffer[end] == '"'
                &&& text == buffer.subrange(at + text_marker().len(), end)
            },
{
    lemma_first_occurrence(buffer, text_marker(), 0);
    if let Some(at) = first_occurrence(buffer, text_marker(), 0) {
        let start = at + text_marker().len();
        lemma_closing_quote_in_range(buffer, start);
        if let Some(end) = closing_quote(buffer, start) {
            assert(occurs_at(buffer, text_marker(), at) && (forall|j: int|
                0 <= j < at ==> !occurs_at(buffer, text_marker(), j)) && at + text_marker().len()
                <= end < buffer.len() && buffer[end] == '"' && buffer.subrange(start, end)
                == buffer.subrange(at + text_marker().len(), end));
        }
    }
}

/// How many backslashes stand in a row directly before index `at`, not
/// counting any before `from`.
pub open spec fn backslashes_before(buffer: Seq<char>, from: int, at: int) -> nat
    decreases at - from,
{
    if from < at <= buffer.len() && buffer[at - 1] == '\\' {
        backslashes_before(buffer, from, at - 1) + 1
    } else {
        0
    }
}

/// Whether the character at `at` is escaped in a scan that begins at `from`:
/// an odd number of backslashes stands directly before it.
pub open spec fn is_escaped(buffer: Seq<char>, from: int, at: int) -> bool {
    backslashes_before(buffer, from, at) % 2 == 1
}

/// Beginning a scan two characters later, behind a backslash and the
/// character it escapes, changes for no later character whether it is
/// escaped.
proof fn lemma_escape_skips_pair(buffer: Seq<char>, from: int, at: int)
    requires
        0 <= from,
        from + 2 <= at <= buffer.len(),
        buffer[from] == '\\',
    ensures
        is_escaped(buffer, from, at) == is_escaped(buffer, from + 2, at),
    decreases at - from,
{
    if at == from + 2 {
        if buffer[from + 1] == '\\' {
            assert(backslashes_before(buffer, from, from + 1) == 1) by {
                assert(backslashes_before(buffer, from, from) == 0);
            }
            assert(backslashes_before(buffer, from, from + 2) == 2);
        }
    } else if buffer[at - 1] == '\\' {
        lemma_escape_skips_pair(buffer, from, at - 1);
    }
}

/// Beginning a scan one character later, behind a character that is no
/// backslash, changes for no later character whether it is escaped.
proof fn lemma_escape_skips_plain(buffer: Seq<char>, from: int, at: int)
    requires
        0 <= from < at <= buffer.len(),
        buffer[from] != '\\',
    ensures
        backslashes_before(buffer, from, at) == backslashes_before(buffer, from + 1, at),
    decreases at - from,
{
    if at > from + 1 && buffer[at - 1] == '\\' {
        lemma_escape_skips_plain(buffer, from, at - 1);
    }
}

/// The closing quote is the first double quote at or after `from` that is
/// not escaped: every double quote before it is, and where there is no
/// closing quote every double quote to the end of the buffer is.
pub proof fn lemma_closing_quote_is_first_unescaped(buffer: Seq<char>, from: int)
    requires
        0 <= from,
    ensures
        match closing_quote(buffer, from) {
            Some(end) => {
                &&& from <= end < buffer.len()
                &&& buffer[end] == '"'
                &&& !is_escaped(buffer, from, end)
                &&& forall|j: int|
                    from <= j < end && buffer[j] == '"' ==> is_escaped(buffer, from, j)
            },
            None => forall|j: int|
                from <= j < buffer.len() && buffer[j] == '"' ==> is_escaped(buffer, from, j),
        },
    decreases buffer.len() - from,
{
    if from >= buffer.len() {
    } else if buffer[from] == '"' {
    } else if buffer[from] == '\\' {
        if from + 1 < buffer.len() {
            lemma_closing_quote_is_first_unescaped(buffer, from + 2);
            assert forall|j: int| from + 2 <= j <= buffer.len() implies is_escaped(buffer, from, j)
                == is_escaped(buffer, from + 2, j) by {
                lemma_escape_skips_pair(buffer, from, j);
            }
        }
        assert(backslashes_before(buffer, from, from + 1) == 1) by {
            assert(backslashes_before(buffer, from, from) == 0);
        }
    } else {
        lemma_closing_quote_is_first_unescaped(buffer, from + 1);
        assert forall|j: int| from + 1 <= j <= buffer.len() implies backslashes_before(
            buffer,
            from,
            j,
        ) == backslashes_before(buffer, from + 1, j) by {
            lemma_escape_skips_plain(buffer, from, j);
        }
    }
}

} // verus!
