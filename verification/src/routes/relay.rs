//! The streaming relay's scan for usage data.
//!
//! Every chunk of a streamed response goes to the client as it came. On
//! the side, the relay reads the chunk as text, line by line, looking for an
//! event whose payload is a document with a usage object. What it finds is
//! handed to accounting; what it cannot read is passed over in silence,
//! because an event may be split over two chunks.

use crate::json::{decoded, from_slice, get, tree_of, JsonTree};
use crate::metrics::database::{billed_tokens, extract_tokens, usage_of};
use crate::text::{bytes_eq, first_index, from_utf8_lossy, has_prefix, lemma_first_index, utf8_lossy};
use serde_json::Value;
use vstd::prelude::*;
use vstd::slice::slice_subrange;
use vstd::string::{is_ascii_spec_bytes, StringSliceAdditionalSpecFns};
use vstd::utf8::{decode_utf8_encode_utf8, encode_utf8, valid_utf8};

verus! {

/// The usage event of a stream: the document that carried the usage object,
/// and the tokens it bills.
#[derive(Debug)]
pub struct UsageEvent {
    pub response: Value,
    pub tokens: i32,
}

/// `line` without a carriage return at its end.
pub open spec fn without_return(line: Seq<u8>) -> Seq<u8> {
    if line.len() > 0 && line.last() == 0x0d {
        line.drop_last()
    } else {
        line
    }
}

/// The lines of a text. A line ends with a line feed, or with a carriage
/// return and a line feed, neither of which belongs to it; the last line
/// may end with the text instead.
pub open spec fn lines(text: Seq<u8>) -> Seq<Seq<u8>>
    decreases text.len(),
{
    if text.len() == 0 {
        seq![]
    } else {
        let k = first_index(text, 0x0au8);
        if 0 <= k < text.len() {
            seq![without_return(text.subrange(0, k))] + lines(
                text.subrange(k + 1, text.len() as int),
            )
        } else {
            seq![text]
        }
    }
}

/// The payload of an event line: what follows `data: `.
pub open spec fn payload_of(line: Seq<u8>) -> Option<Seq<u8>> {
    if "data: ".spec_bytes().is_prefix_of(line) {
        Some(line.skip("data: ".spec_bytes().len() as int))
    } else {
        None
    }
}

/// The bytes of the two markers of the framing: `data: ` and `[DONE]`.
pub proof fn lemma_frame_markers()
    ensures
        "data: ".spec_bytes() == seq![0x64u8, 0x61, 0x74, 0x61, 0x3a, 0x20],
        "[DONE]".spec_bytes() == seq![0x5bu8, 0x44, 0x4f, 0x4e, 0x45, 0x5d],
{
    reveal_strlit("data: ");
    reveal_strlit("[DONE]");
    is_ascii_spec_bytes("data: ");
    is_ascii_spec_bytes("[DONE]");
    assert("data: ".spec_bytes() =~= seq![0x64u8, 0x61, 0x74, 0x61, 0x3a, 0x20]);
    assert("[DONE]".spec_bytes() =~= seq![0x5bu8, 0x44, 0x4f, 0x4e, 0x45, 0x5d]);
}

/// Whether a streamed document carries a usage object.
pub open spec fn carries_usage(document: JsonTree) -> bool {
    usage_of(document, true) is Some
}

/// The usage document of a line: the line is an event, its payload is not
/// the terminator `[DONE]`, and the payload reads as a document that
/// carries a usage object.
pub open spec fn usage_frame(line: Seq<u8>) -> Option<JsonTree> {
    match payload_of(line) {
        Some(payload) => if payload == "[DONE]".spec_bytes() {
            None
        } else {
            match decoded(payload) {
                Some(document) => if carries_usage(document) {
                    Some(document)
                } else {
                    None
                },
                None => None,
            }
        },
        None => None,
    }
}

/// The usage document of the first line that has one.
pub open spec fn first_usage_frame(lines: Seq<Seq<u8>>) -> Option<JsonTree>
    decreases lines.len(),
{
    if lines.len() == 0 {
        None
    } else {
        match usage_frame(lines[0]) {
            Some(document) => Some(document),
            None => first_usage_frame(lines.drop_first()),
        }
    }
}

/// The usage document of a chunk: that of the first line with one, in the
/// chunk read as text.
pub open spec fn chunk_usage(chunk: Seq<u8>) -> Option<JsonTree> {
    first_usage_frame(lines(encode_utf8(utf8_lossy(chunk))))
}

/// Whether `found` is the usage event of `document`.
pub open spec fn is_event_of(found: Option<UsageEvent>, document: Option<JsonTree>) -> bool {
    match found {
        Some(event) => document == Some(tree_of(event.response)) && event.tokens == billed_tokens(
            tree_of(event.response),
            true,
        ),
        None => document is None,
    }
}

/// Turns a streamed document into a usage event, if it carries a usage
/// object.
pub fn usage_event(document: Value) -> (found: Option<UsageEvent>)
    ensures
        match found {
            Some(event) => carries_usage(tree_of(document)) && event.response == document
                && event.tokens == billed_tokens(tree_of(document), true),
            None => !carries_usage(tree_of(document)),
        },
{
    let carries = match get(&document, "x_groq") {
        Some(meta) => get(meta, "usage").is_some(),
        None => false,
    };
    if carries {
        let tokens = extract_tokens(&document, true);
        Some(UsageEvent { response: document, tokens })
    } else {
        None
    }
}

/// Looks for a usage event in one line.
pub fn scan_line(line: &[u8]) -> (found: Option<UsageEvent>)
    ensures
        is_event_of(found, usage_frame(line@)),
{
    let prefix = "data: ".as_bytes();
    if !has_prefix(line, prefix) {
        return None;
    }
    let payload = slice_subrange(line, prefix.len(), line.len());
    assert(payload@ == line@.skip(prefix@.len() as int));
    if bytes_eq(payload, "[DONE]".as_bytes()) {
        return None;
    }
    match from_slice(payload) {
        Ok(document) => usage_event(document),
        Err(_) => None,
    }
}

/// Looks for the first usage event in the lines of a text.
pub fn scan_text(text: &[u8]) -> (found: Option<UsageEvent>)
    ensures
        is_event_of(found, first_usage_frame(lines(text@))),
{
    let n: usize = text.len();
    let mut start: usize = 0;
    assert(text@.subrange(0, n as int) == text@);
    while start < n
        invariant
            start <= n == text@.len(),
            first_usage_frame(lines(text@)) == first_usage_frame(
                lines(text@.subrange(start as int, n as int)),
            ),
        decreases n - start,
    {
        let ghost rest = text@.subrange(start as int, n as int);
        let mut end: usize = start;
        while end < n && text[end] != 0x0a
            invariant
                start <= end <= n == text@.len(),
                forall|j: int| start <= j < end ==> text@[j] != 0x0a,
            decreases n - end,
        {
            end += 1;
        }
        proof {
            lemma_first_index(rest, 0x0au8, end - start);
        }
        let terminated = end < n;
        let stop: usize = if terminated && end > start && text[end - 1] == 0x0d {
            end - 1
        } else {
            end
        };
        let line = slice_subrange(text, start, stop);
        let ghost tail = if terminated {
            lines(text@.subrange(end + 1, n as int))
        } else {
            seq![]
        };
        proof {
            if terminated {
                assert(rest.subrange(0, end - start) == text@.subrange(start as int, end as int));
                assert(rest.subrange(end - start + 1, rest.len() as int) == text@.subrange(
                    end + 1,
                    n as int,
                ));
                if stop < end {
                    assert(text@.subrange(start as int, end as int).drop_last() == line@);
                }
            } else {
                assert(line@ == rest);
            }
            assert(lines(rest) == seq![line@] + tail);
            assert((seq![line@] + tail).drop_first() == tail);
        }
        match scan_line(line) {
            Some(event) => {
                return Some(event);
            },
            None => {},
        }
        if !terminated {
            assert(first_usage_frame(tail) is None);
            return None;
        }
        start = end + 1;
    }
    assert(text@.subrange(start as int, n as int).len() == 0);
    None
}

/// Looks for the usage event of a chunk of a streamed response. The chunk
/// itself is left as it is. A chunk that is valid UTF-8 is scanned as it
/// stands.
pub fn scan_chunk(chunk: &[u8]) -> (found: Option<UsageEvent>)
    ensures
        is_event_of(found, chunk_usage(chunk@)),
        valid_utf8(chunk@) ==> is_event_of(found, first_usage_frame(lines(chunk@))),
{
    let text = from_utf8_lossy(chunk);
    proof {
        if valid_utf8(chunk@) {
            decode_utf8_encode_utf8(chunk@);
        }
    }
    scan_text(text.as_str().as_bytes())
}

} // verus!
