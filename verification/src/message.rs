//! Builds the outbound message text: a completion marker with a timestamp,
//! optionally followed by captured input, optionally wrapped under a quoted
//! header line with a fenced block.

use vstd::prelude::*;
use vstd::string::StringExecFns;

verus! {

/// The opening of every message body, placed before the timestamp.
pub open spec fn completion_marker() -> Seq<char> {
    "completed at "@
}

/// An absent optional text counts as the empty text.
pub open spec fn opt_text_or_empty(t: Option<Seq<char>>) -> Seq<char> {
    match t {
        Some(s) => s,
        None => Seq::<char>::empty(),
    }
}

/// The message body before any header is applied: the completion marker and
/// the timestamp; when input capture was requested, a blank line and the
/// captured text follow (absent text yields a trailing blank section).
pub open spec fn spec_base_content(
    timestamp: Seq<char>,
    stdin_requested: bool,
    stdin_text: Option<Seq<char>>,
) -> Seq<char> {
    let marked = completion_marker() + timestamp;
    if stdin_requested {
        marked + "\n\n"@ + opt_text_or_empty(stdin_text)
    } else {
        marked
    }
}

/// A body wrapped under a header: a quoted header line, then the whole body
/// inside a fenced block.
pub open spec fn spec_framed(header: Seq<char>, body: Seq<char>) -> Seq<char> {
    "> "@ + header + "\n```\n"@ + body + "\n```"@
}

/// The complete message: the base content, framed under the header when one
/// is present and used verbatim otherwise.
pub open spec fn spec_message(
    timestamp: Seq<char>,
    stdin_requested: bool,
    stdin_text: Option<Seq<char>>,
    header: Option<Seq<char>>,
) -> Seq<char> {
    let body = spec_base_content(timestamp, stdin_requested, stdin_text);
    match header {
        Some(h) => spec_framed(h, body),
        None => body,
    }
}

/// Wraps a message body under a quoted header line followed by a fenced
/// block.
pub fn format_message(header: &str, input: &str) -> (r: String)
    ensures
        r@ == spec_framed(header@, input@),
{
    let mut out = String::from_str("> ");
    out.append(header);
    out.append("\n```\n");
    out.append(input);
    out.append("\n```");
    out
}

/// Builds the message posted for a finished job. The base content marks
/// completion at the given timestamp; when `stdin_requested` is set the
/// captured text is appended after a blank line; a present header wraps the
/// whole content in a quoted-and-fenced frame. Pure: no input fails.
pub fn build(
    timestamp: &str,
    stdin_requested: bool,
    stdin_text: Option<&str>,
    header: Option<&str>,
) -> (r: String)
    ensures
        r@ == spec_message(
            timestamp@,
            stdin_requested,
            match stdin_text {
                Some(t) => Some(t@),
                None => None,
            },
            match header {
                Some(h) => Some(h@),
                None => None,
            },
        ),
{
    let mut body = String::from_str("completed at ");
    body.append(timestamp);
    if stdin_requested {
        body.append("\n\n");
        match stdin_text {
            Some(t) => body.append(t),
            None => (),
        }
    }
    match header {
        Some(h) => format_message(h, body.as_str()),
        None => body,
    }
}

} // verus!
