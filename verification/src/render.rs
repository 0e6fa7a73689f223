//! Rendering of a request as text: the request line, the header block, the
//! body under the content-type policy, and the composed report.

use vstd::prelude::*;
use vstd::utf8::{decode_utf8, encode_utf8, valid_utf8, decode_utf8_encode_utf8};
use crate::error::{ErrorKind, InspectError};
use crate::request::{HeaderView, IncomingRequest, RequestView};
use crate::text::{contains_text, has_substring, occurs_at};

verus! {

/// The request line: method, target and version, passed through verbatim.
pub open spec fn spec_request_line(req: RequestView) -> Seq<char> {
    req.method + " "@ + req.url + " HTTP/"@ + req.version
}

/// One header as a line of the report.
pub open spec fn header_line(header: HeaderView) -> Seq<char> {
    header.field + ": "@ + header.value
}

/// The lines of the header block, one per header, in arrival order.
pub open spec fn header_lines(headers: Seq<HeaderView>) -> Seq<Seq<char>> {
    Seq::new(headers.len(), |i: int| header_line(headers[i]))
}

/// Lines joined by single newlines, with none at the end.
pub open spec fn join_lines(lines: Seq<Seq<char>>) -> Seq<char>
    decreases lines.len(),
{
    if lines.len() == 0 {
        Seq::empty()
    } else if lines.len() == 1 {
        lines[0]
    } else {
        join_lines(lines.drop_last()) + "\n"@ + lines.last()
    }
}

/// The header block of a request.
pub open spec fn spec_headers_block(req: RequestView) -> Seq<char> {
    join_lines(header_lines(req.headers))
}

/// A content type declares a binary payload when it mentions
/// `application/octet-stream` anywhere, in exactly this spelling.
pub open spec fn declares_binary(content_type: Seq<char>) -> bool {
    has_substring(content_type, "application/octet-stream"@)
}

/// What the owner of the connection has to do with the body stream.
#[derive(Clone, Copy, Debug, PartialEq, Eq)]
pub enum BodyPlan {
    /// Nothing is declared: the stream is left alone.
    Skip,
    /// The declared bytes are read and thrown away.
    Drain(usize),
    /// The declared bytes are read and handed to the renderer.
    Read(usize),
}

/// The plan for the body stream: nothing without a declared body, draining
/// for a declared binary payload, reading otherwise.
pub open spec fn spec_plan_body(req: RequestView) -> BodyPlan {
    if req.declared_length() == 0 {
        BodyPlan::Skip
    } else if declares_binary(req.content_type()) {
        BodyPlan::Drain(req.body_length.unwrap())
    } else {
        BodyPlan::Read(req.body_length.unwrap())
    }
}

/// The body section of the report for the bytes that were read: none for a
/// request without a body, a fixed marker for a declared binary payload, the
/// decoded text for valid UTF-8, another fixed marker otherwise.
pub open spec fn spec_body_text(req: RequestView, bytes: Seq<u8>) -> Option<Seq<char>> {
    if req.declared_length() == 0 {
        None
    } else if declares_binary(req.content_type()) {
        Some("[binary data]"@)
    } else if valid_utf8(bytes) {
        Some(decode_utf8(bytes))
    } else {
        Some("[non utf8 data]"@)
    }
}

/// Whether reading the body matters to the report: only a failed read of a
/// body that was to be decoded is a failure.
pub open spec fn read_failure_counts(req: RequestView) -> bool {
    req.declared_length() != 0 && !declares_binary(req.content_type())
}

/// The report laid out around an optional body section.
pub open spec fn spec_layout(req: RequestView, body: Option<Seq<char>>) -> Seq<char> {
    let head = spec_request_line(req) + "\n"@ + spec_headers_block(req);
    match body {
        Some(text) => head + "\n\n"@ + text + "\n\n---\n"@,
        None => head + "\n\n---\n"@,
    }
}

/// Calls `String::from_utf8`: it succeeds exactly on valid UTF-8 and then
/// returns the text that the bytes encode.
#[verifier::external_body]
fn decode_text(bytes: Vec<u8>) -> (r: Option<String>)
    ensures
        r.is_some() == valid_utf8(bytes@),
        r.is_some() ==> r.unwrap()@ == decode_utf8(bytes@),
{
    match String::from_utf8(bytes) {
        Ok(text) => Some(text),
        Err(_) => None,
    }
}

/// Renders the request line as `METHOD TARGET HTTP/VERSION`.
pub fn render_request_line(req: &IncomingRequest) -> (r: String)
    ensures
        r@ == spec_request_line(req@),
{
    let mut out = String::from_str(req.method.as_str());
    out.append(" ");
    out.append(req.url.as_str());
    out.append(" HTTP/");
    out.append(req.version.as_str());
    out
}

/// Renders the headers as `field: value` lines joined by newlines.
pub fn render_headers(req: &IncomingRequest) -> (r: String)
    ensures
        r@ == spec_headers_block(req@),
{
    let mut out = String::new();
    let mut i: usize = 0;
    let ghost lines = header_lines(req@.headers);
    while i < req.headers.len()
        invariant
            i <= req.headers.len(),
            lines == header_lines(req@.headers),
            out@ == join_lines(lines.take(i as int)),
        decreases req.headers.len() - i,
    {
        let ghost before = out@;
        if i > 0 {
            out.append("\n");
        }
        out.append(req.headers[i].field.as_str());
        out.append(": ");
        out.append(req.headers[i].value.as_str());
        proof {
            let next = lines.take(i + 1);
            assert(next.drop_last() =~= lines.take(i as int));
            assert(next.last() == header_line(req.headers@[i as int]@));
            if i > 0 {
                assert(out@ =~= before + "\n"@ + next.last());
            } else {
                assert(out@ =~= next[0]);
            }
        }
        i += 1;
    }
    proof {
        assert(lines.take(i as int) =~= lines);
    }
    out
}

/// Decides what is to be done with the body stream before rendering.
pub fn plan_body(req: &IncomingRequest) -> (r: BodyPlan)
    ensures
        r == spec_plan_body(req@),
{
    match req.body_length {
        None => BodyPlan::Skip,
        Some(length) => {
            if length == 0 {
                BodyPlan::Skip
            } else {
                let content_type = req.content_type();
                if contains_text(content_type.as_str(), "application/octet-stream") {
                    BodyPlan::Drain(length)
                } else {
                    BodyPlan::Read(length)
                }
            }
        },
    }
}

/// Renders the body section from the outcome of reading the body: the bytes,
/// or the message of the read failure. The outcome is looked at only where
/// the plan is to read and decode.
pub fn render_body(req: &IncomingRequest, read: Result<Vec<u8>, String>) -> (r: Result<
    Option<String>,
    InspectError,
>)
    ensures
        match read {
            Ok(bytes) => r.is_ok() && text_view(r.unwrap()) == spec_body_text(req@, bytes@),
            Err(message) => if read_failure_counts(req@) {
                r.is_err() && r.unwrap_err().kind == ErrorKind::BodyRead && r.unwrap_err().message@
                    == message@
            } else {
                r.is_ok() && text_view(r.unwrap()) == spec_body_text(req@, Seq::empty())
            },
        },
{
    match plan_body(req) {
        BodyPlan::Skip => Ok(None),
        BodyPlan::Drain(_) => Ok(Some(String::from_str("[binary data]"))),
        BodyPlan::Read(_) => match read {
            Err(message) => Err(InspectError::new(ErrorKind::BodyRead, message)),
            Ok(bytes) => match decode_text(bytes) {
                Some(text) => Ok(Some(text)),
                None => Ok(Some(String::from_str("[non utf8 data]"))),
            },
        },
    }
}

/// The view of an optional text.
pub open spec fn text_view(text: Option<String>) -> Option<Seq<char>> {
    match text {
        Some(s) => Some(s@),
        None => None,
    }
}

/// Lays the report out: request line, newline, header block, the body
/// section after a blank line where there is one, then a blank line and the
/// `---` separator line.
pub fn layout(req: &IncomingRequest, body: &Option<String>) -> (r: String)
    ensures
        r@ == spec_layout(req@, text_view(*body)),
{
    let mut out = render_request_line(req);
    out.append("\n");
    let headers = render_headers(req);
    out.append(headers.as_str());
    match body {
        Some(text) => {
            out.append("\n\n");
            out.append(text.as_str());
        },
        None => {},
    }
    out.append("\n\n---\n");
    out
}

/// Composes the report of a request from the outcome of reading its body.
/// It fails exactly where rendering the body fails, with that failure.
pub fn compose(req: &IncomingRequest, read: Result<Vec<u8>, String>) -> (r: Result<
    String,
    InspectError,
>)
    ensures
        match read {
            Ok(bytes) => r.is_ok() && r.unwrap()@ == spec_layout(req@, spec_body_text(req@, bytes@)),
            Err(message) => if read_failure_counts(req@) {
                r.is_err() && r.unwrap_err().kind == ErrorKind::BodyRead && r.unwrap_err().message@
                    == message@
            } else {
                r.is_ok() && r.unwrap()@ == spec_layout(req@, spec_body_text(req@, Seq::empty()))
            },
        },
{
    match render_body(req, read) {
        Ok(body) => Ok(layout(req, &body)),
        Err(e) => Err(e),
    }
}

/// The header block has one line per header, each exactly the field, a
/// colon and a space, and the value, in arrival order; equal field names
/// stay apart.
pub proof fn lemma_header_lines_shape(headers: Seq<HeaderView>)
    ensures
        header_lines(headers).len() == headers.len(),
        forall|i: int|
            0 <= i < headers.len() ==> (#[trigger] header_lines(headers)[i]) == headers[i].field
                + ": "@ + headers[i].value,
{
}

/// Joining keeps the order and puts exactly one newline between two
/// neighbouring lines: a sequence of lines cut in two non-empty parts joins
/// to the joined parts with a single newline between them.
pub proof fn lemma_join_lines_concat(front: Seq<Seq<char>>, back: Seq<Seq<char>>)
    requires
        front.len() > 0,
        back.len() > 0,
    ensures
        join_lines(front + back) == join_lines(front) + "\n"@ + join_lines(back),
    decreases back.len(),
{
    let all = front + back;
    assert(all.last() == back.last());
    if back.len() == 1 {
        assert(all.drop_last() =~= front);
    } else {
        assert(all.drop_last() =~= front + back.drop_last());
        lemma_join_lines_concat(front, back.drop_last());
        assert(join_lines(all) =~= join_lines(front) + "\n"@ + (join_lines(back.drop_last())
            + "\n"@ + back.last()));
    }
}

/// The number of characters of joined lines: those of the lines, and one
/// newline fewer than there are lines.
pub open spec fn joined_len(lines: Seq<Seq<char>>) -> int
    decreases lines.len(),
{
    if lines.len() == 0 {
        0
    } else if lines.len() == 1 {
        lines[0].len() as int
    } else {
        joined_len(lines.drop_last()) + 1 + lines.last().len()
    }
}

/// Joined lines have the length that `joined_len` counts.
pub proof fn lemma_join_lines_len(lines: Seq<Seq<char>>)
    ensures
        join_lines(lines).len() == joined_len(lines),
    decreases lines.len(),
{
    reveal_strlit("\n");
    if lines.len() > 1 {
        lemma_join_lines_len(lines.drop_last());
    }
}

/// A request that declares no body has no body section: its report is the
/// request line, the header block and the separator, whatever was read.
pub proof fn lemma_no_body_no_section(req: RequestView, bytes: Seq<u8>)
    requires
        req.declared_length() == 0,
    ensures
        spec_body_text(req, bytes) == None::<Seq<char>>,
        spec_plan_body(req) == BodyPlan::Skip,
        spec_layout(req, spec_body_text(req, bytes)) == spec_request_line(req) + "\n"@
            + spec_headers_block(req) + "\n\n---\n"@,
{
}

/// The body stream is touched exactly where a body is declared.
pub proof fn lemma_body_touched_iff_declared(req: RequestView)
    ensures
        spec_plan_body(req) == BodyPlan::Skip <==> req.declared_length() == 0,
        spec_body_text(req, Seq::empty()).is_none() <==> req.declared_length() == 0,
{
}

/// A body declared as `application/octet-stream` is shown as the binary
/// marker whatever its bytes are, and its bytes are drained.
pub proof fn lemma_binary_body_is_marker(req: RequestView, bytes: Seq<u8>)
    requires
        req.declared_length() > 0,
        declares_binary(req.content_type()),
    ensures
        spec_body_text(req, bytes) == Some("[binary data]"@),
        spec_plan_body(req) == BodyPlan::Drain(req.body_length.unwrap()),
{
}

/// A body of valid UTF-8 that is not declared binary is shown as the text
/// it encodes: encoding what is shown gives the bytes back.
pub proof fn lemma_text_body_round_trip(req: RequestView, bytes: Seq<u8>)
    requires
        req.declared_length() > 0,
        !declares_binary(req.content_type()),
        valid_utf8(bytes),
    ensures
        spec_body_text(req, bytes) == Some(decode_utf8(bytes)),
        encode_utf8(spec_body_text(req, bytes).unwrap()) == bytes,
{
    decode_utf8_encode_utf8(bytes);
}

/// A body that is not valid UTF-8 and not declared binary is shown as the
/// marker for undecodable bytes.
pub proof fn lemma_undecodable_body_is_marker(req: RequestView, bytes: Seq<u8>)
    requires
        req.declared_length() > 0,
        !declares_binary(req.content_type()),
        !valid_utf8(bytes),
    ensures
        spec_body_text(req, bytes) == Some("[non utf8 data]"@),
{
}

/// The content type is searched as a substring: a value that starts with
/// the binary type and goes on with parameters still declares binary.
pub proof fn lemma_binary_with_parameters(content_type: Seq<char>, rest: Seq<char>)
    requires
        content_type == "application/octet-stream"@ + rest,
    ensures
        declares_binary(content_type),
{
    let needle = "application/octet-stream"@;
    let start: int = 0;
    assert(content_type.subrange(start, start + needle.len()) =~= needle);
    assert(occurs_at(content_type, needle, start));
}

} // verus!
