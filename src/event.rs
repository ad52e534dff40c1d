//! Classification of the proxy's output into typed events.
//!
//! The proxy writes one JSON object per line on its primary stream for each
//! intercepted exchange, a readiness line once it accepts connections, and
//! diagnostics on its secondary stream.

use vstd::prelude::*;
use crate::text::{contains_text, has_infix};

verus! {

/// serde_json's `Value`, carried opaquely: only whether parsing succeeded is read.
#[verifier::external_type_specification]
#[verifier::external_body]
pub struct ExJsonValue(serde_json::Value);

/// serde_json's `Error`, carried opaquely.
#[verifier::external_type_specification]
#[verifier::external_body]
pub struct ExJsonError(serde_json::Error);

/// Whether serde_json accepts `text` as one JSON object.
pub uninterp spec fn json_object_text(text: Seq<char>) -> bool;

/// Relies on serde_json::from_str for a `serde_json::Map<String, Value>`:
/// succeeds exactly on the texts it accepts as one JSON object, a
/// property of the text alone.
#[verifier::external_body]
fn parse_json_object(text: &str) -> (r: Result<serde_json::Value, serde_json::Error>)
    ensures
        r is Ok <==> json_object_text(text@),
{
    serde_json::from_str::<serde_json::Map<String, serde_json::Value>>(text).map(
        serde_json::Value::Object,
    )
}

/// How the proxy process ended, as far as its exit status tells.
#[derive(Clone, Copy, Debug, PartialEq, Eq, Structural)]
pub enum ExitStatus {
    /// The process returned this code.
    Code(i32),
    /// The process ended without a code, for instance by a signal.
    NoCode,
}

/// One event of the proxy's output.
#[derive(Debug, PartialEq, Eq)]
pub enum ProxyEvent {
    /// The proxy accepts connections.
    Started,
    /// A diagnostic line; never readiness and never traffic.
    Warning(String),
    /// One structured traffic record, kept verbatim.
    Traffic(String),
    /// A primary-stream line that is not a structured record.
    MalformedLine(String),
    /// The proxy process ended.
    Exited(ExitStatus),
}

/// The text that the proxy prints once it is ready.
pub open spec fn ready_sentinel() -> Seq<char> {
    "listening at"@
}

/// Whether a character ends a line.
pub open spec fn is_line_end(c: char) -> bool {
    c == '\n' || c == '\r'
}

/// A line without the line-end characters that trail it.
pub open spec fn line_body(line: Seq<char>) -> Seq<char>
    decreases line.len(),
{
    if line.len() > 0 && is_line_end(line.last()) {
        line_body(line.drop_last())
    } else {
        line
    }
}

/// The event that a primary-stream line whose body is `body` stands for,
/// given whether that body is a JSON object.
pub open spec fn primary_event_is(r: ProxyEvent, body: Seq<char>, is_json: bool) -> bool {
    if is_json {
        r matches ProxyEvent::Traffic(t) && t@ == body
    } else if has_infix(body, ready_sentinel()) {
        r is Started
    } else {
        r matches ProxyEvent::MalformedLine(t) && t@ == body
    }
}

/// The event that `parse` gives for a primary-stream line.
pub open spec fn parsed_as(r: ProxyEvent, line: Seq<char>) -> bool {
    primary_event_is(r, line_body(line), json_object_text(line_body(line)))
}

/// Two events of the same kind with the same text.
pub open spec fn same_event(a: ProxyEvent, b: ProxyEvent) -> bool {
    match (a, b) {
        (ProxyEvent::Started, ProxyEvent::Started) => true,
        (ProxyEvent::Warning(x), ProxyEvent::Warning(y)) => x@ == y@,
        (ProxyEvent::Traffic(x), ProxyEvent::Traffic(y)) => x@ == y@,
        (ProxyEvent::MalformedLine(x), ProxyEvent::MalformedLine(y)) => x@ == y@,
        (ProxyEvent::Exited(x), ProxyEvent::Exited(y)) => x == y,
        _ => false,
    }
}

proof fn lemma_line_body_shape(line: Seq<char>)
    ensures
        line_body(line).len() <= line.len(),
        line_body(line) == line.subrange(0, line_body(line).len() as int),
        line_body(line).len() == 0 || !is_line_end(line_body(line).last()),
    decreases line.len(),
{
    if line.len() > 0 && is_line_end(line.last()) {
        lemma_line_body_shape(line.drop_last());
        assert(line.drop_last().subrange(0, line_body(line).len() as int) =~= line.subrange(
            0,
            line_body(line).len() as int,
        ));
    } else {
        assert(line.subrange(0, line.len() as int) =~= line);
    }
}

/// Stripping the line end a second time changes nothing.
pub proof fn lemma_line_body_idempotent(line: Seq<char>)
    ensures
        line_body(line_body(line)) == line_body(line),
{
    lemma_line_body_shape(line);
}

/// The line without its trailing line-end characters.
pub fn strip_line_end(line: &str) -> (r: String)
    ensures
        r@ == line_body(line@),
{
    let len = line.unicode_len();
    let mut end: usize = len;
    proof {
        assert(line@.subrange(0, len as int) =~= line@);
    }
    while end > 0 && (line.get_char(end - 1) == '\n' || line.get_char(end - 1) == '\r')
        invariant
            len == line@.len(),
            end <= len,
            line_body(line@.subrange(0, end as int)) == line_body(line@),
        decreases end,
    {
        proof {
            let s = line@.subrange(0, end as int);
            assert(s.drop_last() =~= line@.subrange(0, end - 1));
        }
        end = end - 1;
    }
    let body = line.substring_char(0, end);
    proof {
        let s = line@.subrange(0, end as int);
        assert(!(s.len() > 0 && is_line_end(s.last())));
    }
    String::from_str(body)
}

/// Classifies a primary-stream line body, given whether it is a JSON object.
pub fn classify_primary(body: String, is_json: bool) -> (r: ProxyEvent)
    ensures
        primary_event_is(r, body@, is_json),
{
    if is_json {
        ProxyEvent::Traffic(body)
    } else if contains_text(body.as_str(), "listening at") {
        ProxyEvent::Started
    } else {
        ProxyEvent::MalformedLine(body)
    }
}

/// Classifies one line of the proxy's primary output stream: a JSON object
/// is traffic, a readiness line is `Started`, anything else is malformed.
pub fn parse(line: &str) -> (r: ProxyEvent)
    ensures
        parsed_as(r, line@),
{
    let body = strip_line_end(line);
    let is_json = match parse_json_object(body.as_str()) {
        Ok(_) => true,
        Err(_) => false,
    };
    classify_primary(body, is_json)
}

/// Classifies one line of the proxy's diagnostic stream: always a warning.
pub fn parse_diagnostic(line: &str) -> (r: ProxyEvent)
    ensures
        r matches ProxyEvent::Warning(t) && t@ == line_body(line@),
{
    ProxyEvent::Warning(strip_line_end(line))
}

/// A line that is a JSON object is traffic, and its record is the line
/// without its line end.
pub proof fn lemma_object_line_is_traffic(line: Seq<char>, r: ProxyEvent)
    requires
        json_object_text(line_body(line)),
        parsed_as(r, line),
    ensures
        r matches ProxyEvent::Traffic(t) && t@ == line_body(line),
{
}

/// Parsing the same line twice gives the same event.
pub proof fn lemma_parse_deterministic(line: Seq<char>, r1: ProxyEvent, r2: ProxyEvent)
    requires
        parsed_as(r1, line),
        parsed_as(r2, line),
    ensures
        same_event(r1, r2),
{
}

/// Parsing the record of a traffic event again gives that traffic event back.
pub proof fn lemma_reparse_record(line: Seq<char>, r: ProxyEvent, again: ProxyEvent)
    requires
        parsed_as(r, line),
        r is Traffic,
        parsed_as(again, r->Traffic_0@),
    ensures
        same_event(again, r),
{
    lemma_line_body_idempotent(line);
}

/// A line that is neither a JSON object nor a readiness line is malformed,
/// never traffic.
pub proof fn lemma_other_line_is_malformed(line: Seq<char>, r: ProxyEvent)
    requires
        !json_object_text(line_body(line)),
        !has_infix(line_body(line), ready_sentinel()),
        parsed_as(r, line),
    ensures
        r matches ProxyEvent::MalformedLine(t) && t@ == line_body(line),
        !(r is Traffic),
{
}

} // verus!
