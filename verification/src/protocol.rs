//! What goes over the daemon's socket: one JSON document on a line each way.
use vstd::prelude::*;
use vstd::utf8::{encode_scalar, encode_utf8};

use crate::error::{answer, Answer, ErrorView, GremlinError};
use crate::json::{
    json_document, json_slice_document, json_text, member_text, parse, read_as, readable,
    result_view, to_text, writable, Json, JsonView, DEEPEST,
};
use crate::ollama::ToolCall;
use crate::text::{trim, trimmed};
use crate::toolcall::{call_in, call_of, CallView, Document};
use crate::tools::memory::text_or;
use crate::tools::ToolResult;

verus! {

/// How many seconds a client may take to send its request.
pub const READ_TIMEOUT_SECS: u64 = 30;

/// What came of waiting for a request.
#[derive(Debug)]
pub enum LineRead {
    /// The client closed the connection without a word.
    Closed,
    /// It sent this.
    Line(String),
    /// The connection failed, for this reason.
    Failed(String),
    /// It did not send anything in time.
    TimedOut,
}

/// A request to the daemon.
#[derive(Debug)]
pub enum DaemonRequest {
    /// Run a tool, without the model.
    Tool(ToolCall),
    /// Answer a question.
    Message(String),
}

/// The content of a `DaemonRequest`.
pub enum DaemonRequestView {
    Tool(CallView),
    Message(Seq<char>),
}

impl View for DaemonRequest {
    type V = DaemonRequestView;

    open spec fn view(&self) -> DaemonRequestView {
        match self {
            DaemonRequest::Tool(call) => DaemonRequestView::Tool(call@),
            DaemonRequest::Message(text) => DaemonRequestView::Message(text@),
        }
    }
}

/// What reading a request gave.
pub open spec fn request_result(r: Result<DaemonRequest, GremlinError>) -> Result<
    DaemonRequestView,
    ErrorView,
> {
    match r {
        Ok(request) => Ok(request@),
        Err(e) => Err(e@),
    }
}

/// The request that a document makes: a tool call where it names a tool, a question
/// otherwise.
pub open spec fn request_in(json: JsonView) -> DaemonRequestView {
    match call_in(json) {
        Some(call) => DaemonRequestView::Tool(call),
        None => DaemonRequestView::Message(text_or(member_text(json, "message"@), "(empty)"@)),
    }
}

/// The request that was read.
pub open spec fn request_of_document(document: Document) -> Result<DaemonRequestView, ErrorView> {
    match document {
        Ok(json) => Ok(request_in(json)),
        Err(e) => Err(ErrorView::Json(e)),
    }
}

/// The request on a line.
pub open spec fn request_on(line: Seq<char>) -> Result<DaemonRequestView, ErrorView> {
    request_of_document(json_document(trimmed(line)))
}

/// The answer that was read.
pub open spec fn response_of_document(document: Document) -> Answer {
    match document {
        Ok(json) => Ok(text_or(member_text(json, "response"@), "(no response)"@)),
        Err(e) => Err(ErrorView::Json(e)),
    }
}

/// The answer on a line.
pub open spec fn response_on(line: Seq<char>) -> Answer {
    response_of_document(json_document(trimmed(line)))
}

/// What came of waiting for a request.
pub open spec fn line_answer(read: LineRead) -> Answer {
    match read {
        LineRead::Closed => Err(
            ErrorView::Tool("client disconnected before sending a request"@),
        ),
        LineRead::Line(line) => Ok(line@),
        LineRead::Failed(e) => Err(ErrorView::Io(e@)),
        LineRead::TimedOut => Err(ErrorView::Tool("client did not send a request within 30s"@)),
    }
}

/// The document for a question.
pub open spec fn question_document(message: Seq<char>) -> JsonView {
    JsonView::Object(Map::empty().insert("message"@, JsonView::Text(message)))
}

/// The document for a tool call without arguments.
pub open spec fn call_document(tool: Seq<char>) -> JsonView {
    JsonView::Object(Map::empty().insert("tool"@, JsonView::Text(tool)))
}

/// The document for an answer.
pub open spec fn answer_document(response: Seq<char>) -> JsonView {
    JsonView::Object(Map::empty().insert("response"@, JsonView::Text(response)))
}

/// The document for what a tool gave back.
pub open spec fn result_document(output: Seq<char>, success: bool) -> JsonView {
    JsonView::Object(
        Map::empty().insert("response"@, JsonView::Text(output)).insert(
            "success"@,
            JsonView::Bool(success),
        ),
    )
}

/// A document on a line of its own.
pub open spec fn line_of(json: JsonView) -> Seq<char> {
    json_text(json) + "\n"@
}

/// The line is one line, from which the document is read as it was.
pub open spec fn carries(line: Seq<char>, json: JsonView) -> bool {
    &&& line.len() > 0
    &&& line.last() == '\n'
    &&& !line.drop_last().contains('\n')
    &&& read_as(json_document(trimmed(line)), json)
    &&& read_as(json_slice_document(encode_utf8(line.drop_last())), json)
}

/// The line that was waited for.
pub fn receive(read: LineRead) -> (r: Result<String, GremlinError>)
    ensures
        answer(r) == line_answer(read),
{
    match read {
        LineRead::Closed => Err(
            GremlinError::says("client disconnected before sending a request"),
        ),
        LineRead::Line(line) => Ok(line),
        LineRead::Failed(e) => Err(GremlinError::Io(e)),
        LineRead::TimedOut => Err(GremlinError::says("client did not send a request within 30s")),
    }
}

/// The request in a document, given what reading it gave.
pub fn request_from(document: &Result<Json, String>) -> (r: Result<DaemonRequest, GremlinError>)
    ensures
        request_result(r) == request_of_document(result_view(*document)),
{
    match document {
        Err(e) => Err(GremlinError::Json(e.clone())),
        Ok(json) => match call_of(json) {
            Some(call) => Ok(DaemonRequest::Tool(call)),
            None => match json.get_text("message") {
                Some(message) => Ok(DaemonRequest::Message(message)),
                None => Ok(DaemonRequest::Message("(empty)".to_owned())),
            },
        },
    }
}

/// The request on a line.
pub fn parse_request(line: &str) -> (r: Result<DaemonRequest, GremlinError>)
    ensures
        request_result(r) == request_on(line@),
{
    request_from(&parse(trim(line).as_str()))
}

/// The answer in a document, given what reading it gave.
pub fn response_from(document: &Result<Json, String>) -> (r: Result<String, GremlinError>)
    ensures
        answer(r) == response_of_document(result_view(*document)),
{
    match document {
        Err(e) => Err(GremlinError::Json(e.clone())),
        Ok(json) => match json.get_text("response") {
            Some(response) => Ok(response),
            None => Ok("(no response)".to_owned()),
        },
    }
}

/// The answer on a line.
pub fn parse_response(line: &str) -> (r: Result<String, GremlinError>)
    ensures
        answer(r) == response_on(line@),
{
    response_from(&parse(trim(line).as_str()))
}

/// Puts a document on a line.
fn send(json: &Json) -> (line: String)
    requires
        writable(*json),
        json@ is Object,
        readable(json@, DEEPEST as nat),
    ensures
        line@ == line_of(json@),
        carries(line@, json@),
{
    let mut line = to_text(json);
    let ghost text = line@;
    line.append("\n");
    proof {
        reveal_strlit("\n");
        assert(line@ == text + "\n"@);
        assert(line@.drop_last() =~= text);
        lemma_trimmed_line(text);
    }
    line
}

proof fn lemma_trimmed_line(text: Seq<char>)
    requires
        text.len() >= 2,
        text[0] == '{',
        text.last() == '}',
    ensures
        trimmed(text + "\n"@) == text,
{
    reveal_strlit("\n");
    let line = text + "\n"@;
    assert(line.len() > 0 && line[0] == '{');
    assert(crate::text::trimmed_start(line) == line);
    assert(line.last() == '\n');
    assert(line.drop_last() =~= text);
    assert(crate::text::trimmed_end(line) == crate::text::trimmed_end(text));
}

/// The line for a question.
pub fn question_line(message: &str) -> (line: String)
    ensures
        line@ == line_of(question_document(message@)),
        carries(line@, question_document(message@)),
        request_on(line@) == Result::<_, ErrorView>::Ok(DaemonRequestView::Message(message@)),
{
    let json = Json::empty().with("message", Json::text(message));
    proof {
        reveal_with_fuel(readable, 2);
        reveal_strlit("tool");
        reveal_strlit("message");
        assert("tool"@.len() != "message"@.len());
    }
    send(&json)
}

/// The line for a tool call without arguments.
pub fn call_line(tool: &str) -> (line: String)
    ensures
        line@ == line_of(call_document(tool@)),
        carries(line@, call_document(tool@)),
        request_on(line@) == Result::<_, ErrorView>::Ok(
            DaemonRequestView::Tool(
                CallView { name: tool@, args: crate::json::empty_object() },
            ),
        ),
{
    let json = Json::empty().with("tool", Json::text(tool));
    proof {
        reveal_with_fuel(readable, 2);
        reveal_strlit("tool");
        reveal_strlit("args");
        assert(!json@->Object_0.contains_key("args"@)) by {
            assert("args"@[0] != "tool"@[0]);
        }
    }
    send(&json)
}

/// The line for an answer.
pub fn answer_line(response: &str) -> (line: String)
    ensures
        line@ == line_of(answer_document(response@)),
        carries(line@, answer_document(response@)),
        response_on(line@) == Answer::Ok(response@),
{
    let json = Json::empty().with("response", Json::text(response));
    proof {
        reveal_with_fuel(readable, 2);
    }
    send(&json)
}

/// The line for what a tool gave back.
pub fn result_reply_line(result: &ToolResult) -> (line: String)
    ensures
        line@ == line_of(result_document(result.output@, result.success)),
        carries(line@, result_document(result.output@, result.success)),
        response_on(line@) == Answer::Ok(result.output@),
{
    let json = Json::empty().with("response", Json::text(result.output.as_str())).with(
        "success",
        Json::Bool(result.success),
    );
    proof {
        reveal_with_fuel(readable, 2);
        reveal_strlit("response");
        reveal_strlit("success");
        assert("response"@.len() != "success"@.len());
    }
    send(&json)
}

/// What is said where the daemon cannot listen.
pub fn bind_error(path: &str, detail: &str) -> (e: GremlinError)
    ensures
        e@ == ErrorView::Tool("Failed to bind to "@ + path@ + ": "@ + detail@),
{
    let mut words = "Failed to bind to ".to_owned();
    words.append(path);
    words.append(": ");
    words.append(detail);
    GremlinError::Tool(words)
}

/// What is said where there is no daemon.
pub fn not_running_error(path: &str, detail: &str) -> (e: GremlinError)
    ensures
        e@ == ErrorView::Tool("Daemon not running at "@ + path@ + ": "@ + detail@),
{
    let mut words = "Daemon not running at ".to_owned();
    words.append(path);
    words.append(": ");
    words.append(detail);
    GremlinError::Tool(words)
}

proof fn lemma_scalar_newline(c: u32)
    requires
        c != 10,
        vstd::utf8::is_scalar(c),
    ensures
        forall|i: int| 0 <= i < encode_scalar(c).len() ==> #[trigger] encode_scalar(c)[i] != 10,
{
    assert(c <= 0x7f && c != 10 ==> (c & 0x7F) as u8 != 10) by (bit_vector);
    assert(0xC0u8 | ((c >> 6) & 0x1F) as u8 != 10) by (bit_vector);
    assert(0xE0u8 | ((c >> 12) & 0x0F) as u8 != 10) by (bit_vector);
    assert(0xF0u8 | ((c >> 18) & 0x7) as u8 != 10) by (bit_vector);
    assert(0x80u8 | (c & 0x3F) as u8 != 10) by (bit_vector);
    assert(0x80u8 | ((c >> 6) & 0x3F) as u8 != 10) by (bit_vector);
    assert(0x80u8 | ((c >> 12) & 0x3F) as u8 != 10) by (bit_vector);
}

/// Text without a line feed has no line feed among its bytes.
pub proof fn lemma_no_newline_byte(s: Seq<char>)
    requires
        !s.contains('\n'),
    ensures
        !encode_utf8(s).contains(10u8),
    decreases s.len(),
{
    if s.len() > 0 {
        let rest = s.drop_first();
        assert forall|j: int| 0 <= j < rest.len() implies rest[j] != '\n' by {
            assert(rest[j] == s[j + 1]);
            assert(s.contains(s[j + 1]));
        }
        lemma_no_newline_byte(rest);
        assert(s.contains(s[0]));
        vstd::utf8::char_is_scalar(s[0]);
        vstd::utf8::char_u32_cast(s[0], s[0] as u32);
        vstd::utf8::char_u32_cast('\n', '\n' as u32);
        lemma_scalar_newline(s[0] as u32);
        let first = encode_scalar(s[0] as u32);
        let all = encode_utf8(s);
        assert forall|i: int| 0 <= i < all.len() implies all[i] != 10 by {
            if i >= first.len() {
                assert(all[i] == encode_utf8(rest)[i - first.len()]);
                assert(encode_utf8(rest).contains(encode_utf8(rest)[i - first.len()]));
            }
        }
    }
}

/// The bytes of two texts, one behind the other.
pub proof fn lemma_encode_concat(a: Seq<char>, b: Seq<char>)
    ensures
        encode_utf8(a + b) == encode_utf8(a) + encode_utf8(b),
    decreases a.len(),
{
    if a.len() == 0 {
        assert(a + b =~= b);
        assert(encode_utf8(a) + encode_utf8(b) =~= encode_utf8(b));
    } else {
        assert((a + b).drop_first() =~= a.drop_first() + b);
        lemma_encode_concat(a.drop_first(), b);
        assert(encode_utf8(a + b) =~= encode_utf8(a) + encode_utf8(b));
    }
}

} // verus!
