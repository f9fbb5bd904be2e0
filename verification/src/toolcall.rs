//! Tool calls in what the model says.
use vstd::prelude::*;

use crate::json::{
    empty_object, json_document, json_text, member, member_text, parse, read_as, readable,
    result_view, to_text, writable, Json, JsonView, DEEPEST,
};
use crate::laws::calls::makes;
use crate::ollama::ToolCall;
use crate::text::{
    chars_of, find_from, first_occurrence, lemma_first_occurrence_occurs, occurs_at, slice, trim,
    trimmed,
};
use crate::tools::ToolResult;

verus! {

/// The content of a `ToolCall`.
pub struct CallView {
    pub name: Seq<char>,
    pub args: JsonView,
}

impl View for ToolCall {
    type V = CallView;

    open spec fn view(&self) -> CallView {
        CallView { name: self.name@, args: self.args@ }
    }
}

/// The content of a call that was found.
pub open spec fn call_view(call: Option<ToolCall>) -> Option<CallView> {
    match call {
        Some(c) => Some(c@),
        None => None,
    }
}

/// What is between the first tool fence and the fence after it, without the white space
/// around it.
pub open spec fn fenced_text(response: Seq<char>) -> Option<Seq<char>> {
    match first_occurrence(response, "```tool"@, 0) {
        None => None,
        Some(start) => {
            let from = start + "```tool"@.len();
            match first_occurrence(response, "```"@, from) {
                None => None,
                Some(end) => Some(trimmed(response.subrange(from, end))),
            }
        },
    }
}

/// The position behind the brace that closes what `depth` braces before `i` have opened.
pub open spec fn closing(s: Seq<char>, i: int, depth: nat) -> Option<int>
    decreases s.len() - i,
{
    if i < 0 || i >= s.len() {
        None
    } else if s[i] == '{' {
        closing(s, i + 1, depth + 1)
    } else if s[i] == '}' {
        if depth == 1 {
            Some(i + 1)
        } else {
            closing(s, i + 1, (depth - 1) as nat)
        }
    } else {
        closing(s, i + 1, depth)
    }
}

/// The first object that starts with the key of a tool call, up to the brace that closes
/// it.
pub open spec fn embedded_text(response: Seq<char>) -> Option<Seq<char>> {
    match first_occurrence(response, "{\"tool\""@, 0) {
        None => None,
        Some(start) => match closing(response, start, 0) {
            None => None,
            Some(end) => Some(response.subrange(start, end)),
        },
    }
}

/// The call that a document makes: the tool it names, and the arguments, which may be
/// left out.
pub open spec fn call_in(json: JsonView) -> Option<CallView> {
    match member_text(json, "tool"@) {
        Some(name) => Some(
            CallView {
                name,
                args: match member(json, "args"@) {
                    Some(args) => args,
                    None => empty_object(),
                },
            },
        ),
        None => None,
    }
}

/// What reading a document gave.
pub type Document = Result<JsonView, Seq<char>>;

/// The call that is made: a readable document in the fence decides alone; else the whole
/// response counts, where it is a call; else the object in its midst.
pub open spec fn chosen_call(
    fenced: Option<Document>,
    whole: Document,
    embedded: Option<Document>,
) -> Option<CallView> {
    match fenced {
        Some(Ok(json)) => call_in(json),
        _ => match whole {
            Ok(json) if call_in(json) is Some => call_in(json),
            _ => match embedded {
                Some(Ok(json)) => call_in(json),
                _ => None,
            },
        },
    }
}

/// What reading an optional document gave.
pub open spec fn read_document(text: Option<Seq<char>>) -> Option<Document> {
    match text {
        Some(t) => Some(json_document(t)),
        None => None,
    }
}

/// The call that a response makes.
pub open spec fn tool_call_in(response: Seq<char>) -> Option<CallView> {
    chosen_call(
        read_document(fenced_text(response)),
        json_document(trimmed(response)),
        read_document(embedded_text(response)),
    )
}

/// The content of a document that may be there.
pub open spec fn document_view(document: Option<Result<Json, String>>) -> Option<Document> {
    match document {
        Some(r) => Some(result_view(r)),
        None => None,
    }
}

/// What the model is told of a result.
pub open spec fn result_line(tool: Seq<char>, success: bool, output: Seq<char>) -> Seq<char> {
    "Tool `"@ + tool + (if success {
        "` returned:\n"@
    } else {
        "` failed:\n"@
    }) + output
}

/// What is in the first tool fence.
pub fn fenced_block(response: &str) -> (r: Option<String>)
    ensures
        crate::json::text_view(r) == fenced_text(response@),
{
    let chars = chars_of(response);
    let fence = chars_of("```tool");
    let end_fence = chars_of("```");
    match find_from(&chars, &fence, 0) {
        None => None,
        Some(start) => {
            proof {
                lemma_first_occurrence_occurs(response@, "```tool"@, 0);
            }
            let total: usize = chars.len();
            assert(start + fence@.len() <= total);
            let from: usize = start + fence.len();
            match find_from(&chars, &end_fence, from) {
                None => None,
                Some(end) => {
                    proof {
                        lemma_first_occurrence_occurs(response@, "```"@, from as int);
                    }
                    Some(trim(slice(response, from, end).as_str()))
                },
            }
        },
    }
}

/// The object of a tool call in the midst of a response.
pub fn embedded_object(response: &str) -> (r: Option<String>)
    ensures
        crate::json::text_view(r) == embedded_text(response@),
{
    let chars = chars_of(response);
    let key = chars_of("{\"tool\"");
    let start: usize = match find_from(&chars, &key, 0) {
        None => {
            return None;
        },
        Some(start) => start,
    };
    proof {
        lemma_first_occurrence_occurs(response@, "{\"tool\""@, 0);
        reveal_strlit("{\"tool\"");
        assert(response@[start as int] == "{\"tool\""@[0]);
    }
    let mut depth: usize = 0;
    let mut i: usize = start;
    while i < chars.len()
        invariant
            start <= i <= chars@.len(),
            chars@ == response@,
            depth <= i,
            i == start ==> depth == 0 && start < chars@.len() && chars@[start as int] == '{',
            i > start ==> depth > 0,
            first_occurrence(response@, "{\"tool\""@, 0) == Some(start as int),
            closing(response@, start as int, 0) == closing(response@, i as int, depth as nat),
        decreases chars@.len() - i,
    {
        if chars[i] == '{' {
            depth = depth + 1;
        } else if chars[i] == '}' {
            if depth == 1 {
                return Some(slice(response, start, i + 1));
            }
            depth = depth - 1;
        }
        i = i + 1;
    }
    None
}

/// The call that a document makes.
pub fn call_of(json: &Json) -> (r: Option<ToolCall>)
    ensures
        call_view(r) == call_in(json@),
{
    let name = json.get_text("tool")?;
    let args = match json.get("args") {
        Some(args) => args.copy(),
        None => Json::empty(),
    };
    Some(ToolCall { name, args })
}

/// The call that is made, given what reading the three places gave.
pub fn choose_call(
    fenced: &Option<Result<Json, String>>,
    whole: &Result<Json, String>,
    embedded: &Option<Result<Json, String>>,
) -> (r: Option<ToolCall>)
    ensures
        call_view(r) == chosen_call(
            document_view(*fenced),
            result_view(*whole),
            document_view(*embedded),
        ),
        r matches Some(call) ==> {
            ||| *fenced matches Some(Ok(json)) && makes(json@, call@)
            ||| *whole matches Ok(json) && makes(json@, call@)
            ||| *embedded matches Some(Ok(json)) && makes(json@, call@)
        },
{
    if let Some(Ok(json)) = fenced {
        return call_of(json);
    }
    if let Ok(json) = whole {
        let call = call_of(json);
        if call.is_some() {
            return call;
        }
    }
    if let Some(Ok(json)) = embedded {
        return call_of(json);
    }
    None
}

/// The call that a response makes.
pub fn parse_tool_call(response: &str) -> (r: Option<ToolCall>)
    ensures
        call_view(r) == tool_call_in(response@),
{
    let fenced = match fenced_block(response) {
        Some(text) => Some(parse(text.as_str())),
        None => None,
    };
    let whole = parse(trim(response).as_str());
    let embedded = match embedded_object(response) {
        Some(text) => Some(parse(text.as_str())),
        None => None,
    };
    choose_call(&fenced, &whole, &embedded)
}

/// What the model is told of a result.
pub fn tool_result_to_string(result: &ToolResult) -> (r: String)
    ensures
        r@ == result_line(result.tool@, result.success, result.output@),
{
    let mut r = "Tool `".to_owned();
    r.append(result.tool.as_str());
    if result.success {
        r.append("` returned:\n");
    } else {
        r.append("` failed:\n");
    }
    r.append(result.output.as_str());
    r
}

/// The first of the positions at which a pattern stands.
pub proof fn lemma_first(s: Seq<char>, pat: Seq<char>, from: int, at: int)
    requires
        0 <= from <= at,
        occurs_at(s, pat, at),
        forall|j: int| from <= j < at ==> !occurs_at(s, pat, j),
    ensures
        first_occurrence(s, pat, from) == Some(at),
    decreases at - from,
{
    if from < at {
        lemma_first(s, pat, from + 1, at);
    }
}

/// `pat` stands nowhere in `s`.
pub open spec fn absent(s: Seq<char>, pat: Seq<char>) -> bool {
    forall|i: int| !(#[trigger] occurs_at(s, pat, i))
}

/// A call in a fence is read whatever stands around it: no tool fence stands before it, no
/// fence stands in it, no backtick touches the fence that closes it, and the document in
/// it can be read.
pub proof fn law_fenced_call_is_read(
    before: Seq<char>,
    body: Seq<char>,
    after: Seq<char>,
    json: JsonView,
)
    requires
        absent(before, "```tool"@),
        absent(body, "```"@),
        body.len() > 0 ==> body.last() != '`',
        json_document(trimmed(body)) == Document::Ok(json),
    ensures
        fenced_text(before + "```tool"@ + body + "```"@ + after) == Some(trimmed(body)),
        tool_call_in(before + "```tool"@ + body + "```"@ + after) == call_in(json),
{
    reveal_strlit("```tool");
    reveal_strlit("```");
    let fence = "```tool"@;
    let s = before + fence + body + "```"@ + after;
    let start = before.len() as int;
    let from = start + 7;
    let end = from + body.len();
    assert(s.subrange(start, from) =~= fence);
    assert(occurs_at(s, fence, start));
    assert forall|j: int| 0 <= j < start implies !occurs_at(s, fence, j) by {
        if occurs_at(s, fence, j) {
            let found = s.subrange(j, j + 7);
            if j + 7 <= start {
                assert(before.subrange(j, j + 7) =~= found);
                assert(occurs_at(before, fence, j));
            } else if start - j <= 3 {
                assert(found[3] == s[j + 3] && s[j + 3] == fence[j + 3 - start]);
            } else {
                assert(found[start - j] == s[start] && s[start] == fence[0]);
            }
        }
    }
    lemma_first(s, fence, 0, start);
    assert(s.subrange(end, end + 3) =~= "```"@);
    assert(occurs_at(s, "```"@, end));
    assert forall|j: int| from <= j < end implies !occurs_at(s, "```"@, j) by {
        if occurs_at(s, "```"@, j) {
            let found = s.subrange(j, j + 3);
            if j + 3 <= end {
                assert(body.subrange(j - from, j - from + 3) =~= found);
                assert(occurs_at(body, "```"@, j - from));
            } else {
                assert(found[end - 1 - j] == s[end - 1] && s[end - 1] == body.last());
            }
        }
    }
    lemma_first(s, "```"@, from, end);
    assert(s.subrange(from, end) =~= body);
}

/// The document of a call, as the model is told to write it.
pub open spec fn call_json(call: CallView) -> JsonView {
    JsonView::Object(
        Map::empty().insert("tool"@, JsonView::Text(call.name)).insert("args"@, call.args),
    )
}

/// The text is the JSON text of an object, which is read from it as it was.
pub open spec fn written(text: Seq<char>, json: JsonView) -> bool {
    &&& text == json_text(json)
    &&& text.len() >= 2
    &&& text[0] == '{'
    &&& text.last() == '}'
    &&& read_as(json_document(text), json)
}

/// A call in the format that the model is told to use.
pub open spec fn call_block_of(text: Seq<char>) -> Seq<char> {
    "```tool\n"@ + text + "\n```"@
}

/// What the model writes in the format that it is told to use is read as the same name and
/// the same arguments, whatever stands around it. No tool fence may stand before it, and
/// no fence in its document.
pub proof fn law_written_call_is_read(
    before: Seq<char>,
    text: Seq<char>,
    after: Seq<char>,
    call: CallView,
)
    requires
        written(text, call_json(call)),
        absent(before, "```tool"@),
        absent(text, "```"@),
    ensures
        tool_call_in(before + call_block_of(text) + after) == Some(call),
{
    reveal_strlit("```tool");
    reveal_strlit("```tool\n");
    reveal_strlit("```");
    reveal_strlit("\n```");
    reveal_strlit("tool");
    reveal_strlit("args");
    assert("args"@[0] != "tool"@[0]);
    let json = call_json(call);
    assert(member(json, "args"@) == Some(call.args));
    assert(member_text(json, "tool"@) == Some(call.name));
    let body = seq!['\n'] + text + seq!['\n'];
    assert(before + call_block_of(text) + after =~= before + "```tool"@ + body + "```"@ + after);
    assert(body.drop_first().drop_last() =~= text);
    assert(trimmed(body) == text) by {
        let rest = body.drop_first();
        assert(crate::text::trimmed_start(body) == crate::text::trimmed_start(rest));
        assert(rest[0] == '{');
        assert(crate::text::trimmed_start(rest) == rest);
        assert(rest.drop_last() =~= text);
        assert(crate::text::trimmed_end(rest) == crate::text::trimmed_end(text));
    }
    assert forall|i: int| !(#[trigger] occurs_at(body, "```"@, i)) by {
        if occurs_at(body, "```"@, i) {
            let found = body.subrange(i, i + 3);
            assert(found[0] == body[i] && found[2] == body[i + 2]);
            assert(text.subrange(i - 1, i + 2) =~= found);
            assert(occurs_at(text, "```"@, i - 1));
        }
    }
    law_fenced_call_is_read(before, body, after, json);
}

/// Writes a call in the format that the model is told to use. It is read as the same call,
/// whatever stands around it.
pub fn call_block(call: &ToolCall) -> (r: String)
    requires
        writable(call.args),
    ensures
        r@ == call_block_of(json_text(call_json(call@))),
        readable(call@.args, (DEEPEST - 1) as nat) ==> written(
            json_text(call_json(call@)),
            call_json(call@),
        ),
        readable(call@.args, (DEEPEST - 1) as nat) && absent(
            json_text(call_json(call@)),
            "```"@,
        ) ==> forall|before: Seq<char>, after: Seq<char>|
            absent(before, "```tool"@) ==> #[trigger] tool_call_in(before + r@ + after) == Some(
                call@,
            ),
{
    let json = Json::empty().with("tool", Json::text(call.name.as_str())).with(
        "args",
        call.args.copy(),
    );
    let text = to_text(&json);
    let mut r = "```tool\n".to_owned();
    r.append(text.as_str());
    r.append("\n```");
    proof {
        assert(json@ == call_json(call@));
        if readable(call@.args, (DEEPEST - 1) as nat) {
            reveal_with_fuel(readable, 2);
            assert(readable(json@, DEEPEST as nat));
            assert(written(text@, json@));
            if absent(text@, "```"@) {
                assert forall|before: Seq<char>, after: Seq<char>|
                    absent(before, "```tool"@) implies #[trigger] tool_call_in(
                    before + r@ + after,
                ) == Some(call@) by {
                    law_written_call_is_read(before, text@, after, call@);
                }
            }
        }
    }
    r
}

/// What does not name a tool is no call, wherever it stands.
pub proof fn law_document_without_tool_is_no_call(json: JsonView)
    requires
        member_text(json, "tool"@) is None,
    ensures
        call_in(json) is None,
        chosen_call(Some(Ok(json)), Ok(json), Some(Ok(json))) is None,
        chosen_call(None, Ok(json), None) is None,
{
}

} // verus!
