//! Tool calls, wherever they stand in what the model says.
use vstd::prelude::*;

use crate::json::{json_document, member, JsonView};
use crate::text::{first_occurrence, occurs_at, trimmed};
use crate::toolcall::{
    absent, chosen_call, closing, embedded_text, fenced_text, lemma_first, read_document,
    tool_call_in, CallView, Document,
};

verus! {

/// The document makes this call: it names the tool, and it has the arguments, or else there
/// are none.
pub open spec fn makes(json: JsonView, call: CallView) -> bool {
    &&& member(json, "tool"@) == Some(JsonView::Text(call.name))
    &&& match member(json, "args"@) {
        Some(args) => call.args == args,
        None => call.args == JsonView::Object(Map::empty()),
    }
}

/// The document makes no call.
pub open spec fn makes_none(json: JsonView) -> bool {
    !(member(json, "tool"@) matches Some(JsonView::Text(_)))
}

/// Whatever call is found, it is the one that a document makes, with that document's
/// arguments, wherever it stands.
pub proof fn law_calls_come_from_documents(
    fenced: Option<Document>,
    whole: Document,
    embedded: Option<Document>,
)
    ensures
        chosen_call(fenced, whole, embedded) matches Some(call) ==> {
            ||| fenced matches Some(Ok(json)) && makes(json, call)
            ||| whole matches Ok(json) && makes(json, call)
            ||| embedded matches Some(Ok(json)) && makes(json, call)
        },
{
}

/// A document in a fence that can be read decides alone. Without one, the whole of what was
/// said counts, where it makes a call, and after it the object in its midst.
pub proof fn law_the_nearest_document_decides(
    fenced: Option<Document>,
    whole: Document,
    embedded: Option<Document>,
    json: JsonView,
    call: CallView,
)
    requires
        makes(json, call),
    ensures
        fenced == Some(Document::Ok(json)) ==> chosen_call(fenced, whole, embedded) == Some(call),
        !(fenced matches Some(Ok(_))) && whole == Document::Ok(json) ==> chosen_call(
            fenced,
            whole,
            embedded,
        ) == Some(call),
        !(fenced matches Some(Ok(_))) && (whole matches Ok(w) ==> makes_none(w)) && embedded
            == Some(Document::Ok(json)) ==> chosen_call(fenced, whole, embedded) == Some(call),
{
}

/// Where no document makes a call, there is none.
pub proof fn law_no_document_no_call(
    fenced: Option<Document>,
    whole: Document,
    embedded: Option<Document>,
)
    requires
        fenced matches Some(Ok(json)) ==> makes_none(json),
        whole matches Ok(json) ==> makes_none(json),
        embedded matches Some(Ok(json)) ==> makes_none(json),
    ensures
        chosen_call(fenced, whole, embedded) is None,
{
    if let Some(call) = chosen_call(fenced, whole, embedded) {
        law_calls_come_from_documents(fenced, whole, embedded);
    }
}

/// A call that is all that the model says, without a fence, is read with its name and its
/// arguments.
pub proof fn law_bare_call_is_read(response: Seq<char>, json: JsonView, call: CallView)
    requires
        absent(response, "```tool"@),
        json_document(trimmed(response)) == Document::Ok(json),
        makes(json, call),
    ensures
        tool_call_in(response) == Some(call),
{
    if let Some(at) = first_occurrence(response, "```tool"@, 0) {
        crate::text::lemma_first_occurrence_occurs(response, "```tool"@, 0);
        assert(occurs_at(response, "```tool"@, at));
    }
    assert(fenced_text(response) is None);
}

/// How many braces are open after the first `n` characters.
pub open spec fn open_braces(s: Seq<char>, n: nat) -> int
    decreases n,
{
    if n == 0 {
        0
    } else {
        open_braces(s, (n - 1) as nat) + (if s[n - 1] == '{' {
            1int
        } else if s[n - 1] == '}' {
            -1
        } else {
            0
        })
    }
}

/// The text is one object: the brace that it starts with is closed by the one that it ends
/// with, and not before.
pub open spec fn one_object(s: Seq<char>) -> bool {
    &&& s.len() > 0
    &&& s[0] == '{'
    &&& forall|n: nat| 0 < n < s.len() ==> #[trigger] open_braces(s, n) > 0
    &&& open_braces(s, s.len()) == 0
}

proof fn lemma_closing(s: Seq<char>, object: Seq<char>, start: int, n: nat)
    requires
        one_object(object),
        0 <= start,
        start + object.len() <= s.len(),
        s.subrange(start, start + object.len()) == object,
        n < object.len(),
    ensures
        closing(s, start + n, open_braces(object, n) as nat) == Some(start + object.len()),
    decreases object.len() - n,
{
    let at = start + n;
    assert(object[n as int] == s.subrange(start, start + object.len())[n as int]);
    assert(s[at] == object[n as int]);
    let here = open_braces(object, n);
    let next = open_braces(object, n + 1);
    assert(here >= 0) by {
        if n > 0 {
            assert(open_braces(object, n) > 0);
        }
    }
    if n + 1 < object.len() {
        assert(open_braces(object, n + 1) > 0);
        lemma_closing(s, object, start, n + 1);
        if s[at] == '}' {
            assert(here != 1);
        }
    } else {
        assert(next == 0);
        if n == 0 {
            reveal_with_fuel(open_braces, 2);
        }
    }
}

/// A call in the midst of what the model says is read with its name and its arguments: it
/// starts with the key of a tool call, nothing before it does, there is no fence, and the
/// whole is not a call itself.
pub proof fn law_embedded_call_is_read(
    before: Seq<char>,
    object: Seq<char>,
    after: Seq<char>,
    json: JsonView,
    call: CallView,
)
    requires
        absent(before + object + after, "```tool"@),
        absent(before, "{\"tool\""@),
        occurs_at(object, "{\"tool\""@, 0),
        one_object(object),
        json_document(trimmed(before + object + after)) matches Ok(whole) ==> makes_none(whole),
        json_document(object) == Document::Ok(json),
        makes(json, call),
    ensures
        embedded_text(before + object + after) == Some(object),
        tool_call_in(before + object + after) == Some(call),
{
    reveal_strlit("{\"tool\"");
    let key = "{\"tool\""@;
    let s = before + object + after;
    let start = before.len() as int;
    if let Some(at) = first_occurrence(s, "```tool"@, 0) {
        crate::text::lemma_first_occurrence_occurs(s, "```tool"@, 0);
        assert(occurs_at(s, "```tool"@, at));
    }
    assert(s.subrange(start, start + 7) =~= object.subrange(0, 7));
    assert(occurs_at(s, key, start));
    assert forall|j: int| 0 <= j < start implies !occurs_at(s, key, j) by {
        if occurs_at(s, key, j) {
            let found = s.subrange(j, j + 7);
            if j + 7 <= start {
                assert(before.subrange(j, j + 7) =~= found);
                assert(occurs_at(before, key, j));
            } else {
                assert(found[start - j] == s[start]);
                assert(s[start] == object.subrange(0, 7)[0]);
            }
        }
    }
    lemma_first(s, key, 0, start);
    assert(s.subrange(start, start + object.len()) =~= object);
    assert(object[0] == object.subrange(0, 7)[0]);
    lemma_closing(s, object, start, 0);
    assert(embedded_text(s) == Some(object));
    law_the_nearest_document_decides(
        None,
        json_document(trimmed(s)),
        read_document(Some(object)),
        json,
        call,
    );
}

} // verus!
