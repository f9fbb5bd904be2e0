//! A conversation as it is kept on disk.
use vstd::prelude::*;

use crate::conversation::{session_name, Conversation, ConversationView};
use crate::json::{
    json_document, json_pretty_text, member, parse, read_as, readable, result_view, text_view,
    to_pretty_text, writable, Json, JsonView, DEEPEST,
};
use crate::ollama::{messages_view, Message, MessageView};
use crate::toolcall::Document;

verus! {

/// The document of a message.
pub open spec fn message_document(m: MessageView) -> JsonView {
    JsonView::Object(
        Map::empty().insert("role"@, JsonView::Text(m.role)).insert(
            "content"@,
            JsonView::Text(m.content),
        ),
    )
}

/// The document of a conversation.
pub open spec fn conversation_document(c: ConversationView) -> JsonView {
    JsonView::Object(
        Map::empty().insert("session_id"@, JsonView::Text(c.session_id)).insert(
            "messages"@,
            JsonView::Array(c.messages.map_values(|m: MessageView| message_document(m))),
        ),
    )
}

/// The text that a value is.
pub open spec fn text_in(json: JsonView) -> Option<Seq<char>> {
    match json {
        JsonView::Text(t) => Some(t),
        _ => None,
    }
}

/// The items of the array that a value is.
pub open spec fn items_in(json: JsonView) -> Option<Seq<JsonView>> {
    match json {
        JsonView::Array(items) => Some(items),
        _ => None,
    }
}

/// The two fields of a record: an object has them under their keys, beside any others; an
/// array has them in their order, and nothing else.
pub open spec fn fields(json: JsonView, first: Seq<char>, second: Seq<char>) -> Option<
    (JsonView, JsonView),
> {
    match json {
        JsonView::Array(items) => if items.len() == 2 {
            Some((items[0], items[1]))
        } else {
            None
        },
        _ => match (member(json, first), member(json, second)) {
            (Some(a), Some(b)) => Some((a, b)),
            _ => None,
        },
    }
}

/// The message in a document.
pub open spec fn message_in(json: JsonView) -> Option<MessageView> {
    match fields(json, "role"@, "content"@) {
        Some((role, content)) => match (text_in(role), text_in(content)) {
            (Some(role), Some(content)) => Some(MessageView { role, content }),
            _ => None,
        },
        None => None,
    }
}

/// The messages in the first `n` documents, where each holds one.
pub open spec fn messages_in(items: Seq<JsonView>, n: nat) -> Option<Seq<MessageView>>
    decreases n,
{
    if n == 0 {
        Some(Seq::empty())
    } else {
        match (messages_in(items, (n - 1) as nat), message_in(items[n - 1])) {
            (Some(before), Some(m)) => Some(before.push(m)),
            _ => None,
        }
    }
}

/// The conversation in a document. Where a key stands more than once in the text, the
/// document holds the last value under it, and that one counts: a text of that kind, which
/// is never saved, is read rather than refused.
pub open spec fn conversation_in(json: JsonView) -> Option<ConversationView> {
    match fields(json, "session_id"@, "messages"@) {
        Some((session_id, messages)) => match (text_in(session_id), items_in(messages)) {
            (Some(session_id), Some(items)) => match messages_in(items, items.len()) {
                Some(messages) => Some(ConversationView { messages, session_id }),
                None => None,
            },
            _ => None,
        },
        None => None,
    }
}

/// The conversation in a document that was read.
pub open spec fn conversation_of(document: Document) -> Option<ConversationView> {
    match document {
        Ok(json) => conversation_in(json),
        Err(_) => None,
    }
}

/// A conversation that starts at this moment.
pub open spec fn fresh(nanos: u128) -> ConversationView {
    ConversationView { messages: Seq::empty(), session_id: session_name(nanos as nat) }
}

/// The conversation that goes on: the one that was saved, where there is one and it can be
/// read, or else a fresh one.
pub open spec fn loaded(saved: Option<Seq<char>>, nanos: u128) -> ConversationView {
    match saved {
        Some(text) => match conversation_of(json_document(text)) {
            Some(c) => c,
            None => fresh(nanos),
        },
        None => fresh(nanos),
    }
}

/// The content of a conversation that was found.
pub open spec fn found_conversation(c: Option<Conversation>) -> Option<ConversationView> {
    match c {
        Some(conversation) => Some(conversation@),
        None => None,
    }
}

proof fn lemma_unread(items: Seq<JsonView>, k: nat, n: nat)
    requires
        k <= n,
        messages_in(items, k) is None,
    ensures
        messages_in(items, n) is None,
    decreases n,
{
    if k < n {
        lemma_unread(items, k, (n - 1) as nat);
    }
}

fn read_fields<'a>(json: &'a Json, first: &str, second: &str) -> (r: Option<(&'a Json, &'a Json)>)
    ensures
        match r {
            Some((a, b)) => fields(json@, first@, second@) == Some((a@, b@)),
            None => fields(json@, first@, second@) is None,
        },
{
    match json {
        Json::Array(items) => {
            let ghost views = json@->Array_0;
            assert(views.len() == items@.len());
            if items.len() == 2 {
                assert(views[0] == items@[0]@ && views[1] == items@[1]@);
                Some((&items[0], &items[1]))
            } else {
                None
            }
        },
        _ => {
            let a = json.get(first)?;
            let b = json.get(second)?;
            Some((a, b))
        },
    }
}

fn read_text(json: &Json) -> (r: Option<String>)
    ensures
        text_view(r) == text_in(json@),
{
    match json {
        Json::Text(t) => Some(t.clone()),
        _ => None,
    }
}

fn read_message(json: &Json) -> (r: Option<Message>)
    ensures
        match r {
            Some(m) => message_in(json@) == Some(m@),
            None => message_in(json@) is None,
        },
{
    let (first, second) = read_fields(json, "role", "content")?;
    let role = read_text(first)?;
    let content = read_text(second)?;
    Some(Message { role, content })
}

fn read_messages(json: &Json) -> (r: Option<Vec<Message>>)
    ensures
        match (r, items_in(json@)) {
            (Some(messages), Some(items)) => messages_in(items, items.len()) == Some(
                messages_view(messages@),
            ),
            (Some(_), None) => false,
            (None, Some(items)) => messages_in(items, items.len()) is None,
            (None, None) => true,
        },
{
    match json {
        Json::Array(items) => {
            let ghost views = json@->Array_0;
            let mut r: Vec<Message> = Vec::new();
            let mut i: usize = 0;
            assert(messages_view(r@) =~= Seq::<MessageView>::empty());
            while i < items.len()
                invariant
                    i <= items@.len(),
                    views.len() == items@.len(),
                    forall|j: int| 0 <= j < items@.len() ==> #[trigger] views[j] == items@[j]@,
                    items_in(json@) == Some(views),
                    messages_in(views, i as nat) == Some(messages_view(r@)),
                decreases items@.len() - i,
            {
                assert(views[i as int] == items@[i as int]@);
                let ghost before = r@;
                match read_message(&items[i]) {
                    Some(m) => {
                        r.push(m);
                        assert(messages_view(r@) =~= messages_view(before).push(m@));
                    },
                    None => {
                        proof {
                            lemma_unread(views, (i + 1) as nat, views.len());
                        }
                        return None;
                    },
                }
                i = i + 1;
            }
            Some(r)
        },
        _ => None,
    }
}

/// The conversation in a document, given what reading it gave.
pub fn conversation_from(document: &Result<Json, String>) -> (r: Option<Conversation>)
    ensures
        found_conversation(r) == conversation_of(result_view(*document)),
{
    match document {
        Ok(json) => {
            let (first, second) = read_fields(json, "session_id", "messages")?;
            let session_id = read_text(first)?;
            let messages = read_messages(second)?;
            Some(Conversation { messages, session_id })
        },
        Err(_) => None,
    }
}

/// The conversation in a text that was saved.
pub fn read_conversation(text: &str) -> (r: Option<Conversation>)
    ensures
        found_conversation(r) == conversation_of(json_document(text@)),
{
    conversation_from(&parse(text))
}

fn message_json(m: &Message) -> (json: Json)
    ensures
        json@ == message_document(m@),
        writable(json),
{
    Json::empty().with("role", Json::text(m.role.as_str())).with(
        "content",
        Json::text(m.content.as_str()),
    )
}

proof fn lemma_readable(c: ConversationView)
    ensures
        readable(conversation_document(c), DEEPEST as nat),
{
    reveal_with_fuel(readable, 4);
    let items = c.messages.map_values(|m: MessageView| message_document(m));
    assert forall|i: int| 0 <= i < items.len() implies readable(
        #[trigger] items[i],
        (DEEPEST - 2) as nat,
    ) by {
        assert(items[i] == message_document(c.messages[i]));
    }
    assert(readable(JsonView::Array(items), (DEEPEST - 1) as nat));
}

proof fn lemma_messages_come_back(all: Seq<MessageView>, n: nat)
    requires
        n <= all.len(),
    ensures
        messages_in(all.map_values(|m: MessageView| message_document(m)), n) == Some(
            all.take(n as int),
        ),
    decreases n,
{
    if n == 0 {
        assert(all.take(0) =~= Seq::<MessageView>::empty());
    } else {
        let items = all.map_values(|m: MessageView| message_document(m));
        let m = all[n - 1];
        lemma_messages_come_back(all, (n - 1) as nat);
        reveal_strlit("role");
        reveal_strlit("content");
        assert("role"@.len() != "content"@.len());
        assert(items[n - 1] == message_document(m));
        assert(message_in(items[n - 1]) == Some(m));
        assert(all.take(n as int) =~= all.take(n - 1).push(m));
    }
}

proof fn lemma_conversation_comes_back(c: ConversationView)
    ensures
        conversation_in(conversation_document(c)) == Some(c),
{
    reveal_strlit("session_id");
    reveal_strlit("messages");
    assert("session_id"@.len() != "messages"@.len());
    let items = c.messages.map_values(|m: MessageView| message_document(m));
    let json = conversation_document(c);
    assert(fields(json, "session_id"@, "messages"@) == Some(
        (JsonView::Text(c.session_id), JsonView::Array(items)),
    ));
    lemma_messages_come_back(c.messages, items.len());
    assert(c.messages.take(items.len() as int) =~= c.messages);
}

/// A conversation that was saved comes back: whoever loads the text gets its messages and
/// its session, at whatever moment.
pub proof fn law_saved_conversation_comes_back(c: ConversationView, text: Seq<char>, nanos: u128)
    requires
        read_as(json_document(text), conversation_document(c)),
    ensures
        loaded(Some(text), nanos) == c,
{
    lemma_conversation_comes_back(c);
}

/// Without a text that holds a conversation, the conversation starts afresh.
pub proof fn law_unreadable_conversation_starts_afresh(saved: Option<Seq<char>>, nanos: u128)
    requires
        saved matches Some(text) ==> conversation_of(json_document(text)) is None,
    ensures
        loaded(saved, nanos).messages == Seq::<MessageView>::empty(),
        loaded(saved, nanos).session_id == session_name(nanos as nat),
{
}

impl Conversation {
    /// The text by which the conversation is saved. Loaded again, at whatever moment, it
    /// gives the conversation.
    pub fn saved_text(&self) -> (r: String)
        ensures
            r@ == json_pretty_text(conversation_document(self@)),
            forall|nanos: u128| #[trigger] loaded(Some(r@), nanos) == self@,
    {
        let mut items: Vec<Json> = Vec::new();
        let mut i: usize = 0;
        while i < self.messages.len()
            invariant
                i <= self.messages@.len(),
                items@.len() == i,
                forall|j: int|
                    0 <= j < i ==> (#[trigger] items@[j])@ == message_document(
                        self.messages@[j]@,
                    ) && writable(items@[j]),
            decreases self.messages@.len() - i,
        {
            items.push(message_json(&self.messages[i]));
            i = i + 1;
        }
        assert(items@.map_values(|j: Json| j@) =~= self@.messages.map_values(
            |m: MessageView| message_document(m),
        ));
        let json = Json::empty().with("session_id", Json::text(self.session_id.as_str())).with(
            "messages",
            Json::array(items),
        );
        let r = to_pretty_text(&json);
        proof {
            lemma_readable(self@);
            assert forall|nanos: u128| #[trigger] loaded(Some(r@), nanos) == self@ by {
                law_saved_conversation_comes_back(self@, r@, nanos);
            }
        }
        r
    }
}

} // verus!
