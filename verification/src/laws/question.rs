//! A question, from what is sent to what is remembered.
use vstd::prelude::*;

use crate::config::Config;
use crate::context::{prompt_string, ContextView};
use crate::conversation::{
    is_system, law_trim_keeps_the_last_message, lemma_partition, other_messages, session_name,
    trimmed_messages, ConversationView,
};
use crate::daemon::{
    asked, clear_answer, cleared, continued, continued_and_cut, exchange, history, is_clear,
    next_step, resumed, QueryStepView, QueryView,
};
use crate::json::{json_document, member, JsonView};
use crate::ollama::{
    assistant_message, chat_request_view, system_message, user_message, MessageView, Ollama,
};
use crate::saved::{conversation_document, conversation_of, loaded, message_document, message_in};
use crate::text::trimmed;
use crate::toolcall::tool_call_in;
use crate::tools::ToolResult;

verus! {

/// A message that someone said.
pub open spec fn says(m: MessageView, role: Seq<char>, content: Seq<char>) -> bool {
    m.role == role && m.content == content
}

/// A message sets the scene exactly where its role is `system`, and the three kinds of
/// messages have the roles by which the model knows them.
pub proof fn law_messages_have_their_roles(content: Seq<char>, m: MessageView)
    ensures
        says(system_message(content), "system"@, content),
        says(user_message(content), "user"@, content),
        says(assistant_message(content), "assistant"@, content),
        is_system(m) <==> m.role == "system"@,
        !is_system(user_message(content)) && !is_system(assistant_message(content)),
{
    reveal_strlit("system");
    reveal_strlit("user");
    reveal_strlit("assistant");
    assert("user"@.len() != "system"@.len());
    assert("assistant"@.len() != "system"@.len());
}

/// The model is sent, in this order: the system prompt, the description of the tools, the
/// context where something is known, what was said before, and the question.
pub proof fn law_question_is_sent_behind_everything_else(
    c: Option<ConversationView>,
    system_prompt: Seq<char>,
    tools_prompt: Seq<char>,
    context: ContextView,
    message: Seq<char>,
)
    ensures
        ({
            let sent = asked(c, system_prompt, tools_prompt, context, message).messages;
            let before = if prompt_string(context).len() > 0 {
                3int
            } else {
                2
            };
            let said = match c {
                Some(v) => v.messages,
                None => Seq::empty(),
            };
            &&& sent.len() == before + said.len() + 1
            &&& says(sent[0], "system"@, system_prompt)
            &&& says(sent[1], "system"@, tools_prompt)
            &&& before == 3 ==> says(sent[2], "system"@, prompt_string(context))
            &&& sent.subrange(before, before + said.len()) == said
            &&& says(sent.last(), "user"@, message)
        }),
        asked(c, system_prompt, tools_prompt, context, message).rounds == 0,
{
    let sent = asked(c, system_prompt, tools_prompt, context, message).messages;
    let before = if prompt_string(context).len() > 0 {
        3int
    } else {
        2
    };
    let said = history(c);
    assert(sent.subrange(before, before + said.len()) =~= said);
}

/// The question is remembered as the user's, behind what was said before.
pub proof fn law_question_is_remembered(c: ConversationView, message: Seq<char>)
    ensures
        continued(Some(c), seq![user_message(message)]) matches Some(w) && w.session_id
            == c.session_id && w.messages.drop_last() == c.messages && says(
            w.messages.last(),
            "user"@,
            message,
        ),
        continued(None, seq![user_message(message)]) is None,
{
    let w = continued(Some(c), seq![user_message(message)])->0;
    assert(w.messages.drop_last() =~= c.messages);
}

/// Where the model asks for a tool and may still have it, that tool is run with those
/// arguments; otherwise what it says is the answer, word for word.
pub proof fn law_the_model_gets_its_tool_or_answers(q: QueryView, response: Seq<char>)
    ensures
        q.rounds < 5 ==> match tool_call_in(response) {
            Some(call) => next_step(q, response) matches QueryStepView::RunTool(run) && run.name
                == call.name && run.args == call.args,
            None => next_step(q, response) == QueryStepView::Answer(response),
        },
        q.rounds >= 5 ==> next_step(q, response) == QueryStepView::Answer(response),
{
}

proof fn lemma_last_two_stay(all: Seq<MessageView>, a: MessageView, b: MessageView)
    requires
        !is_system(a),
        !is_system(b),
    ensures
        ({
            let cut = trimmed_messages(all.push(a).push(b));
            &&& cut.len() >= 2
            &&& cut[cut.len() - 2] == a
            &&& cut.last() == b
            &&& all.len() <= 38 ==> cut == all.push(a).push(b)
        }),
{
    reveal(Seq::filter);
    let more = all.push(a).push(b);
    assert(more.drop_last() =~= all.push(a));
    assert(all.push(a).drop_last() =~= all);
    assert(more.last() == b && all.push(a).last() == a);
    assert(other_messages(all.push(a)) == other_messages(all).push(a));
    assert(other_messages(more) == other_messages(all.push(a)).push(b));
    lemma_partition(more);
}

/// What a tool call leaves behind: behind the messages that were there, exactly what the
/// model said, as its own words, and what the tool gave back, as the user's. After the
/// fifth the model is told to come to an end.
pub proof fn law_tool_call_is_fed_back(q: QueryView, response: Seq<char>, result: ToolResult)
    requires
        q.rounds < 5,
    ensures
        ({
            let after = resumed(q, response, result);
            let n = q.messages.len() as int;
            &&& after.rounds == q.rounds + 1
            &&& after.messages.len() == n + (if q.rounds == 4 {
                3int
            } else {
                2
            })
            &&& after.messages.take(n) == q.messages
            &&& says(after.messages[n], "assistant"@, response)
            &&& says(
                after.messages[n + 1],
                "user"@,
                "Tool `"@ + result.tool@ + (if result.success {
                    "` returned:\n"@
                } else {
                    "` failed:\n"@
                }) + result.output@,
            )
            &&& q.rounds == 4 ==> says(
                after.messages[n + 2],
                "user"@,
                "You've used several tools. Now provide your final answer based on the results above."@,
            )
        }),
{
    let after = resumed(q, response, result);
    assert(after.messages.take(q.messages.len() as int) =~= q.messages);
}

/// A tool call is remembered as it is fed back: what the model said and what the tool gave
/// back come last, and where the conversation is short nothing else is lost.
pub proof fn law_tool_call_is_remembered(
    c: ConversationView,
    response: Seq<char>,
    result: ToolResult,
)
    ensures
        continued_and_cut(None, exchange(response, result)) is None,
        continued_and_cut(Some(c), exchange(response, result)) matches Some(w) && {
            let n = w.messages.len() as int;
            &&& w.session_id == c.session_id
            &&& n >= 2
            &&& says(w.messages[n - 2], "assistant"@, response)
            &&& says(
                w.messages[n - 1],
                "user"@,
                "Tool `"@ + result.tool@ + (if result.success {
                    "` returned:\n"@
                } else {
                    "` failed:\n"@
                }) + result.output@,
            )
            &&& w.messages == trimmed_messages(
                c.messages.push(w.messages[n - 2]).push(w.messages[n - 1]),
            )
            &&& c.messages.len() <= 38 ==> w.messages.take(n - 2) == c.messages
        },
{
    let more = exchange(response, result);
    law_messages_have_their_roles(response, more[0]);
    law_messages_have_their_roles(more[1].content, more[1]);
    assert(c.messages + more =~= c.messages.push(more[0]).push(more[1]));
    lemma_last_two_stay(c.messages, more[0], more[1]);
    if c.messages.len() <= 38 {
        assert(c.messages.push(more[0]).push(more[1]).take(c.messages.len() as int)
            =~= c.messages);
    }
}

/// The answer is remembered as the model's, last of all, and where the conversation is
/// short nothing else is lost.
pub proof fn law_answer_is_remembered(c: ConversationView, response: Seq<char>)
    ensures
        continued_and_cut(Some(c), seq![assistant_message(response)]) matches Some(w)
            && w.session_id == c.session_id && w.messages.len() > 0 && says(
            w.messages.last(),
            "assistant"@,
            response,
        ) && (c.messages.len() <= 39 ==> w.messages.drop_last() == c.messages),
{
    law_messages_have_their_roles(response, assistant_message(response));
    let m = assistant_message(response);
    assert(c.messages + seq![m] =~= c.messages.push(m));
    law_trim_keeps_the_last_message(c.messages, m);
    lemma_partition(c.messages.push(m));
    if c.messages.len() <= 39 {
        assert(c.messages.push(m).drop_last() =~= c.messages);
    }
}

/// The wish to forget is the word `/clear`, with white space around it or none. It leaves
/// what sets the scene, under the name of a new session, and is answered.
pub proof fn law_clear_forgets(message: Seq<char>, c: ConversationView, nanos: u128)
    ensures
        trimmed(message) == "/clear"@ <==> is_clear(message),
        cleared(Some(c), nanos) matches Some(w) && w.session_id
            == session_name(nanos as nat) && (forall|i: int|
            0 <= i < w.messages.len() ==> (#[trigger] w.messages[i]).role == "system"@)
            && forall|i: int|
            0 <= i < c.messages.len() && (#[trigger] c.messages[i]).role == "system"@
                ==> w.messages.contains(c.messages[i]),
        cleared(None, nanos) is None,
        clear_answer(Some(c)) == "Conversation cleared. What's next?"@,
        clear_answer(None) == "(one-shot mode has no conversation to clear)"@,
{
    let yes = |m: MessageView| is_system(m);
    broadcast use vstd::seq_lib::group_filter_ensures;

    let kept = c.messages.filter(yes);
    assert forall|i: int|
        0 <= i < c.messages.len() && (#[trigger] c.messages[i]).role == "system"@ implies kept.contains(
        c.messages[i],
    ) by {
        assert(yes(c.messages[i]));
    }
}

/// The model is asked at the address of Ollama, under the configured name, for one answer
/// that is not streamed, with all messages and the configured size of the context. It
/// stays loaded as long as the model's own setting says, or else as Ollama's.
pub proof fn law_chat_request(
    ollama: Ollama,
    config: Config,
    messages: Seq<MessageView>,
    own: Option<Seq<char>>,
)
    ensures
        ({
            let r = chat_request_view(
                ollama,
                config.model.name@,
                messages,
                Some(config.ollama.context_size),
                own,
            );
            &&& r.url == ollama.base_url@ + "/api/chat"@
            &&& r.model == config.model.name@
            &&& r.messages == messages
            &&& !r.stream
            &&& r.num_ctx == Some(config.ollama.context_size)
            &&& own is Some ==> r.keep_alive == own
            &&& own is None ==> r.keep_alive == crate::json::text_view(ollama.default_keep_alive)
        }),
{
}

/// A message is kept under its role and its content, and a conversation under its session and
/// its messages, in their order.
pub proof fn law_conversations_are_kept(m: MessageView, c: ConversationView, i: int)
    requires
        0 <= i < c.messages.len(),
    ensures
        member(message_document(m), "role"@) == Some(JsonView::Text(m.role)),
        member(message_document(m), "content"@) == Some(JsonView::Text(m.content)),
        member(conversation_document(c), "session_id"@) == Some(JsonView::Text(c.session_id)),
        member(conversation_document(c), "messages"@) matches Some(JsonView::Array(items))
            && items.len() == c.messages.len() && items[i] == message_document(c.messages[i]),
{
    reveal_strlit("role");
    reveal_strlit("content");
    reveal_strlit("session_id");
    reveal_strlit("messages");
    assert("role"@.len() != "content"@.len());
    assert("session_id"@.len() != "messages"@.len());
}

/// A message that was kept is read as it was, from an object and from an array of two.
pub proof fn law_messages_are_read(json: JsonView, role: Seq<char>, content: Seq<char>)
    ensures
        member(json, "role"@) == Some(JsonView::Text(role)) && member(json, "content"@) == Some(
            JsonView::Text(content),
        ) ==> message_in(json) == Some(MessageView { role, content }),
        message_in(JsonView::Array(seq![JsonView::Text(role), JsonView::Text(content)])) == Some(
            MessageView { role, content },
        ),
        json is Object && !(member(json, "role"@) matches Some(JsonView::Text(_))) ==> message_in(
            json,
        ) is None,
        json is Object && !(member(json, "content"@) matches Some(JsonView::Text(_)))
            ==> message_in(json) is None,
{
}

/// A conversation goes on where one was saved that can be read; else a fresh one starts, which
/// has no messages and is named after the moment.
pub proof fn law_conversations_go_on(text: Seq<char>, nanos: u128)
    ensures
        loaded(None, nanos) == (ConversationView {
            messages: Seq::empty(),
            session_id: session_name(nanos as nat),
        }),
        match conversation_of(json_document(text)) {
            Some(c) => loaded(Some(text), nanos) == c,
            None => loaded(Some(text), nanos) == loaded(None, nanos),
        },
{
}

} // verus!
