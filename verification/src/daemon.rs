//! The daemon: how a question is answered, and how it is put over the socket.
use vstd::prelude::*;

use crate::config::Config;
use crate::context::{cuts_cleanly, prompt_string, Context, ContextView};
use crate::conversation::{
    llm_messages, opening_messages, session_name, system_messages, trimmed_messages, Conversation,
    ConversationView,
};
use crate::error::{answer, Answer};
use crate::json::text_view;
use crate::laws::question::law_tool_call_is_remembered;
use crate::ollama::{
    assistant_message, chat_request_view, messages_view, user_message, ChatRequest, Message,
    MessageView, Ollama, ToolCall,
};
use crate::text::{decimal, decimal_text, occurs, occurs_at, same, trim, trimmed};
use crate::toolcall::{parse_tool_call, result_line, tool_call_in, tool_result_to_string, CallView};
use crate::tools::ToolResult;

verus! {

/// A name in a directory.
pub open spec fn path_in(dir: Seq<char>, name: Seq<char>) -> Seq<char> {
    if dir.len() == 0 || dir.last() == '/' {
        dir + name
    } else {
        dir + "/"@ + name
    }
}

/// Where the daemon listens.
pub open spec fn socket_name(runtime_dir: Option<Seq<char>>, uid: u32) -> Seq<char> {
    match runtime_dir {
        Some(dir) => path_in(dir, "gremlin.sock"@),
        None => "/tmp/gremlin-"@ + decimal(uid as nat) + ".sock"@,
    }
}

/// Where the daemon listens: in the user's runtime directory where there is one.
pub fn socket_path(runtime_dir: &Option<String>, uid: u32) -> (r: String)
    ensures
        r@ == socket_name(text_view(*runtime_dir), uid),
{
    match runtime_dir {
        Some(dir) => {
            let mut r = dir.clone();
            let total: usize = dir.as_str().unicode_len();
            if total > 0 && dir.as_str().get_char(total - 1) != '/' {
                r.append("/");
            }
            r.append("gremlin.sock");
            r
        },
        None => {
            let mut r = "/tmp/gremlin-".to_owned();
            r.append(decimal_text(uid as u64).as_str());
            r.append(".sock");
            r
        },
    }
}

/// How many tool calls a question may take.
pub const MAX_ROUNDS: usize = 5;

/// What the model is told when it has used up its tool calls.
pub const FINAL_PROMPT: &'static str =
    "You've used several tools. Now provide your final answer based on the results above.";

/// A question on its way: what the model is sent next, and how many tools it has used.
#[derive(Debug)]
pub struct Query {
    pub messages: Vec<Message>,
    pub rounds: usize,
}

/// The content of a `Query`.
pub struct QueryView {
    pub messages: Seq<MessageView>,
    pub rounds: usize,
}

/// What is done with what the model said.
#[derive(Debug)]
pub enum QueryStep {
    /// A tool is run.
    RunTool(ToolCall),
    /// The question is answered.
    Answer(String),
}

/// The content of a `QueryStep`.
pub enum QueryStepView {
    RunTool(CallView),
    Answer(Seq<char>),
}

impl View for Query {
    type V = QueryView;

    open spec fn view(&self) -> QueryView {
        QueryView { messages: messages_view(self.messages@), rounds: self.rounds }
    }
}

impl View for QueryStep {
    type V = QueryStepView;

    open spec fn view(&self) -> QueryStepView {
        match self {
            QueryStep::RunTool(call) => QueryStepView::RunTool(call@),
            QueryStep::Answer(text) => QueryStepView::Answer(text@),
        }
    }
}

/// The content of a conversation that may be there.
pub open spec fn conversation_view(c: Option<Conversation>) -> Option<ConversationView> {
    match c {
        Some(conversation) => Some(conversation@),
        None => None,
    }
}

/// The conversation with more messages.
pub open spec fn continued(
    c: Option<ConversationView>,
    more: Seq<MessageView>,
) -> Option<ConversationView> {
    match c {
        Some(v) => Some(
            ConversationView { messages: v.messages + more, session_id: v.session_id },
        ),
        None => None,
    }
}

/// The conversation with more messages, cut where it has become long.
pub open spec fn continued_and_cut(
    c: Option<ConversationView>,
    more: Seq<MessageView>,
) -> Option<ConversationView> {
    match c {
        Some(v) => Some(
            ConversationView {
                messages: trimmed_messages(v.messages + more),
                session_id: v.session_id,
            },
        ),
        None => None,
    }
}

/// The conversation so far.
pub open spec fn history(c: Option<ConversationView>) -> Seq<MessageView> {
    match c {
        Some(v) => v.messages,
        None => Seq::empty(),
    }
}

/// The user asks to forget the conversation.
pub open spec fn is_clear(message: Seq<char>) -> bool {
    trimmed(message) == "/clear"@
}

/// What is said of the wish to forget the conversation.
pub open spec fn clear_answer(c: Option<ConversationView>) -> Seq<char> {
    match c {
        Some(_) => "Conversation cleared. What's next?"@,
        None => "(one-shot mode has no conversation to clear)"@,
    }
}

/// The conversation after the wish to forget it.
pub open spec fn cleared(c: Option<ConversationView>, nanos: u128) -> Option<ConversationView> {
    match c {
        Some(v) => Some(
            ConversationView {
                messages: system_messages(v.messages),
                session_id: session_name(nanos as nat),
            },
        ),
        None => None,
    }
}

/// A question that was just put.
pub open spec fn asked(
    c: Option<ConversationView>,
    system_prompt: Seq<char>,
    tools_prompt: Seq<char>,
    context: ContextView,
    message: Seq<char>,
) -> QueryView {
    QueryView {
        messages: llm_messages(history(c), system_prompt, tools_prompt, prompt_string(context)).push(
            user_message(message),
        ),
        rounds: 0,
    }
}

/// What is done with what the model said: a tool is run where it asks for one and may
/// still have it.
pub open spec fn next_step(q: QueryView, response: Seq<char>) -> QueryStepView {
    if q.rounds < MAX_ROUNDS && tool_call_in(response) is Some {
        QueryStepView::RunTool(tool_call_in(response)->0)
    } else {
        QueryStepView::Answer(response)
    }
}

/// The exchange that a tool call is: what the model said, and what the tool gave back.
pub open spec fn exchange(response: Seq<char>, result: ToolResult) -> Seq<MessageView> {
    seq![
        assistant_message(response),
        user_message(result_line(result.tool@, result.success, result.output@)),
    ]
}

/// The question after a tool call. When the calls are used up, the model is told so.
pub open spec fn resumed(q: QueryView, response: Seq<char>, result: ToolResult) -> QueryView {
    let messages = q.messages + exchange(response, result);
    QueryView {
        messages: if q.rounds + 1 == MAX_ROUNDS {
            messages.push(user_message(FINAL_PROMPT@))
        } else {
            messages
        },
        rounds: (q.rounds + 1) as usize,
    }
}

/// Obeys the wish to forget the conversation, where the message is that.
pub fn clear_command(message: &str, conversation: &mut Option<Conversation>, nanos: u128) -> (r:
    Option<String>)
    ensures
        is_clear(message@) ==> (r matches Some(s) && s@ == clear_answer(
            conversation_view(*old(conversation)),
        ) && conversation_view(*final(conversation)) == cleared(
            conversation_view(*old(conversation)),
            nanos,
        )),
        !is_clear(message@) ==> r is None && conversation_view(*final(conversation))
            == conversation_view(*old(conversation)),
{
    if !same(trim(message).as_str(), "/clear") {
        return None;
    }
    match conversation {
        Some(c) => {
            c.clear(nanos);
            Some("Conversation cleared. What's next?".to_owned())
        },
        None => Some("(one-shot mode has no conversation to clear)".to_owned()),
    }
}

fn remember(conversation: &mut Option<Conversation>, m: Message)
    ensures
        conversation_view(*final(conversation)) == continued(
            conversation_view(*old(conversation)),
            seq![m@],
        ),
{
    let ghost before = conversation_view(*conversation);
    match conversation {
        Some(c) => {
            c.push(m);
        },
        None => {},
    }
    proof {
        if let Some(v) = before {
            assert(v.messages.push(m@) =~= v.messages + seq![m@]);
        }
    }
}

fn cut(conversation: &mut Option<Conversation>)
    ensures
        conversation_view(*final(conversation)) == continued_and_cut(
            conversation_view(*old(conversation)),
            Seq::empty(),
        ),
{
    let ghost before = conversation_view(*conversation);
    match conversation {
        Some(c) => {
            let _ = c.trim();
        },
        None => {},
    }
    proof {
        if let Some(v) = before {
            assert(v.messages + Seq::<MessageView>::empty() =~= v.messages);
        }
    }
}

impl Query {
    /// Puts a question, with the prompts, the context and the conversation so far, and
    /// adds it to the conversation.
    pub fn begin(
        system_prompt: &str,
        tools_prompt: &str,
        context: &Context,
        message: &str,
        conversation: &mut Option<Conversation>,
    ) -> (q: Query)
        requires
            cuts_cleanly(context@.git_diff),
        ensures
            q@ == asked(
                conversation_view(*old(conversation)),
                system_prompt@,
                tools_prompt@,
                context@,
                message@,
            ),
            conversation_view(*final(conversation)) == continued(
                conversation_view(*old(conversation)),
                seq![user_message(message@)],
            ),
    {
        let context_str = context.to_prompt_string();
        let mut messages = match conversation {
            Some(c) => c.messages_for_llm(system_prompt, tools_prompt, context_str.as_str()),
            None => opening_messages(system_prompt, tools_prompt, context_str.as_str()),
        };
        let ghost before = messages@;
        messages.push(Message::user(message));
        assert(messages_view(messages@) =~= messages_view(before).push(user_message(message@)));
        remember(conversation, Message::user(message));
        Query { messages, rounds: 0 }
    }

    /// What the model is sent next.
    pub fn chat(&self, ollama: &Ollama, config: &Config) -> (r: ChatRequest)
        ensures
            r@ == chat_request_view(
                *ollama,
                config.model.name@,
                self@.messages,
                Some(config.ollama.context_size),
                text_view(config.model.keep_alive),
            ),
    {
        ollama.chat(
            config.model.name.as_str(),
            &self.messages,
            Some(config.ollama.context_size),
            &config.model.keep_alive,
        )
    }

    /// What is done with what the model said. An answer is added to the conversation.
    pub fn respond(&self, response: &str, conversation: &mut Option<Conversation>) -> (step:
        QueryStep)
        ensures
            step@ == next_step(self@, response@),
            conversation_view(*final(conversation)) == (match step@ {
                QueryStepView::RunTool(_) => conversation_view(*old(conversation)),
                QueryStepView::Answer(_) => continued_and_cut(
                    conversation_view(*old(conversation)),
                    seq![assistant_message(response@)],
                ),
            }),
            step@ is RunTool ==> self@.rounds < MAX_ROUNDS,
    {
        if self.rounds < MAX_ROUNDS {
            if let Some(call) = parse_tool_call(response) {
                return QueryStep::RunTool(call);
            }
        }
        let ghost before = conversation_view(*conversation);
        remember(conversation, Message::assistant(response));
        let ghost middle = conversation_view(*conversation);
        cut(conversation);
        proof {
            if let Some(v) = before {
                let more = seq![assistant_message(response@)];
                assert((v.messages + more) + Seq::<MessageView>::empty() =~= v.messages + more);
            }
        }
        QueryStep::Answer(response.to_owned())
    }

    /// Goes on after a tool call that `response` asked for. The exchange is added to the
    /// conversation.
    pub fn resume(
        &mut self,
        response: &str,
        result: &ToolResult,
        conversation: &mut Option<Conversation>,
    )
        requires
            old(self)@.rounds < MAX_ROUNDS,
        ensures
            final(self)@ == resumed(old(self)@, response@, *result),
            final(self)@.messages.take(old(self)@.messages.len() as int) == old(self)@.messages,
            final(self)@.messages[old(self)@.messages.len() as int] == (MessageView {
                role: "assistant"@,
                content: response@,
            }),
            final(self)@.messages[old(self)@.messages.len() + 1int].role == "user"@,
            occurs(final(self)@.messages[old(self)@.messages.len() + 1int].content, result.output@),
            conversation_view(*final(conversation)) == continued_and_cut(
                conversation_view(*old(conversation)),
                exchange(response@, *result),
            ),
            conversation_view(*final(conversation)) matches Some(c) ==> {
                let n = c.messages.len() as int;
                &&& n >= 2
                &&& c.messages[n - 2] == (MessageView {
                    role: "assistant"@,
                    content: response@,
                })
                &&& c.messages[n - 1] == final(self)@.messages[old(self)@.messages.len() + 1int]
            },
    {
        let ghost before = conversation_view(*conversation);
        let ghost sent = self@.messages;
        let line = tool_result_to_string(result);
        remember(conversation, Message::assistant(response));
        remember(conversation, Message::user(line.as_str()));
        cut(conversation);
        proof {
            if let Some(v) = before {
                assert(((v.messages + seq![assistant_message(response@)]) + seq![
                    user_message(line@),
                ]) + Seq::<MessageView>::empty() =~= v.messages + exchange(response@, *result));
            }
        }
        self.messages.push(Message::assistant(response));
        self.messages.push(Message::user(line.as_str()));
        self.rounds = self.rounds + 1;
        assert(self@.messages =~= sent + exchange(response@, *result));
        if self.rounds == MAX_ROUNDS {
            self.messages.push(Message::user(FINAL_PROMPT));
            assert(self@.messages =~= (sent + exchange(response@, *result)).push(
                user_message(FINAL_PROMPT@),
            ));
        }
        proof {
            assert(self@.messages.take(sent.len() as int) =~= sent);
            if let Some(v) = before {
                law_tool_call_is_remembered(v, response@, *result);
            }
            let head = line@.take(line@.len() - result.output@.len());
            assert(line@.subrange(head.len() as int, line@.len() as int) =~= result.output@);
            assert(occurs_at(line@, result.output@, head.len() as int));
        }
    }
}

/// Once its tool calls are used up, whatever the model says is the answer.
pub proof fn law_last_response_is_the_answer(q: QueryView, response: Seq<char>)
    requires
        q.rounds >= MAX_ROUNDS,
    ensures
        next_step(q, response) == QueryStepView::Answer(response),
{
}

/// The question after a number of tool calls.
pub open spec fn after_calls(
    q: QueryView,
    responses: Seq<Seq<char>>,
    results: Seq<ToolResult>,
    n: nat,
) -> QueryView
    decreases n,
{
    if n == 0 {
        q
    } else {
        resumed(
            after_calls(q, responses, results, (n - 1) as nat),
            responses[n - 1],
            results[n - 1],
        )
    }
}

/// A question takes at most five tool calls, and the model is asked at most six times:
/// where each of a number of responses asked for a tool and got it, there are no more
/// than five, and after the fifth any response is the answer.
pub proof fn law_questions_are_answered(
    q: QueryView,
    responses: Seq<Seq<char>>,
    results: Seq<ToolResult>,
    last: Seq<char>,
)
    requires
        q.rounds == 0,
        responses.len() == results.len(),
        forall|i: int|
            #![trigger responses[i]]
            0 <= i < responses.len() ==> next_step(
                after_calls(q, responses, results, i as nat),
                responses[i],
            ) is RunTool,
    ensures
        responses.len() <= MAX_ROUNDS,
        responses.len() == MAX_ROUNDS ==> next_step(
            after_calls(q, responses, results, responses.len()),
            last,
        ) == QueryStepView::Answer(last),
{
    lemma_rounds(q, responses, results, responses.len());
}

proof fn lemma_rounds(
    q: QueryView,
    responses: Seq<Seq<char>>,
    results: Seq<ToolResult>,
    n: nat,
)
    requires
        q.rounds == 0,
        n <= responses.len(),
        forall|i: int|
            #![trigger responses[i]]
            0 <= i < responses.len() ==> next_step(
                after_calls(q, responses, results, i as nat),
                responses[i],
            ) is RunTool,
    ensures
        n <= MAX_ROUNDS,
        after_calls(q, responses, results, n).rounds == n,
    decreases n,
{
    if n > 0 {
        lemma_rounds(q, responses, results, (n - 1) as nat);
        let response = responses[n - 1];
        assert(next_step(after_calls(q, responses, results, (n - 1) as nat), response) is RunTool);
    }
}

/// What is remembered of a question that is answered without tools: the question and the
/// answer, behind what was said before.
pub proof fn law_question_and_answer_are_remembered(
    c: ConversationView,
    message: Seq<char>,
    response: Seq<char>,
)
    ensures
        continued_and_cut(
            continued(Some(c), seq![user_message(message)]),
            seq![assistant_message(response)],
        ) == Some(
            ConversationView {
                messages: trimmed_messages(
                    c.messages.push(user_message(message)).push(assistant_message(response)),
                ),
                session_id: c.session_id,
            },
        ),
{
    assert((c.messages + seq![user_message(message)]) + seq![assistant_message(response)]
        =~= c.messages.push(user_message(message)).push(assistant_message(response)));
}

} // verus!
