//! A conversation with the model.
use vstd::prelude::*;

use crate::json::text_view;
use crate::ollama::{messages_view, system_message, Message, MessageView};
use crate::saved::{loaded, read_conversation};
use crate::text::{hexadecimal, hexadecimal_text, pad_with_zeros, same, zero_padded};

verus! {

/// A conversation. The daemon has one, and it goes on from one question to the next.
#[derive(Debug)]
pub struct Conversation {
    pub messages: Vec<Message>,
    pub session_id: String,
}

/// The content of a `Conversation`.
pub struct ConversationView {
    pub messages: Seq<MessageView>,
    pub session_id: Seq<char>,
}

impl View for Conversation {
    type V = ConversationView;

    open spec fn view(&self) -> ConversationView {
        ConversationView { messages: messages_view(self.messages@), session_id: self.session_id@ }
    }
}

/// How many messages besides those that set the scene are kept.
pub const KEPT_MESSAGES: usize = 40;

/// The message sets the scene.
pub open spec fn is_system(m: MessageView) -> bool {
    m.role == "system"@
}

/// The messages that set the scene.
pub open spec fn system_messages(all: Seq<MessageView>) -> Seq<MessageView> {
    all.filter(|m: MessageView| is_system(m))
}

/// The messages that do not set the scene.
pub open spec fn other_messages(all: Seq<MessageView>) -> Seq<MessageView> {
    all.filter(|m: MessageView| !is_system(m))
}

/// A conversation that is cut where it has become long: what sets the scene, and of the
/// other messages the last.
pub open spec fn trimmed_messages(all: Seq<MessageView>) -> Seq<MessageView> {
    let system = system_messages(all);
    let others = other_messages(all);
    if all.len() > system.len() + KEPT_MESSAGES {
        system + others.skip(others.len() - KEPT_MESSAGES)
    } else {
        all
    }
}

/// The name of a session that starts at this moment: the nanoseconds since the epoch, in
/// sixteen hexadecimal digits or more.
pub open spec fn session_name(nanos: nat) -> Seq<char> {
    zero_padded(hexadecimal(nanos), 16)
}

/// What the model is sent before the question: the prompts, the context where something
/// is known, and the conversation so far.
pub open spec fn llm_messages(
    history: Seq<MessageView>,
    system_prompt: Seq<char>,
    tools_prompt: Seq<char>,
    context: Seq<char>,
) -> Seq<MessageView> {
    let prompts = seq![system_message(system_prompt), system_message(tools_prompt)];
    (if context.len() > 0 {
        prompts.push(system_message(context))
    } else {
        prompts
    }) + history
}

proof fn lemma_filter_take(all: Seq<MessageView>, pred: spec_fn(MessageView) -> bool, i: int)
    requires
        0 <= i < all.len(),
    ensures
        all.take(i + 1).filter(pred) == (if pred(all[i]) {
            all.take(i).filter(pred).push(all[i])
        } else {
            all.take(i).filter(pred)
        }),
{
    reveal(Seq::filter);
    assert(all.take(i + 1).drop_last() =~= all.take(i));
    assert(all.take(i + 1).last() == all[i]);
}

/// Every message sets the scene or does not.
pub proof fn lemma_partition(all: Seq<MessageView>)
    ensures
        system_messages(all).len() + other_messages(all).len() == all.len(),
    decreases all.len(),
{
    reveal(Seq::filter);
    if all.len() > 0 {
        lemma_partition(all.drop_last());
    }
}

/// The name of a session that starts at this moment.
pub fn generate_session_id(nanos: u128) -> (r: String)
    ensures
        r@ == session_name(nanos as nat),
{
    pad_with_zeros(hexadecimal_text(nanos).as_str(), 16)
}

fn system_of(messages: &Vec<Message>) -> (r: Vec<Message>)
    ensures
        messages_view(r@) == system_messages(messages_view(messages@)),
{
    let ghost all = messages_view(messages@);
    let ghost pred = |m: MessageView| is_system(m);
    let mut r: Vec<Message> = Vec::new();
    let mut i: usize = 0;
    proof {
        reveal(Seq::filter);
        assert(messages_view(r@) =~= all.take(0).filter(pred));
    }
    while i < messages.len()
        invariant
            i <= messages@.len(),
            all == messages_view(messages@),
            pred == (|m: MessageView| is_system(m)),
            messages_view(r@) == all.take(i as int).filter(pred),
        decreases messages@.len() - i,
    {
        let ghost before = r@;
        proof {
            lemma_filter_take(all, pred, i as int);
        }
        if same(messages[i].role.as_str(), "system") {
            let m = messages[i].clone();
            r.push(m);
            assert(messages_view(r@) =~= messages_view(before).push(all[i as int]));
        }
        i = i + 1;
    }
    assert(all.take(i as int) =~= all);
    r
}

fn others_of(messages: &Vec<Message>) -> (r: Vec<Message>)
    ensures
        messages_view(r@) == other_messages(messages_view(messages@)),
{
    let ghost all = messages_view(messages@);
    let ghost pred = |m: MessageView| !is_system(m);
    let mut r: Vec<Message> = Vec::new();
    let mut i: usize = 0;
    proof {
        reveal(Seq::filter);
        assert(messages_view(r@) =~= all.take(0).filter(pred));
    }
    while i < messages.len()
        invariant
            i <= messages@.len(),
            all == messages_view(messages@),
            pred == (|m: MessageView| !is_system(m)),
            messages_view(r@) == all.take(i as int).filter(pred),
        decreases messages@.len() - i,
    {
        let ghost before = r@;
        proof {
            lemma_filter_take(all, pred, i as int);
        }
        if !same(messages[i].role.as_str(), "system") {
            let m = messages[i].clone();
            r.push(m);
            assert(messages_view(r@) =~= messages_view(before).push(all[i as int]));
        }
        i = i + 1;
    }
    assert(all.take(i as int) =~= all);
    r
}

/// Adds copies of the messages from position `from` on.
fn extend(r: &mut Vec<Message>, messages: &Vec<Message>, from: usize)
    requires
        from <= messages@.len(),
    ensures
        messages_view(final(r)@) == messages_view(old(r)@) + messages_view(messages@).skip(
            from as int,
        ),
{
    let ghost base = messages_view(r@);
    let ghost rest = messages_view(messages@).skip(from as int);
    let mut i: usize = from;
    assert(messages_view(r@) =~= base + rest.take(0));
    while i < messages.len()
        invariant
            from <= i <= messages@.len(),
            rest == messages_view(messages@).skip(from as int),
            messages_view(r@) == base + rest.take(i - from),
        decreases messages@.len() - i,
    {
        let ghost before = r@;
        let m = messages[i].clone();
        r.push(m);
        i = i + 1;
        assert(messages_view(r@) =~= messages_view(before).push(rest[i - 1 - from]));
        assert(messages_view(r@) =~= base + rest.take(i - from));
    }
    assert(rest.take(i - from) =~= rest);
}

impl Conversation {
    /// The conversation in the text that was saved, or a new one where there is none or it
    /// cannot be read.
    pub fn new(saved: &Option<String>, nanos: u128) -> (r: Conversation)
        ensures
            r@ == loaded(text_view(*saved), nanos),
    {
        if let Some(text) = saved {
            if let Some(conversation) = read_conversation(text.as_str()) {
                return conversation;
            }
        }
        let r = Conversation { messages: Vec::new(), session_id: generate_session_id(nanos) };
        assert(r@.messages =~= Seq::<MessageView>::empty());
        r
    }

    /// Forgets everything but what sets the scene, and starts a new session.
    pub fn clear(&mut self, nanos: u128)
        ensures
            final(self)@ == (ConversationView {
                messages: system_messages(old(self)@.messages),
                session_id: session_name(nanos as nat),
            }),
    {
        self.messages = system_of(&self.messages);
        self.session_id = generate_session_id(nanos);
    }

    /// Adds a message.
    pub fn push(&mut self, msg: Message)
        ensures
            final(self)@ == (ConversationView {
                messages: old(self)@.messages.push(msg@),
                session_id: old(self)@.session_id,
            }),
    {
        let ghost before = self.messages@;
        self.messages.push(msg);
        assert(messages_view(self.messages@) =~= messages_view(before).push(msg@));
    }

    /// Cuts the conversation where it has become long, and says whether it did.
    pub fn trim(&mut self) -> (cut: bool)
        ensures
            final(self)@ == (ConversationView {
                messages: trimmed_messages(old(self)@.messages),
                session_id: old(self)@.session_id,
            }),
            cut == (old(self)@.messages.len() > system_messages(old(self)@.messages).len()
                + KEPT_MESSAGES),
    {
        let ghost all = messages_view(self.messages@);
        let mut keep = system_of(&self.messages);
        let others = others_of(&self.messages);
        proof {
            lemma_partition(all);
            assert(all.len() == self.messages@.len());
            assert(messages_view(keep@).len() == keep@.len());
            assert(messages_view(others@).len() == others@.len());
        }
        if others.len() > KEPT_MESSAGES {
            extend(&mut keep, &others, others.len() - KEPT_MESSAGES);
            self.messages = keep;
            true
        } else {
            false
        }
    }

    /// What the model is sent before the question.
    pub fn messages_for_llm(&self, system_prompt: &str, tools_prompt: &str, context_str: &str) -> (r:
        Vec<Message>)
        ensures
            messages_view(r@) == llm_messages(
                self@.messages,
                system_prompt@,
                tools_prompt@,
                context_str@,
            ),
    {
        let mut r = opening_messages(system_prompt, tools_prompt, context_str);
        extend(&mut r, &self.messages, 0);
        assert(messages_view(self.messages@).skip(0) =~= self@.messages);
        assert(llm_messages(Seq::empty(), system_prompt@, tools_prompt@, context_str@) + self@.messages
            =~= llm_messages(self@.messages, system_prompt@, tools_prompt@, context_str@));
        r
    }
}

/// What the model is sent before a question without a conversation.
pub fn opening_messages(system_prompt: &str, tools_prompt: &str, context_str: &str) -> (r: Vec<
    Message,
>)
    ensures
        messages_view(r@) == llm_messages(
            Seq::empty(),
            system_prompt@,
            tools_prompt@,
            context_str@,
        ),
{
    let mut r: Vec<Message> = Vec::new();
    r.push(Message::system(system_prompt));
    r.push(Message::system(tools_prompt));
    if !context_str.is_empty() {
        r.push(Message::system(context_str));
    }
    assert(messages_view(r@) =~= llm_messages(
        Seq::empty(),
        system_prompt@,
        tools_prompt@,
        context_str@,
    ));
    r
}

proof fn lemma_filter_keeps(all: Seq<MessageView>, pred: spec_fn(MessageView) -> bool)
    requires
        forall|i: int| 0 <= i < all.len() ==> pred(#[trigger] all[i]),
    ensures
        all.filter(pred) == all,
    decreases all.len(),
{
    reveal(Seq::filter);
    if all.len() > 0 {
        lemma_filter_keeps(all.drop_last(), pred);
        assert(all.drop_last().push(all.last()) =~= all);
    }
}

proof fn lemma_filter_drops(all: Seq<MessageView>, pred: spec_fn(MessageView) -> bool)
    requires
        forall|i: int| 0 <= i < all.len() ==> !pred(#[trigger] all[i]),
    ensures
        all.filter(pred) == Seq::<MessageView>::empty(),
    decreases all.len(),
{
    reveal(Seq::filter);
    if all.len() > 0 {
        lemma_filter_drops(all.drop_last(), pred);
    }
}

proof fn lemma_filter_sound(all: Seq<MessageView>, pred: spec_fn(MessageView) -> bool)
    ensures
        forall|i: int| 0 <= i < all.filter(pred).len() ==> pred(#[trigger] all.filter(pred)[i]),
    decreases all.len(),
{
    reveal(Seq::filter);
    if all.len() > 0 {
        lemma_filter_sound(all.drop_last(), pred);
    }
}

proof fn lemma_filter_concat(
    a: Seq<MessageView>,
    b: Seq<MessageView>,
    pred: spec_fn(MessageView) -> bool,
)
    ensures
        (a + b).filter(pred) == a.filter(pred) + b.filter(pred),
    decreases b.len(),
{
    reveal(Seq::filter);
    if b.len() == 0 {
        assert(a + b =~= a);
        assert(a.filter(pred) + b.filter(pred) =~= a.filter(pred));
    } else {
        lemma_filter_concat(a, b.drop_last(), pred);
        assert((a + b).drop_last() =~= a + b.drop_last());
        assert((a + b).last() == b.last());
        assert((a + b).filter(pred) =~= a.filter(pred) + b.filter(pred));
    }
}

/// Cutting keeps what sets the scene, and of the other messages the last forty, in their
/// order.
pub proof fn law_trim_keeps_system_and_recent_messages(all: Seq<MessageView>)
    ensures
        system_messages(trimmed_messages(all)) == system_messages(all),
        other_messages(trimmed_messages(all)) == (if other_messages(all).len() > KEPT_MESSAGES {
            other_messages(all).skip(other_messages(all).len() - KEPT_MESSAGES)
        } else {
            other_messages(all)
        }),
        trimmed_messages(all).len() <= system_messages(all).len() + KEPT_MESSAGES,
{
    lemma_partition(all);
    let system = system_messages(all);
    let others = other_messages(all);
    if others.len() > KEPT_MESSAGES {
        let recent = others.skip(others.len() - KEPT_MESSAGES);
        let yes = |m: MessageView| is_system(m);
        let no = |m: MessageView| !is_system(m);
        lemma_filter_sound(all, yes);
        lemma_filter_sound(all, no);
        assert forall|i: int| 0 <= i < recent.len() implies !yes(#[trigger] recent[i]) && no(
            recent[i],
        ) by {
            assert(no(others[others.len() - KEPT_MESSAGES + i]));
        }
        assert forall|i: int| 0 <= i < system.len() implies yes(#[trigger] system[i]) && !no(
            system[i],
        ) by {}
        lemma_filter_concat(system, recent, yes);
        lemma_filter_concat(system, recent, no);
        lemma_filter_keeps(system, yes);
        lemma_filter_drops(recent, yes);
        lemma_filter_drops(system, no);
        lemma_filter_keeps(recent, no);
        assert(system + Seq::<MessageView>::empty() =~= system);
        assert(Seq::<MessageView>::empty() + recent =~= recent);
    }
}

/// Cutting twice is cutting once.
pub proof fn law_trim_is_idempotent(all: Seq<MessageView>)
    ensures
        trimmed_messages(trimmed_messages(all)) == trimmed_messages(all),
{
    law_trim_keeps_system_and_recent_messages(all);
    lemma_partition(all);
    lemma_partition(trimmed_messages(all));
}

/// After clearing, only what sets the scene is left, and clearing again leaves the same.
pub proof fn law_clear_keeps_only_system_messages(all: Seq<MessageView>)
    ensures
        other_messages(system_messages(all)) == Seq::<MessageView>::empty(),
        system_messages(system_messages(all)) == system_messages(all),
{
    let yes = |m: MessageView| is_system(m);
    let no = |m: MessageView| !is_system(m);
    let system = system_messages(all);
    lemma_filter_sound(all, yes);
    assert forall|i: int| 0 <= i < system.len() implies yes(#[trigger] system[i]) && !no(
        system[i],
    ) by {}
    lemma_filter_keeps(system, yes);
    lemma_filter_drops(system, no);
}

/// What is said last is not cut: after a message that does not set the scene, cutting
/// leaves it last.
pub proof fn law_trim_keeps_the_last_message(all: Seq<MessageView>, m: MessageView)
    requires
        !is_system(m),
    ensures
        trimmed_messages(all.push(m)).last() == m,
{
    reveal(Seq::filter);
    assert(all.push(m).drop_last() =~= all);
    let others = other_messages(all.push(m));
    assert(others == other_messages(all).push(m));
    lemma_partition(all.push(m));
}

/// What a hexadecimal digit stands for.
spec fn hex_digit_value(c: char) -> int {
    if c as int >= 'a' as int {
        c as int - 'a' as int + 10
    } else {
        c as int - '0' as int
    }
}

/// What hexadecimal digits stand for.
spec fn hex_value(s: Seq<char>) -> int
    decreases s.len(),
{
    if s.len() == 0 {
        0
    } else {
        hex_value(s.drop_last()) * 16 + hex_digit_value(s.last())
    }
}

proof fn lemma_hex_value(n: nat)
    ensures
        hex_value(hexadecimal(n)) == n,
    decreases n,
{
    reveal_with_fuel(hex_value, 2);
    if n < 16 {
        assert(hexadecimal(n).drop_last() =~= Seq::<char>::empty());
    } else {
        lemma_hex_value(n / 16);
        assert(hexadecimal(n).drop_last() =~= hexadecimal(n / 16));
    }
}

proof fn lemma_zeros_value(zeros: Seq<char>, s: Seq<char>)
    requires
        forall|i: int| 0 <= i < zeros.len() ==> #[trigger] zeros[i] == '0',
    ensures
        hex_value(zeros + s) == hex_value(s),
    decreases zeros.len() + s.len(),
{
    if s.len() > 0 {
        assert((zeros + s).drop_last() =~= zeros + s.drop_last());
        lemma_zeros_value(zeros, s.drop_last());
    } else if zeros.len() > 0 {
        assert(zeros + s =~= zeros);
        assert(zeros.drop_last() + s =~= zeros.drop_last());
        lemma_zeros_value(zeros.drop_last(), s);
    } else {
        assert(zeros + s =~= s);
    }
}

/// Sessions that start at different moments have different names.
pub proof fn law_session_names_are_distinct(a: nat, b: nat)
    requires
        session_name(a) == session_name(b),
    ensures
        a == b,
{
    lemma_session_value(a);
    lemma_session_value(b);
}

proof fn lemma_session_value(n: nat)
    ensures
        hex_value(session_name(n)) == n,
{
    let digits = hexadecimal(n);
    lemma_hex_value(n);
    if digits.len() < 16 {
        lemma_zeros_value(Seq::new((16 - digits.len()) as nat, |i: int| '0'), digits);
    }
}

} // verus!
