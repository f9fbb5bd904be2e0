//! A tool comes to its end after a few answers.
use vstd::prelude::*;

use crate::effect::{Reply, RequestView, Shape, StepView};
use crate::json::JsonView;
use crate::tools::handlers::{handler_step, hermes_step, screenshot_step};
use crate::tools::memory::{recommend_step, search_step, shelf_step, MemoryRequestView, Shelf};
use crate::tools::schema::Handler;

verus! {

/// The answer is of the kind that was asked for.
pub open spec fn suits(request: RequestView, reply: Reply) -> bool {
    match request {
        RequestView::ReadFile { .. } => reply is Content,
        RequestView::WriteFile { .. } => reply is Written,
        RequestView::CurrentDir => reply is Content,
        RequestView::ListDir { .. } => reply is Entries,
        RequestView::Run(_) => reply is Process,
        RequestView::Feed { .. } => reply is Fed,
        RequestView::Hyprland { shape, .. } => match shape {
            Shape::Window => reply is Window,
            Shape::Workspace => reply is Workspace,
            Shape::Workspaces => reply is Workspaces,
            Shape::Monitors => reply is Monitors,
        },
        RequestView::LoadConfig => reply is Config,
        RequestView::Generate(_) => reply is Generated,
        RequestView::LoadTemplates => reply is Templates,
        RequestView::CollectContext => reply is Context,
        RequestView::MakeRuntime => reply is Runtime,
        RequestView::LaunchHermes(_) => reply is Hermes,
        RequestView::Memory(m) => reply is Memory && match m {
            MemoryRequestView::Get { .. } => reply->Memory_0 is Found,
            MemoryRequestView::Store { .. } => reply->Memory_0 is Stored,
            MemoryRequestView::List { .. } => reply->Memory_0 is Listed,
            MemoryRequestView::Search { .. } => reply->Memory_0 is Matches,
            MemoryRequestView::Recommend { .. } => reply->Memory_0 is Stored,
            MemoryRequestView::Recommendations { .. } => reply->Memory_0 is Recommended,
            MemoryRequestView::Dismiss { .. } => reply->Memory_0 is Dismissed,
            MemoryRequestView::Stats => reply->Memory_0 is Stats,
        },
        RequestView::Sprite(_) => reply is Sprite,
    }
}

/// Each answer suits what the tool asked for when it had the answers before it.
pub open spec fn suitable(h: Handler, args: JsonView, replies: Seq<Reply>) -> bool {
    forall|i: int|
        #![trigger replies[i]]
        0 <= i < replies.len() ==> (handler_step(h, args, replies.take(i)) matches StepView::Perform(
            request,
        ) && suits(request, replies[i]))
}

/// A tool that asks for one thing.
spec fn asks_once(h: Handler) -> bool {
    !(h is Clipboard || h is ClipboardWrite || h is KittyCwd || h is Screenshot || h
        is LaunchHermes)
}

/// What the tool did before answer `i`, and that the answer suits it.
proof fn lemma_suits_at(h: Handler, args: JsonView, replies: Seq<Reply>, i: int) -> (request:
    RequestView)
    requires
        suitable(h, args, replies),
        0 <= i < replies.len(),
    ensures
        handler_step(h, args, replies.take(i)) == StepView::Perform(request),
        suits(request, replies[i]),
{
    let reply = replies[i];
    handler_step(h, args, replies.take(i))->Perform_0
}

proof fn lemma_one_answer(h: Handler, args: JsonView, replies: Seq<Reply>)
    requires
        suitable(h, args, replies),
        asks_once(h),
        replies.len() >= 1,
    ensures
        handler_step(h, args, replies.take(1)) is Finish,
{
    let request = lemma_suits_at(h, args, replies, 0);
    let none = replies.take(0);
    let one = replies.take(1);
    assert(none.len() == 0 && one.len() == 1 && one[0] == replies[0]);
    match h {
        Handler::MemoryFact => {
            assert(shelf_step(Shelf::Facts, args, none) == StepView::Perform(request));
            assert(shelf_step(Shelf::Facts, args, one) is Finish);
        },
        Handler::MemoryPref => {
            assert(shelf_step(Shelf::Preferences, args, none) == StepView::Perform(request));
            assert(shelf_step(Shelf::Preferences, args, one) is Finish);
        },
        Handler::MemorySearch => {
            assert(search_step(args, none) == StepView::Perform(request));
            assert(search_step(args, one) is Finish);
        },
        Handler::MemoryRecommend => {
            assert(recommend_step(args, none) == StepView::Perform(request));
            assert(recommend_step(args, one) is Finish);
        },
        _ => {},
    }
}

proof fn lemma_clipboard(h: Handler, args: JsonView, replies: Seq<Reply>)
    requires
        suitable(h, args, replies),
        h is Clipboard || h is ClipboardWrite,
        replies.len() >= 3,
    ensures
        handler_step(h, args, replies.take(3)) is Finish,
{
    let first = lemma_suits_at(h, args, replies, 0);
    let second = lemma_suits_at(h, args, replies, 1);
    let third = lemma_suits_at(h, args, replies, 2);
    assert(replies.take(1)[0] == replies[0]);
    assert(replies.take(2)[0] == replies[0] && replies.take(2)[1] == replies[1]);
    assert(replies.take(3)[0] == replies[0] && replies.take(3)[1] == replies[1] && replies.take(
        3,
    )[2] == replies[2]);
}

proof fn lemma_kitty(args: JsonView, replies: Seq<Reply>)
    requires
        suitable(Handler::KittyCwd, args, replies),
        replies.len() >= 2,
    ensures
        handler_step(Handler::KittyCwd, args, replies.take(2)) is Finish,
{
    let first = lemma_suits_at(Handler::KittyCwd, args, replies, 0);
    let second = lemma_suits_at(Handler::KittyCwd, args, replies, 1);
    assert(replies.take(1)[0] == replies[0]);
    assert(replies.take(2)[0] == replies[0] && replies.take(2)[1] == replies[1]);
}

proof fn lemma_hermes(args: JsonView, replies: Seq<Reply>)
    requires
        suitable(Handler::LaunchHermes, args, replies),
        replies.len() >= 4,
    ensures
        handler_step(Handler::LaunchHermes, args, replies.take(4)) is Finish,
{
    let first = lemma_suits_at(Handler::LaunchHermes, args, replies, 0);
    let second = lemma_suits_at(Handler::LaunchHermes, args, replies, 1);
    let third = lemma_suits_at(Handler::LaunchHermes, args, replies, 2);
    let fourth = lemma_suits_at(Handler::LaunchHermes, args, replies, 3);
    let r1 = replies.take(1);
    let r2 = replies.take(2);
    let r3 = replies.take(3);
    let r4 = replies.take(4);
    assert(r1[0] == replies[0]);
    assert(r2[0] == replies[0] && r2[1] == replies[1]);
    assert(r3[0] == replies[0] && r3[1] == replies[1] && r3[2] == replies[2]);
    assert(r4[0] == replies[0] && r4[1] == replies[1] && r4[2] == replies[2] && r4[3]
        == replies[3]);
    assert(hermes_step(args, replies.take(0)) == StepView::Perform(first));
    assert(hermes_step(args, r1) == StepView::Perform(second));
    assert(hermes_step(args, r2) == StepView::Perform(third));
    assert(hermes_step(args, r3) == StepView::Perform(fourth));
    assert(hermes_step(args, r4) is Finish);
}

proof fn lemma_screenshot(args: JsonView, replies: Seq<Reply>)
    requires
        suitable(Handler::Screenshot, args, replies),
        replies.len() >= 4,
    ensures
        handler_step(Handler::Screenshot, args, replies.take(4)) is Finish,
{
    let first = lemma_suits_at(Handler::Screenshot, args, replies, 0);
    let second = lemma_suits_at(Handler::Screenshot, args, replies, 1);
    let third = lemma_suits_at(Handler::Screenshot, args, replies, 2);
    let fourth = lemma_suits_at(Handler::Screenshot, args, replies, 3);
    let r1 = replies.take(1);
    let r2 = replies.take(2);
    let r3 = replies.take(3);
    let r4 = replies.take(4);
    assert(r1[0] == replies[0]);
    assert(r2[0] == replies[0] && r2[1] == replies[1]);
    assert(r3[0] == replies[0] && r3[1] == replies[1] && r3[2] == replies[2]);
    assert(r4[0] == replies[0] && r4[1] == replies[1] && r4[2] == replies[2] && r4[3]
        == replies[3]);
    assert(screenshot_step(args, replies.take(0)) == StepView::Perform(first));
    assert(screenshot_step(args, r1) == StepView::Perform(second));
    assert(screenshot_step(args, r2) == StepView::Perform(third));
    assert(screenshot_step(args, r3) == StepView::Perform(fourth));
    assert(screenshot_step(args, r4) is Finish);
}

/// A tool asks for at most four things, and is done when it has got them.
pub proof fn law_tools_come_to_an_end(h: Handler, args: JsonView, replies: Seq<Reply>)
    requires
        suitable(h, args, replies),
    ensures
        replies.len() <= 4,
        replies.len() == 4 ==> handler_step(h, args, replies) is Finish,
{
    if replies.len() >= 4 {
        let n: int = if asks_once(h) {
            lemma_one_answer(h, args, replies);
            1
        } else if h is Clipboard || h is ClipboardWrite {
            lemma_clipboard(h, args, replies);
            3
        } else if h is KittyCwd {
            lemma_kitty(args, replies);
            2
        } else if h is LaunchHermes {
            lemma_hermes(args, replies);
            4
        } else {
            lemma_screenshot(args, replies);
            4
        };
        if n < replies.len() {
            let request = lemma_suits_at(h, args, replies, n);
        } else {
            assert(replies.take(4) =~= replies);
        }
    }
}

} // verus!
