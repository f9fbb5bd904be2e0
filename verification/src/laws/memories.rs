//! What is remembered, looked for and recommended.
use vstd::prelude::*;

use crate::effect::{Reply, RequestView, StepView};
use crate::error::ErrorView;
use crate::json::{member_number, member_signed, member_text, member_unsigned, JsonView};
use crate::text::{
    decimal, first_chars, joined, kilobytes, lemma_occurs_between, lemma_occurs_joined, occurs,
    occurs_at, signed_decimal,
};
use crate::tools::handlers::handler_step;
use crate::tools::memory::{
    entry_lines, memo_lines, recommendation_lines, Entry, Memo, MemoryReply, MemoryRequestView,
    MemoryStats, Recommendation, Shelf,
};
use crate::tools::schema::Handler;

verus! {

/// The tool asks the memory for this.
pub open spec fn asks(step: StepView, request: MemoryRequestView) -> bool {
    step == StepView::Perform(RequestView::Memory(request))
}

/// The tool is done, and says this.
pub open spec fn tells(step: StepView, text: Seq<char>) -> bool {
    step == StepView::Finish(Ok(text))
}

/// The tool is done, and refuses with these words.
pub open spec fn refuses(step: StepView, words: Seq<char>) -> bool {
    step == StepView::Finish(Err(ErrorView::Tool(words)))
}

/// One of the two tools that keep values under keys.
pub open spec fn keeps_values(h: Handler) -> bool {
    h == Handler::MemoryFact || h == Handler::MemoryPref
}

/// What the tool keeps.
pub open spec fn shelf_of(h: Handler) -> Shelf {
    if h == Handler::MemoryFact {
        Shelf::Facts
    } else {
        Shelf::Preferences
    }
}

/// `set` stores the given value under the given key, in the given project, with the given
/// confidence and source or the usual ones.
pub proof fn law_set_stores_the_value_under_the_key(
    h: Handler,
    args: JsonView,
    key: Seq<char>,
    value: Seq<char>,
)
    requires
        keeps_values(h),
        member_text(args, "action"@) == Some("set"@),
        member_text(args, "key"@) == Some(key),
        member_text(args, "value"@) == Some(value),
    ensures
        asks(
            handler_step(h, args, Seq::empty()),
            MemoryRequestView::Store {
                shelf: shelf_of(h),
                key,
                value,
                project: member_text(args, "project"@),
                confidence: match member_number(args, "confidence"@) {
                    Some(given) => given,
                    None => if h == Handler::MemoryFact {
                        "0.8"@
                    } else {
                        "0.9"@
                    },
                },
                source: match member_text(args, "source"@) {
                    Some(given) => given,
                    None => if h == Handler::MemoryFact {
                        "conversation"@
                    } else {
                        "explicit"@
                    },
                },
            },
        ),
{
    lemma_actions();
}

proof fn lemma_actions()
    ensures
        "get"@ != "set"@,
        "get"@ != "list"@,
        "set"@ != "list"@,
        "add"@ != "list"@,
        "add"@ != "dismiss"@,
        "list"@ != "dismiss"@,
{
    reveal_strlit("get");
    reveal_strlit("set");
    reveal_strlit("list");
    reveal_strlit("add");
    reveal_strlit("dismiss");
    assert("get"@[0] != "set"@[0]);
    assert("get"@.len() != "list"@.len() && "set"@.len() != "list"@.len() && "add"@.len()
        != "list"@.len() && "add"@.len() != "dismiss"@.len() && "list"@.len() != "dismiss"@.len());
}

/// `get` looks exactly where `set` stored: what one call stored under a key of a project, a
/// later call with that key and project asks for, on the same shelf.
pub proof fn law_get_looks_where_set_stored(
    h: Handler,
    set: JsonView,
    get: JsonView,
    key: Seq<char>,
    value: Seq<char>,
)
    requires
        keeps_values(h),
        member_text(set, "action"@) == Some("set"@),
        member_text(set, "key"@) == Some(key),
        member_text(set, "value"@) == Some(value),
        member_text(get, "action"@) == Some("get"@),
        member_text(get, "key"@) == Some(key),
        member_text(get, "project"@) == member_text(set, "project"@),
    ensures
        handler_step(h, set, Seq::empty()) matches StepView::Perform(
            RequestView::Memory(MemoryRequestView::Store { shelf, key: k, value: v, project, .. }),
        ) && k == key && v == value && asks(
            handler_step(h, get, Seq::empty()),
            MemoryRequestView::Get { shelf, key: k, project },
        ),
{
    lemma_actions();
}

/// The two shelves are kept apart, and `list` asks for all of one.
pub proof fn law_shelves_are_listed_apart(h: Handler, args: JsonView)
    requires
        keeps_values(h),
        member_text(args, "action"@) == Some("list"@),
    ensures
        asks(
            handler_step(h, args, Seq::empty()),
            MemoryRequestView::List {
                shelf: shelf_of(h),
                project: member_text(args, "project"@),
            },
        ),
        shelf_of(Handler::MemoryFact) != shelf_of(Handler::MemoryPref),
{
    lemma_actions();
}

/// What was found is told with its key, its value, its confidence and its source; what was
/// not found is told by the key that was asked for; what was stored is told with key and
/// value; and an error of the memory is handed on.
pub proof fn law_what_the_shelves_say(
    h: Handler,
    get: JsonView,
    set: JsonView,
    key: Seq<char>,
    value: Seq<char>,
    e: Entry,
    id: i64,
    error: crate::error::GremlinError,
)
    requires
        keeps_values(h),
        member_text(get, "action"@) == Some("get"@),
        member_text(get, "key"@) == Some(key),
        member_text(set, "action"@) == Some("set"@),
        member_text(set, "key"@) == Some(key),
        member_text(set, "value"@) == Some(value),
    ensures
        ({
            let label = if h == Handler::MemoryFact {
                "Fact"@
            } else {
                "Preference"@
            };
            let noun = if h == Handler::MemoryFact {
                "fact"@
            } else {
                "preference"@
            };
            &&& tells(
                handler_step(h, get, seq![Reply::Memory(MemoryReply::Found(Ok(Some(e))))]),
                label + " '"@ + e.key@ + "': "@ + e.value@ + " (confidence: "@ + e.percent@
                    + "%, source: "@ + e.source@ + ")"@,
            )
            &&& tells(
                handler_step(h, get, seq![Reply::Memory(MemoryReply::Found(Ok(None)))]),
                "No "@ + noun + " found for key '"@ + key + "'"@,
            )
            &&& tells(
                handler_step(h, set, seq![Reply::Memory(MemoryReply::Stored(Ok(id)))]),
                "Stored "@ + noun + " '"@ + key + "' = '"@ + value + "' (id="@ + signed_decimal(
                    id as int,
                ) + ")"@,
            )
            &&& handler_step(h, get, seq![Reply::Memory(MemoryReply::Found(Err(error)))])
                == StepView::Finish(Err(error@))
            &&& handler_step(h, set, seq![Reply::Memory(MemoryReply::Stored(Err(error)))])
                == StepView::Finish(Err(error@))
        }),
{
    lemma_actions();
}

/// A list holds every entry, with its project, its key, its value, its confidence and its
/// source.
pub proof fn law_lists_hold_every_entry(h: Handler, args: JsonView, all: Vec<Entry>, k: int)
    requires
        keeps_values(h),
        member_text(args, "action"@) == Some("list"@),
        0 <= k < all@.len(),
    ensures
        handler_step(h, args, seq![Reply::Memory(MemoryReply::Listed(Ok(all)))])
            matches StepView::Finish(Ok(text)) && occurs(
            text,
            "  ["@ + (match all@[k].project {
                Some(p) => p@,
                None => "global"@,
            }) + "] "@ + all@[k].key@ + " = "@ + all@[k].value@ + " ("@ + all@[k].percent@ + "%, "@
                + all@[k].source@ + ")"@,
        ),
{
    lemma_actions();
    let lines = entry_lines(all@);
    lemma_line_occurs(
        if h == Handler::MemoryFact {
            "Fact"@ + "s:\n"@
        } else {
            "Preference"@ + "s:\n"@
        },
        lines,
        k,
    );
}

proof fn lemma_line_occurs(head: Seq<char>, lines: Seq<Seq<char>>, k: int)
    requires
        0 <= k < lines.len(),
    ensures
        occurs(head + joined(lines, "\n"@), lines[k]),
{
    let none = Seq::<char>::empty();
    assert(lines[k].subrange(0, lines[k].len() as int) =~= lines[k]);
    assert(occurs_at(lines[k], lines[k], 0));
    lemma_occurs_joined(lines, "\n"@, k, lines.len(), lines[k]);
    lemma_occurs_between(head, joined(lines, "\n"@), none, lines[k]);
    assert(head + joined(lines, "\n"@) + none =~= head + joined(lines, "\n"@));
}

/// What is missing is said, and nothing is asked of the memory: an action, a key, a value, an
/// action that there is.
pub proof fn law_incomplete_requests_are_refused(h: Handler, args: JsonView, replies: Seq<Reply>)
    requires
        keeps_values(h),
    ensures
        ({
            let step = handler_step(h, args, replies);
            match member_text(args, "action"@) {
                None => refuses(step, "missing 'action'"@),
                Some(action) => {
                    &&& action == "get"@ && member_text(args, "key"@) is None ==> refuses(
                        step,
                        "missing 'key' for get"@,
                    )
                    &&& action == "set"@ && member_text(args, "key"@) is None ==> refuses(
                        step,
                        "missing 'key' for set"@,
                    )
                    &&& action == "set"@ && member_text(args, "key"@) is Some && member_text(
                        args,
                        "value"@,
                    ) is None ==> refuses(step, "missing 'value' for set"@)
                    &&& action != "get"@ && action != "set"@ && action != "list"@ ==> refuses(
                        step,
                        "unknown action '"@ + action + "'"@,
                    )
                },
            }
        }),
{
    lemma_actions();
}

/// A search asks for what it was told, in the project it was told, and for ten messages where
/// it was not told how many, never for more than fifty.
pub proof fn law_search_asks_for_the_query(args: JsonView, query: Seq<char>)
    requires
        member_text(args, "query"@) == Some(query),
    ensures
        handler_step(Handler::MemorySearch, args, Seq::empty()) matches StepView::Perform(
            RequestView::Memory(MemoryRequestView::Search { query: q, project, limit }),
        ) && q == query && project == member_text(args, "project"@) && limit == (match member_unsigned(
            args,
            "limit"@,
        ) {
            Some(n) => if n <= 50 {
                n
            } else {
                50
            },
            None => 10,
        }),
{
}

/// A search tells how many messages it found, and of each the project, who said it and how it
/// starts.
pub proof fn law_search_tells_what_it_found(
    args: JsonView,
    query: Seq<char>,
    all: Vec<Memo>,
    k: int,
)
    requires
        member_text(args, "query"@) == Some(query),
        0 <= k < all@.len(),
    ensures
        handler_step(
            Handler::MemorySearch,
            args,
            seq![Reply::Memory(MemoryReply::Matches(Ok(all)))],
        ) matches StepView::Finish(Ok(text)) && occurs_at(
            text,
            "Found "@ + decimal(all@.len()) + " result(s) for '"@ + query + "':\n"@,
            0,
        ) && occurs(
            text,
            "  ["@ + (match all@[k].project {
                Some(p) => p@,
                None => "?"@,
            }) + "] "@ + all@[k].role@ + ": "@ + first_chars(all@[k].content@, 120) + "..."@,
        ),
{
    let head = "Found "@ + decimal(all@.len()) + " result(s) for '"@ + query + "':\n"@;
    let lines = memo_lines(all@);
    lemma_line_occurs(head, lines, k);
    let text = head + joined(lines, "\n"@);
    assert(text.subrange(0, head.len() as int) =~= head);
}

/// A search without a query is refused.
pub proof fn law_search_needs_a_query(args: JsonView, replies: Seq<Reply>)
    requires
        member_text(args, "query"@) is None,
    ensures
        refuses(handler_step(Handler::MemorySearch, args, replies), "missing 'query'"@),
{
}

/// Where nothing was found, the query is told.
pub proof fn law_fruitless_search(args: JsonView, query: Seq<char>, all: Vec<Memo>)
    requires
        member_text(args, "query"@) == Some(query),
        all@.len() == 0,
    ensures
        tells(
            handler_step(
                Handler::MemorySearch,
                args,
                seq![Reply::Memory(MemoryReply::Matches(Ok(all)))],
            ),
            "No conversations found matching '"@ + query + "'"@,
        ),
{
}

/// A recommendation is stored as it was given; the pending ones are asked for, twenty at
/// most; and the one with the given number is dismissed.
pub proof fn law_recommendations_are_asked_for(
    add: JsonView,
    list: JsonView,
    dismiss: JsonView,
    kind: Seq<char>,
    title: Seq<char>,
    description: Seq<char>,
    id: i64,
)
    requires
        member_text(add, "action"@) == Some("add"@),
        member_text(add, "kind"@) == Some(kind),
        member_text(add, "title"@) == Some(title),
        member_text(add, "description"@) == Some(description),
        member_text(list, "action"@) == Some("list"@),
        member_text(dismiss, "action"@) == Some("dismiss"@),
        member_signed(dismiss, "id"@) == Some(id),
    ensures
        asks(
            handler_step(Handler::MemoryRecommend, add, Seq::empty()),
            MemoryRequestView::Recommend {
                kind,
                title,
                description,
                confidence: match member_number(add, "confidence"@) {
                    Some(given) => given,
                    None => "0.7"@,
                },
                context: match member_text(add, "context"@) {
                    Some(given) => given,
                    None => "{}"@,
                },
                action: member_text(add, "action_json"@),
            },
        ),
        asks(
            handler_step(Handler::MemoryRecommend, list, Seq::empty()),
            MemoryRequestView::Recommendations { dismissed: false, limit: 20 },
        ),
        asks(
            handler_step(Handler::MemoryRecommend, dismiss, Seq::empty()),
            MemoryRequestView::Dismiss { id },
        ),
{
    lemma_actions();
}

/// What is said of recommendations: the number and the title of the one that was added, each
/// of the pending ones in full, and the number of the one that was dismissed.
pub proof fn law_recommendations_are_told(
    add: JsonView,
    list: JsonView,
    dismiss: JsonView,
    title: Seq<char>,
    all: Vec<Recommendation>,
    k: int,
    id: i64,
)
    requires
        member_text(add, "action"@) == Some("add"@),
        member_text(add, "kind"@) is Some,
        member_text(add, "title"@) == Some(title),
        member_text(add, "description"@) is Some,
        member_text(list, "action"@) == Some("list"@),
        member_text(dismiss, "action"@) == Some("dismiss"@),
        member_signed(dismiss, "id"@) == Some(id),
        0 <= k < all@.len(),
    ensures
        tells(
            handler_step(
                Handler::MemoryRecommend,
                add,
                seq![Reply::Memory(MemoryReply::Stored(Ok(id)))],
            ),
            "Added recommendation #"@ + signed_decimal(id as int) + " ("@ + title + ")"@,
        ),
        handler_step(
            Handler::MemoryRecommend,
            list,
            seq![Reply::Memory(MemoryReply::Recommended(Ok(all)))],
        ) matches StepView::Finish(Ok(text)) && occurs(
            text,
            "  #"@ + signed_decimal(all@[k].id as int) + " ["@ + all@[k].kind@ + "] "@
                + all@[k].title@ + " — "@ + all@[k].description@ + " ("@ + all@[k].percent@ + "%)"@,
        ),
        tells(
            handler_step(
                Handler::MemoryRecommend,
                dismiss,
                seq![Reply::Memory(MemoryReply::Dismissed(Ok(())))],
            ),
            "Dismissed recommendation #"@ + signed_decimal(id as int),
        ),
{
    lemma_actions();
    lemma_line_occurs("Recommendations:\n"@, recommendation_lines(all@), k);
}

/// A recommendation that lacks something is refused, and so is an action that there is not.
pub proof fn law_incomplete_recommendations_are_refused(args: JsonView, replies: Seq<Reply>)
    ensures
        ({
            let step = handler_step(Handler::MemoryRecommend, args, replies);
            match member_text(args, "action"@) {
                None => refuses(step, "missing 'action'"@),
                Some(action) => {
                    &&& action == "add"@ && member_text(args, "kind"@) is None ==> refuses(
                        step,
                        "missing 'kind'"@,
                    )
                    &&& action == "add"@ && member_text(args, "kind"@) is Some && member_text(
                        args,
                        "title"@,
                    ) is None ==> refuses(step, "missing 'title'"@)
                    &&& action == "add"@ && member_text(args, "kind"@) is Some && member_text(
                        args,
                        "title"@,
                    ) is Some && member_text(args, "description"@) is None ==> refuses(
                        step,
                        "missing 'description'"@,
                    )
                    &&& action == "dismiss"@ && member_signed(args, "id"@) is None ==> refuses(
                        step,
                        "missing 'id' for dismiss"@,
                    )
                    &&& action != "add"@ && action != "list"@ && action != "dismiss"@ ==> refuses(
                        step,
                        "unknown action '"@ + action + "'"@,
                    )
                },
            }
        }),
{
    lemma_actions();
}

/// The size of the memory is asked for and told, count by count.
pub proof fn law_memory_stats(args: JsonView, s: MemoryStats)
    ensures
        asks(handler_step(Handler::MemoryStats, args, Seq::empty()), MemoryRequestView::Stats),
        tells(
            handler_step(
                Handler::MemoryStats,
                args,
                seq![Reply::Memory(MemoryReply::Stats(Ok(s)))],
            ),
            "Memory Stats:\n  Conversations: "@ + decimal(s.conversations as nat) + "\n  Facts: "@
                + decimal(s.facts as nat) + "\n  Preferences: "@ + decimal(s.preferences as nat)
                + "\n  Recommendations (active): "@ + decimal(s.recommendations as nat)
                + "\n  Proposed modifications: "@ + decimal(s.proposed_modifications as nat)
                + "\n  DB size: "@ + kilobytes(s.db_size_bytes as nat) + " KB"@,
        ),
{
}

} // verus!
