//! Memory tools: what is asked of the memory, and how its answers are put.
use vstd::prelude::*;

use crate::effect::{refuse, refuse_view, Reply, Request, RequestView, Step, StepView};
use crate::error::{answer, Answer, GremlinError};
use crate::json::{
    member_number, member_signed, member_text, member_unsigned, text_view, Json, JsonView,
};
use crate::text::{
    decimal, decimal_text, first_chars, join, joined, kilobytes, kilobytes_text, same,
    signed_decimal, signed_decimal_text, take_chars, texts,
};
use crate::tools::schema::Handler;
use crate::tools::{with_tools, ToolRegistry};

verus! {

/// What an entry of the memory is.
#[derive(Debug, Clone, Copy, PartialEq, Eq, Structural)]
pub enum Shelf {
    Facts,
    Preferences,
}

/// What is asked of the memory. A confidence is held as it is written.
#[derive(Debug)]
pub enum MemoryRequest {
    Get { shelf: Shelf, key: String, project: Option<String> },
    Store {
        shelf: Shelf,
        key: String,
        value: String,
        project: Option<String>,
        confidence: String,
        source: String,
    },
    List { shelf: Shelf, project: Option<String> },
    Search { query: String, project: Option<String>, limit: u64 },
    Recommend {
        kind: String,
        title: String,
        description: String,
        confidence: String,
        context: String,
        action: Option<String>,
    },
    Recommendations { dismissed: bool, limit: u64 },
    Dismiss { id: i64 },
    Stats,
}

/// The content of a `MemoryRequest`.
pub enum MemoryRequestView {
    Get { shelf: Shelf, key: Seq<char>, project: Option<Seq<char>> },
    Store {
        shelf: Shelf,
        key: Seq<char>,
        value: Seq<char>,
        project: Option<Seq<char>>,
        confidence: Seq<char>,
        source: Seq<char>,
    },
    List { shelf: Shelf, project: Option<Seq<char>> },
    Search { query: Seq<char>, project: Option<Seq<char>>, limit: u64 },
    Recommend {
        kind: Seq<char>,
        title: Seq<char>,
        description: Seq<char>,
        confidence: Seq<char>,
        context: Seq<char>,
        action: Option<Seq<char>>,
    },
    Recommendations { dismissed: bool, limit: u64 },
    Dismiss { id: i64 },
    Stats,
}

/// An entry of the memory. Its confidence is held in percent, as it is written.
#[derive(Debug)]
pub struct Entry {
    pub key: String,
    pub value: String,
    pub project: Option<String>,
    pub percent: String,
    pub source: String,
}

/// A message that was found.
#[derive(Debug)]
pub struct Memo {
    pub project: Option<String>,
    pub role: String,
    pub content: String,
}

/// A recommendation. Its confidence is held in percent, as it is written.
#[derive(Debug)]
pub struct Recommendation {
    pub id: i64,
    pub kind: String,
    pub title: String,
    pub description: String,
    pub percent: String,
}

/// How much is in the memory.
#[derive(Debug)]
pub struct MemoryStats {
    pub conversations: u64,
    pub facts: u64,
    pub preferences: u64,
    pub recommendations: u64,
    pub proposed_modifications: u64,
    pub db_size_bytes: u64,
}

/// What the memory answers.
#[derive(Debug)]
pub enum MemoryReply {
    Found(Result<Option<Entry>, GremlinError>),
    Stored(Result<i64, GremlinError>),
    Listed(Result<Vec<Entry>, GremlinError>),
    Matches(Result<Vec<Memo>, GremlinError>),
    Recommended(Result<Vec<Recommendation>, GremlinError>),
    Dismissed(Result<(), GremlinError>),
    Stats(Result<MemoryStats, GremlinError>),
}

impl View for MemoryRequest {
    type V = MemoryRequestView;

    open spec fn view(&self) -> MemoryRequestView {
        match self {
            MemoryRequest::Get { shelf, key, project } => MemoryRequestView::Get {
                shelf: *shelf,
                key: key@,
                project: text_view(*project),
            },
            MemoryRequest::Store { shelf, key, value, project, confidence, source } => {
                MemoryRequestView::Store {
                    shelf: *shelf,
                    key: key@,
                    value: value@,
                    project: text_view(*project),
                    confidence: confidence@,
                    source: source@,
                }
            },
            MemoryRequest::List { shelf, project } => MemoryRequestView::List {
                shelf: *shelf,
                project: text_view(*project),
            },
            MemoryRequest::Search { query, project, limit } => MemoryRequestView::Search {
                query: query@,
                project: text_view(*project),
                limit: *limit,
            },
            MemoryRequest::Recommend { kind, title, description, confidence, context, action } => {
                MemoryRequestView::Recommend {
                    kind: kind@,
                    title: title@,
                    description: description@,
                    confidence: confidence@,
                    context: context@,
                    action: text_view(*action),
                }
            },
            MemoryRequest::Recommendations { dismissed, limit } => {
                MemoryRequestView::Recommendations { dismissed: *dismissed, limit: *limit }
            },
            MemoryRequest::Dismiss { id } => MemoryRequestView::Dismiss { id: *id },
            MemoryRequest::Stats => MemoryRequestView::Stats,
        }
    }
}

impl Shelf {
    /// What an entry is called.
    pub open spec fn noun(self) -> Seq<char> {
        match self {
            Shelf::Facts => "fact"@,
            Shelf::Preferences => "preference"@,
        }
    }

    /// What an entry is called at the start of a sentence.
    pub open spec fn label(self) -> Seq<char> {
        match self {
            Shelf::Facts => "Fact"@,
            Shelf::Preferences => "Preference"@,
        }
    }

    /// The confidence where none is given.
    pub open spec fn confidence(self) -> Seq<char> {
        match self {
            Shelf::Facts => "0.8"@,
            Shelf::Preferences => "0.9"@,
        }
    }

    /// The source where none is given.
    pub open spec fn source(self) -> Seq<char> {
        match self {
            Shelf::Facts => "conversation"@,
            Shelf::Preferences => "explicit"@,
        }
    }

    fn noun_text(self) -> (r: &'static str)
        ensures
            r@ == self.noun(),
    {
        match self {
            Shelf::Facts => "fact",
            Shelf::Preferences => "preference",
        }
    }

    fn label_text(self) -> (r: &'static str)
        ensures
            r@ == self.label(),
    {
        match self {
            Shelf::Facts => "Fact",
            Shelf::Preferences => "Preference",
        }
    }

    fn confidence_text(self) -> (r: &'static str)
        ensures
            r@ == self.confidence(),
    {
        match self {
            Shelf::Facts => "0.8",
            Shelf::Preferences => "0.9",
        }
    }

    fn source_text(self) -> (r: &'static str)
        ensures
            r@ == self.source(),
    {
        match self {
            Shelf::Facts => "conversation",
            Shelf::Preferences => "explicit",
        }
    }
}

/// The optional text, or another one.
pub open spec fn text_or(t: Option<Seq<char>>, other: Seq<char>) -> Seq<char> {
    match t {
        Some(s) => s,
        None => other,
    }
}

/// The optional text, or another one.
pub fn text_or_else(t: &Option<String>, other: &str) -> (r: String)
    ensures
        r@ == text_or(text_view(*t), other@),
{
    match t {
        Some(s) => s.clone(),
        None => other.to_owned(),
    }
}

/// What is said of an entry that was looked for.
pub open spec fn found_answer(
    shelf: Shelf,
    key: Seq<char>,
    found: Result<Option<Entry>, GremlinError>,
) -> Answer {
    match found {
        Ok(Some(e)) => Ok(
            shelf.label() + " '"@ + e.key@ + "': "@ + e.value@ + " (confidence: "@ + e.percent@
                + "%, source: "@ + e.source@ + ")"@,
        ),
        Ok(None) => Ok("No "@ + shelf.noun() + " found for key '"@ + key + "'"@),
        Err(e) => Err(e@),
    }
}

/// What is said of an entry that was stored.
pub open spec fn stored_answer(
    shelf: Shelf,
    key: Seq<char>,
    value: Seq<char>,
    stored: Result<i64, GremlinError>,
) -> Answer {
    match stored {
        Ok(id) => Ok(
            "Stored "@ + shelf.noun() + " '"@ + key + "' = '"@ + value + "' (id="@ + signed_decimal(
                id as int,
            ) + ")"@,
        ),
        Err(e) => Err(e@),
    }
}

/// The line for an entry.
pub open spec fn entry_line(e: Entry) -> Seq<char> {
    "  ["@ + text_or(text_view(e.project), "global"@) + "] "@ + e.key@ + " = "@ + e.value@ + " ("@
        + e.percent@ + "%, "@ + e.source@ + ")"@
}

/// The lines for entries.
pub open spec fn entry_lines(all: Seq<Entry>) -> Seq<Seq<char>> {
    all.map_values(|e: Entry| entry_line(e))
}

/// What is said of the entries on a shelf.
pub open spec fn listed_answer(shelf: Shelf, listed: Result<Vec<Entry>, GremlinError>) -> Answer {
    match listed {
        Ok(all) => Ok(
            if all@.len() == 0 {
                "No "@ + shelf.noun() + "s stored."@
            } else {
                shelf.label() + "s:\n"@ + joined(entry_lines(all@), "\n"@)
            },
        ),
        Err(e) => Err(e@),
    }
}

/// The line for a message that was found.
pub open spec fn memo_line(m: Memo) -> Seq<char> {
    "  ["@ + text_or(text_view(m.project), "?"@) + "] "@ + m.role@ + ": "@ + first_chars(
        m.content@,
        120,
    ) + "..."@
}

/// The lines for messages that were found.
pub open spec fn memo_lines(all: Seq<Memo>) -> Seq<Seq<char>> {
    all.map_values(|m: Memo| memo_line(m))
}

/// What is said of a search.
pub open spec fn matches_answer(query: Seq<char>, found: Result<Vec<Memo>, GremlinError>) -> Answer {
    match found {
        Ok(all) => Ok(
            if all@.len() == 0 {
                "No conversations found matching '"@ + query + "'"@
            } else {
                "Found "@ + decimal(all@.len()) + " result(s) for '"@ + query + "':\n"@ + joined(
                    memo_lines(all@),
                    "\n"@,
                )
            },
        ),
        Err(e) => Err(e@),
    }
}

/// What is said of a recommendation that was added.
pub open spec fn added_answer(title: Seq<char>, stored: Result<i64, GremlinError>) -> Answer {
    match stored {
        Ok(id) => Ok(
            "Added recommendation #"@ + signed_decimal(id as int) + " ("@ + title + ")"@,
        ),
        Err(e) => Err(e@),
    }
}

/// The line for a recommendation.
pub open spec fn recommendation_line(r: Recommendation) -> Seq<char> {
    "  #"@ + signed_decimal(r.id as int) + " ["@ + r.kind@ + "] "@ + r.title@ + " — "@
        + r.description@ + " ("@ + r.percent@ + "%)"@
}

/// The lines for recommendations.
pub open spec fn recommendation_lines(all: Seq<Recommendation>) -> Seq<Seq<char>> {
    all.map_values(|r: Recommendation| recommendation_line(r))
}

/// What is said of the recommendations.
pub open spec fn recommended_answer(listed: Result<Vec<Recommendation>, GremlinError>) -> Answer {
    match listed {
        Ok(all) => Ok(
            if all@.len() == 0 {
                "No pending recommendations."@
            } else {
                "Recommendations:\n"@ + joined(recommendation_lines(all@), "\n"@)
            },
        ),
        Err(e) => Err(e@),
    }
}

/// What is said of a recommendation that was dismissed.
pub open spec fn dismissed_answer(id: i64, dismissed: Result<(), GremlinError>) -> Answer {
    match dismissed {
        Ok(_) => Ok("Dismissed recommendation #"@ + signed_decimal(id as int)),
        Err(e) => Err(e@),
    }
}

/// What is said of how much is in the memory.
pub open spec fn stats_answer(stats: Result<MemoryStats, GremlinError>) -> Answer {
    match stats {
        Ok(s) => Ok(
            "Memory Stats:\n  Conversations: "@ + decimal(s.conversations as nat) + "\n  Facts: "@
                + decimal(s.facts as nat) + "\n  Preferences: "@ + decimal(s.preferences as nat)
                + "\n  Recommendations (active): "@ + decimal(s.recommendations as nat)
                + "\n  Proposed modifications: "@ + decimal(s.proposed_modifications as nat)
                + "\n  DB size: "@ + kilobytes(s.db_size_bytes as nat) + " KB"@,
        ),
        Err(e) => Err(e@),
    }
}

/// What the memory answered, where answer 0 says that.
pub open spec fn memory_at(replies: Seq<Reply>) -> Option<MemoryReply> {
    if 0 < replies.len() && replies[0] is Memory {
        Some(replies[0]->Memory_0)
    } else {
        None
    }
}

/// Asks the memory.
pub open spec fn ask(request: MemoryRequestView) -> StepView {
    StepView::Perform(RequestView::Memory(request))
}

/// What the tool for a shelf does.
pub open spec fn shelf_step(shelf: Shelf, args: JsonView, replies: Seq<Reply>) -> StepView {
    let project = member_text(args, "project"@);
    match member_text(args, "action"@) {
        None => refuse_view("missing 'action'"@),
        Some(action) => if action == "get"@ {
            match member_text(args, "key"@) {
                None => refuse_view("missing 'key' for get"@),
                Some(key) => match memory_at(replies) {
                    Some(MemoryReply::Found(found)) => StepView::Finish(
                        found_answer(shelf, key, found),
                    ),
                    _ => ask(MemoryRequestView::Get { shelf, key, project }),
                },
            }
        } else if action == "set"@ {
            match (member_text(args, "key"@), member_text(args, "value"@)) {
                (None, _) => refuse_view("missing 'key' for set"@),
                (Some(_), None) => refuse_view("missing 'value' for set"@),
                (Some(key), Some(value)) => match memory_at(replies) {
                    Some(MemoryReply::Stored(stored)) => StepView::Finish(
                        stored_answer(shelf, key, value, stored),
                    ),
                    _ => ask(
                        MemoryRequestView::Store {
                            shelf,
                            key,
                            value,
                            project,
                            confidence: text_or(
                                member_number(args, "confidence"@),
                                shelf.confidence(),
                            ),
                            source: text_or(member_text(args, "source"@), shelf.source()),
                        },
                    ),
                },
            }
        } else if action == "list"@ {
            match memory_at(replies) {
                Some(MemoryReply::Listed(listed)) => StepView::Finish(
                    listed_answer(shelf, listed),
                ),
                _ => ask(MemoryRequestView::List { shelf, project }),
            }
        } else {
            refuse_view("unknown action '"@ + action + "'"@)
        },
    }
}

/// What the search tool does.
pub open spec fn search_step(args: JsonView, replies: Seq<Reply>) -> StepView {
    match member_text(args, "query"@) {
        None => refuse_view("missing 'query'"@),
        Some(query) => match memory_at(replies) {
            Some(MemoryReply::Matches(found)) => StepView::Finish(matches_answer(query, found)),
            _ => ask(
                MemoryRequestView::Search {
                    query,
                    project: member_text(args, "project"@),
                    limit: match member_unsigned(args, "limit"@) {
                        Some(n) if n < 50 => n,
                        Some(_) => 50,
                        None => 10,
                    },
                },
            ),
        },
    }
}

/// What the tool for recommendations does.
pub open spec fn recommend_step(args: JsonView, replies: Seq<Reply>) -> StepView {
    match member_text(args, "action"@) {
        None => refuse_view("missing 'action'"@),
        Some(action) => if action == "add"@ {
            match (
                member_text(args, "kind"@),
                member_text(args, "title"@),
                member_text(args, "description"@),
            ) {
                (None, _, _) => refuse_view("missing 'kind'"@),
                (Some(_), None, _) => refuse_view("missing 'title'"@),
                (Some(_), Some(_), None) => refuse_view("missing 'description'"@),
                (Some(kind), Some(title), Some(description)) => match memory_at(replies) {
                    Some(MemoryReply::Stored(stored)) => StepView::Finish(
                        added_answer(title, stored),
                    ),
                    _ => ask(
                        MemoryRequestView::Recommend {
                            kind,
                            title,
                            description,
                            confidence: text_or(member_number(args, "confidence"@), "0.7"@),
                            context: text_or(member_text(args, "context"@), "{}"@),
                            action: member_text(args, "action_json"@),
                        },
                    ),
                },
            }
        } else if action == "list"@ {
            match memory_at(replies) {
                Some(MemoryReply::Recommended(listed)) => StepView::Finish(
                    recommended_answer(listed),
                ),
                _ => ask(MemoryRequestView::Recommendations { dismissed: false, limit: 20 }),
            }
        } else if action == "dismiss"@ {
            match member_signed(args, "id"@) {
                None => refuse_view("missing 'id' for dismiss"@),
                Some(id) => match memory_at(replies) {
                    Some(MemoryReply::Dismissed(dismissed)) => StepView::Finish(
                        dismissed_answer(id, dismissed),
                    ),
                    _ => ask(MemoryRequestView::Dismiss { id }),
                },
            }
        } else {
            refuse_view("unknown action '"@ + action + "'"@)
        },
    }
}

/// What the tool for the size of the memory does.
pub open spec fn stats_step(replies: Seq<Reply>) -> StepView {
    match memory_at(replies) {
        Some(MemoryReply::Stats(stats)) => StepView::Finish(stats_answer(stats)),
        _ => ask(MemoryRequestView::Stats),
    }
}

fn memory_reply(replies: &Vec<Reply>) -> (r: Option<&MemoryReply>)
    ensures
        match r {
            Some(reply) => memory_at(replies@) == Some(*reply),
            None => memory_at(replies@) is None,
        },
{
    if replies.len() > 0 {
        match &replies[0] {
            Reply::Memory(reply) => Some(reply),
            _ => None,
        }
    } else {
        None
    }
}

fn found_text(shelf: Shelf, key: &str, found: &Result<Option<Entry>, GremlinError>) -> (r: Result<
    String,
    GremlinError,
>)
    ensures
        answer(r) == found_answer(shelf, key@, *found),
{
    match found {
        Ok(Some(e)) => {
            let mut s = shelf.label_text().to_owned();
            s.append(" '");
            s.append(e.key.as_str());
            s.append("': ");
            s.append(e.value.as_str());
            s.append(" (confidence: ");
            s.append(e.percent.as_str());
            s.append("%, source: ");
            s.append(e.source.as_str());
            s.append(")");
            Ok(s)
        },
        Ok(None) => {
            let mut s = "No ".to_owned();
            s.append(shelf.noun_text());
            s.append(" found for key '");
            s.append(key);
            s.append("'");
            Ok(s)
        },
        Err(e) => Err(e.copy()),
    }
}

fn stored_text(shelf: Shelf, key: &str, value: &str, stored: &Result<i64, GremlinError>) -> (r:
    Result<String, GremlinError>)
    ensures
        answer(r) == stored_answer(shelf, key@, value@, *stored),
{
    match stored {
        Ok(id) => {
            let mut s = "Stored ".to_owned();
            s.append(shelf.noun_text());
            s.append(" '");
            s.append(key);
            s.append("' = '");
            s.append(value);
            s.append("' (id=");
            s.append(signed_decimal_text(*id).as_str());
            s.append(")");
            Ok(s)
        },
        Err(e) => Err(e.copy()),
    }
}

fn entry_text(e: &Entry) -> (s: String)
    ensures
        s@ == entry_line(*e),
{
    let mut s = "  [".to_owned();
    s.append(text_or_else(&e.project, "global").as_str());
    s.append("] ");
    s.append(e.key.as_str());
    s.append(" = ");
    s.append(e.value.as_str());
    s.append(" (");
    s.append(e.percent.as_str());
    s.append("%, ");
    s.append(e.source.as_str());
    s.append(")");
    s
}

fn listed_text(shelf: Shelf, listed: &Result<Vec<Entry>, GremlinError>) -> (r: Result<
    String,
    GremlinError,
>)
    ensures
        answer(r) == listed_answer(shelf, *listed),
{
    match listed {
        Ok(all) => {
            if all.len() == 0 {
                let mut s = "No ".to_owned();
                s.append(shelf.noun_text());
                s.append("s stored.");
                return Ok(s);
            }
            let mut lines: Vec<String> = Vec::new();
            let mut i: usize = 0;
            while i < all.len()
                invariant
                    i <= all@.len(),
                    texts(lines@) =~= entry_lines(all@).take(i as int),
                decreases all@.len() - i,
            {
                let ghost before = lines@;
                lines.push(entry_text(&all[i]));
                i = i + 1;
                assert(texts(lines@) =~= texts(before).push(entry_line(all@[i - 1])));
            }
            assert(texts(lines@) =~= entry_lines(all@));
            let mut s = shelf.label_text().to_owned();
            s.append("s:\n");
            s.append(join(&lines, "\n").as_str());
            Ok(s)
        },
        Err(e) => Err(e.copy()),
    }
}

fn memo_text(m: &Memo) -> (s: String)
    ensures
        s@ == memo_line(*m),
{
    let mut s = "  [".to_owned();
    s.append(text_or_else(&m.project, "?").as_str());
    s.append("] ");
    s.append(m.role.as_str());
    s.append(": ");
    s.append(take_chars(m.content.as_str(), 120).as_str());
    s.append("...");
    s
}

fn matches_text(query: &str, found: &Result<Vec<Memo>, GremlinError>) -> (r: Result<
    String,
    GremlinError,
>)
    ensures
        answer(r) == matches_answer(query@, *found),
{
    match found {
        Ok(all) => {
            if all.len() == 0 {
                let mut s = "No conversations found matching '".to_owned();
                s.append(query);
                s.append("'");
                return Ok(s);
            }
            let mut lines: Vec<String> = Vec::new();
            let mut i: usize = 0;
            while i < all.len()
                invariant
                    i <= all@.len(),
                    texts(lines@) =~= memo_lines(all@).take(i as int),
                decreases all@.len() - i,
            {
                let ghost before = lines@;
                lines.push(memo_text(&all[i]));
                i = i + 1;
                assert(texts(lines@) =~= texts(before).push(memo_line(all@[i - 1])));
            }
            assert(texts(lines@) =~= memo_lines(all@));
            let mut s = "Found ".to_owned();
            s.append(decimal_text(all.len() as u64).as_str());
            s.append(" result(s) for '");
            s.append(query);
            s.append("':\n");
            s.append(join(&lines, "\n").as_str());
            Ok(s)
        },
        Err(e) => Err(e.copy()),
    }
}

fn added_text(title: &str, stored: &Result<i64, GremlinError>) -> (r: Result<String, GremlinError>)
    ensures
        answer(r) == added_answer(title@, *stored),
{
    match stored {
        Ok(id) => {
            let mut s = "Added recommendation #".to_owned();
            s.append(signed_decimal_text(*id).as_str());
            s.append(" (");
            s.append(title);
            s.append(")");
            Ok(s)
        },
        Err(e) => Err(e.copy()),
    }
}

fn recommendation_text(rec: &Recommendation) -> (s: String)
    ensures
        s@ == recommendation_line(*rec),
{
    let mut s = "  #".to_owned();
    s.append(signed_decimal_text(rec.id).as_str());
    s.append(" [");
    s.append(rec.kind.as_str());
    s.append("] ");
    s.append(rec.title.as_str());
    s.append(" — ");
    s.append(rec.description.as_str());
    s.append(" (");
    s.append(rec.percent.as_str());
    s.append("%)");
    s
}

fn recommended_text(listed: &Result<Vec<Recommendation>, GremlinError>) -> (r: Result<
    String,
    GremlinError,
>)
    ensures
        answer(r) == recommended_answer(*listed),
{
    match listed {
        Ok(all) => {
            if all.len() == 0 {
                return Ok("No pending recommendations.".to_owned());
            }
            let mut lines: Vec<String> = Vec::new();
            let mut i: usize = 0;
            while i < all.len()
                invariant
                    i <= all@.len(),
                    texts(lines@) =~= recommendation_lines(all@).take(i as int),
                decreases all@.len() - i,
            {
                let ghost before = lines@;
                lines.push(recommendation_text(&all[i]));
                i = i + 1;
                assert(texts(lines@) =~= texts(before).push(recommendation_line(all@[i - 1])));
            }
            assert(texts(lines@) =~= recommendation_lines(all@));
            let mut s = "Recommendations:\n".to_owned();
            s.append(join(&lines, "\n").as_str());
            Ok(s)
        },
        Err(e) => Err(e.copy()),
    }
}

fn stats_text(stats: &Result<MemoryStats, GremlinError>) -> (r: Result<String, GremlinError>)
    ensures
        answer(r) == stats_answer(*stats),
{
    match stats {
        Ok(m) => {
            let mut s = "Memory Stats:\n  Conversations: ".to_owned();
            s.append(decimal_text(m.conversations).as_str());
            s.append("\n  Facts: ");
            s.append(decimal_text(m.facts).as_str());
            s.append("\n  Preferences: ");
            s.append(decimal_text(m.preferences).as_str());
            s.append("\n  Recommendations (active): ");
            s.append(decimal_text(m.recommendations).as_str());
            s.append("\n  Proposed modifications: ");
            s.append(decimal_text(m.proposed_modifications).as_str());
            s.append("\n  DB size: ");
            s.append(kilobytes_text(m.db_size_bytes).as_str());
            s.append(" KB");
            Ok(s)
        },
        Err(e) => Err(e.copy()),
    }
}

fn unknown_action(action: &str) -> (s: Step)
    ensures
        s@ == refuse_view("unknown action '"@ + action@ + "'"@),
{
    let mut words = "unknown action '".to_owned();
    words.append(action);
    words.append("'");
    Step::Finish(Err(GremlinError::Tool(words)))
}

/// What the tool for a shelf does.
pub fn shelf_tool(shelf: Shelf, args: &Json, replies: &Vec<Reply>) -> (s: Step)
    ensures
        s@ == shelf_step(shelf, args@, replies@),
        s@ matches StepView::Perform(request) ==> match request {
            RequestView::Memory(MemoryRequestView::Store { key, value, .. }) => {
                &&& member_text(args@, "action"@) == Some("set"@)
                &&& member_text(args@, "key"@) == Some(key)
                &&& member_text(args@, "value"@) == Some(value)
            },
            RequestView::Memory(MemoryRequestView::Get { key, .. }) => {
                &&& member_text(args@, "action"@) == Some("get"@)
                &&& member_text(args@, "key"@) == Some(key)
            },
            RequestView::Memory(MemoryRequestView::List { .. }) => member_text(args@, "action"@)
                == Some("list"@),
            _ => false,
        },
{
    let action = match args.get_text("action") {
        Some(action) => action,
        None => {
            return refuse("missing 'action'");
        },
    };
    let project = args.get_text("project");
    if same(action.as_str(), "get") {
        let key = match args.get_text("key") {
            Some(key) => key,
            None => {
                return refuse("missing 'key' for get");
            },
        };
        match memory_reply(replies) {
            Some(MemoryReply::Found(found)) => Step::Finish(found_text(shelf, key.as_str(), found)),
            _ => Step::Perform(Request::Memory(MemoryRequest::Get { shelf, key, project })),
        }
    } else if same(action.as_str(), "set") {
        let key = match args.get_text("key") {
            Some(key) => key,
            None => {
                return refuse("missing 'key' for set");
            },
        };
        let value = match args.get_text("value") {
            Some(value) => value,
            None => {
                return refuse("missing 'value' for set");
            },
        };
        match memory_reply(replies) {
            Some(MemoryReply::Stored(stored)) => Step::Finish(
                stored_text(shelf, key.as_str(), value.as_str(), stored),
            ),
            _ => Step::Perform(
                Request::Memory(
                    MemoryRequest::Store {
                        shelf,
                        key,
                        value,
                        project,
                        confidence: text_or_else(
                            &args.get_number("confidence"),
                            shelf.confidence_text(),
                        ),
                        source: text_or_else(&args.get_text("source"), shelf.source_text()),
                    },
                ),
            ),
        }
    } else if same(action.as_str(), "list") {
        match memory_reply(replies) {
            Some(MemoryReply::Listed(listed)) => Step::Finish(listed_text(shelf, listed)),
            _ => Step::Perform(Request::Memory(MemoryRequest::List { shelf, project })),
        }
    } else {
        unknown_action(action.as_str())
    }
}

/// What the search tool does.
pub fn search_tool(args: &Json, replies: &Vec<Reply>) -> (s: Step)
    ensures
        s@ == search_step(args@, replies@),
{
    let query = match args.get_text("query") {
        Some(query) => query,
        None => {
            return refuse("missing 'query'");
        },
    };
    match memory_reply(replies) {
        Some(MemoryReply::Matches(found)) => Step::Finish(matches_text(query.as_str(), found)),
        _ => {
            let limit: u64 = match args.get_unsigned("limit") {
                Some(n) => if n < 50 {
                    n
                } else {
                    50
                },
                None => 10,
            };
            Step::Perform(
                Request::Memory(
                    MemoryRequest::Search { query, project: args.get_text("project"), limit },
                ),
            )
        },
    }
}

/// What the tool for recommendations does.
pub fn recommend_tool(args: &Json, replies: &Vec<Reply>) -> (s: Step)
    ensures
        s@ == recommend_step(args@, replies@),
{
    let action = match args.get_text("action") {
        Some(action) => action,
        None => {
            return refuse("missing 'action'");
        },
    };
    if same(action.as_str(), "add") {
        let kind = match args.get_text("kind") {
            Some(kind) => kind,
            None => {
                return refuse("missing 'kind'");
            },
        };
        let title = match args.get_text("title") {
            Some(title) => title,
            None => {
                return refuse("missing 'title'");
            },
        };
        let description = match args.get_text("description") {
            Some(description) => description,
            None => {
                return refuse("missing 'description'");
            },
        };
        match memory_reply(replies) {
            Some(MemoryReply::Stored(stored)) => Step::Finish(added_text(title.as_str(), stored)),
            _ => Step::Perform(
                Request::Memory(
                    MemoryRequest::Recommend {
                        kind,
                        title,
                        description,
                        confidence: text_or_else(&args.get_number("confidence"), "0.7"),
                        context: text_or_else(&args.get_text("context"), "{}"),
                        action: args.get_text("action_json"),
                    },
                ),
            ),
        }
    } else if same(action.as_str(), "list") {
        match memory_reply(replies) {
            Some(MemoryReply::Recommended(listed)) => Step::Finish(recommended_text(listed)),
            _ => Step::Perform(
                Request::Memory(MemoryRequest::Recommendations { dismissed: false, limit: 20 }),
            ),
        }
    } else if same(action.as_str(), "dismiss") {
        let id: i64 = match args.get_signed("id") {
            Some(id) => id,
            None => {
                return refuse("missing 'id' for dismiss");
            },
        };
        match memory_reply(replies) {
            Some(MemoryReply::Dismissed(Ok(_))) => {
                let mut words = "Dismissed recommendation #".to_owned();
                words.append(signed_decimal_text(id).as_str());
                Step::Finish(Ok(words))
            },
            Some(MemoryReply::Dismissed(Err(e))) => Step::Finish(Err(e.copy())),
            _ => Step::Perform(Request::Memory(MemoryRequest::Dismiss { id })),
        }
    } else {
        unknown_action(action.as_str())
    }
}

/// What the tool for the size of the memory does.
pub fn stats_tool(replies: &Vec<Reply>) -> (s: Step)
    ensures
        s@ == stats_step(replies@),
{
    match memory_reply(replies) {
        Some(MemoryReply::Stats(stats)) => Step::Finish(stats_text(stats)),
        _ => Step::Perform(Request::Memory(MemoryRequest::Stats)),
    }
}

/// The tools for the memory. There is none by which the model changes itself
/// (`memory_self_modify`): what it would do has never been laid down.
pub open spec fn memory_handlers() -> Seq<Handler> {
    seq![
        Handler::MemoryFact,
        Handler::MemoryPref,
        Handler::MemorySearch,
        Handler::MemoryRecommend,
        Handler::MemoryStats,
    ]
}

/// Adds the tools for the memory to a registry.
pub fn register_memory_tools(registry: &mut ToolRegistry)
    ensures
        old(registry).all_writable() ==> final(registry).all_writable(),
        final(registry)@ == with_tools(old(registry)@, memory_handlers(), memory_handlers().len()),
{
    let mut all: Vec<Handler> = Vec::new();
    all.push(Handler::MemoryFact);
    all.push(Handler::MemoryPref);
    all.push(Handler::MemorySearch);
    all.push(Handler::MemoryRecommend);
    all.push(Handler::MemoryStats);
    assert(all@ =~= memory_handlers());
    registry.register_all(&all);
}

/// No search asks for more than fifty messages.
pub proof fn law_search_is_limited(args: JsonView, replies: Seq<Reply>)
    ensures
        search_step(args, replies) matches StepView::Perform(
            RequestView::Memory(MemoryRequestView::Search { limit, .. }),
        ) ==> limit <= 50,
{
}

} // verus!
