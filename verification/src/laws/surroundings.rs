//! What is found out before a question is put, and how it gets into the prompt.
use vstd::prelude::*;

use crate::context::{
    context_parts, context_string, first_bytes, gathered, prompt_string, with_part, ContextView,
    Surroundings,
};
use crate::hermes::{hermes_prompt, prompt_parts, TemplateView};
use crate::text::{
    decimal, joined, lemma_occurs_between, lemma_occurs_joined, occurs, occurs_at, utf8_len,
};

verus! {

/// Every part of the context comes from its own tool alone: whatever the others say, it is
/// what that tool said, where it succeeded and had something to say.
pub proof fn law_each_part_comes_from_its_own_tool(s: Surroundings)
    ensures
        s.pwd.success ==> gathered(s).working_directory == Some(s.pwd.output@),
        !s.pwd.success ==> gathered(s).working_directory is None,
        s.git_branch.success ==> gathered(s).git_branch == Some(s.git_branch.output@),
        !s.git_branch.success ==> gathered(s).git_branch is None,
        s.git_status.success && s.git_status.output@ != "(clean working tree)"@ ==> gathered(
            s,
        ).git_status == Some(s.git_status.output@),
        !s.git_status.success || s.git_status.output@ == "(clean working tree)"@ ==> gathered(
            s,
        ).git_status is None,
        s.git_diff.success && s.git_diff.output@.len() > 0 ==> gathered(s).git_diff == Some(
            s.git_diff.output@,
        ),
        !s.git_diff.success || s.git_diff.output@.len() == 0 ==> gathered(s).git_diff is None,
        s.active_window.success ==> gathered(s).active_window == Some(s.active_window.output@),
        !s.active_window.success ==> gathered(s).active_window is None,
        s.active_workspace.success ==> gathered(s).active_workspace == Some(
            s.active_workspace.output@,
        ),
        !s.active_workspace.success ==> gathered(s).active_workspace is None,
        s.desktop_summary matches Ok(text) ==> (text@.len() > 0 ==> gathered(s).desktop_summary
            == Some(text@)),
        s.desktop_summary matches Ok(text) ==> (text@.len() == 0 ==> gathered(s).desktop_summary
            is None),
        s.desktop_summary is Err ==> gathered(s).desktop_summary is None,
        gathered(s).current_project is None,
{
}

proof fn lemma_part_is_in_the_string(c: ContextView, full_diff: bool, part: Seq<char>)
    requires
        context_parts(c, full_diff).contains(part),
    ensures
        occurs(context_string(c, full_diff), part),
{
    let parts = context_parts(c, full_diff);
    let k = choose|k: int| 0 <= k < parts.len() && parts[k] == part;
    assert(part.subrange(0, part.len() as int) =~= part);
    assert(occurs_at(part, part, 0));
    lemma_occurs_joined(parts, "\n"@, k, parts.len(), part);
    lemma_occurs_between("System context:\n"@, joined(parts, "\n"@), "\n\n"@, part);
}

/// The first `n` of some parts, each under its heading, where it is known.
spec fn headed(headings: Seq<Seq<char>>, parts: Seq<Option<Seq<char>>>, n: nat) -> Seq<Seq<char>>
    decreases n,
{
    if n == 0 {
        Seq::empty()
    } else {
        with_part(headed(headings, parts, (n - 1) as nat), headings[n - 1], parts[n - 1])
    }
}

/// How many of the first `n` parts are known.
pub open spec fn known(parts: Seq<Option<Seq<char>>>, n: nat) -> nat
    decreases n,
{
    if n == 0 {
        0
    } else {
        known(parts, (n - 1) as nat) + (if parts[n - 1] is Some {
            1nat
        } else {
            0
        })
    }
}

proof fn lemma_headed(headings: Seq<Seq<char>>, parts: Seq<Option<Seq<char>>>, n: nat)
    ensures
        headed(headings, parts, n).len() == known(parts, n),
        forall|k: int|
            #![trigger parts[k]]
            0 <= k < n && parts[k] is Some ==> headed(headings, parts, n).contains(
                headings[k] + parts[k]->0,
            ),
    decreases n,
{
    if n > 0 {
        let before = headed(headings, parts, (n - 1) as nat);
        let after = headed(headings, parts, n);
        lemma_headed(headings, parts, (n - 1) as nat);
        assert forall|k: int|
            #![trigger parts[k]]
            0 <= k < n && parts[k] is Some implies after.contains(headings[k] + parts[k]->0) by {
            let part = headings[k] + parts[k]->0;
            if k == n - 1 {
                assert(after[after.len() - 1] == part);
            } else {
                let i = choose|i: int| 0 <= i < before.len() && before[i] == part;
                assert(after[i] == part);
            }
        }
    }
}

/// What is known, in its order.
pub open spec fn parts_of(c: ContextView, full_diff: bool) -> Seq<Option<Seq<char>>> {
    seq![
        c.working_directory,
        c.git_branch,
        c.git_status,
        match c.git_diff {
            Some(d) => Some(
                if full_diff || utf8_len(d) <= 4000 {
                    d
                } else {
                    first_bytes(d, 4000) + "...\n(truncated, "@ + decimal(utf8_len(d))
                        + " chars total)"@
                },
            ),
            None => None,
        },
        c.current_project,
        c.desktop_summary,
        c.active_window,
        c.active_workspace,
    ]
}

proof fn lemma_parts(c: ContextView, full_diff: bool)
    ensures
        context_parts(c, full_diff).len() == known(parts_of(c, full_diff), 8),
        forall|k: int|
            #![trigger headings()[k]]
            0 <= k < 8 && parts_of(c, full_diff)[k] is Some ==> context_parts(
                c,
                full_diff,
            ).contains(headings()[k] + parts_of(c, full_diff)[k]->0),
{
    let parts = parts_of(c, full_diff);
    reveal_with_fuel(headed, 9);
    assert(context_parts(c, full_diff) == headed(headings(), parts, 8));
    lemma_headed(headings(), parts, 8);
    assert forall|k: int|
        #![trigger headings()[k]]
        0 <= k < 8 && parts[k] is Some implies context_parts(c, full_diff).contains(
        headings()[k] + parts[k]->0,
    ) by {
        let part = parts[k];
    }
}

/// The headings of the parts.
pub open spec fn headings() -> Seq<Seq<char>> {
    seq![
        "Working directory: "@,
        "Git branch: "@,
        "Git status:\n"@,
        "Git diff (unstaged):\n"@,
        "Current project: "@,
        "Desktop:\n"@,
        "Active window: "@,
        ""@,
    ]
}

/// Whatever is known stands in the prompt, under its heading, whatever else is known. Of the
/// diff it is all, unless it is long and not asked for in full.
pub proof fn law_what_is_known_is_in_the_prompt(c: ContextView, full_diff: bool)
    ensures
        ({
            let s = context_string(c, full_diff);
            &&& c.working_directory matches Some(t) ==> occurs(s, "Working directory: "@ + t)
            &&& c.git_branch matches Some(t) ==> occurs(s, "Git branch: "@ + t)
            &&& c.git_status matches Some(t) ==> occurs(s, "Git status:\n"@ + t)
            &&& c.git_diff matches Some(t) ==> (full_diff || utf8_len(t) <= 4000 ==> occurs(
                s,
                "Git diff (unstaged):\n"@ + t,
            ))
            &&& c.git_diff matches Some(t) ==> (!full_diff && utf8_len(t) > 4000 ==> occurs(
                s,
                "Git diff (unstaged):\n"@ + (first_bytes(t, 4000) + "...\n(truncated, "@ + decimal(
                    utf8_len(t),
                ) + " chars total)"@),
            ))
            &&& c.current_project matches Some(t) ==> occurs(s, "Current project: "@ + t)
            &&& c.desktop_summary matches Some(t) ==> occurs(s, "Desktop:\n"@ + t)
            &&& c.active_window matches Some(t) ==> occurs(s, "Active window: "@ + t)
            &&& c.active_workspace matches Some(t) ==> occurs(s, t)
        }),
        context_parts(c, full_diff).len() == known(parts_of(c, full_diff), 8),
        prompt_string(c) == context_string(c, false),
{
    lemma_parts(c, full_diff);
    let parts = parts_of(c, full_diff);
    assert forall|k: int| 0 <= k < 8 && parts[k] is Some implies occurs(
        context_string(c, full_diff),
        #[trigger] headings()[k] + parts[k]->0,
    ) by {
        lemma_part_is_in_the_string(c, full_diff, headings()[k] + parts[k]->0);
    }
    assert(headings()[0] == "Working directory: "@ && headings()[1] == "Git branch: "@
        && headings()[2] == "Git status:\n"@ && headings()[3] == "Git diff (unstaged):\n"@);
    assert(headings()[4] == "Current project: "@ && headings()[5] == "Desktop:\n"@
        && headings()[6] == "Active window: "@ && headings()[7] == ""@);
    if let Some(t) = c.active_workspace {
        reveal_strlit("");
        assert(""@ + t =~= t);
    }
}

/// The prompt for Hermes holds the template's own words, what is known of the surroundings,
/// the instructions, the task and the wish for a code block.
pub proof fn law_hermes_prompt_holds_everything(
    template: TemplateView,
    context: ContextView,
    request: Seq<char>,
)
    ensures
        ({
            let prompt = hermes_prompt(template, context, request);
            let known = context_string(context, template.include_diff);
            &&& occurs_at(prompt, template.system_prompt, 0)
            &&& known.len() > 0 ==> occurs(prompt, known)
            &&& template.instructions matches Some(i) ==> occurs(prompt, i)
            &&& occurs(prompt, "Task:\n"@ + request)
            &&& template.output_tag matches Some(tag) ==> occurs(
                prompt,
                "Format your response as:\n```"@ + tag + "\n(your changes here)\n```"@,
            )
        }),
{
    let parts = prompt_parts(template, context, request);
    let known = context_string(context, template.include_diff);
    let none = Seq::<char>::empty();
    assert forall|k: int| 0 <= k < parts.len() implies #[trigger] occurs(
        hermes_prompt(template, context, request),
        parts[k],
    ) by {
        assert(parts[k].subrange(0, parts[k].len() as int) =~= parts[k]);
        assert(occurs_at(parts[k], parts[k], 0));
        lemma_occurs_joined(parts, "\n\n"@, k, parts.len(), parts[k]);
    }
    let at_known: int = if known.len() > 0 {
        1
    } else {
        0
    };
    let at_more: int = if template.instructions is Some {
        1
    } else {
        0
    };
    lemma_starts_with_the_first(parts, "\n\n"@, parts.len());
    if known.len() > 0 {
        let header = "Project context (auto-gathered, do not ask the user for this):\n"@;
        assert(parts[1] == header + known);
        assert(known.subrange(0, known.len() as int) =~= known);
        assert(occurs_at(known, known, 0));
        lemma_occurs_between(header, known, none, known);
        assert(header + known + none =~= parts[1]);
        lemma_occurs_joined(parts, "\n\n"@, 1, parts.len(), known);
    }
    if template.instructions is Some {
        assert(occurs(hermes_prompt(template, context, request), parts[1 + at_known]));
    }
    assert(occurs(hermes_prompt(template, context, request), parts[1 + at_known + at_more]));
    if template.output_tag is Some {
        assert(occurs(hermes_prompt(template, context, request), parts[2 + at_known + at_more]));
    }
}

proof fn lemma_starts_with_the_first(parts: Seq<Seq<char>>, sep: Seq<char>, n: nat)
    requires
        0 < n <= parts.len(),
    ensures
        occurs_at(crate::text::joined_upto(parts, sep, n), parts[0], 0),
    decreases n,
{
    let all = crate::text::joined_upto(parts, sep, n);
    if n > 1 {
        lemma_starts_with_the_first(parts, sep, (n - 1) as nat);
        let head = crate::text::joined_upto(parts, sep, (n - 1) as nat);
        assert(all.subrange(0, parts[0].len() as int) =~= head.subrange(
            0,
            parts[0].len() as int,
        ));
    } else {
        assert(all.subrange(0, parts[0].len() as int) =~= parts[0]);
    }
}

} // verus!
