//! Git tools.
use vstd::prelude::*;

use crate::error::{answer, refusal, Answer, GremlinError};
use crate::process::{lossy_text, text_of, trimmed_text_of, Invocation, InvocationView, Outcome};
use crate::text::{clip, clipped, law_clipped_is_bounded, trimmed};

verus! {

/// What a run of git says: its output without the white space around it, or the
/// complaint it wrote.
pub open spec fn git_answer(outcome: Outcome) -> Answer {
    match outcome {
        Err(e) => refusal("git not available: "@ + e@),
        Ok(output) => if output.success {
            Ok(trimmed(lossy_text(output.stdout@)))
        } else {
            refusal("git error: "@ + lossy_text(output.stderr@))
        },
    }
}

/// What the status tool says of a run of `git status`.
pub open spec fn status_answer(outcome: Outcome) -> Answer {
    match git_answer(outcome) {
        Ok(out) => Ok(
            if out.len() == 0 {
                "(clean working tree)"@
            } else {
                out
            },
        ),
        Err(e) => Err(e),
    }
}

/// What the diff tool says of a run of `git diff`.
pub open spec fn diff_answer(outcome: Outcome) -> Answer {
    match git_answer(outcome) {
        Ok(out) => Ok(
            if out.len() == 0 {
                "(no changes)"@
            } else {
                clipped(out, 30_000, "\n\n[... diff truncated at 30KB ...]"@)
            },
        ),
        Err(e) => Err(e),
    }
}

/// `git status --short`.
pub open spec fn status_view() -> InvocationView {
    InvocationView { program: "git"@, args: seq!["status"@, "--short"@] }
}

/// `git diff`, of the staged changes or of the others.
pub open spec fn diff_view(staged: bool) -> InvocationView {
    InvocationView {
        program: "git"@,
        args: if staged {
            seq!["diff"@, "--staged"@]
        } else {
            seq!["diff"@]
        },
    }
}

/// `git rev-parse --abbrev-ref HEAD`.
pub open spec fn branch_view() -> InvocationView {
    InvocationView { program: "git"@, args: seq!["rev-parse"@, "--abbrev-ref"@, "HEAD"@] }
}

/// What a run of git says.
fn git(outcome: &Outcome) -> (r: Result<String, GremlinError>)
    ensures
        answer(r) == git_answer(*outcome),
{
    match outcome {
        Err(e) => Err(GremlinError::tool("git not available: ", e.as_str())),
        Ok(output) => {
            if output.success {
                Ok(trimmed_text_of(&output.stdout))
            } else {
                Err(GremlinError::tool("git error: ", text_of(&output.stderr).as_str()))
            }
        },
    }
}

/// The command that `status` reads.
pub fn status_command() -> (r: Invocation)
    ensures
        r@ == status_view(),
{
    let r = Invocation::new("git").arg("status").arg("--short");
    assert(r@.args =~= status_view().args);
    r
}

/// The short status of the repository.
pub fn status(outcome: &Outcome) -> (r: Result<String, GremlinError>)
    ensures
        answer(r) == status_answer(*outcome),
{
    let out = git(outcome)?;
    if out.as_str().is_empty() {
        Ok("(clean working tree)".to_owned())
    } else {
        Ok(out)
    }
}

/// The command that `diff` reads.
pub fn diff_command(staged: bool) -> (r: Invocation)
    ensures
        r@ == diff_view(staged),
{
    let plain = Invocation::new("git").arg("diff");
    if staged {
        let r = plain.arg("--staged");
        assert(r@.args =~= diff_view(true).args);
        r
    } else {
        assert(plain@.args =~= diff_view(false).args);
        plain
    }
}

/// The changes in the repository, cut where they are long.
pub fn diff(outcome: &Outcome) -> (r: Result<String, GremlinError>)
    ensures
        answer(r) == diff_answer(*outcome),
{
    let out = git(outcome)?;
    if out.as_str().is_empty() {
        Ok("(no changes)".to_owned())
    } else {
        Ok(clip(out.as_str(), 30_000, "\n\n[... diff truncated at 30KB ...]"))
    }
}

/// The command that `current_branch` reads.
pub fn branch_command() -> (r: Invocation)
    ensures
        r@ == branch_view(),
{
    let r = Invocation::new("git").arg("rev-parse").arg("--abbrev-ref").arg("HEAD");
    assert(r@.args =~= branch_view().args);
    r
}

/// The name of the current branch.
pub fn current_branch(outcome: &Outcome) -> (r: Result<String, GremlinError>)
    ensures
        answer(r) == git_answer(*outcome),
{
    git(outcome)
}

/// However many changes there are, the tool says at most thirty thousand characters of
/// them.
pub proof fn law_diff_is_bounded(outcome: Outcome)
    ensures
        diff_answer(outcome) matches Ok(said) ==> said.len() <= 30_000
            + "\n\n[... diff truncated at 30KB ...]"@.len(),
{
    reveal_strlit("(no changes)");
    if let Ok(out) = git_answer(outcome) {
        law_clipped_is_bounded(out, 30_000, "\n\n[... diff truncated at 30KB ...]"@);
    }
}

} // verus!
