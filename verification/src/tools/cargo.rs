//! Cargo tools: compiler and test output, shortened where it is long.
use vstd::prelude::*;

use crate::error::{answer, refusal, Answer, GremlinError};
use crate::process::{lossy_text, text_of, Invocation, InvocationView, Outcome};
use crate::text::{
    byte_len, decimal, decimal_text, join, joined, lines, lines_from, texts, utf8_len,
};

verus! {

/// Long output with its middle left out: of more than 200 lines the first 50
/// and the last 150 are kept.
pub open spec fn abridged(combined: Seq<char>) -> Seq<char> {
    let all = lines_from(combined, 0);
    if utf8_len(combined) > 20_000 && all.len() > 200 {
        joined(all.take(50), "\n"@) + "\n\n... "@ + decimal((all.len() - 200) as nat)
            + " lines omitted ...\n\n"@ + joined(all.skip(all.len() - 150), "\n"@)
    } else {
        combined
    }
}

/// What a cargo tool says of a run of `cargo <label>`.
pub open spec fn cargo_answer(outcome: Outcome, label: Seq<char>) -> Answer {
    match outcome {
        Err(e) => refusal("cargo not available: "@ + e@),
        Ok(output) => Ok(
            "cargo "@ + label + (if output.success {
                ": SUCCESS\n"@
            } else {
                ": FAILED\n"@
            }) + abridged(lossy_text(output.stdout@) + lossy_text(output.stderr@)),
        ),
    }
}

/// `cargo` with one subcommand.
pub open spec fn cargo_view(subcommand: Seq<char>) -> InvocationView {
    InvocationView { program: "cargo"@, args: seq![subcommand] }
}

/// `cargo build --release`.
pub open spec fn release_view() -> InvocationView {
    InvocationView { program: "cargo"@, args: seq!["build"@, "--release"@] }
}

/// A copy of the strings from one position to another.
fn part(all: &Vec<String>, from: usize, to: usize) -> (r: Vec<String>)
    requires
        from <= to <= all@.len(),
    ensures
        texts(r@) == texts(all@).subrange(from as int, to as int),
{
    let mut r: Vec<String> = Vec::new();
    let mut i: usize = from;
    while i < to
        invariant
            from <= i <= to <= all@.len(),
            texts(r@) == texts(all@).subrange(from as int, i as int),
        decreases to - i,
    {
        let ghost before = r@;
        r.push(all[i].clone());
        i = i + 1;
        assert(texts(r@) =~= texts(before).push(all@[i - 1]@));
        assert(texts(r@) =~= texts(all@).subrange(from as int, i as int));
    }
    r
}

/// Output with its middle left out where it is long.
fn abridge(combined: &str) -> (r: String)
    ensures
        r@ == abridged(combined@),
{
    if byte_len(combined) <= 20_000 {
        return combined.to_owned();
    }
    let all = lines(combined);
    let total: usize = all.len();
    assert(texts(all@).len() == total);
    if total <= 200 {
        return combined.to_owned();
    }
    let head = part(&all, 0, 50);
    let tail = part(&all, total - 150, total);
    proof {
        assert(texts(head@) =~= texts(all@).take(50));
        assert(texts(tail@) =~= texts(all@).skip(total - 150));
    }
    let mut r = join(&head, "\n");
    r.append("\n\n... ");
    r.append(decimal_text((total - 200) as u64).as_str());
    r.append(" lines omitted ...\n\n");
    r.append(join(&tail, "\n").as_str());
    r
}

/// What a cargo tool says of a run of `cargo <label>`.
pub fn run_cargo(outcome: &Outcome, label: &str) -> (r: Result<String, GremlinError>)
    ensures
        answer(r) == cargo_answer(*outcome, label@),
{
    match outcome {
        Err(e) => Err(GremlinError::tool("cargo not available: ", e.as_str())),
        Ok(output) => {
            let mut r = "cargo ".to_owned();
            r.append(label);
            if output.success {
                r.append(": SUCCESS\n");
            } else {
                r.append(": FAILED\n");
            }
            let mut combined = text_of(&output.stdout);
            combined.append(text_of(&output.stderr).as_str());
            r.append(abridge(combined.as_str()).as_str());
            Ok(r)
        },
    }
}

/// The command that `build`, `check` or `test` reads.
pub fn command(subcommand: &str) -> (r: Invocation)
    ensures
        r@ == cargo_view(subcommand@),
{
    let r = Invocation::new("cargo").arg(subcommand);
    assert(r@.args =~= seq![subcommand@]);
    r
}

/// The command that `build_release` reads.
pub fn release_command() -> (r: Invocation)
    ensures
        r@ == release_view(),
{
    let r = Invocation::new("cargo").arg("build").arg("--release");
    assert(r@.args =~= release_view().args);
    r
}

/// What `cargo build` said.
pub fn build(outcome: &Outcome) -> (r: Result<String, GremlinError>)
    ensures
        answer(r) == cargo_answer(*outcome, "build"@),
{
    run_cargo(outcome, "build")
}

/// What `cargo check` said.
pub fn check(outcome: &Outcome) -> (r: Result<String, GremlinError>)
    ensures
        answer(r) == cargo_answer(*outcome, "check"@),
{
    run_cargo(outcome, "check")
}

/// What `cargo test` said.
pub fn test(outcome: &Outcome) -> (r: Result<String, GremlinError>)
    ensures
        answer(r) == cargo_answer(*outcome, "test"@),
{
    run_cargo(outcome, "test")
}

/// What `cargo build --release` said.
pub fn build_release(outcome: &Outcome) -> (r: Result<String, GremlinError>)
    ensures
        answer(r) == cargo_answer(*outcome, "build --release"@),
{
    run_cargo(outcome, "build --release")
}

} // verus!
