//! The systemd user service: which binary it runs, its unit file and the commands that
//! install and remove it.
use vstd::prelude::*;

use crate::daemon::path_in;
use crate::error::{ErrorView, GremlinError};
use crate::process::{
    lossy_text, succeeded, text_of, trimmed_text_of, which, which_view, Invocation, InvocationView,
    Outcome,
};
use crate::text::{replace, replaced, trimmed};

verus! {

/// What the search for the binary comes to.
#[derive(Debug)]
pub enum BinaryStep {
    /// Whether this file exists has to be found out first.
    Look(String),
    /// This has to be run first.
    Run(Invocation),
    /// It is over.
    Done(Result<String, GremlinError>),
}

/// The content of a `BinaryStep`.
pub enum BinaryView {
    Look(Seq<char>),
    Run(InvocationView),
    Done(Result<Seq<char>, ErrorView>),
}

impl View for BinaryStep {
    type V = BinaryView;

    open spec fn view(&self) -> BinaryView {
        match self {
            BinaryStep::Look(path) => BinaryView::Look(path@),
            BinaryStep::Run(invocation) => BinaryView::Run(invocation@),
            BinaryStep::Done(r) => BinaryView::Done(crate::error::answer(*r)),
        }
    }
}

/// What is said where there is no binary.
pub const NO_BINARY: &'static str =
    "gremlin binary not found. Build with `cargo build --release` and ensure target/release/gremlin is in PATH or ~/.cargo/bin/.";

/// The places where the binary is looked for, in their order.
pub open spec fn candidates(home: Seq<char>) -> Seq<Seq<char>> {
    seq![
        path_in(home, ".cargo/bin/gremlin"@),
        "/usr/local/bin/gremlin"@,
        "/usr/bin/gremlin"@,
    ]
}

/// What the search comes to when the binary is in none of the usual places: `which` is
/// asked.
pub open spec fn which_step(found: Option<Outcome>) -> BinaryView {
    match found {
        None => BinaryView::Run(which_view("gremlin"@)),
        Some(outcome) => {
            let path = trimmed(lossy_text(outcome->Ok_0.stdout@));
            if succeeded(outcome) && path.len() > 0 {
                BinaryView::Done(Ok(path))
            } else {
                BinaryView::Done(Err(ErrorView::Tool(NO_BINARY@)))
            }
        },
    }
}

/// What the search comes to from place `i` on, given which of the first places have the
/// file.
pub open spec fn binary_step(
    home: Seq<char>,
    present: Seq<bool>,
    found: Option<Outcome>,
    i: int,
) -> BinaryView
    decreases 3 - i,
{
    if i < 0 || i >= 3 {
        which_step(found)
    } else if i >= present.len() {
        BinaryView::Look(candidates(home)[i])
    } else if present[i] {
        BinaryView::Done(Ok(candidates(home)[i]))
    } else {
        binary_step(home, present, found, i + 1)
    }
}

fn candidate(home: &str, i: usize) -> (r: String)
    requires
        i < 3,
    ensures
        r@ == candidates(home@)[i as int],
{
    if i == 0 {
        let mut r = home.to_owned();
        let total: usize = home.unicode_len();
        if total > 0 && home.get_char(total - 1) != '/' {
            r.append("/");
        }
        r.append(".cargo/bin/gremlin");
        r
    } else if i == 1 {
        "/usr/local/bin/gremlin".to_owned()
    } else {
        "/usr/bin/gremlin".to_owned()
    }
}

/// What the search for the binary comes to, given what was found out so far.
pub fn find_gremlin_binary(home: &str, present: &Vec<bool>, found: &Option<Outcome>) -> (r:
    BinaryStep)
    ensures
        r@ == binary_step(home@, present@, *found, 0),
{
    let mut i: usize = 0;
    while i < 3
        invariant
            i <= 3,
            binary_step(home@, present@, *found, 0) == binary_step(
                home@,
                present@,
                *found,
                i as int,
            ),
        decreases 3 - i,
    {
        if i >= present.len() {
            return BinaryStep::Look(candidate(home, i));
        }
        if present[i] {
            return BinaryStep::Done(Ok(candidate(home, i)));
        }
        i = i + 1;
    }
    match found {
        None => BinaryStep::Run(which("gremlin")),
        Some(outcome) => {
            if let Ok(output) = outcome {
                if output.success {
                    let path = trimmed_text_of(&output.stdout);
                    if !path.as_str().is_empty() {
                        return BinaryStep::Done(Ok(path));
                    }
                }
            }
            BinaryStep::Done(Err(GremlinError::says(NO_BINARY)))
        },
    }
}

/// The unit file: the template with the binary and the home directory put in.
pub open spec fn unit_view(template: Seq<char>, binary: Seq<char>, home: Seq<char>) -> Seq<char> {
    replaced(replaced(template, "%h/.cargo/bin/gremlin"@, binary), "%h"@, home)
}

/// The unit file: the template with the binary and the home directory put in.
pub fn unit_text(template: &str, binary: &str, home: &str) -> (r: String)
    ensures
        r@ == unit_view(template@, binary@, home@),
{
    proof {
        reveal_strlit("%h/.cargo/bin/gremlin");
        reveal_strlit("%h");
    }
    replace(replace(template, "%h/.cargo/bin/gremlin", binary).as_str(), "%h", home)
}

/// `systemctl` for the user's services.
pub open spec fn systemctl_view(args: Seq<Seq<char>>) -> InvocationView {
    InvocationView { program: "systemctl"@, args: seq!["--user"@] + args }
}

/// Makes systemd read its unit files again.
pub fn reload_command() -> (r: Invocation)
    ensures
        r@ == systemctl_view(seq!["daemon-reload"@]),
{
    let r = Invocation::new("systemctl").arg("--user").arg("daemon-reload");
    assert(r@.args =~= systemctl_view(seq!["daemon-reload"@]).args);
    r
}

/// Starts the service, now and at every login.
pub fn enable_command() -> (r: Invocation)
    ensures
        r@ == systemctl_view(seq!["enable"@, "--now"@, "gremlin.service"@]),
{
    let r = Invocation::new("systemctl").arg("--user").arg("enable").arg("--now").arg(
        "gremlin.service",
    );
    assert(r@.args =~= systemctl_view(seq!["enable"@, "--now"@, "gremlin.service"@]).args);
    r
}

/// Stops the service, now and for good.
pub fn disable_command() -> (r: Invocation)
    ensures
        r@ == systemctl_view(seq!["disable"@, "--now"@, "gremlin.service"@]),
{
    let r = Invocation::new("systemctl").arg("--user").arg("disable").arg("--now").arg(
        "gremlin.service",
    );
    assert(r@.args =~= systemctl_view(seq!["disable"@, "--now"@, "gremlin.service"@]).args);
    r
}

/// Asks how the service is.
pub fn status_command() -> (r: Invocation)
    ensures
        r@ == systemctl_view(seq!["status"@, "gremlin.service"@]),
{
    let r = Invocation::new("systemctl").arg("--user").arg("status").arg("gremlin.service");
    assert(r@.args =~= systemctl_view(seq!["status"@, "gremlin.service"@]).args);
    r
}

/// What the installation comes to, once the unit file is written.
#[derive(Debug)]
pub enum InstallStep {
    /// This has to be run. How it ends does not matter.
    Run(Invocation),
    /// The installation is over.
    Done(Result<(), GremlinError>),
}

/// What the installation comes to, given what came of starting the commands so far:
/// systemd reads the unit file, then the service is enabled.
pub fn install_step(started: &Vec<Result<(), String>>) -> (r: InstallStep)
    ensures
        started@.len() == 0 ==> (r matches InstallStep::Run(i) && i@ == systemctl_view(
            seq!["daemon-reload"@],
        )),
        started@.len() > 0 ==> match started@[0] {
            Err(e) => r matches InstallStep::Done(Err(err)) && err@ == ErrorView::Tool(
                "systemctl not available: "@ + e@,
            ),
            Ok(_) => if started@.len() == 1 {
                r matches InstallStep::Run(i) && i@ == systemctl_view(
                    seq!["enable"@, "--now"@, "gremlin.service"@],
                )
            } else {
                match started@[1] {
                    Err(e) => r matches InstallStep::Done(Err(err)) && err@ == ErrorView::Tool(
                        "Failed to enable service: "@ + e@,
                    ),
                    Ok(_) => r matches InstallStep::Done(Ok(_)),
                }
            },
        },
{
    if started.len() == 0 {
        return InstallStep::Run(reload_command());
    }
    if let Err(e) = &started[0] {
        return InstallStep::Done(Err(GremlinError::tool("systemctl not available: ", e.as_str())));
    }
    if started.len() == 1 {
        return InstallStep::Run(enable_command());
    }
    if let Err(e) = &started[1] {
        return InstallStep::Done(
            Err(GremlinError::tool("Failed to enable service: ", e.as_str())),
        );
    }
    InstallStep::Done(Ok(()))
}

/// What the removal of the service comes to.
#[derive(Debug)]
pub enum UninstallStep {
    /// This has to be run, and then looked whether the unit file is there. How the run
    /// ends does not matter.
    Disable(Invocation),
    /// The unit file has to be removed.
    Remove,
    /// This has to be run. How it ends does not matter.
    Reload(Invocation),
    /// The removal is over.
    Done(Result<(), GremlinError>),
}

/// The content of an `UninstallStep`.
pub enum UninstallView {
    Disable(InvocationView),
    Remove,
    Reload(InvocationView),
    Done(Result<(), ErrorView>),
}

impl View for UninstallStep {
    type V = UninstallView;

    open spec fn view(&self) -> UninstallView {
        match self {
            UninstallStep::Disable(i) => UninstallView::Disable(i@),
            UninstallStep::Remove => UninstallView::Remove,
            UninstallStep::Reload(i) => UninstallView::Reload(i@),
            UninstallStep::Done(Ok(())) => UninstallView::Done(Ok(())),
            UninstallStep::Done(Err(e)) => UninstallView::Done(Err(e@)),
        }
    }
}

/// What the removal comes to: the service is disabled, and where its unit file is there,
/// the file is removed and systemd reads its files again.
pub open spec fn uninstall_view(
    exists: Option<bool>,
    removed: Option<Result<(), String>>,
    reloaded: bool,
) -> UninstallView {
    match exists {
        None => UninstallView::Disable(
            systemctl_view(seq!["disable"@, "--now"@, "gremlin.service"@]),
        ),
        Some(false) => UninstallView::Done(Ok(())),
        Some(true) => match removed {
            None => UninstallView::Remove,
            Some(Err(e)) => UninstallView::Done(Err(ErrorView::Io(e@))),
            Some(Ok(_)) => if reloaded {
                UninstallView::Done(Ok(()))
            } else {
                UninstallView::Reload(systemctl_view(seq!["daemon-reload"@]))
            },
        },
    }
}

/// What the removal comes to, given whether the unit file is there, what came of removing
/// it, and whether systemd was told.
pub fn uninstall_step(
    exists: Option<bool>,
    removed: &Option<Result<(), String>>,
    reloaded: bool,
) -> (r: UninstallStep)
    ensures
        r@ == uninstall_view(exists, *removed, reloaded),
{
    match exists {
        None => UninstallStep::Disable(disable_command()),
        Some(false) => UninstallStep::Done(Ok(())),
        Some(true) => match removed {
            None => UninstallStep::Remove,
            Some(Err(e)) => UninstallStep::Done(Err(GremlinError::Io(e.clone()))),
            Some(Ok(_)) => if reloaded {
                UninstallStep::Done(Ok(()))
            } else {
                UninstallStep::Reload(reload_command())
            },
        },
    }
}

/// Only a unit file that cannot be removed makes the removal fail. Where the file is gone,
/// as after a removal, it succeeds.
pub proof fn law_only_a_stuck_file_fails(
    exists: Option<bool>,
    removed: Option<Result<(), String>>,
    reloaded: bool,
)
    ensures
        uninstall_view(exists, removed, reloaded) matches UninstallView::Done(Err(_)) ==> exists
            == Some(true) && removed matches Some(Err(_)),
        uninstall_view(Some(false), removed, reloaded) == UninstallView::Done(Ok(())),
{
}

/// What is shown of the state of the service: what goes to the output, and what to the
/// error output.
pub fn status_report(outcome: &Outcome) -> (r: (String, Option<String>))
    ensures
        match *outcome {
            Ok(output) => r.0@ == lossy_text(output.stdout@) && crate::json::text_view(r.1) == (
            if output.success {
                None
            } else {
                Some(lossy_text(output.stderr@))
            }),
            Err(e) => r.0@ == "systemctl not available: "@ + e@
                + "\nCheck daemon manually: gremlin.sock should be at $XDG_RUNTIME_DIR/gremlin.sock"@
                && r.1 is None,
        },
{
    match outcome {
        Ok(output) => {
            let text = text_of(&output.stdout);
            if output.success {
                (text, None)
            } else {
                (text, Some(text_of(&output.stderr)))
            }
        },
        Err(e) => {
            let mut words = "systemctl not available: ".to_owned();
            words.append(e.as_str());
            words.append(
                "\nCheck daemon manually: gremlin.sock should be at $XDG_RUNTIME_DIR/gremlin.sock",
            );
            (words, None)
        },
    }
}

/// The first of the usual places that has the binary is taken, and `which` is not asked.
pub proof fn law_first_place_wins(
    home: Seq<char>,
    present: Seq<bool>,
    found: Option<Outcome>,
    i: int,
)
    requires
        0 <= i < 3,
        i < present.len(),
        present[i],
        forall|j: int| 0 <= j < i ==> !(#[trigger] present[j]),
    ensures
        binary_step(home, present, found, 0) == BinaryView::Done(Ok(candidates(home)[i])),
{
    reveal_with_fuel(binary_step, 4);
}

} // verus!
