//! The dialogs of the sprite viewer: which program shows them, and what is asked and said
//! in them.
use vstd::prelude::*;
use vstd::utf8::{decode_utf8, valid_utf8};

use crate::effect::Fed;
use crate::json::text_view;
use crate::process::{
    command_exists, strict_text_of, succeeded, which, which_view, Invocation, InvocationView,
    Outcome,
};
use crate::text::{trim, trimmed};

verus! {

/// A program that shows dialogs.
#[derive(Debug, Clone, Copy, PartialEq, Eq, Structural)]
pub enum DialogBackend {
    Zenity,
    Rofi,
    Wofi,
}

/// What the search for a program comes to.
#[derive(Debug)]
pub enum Detection {
    /// This has to be run first.
    Run(Invocation),
    /// It is over, with what was found.
    Done(Option<DialogBackend>),
}

/// The content of a `Detection`.
pub enum DetectionView {
    Run(InvocationView),
    Done(Option<DialogBackend>),
}

impl View for Detection {
    type V = DetectionView;

    open spec fn view(&self) -> DetectionView {
        match self {
            Detection::Run(invocation) => DetectionView::Run(invocation@),
            Detection::Done(found) => DetectionView::Done(*found),
        }
    }
}

/// The programs, in the order in which they are looked for.
pub open spec fn backends() -> Seq<DialogBackend> {
    seq![DialogBackend::Zenity, DialogBackend::Rofi, DialogBackend::Wofi]
}

/// What the search comes to from program `i` on, given what came of looking for each: the
/// first that is there.
pub open spec fn detection(outcomes: Seq<Outcome>, i: int) -> DetectionView
    decreases 3 - i,
{
    if i < 0 || i >= 3 {
        DetectionView::Done(None)
    } else if i >= outcomes.len() {
        DetectionView::Run(which_view(backends()[i].command()))
    } else if succeeded(outcomes[i]) {
        DetectionView::Done(Some(backends()[i]))
    } else {
        detection(outcomes, i + 1)
    }
}

impl DialogBackend {
    /// The name of the program.
    pub open spec fn command(self) -> Seq<char> {
        match self {
            DialogBackend::Zenity => "zenity"@,
            DialogBackend::Rofi => "rofi"@,
            DialogBackend::Wofi => "wofi"@,
        }
    }

    /// How the program asks for a line.
    pub open spec fn entry_view(self, title: Seq<char>, prompt: Seq<char>) -> InvocationView {
        InvocationView {
            program: self.command(),
            args: match self {
                DialogBackend::Zenity => seq![
                    "--entry"@,
                    "--title"@,
                    title,
                    "--text"@,
                    prompt,
                    "--width=400"@,
                ],
                DialogBackend::Rofi => seq![
                    "-dmenu"@,
                    "-p"@,
                    prompt,
                    "-theme-str"@,
                    "window {width: 400;}"@,
                ],
                DialogBackend::Wofi => seq!["--dmenu"@, "-p"@, prompt, "--width"@, "400"@],
            },
        }
    }

    /// How the program shows a text.
    pub open spec fn info_view(self, title: Seq<char>, text: Seq<char>) -> InvocationView {
        InvocationView {
            program: self.command(),
            args: match self {
                DialogBackend::Zenity => seq![
                    "--info"@,
                    "--title"@,
                    title,
                    "--text"@,
                    text,
                    "--width=500"@,
                ],
                DialogBackend::Rofi => seq![
                    "-e"@,
                    "-no-fixed-num-lines"@,
                    "-theme-str"@,
                    "window {width: 500;}"@,
                ],
                DialogBackend::Wofi => seq!["--show"@, "dmenu"@, "-p"@, title],
            },
        }
    }

    /// What the search for a program comes to, given what came of looking for the first
    /// ones.
    pub fn detect(outcomes: &Vec<Outcome>) -> (r: Detection)
        ensures
            r@ == detection(outcomes@, 0),
    {
        proof {
            reveal_with_fuel(detection, 4);
        }
        if outcomes.len() == 0 {
            return Detection::Run(which(DialogBackend::Zenity.cmd()));
        }
        if command_exists(&outcomes[0]) {
            return Detection::Done(Some(DialogBackend::Zenity));
        }
        if outcomes.len() == 1 {
            return Detection::Run(which(DialogBackend::Rofi.cmd()));
        }
        if command_exists(&outcomes[1]) {
            return Detection::Done(Some(DialogBackend::Rofi));
        }
        if outcomes.len() == 2 {
            return Detection::Run(which(DialogBackend::Wofi.cmd()));
        }
        if command_exists(&outcomes[2]) {
            return Detection::Done(Some(DialogBackend::Wofi));
        }
        Detection::Done(None)
    }

    /// The name of the program.
    pub fn cmd(self) -> (r: &'static str)
        ensures
            r@ == self.command(),
    {
        match self {
            DialogBackend::Zenity => "zenity",
            DialogBackend::Rofi => "rofi",
            DialogBackend::Wofi => "wofi",
        }
    }

    /// How the program asks for a line.
    pub fn entry_command(self, title: &str, prompt: &str) -> (r: Invocation)
        ensures
            r@ == self.entry_view(title@, prompt@),
    {
        let base = Invocation::new(self.cmd());
        let r = match self {
            DialogBackend::Zenity => base.arg("--entry").arg("--title").arg(title).arg("--text").arg(
                prompt,
            ).arg("--width=400"),
            DialogBackend::Rofi => base.arg("-dmenu").arg("-p").arg(prompt).arg("-theme-str").arg(
                "window {width: 400;}",
            ),
            DialogBackend::Wofi => base.arg("--dmenu").arg("-p").arg(prompt).arg("--width").arg(
                "400",
            ),
        };
        assert(r@.args =~= self.entry_view(title@, prompt@).args);
        r
    }

    /// How the program shows a text.
    pub fn info_command(self, title: &str, text: &str) -> (r: Invocation)
        ensures
            r@ == self.info_view(title@, text@),
    {
        let base = Invocation::new(self.cmd());
        let r = match self {
            DialogBackend::Zenity => base.arg("--info").arg("--title").arg(title).arg("--text").arg(
                text,
            ).arg("--width=500"),
            DialogBackend::Rofi => base.arg("-e").arg("-no-fixed-num-lines").arg("-theme-str").arg(
                "window {width: 500;}",
            ),
            DialogBackend::Wofi => base.arg("--show").arg("dmenu").arg("-p").arg(title),
        };
        assert(r@.args =~= self.info_view(title@, text@).args);
        r
    }
}

/// What was entered: the line without the white space around it, where the dialog was
/// confirmed and the line is text.
pub open spec fn entered(outcome: Outcome) -> Option<Seq<char>> {
    match outcome {
        Ok(output) => if output.success && valid_utf8(output.stdout@) {
            Some(trimmed(decode_utf8(output.stdout@)))
        } else {
            None
        },
        Err(_) => None,
    }
}

/// What was entered, given what came of the dialog.
pub fn entry(outcome: &Outcome) -> (r: Option<String>)
    ensures
        text_view(r) == entered(*outcome),
{
    match outcome {
        Ok(output) => {
            if !output.success {
                return None;
            }
            match strict_text_of(&output.stdout) {
                Some(text) => Some(trim(text.as_str())),
                None => None,
            }
        },
        Err(_) => None,
    }
}

/// Whether the text was shown, given what came of the dialog.
pub fn info(fed: &Fed) -> (r: bool)
    ensures
        r == (*fed == Fed::Ended(true)),
{
    match fed {
        Fed::Ended(success) => *success,
        _ => false,
    }
}

/// The question that was entered, where it is not empty.
pub open spec fn question_in(entry: Option<Seq<char>>) -> Option<Seq<char>> {
    match entry {
        Some(text) => if trimmed(text).len() > 0 {
            Some(trimmed(text))
        } else {
            None
        },
        None => None,
    }
}

/// The question that was entered, where it is not empty.
pub fn question(entry: &Option<String>) -> (r: Option<String>)
    ensures
        text_view(r) == question_in(text_view(*entry)),
{
    match entry {
        Some(text) => {
            let q = trim(text.as_str());
            if q.as_str().is_empty() {
                None
            } else {
                Some(q)
            }
        },
        None => None,
    }
}

/// What is shown of an answer.
pub fn shown_answer(response: Option<String>) -> (r: String)
    ensures
        r@ == (match response {
            Some(text) => text@,
            None => "No response from daemon."@,
        }),
{
    match response {
        Some(text) => text,
        None => "No response from daemon.".to_owned(),
    }
}

/// What a click comes to.
#[derive(Debug, Clone, Copy, PartialEq, Eq, Structural)]
pub enum Click {
    /// A dialog is open already.
    Ignored,
    /// No program shows dialogs.
    NoBackend,
    /// A dialog is opened.
    Open(DialogBackend),
}

/// What a click comes to. It leaves `active` set exactly where a dialog is open.
pub fn handle_click(active: &mut bool, backend: Option<DialogBackend>) -> (r: Click)
    ensures
        r == (if *old(active) {
            Click::Ignored
        } else {
            match backend {
                Some(b) => Click::Open(b),
                None => Click::NoBackend,
            }
        }),
        *final(active) == (*old(active) || backend is Some),
{
    if *active {
        return Click::Ignored;
    }
    match backend {
        Some(b) => {
            *active = true;
            Click::Open(b)
        },
        None => Click::NoBackend,
    }
}

/// The search ends with the first program that is there: those before it are not.
pub proof fn law_first_backend_wins(outcomes: Seq<Outcome>, i: int)
    requires
        0 <= i < 3,
        i < outcomes.len(),
        succeeded(outcomes[i]),
        forall|j: int| 0 <= j < i ==> !succeeded(#[trigger] outcomes[j]),
    ensures
        detection(outcomes, 0) == DetectionView::Done(Some(backends()[i])),
{
    reveal_with_fuel(detection, 4);
}

/// A question that is sent is not empty, and no white space stands around it.
pub proof fn law_questions_are_trimmed(entry: Option<Seq<char>>)
    ensures
        question_in(entry) matches Some(q) ==> q.len() > 0 && trimmed(q) == q,
{
    if let Some(text) = entry {
        crate::text::law_trim_is_idempotent(text);
    }
}

} // verus!
