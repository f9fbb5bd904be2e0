//! Programs that are run, and what they leave behind.
use vstd::prelude::*;
use vstd::utf8::{decode_utf8, valid_utf8};

use crate::text::{texts, trim, trimmed};

verus! {

/// A program and the arguments it is run with.
#[derive(Debug)]
pub struct Invocation {
    pub program: String,
    pub args: Vec<String>,
}

/// The content of an `Invocation`.
pub struct InvocationView {
    pub program: Seq<char>,
    pub args: Seq<Seq<char>>,
}

/// What a program left when it ended.
#[derive(Debug)]
pub struct Output {
    /// It ended with exit status zero.
    pub success: bool,
    pub stdout: Vec<u8>,
    pub stderr: Vec<u8>,
}

/// What came of running a program: what it left, or why it could not be run.
pub type Outcome = Result<Output, String>;

impl View for Invocation {
    type V = InvocationView;

    open spec fn view(&self) -> InvocationView {
        InvocationView { program: self.program@, args: texts(self.args@) }
    }
}

impl Invocation {
    /// A program run without arguments.
    pub fn new(program: &str) -> (r: Invocation)
        ensures
            r@.program == program@,
            r@.args == Seq::<Seq<char>>::empty(),
    {
        let r = Invocation { program: program.to_owned(), args: Vec::new() };
        assert(r@.args =~= Seq::<Seq<char>>::empty());
        r
    }

    /// The same with one more argument.
    pub fn arg(self, a: &str) -> (r: Invocation)
        ensures
            r@.program == self@.program,
            r@.args == self@.args.push(a@),
    {
        let Invocation { program, mut args } = self;
        let ghost before = args@;
        args.push(a.to_owned());
        let r = Invocation { program, args };
        assert(texts(args@) =~= texts(before).push(a@));
        r
    }
}

/// The text that `String::from_utf8_lossy` makes of bytes.
pub uninterp spec fn lossy_text(bytes: Seq<u8>) -> Seq<char>;

/// `String::from_utf8_lossy`. Claims that what comes back is what `lossy_text`
/// names, and that bytes that are valid UTF-8 give the text they encode.
#[verifier::external_body]
fn from_utf8_lossy(bytes: &[u8]) -> (r: String)
    ensures
        r@ == lossy_text(bytes@),
        valid_utf8(bytes@) ==> r@ == decode_utf8(bytes@),
{
    String::from_utf8_lossy(bytes).into_owned()
}

/// `String::from_utf8`. Claims that it succeeds on bytes that are valid UTF-8 and on no
/// others, and then gives the text that they encode.
#[verifier::external_body]
fn from_utf8(bytes: Vec<u8>) -> (r: Option<String>)
    ensures
        r is Some == valid_utf8(bytes@),
        r matches Some(s) ==> s@ == decode_utf8(bytes@),
{
    String::from_utf8(bytes).ok()
}

/// What a program wrote, where it is text.
pub fn strict_text_of(bytes: &Vec<u8>) -> (r: Option<String>)
    ensures
        r is Some == valid_utf8(bytes@),
        r matches Some(s) ==> s@ == decode_utf8(bytes@),
{
    from_utf8(bytes.clone())
}

/// What a program wrote, as text.
pub fn text_of(bytes: &Vec<u8>) -> (r: String)
    ensures
        r@ == lossy_text(bytes@),
        valid_utf8(bytes@) ==> r@ == decode_utf8(bytes@),
{
    from_utf8_lossy(bytes.as_slice())
}

/// What a program wrote, as text without the white space around it.
pub fn trimmed_text_of(bytes: &Vec<u8>) -> (r: String)
    ensures
        r@ == trimmed(lossy_text(bytes@)),
{
    trim(text_of(bytes).as_str())
}

/// The program could be run and ended with exit status zero.
pub open spec fn succeeded(outcome: Outcome) -> bool {
    outcome matches Ok(output) && output.success
}

/// The invocation of `which` by which a program is looked for.
pub open spec fn which_view(name: Seq<char>) -> InvocationView {
    InvocationView { program: "which"@, args: seq![name] }
}

/// The invocation of `which` by which a program is looked for.
pub fn which(name: &str) -> (r: Invocation)
    ensures
        r@ == which_view(name@),
{
    let r = Invocation::new("which").arg(name);
    assert(r@.args =~= seq![name@]);
    r
}

/// Whether the search with `which` found the program.
pub fn command_exists(outcome: &Outcome) -> (r: bool)
    ensures
        r == succeeded(*outcome),
{
    match outcome {
        Ok(output) => output.success,
        Err(_) => false,
    }
}

} // verus!
