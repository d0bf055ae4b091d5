//! External processes as values: what to run, and how a run ended.
//!
//! Nothing here starts a process. An [`Invocation`] says which program to run,
//! with which arguments and where; the caller runs it, waits for it to exit and
//! reports the [`Outcome`].

use crate::text::{optional_text, texts};
use vstd::prelude::*;
use vstd::utf8::{decode_utf8, valid_utf8};

verus! {

/// One external process to run: the program, its arguments in order, and the
/// directory to run it in (`None`: the directory of the service itself).
#[derive(Clone, Debug, PartialEq, Eq)]
pub struct Invocation {
    pub program: String,
    pub args: Vec<String>,
    pub dir: Option<String>,
}

/// The mathematical content of an [`Invocation`].
pub struct InvocationView {
    pub program: Seq<char>,
    pub args: Seq<Seq<char>>,
    pub dir: Option<Seq<char>>,
}

impl View for Invocation {
    type V = InvocationView;

    open spec fn view(&self) -> InvocationView {
        InvocationView {
            program: self.program@,
            args: texts(self.args@),
            dir: optional_text(self.dir),
        }
    }
}

/// The contents of a list of invocations, one for one.
pub open spec fn invocation_views(list: Seq<Invocation>) -> Seq<InvocationView> {
    list.map_values(|i: Invocation| i@)
}

/// What the operating system hands back of a process that ran to its end:
/// the bytes that it wrote to its standard output, and whether it exited with
/// status zero.
#[derive(Clone, Debug, PartialEq, Eq)]
pub struct ProcessOutput {
    pub stdout: Vec<u8>,
    pub success: bool,
}

/// What a process that ran to its end left behind: its captured standard
/// output as text, and whether it exited with status zero.
#[derive(Clone, Debug, PartialEq, Eq)]
pub struct CommandResult {
    pub stdout: String,
    pub success: bool,
}

/// The mathematical content of a [`CommandResult`].
pub struct CommandResultView {
    pub stdout: Seq<char>,
    pub success: bool,
}

impl View for CommandResult {
    type V = CommandResultView;

    open spec fn view(&self) -> CommandResultView {
        CommandResultView { stdout: self.stdout@, success: self.success }
    }
}

/// The content of an optional result.
pub open spec fn optional_result(result: Option<CommandResult>) -> Option<CommandResultView> {
    match result {
        Some(r) => Some(r@),
        None => None,
    }
}

/// The text that `String::from_utf8_lossy` of the standard library makes of
/// bytes: each part that is no valid UTF-8 gives way to the replacement
/// character, and the rest is decoded.
pub uninterp spec fn lossy_text(bytes: Seq<u8>) -> Seq<char>;

/// The text that bytes are read as. Valid UTF-8 is read as the text that it
/// encodes. Other bytes are read as far as they can be, see [`lossy_text`]:
/// nothing that a process wrote is thrown away for a part that is garbled.
pub open spec fn text_of(bytes: Seq<u8>) -> Seq<char> {
    if valid_utf8(bytes) {
        decode_utf8(bytes)
    } else {
        lossy_text(bytes)
    }
}

/// The result that a process output stands for: its bytes read as text, with
/// the same exit flag.
pub open spec fn captured(output: ProcessOutput) -> CommandResultView {
    CommandResultView { stdout: text_of(output.stdout@), success: output.success }
}

/// `String::from_utf8_lossy` of the standard library, its result made a
/// `String` of its own. The contract names the result, and says, as the
/// standard library documents it, that valid UTF-8 comes out as the text that
/// it encodes. Nothing of this is proved here.
#[verifier::external_body]
fn text_from_utf8_lossy(bytes: &Vec<u8>) -> (text: String)
    ensures
        text@ == lossy_text(bytes@),
        valid_utf8(bytes@) ==> text@ == decode_utf8(bytes@),
{
    String::from_utf8_lossy(bytes).into_owned()
}

impl CommandResult {
    /// Reads the output of a process as text. Every output has a result.
    pub fn capture(output: ProcessOutput) -> (result: CommandResult)
        ensures
            result@ == captured(output),
    {
        let stdout = text_from_utf8_lossy(&output.stdout);
        CommandResult { stdout, success: output.success }
    }
}

/// How one invocation ended.
#[derive(Clone, Debug, PartialEq, Eq)]
pub enum Outcome {
    /// The process exited with status zero; its standard output.
    Success(String),
    /// The process exited with another status; the output it wrote until then.
    Failure(String),
    /// The process could not be started at all.
    SpawnError,
}

/// The mathematical content of an [`Outcome`].
pub enum OutcomeView {
    Success(Seq<char>),
    Failure(Seq<char>),
    SpawnError,
}

impl View for Outcome {
    type V = OutcomeView;

    open spec fn view(&self) -> OutcomeView {
        match self {
            Outcome::Success(out) => OutcomeView::Success(out@),
            Outcome::Failure(out) => OutcomeView::Failure(out@),
            Outcome::SpawnError => OutcomeView::SpawnError,
        }
    }
}

/// The outcome that a result stands for, `None` being the result of a
/// process that could not be started. Output is kept whatever the exit status.
pub open spec fn outcome_of(result: Option<CommandResultView>) -> OutcomeView {
    match result {
        None => OutcomeView::SpawnError,
        Some(r) => if r.success {
            OutcomeView::Success(r.stdout)
        } else {
            OutcomeView::Failure(r.stdout)
        },
    }
}

/// The outcome that the raw output of a process stands for, `None` being the
/// output of a process that could not be started. A process that ran always
/// has an outcome with text, by its exit status, whatever it wrote.
pub open spec fn outcome_of_process(output: Option<ProcessOutput>) -> OutcomeView {
    match output {
        None => OutcomeView::SpawnError,
        Some(output) => outcome_of(Some(captured(output))),
    }
}

impl Outcome {
    /// Tags what the runner got: `None` where the process could not be
    /// started, else its result.
    pub fn classify(result: Option<CommandResult>) -> (outcome: Outcome)
        ensures
            outcome@ == outcome_of(optional_result(result)),
    {
        match result {
            None => Outcome::SpawnError,
            Some(r) => if r.success {
                Outcome::Success(r.stdout)
            } else {
                Outcome::Failure(r.stdout)
            },
        }
    }

    /// Tags what the operating system handed back: `None` where the process
    /// could not be started, else what it wrote and how it exited.
    pub fn of_process(output: Option<ProcessOutput>) -> (outcome: Outcome)
        ensures
            outcome@ == outcome_of_process(output),
            output is Some ==> !(outcome@ is SpawnError),
            output matches Some(o) ==> (outcome@ is Success <==> o.success),
    {
        match output {
            None => Outcome::SpawnError,
            Some(output) => Outcome::classify(Some(CommandResult::capture(output))),
        }
    }
}

} // verus!
