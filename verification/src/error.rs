//! Why a workflow stops.

use crate::command::{Output, OutputModel};
use crate::namespace::TypeSet;
use crate::text::{decimal, signed_decimal, to_decimal, to_signed_decimal};
use vstd::prelude::*;

verus! {

/// The state of the namespace set that bring-up cannot go on from.
#[derive(Debug, Clone, Copy, PartialEq, Eq, Structural)]
pub enum Desync {
    /// All four namespaces are mounted, but no init process lives in them.
    InitMissing,
    /// Only the named kinds are mounted.
    Partial(TypeSet),
    /// The init process of freshly made namespaces was gone when looked at.
    InitDied,
}

/// The way in which an answer had an unexpected shape.
#[derive(Debug, Clone, Copy, PartialEq, Eq, Structural)]
pub enum Shape {
    /// The route listing is not UTF-8.
    NotUtf8,
    /// The route listing does not begin with the field `default`.
    NoDefault,
    /// The route listing has no field `dev` with a field after it.
    NoDevice,
    /// The namespace helper has this many tasks, not one.
    Tasks(usize),
    /// The task of the namespace helper has this many children, not one.
    Children(usize),
    /// The answer was of another kind than the action that was handed out.
    Mismatch,
}

/// Why a workflow stopped.
#[derive(Debug, Clone)]
pub enum Error {
    /// The platform names no data directory for the tool.
    Configuration,
    /// The caller is not root.
    Privilege,
    /// The mounted namespaces and what anchors them disagree; tear-down has
    /// to run first.
    Desync(Desync),
    /// An external command ended unsuccessfully. What it left behind is
    /// carried unchanged.
    ExecutionFailed { program: String, output: Output },
    /// An answer had an unexpected shape.
    Parse(Shape),
    /// The init process of the new namespaces did not appear in time.
    Timeout,
    /// The file system, the mount table or the process table refused; the
    /// text is the reason as the system gave it.
    Io(String),
}

/// The mathematical content of an `Error`.
#[verifier::ext_equal]
pub enum ErrorModel {
    Configuration,
    Privilege,
    Desync(Desync),
    ExecutionFailed { program: Seq<char>, output: OutputModel },
    Parse(Shape),
    Timeout,
    Io(Seq<char>),
}

impl View for Error {
    type V = ErrorModel;

    open spec fn view(&self) -> ErrorModel {
        match self {
            Error::Configuration => ErrorModel::Configuration,
            Error::Privilege => ErrorModel::Privilege,
            Error::Desync(d) => ErrorModel::Desync(*d),
            Error::ExecutionFailed { program, output } => ErrorModel::ExecutionFailed {
                program: program@,
                output: output@,
            },
            Error::Parse(s) => ErrorModel::Parse(*s),
            Error::Timeout => ErrorModel::Timeout,
            Error::Io(reason) => ErrorModel::Io(reason@),
        }
    }
}

/// How a command ended, in words.
pub open spec fn exit_text(code: Option<i32>) -> Seq<char> {
    match code {
        Some(c) => "exit status: "@ + signed_decimal(c as int),
        None => "a signal"@,
    }
}

impl ErrorModel {
    /// The error in one readable line.
    pub open spec fn message(self) -> Seq<char> {
        match self {
            ErrorModel::Configuration => "Failed to get the path of our data directory"@,
            ErrorModel::Privilege => "We are not running as root!"@,
            ErrorModel::Desync(Desync::InitMissing) =>
                "Namespaces already mounted, but init process is dead. Try calling the down command first"@,
            ErrorModel::Desync(Desync::Partial(_)) =>
                "Namespaces partially mounted! Try calling the down command first"@,
            ErrorModel::Desync(Desync::InitDied) => "namespace init process died!"@,
            ErrorModel::ExecutionFailed { program, output } => "Failed to run command "@ + program
                + ", returned "@ + exit_text(output.code),
            ErrorModel::Parse(Shape::Tasks(n)) => "Unshare process has "@ + decimal(n as nat)
                + " tasks, expected 1!"@,
            ErrorModel::Parse(Shape::Children(n)) => "Unshare process has "@ + decimal(n as nat)
                + " children, expected 1!"@,
            ErrorModel::Parse(Shape::Mismatch) => "Unexpected answer to a step"@,
            ErrorModel::Parse(_) => "Unexpected output from ip route show default"@,
            ErrorModel::Timeout => "Timed out waiting for namespace creation"@,
            ErrorModel::Io(reason) => reason,
        }
    }
}

fn exit_words(code: Option<i32>) -> (r: String)
    ensures
        r@ == exit_text(code),
{
    match code {
        Some(c) => {
            let mut r = String::from_str("exit status: ");
            let digits = to_signed_decimal(c);
            r.append(digits.as_str());
            r
        },
        None => String::from_str("a signal"),
    }
}

fn counted(before: &str, n: usize, after: &str) -> (r: String)
    ensures
        r@ == before@ + decimal(n as nat) + after@,
{
    let mut r = String::from_str(before);
    let digits = to_decimal(n as u64);
    r.append(digits.as_str());
    r.append(after);
    r
}

impl Error {
    /// The error in one readable line. What a failed command printed is not
    /// part of the line; it is carried in the error.
    pub fn message(&self) -> (r: String)
        ensures
            r@ == self@.message(),
    {
        match self {
            Error::Configuration => String::from_str(
                "Failed to get the path of our data directory",
            ),
            Error::Privilege => String::from_str("We are not running as root!"),
            Error::Desync(Desync::InitMissing) => String::from_str(
                "Namespaces already mounted, but init process is dead. Try calling the down command first",
            ),
            Error::Desync(Desync::Partial(_)) => String::from_str(
                "Namespaces partially mounted! Try calling the down command first",
            ),
            Error::Desync(Desync::InitDied) => String::from_str("namespace init process died!"),
            Error::ExecutionFailed { program, output } => {
                let mut r = String::from_str("Failed to run command ");
                r.append(program.as_str());
                r.append(", returned ");
                let exit = exit_words(output.code);
                r.append(exit.as_str());
                r
            },
            Error::Parse(Shape::Tasks(n)) => counted(
                "Unshare process has ",
                *n,
                " tasks, expected 1!",
            ),
            Error::Parse(Shape::Children(n)) => counted(
                "Unshare process has ",
                *n,
                " children, expected 1!",
            ),
            Error::Parse(Shape::Mismatch) => String::from_str("Unexpected answer to a step"),
            Error::Parse(_) => String::from_str("Unexpected output from ip route show default"),
            Error::Timeout => String::from_str("Timed out waiting for namespace creation"),
            Error::Io(reason) => reason.clone(),
        }
    }
}

/// The judgement of a finished command: its output where it succeeded, else
/// the failure that carries that output.
pub open spec fn judged(program: Seq<char>, output: OutputModel) -> Result<
    OutputModel,
    ErrorModel,
> {
    if output.success() {
        Ok(output)
    } else {
        Err(ErrorModel::ExecutionFailed { program, output })
    }
}

/// The views of both sides of a result.
pub open spec fn result_view(r: Result<Output, Error>) -> Result<OutputModel, ErrorModel> {
    match r {
        Ok(o) => Ok(o@),
        Err(e) => Err(e@),
    }
}

/// Judges a finished command: `Ok` with the output exactly when the exit
/// code is zero, else `Error::ExecutionFailed` with the program's name and
/// the output, unchanged.
pub fn judge(program: &str, output: Output) -> (r: Result<Output, Error>)
    ensures
        result_view(r) == judged(program@, output@),
{
    if output.success() {
        Ok(output)
    } else {
        Err(Error::ExecutionFailed { program: String::from_str(program), output })
    }
}

} // verus!
