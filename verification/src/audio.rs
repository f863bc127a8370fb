//! The command that changes the volume of the default sink, and what its
//! outcome means.
//!
//! Nothing here starts a process. [`AudioControls::change_volume_percent`]
//! is handed the means to run one command and says what became of it.

use crate::diff::{percent_text, DiffValue};
use vstd::prelude::*;

verus! {

/// A program to run and the arguments to run it with.
#[derive(Debug)]
pub struct Invocation {
    pub program: String,
    pub arguments: Vec<String>,
}

/// What an [`Invocation`] holds, as text.
pub struct InvocationView {
    pub program: Seq<char>,
    pub arguments: Seq<Seq<char>>,
}

impl View for Invocation {
    type V = InvocationView;

    open spec fn view(&self) -> InvocationView {
        InvocationView {
            program: self.program@,
            arguments: Seq::new(self.arguments@.len(), |i: int| self.arguments@[i]@),
        }
    }
}

/// How an attempt to run a command ended.
#[derive(Debug, Clone)]
pub enum ProcessOutcome {
    /// The program could not be started, for the cause that the text gives.
    NotStarted(String),
    /// The program ran and ended with this exit code, or without one where
    /// a signal ended it.
    Exited(Option<i32>),
}

/// Why the volume was not changed.
#[derive(Debug, Clone, PartialEq, Eq)]
pub enum VolumeError {
    /// The mixer program could not be started, for the cause that the text
    /// gives.
    Command(String),
    /// The mixer program ran and reported failure.
    Status,
}

/// The mixer call that changes the default sink's volume by `diff` percent.
pub open spec fn mixer_invocation(diff: int) -> InvocationView {
    InvocationView {
        program: "pactl"@,
        arguments: seq!["set-sink-volume"@, "@DEFAULT_SINK@"@, percent_text(diff)],
    }
}

/// Success for exit code zero, and the matching error for everything else.
/// The error of a program that could not be started keeps the cause.
pub open spec fn outcome_result(outcome: ProcessOutcome) -> Result<(), VolumeError> {
    match outcome {
        ProcessOutcome::NotStarted(cause) => Err(VolumeError::Command(cause)),
        ProcessOutcome::Exited(code) => if code == Some(0i32) {
            Ok(())
        } else {
            Err(VolumeError::Status)
        },
    }
}

impl ProcessOutcome {
    /// Reads the outcome as success or failure: only a process that ended
    /// with exit code zero has succeeded. The cause of a failed start goes
    /// into the error.
    pub fn into_result(self) -> (result: Result<(), VolumeError>)
        ensures
            result == outcome_result(self),
    {
        match self {
            ProcessOutcome::NotStarted(cause) => Err(VolumeError::Command(cause)),
            ProcessOutcome::Exited(Some(0)) => Ok(()),
            ProcessOutcome::Exited(_) => Err(VolumeError::Status),
        }
    }
}

impl VolumeError {
    /// A short description of the failure.
    pub fn message(&self) -> (text: &'static str)
        ensures
            text@ == match *self {
                VolumeError::Command(_) => "running the command"@,
                VolumeError::Status => "command failed"@,
            },
    {
        match self {
            VolumeError::Command(_) => "running the command",
            VolumeError::Status => "command failed",
        }
    }

    /// What kept the mixer program from starting, where that is the
    /// failure.
    pub fn cause(&self) -> (cause: Option<&String>)
        ensures
            match *self {
                VolumeError::Command(text) => cause == Some(&text),
                VolumeError::Status => cause is None,
            },
    {
        match self {
            VolumeError::Command(text) => Some(text),
            VolumeError::Status => None,
        }
    }
}

/// Volume control of the default audio sink through the `pactl` mixer tool.
pub struct AudioControls;

impl AudioControls {
    /// The mixer call for a volume change of `diff` percent.
    pub fn invocation(diff: DiffValue) -> (invocation: Invocation)
        ensures
            invocation@ == mixer_invocation(diff@),
    {
        let mut arguments: Vec<String> = Vec::new();
        arguments.push("set-sink-volume".to_owned());
        arguments.push("@DEFAULT_SINK@".to_owned());
        arguments.push(diff.to_string());
        let invocation = Invocation { program: "pactl".to_owned(), arguments };
        assert(invocation@.arguments =~= mixer_invocation(diff@).arguments);
        invocation
    }

    /// Changes the volume of the default sink by `diff` percent.
    ///
    /// `run` is called once, with the mixer call for `diff`, and what it
    /// reports decides the result: success where the mixer ended with exit
    /// code zero, [`VolumeError::Command`] with the cause where it could not
    /// be started, [`VolumeError::Status`] otherwise.
    pub fn change_volume_percent<R>(diff: DiffValue, run: R) -> (result: Result<(), VolumeError>)
        where R: FnOnce(Invocation) -> ProcessOutcome
        requires
            forall|invocation: Invocation|
                invocation@ == mixer_invocation(diff@) ==> call_requires(run, (invocation,)),
        ensures
            exists|invocation: Invocation, outcome: ProcessOutcome|
                invocation@ == mixer_invocation(diff@)
                && call_ensures(run, (invocation,), outcome)
                && result == outcome_result(outcome),
    {
        let outcome = run(Self::invocation(diff));
        outcome.into_result()
    }
}

} // verus!
