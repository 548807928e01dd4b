//! Commands for outside programs, and what running one reports. The
//! library composes the commands; the caller runs them and reports back.

use vstd::prelude::*;

verus! {

/// How a process ended: with its exit code, or by the signal that ended
/// it.
#[derive(Debug, Clone, Copy, PartialEq, Eq, Structural)]
pub struct ExitStatus {
    /// The exit code; none where a signal ended the process.
    pub code: Option<i32>,
    /// The number of the signal that ended the process, if one did.
    pub signal: Option<i32>,
}

impl ExitStatus {
    /// The process ended with exit code zero.
    pub open spec fn succeeded(&self) -> bool {
        self.code == Some(0i32)
    }

    /// Whether the process ended with exit code zero.
    pub fn success(&self) -> (r: bool)
        ensures
            r == self.succeeded(),
    {
        match self.code {
            Some(code) => code == 0,
            None => false,
        }
    }
}

/// What running a command reports.
#[derive(Debug, Clone)]
pub enum Outcome {
    /// The program ran and ended.
    Exited(ExitStatus),
    /// The program could not be run, or not be waited for; the text says why.
    Failed(String),
}

/// A command: the program, its arguments in order, and what it is fed on
/// standard input, if anything.
#[derive(Debug, Clone)]
pub struct Invocation {
    pub program: String,
    pub arguments: Vec<String>,
    pub stdin: Option<String>,
}

/// A command in the terms of contracts.
pub struct InvocationView {
    pub program: Seq<char>,
    pub arguments: Seq<Seq<char>>,
    pub stdin: Option<Seq<char>>,
}

impl View for Invocation {
    type V = InvocationView;

    open spec fn view(&self) -> InvocationView {
        InvocationView {
            program: self.program@,
            arguments: crate::text::views(self.arguments@),
            stdin: crate::text::optional(self.stdin),
        }
    }
}

impl ExitStatus {
    /// How the end of the process is described: by its exit code, or by
    /// the number of the signal that ended it, as far as that is known.
    pub open spec fn description(&self) -> Seq<char> {
        match self.code {
            Some(code) => "exit status: "@ + crate::text::signed_decimal(code as int),
            None => match self.signal {
                Some(signal) => "signal: "@ + crate::text::signed_decimal(signal as int),
                None => "signal"@,
            },
        }
    }

    /// Describes how the process ended.
    pub fn to_string(&self) -> (r: String)
        ensures
            r@ == self.description(),
    {
        match self.code {
            Some(code) => crate::text::join(
                "exit status: ",
                crate::text::to_signed_decimal(code).as_str(),
            ),
            None => match self.signal {
                Some(signal) => crate::text::join(
                    "signal: ",
                    crate::text::to_signed_decimal(signal).as_str(),
                ),
                None => "signal".to_owned(),
            },
        }
    }
}

} // verus!
