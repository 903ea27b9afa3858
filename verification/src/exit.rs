//! How a child process ended, and what that means for the caller.

use vstd::prelude::*;
use vstd::string::*;

use crate::command::Runtime;
use crate::error::{Error, ErrorView};

verus! {

/// The status with which a child process ended.
#[derive(Debug, Clone, Copy, PartialEq, Eq, Structural)]
pub struct ExitStatus {
    /// The value passed to `exit`; `None` where a signal ended the process.
    pub code: Option<i32>,
    /// The signal that ended the process, if one did.
    pub signal: Option<i32>,
}

impl ExitStatus {
    /// Success is an exit with code zero; death by a signal is none.
    pub open spec fn is_success(self) -> bool {
        self.code == Some(0i32)
    }

    /// Whether the process ended with success.
    pub fn success(&self) -> (success: bool)
        ensures
            success == self.is_success(),
    {
        match self.code {
            Some(code) => code == 0,
            None => false,
        }
    }

    /// The value passed to `exit`, if the process called it.
    pub fn code(&self) -> (code: Option<i32>)
        ensures
            code == self.code,
    {
        self.code
    }
}

/// Response is for (pid, exit status, outputs).
#[derive(Debug)]
pub struct Response {
    pub pid: u32,
    pub status: ExitStatus,
    pub output: String,
}

/// A [`Response`] with its output as a character sequence.
pub struct ResponseView {
    pub pid: u32,
    pub status: ExitStatus,
    pub output: Seq<char>,
}

impl View for Response {
    type V = ResponseView;

    open spec fn view(&self) -> ResponseView {
        ResponseView { pid: self.pid, status: self.status, output: self.output@ }
    }
}

impl Clone for Response {
    fn clone(&self) -> (copy: Self)
        ensures
            copy@ == self@,
    {
        Response { pid: self.pid, status: self.status, output: self.output.clone() }
    }
}

/// What a call answers, in terms of views.
pub type AnswerView = Result<ResponseView, ErrorView>;

/// The view of what a call answers.
pub open spec fn answer_view(answer: Result<Response, Error>) -> AnswerView {
    match answer {
        Ok(response) => Ok(response@),
        Err(error) => Err(error@),
    }
}

/// A child process that ran to its end.
#[derive(Debug)]
pub struct Exit {
    pub pid: u32,
    pub status: ExitStatus,
    /// The bytes that were captured of its standard output.
    pub stdout: Vec<u8>,
    /// The bytes that were captured of its standard error.
    pub stderr: Vec<u8>,
}

impl Exit {
    /// Both streams hold text.
    pub open spec fn is_text(self) -> bool {
        &&& vstd::utf8::valid_utf8(self.stdout@)
        &&& vstd::utf8::valid_utf8(self.stderr@)
    }

    /// The answer for a process that ended like this: a response where it ended with success, an
    /// error with both streams where it did not. The streams are joined in the response where
    /// `combined_output` says so; otherwise it holds standard output alone.
    pub open spec fn answer(self, combined_output: bool) -> AnswerView {
        let stdout = vstd::utf8::decode_utf8(self.stdout@);
        let stderr = vstd::utf8::decode_utf8(self.stderr@);
        if self.status.is_success() {
            Ok(
                ResponseView {
                    pid: self.pid,
                    status: self.status,
                    output: if combined_output {
                        stdout + stderr
                    } else {
                        stdout
                    },
                },
            )
        } else {
            Err(ErrorView::CommandFailed { status: self.status, stdout, stderr })
        }
    }

    /// Turns the end of a process into the answer of the call that started it.
    pub fn into_answer(self, combined_output: bool) -> (answer: Result<Response, Error>)
        requires
            self.is_text(),
        ensures
            answer_view(answer) == self.answer(combined_output),
    {
        let Exit { pid, status, stdout, stderr } = self;
        let stdout = String::from_utf8(stdout).unwrap();
        let stderr = String::from_utf8(stderr).unwrap();
        if status.success() {
            if combined_output {
                Ok(Response { pid, status, output: stdout.concat(stderr.as_str()) })
            } else {
                Ok(Response { pid, status, output: stdout })
            }
        } else {
            Err(Error::CommandFailed { status, stdout, stderr })
        }
    }
}

/// What became of an attempt to run a child process.
#[derive(Debug)]
pub enum Outcome {
    /// It could not be started.
    SpawnFailed(std::io::Error),
    /// It was started, and waiting for its end failed.
    WaitFailed(std::io::Error),
    /// It ran to its end.
    Exited(Exit),
}

impl Outcome {
    /// Where the process ran to its end, both of its streams hold text.
    pub open spec fn is_text(self) -> bool {
        self matches Outcome::Exited(exit) ==> exit.is_text()
    }

    /// The answer of a call that came to this. The blocking client tells a process that could not
    /// be started from one that could not be waited for; the async client starts and waits in one,
    /// and reports either as a failure of the command.
    pub open spec fn answer(self, runtime: Runtime, combined_output: bool) -> AnswerView {
        match self {
            Outcome::SpawnFailed(e) => match runtime {
                Runtime::Blocking => Err(ErrorView::ProcessSpawnFailed(e)),
                Runtime::Async => Err(ErrorView::InvalidCommand(e)),
            },
            Outcome::WaitFailed(e) => Err(ErrorView::InvalidCommand(e)),
            Outcome::Exited(exit) => exit.answer(combined_output),
        }
    }

    /// Turns what became of a process into the answer of the call that wanted it.
    pub fn into_answer(self, runtime: Runtime, combined_output: bool) -> (answer: Result<
        Response,
        Error,
    >)
        requires
            self.is_text(),
        ensures
            answer_view(answer) == self.answer(runtime, combined_output),
    {
        match self {
            Outcome::SpawnFailed(e) => match runtime {
                Runtime::Blocking => Err(Error::ProcessSpawnFailed(e)),
                Runtime::Async => Err(Error::InvalidCommand(e)),
            },
            Outcome::WaitFailed(e) => Err(Error::InvalidCommand(e)),
            Outcome::Exited(exit) => exit.into_answer(combined_output),
        }
    }
}

} // verus!
