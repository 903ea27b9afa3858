//! The course of a call: what is to be done next, and what follows from how it went.
//!
//! A call touches the world around it: it names and writes files, makes paths absolute, attaches
//! streams, runs a child process. A [`Step`] says which of these is due. Whoever does it reports
//! with an [`Event`], and [`Step::advance`] gives the next step, until the call has its answer.

use vstd::prelude::*;

use serde_json::Error as JsonError;

use crate::command::{
    literal_words, Close, CommandLine, CommandView, Plan, PlanView, Runtime, Stdio, Word, WordView,
};
use crate::error::{Error, ErrorView};
use crate::exit::{AnswerView, Outcome, Response};

verus! {

/// What a call needs next.
#[derive(Debug)]
pub enum Step {
    /// Choose a file in the runtime directory. Its name will follow `head`, before the other words
    /// of the plan's operation, and `json` will be its contents.
    NameSpec { json: Result<String, JsonError>, head: Vec<Word>, plan: Plan },
    /// Write `text` to `file`.
    WriteSpec { file: String, text: String, plan: Plan },
    /// Make `path` absolute.
    Resolve { path: String, plan: Plan, answers: Vec<String> },
    /// Attach the caller's streams to `command`. Where the call is planned once more, as `then`,
    /// this command is not the one that will be launched.
    AttachIo { command: CommandLine, runtime: Runtime, close: Close, then: Option<Plan> },
    /// Run `command` to its end: the very command that the streams were attached to where
    /// `attached` says when to close them, a fresh one otherwise.
    Launch { command: CommandLine, runtime: Runtime, attached: Option<Close> },
    /// Close the caller's streams on this side.
    CloseIo { answer: Result<Response, Error> },
    /// Nothing: the call is over.
    Done { answer: Result<Response, Error> },
}

/// How a step went.
#[derive(Debug)]
pub enum Event {
    /// A file was chosen, or none could be.
    SpecNamed(Result<String, Error>),
    /// The file was written, or it could not be.
    SpecWritten(Result<(), std::io::Error>),
    /// The absolute form of the path, or why it has none.
    PathResolved(Result<String, Error>),
    /// The streams were attached, or they could not be.
    IoAttached(Result<(), std::io::Error>),
    /// What became of the child process.
    Finished(Outcome),
    /// The streams were closed.
    IoClosed,
}

/// A [`Step`] with its texts as character sequences.
pub enum StepView {
    NameSpec { json: Result<Seq<char>, JsonError>, head: Seq<WordView>, plan: PlanView },
    WriteSpec { file: Seq<char>, text: Seq<char>, plan: PlanView },
    Resolve { path: Seq<char>, plan: PlanView, answers: Seq<Seq<char>> },
    AttachIo { command: CommandView, runtime: Runtime, close: Close, then: Option<PlanView> },
    Launch { command: CommandView, runtime: Runtime, attached: Option<Close> },
    CloseIo { answer: AnswerView },
    Done { answer: AnswerView },
}

/// The view of a text that could be had or not.
pub open spec fn json_view(json: Result<String, JsonError>) -> Result<Seq<char>, JsonError> {
    match json {
        Ok(text) => Ok(text@),
        Err(e) => Err(e),
    }
}

impl View for Step {
    type V = StepView;

    open spec fn view(&self) -> StepView {
        match *self {
            Step::NameSpec { json, head, plan } => StepView::NameSpec {
                json: json_view(json),
                head: head.deep_view(),
                plan: plan@,
            },
            Step::WriteSpec { file, text, plan } => StepView::WriteSpec {
                file: file@,
                text: text@,
                plan: plan@,
            },
            Step::Resolve { path, plan, answers } => StepView::Resolve {
                path: path@,
                plan: plan@,
                answers: answers.deep_view(),
            },
            Step::AttachIo { command, runtime, close, then } => StepView::AttachIo {
                command: command@,
                runtime,
                close,
                then: match then {
                    Some(plan) => Some(plan@),
                    None => None,
                },
            },
            Step::Launch { command, runtime, attached } => StepView::Launch {
                command: command@,
                runtime,
                attached,
            },
            Step::CloseIo { answer } => StepView::CloseIo {
                answer: crate::exit::answer_view(answer),
            },
            Step::Done { answer } => StepView::Done { answer: crate::exit::answer_view(answer) },
        }
    }
}

impl PlanView {
    /// The plan of the second time, given the absolute forms of the paths of the first: the lead
    /// and the operation stand as they are, and the caller's streams are done with.
    pub open spec fn second(self, answers: Seq<Seq<char>>) -> PlanView {
        PlanView {
            operation: crate::command::literal(self.texts(answers)),
            lead: Seq::empty(),
            io: None,
            again: false,
            ..self
        }
    }

    /// The step that runs the command of the call.
    pub open spec fn launch(self, answers: Seq<Seq<char>>) -> StepView {
        StepView::Launch { command: self.command(answers), runtime: self.runtime, attached: None }
    }

    /// The first step of the second time.
    pub open spec fn start_second(self, answers: Seq<Seq<char>>) -> StepView {
        let plan = self.second(answers);
        if plan.paths().len() > 0 {
            StepView::Resolve { path: plan.paths()[0], plan, answers: Seq::empty() }
        } else {
            plan.launch(Seq::empty())
        }
    }

    /// The step of a call that has the absolute form of all its paths: the streams are attached
    /// where the caller brought any; then the process runs, or the call is planned once more.
    pub open spec fn ready(self, answers: Seq<Seq<char>>) -> StepView {
        match self.io {
            Some(close) => StepView::AttachIo {
                command: self.command(answers),
                runtime: self.runtime,
                close,
                then: if self.again {
                    Some(self.second(answers))
                } else {
                    None
                },
            },
            None => if self.again {
                self.start_second(answers)
            } else {
                self.launch(answers)
            },
        }
    }

    /// The step of a call that has the absolute form of its first paths, as `answers` holds them:
    /// the next path is due while there is one.
    pub open spec fn resolving(self, answers: Seq<Seq<char>>) -> StepView {
        if answers.len() < self.paths().len() {
            StepView::Resolve { path: self.paths()[answers.len() as int], plan: self, answers }
        } else {
            self.ready(answers)
        }
    }

    /// The first step of a call.
    pub open spec fn start(self) -> StepView {
        self.resolving(Seq::empty())
    }

    /// The plan of a call whose operation starts with `head` and names `file` next.
    pub open spec fn with_spec_file(self, head: Seq<WordView>, file: Seq<char>) -> PlanView {
        PlanView { operation: head.push(WordView::Text(file)) + self.operation, ..self }
    }
}

impl Close {
    /// Whether the streams are closed after a process that came to `outcome`.
    pub open spec fn closes_after(self, outcome: Outcome) -> bool {
        match self {
            Close::Never => false,
            Close::OnSuccess => outcome matches Outcome::Exited(exit) && exit.status.is_success(),
            Close::OnExit => outcome is Exited,
        }
    }
}

impl StepView {
    /// Whether the process of the call, where it is still to be run, has its standard output
    /// captured.
    pub open spec fn captures(self) -> bool {
        match self {
            StepView::NameSpec { plan, .. } => plan.capture,
            StepView::WriteSpec { plan, .. } => plan.capture,
            StepView::Resolve { plan, .. } => plan.capture,
            StepView::AttachIo { command, then, .. } => {
                &&& command.stdout == Some(Stdio::Piped)
                &&& then is Some ==> then->Some_0.capture
            },
            StepView::Launch { command, .. } => command.stdout == Some(Stdio::Piped),
            StepView::CloseIo { .. } => true,
            StepView::Done { .. } => true,
        }
    }

    /// Whether `event` reports on this step. The streams of a process that ran must hold text.
    pub open spec fn accepts(self, event: Event) -> bool {
        match (self, event) {
            (StepView::NameSpec { .. }, Event::SpecNamed(_)) => true,
            (StepView::WriteSpec { .. }, Event::SpecWritten(_)) => true,
            (StepView::Resolve { .. }, Event::PathResolved(_)) => true,
            (StepView::AttachIo { .. }, Event::IoAttached(_)) => true,
            (StepView::Launch { .. }, Event::Finished(outcome)) => outcome.is_text(),
            (StepView::CloseIo { .. }, Event::IoClosed) => true,
            _ => false,
        }
    }

    /// The step that follows this one, given how it went.
    pub open spec fn next(self, event: Event) -> StepView {
        match (self, event) {
            (StepView::NameSpec { json, head, plan }, Event::SpecNamed(Ok(file))) => match json {
                Ok(text) => StepView::WriteSpec {
                    file: file@,
                    text,
                    plan: plan.with_spec_file(head, file@),
                },
                Err(e) => StepView::Done { answer: Err(ErrorView::JsonDeserializationFailed(e)) },
            },
            (StepView::NameSpec { .. }, Event::SpecNamed(Err(e))) => StepView::Done {
                answer: Err(e@),
            },
            (StepView::WriteSpec { plan, .. }, Event::SpecWritten(Ok(_))) => plan.start(),
            (StepView::WriteSpec { .. }, Event::SpecWritten(Err(e))) => StepView::Done {
                answer: Err(ErrorView::SpecFileCreationFailed(e)),
            },
            (StepView::Resolve { plan, answers, .. }, Event::PathResolved(Ok(path))) => {
                plan.resolving(answers.push(path@))
            },
            (StepView::Resolve { .. }, Event::PathResolved(Err(e))) => StepView::Done {
                answer: Err(e@),
            },
            (StepView::AttachIo { command, runtime, close, then }, Event::IoAttached(Ok(_))) => {
                match then {
                    Some(plan) => plan.start(),
                    None => StepView::Launch { command, runtime, attached: Some(close) },
                }
            },
            (StepView::AttachIo { .. }, Event::IoAttached(Err(e))) => StepView::Done {
                answer: Err(ErrorView::UnavailableIO(e)),
            },
            (StepView::Launch { runtime, attached, .. }, Event::Finished(outcome)) => {
                let answer = outcome.answer(runtime, true);
                if attached is Some && attached->Some_0.closes_after(outcome) {
                    StepView::CloseIo { answer }
                } else {
                    StepView::Done { answer }
                }
            },
            (StepView::CloseIo { answer }, Event::IoClosed) => StepView::Done { answer },
            _ => self,
        }
    }
}

impl Plan {
    /// The plan of the second time.
    fn replan(self, answers: &Vec<String>) -> (plan: Plan)
        requires
            answers.len() >= self@.paths().len(),
        ensures
            plan@ == self@.second(answers.deep_view()),
    {
        let texts = self.texts(answers);
        let operation = literal_words(texts.as_slice());
        let lead: Vec<Word> = Vec::new();
        assert(lead.deep_view() =~= Seq::<WordView>::empty());
        Plan {
            program: self.program,
            operation,
            lead,
            global: self.global,
            runtime: self.runtime,
            io: None,
            again: false,
            capture: self.capture,
        }
    }

    /// Goes on with a call that has the absolute form of its first paths.
    pub fn resolve(self, answers: Vec<String>) -> (step: Step)
        ensures
            step@ == self@.resolving(answers.deep_view()),
        decreases (if self.again { 1int } else { 0int }), 0int,
    {
        match self.next_path(answers.len()) {
            Some(path) => Step::Resolve { path, plan: self, answers },
            None => match self.io {
                Some(close) => {
                    let command = self.command_line(&answers);
                    let runtime = self.runtime;
                    let then = if self.again {
                        Some(self.replan(&answers))
                    } else {
                        None
                    };
                    Step::AttachIo { command, runtime, close, then }
                },
                None => if self.again {
                    self.replan(&answers).begin()
                } else {
                    Step::Launch {
                        command: self.command_line(&answers),
                        runtime: self.runtime,
                        attached: None,
                    }
                },
            },
        }
    }

    /// Starts a call.
    pub fn begin(self) -> (step: Step)
        ensures
            step@ == self@.start(),
        decreases (if self.again { 1int } else { 0int }), 1int,
    {
        let answers: Vec<String> = Vec::new();
        assert(answers.deep_view() =~= Seq::<Seq<char>>::empty());
        self.resolve(answers)
    }
}

impl Step {
    /// The step that follows this one, given how it went. An event that reports on another kind of
    /// step changes nothing.
    pub fn advance(self, event: Event) -> (next: Step)
        requires
            event matches Event::Finished(outcome) ==> outcome.is_text(),
        ensures
            next@ == self@.next(event),
    {
        match (self, event) {
            (Step::NameSpec { json, head, plan }, Event::SpecNamed(named)) => match named {
                Ok(file) => match json {
                    Ok(text) => {
                        let ghost old_plan = plan@;
                        let ghost old_head = head.deep_view();
                        let Plan { program, operation, lead, global, runtime, io, again, capture } =
                            plan;
                        let mut operation = operation;
                        let mut words = head;
                        words.push(Word::Text(file.clone()));
                        words.append(&mut operation);
                        assert(words.deep_view() =~= old_plan.with_spec_file(
                            old_head,
                            file@,
                        ).operation);
                        let plan = Plan {
                            program,
                            operation: words,
                            lead,
                            global,
                            runtime,
                            io,
                            again,
                            capture,
                        };
                        Step::WriteSpec { file, text, plan }
                    },
                    Err(e) => Step::Done { answer: Err(Error::JsonDeserializationFailed(e)) },
                },
                Err(e) => Step::Done { answer: Err(e) },
            },
            (Step::WriteSpec { plan, .. }, Event::SpecWritten(written)) => match written {
                Ok(_) => plan.begin(),
                Err(e) => Step::Done { answer: Err(Error::SpecFileCreationFailed(e)) },
            },
            (Step::Resolve { plan, answers, .. }, Event::PathResolved(resolved)) => match resolved {
                Ok(path) => {
                    let ghost before = answers.deep_view();
                    let mut answers = answers;
                    answers.push(path);
                    assert(answers.deep_view() =~= before.push(path@));
                    plan.resolve(answers)
                },
                Err(e) => Step::Done { answer: Err(e) },
            },
            (
                Step::AttachIo { command, runtime, close, then },
                Event::IoAttached(attached),
            ) => match attached {
                Ok(_) => match then {
                    Some(plan) => plan.begin(),
                    None => Step::Launch { command, runtime, attached: Some(close) },
                },
                Err(e) => Step::Done { answer: Err(Error::UnavailableIO(e)) },
            },
            (Step::Launch { runtime, attached, .. }, Event::Finished(outcome)) => {
                let close = match attached {
                    Some(close) => close,
                    None => Close::Never,
                };
                let exited = match &outcome {
                    Outcome::Exited(_) => true,
                    _ => false,
                };
                let answer = outcome.into_answer(runtime, true);
                let closes = match close {
                    Close::Never => false,
                    Close::OnSuccess => answer.is_ok(),
                    Close::OnExit => exited,
                };
                if closes {
                    Step::CloseIo { answer }
                } else {
                    Step::Done { answer }
                }
            },
            (Step::CloseIo { answer }, Event::IoClosed) => Step::Done { answer },
            (step, _) => step,
        }
    }
}

} // verus!
