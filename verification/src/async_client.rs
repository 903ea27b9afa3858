//! The client that waits for runc on a tokio runtime.

use std::time::Duration;

use vstd::prelude::*;

use oci_spec::runtime::{Linux, Process};
use serde_json::Error as JsonError;

use crate::command::{literal_words, Close, Plan, PlanView, Runtime, Word};
use crate::config::{Config, Runc, RuncView};
use crate::error::{Error, ErrorView};
use crate::exit::{Outcome, Response};
use crate::json::linux_json;
use crate::operation::{
    bundle_words, create_tail_words, create_words, delete_words, kill_words, list_words, ps_words,
    simple_words, stats_words, update_head_words, update_tail_words,
};
use crate::options::{CreateOpts, DeleteOpts, ExecOpts, KillOpts};
use crate::reply::{list_reply, numbers_reply, state_reply, Reading};
use crate::step::{Step, StepView};

verus! {

/// Async client for runc
/// Note that the commands of this client are meant for a tokio runtime.
///
/// A call of an operation gives its first [`Step`]; the answer of the last one is the answer of
/// the operation.
#[derive(Debug)]
pub struct AsyncClient {
    runc: Runc,
}

impl View for AsyncClient {
    type V = RuncView;

    closed spec fn view(&self) -> RuncView {
        self.runc@
    }
}

impl Clone for AsyncClient {
    fn clone(&self) -> (copy: Self)
        ensures
            copy@ == self@,
    {
        AsyncClient { runc: self.runc.clone() }
    }
}

/// When the streams of a caller that creates a container are closed: once runc has ended, whatever
/// its status.
pub open spec fn create_io(opts: Option<&CreateOpts>) -> Option<Close> {
    if opts matches Some(opts) && opts.io {
        Some(Close::OnExit)
    } else {
        None
    }
}

impl AsyncClient {
    pub(crate) fn new(runc: Runc) -> (client: Self)
        ensures
            client@ == runc@,
    {
        AsyncClient { runc }
    }

    /// Create a new runc client from the supplied configuration. `program` is where the binary was
    /// found, or why it was not.
    pub fn from_config(config: Config, program: Result<String, Error>) -> (client: Result<
        Self,
        Error,
    >)
        ensures
            match program {
                Ok(program) => client is Ok && client->Ok_0@ == config@.located(program@),
                Err(e) => client is Err && client->Err_0 == e,
            },
    {
        let mut config = config;
        config.build_async(program)
    }

    fn plan(&self, operation: Vec<Word>, io: Option<Close>) -> (plan: Plan)
        ensures
            plan@ == self@.plan(Runtime::Async, operation.deep_view(), io),
    {
        self.runc.plan(Runtime::Async, operation, io)
    }

    fn read_plan(&self, operation: Vec<Word>) -> (plan: Plan)
        ensures
            plan@ == self@.read_plan(Runtime::Async, operation.deep_view()),
    {
        self.runc.read_plan(Runtime::Async, operation)
    }

    /// The plan of a call with the arguments `args`.
    pub fn command(&self, args: &[String]) -> (plan: Plan)
        ensures
            plan@ == self@.plan(
                Runtime::Async,
                crate::command::literal(args.deep_view()),
                None,
            ),
    {
        self.plan(literal_words(args), None)
    }

    pub fn checkpoint(&self) -> (done: Result<(), Error>)
        ensures
            done is Err,
            done->Err_0@ == ErrorView::Unimplemented("checkpoint"@),
    {
        Err(Error::Unimplemented("checkpoint".to_owned()))
    }

    /// The answer of a launched command, given what became of it.
    pub fn launch(&self, outcome: Outcome, combined_output: bool) -> (answer: Result<
        Response,
        Error,
    >)
        requires
            outcome.is_text(),
        ensures
            crate::exit::answer_view(answer) == outcome.answer(Runtime::Async, combined_output),
    {
        outcome.into_answer(Runtime::Async, combined_output)
    }

    /// Create a new container
    pub fn create(&self, id: &str, bundle: &str, opts: Option<&CreateOpts>) -> (step: Step)
        ensures
            step@ == self@.plan(
                Runtime::Async,
                crate::operation::create_operation(
                    id@,
                    bundle@,
                    crate::operation::create_flags(opts),
                ),
                create_io(opts),
            ).start(),
    {
        let io = match opts {
            Some(CreateOpts { io: true, .. }) => Some(Close::OnExit),
            _ => None,
        };
        self.plan(create_words(id, bundle, opts), io).begin()
    }

    /// Delete a container
    pub fn delete(&self, id: &str, opts: Option<&DeleteOpts>) -> (step: Step)
        ensures
            step@ == self@.plan(
                Runtime::Async,
                crate::operation::delete_operation(id@, crate::operation::delete_flags(opts)),
                None,
            ).start(),
    {
        self.plan(delete_words(id, opts), None).begin()
    }

    /// The event stream of container notifications is not offered: the call is answered with
    /// `Unimplemented`.
    pub fn events(&self, _id: &str, _interval: &Duration) -> (done: Result<(), Error>)
        ensures
            done is Err,
            done->Err_0@ == ErrorView::Unimplemented("events"@),
    {
        Err(Error::Unimplemented("events".to_owned()))
    }

    /// An additional process inside the container is not offered: the call is answered with
    /// `Unimplemented`.
    pub fn exec(&self, _id: &str, _spec: &Process, _opts: Option<&ExecOpts>) -> (done: Result<
        (),
        Error,
    >)
        ensures
            done is Err,
            done->Err_0@ == ErrorView::Unimplemented("exec"@),
    {
        Err(Error::Unimplemented("exec".to_owned()))
    }

    /// Send the specified signal to processes inside the container
    pub fn kill(&self, id: &str, sig: u32, opts: Option<&KillOpts>) -> (step: Step)
        ensures
            step@ == self@.plan(
                Runtime::Async,
                crate::operation::kill_operation(id@, sig, crate::operation::kill_flags(opts)),
                None,
            ).start(),
    {
        self.plan(kill_words(id, sig, opts), None).begin()
    }

    /// List all containers associated with this runc instance
    pub fn list(&self) -> (step: Step)
        ensures
            step@ == self@.read_plan(Runtime::Async, crate::operation::list_operation()).start(),
            step@.captures(),
    {
        self.read_plan(list_words()).begin()
    }

    /// Reads the answer of [`Self::list`]. What is to be parsed holds the containers.
    pub fn list_answer<T>(&self, answer: Result<Response, Error>) -> (reading: Reading<Vec<T>>)
        ensures
            crate::reply::reads_list(answer, reading),
    {
        list_reply(answer)
    }

    /// Pause a container
    pub fn pause(&self, id: &str) -> (step: Step)
        ensures
            step@ == self@.plan(
                Runtime::Async,
                crate::operation::simple_operation("pause"@, id@),
                None,
            ).start(),
    {
        self.plan(simple_words("pause", id), None).begin()
    }

    /// List all the processes inside the container, returning their pids
    pub fn ps(&self, id: &str) -> (step: Step)
        ensures
            step@ == self@.read_plan(Runtime::Async, crate::operation::ps_operation(id@)).start(),
            step@.captures(),
    {
        self.read_plan(ps_words(id)).begin()
    }

    /// Reads the answer of [`Self::ps`].
    pub fn ps_answer(&self, answer: Result<Response, Error>) -> (pids: Result<Vec<usize>, Error>)
        ensures
            crate::reply::reads_numbers(answer, pids),
    {
        numbers_reply(answer)
    }

    pub fn restore(&self) -> (done: Result<(), Error>)
        ensures
            done is Err,
            done->Err_0@ == ErrorView::Unimplemented("restore"@),
    {
        Err(Error::Unimplemented("restore".to_owned()))
    }

    /// Resume a container
    pub fn resume(&self, id: &str) -> (step: Step)
        ensures
            step@ == self@.plan(
                Runtime::Async,
                crate::operation::simple_operation("resume"@, id@),
                None,
            ).start(),
    {
        self.plan(simple_words("resume", id), None).begin()
    }

    /// Run the create, start, delete lifecycle of the container and return its exit status
    ///
    /// The paths of the options are made absolute before the bundle is, though the bundle stands
    /// before them.
    pub fn run(&self, id: &str, bundle: &str, opts: Option<&CreateOpts>) -> (step: Step)
        ensures
            step@ == (PlanView {
                lead: crate::operation::bundle_lead("run"@, bundle@),
                ..self@.plan(
                    Runtime::Async,
                    crate::operation::flags_and_id(id@, crate::operation::create_flags(opts)),
                    None,
                )
            }).start(),
    {
        let mut plan = self.plan(create_tail_words(id, opts), None);
        plan.lead = bundle_words("run", bundle);
        plan.begin()
    }

    /// Start an already created container
    pub fn start(&self, id: &str) -> (step: Step)
        ensures
            step@ == self@.plan(
                Runtime::Async,
                crate::operation::simple_operation("start"@, id@),
                None,
            ).start(),
    {
        self.plan(simple_words("start", id), None).begin()
    }

    /// Return the state of a container
    pub fn state(&self, id: &str) -> (step: Step)
        ensures
            step@ == self@.read_plan(Runtime::Async, crate::operation::simple_operation("state"@, id@)).start(),
            step@.captures(),
    {
        self.read_plan(simple_words("state", id)).begin()
    }

    /// Reads the answer of [`Self::state`]. What is to be parsed holds the container.
    pub fn state_answer<T>(&self, answer: Result<Response, Error>) -> (reading: Reading<T>)
        ensures
            crate::reply::reads_state(answer, reading),
    {
        state_reply(answer)
    }

    /// Return the latest statistics for a container
    pub fn stats(&self, id: &str) -> (step: Step)
        ensures
            step@ == self@.read_plan(Runtime::Async, crate::operation::stats_operation(id@)).start(),
            step@.captures(),
    {
        self.read_plan(stats_words(id)).begin()
    }

    /// Reads the answer of [`Self::stats`]. What is to be parsed is an event, which may hold the
    /// statistics.
    pub fn stats_answer<S>(&self, answer: Result<Response, Error>) -> (reading: Reading<S>)
        ensures
            crate::reply::reads_state(answer, reading),
    {
        state_reply(answer)
    }

    /// Update a container with the provided resource spec
    pub fn update(&self, id: &str, resources: &Linux) -> (step: Step)
        ensures
            step@ matches StepView::NameSpec { json, head, plan } && {
                &&& json matches Ok(text) ==> crate::json::is_linux_json(*resources, text)
                &&& json is Err ==> !crate::json::has_linux_json(*resources)
                &&& head == crate::operation::update_head()
                &&& plan == self@.plan(
                    Runtime::Async,
                    crate::operation::update_tail(id@),
                    None,
                )
            },
    {
        self.update_json(id, linux_json(resources))
    }

    /// Update a container, given the JSON text that describes the resources.
    pub fn update_json(&self, id: &str, json: Result<String, JsonError>) -> (step: Step)
        ensures
            step@ == (StepView::NameSpec {
                json: crate::step::json_view(json),
                head: crate::operation::update_head(),
                plan: self@.plan(Runtime::Async, crate::operation::update_tail(id@), None),
            }),
    {
        Step::NameSpec {
            json,
            head: update_head_words(),
            plan: self.plan(update_tail_words(id), None),
        }
    }
}

} // verus!
