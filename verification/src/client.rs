//! The client that waits for runc on the calling thread.

use vstd::prelude::*;

use oci_spec::runtime::{Linux, Process};
use serde_json::Error as JsonError;

use crate::command::{literal_words, Close, Plan, PlanView, Runtime, Word};
use crate::config::{Config, Runc, RuncView};
use crate::error::{Error, ErrorView};
use crate::exit::{Outcome, Response};
use crate::json::{linux_json, process_json};
use crate::operation::{
    bundle_words, create_tail_words, create_words, delete_words, exec_head_words, exec_tail_words,
    kill_words, list_words, simple_words, update_head_words, update_tail_words,
};
use crate::options::{CreateOpts, DeleteOpts, ExecOpts, KillOpts};
use crate::reply::{list_reply, state_reply, Reading};
use crate::step::{Step, StepView};

verus! {

/// Client for runc.
///
/// A call of an operation gives its first [`Step`]; the answer of the last one is the answer of
/// the operation.
#[derive(Debug)]
pub struct Client {
    runc: Runc,
}

impl View for Client {
    type V = RuncView;

    closed spec fn view(&self) -> RuncView {
        self.runc@
    }
}

impl Clone for Client {
    fn clone(&self) -> (copy: Self)
        ensures
            copy@ == self@,
    {
        Client { runc: self.runc.clone() }
    }
}

/// When the streams of a caller that creates a container are closed: once it was created.
pub open spec fn create_io(opts: Option<&CreateOpts>) -> Option<Close> {
    if opts matches Some(opts) && opts.io {
        Some(Close::OnSuccess)
    } else {
        None
    }
}

/// When the streams of a caller that runs a container are closed: never.
pub open spec fn run_io(opts: Option<&CreateOpts>) -> Option<Close> {
    if opts matches Some(opts) && opts.io {
        Some(Close::Never)
    } else {
        None
    }
}

/// When the streams of a caller that starts an additional process are closed: never.
pub open spec fn exec_io(opts: Option<&ExecOpts>) -> Option<Close> {
    if opts matches Some(opts) && opts.io {
        Some(Close::Never)
    } else {
        None
    }
}

impl Client {
    pub(crate) fn new(runc: Runc) -> (client: Self)
        ensures
            client@ == runc@,
    {
        Client { runc }
    }

    /// Create a new runc client from the supplied configuration. `program` is where the binary was
    /// found, or why it was not.
    pub fn from_config(config: Config, program: Result<String, Error>) -> (client: Result<
        Self,
        Error,
    >)
        ensures
            match program {
                Ok(program) => client is Ok && client->Ok_0@ == config@.located(program@),
                Err(e) => client is Err && client->Err_0 == e,
            },
    {
        let mut config = config;
        config.build(program)
    }

    fn plan(&self, operation: Vec<Word>, io: Option<Close>) -> (plan: Plan)
        ensures
            plan@ == self@.plan(Runtime::Blocking, operation.deep_view(), io),
    {
        self.runc.plan(Runtime::Blocking, operation, io)
    }

    fn read_plan(&self, operation: Vec<Word>) -> (plan: Plan)
        ensures
            plan@ == self@.read_plan(Runtime::Blocking, operation.deep_view()),
    {
        self.runc.read_plan(Runtime::Blocking, operation)
    }

    /// The plan of a call with the arguments `args`.
    pub fn command(&self, args: &[String]) -> (plan: Plan)
        ensures
            plan@ == self@.plan(
                Runtime::Blocking,
                crate::command::literal(args.deep_view()),
                None,
            ),
    {
        self.plan(literal_words(args), None)
    }

    /// What stands for [`Client::command`] where there is no Linux: no call can be planned.
    pub fn command_unsupported(&self, _args: &[String]) -> (plan: Result<Plan, Error>)
        ensures
            plan is Err,
            plan->Err_0@ == ErrorView::Unimplemented("command"@),
    {
        Err(Error::Unimplemented("command".to_owned()))
    }

    pub fn checkpoint(&self) -> (done: Result<(), Error>)
        ensures
            done is Err,
            done->Err_0@ == ErrorView::Unimplemented("checkpoint"@),
    {
        Err(Error::Unimplemented("checkpoint".to_owned()))
    }

    /// The answer of a launched command, given what became of it.
    pub fn launch(&self, outcome: Outcome, combined_output: bool) -> (answer: Result<
        Response,
        Error,
    >)
        requires
            outcome.is_text(),
        ensures
            crate::exit::answer_view(answer) == outcome.answer(Runtime::Blocking, combined_output),
    {
        outcome.into_answer(Runtime::Blocking, combined_output)
    }

    /// Create a new container
    pub fn create(&self, id: &str, bundle: &str, opts: Option<&CreateOpts>) -> (step: Step)
        ensures
            step@ == self@.plan(
                Runtime::Blocking,
                crate::operation::create_operation(
                    id@,
                    bundle@,
                    crate::operation::create_flags(opts),
                ),
                create_io(opts),
            ).start(),
    {
        let io = match opts {
            Some(CreateOpts { io: true, .. }) => Some(Close::OnSuccess),
            _ => None,
        };
        self.plan(create_words(id, bundle, opts), io).begin()
    }

    /// Delete a container
    pub fn delete(&self, id: &str, opts: Option<&DeleteOpts>) -> (step: Step)
        ensures
            step@ == self@.plan(
                Runtime::Blocking,
                crate::operation::delete_operation(id@, crate::operation::delete_flags(opts)),
                None,
            ).start(),
    {
        self.plan(delete_words(id, opts), None).begin()
    }

    /// Execute an additional process inside the container
    pub fn exec(&self, id: &str, spec: &Process, opts: Option<&ExecOpts>) -> (step: Step)
        ensures
            step@ matches StepView::NameSpec { json, head, plan } && {
                &&& json matches Ok(text) ==> crate::json::is_process_json(*spec, text)
                &&& json is Err ==> !crate::json::has_process_json(*spec)
                &&& head == crate::operation::exec_head()
                &&& plan == self@.plan(
                    Runtime::Blocking,
                    crate::operation::flags_and_id(id@, crate::operation::exec_flags(opts)),
                    exec_io(opts),
                )
            },
    {
        self.exec_json(id, process_json(spec), opts)
    }

    /// Execute an additional process inside the container, given the JSON text that describes it.
    pub fn exec_json(
        &self,
        id: &str,
        json: Result<String, JsonError>,
        opts: Option<&ExecOpts>,
    ) -> (step: Step)
        ensures
            step@ == (StepView::NameSpec {
                json: crate::step::json_view(json),
                head: crate::operation::exec_head(),
                plan: self@.plan(
                    Runtime::Blocking,
                    crate::operation::flags_and_id(id@, crate::operation::exec_flags(opts)),
                    exec_io(opts),
                ),
            }),
    {
        let io = match opts {
            Some(ExecOpts { io: true, .. }) => Some(Close::Never),
            _ => None,
        };
        Step::NameSpec {
            json,
            head: exec_head_words(),
            plan: self.plan(exec_tail_words(id, opts), io),
        }
    }

    /// Send the specified signal to processes inside the container
    pub fn kill(&self, id: &str, sig: u32, opts: Option<&KillOpts>) -> (step: Step)
        ensures
            step@ == self@.plan(
                Runtime::Blocking,
                crate::operation::kill_operation(id@, sig, crate::operation::kill_flags(opts)),
                None,
            ).start(),
    {
        self.plan(kill_words(id, sig, opts), None).begin()
    }

    /// List all containers associated with this runc instance
    pub fn list(&self) -> (step: Step)
        ensures
            step@ == self@.read_plan(Runtime::Blocking, crate::operation::list_operation()).start(),
            step@.captures(),
    {
        self.read_plan(list_words()).begin()
    }

    /// Reads the answer of [`Self::list`]. What is to be parsed holds the containers.
    pub fn list_answer<T>(&self, answer: Result<Response, Error>) -> (reading: Reading<Vec<T>>)
        ensures
            crate::reply::reads_list(answer, reading),
    {
        list_reply(answer)
    }

    /// Pause a container
    pub fn pause(&self, id: &str) -> (step: Step)
        ensures
            step@ == self@.plan(
                Runtime::Blocking,
                crate::operation::simple_operation("pause"@, id@),
                None,
            ).start(),
    {
        self.plan(simple_words("pause", id), None).begin()
    }

    pub fn restore(&self) -> (done: Result<(), Error>)
        ensures
            done is Err,
            done->Err_0@ == ErrorView::Unimplemented("restore"@),
    {
        Err(Error::Unimplemented("restore".to_owned()))
    }

    /// Resume a container
    pub fn resume(&self, id: &str) -> (step: Step)
        ensures
            step@ == self@.plan(
                Runtime::Blocking,
                crate::operation::simple_operation("resume"@, id@),
                None,
            ).start(),
    {
        self.plan(simple_words("resume", id), None).begin()
    }

    /// Run the create, start, delete lifecycle of the container and return its exit status
    ///
    /// The paths of the options are made absolute before the bundle is, though the bundle stands
    /// before them. The call is planned twice. Streams that the caller brings are attached to the
    /// command of the first time; the command of the second time is the one that is launched.
    pub fn run(&self, id: &str, bundle: &str, opts: Option<&CreateOpts>) -> (step: Step)
        ensures
            step@ == (PlanView {
                lead: crate::operation::bundle_lead("run"@, bundle@),
                again: true,
                ..self@.plan(
                    Runtime::Blocking,
                    crate::operation::flags_and_id(id@, crate::operation::create_flags(opts)),
                    run_io(opts),
                )
            }).start(),
    {
        let io = match opts {
            Some(CreateOpts { io: true, .. }) => Some(Close::Never),
            _ => None,
        };
        let mut plan = self.plan(create_tail_words(id, opts), io);
        plan.lead = bundle_words("run", bundle);
        plan.again = true;
        plan.begin()
    }

    /// Start an already created container
    pub fn start(&self, id: &str) -> (step: Step)
        ensures
            step@ == self@.plan(
                Runtime::Blocking,
                crate::operation::simple_operation("start"@, id@),
                None,
            ).start(),
    {
        self.plan(simple_words("start", id), None).begin()
    }

    /// Return the state of a container
    pub fn state(&self, id: &str) -> (step: Step)
        ensures
            step@ == self@.read_plan(Runtime::Blocking, crate::operation::simple_operation("state"@, id@)).start(),
            step@.captures(),
    {
        self.read_plan(simple_words("state", id)).begin()
    }

    /// Reads the answer of [`Self::state`]. What is to be parsed holds the container.
    pub fn state_answer<T>(&self, answer: Result<Response, Error>) -> (reading: Reading<T>)
        ensures
            crate::reply::reads_state(answer, reading),
    {
        state_reply(answer)
    }

    /// Update a container with the provided resource spec
    pub fn update(&self, id: &str, resources: &Linux) -> (step: Step)
        ensures
            step@ matches StepView::NameSpec { json, head, plan } && {
                &&& json matches Ok(text) ==> crate::json::is_linux_json(*resources, text)
                &&& json is Err ==> !crate::json::has_linux_json(*resources)
                &&& head == crate::operation::update_head()
                &&& plan == self@.plan(
                    Runtime::Blocking,
                    crate::operation::update_tail(id@),
                    None,
                )
            },
    {
        self.update_json(id, linux_json(resources))
    }

    /// Update a container, given the JSON text that describes the resources.
    pub fn update_json(&self, id: &str, json: Result<String, JsonError>) -> (step: Step)
        ensures
            step@ == (StepView::NameSpec {
                json: crate::step::json_view(json),
                head: crate::operation::update_head(),
                plan: self@.plan(Runtime::Blocking, crate::operation::update_tail(id@), None),
            }),
    {
        Step::NameSpec {
            json,
            head: update_head_words(),
            plan: self.plan(update_tail_words(id), None),
        }
    }
}

} // verus!
