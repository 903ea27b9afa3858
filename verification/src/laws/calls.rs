//! What each operation of a client asks for, runs and answers.

use std::time::Duration;

use vstd::prelude::*;

use oci_spec::runtime::{Linux, Process};
use serde_json::Error as JsonError;

use crate::async_client::AsyncClient;
use crate::client::Client;
use crate::command::{Close, CommandLine, CommandView, Plan, PlanView, Runtime, Stdio, WordView};
use crate::config::RuncView;
use crate::error::{Error, ErrorView};
use crate::exit::Outcome;
use crate::options::{CreateOpts, DeleteOpts, ExecOpts, KillOpts};
use crate::step::{Event, Step, StepView};

verus! {

/// A client of either kind.
pub enum AnyClient {
    Blocking(Client),
    Async(AsyncClient),
}

impl AnyClient {
    /// The settings of the client.
    pub open spec fn runc(self) -> RuncView {
        match self {
            AnyClient::Blocking(client) => client@,
            AnyClient::Async(client) => client@,
        }
    }

    /// Where the client waits for runc.
    pub open spec fn runtime(self) -> Runtime {
        match self {
            AnyClient::Blocking(_) => Runtime::Blocking,
            AnyClient::Async(_) => Runtime::Async,
        }
    }
}

/// What was told to a call: the reports on its paths, and the absolute forms that they brought.
pub struct Told {
    pub events: Seq<Event>,
    pub answers: Seq<Seq<char>>,
}

impl Told {
    /// A report for each of `paths` and for each path of the settings `runc`, and for nothing else.
    pub open spec fn answers_all(self, paths: Seq<Seq<char>>, runc: RuncView) -> bool {
        &&& crate::laws::resolve_to(self.events, self.answers)
        &&& self.answers.len() == (paths + crate::command::paths_in(runc.global())).len()
    }
}

/// While it hears of its paths, a call asks for `paths`, one after the other.
pub open spec fn asks(step: StepView, events: Seq<Event>, paths: Seq<Seq<char>>) -> bool {
    forall|k: int|
        0 <= k < paths.len() ==> (#[trigger] crate::laws::course(
            step,
            events.take(k),
        ) matches StepView::Resolve { path, .. } && path == paths[k])
}

/// The command runs the binary of the settings with their words and then `texts`, and without
/// `NOTIFY_SOCKET`. The blocking client leaves the standard streams alone; the async client gives
/// no input and passes output on. Either captures standard output where it is to be read.
pub open spec fn command_is(
    command: CommandView,
    client: AnyClient,
    captured: bool,
    settings: Seq<Seq<char>>,
    texts: Seq<Seq<char>>,
) -> bool {
    &&& command.program == client.runc().command
    &&& command.args == crate::command::filled(client.runc().global(), settings) + texts
    &&& command.env_remove == "NOTIFY_SOCKET"@
    &&& client is Blocking ==> command.stdin is None && command.stderr is None
    &&& client is Async ==> command.stdin == Some(Stdio::Null) && command.stderr == Some(
        Stdio::Inherit,
    )
    &&& captured ==> command.stdout == Some(Stdio::Piped)
    &&& !captured && client is Blocking ==> command.stdout is None
    &&& !captured && client is Async ==> command.stdout == Some(Stdio::Inherit)
}

/// The call runs one command, with streams of the caller's own where `close` says when they are
/// closed, and answers for its end: at once, or behind the closing of the streams.
pub open spec fn ends(
    launch: StepView,
    client: AnyClient,
    close: Option<Close>,
    outcome: Outcome,
) -> bool {
    let answer = outcome.answer(client.runtime(), true);
    let next = launch.next(Event::Finished(outcome));
    let closes = match close {
        None => false,
        Some(Close::Never) => false,
        Some(Close::OnSuccess) => outcome matches Outcome::Exited(exit) && exit.status.code == Some(
            0i32,
        ),
        Some(Close::OnExit) => outcome is Exited,
    };
    &&& closes ==> next == StepView::CloseIo { answer } && next.next(Event::IoClosed)
        == StepView::Done { answer }
    &&& !closes ==> next == StepView::Done { answer }
}

/// The call asks for `paths` and for those of the settings, and then runs its command without
/// streams of the caller's own. What it runs behind the words of the settings is `texts`.
pub open spec fn runs(
    step: StepView,
    client: AnyClient,
    captured: bool,
    told: Told,
    paths: Seq<Seq<char>>,
    texts: Seq<Seq<char>>,
    outcome: Outcome,
) -> bool {
    let launch = crate::laws::course(step, told.events);
    &&& asks(step, told.events, paths + crate::command::paths_in(client.runc().global()))
    &&& launch matches StepView::Launch { command, runtime, attached } && {
        &&& command_is(command, client, captured, told.answers.skip(paths.len() as int), texts)
        &&& runtime == client.runtime()
        &&& attached is None
    }
    &&& ends(launch, client, None, outcome)
}

/// The call asks for `paths` and for those of the settings, has the streams of the caller attached
/// to its command, and runs that very command. Where the streams cannot be attached it fails.
pub open spec fn runs_with_streams(
    step: StepView,
    client: AnyClient,
    close: Close,
    told: Told,
    paths: Seq<Seq<char>>,
    texts: Seq<Seq<char>>,
    e: std::io::Error,
    outcome: Outcome,
) -> bool {
    let attach = crate::laws::course(step, told.events);
    let launch = attach.next(Event::IoAttached(Ok(())));
    &&& asks(step, told.events, paths + crate::command::paths_in(client.runc().global()))
    &&& attach matches StepView::AttachIo { command, then: None, .. } && {
        &&& command_is(command, client, false, told.answers.skip(paths.len() as int), texts)
        &&& launch == StepView::Launch { command, runtime: client.runtime(), attached: Some(close) }
    }
    &&& attach.next(Event::IoAttached(Err(e))) == StepView::Done {
        answer: Err(ErrorView::UnavailableIO(e)),
    }
    &&& ends(launch, client, Some(close), outcome)
}

/// The plan is one of the client, with these paths and these texts.
spec fn planned(
    plan: PlanView,
    client: AnyClient,
    captured: bool,
    told: Told,
    paths: Seq<Seq<char>>,
    texts: Seq<Seq<char>>,
) -> bool {
    &&& plan.program == client.runc().command
    &&& plan.global == client.runc().global()
    &&& plan.runtime == client.runtime()
    &&& plan.capture == captured
    &&& crate::command::paths_in(plan.operation) + crate::command::paths_in(plan.lead) == paths
    &&& plan.texts(told.answers) == texts
    &&& told.answers_all(paths, client.runc())
}

proof fn lemma_asks(plan: PlanView, told: Told)
    requires
        crate::laws::resolve_to(told.events, told.answers),
        told.answers.len() == plan.paths().len(),
    ensures
        asks(plan.start(), told.events, plan.paths()),
        crate::laws::course(plan.start(), told.events) == plan.ready(told.answers),
{
    assert forall|k: int| 0 <= k < plan.paths().len() implies (#[trigger] crate::laws::course(
        plan.start(),
        told.events.take(k),
    ) matches StepView::Resolve { path, .. } && path == plan.paths()[k]) by {
        crate::laws::law_paths_first(plan, told.events.take(k), told.answers.take(k));
    }
    crate::laws::law_paths_first(plan, told.events, told.answers);
}

proof fn lemma_runs(
    plan: PlanView,
    client: AnyClient,
    captured: bool,
    told: Told,
    paths: Seq<Seq<char>>,
    texts: Seq<Seq<char>>,
    outcome: Outcome,
)
    requires
        planned(plan, client, captured, told, paths, texts),
        plan.io is None,
        !plan.again,
    ensures
        runs(plan.start(), client, captured, told, paths, texts, outcome),
{
    lemma_asks(plan, told);
    assert(plan.own_paths() == paths.len());
}

proof fn lemma_runs_with_streams(
    plan: PlanView,
    client: AnyClient,
    close: Close,
    told: Told,
    paths: Seq<Seq<char>>,
    texts: Seq<Seq<char>>,
    e: std::io::Error,
    outcome: Outcome,
)
    requires
        planned(plan, client, false, told, paths, texts),
        plan.io == Some(close),
        !plan.again,
    ensures
        runs_with_streams(plan.start(), client, close, told, paths, texts, e, outcome),
{
    lemma_asks(plan, told);
    assert(plan.own_paths() == paths.len());
}

proof fn lemma_literal_plan(
    plan: PlanView,
    client: AnyClient,
    captured: bool,
    told: Told,
    texts: Seq<Seq<char>>,
    outcome: Outcome,
)
    requires
        plan == (PlanView {
            capture: captured,
            ..client.runc().plan(client.runtime(), crate::command::literal(texts), None)
        }),
        told.answers_all(Seq::empty(), client.runc()),
    ensures
        runs(plan.start(), client, captured, told, Seq::empty(), texts, outcome),
{
    crate::command::lemma_literal_words(texts, told.answers);
    assert(crate::command::paths_in(plan.operation) + crate::command::paths_in(plan.lead)
        =~= Seq::<Seq<char>>::empty());
    assert(plan.texts(told.answers) =~= texts);
    lemma_runs(plan, client, captured, told, Seq::empty(), texts, outcome);
}

/// To start a container runc is run with `start` and the container.
pub proof fn law_start(client: AnyClient, id: &str, step: Step, told: Told, outcome: Outcome)
    requires
        match client {
            AnyClient::Blocking(client) => call_ensures(Client::start, (&client, id), step),
            AnyClient::Async(client) => call_ensures(AsyncClient::start, (&client, id), step),
        },
        told.answers_all(Seq::empty(), client.runc()),
    ensures
        runs(step@, client, false, told, Seq::empty(), seq!["start"@, id@], outcome),
{
    let texts = seq!["start"@, id@];
    let plan = client.runc().plan(client.runtime(), crate::command::literal(texts), None);
    assert(crate::operation::simple_operation("start"@, id@) =~= plan.operation);
    lemma_literal_plan(plan, client, false, told, texts, outcome);
}

/// To pause a container runc is run with `pause` and the container.
pub proof fn law_pause(client: AnyClient, id: &str, step: Step, told: Told, outcome: Outcome)
    requires
        match client {
            AnyClient::Blocking(client) => call_ensures(Client::pause, (&client, id), step),
            AnyClient::Async(client) => call_ensures(AsyncClient::pause, (&client, id), step),
        },
        told.answers_all(Seq::empty(), client.runc()),
    ensures
        runs(step@, client, false, told, Seq::empty(), seq!["pause"@, id@], outcome),
{
    let texts = seq!["pause"@, id@];
    let plan = client.runc().plan(client.runtime(), crate::command::literal(texts), None);
    assert(crate::operation::simple_operation("pause"@, id@) =~= plan.operation);
    lemma_literal_plan(plan, client, false, told, texts, outcome);
}

/// To resume a container runc is run with `resume` and the container.
pub proof fn law_resume(client: AnyClient, id: &str, step: Step, told: Told, outcome: Outcome)
    requires
        match client {
            AnyClient::Blocking(client) => call_ensures(Client::resume, (&client, id), step),
            AnyClient::Async(client) => call_ensures(AsyncClient::resume, (&client, id), step),
        },
        told.answers_all(Seq::empty(), client.runc()),
    ensures
        runs(step@, client, false, told, Seq::empty(), seq!["resume"@, id@], outcome),
{
    let texts = seq!["resume"@, id@];
    let plan = client.runc().plan(client.runtime(), crate::command::literal(texts), None);
    assert(crate::operation::simple_operation("resume"@, id@) =~= plan.operation);
    lemma_literal_plan(plan, client, false, told, texts, outcome);
}

/// For the state of a container runc is run with `state` and the container, and its output is
/// captured.
pub proof fn law_state(client: AnyClient, id: &str, step: Step, told: Told, outcome: Outcome)
    requires
        match client {
            AnyClient::Blocking(client) => call_ensures(Client::state, (&client, id), step),
            AnyClient::Async(client) => call_ensures(AsyncClient::state, (&client, id), step),
        },
        told.answers_all(Seq::empty(), client.runc()),
    ensures
        runs(step@, client, true, told, Seq::empty(), seq!["state"@, id@], outcome),
{
    let texts = seq!["state"@, id@];
    let plan = client.runc().read_plan(client.runtime(), crate::command::literal(texts));
    assert(crate::operation::simple_operation("state"@, id@) =~= plan.operation);
    lemma_literal_plan(plan, client, true, told, texts, outcome);
}

/// To list containers runc is run with `list --format-json`, and its output is captured.
pub proof fn law_list(client: AnyClient, step: Step, told: Told, outcome: Outcome)
    requires
        match client {
            AnyClient::Blocking(client) => call_ensures(Client::list, (&client,), step),
            AnyClient::Async(client) => call_ensures(AsyncClient::list, (&client,), step),
        },
        told.answers_all(Seq::empty(), client.runc()),
    ensures
        runs(step@, client, true, told, Seq::empty(), seq!["list"@, "--format-json"@], outcome),
{
    let texts = seq!["list"@, "--format-json"@];
    let plan = client.runc().read_plan(client.runtime(), crate::command::literal(texts));
    assert(crate::operation::list_operation() =~= plan.operation);
    lemma_literal_plan(plan, client, true, told, texts, outcome);
}

/// For the processes of a container runc is run with `ps --format-json` and the container, and its
/// output is captured.
pub proof fn law_ps(client: AsyncClient, id: &str, step: Step, told: Told, outcome: Outcome)
    requires
        call_ensures(AsyncClient::ps, (&client, id), step),
        told.answers_all(Seq::empty(), client@),
    ensures
        runs(
            step@,
            AnyClient::Async(client),
            true,
            told,
            Seq::empty(),
            seq!["ps"@, "--format-json"@, id@],
            outcome,
        ),
{
    let texts = seq!["ps"@, "--format-json"@, id@];
    let plan = client@.read_plan(Runtime::Async, crate::command::literal(texts));
    assert(crate::operation::ps_operation(id@) =~= plan.operation);
    lemma_literal_plan(plan, AnyClient::Async(client), true, told, texts, outcome);
}

/// For the statistics of a container runc is run with `events --stats` and the container, and its
/// output is captured.
pub proof fn law_stats(client: AsyncClient, id: &str, step: Step, told: Told, outcome: Outcome)
    requires
        call_ensures(AsyncClient::stats, (&client, id), step),
        told.answers_all(Seq::empty(), client@),
    ensures
        runs(
            step@,
            AnyClient::Async(client),
            true,
            told,
            Seq::empty(),
            seq!["events"@, "--stats"@, id@],
            outcome,
        ),
{
    let texts = seq!["events"@, "--stats"@, id@];
    let plan = client@.read_plan(Runtime::Async, crate::command::literal(texts));
    assert(crate::operation::stats_operation(id@) =~= plan.operation);
    lemma_literal_plan(plan, AnyClient::Async(client), true, told, texts, outcome);
}

/// To signal a container runc is run with `kill`, with `--all` exactly where every process is to
/// get the signal, whatever the signal is, then the container and the numeral of the signal.
pub proof fn law_kill(
    client: AnyClient,
    id: &str,
    sig: u32,
    opts: Option<&KillOpts>,
    step: Step,
    told: Told,
    outcome: Outcome,
)
    requires
        match client {
            AnyClient::Blocking(client) => call_ensures(
                Client::kill,
                (&client, id, sig, opts),
                step,
            ),
            AnyClient::Async(client) => call_ensures(
                AsyncClient::kill,
                (&client, id, sig, opts),
                step,
            ),
        },
        told.answers_all(Seq::empty(), client.runc()),
    ensures
        (opts matches Some(opts) && opts.all) ==> runs(
            step@,
            client,
            false,
            told,
            Seq::empty(),
            seq!["kill"@, "--all"@, id@, crate::text::decimal(sig as nat)],
            outcome,
        ),
        !(opts matches Some(opts) && opts.all) ==> runs(
            step@,
            client,
            false,
            told,
            Seq::empty(),
            seq!["kill"@, id@, crate::text::decimal(sig as nat)],
            outcome,
        ),
{
    let numeral = crate::text::decimal(sig as nat);
    let texts = if opts matches Some(opts) && opts.all {
        seq!["kill"@, "--all"@, id@, numeral]
    } else {
        seq!["kill"@, id@, numeral]
    };
    let plan = client.runc().plan(client.runtime(), crate::command::literal(texts), None);
    assert(crate::operation::kill_operation(id@, sig, crate::operation::kill_flags(opts))
        =~= plan.operation);
    lemma_literal_plan(plan, client, false, told, texts, outcome);
}

/// To delete a container runc is run with `delete`, with `--force` exactly where that is asked
/// for, and the container.
pub proof fn law_delete(
    client: AnyClient,
    id: &str,
    opts: Option<&DeleteOpts>,
    step: Step,
    told: Told,
    outcome: Outcome,
)
    requires
        match client {
            AnyClient::Blocking(client) => call_ensures(Client::delete, (&client, id, opts), step),
            AnyClient::Async(client) => call_ensures(
                AsyncClient::delete,
                (&client, id, opts),
                step,
            ),
        },
        told.answers_all(Seq::empty(), client.runc()),
    ensures
        (opts matches Some(opts) && opts.force) ==> runs(
            step@,
            client,
            false,
            told,
            Seq::empty(),
            seq!["delete"@, "--force"@, id@],
            outcome,
        ),
        !(opts matches Some(opts) && opts.force) ==> runs(
            step@,
            client,
            false,
            told,
            Seq::empty(),
            seq!["delete"@, id@],
            outcome,
        ),
{
    let texts = if opts matches Some(opts) && opts.force {
        seq!["delete"@, "--force"@, id@]
    } else {
        seq!["delete"@, id@]
    };
    let plan = client.runc().plan(client.runtime(), crate::command::literal(texts), None);
    assert(crate::operation::delete_operation(id@, crate::operation::delete_flags(opts))
        =~= plan.operation);
    lemma_literal_plan(plan, client, false, told, texts, outcome);
}

/// Arguments that a client is given are run as they are, behind the words of the settings.
pub proof fn law_command(
    client: AnyClient,
    args: &[String],
    plan: Plan,
    answers: &Vec<String>,
    command: CommandLine,
)
    requires
        match client {
            AnyClient::Blocking(client) => call_ensures(Client::command, (&client, args), plan),
            AnyClient::Async(client) => call_ensures(AsyncClient::command, (&client, args), plan),
        },
        call_ensures(Plan::command_line, (&plan, answers), command),
    ensures
        plan@.paths() == crate::command::paths_in(client.runc().global()),
        command_is(command@, client, false, answers.deep_view(), args.deep_view()),
{
    crate::laws::law_given_args_stand(
        client.runc(),
        client.runtime(),
        args.deep_view(),
        answers.deep_view(),
    );
}

/// A plan asks for its paths in their order, and for no more than it has.
pub proof fn law_next_path(plan: &Plan, answered: usize, path: Option<String>)
    requires
        call_ensures(Plan::next_path, (plan, answered), path),
    ensures
        path is Some <==> answered < plan@.paths().len(),
        path matches Some(path) ==> path@ == plan@.paths()[answered as int],
        plan@.paths() == crate::command::paths_in(plan@.operation) + crate::command::paths_in(
            plan@.lead,
        ) + crate::command::paths_in(plan@.global),
{
}

/// The flags of optional options.
pub open spec fn said(opts: Option<&CreateOpts>) -> Seq<WordView> {
    if opts is Some {
        opts->Some_0.words()
    } else {
        Seq::empty()
    }
}

/// The flags of optional options.
pub open spec fn said_of_process(opts: Option<&ExecOpts>) -> Seq<WordView> {
    if opts is Some {
        opts->Some_0.words()
    } else {
        Seq::empty()
    }
}

/// To create a container runc is run with `create --bundle`, the bundle, the flags of the options
/// and the container. The bundle is made absolute before the paths of the options. Streams of the
/// caller's own are attached where it brings them; the blocking client closes them once the
/// container was created, the async client once runc has ended.
pub proof fn law_create(
    client: AnyClient,
    id: &str,
    bundle: &str,
    opts: Option<&CreateOpts>,
    step: Step,
    told: Told,
    e: std::io::Error,
    outcome: Outcome,
)
    requires
        match client {
            AnyClient::Blocking(client) => call_ensures(
                Client::create,
                (&client, id, bundle, opts),
                step,
            ),
            AnyClient::Async(client) => call_ensures(
                AsyncClient::create,
                (&client, id, bundle, opts),
                step,
            ),
        },
        told.answers_all(seq![bundle@] + crate::command::paths_in(said(opts)), client.runc()),
    ensures
        ({
            let paths = seq![bundle@] + crate::command::paths_in(said(opts));
            let texts = seq!["create"@, "--bundle"@, told.answers[0]] + crate::command::filled(
                said(opts),
                told.answers.skip(1),
            ) + seq![id@];
            let close = if client is Blocking {
                Close::OnSuccess
            } else {
                Close::OnExit
            };
            if opts matches Some(opts) && opts.io {
                runs_with_streams(step@, client, close, told, paths, texts, e, outcome)
            } else {
                runs(step@, client, false, told, paths, texts, outcome)
            }
        }),
{
    let flags = said(opts);
    let paths = seq![bundle@] + crate::command::paths_in(flags);
    let texts = seq!["create"@, "--bundle"@, told.answers[0]] + crate::command::filled(
        flags,
        told.answers.skip(1),
    ) + seq![id@];
    let close = if client is Blocking {
        Close::OnSuccess
    } else {
        Close::OnExit
    };
    let io = if opts matches Some(opts) && opts.io {
        Some(close)
    } else {
        None
    };
    let operation = crate::operation::create_operation(id@, bundle@, flags);
    let plan = client.runc().plan(client.runtime(), operation, io);
    assert(flags == crate::operation::create_flags(opts));
    crate::laws::law_create_names_its_bundle(id@, bundle@, flags, told.answers);
    assert(crate::command::paths_in(operation) + crate::command::paths_in(plan.lead) =~= paths);
    assert(plan.texts(told.answers) =~= texts);
    assert(step@ == plan.start());
    if opts matches Some(opts) && opts.io {
        lemma_runs_with_streams(plan, client, close, told, paths, texts, e, outcome);
    } else {
        lemma_runs(plan, client, false, told, paths, texts, outcome);
    }
}

proof fn lemma_run_plan(
    runc: RuncView,
    runtime: Runtime,
    io: Option<Close>,
    id: Seq<char>,
    bundle: Seq<char>,
    flags: Seq<WordView>,
    told: Told,
) -> (plan: PlanView)
    requires
        told.answers_all(crate::command::paths_in(flags).push(bundle), runc),
    ensures
        plan == (PlanView {
            lead: crate::operation::bundle_lead("run"@, bundle),
            ..runc.plan(runtime, crate::operation::flags_and_id(id, flags), io)
        }),
        crate::command::paths_in(plan.operation) + crate::command::paths_in(plan.lead)
            == crate::command::paths_in(flags).push(bundle),
        plan.texts(told.answers) == seq![
            "run"@,
            "--bundle"@,
            told.answers[crate::command::paths_in(flags).len() as int],
        ] + crate::command::filled(flags, told.answers) + seq![id],
{
    let plan = PlanView {
        lead: crate::operation::bundle_lead("run"@, bundle),
        ..runc.plan(runtime, crate::operation::flags_and_id(id, flags), io)
    };
    let options = crate::command::paths_in(flags);
    crate::laws::law_run_names_its_bundle(runc, runtime, io, id, bundle, flags, told.answers);
    crate::laws::lemma_bundle_lead("run"@, bundle, told.answers);
    crate::laws::lemma_flags_and_id(id, flags, told.answers);
    assert(options + seq![bundle] =~= options.push(bundle));
    assert(plan.texts(told.answers) =~= seq![
        "run"@,
        "--bundle"@,
        told.answers[options.len() as int],
    ] + crate::command::filled(flags, told.answers) + seq![id]);
    plan
}

/// On the async client runc is run with `run --bundle`, the bundle, the flags of the options and
/// the container. The paths of the options are made absolute before the bundle. Streams of the
/// caller's own are not heeded.
pub proof fn law_run_async(
    client: AsyncClient,
    id: &str,
    bundle: &str,
    opts: Option<&CreateOpts>,
    step: Step,
    told: Told,
    outcome: Outcome,
)
    requires
        call_ensures(AsyncClient::run, (&client, id, bundle, opts), step),
        told.answers_all(crate::command::paths_in(said(opts)).push(bundle@), client@),
    ensures
        ({
            let options = crate::command::paths_in(said(opts));
            let texts = seq!["run"@, "--bundle"@, told.answers[options.len() as int]]
                + crate::command::filled(said(opts), told.answers) + seq![id@];
            runs(
                step@,
                AnyClient::Async(client),
                false,
                told,
                options.push(bundle@),
                texts,
                outcome,
            )
        }),
{
    let flags = said(opts);
    assert(flags == crate::operation::create_flags(opts));
    let plan = lemma_run_plan(client@, Runtime::Async, None, id@, bundle@, flags, told);
    lemma_runs(
        plan,
        AnyClient::Async(client),
        false,
        told,
        crate::command::paths_in(flags).push(bundle@),
        plan.texts(told.answers),
        outcome,
    );
}

/// On the blocking client runc is run with `run --bundle`, the bundle, the flags of the options and
/// the container. The paths of the options are made absolute before the bundle. Streams of the
/// caller's own are attached to a command that is dropped; the paths of the settings are asked for
/// once more, and the command that is run has the same words.
pub proof fn law_run(
    client: Client,
    id: &str,
    bundle: &str,
    opts: Option<&CreateOpts>,
    step: Step,
    told: Told,
    again: Told,
    e: std::io::Error,
    outcome: Outcome,
)
    requires
        call_ensures(Client::run, (&client, id, bundle, opts), step),
        told.answers_all(crate::command::paths_in(said(opts)).push(bundle@), client@),
        again.answers_all(Seq::empty(), client@),
    ensures
        ({
            let any = AnyClient::Blocking(client);
            let options = crate::command::paths_in(said(opts));
            let paths = options.push(bundle@);
            let texts = seq!["run"@, "--bundle"@, told.answers[options.len() as int]]
                + crate::command::filled(said(opts), told.answers) + seq![id@];
            let first = crate::laws::course(step@, told.events);
            &&& asks(step@, told.events, paths + crate::command::paths_in(client@.global()))
            &&& if opts matches Some(opts) && opts.io {
                &&& first matches StepView::AttachIo { command, .. } && command_is(
                    command,
                    any,
                    false,
                    told.answers.skip(paths.len() as int),
                    texts,
                )
                &&& first.next(Event::IoAttached(Err(e))) == StepView::Done {
                    answer: Err(ErrorView::UnavailableIO(e)),
                }
                &&& runs(
                    first.next(Event::IoAttached(Ok(()))),
                    any,
                    false,
                    again,
                    Seq::empty(),
                    texts,
                    outcome,
                )
            } else {
                runs(first, any, false, again, Seq::empty(), texts, outcome)
            }
        }),
{
    let any = AnyClient::Blocking(client);
    let flags = said(opts);
    assert(flags == crate::operation::create_flags(opts));
    let io = if opts matches Some(opts) && opts.io {
        Some(Close::Never)
    } else {
        None
    };
    let base = lemma_run_plan(client@, Runtime::Blocking, io, id@, bundle@, flags, told);
    let plan = PlanView { again: true, ..base };
    let texts = base.texts(told.answers);
    assert(plan.texts(told.answers) == texts);
    lemma_asks(plan, told);
    let second = plan.second(told.answers);
    crate::laws::law_second_plan(plan, told.events, told.answers, again.answers);
    assert(second == client@.plan(Runtime::Blocking, crate::command::literal(texts), None));
    lemma_literal_plan(second, any, false, again, texts, outcome);
    assert(plan.own_paths() == crate::command::paths_in(flags).push(bundle@).len());
}

/// A call that writes a file names it, writes `text` to it, and goes on as `rest`. Where choosing
/// the file or writing it fails, the call ends with the error.
pub open spec fn writes_then(
    step: StepView,
    file: String,
    text: Seq<char>,
    rest: StepView,
    unnamed: Error,
    e: std::io::Error,
) -> bool {
    let write = step.next(Event::SpecNamed(Ok(file)));
    &&& write matches StepView::WriteSpec { file: name, text: written, .. } && name == file@
        && written == text
    &&& write.next(Event::SpecWritten(Ok(()))) == rest
    &&& step.next(Event::SpecNamed(Err(unnamed))) == StepView::Done { answer: Err(unnamed@) }
    &&& write.next(Event::SpecWritten(Err(e))) == StepView::Done {
        answer: Err(ErrorView::SpecFileCreationFailed(e)),
    }
}

/// For an additional process the description is written to a file, and runc is run with
/// `exec process`, that file, the flags of the options and the container. Streams of the caller's
/// own are attached where it brings them, and never closed.
pub proof fn law_exec_json(
    client: Client,
    id: &str,
    text: String,
    opts: Option<&ExecOpts>,
    step: Step,
    file: String,
    told: Told,
    unnamed: Error,
    e: std::io::Error,
    outcome: Outcome,
)
    requires
        call_ensures(Client::exec_json, (&client, id, Ok(text), opts), step),
        told.answers_all(crate::command::paths_in(said_of_process(opts)), client@),
    ensures
        ({
            let any = AnyClient::Blocking(client);
            let flags = said_of_process(opts);
            let paths = crate::command::paths_in(flags);
            let texts = seq!["exec"@, "process"@, file@] + crate::command::filled(
                flags,
                told.answers,
            ) + seq![id@];
            let rest = step@.next(Event::SpecNamed(Ok(file))).next(Event::SpecWritten(Ok(())));
            &&& writes_then(step@, file, text@, rest, unnamed, e)
            &&& if opts matches Some(opts) && opts.io {
                runs_with_streams(rest, any, Close::Never, told, paths, texts, e, outcome)
            } else {
                runs(rest, any, false, told, paths, texts, outcome)
            }
        }),
{
    lemma_exec(client, id@, text@, opts, step@, file, told, unnamed, e, outcome);
}

/// Where the description of an additional process is made from the process itself, it is one that
/// stands for that process; what follows is the same.
pub proof fn law_exec(
    client: Client,
    id: &str,
    spec: &Process,
    opts: Option<&ExecOpts>,
    step: Step,
    file: String,
    told: Told,
    unnamed: Error,
    e: std::io::Error,
    outcome: Outcome,
)
    requires
        call_ensures(Client::exec, (&client, id, spec, opts), step),
        told.answers_all(crate::command::paths_in(said_of_process(opts)), client@),
    ensures
        ({
            let any = AnyClient::Blocking(client);
            let flags = said_of_process(opts);
            let paths = crate::command::paths_in(flags);
            let texts = seq!["exec"@, "process"@, file@] + crate::command::filled(
                flags,
                told.answers,
            ) + seq![id@];
            let write = step@.next(Event::SpecNamed(Ok(file)));
            let rest = write.next(Event::SpecWritten(Ok(())));
            match write {
                StepView::WriteSpec { text, .. } => {
                    &&& crate::json::is_process_json(*spec, text)
                    &&& writes_then(step@, file, text, rest, unnamed, e)
                    &&& if opts matches Some(opts) && opts.io {
                        runs_with_streams(rest, any, Close::Never, told, paths, texts, e, outcome)
                    } else {
                        runs(rest, any, false, told, paths, texts, outcome)
                    }
                },
                StepView::Done { answer } => {
                    &&& answer is Err && answer->Err_0 is JsonDeserializationFailed
                    &&& forall|text: Seq<char>|
                        !(#[trigger] crate::json::is_process_json(*spec, text))
                },
                _ => false,
            }
        }),
{
    if let StepView::NameSpec { json: Ok(text), .. } = step@ {
        lemma_exec(client, id@, text, opts, step@, file, told, unnamed, e, outcome);
    }
}

proof fn lemma_exec(
    client: Client,
    id: Seq<char>,
    text: Seq<char>,
    opts: Option<&ExecOpts>,
    step: StepView,
    file: String,
    told: Told,
    unnamed: Error,
    e: std::io::Error,
    outcome: Outcome,
)
    requires
        step == (StepView::NameSpec {
            json: Ok(text),
            head: crate::operation::exec_head(),
            plan: client@.plan(
                Runtime::Blocking,
                crate::operation::flags_and_id(id, crate::operation::exec_flags(opts)),
                crate::client::exec_io(opts),
            ),
        }),
        told.answers_all(crate::command::paths_in(said_of_process(opts)), client@),
    ensures
        ({
            let any = AnyClient::Blocking(client);
            let flags = said_of_process(opts);
            let paths = crate::command::paths_in(flags);
            let texts = seq!["exec"@, "process"@, file@] + crate::command::filled(
                flags,
                told.answers,
            ) + seq![id];
            let rest = step.next(Event::SpecNamed(Ok(file))).next(Event::SpecWritten(Ok(())));
            &&& writes_then(step, file, text, rest, unnamed, e)
            &&& if opts matches Some(opts) && opts.io {
                runs_with_streams(rest, any, Close::Never, told, paths, texts, e, outcome)
            } else {
                runs(rest, any, false, told, paths, texts, outcome)
            }
        }),
{
    let any = AnyClient::Blocking(client);
    let flags = said_of_process(opts);
    assert(flags == crate::operation::exec_flags(opts));
    let paths = crate::command::paths_in(flags);
    let head = seq!["exec"@, "process"@, file@];
    let tail = crate::operation::flags_and_id(id, flags);
    let texts = head + crate::command::filled(flags, told.answers) + seq![id];
    let plan = client@.plan(
        Runtime::Blocking,
        crate::operation::flags_and_id(id, crate::operation::exec_flags(opts)),
        crate::client::exec_io(opts),
    ).with_spec_file(crate::operation::exec_head(), file@);
    assert(plan.operation =~= crate::command::literal(head) + tail);
    crate::command::lemma_literal_words(head, told.answers);
    crate::laws::lemma_flags_and_id(id, flags, told.answers);
    crate::command::lemma_paths_in_join(crate::command::literal(head), tail);
    assert(crate::command::paths_in(plan.operation) =~= paths);
    crate::command::lemma_filled_join(crate::command::literal(head), tail, told.answers);
    assert(told.answers.skip(0) =~= told.answers);
    assert(crate::command::paths_in(plan.operation) + crate::command::paths_in(plan.lead)
        =~= paths);
    assert(plan.texts(told.answers) =~= texts);
    if opts matches Some(opts) && opts.io {
        lemma_runs_with_streams(plan, any, Close::Never, told, paths, texts, e, outcome);
    } else {
        lemma_runs(plan, any, false, told, paths, texts, outcome);
    }
}

proof fn lemma_update(
    client: AnyClient,
    id: Seq<char>,
    text: Seq<char>,
    step: StepView,
    file: String,
    told: Told,
    unnamed: Error,
    e: std::io::Error,
    outcome: Outcome,
)
    requires
        step == (StepView::NameSpec {
            json: Ok(text),
            head: crate::operation::update_head(),
            plan: client.runc().plan(client.runtime(), crate::operation::update_tail(id), None),
        }),
        told.answers_all(Seq::empty(), client.runc()),
    ensures
        ({
            let texts = seq!["update"@, "--resources"@, file@, id];
            let rest = step.next(Event::SpecNamed(Ok(file))).next(Event::SpecWritten(Ok(())));
            &&& writes_then(step, file, text, rest, unnamed, e)
            &&& runs(rest, client, false, told, Seq::empty(), texts, outcome)
        }),
{
    let texts = seq!["update"@, "--resources"@, file@, id];
    let plan = client.runc().plan(
        client.runtime(),
        crate::operation::update_tail(id),
        None,
    ).with_spec_file(crate::operation::update_head(), file@);
    assert(plan.operation =~= crate::command::literal(texts));
    lemma_literal_plan(plan, client, false, told, texts, outcome);
}

/// To update a container the resources are written to a file, and runc is run with
/// `update --resources`, that file and the container.
pub proof fn law_update_json(
    client: AnyClient,
    id: &str,
    text: String,
    step: Step,
    file: String,
    told: Told,
    unnamed: Error,
    e: std::io::Error,
    outcome: Outcome,
)
    requires
        match client {
            AnyClient::Blocking(client) => call_ensures(
                Client::update_json,
                (&client, id, Ok(text)),
                step,
            ),
            AnyClient::Async(client) => call_ensures(
                AsyncClient::update_json,
                (&client, id, Ok(text)),
                step,
            ),
        },
        told.answers_all(Seq::empty(), client.runc()),
    ensures
        ({
            let texts = seq!["update"@, "--resources"@, file@, id@];
            let rest = step@.next(Event::SpecNamed(Ok(file))).next(Event::SpecWritten(Ok(())));
            &&& writes_then(step@, file, text@, rest, unnamed, e)
            &&& runs(rest, client, false, told, Seq::empty(), texts, outcome)
        }),
{
    lemma_update(client, id@, text@, step@, file, told, unnamed, e, outcome);
}

/// Where the description of resources is made from the resources themselves, it is one that stands
/// for them; what follows is the same.
pub proof fn law_update(
    client: AnyClient,
    id: &str,
    resources: &Linux,
    step: Step,
    file: String,
    told: Told,
    unnamed: Error,
    e: std::io::Error,
    outcome: Outcome,
)
    requires
        match client {
            AnyClient::Blocking(client) => call_ensures(
                Client::update,
                (&client, id, resources),
                step,
            ),
            AnyClient::Async(client) => call_ensures(
                AsyncClient::update,
                (&client, id, resources),
                step,
            ),
        },
        told.answers_all(Seq::empty(), client.runc()),
    ensures
        ({
            let texts = seq!["update"@, "--resources"@, file@, id@];
            let write = step@.next(Event::SpecNamed(Ok(file)));
            let rest = write.next(Event::SpecWritten(Ok(())));
            match write {
                StepView::WriteSpec { text, .. } => {
                    &&& crate::json::is_linux_json(*resources, text)
                    &&& writes_then(step@, file, text, rest, unnamed, e)
                    &&& runs(rest, client, false, told, Seq::empty(), texts, outcome)
                },
                StepView::Done { answer } => {
                    &&& answer is Err && answer->Err_0 is JsonDeserializationFailed
                    &&& forall|text: Seq<char>|
                        !(#[trigger] crate::json::is_linux_json(*resources, text))
                },
                _ => false,
            }
        }),
{
    if let StepView::NameSpec { json: Ok(text), .. } = step@ {
        lemma_update(client, id@, text, step@, file, told, unnamed, e, outcome);
    }
}

/// Where the description of a process or of resources could not be made, the call ends with that
/// error once a file was chosen, and writes nothing.
pub proof fn law_no_description_no_call(
    client: Client,
    other: AsyncClient,
    id: &str,
    bad: JsonError,
    opts: Option<&ExecOpts>,
    step: Step,
    file: String,
)
    requires
        call_ensures(Client::exec_json, (&client, id, Err(bad), opts), step) || call_ensures(
            Client::update_json,
            (&client, id, Err(bad)),
            step,
        ) || call_ensures(AsyncClient::update_json, (&other, id, Err(bad)), step),
    ensures
        step@.next(Event::SpecNamed(Ok(file))) == (StepView::Done {
            answer: Err(ErrorView::JsonDeserializationFailed(bad)),
        }),
{
}

/// What is not offered is refused under its own name.
pub proof fn law_not_offered(
    client: &Client,
    other: &AsyncClient,
    args: &[String],
    id: &str,
    interval: &Duration,
    spec: &Process,
    opts: Option<&ExecOpts>,
    plan: Result<Plan, Error>,
    done: Result<(), Error>,
)
    ensures
        call_ensures(Client::command_unsupported, (client, args), plan) ==> plan is Err
            && plan->Err_0@ == ErrorView::Unimplemented("command"@),
        call_ensures(Client::checkpoint, (client,), done) || call_ensures(
            AsyncClient::checkpoint,
            (other,),
            done,
        ) ==> done is Err && done->Err_0@ == ErrorView::Unimplemented("checkpoint"@),
        call_ensures(Client::restore, (client,), done) || call_ensures(
            AsyncClient::restore,
            (other,),
            done,
        ) ==> done is Err && done->Err_0@ == ErrorView::Unimplemented("restore"@),
        call_ensures(AsyncClient::events, (other, id, interval), done) ==> done is Err
            && done->Err_0@ == ErrorView::Unimplemented("events"@),
        call_ensures(AsyncClient::exec, (other, id, spec, opts), done) ==> done is Err
            && done->Err_0@ == ErrorView::Unimplemented("exec"@),
{
}

/// A call moves on as its steps say, and a report on another kind of step changes nothing.
pub proof fn law_advance(step: Step, event: Event, next: Step)
    requires
        call_ensures(Step::advance, (step, event), next),
    ensures
        next@ == step@.next(event),
        !(step is NameSpec && event is SpecNamed) && !(step is WriteSpec && event is SpecWritten)
            && !(step is Resolve && event is PathResolved) && !(step is AttachIo
            && event is IoAttached) && !(step is Launch && event is Finished) && !(step is CloseIo
            && event is IoClosed) ==> next@ == step@,
{
}

/// A path that cannot be made absolute ends the call with the error that was reported.
pub proof fn law_bad_path(path: Seq<char>, plan: PlanView, answers: Seq<Seq<char>>, e: Error)
    ensures
        (StepView::Resolve { path, plan, answers }).next(Event::PathResolved(Err(e)))
            == (StepView::Done { answer: Err(e@) }),
{
}

} // verus!
