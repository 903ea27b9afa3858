//! What holds of calls as a whole.

use vstd::prelude::*;

pub mod answers;
pub mod calls;
pub mod settings;
pub mod words;

use crate::command::{Close, CommandView, PlanView, Runtime, Stdio, WordView};
use crate::config::{ConfigView, RuncView};
use crate::error::ErrorView;
use crate::exit::{AnswerView, Exit, Outcome};
use crate::options::{CreateOpts, ExecOpts};
use crate::step::{Event, StepView};

verus! {

/// The step that a call comes to from `step` when its steps go as `events` say.
pub open spec fn course(step: StepView, events: Seq<Event>) -> StepView
    decreases events.len(),
{
    if events.len() == 0 {
        step
    } else {
        course(step, events.drop_last()).next(events.last())
    }
}

/// Each of `events` reports on the step that is due when it comes.
pub open spec fn reports(step: StepView, events: Seq<Event>) -> bool {
    forall|i: int|
        0 <= i < events.len() ==> course(step, events.take(i)).accepts(#[trigger] events[i])
}

/// How many steps the second time of a plan can add.
pub open spec fn second_steps(plan: PlanView) -> int {
    if plan.again {
        1int + crate::command::paths_in(plan.global).len()
    } else {
        0
    }
}

/// How many more steps a call can take.
pub open spec fn steps_left(step: StepView) -> int {
    match step {
        StepView::NameSpec { head, plan, .. } => 5int + crate::command::paths_in(head).len()
            + plan.paths().len() + second_steps(plan),
        StepView::WriteSpec { plan, .. } => 4int + plan.paths().len() + second_steps(plan),
        StepView::Resolve { plan, answers, .. } => if answers.len() < plan.paths().len() {
            3int + plan.paths().len() - answers.len() + second_steps(plan)
        } else {
            4int + second_steps(plan)
        },
        StepView::AttachIo { then: Some(plan), .. } => 4int + plan.paths().len() + second_steps(
            plan,
        ),
        StepView::AttachIo { then: None, .. } => 3,
        StepView::Launch { .. } => 2,
        StepView::CloseIo { .. } => 1,
        StepView::Done { .. } => 0,
    }
}

proof fn lemma_second_paths(plan: PlanView, answers: Seq<Seq<char>>)
    ensures
        plan.second(answers).paths() == crate::command::paths_in(plan.global),
{
    crate::command::lemma_literal_words(plan.texts(answers), answers);
    assert(plan.second(answers).paths() =~= crate::command::paths_in(plan.global));
}

proof fn lemma_resolving_steps(plan: PlanView, answers: Seq<Seq<char>>)
    ensures
        0 <= steps_left(plan.resolving(answers)),
        answers.len() < plan.paths().len() ==> steps_left(plan.resolving(answers)) == 3
            + plan.paths().len() - answers.len() + second_steps(plan),
        answers.len() >= plan.paths().len() ==> steps_left(plan.resolving(answers)) <= 3
            + second_steps(plan),
{
    lemma_second_paths(plan, answers);
}

/// Every report brings a call nearer to its end.
pub proof fn law_every_report_counts(step: StepView, event: Event)
    requires
        step.accepts(event),
    ensures
        0 <= steps_left(step.next(event)) < steps_left(step),
{
    match step {
        StepView::NameSpec { head, plan, .. } => {
            if let Event::SpecNamed(Ok(file)) = event {
                let named = head.push(WordView::Text(file@));
                assert(named.drop_last() =~= head);
                crate::command::lemma_paths_in_join(named, plan.operation);
            }
        },
        StepView::WriteSpec { plan, .. } => {
            lemma_resolving_steps(plan, Seq::empty());
        },
        StepView::Resolve { plan, answers, .. } => {
            if let Event::PathResolved(Ok(path)) = event {
                lemma_resolving_steps(plan, answers.push(path@));
            }
        },
        StepView::AttachIo { then: Some(plan), .. } => {
            lemma_resolving_steps(plan, Seq::empty());
        },
        _ => {},
    }
}

/// A call ends: it takes no more reports than it had steps left.
pub proof fn law_calls_end(step: StepView, events: Seq<Event>)
    requires
        reports(step, events),
    ensures
        events.len() + steps_left(course(step, events)) <= steps_left(step),
        0 <= steps_left(course(step, events)),
    decreases events.len(),
{
    if events.len() > 0 {
        let before = events.drop_last();
        assert forall|i: int| 0 <= i < before.len() implies course(step, before.take(i)).accepts(
            #[trigger] before[i],
        ) by {
            assert(before.take(i) =~= events.take(i));
            assert(before[i] == events[i]);
        }
        law_calls_end(step, before);
        assert(events.take(events.len() - 1) =~= before);
        assert(course(step, before).accepts(events[events.len() - 1]));
        law_every_report_counts(course(step, before), events.last());
    }
}

/// A call that is over stays over: its answer never changes.
pub proof fn law_answers_stand(answer: AnswerView, event: Event)
    ensures
        (StepView::Done { answer }).next(event) == (StepView::Done { answer }),
        !(StepView::Done { answer }).accepts(event),
{
}

/// `events` give the absolute forms `answers`, one after the other.
pub open spec fn resolve_to(events: Seq<Event>, answers: Seq<Seq<char>>) -> bool {
    &&& events.len() == answers.len()
    &&& forall|i: int|
        0 <= i < events.len() ==> (#[trigger] events[i] matches Event::PathResolved(Ok(path))
            && path@ == answers[i])
}

/// A call asks for its paths one after the other, and for nothing else; with all of them answered
/// it is ready to run.
pub proof fn law_paths_first(plan: PlanView, events: Seq<Event>, answers: Seq<Seq<char>>)
    requires
        resolve_to(events, answers),
        answers.len() <= plan.paths().len(),
    ensures
        course(plan.start(), events) == plan.resolving(answers),
        reports(plan.start(), events),
    decreases events.len(),
{
    if events.len() > 0 {
        let before = events.drop_last();
        let known = answers.drop_last();
        assert forall|i: int| 0 <= i < before.len() implies (
        #[trigger] before[i] matches Event::PathResolved(Ok(path)) && path@ == known[i]) by {
            assert(before[i] == events[i]);
        }
        law_paths_first(plan, before, known);
        assert(events.last() == events[events.len() - 1]);
        assert(known.push(answers.last()) =~= answers);
        assert forall|i: int| 0 <= i < events.len() implies course(
            plan.start(),
            events.take(i),
        ).accepts(#[trigger] events[i]) by {
            if i < before.len() {
                assert(before.take(i) =~= events.take(i));
                assert(before[i] == events[i]);
            } else {
                assert(events.take(i) =~= before);
            }
        }
    } else {
        assert(answers =~= Seq::empty());
    }
}

/// The first path that cannot be made absolute ends the call with its error, before any stream is
/// attached or process started.
pub proof fn law_first_bad_path_decides(
    plan: PlanView,
    events: Seq<Event>,
    answers: Seq<Seq<char>>,
    bad: Event,
)
    requires
        resolve_to(events, answers),
        answers.len() < plan.paths().len(),
        bad matches Event::PathResolved(Err(_)),
    ensures
        course(plan.start(), events.push(bad)) == (StepView::Done {
            answer: Err(bad->PathResolved_0->Err_0@),
        }),
{
    law_paths_first(plan, events, answers);
    assert(events.push(bad).drop_last() =~= events);
}

/// A call without streams of the caller's own, all of whose paths could be made absolute, launches
/// its command, and its answer is the one that the end of the process gives.
pub proof fn law_plain_call(
    plan: PlanView,
    events: Seq<Event>,
    answers: Seq<Seq<char>>,
    outcome: Outcome,
)
    requires
        plan.io is None,
        !plan.again,
        resolve_to(events, answers),
        answers.len() == plan.paths().len(),
    ensures
        course(plan.start(), events) == (StepView::Launch {
            command: plan.command(answers),
            runtime: plan.runtime,
            attached: None,
        }),
        course(plan.start(), events.push(Event::Finished(outcome))) == (StepView::Done {
            answer: outcome.answer(plan.runtime, true),
        }),
{
    law_paths_first(plan, events, answers);
    assert(events.push(Event::Finished(outcome)).drop_last() =~= events);
}

/// A call that is planned a second time asks for the paths of the settings anew, and for no others.
/// The texts of its lead and its operation are those of the first time.
pub proof fn law_second_plan(
    plan: PlanView,
    events: Seq<Event>,
    answers: Seq<Seq<char>>,
    again: Seq<Seq<char>>,
)
    requires
        plan.again,
        resolve_to(events, answers),
        answers.len() == plan.paths().len(),
    ensures
        ({
            let second = plan.second(answers);
            let step = course(plan.start(), events);
            &&& second.paths() == crate::command::paths_in(plan.global)
            &&& second.command(again).program == plan.program
            &&& second.command(again).args == crate::command::filled(plan.global, again)
                + plan.texts(answers)
            &&& second.io is None && !second.again
            &&& plan.io is None ==> step == second.start()
            &&& plan.io is Some ==> step is AttachIo && step.next(Event::IoAttached(Ok(())))
                == second.start()
        }),
{
    law_paths_first(plan, events, answers);
    lemma_second_paths(plan, answers);
    let second = plan.second(answers);
    crate::command::lemma_literal_words(plan.texts(answers), again);
    assert(again.skip(0) =~= again);
    assert(second.texts(again) =~= plan.texts(answers));
}

/// With streams of the caller's own the command is the same: the streams are attached to it before
/// anything runs.
pub proof fn law_streams_come_first(
    plan: PlanView,
    events: Seq<Event>,
    answers: Seq<Seq<char>>,
    attached: Result<(), std::io::Error>,
)
    requires
        plan.io is Some,
        !plan.again,
        resolve_to(events, answers),
        answers.len() == plan.paths().len(),
    ensures
        course(plan.start(), events) == (StepView::AttachIo {
            command: plan.command(answers),
            runtime: plan.runtime,
            close: plan.io->Some_0,
            then: None,
        }),
        course(plan.start(), events.push(Event::IoAttached(attached))) == (match attached {
            Ok(_) => StepView::Launch {
                command: plan.command(answers),
                runtime: plan.runtime,
                attached: plan.io,
            },
            Err(e) => StepView::Done { answer: Err(ErrorView::UnavailableIO(e)) },
        }),
{
    law_paths_first(plan, events, answers);
    assert(events.push(Event::IoAttached(attached)).drop_last() =~= events);
}

/// Whatever is done with the streams, the answer of a call is the one that the end of the process
/// gives; and streams are closed only where they were attached.
pub proof fn law_streams_keep_answers(
    command: CommandView,
    runtime: Runtime,
    attached: Option<Close>,
    outcome: Outcome,
)
    ensures
        ({
            let launch = StepView::Launch { command, runtime, attached };
            let next = launch.next(Event::Finished(outcome));
            let answer = outcome.answer(runtime, true);
            &&& next == StepView::Done { answer } || next == StepView::CloseIo { answer }
            &&& next is CloseIo ==> next.next(Event::IoClosed) == StepView::Done { answer }
            &&& next is CloseIo ==> attached is Some && outcome is Exited
        }),
{
}

/// A response means success: it comes exactly from a process that ended with code zero, and holds
/// its pid and what it wrote, standard output before standard error. A process that ended
/// otherwise is an error that holds its status and what it wrote.
pub proof fn law_responses_mean_success(outcome: Outcome, runtime: Runtime)
    ensures
        ({
            let answer = outcome.answer(runtime, true);
            &&& answer is Ok <==> outcome is Exited && outcome->Exited_0.status.is_success()
            &&& answer is Ok ==> {
                let exit = outcome->Exited_0;
                &&& answer->Ok_0.pid == exit.pid
                &&& answer->Ok_0.status == exit.status
                &&& answer->Ok_0.output == vstd::utf8::decode_utf8(exit.stdout@)
                    + vstd::utf8::decode_utf8(exit.stderr@)
            }
            &&& (answer is Err && answer->Err_0 is CommandFailed) <==> outcome is Exited
                && !outcome->Exited_0.status.is_success()
            &&& (answer is Err && answer->Err_0 is CommandFailed) ==> {
                let exit = outcome->Exited_0;
                answer->Err_0 == ErrorView::CommandFailed {
                    status: exit.status,
                    stdout: vstd::utf8::decode_utf8(exit.stdout@),
                    stderr: vstd::utf8::decode_utf8(exit.stderr@),
                }
            }
        }),
{
}

/// The file that a call writes is the file that its operation names, in front of the other words;
/// it holds the JSON text of the call.
pub proof fn law_spec_file_is_named(
    text: Seq<char>,
    head: Seq<WordView>,
    plan: PlanView,
    named: Event,
)
    requires
        named matches Event::SpecNamed(Ok(_)),
    ensures
        ({
            let file = named->SpecNamed_0->Ok_0@;
            let step = StepView::NameSpec { json: Ok(text), head, plan };
            let full = PlanView {
                operation: head + seq![WordView::Text(file)] + plan.operation,
                ..plan
            };
            &&& step.next(named) == StepView::WriteSpec { file, text, plan: full }
            &&& step.next(named).next(Event::SpecWritten(Ok(()))) == full.start()
        }),
{
    let file = named->SpecNamed_0->Ok_0@;
    assert(head.push(WordView::Text(file)) =~= head + seq![WordView::Text(file)]);
}

/// A call with a file fails on the first of these that goes wrong, in this order: choosing the
/// file, describing the process or the resources, writing the file.
pub proof fn law_spec_file_failures(
    json: Result<Seq<char>, serde_json::Error>,
    head: Seq<WordView>,
    plan: PlanView,
    named: Event,
    written: Event,
)
    requires
        named is SpecNamed,
        written is SpecWritten,
    ensures
        ({
            let named_step = (StepView::NameSpec { json, head, plan }).next(named);
            match named->SpecNamed_0 {
                Err(e) => named_step == (StepView::Done { answer: Err(e@) }),
                Ok(_) => match json {
                    Err(e) => named_step == (StepView::Done {
                        answer: Err(ErrorView::JsonDeserializationFailed(e)),
                    }),
                    Ok(_) => match written->SpecWritten_0 {
                        Err(e) => named_step.next(written) == (StepView::Done {
                            answer: Err(ErrorView::SpecFileCreationFailed(e)),
                        }),
                        Ok(_) => !(named_step.next(written) is Done),
                    },
                },
            }
        }),
{
}

/// The plan is one of a client with the settings `runc`.
pub open spec fn plan_of(plan: PlanView, runc: RuncView, runtime: Runtime) -> bool {
    &&& plan.program == runc.command
    &&& plan.global == runc.global()
    &&& plan.runtime == runtime
}

/// The command is one of a client with the settings `runc`: its binary, its standard streams, no
/// `NOTIFY_SOCKET`, and first of all the words of the settings, the paths among them in the form
/// that some answers give.
pub open spec fn command_of(command: CommandView, runc: RuncView, runtime: Runtime) -> bool {
    &&& command.program == runc.command
    &&& command.env_remove == "NOTIFY_SOCKET"@
    &&& command.stdin == runtime.stdin()
    &&& command.stdout == runtime.output() || command.stdout == Some(Stdio::Piped)
    &&& command.stderr == runtime.output()
    &&& exists|answers: Seq<Seq<char>>|
        crate::command::paths_in(runc.global()).len() <= answers.len() && command.args.take(
            runc.global().len() as int,
        ) == #[trigger] crate::command::filled(runc.global(), answers)
}

/// The step is one of a call of a client with the settings `runc`.
pub open spec fn step_of(step: StepView, runc: RuncView, runtime: Runtime) -> bool {
    match step {
        StepView::NameSpec { plan, .. } => plan_of(plan, runc, runtime),
        StepView::WriteSpec { plan, .. } => plan_of(plan, runc, runtime),
        StepView::Resolve { plan, .. } => plan_of(plan, runc, runtime),
        StepView::AttachIo { command, runtime: own, then, .. } => {
            &&& own == runtime
            &&& command_of(command, runc, runtime)
            &&& then is Some ==> plan_of(then->Some_0, runc, runtime)
        },
        StepView::Launch { command, runtime: own, .. } => own == runtime && command_of(
            command,
            runc,
            runtime,
        ),
        StepView::CloseIo { .. } => true,
        StepView::Done { .. } => true,
    }
}

proof fn lemma_command_of(
    plan: PlanView,
    answers: Seq<Seq<char>>,
    runc: RuncView,
    runtime: Runtime,
)
    requires
        plan_of(plan, runc, runtime),
        plan.paths().len() <= answers.len(),
    ensures
        command_of(plan.command(answers), runc, runtime),
{
    law_operation_stands_last(plan, answers);
    let rest = answers.skip(plan.own_paths() as int);
    assert(crate::command::paths_in(runc.global()).len() <= rest.len());
    assert(plan.command(answers).args.take(runc.global().len() as int) == crate::command::filled(
        runc.global(),
        rest,
    ));
}

proof fn lemma_resolving_of(
    plan: PlanView,
    answers: Seq<Seq<char>>,
    runc: RuncView,
    runtime: Runtime,
)
    requires
        plan_of(plan, runc, runtime),
    ensures
        step_of(plan.resolving(answers), runc, runtime),
{
    if plan.paths().len() <= answers.len() {
        lemma_command_of(plan, answers, runc, runtime);
        let second = plan.second(answers);
        if second.paths().len() == 0 {
            lemma_command_of(second, Seq::empty(), runc, runtime);
        }
    }
}

/// Every call of a client starts as one of its calls, whatever the operation, with a file or
/// without.
pub proof fn law_calls_start_with_settings(
    runc: RuncView,
    runtime: Runtime,
    operation: Seq<WordView>,
    lead: Seq<WordView>,
    io: Option<Close>,
    again: bool,
    capture: bool,
    json: Result<Seq<char>, serde_json::Error>,
    head: Seq<WordView>,
)
    ensures
        ({
            let plan = PlanView { lead, again, capture, ..runc.plan(runtime, operation, io) };
            &&& step_of(plan.start(), runc, runtime)
            &&& step_of(StepView::NameSpec { json, head, plan }, runc, runtime)
        }),
{
    let plan = PlanView { lead, again, capture, ..runc.plan(runtime, operation, io) };
    lemma_resolving_of(plan, Seq::empty(), runc, runtime);
}

/// However its steps go, a call never runs anything but the binary of its client, never without
/// the words of the settings in front, and never with `NOTIFY_SOCKET` set.
pub proof fn law_calls_keep_settings(
    step: StepView,
    events: Seq<Event>,
    runc: RuncView,
    runtime: Runtime,
)
    requires
        step_of(step, runc, runtime),
    ensures
        step_of(course(step, events), runc, runtime),
    decreases events.len(),
{
    if events.len() > 0 {
        law_calls_keep_settings(step, events.drop_last(), runc, runtime);
        match (course(step, events.drop_last()), events.last()) {
            (StepView::WriteSpec { plan, .. }, _) => {
                lemma_resolving_of(plan, Seq::empty(), runc, runtime);
            },
            (StepView::Resolve { plan, answers, .. }, Event::PathResolved(Ok(path))) => {
                lemma_resolving_of(plan, answers.push(path@), runc, runtime);
            },
            (StepView::AttachIo { then: Some(plan), .. }, _) => {
                lemma_resolving_of(plan, Seq::empty(), runc, runtime);
            },
            _ => {},
        }
    }
}

/// However its steps go, a call whose output is read never runs a process without capturing what it
/// writes to standard output.
pub proof fn law_read_output_is_captured(step: StepView, events: Seq<Event>)
    requires
        step.captures(),
    ensures
        course(step, events).captures(),
    decreases events.len(),
{
    if events.len() > 0 {
        law_read_output_is_captured(step, events.drop_last());
    }
}

/// A call whose output is read, all of whose paths could be made absolute, and whose process ends
/// with success and leaves standard error empty, answers with just what was captured of standard
/// output.
pub proof fn law_read_calls_answer_what_was_written(
    runc: RuncView,
    runtime: Runtime,
    operation: Seq<WordView>,
    events: Seq<Event>,
    answers: Seq<Seq<char>>,
    exit: Exit,
)
    requires
        resolve_to(events, answers),
        answers.len() == runc.read_plan(runtime, operation).paths().len(),
        exit.status.is_success(),
        exit.stderr@.len() == 0,
    ensures
        ({
            let start = runc.read_plan(runtime, operation).start();
            let launch = course(start, events);
            let done = course(start, events.push(Event::Finished(Outcome::Exited(exit))));
            &&& launch matches StepView::Launch { command, .. } && command.stdout == Some(
                Stdio::Piped,
            )
            &&& done matches StepView::Done { answer: Ok(response) } && response.output
                == vstd::utf8::decode_utf8(exit.stdout@)
        }),
{
    let plan = runc.read_plan(runtime, operation);
    law_plain_call(plan, events, answers, Outcome::Exited(exit));
    assert(vstd::utf8::decode_utf8(exit.stderr@) =~= Seq::<char>::empty());
    assert(vstd::utf8::decode_utf8(exit.stdout@) + vstd::utf8::decode_utf8(exit.stderr@)
        =~= vstd::utf8::decode_utf8(exit.stdout@));
}

/// The words of the operation stand last, behind its lead, and both behind those that hold for
/// every operation.
pub proof fn law_operation_stands_last(plan: PlanView, answers: Seq<Seq<char>>)
    ensures
        plan.args(answers).len() == plan.global.len() + plan.lead.len() + plan.operation.len(),
        plan.args(answers).skip((plan.global.len() + plan.lead.len()) as int)
            == crate::command::filled(plan.operation, answers),
        plan.args(answers).skip(plan.global.len() as int) == plan.texts(answers),
        plan.args(answers).take(plan.global.len() as int) == crate::command::filled(
            plan.global,
            answers.skip(plan.own_paths() as int),
        ),
{
    assert(plan.args(answers).skip((plan.global.len() + plan.lead.len()) as int)
        =~= crate::command::filled(plan.operation, answers));
    assert(plan.args(answers).skip(plan.global.len() as int) =~= plan.texts(answers));
    assert(plan.args(answers).take(plan.global.len() as int) =~= crate::command::filled(
        plan.global,
        answers.skip(plan.own_paths() as int),
    ));
}

/// Arguments that a client is given as they are end its command line as they are, and add no path
/// to those of the settings.
pub proof fn law_given_args_stand(
    runc: RuncView,
    runtime: Runtime,
    args: Seq<Seq<char>>,
    answers: Seq<Seq<char>>,
)
    ensures
        ({
            let plan = runc.plan(runtime, crate::command::literal(args), None);
            &&& plan.paths() == crate::command::paths_in(runc.global())
            &&& plan.command(answers).args == crate::command::filled(runc.global(), answers) + args
        }),
{
    let plan = runc.plan(runtime, crate::command::literal(args), None);
    crate::command::lemma_literal_words(args, answers);
    assert(plan.paths() =~= crate::command::paths_in(runc.global()));
    assert(answers.skip(0) =~= answers);
    assert(plan.texts(answers) =~= args);
}

/// The two clients of one configuration run the same command lines: the same binary with the same
/// arguments.
pub proof fn law_clients_agree(
    config: ConfigView,
    program: Seq<char>,
    operation: Seq<WordView>,
    lead: Seq<WordView>,
    blocking_io: Option<Close>,
    async_io: Option<Close>,
    answers: Seq<Seq<char>>,
)
    ensures
        ({
            let runc = config.located(program);
            let blocking = PlanView {
                lead,
                ..runc.plan(Runtime::Blocking, operation, blocking_io)
            };
            let other = PlanView { lead, ..runc.plan(Runtime::Async, operation, async_io) };
            &&& blocking.paths() == other.paths()
            &&& blocking.command(answers).program == other.command(answers).program
            &&& blocking.command(answers).args == other.command(answers).args
            &&& blocking.command(answers).env_remove == other.command(answers).env_remove
        }),
{
}

pub(crate) proof fn lemma_bundle_lead(name: Seq<char>, bundle: Seq<char>, answers: Seq<Seq<char>>)
    ensures
        crate::command::paths_in(crate::operation::bundle_lead(name, bundle)) == seq![bundle],
        crate::command::filled(crate::operation::bundle_lead(name, bundle), answers) == seq![
            name,
            "--bundle"@,
            answers[0],
        ],
{
    let words = crate::operation::bundle_lead(name, bundle);
    let front = crate::command::literal(seq![name, "--bundle"@]);
    crate::command::lemma_literal_words(seq![name, "--bundle"@], answers);
    assert(words.drop_last() =~= front);
    assert(words.take(2) =~= front);
    assert(crate::command::paths_in(words) =~= seq![bundle]);
    assert(crate::command::filled(words, answers) =~= seq![name, "--bundle"@, answers[0]]);
}

pub(crate) proof fn lemma_flags_and_id(id: Seq<char>, flags: Seq<WordView>, answers: Seq<Seq<char>>)
    ensures
        crate::command::paths_in(crate::operation::flags_and_id(id, flags))
            == crate::command::paths_in(flags),
        crate::command::filled(crate::operation::flags_and_id(id, flags), answers)
            == crate::command::filled(flags, answers).push(id),
{
    let words = crate::operation::flags_and_id(id, flags);
    assert(words.drop_last() =~= flags);
    assert forall|i: int| 0 <= i < flags.len() implies words.take(i) == flags.take(i) by {
        assert(words.take(i) =~= flags.take(i));
    }
    assert(crate::command::filled(words, answers) =~= crate::command::filled(flags, answers).push(
        id,
    ));
}

/// To create a container its bundle is made absolute before any path of the options; the absolute
/// form follows `--bundle`, then come the flags, and the container ends the words.
pub proof fn law_create_names_its_bundle(
    id: Seq<char>,
    bundle: Seq<char>,
    flags: Seq<WordView>,
    answers: Seq<Seq<char>>,
)
    requires
        1 + crate::command::paths_in(flags).len() <= answers.len(),
    ensures
        ({
            let words = crate::operation::create_operation(id, bundle, flags);
            &&& crate::command::paths_in(words) == seq![bundle] + crate::command::paths_in(flags)
            &&& crate::command::filled(words, answers) == seq!["create"@, "--bundle"@, answers[0]]
                + crate::command::filled(flags, answers.skip(1)).push(id)
        }),
{
    let lead = crate::operation::bundle_lead("create"@, bundle);
    let tail = crate::operation::flags_and_id(id, flags);
    lemma_bundle_lead("create"@, bundle, answers);
    lemma_flags_and_id(id, flags, answers.skip(1));
    crate::command::lemma_paths_in_join(lead, tail);
    crate::command::lemma_filled_join(lead, tail, answers);
}

/// To run a container the paths of the options are made absolute before its bundle; yet the
/// absolute form of the bundle follows `--bundle`, then come the flags, and the container ends the
/// words.
pub proof fn law_run_names_its_bundle(
    runc: RuncView,
    runtime: Runtime,
    io: Option<Close>,
    id: Seq<char>,
    bundle: Seq<char>,
    flags: Seq<WordView>,
    answers: Seq<Seq<char>>,
)
    requires
        1 + crate::command::paths_in(flags).len() <= answers.len(),
    ensures
        ({
            let plan = PlanView {
                lead: crate::operation::bundle_lead("run"@, bundle),
                ..runc.plan(runtime, crate::operation::flags_and_id(id, flags), io)
            };
            let options = crate::command::paths_in(flags);
            &&& plan.paths() == options.push(bundle) + crate::command::paths_in(runc.global())
            &&& plan.texts(answers) == seq!["run"@, "--bundle"@, answers[options.len() as int]]
                + crate::command::filled(flags, answers).push(id)
        }),
{
    let options = crate::command::paths_in(flags);
    lemma_bundle_lead("run"@, bundle, answers.skip(options.len() as int));
    lemma_flags_and_id(id, flags, answers);
    assert(options + seq![bundle] =~= options.push(bundle));
}

/// The streams of a caller that creates a container are closed by the blocking client exactly when
/// runc ended with success, by the async client exactly when it ended; those of a caller that runs
/// a container or starts an additional process are never closed.
pub proof fn law_when_streams_close(create: CreateOpts, exec: ExecOpts, outcome: Outcome)
    requires
        create.io,
        exec.io,
    ensures
        ({
            let blocking = crate::client::create_io(Some(&create));
            let other = crate::async_client::create_io(Some(&create));
            let run = crate::client::run_io(Some(&create));
            let additional = crate::client::exec_io(Some(&exec));
            &&& blocking is Some && (blocking->Some_0.closes_after(outcome) <==> outcome is Exited
                && outcome->Exited_0.status.is_success())
            &&& other is Some && (other->Some_0.closes_after(outcome) <==> outcome is Exited)
            &&& run is Some && !run->Some_0.closes_after(outcome)
            &&& additional is Some && !additional->Some_0.closes_after(outcome)
        }),
{
}

/// Nothing is added to an operation by settings that were not made.
pub proof fn law_unset_means_absent(program: Seq<char>)
    ensures
        ConfigView::unset().located(program).global() == Seq::<WordView>::empty(),
{
    assert(ConfigView::unset().located(program).global() =~= Seq::<WordView>::empty());
}

/// Leaving the rootless mode to runc takes back what was said about it before.
pub proof fn law_rootless_auto_takes_back(config: ConfigView, rootless: bool, program: Seq<char>)
    ensures
        ({
            let said = ConfigView { rootless: Some(rootless), ..config };
            let left = ConfigView { rootless: None, ..said };
            &&& left == ConfigView { rootless: None, ..config }
            &&& left.located(program).rootless_words() == Seq::<WordView>::empty()
            &&& said.located(program).rootless_words().len() == 1
        }),
{
}

/// A container that is paused and one that is resumed are asked for in different words.
pub proof fn law_pause_is_not_resume(id: Seq<char>)
    ensures
        crate::operation::simple_operation("pause"@, id) != crate::operation::simple_operation(
            "resume"@,
            id,
        ),
{
    reveal_strlit("pause");
    reveal_strlit("resume");
    let pause = crate::operation::simple_operation("pause"@, id);
    let resume = crate::operation::simple_operation("resume"@, id);
    assert(pause[0] == WordView::Text("pause"@));
    assert(resume[0] == WordView::Text("resume"@));
    assert("pause"@.len() == 5);
}

/// A signal ends the words of the call that sends it, behind the container, and no two signals are
/// asked for in the same words.
pub proof fn law_signals_are_told_apart(id: Seq<char>, sig: u32, other: u32, flags: Seq<WordView>)
    ensures
        ({
            let words = crate::operation::kill_operation(id, sig, flags);
            &&& words.last() == WordView::Text(crate::text::decimal(sig as nat))
            &&& words[words.len() - 2] == WordView::Text(id)
        }),
        crate::operation::kill_operation(id, sig, flags) == crate::operation::kill_operation(
            id,
            other,
            flags,
        ) ==> sig == other,
{
    crate::text::lemma_decimal_denotes(sig as nat);
    crate::text::lemma_decimal_denotes(other as nat);
    let words = crate::operation::kill_operation(id, sig, flags);
    let others = crate::operation::kill_operation(id, other, flags);
    assert(words.last() == WordView::Text(crate::text::decimal(sig as nat)));
    assert(others.last() == WordView::Text(crate::text::decimal(other as nat)));
}

/// White space around `null` does not matter: the list is empty.
pub proof fn law_null_is_the_empty_list(before: Seq<char>, after: Seq<char>)
    requires
        forall|i: int|
            0 <= i < before.len() ==> crate::text::is_white_space(#[trigger] before[i]),
        forall|i: int| 0 <= i < after.len() ==> crate::text::is_white_space(#[trigger] after[i]),
    ensures
        crate::reply::list_text(before + "null"@ + after) is None,
{
    reveal_strlit("null");
    crate::text::lemma_trimmed_pads(before, "null"@, after);
    assert("null"@.len() == 4);
    assert("null"@[0] == 'n');
    assert("null"@[3] == 'l');
    assert(crate::text::trimmed("null"@) == "null"@);
}

} // verus!
