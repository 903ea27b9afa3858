//! What a configuration makes of a client, and what values are seen as.

use vstd::prelude::*;

use serde_json::Error as JsonError;

use crate::async_client::AsyncClient;
use crate::client::Client;
use crate::command::{CommandLine, Plan, Word, WordView};
use crate::config::{Config, ConfigView, LogFormat, Runc, RuncView};
use crate::error::{Error, ErrorView};
use crate::exit::{ExitStatus, Response};
use crate::step::{Step, StepView};

verus! {

/// Naming the binary sets just that and nothing else, and the configuration that is handed back is
/// the same one.
pub proof fn law_config_command(config: &mut Config, text: &str, result: &mut Config)
    requires
        call_ensures(Config::command, (config, text), result),
    ensures
        old(result)@.command == Some(text@),
        old(result)@ == (ConfigView { command: old(result)@.command, ..old(config)@ }),
        *final(config) == *final(result),
{
}

/// Naming the directory of the containers sets just that and nothing else, and the configuration
/// that is handed back is the same one.
pub proof fn law_config_root(config: &mut Config, text: &str, result: &mut Config)
    requires
        call_ensures(Config::root, (config, text), result),
    ensures
        old(result)@.root == Some(text@),
        old(result)@ == (ConfigView { root: old(result)@.root, ..old(config)@ }),
        *final(config) == *final(result),
{
}

/// Saying whether runc logs what helps to debug it sets just that and nothing else, and the
/// configuration that is handed back is the same one.
pub proof fn law_config_debug(config: &mut Config, on: bool, result: &mut Config)
    requires
        call_ensures(Config::debug, (config, on), result),
    ensures
        old(result)@.debug == on,
        old(result)@ == (ConfigView { debug: old(result)@.debug, ..old(config)@ }),
        *final(config) == *final(result),
{
}

/// Naming the log sets just that and nothing else, and the configuration that is handed back is the
/// same one.
pub proof fn law_config_log(config: &mut Config, text: &str, result: &mut Config)
    requires
        call_ensures(Config::log, (config, text), result),
    ensures
        old(result)@.log == Some(text@),
        old(result)@ == (ConfigView { log: old(result)@.log, ..old(config)@ }),
        *final(config) == *final(result),
{
}

/// Choosing the format of the log sets just that and nothing else, and the configuration that is
/// handed back is the same one.
pub proof fn law_config_log_format(config: &mut Config, format: LogFormat, result: &mut Config)
    requires
        call_ensures(Config::log_format, (config, format), result),
    ensures
        old(result)@.log_format == Some(format),
        old(result)@ == (ConfigView { log_format: old(result)@.log_format, ..old(config)@ }),
        *final(config) == *final(result),
{
}

/// Choosing JSON as the format of the log sets just that and nothing else, and the configuration
/// that is handed back is the same one.
pub proof fn law_config_log_format_json(config: &mut Config, result: &mut Config)
    requires
        call_ensures(Config::log_format_json, (config,), result),
    ensures
        old(result)@.log_format == Some(LogFormat::Json),
        old(result)@ == (ConfigView { log_format: old(result)@.log_format, ..old(config)@ }),
        *final(config) == *final(result),
{
}

/// Choosing text as the format of the log sets just that and nothing else, and the configuration
/// that is handed back is the same one.
pub proof fn law_config_log_format_text(config: &mut Config, result: &mut Config)
    requires
        call_ensures(Config::log_format_text, (config,), result),
    ensures
        old(result)@.log_format == Some(LogFormat::Text),
        old(result)@ == (ConfigView { log_format: old(result)@.log_format, ..old(config)@ }),
        *final(config) == *final(result),
{
}

/// Saying whether runc leaves cgroups to systemd sets just that and nothing else, and the
/// configuration that is handed back is the same one.
pub proof fn law_config_systemd_cgroup(config: &mut Config, on: bool, result: &mut Config)
    requires
        call_ensures(Config::systemd_cgroup, (config, on), result),
    ensures
        old(result)@.systemd_cgroup == on,
        old(result)@ == (ConfigView {
            systemd_cgroup: old(result)@.systemd_cgroup,
            ..old(config)@
        }),
        *final(config) == *final(result),
{
}

/// Saying whether cgroup permission errors are ignored sets just that and nothing else, and the
/// configuration that is handed back is the same one.
pub proof fn law_config_rootless(config: &mut Config, on: bool, result: &mut Config)
    requires
        call_ensures(Config::rootless, (config, on), result),
    ensures
        old(result)@.rootless == Some(on),
        old(result)@ == (ConfigView { rootless: old(result)@.rootless, ..old(config)@ }),
        *final(config) == *final(result),
{
}

/// Leaving it to runc whether cgroup permission errors are ignored sets just that and nothing else,
/// and the configuration that is handed back is the same one.
pub proof fn law_config_rootless_auto(config: &mut Config, result: &mut Config)
    requires
        call_ensures(Config::rootless_auto, (config,), result),
    ensures
        old(result)@.rootless is None,
        old(result)@ == (ConfigView { rootless: old(result)@.rootless, ..old(config)@ }),
        *final(config) == *final(result),
{
}

/// Saying whether a process group is wanted sets just that and nothing else, and the configuration
/// that is handed back is the same one.
pub proof fn law_config_set_pgid(config: &mut Config, on: bool, result: &mut Config)
    requires
        call_ensures(Config::set_pgid, (config, on), result),
    ensures
        old(result)@.set_pgid == on,
        old(result)@ == (ConfigView { set_pgid: old(result)@.set_pgid, ..old(config)@ }),
        *final(config) == *final(result),
{
}

/// Saying how long a call should take sets just that and nothing else, and the configuration that
/// is handed back is the same one.
pub proof fn law_config_timeout(config: &mut Config, millis: u64, result: &mut Config)
    requires
        call_ensures(Config::timeout, (config, millis), result),
    ensures
        old(result)@.timeout == Some(millis),
        old(result)@ == (ConfigView { timeout: old(result)@.timeout, ..old(config)@ }),
        *final(config) == *final(result),
{
}

/// A new configuration says nothing, and so does the default one.
pub proof fn law_config_new(config: Config)
    requires
        call_ensures(Config::new, (), config) || call_ensures(
            <Config as Default>::default,
            (),
            config,
        ),
    ensures
        config@.command is None,
        config@.root is None,
        !config@.debug,
        config@.log is None,
        config@.log_format is None,
        !config@.systemd_cgroup,
        config@.rootless is None,
        !config@.set_pgid,
        config@.timeout is None,
{
}

/// The binary that is looked for is the one that was named, or else runc.
pub proof fn law_config_program(config: &Config, program: String)
    requires
        call_ensures(Config::program, (config,), program),
    ensures
        config@.command matches Some(command) ==> program@ == command,
        config@.command is None ==> program@ == "runc"@,
{
}

/// The settings of a client are those of the configuration, each in its place, and the binary is
/// the one that was found.
pub open spec fn settles(config: ConfigView, program: Seq<char>, runc: RuncView) -> bool {
    &&& runc.command == program
    &&& runc.root == config.root
    &&& runc.debug == config.debug
    &&& runc.log == config.log
    &&& runc.log_format == config.log_format
    &&& runc.systemd_cgroup == config.systemd_cgroup
    &&& runc.rootless == config.rootless
    &&& runc.set_pgid == config.set_pgid
    &&& runc.timeout == config.timeout
}

/// A client that is built has the settings of its configuration, which stays what it is. Where no
/// binary was found, that error comes back.
pub proof fn law_config_build(
    config: &mut Config,
    program: Result<String, Error>,
    client: Result<Client, Error>,
)
    requires
        call_ensures(Config::build, (config, program), client),
    ensures
        final(config)@ == old(config)@,
        program matches Ok(program) ==> client is Ok && settles(
            old(config)@,
            program@,
            client->Ok_0@,
        ),
        program matches Err(e) ==> client == Err::<Client, Error>(e),
{
}

/// An async client that is built has the settings of its configuration, which stays what it is.
/// Where no binary was found, that error comes back.
pub proof fn law_config_build_async(
    config: &mut Config,
    program: Result<String, Error>,
    client: Result<AsyncClient, Error>,
)
    requires
        call_ensures(Config::build_async, (config, program), client),
    ensures
        final(config)@ == old(config)@,
        program matches Ok(program) ==> client is Ok && settles(
            old(config)@,
            program@,
            client->Ok_0@,
        ),
        program matches Err(e) ==> client == Err::<AsyncClient, Error>(e),
{
}

/// A client that is made from a configuration has its settings. Where no binary was found, that
/// error comes back.
pub proof fn law_from_config(
    config: Config,
    program: Result<String, Error>,
    client: Result<Client, Error>,
    other: Result<AsyncClient, Error>,
)
    requires
        call_ensures(Client::from_config, (config, program), client),
        call_ensures(AsyncClient::from_config, (config, program), other),
    ensures
        program matches Ok(program) ==> {
            &&& client is Ok && settles(config@, program@, client->Ok_0@)
            &&& other is Ok && settles(config@, program@, other->Ok_0@)
        },
        program matches Err(e) ==> client == Err::<Client, Error>(e) && other == Err::<
            AsyncClient,
            Error,
        >(e),
{
}

/// Copies are the same as what they were made from.
pub proof fn law_copies(
    config: &Config,
    config_copy: Config,
    runc: &Runc,
    runc_copy: Runc,
    client: &Client,
    client_copy: Client,
    other: &AsyncClient,
    other_copy: AsyncClient,
    response: &Response,
    response_copy: Response,
)
    requires
        call_ensures(<Config as Clone>::clone, (config,), config_copy),
        call_ensures(<Runc as Clone>::clone, (runc,), runc_copy),
        call_ensures(<Client as Clone>::clone, (client,), client_copy),
        call_ensures(<AsyncClient as Clone>::clone, (other,), other_copy),
        call_ensures(<Response as Clone>::clone, (response,), response_copy),
    ensures
        config_copy@ == config@,
        runc_copy@ == runc@,
        client_copy@ == client@,
        other_copy@ == other@,
        response_copy@ == response@,
{
}

/// Settings are seen as they are, each in its place.
pub proof fn law_settings_are_seen(runc: Runc)
    ensures
        runc@.command == runc.command@,
        runc.root matches Some(root) ==> runc@.root == Some(root@),
        runc.root is None ==> runc@.root is None,
        runc@.debug == runc.debug,
        runc.log matches Some(log) ==> runc@.log == Some(log@),
        runc.log is None ==> runc@.log is None,
        runc@.log_format == runc.log_format,
        runc@.systemd_cgroup == runc.systemd_cgroup,
        runc@.rootless == runc.rootless,
        runc@.set_pgid == runc.set_pgid,
        runc@.timeout == runc.timeout,
{
}

/// Words are seen as they are: texts as texts, paths as paths.
pub proof fn law_words_are_seen(text: String, words: Vec<Word>, i: int)
    requires
        0 <= i < words.len(),
    ensures
        Word::Text(text)@ == WordView::Text(text@),
        Word::Path(text)@ == WordView::Path(text@),
        words.deep_view().len() == words.len(),
        words.deep_view()[i] == words[i]@,
{
}

/// A plan and a command line are seen as they are, each part in its place.
pub proof fn law_plans_are_seen(plan: Plan, command: CommandLine)
    ensures
        plan@.program == plan.program@,
        plan@.operation == plan.operation.deep_view(),
        plan@.lead == plan.lead.deep_view(),
        plan@.global == plan.global.deep_view(),
        plan@.runtime == plan.runtime,
        plan@.io == plan.io,
        plan@.again == plan.again,
        plan@.capture == plan.capture,
        command@.program == command.program@,
        command@.args == command.args.deep_view(),
        command@.env_remove == command.env_remove@,
        command@.stdin == command.stdin,
        command@.stdout == command.stdout,
        command@.stderr == command.stderr,
{
}

/// An answer is seen as it is: a response as a response with its pid, status and output, an error
/// as that error.
pub proof fn law_answers_are_seen(response: Response, error: Error)
    ensures
        ({
            let answer = crate::exit::answer_view(Ok(response));
            &&& answer is Ok
            &&& answer->Ok_0.pid == response.pid
            &&& answer->Ok_0.status == response.status
            &&& answer->Ok_0.output == response.output@
        }),
        crate::exit::answer_view(Err(error)) == Err::<crate::exit::ResponseView, ErrorView>(error@),
{
}

/// An error is seen as it is, with what it holds.
pub proof fn law_errors_are_seen(
    e: std::io::Error,
    json: JsonError,
    status: ExitStatus,
    stdout: String,
    stderr: String,
    name: String,
)
    ensures
        Error::InvalidPath(e)@ == ErrorView::InvalidPath(e),
        Error::JsonDeserializationFailed(json)@ == ErrorView::JsonDeserializationFailed(json),
        Error::MissingContainerStats@ == ErrorView::MissingContainerStats,
        Error::ProcessSpawnFailed(e)@ == ErrorView::ProcessSpawnFailed(e),
        Error::InvalidCommand(e)@ == ErrorView::InvalidCommand(e),
        (Error::CommandFailed { status, stdout, stderr })@ == (ErrorView::CommandFailed {
            status,
            stdout: stdout@,
            stderr: stderr@,
        }),
        Error::UnavailableIO(e)@ == ErrorView::UnavailableIO(e),
        Error::NotFound@ == ErrorView::NotFound,
        Error::SpecFileCreationFailed(e)@ == ErrorView::SpecFileCreationFailed(e),
        Error::Unimplemented(name)@ == ErrorView::Unimplemented(name@),
{
}

/// A step is seen as it is, with what it asks for.
pub proof fn law_steps_are_seen(step: Step)
    ensures
        step matches Step::NameSpec { json, head, plan } ==> {
            &&& step@ is NameSpec
            &&& json matches Ok(text) ==> step@->NameSpec_json == Ok::<Seq<char>, JsonError>(text@)
            &&& json matches Err(e) ==> step@->NameSpec_json == Err::<Seq<char>, JsonError>(e)
            &&& step@->NameSpec_head == head.deep_view()
            &&& step@->NameSpec_plan == plan@
        },
        step matches Step::WriteSpec { file, text, plan } ==> step@ == (StepView::WriteSpec {
            file: file@,
            text: text@,
            plan: plan@,
        }),
        step matches Step::Resolve { path, plan, answers } ==> step@ == (StepView::Resolve {
            path: path@,
            plan: plan@,
            answers: answers.deep_view(),
        }),
        step matches Step::AttachIo { command, runtime, close, then } ==> {
            &&& step@ is AttachIo
            &&& step@->AttachIo_command == command@
            &&& step@->AttachIo_runtime == runtime
            &&& step@->AttachIo_close == close
            &&& then matches Some(plan) ==> step@->AttachIo_then == Some(plan@)
            &&& then is None ==> step@->AttachIo_then is None
        },
        step matches Step::Launch { command, runtime, attached } ==> step@ == (StepView::Launch {
            command: command@,
            runtime,
            attached,
        }),
        step matches Step::CloseIo { answer } ==> step@ == (StepView::CloseIo {
            answer: crate::exit::answer_view(answer),
        }),
        step matches Step::Done { answer } ==> step@ == (StepView::Done {
            answer: crate::exit::answer_view(answer),
        }),
{
}

} // verus!
