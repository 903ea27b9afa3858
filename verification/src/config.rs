//! How the runc client is set up.

use vstd::prelude::*;
use vstd::string::*;

use crate::async_client::AsyncClient;
use crate::client::Client;
use crate::command::{
    push_flag, push_path_flag, push_text, Close, Plan, PlanView, Runtime, Word, WordView,
};
use crate::error::Error;

verus! {

/// The version that runc reports of itself.
#[derive(Debug, Clone)]
pub struct Version {
    pub runc_version: Option<String>,
    pub spec_version: Option<String>,
    pub commit: Option<String>,
}

/// The format of runc's log.
#[derive(Debug, Clone, Copy, PartialEq, Eq, Structural)]
pub enum LogFormat {
    Json,
    Text,
}

impl LogFormat {
    /// The name of the format.
    pub open spec fn name(self) -> Seq<char> {
        match self {
            LogFormat::Json => "json"@,
            LogFormat::Text => "text"@,
        }
    }

    /// The name of the format.
    pub fn to_string(&self) -> (name: String)
        ensures
            name@ == self.name(),
    {
        match self {
            LogFormat::Json => "json".to_owned(),
            LogFormat::Text => "text".to_owned(),
        }
    }
}

/// Configuration for runc client.
///
/// This struct provide chaining interface like, for example, `std::fs::OpenOptions`.
/// Note that you cannot access the members of Config directly.
///
/// # Example
///
/// ```ignore
/// use runc::{LogFormat, Config};
///
/// let mut config = Config::new();
/// config
///     .root("./new_root")
///     .debug(false)
///     .log("/path/to/logfile.json")
///     .log_format(LogFormat::Json)
///     .rootless(true);
/// let client = config.build(Ok("/usr/bin/runc".to_string()));
/// ```
#[derive(Debug)]
pub struct Config {
    command: Option<String>,
    root: Option<String>,
    debug: bool,
    log: Option<String>,
    log_format: Option<LogFormat>,
    systemd_cgroup: bool,
    rootless: Option<bool>,
    set_pgid: bool,
    timeout: Option<u64>,
}

/// What a [`Config`] holds.
pub struct ConfigView {
    /// The binary to be run, where one was named.
    pub command: Option<Seq<char>>,
    /// The directory that holds the state of the containers.
    pub root: Option<Seq<char>>,
    pub debug: bool,
    /// The file that runc logs to.
    pub log: Option<Seq<char>>,
    pub log_format: Option<LogFormat>,
    pub systemd_cgroup: bool,
    /// Whether cgroup permission errors are ignored; runc decides where this is `None`.
    pub rootless: Option<bool>,
    /// Whether runc is wanted in a process group of its own. Calls do not heed it: it is only kept.
    pub set_pgid: bool,
    /// How long a call should take at most, in milliseconds. Calls do not heed it: it is only kept.
    pub timeout: Option<u64>,
}

fn clone_text(text: &Option<String>) -> (copy: Option<String>)
    ensures
        crate::text::text_view(copy) == crate::text::text_view(*text),
{
    match text {
        Some(text) => Some(text.clone()),
        None => None,
    }
}

impl View for Config {
    type V = ConfigView;

    closed spec fn view(&self) -> ConfigView {
        ConfigView {
            command: crate::text::text_view(self.command),
            root: crate::text::text_view(self.root),
            debug: self.debug,
            log: crate::text::text_view(self.log),
            log_format: self.log_format,
            systemd_cgroup: self.systemd_cgroup,
            rootless: self.rootless,
            set_pgid: self.set_pgid,
            timeout: self.timeout,
        }
    }
}

impl ConfigView {
    /// A configuration in which nothing was set.
    pub open spec fn unset() -> ConfigView {
        ConfigView {
            command: None,
            root: None,
            debug: false,
            log: None,
            log_format: None,
            systemd_cgroup: false,
            rootless: None,
            set_pgid: false,
            timeout: None,
        }
    }

    /// The binary to be looked for: the one that was named, or else runc.
    pub open spec fn program(self) -> Seq<char> {
        match self.command {
            Some(command) => command,
            None => "runc"@,
        }
    }

    /// The settings of a client that was built while the binary was found at `program`.
    pub open spec fn located(self, program: Seq<char>) -> RuncView {
        RuncView {
            command: program,
            root: self.root,
            debug: self.debug,
            log: self.log,
            log_format: self.log_format,
            systemd_cgroup: self.systemd_cgroup,
            rootless: self.rootless,
            set_pgid: self.set_pgid,
            timeout: self.timeout,
        }
    }
}

impl Default for Config {
    fn default() -> (config: Self)
        ensures
            config@ == ConfigView::unset(),
    {
        Config {
            command: None,
            root: None,
            debug: false,
            log: None,
            log_format: None,
            systemd_cgroup: false,
            rootless: None,
            set_pgid: false,
            timeout: None,
        }
    }
}

impl Clone for Config {
    fn clone(&self) -> (copy: Self)
        ensures
            copy@ == self@,
    {
        Config {
            command: clone_text(&self.command),
            root: clone_text(&self.root),
            debug: self.debug,
            log: clone_text(&self.log),
            log_format: self.log_format,
            systemd_cgroup: self.systemd_cgroup,
            rootless: self.rootless,
            set_pgid: self.set_pgid,
            timeout: self.timeout,
        }
    }
}

impl Config {
    /// A configuration in which nothing was set.
    pub fn new() -> (config: Self)
        ensures
            config@ == ConfigView::unset(),
    {
        Self::default()
    }

    /// Names the binary to be run.
    pub fn command(&mut self, command: &str) -> (config: &mut Self)
        ensures
            config@ == (ConfigView { command: Some(command@), ..old(self)@ }),
            *final(self) == *final(config),
    {
        self.command = Some(command.to_owned());
        self
    }

    /// Names the directory that holds the state of the containers.
    pub fn root(&mut self, root: &str) -> (config: &mut Self)
        ensures
            config@ == (ConfigView { root: Some(root@), ..old(self)@ }),
            *final(self) == *final(config),
    {
        self.root = Some(root.to_owned());
        self
    }

    /// Says whether runc logs what helps to debug it.
    pub fn debug(&mut self, debug: bool) -> (config: &mut Self)
        ensures
            config@ == (ConfigView { debug, ..old(self)@ }),
            *final(self) == *final(config),
    {
        self.debug = debug;
        self
    }

    /// Names the file that runc logs to.
    pub fn log(&mut self, log: &str) -> (config: &mut Self)
        ensures
            config@ == (ConfigView { log: Some(log@), ..old(self)@ }),
            *final(self) == *final(config),
    {
        self.log = Some(log.to_owned());
        self
    }

    /// Chooses the format of the log.
    pub fn log_format(&mut self, log_format: LogFormat) -> (config: &mut Self)
        ensures
            config@ == (ConfigView { log_format: Some(log_format), ..old(self)@ }),
            *final(self) == *final(config),
    {
        self.log_format = Some(log_format);
        self
    }

    /// Chooses JSON as the format of the log.
    pub fn log_format_json(&mut self) -> (config: &mut Self)
        ensures
            config@ == (ConfigView { log_format: Some(LogFormat::Json), ..old(self)@ }),
            *final(self) == *final(config),
    {
        self.log_format = Some(LogFormat::Json);
        self
    }

    /// Chooses text as the format of the log.
    pub fn log_format_text(&mut self) -> (config: &mut Self)
        ensures
            config@ == (ConfigView { log_format: Some(LogFormat::Text), ..old(self)@ }),
            *final(self) == *final(config),
    {
        self.log_format = Some(LogFormat::Text);
        self
    }

    /// Says whether runc leaves cgroups to systemd.
    pub fn systemd_cgroup(&mut self, systemd_cgroup: bool) -> (config: &mut Self)
        ensures
            config@ == (ConfigView { systemd_cgroup, ..old(self)@ }),
            *final(self) == *final(config),
    {
        self.systemd_cgroup = systemd_cgroup;
        self
    }

    /// Says whether runc ignores cgroup permission errors.
    pub fn rootless(&mut self, rootless: bool) -> (config: &mut Self)
        ensures
            config@ == (ConfigView { rootless: Some(rootless), ..old(self)@ }),
            *final(self) == *final(config),
    {
        self.rootless = Some(rootless);
        self
    }

    /// Keeps whether runc is wanted in a process group of its own. The setting is passed on to the
    /// client, whose calls do not heed it.
    pub fn set_pgid(&mut self, set_pgid: bool) -> (config: &mut Self)
        ensures
            config@ == (ConfigView { set_pgid, ..old(self)@ }),
            *final(self) == *final(config),
    {
        self.set_pgid = set_pgid;
        self
    }

    /// Leaves it to runc whether cgroup permission errors are ignored.
    pub fn rootless_auto(&mut self) -> (config: &mut Self)
        ensures
            config@ == (ConfigView { rootless: None, ..old(self)@ }),
            *final(self) == *final(config),
    {
        self.rootless = None;
        self
    }

    /// Keeps how long a call should take at most, in milliseconds. The setting is passed on to the
    /// client, whose calls do not heed it.
    pub fn timeout(&mut self, millis: u64) -> (config: &mut Self)
        ensures
            config@ == (ConfigView { timeout: Some(millis), ..old(self)@ }),
            *final(self) == *final(config),
    {
        self.timeout = Some(millis);
        self
    }

    /// The binary to be looked for before a client is built.
    pub fn program(&self) -> (program: String)
        ensures
            program@ == self@.program(),
    {
        match &self.command {
            Some(command) => command.clone(),
            None => "runc".to_owned(),
        }
    }

    fn locate(&self, program: String) -> (runc: Runc)
        ensures
            runc@ == self@.located(program@),
    {
        Runc {
            command: program,
            root: clone_text(&self.root),
            debug: self.debug,
            log: clone_text(&self.log),
            log_format: self.log_format,
            systemd_cgroup: self.systemd_cgroup,
            rootless: self.rootless,
            set_pgid: self.set_pgid,
            timeout: self.timeout,
        }
    }

    /// Builds a client. `program` is where the binary was found, or why it was not.
    pub fn build(&mut self, program: Result<String, Error>) -> (client: Result<Client, Error>)
        ensures
            final(self)@ == old(self)@,
            match program {
                Ok(program) => client is Ok && client->Ok_0@ == old(self)@.located(program@),
                Err(e) => client is Err && client->Err_0 == e,
            },
    {
        match program {
            Ok(program) => Ok(Client::new(self.locate(program))),
            Err(e) => Err(e),
        }
    }

    /// Builds an async client. `program` is where the binary was found, or why it was not.
    pub fn build_async(&mut self, program: Result<String, Error>) -> (client: Result<
        AsyncClient,
        Error,
    >)
        ensures
            final(self)@ == old(self)@,
            match program {
                Ok(program) => client is Ok && client->Ok_0@ == old(self)@.located(program@),
                Err(e) => client is Err && client->Err_0 == e,
            },
    {
        match program {
            Ok(program) => Ok(AsyncClient::new(self.locate(program))),
            Err(e) => Err(e),
        }
    }
}

/// The settings of a client.
#[derive(Debug)]
pub struct Runc {
    /// Where the binary is.
    pub command: String,
    pub root: Option<String>,
    pub debug: bool,
    pub log: Option<String>,
    pub log_format: Option<LogFormat>,
    pub systemd_cgroup: bool,
    pub rootless: Option<bool>,
    pub set_pgid: bool,
    pub timeout: Option<u64>,
}

/// A [`Runc`] with its texts as character sequences.
pub struct RuncView {
    pub command: Seq<char>,
    pub root: Option<Seq<char>>,
    pub debug: bool,
    pub log: Option<Seq<char>>,
    pub log_format: Option<LogFormat>,
    pub systemd_cgroup: bool,
    pub rootless: Option<bool>,
    pub set_pgid: bool,
    pub timeout: Option<u64>,
}

impl View for Runc {
    type V = RuncView;

    open spec fn view(&self) -> RuncView {
        RuncView {
            command: self.command@,
            root: crate::text::text_view(self.root),
            debug: self.debug,
            log: crate::text::text_view(self.log),
            log_format: self.log_format,
            systemd_cgroup: self.systemd_cgroup,
            rootless: self.rootless,
            set_pgid: self.set_pgid,
            timeout: self.timeout,
        }
    }
}

impl Clone for Runc {
    fn clone(&self) -> (copy: Self)
        ensures
            copy@ == self@,
    {
        Runc {
            command: self.command.clone(),
            root: clone_text(&self.root),
            debug: self.debug,
            log: clone_text(&self.log),
            log_format: self.log_format,
            systemd_cgroup: self.systemd_cgroup,
            rootless: self.rootless,
            set_pgid: self.set_pgid,
            timeout: self.timeout,
        }
    }
}

impl RuncView {
    /// The flag that chooses the format of the log.
    pub open spec fn log_format_words(self) -> Seq<WordView> {
        match self.log_format {
            Some(format) => seq![WordView::Text("--log-format"@), WordView::Text(format.name())],
            None => Seq::empty(),
        }
    }

    /// The flag that says whether cgroup permission errors are ignored.
    pub open spec fn rootless_words(self) -> Seq<WordView> {
        match self.rootless {
            Some(true) => seq![WordView::Text("--rootless=true"@)],
            Some(false) => seq![WordView::Text("--rootless=false"@)],
            None => Seq::empty(),
        }
    }

    /// The words that stand before every operation: a flag for each setting that was made.
    pub open spec fn global(self) -> Seq<WordView> {
        crate::command::path_flag("--root"@, self.root)
            + crate::command::flag("--debug"@, self.debug)
            + crate::command::path_flag("--log"@, self.log)
            + self.log_format_words()
            + crate::command::flag("--systemd-cgroup"@, self.systemd_cgroup)
            + self.rootless_words()
    }

    /// The plan of an operation under these settings.
    pub open spec fn plan(
        self,
        runtime: Runtime,
        operation: Seq<WordView>,
        io: Option<Close>,
    ) -> PlanView {
        PlanView {
            program: self.command,
            operation,
            lead: Seq::empty(),
            global: self.global(),
            runtime,
            io,
            again: false,
            capture: false,
        }
    }

    /// The plan of an operation whose output is read.
    pub open spec fn read_plan(self, runtime: Runtime, operation: Seq<WordView>) -> PlanView {
        PlanView { capture: true, ..self.plan(runtime, operation, None) }
    }
}

impl Runc {
    /// The words that stand before every operation.
    pub fn args(&self) -> (words: Vec<Word>)
        ensures
            words.deep_view() == self@.global(),
    {
        let mut words: Vec<Word> = Vec::new();
        assert(words.deep_view() =~= Seq::<WordView>::empty());
        push_path_flag(&mut words, "--root", &self.root);
        push_flag(&mut words, "--debug", self.debug);
        push_path_flag(&mut words, "--log", &self.log);
        if let Some(format) = self.log_format {
            push_text(&mut words, "--log-format");
            push_text(&mut words, format.to_string().as_str());
        }
        push_flag(&mut words, "--systemd-cgroup", self.systemd_cgroup);
        if let Some(rootless) = self.rootless {
            push_text(
                &mut words,
                if rootless {
                    "--rootless=true"
                } else {
                    "--rootless=false"
                },
            );
        }
        assert(words.deep_view() =~= self@.global());
        words
    }

    /// The plan of an operation under these settings.
    pub(crate) fn plan(&self, runtime: Runtime, operation: Vec<Word>, io: Option<Close>) -> (plan:
        Plan)
        ensures
            plan@ == self@.plan(runtime, operation.deep_view(), io),
    {
        let lead: Vec<Word> = Vec::new();
        assert(lead.deep_view() =~= Seq::<WordView>::empty());
        Plan {
            program: self.command.clone(),
            operation,
            lead,
            global: self.args(),
            runtime,
            io,
            again: false,
            capture: false,
        }
    }

    /// The plan of an operation whose output is read.
    pub(crate) fn read_plan(&self, runtime: Runtime, operation: Vec<Word>) -> (plan: Plan)
        ensures
            plan@ == self@.read_plan(runtime, operation.deep_view()),
    {
        let mut plan = self.plan(runtime, operation, None);
        plan.capture = true;
        plan
    }
}

} // verus!
