//! Configurations and the command lines that they lead to.

use runc::command::{CommandLine, Stdio};
use runc::error::Error;
use runc::options::{CreateOpts, DeleteOpts, ExecOpts, KillOpts};
use runc::step::{Event, Step};
use runc::{AsyncClient, Client, Config, LogFormat};

fn client(config: &mut Config) -> Client {
    config.build(Ok("/usr/bin/runc".to_string())).unwrap()
}

fn async_client(config: &mut Config) -> AsyncClient {
    config.build_async(Ok("/usr/bin/runc".to_string())).unwrap()
}

/// The command line that a call comes to while every path lies in `/work`.
fn command(first: Step) -> CommandLine {
    let mut step = first;
    loop {
        let event = match step {
            Step::NameSpec { .. } => Event::SpecNamed(Ok("/run/spec".to_string())),
            Step::WriteSpec { .. } => Event::SpecWritten(Ok(())),
            Step::Resolve { ref path, .. } => Event::PathResolved(Ok(format!("/work/{}", path))),
            Step::AttachIo { .. } => Event::IoAttached(Ok(())),
            Step::Launch { command, .. } => return command,
            _ => panic!("the call is over"),
        };
        step = step.advance(event);
    }
}

fn args(first: Step) -> Vec<String> {
    command(first).args
}

#[test]
fn nothing_set_adds_nothing() {
    let client = client(&mut Config::new());
    assert_eq!(args(client.start("c")), ["start", "c"]);
    assert_eq!(args(client.list()), ["list", "--format-json"]);
    assert_eq!(args(client.state("c")), ["state", "c"]);
}

#[test]
fn settings_stand_before_the_operation() {
    let mut config = Config::new();
    config
        .root("new_root")
        .debug(true)
        .log("log.json")
        .log_format(LogFormat::Json)
        .systemd_cgroup(true)
        .rootless(true)
        .set_pgid(true)
        .timeout(1000);
    let expected = [
        "--root",
        "/work/new_root",
        "--debug",
        "--log",
        "/work/log.json",
        "--log-format",
        "json",
        "--systemd-cgroup",
        "--rootless=true",
        "start",
        "c",
    ];
    assert_eq!(args(client(&mut config).start("c")), expected);
    assert_eq!(args(async_client(&mut config).start("c")), expected);
    assert_eq!(args(client(&mut config.clone()).start("c")), expected);
}

#[test]
fn later_settings_win() {
    let mut config = Config::new();
    config.debug(true).debug(false).root("a").root("b");
    assert_eq!(
        args(client(&mut config).start("c")),
        ["--root", "/work/b", "start", "c"]
    );
}

#[test]
fn log_formats() {
    let mut config = Config::new();
    assert_eq!(
        args(client(config.log_format_json()).start("c")),
        ["--log-format", "json", "start", "c"]
    );
    assert_eq!(
        args(client(config.log_format_text()).start("c")),
        ["--log-format", "text", "start", "c"]
    );
    assert_eq!(LogFormat::Json.to_string(), "json");
    assert_eq!(LogFormat::Text.to_string(), "text");
}

#[test]
fn rootless_auto_takes_back() {
    let mut config = Config::new();
    assert_eq!(
        args(client(config.rootless(false)).start("c")),
        ["--rootless=false", "start", "c"]
    );
    assert_eq!(
        args(client(config.rootless_auto()).start("c")),
        ["start", "c"]
    );
}

#[test]
fn binary_to_look_for() {
    let mut config = Config::new();
    assert_eq!(config.program(), "runc");
    assert_eq!(config.command("/opt/runc").program(), "/opt/runc");
    let client = config.build(Ok("/opt/bin/runc".to_string())).unwrap();
    assert_eq!(command(client.start("c")).program, "/opt/bin/runc");
}

#[test]
fn missing_binary_builds_no_client() {
    let mut config = Config::new();
    assert!(matches!(
        config.build(Err(Error::NotFound)),
        Err(Error::NotFound)
    ));
    assert!(matches!(
        config.build_async(Err(Error::NotFound)),
        Err(Error::NotFound)
    ));
    assert!(matches!(
        Client::from_config(config.clone(), Err(Error::NotFound)),
        Err(Error::NotFound)
    ));
    assert!(matches!(
        AsyncClient::from_config(config, Err(Error::NotFound)),
        Err(Error::NotFound)
    ));
}

#[test]
fn clients_from_config() {
    let mut config = Config::new();
    config.debug(true);
    let blocking = Client::from_config(config.clone(), Ok("r".to_string())).unwrap();
    assert_eq!(args(blocking.clone().pause("c")), ["--debug", "pause", "c"]);
    let other = AsyncClient::from_config(config, Ok("r".to_string())).unwrap();
    assert_eq!(args(other.clone().pause("c")), ["--debug", "pause", "c"]);
}

#[test]
fn streams_and_environment() {
    let line = command(client(&mut Config::new()).start("c"));
    assert_eq!(line.env_remove, "NOTIFY_SOCKET");
    assert_eq!((line.stdin, line.stdout, line.stderr), (None, None, None));
    let line = command(async_client(&mut Config::new()).start("c"));
    assert_eq!(line.env_remove, "NOTIFY_SOCKET");
    assert_eq!(
        (line.stdin, line.stdout, line.stderr),
        (
            Some(Stdio::Null),
            Some(Stdio::Inherit),
            Some(Stdio::Inherit)
        )
    );
}

#[test]
fn output_that_is_read_is_captured() {
    let blocking = client(&mut Config::new());
    for step in [blocking.list(), blocking.state("c")] {
        let line = command(step);
        assert_eq!(
            (line.stdin, line.stdout, line.stderr),
            (None, Some(Stdio::Piped), None)
        );
    }
    let other = async_client(Config::new().root("r"));
    let steps = [
        other.list(),
        other.state("c"),
        other.ps("c"),
        other.stats("c"),
    ];
    for step in steps {
        let line = command(step);
        assert_eq!(
            (line.stdin, line.stdout, line.stderr),
            (
                Some(Stdio::Null),
                Some(Stdio::Piped),
                Some(Stdio::Inherit)
            )
        );
    }
}

#[test]
fn given_arguments_stand_last() {
    let mut config = Config::new();
    config.root("r");
    let given = ["features".to_string(), "--x".to_string()];
    let plan = client(&mut config).command(&given);
    assert_eq!(plan.next_path(0), Some("r".to_string()));
    assert_eq!(plan.next_path(1), None);
    assert_eq!(
        plan.command_line(&vec!["/r".to_string()]).args,
        ["--root", "/r", "features", "--x"]
    );
    let plan = async_client(&mut config).command(&given);
    assert_eq!(
        plan.command_line(&vec!["/r".to_string()]).args,
        ["--root", "/r", "features", "--x"]
    );
}

#[test]
fn no_linux_no_command() {
    match client(&mut Config::new()).command_unsupported(&[]) {
        Err(Error::Unimplemented(name)) => assert_eq!(name, "command"),
        other => panic!("{:?}", other),
    }
}

#[test]
fn create_words() {
    let client = client(Config::new().root("r"));
    assert_eq!(
        args(client.create("c", "b", None)),
        ["--root", "/work/r", "create", "--bundle", "/work/b", "c"]
    );
    let opts = CreateOpts {
        io: false,
        pid_file: Some("pid".to_string()),
        console_socket: Some("sock".to_string()),
        no_pivot: true,
        no_new_keyring: true,
        detach: true,
    };
    assert_eq!(
        args(client.create("c", "b", Some(&opts))),
        [
            "--root",
            "/work/r",
            "create",
            "--bundle",
            "/work/b",
            "--pid-file",
            "/work/pid",
            "--console-socket",
            "/work/sock",
            "--no-pivot",
            "--no-new-keyring",
            "--detach",
            "c"
        ]
    );
}

#[test]
fn run_words() {
    let opts = CreateOpts {
        pid_file: Some("pid".to_string()),
        ..CreateOpts::new()
    };
    let expected = ["run", "--bundle", "/work/b", "--pid-file", "/work/pid", "c"];
    let blocking = client(&mut Config::new());
    assert_eq!(args(blocking.run("c", "b", Some(&opts))), expected);
    let other = async_client(&mut Config::new());
    assert_eq!(args(other.run("c", "b", Some(&opts))), expected);
}

#[test]
fn exec_and_update_words() {
    let client = client(&mut Config::new());
    let opts = ExecOpts {
        detach: true,
        ..ExecOpts::new()
    };
    let json = || Ok("{}".to_string());
    assert_eq!(
        args(client.exec_json("c", json(), Some(&opts))),
        ["exec", "process", "/run/spec", "--detach", "c"]
    );
    assert_eq!(
        args(client.update_json("c", json())),
        ["update", "--resources", "/run/spec", "c"]
    );
}

#[test]
fn delete_and_kill_words() {
    let blocking = client(&mut Config::new());
    let other = async_client(&mut Config::new());
    let force = DeleteOpts { force: true };
    let all = KillOpts { all: true };
    assert_eq!(args(blocking.delete("c", None)), ["delete", "c"]);
    assert_eq!(
        args(blocking.delete("c", Some(&DeleteOpts::new()))),
        ["delete", "c"]
    );
    assert_eq!(
        args(other.delete("c", Some(&force))),
        ["delete", "--force", "c"]
    );
    assert_eq!(
        args(blocking.kill("c", 9, Some(&KillOpts::new()))),
        ["kill", "c", "9"]
    );
    assert_eq!(
        args(other.kill("c", 15, Some(&all))),
        ["kill", "--all", "c", "15"]
    );
    assert_eq!(args(blocking.kill("c", 0, None)), ["kill", "c", "0"]);
    assert_eq!(
        args(blocking.kill("c", u32::MAX, None)),
        ["kill", "c", "4294967295"]
    );
}

#[test]
fn pause_is_not_resume() {
    let blocking = client(&mut Config::new());
    let other = async_client(&mut Config::new());
    assert_eq!(args(blocking.pause("c")), ["pause", "c"]);
    assert_eq!(args(blocking.resume("c")), ["resume", "c"]);
    assert_eq!(args(other.pause("c")), ["pause", "c"]);
    assert_eq!(args(other.resume("c")), ["resume", "c"]);
}

#[test]
fn words_of_the_async_client() {
    let client = async_client(&mut Config::new());
    assert_eq!(args(client.ps("c")), ["ps", "--format-json", "c"]);
    assert_eq!(args(client.stats("c")), ["events", "--stats", "c"]);
    assert_eq!(args(client.state("c")), ["state", "c"]);
    assert_eq!(args(client.list()), ["list", "--format-json"]);
    assert_eq!(
        args(client.create("c", "b", None)),
        ["create", "--bundle", "/work/b", "c"]
    );
}
