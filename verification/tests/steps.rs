//! The course of calls, step by step.

use std::time::Duration;

use oci_spec::runtime::{Linux, Process};
use runc::command::Runtime;
use runc::error::Error;
use runc::exit::{Exit, ExitStatus, Outcome};
use runc::options::{CreateOpts, ExecOpts};
use runc::step::{Event, Step};
use runc::{AsyncClient, Client, Config, Response};

fn client() -> Client {
    Config::new().build(Ok("runc".to_string())).unwrap()
}

fn async_client() -> AsyncClient {
    Config::new().build_async(Ok("runc".to_string())).unwrap()
}

fn io_error() -> std::io::Error {
    std::io::Error::new(std::io::ErrorKind::Other, "broken")
}

fn json_error() -> serde_json::Error {
    serde_json::from_str::<u8>("x").unwrap_err()
}

fn exited(code: Option<i32>, stdout: &[u8], stderr: &[u8]) -> Outcome {
    Outcome::Exited(Exit {
        pid: 42,
        status: ExitStatus {
            code,
            signal: if code.is_none() { Some(9) } else { None },
        },
        stdout: stdout.to_vec(),
        stderr: stderr.to_vec(),
    })
}

fn done(step: Step) -> Result<Response, Error> {
    match step {
        Step::Done { answer } => answer,
        other => panic!("not over: {:?}", other),
    }
}

fn resolved(step: Step, path: &str, absolute: &str) -> Step {
    match &step {
        Step::Resolve { path: due, .. } => assert_eq!(due, path),
        other => panic!("{:?}", other),
    }
    step.advance(Event::PathResolved(Ok(absolute.to_string())))
}

#[test]
fn outputs_are_joined() {
    let out = "gr\u{fc}n ".as_bytes();
    let response = client().launch(exited(Some(0), out, b"red"), true).unwrap();
    assert_eq!(response.pid, 42);
    assert!(response.status.success());
    assert_eq!(response.output, "gr\u{fc}n red");
    assert_eq!(response.clone().output, "gr\u{fc}n red");
    let response = async_client()
        .launch(exited(Some(0), out, b"red"), false)
        .unwrap();
    assert_eq!(response.output, "gr\u{fc}n ");
}

#[test]
fn failures_keep_both_streams() {
    for code in [Some(1), Some(-1), None] {
        match client().launch(exited(code, b"out", b"err"), true) {
            Err(Error::CommandFailed {
                status,
                stdout,
                stderr,
            }) => {
                assert_eq!(status.code(), code);
                assert!(!status.success());
                assert_eq!(stdout, "out");
                assert_eq!(stderr, "err");
            }
            other => panic!("{:?}", other),
        }
    }
}

#[test]
fn launch_errors() {
    assert!(matches!(
        client().launch(Outcome::SpawnFailed(io_error()), true),
        Err(Error::ProcessSpawnFailed(_))
    ));
    assert!(matches!(
        client().launch(Outcome::WaitFailed(io_error()), true),
        Err(Error::InvalidCommand(_))
    ));
    assert!(matches!(
        async_client().launch(Outcome::SpawnFailed(io_error()), true),
        Err(Error::InvalidCommand(_))
    ));
    assert!(matches!(
        async_client().launch(Outcome::WaitFailed(io_error()), true),
        Err(Error::InvalidCommand(_))
    ));
}

#[test]
fn paths_in_their_order() {
    let client = Config::new()
        .root("r")
        .log("l")
        .build(Ok("runc".to_string()))
        .unwrap();
    let opts = CreateOpts {
        pid_file: Some("p".to_string()),
        ..CreateOpts::new()
    };
    let step = client.create("c", "b", Some(&opts));
    let step = resolved(step, "b", "/b");
    let step = resolved(step, "p", "/p");
    let step = resolved(step, "r", "/r");
    let step = resolved(step, "l", "/l");
    match step {
        Step::Launch { command, .. } => assert_eq!(
            command.args,
            [
                "--root", "/r", "--log", "/l", "create", "--bundle", "/b", "--pid-file", "/p", "c"
            ]
        ),
        other => panic!("{:?}", other),
    }
    let step = client.run("c", "b", Some(&opts));
    let step = resolved(step, "p", "/p");
    let step = resolved(step, "b", "/b");
    let step = resolved(step, "r", "/r");
    let step = resolved(step, "l", "/l");
    let step = resolved(step, "r", "/r2");
    let step = resolved(step, "l", "/l2");
    match step {
        Step::Launch { command, .. } => assert_eq!(
            command.args,
            [
                "--root", "/r2", "--log", "/l2", "run", "--bundle", "/b", "--pid-file", "/p", "c"
            ]
        ),
        other => panic!("{:?}", other),
    }
}

#[test]
fn first_bad_path_decides() {
    let step = client().create("c", "b", None);
    let step = step.advance(Event::PathResolved(Err(Error::InvalidPath(io_error()))));
    assert!(matches!(done(step), Err(Error::InvalidPath(_))));
}

#[test]
fn run_fails_on_its_options_before_its_bundle() {
    let opts = CreateOpts {
        pid_file: Some("p".to_string()),
        console_socket: Some("s".to_string()),
        ..CreateOpts::new()
    };
    for step in [
        client().run("c", "b", Some(&opts)),
        async_client().run("c", "b", Some(&opts)),
    ] {
        let step = resolved(step, "p", "/p");
        assert!(matches!(&step, Step::Resolve { path, .. } if path == "s"));
        let step = step.advance(Event::PathResolved(Err(Error::InvalidPath(io_error()))));
        assert!(matches!(done(step), Err(Error::InvalidPath(_))));
    }

    let step = async_client().run("c", "b", Some(&opts));
    let step = resolved(step, "p", "/p");
    let step = resolved(step, "s", "/s");
    let step = resolved(step, "b", "/b");
    match step {
        Step::Launch { command, .. } => assert_eq!(
            command.args,
            [
                "run",
                "--bundle",
                "/b",
                "--pid-file",
                "/p",
                "--console-socket",
                "/s",
                "c"
            ]
        ),
        other => panic!("{:?}", other),
    }
}

#[test]
fn create_with_streams() {
    let opts = CreateOpts {
        io: true,
        ..CreateOpts::new()
    };
    let attach = |step: Step| {
        let step = resolved(step, "b", "/b");
        assert!(matches!(step, Step::AttachIo { .. }));
        step
    };
    let launch = |step: Step| {
        let step = step.advance(Event::IoAttached(Ok(())));
        match &step {
            Step::Launch { attached, .. } => assert!(attached.is_some()),
            other => panic!("{:?}", other),
        }
        step
    };

    let step = attach(client().create("c", "b", Some(&opts)));
    let step = step.advance(Event::IoAttached(Err(io_error())));
    assert!(matches!(done(step), Err(Error::UnavailableIO(_))));

    let step = launch(attach(client().create("c", "b", Some(&opts))));
    let step = step.advance(Event::Finished(exited(Some(0), b"", b"")));
    assert!(matches!(step, Step::CloseIo { .. }));
    assert_eq!(done(step.advance(Event::IoClosed)).unwrap().pid, 42);

    let step = launch(attach(client().create("c", "b", Some(&opts))));
    let step = step.advance(Event::Finished(exited(Some(1), b"", b"")));
    assert!(matches!(done(step), Err(Error::CommandFailed { .. })));

    let step = launch(attach(async_client().create("c", "b", Some(&opts))));
    let step = step.advance(Event::Finished(exited(Some(1), b"", b"")));
    assert!(matches!(step, Step::CloseIo { .. }));
    let step = step.advance(Event::IoClosed);
    assert!(matches!(done(step), Err(Error::CommandFailed { .. })));

    let step = launch(attach(async_client().create("c", "b", Some(&opts))));
    let step = step.advance(Event::Finished(Outcome::WaitFailed(io_error())));
    assert!(matches!(done(step), Err(Error::InvalidCommand(_))));
}

#[test]
fn run_with_streams() {
    let opts = CreateOpts {
        io: true,
        ..CreateOpts::new()
    };
    let step = resolved(client().run("c", "b", Some(&opts)), "b", "/b");
    assert!(matches!(step, Step::AttachIo { .. }));
    let step = step.advance(Event::IoAttached(Ok(())));
    match &step {
        Step::Launch {
            attached, runtime, ..
        } => {
            assert!(attached.is_none());
            assert_eq!(*runtime, Runtime::Blocking);
        }
        other => panic!("{:?}", other),
    }
    let step = step.advance(Event::Finished(exited(Some(0), b"", b"")));
    assert!(done(step).is_ok());

    let step = resolved(async_client().run("c", "b", Some(&opts)), "b", "/b");
    match step {
        Step::Launch {
            attached, runtime, ..
        } => {
            assert!(attached.is_none());
            assert_eq!(runtime, Runtime::Async);
        }
        other => panic!("{:?}", other),
    }
}

#[test]
fn exec_writes_the_file_that_it_names() {
    let spec: Process =
        serde_json::from_str("{\"user\":{\"uid\":1000,\"gid\":1000},\"cwd\":\"/path/to/dir\"}")
            .unwrap();
    let opts = ExecOpts {
        io: true,
        ..ExecOpts::new()
    };
    let step = client().exec("c", &spec, Some(&opts));
    let step = step.advance(Event::SpecNamed(Ok("/run/f".to_string())));
    match &step {
        Step::WriteSpec { file, text, .. } => {
            assert_eq!(file, "/run/f");
            assert!(text.contains("\"cwd\":\"/path/to/dir\""));
            let back: Process = serde_json::from_str(text).unwrap();
            assert_eq!(back, spec);
        }
        other => panic!("{:?}", other),
    }
    let step = step.advance(Event::SpecWritten(Ok(())));
    match &step {
        Step::AttachIo { command, .. } => {
            assert_eq!(command.args, ["exec", "process", "/run/f", "c"])
        }
        other => panic!("{:?}", other),
    }
    let step = step.advance(Event::IoAttached(Ok(())));
    let step = step.advance(Event::Finished(exited(Some(0), b"", b"")));
    assert!(done(step).is_ok());
}

#[test]
fn update_writes_the_file_that_it_names() {
    let resources: Linux =
        serde_json::from_str("{\"cgroupsPath\":\"/sys/c\",\"mountLabel\":\"label\"}").unwrap();
    let steps = [
        client().update("c", &resources),
        async_client().update("c", &resources),
    ];
    for step in steps {
        let step = step.advance(Event::SpecNamed(Ok("/run/f".to_string())));
        match &step {
            Step::WriteSpec { file, text, .. } => {
                assert_eq!(file, "/run/f");
                let back: Linux = serde_json::from_str(text).unwrap();
                assert_eq!(back, resources);
            }
            other => panic!("{:?}", other),
        }
        match step.advance(Event::SpecWritten(Ok(()))) {
            Step::Launch { command, .. } => {
                assert_eq!(command.args, ["update", "--resources", "/run/f", "c"])
            }
            other => panic!("{:?}", other),
        }
    }
}

#[test]
fn spec_file_failures_in_their_order() {
    let step = client().exec_json("c", Err(json_error()), None);
    let step = step.advance(Event::SpecNamed(Err(Error::NotFound)));
    assert!(matches!(done(step), Err(Error::NotFound)));

    let step = async_client().update_json("c", Err(json_error()));
    let step = step.advance(Event::SpecNamed(Ok("/run/f".to_string())));
    assert!(matches!(
        done(step),
        Err(Error::JsonDeserializationFailed(_))
    ));

    let step = client().update_json("c", Ok("{}".to_string()));
    let step = step.advance(Event::SpecNamed(Ok("/run/f".to_string())));
    let step = step.advance(Event::SpecWritten(Err(io_error())));
    assert!(matches!(done(step), Err(Error::SpecFileCreationFailed(_))));
}

#[test]
fn other_events_change_nothing() {
    let step = client().start("c");
    let step = step.advance(Event::IoClosed);
    assert!(matches!(step, Step::Launch { .. }));
    let step = step.advance(Event::Finished(exited(Some(0), b"", b"")));
    let step = step.advance(Event::Finished(exited(Some(1), b"", b"")));
    assert!(done(step).is_ok());
}

#[test]
fn operations_that_are_not_offered() {
    let name = |done: Result<(), Error>| match done {
        Err(Error::Unimplemented(name)) => name,
        other => panic!("{:?}", other),
    };
    let spec = Process::default();
    assert_eq!(name(client().checkpoint()), "checkpoint");
    assert_eq!(name(client().restore()), "restore");
    assert_eq!(name(async_client().checkpoint()), "checkpoint");
    assert_eq!(name(async_client().restore()), "restore");
    assert_eq!(
        name(async_client().events("c", &Duration::from_millis(1))),
        "events"
    );
    assert_eq!(name(async_client().exec("c", &spec, None)), "exec");
}
