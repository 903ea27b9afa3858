//! Whole calls, with the processes that they run.

use oci_spec::runtime::Process;
use runc::command::{CommandLine, Stdio};
use runc::error::Error;
use runc::exit::{Exit, ExitStatus, Outcome};
use runc::options::{CreateOpts, DeleteOpts, ExecOpts};
use runc::reply::{discard, Reading};
use runc::step::{Event, Step};
use runc::{AsyncClient, Client, Config, Response};

// following style of go-runc, use only true/false to test
const CMD_TRUE: &str = "/bin/true";
const CMD_FALSE: &str = "/bin/false";

fn ok_client() -> Client {
    Config::new()
        .command(CMD_TRUE)
        .build(Ok(CMD_TRUE.to_string()))
        .expect("unable to create runc instance")
}

fn fail_client() -> Client {
    Config::new()
        .command(CMD_FALSE)
        .build(Ok(CMD_FALSE.to_string()))
        .expect("unable to create runc instance")
}

fn ok_async_client() -> AsyncClient {
    Config::new()
        .command(CMD_TRUE)
        .build_async(Ok(CMD_TRUE.to_string()))
        .expect("unable to create runc instance")
}

fn fail_async_client() -> AsyncClient {
    Config::new()
        .command(CMD_FALSE)
        .build_async(Ok(CMD_FALSE.to_string()))
        .expect("unable to create runc instance")
}

fn dummy_process() -> Process {
    serde_json::from_str(
        "
            {
                \"user\": {
                    \"uid\": 1000,
                    \"gid\": 1000
                },
                \"cwd\": \"/path/to/dir\"
            }",
    )
    .unwrap()
}

/// Runs a child process to its end, and captures what it writes where the command asks for that.
async fn run(line: &CommandLine) -> Outcome {
    let mut command = tokio::process::Command::new(&line.program);
    command.args(&line.args).env_remove(&line.env_remove);
    let mut pid = 0;
    let finished = if line.stdout == Some(Stdio::Piped) {
        command.output().await
    } else {
        match command.spawn() {
            Ok(child) => {
                pid = child.id().unwrap_or(0);
                child.wait_with_output().await
            }
            Err(e) => return Outcome::SpawnFailed(e),
        }
    };
    match finished {
        Ok(output) => Outcome::Exited(Exit {
            pid,
            status: ExitStatus {
                code: output.status.code(),
                signal: None,
            },
            stdout: output.stdout,
            stderr: output.stderr,
        }),
        Err(e) => Outcome::WaitFailed(e),
    }
}

/// Takes a call from its first step to its answer.
fn drive(first: Step) -> Result<Response, Error> {
    let runtime = tokio::runtime::Builder::new_current_thread()
        .enable_all()
        .build()
        .unwrap();
    let mut step = first;
    loop {
        let event = match &step {
            Step::NameSpec { .. } => Event::SpecNamed(Ok("/run/user/0/spec.json".to_string())),
            Step::WriteSpec { file, text, .. } => {
                assert_eq!(file, "/run/user/0/spec.json");
                assert!(text.starts_with('{'));
                Event::SpecWritten(Ok(()))
            }
            Step::Resolve { path, .. } => Event::PathResolved(Ok(format!("/work/{}", path))),
            Step::AttachIo { .. } => Event::IoAttached(Ok(())),
            Step::Launch { command, .. } => Event::Finished(runtime.block_on(run(command))),
            Step::CloseIo { .. } => Event::IoClosed,
            Step::Done { .. } => break,
        };
        step = step.advance(event);
    }
    match step {
        Step::Done { answer } => answer,
        _ => unreachable!(),
    }
}

#[test]
fn test_create() {
    let opts = CreateOpts::new();
    let ok_runc = ok_client();
    drive(ok_runc.create("fake-id", "fake-bundle", Some(&opts))).expect("true failed.");
    println!("ok_runc succeeded.");
    let fail_runc = fail_client();
    match drive(fail_runc.create("fake-id", "fake-bundle", Some(&opts))) {
        Ok(_) => panic!("fail_runc returned exit status 0."),
        Err(Error::CommandFailed {
            status,
            stdout,
            stderr,
        }) => {
            if status.code().unwrap() == 1 && stdout.is_empty() && stderr.is_empty() {
                println!("fail_runc succeeded.");
            } else {
                panic!("unexpected outputs from fail_runc.")
            }
        }
        Err(e) => panic!("unexpected error from fail_runc: {:?}", e),
    }
}

#[test]
fn test_run() {
    let opts = CreateOpts::new();
    let ok_runc = ok_client();
    drive(ok_runc.run("fake-id", "fake-bundle", Some(&opts))).expect("true failed.");
    println!("ok_runc succeeded.");
    let fail_runc = fail_client();
    match drive(fail_runc.run("fake-id", "fake-bundle", Some(&opts))) {
        Ok(_) => panic!("fail_runc returned exit status 0."),
        Err(Error::CommandFailed {
            status,
            stdout,
            stderr,
        }) => {
            if status.code().unwrap() == 1 && stdout.is_empty() && stderr.is_empty() {
                println!("fail_runc succeeded.");
            } else {
                panic!("unexpected outputs from fail_runc.")
            }
        }
        Err(e) => panic!("unexpected error from fail_runc: {:?}", e),
    }
}

#[test]
fn test_exec() {
    let opts = ExecOpts::new();
    let ok_runc = ok_client();
    let proc = dummy_process();
    discard(drive(ok_runc.exec("fake-id", &proc, Some(&opts)))).expect("true failed.");
    println!("ok_runc succeeded.");
    let fail_runc = fail_client();
    match discard(drive(fail_runc.exec("fake-id", &proc, Some(&opts)))) {
        Ok(_) => panic!("fail_runc returned exit status 0."),
        Err(Error::CommandFailed {
            status,
            stdout,
            stderr,
        }) => {
            if status.code().unwrap() == 1 && stdout.is_empty() && stderr.is_empty() {
                println!("fail_runc succeeded.");
            } else {
                panic!("unexpected outputs from fail_runc.")
            }
        }
        Err(e) => panic!("unexpected error from fail_runc: {:?}", e),
    }
}

#[test]
fn test_delete() {
    let opts = DeleteOpts::new();
    let ok_runc = ok_client();
    discard(drive(ok_runc.delete("fake-id", Some(&opts)))).expect("true failed.");
    println!("ok_runc succeeded.");
    let fail_runc = fail_client();
    match discard(drive(fail_runc.delete("fake-id", Some(&opts)))) {
        Ok(_) => panic!("fail_runc returned exit status 0."),
        Err(Error::CommandFailed {
            status,
            stdout,
            stderr,
        }) => {
            if status.code().unwrap() == 1 && stdout.is_empty() && stderr.is_empty() {
                println!("fail_runc succeeded.");
            } else {
                panic!("unexpected outputs from fail_runc.")
            }
        }
        Err(e) => panic!("unexpected error from fail_runc: {:?}", e),
    }
}

#[test]
fn test_async_create() {
    let opts = CreateOpts::new();
    let ok_runc = ok_async_client();
    discard(drive(ok_runc.create("fake-id", "fake-bundle", Some(&opts)))).expect("true failed.");
    println!("ok_runc succeeded.");
    let fail_runc = fail_async_client();
    match discard(drive(fail_runc.create("fake-id", "fake-bundle", Some(&opts)))) {
        Ok(_) => panic!("fail_runc returned exit status 0."),
        Err(Error::CommandFailed {
            status,
            stdout,
            stderr,
        }) => {
            if status.code().unwrap() == 1 && stdout.is_empty() && stderr.is_empty() {
                println!("fail_runc succeeded.");
            } else {
                panic!("unexpected outputs from fail_runc.")
            }
        }
        Err(e) => panic!("unexpected error from fail_runc: {:?}", e),
    }
}

#[test]
fn test_async_start() {
    let ok_runc = ok_async_client();
    discard(drive(ok_runc.start("fake-id"))).expect("true failed.");
    println!("ok_runc succeeded.");
    let fail_runc = fail_async_client();
    match discard(drive(fail_runc.start("fake-id"))) {
        Ok(_) => panic!("fail_runc returned exit status 0."),
        Err(Error::CommandFailed {
            status,
            stdout,
            stderr,
        }) => {
            if status.code().unwrap() == 1 && stdout.is_empty() && stderr.is_empty() {
                println!("fail_runc succeeded.");
            } else {
                panic!("unexpected outputs from fail_runc.")
            }
        }
        Err(e) => panic!("unexpected error from fail_runc: {:?}", e),
    }
}

#[test]
fn test_async_run() {
    let opts = CreateOpts::new();
    let ok_runc = Config::new()
        .command(CMD_TRUE)
        .build_async(Ok(CMD_TRUE.to_string()))
        .expect("unable to create runc instance");
    discard(drive(ok_runc.create("fake-id", "fake-bundle", Some(&opts)))).expect("true failed.");
    println!("ok_runc succeeded.");
    let opts = CreateOpts::new();
    let fail_runc = Config::new()
        .command(CMD_FALSE)
        .build_async(Ok(CMD_FALSE.to_string()))
        .expect("unable to create runc instance");
    match discard(drive(fail_runc.create("fake-id", "fake-bundle", Some(&opts)))) {
        Ok(_) => panic!("fail_runc returned exit status 0."),
        Err(Error::CommandFailed {
            status,
            stdout,
            stderr,
        }) => {
            if status.code().unwrap() == 1 && stdout.is_empty() && stderr.is_empty() {
                println!("fail_runc succeeded.");
            } else {
                panic!("unexpected outputs from fail_runc.")
            }
        }
        Err(e) => panic!("unexpected error from fail_runc: {:?}", e),
    }
}

#[test]
fn test_async_delete() {
    let opts = DeleteOpts::new();
    let ok_runc = Config::new()
        .command(CMD_TRUE)
        .build_async(Ok(CMD_TRUE.to_string()))
        .expect("unable to create runc instance");
    discard(drive(ok_runc.delete("fake-id", Some(&opts)))).expect("true failed.");
    println!("ok_runc succeeded.");
    let opts = DeleteOpts::new();
    let fail_runc = Config::new()
        .command(CMD_FALSE)
        .build_async(Ok(CMD_FALSE.to_string()))
        .expect("unable to create runc instance");
    match discard(drive(fail_runc.delete("fake-id", Some(&opts)))) {
        Ok(_) => panic!("fail_runc returned exit status 0."),
        Err(Error::CommandFailed {
            status,
            stdout,
            stderr,
        }) => {
            if status.code().unwrap() == 1 && stdout.is_empty() && stderr.is_empty() {
                println!("fail_runc succeeded.");
            } else {
                panic!("unexpected outputs from fail_runc.")
            }
        }
        Err(e) => panic!("unexpected error from fail_runc: {:?}", e),
    }
}

/// A binary that is not there cannot be started; the clients report it each in its own way.
#[test]
fn missing_binary() {
    let nowhere = "/nowhere/runc";
    let blocking = Config::new().build(Ok(nowhere.to_string())).unwrap();
    assert!(matches!(
        drive(blocking.start("c")),
        Err(Error::ProcessSpawnFailed(_))
    ));
    let other = Config::new().build_async(Ok(nowhere.to_string())).unwrap();
    assert!(matches!(
        drive(other.start("c")),
        Err(Error::InvalidCommand(_))
    ));
}

/// What a process writes is what a call that reads it gets.
#[test]
fn output_is_read() {
    let echo = "/bin/echo";
    let client = Config::new().build(Ok(echo.to_string())).unwrap();
    let answer = drive(client.list());
    assert!(matches!(
        client.list_answer::<u8>(answer),
        Reading::Parse(text) if text == "list --format-json"
    ));
    let other = Config::new().build_async(Ok(echo.to_string())).unwrap();
    let answer = drive(other.state("c"));
    assert!(matches!(
        other.state_answer::<u8>(answer),
        Reading::Parse(text) if text == "state c\n"
    ));
    let answer = drive(other.ps("c"));
    assert!(matches!(
        other.ps_answer(answer),
        Err(Error::JsonDeserializationFailed(_))
    ));
}
