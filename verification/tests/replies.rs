//! What answers mean.

use runc::error::Error;
use runc::exit::{ExitStatus, Response};
use runc::reply::{
    discard, list_reply, numbers_reply, parsed, state_reply, stats_parsed, Reading,
};
use runc::text::decimal_text;
use runc::Config;

fn answer(output: &str) -> Result<Response, Error> {
    Ok(Response {
        pid: 1,
        status: ExitStatus {
            code: Some(0),
            signal: None,
        },
        output: output.to_string(),
    })
}

fn listed(output: &str) -> Option<String> {
    match list_reply::<u8>(answer(output)) {
        Reading::Parse(text) => Some(text),
        Reading::Done(list) => {
            assert!(list.unwrap().is_empty());
            None
        }
    }
}

#[test]
fn null_is_the_empty_list() {
    assert_eq!(listed("null"), None);
    assert_eq!(listed(" \n\t\u{a0}null\u{3000}\r\n"), None);
    assert_eq!(listed("nulls").unwrap(), "nulls");
    assert_eq!(listed("n ull").unwrap(), "n ull");
    assert_eq!(listed("").unwrap(), "");
}

#[test]
fn lists_are_trimmed() {
    assert_eq!(listed("\n [1, 2] \n").unwrap(), "[1, 2]");
    assert_eq!(listed("\u{200b}[] ").unwrap(), "\u{200b}[]");
}

#[test]
fn states_are_not_trimmed() {
    match state_reply::<u8>(answer(" null\n")) {
        Reading::Parse(text) => assert_eq!(text, " null\n"),
        other => panic!("{:?}", other),
    }
}

#[test]
fn failed_calls_stay_failed() {
    assert!(matches!(
        list_reply::<u8>(Err(Error::NotFound)),
        Reading::Done(Err(Error::NotFound))
    ));
    assert!(matches!(
        state_reply::<u8>(Err(Error::NotFound)),
        Reading::Done(Err(Error::NotFound))
    ));
    assert!(matches!(
        numbers_reply(Err(Error::NotFound)),
        Err(Error::NotFound)
    ));
    assert!(matches!(
        discard(Err(Error::NotFound)),
        Err(Error::NotFound)
    ));
    assert!(discard(answer("x")).is_ok());
}

#[test]
fn numbers() {
    assert_eq!(numbers_reply(answer(" [1, 20,300]\n")).unwrap(), [1, 20, 300]);
    assert!(numbers_reply(answer("null\n")).unwrap().is_empty());
    assert!(matches!(
        numbers_reply(answer("[1, -2]")),
        Err(Error::JsonDeserializationFailed(_))
    ));
    assert!(matches!(
        numbers_reply(answer("")),
        Err(Error::JsonDeserializationFailed(_))
    ));
}

/// Each call that reads its output has a reader of its own.
#[test]
fn answers_of_the_clients() {
    let client = Config::new().build(Ok("runc".to_string())).unwrap();
    let other = Config::new().build_async(Ok("runc".to_string())).unwrap();
    assert!(matches!(
        client.list_answer::<u8>(answer(" null ")),
        Reading::Done(Ok(list)) if list.is_empty()
    ));
    assert!(matches!(
        other.list_answer::<u8>(answer(" [1] ")),
        Reading::Parse(text) if text == "[1]"
    ));
    let state = "{\"id\":\"c\"}\n";
    assert!(matches!(
        client.state_answer::<u8>(answer(state)),
        Reading::Parse(text) if text == state
    ));
    assert!(matches!(
        other.state_answer::<u8>(answer(state)),
        Reading::Parse(text) if text == state
    ));
    assert!(matches!(
        other.stats_answer::<u8>(answer(state)),
        Reading::Parse(text) if text == state
    ));
    assert_eq!(other.ps_answer(answer("[3, 4]")).unwrap(), [3, 4]);
}

#[test]
fn parsing() {
    assert_eq!(parsed(serde_json::from_str::<u8>("5")).unwrap(), 5);
    assert!(matches!(
        parsed(serde_json::from_str::<u8>("x")),
        Err(Error::JsonDeserializationFailed(_))
    ));
}

#[test]
fn statistics() {
    assert_eq!(stats_parsed(Ok(Some(5))).unwrap(), 5);
    assert!(matches!(
        stats_parsed::<u8>(Ok(None)),
        Err(Error::MissingContainerStats)
    ));
    assert!(matches!(
        stats_parsed(serde_json::from_str::<Option<u8>>("x")),
        Err(Error::JsonDeserializationFailed(_))
    ));
}

#[test]
fn numerals() {
    for n in [0, 1, 9, 10, 15, 99, 100, 1234567890, u32::MAX] {
        assert_eq!(decimal_text(n), n.to_string());
    }
}
