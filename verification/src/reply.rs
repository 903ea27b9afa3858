//! What the answers of calls mean: lists, states, statistics.

use vstd::prelude::*;
use vstd::string::*;

use serde_json::Error as JsonError;

use crate::error::{Error, ErrorView};
use crate::exit::Response;
use crate::json::read_numbers;

verus! {

/// An answer on its way to a value.
#[derive(Debug)]
pub enum Reading<T> {
    /// The value is what this JSON text holds.
    Parse(String),
    /// The value is known, or there is none.
    Done(Result<T, Error>),
}

/// What the output of a call that lists things says: the text of the list, or nothing where the
/// list is empty. An empty list is written as `null`.
pub open spec fn list_text(output: Seq<char>) -> Option<Seq<char>> {
    if crate::text::trimmed(output) == "null"@ {
        None
    } else {
        Some(crate::text::trimmed(output))
    }
}

/// Drops the response of a call that is made for its effect.
pub fn discard(answer: Result<Response, Error>) -> (done: Result<(), Error>)
    ensures
        match answer {
            Ok(_) => done is Ok,
            Err(e) => done is Err && done->Err_0 == e,
        },
{
    match answer {
        Ok(_) => Ok(()),
        Err(e) => Err(e),
    }
}

/// What reading the answer of a call that lists things comes to.
pub open spec fn reads_list<T>(
    answer: Result<Response, Error>,
    reading: Reading<Vec<T>>,
) -> bool {
    match answer {
        Ok(response) => match list_text(response.output@) {
            Some(text) => reading matches Reading::Parse(json) && json@ == text,
            None => reading matches Reading::Done(Ok(list)) && list@ == Seq::<T>::empty(),
        },
        Err(e) => reading matches Reading::Done(Err(error)) && error == e,
    }
}

/// What reading the answer of a call that describes one thing comes to: its whole output is the
/// description.
pub open spec fn reads_state<T>(answer: Result<Response, Error>, reading: Reading<T>) -> bool {
    match answer {
        Ok(response) => reading matches Reading::Parse(json) && json@ == response.output@,
        Err(e) => reading matches Reading::Done(Err(error)) && error == e,
    }
}

/// Reads the answer of a call that lists things.
pub fn list_reply<T>(answer: Result<Response, Error>) -> (reading: Reading<Vec<T>>)
    ensures
        reads_list(answer, reading),
{
    match answer {
        Ok(response) => {
            let text = response.output.trim().to_owned();
            // Ugly hack to work around golang
            if text == "null".to_owned() {
                Reading::Done(Ok(Vec::new()))
            } else {
                Reading::Parse(text)
            }
        },
        Err(e) => Reading::Done(Err(e)),
    }
}

/// Reads the answer of a call that describes one thing.
pub fn state_reply<T>(answer: Result<Response, Error>) -> (reading: Reading<T>)
    ensures
        reads_state(answer, reading),
{
    match answer {
        Ok(response) => Reading::Parse(response.output),
        Err(e) => Reading::Done(Err(e)),
    }
}

/// What the attempt to parse an answer comes to.
pub fn parsed<T>(value: Result<T, JsonError>) -> (read: Result<T, Error>)
    ensures
        match value {
            Ok(value) => read is Ok && read->Ok_0 == value,
            Err(e) => read is Err && read->Err_0@ == ErrorView::JsonDeserializationFailed(e),
        },
{
    match value {
        Ok(value) => Ok(value),
        Err(e) => Err(Error::JsonDeserializationFailed(e)),
    }
}

/// What the attempt to parse an event comes to, given the statistics that the event holds.
pub fn stats_parsed<S>(stats: Result<Option<S>, JsonError>) -> (read: Result<S, Error>)
    ensures
        match stats {
            Ok(Some(stats)) => read is Ok && read->Ok_0 == stats,
            Ok(None) => read is Err && read->Err_0@ == ErrorView::MissingContainerStats,
            Err(e) => read is Err && read->Err_0@ == ErrorView::JsonDeserializationFailed(e),
        },
{
    match stats {
        Ok(Some(stats)) => Ok(stats),
        Ok(None) => Err(Error::MissingContainerStats),
        Err(e) => Err(Error::JsonDeserializationFailed(e)),
    }
}

/// What reading the answer of a call that lists numbers comes to.
pub open spec fn reads_numbers(
    answer: Result<Response, Error>,
    read: Result<Vec<usize>, Error>,
) -> bool {
    match answer {
        Ok(response) => match list_text(response.output@) {
            Some(text) => match crate::json::numbers_in(text, usize::BITS) {
                Some(numbers) => read is Ok && read->Ok_0@ == numbers,
                None => read is Err && read->Err_0@ is JsonDeserializationFailed,
            },
            None => read is Ok && read->Ok_0@ == Seq::<usize>::empty(),
        },
        Err(e) => read is Err && read->Err_0 == e,
    }
}

/// Reads the answer of a call that lists numbers.
pub fn numbers_reply(answer: Result<Response, Error>) -> (read: Result<Vec<usize>, Error>)
    ensures
        reads_numbers(answer, read),
{
    let reading: Reading<Vec<usize>> = list_reply(answer);
    match reading {
        Reading::Parse(text) => parsed(read_numbers(text.as_str())),
        Reading::Done(read) => read,
    }
}

} // verus!
