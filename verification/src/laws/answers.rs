//! What answers mean: numerals, lists, states, and how a process ended.

use vstd::prelude::*;

use serde_json::Error as JsonError;

use crate::async_client::AsyncClient;
use crate::client::Client;
use crate::command::Runtime;
use crate::error::{Error, ErrorView};
use crate::exit::{Exit, ExitStatus, Outcome, Response};
use crate::reply::Reading;
use crate::step::{Event, Step};

verus! {

/// The numeral of a number is the one that people write: a digit for each number below ten, the
/// digits of the tens before that of the units, and no zero in front.
pub proof fn law_numerals(n: nat)
    ensures
        crate::text::decimal(0) == seq!['0'],
        crate::text::decimal(1) == seq!['1'],
        crate::text::decimal(2) == seq!['2'],
        crate::text::decimal(3) == seq!['3'],
        crate::text::decimal(4) == seq!['4'],
        crate::text::decimal(5) == seq!['5'],
        crate::text::decimal(6) == seq!['6'],
        crate::text::decimal(7) == seq!['7'],
        crate::text::decimal(8) == seq!['8'],
        crate::text::decimal(9) == seq!['9'],
        n >= 10 ==> crate::text::decimal(n) == crate::text::decimal(n / 10)
            + crate::text::decimal(n % 10),
        n > 0 ==> crate::text::decimal(n)[0] != '0',
    decreases n,
{
    if n >= 10 {
        law_numerals(n / 10);
        assert(crate::text::decimal(n) =~= crate::text::decimal(n / 10) + crate::text::decimal(
            n % 10,
        ));
        lemma_numeral_is_not_empty(n / 10);
    }
}

proof fn lemma_numeral_is_not_empty(n: nat)
    ensures
        crate::text::decimal(n).len() > 0,
    decreases n,
{
    if n >= 10 {
        lemma_numeral_is_not_empty(n / 10);
    }
}

/// A number is written as its numeral.
pub proof fn law_numbers_are_written(n: u32, text: String)
    requires
        call_ensures(crate::text::decimal_text, (n,), text),
    ensures
        text@ == crate::text::decimal(n as nat),
{
}

/// There is nothing but white space in `text`.
pub open spec fn blank(text: Seq<char>) -> bool {
    forall|i: int| 0 <= i < text.len() ==> crate::text::is_white_space(#[trigger] text[i])
}

/// `text` neither starts nor ends with white space.
pub open spec fn tight(text: Seq<char>) -> bool {
    text.len() > 0 ==> !crate::text::is_white_space(text[0]) && !crate::text::is_white_space(
        text[text.len() - 1],
    )
}

/// Trimming takes away the white space around a text and leaves the text itself.
pub proof fn law_trimming_leaves_the_text(before: Seq<char>, text: Seq<char>, after: Seq<char>)
    requires
        blank(before),
        tight(text),
        blank(after),
    ensures
        crate::text::trimmed(before + text + after) == text,
{
    crate::text::lemma_trimmed_pads(before, text, after);
    assert(crate::text::trimmed_start(text) == text);
    assert(crate::text::trimmed_end(text) == text);
}

/// Every text is white space, a text that trimming leaves, and white space again.
pub proof fn law_every_text_splits(text: Seq<char>) -> (parts: (Seq<char>, Seq<char>, Seq<char>))
    ensures
        blank(parts.0),
        tight(parts.1),
        blank(parts.2),
        text == parts.0 + parts.1 + parts.2,
{
    let (before, rest) = lemma_split_start(text);
    let (inner, after) = lemma_split_end(rest);
    assert(inner.len() > 0 ==> inner[0] == rest[0]);
    assert(before + inner + after =~= before + (inner + after));
    (before, inner, after)
}

proof fn lemma_split_start(text: Seq<char>) -> (parts: (Seq<char>, Seq<char>))
    ensures
        blank(parts.0),
        parts.1.len() > 0 ==> !crate::text::is_white_space(parts.1[0]),
        text == parts.0 + parts.1,
    decreases text.len(),
{
    if text.len() > 0 && crate::text::is_white_space(text[0]) {
        let (before, rest) = lemma_split_start(text.drop_first());
        let blanks = seq![text[0]] + before;
        assert forall|i: int| 0 <= i < blanks.len() implies crate::text::is_white_space(
            #[trigger] blanks[i],
        ) by {
            if i > 0 {
                assert(blanks[i] == before[i - 1]);
            }
        }
        assert(text =~= seq![text[0]] + text.drop_first());
        assert(text =~= blanks + rest);
        (blanks, rest)
    } else {
        assert(text =~= Seq::<char>::empty() + text);
        (Seq::empty(), text)
    }
}

proof fn lemma_split_end(text: Seq<char>) -> (parts: (Seq<char>, Seq<char>))
    ensures
        parts.0.len() > 0 ==> !crate::text::is_white_space(parts.0[parts.0.len() - 1]),
        blank(parts.1),
        text == parts.0 + parts.1,
    decreases text.len(),
{
    if text.len() > 0 && crate::text::is_white_space(text[text.len() - 1]) {
        let (rest, after) = lemma_split_end(text.drop_last());
        let blanks = after.push(text.last());
        assert(text =~= text.drop_last().push(text.last()));
        assert(text =~= rest + blanks);
        (rest, blanks)
    } else {
        assert(text =~= text + Seq::<char>::empty());
        (text, Seq::empty())
    }
}

/// `reading` is what one of the ways to read a list makes of `answer`.
pub open spec fn list_was_read<T>(
    client: &Client,
    other: &AsyncClient,
    answer: Result<Response, Error>,
    reading: Reading<Vec<T>>,
) -> bool {
    ||| call_ensures(crate::reply::list_reply::<T>, (answer,), reading)
    ||| call_ensures(Client::list_answer::<T>, (client, answer), reading)
    ||| call_ensures(AsyncClient::list_answer::<T>, (other, answer), reading)
}

/// A list is empty without being parsed exactly where `null` was written. Whatever else was
/// written is parsed, all of it but the white space around it.
pub proof fn law_only_null_is_no_list<T>(
    client: &Client,
    other: &AsyncClient,
    response: Response,
    reading: Reading<Vec<T>>,
    before: Seq<char>,
    text: Seq<char>,
    after: Seq<char>,
)
    requires
        blank(before),
        tight(text),
        blank(after),
        response.output@ == before + text + after,
        list_was_read(client, other, Ok(response), reading),
    ensures
        text == "null"@ ==> (reading matches Reading::Done(Ok(list)) && list@.len() == 0),
        text != "null"@ ==> (reading matches Reading::Parse(json) && json@ == text),
{
    law_trimming_leaves_the_text(before, text, after);
}

/// What the output of a call that lists things says, whatever stands around it: nothing for
/// `null`, and everything else as it is.
pub proof fn law_lists_are_what_was_written(before: Seq<char>, text: Seq<char>, after: Seq<char>)
    requires
        blank(before),
        tight(text),
        blank(after),
    ensures
        text == "null"@ ==> crate::reply::list_text(before + text + after) is None,
        text != "null"@ ==> crate::reply::list_text(before + text + after) == Some(text),
{
    law_trimming_leaves_the_text(before, text, after);
}

/// The pids of a container are the numbers that were written, none for `null`; an output that
/// holds no list of numbers is an error.
pub proof fn law_pids_are_the_numbers_written(
    other: &AsyncClient,
    response: Response,
    read: Result<Vec<usize>, Error>,
    before: Seq<char>,
    text: Seq<char>,
    after: Seq<char>,
)
    requires
        blank(before),
        tight(text),
        blank(after),
        response.output@ == before + text + after,
        call_ensures(crate::reply::numbers_reply, (Ok(response),), read) || call_ensures(
            AsyncClient::ps_answer,
            (other, Ok(response)),
            read,
        ),
    ensures
        text == "null"@ ==> (read matches Ok(pids) && pids@.len() == 0),
        text != "null"@ ==> {
            let numbers = crate::json::numbers_in(text, usize::BITS);
            &&& read is Ok <==> numbers is Some
            &&& read matches Ok(pids) ==> pids@ == numbers->Some_0
            &&& read matches Err(e) ==> e is JsonDeserializationFailed
        },
{
    law_trimming_leaves_the_text(before, text, after);
}

/// The state of a container and its statistics are read from the whole output, unchanged.
pub proof fn law_states_are_read_whole<T>(
    client: &Client,
    other: &AsyncClient,
    response: Response,
    reading: Reading<T>,
)
    requires
        ({
            ||| call_ensures(crate::reply::state_reply::<T>, (Ok(response),), reading)
            ||| call_ensures(Client::state_answer::<T>, (client, Ok(response)), reading)
            ||| call_ensures(AsyncClient::state_answer::<T>, (other, Ok(response)), reading)
            ||| call_ensures(AsyncClient::stats_answer::<T>, (other, Ok(response)), reading)
        }),
    ensures
        reading matches Reading::Parse(json) && json@ == response.output@,
{
}

/// A call that failed is never read as a value: its own error comes back from every way to read an
/// answer.
pub proof fn law_errors_come_back<T>(
    client: &Client,
    other: &AsyncClient,
    e: Error,
    list: Reading<Vec<T>>,
    state: Reading<T>,
    pids: Result<Vec<usize>, Error>,
    done: Result<(), Error>,
)
    ensures
        list_was_read(client, other, Err(e), list) ==> list == Reading::<Vec<T>>::Done(Err(e)),
        call_ensures(crate::reply::state_reply::<T>, (Err(e),), state) || call_ensures(
            Client::state_answer::<T>,
            (client, Err(e)),
            state,
        ) || call_ensures(AsyncClient::state_answer::<T>, (other, Err(e)), state) || call_ensures(
            AsyncClient::stats_answer::<T>,
            (other, Err(e)),
            state,
        ) ==> state == Reading::<T>::Done(Err(e)),
        call_ensures(crate::reply::numbers_reply, (Err(e),), pids) || call_ensures(
            AsyncClient::ps_answer,
            (other, Err(e)),
            pids,
        ) ==> pids == Err::<Vec<usize>, Error>(e),
        call_ensures(crate::reply::discard, (Err(e),), done) ==> done == Err::<(), Error>(e),
{
}

/// A call that is made for its effect succeeds where it gave a response, whatever that holds.
pub proof fn law_responses_can_be_dropped(response: Response, done: Result<(), Error>)
    requires
        call_ensures(crate::reply::discard, (Ok(response),), done),
    ensures
        done is Ok,
{
}

/// A value that was parsed is the answer; where parsing failed, its error is kept. An event without
/// statistics is an error of its own.
pub proof fn law_parsed_values_are_answers<T>(
    value: Result<T, JsonError>,
    read: Result<T, Error>,
    stats: Result<Option<T>, JsonError>,
    found: Result<T, Error>,
)
    requires
        call_ensures(crate::reply::parsed::<T>, (value,), read),
        call_ensures(crate::reply::stats_parsed::<T>, (stats,), found),
    ensures
        value matches Ok(value) ==> read == Ok::<T, Error>(value),
        value matches Err(e) ==> read == Err::<T, Error>(Error::JsonDeserializationFailed(e)),
        stats matches Ok(Some(stats)) ==> found == Ok::<T, Error>(stats),
        stats matches Ok(None) ==> found == Err::<T, Error>(Error::MissingContainerStats),
        stats matches Err(e) ==> found == Err::<T, Error>(Error::JsonDeserializationFailed(e)),
{
}

/// The text that bytes spell.
pub open spec fn spelled(bytes: Vec<u8>) -> Seq<char> {
    vstd::utf8::decode_utf8(bytes@)
}

/// How a process ended decides the answer, and nothing else does. Code zero is a response with the
/// pid, the status and what was written: standard output, and standard error behind it where both
/// are wanted. Any other end is an error with the status and both streams, each in its place.
pub proof fn law_code_zero_is_success(exit: Exit, runtime: Runtime, combined_output: bool)
    ensures
        ({
            let answer = Outcome::Exited(exit).answer(runtime, combined_output);
            &&& exit.status.code == Some(0i32) ==> answer is Ok && {
                let response = answer->Ok_0;
                &&& response.pid == exit.pid
                &&& response.status == exit.status
                &&& !combined_output ==> response.output == spelled(exit.stdout)
                &&& combined_output ==> response.output == spelled(exit.stdout) + spelled(
                    exit.stderr,
                )
            }
            &&& exit.status.code != Some(0i32) ==> answer is Err && answer->Err_0
                == ErrorView::CommandFailed {
                status: exit.status,
                stdout: spelled(exit.stdout),
                stderr: spelled(exit.stderr),
            }
        }),
{
}

/// A process that could not be started, or not be waited for, gives no response. Only the blocking
/// client tells the first from the second.
pub proof fn law_no_process_no_response(
    e: std::io::Error,
    runtime: Runtime,
    combined_output: bool,
)
    ensures
        ({
            let unstarted = Outcome::SpawnFailed(e).answer(runtime, combined_output);
            let lost = Outcome::WaitFailed(e).answer(runtime, combined_output);
            &&& unstarted is Err && lost is Err
            &&& lost->Err_0 == ErrorView::InvalidCommand(e)
            &&& runtime is Blocking ==> unstarted->Err_0 == ErrorView::ProcessSpawnFailed(e)
            &&& runtime is Async ==> unstarted->Err_0 == ErrorView::InvalidCommand(e)
        }),
{
}

/// What a client answers for a launched command is the answer that its outcome gives.
pub proof fn law_launch_answers_the_outcome(
    client: &Client,
    other: &AsyncClient,
    outcome: Outcome,
    combined_output: bool,
    answer: Result<Response, Error>,
)
    ensures
        call_ensures(Client::launch, (client, outcome, combined_output), answer)
            ==> crate::exit::answer_view(answer) == outcome.answer(
            Runtime::Blocking,
            combined_output,
        ),
        call_ensures(AsyncClient::launch, (other, outcome, combined_output), answer)
            ==> crate::exit::answer_view(answer) == outcome.answer(Runtime::Async, combined_output),
{
}

/// A status means success exactly where its code is zero, and shows its code as it is.
pub proof fn law_status_shows_its_code(status: &ExitStatus, success: bool, code: Option<i32>)
    requires
        call_ensures(ExitStatus::success, (status,), success),
        call_ensures(ExitStatus::code, (status,), code),
    ensures
        success <==> status.code == Some(0i32),
        code == status.code,
{
}

/// Every outcome has an answer but one: a process that wrote what is no text.
pub proof fn law_outcomes_are_taken(
    client: &Client,
    other: &AsyncClient,
    outcome: Outcome,
    combined_output: bool,
    step: Step,
    event: Event,
)
    requires
        outcome matches Outcome::Exited(exit) ==> vstd::utf8::valid_utf8(exit.stdout@)
            && vstd::utf8::valid_utf8(exit.stderr@),
    ensures
        call_requires(Client::launch, (client, outcome, combined_output)),
        call_requires(AsyncClient::launch, (other, outcome, combined_output)),
        call_requires(Step::advance, (step, Event::Finished(outcome))),
        !(event is Finished) ==> call_requires(Step::advance, (step, event)),
{
}

} // verus!
