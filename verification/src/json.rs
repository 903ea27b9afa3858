//! What is had from `serde_json`.

use vstd::prelude::*;

use oci_spec::runtime::{Linux, Process};
use serde_json::Error as JsonError;

verus! {

/// `oci_spec::runtime::Process`, the description of a process in a container.
#[verifier::external_type_specification]
#[verifier::external_body]
pub struct ExProcess(Process);

/// `oci_spec::runtime::Linux`, the description of what a container may use of the system.
#[verifier::external_type_specification]
#[verifier::external_body]
pub struct ExLinux(Linux);

/// Whether `serde_json` may write `text` for `spec`. It writes the capabilities of a process in the
/// order in which a hash set is walked, so a process has more than one such text.
pub uninterp spec fn is_process_json(spec: Process, text: Seq<char>) -> bool;

/// Whether `serde_json` may write `text` for `resources`. It writes kernel parameters in the order
/// in which a hash map is walked, so there is more than one such text.
pub uninterp spec fn is_linux_json(resources: Linux, text: Seq<char>) -> bool;

/// Whether there is a text that `serde_json` may write for `spec`.
pub open spec fn has_process_json(spec: Process) -> bool {
    exists|text: Seq<char>| #[trigger] is_process_json(spec, text)
}

/// Whether there is a text that `serde_json` may write for `resources`.
pub open spec fn has_linux_json(resources: Linux) -> bool {
    exists|text: Seq<char>| #[trigger] is_linux_json(resources, text)
}

/// The numbers that `serde_json` reads from `text` as a list of machine words of `bits` bits;
/// `None` where it refuses the text.
pub uninterp spec fn numbers_in(text: Seq<char>, bits: u32) -> Option<Seq<usize>>;

/// `serde_json::to_string` on a process. A text that it gives is one that it may write for that
/// process; which of them is not said. It fails only on a process for which it writes no text at
/// all: one that holds a path which is not UTF-8.
#[verifier::external_body]
pub(crate) fn process_json(spec: &Process) -> (json: Result<String, JsonError>)
    ensures
        json matches Ok(text) ==> is_process_json(*spec, text@),
        json is Err ==> forall|text: Seq<char>| !(#[trigger] is_process_json(*spec, text)),
{
    serde_json::to_string(spec)
}

/// `serde_json::to_string` on resources. A text that it gives is one that it may write for those
/// resources; which of them is not said. It fails only on resources for which it writes no text at
/// all: those that hold a path which is not UTF-8.
#[verifier::external_body]
pub(crate) fn linux_json(resources: &Linux) -> (json: Result<String, JsonError>)
    ensures
        json matches Ok(text) ==> is_linux_json(*resources, text@),
        json is Err ==> forall|text: Seq<char>| !(#[trigger] is_linux_json(*resources, text)),
{
    serde_json::to_string(resources)
}

/// `serde_json::from_str` into a list of machine words. What it gives depends on the text, and on
/// the width of a machine word, alone.
#[verifier::external_body]
pub(crate) fn read_numbers(text: &str) -> (numbers: Result<Vec<usize>, JsonError>)
    ensures
        match numbers {
            Ok(numbers) => numbers_in(text@, usize::BITS) == Some(numbers@),
            Err(_) => numbers_in(text@, usize::BITS) is None,
        },
{
    serde_json::from_str(text)
}

} // verus!
