//! The words of each operation.

use vstd::prelude::*;

use crate::command::{push_path, push_text, Word, WordView};
use crate::options::{CreateOpts, DeleteOpts, ExecOpts, KillOpts};
use crate::text::decimal_text;

verus! {

/// The flags of creating or running a container.
pub open spec fn create_flags(opts: Option<&CreateOpts>) -> Seq<WordView> {
    match opts {
        Some(opts) => opts.words(),
        None => Seq::empty(),
    }
}

/// The flags of an additional process.
pub open spec fn exec_flags(opts: Option<&ExecOpts>) -> Seq<WordView> {
    match opts {
        Some(opts) => opts.words(),
        None => Seq::empty(),
    }
}

/// The flags of deleting a container.
pub open spec fn delete_flags(opts: Option<&DeleteOpts>) -> Seq<WordView> {
    match opts {
        Some(opts) => opts.words(),
        None => Seq::empty(),
    }
}

/// The flags of signalling a container.
pub open spec fn kill_flags(opts: Option<&KillOpts>) -> Seq<WordView> {
    match opts {
        Some(opts) => opts.words(),
        None => Seq::empty(),
    }
}

/// How an operation on a bundle starts: `NAME --bundle BUNDLE`
pub open spec fn bundle_lead(name: Seq<char>, bundle: Seq<char>) -> Seq<WordView> {
    seq![WordView::Text(name), WordView::Text("--bundle"@), WordView::Path(bundle)]
}

/// How an operation with flags ends: `FLAGS ID`
pub open spec fn flags_and_id(id: Seq<char>, flags: Seq<WordView>) -> Seq<WordView> {
    flags + seq![WordView::Text(id)]
}

/// `create --bundle BUNDLE FLAGS ID`
pub open spec fn create_operation(
    id: Seq<char>,
    bundle: Seq<char>,
    flags: Seq<WordView>,
) -> Seq<WordView> {
    bundle_lead("create"@, bundle) + flags_and_id(id, flags)
}

/// What stands before the file that describes an additional process: `exec process`
pub open spec fn exec_head() -> Seq<WordView> {
    seq![WordView::Text("exec"@), WordView::Text("process"@)]
}

/// What stands before the file that describes resources: `update --resources`
pub open spec fn update_head() -> Seq<WordView> {
    seq![WordView::Text("update"@), WordView::Text("--resources"@)]
}

/// What stands behind the file that describes resources: `ID`
pub open spec fn update_tail(id: Seq<char>) -> Seq<WordView> {
    seq![WordView::Text(id)]
}

/// `delete FLAGS ID`
pub open spec fn delete_operation(id: Seq<char>, flags: Seq<WordView>) -> Seq<WordView> {
    seq![WordView::Text("delete"@)] + flags + seq![WordView::Text(id)]
}

/// `kill FLAGS ID SIGNAL`
pub open spec fn kill_operation(id: Seq<char>, sig: u32, flags: Seq<WordView>) -> Seq<WordView> {
    seq![WordView::Text("kill"@)] + flags + seq![
        WordView::Text(id),
        WordView::Text(crate::text::decimal(sig as nat)),
    ]
}

/// `list --format-json`
pub open spec fn list_operation() -> Seq<WordView> {
    seq![WordView::Text("list"@), WordView::Text("--format-json"@)]
}

/// `ps --format-json ID`
pub open spec fn ps_operation(id: Seq<char>) -> Seq<WordView> {
    seq![WordView::Text("ps"@), WordView::Text("--format-json"@), WordView::Text(id)]
}

/// `events --stats ID`
pub open spec fn stats_operation(id: Seq<char>) -> Seq<WordView> {
    seq![WordView::Text("events"@), WordView::Text("--stats"@), WordView::Text(id)]
}

/// `NAME ID`, the form of the operations that take nothing but a container.
pub open spec fn simple_operation(name: Seq<char>, id: Seq<char>) -> Seq<WordView> {
    seq![WordView::Text(name), WordView::Text(id)]
}

/// The words `texts`, as they are.
pub(crate) fn words_of(texts: &[&str]) -> (words: Vec<Word>)
    ensures
        words.deep_view() == Seq::new(texts@.len(), |i: int| WordView::Text(texts@[i]@)),
{
    let mut words: Vec<Word> = Vec::new();
    let mut i: usize = 0;
    while i < texts.len()
        invariant
            i <= texts@.len(),
            words.deep_view() == Seq::new(i as nat, |i: int| WordView::Text(texts@[i]@)),
        decreases texts@.len() - i,
    {
        push_text(&mut words, texts[i]);
        i = i + 1;
        assert(words.deep_view() =~= Seq::new(i as nat, |i: int| WordView::Text(texts@[i]@)));
    }
    words
}

fn append(words: &mut Vec<Word>, more: Vec<Word>)
    ensures
        final(words).deep_view() == old(words).deep_view() + more.deep_view(),
{
    let ghost before = words.deep_view();
    let ghost added = more.deep_view();
    let mut more = more;
    words.append(&mut more);
    assert(words.deep_view() =~= before + added);
}

pub(crate) fn bundle_words(name: &str, bundle: &str) -> (words: Vec<Word>)
    ensures
        words.deep_view() == bundle_lead(name@, bundle@),
{
    let mut words = words_of(&[name, "--bundle"]);
    push_path(&mut words, bundle);
    assert(words.deep_view() =~= bundle_lead(name@, bundle@));
    words
}

pub(crate) fn create_tail_words(id: &str, opts: Option<&CreateOpts>) -> (words: Vec<Word>)
    ensures
        words.deep_view() == flags_and_id(id@, create_flags(opts)),
{
    let mut words: Vec<Word> = Vec::new();
    if let Some(opts) = opts {
        append(&mut words, opts.args());
    }
    push_text(&mut words, id);
    assert(words.deep_view() =~= flags_and_id(id@, create_flags(opts)));
    words
}

pub(crate) fn create_words(id: &str, bundle: &str, opts: Option<&CreateOpts>) -> (words: Vec<Word>)
    ensures
        words.deep_view() == create_operation(id@, bundle@, create_flags(opts)),
{
    let mut words = bundle_words("create", bundle);
    append(&mut words, create_tail_words(id, opts));
    words
}

pub(crate) fn exec_head_words() -> (words: Vec<Word>)
    ensures
        words.deep_view() == exec_head(),
{
    let words = words_of(&["exec", "process"]);
    assert(words.deep_view() =~= exec_head());
    words
}

pub(crate) fn exec_tail_words(id: &str, opts: Option<&ExecOpts>) -> (words: Vec<Word>)
    ensures
        words.deep_view() == flags_and_id(id@, exec_flags(opts)),
{
    let mut words: Vec<Word> = Vec::new();
    if let Some(opts) = opts {
        append(&mut words, opts.args());
    }
    push_text(&mut words, id);
    assert(words.deep_view() =~= flags_and_id(id@, exec_flags(opts)));
    words
}

pub(crate) fn update_head_words() -> (words: Vec<Word>)
    ensures
        words.deep_view() == update_head(),
{
    let words = words_of(&["update", "--resources"]);
    assert(words.deep_view() =~= update_head());
    words
}

pub(crate) fn update_tail_words(id: &str) -> (words: Vec<Word>)
    ensures
        words.deep_view() == update_tail(id@),
{
    let words = words_of(&[id]);
    assert(words.deep_view() =~= update_tail(id@));
    words
}

pub(crate) fn delete_words(id: &str, opts: Option<&DeleteOpts>) -> (words: Vec<Word>)
    ensures
        words.deep_view() == delete_operation(id@, delete_flags(opts)),
{
    let mut words = words_of(&["delete"]);
    if let Some(opts) = opts {
        append(&mut words, opts.args());
    }
    push_text(&mut words, id);
    assert(words.deep_view() =~= delete_operation(id@, delete_flags(opts)));
    words
}

pub(crate) fn kill_words(id: &str, sig: u32, opts: Option<&KillOpts>) -> (words: Vec<Word>)
    ensures
        words.deep_view() == kill_operation(id@, sig, kill_flags(opts)),
{
    let mut words = words_of(&["kill"]);
    if let Some(opts) = opts {
        append(&mut words, opts.args());
    }
    push_text(&mut words, id);
    push_text(&mut words, decimal_text(sig).as_str());
    assert(words.deep_view() =~= kill_operation(id@, sig, kill_flags(opts)));
    words
}

pub(crate) fn list_words() -> (words: Vec<Word>)
    ensures
        words.deep_view() == list_operation(),
{
    let words = words_of(&["list", "--format-json"]);
    assert(words.deep_view() =~= list_operation());
    words
}

pub(crate) fn ps_words(id: &str) -> (words: Vec<Word>)
    ensures
        words.deep_view() == ps_operation(id@),
{
    let words = words_of(&["ps", "--format-json", id]);
    assert(words.deep_view() =~= ps_operation(id@));
    words
}

pub(crate) fn stats_words(id: &str) -> (words: Vec<Word>)
    ensures
        words.deep_view() == stats_operation(id@),
{
    let words = words_of(&["events", "--stats", id]);
    assert(words.deep_view() =~= stats_operation(id@));
    words
}

pub(crate) fn simple_words(name: &str, id: &str) -> (words: Vec<Word>)
    ensures
        words.deep_view() == simple_operation(name@, id@),
{
    let words = words_of(&[name, id]);
    assert(words.deep_view() =~= simple_operation(name@, id@));
    words
}

} // verus!
