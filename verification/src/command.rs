//! Command lines: the words of a runc call, and the call once its paths are known.

use vstd::prelude::*;

verus! {

/// One word of a command line that is still to be completed.
#[derive(Debug)]
pub enum Word {
    /// A word that stands as it is.
    Text(String),
    /// A path, whose absolute form will stand in its place.
    Path(String),
}

/// A [`Word`] with its text as a character sequence.
pub enum WordView {
    Text(Seq<char>),
    Path(Seq<char>),
}

impl View for Word {
    type V = WordView;

    open spec fn view(&self) -> WordView {
        match *self {
            Word::Text(text) => WordView::Text(text@),
            Word::Path(path) => WordView::Path(path@),
        }
    }
}

impl DeepView for Word {
    type V = WordView;

    open spec fn deep_view(&self) -> WordView {
        self@
    }
}

/// The paths among `words`, in their order.
pub open spec fn paths_in(words: Seq<WordView>) -> Seq<Seq<char>>
    decreases words.len(),
{
    if words.len() == 0 {
        Seq::empty()
    } else {
        match words.last() {
            WordView::Text(_) => paths_in(words.drop_last()),
            WordView::Path(path) => paths_in(words.drop_last()).push(path),
        }
    }
}

/// `words` as texts, each path replaced by the absolute form that `answers` holds for it: the
/// first path by the first answer, and so on.
pub open spec fn filled(words: Seq<WordView>, answers: Seq<Seq<char>>) -> Seq<Seq<char>> {
    Seq::new(
        words.len(),
        |i: int|
            match words[i] {
                WordView::Text(text) => text,
                WordView::Path(_) => answers[paths_in(words.take(i)).len() as int],
            },
    )
}

/// The texts `texts` as words that stand as they are.
pub open spec fn literal(texts: Seq<Seq<char>>) -> Seq<WordView> {
    texts.map_values(|text: Seq<char>| WordView::Text(text))
}

/// A flag that takes a path: its name and the path, where there is one.
pub open spec fn path_flag(name: Seq<char>, path: Option<Seq<char>>) -> Seq<WordView> {
    match path {
        Some(path) => seq![WordView::Text(name), WordView::Path(path)],
        None => Seq::empty(),
    }
}

/// A flag that stands alone, where it is set.
pub open spec fn flag(name: Seq<char>, set: bool) -> Seq<WordView> {
    if set {
        seq![WordView::Text(name)]
    } else {
        Seq::empty()
    }
}

/// Appends a flag that takes a path.
pub(crate) fn push_path_flag(words: &mut Vec<Word>, name: &str, path: &Option<String>)
    ensures
        final(words).deep_view() == old(words).deep_view() + path_flag(name@, crate::text::text_view(*path)),
{
    let ghost before = words.deep_view();
    match path {
        Some(path) => {
            words.push(Word::Text(name.to_owned()));
            words.push(Word::Path(path.clone()));
        },
        None => {},
    }
    assert(words.deep_view() =~= before + path_flag(name@, crate::text::text_view(*path)));
}

/// Appends a flag that stands alone.
pub(crate) fn push_flag(words: &mut Vec<Word>, name: &str, set: bool)
    ensures
        final(words).deep_view() == old(words).deep_view() + flag(name@, set),
{
    let ghost before = words.deep_view();
    if set {
        words.push(Word::Text(name.to_owned()));
    }
    assert(words.deep_view() =~= before + flag(name@, set));
}

/// Appends a word that stands as it is.
pub(crate) fn push_text(words: &mut Vec<Word>, text: &str)
    ensures
        final(words).deep_view() == old(words).deep_view().push(WordView::Text(text@)),
{
    let ghost before = words.deep_view();
    words.push(Word::Text(text.to_owned()));
    assert(words.deep_view() =~= before.push(WordView::Text(text@)));
}

/// Appends a path.
pub(crate) fn push_path(words: &mut Vec<Word>, path: &str)
    ensures
        final(words).deep_view() == old(words).deep_view().push(WordView::Path(path@)),
{
    let ghost before = words.deep_view();
    words.push(Word::Path(path.to_owned()));
    assert(words.deep_view() =~= before.push(WordView::Path(path@)));
}

/// The words `args`, as they are.
pub(crate) fn literal_words(args: &[String]) -> (words: Vec<Word>)
    ensures
        words.deep_view() == literal(args.deep_view()),
{
    let mut words: Vec<Word> = Vec::new();
    let ghost all = literal(args.deep_view());
    let mut i: usize = 0;
    assert(words.deep_view() =~= all.take(0));
    while i < args.len()
        invariant
            i <= args@.len(),
            all == literal(args.deep_view()),
            words.deep_view() == all.take(i as int),
        decreases args@.len() - i,
    {
        push_text(&mut words, args[i].as_str());
        i = i + 1;
        assert(words.deep_view() =~= all.take(i as int));
    }
    assert(all.take(args@.len() as int) =~= all);
    words
}

/// Where a standard stream of a child process leads.
#[derive(Debug, Clone, Copy, PartialEq, Eq, Structural)]
pub enum Stdio {
    Null,
    Inherit,
    /// To the process that started the child, which captures what is written.
    Piped,
}

/// Which client a call is made for.
#[derive(Debug, Clone, Copy, PartialEq, Eq, Structural)]
pub enum Runtime {
    /// The calling thread waits for the child process.
    Blocking,
    /// A tokio runtime waits for it.
    Async,
}

impl Runtime {
    /// What a command line says of standard input: the blocking client says nothing of it.
    pub open spec fn stdin(self) -> Option<Stdio> {
        match self {
            Runtime::Blocking => None,
            Runtime::Async => Some(Stdio::Null),
        }
    }

    /// What a command line says of standard error, and of standard output where nothing is captured.
    pub open spec fn output(self) -> Option<Stdio> {
        match self {
            Runtime::Blocking => None,
            Runtime::Async => Some(Stdio::Inherit),
        }
    }
}

/// When the caller's streams are closed on this side of the child process.
#[derive(Debug, Clone, Copy, PartialEq, Eq, Structural)]
pub enum Close {
    Never,
    /// Once the process has ended with success.
    OnSuccess,
    /// Once the process has ended.
    OnExit,
}

/// A child process to be launched.
#[derive(Debug)]
pub struct CommandLine {
    /// The binary.
    pub program: String,
    /// Its arguments, without the binary itself.
    pub args: Vec<String>,
    /// The variable that its environment must lack.
    pub env_remove: String,
    pub stdin: Option<Stdio>,
    pub stdout: Option<Stdio>,
    pub stderr: Option<Stdio>,
}

/// A [`CommandLine`] with its texts as character sequences.
pub struct CommandView {
    pub program: Seq<char>,
    pub args: Seq<Seq<char>>,
    pub env_remove: Seq<char>,
    pub stdin: Option<Stdio>,
    pub stdout: Option<Stdio>,
    pub stderr: Option<Stdio>,
}

impl View for CommandLine {
    type V = CommandView;

    open spec fn view(&self) -> CommandView {
        CommandView {
            program: self.program@,
            args: self.args.deep_view(),
            env_remove: self.env_remove@,
            stdin: self.stdin,
            stdout: self.stdout,
            stderr: self.stderr,
        }
    }
}

/// A runc call whose paths are still to be made absolute.
#[derive(Debug)]
pub struct Plan {
    /// The binary.
    pub program: String,
    /// The words of the operation.
    pub operation: Vec<Word>,
    /// The words that stand right before those of the operation, but whose paths are made absolute
    /// after theirs.
    pub lead: Vec<Word>,
    /// The words that stand before the operation and hold for every operation of the client.
    pub global: Vec<Word>,
    pub runtime: Runtime,
    /// When the caller's streams are closed, where it brought any.
    pub io: Option<Close>,
    /// Whether the call is planned a second time before it is launched: the words that hold for
    /// every operation are worked out anew, and the command of the first time is dropped.
    pub again: bool,
    /// Whether what the process writes to standard output is captured, for the call is made to read
    /// it.
    pub capture: bool,
}

/// A [`Plan`] with its texts as character sequences.
pub struct PlanView {
    pub program: Seq<char>,
    pub operation: Seq<WordView>,
    pub lead: Seq<WordView>,
    pub global: Seq<WordView>,
    pub runtime: Runtime,
    pub io: Option<Close>,
    pub again: bool,
    pub capture: bool,
}

impl View for Plan {
    type V = PlanView;

    open spec fn view(&self) -> PlanView {
        PlanView {
            program: self.program@,
            operation: self.operation.deep_view(),
            lead: self.lead.deep_view(),
            global: self.global.deep_view(),
            runtime: self.runtime,
            io: self.io,
            again: self.again,
            capture: self.capture,
        }
    }
}

impl PlanView {
    /// The paths to be made absolute, in the order in which that is done: those of the operation
    /// come first, then those of its lead, then those of the settings.
    pub open spec fn paths(self) -> Seq<Seq<char>> {
        paths_in(self.operation) + paths_in(self.lead) + paths_in(self.global)
    }

    /// How many paths the call itself names, in its operation and in its lead.
    pub open spec fn own_paths(self) -> nat {
        paths_in(self.operation).len() + paths_in(self.lead).len()
    }

    /// The lead and the operation, given the absolute form of each of the paths.
    pub open spec fn texts(self, answers: Seq<Seq<char>>) -> Seq<Seq<char>> {
        filled(self.lead, answers.skip(paths_in(self.operation).len() as int)) + filled(
            self.operation,
            answers,
        )
    }

    /// The arguments of the call, given the absolute form of each of its paths.
    pub open spec fn args(self, answers: Seq<Seq<char>>) -> Seq<Seq<char>> {
        filled(self.global, answers.skip(self.own_paths() as int)) + self.texts(answers)
    }

    /// The call, given the absolute form of each of its paths. `NOTIFY_SOCKET` makes runc behave
    /// otherwise and is only meant for processes that systemd started.
    pub open spec fn command(self, answers: Seq<Seq<char>>) -> CommandView {
        CommandView {
            program: self.program,
            args: self.args(answers),
            env_remove: "NOTIFY_SOCKET"@,
            stdin: self.runtime.stdin(),
            stdout: self.stdout(),
            stderr: self.runtime.output(),
        }
    }

    /// What the command line says of standard output.
    pub open spec fn stdout(self) -> Option<Stdio> {
        if self.capture {
            Some(Stdio::Piped)
        } else {
            self.runtime.output()
        }
    }
}

/// The paths among joined words are those of the first, then those of the second.
pub proof fn lemma_paths_in_join(first: Seq<WordView>, second: Seq<WordView>)
    ensures
        paths_in(first + second) == paths_in(first) + paths_in(second),
    decreases second.len(),
{
    if second.len() == 0 {
        assert(first + second =~= first);
        assert(paths_in(first) + paths_in(second) =~= paths_in(first));
    } else {
        assert((first + second).last() == second.last());
        assert((first + second).drop_last() =~= first + second.drop_last());
        lemma_paths_in_join(first, second.drop_last());
        assert(paths_in(first + second) =~= paths_in(first) + paths_in(second));
    }
}

/// Joined words are filled one after the other: the second take up the answers where the first
/// leave off.
pub proof fn lemma_filled_join(
    first: Seq<WordView>,
    second: Seq<WordView>,
    answers: Seq<Seq<char>>,
)
    requires
        paths_in(first).len() + paths_in(second).len() <= answers.len(),
    ensures
        filled(first + second, answers) == filled(first, answers) + filled(
            second,
            answers.skip(paths_in(first).len() as int),
        ),
{
    let joined = first + second;
    let rest = answers.skip(paths_in(first).len() as int);
    assert forall|i: int| 0 <= i < joined.len() implies filled(joined, answers)[i] == (filled(
        first,
        answers,
    ) + filled(second, rest))[i] by {
        if i < first.len() {
            assert(joined.take(i) =~= first.take(i));
        } else {
            let j = i - first.len();
            assert(joined.take(i) =~= first + second.take(j));
            lemma_paths_in_join(first, second.take(j));
            lemma_paths_in_step(second, j);
        }
    }
    assert(filled(joined, answers) =~= filled(first, answers) + filled(second, rest));
}

/// Words that stand as they are name no path, and stay the texts they were.
pub proof fn lemma_literal_words(texts: Seq<Seq<char>>, answers: Seq<Seq<char>>)
    ensures
        paths_in(literal(texts)) == Seq::<Seq<char>>::empty(),
        filled(literal(texts), answers) == texts,
    decreases texts.len(),
{
    if texts.len() > 0 {
        assert(literal(texts).drop_last() =~= literal(texts.drop_last()));
        lemma_literal_words(texts.drop_last(), answers);
    }
    assert(filled(literal(texts), answers) =~= texts);
}

proof fn lemma_paths_in_step(words: Seq<WordView>, i: int)
    requires
        0 <= i < words.len(),
    ensures
        words[i] is Text ==> paths_in(words.take(i + 1)) == paths_in(words.take(i)),
        words[i] is Path ==> paths_in(words.take(i + 1)) == paths_in(words.take(i)).push(
            words[i]->Path_0,
        ),
        paths_in(words.take(i + 1)).is_prefix_of(paths_in(words)),
{
    assert(words.take(i + 1).drop_last() =~= words.take(i));
    assert(words.take(i + 1).last() == words[i]);
    lemma_paths_in_join(words.take(i + 1), words.skip(i + 1));
    assert(words.take(i + 1) + words.skip(i + 1) =~= words);
}

fn count_paths(words: &Vec<Word>) -> (count: usize)
    ensures
        count == paths_in(words.deep_view()).len(),
{
    let ghost view = words.deep_view();
    let mut count: usize = 0;
    let mut i: usize = 0;
    while i < words.len()
        invariant
            view == words.deep_view(),
            i <= words.len(),
            count <= i,
            count == paths_in(view.take(i as int)).len(),
        decreases words.len() - i,
    {
        proof {
            lemma_paths_in_step(view, i as int);
            assert(view[i as int] == words[i as int]@);
        }
        match &words[i] {
            Word::Text(_) => {},
            Word::Path(_) => {
                count = count + 1;
            },
        }
        i = i + 1;
    }
    assert(view.take(words.len() as int) =~= view);
    count
}

fn nth_path(words: &Vec<Word>, n: usize) -> (path: Option<String>)
    ensures
        path is Some <==> n < paths_in(words.deep_view()).len(),
        path matches Some(path) ==> path@ == paths_in(words.deep_view())[n as int],
{
    let ghost view = words.deep_view();
    let mut count: usize = 0;
    let mut i: usize = 0;
    while i < words.len()
        invariant
            view == words.deep_view(),
            i <= words.len(),
            count <= i,
            count <= n,
            count == paths_in(view.take(i as int)).len(),
        decreases words.len() - i,
    {
        proof {
            lemma_paths_in_step(view, i as int);
            assert(view[i as int] == words[i as int]@);
        }
        match &words[i] {
            Word::Text(_) => {},
            Word::Path(path) => {
                if count == n {
                    proof {
                        let seen = paths_in(view.take(i + 1));
                        assert(seen.last() == path@);
                        assert(paths_in(view).subrange(0, seen.len() as int)[n as int] == seen[n as int]);
                    }
                    return Some(path.clone());
                }
                count = count + 1;
            },
        }
        i = i + 1;
    }
    assert(view.take(words.len() as int) =~= view);
    None
}

fn fill(words: &Vec<Word>, answers: &Vec<String>, from: usize, args: &mut Vec<String>)
    requires
        from + paths_in(words.deep_view()).len() <= answers.len(),
    ensures
        final(args).deep_view() == old(args).deep_view() + filled(
            words.deep_view(),
            answers.deep_view().skip(from as int),
        ),
{
    let ghost view = words.deep_view();
    let ghost skipped = answers.deep_view().skip(from as int);
    let ghost before = args.deep_view();
    let mut next: usize = from;
    let mut i: usize = 0;
    assert(before + filled(view, skipped).take(0) =~= before);
    while i < words.len()
        invariant
            view == words.deep_view(),
            skipped == answers.deep_view().skip(from as int),
            from + paths_in(view).len() <= answers.len(),
            i <= words.len(),
            next == from + paths_in(view.take(i as int)).len(),
            args.deep_view() == before + filled(view, skipped).take(i as int),
        decreases words.len() - i,
    {
        let ghost so_far = args.deep_view();
        proof {
            lemma_paths_in_step(view, i as int);
            assert(view[i as int] == words[i as int]@);
        }
        match &words[i] {
            Word::Text(text) => {
                args.push(text.clone());
            },
            Word::Path(_) => {
                args.push(answers[next].clone());
                next = next + 1;
            },
        }
        proof {
            assert(args.deep_view() =~= so_far.push(filled(view, skipped)[i as int]));
            assert(args.deep_view() =~= before + filled(view, skipped).take(i + 1));
        }
        i = i + 1;
    }
    assert(filled(view, skipped).take(words.len() as int) =~= filled(view, skipped));
}

impl Plan {
    /// The path to be made absolute after `answered` others were.
    pub fn next_path(&self, answered: usize) -> (path: Option<String>)
        ensures
            path is Some <==> answered < self@.paths().len(),
            path matches Some(path) ==> path@ == self@.paths()[answered as int],
    {
        let operation: usize = count_paths(&self.operation);
        if answered < operation {
            return nth_path(&self.operation, answered);
        }
        let lead: usize = count_paths(&self.lead);
        if answered - operation < lead {
            nth_path(&self.lead, answered - operation)
        } else {
            nth_path(&self.global, answered - operation - lead)
        }
    }

    /// The lead and the operation, once each path has been made absolute.
    pub(crate) fn texts(&self, answers: &Vec<String>) -> (texts: Vec<String>)
        requires
            answers.len() >= self@.paths().len(),
        ensures
            texts.deep_view() == self@.texts(answers.deep_view()),
    {
        let operation: usize = count_paths(&self.operation);
        let mut texts: Vec<String> = Vec::new();
        fill(&self.lead, answers, operation, &mut texts);
        fill(&self.operation, answers, 0, &mut texts);
        assert(answers.deep_view().skip(0) =~= answers.deep_view());
        assert(texts.deep_view() =~= self@.texts(answers.deep_view()));
        texts
    }

    /// The call, once each of its paths has been made absolute.
    pub fn command_line(&self, answers: &Vec<String>) -> (command: CommandLine)
        requires
            answers.len() >= self@.paths().len(),
        ensures
            command@ == self@.command(answers.deep_view()),
    {
        let own: usize = count_paths(&self.operation) + count_paths(&self.lead);
        let mut args: Vec<String> = Vec::new();
        fill(&self.global, answers, own, &mut args);
        let ghost settings = args.deep_view();
        let mut texts = self.texts(answers);
        args.append(&mut texts);
        proof {
            assert(settings =~= filled(
                self@.global,
                answers.deep_view().skip(self@.own_paths() as int),
            ));
            assert(args.deep_view() =~= self@.args(answers.deep_view()));
        }
        let (stdin, output) = match self.runtime {
            Runtime::Blocking => (None, None),
            Runtime::Async => (Some(Stdio::Null), Some(Stdio::Inherit)),
        };
        CommandLine {
            program: self.program.clone(),
            args,
            env_remove: "NOTIFY_SOCKET".to_owned(),
            stdin,
            stdout: if self.capture {
                Some(Stdio::Piped)
            } else {
                output
            },
            stderr: output,
        }
    }
}

} // verus!
