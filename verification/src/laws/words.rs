//! What the words of options, settings and operations say.

use vstd::prelude::*;

use crate::command::{Word, WordView};
use crate::config::{LogFormat, Runc, RuncView};
use crate::options::{CreateOpts, DeleteOpts, ExecOpts, KillOpts};

verus! {

/// Wherever the text `name` stands among `words`, the word right behind it is `word`.
#[verifier::opaque]
pub open spec fn followed(words: Seq<WordView>, name: Seq<char>, word: WordView) -> bool {
    &&& forall|i: int|
        0 <= i < words.len() && #[trigger] words[i] == WordView::Text(name) ==> i + 1 < words.len()
    &&& forall|i: int, j: int|
        0 <= i < words.len() && j == i + 1 && #[trigger] words[i] == WordView::Text(name)
            ==> #[trigger] words[j] == word
}

/// The flag `name` stands among `words` exactly where there is a path for it, and is followed by
/// that path.
pub open spec fn names_path(words: Seq<WordView>, name: Seq<char>, path: Option<String>) -> bool {
    &&& words.contains(WordView::Text(name)) <==> path is Some
    &&& path matches Some(path) ==> followed(words, name, WordView::Path(path@))
}

/// The word of a path, where there is one.
pub open spec fn path_word(path: Option<Seq<char>>) -> Option<WordView> {
    match path {
        Some(path) => Some(WordView::Path(path)),
        None => None,
    }
}

/// How many words a flag takes.
pub open spec fn size(said: bool, words: int) -> int {
    if said {
        words
    } else {
        0
    }
}

proof fn lemma_joined(first: Seq<WordView>, second: Seq<WordView>)
    ensures
        forall|word: WordView| #[trigger]
            (first + second).contains(word) <==> first.contains(word) || second.contains(word),
        forall|name: Seq<char>, word: WordView|
            followed(first, name, word) && followed(second, name, word) ==> #[trigger] followed(
                first + second,
                name,
                word,
            ),
{
    reveal(followed);
    let joined = first + second;
    assert forall|word: WordView| #[trigger] joined.contains(word) <==> first.contains(word)
        || second.contains(word) by {
        if first.contains(word) {
            let i = choose|i: int| 0 <= i < first.len() && first[i] == word;
            assert(joined[i] == word);
        }
        if second.contains(word) {
            let i = choose|i: int| 0 <= i < second.len() && second[i] == word;
            assert(joined[first.len() + i] == word);
        }
    }
    assert forall|name: Seq<char>, word: WordView|
        followed(first, name, word) && followed(second, name, word) implies #[trigger] followed(
        joined,
        name,
        word,
    ) by {
        assert forall|i: int|
            0 <= i < joined.len() && #[trigger] joined[i] == WordView::Text(name) implies i + 1
            < joined.len() by {
            if i < first.len() {
                assert(first[i] == joined[i]);
            } else {
                assert(second[i - first.len()] == joined[i]);
            }
        }
        assert forall|i: int, j: int|
            0 <= i < joined.len() && j == i + 1 && #[trigger] joined[i] == WordView::Text(
                name,
            ) implies #[trigger] joined[j] == word by {
            if i < first.len() {
                assert(first[i] == joined[i]);
                assert(first[j] == joined[j]);
            } else {
                assert(second[i - first.len()] == joined[i]);
                assert(second[j - first.len()] == joined[j]);
            }
        }
    }
}

proof fn lemma_single(words: Seq<WordView>, name: Seq<char>, said: bool)
    requires
        words == crate::command::flag(name, said),
    ensures
        forall|word: WordView| #[trigger]
            words.contains(word) <==> said && word == WordView::Text(name),
        forall|other: Seq<char>, word: WordView|
            other != name ==> #[trigger] followed(words, other, word),
{
    reveal(followed);
    if said {
        assert(words[0] == WordView::Text(name));
    }
}

proof fn lemma_valued(words: Seq<WordView>, name: Seq<char>, value: Option<WordView>)
    requires
        value is None ==> words == Seq::<WordView>::empty(),
        value is Some ==> words == seq![WordView::Text(name), value->Some_0],
        value != Some(WordView::Text(name)),
    ensures
        forall|word: WordView| #[trigger]
            words.contains(word) <==> value is Some && (word == WordView::Text(name) || word
                == value->Some_0),
        value is Some ==> followed(words, name, value->Some_0),
        forall|other: Seq<char>, word: WordView|
            other != name && value != Some(WordView::Text(other)) ==> #[trigger] followed(
                words,
                other,
                word,
            ),
{
    reveal(followed);
    if value is Some {
        assert(words[0] == WordView::Text(name));
        assert(words[1] == value->Some_0);
    }
}

/// The paths among words are those words that are paths, in their order.
pub proof fn law_paths_among_words(words: Seq<WordView>)
    ensures
        crate::command::paths_in(words) == words.filter(
            |word: WordView| word is Path,
        ).map_values(|word: WordView| word->Path_0),
    decreases words.len(),
{
    let is_path = |word: WordView| word is Path;
    let path_of = |word: WordView| word->Path_0;
    reveal(Seq::filter);
    if words.len() > 0 {
        law_paths_among_words(words.drop_last());
        let before = words.drop_last().filter(is_path);
        if words.last() is Path {
            assert(before.push(words.last()).map_values(path_of) =~= before.map_values(
                path_of,
            ).push(words.last()->Path_0));
        }
    }
    assert(crate::command::paths_in(words) =~= words.filter(is_path).map_values(path_of));
}

/// Filling in absolute forms changes nothing but paths: a text stays what it is and where it is,
/// and a path becomes the answer that has as many before it as the path has paths before it.
pub proof fn law_only_paths_are_filled(words: Seq<WordView>, answers: Seq<Seq<char>>, i: int)
    requires
        0 <= i < words.len(),
    ensures
        crate::command::filled(words, answers).len() == words.len(),
        words[i] matches WordView::Text(text) ==> crate::command::filled(words, answers)[i] == text,
        words[i] is Path ==> crate::command::filled(words, answers)[i] == answers[words.take(
            i,
        ).filter(|word: WordView| word is Path).len() as int],
{
    law_paths_among_words(words.take(i));
}

/// Texts that are taken as they are stay as they are: each is a word of its own, and none a path.
pub proof fn law_literal_texts_stand(texts: Seq<Seq<char>>, i: int)
    requires
        0 <= i < texts.len(),
    ensures
        crate::command::literal(texts).len() == texts.len(),
        crate::command::literal(texts)[i] == WordView::Text(texts[i]),
{
}

proof fn lemma_flag_names_differ()
    ensures
        "--pid-file"@ != "--console-socket"@,
        "--pid-file"@ != "--no-pivot"@,
        "--pid-file"@ != "--no-new-keyring"@,
        "--pid-file"@ != "--detach"@,
        "--console-socket"@ != "--no-pivot"@,
        "--console-socket"@ != "--no-new-keyring"@,
        "--console-socket"@ != "--detach"@,
        "--no-pivot"@ != "--no-new-keyring"@,
        "--no-pivot"@ != "--detach"@,
        "--no-new-keyring"@ != "--detach"@,
{
    reveal_strlit("--pid-file");
    reveal_strlit("--console-socket");
    reveal_strlit("--no-pivot");
    reveal_strlit("--no-new-keyring");
    reveal_strlit("--detach");
    assert("--pid-file"@[2] == 'p');
    assert("--no-pivot"@[2] == 'n');
    assert("--console-socket"@.len() == 16 && "--no-new-keyring"@.len() == 16);
    assert("--console-socket"@[2] == 'c' && "--no-new-keyring"@[2] == 'n');
    assert("--detach"@.len() == 8);
}

/// Creating or running a container is told just what its options say: each flag stands there
/// exactly where its option is set, a flag with a path is followed by the path of its own option,
/// and nothing else stands there.
pub proof fn law_create_flags_say_the_options(opts: CreateOpts)
    ensures
        ({
            let words = opts.words();
            &&& names_path(words, "--pid-file"@, opts.pid_file)
            &&& names_path(words, "--console-socket"@, opts.console_socket)
            &&& words.contains(WordView::Text("--no-pivot"@)) <==> opts.no_pivot
            &&& words.contains(WordView::Text("--no-new-keyring"@)) <==> opts.no_new_keyring
            &&& words.contains(WordView::Text("--detach"@)) <==> opts.detach
            &&& words.len() == size(opts.pid_file is Some, 2) + size(
                opts.console_socket is Some,
                2,
            ) + size(opts.no_pivot, 1) + size(opts.no_new_keyring, 1) + size(opts.detach, 1)
        }),
{
    lemma_flag_names_differ();
    let pid_path = crate::text::text_view(opts.pid_file);
    let socket_path = crate::text::text_view(opts.console_socket);
    let pid = crate::command::path_flag("--pid-file"@, pid_path);
    let socket = crate::command::path_flag("--console-socket"@, socket_path);
    let pivot = crate::command::flag("--no-pivot"@, opts.no_pivot);
    let keyring = crate::command::flag("--no-new-keyring"@, opts.no_new_keyring);
    let detach = crate::command::flag("--detach"@, opts.detach);
    lemma_valued(pid, "--pid-file"@, path_word(pid_path));
    lemma_valued(socket, "--console-socket"@, path_word(socket_path));
    lemma_single(pivot, "--no-pivot"@, opts.no_pivot);
    lemma_single(keyring, "--no-new-keyring"@, opts.no_new_keyring);
    lemma_single(detach, "--detach"@, opts.detach);
    lemma_joined(pid, socket);
    lemma_joined(pid + socket, pivot);
    lemma_joined(pid + socket + pivot, keyring);
    lemma_joined(pid + socket + pivot + keyring, detach);
}

/// The flags of creating or running a container come in a fixed order: each comes behind those of
/// the options before it, and takes nothing from them. Where no option is set there is none, and
/// whether the caller brings streams makes no difference.
pub proof fn law_create_flags_in_order(opts: CreateOpts, pid_file: String, socket: String)
    ensures
        ({
            let io = CreateOpts { io: !opts.io, ..opts };
            let four = CreateOpts { detach: false, ..opts };
            let three = CreateOpts { no_new_keyring: false, ..four };
            let two = CreateOpts { no_pivot: false, ..three };
            let one = CreateOpts { console_socket: None, ..two };
            let none = CreateOpts { pid_file: None, ..one };
            &&& io.words() == opts.words()
            &&& (CreateOpts { detach: true, ..four }).words() == four.words().push(
                WordView::Text("--detach"@),
            )
            &&& (CreateOpts { no_new_keyring: true, ..three }).words() == three.words().push(
                WordView::Text("--no-new-keyring"@),
            )
            &&& (CreateOpts { no_pivot: true, ..two }).words() == two.words().push(
                WordView::Text("--no-pivot"@),
            )
            &&& (CreateOpts { console_socket: Some(socket), ..one }).words() == one.words().push(
                WordView::Text("--console-socket"@),
            ).push(WordView::Path(socket@))
            &&& (CreateOpts { pid_file: Some(pid_file), ..none }).words() == seq![
                WordView::Text("--pid-file"@),
                WordView::Path(pid_file@),
            ]
            &&& none.words() == Seq::<WordView>::empty()
        }),
{
}

/// An additional process is told just what its options say: each flag stands there exactly where
/// its option is set, a flag with a path is followed by the path of its own option, and nothing
/// else stands there.
pub proof fn law_exec_flags_say_the_options(opts: ExecOpts)
    ensures
        ({
            let words = opts.words();
            &&& names_path(words, "--pid-file"@, opts.pid_file)
            &&& names_path(words, "--console-socket"@, opts.console_socket)
            &&& words.contains(WordView::Text("--detach"@)) <==> opts.detach
            &&& words.len() == size(opts.pid_file is Some, 2) + size(
                opts.console_socket is Some,
                2,
            ) + size(opts.detach, 1)
        }),
{
    lemma_flag_names_differ();
    let pid_path = crate::text::text_view(opts.pid_file);
    let socket_path = crate::text::text_view(opts.console_socket);
    let pid = crate::command::path_flag("--pid-file"@, pid_path);
    let socket = crate::command::path_flag("--console-socket"@, socket_path);
    let detach = crate::command::flag("--detach"@, opts.detach);
    lemma_valued(pid, "--pid-file"@, path_word(pid_path));
    lemma_valued(socket, "--console-socket"@, path_word(socket_path));
    lemma_single(detach, "--detach"@, opts.detach);
    lemma_joined(pid, socket);
    lemma_joined(pid + socket, detach);
}

/// The flags of an additional process come in a fixed order: each comes behind those of the options
/// before it, and takes nothing from them. Where no option is set there is none, and whether the
/// caller brings streams makes no difference.
pub proof fn law_exec_flags_in_order(opts: ExecOpts, pid_file: String, socket: String)
    ensures
        ({
            let io = ExecOpts { io: !opts.io, ..opts };
            let two = ExecOpts { detach: false, ..opts };
            let one = ExecOpts { console_socket: None, ..two };
            let none = ExecOpts { pid_file: None, ..one };
            &&& io.words() == opts.words()
            &&& (ExecOpts { detach: true, ..two }).words() == two.words().push(
                WordView::Text("--detach"@),
            )
            &&& (ExecOpts { console_socket: Some(socket), ..one }).words() == one.words().push(
                WordView::Text("--console-socket"@),
            ).push(WordView::Path(socket@))
            &&& (ExecOpts { pid_file: Some(pid_file), ..none }).words() == seq![
                WordView::Text("--pid-file"@),
                WordView::Path(pid_file@),
            ]
            &&& none.words() == Seq::<WordView>::empty()
        }),
{
}

/// The flags of deleting and of signalling are one each, and stand there exactly where they are
/// asked for.
pub proof fn law_single_flags_say_the_options(delete: DeleteOpts, kill: KillOpts)
    ensures
        delete.force ==> delete.words() == seq![WordView::Text("--force"@)],
        !delete.force ==> delete.words() == Seq::<WordView>::empty(),
        kill.all ==> kill.words() == seq![WordView::Text("--all"@)],
        !kill.all ==> kill.words() == Seq::<WordView>::empty(),
{
}

/// An operation takes the flags that its options give, and none where there are no options.
pub proof fn law_flags_are_those_of_the_options(
    create: CreateOpts,
    exec: ExecOpts,
    delete: DeleteOpts,
    kill: KillOpts,
)
    ensures
        crate::operation::create_flags(Some(&create)) == create.words(),
        crate::operation::exec_flags(Some(&exec)) == exec.words(),
        crate::operation::delete_flags(Some(&delete)) == delete.words(),
        crate::operation::kill_flags(Some(&kill)) == kill.words(),
        crate::operation::create_flags(None) == Seq::<WordView>::empty(),
        crate::operation::exec_flags(None) == Seq::<WordView>::empty(),
        crate::operation::delete_flags(None) == Seq::<WordView>::empty(),
        crate::operation::kill_flags(None) == Seq::<WordView>::empty(),
{
}

proof fn lemma_setting_names_differ()
    ensures
        "--root"@ != "--debug"@,
        "--root"@ != "--log"@,
        "--root"@ != "--log-format"@,
        "--root"@ != "--systemd-cgroup"@,
        "--root"@ != "--rootless=true"@,
        "--root"@ != "--rootless=false"@,
        "--root"@ != "json"@,
        "--root"@ != "text"@,
        "--debug"@ != "--log"@,
        "--debug"@ != "--log-format"@,
        "--debug"@ != "--systemd-cgroup"@,
        "--debug"@ != "--rootless=true"@,
        "--debug"@ != "--rootless=false"@,
        "--debug"@ != "json"@,
        "--debug"@ != "text"@,
        "--log"@ != "--log-format"@,
        "--log"@ != "--systemd-cgroup"@,
        "--log"@ != "--rootless=true"@,
        "--log"@ != "--rootless=false"@,
        "--log"@ != "json"@,
        "--log"@ != "text"@,
        "--log-format"@ != "--systemd-cgroup"@,
        "--log-format"@ != "--rootless=true"@,
        "--log-format"@ != "--rootless=false"@,
        "--log-format"@ != "json"@,
        "--log-format"@ != "text"@,
        "--systemd-cgroup"@ != "--rootless=true"@,
        "--systemd-cgroup"@ != "--rootless=false"@,
        "--systemd-cgroup"@ != "json"@,
        "--systemd-cgroup"@ != "text"@,
        "--rootless=true"@ != "--rootless=false"@,
        "--rootless=true"@ != "json"@,
        "--rootless=true"@ != "text"@,
        "--rootless=false"@ != "json"@,
        "--rootless=false"@ != "text"@,
        "json"@ != "text"@,
{
    reveal_strlit("--root");
    reveal_strlit("--debug");
    reveal_strlit("--log");
    reveal_strlit("--log-format");
    reveal_strlit("--systemd-cgroup");
    reveal_strlit("--rootless=true");
    reveal_strlit("--rootless=false");
    reveal_strlit("json");
    reveal_strlit("text");
    assert("--root"@.len() == 6);
    assert("--debug"@.len() == 7);
    assert("--log"@.len() == 5);
    assert("--log-format"@.len() == 12);
    assert("--systemd-cgroup"@.len() == 16 && "--systemd-cgroup"@[2] == 's');
    assert("--rootless=true"@.len() == 15);
    assert("--rootless=false"@.len() == 16 && "--rootless=false"@[2] == 'r');
    assert("json"@.len() == 4 && "json"@[0] == 'j');
    assert("text"@.len() == 4 && "text"@[0] == 't');
}

/// The name of a log format, as runc knows it.
pub open spec fn format_name(format: LogFormat) -> Seq<char> {
    if format is Json {
        "json"@
    } else {
        "text"@
    }
}

/// The words that stand before every operation are just what the settings say: each flag stands
/// there exactly where its setting was made, a flag with a value is followed by the value of its
/// own setting, and nothing else stands there.
pub proof fn law_global_flags_say_the_settings(runc: RuncView)
    ensures
        ({
            let words = runc.global();
            &&& words.contains(WordView::Text("--root"@)) <==> runc.root is Some
            &&& runc.root matches Some(root) ==> followed(words, "--root"@, WordView::Path(root))
            &&& words.contains(WordView::Text("--debug"@)) <==> runc.debug
            &&& words.contains(WordView::Text("--log"@)) <==> runc.log is Some
            &&& runc.log matches Some(log) ==> followed(words, "--log"@, WordView::Path(log))
            &&& words.contains(WordView::Text("--log-format"@)) <==> runc.log_format is Some
            &&& runc.log_format matches Some(format) ==> followed(
                words,
                "--log-format"@,
                WordView::Text(format_name(format)),
            )
            &&& words.contains(WordView::Text("--systemd-cgroup"@)) <==> runc.systemd_cgroup
            &&& words.contains(WordView::Text("--rootless=true"@)) <==> runc.rootless == Some(true)
            &&& words.contains(WordView::Text("--rootless=false"@)) <==> runc.rootless == Some(
                false,
            )
            &&& words.len() == size(runc.root is Some, 2) + size(runc.debug, 1) + size(
                runc.log is Some,
                2,
            ) + size(runc.log_format is Some, 2) + size(runc.systemd_cgroup, 1) + size(
                runc.rootless is Some,
                1,
            )
        }),
{
    lemma_setting_names_differ();
    let root = crate::command::path_flag("--root"@, runc.root);
    let debug = crate::command::flag("--debug"@, runc.debug);
    let log = crate::command::path_flag("--log"@, runc.log);
    let format = runc.log_format_words();
    let systemd = crate::command::flag("--systemd-cgroup"@, runc.systemd_cgroup);
    let rootless = runc.rootless_words();
    lemma_valued(root, "--root"@, path_word(runc.root));
    lemma_valued(log, "--log"@, path_word(runc.log));
    lemma_valued(
        format,
        "--log-format"@,
        match runc.log_format {
            Some(format) => Some(WordView::Text(format_name(format))),
            None => None,
        },
    );
    lemma_single(debug, "--debug"@, runc.debug);
    lemma_single(systemd, "--systemd-cgroup"@, runc.systemd_cgroup);
    if let Some(said) = runc.rootless {
        let name = if said {
            "--rootless=true"@
        } else {
            "--rootless=false"@
        };
        lemma_single(rootless, name, true);
    }
    lemma_joined(root, debug);
    lemma_joined(root + debug, log);
    lemma_joined(root + debug + log, format);
    lemma_joined(root + debug + log + format, systemd);
    lemma_joined(root + debug + log + format + systemd, rootless);
}

/// Where the binary is, whether a process group of its own is wanted, and how long a call should
/// take add no word to a call.
pub proof fn law_settings_that_are_only_kept(runc: RuncView, other: RuncView)
    requires
        runc.root == other.root,
        runc.debug == other.debug,
        runc.log == other.log,
        runc.log_format == other.log_format,
        runc.systemd_cgroup == other.systemd_cgroup,
        runc.rootless == other.rootless,
    ensures
        runc.global() == other.global(),
{
}

/// The words of the settings come in a fixed order: each comes behind those of the settings before
/// it, and takes nothing from them. Where nothing was set there is none.
pub proof fn law_global_flags_in_order(
    runc: RuncView,
    root: Seq<char>,
    log: Seq<char>,
    format: LogFormat,
    rootless: bool,
)
    ensures
        ({
            let five = RuncView { rootless: None, ..runc };
            let four = RuncView { systemd_cgroup: false, ..five };
            let three = RuncView { log_format: None, ..four };
            let two = RuncView { log: None, ..three };
            let one = RuncView { debug: false, ..two };
            let none = RuncView { root: None, ..one };
            &&& (RuncView { rootless: Some(rootless), ..five }).global() == five.global().push(
                WordView::Text(
                    if rootless {
                        "--rootless=true"@
                    } else {
                        "--rootless=false"@
                    },
                ),
            )
            &&& (RuncView { systemd_cgroup: true, ..four }).global() == four.global().push(
                WordView::Text("--systemd-cgroup"@),
            )
            &&& (RuncView { log_format: Some(format), ..three }).global() == three.global().push(
                WordView::Text("--log-format"@),
            ).push(WordView::Text(format_name(format)))
            &&& (RuncView { log: Some(log), ..two }).global() == two.global().push(
                WordView::Text("--log"@),
            ).push(WordView::Path(log))
            &&& (RuncView { debug: true, ..one }).global() == one.global().push(
                WordView::Text("--debug"@),
            )
            &&& (RuncView { root: Some(root), ..none }).global() == seq![
                WordView::Text("--root"@),
                WordView::Path(root),
            ]
            &&& none.global() == Seq::<WordView>::empty()
        }),
{
}

/// A log format is named after itself.
pub proof fn law_log_formats_are_named(format: &LogFormat, name: String)
    requires
        call_ensures(LogFormat::to_string, (format,), name),
    ensures
        *format is Json ==> name@ == "json"@,
        *format is Text ==> name@ == "text"@,
{
}

/// The words that options and settings are turned into are the words that they say.
pub proof fn law_args_are_the_words(
    create: &CreateOpts,
    exec: &ExecOpts,
    delete: &DeleteOpts,
    kill: &KillOpts,
    runc: &Runc,
    words: Vec<Word>,
)
    ensures
        call_ensures(CreateOpts::args, (create,), words) ==> words.deep_view() == create.words(),
        call_ensures(ExecOpts::args, (exec,), words) ==> words.deep_view() == exec.words(),
        call_ensures(DeleteOpts::args, (delete,), words) ==> words.deep_view() == delete.words(),
        call_ensures(KillOpts::args, (kill,), words) ==> words.deep_view() == kill.words(),
        call_ensures(Runc::args, (runc,), words) ==> words.deep_view() == runc@.global(),
{
}

/// Options that nothing was said about say nothing.
pub proof fn law_new_options_say_nothing(
    create: CreateOpts,
    exec: ExecOpts,
    delete: DeleteOpts,
    kill: KillOpts,
)
    requires
        call_ensures(CreateOpts::new, (), create),
        call_ensures(ExecOpts::new, (), exec),
        call_ensures(DeleteOpts::new, (), delete),
        call_ensures(KillOpts::new, (), kill),
    ensures
        create.words() == Seq::<WordView>::empty(),
        exec.words() == Seq::<WordView>::empty(),
        delete.words() == Seq::<WordView>::empty(),
        kill.words() == Seq::<WordView>::empty(),
        !create.io,
        !exec.io,
{
}

/// Signalling a container is asked for with all of the flags and nothing in their place, whatever
/// the signal: they stand in their order between the name of the operation and the container, and
/// the numeral of the signal comes last.
pub proof fn law_kill_keeps_its_flags(id: Seq<char>, sig: u32, flags: Seq<WordView>)
    ensures
        ({
            let words = crate::operation::kill_operation(id, sig, flags);
            &&& words.len() == flags.len() + 3
            &&& words[0] == WordView::Text("kill"@)
            &&& words.subrange(1, 1int + flags.len()) == flags
            &&& words[1int + flags.len()] == WordView::Text(id)
            &&& words[2int + flags.len()] == WordView::Text(crate::text::decimal(sig as nat))
        }),
{
    let words = crate::operation::kill_operation(id, sig, flags);
    assert(words.subrange(1, 1int + flags.len()) =~= flags);
}

/// Deleting a container is asked for with all of the flags: they stand in their order between the
/// name of the operation and the container.
pub proof fn law_delete_keeps_its_flags(id: Seq<char>, flags: Seq<WordView>)
    ensures
        ({
            let words = crate::operation::delete_operation(id, flags);
            &&& words.len() == flags.len() + 2
            &&& words[0] == WordView::Text("delete"@)
            &&& words.subrange(1, 1int + flags.len()) == flags
            &&& words[1int + flags.len()] == WordView::Text(id)
        }),
{
    let words = crate::operation::delete_operation(id, flags);
    assert(words.subrange(1, 1int + flags.len()) =~= flags);
}

} // verus!
