//! What can be said about single operations.

use vstd::prelude::*;

use crate::command::{push_flag, push_path_flag, Word, WordView};

verus! {

/// What can be said about creating or running a container.
#[derive(Debug)]
pub struct CreateOpts {
    /// Whether the caller brings streams of its own.
    pub io: bool,
    /// The file that the pid of the container is written to.
    pub pid_file: Option<String>,
    /// The socket that the console is sent to.
    pub console_socket: Option<String>,
    /// Whether `pivot_root` is avoided inside the container.
    pub no_pivot: bool,
    /// Whether the container keeps the caller's session keyring.
    pub no_new_keyring: bool,
    /// Whether runc returns while the container still runs.
    pub detach: bool,
}

/// What can be said about an additional process in a container.
#[derive(Debug)]
pub struct ExecOpts {
    /// Whether the caller brings streams of its own.
    pub io: bool,
    /// The file that the pid of the process is written to.
    pub pid_file: Option<String>,
    /// The socket that the console is sent to.
    pub console_socket: Option<String>,
    /// Whether runc returns while the process still runs.
    pub detach: bool,
}

/// What can be said about deleting a container.
#[derive(Debug)]
pub struct DeleteOpts {
    /// Whether a container that still runs is killed first.
    pub force: bool,
}

/// What can be said about signalling a container.
#[derive(Debug)]
pub struct KillOpts {
    /// Whether every process in the container gets the signal.
    pub all: bool,
}

impl CreateOpts {
    /// A flag for each thing that was said.
    pub open spec fn words(self) -> Seq<WordView> {
        crate::command::path_flag("--pid-file"@, crate::text::text_view(self.pid_file))
            + crate::command::path_flag(
            "--console-socket"@,
            crate::text::text_view(self.console_socket),
        ) + crate::command::flag("--no-pivot"@, self.no_pivot) + crate::command::flag(
            "--no-new-keyring"@,
            self.no_new_keyring,
        ) + crate::command::flag("--detach"@, self.detach)
    }

    /// Nothing is said.
    pub fn new() -> (opts: Self)
        ensures
            opts == (CreateOpts {
                io: false,
                pid_file: None,
                console_socket: None,
                no_pivot: false,
                no_new_keyring: false,
                detach: false,
            }),
    {
        CreateOpts {
            io: false,
            pid_file: None,
            console_socket: None,
            no_pivot: false,
            no_new_keyring: false,
            detach: false,
        }
    }

    /// A flag for each thing that was said.
    pub fn args(&self) -> (words: Vec<Word>)
        ensures
            words.deep_view() == self.words(),
    {
        let mut words: Vec<Word> = Vec::new();
        assert(words.deep_view() =~= Seq::<WordView>::empty());
        push_path_flag(&mut words, "--pid-file", &self.pid_file);
        push_path_flag(&mut words, "--console-socket", &self.console_socket);
        push_flag(&mut words, "--no-pivot", self.no_pivot);
        push_flag(&mut words, "--no-new-keyring", self.no_new_keyring);
        push_flag(&mut words, "--detach", self.detach);
        assert(words.deep_view() =~= self.words());
        words
    }
}

impl ExecOpts {
    /// A flag for each thing that was said.
    pub open spec fn words(self) -> Seq<WordView> {
        crate::command::path_flag("--pid-file"@, crate::text::text_view(self.pid_file))
            + crate::command::path_flag(
            "--console-socket"@,
            crate::text::text_view(self.console_socket),
        ) + crate::command::flag("--detach"@, self.detach)
    }

    /// Nothing is said.
    pub fn new() -> (opts: Self)
        ensures
            opts == (ExecOpts { io: false, pid_file: None, console_socket: None, detach: false }),
    {
        ExecOpts { io: false, pid_file: None, console_socket: None, detach: false }
    }

    /// A flag for each thing that was said.
    pub fn args(&self) -> (words: Vec<Word>)
        ensures
            words.deep_view() == self.words(),
    {
        let mut words: Vec<Word> = Vec::new();
        assert(words.deep_view() =~= Seq::<WordView>::empty());
        push_path_flag(&mut words, "--pid-file", &self.pid_file);
        push_path_flag(&mut words, "--console-socket", &self.console_socket);
        push_flag(&mut words, "--detach", self.detach);
        assert(words.deep_view() =~= self.words());
        words
    }
}

impl DeleteOpts {
    /// A flag for each thing that was said.
    pub open spec fn words(self) -> Seq<WordView> {
        crate::command::flag("--force"@, self.force)
    }

    /// Nothing is said.
    pub fn new() -> (opts: Self)
        ensures
            opts == (DeleteOpts { force: false }),
    {
        DeleteOpts { force: false }
    }

    /// A flag for each thing that was said.
    pub fn args(&self) -> (words: Vec<Word>)
        ensures
            words.deep_view() == self.words(),
    {
        let mut words: Vec<Word> = Vec::new();
        push_flag(&mut words, "--force", self.force);
        assert(words.deep_view() =~= self.words());
        words
    }
}

impl KillOpts {
    /// A flag for each thing that was said.
    pub open spec fn words(self) -> Seq<WordView> {
        crate::command::flag("--all"@, self.all)
    }

    /// Nothing is said.
    pub fn new() -> (opts: Self)
        ensures
            opts == (KillOpts { all: false }),
    {
        KillOpts { all: false }
    }

    /// A flag for each thing that was said.
    pub fn args(&self) -> (words: Vec<Word>)
        ensures
            words.deep_view() == self.words(),
    {
        let mut words: Vec<Word> = Vec::new();
        push_flag(&mut words, "--all", self.all);
        assert(words.deep_view() =~= self.words());
        words
    }
}

} // verus!
