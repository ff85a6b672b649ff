//! What the library asks of the program that drives it, and what that
//! program answers.
//!
//! The library starts no process and touches no file. It names the next step
//! as a `Request`; the driver carries it out and hands the outcome back as a
//! `Response`.

use vstd::prelude::*;

verus! {

/// A program to run in a working directory.
#[derive(Debug, Clone, PartialEq, Eq)]
pub struct Command {
    pub program: String,
    pub args: Vec<String>,
    /// The directory to run the program in.
    pub dir: String,
    /// Whether the driver keeps what the program writes, to hand it back.
    pub capture: bool,
}

/// What a `Command` holds, as sequences of characters.
pub struct CommandView {
    pub program: Seq<char>,
    pub args: Seq<Seq<char>>,
    pub dir: Seq<char>,
    pub capture: bool,
}

impl View for Command {
    type V = CommandView;

    open spec fn view(&self) -> CommandView {
        CommandView {
            program: self.program@,
            args: self.args.deep_view(),
            dir: self.dir@,
            capture: self.capture,
        }
    }
}

/// How a program ended.
#[derive(Debug, Clone, PartialEq, Eq)]
pub struct Exit {
    /// Whether it reported success.
    pub success: bool,
    /// Its exit status, where it ended by itself.
    pub code: Option<i32>,
    /// What it wrote to its output, where that was kept.
    pub stdout: String,
    /// What it wrote to its error stream, where that was kept.
    pub stderr: String,
}

/// What an `Exit` holds, as sequences of characters.
pub struct ExitView {
    pub success: bool,
    pub code: Option<i32>,
    pub stdout: Seq<char>,
    pub stderr: Seq<char>,
}

impl View for Exit {
    type V = ExitView;

    open spec fn view(&self) -> ExitView {
        ExitView {
            success: self.success,
            code: self.code,
            stdout: self.stdout@,
            stderr: self.stderr@,
        }
    }
}

/// What became of a `Command`.
#[derive(Debug, Clone, PartialEq, Eq)]
pub enum Ran {
    /// The program ran and ended.
    Exited(Exit),
    /// The program could not be started; the text says why.
    NotStarted(String),
}

/// What a `Ran` holds, as sequences of characters.
pub enum RanView {
    Exited(ExitView),
    NotStarted(Seq<char>),
}

impl View for Ran {
    type V = RanView;

    open spec fn view(&self) -> RanView {
        match self {
            Ran::Exited(exit) => RanView::Exited(exit@),
            Ran::NotStarted(why) => RanView::NotStarted(why@),
        }
    }
}

/// What kind of thing a directory entry is, links not followed.
#[derive(Debug, Clone, Copy, PartialEq, Eq, Structural)]
pub enum EntryKind {
    Directory,
    File,
    Symlink,
    /// Anything else: a socket, a pipe, a device.
    Other,
}

/// One entry of a directory listing.
#[derive(Debug, Clone, PartialEq, Eq)]
pub enum Entry {
    /// An entry, by its name within the directory. The name is to be one
    /// path component: not empty, neither `.` nor `..`, and without a `/`.
    /// A copy fails on an entry with any other name.
    Found { name: String, kind: EntryKind },
    /// An entry whose kind could not be told; the text says why.
    Untyped { name: String, why: String },
    /// An entry that could not be read; the text says why.
    Unreadable { why: String },
}

/// What an `Entry` holds, as sequences of characters.
pub enum EntryView {
    Found { name: Seq<char>, kind: EntryKind },
    Untyped { name: Seq<char>, why: Seq<char> },
    Unreadable { why: Seq<char> },
}

impl View for Entry {
    type V = EntryView;

    open spec fn view(&self) -> EntryView {
        match self {
            Entry::Found { name, kind } => EntryView::Found { name: name@, kind: *kind },
            Entry::Untyped { name, why } => EntryView::Untyped { name: name@, why: why@ },
            Entry::Unreadable { why } => EntryView::Unreadable { why: why@ },
        }
    }
}

impl DeepView for Entry {
    type V = EntryView;

    open spec fn deep_view(&self) -> EntryView {
        self@
    }
}

/// A step for the driver to carry out.
#[derive(Debug, Clone, PartialEq, Eq)]
pub enum Request {
    /// Tell whether anything is at `path`.
    Exists { path: String },
    /// Run a program and wait for it to end.
    Run(Command),
    /// Remove the directory at `path` with all that it holds.
    RemoveTree { path: String },
    /// Create the directory at `path`, and those above it that are missing.
    CreateTree { path: String },
    /// List the directory at `path`, or tell that there is none.
    List { path: String },
    /// Copy the file at `from` to `to`.
    CopyFile { from: String, to: String },
    /// Read where the symbolic link at `path` points.
    ReadLink { path: String },
    /// Create at `at` a symbolic link that points to `target`.
    Link { target: String, at: String },
}

/// What a `Request` holds, as sequences of characters.
pub enum RequestView {
    Exists { path: Seq<char> },
    Run(CommandView),
    RemoveTree { path: Seq<char> },
    CreateTree { path: Seq<char> },
    List { path: Seq<char> },
    CopyFile { from: Seq<char>, to: Seq<char> },
    ReadLink { path: Seq<char> },
    Link { target: Seq<char>, at: Seq<char> },
}

impl View for Request {
    type V = RequestView;

    open spec fn view(&self) -> RequestView {
        match self {
            Request::Exists { path } => RequestView::Exists { path: path@ },
            Request::Run(command) => RequestView::Run(command@),
            Request::RemoveTree { path } => RequestView::RemoveTree { path: path@ },
            Request::CreateTree { path } => RequestView::CreateTree { path: path@ },
            Request::List { path } => RequestView::List { path: path@ },
            Request::CopyFile { from, to } => RequestView::CopyFile { from: from@, to: to@ },
            Request::ReadLink { path } => RequestView::ReadLink { path: path@ },
            Request::Link { target, at } => RequestView::Link { target: target@, at: at@ },
        }
    }
}

/// The outcome of a `Request`.
#[derive(Debug, Clone, PartialEq, Eq)]
pub enum Response {
    /// Answers `Exists`.
    Exists(bool),
    /// Answers `Run`.
    Ran(Ran),
    /// The step was carried out. Answers `RemoveTree`, `CreateTree`,
    /// `CopyFile` and `Link`.
    Done,
    /// The step failed; the text says why. Answers every request but
    /// `Exists` and `Run`.
    Failed(String),
    /// Answers `List` where no directory is at the path: nothing is there,
    /// or what is there is something else.
    NotDirectory,
    /// Answers `List`: the entries, in the order in which they were read.
    Entries(Vec<Entry>),
    /// Answers `ReadLink`: where the link points.
    Target(String),
}

/// What a `Response` holds, as sequences of characters.
pub enum ResponseView {
    Exists(bool),
    Ran(RanView),
    Done,
    Failed(Seq<char>),
    NotDirectory,
    Entries(Seq<EntryView>),
    Target(Seq<char>),
}

impl View for Response {
    type V = ResponseView;

    open spec fn view(&self) -> ResponseView {
        match self {
            Response::Exists(found) => ResponseView::Exists(*found),
            Response::Ran(ran) => ResponseView::Ran(ran@),
            Response::Done => ResponseView::Done,
            Response::Failed(why) => ResponseView::Failed(why@),
            Response::NotDirectory => ResponseView::NotDirectory,
            Response::Entries(entries) => ResponseView::Entries(entries.deep_view()),
            Response::Target(target) => ResponseView::Target(target@),
        }
    }
}

/// Whether `response` is an outcome that `request` can have.
pub open spec fn answers(request: RequestView, response: ResponseView) -> bool {
    match request {
        RequestView::Exists { .. } => response is Exists,
        RequestView::Run(_) => response is Ran,
        RequestView::RemoveTree { .. } | RequestView::CreateTree { .. } | RequestView::CopyFile {
            ..
        } | RequestView::Link { .. } => response is Done || response is Failed,
        RequestView::List { .. } => response is NotDirectory || response is Entries
            || response is Failed,
        RequestView::ReadLink { .. } => response is Target || response is Failed,
    }
}

impl Request {
    /// Tells whether `response` is an outcome that this request can have.
    pub fn is_answered_by(&self, response: &Response) -> (b: bool)
        ensures
            b == answers(self@, response@),
    {
        match self {
            Request::Exists { .. } => matches!(response, Response::Exists(_)),
            Request::Run(_) => matches!(response, Response::Ran(_)),
            Request::RemoveTree { .. }
            | Request::CreateTree { .. }
            | Request::CopyFile { .. }
            | Request::Link { .. } => matches!(response, Response::Done | Response::Failed(_)),
            Request::List { .. } => matches!(
                response,
                Response::NotDirectory | Response::Entries(_) | Response::Failed(_)
            ),
            Request::ReadLink { .. } => {
                matches!(response, Response::Target(_) | Response::Failed(_))
            },
        }
    }
}

/// The view of a result: that of what it holds, either way.
pub open spec fn result_view<T: View, E: View>(r: Result<T, E>) -> Result<T::V, E::V> {
    match r {
        Ok(value) => Ok(value@),
        Err(error) => Err(error@),
    }
}

/// The view of an optional value: that of what it holds, if anything.
pub open spec fn option_view<T: View>(o: Option<T>) -> Option<T::V> {
    match o {
        Some(value) => Some(value@),
        None => None,
    }
}

} // verus!
