//! Publishing a build: run the build in the working tree, then put what it
//! left in `dist` in place of whatever the destination held.
//!
//! Nothing is asked of the destination before the driver has listed `dist`
//! as a directory: a build that leaves none has failed. The destination is
//! then replaced, not merged into: it is removed with all its contents
//! before the copy starts. The copy goes through the listing depth first,
//! keeps the directory structure, copies regular files, and makes each
//! symbolic link anew with the target it had. An entry is taken only by a
//! name that is one path component, so that no step leaves the two trees.
//! The first failure ends the publishing; what has been copied by then
//! stays.

use crate::driver::{
    option_view, result_view, Command, CommandView, Entry, EntryKind, EntryView, Ran, RanView,
    Request, RequestView, Response, ResponseView,
};
use crate::error::{ErrorKind, SyncError, SyncErrorView};
use crate::logger::{Report, ReportView};
use crate::text::{
    is_component, is_component_name, join, join_path, quote, quoted, signed_decimal,
    signed_decimal_of,
};
use crate::tree::{
    confined, lemma_begin_confined, lemma_confined_request, lemma_step_confined,
    publishing_confined, request_within,
};
use vstd::prelude::*;

verus! {

/// A directory that is being copied: where it is, where it goes, and the
/// entries that have not been taken up.
#[derive(Debug)]
pub struct Frame {
    source: String,
    destination: String,
    entries: Vec<Entry>,
    next: usize,
}

/// What a `Frame` holds, as sequences.
pub struct FrameView {
    pub source: Seq<char>,
    pub destination: Seq<char>,
    /// The entries that have not been taken up, in the order in which they
    /// will be.
    pub pending: Seq<EntryView>,
}

impl Frame {
    #[verifier::type_invariant]
    spec fn within(self) -> bool {
        self.next <= self.entries.len()
    }
}

impl View for Frame {
    type V = FrameView;

    closed spec fn view(&self) -> FrameView {
        FrameView {
            source: self.source@,
            destination: self.destination@,
            pending: self.entries.deep_view().skip(self.next as int),
        }
    }
}

impl DeepView for Frame {
    type V = FrameView;

    open spec fn deep_view(&self) -> FrameView {
        self@
    }
}

/// The step of a copy that the driver is to carry out next.
#[derive(Debug)]
pub enum CopyStep {
    /// List the directory at `source`, which goes to `destination`.
    Listing { source: String, destination: String },
    /// Create the directory `destination`, for the one at `source`.
    MakingDir { source: String, destination: String },
    /// Copy the file at `from` to `to`.
    CopyingFile { from: String, to: String },
    /// Read where the link at `path` points, to make one like it at `at`.
    ReadingLink { path: String, at: String },
    /// Make at `at` a link to `target`.
    Linking { target: String, at: String },
    /// Nothing: the copy is complete.
    Finished,
}

/// What a `CopyStep` holds, as sequences of characters.
pub enum CopyStepView {
    Listing { source: Seq<char>, destination: Seq<char> },
    MakingDir { source: Seq<char>, destination: Seq<char> },
    CopyingFile { from: Seq<char>, to: Seq<char> },
    ReadingLink { path: Seq<char>, at: Seq<char> },
    Linking { target: Seq<char>, at: Seq<char> },
    Finished,
}

impl View for CopyStep {
    type V = CopyStepView;

    open spec fn view(&self) -> CopyStepView {
        match self {
            CopyStep::Listing { source, destination } => CopyStepView::Listing {
                source: source@,
                destination: destination@,
            },
            CopyStep::MakingDir { source, destination } => CopyStepView::MakingDir {
                source: source@,
                destination: destination@,
            },
            CopyStep::CopyingFile { from, to } => CopyStepView::CopyingFile {
                from: from@,
                to: to@,
            },
            CopyStep::ReadingLink { path, at } => CopyStepView::ReadingLink {
                path: path@,
                at: at@,
            },
            CopyStep::Linking { target, at } => CopyStepView::Linking {
                target: target@,
                at: at@,
            },
            CopyStep::Finished => CopyStepView::Finished,
        }
    }
}

/// A recursive copy under way: the directories that are open, outermost
/// first, and the step that is due.
#[derive(Debug)]
pub struct Copier {
    frames: Vec<Frame>,
    step: CopyStep,
}

/// What a `Copier` holds, as sequences.
pub struct CopierView {
    pub frames: Seq<FrameView>,
    pub step: CopyStepView,
}

impl View for Copier {
    type V = CopierView;

    closed spec fn view(&self) -> CopierView {
        CopierView { frames: self.frames.deep_view(), step: self.step@ }
    }
}

/// A failure to publish, of the kind that clearing, creating and copying
/// give.
pub open spec fn io_failure(detail: Seq<char>) -> SyncErrorView {
    SyncErrorView { kind: ErrorKind::PublishIOFailed, detail }
}

/// The failure of a directory whose listing holds a name that is not one
/// path component.
pub open spec fn bad_name(source: Seq<char>, name: Seq<char>) -> SyncErrorView {
    io_failure("Nombre de entrada no válido en "@ + source + ": "@ + name)
}

/// The failure of a directory that could not be listed.
pub open spec fn unlisted(source: Seq<char>, why: Seq<char>) -> SyncErrorView {
    io_failure("No se pudo leer el directorio "@ + source + ": "@ + why)
}

/// The failure of a path that was to be listed and is no directory.
pub open spec fn not_a_directory(source: Seq<char>) -> SyncErrorView {
    unlisted(source, "no es un directorio"@)
}

/// The request that a step of a copy stands for.
pub open spec fn copy_request(step: CopyStepView) -> Option<RequestView> {
    match step {
        CopyStepView::Listing { source, .. } => Some(RequestView::List { path: source }),
        CopyStepView::MakingDir { destination, .. } => Some(
            RequestView::CreateTree { path: destination },
        ),
        CopyStepView::CopyingFile { from, to } => Some(RequestView::CopyFile { from, to }),
        CopyStepView::ReadingLink { path, .. } => Some(RequestView::ReadLink { path }),
        CopyStepView::Linking { target, at } => Some(RequestView::Link { target, at }),
        CopyStepView::Finished => None,
    }
}

/// What is left to look at in the open directories: the measure by which
/// `settle` ends.
pub open spec fn pending_in_last(frames: Seq<FrameView>) -> nat {
    if frames.len() == 0 {
        0
    } else {
        frames.last().pending.len()
    }
}

/// The step that an entry of this kind calls for, where the entry is at
/// `path` and goes to `at`: a directory is created, a file copied, a link
/// read. An entry of another kind calls for none.
pub open spec fn step_for(kind: EntryKind, path: Seq<char>, at: Seq<char>) -> Option<
    CopyStepView,
> {
    match kind {
        EntryKind::Directory => Some(CopyStepView::MakingDir { source: path, destination: at }),
        EntryKind::File => Some(CopyStepView::CopyingFile { from: path, to: at }),
        EntryKind::Symlink => Some(CopyStepView::ReadingLink { path, at }),
        EntryKind::Other => None,
    }
}

/// Where a copy goes on once a step is done: to the first pending entry of
/// the innermost open directory that calls for a step. Directories with
/// nothing pending are closed on the way, and entries that are neither
/// directory, file nor link are passed over. An entry that could not be
/// read, or whose name is not one path component, ends the copy with a
/// failure.
pub open spec fn settle(frames: Seq<FrameView>) -> Result<CopierView, SyncErrorView>
    decreases frames.len(), pending_in_last(frames),
{
    if frames.len() == 0 {
        Ok(CopierView { frames, step: CopyStepView::Finished })
    } else {
        let top = frames.last();
        if top.pending.len() == 0 {
            settle(frames.drop_last())
        } else {
            let rest = frames.drop_last().push(
                FrameView { pending: top.pending.drop_first(), ..top },
            );
            match top.pending.first() {
                EntryView::Found { name, kind } => if !is_component(name) {
                    Err(bad_name(top.source, name))
                } else {
                    match step_for(kind, join(top.source, name), join(top.destination, name)) {
                        Some(step) => Ok(CopierView { frames: rest, step }),
                        None => settle(rest),
                    }
                },
                EntryView::Untyped { name, why } => if !is_component(name) {
                    Err(bad_name(top.source, name))
                } else {
                    Err(
                        io_failure(
                            "No se pudo determinar el tipo de "@ + quoted(join(top.source, name))
                                + ": "@ + why,
                        ),
                    )
                },
                EntryView::Unreadable { why } => Err(
                    io_failure("No se pudo procesar una entrada en "@ + top.source + ": "@ + why),
                ),
            }
        }
    }
}

/// The copy of the directory at `source`, which the driver has listed as
/// `entries`, into `destination`, as it begins.
pub open spec fn copy_begin(
    source: Seq<char>,
    destination: Seq<char>,
    entries: Seq<EntryView>,
) -> Result<CopierView, SyncErrorView> {
    settle(seq![FrameView { source, destination, pending: entries }])
}

/// The copy after `response` to its step. A directory that turns out to be
/// none, or cannot be listed, ends the copy with a failure. A response that
/// does not answer the step leaves the copy as it is.
pub open spec fn copy_step(copier: CopierView, response: ResponseView) -> Result<
    CopierView,
    SyncErrorView,
> {
    match (copier.step, response) {
        (CopyStepView::Listing { source, .. }, ResponseView::NotDirectory) => Err(
            not_a_directory(source),
        ),
        (CopyStepView::Listing { source, .. }, ResponseView::Failed(why)) => Err(
            unlisted(source, why),
        ),
        (CopyStepView::Listing { source, destination }, ResponseView::Entries(entries)) => settle(
            copier.frames.push(FrameView { source, destination, pending: entries }),
        ),
        (CopyStepView::MakingDir { destination, .. }, ResponseView::Failed(why)) => Err(
            io_failure("No se pudo crear el directorio "@ + destination + ": "@ + why),
        ),
        (CopyStepView::MakingDir { source, destination }, ResponseView::Done) => Ok(
            CopierView {
                frames: copier.frames,
                step: CopyStepView::Listing { source, destination },
            },
        ),
        (CopyStepView::CopyingFile { from, to }, ResponseView::Failed(why)) => Err(
            io_failure("No se pudo copiar "@ + from + " a "@ + to + ": "@ + why),
        ),
        (CopyStepView::CopyingFile { .. }, ResponseView::Done) => settle(copier.frames),
        (CopyStepView::ReadingLink { path, .. }, ResponseView::Failed(why)) => Err(
            io_failure("No se pudo leer el enlace simbólico "@ + path + ": "@ + why),
        ),
        (CopyStepView::ReadingLink { at, .. }, ResponseView::Target(target)) => Ok(
            CopierView { frames: copier.frames, step: CopyStepView::Linking { target, at } },
        ),
        (CopyStepView::Linking { at, .. }, ResponseView::Failed(why)) => Err(
            io_failure("No se pudo recrear el enlace simbólico "@ + at + ": "@ + why),
        ),
        (CopyStepView::Linking { .. }, ResponseView::Done) => settle(copier.frames),
        _ => Ok(copier),
    }
}

fn io_error(detail: String) -> (error: SyncError)
    ensures
        error@ == io_failure(detail@),
{
    SyncError { kind: ErrorKind::PublishIOFailed, detail }
}

fn bad_name_error(source: &String, name: &String) -> (error: SyncError)
    ensures
        error@ == bad_name(source@, name@),
{
    let mut detail = "Nombre de entrada no válido en ".to_owned();
    detail.append(source.as_str());
    detail.append(": ");
    detail.append(name.as_str());
    io_error(detail)
}

fn unlisted_error(source: &String, why: &str) -> (error: SyncError)
    ensures
        error@ == unlisted(source@, why@),
{
    let mut detail = "No se pudo leer el directorio ".to_owned();
    detail.append(source.as_str());
    detail.append(": ");
    detail.append(why);
    io_error(detail)
}

impl Copier {
    /// Begins the copy of the directory at `source`, which the driver has
    /// listed as `entries`, into `destination`.
    pub fn begin(source: String, destination: String, entries: Vec<Entry>) -> (r: Result<
        Copier,
        SyncError,
    >)
        ensures
            result_view(r) == copy_begin(source@, destination@, entries.deep_view()),
            r matches Ok(copier) ==> confined(copier@, source@, destination@),
    {
        proof {
            lemma_begin_confined(source@, destination@, entries.deep_view());
        }
        let mut frames: Vec<Frame> = Vec::new();
        let frame = Frame { source, destination, entries, next: 0 };
        assert(frame.entries.deep_view().skip(0) == frame.entries.deep_view());
        frames.push(frame);
        assert(frames.deep_view() == seq![frame@]);
        Copier::settle(frames)
    }

    /// Tells whether the copy is complete.
    pub fn is_finished(&self) -> (b: bool)
        ensures
            b == (self@.step is Finished),
    {
        matches!(self.step, CopyStep::Finished)
    }

    /// The step that the driver is to carry out, unless the copy is
    /// complete.
    pub fn request(&self) -> (request: Option<Request>)
        ensures
            option_view(request) == copy_request(self@.step),
    {
        match &self.step {
            CopyStep::Listing { source, .. } => Some(Request::List { path: source.clone() }),
            CopyStep::MakingDir { destination, .. } => Some(
                Request::CreateTree { path: destination.clone() },
            ),
            CopyStep::CopyingFile { from, to } => Some(
                Request::CopyFile { from: from.clone(), to: to.clone() },
            ),
            CopyStep::ReadingLink { path, .. } => Some(Request::ReadLink { path: path.clone() }),
            CopyStep::Linking { target, at } => Some(
                Request::Link { target: target.clone(), at: at.clone() },
            ),
            CopyStep::Finished => None,
        }
    }

    /// Goes on to the next entry that calls for a step.
    fn settle(open: Vec<Frame>) -> (r: Result<Copier, SyncError>)
        ensures
            result_view(r) == settle(open.deep_view()),
    {
        let ghost goal = settle(open.deep_view());
        let mut frames = open;
        loop
            invariant
                settle(frames.deep_view()) == goal,
                goal == settle(open.deep_view()),
            decreases frames.len(), pending_in_last(frames.deep_view()),
        {
            let ghost before = frames.deep_view();
            match frames.pop() {
                None => {
                    let copier = Copier { frames, step: CopyStep::Finished };
                    assert(copier@.frames == before);
                    return Ok(copier);
                },
                Some(top) => {
                    proof {
                        use_type_invariant(&top);
                        assert(frames.deep_view() == before.drop_last());
                        assert(before.last() == top@);
                    }
                    let next = top.next;
                    if next < top.entries.len() {
                        let ghost rest = before.drop_last().push(
                            FrameView { pending: top@.pending.drop_first(), ..top@ },
                        );
                        proof {
                            assert(top@.pending.first() == top.entries[next as int]@);
                            assert(top.entries.deep_view().skip(next + 1)
                                == top@.pending.drop_first());
                        }
                        match &top.entries[next] {
                            Entry::Found { name, kind } => {
                                if !is_component_name(name.as_str()) {
                                    return Err(bad_name_error(&top.source, name));
                                }
                                let kind = *kind;
                                let source = join_path(top.source.as_str(), name.as_str());
                                let destination = join_path(
                                    top.destination.as_str(),
                                    name.as_str(),
                                );
                                let advanced = Frame {
                                    source: top.source,
                                    destination: top.destination,
                                    entries: top.entries,
                                    next: next + 1,
                                };
                                frames.push(advanced);
                                assert(frames.deep_view() == rest);
                                match kind {
                                    EntryKind::Directory => {
                                        return Ok(
                                            Copier {
                                                frames,
                                                step: CopyStep::MakingDir { source, destination },
                                            },
                                        );
                                    },
                                    EntryKind::File => {
                                        return Ok(
                                            Copier {
                                                frames,
                                                step: CopyStep::CopyingFile {
                                                    from: source,
                                                    to: destination,
                                                },
                                            },
                                        );
                                    },
                                    EntryKind::Symlink => {
                                        return Ok(
                                            Copier {
                                                frames,
                                                step: CopyStep::ReadingLink {
                                                    path: source,
                                                    at: destination,
                                                },
                                            },
                                        );
                                    },
                                    EntryKind::Other => {},
                                }
                            },
                            Entry::Untyped { name, why } => {
                                if !is_component_name(name.as_str()) {
                                    return Err(bad_name_error(&top.source, name));
                                }
                                let path = join_path(top.source.as_str(), name.as_str());
                                let mut detail = "No se pudo determinar el tipo de ".to_owned();
                                detail.append(quote(path.as_str()).as_str());
                                detail.append(": ");
                                detail.append(why.as_str());
                                return Err(io_error(detail));
                            },
                            Entry::Unreadable { why } => {
                                let mut detail = "No se pudo procesar una entrada en ".to_owned();
                                detail.append(top.source.as_str());
                                detail.append(": ");
                                detail.append(why.as_str());
                                return Err(io_error(detail));
                            },
                        }
                    }
                },
            }
        }
    }

    /// Takes the outcome of the step that was due, and goes on to the next
    /// one. A response that does not answer the step is passed over.
    pub fn step(self, response: Response) -> (r: Result<Copier, SyncError>)
        ensures
            result_view(r) == copy_step(self@, response@),
    {
        let Copier { frames, step } = self;
        match (step, response) {
            (CopyStep::Listing { source, .. }, Response::NotDirectory) => Err(
                unlisted_error(&source, "no es un directorio"),
            ),
            (CopyStep::Listing { source, .. }, Response::Failed(why)) => Err(
                unlisted_error(&source, why.as_str()),
            ),
            (CopyStep::Listing { source, destination }, Response::Entries(entries)) => {
                let ghost before = frames.deep_view();
                let mut frames = frames;
                let frame = Frame { source, destination, entries, next: 0 };
                assert(frame.entries.deep_view().skip(0) == frame.entries.deep_view());
                frames.push(frame);
                assert(frames.deep_view() == before.push(frame@));
                Copier::settle(frames)
            },
            (CopyStep::MakingDir { destination, .. }, Response::Failed(why)) => {
                let mut detail = "No se pudo crear el directorio ".to_owned();
                detail.append(destination.as_str());
                detail.append(": ");
                detail.append(why.as_str());
                Err(io_error(detail))
            },
            (CopyStep::MakingDir { source, destination }, Response::Done) => Ok(
                Copier { frames, step: CopyStep::Listing { source, destination } },
            ),
            (CopyStep::CopyingFile { from, to }, Response::Failed(why)) => {
                let mut detail = "No se pudo copiar ".to_owned();
                detail.append(from.as_str());
                detail.append(" a ");
                detail.append(to.as_str());
                detail.append(": ");
                detail.append(why.as_str());
                Err(io_error(detail))
            },
            (CopyStep::CopyingFile { .. }, Response::Done) => Copier::settle(frames),
            (CopyStep::ReadingLink { path, .. }, Response::Failed(why)) => {
                let mut detail = "No se pudo leer el enlace simbólico ".to_owned();
                detail.append(path.as_str());
                detail.append(": ");
                detail.append(why.as_str());
                Err(io_error(detail))
            },
            (CopyStep::ReadingLink { at, .. }, Response::Target(target)) => Ok(
                Copier { frames, step: CopyStep::Linking { target, at } },
            ),
            (CopyStep::Linking { at, .. }, Response::Failed(why)) => {
                let mut detail = "No se pudo recrear el enlace simbólico ".to_owned();
                detail.append(at.as_str());
                detail.append(": ");
                detail.append(why.as_str());
                Err(io_error(detail))
            },
            (CopyStep::Linking { .. }, Response::Done) => Copier::settle(frames),
            (step, _) => Ok(Copier { frames, step }),
        }
    }
}

/// The step of a publishing that the driver is to carry out next.
#[derive(Debug)]
pub enum PublishStep {
    /// Run the build.
    Building,
    /// List the directory that the build is to have left its output in.
    Built,
    /// Tell whether the destination is there. The output directory has
    /// been listed, with these entries.
    ArtifactFound(Vec<Entry>),
    /// Remove the destination with all that it holds.
    Clearing(Vec<Entry>),
    /// Create the destination.
    Creating(Vec<Entry>),
    /// Copy the output directory into the destination.
    Copying(Copier),
    /// Nothing: the build is published.
    Published,
}

/// What a `PublishStep` holds, as sequences.
pub enum PublishStepView {
    Building,
    Built,
    ArtifactFound(Seq<EntryView>),
    Clearing(Seq<EntryView>),
    Creating(Seq<EntryView>),
    Copying(CopierView),
    Published,
}

impl View for PublishStep {
    type V = PublishStepView;

    open spec fn view(&self) -> PublishStepView {
        match self {
            PublishStep::Building => PublishStepView::Building,
            PublishStep::Built => PublishStepView::Built,
            PublishStep::ArtifactFound(entries) => PublishStepView::ArtifactFound(
                entries.deep_view(),
            ),
            PublishStep::Clearing(entries) => PublishStepView::Clearing(entries.deep_view()),
            PublishStep::Creating(entries) => PublishStepView::Creating(entries.deep_view()),
            PublishStep::Copying(copier) => PublishStepView::Copying(copier@),
            PublishStep::Published => PublishStepView::Published,
        }
    }
}

/// The publishing of the build of one working tree to one destination.
#[derive(Debug)]
pub struct Publisher {
    source: String,
    destination: String,
    step: PublishStep,
}

/// What a `Publisher` holds, as sequences.
pub struct PublisherView {
    pub source: Seq<char>,
    pub destination: Seq<char>,
    pub step: PublishStepView,
}

impl View for Publisher {
    type V = PublisherView;

    closed spec fn view(&self) -> PublisherView {
        PublisherView { source: self.source@, destination: self.destination@, step: self.step@ }
    }
}

impl Publisher {
    #[verifier::type_invariant]
    spec fn within_trees(self) -> bool {
        publishing_confined(self@)
    }
}

/// The build: `npm run build` in the working tree, its output not kept.
pub open spec fn build_command(source: Seq<char>) -> CommandView {
    CommandView { program: "npm"@, args: seq!["run"@, "build"@], dir: source, capture: false }
}

/// The directory in which the build leaves its output.
pub open spec fn artifact_dir(source: Seq<char>) -> Seq<char> {
    join(source, "dist"@)
}

/// What is said, where progress is reported, as a publishing begins.
pub open spec fn build_reports(verbose: bool) -> Seq<ReportView> {
    if verbose {
        seq![ReportView::Line("Ejecutando `npm run build`..."@)]
    } else {
        Seq::empty()
    }
}

/// What is said, where progress is reported, once a build is published.
pub open spec fn published_reports(destination: Seq<char>, verbose: bool) -> Seq<ReportView> {
    if verbose {
        seq![ReportView::Line("Archivos desplegados en "@ + destination)]
    } else {
        Seq::empty()
    }
}

/// The publishing of the build of `source` to `destination`, before its
/// first step.
pub open spec fn publish_start(source: Seq<char>, destination: Seq<char>) -> PublisherView {
    PublisherView { source, destination, step: PublishStepView::Building }
}

/// The request that the step of a publishing stands for.
pub open spec fn publish_request(publisher: PublisherView) -> Option<RequestView> {
    match publisher.step {
        PublishStepView::Building => Some(RequestView::Run(build_command(publisher.source))),
        PublishStepView::Built => Some(RequestView::List { path: artifact_dir(publisher.source) }),
        PublishStepView::ArtifactFound(_) => Some(
            RequestView::Exists { path: publisher.destination },
        ),
        PublishStepView::Clearing(_) => Some(
            RequestView::RemoveTree { path: publisher.destination },
        ),
        PublishStepView::Creating(_) => Some(
            RequestView::CreateTree { path: publisher.destination },
        ),
        PublishStepView::Copying(copier) => copy_request(copier.step),
        PublishStepView::Published => None,
    }
}

/// The failure of a build that ended with `exit`.
pub open spec fn build_failure(code: Option<i32>) -> SyncErrorView {
    SyncErrorView {
        kind: ErrorKind::BuildFailed { status: code },
        detail: "`npm run build` finalizó con estado "@ + signed_decimal(
            match code {
                Some(status) => status as int,
                None => -1,
            },
        ),
    }
}

/// The failure of a build that left no output directory.
pub open spec fn artifact_missing(source: Seq<char>) -> SyncErrorView {
    SyncErrorView {
        kind: ErrorKind::ArtifactMissing,
        detail: "No se encontró el directorio de salida en "@ + artifact_dir(source),
    }
}

/// The publishing from `source` to `destination` as the copy goes on as
/// `copy` says: published, with what is said of that, once the copy is
/// complete.
pub open spec fn copying(
    source: Seq<char>,
    destination: Seq<char>,
    copy: Result<CopierView, SyncErrorView>,
    verbose: bool,
) -> (Result<PublisherView, SyncErrorView>, Seq<ReportView>) {
    match copy {
        Ok(next) => if next.step is Finished {
            (
                Ok(PublisherView { source, destination, step: PublishStepView::Published }),
                published_reports(destination, verbose),
            )
        } else {
            (
                Ok(PublisherView { source, destination, step: PublishStepView::Copying(next) }),
                Seq::empty(),
            )
        },
        Err(error) => (Err(error), Seq::empty()),
    }
}

/// The publishing after `response` to its step, and what is said on the
/// way. The output of the build is what the driver lists as a directory at
/// `dist`: where it says that there is none, the publishing fails before
/// anything is asked of the destination. A response that does not answer
/// the step leaves the publishing as it is.
pub open spec fn publish_step(publisher: PublisherView, response: ResponseView, verbose: bool) -> (
    Result<PublisherView, SyncErrorView>,
    Seq<ReportView>,
) {
    let quiet = Seq::<ReportView>::empty();
    match (publisher.step, response) {
        (PublishStepView::Building, ResponseView::Ran(RanView::NotStarted(why))) => (
            Err(
                SyncErrorView {
                    kind: ErrorKind::BuildFailed { status: None },
                    detail: "No se pudo ejecutar `npm run build`: "@ + why,
                },
            ),
            quiet,
        ),
        (PublishStepView::Building, ResponseView::Ran(RanView::Exited(exit))) => if exit.success {
            (Ok(PublisherView { step: PublishStepView::Built, ..publisher }), quiet)
        } else {
            (Err(build_failure(exit.code)), quiet)
        },
        (PublishStepView::Built, ResponseView::NotDirectory) => (
            Err(artifact_missing(publisher.source)),
            quiet,
        ),
        (PublishStepView::Built, ResponseView::Failed(why)) => (
            Err(unlisted(artifact_dir(publisher.source), why)),
            quiet,
        ),
        (PublishStepView::Built, ResponseView::Entries(entries)) => (
            Ok(PublisherView { step: PublishStepView::ArtifactFound(entries), ..publisher }),
            quiet,
        ),
        (PublishStepView::ArtifactFound(entries), ResponseView::Exists(found)) => if found {
            (Ok(PublisherView { step: PublishStepView::Clearing(entries), ..publisher }), quiet)
        } else {
            (Ok(PublisherView { step: PublishStepView::Creating(entries), ..publisher }), quiet)
        },
        (PublishStepView::Clearing(_), ResponseView::Failed(why)) => (
            Err(
                io_failure(
                    "No se pudo limpiar el destino "@ + publisher.destination + ": "@ + why,
                ),
            ),
            quiet,
        ),
        (PublishStepView::Clearing(entries), ResponseView::Done) => (
            Ok(PublisherView { step: PublishStepView::Creating(entries), ..publisher }),
            quiet,
        ),
        (PublishStepView::Creating(_), ResponseView::Failed(why)) => (
            Err(
                io_failure(
                    "No se pudo crear el directorio destino "@ + publisher.destination + ": "@
                        + why,
                ),
            ),
            quiet,
        ),
        (PublishStepView::Creating(entries), ResponseView::Done) => copying(
            publisher.source,
            publisher.destination,
            copy_begin(artifact_dir(publisher.source), publisher.destination, entries),
            verbose,
        ),
        (PublishStepView::Copying(copier), _) => copying(
            publisher.source,
            publisher.destination,
            copy_step(copier, response),
            verbose,
        ),
        _ => (Ok(publisher), quiet),
    }
}

impl Publisher {
    /// Begins the publishing of the build of the working tree at `source`
    /// to `destination`.
    pub fn start(source: String, destination: String, verbose: bool) -> (r: (Self, Vec<Report>))
        ensures
            r.0@ == publish_start(source@, destination@),
            r.1.deep_view() == build_reports(verbose),
    {
        let mut reports: Vec<Report> = Vec::new();
        if verbose {
            reports.push(Report::Line("Ejecutando `npm run build`...".to_owned()));
        }
        assert(reports.deep_view() == build_reports(verbose));
        (Publisher { source, destination, step: PublishStep::Building }, reports)
    }

    /// Tells whether the build is published.
    pub fn is_published(&self) -> (b: bool)
        ensures
            b == (self@.step is Published),
    {
        matches!(self.step, PublishStep::Published)
    }

    /// The step that the driver is to carry out, unless the build is
    /// published.
    pub fn request(&self) -> (request: Option<Request>)
        ensures
            option_view(request) == publish_request(self@),
            self@.step is Copying ==> request_within(
                option_view(request),
                artifact_dir(self@.source),
                self@.destination,
            ),
    {
        proof {
            use_type_invariant(self);
            if let PublishStepView::Copying(copier) = self@.step {
                lemma_confined_request(copier, artifact_dir(self@.source), self@.destination);
            }
        }
        match &self.step {
            PublishStep::Building => {
                let mut args: Vec<String> = Vec::new();
                args.push("run".to_owned());
                args.push("build".to_owned());
                assert(args.deep_view() == seq!["run"@, "build"@]);
                Some(
                    Request::Run(
                        Command {
                            program: "npm".to_owned(),
                            args,
                            dir: self.source.clone(),
                            capture: false,
                        },
                    ),
                )
            },
            PublishStep::Built => Some(
                Request::List { path: join_path(self.source.as_str(), "dist") },
            ),
            PublishStep::ArtifactFound(_) => Some(
                Request::Exists { path: self.destination.clone() },
            ),
            PublishStep::Clearing(_) => Some(
                Request::RemoveTree { path: self.destination.clone() },
            ),
            PublishStep::Creating(_) => Some(
                Request::CreateTree { path: self.destination.clone() },
            ),
            PublishStep::Copying(copier) => copier.request(),
            PublishStep::Published => None,
        }
    }

    /// Takes the outcome of the step that was due, and goes on to the next
    /// one; returns with it what there is to report. A response that does
    /// not answer the step is passed over.
    pub fn step(self, response: Response, verbose: bool) -> (r: (
        Result<Publisher, SyncError>,
        Vec<Report>,
    ))
        ensures
            (result_view(r.0), r.1.deep_view()) == publish_step(self@, response@, verbose),
            publishing_confined(self@),
            r.0 matches Ok(next) ==> publishing_confined(next@),
    {
        proof {
            use_type_invariant(&self);
        }
        let ghost dist = artifact_dir(self@.source);
        let Publisher { source, destination, step } = self;
        let mut reports: Vec<Report> = Vec::new();
        assert(reports.deep_view() == Seq::<ReportView>::empty());
        let next = match (step, response) {
            (PublishStep::Building, Response::Ran(Ran::NotStarted(why))) => {
                let mut detail = "No se pudo ejecutar `npm run build`: ".to_owned();
                detail.append(why.as_str());
                Err(SyncError { kind: ErrorKind::BuildFailed { status: None }, detail })
            },
            (PublishStep::Building, Response::Ran(Ran::Exited(exit))) => {
                if exit.success {
                    Ok(Publisher { source, destination, step: PublishStep::Built })
                } else {
                    let status: i32 = match exit.code {
                        Some(status) => status,
                        None => -1,
                    };
                    let mut detail = "`npm run build` finalizó con estado ".to_owned();
                    detail.append(signed_decimal_of(status).as_str());
                    Err(SyncError { kind: ErrorKind::BuildFailed { status: exit.code }, detail })
                }
            },
            (PublishStep::Built, Response::NotDirectory) => {
                let mut detail = "No se encontró el directorio de salida en ".to_owned();
                detail.append(join_path(source.as_str(), "dist").as_str());
                Err(SyncError { kind: ErrorKind::ArtifactMissing, detail })
            },
            (PublishStep::Built, Response::Failed(why)) => Err(
                unlisted_error(&join_path(source.as_str(), "dist"), why.as_str()),
            ),
            (PublishStep::Built, Response::Entries(entries)) => Ok(
                Publisher { source, destination, step: PublishStep::ArtifactFound(entries) },
            ),
            (PublishStep::ArtifactFound(entries), Response::Exists(found)) => {
                if found {
                    Ok(Publisher { source, destination, step: PublishStep::Clearing(entries) })
                } else {
                    Ok(Publisher { source, destination, step: PublishStep::Creating(entries) })
                }
            },
            (PublishStep::Clearing(_), Response::Failed(why)) => {
                let mut detail = "No se pudo limpiar el destino ".to_owned();
                detail.append(destination.as_str());
                detail.append(": ");
                detail.append(why.as_str());
                Err(io_error(detail))
            },
            (PublishStep::Clearing(entries), Response::Done) => Ok(
                Publisher { source, destination, step: PublishStep::Creating(entries) },
            ),
            (PublishStep::Creating(_), Response::Failed(why)) => {
                let mut detail = "No se pudo crear el directorio destino ".to_owned();
                detail.append(destination.as_str());
                detail.append(": ");
                detail.append(why.as_str());
                Err(io_error(detail))
            },
            (PublishStep::Creating(entries), Response::Done) => {
                proof {
                    lemma_begin_confined(dist, destination@, entries.deep_view());
                }
                let copy = Copier::begin(
                    join_path(source.as_str(), "dist"),
                    destination.clone(),
                    entries,
                );
                return Publisher::copying(source, destination, copy, verbose);
            },
            (PublishStep::Copying(copier), response) => {
                proof {
                    lemma_step_confined(copier@, response@, dist, destination@);
                }
                let copy = copier.step(response);
                return Publisher::copying(source, destination, copy, verbose);
            },
            (step, _) => Ok(Publisher { source, destination, step }),
        };
        (next, reports)
    }

    fn copying(
        source: String,
        destination: String,
        copy: Result<Copier, SyncError>,
        verbose: bool,
    ) -> (r: (Result<Publisher, SyncError>, Vec<Report>))
        requires
            copy matches Ok(copier) ==> confined(copier@, artifact_dir(source@), destination@),
        ensures
            (result_view(r.0), r.1.deep_view()) == copying(
                source@,
                destination@,
                result_view(copy),
                verbose,
            ),
            r.0 matches Ok(next) ==> publishing_confined(next@),
    {
        let mut reports: Vec<Report> = Vec::new();
        assert(reports.deep_view() == Seq::<ReportView>::empty());
        match copy {
            Ok(next) => {
                if next.is_finished() {
                    if verbose {
                        let mut line = "Archivos desplegados en ".to_owned();
                        line.append(destination.as_str());
                        reports.push(Report::Line(line));
                    }
                    assert(reports.deep_view() == published_reports(destination@, verbose));
                    (Ok(Publisher { source, destination, step: PublishStep::Published }), reports)
                } else {
                    (
                        Ok(Publisher { source, destination, step: PublishStep::Copying(next) }),
                        reports,
                    )
                }
            },
            Err(error) => (Err(error), reports),
        }
    }
}

} // verus!
