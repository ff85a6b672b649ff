//! The copy of a directory tree, told two ways: as the walk that visits each
//! directory's entries in turn and goes down into a subdirectory before it
//! takes up the next entry, and as the steps of a `Copier`. The two agree:
//! on every tree whose entries have proper names the copier asks for the
//! steps of the walk, in the order of the walk, and is finished when the
//! walk is.

use crate::driver::{EntryKind, EntryView, RequestView, ResponseView};
use crate::publish::{
    copy_begin, copy_request, copy_step, pending_in_last, settle, CopierView, CopyStepView,
    FrameView,
};
use crate::publish::{
    artifact_dir, publish_request, publish_start, publish_step, PublishStepView, PublisherView,
};
use crate::text::{is_component, join, lemma_join_component};
use vstd::prelude::*;

verus! {

/// What a directory entry is, with what it holds where it is a directory.
pub enum Node {
    File,
    /// A symbolic link, with its target.
    Link(Seq<char>),
    /// Neither file, link nor directory.
    Other,
    /// A directory, with its entries in the order in which they are listed.
    Dir(Seq<Child>),
}

/// An entry of a directory: its name and what it is.
pub struct Child {
    pub name: Seq<char>,
    pub node: Node,
}

/// A step and its outcome.
pub struct Exchange {
    pub request: RequestView,
    pub response: ResponseView,
}

/// The kind that a listing gives for a node.
pub open spec fn kind_of(node: Node) -> EntryKind {
    match node {
        Node::File => EntryKind::File,
        Node::Link(_) => EntryKind::Symlink,
        Node::Other => EntryKind::Other,
        Node::Dir(_) => EntryKind::Directory,
    }
}

/// The listing of a directory with these entries.
pub open spec fn listing(children: Seq<Child>) -> Seq<EntryView> {
    Seq::new(
        children.len(),
        |i: int| EntryView::Found { name: children[i].name, kind: kind_of(children[i].node) },
    )
}

/// Whether every entry of a tree with these entries, at whatever depth, has
/// a name that is one path component.
pub open spec fn well_named(children: Seq<Child>) -> bool
    decreases children,
{
    forall|i: int|
        0 <= i < children.len() ==> {
            &&& is_component((#[trigger] children[i]).name)
            &&& match children[i].node {
                Node::Dir(inner) => well_named(inner),
                _ => true,
            }
        }
}

/// The steps that copy the directory at `source`, which holds `children`,
/// into the directory `destination`, which is there: list it, then copy its
/// entries from the first on.
pub open spec fn dir_walk(source: Seq<char>, destination: Seq<char>, children: Seq<Child>) -> Seq<
    Exchange,
>
    decreases children, children.len() + 1,
{
    seq![
        Exchange {
            request: RequestView::List { path: source },
            response: ResponseView::Entries(listing(children)),
        },
    ] + entries_walk(source, destination, children, 0)
}

/// The steps that copy the entries of the directory at `source`, from the
/// one at `from` on, into `destination`: a file is copied; a link is read
/// and made anew; a directory is created and then copied with all that it
/// holds, before the next entry is taken up; anything else is passed over.
pub open spec fn entries_walk(
    source: Seq<char>,
    destination: Seq<char>,
    children: Seq<Child>,
    from: nat,
) -> Seq<Exchange>
    decreases children, children.len() - from,
{
    if from >= children.len() {
        Seq::empty()
    } else {
        let child = children[from as int];
        let path = join(source, child.name);
        let at = join(destination, child.name);
        let first = match child.node {
            Node::File => seq![
                Exchange {
                    request: RequestView::CopyFile { from: path, to: at },
                    response: ResponseView::Done,
                },
            ],
            Node::Link(target) => seq![
                Exchange {
                    request: RequestView::ReadLink { path },
                    response: ResponseView::Target(target),
                },
                Exchange {
                    request: RequestView::Link { target, at },
                    response: ResponseView::Done,
                },
            ],
            Node::Other => Seq::empty(),
            Node::Dir(inner) => seq![
                Exchange {
                    request: RequestView::CreateTree { path: at },
                    response: ResponseView::Done,
                },
            ] + dir_walk(path, at, inner),
        };
        first + entries_walk(source, destination, children, from + 1)
    }
}

/// Where a copier is after the exchanges of `script`, provided that it asks
/// for each step of the script in turn and none of them fails.
pub open spec fn run(copier: CopierView, script: Seq<Exchange>) -> Option<CopierView>
    decreases script.len(),
{
    if script.len() == 0 {
        Some(copier)
    } else if copy_request(copier.step) == Some(script.first().request) {
        match copy_step(copier, script.first().response) {
            Ok(next) => run(next, script.drop_first()),
            Err(_) => None,
        }
    } else {
        None
    }
}

/// Whether `entry` was read with its kind, under a name that is one path
/// component.
pub open spec fn proper(entry: EntryView) -> bool {
    entry matches EntryView::Found { name, .. } && is_component(name)
}

/// Whether every pending entry of `frames` is proper.
pub open spec fn all_found(frames: Seq<FrameView>) -> bool {
    forall|i: int, j: int|
        0 <= i < frames.len() && 0 <= j < frames[i].pending.len() ==> proper(
            #[trigger] frames[i].pending[j],
        )
}

/// The frame of a directory whose entries from `from` on are pending.
pub open spec fn frame_at(
    source: Seq<char>,
    destination: Seq<char>,
    children: Seq<Child>,
    from: nat,
) -> FrameView {
    FrameView { source, destination, pending: listing(children).skip(from as int) }
}

/// One exchange takes a copier that asks for its step to where the step's
/// outcome leads.
pub proof fn lemma_run_one(copier: CopierView, exchange: Exchange)
    ensures
        run(copier, seq![exchange]) == if copy_request(copier.step) == Some(exchange.request) {
            match copy_step(copier, exchange.response) {
                Ok(next) => Some(next),
                Err(_) => None,
            }
        } else {
            None
        },
{
    reveal_with_fuel(run, 2);
    assert(seq![exchange].drop_first() == Seq::<Exchange>::empty());
}

/// Running two scripts one after the other is running them joined.
pub proof fn lemma_run_joined(copier: CopierView, first: Seq<Exchange>, second: Seq<Exchange>)
    ensures
        run(copier, first + second) == match run(copier, first) {
            Some(between) => run(between, second),
            None => None,
        },
    decreases first.len(),
{
    if first.len() == 0 {
        assert(first + second == second);
    } else {
        let whole = first + second;
        assert(whole.first() == first.first());
        assert(whole.drop_first() == first.drop_first() + second);
        if copy_request(copier.step) == Some(first.first().request) {
            match copy_step(copier, first.first().response) {
                Ok(next) => {
                    lemma_run_joined(next, first.drop_first(), second);
                },
                Err(_) => {},
            }
        }
    }
}

/// Where every pending entry was read with its kind, the copy goes on
/// without failure.
pub proof fn lemma_settle_goes_on(frames: Seq<FrameView>)
    requires
        all_found(frames),
    ensures
        settle(frames) is Ok,
    decreases frames.len(), pending_in_last(frames),
{
    if frames.len() > 0 {
        let top = frames.last();
        if top.pending.len() == 0 {
            assert(all_found(frames.drop_last())) by {
                assert forall|i: int, j: int|
                    0 <= i < frames.drop_last().len() && 0 <= j
                        < frames.drop_last()[i].pending.len() implies proper(
                    #[trigger] frames.drop_last()[i].pending[j],
                ) by {
                    assert(frames.drop_last()[i] == frames[i]);
                    assert(proper(frames[i].pending[j]));
                }
            }
            lemma_settle_goes_on(frames.drop_last());
        } else {
            let rest = frames.drop_last().push(
                FrameView { pending: top.pending.drop_first(), ..top },
            );
            assert(proper(frames[frames.len() - 1].pending[0]));
            assert(all_found(rest)) by {
                assert forall|i: int, j: int|
                    0 <= i < rest.len() && 0 <= j < rest[i].pending.len() implies proper(
                    #[trigger] rest[i].pending[j],
                ) by {
                    if i < rest.len() - 1 {
                        assert(rest[i] == frames[i]);
                        assert(proper(frames[i].pending[j]));
                    } else {
                        assert(rest[i].pending[j] == frames[i].pending[j + 1]);
                        assert(proper(frames[i].pending[j + 1]));
                    }
                }
            }
            lemma_settle_goes_on(rest);
        }
    }
}

/// Putting the frame of a listed directory on frames that were read in
/// full gives frames that were read in full.
pub proof fn lemma_frame_found(
    frames: Seq<FrameView>,
    source: Seq<char>,
    destination: Seq<char>,
    children: Seq<Child>,
    from: nat,
)
    requires
        all_found(frames),
        well_named(children),
        from <= children.len(),
    ensures
        all_found(frames.push(frame_at(source, destination, children, from))),
{
    let longer = frames.push(frame_at(source, destination, children, from));
    assert forall|i: int, j: int|
        0 <= i < longer.len() && 0 <= j < longer[i].pending.len() implies proper(
        #[trigger] longer[i].pending[j],
    ) by {
        if i < frames.len() {
            assert(longer[i] == frames[i]);
            assert(proper(frames[i].pending[j]));
        } else {
            assert(longer[i].pending[j] == listing(children)[j + from]);
            assert(is_component(children[j + from].name));
        }
    }
}

/// With the entries of a directory pending from `from` on, the copier asks
/// for the steps that copy them, and is then where it would be had the
/// directory had no entry left.
pub proof fn lemma_entries_walked(
    frames: Seq<FrameView>,
    source: Seq<char>,
    destination: Seq<char>,
    children: Seq<Child>,
    from: nat,
)
    requires
        all_found(frames),
        well_named(children),
        from <= children.len(),
    ensures
        settle(frames) is Ok,
        settle(frames.push(frame_at(source, destination, children, from))) is Ok,
        run(
            settle(frames.push(frame_at(source, destination, children, from)))->Ok_0,
            entries_walk(source, destination, children, from),
        ) == Some(settle(frames)->Ok_0),
    decreases children, children.len() - from,
{
    let frame = frame_at(source, destination, children, from);
    let open = frames.push(frame);
    lemma_settle_goes_on(frames);
    lemma_frame_found(frames, source, destination, children, from);
    lemma_settle_goes_on(open);
    assert(open.drop_last() == frames);
    assert(open.last() == frame);
    if from < children.len() {
        let child = children[from as int];
        assert(is_component(child.name));
        let path = join(source, child.name);
        let at = join(destination, child.name);
        let later = frame_at(source, destination, children, from + 1);
        let rest = frames.push(later);
        assert(frame.pending.first() == (EntryView::Found {
            name: child.name,
            kind: kind_of(child.node),
        }));
        assert(frame.pending.drop_first() == later.pending);
        assert(open.drop_last().push(FrameView { pending: frame.pending.drop_first(), ..frame })
            == rest);
        lemma_entries_walked(frames, source, destination, children, from + 1);
        let after = entries_walk(source, destination, children, from + 1);
        let settled = settle(rest)->Ok_0;
        match child.node {
            Node::Other => {
                assert(entries_walk(source, destination, children, from) == after);
            },
            Node::File => {
                let first = seq![
                    Exchange {
                        request: RequestView::CopyFile { from: path, to: at },
                        response: ResponseView::Done,
                    },
                ];
                let start = settle(open)->Ok_0;
                lemma_run_one(start, first[0]);
                assert(run(start, first) == Some(settled));
                lemma_run_joined(start, first, after);
            },
            Node::Link(target) => {
                let reading = Exchange {
                    request: RequestView::ReadLink { path },
                    response: ResponseView::Target(target),
                };
                let linking = Exchange {
                    request: RequestView::Link { target, at },
                    response: ResponseView::Done,
                };
                let first = seq![reading, linking];
                let start = settle(open)->Ok_0;
                let between = CopierView {
                    frames: rest,
                    step: CopyStepView::Linking { target, at },
                };
                assert(first == seq![reading] + seq![linking]);
                lemma_run_one(start, reading);
                lemma_run_one(between, linking);
                lemma_run_joined(start, seq![reading], seq![linking]);
                assert(run(start, first) == Some(settled));
                lemma_run_joined(start, first, after);
            },
            Node::Dir(inner) => {
                let making = seq![
                    Exchange {
                        request: RequestView::CreateTree { path: at },
                        response: ResponseView::Done,
                    },
                ];
                let listed = seq![
                    Exchange {
                        request: RequestView::List { path },
                        response: ResponseView::Entries(listing(inner)),
                    },
                ];
                let below = entries_walk(path, at, inner, 0);
                let start = settle(open)->Ok_0;
                let listing_due = CopierView {
                    frames: rest,
                    step: CopyStepView::Listing { source: path, destination: at },
                };
                lemma_frame_found(frames, source, destination, children, from + 1);
                lemma_entries_walked(rest, path, at, inner, 0);
                assert(listing(inner).skip(0) == listing(inner));
                let inside = settle(rest.push(frame_at(path, at, inner, 0)))->Ok_0;
                lemma_run_one(start, making[0]);
                assert(run(start, making) == Some(listing_due));
                lemma_run_one(listing_due, listed[0]);
                assert(run(listing_due, listed) == Some(inside));
                assert(dir_walk(path, at, inner) == listed + below);
                lemma_run_joined(listing_due, listed, below);
                lemma_run_joined(start, making, listed + below);
                lemma_run_joined(start, making + (listed + below), after);
            },
        }
    } else {
        assert(frame.pending.len() == 0);
    }
}

/// On every tree whose entries have proper names, the copier that begins
/// with the listing of the tree's top asks for the steps of the walk, in
/// the order of the walk, and is finished, with no directory left open,
/// when the walk is.
pub proof fn lemma_copier_follows_walk(
    source: Seq<char>,
    destination: Seq<char>,
    children: Seq<Child>,
)
    requires
        well_named(children),
    ensures
        copy_begin(source, destination, listing(children)) is Ok,
        run(
            copy_begin(source, destination, listing(children))->Ok_0,
            entries_walk(source, destination, children, 0),
        ) == Some(CopierView { frames: Seq::empty(), step: CopyStepView::Finished }),
{
    let none = Seq::<FrameView>::empty();
    lemma_entries_walked(none, source, destination, children, 0);
    assert(listing(children).skip(0) == listing(children));
    assert(none.push(frame_at(source, destination, children, 0)) == seq![
        frame_at(source, destination, children, 0),
    ]);
}

/// The path that `names` lead to from `root`, each name joined to the path
/// before it.
pub open spec fn descend(root: Seq<char>, names: Seq<Seq<char>>) -> Seq<char>
    decreases names.len(),
{
    if names.len() == 0 {
        root
    } else {
        join(descend(root, names.drop_last()), names.last())
    }
}

/// Whether each of `names` is one path component.
pub open spec fn all_components(names: Seq<Seq<char>>) -> bool {
    forall|i: int| 0 <= i < names.len() ==> is_component(#[trigger] names[i])
}

/// Whether `path` lies at or under `root`: it is reached from `root` by
/// going down through entries, none of them `.` or `..`.
pub open spec fn inside(root: Seq<char>, path: Seq<char>) -> bool {
    exists|names: Seq<Seq<char>>| all_components(names) && path == #[trigger] descend(root, names)
}

/// Whether a request stays in the tree at `source` with what it reads and
/// in the tree at `destination` with what it changes.
pub open spec fn request_within(
    request: Option<RequestView>,
    source: Seq<char>,
    destination: Seq<char>,
) -> bool {
    match request {
        Some(RequestView::List { path }) => inside(source, path),
        Some(RequestView::ReadLink { path }) => inside(source, path),
        Some(RequestView::CreateTree { path }) => inside(destination, path),
        Some(RequestView::CopyFile { from, to }) => inside(source, from) && inside(destination, to),
        Some(RequestView::Link { at, .. }) => inside(destination, at),
        _ => true,
    }
}

/// Whether the directories that a copy has open lie in the trees at
/// `source` and `destination`.
pub open spec fn frames_within(
    frames: Seq<FrameView>,
    source: Seq<char>,
    destination: Seq<char>,
) -> bool {
    forall|i: int|
        0 <= i < frames.len() ==> inside(source, (#[trigger] frames[i]).source) && inside(
            destination,
            frames[i].destination,
        )
}

/// Whether a copy works in the trees at `source` and `destination`: the
/// directories that it has open lie there, and so do the paths of the step
/// that is due.
pub open spec fn confined(copier: CopierView, source: Seq<char>, destination: Seq<char>) -> bool {
    &&& frames_within(copier.frames, source, destination)
    &&& match copier.step {
        CopyStepView::Listing { source: from, destination: to } => inside(source, from) && inside(
            destination,
            to,
        ),
        CopyStepView::MakingDir { source: from, destination: to } => inside(source, from)
            && inside(destination, to),
        CopyStepView::CopyingFile { from, to } => inside(source, from) && inside(destination, to),
        CopyStepView::ReadingLink { path, at } => inside(source, path) && inside(destination, at),
        CopyStepView::Linking { at, .. } => inside(destination, at),
        CopyStepView::Finished => true,
    }
}

/// A tree holds its own top.
pub proof fn lemma_inside_itself(root: Seq<char>)
    ensures
        inside(root, root),
{
    let none = Seq::<Seq<char>>::empty();
    assert(all_components(none) && root == descend(root, none));
}

/// A tree holds the entries of the directories that it holds.
pub proof fn lemma_inside_entry(root: Seq<char>, path: Seq<char>, name: Seq<char>)
    requires
        inside(root, path),
        is_component(name),
    ensures
        inside(root, join(path, name)),
{
    let names = choose|names: Seq<Seq<char>>|
        all_components(names) && path == #[trigger] descend(root, names);
    let longer = names.push(name);
    assert(longer.drop_last() == names);
    assert(all_components(longer));
    assert(join(path, name) == descend(root, longer));
}

/// What lies in a tree has the path of the tree's top at the head of its
/// path.
pub proof fn lemma_inside_begins_with_root(root: Seq<char>, names: Seq<Seq<char>>)
    requires
        all_components(names),
    ensures
        root.len() <= descend(root, names).len(),
        descend(root, names).take(root.len() as int) == root,
    decreases names.len(),
{
    if names.len() == 0 {
        assert(root.take(root.len() as int) == root);
    } else {
        let before = descend(root, names.drop_last());
        assert(all_components(names.drop_last())) by {
            assert forall|i: int| 0 <= i < names.drop_last().len() implies is_component(
                #[trigger] names.drop_last()[i],
            ) by {
                assert(names.drop_last()[i] == names[i]);
            }
        }
        lemma_inside_begins_with_root(root, names.drop_last());
        assert(is_component(names[names.len() - 1]));
        lemma_join_component(before, names.last());
        let path = descend(root, names);
        assert(path.take(root.len() as int) == before.take(root.len() as int));
    }
}

/// A copy that goes on from directories in the two trees works in the two
/// trees.
pub proof fn lemma_settle_confined(
    frames: Seq<FrameView>,
    source: Seq<char>,
    destination: Seq<char>,
)
    requires
        frames_within(frames, source, destination),
    ensures
        settle(frames) matches Ok(copier) ==> confined(copier, source, destination),
    decreases frames.len(), pending_in_last(frames),
{
    if frames.len() > 0 {
        let top = frames.last();
        assert(inside(source, frames[frames.len() - 1].source));
        assert(frames_within(frames.drop_last(), source, destination)) by {
            assert forall|i: int| 0 <= i < frames.drop_last().len() implies inside(
                source,
                (#[trigger] frames.drop_last()[i]).source,
            ) && inside(destination, frames.drop_last()[i].destination) by {
                assert(frames.drop_last()[i] == frames[i]);
            }
        }
        if top.pending.len() == 0 {
            lemma_settle_confined(frames.drop_last(), source, destination);
        } else {
            let rest = frames.drop_last().push(
                FrameView { pending: top.pending.drop_first(), ..top },
            );
            assert(frames_within(rest, source, destination)) by {
                assert forall|i: int| 0 <= i < rest.len() implies inside(
                    source,
                    (#[trigger] rest[i]).source,
                ) && inside(destination, rest[i].destination) by {
                    if i < rest.len() - 1 {
                        assert(rest[i] == frames.drop_last()[i]);
                    }
                }
            }
            match top.pending.first() {
                EntryView::Found { name, kind } => {
                    if is_component(name) {
                        lemma_inside_entry(source, top.source, name);
                        lemma_inside_entry(destination, top.destination, name);
                        if kind == EntryKind::Other {
                            lemma_settle_confined(rest, source, destination);
                        }
                    }
                },
                _ => {},
            }
        }
    }
}

/// A copy begins in the tree that it copies and in the one that it copies
/// into.
pub proof fn lemma_begin_confined(
    source: Seq<char>,
    destination: Seq<char>,
    entries: Seq<EntryView>,
)
    ensures
        copy_begin(source, destination, entries) matches Ok(copier) ==> confined(
            copier,
            source,
            destination,
        ),
{
    lemma_inside_itself(source);
    lemma_inside_itself(destination);
    lemma_settle_confined(
        seq![FrameView { source, destination, pending: entries }],
        source,
        destination,
    );
}

/// No step takes a copy out of the two trees.
pub proof fn lemma_step_confined(
    copier: CopierView,
    response: ResponseView,
    source: Seq<char>,
    destination: Seq<char>,
)
    requires
        confined(copier, source, destination),
    ensures
        copy_step(copier, response) matches Ok(next) ==> confined(next, source, destination),
{
    lemma_settle_confined(copier.frames, source, destination);
    match (copier.step, response) {
        (
            CopyStepView::Listing { source: from, destination: to },
            ResponseView::Entries(entries),
        ) => {
            let longer = copier.frames.push(
                FrameView { source: from, destination: to, pending: entries },
            );
            assert(frames_within(longer, source, destination)) by {
                assert forall|i: int| 0 <= i < longer.len() implies inside(
                    source,
                    (#[trigger] longer[i]).source,
                ) && inside(destination, longer[i].destination) by {
                    if i < copier.frames.len() {
                        assert(longer[i] == copier.frames[i]);
                    }
                }
            }
            lemma_settle_confined(longer, source, destination);
        },
        _ => {},
    }
}

/// What a copy that works in the two trees asks for stays in them: it
/// lists and reads in the one, and creates, copies and links in the other.
pub proof fn lemma_confined_request(copier: CopierView, source: Seq<char>, destination: Seq<char>)
    requires
        confined(copier, source, destination),
    ensures
        request_within(copy_request(copier.step), source, destination),
{
}

/// Whether a publishing that is copying does so within the output of its
/// build and its destination.
pub open spec fn publishing_confined(publisher: PublisherView) -> bool {
    match publisher.step {
        PublishStepView::Copying(copier) => confined(
            copier,
            artifact_dir(publisher.source),
            publisher.destination,
        ),
        _ => true,
    }
}

/// A publishing copies within the output of its build and its destination,
/// from its first step to its last: what it asks to list, read, create,
/// copy or link lies in one of the two.
pub proof fn lemma_publishing_stays_within(
    publisher: PublisherView,
    response: ResponseView,
    verbose: bool,
)
    requires
        publishing_confined(publisher),
    ensures
        publishing_confined(publish_start(publisher.source, publisher.destination)),
        publish_step(publisher, response, verbose).0 matches Ok(next) ==> publishing_confined(next),
        publisher.step is Copying ==> request_within(
            publish_request(publisher),
            artifact_dir(publisher.source),
            publisher.destination,
        ),
{
    let dist = artifact_dir(publisher.source);
    match publisher.step {
        PublishStepView::Creating(entries) => {
            lemma_begin_confined(dist, publisher.destination, entries);
        },
        PublishStepView::Copying(copier) => {
            lemma_step_confined(copier, response, dist, publisher.destination);
            lemma_confined_request(copier, dist, publisher.destination);
        },
        _ => {},
    }
}

} // verus!
