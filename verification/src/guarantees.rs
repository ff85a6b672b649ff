//! What holds of every synchronisation cycle, whatever the driver answers.

use crate::config::RepoDefinitionView;
use crate::driver::{EntryKind, EntryView, ExitView, RanView, RequestView, ResponseView};
use crate::error::{CycleErrorView, FailureView, SyncErrorView};
use crate::git::{count_outcome, git, pull_args};
use crate::processor::{
    after_sync, coherent, cycle_request, cycle_result, cycle_start, cycle_step,
    lemma_step_is_coherent, repo_step, sync_step, CycleView, FlowView, StageView, SyncStepView,
};
use crate::publish::{
    artifact_dir, artifact_missing, bad_name, build_command, build_failure, copy_begin,
    copy_request, copy_step, copying, publish_request, publish_start, publish_step, settle,
    CopierView, CopyStepView, FrameView, PublishStepView, PublisherView,
};
use crate::text::{is_component, join};
use vstd::prelude::*;

verus! {

/// The cycle after the driver has answered with `responses`, one after the
/// other.
pub open spec fn cycle_run(
    cycle: CycleView,
    responses: Seq<ResponseView>,
    verbose: bool,
) -> CycleView
    decreases responses.len(),
{
    if responses.len() == 0 {
        cycle
    } else {
        cycle_step(cycle_run(cycle, responses.drop_last(), verbose), responses.last(), verbose).0
    }
}

/// Whether the cycle is waiting on a pull.
pub open spec fn asks_pull(cycle: CycleView) -> bool {
    cycle.stage matches Some(StageView::Syncing(SyncStepView::Pulling { .. }))
}

/// Whether the cycle is waiting on a step of a publishing.
pub open spec fn is_publishing(cycle: CycleView) -> bool {
    cycle.stage matches Some(StageView::Publishing(_))
}

/// Whether `response` is the outcome of a count that found the checkout
/// behind by `behind` commits.
pub open spec fn counted(response: ResponseView, behind: nat) -> bool {
    response matches ResponseView::Ran(ran) && count_outcome(ran) == Ok::<nat, Seq<char>>(behind)
}

/// Whether `response` is the outcome of a count that found the checkout
/// behind by one commit or more.
pub open spec fn found_behind(response: ResponseView) -> bool {
    match response {
        ResponseView::Ran(ran) => match count_outcome(ran) {
            Ok(behind) => behind > 0,
            Err(_) => false,
        },
        _ => false,
    }
}

/// Whether `response` brings the synchronisation of the repository at hand
/// to its end: the cycle is at a step of it, and what the command of that
/// step came to leaves the checkout up to date.
pub open spec fn sync_completes(cycle: CycleView, response: ResponseView, verbose: bool) -> bool {
    match (cycle.stage, response) {
        (Some(StageView::Syncing(step)), ResponseView::Ran(ran)) => match sync_step(
            step,
            ran,
            verbose,
        ).0 {
            Ok(next) => next is UpToDate || next is Pulled,
            Err(_) => false,
        },
        _ => false,
    }
}

/// A cycle begins in a coherent state.
pub proof fn lemma_start_is_coherent(repo_defs: Seq<RepoDefinitionView>, verbose: bool)
    ensures
        coherent(cycle_start(repo_defs, verbose).0),
{
}

/// Every state of a run is coherent.
pub proof fn lemma_run_is_coherent(
    repo_defs: Seq<RepoDefinitionView>,
    responses: Seq<ResponseView>,
    verbose: bool,
)
    ensures
        coherent(cycle_run(cycle_start(repo_defs, verbose).0, responses, verbose)),
    decreases responses.len(),
{
    let start = cycle_start(repo_defs, verbose).0;
    lemma_start_is_coherent(repo_defs, verbose);
    if responses.len() > 0 {
        lemma_run_is_coherent(repo_defs, responses.drop_last(), verbose);
        lemma_step_is_coherent(
            cycle_run(start, responses.drop_last(), verbose),
            responses.last(),
            verbose,
        );
    }
}

/// A cycle over no repository is over at once, and has failed for want of
/// configuration: it has not succeeded.
pub proof fn lemma_empty_list_fails(verbose: bool)
    ensures
        cycle_result(cycle_start(Seq::empty(), verbose).0) == Some(
            Err::<(), CycleErrorView>(CycleErrorView::ConfigurationEmpty),
        ),
        cycle_request(cycle_start(Seq::empty(), verbose).0) is None,
{
}

/// A count that finds the checkout behind by no commit is never followed by
/// a pull: the repository goes on as `after_sync` says, to its publishing
/// or to its end.
pub proof fn lemma_no_pull_when_up_to_date(
    cycle: CycleView,
    response: ResponseView,
    verbose: bool,
)
    requires
        asks_count(cycle),
        cycle.position < cycle.repo_defs.len(),
        counted(response, 0),
    ensures
        !asks_pull(cycle_step(cycle, response, verbose).0),
        repo_step(
            cycle.repo_defs[cycle.position as int],
            cycle.stage->0,
            response,
            verbose,
        ).0 == after_sync(cycle.repo_defs[cycle.position as int], verbose).0,
{
}

/// A cycle comes to wait on a pull in one way only: by a count that found
/// the checkout behind by one commit or more.
pub proof fn lemma_pull_only_when_behind(cycle: CycleView, response: ResponseView, verbose: bool)
    requires
        asks_pull(cycle_step(cycle, response, verbose).0),
        cycle_step(cycle, response, verbose).0 != cycle,
    ensures
        asks_count(cycle),
        found_behind(response),
{
}

/// The request of a cycle that waits on a pull is Git's pull of the branch
/// that was counted against, in the working tree of the repository at hand.
pub proof fn lemma_pull_request(cycle: CycleView)
    requires
        asks_pull(cycle),
        cycle.position < cycle.repo_defs.len(),
    ensures
        cycle.stage matches Some(StageView::Syncing(SyncStepView::Pulling { branch }))
            && cycle_request(cycle) == Some(
            RequestView::Run(
                git(cycle.repo_defs[cycle.position as int].repo_path, pull_args(branch)),
            ),
        ),
{
}

/// Whether a cycle is waiting on a count.
pub open spec fn asks_count(cycle: CycleView) -> bool {
    cycle.stage matches Some(StageView::Syncing(SyncStepView::Counting { .. }))
}

/// Along a run a pull is asked for only in answer to a count that found the
/// checkout behind: where a cycle waits on a pull, one of the responses was
/// given to a cycle that waited on a count and told of one commit or more,
/// and the cycle has waited on the pull ever since.
pub proof fn lemma_run_pulls_only_when_behind(
    repo_defs: Seq<RepoDefinitionView>,
    responses: Seq<ResponseView>,
    verbose: bool,
)
    requires
        asks_pull(cycle_run(cycle_start(repo_defs, verbose).0, responses, verbose)),
    ensures
        exists|k: int|
            {
                let start = cycle_start(repo_defs, verbose).0;
                &&& 0 <= k < responses.len()
                &&& found_behind(#[trigger] responses[k])
                &&& asks_count(cycle_run(start, responses.take(k), verbose))
                &&& cycle_run(start, responses.take(k + 1), verbose) == cycle_run(
                    start,
                    responses,
                    verbose,
                )
            },
    decreases responses.len(),
{
    let start = cycle_start(repo_defs, verbose).0;
    if responses.len() > 0 {
        let earlier = responses.drop_last();
        let before = cycle_run(start, earlier, verbose);
        if cycle_step(before, responses.last(), verbose).0 == before {
            lemma_run_pulls_only_when_behind(repo_defs, earlier, verbose);
            let k = choose|k: int|
                {
                    &&& 0 <= k < earlier.len()
                    &&& found_behind(#[trigger] earlier[k])
                    &&& asks_count(cycle_run(start, earlier.take(k), verbose))
                    &&& cycle_run(start, earlier.take(k + 1), verbose) == before
                };
            assert(responses[k] == earlier[k]);
            assert(responses.take(k) == earlier.take(k));
            assert(responses.take(k + 1) == earlier.take(k + 1));
        } else {
            lemma_pull_only_when_behind(before, responses.last(), verbose);
            let k = responses.len() - 1;
            assert(found_behind(responses[k]));
            assert(responses.take(k) == earlier);
            assert(responses.take(k + 1) == responses);
        }
    }
}

/// Once the checkout of a repository is up to date, its build is published
/// if and only if it has a deploy target: with one, the next request is the
/// build in its working tree; without one, the repository is done and no
/// step of a publishing is ever asked for it.
pub proof fn lemma_publish_iff_target(cycle: CycleView, response: ResponseView, verbose: bool)
    requires
        coherent(cycle),
        sync_completes(cycle, response, verbose),
    ensures
        ({
            let def = cycle.repo_defs[cycle.position as int];
            let next = cycle_step(cycle, response, verbose).0;
            match def.deploy_target {
                Some(target) => {
                    &&& next.position == cycle.position
                    &&& next.stage == Some(
                        StageView::Publishing(publish_start(def.repo_path, target)),
                    )
                    &&& cycle_request(next) == Some(
                        RequestView::Run(build_command(def.repo_path)),
                    )
                },
                None => {
                    &&& next.position == cycle.position + 1
                    &&& next.failures == cycle.failures
                    &&& !is_publishing(next)
                },
            }
        }),
{
}

/// A cycle takes up a publishing only as `lemma_publish_iff_target` says:
/// from a synchronisation that has just come to its end, for a repository
/// with a deploy target.
pub proof fn lemma_publish_only_after_sync(cycle: CycleView, response: ResponseView, verbose: bool)
    requires
        coherent(cycle),
        !is_publishing(cycle),
        is_publishing(cycle_step(cycle, response, verbose).0),
    ensures
        cycle.repo_defs[cycle.position as int].deploy_target is Some,
        sync_completes(cycle, response, verbose),
{
}

/// Along a run, a cycle is publishing only for a repository that has a
/// deploy target.
pub proof fn lemma_run_publishes_only_with_target(
    repo_defs: Seq<RepoDefinitionView>,
    responses: Seq<ResponseView>,
    verbose: bool,
)
    requires
        is_publishing(cycle_run(cycle_start(repo_defs, verbose).0, responses, verbose)),
    ensures
        ({
            let cycle = cycle_run(cycle_start(repo_defs, verbose).0, responses, verbose);
            cycle.position < repo_defs.len() && repo_defs[cycle.position as int].deploy_target
                is Some
        }),
{
    lemma_run_is_coherent(repo_defs, responses, verbose);
    lemma_run_keeps_list(repo_defs, responses, verbose);
}

/// A run leaves the list of repositories as it is.
pub proof fn lemma_run_keeps_list(
    repo_defs: Seq<RepoDefinitionView>,
    responses: Seq<ResponseView>,
    verbose: bool,
)
    ensures
        cycle_run(cycle_start(repo_defs, verbose).0, responses, verbose).repo_defs == repo_defs,
    decreases responses.len(),
{
    if responses.len() > 0 {
        lemma_run_keeps_list(repo_defs, responses.drop_last(), verbose);
    }
}

/// What a step does to the list of failures and to the position: while the
/// repository at hand goes on, nothing; when it succeeds, the cycle moves on
/// and records nothing; when it fails, the cycle moves on all the same and
/// records that repository, with its failure, behind those recorded before.
/// Where the cycle moves on and a repository is left, that repository's
/// turn begins: the next request asks whether its working tree is there.
pub proof fn lemma_failure_does_not_stop_cycle(
    cycle: CycleView,
    response: ResponseView,
    verbose: bool,
)
    requires
        coherent(cycle),
        cycle.stage is Some,
    ensures
        ({
            let def = cycle.repo_defs[cycle.position as int];
            let flow = repo_step(def, cycle.stage->0, response, verbose).0;
            let next = cycle_step(cycle, response, verbose).0;
            &&& next.repo_defs == cycle.repo_defs
            &&& match flow {
                FlowView::Next(stage) => {
                    &&& next.position == cycle.position
                    &&& next.failures == cycle.failures
                    &&& next.stage == Some(stage)
                },
                FlowView::Succeeded => {
                    &&& next.position == cycle.position + 1
                    &&& next.failures == cycle.failures
                },
                FlowView::Failed(error) => {
                    &&& next.position == cycle.position + 1
                    &&& next.failures == cycle.failures.push(
                        FailureView { repo_path: def.repo_path, error },
                    )
                },
            }
            &&& next.position == cycle.position + 1 && next.position < next.repo_defs.len() ==> {
                &&& next.stage == Some(StageView::CheckingPath)
                &&& cycle_request(next) == Some(
                    RequestView::Exists {
                        path: cycle.repo_defs[cycle.position as int + 1].repo_path,
                    },
                )
            }
            &&& next.position == next.repo_defs.len() ==> cycle_request(next) is None
        }),
{
}

/// Whether `failures` names repositories among the first `done` of
/// `repo_defs`, each at most once and in the order of the list: `places`
/// gives the place of each in the list.
pub open spec fn names_in_order(
    failures: Seq<FailureView>,
    repo_defs: Seq<RepoDefinitionView>,
    done: nat,
    places: Seq<int>,
) -> bool {
    &&& places.len() == failures.len()
    &&& forall|j: int|
        0 <= j < places.len() ==> 0 <= #[trigger] places[j] < done && places[j]
            < repo_defs.len() && failures[j].repo_path == repo_defs[places[j]].repo_path
    &&& forall|i: int, j: int| 0 <= i < j < places.len() ==> places[i] < places[j]
}

/// Whether the failures of a cycle name repositories that are done, in the
/// order of the list.
pub open spec fn failures_in_order(cycle: CycleView) -> bool {
    exists|places: Seq<int>|
        names_in_order(cycle.failures, cycle.repo_defs, cycle.position, places)
}

/// A step keeps the failures in the order of the list.
pub proof fn lemma_step_keeps_order(cycle: CycleView, response: ResponseView, verbose: bool)
    requires
        coherent(cycle),
        failures_in_order(cycle),
    ensures
        failures_in_order(cycle_step(cycle, response, verbose).0),
{
    let next = cycle_step(cycle, response, verbose).0;
    let places = choose|places: Seq<int>|
        names_in_order(cycle.failures, cycle.repo_defs, cycle.position, places);
    if cycle.stage is Some {
        lemma_failure_does_not_stop_cycle(cycle, response, verbose);
        if next.failures == cycle.failures {
            assert(names_in_order(next.failures, next.repo_defs, next.position, places));
        } else {
            let longer = places.push(cycle.position as int);
            assert(names_in_order(next.failures, next.repo_defs, next.position, longer));
        }
    } else {
        assert(names_in_order(next.failures, next.repo_defs, next.position, places));
    }
}

/// At every point of a run, the failures recorded name repositories that
/// are done, in the order of the list; and once the run is over, the cycle
/// has succeeded exactly if none is recorded, and has otherwise failed with
/// the list of them.
pub proof fn lemma_run_lists_failures_in_order(
    repo_defs: Seq<RepoDefinitionView>,
    responses: Seq<ResponseView>,
    verbose: bool,
)
    requires
        repo_defs.len() > 0,
    ensures
        ({
            let cycle = cycle_run(cycle_start(repo_defs, verbose).0, responses, verbose);
            &&& failures_in_order(cycle)
            &&& cycle.stage is None ==> cycle_result(cycle) == Some(
                if cycle.failures.len() == 0 {
                    Ok::<(), CycleErrorView>(())
                } else {
                    Err::<(), CycleErrorView>(CycleErrorView::Failed(cycle.failures))
                },
            )
        }),
    decreases responses.len(),
{
    let start = cycle_start(repo_defs, verbose).0;
    lemma_run_keeps_list(repo_defs, responses, verbose);
    if responses.len() == 0 {
        assert(names_in_order(start.failures, start.repo_defs, start.position, Seq::empty()));
    } else {
        lemma_run_lists_failures_in_order(repo_defs, responses.drop_last(), verbose);
        lemma_run_is_coherent(repo_defs, responses.drop_last(), verbose);
        lemma_step_keeps_order(
            cycle_run(start, responses.drop_last(), verbose),
            responses.last(),
            verbose,
        );
    }
}

/// A symbolic link is made anew, not copied through: when the copy comes to
/// an entry that is a link, it asks where the link points; and once told,
/// it asks for a link to that very target under the entry's name in the
/// destination.
pub proof fn lemma_links_are_made_anew(
    frames: Seq<FrameView>,
    name: Seq<char>,
    target: Seq<char>,
)
    requires
        frames.len() > 0,
        frames.last().pending.len() > 0,
        frames.last().pending.first() == (EntryView::Found { name, kind: EntryKind::Symlink }),
        is_component(name),
    ensures
        ({
            let top = frames.last();
            let path = join(top.source, name);
            let at = join(top.destination, name);
            &&& settle(frames) is Ok
            &&& settle(frames)->Ok_0.step == (CopyStepView::ReadingLink { path, at })
            &&& copy_request(settle(frames)->Ok_0.step) == Some(RequestView::ReadLink { path })
            &&& copy_step(settle(frames)->Ok_0, ResponseView::Target(target)) is Ok
            &&& copy_request(
                copy_step(settle(frames)->Ok_0, ResponseView::Target(target))->Ok_0.step,
            ) == Some(RequestView::Link { target, at })
        }),
{
}

/// A build that ends without success ends the publishing with a failure
/// that carries its exit status. The build is the first step of a
/// publishing, so nothing has been asked of the destination by then.
pub proof fn lemma_failed_build_ends_publishing(
    source: Seq<char>,
    destination: Seq<char>,
    exit: ExitView,
    verbose: bool,
)
    requires
        !exit.success,
    ensures
        publish_request(publish_start(source, destination)) == Some(
            RequestView::Run(build_command(source)),
        ),
        publish_step(
            publish_start(source, destination),
            ResponseView::Ran(RanView::Exited(exit)),
            verbose,
        ).0 == Err::<PublisherView, SyncErrorView>(build_failure(exit.code)),
{
}

/// Where the driver says that the build's output is no directory, be it
/// absent or a file, the publishing fails for want of the output, and
/// nothing has been asked of the destination: the requests up to then are
/// the build and the listing.
pub proof fn lemma_missing_directory_fails(
    source: Seq<char>,
    destination: Seq<char>,
    exit: ExitView,
    verbose: bool,
)
    requires
        exit.success,
    ensures
        ({
            let built = publish_step(
                publish_start(source, destination),
                ResponseView::Ran(RanView::Exited(exit)),
                verbose,
            ).0;
            &&& publish_request(publish_start(source, destination)) == Some(
                RequestView::Run(build_command(source)),
            )
            &&& built is Ok
            &&& publish_request(built->Ok_0) == Some(
                RequestView::List { path: artifact_dir(source) },
            )
            &&& publish_step(built->Ok_0, ResponseView::NotDirectory, verbose).0 == Err::<
                PublisherView,
                SyncErrorView,
            >(artifact_missing(source))
        }),
{
}

/// Whether a step of a publishing comes after the driver has listed the
/// build's output: these are the steps that ask something of the
/// destination, and the end.
pub open spec fn past_listing(step: PublishStepView) -> bool {
    step is ArtifactFound || step is Clearing || step is Creating || step is Copying
        || step is Published
}

/// Whether a request asks to change anything on disk: to remove or create
/// a directory, to copy a file or to make a link.
pub open spec fn changes_destination(request: Option<RequestView>) -> bool {
    match request {
        Some(RequestView::RemoveTree { .. }) => true,
        Some(RequestView::CreateTree { .. }) => true,
        Some(RequestView::CopyFile { .. }) => true,
        Some(RequestView::Link { .. }) => true,
        _ => false,
    }
}

/// A publishing asks to change the destination only at a step that comes
/// after the listing of the build's output.
pub proof fn lemma_changes_come_after_listing(publisher: PublisherView)
    requires
        changes_destination(publish_request(publisher)),
    ensures
        past_listing(publisher.step),
{
}

/// A publishing gets past the listing of the build's output in one way
/// only: by the driver's listing of it as a directory. The entries of that
/// listing are the ones that the copy begins with.
pub proof fn lemma_listing_comes_first(
    publisher: PublisherView,
    response: ResponseView,
    verbose: bool,
)
    requires
        !past_listing(publisher.step),
        publish_step(publisher, response, verbose).0 matches Ok(next) && past_listing(next.step),
    ensures
        publisher.step is Built,
        response is Entries,
        publish_step(publisher, response, verbose).0->Ok_0.step == PublishStepView::ArtifactFound(
            response->Entries_0,
        ),
{
}

/// The publishing after the driver has answered with `responses`, one after
/// the other; the failure where one of them made it fail.
pub open spec fn publish_run(
    publisher: PublisherView,
    responses: Seq<ResponseView>,
    verbose: bool,
) -> Result<PublisherView, SyncErrorView>
    decreases responses.len(),
{
    if responses.len() == 0 {
        Ok(publisher)
    } else {
        match publish_run(publisher, responses.drop_last(), verbose) {
            Ok(before) => publish_step(before, responses.last(), verbose).0,
            Err(error) => Err(error),
        }
    }
}

/// Along a publishing nothing is asked to change at the destination unless
/// the driver has listed the build's output as a directory before: one of
/// the responses was such a listing, given to a publishing that waited on
/// it.
pub proof fn lemma_destination_untouched_before_listing(
    source: Seq<char>,
    destination: Seq<char>,
    responses: Seq<ResponseView>,
    verbose: bool,
)
    requires
        publish_run(publish_start(source, destination), responses, verbose) matches Ok(now)
            && changes_destination(publish_request(now)),
    ensures
        exists|k: int|
            {
                let start = publish_start(source, destination);
                &&& 0 <= k < responses.len()
                &&& (#[trigger] responses[k]) is Entries
                &&& publish_run(start, responses.take(k), verbose) matches Ok(before)
                    && before.step is Built
            },
{
    let start = publish_start(source, destination);
    let now = publish_run(start, responses, verbose)->Ok_0;
    lemma_changes_come_after_listing(now);
    lemma_run_got_past_listing(source, destination, responses, verbose);
}

/// A publishing that is past the listing of the build's output got there by
/// such a listing.
pub proof fn lemma_run_got_past_listing(
    source: Seq<char>,
    destination: Seq<char>,
    responses: Seq<ResponseView>,
    verbose: bool,
)
    requires
        publish_run(publish_start(source, destination), responses, verbose) matches Ok(now)
            && past_listing(now.step),
    ensures
        exists|k: int|
            {
                let start = publish_start(source, destination);
                &&& 0 <= k < responses.len()
                &&& (#[trigger] responses[k]) is Entries
                &&& publish_run(start, responses.take(k), verbose) matches Ok(before)
                    && before.step is Built
            },
    decreases responses.len(),
{
    let start = publish_start(source, destination);
    if responses.len() > 0 {
        let earlier = responses.drop_last();
        let before = publish_run(start, earlier, verbose)->Ok_0;
        if past_listing(before.step) {
            lemma_run_got_past_listing(source, destination, earlier, verbose);
            let k = choose|k: int|
                {
                    &&& 0 <= k < earlier.len()
                    &&& (#[trigger] earlier[k]) is Entries
                    &&& publish_run(start, earlier.take(k), verbose) matches Ok(before)
                        && before.step is Built
                };
            assert(responses[k] == earlier[k]);
            assert(responses.take(k) == earlier.take(k));
        } else {
            lemma_listing_comes_first(before, responses.last(), verbose);
            let k = responses.len() - 1;
            assert(responses[k] is Entries);
            assert(responses.take(k) == earlier);
        }
    }
}

/// A publishing replaces the destination: once the build's output is
/// listed, a destination that is there is removed with all that it holds,
/// then created anew; one that is not there is created. The copy of the
/// listed entries into it begins after that, and in no other way.
pub proof fn lemma_destination_is_replaced(
    publisher: PublisherView,
    response: ResponseView,
    verbose: bool,
)
    ensures
        ({
            let next = publish_step(publisher, response, verbose).0;
            let removal = RequestView::RemoveTree { path: publisher.destination };
            let creation = RequestView::CreateTree { path: publisher.destination };
            &&& publisher.step is ArtifactFound && response == ResponseView::Exists(true)
                ==> next is Ok && publish_request(next->Ok_0) == Some(removal)
            &&& publisher.step is ArtifactFound && response == ResponseView::Exists(false)
                ==> next is Ok && publish_request(next->Ok_0) == Some(creation)
            &&& publisher.step is Clearing && response is Done ==> next is Ok && publish_request(
                next->Ok_0,
            ) == Some(creation)
            &&& publisher.step is Creating && response is Done ==> publish_step(
                publisher,
                response,
                verbose,
            ) == copying(
                publisher.source,
                publisher.destination,
                copy_begin(
                    artifact_dir(publisher.source),
                    publisher.destination,
                    publisher.step->Creating_0,
                ),
                verbose,
            )
            &&& (next matches Ok(after) && (after.step is Copying || after.step is Published) && !(
            publisher.step is Copying || publisher.step is Published)) ==> publisher.step
                is Creating && response is Done
            &&& (next matches Ok(after) && after.step is Creating && !(publisher.step is Creating))
                ==> publisher.step is Clearing && response is Done || publisher.step
                is ArtifactFound && response == ResponseView::Exists(false)
        }),
{
}

/// An entry whose name is not one path component is never copied: the
/// copy fails when the entry's turn comes.
pub proof fn lemma_bad_name_fails(frames: Seq<FrameView>, name: Seq<char>, kind: EntryKind)
    requires
        frames.len() > 0,
        frames.last().pending.len() > 0,
        frames.last().pending.first() == (EntryView::Found { name, kind }),
        !is_component(name),
    ensures
        settle(frames) == Err::<CopierView, SyncErrorView>(bad_name(frames.last().source, name)),
{
}

/// How far a repository's turn has come at a stage: unvalidated below
/// validated, validated below fetched, and so on to the copy that ends a
/// publishing.
pub open spec fn progress_of(stage: StageView) -> nat {
    match stage {
        StageView::CheckingPath => 0,
        StageView::CheckingMarker => 1,
        StageView::Syncing(step) => match step {
            SyncStepView::Fetching => 2,
            SyncStepView::ReadingHead => 3,
            SyncStepView::ProbingMain => 4,
            SyncStepView::Counting { .. } => 5,
            SyncStepView::Pulling { .. } => 6,
            SyncStepView::UpToDate => 7,
            SyncStepView::Pulled => 7,
        },
        StageView::Publishing(publisher) => match publisher.step {
            PublishStepView::Building => 8,
            PublishStepView::Built => 9,
            PublishStepView::ArtifactFound(_) => 10,
            PublishStepView::Clearing(_) => 11,
            PublishStepView::Creating(_) => 12,
            PublishStepView::Copying(_) => 13,
            PublishStepView::Published => 14,
        },
    }
}

/// A repository's turn never goes back: a step leaves it at the stage
/// where it was, where the response did not answer or the copy goes on, or
/// takes it to a later one, or ends it.
pub proof fn lemma_stages_advance(
    def: RepoDefinitionView,
    stage: StageView,
    response: ResponseView,
    verbose: bool,
)
    ensures
        match repo_step(def, stage, response, verbose).0 {
            FlowView::Next(next) => progress_of(next) > progress_of(stage) || next == stage || (
            progress_of(stage) == 13 && progress_of(next) == 13),
            _ => true,
        },
{
}

} // verus!
