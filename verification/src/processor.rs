//! The synchronisation cycle: each repository of the list is validated,
//! brought up to date and, where it has a deploy target, published. A
//! repository that fails is recorded and the cycle goes on with the next.
//!
//! Per repository the stages are: unvalidated (`CheckingPath`,
//! `CheckingMarker`), validated (`Fetching`), fetched (`ReadingHead`,
//! `ProbingMain`, `Counting`), then up to date or `Pulling`, then published
//! or skipped. The first failure ends the repository's turn.

use crate::config::{RepoDefinition, RepoDefinitionView};
use crate::driver::{
    option_view, result_view, Ran, RanView, Request, RequestView, Response, ResponseView,
};
use crate::error::{
    CycleError, CycleErrorView, ErrorKind, Failure, FailureView, SyncError, SyncErrorView,
};
use crate::git::{
    count_args, count_outcome, fetch_args, fetch_outcome, git, head_args, head_branch,
    probe_args, probed_branch, pull_args, pull_outcome, GitRepo,
};
use crate::logger::{records_all, LogRecord, Logger, Report, ReportView};
use crate::publish::{
    build_reports, publish_request, publish_start, publish_step, Publisher, PublisherView,
};
use crate::text::{decimal, decimal_of, joined, trim, trimmed};
use vstd::prelude::*;

verus! {

/// The step of a synchronisation that the driver is to carry out next.
#[derive(Debug)]
pub enum SyncStep {
    /// Fetch from the remote.
    Fetching,
    /// Read the remote's symbolic `HEAD`.
    ReadingHead,
    /// Test whether the remote has a branch `main`.
    ProbingMain,
    /// Count the commits that the checkout is behind `branch`.
    Counting { branch: String },
    /// Pull `branch`.
    Pulling { branch: String },
    /// Nothing: the checkout was up to date.
    UpToDate,
    /// Nothing: the checkout has been brought up to date.
    Pulled,
}

/// What a `SyncStep` holds, as sequences of characters.
pub enum SyncStepView {
    Fetching,
    ReadingHead,
    ProbingMain,
    Counting { branch: Seq<char> },
    Pulling { branch: Seq<char> },
    UpToDate,
    Pulled,
}

impl View for SyncStep {
    type V = SyncStepView;

    open spec fn view(&self) -> SyncStepView {
        match self {
            SyncStep::Fetching => SyncStepView::Fetching,
            SyncStep::ReadingHead => SyncStepView::ReadingHead,
            SyncStep::ProbingMain => SyncStepView::ProbingMain,
            SyncStep::Counting { branch } => SyncStepView::Counting { branch: branch@ },
            SyncStep::Pulling { branch } => SyncStepView::Pulling { branch: branch@ },
            SyncStep::UpToDate => SyncStepView::UpToDate,
            SyncStep::Pulled => SyncStepView::Pulled,
        }
    }
}

/// No report.
pub open spec fn quiet() -> Seq<ReportView> {
    Seq::empty()
}

/// One line of progress, where progress is reported.
pub open spec fn progress(verbose: bool, text: Seq<char>) -> Seq<ReportView> {
    if verbose {
        seq![ReportView::Line(text)]
    } else {
        Seq::empty()
    }
}

/// A failure of the given kind, and the error report that goes with it.
pub open spec fn reported_failure(kind: ErrorKind, detail: Seq<char>) -> (
    Result<SyncStepView, SyncErrorView>,
    Seq<ReportView>,
) {
    (Err(SyncErrorView { kind, detail }), seq![ReportView::Error(detail)])
}

/// The request that a step of a synchronisation stands for.
pub open spec fn sync_request(path: Seq<char>, step: SyncStepView) -> Option<RequestView> {
    match step {
        SyncStepView::Fetching => Some(RequestView::Run(git(path, fetch_args()))),
        SyncStepView::ReadingHead => Some(RequestView::Run(git(path, head_args()))),
        SyncStepView::ProbingMain => Some(RequestView::Run(git(path, probe_args()))),
        SyncStepView::Counting { branch } => Some(
            RequestView::Run(git(path, count_args(branch))),
        ),
        SyncStepView::Pulling { branch } => Some(RequestView::Run(git(path, pull_args(branch)))),
        SyncStepView::UpToDate | SyncStepView::Pulled => None,
    }
}

/// The step that follows once the default branch is known, and what is said
/// of the branch.
pub open spec fn branch_chosen(branch: Seq<char>, verbose: bool) -> (
    Result<SyncStepView, SyncErrorView>,
    Seq<ReportView>,
) {
    (
        Ok(SyncStepView::Counting { branch }),
        progress(verbose, "Se utilizará la rama: "@ + branch),
    )
}

/// The synchronisation after the command of its step `ran`, and what is
/// said on the way. No pull is asked for where the checkout is behind by no
/// commit.
pub open spec fn sync_step(step: SyncStepView, ran: RanView, verbose: bool) -> (
    Result<SyncStepView, SyncErrorView>,
    Seq<ReportView>,
) {
    match step {
        SyncStepView::Fetching => match fetch_outcome(ran) {
            Ok(_) => (Ok(SyncStepView::ReadingHead), quiet()),
            Err(why) => reported_failure(
                ErrorKind::FetchFailed,
                "No se pudo ejecutar `git fetch`: "@ + why,
            ),
        },
        SyncStepView::ReadingHead => match head_branch(ran) {
            Some(branch) => branch_chosen(branch, verbose),
            None => (Ok(SyncStepView::ProbingMain), quiet()),
        },
        SyncStepView::ProbingMain => branch_chosen(probed_branch(ran), verbose),
        SyncStepView::Counting { branch } => match count_outcome(ran) {
            Ok(behind) => if behind == 0 {
                (
                    Ok(SyncStepView::UpToDate),
                    progress(verbose, "El repositorio ya está actualizado."@),
                )
            } else {
                (
                    Ok(SyncStepView::Pulling { branch }),
                    progress(
                        verbose,
                        "El remoto tiene "@ + decimal(behind)
                            + " confirmaciones nuevas. Aplicando cambios..."@,
                    ),
                )
            },
            Err(why) => reported_failure(
                ErrorKind::StatusCheckFailed,
                "No se pudo consultar el estado del repositorio: "@ + why,
            ),
        },
        SyncStepView::Pulling { branch } => match pull_outcome(ran) {
            Ok(output) => (
                Ok(SyncStepView::Pulled),
                progress(verbose, "Resultado de `git pull`:\n"@ + trim(output)),
            ),
            Err(why) => reported_failure(
                ErrorKind::PullFailed,
                "No se pudo ejecutar `git pull`: "@ + why,
            ),
        },
        SyncStepView::UpToDate => (Ok(step), quiet()),
        SyncStepView::Pulled => (Ok(step), quiet()),
    }
}

fn say(reports: &mut Vec<Report>, verbose: bool, text: String)
    ensures
        final(reports).deep_view() == old(reports).deep_view() + progress(verbose, text@),
{
    let ghost before = reports.deep_view();
    if verbose {
        reports.push(Report::Line(text));
        assert(reports.deep_view() == before + seq![ReportView::Line(text@)]);
    } else {
        assert(before + Seq::<ReportView>::empty() == before);
    }
}

fn fail(reports: &mut Vec<Report>, kind: ErrorKind, detail: String) -> (error: SyncError)
    ensures
        error@ == (SyncErrorView { kind, detail: detail@ }),
        final(reports).deep_view() == old(reports).deep_view() + seq![
            ReportView::Error(detail@),
        ],
{
    let ghost before = reports.deep_view();
    reports.push(Report::Error(detail.clone()));
    assert(reports.deep_view() == before + seq![ReportView::Error(detail@)]);
    SyncError { kind, detail }
}

impl SyncStep {
    /// The step that the driver is to carry out on `repo`, unless the
    /// synchronisation is complete.
    pub fn request(&self, repo: &GitRepo) -> (request: Option<Request>)
        ensures
            option_view(request) == sync_request(repo.path@, self@),
    {
        match self {
            SyncStep::Fetching => Some(Request::Run(repo.fetch_command())),
            SyncStep::ReadingHead => Some(Request::Run(repo.head_command())),
            SyncStep::ProbingMain => Some(Request::Run(repo.probe_command())),
            SyncStep::Counting { branch } => Some(
                Request::Run(repo.count_command(branch.as_str())),
            ),
            SyncStep::Pulling { branch } => Some(Request::Run(repo.pull_command(branch.as_str()))),
            SyncStep::UpToDate => None,
            SyncStep::Pulled => None,
        }
    }

    /// Tells whether the synchronisation is complete.
    pub fn is_complete(&self) -> (b: bool)
        ensures
            b == (self@ is UpToDate || self@ is Pulled),
    {
        matches!(self, SyncStep::UpToDate | SyncStep::Pulled)
    }
}

/// Brings the checkout of `repo` up to date, one step at a time: takes what
/// the command of `step` came to, and returns the step that follows or the
/// failure, with what there is to report.
pub fn check_and_pull(repo: &GitRepo, step: SyncStep, ran: &Ran, verbose: bool) -> (r: (
    Result<SyncStep, SyncError>,
    Vec<Report>,
))
    ensures
        (result_view(r.0), r.1.deep_view()) == sync_step(step@, ran@, verbose),
{
    let mut reports: Vec<Report> = Vec::new();
    assert(reports.deep_view() == quiet());
    let next = match step {
        SyncStep::Fetching => match repo.fetch(ran) {
            Ok(_) => Ok(SyncStep::ReadingHead),
            Err(why) => Err(
                fail(
                    &mut reports,
                    ErrorKind::FetchFailed,
                    joined("No se pudo ejecutar `git fetch`: ", why.as_str()),
                ),
            ),
        },
        SyncStep::ReadingHead => match repo.get_default_branch(ran) {
            Some(branch) => {
                say(&mut reports, verbose, joined("Se utilizará la rama: ", branch.as_str()));
                Ok(SyncStep::Counting { branch })
            },
            None => Ok(SyncStep::ProbingMain),
        },
        SyncStep::ProbingMain => {
            let branch = repo.fallback_branch(ran);
            say(&mut reports, verbose, joined("Se utilizará la rama: ", branch.as_str()));
            Ok(SyncStep::Counting { branch })
        },
        SyncStep::Counting { branch } => match repo.count_commits_behind(ran) {
            Ok(behind) => {
                if behind == 0 {
                    say(&mut reports, verbose, "El repositorio ya está actualizado.".to_owned());
                    Ok(SyncStep::UpToDate)
                } else {
                    let mut text = joined("El remoto tiene ", decimal_of(behind as u64).as_str());
                    text.append(" confirmaciones nuevas. Aplicando cambios...");
                    say(&mut reports, verbose, text);
                    Ok(SyncStep::Pulling { branch })
                }
            },
            Err(why) => Err(
                fail(
                    &mut reports,
                    ErrorKind::StatusCheckFailed,
                    joined("No se pudo consultar el estado del repositorio: ", why.as_str()),
                ),
            ),
        },
        SyncStep::Pulling { branch } => match repo.pull(ran) {
            Ok(output) => {
                say(
                    &mut reports,
                    verbose,
                    joined("Resultado de `git pull`:\n", trimmed(output.as_str()).as_str()),
                );
                Ok(SyncStep::Pulled)
            },
            Err(why) => Err(
                fail(
                    &mut reports,
                    ErrorKind::PullFailed,
                    joined("No se pudo ejecutar `git pull`: ", why.as_str()),
                ),
            ),
        },
        SyncStep::UpToDate => Ok(SyncStep::UpToDate),
        SyncStep::Pulled => Ok(SyncStep::Pulled),
    };
    (next, reports)
}

/// Where the processing of one repository stands: the step that the driver
/// is to carry out next.
#[derive(Debug)]
pub enum Stage {
    /// Tell whether the working tree's path is there.
    CheckingPath,
    /// Tell whether the working tree holds Git's directory.
    CheckingMarker,
    /// A step of the synchronisation.
    Syncing(SyncStep),
    /// A step of the publishing.
    Publishing(Publisher),
}

/// What a `Stage` holds, as sequences.
pub enum StageView {
    CheckingPath,
    CheckingMarker,
    Syncing(SyncStepView),
    Publishing(PublisherView),
}

impl View for Stage {
    type V = StageView;

    open spec fn view(&self) -> StageView {
        match self {
            Stage::CheckingPath => StageView::CheckingPath,
            Stage::CheckingMarker => StageView::CheckingMarker,
            Stage::Syncing(step) => StageView::Syncing(step@),
            Stage::Publishing(publisher) => StageView::Publishing(publisher@),
        }
    }
}

/// What became of a repository's turn after a step.
#[derive(Debug)]
pub enum Flow {
    /// The turn goes on at this stage.
    Next(Stage),
    /// The repository is done.
    Succeeded,
    /// The repository failed.
    Failed(SyncError),
}

/// What a `Flow` holds, as sequences.
pub enum FlowView {
    Next(StageView),
    Succeeded,
    Failed(SyncErrorView),
}

impl View for Flow {
    type V = FlowView;

    open spec fn view(&self) -> FlowView {
        match self {
            Flow::Next(stage) => FlowView::Next(stage@),
            Flow::Succeeded => FlowView::Succeeded,
            Flow::Failed(error) => FlowView::Failed(error@),
        }
    }
}

/// The path of Git's directory in the working tree at `path`.
pub open spec fn marker_path(path: Seq<char>) -> Seq<char> {
    path + "/.git"@
}

/// The request that a stage stands for.
pub open spec fn stage_request(def: RepoDefinitionView, stage: StageView) -> Option<RequestView> {
    match stage {
        StageView::CheckingPath => Some(RequestView::Exists { path: def.repo_path }),
        StageView::CheckingMarker => Some(
            RequestView::Exists { path: marker_path(def.repo_path) },
        ),
        StageView::Syncing(step) => sync_request(def.repo_path, step),
        StageView::Publishing(publisher) => publish_request(publisher),
    }
}

/// The failure of a path that is missing or holds no working tree, and the
/// error report that goes with it.
pub open spec fn invalid_path(detail: Seq<char>) -> (FlowView, Seq<ReportView>) {
    (
        FlowView::Failed(SyncErrorView { kind: ErrorKind::PathInvalid, detail }),
        seq![ReportView::Error(detail)],
    )
}

/// The validation of the working tree at `path`, after the driver has told
/// whether what `stage` asked for is there.
pub open spec fn validate_step(path: Seq<char>, stage: StageView, found: bool, verbose: bool) -> (
    FlowView,
    Seq<ReportView>,
) {
    match stage {
        StageView::CheckingPath => if found {
            (FlowView::Next(StageView::CheckingMarker), quiet())
        } else {
            invalid_path("La ruta no existe: "@ + path)
        },
        StageView::CheckingMarker => if found {
            (
                FlowView::Next(StageView::Syncing(SyncStepView::Fetching)),
                progress(verbose, "Verificando el estado del remoto..."@),
            )
        } else {
            invalid_path("El directorio no es un repositorio Git válido: "@ + path)
        },
        _ => (FlowView::Next(stage), quiet()),
    }
}

/// Where a repository's turn goes once its checkout is up to date: to the
/// publishing where the repository has a deploy target, and to its end
/// where it has none.
pub open spec fn after_sync(def: RepoDefinitionView, verbose: bool) -> (
    FlowView,
    Seq<ReportView>,
) {
    match def.deploy_target {
        Some(target) => (
            FlowView::Next(StageView::Publishing(publish_start(def.repo_path, target))),
            build_reports(verbose),
        ),
        None => (FlowView::Succeeded, quiet()),
    }
}

/// The turn of the repository `def` after `response` to the step of
/// `stage`, and what is said on the way. A response that does not answer
/// the step leaves the stage as it is.
pub open spec fn repo_step(
    def: RepoDefinitionView,
    stage: StageView,
    response: ResponseView,
    verbose: bool,
) -> (FlowView, Seq<ReportView>) {
    match (stage, response) {
        (StageView::CheckingPath, ResponseView::Exists(found)) => validate_step(
            def.repo_path,
            stage,
            found,
            verbose,
        ),
        (StageView::CheckingMarker, ResponseView::Exists(found)) => validate_step(
            def.repo_path,
            stage,
            found,
            verbose,
        ),
        (StageView::Syncing(step), ResponseView::Ran(ran)) => {
            let (next, said) = sync_step(step, ran, verbose);
            match next {
                Ok(step) => if step is UpToDate || step is Pulled {
                    let (flow, more) = after_sync(def, verbose);
                    (flow, said + more)
                } else {
                    (FlowView::Next(StageView::Syncing(step)), said)
                },
                Err(error) => (FlowView::Failed(error), said),
            }
        },
        (StageView::Publishing(publisher), _) => {
            let (next, said) = publish_step(publisher, response, verbose);
            match next {
                Ok(publisher) => if publisher.step is Published {
                    (FlowView::Succeeded, said)
                } else {
                    (FlowView::Next(StageView::Publishing(publisher)), said)
                },
                Err(error) => (FlowView::Failed(error), said),
            }
        },
        _ => (FlowView::Next(stage), quiet()),
    }
}

/// Validates the working tree at `repo_path`, one step at a time: takes the
/// driver's word on whether what `stage` asked for is there.
pub fn validate_repo(repo_path: &str, stage: Stage, found: bool, verbose: bool) -> (r: (
    Flow,
    Vec<Report>,
))
    ensures
        (r.0@, r.1.deep_view()) == validate_step(repo_path@, stage@, found, verbose),
{
    let mut reports: Vec<Report> = Vec::new();
    assert(reports.deep_view() == quiet());
    let flow = match stage {
        Stage::CheckingPath => {
            if found {
                Flow::Next(Stage::CheckingMarker)
            } else {
                Flow::Failed(
                    fail(
                        &mut reports,
                        ErrorKind::PathInvalid,
                        joined("La ruta no existe: ", repo_path),
                    ),
                )
            }
        },
        Stage::CheckingMarker => {
            if found {
                say(&mut reports, verbose, "Verificando el estado del remoto...".to_owned());
                Flow::Next(Stage::Syncing(SyncStep::Fetching))
            } else {
                Flow::Failed(
                    fail(
                        &mut reports,
                        ErrorKind::PathInvalid,
                        joined("El directorio no es un repositorio Git válido: ", repo_path),
                    ),
                )
            }
        },
        stage => Flow::Next(stage),
    };
    (flow, reports)
}

impl Stage {
    /// The step that the driver is to carry out for the repository `def`.
    pub fn request(&self, def: &RepoDefinition) -> (request: Option<Request>)
        ensures
            option_view(request) == stage_request(def@, self@),
    {
        match self {
            Stage::CheckingPath => Some(Request::Exists { path: def.repo_path.clone() }),
            Stage::CheckingMarker => Some(
                Request::Exists { path: joined(def.repo_path.as_str(), "/.git") },
            ),
            Stage::Syncing(step) => {
                let repo = GitRepo::new(def.repo_path.clone());
                step.request(&repo)
            },
            Stage::Publishing(publisher) => publisher.request(),
        }
    }
}

/// Takes one repository one step further: from `stage`, by the driver's
/// `response` to the request of that stage.
pub fn process_single(def: &RepoDefinition, stage: Stage, response: Response, verbose: bool) -> (r:
    (Flow, Vec<Report>))
    ensures
        (r.0@, r.1.deep_view()) == repo_step(def@, stage@, response@, verbose),
{
    match (stage, response) {
        (Stage::CheckingPath, Response::Exists(found)) => validate_repo(
            def.repo_path.as_str(),
            Stage::CheckingPath,
            found,
            verbose,
        ),
        (Stage::CheckingMarker, Response::Exists(found)) => validate_repo(
            def.repo_path.as_str(),
            Stage::CheckingMarker,
            found,
            verbose,
        ),
        (Stage::Syncing(step), Response::Ran(ran)) => {
            let repo = GitRepo::new(def.repo_path.clone());
            let (next, mut said) = check_and_pull(&repo, step, &ran, verbose);
            match next {
                Ok(step) => {
                    if step.is_complete() {
                        let ghost before = said.deep_view();
                        match &def.deploy_target {
                            Some(target) => {
                                let (publisher, mut more) = Publisher::start(
                                    def.repo_path.clone(),
                                    target.clone(),
                                    verbose,
                                );
                                said.append(&mut more);
                                assert(said.deep_view() == before + build_reports(verbose));
                                (Flow::Next(Stage::Publishing(publisher)), said)
                            },
                            None => {
                                assert(before + quiet() == before);
                                (Flow::Succeeded, said)
                            },
                        }
                    } else {
                        (Flow::Next(Stage::Syncing(step)), said)
                    }
                },
                Err(error) => (Flow::Failed(error), said),
            }
        },
        (Stage::Publishing(publisher), response) => {
            let (next, said) = publisher.step(response, verbose);
            match next {
                Ok(publisher) => {
                    if publisher.is_published() {
                        (Flow::Succeeded, said)
                    } else {
                        (Flow::Next(Stage::Publishing(publisher)), said)
                    }
                },
                Err(error) => (Flow::Failed(error), said),
            }
        },
        (stage, _) => {
            let reports: Vec<Report> = Vec::new();
            assert(reports.deep_view() == quiet());
            (Flow::Next(stage), reports)
        },
    }
}

/// A synchronisation cycle under way: the repositories, which of them is
/// being processed and at what stage, and those that have failed.
#[derive(Debug)]
pub struct Cycle {
    repo_defs: Vec<RepoDefinition>,
    position: usize,
    stage: Option<Stage>,
    failures: Vec<Failure>,
}

/// What a `Cycle` holds, as sequences.
pub struct CycleView {
    /// The repositories of the cycle, in the order in which they are
    /// processed.
    pub repo_defs: Seq<RepoDefinitionView>,
    /// How many repositories are done; the next one is being processed.
    pub position: nat,
    /// The stage of the repository that is being processed; none once the
    /// cycle is over.
    pub stage: Option<StageView>,
    /// The repositories that failed, in the order in which they did.
    pub failures: Seq<FailureView>,
}

impl View for Cycle {
    type V = CycleView;

    closed spec fn view(&self) -> CycleView {
        CycleView {
            repo_defs: self.repo_defs.deep_view(),
            position: self.position as nat,
            stage: option_view(self.stage),
            failures: self.failures.deep_view(),
        }
    }
}

/// Whether a cycle is in a state that a run can reach: its position lies
/// within the list, it has a stage exactly while a repository is left, and
/// it is publishing only for a repository with a deploy target, from that
/// repository's working tree to that target.
pub open spec fn coherent(cycle: CycleView) -> bool {
    &&& cycle.position <= cycle.repo_defs.len()
    &&& cycle.stage is Some <==> cycle.position < cycle.repo_defs.len()
    &&& match cycle.stage {
        Some(StageView::Publishing(publisher)) => {
            let def = cycle.repo_defs[cycle.position as int];
            &&& def.deploy_target == Some(publisher.destination)
            &&& publisher.source == def.repo_path
        },
        _ => true,
    }
}

impl Cycle {
    #[verifier::type_invariant]
    spec fn reachable(self) -> bool {
        coherent(self@)
    }
}

/// Every step keeps a cycle coherent.
pub proof fn lemma_step_is_coherent(cycle: CycleView, response: ResponseView, verbose: bool)
    requires
        coherent(cycle),
    ensures
        coherent(cycle_step(cycle, response, verbose).0),
{
}

/// What is said, where progress is reported, as a repository's turn begins.
pub open spec fn header_reports(def: RepoDefinitionView, verbose: bool) -> Seq<ReportView> {
    if verbose {
        seq![
            ReportView::Line("=========================================="@),
            ReportView::Line(
                match def.deploy_target {
                    Some(target) => "Procesando repositorio con build: "@ + def.repo_path
                        + " -> "@ + target,
                    None => "Procesando repositorio: "@ + def.repo_path,
                },
            ),
            ReportView::Line("=========================================="@),
        ]
    } else {
        Seq::empty()
    }
}

/// What is said, where progress is reported, once a repository is done.
pub open spec fn success_reports(verbose: bool) -> Seq<ReportView> {
    if verbose {
        seq![ReportView::Raw("\n"@)]
    } else {
        Seq::empty()
    }
}

/// What is said of a repository that failed.
pub open spec fn failure_reports(failure: FailureView) -> Seq<ReportView> {
    seq![
        ReportView::Line(
            "Repositorio omitido "@ + failure.repo_path + " debido a un error: "@
                + failure.error.detail,
        ),
    ]
}

/// What is said of a list without repositories.
pub open spec fn empty_reports() -> Seq<ReportView> {
    seq![
        ReportView::Line("No se encontraron repositorios en el archivo de configuración."@),
        ReportView::Line("Agregue las rutas de los repositorios, una por línea."@),
    ]
}

/// What is said, where progress is reported, as a cycle begins.
pub open spec fn opening_reports(count: nat, verbose: bool) -> Seq<ReportView> {
    progress(verbose, "Se analizarán "@ + decimal(count) + " repositorios\n"@)
}

/// What is said, where progress is reported, as a cycle ends.
pub open spec fn closing_reports(verbose: bool) -> Seq<ReportView> {
    progress(verbose, "Todos los repositorios fueron procesados."@)
}

/// The cycle as the turn of the repository at `position` begins, or as the
/// cycle ends where there is none; and what is said then.
pub open spec fn begin_repo(
    repo_defs: Seq<RepoDefinitionView>,
    position: nat,
    failures: Seq<FailureView>,
    verbose: bool,
) -> (CycleView, Seq<ReportView>) {
    if position < repo_defs.len() {
        (
            CycleView { repo_defs, position, stage: Some(StageView::CheckingPath), failures },
            header_reports(repo_defs[position as int], verbose),
        )
    } else {
        (
            CycleView { repo_defs, position: repo_defs.len(), stage: None, failures },
            closing_reports(verbose),
        )
    }
}

/// The cycle over `repo_defs` before its first step, and what is said as it
/// begins. A cycle over no repository is over at once.
pub open spec fn cycle_start(repo_defs: Seq<RepoDefinitionView>, verbose: bool) -> (
    CycleView,
    Seq<ReportView>,
) {
    if repo_defs.len() == 0 {
        (
            CycleView { repo_defs, position: 0, stage: None, failures: Seq::empty() },
            empty_reports(),
        )
    } else {
        let (cycle, said) = begin_repo(repo_defs, 0, Seq::empty(), verbose);
        (cycle, opening_reports(repo_defs.len(), verbose) + said)
    }
}

/// The cycle after `response` to its request, and what is said on the way.
/// Whether the repository at hand succeeds or fails, the cycle goes on with
/// the one after it; a failure is recorded behind those before it. A cycle
/// that is over stays as it is, and so does one whose request `response`
/// does not answer.
pub open spec fn cycle_step(cycle: CycleView, response: ResponseView, verbose: bool) -> (
    CycleView,
    Seq<ReportView>,
) {
    match cycle.stage {
        Some(stage) if cycle.position < cycle.repo_defs.len() => {
            let def = cycle.repo_defs[cycle.position as int];
            let (flow, said) = repo_step(def, stage, response, verbose);
            match flow {
                FlowView::Next(stage) => (CycleView { stage: Some(stage), ..cycle }, said),
                FlowView::Succeeded => {
                    let (next, more) = begin_repo(
                        cycle.repo_defs,
                        cycle.position + 1,
                        cycle.failures,
                        verbose,
                    );
                    (next, said + success_reports(verbose) + more)
                },
                FlowView::Failed(error) => {
                    let failure = FailureView { repo_path: def.repo_path, error };
                    let (next, more) = begin_repo(
                        cycle.repo_defs,
                        cycle.position + 1,
                        cycle.failures.push(failure),
                        verbose,
                    );
                    (next, said + failure_reports(failure) + more)
                },
            }
        },
        _ => (cycle, quiet()),
    }
}

/// The request that a cycle is waiting on; none once it is over.
pub open spec fn cycle_request(cycle: CycleView) -> Option<RequestView> {
    match cycle.stage {
        Some(stage) if cycle.position < cycle.repo_defs.len() => stage_request(
            cycle.repo_defs[cycle.position as int],
            stage,
        ),
        _ => None,
    }
}

/// How a cycle ended; nothing while it is under way. A cycle over no
/// repository failed for want of configuration; any other succeeded where
/// no repository failed, and failed with the list of those that did.
pub open spec fn cycle_result(cycle: CycleView) -> Option<Result<(), CycleErrorView>> {
    if cycle.stage is Some {
        None
    } else if cycle.repo_defs.len() == 0 {
        Some(Err(CycleErrorView::ConfigurationEmpty))
    } else if cycle.failures.len() == 0 {
        Some(Ok(()))
    } else {
        Some(Err(CycleErrorView::Failed(cycle.failures)))
    }
}

impl Cycle {
    fn begin_repo(
        repo_defs: Vec<RepoDefinition>,
        position: usize,
        failures: Vec<Failure>,
        verbose: bool,
        reports: &mut Vec<Report>,
    ) -> (cycle: Cycle)
        requires
            position <= repo_defs.len(),
        ensures
            ({
                let (next, said) = begin_repo(
                    repo_defs.deep_view(),
                    position as nat,
                    failures.deep_view(),
                    verbose,
                );
                cycle@ == next && final(reports).deep_view() == old(reports).deep_view() + said
            }),
    {
        let ghost before = reports.deep_view();
        if position < repo_defs.len() {
            if verbose {
                let def = &repo_defs[position];
                let title = match &def.deploy_target {
                    Some(target) => {
                        let mut title = joined(
                            "Procesando repositorio con build: ",
                            def.repo_path.as_str(),
                        );
                        title.append(" -> ");
                        title.append(target.as_str());
                        title
                    },
                    None => joined("Procesando repositorio: ", def.repo_path.as_str()),
                };
                reports.push(Report::Line("==========================================".to_owned()));
                reports.push(Report::Line(title));
                reports.push(Report::Line("==========================================".to_owned()));
                assert(repo_defs.deep_view()[position as int] == def@);
                assert(reports.deep_view() == before + header_reports(def@, verbose));
            } else {
                assert(before + Seq::<ReportView>::empty() == before);
            }
            Cycle { repo_defs, position, stage: Some(Stage::CheckingPath), failures }
        } else {
            say(reports, verbose, "Todos los repositorios fueron procesados.".to_owned());
            Cycle { repo_defs, position, stage: None, failures }
        }
    }

    /// Begins a cycle over `repo_defs`; returns with it what there is to
    /// report.
    pub fn begin(repo_defs: Vec<RepoDefinition>, verbose: bool) -> (r: (Cycle, Vec<Report>))
        ensures
            (r.0@, r.1.deep_view()) == cycle_start(repo_defs.deep_view(), verbose),
            coherent(r.0@),
            repo_defs.len() == 0 ==> cycle_result(r.0@) == Some(
                Err::<(), CycleErrorView>(CycleErrorView::ConfigurationEmpty),
            ),
    {
        let mut reports: Vec<Report> = Vec::new();
        assert(reports.deep_view() == quiet());
        if repo_defs.len() == 0 {
            reports.push(
                Report::Line(
                    "No se encontraron repositorios en el archivo de configuración.".to_owned(),
                ),
            );
            reports.push(
                Report::Line("Agregue las rutas de los repositorios, una por línea.".to_owned()),
            );
            assert(reports.deep_view() == empty_reports());
            let failures: Vec<Failure> = Vec::new();
            assert(failures.deep_view() == Seq::<FailureView>::empty());
            (Cycle { repo_defs, position: 0, stage: None, failures }, reports)
        } else {
            let mut text = joined("Se analizarán ", decimal_of(repo_defs.len() as u64).as_str());
            text.append(" repositorios\n");
            say(&mut reports, verbose, text);
            let failures: Vec<Failure> = Vec::new();
            assert(failures.deep_view() == Seq::<FailureView>::empty());
            let cycle = Cycle::begin_repo(repo_defs, 0, failures, verbose, &mut reports);
            (cycle, reports)
        }
    }

    /// Tells whether the cycle is over.
    pub fn is_finished(&self) -> (b: bool)
        ensures
            b == (self@.stage is None),
    {
        self.stage.is_none()
    }

    /// The step that the driver is to carry out next; none once the cycle
    /// is over.
    pub fn request(&self) -> (request: Option<Request>)
        ensures
            option_view(request) == cycle_request(self@),
    {
        proof {
            use_type_invariant(self);
            assert(self@.repo_defs.len() == self.repo_defs.len());
        }
        match &self.stage {
            Some(stage) => {
                assert(self.repo_defs.deep_view()[self.position as int]
                    == self.repo_defs[self.position as int]@);
                stage.request(&self.repo_defs[self.position])
            },
            None => None,
        }
    }

    /// Tells whether `response` answers the request that the cycle is
    /// waiting on.
    pub fn expects(&self, response: &Response) -> (b: bool)
        ensures
            b == match cycle_request(self@) {
                Some(request) => crate::driver::answers(request, response@),
                None => false,
            },
    {
        match self.request() {
            Some(request) => request.is_answered_by(response),
            None => false,
        }
    }

    /// The repositories that have failed so far, in the order in which they
    /// did.
    pub fn failures(&self) -> (failures: &Vec<Failure>)
        ensures
            failures.deep_view() == self@.failures,
    {
        &self.failures
    }

    /// How the cycle ended; nothing while it is under way.
    pub fn result(&self) -> (r: Option<Result<(), CycleError>>)
        ensures
            match r {
                Some(Ok(_)) => cycle_result(self@) == Some(Ok::<(), CycleErrorView>(())),
                Some(Err(error)) => cycle_result(self@) == Some(
                    Err::<(), CycleErrorView>(error@),
                ),
                None => cycle_result(self@) is None,
            },
    {
        if self.stage.is_some() {
            None
        } else if self.repo_defs.len() == 0 {
            Some(Err(CycleError::ConfigurationEmpty))
        } else if self.failures.len() == 0 {
            Some(Ok(()))
        } else {
            let mut failures: Vec<Failure> = Vec::new();
            let mut i: usize = 0;
            while i < self.failures.len()
                invariant
                    i <= self.failures.len(),
                    failures.deep_view() == self.failures.deep_view().take(i as int),
                decreases self.failures.len() - i,
            {
                let ghost before = failures.deep_view();
                let failure = self.failures[i].clone();
                failures.push(failure);
                assert(failures.deep_view() == before.push(failure@));
                assert(self.failures.deep_view().take(i + 1) == before.push(
                    self.failures[i as int]@,
                ));
                i += 1;
            }
            assert(self.failures.deep_view().take(i as int) == self.failures.deep_view());
            Some(Err(CycleError::Failed(failures)))
        }
    }

    /// Takes the outcome of the step that was due, and goes on to the next
    /// one; returns with the cycle what there is to report.
    pub fn step(self, response: Response, verbose: bool) -> (r: (Cycle, Vec<Report>))
        ensures
            (r.0@, r.1.deep_view()) == cycle_step(self@, response@, verbose),
            coherent(self@),
            coherent(r.0@),
    {
        proof {
            use_type_invariant(&self);
            assert(self@.repo_defs.len() == self.repo_defs.len());
            lemma_step_is_coherent(self@, response@, verbose);
        }
        let Cycle { repo_defs, position, stage, failures } = self;
        match stage {
            Some(stage) => {
                assert(repo_defs.deep_view()[position as int] == repo_defs[position as int]@);
                let (flow, mut said) = process_single(
                    &repo_defs[position],
                    stage,
                    response,
                    verbose,
                );
                let ghost first = said.deep_view();
                match flow {
                    Flow::Next(stage) => (
                        Cycle { repo_defs, position, stage: Some(stage), failures },
                        said,
                    ),
                    Flow::Succeeded => {
                        if verbose {
                            said.push(Report::Raw("\n".to_owned()));
                        }
                        assert(said.deep_view() == first + success_reports(verbose));
                        let cycle = Cycle::begin_repo(
                            repo_defs,
                            position + 1,
                            failures,
                            verbose,
                            &mut said,
                        );
                        (cycle, said)
                    },
                    Flow::Failed(error) => {
                        let failure = Failure {
                            repo_path: repo_defs[position].repo_path.clone(),
                            error,
                        };
                        let mut text = joined("Repositorio omitido ", failure.repo_path.as_str());
                        text.append(" debido a un error: ");
                        text.append(failure.error.detail.as_str());
                        said.push(Report::Line(text));
                        assert(said.deep_view() == first + failure_reports(failure@));
                        let ghost recorded = failures.deep_view();
                        let mut failures = failures;
                        failures.push(failure);
                        assert(failures.deep_view() == recorded.push(failure@));
                        let cycle = Cycle::begin_repo(
                            repo_defs,
                            position + 1,
                            failures,
                            verbose,
                            &mut said,
                        );
                        (cycle, said)
                    },
                }
            },
            None => {
                let reports: Vec<Report> = Vec::new();
                assert(reports.deep_view() == quiet());
                (Cycle { repo_defs, position, stage: None, failures }, reports)
            },
        }
    }
}

/// Runs synchronisation cycles, reporting through a logger.
pub struct RepoProcessor<'a> {
    logger: &'a Logger,
    verbose: bool,
}

impl<'a> RepoProcessor<'a> {
    /// A processor that reports through `logger`, progress included where
    /// `verbose` is set.
    pub fn new(logger: &'a Logger, verbose: bool) -> (processor: Self)
        ensures
            processor.verbose() == verbose,
    {
        RepoProcessor { logger, verbose }
    }

    /// Whether progress is reported.
    pub closed spec fn verbose(&self) -> bool {
        self.verbose
    }

    /// Begins a cycle over `repo_defs`. Returns the cycle, which is over at
    /// once where there is no repository, and the records of what there is
    /// to report.
    pub fn process_all(&self, repo_defs: Vec<RepoDefinition>) -> (r: (Cycle, Vec<LogRecord>))
        ensures
            r.0@ == cycle_start(repo_defs.deep_view(), self.verbose()).0,
            records_all(r.1@, cycle_start(repo_defs.deep_view(), self.verbose()).1),
            coherent(r.0@),
            repo_defs.len() == 0 ==> cycle_result(r.0@) == Some(
                Err::<(), CycleErrorView>(CycleErrorView::ConfigurationEmpty),
            ),
    {
        let (cycle, reports) = Cycle::begin(repo_defs, self.verbose);
        (cycle, self.logger.record_all(&reports))
    }

    /// Takes the driver's `response` to the request that `cycle` is waiting
    /// on. Returns the cycle as it goes on, and the records of what there is
    /// to report.
    pub fn advance(&self, cycle: Cycle, response: Response) -> (r: (Cycle, Vec<LogRecord>))
        ensures
            r.0@ == cycle_step(cycle@, response@, self.verbose()).0,
            records_all(r.1@, cycle_step(cycle@, response@, self.verbose()).1),
            coherent(cycle@),
            coherent(r.0@),
    {
        let (cycle, reports) = cycle.step(response, self.verbose);
        (cycle, self.logger.record_all(&reports))
    }
}

} // verus!
