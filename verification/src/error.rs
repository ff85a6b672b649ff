//! Why a repository, or a whole cycle, failed.

use crate::text::{decimal, decimal_of};
use vstd::prelude::*;

verus! {

/// The kinds of failure of a repository.
#[derive(Debug, Clone, Copy, PartialEq, Eq)]
pub enum ErrorKind {
    /// The path is missing, or holds no working tree.
    PathInvalid,
    /// Fetching from the remote failed.
    FetchFailed,
    /// The number of commits behind could not be determined.
    StatusCheckFailed,
    /// Pulling from the remote failed.
    PullFailed,
    /// The build did not succeed; `status` is its exit status, where it
    /// ran and ended by itself.
    BuildFailed { status: Option<i32> },
    /// The build left no output directory.
    ArtifactMissing,
    /// The destination could not be cleared, created or filled.
    PublishIOFailed,
}

/// A failure of one repository.
#[derive(Debug, PartialEq, Eq)]
pub struct SyncError {
    pub kind: ErrorKind,
    /// What went wrong, for the operator.
    pub detail: String,
}

/// What a `SyncError` holds, as sequences of characters.
pub struct SyncErrorView {
    pub kind: ErrorKind,
    pub detail: Seq<char>,
}

impl View for SyncError {
    type V = SyncErrorView;

    open spec fn view(&self) -> SyncErrorView {
        SyncErrorView { kind: self.kind, detail: self.detail@ }
    }
}

impl Clone for SyncError {
    fn clone(&self) -> (out: Self)
        ensures
            out@ == self@,
    {
        SyncError { kind: self.kind, detail: self.detail.clone() }
    }
}

/// A repository that failed, with the reason.
#[derive(Debug, PartialEq, Eq)]
pub struct Failure {
    pub repo_path: String,
    pub error: SyncError,
}

/// What a `Failure` holds, as sequences of characters.
pub struct FailureView {
    pub repo_path: Seq<char>,
    pub error: SyncErrorView,
}

impl View for Failure {
    type V = FailureView;

    open spec fn view(&self) -> FailureView {
        FailureView { repo_path: self.repo_path@, error: self.error@ }
    }
}

impl DeepView for Failure {
    type V = FailureView;

    open spec fn deep_view(&self) -> FailureView {
        self@
    }
}

impl Clone for Failure {
    fn clone(&self) -> (out: Self)
        ensures
            out@ == self@,
    {
        Failure { repo_path: self.repo_path.clone(), error: self.error.clone() }
    }
}

/// Why a cycle failed.
#[derive(Debug, PartialEq, Eq)]
pub enum CycleError {
    /// There was no repository to process.
    ConfigurationEmpty,
    /// These repositories failed, in the order in which they were processed.
    Failed(Vec<Failure>),
}

/// What a `CycleError` holds, as sequences of characters.
pub enum CycleErrorView {
    ConfigurationEmpty,
    Failed(Seq<FailureView>),
}

impl View for CycleError {
    type V = CycleErrorView;

    open spec fn view(&self) -> CycleErrorView {
        match self {
            CycleError::ConfigurationEmpty => CycleErrorView::ConfigurationEmpty,
            CycleError::Failed(failures) => CycleErrorView::Failed(failures.deep_view()),
        }
    }
}

/// The line that names one failed repository.
pub open spec fn failure_line(failure: FailureView) -> Seq<char> {
    "- "@ + failure.repo_path + " => "@ + failure.error.detail
}

/// The lines that name the failed repositories, with a line feed between
/// each two.
pub open spec fn failure_lines(failures: Seq<FailureView>) -> Seq<char>
    decreases failures.len(),
{
    if failures.len() == 0 {
        Seq::empty()
    } else if failures.len() == 1 {
        failure_line(failures.last())
    } else {
        failure_lines(failures.drop_last()) + "\n"@ + failure_line(failures.last())
    }
}

/// What a failed cycle tells the operator.
pub open spec fn cycle_message(error: CycleErrorView) -> Seq<char> {
    match error {
        CycleErrorView::ConfigurationEmpty => "No hay repositorios configurados"@,
        CycleErrorView::Failed(failures) => decimal(failures.len())
            + " repositorios presentaron errores durante la sincronización:\n"@ + failure_lines(
            failures,
        ),
    }
}

impl CycleError {
    /// Tells whether the cycle failed for want of repositories.
    pub fn is_empty_configuration(&self) -> (b: bool)
        ensures
            b == (self is ConfigurationEmpty),
    {
        matches!(self, CycleError::ConfigurationEmpty)
    }

    /// Writes the failure out for the operator: one heading, then one line
    /// for each repository that failed.
    pub fn message(&self) -> (out: String)
        ensures
            out@ == cycle_message(self@),
    {
        match self {
            CycleError::ConfigurationEmpty => "No hay repositorios configurados".to_owned(),
            CycleError::Failed(failures) => {
                let mut lines = String::new();
                let mut i: usize = 0;
                assert(failures.deep_view().take(0) == Seq::<FailureView>::empty());
                while i < failures.len()
                    invariant
                        i <= failures.len(),
                        lines@ == failure_lines(failures.deep_view().take(i as int)),
                    decreases failures.len() - i,
                {
                    let ghost seen = failures.deep_view().take(i + 1);
                    assert(seen.drop_last() == failures.deep_view().take(i as int));
                    assert(seen.last() == failures[i as int]@);
                    if i > 0 {
                        lines.append("\n");
                    }
                    lines.append("- ");
                    lines.append(failures[i].repo_path.as_str());
                    lines.append(" => ");
                    lines.append(failures[i].error.detail.as_str());
                    assert(lines@ == failure_lines(seen));
                    i += 1;
                }
                assert(failures.deep_view().take(failures.len() as int) == failures.deep_view());
                let mut out = decimal_of(failures.len() as u64);
                out.append(" repositorios presentaron errores durante la sincronización:\n");
                out.append(lines.as_str());
                out
            },
        }
    }
}

} // verus!
