//! What the daemon says and decides around its cycles: the banner at its
//! start, and after each cycle whether to end, to stop on the failure, or to
//! wait for the next one.

use crate::driver::result_view;
use crate::error::{cycle_message, CycleError, CycleErrorView};
use crate::logger::{Report, ReportView};
use crate::settings::Settings;
use crate::text::{decimal, decimal_of, joined};
use vstd::prelude::*;

verus! {

/// What the daemon does once a cycle is over.
#[derive(Debug, Clone, Copy, PartialEq, Eq)]
pub enum After {
    /// End: the daemon was to run one cycle.
    Finish,
    /// End with a failure: a repository failed and the daemon is to stop on
    /// errors.
    Stop,
    /// Wait for so many seconds, read the settings again, and run the next
    /// cycle.
    Wait { seconds: u64 },
}

/// How a truth value is written.
pub open spec fn truth(b: bool) -> Seq<char> {
    if b {
        "true"@
    } else {
        "false"@
    }
}

/// The lines that the daemon begins with, where progress is reported.
pub open spec fn banner_reports(settings: Settings) -> Seq<ReportView> {
    if settings.verbose {
        seq![
            ReportView::Line("================================================="@),
            ReportView::Line("Git Sync - Daemon de sincronización de repositorios"@),
            ReportView::Line("================================================="@),
            ReportView::Line(
                "Intervalo de sincronización: "@ + decimal(settings.sync_interval as nat)
                    + " segundos"@,
            ),
            ReportView::Line("Detener ante error: "@ + truth(settings.stop_on_error)),
            ReportView::Line(
                "Tiempo de espera para Git: "@ + decimal(settings.git_timeout as nat)
                    + " segundos"@,
            ),
            ReportView::Line("Reintentos máximos: "@ + decimal(settings.max_retries as nat)),
            ReportView::Line("Modo continuo: "@ + truth(settings.continuous_mode) + "\n"@),
        ]
    } else {
        Seq::empty()
    }
}

/// Whether the daemon stops after a cycle with this result: it does where
/// the cycle failed and the daemon is to stop on errors.
pub open spec fn stops(settings: Settings, result: Result<(), CycleErrorView>) -> bool {
    result is Err && settings.stop_on_error
}

/// What the daemon does after a cycle with this result.
pub open spec fn after_cycle(settings: Settings, result: Result<(), CycleErrorView>) -> After {
    if stops(settings, result) {
        After::Stop
    } else if settings.continuous_mode {
        After::Wait { seconds: settings.sync_interval }
    } else {
        After::Finish
    }
}

/// What is said of a cycle's result: of a success a line, where progress is
/// reported; of a failure its message as an error, and a second error where
/// the daemon stops for it.
pub open spec fn result_reports(settings: Settings, result: Result<(), CycleErrorView>) -> Seq<
    ReportView,
> {
    match result {
        Ok(_) => if settings.verbose {
            seq![ReportView::Line("\nCiclo completado correctamente."@)]
        } else {
            Seq::empty()
        },
        Err(error) => if settings.stop_on_error {
            seq![
                ReportView::Error(cycle_message(error)),
                ReportView::Error("Finalización por error (stop_on_error=true)"@),
            ]
        } else {
            seq![ReportView::Error(cycle_message(error))]
        },
    }
}

/// What is said before the daemon waits, where progress is reported.
pub open spec fn wait_reports(settings: Settings, after: After) -> Seq<ReportView> {
    match after {
        After::Wait { seconds } if settings.verbose => seq![
            ReportView::Line(
                "\nEn espera de "@ + decimal(seconds as nat)
                    + " segundos antes del siguiente ciclo...\n"@,
            ),
        ],
        _ => Seq::empty(),
    }
}

fn truth_text(b: bool) -> (out: &'static str)
    ensures
        out@ == truth(b),
{
    if b {
        "true"
    } else {
        "false"
    }
}

fn measured(head: &str, amount: u64, tail: &str) -> (out: String)
    ensures
        out@ == head@ + decimal(amount as nat) + tail@,
{
    let mut out = joined(head, decimal_of(amount).as_str());
    out.append(tail);
    out
}

/// The reports that the daemon begins with.
pub fn banner(settings: &Settings) -> (reports: Vec<Report>)
    ensures
        reports.deep_view() == banner_reports(*settings),
{
    let mut reports: Vec<Report> = Vec::new();
    if settings.verbose {
        let bar = "=================================================";
        reports.push(Report::Line(bar.to_owned()));
        reports.push(
            Report::Line("Git Sync - Daemon de sincronización de repositorios".to_owned()),
        );
        reports.push(Report::Line(bar.to_owned()));
        reports.push(
            Report::Line(
                measured("Intervalo de sincronización: ", settings.sync_interval, " segundos"),
            ),
        );
        reports.push(
            Report::Line(joined("Detener ante error: ", truth_text(settings.stop_on_error))),
        );
        reports.push(
            Report::Line(
                measured("Tiempo de espera para Git: ", settings.git_timeout, " segundos"),
            ),
        );
        reports.push(
            Report::Line(
                joined("Reintentos máximos: ", decimal_of(settings.max_retries as u64).as_str()),
            ),
        );
        let mut mode = joined("Modo continuo: ", truth_text(settings.continuous_mode));
        mode.append("\n");
        reports.push(Report::Line(mode));
    }
    assert(reports.deep_view() == banner_reports(*settings));
    reports
}

/// Decides what follows a cycle that ended with `result`, and says what
/// there is to report: first of the result, then of the wait, if any.
pub fn conclude(settings: &Settings, result: &Result<(), CycleError>) -> (r: (Vec<Report>, After))
    ensures
        r.1 == after_cycle(*settings, result_view(*result)),
        r.0.deep_view() == result_reports(*settings, result_view(*result)) + wait_reports(
            *settings,
            r.1,
        ),
{
    let mut reports: Vec<Report> = Vec::new();
    let mut failed = false;
    match result {
        Ok(_) => {
            if settings.verbose {
                reports.push(Report::Line("\nCiclo completado correctamente.".to_owned()));
            }
        },
        Err(error) => {
            failed = true;
            reports.push(Report::Error(error.message()));
            if settings.stop_on_error {
                reports.push(
                    Report::Error("Finalización por error (stop_on_error=true)".to_owned()),
                );
            }
        },
    }
    assert(reports.deep_view() == result_reports(*settings, result_view(*result)));
    let ghost said = reports.deep_view();
    let after = if failed && settings.stop_on_error {
        After::Stop
    } else if settings.continuous_mode {
        After::Wait { seconds: settings.sync_interval }
    } else {
        After::Finish
    };
    if settings.verbose && settings.continuous_mode && !(failed && settings.stop_on_error) {
        reports.push(
            Report::Line(
                measured(
                    "\nEn espera de ",
                    settings.sync_interval,
                    " segundos antes del siguiente ciclo...\n",
                ),
            ),
        );
    }
    assert(reports.deep_view() == said + wait_reports(*settings, after));
    (reports, after)
}

} // verus!
