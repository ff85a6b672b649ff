use git_sync::daemon::{banner, conclude, After};
use git_sync::error::{CycleError, ErrorKind, Failure, SyncError};
use git_sync::logger::Report;
use git_sync::settings::Settings;

fn line(text: &str) -> Report {
    Report::Line(text.to_string())
}

fn failed() -> Result<(), CycleError> {
    Err(CycleError::Failed(vec![Failure {
        repo_path: "/a".to_string(),
        error: SyncError { kind: ErrorKind::FetchFailed, detail: "x".to_string() },
    }]))
}

#[test]
fn default_settings_are_the_documented_ones() {
    assert_eq!(
        Settings::default(),
        Settings {
            sync_interval: 60,
            stop_on_error: true,
            git_timeout: 300,
            max_retries: 0,
            verbose: true,
            continuous_mode: true,
        }
    );
}

#[test]
fn load_or_create_falls_back_to_defaults() {
    let custom = Settings { sync_interval: 5, verbose: false, ..Settings::default() };
    assert_eq!(Settings::load_or_create(Some(custom)), (custom, false));
    assert_eq!(Settings::load_or_create(None), (Settings::default(), true));
}

#[test]
fn reload_keeps_settings_that_cannot_be_read() {
    let mut settings = Settings { sync_interval: 5, ..Settings::default() };
    assert!(!settings.reload(None));
    assert_eq!(settings.sync_interval, 5);
    let quiet = Settings { verbose: false, ..Settings::default() };
    assert!(!settings.reload(Some(quiet)));
    assert_eq!(settings, quiet);
    assert!(!settings.reload(Some(Settings::default())));
    assert_eq!(settings, Settings::default());
    assert!(settings.reload(Some(Settings { git_timeout: 1, ..Settings::default() })));
    assert_eq!(settings.git_timeout, 1);
}

#[test]
fn banner_lists_the_settings() {
    let settings = Settings {
        sync_interval: 90,
        stop_on_error: false,
        git_timeout: 300,
        max_retries: 2,
        verbose: true,
        continuous_mode: true,
    };
    assert_eq!(
        banner(&settings),
        vec![
            line("================================================="),
            line("Git Sync - Daemon de sincronización de repositorios"),
            line("================================================="),
            line("Intervalo de sincronización: 90 segundos"),
            line("Detener ante error: false"),
            line("Tiempo de espera para Git: 300 segundos"),
            line("Reintentos máximos: 2"),
            line("Modo continuo: true\n"),
        ]
    );
    assert_eq!(banner(&Settings { verbose: false, ..settings }), vec![]);
}

#[test]
fn success_is_followed_by_a_wait_in_continuous_mode() {
    let settings = Settings::default();
    assert_eq!(
        conclude(&settings, &Ok(())),
        (
            vec![
                line("\nCiclo completado correctamente."),
                line("\nEn espera de 60 segundos antes del siguiente ciclo...\n"),
            ],
            After::Wait { seconds: 60 },
        )
    );
    let quiet = Settings { verbose: false, ..settings };
    assert_eq!(conclude(&quiet, &Ok(())), (vec![], After::Wait { seconds: 60 }));
}

#[test]
fn single_cycle_ends_the_daemon() {
    let settings = Settings { continuous_mode: false, ..Settings::default() };
    assert_eq!(
        conclude(&settings, &Ok(())),
        (vec![line("\nCiclo completado correctamente.")], After::Finish)
    );
}

#[test]
fn failure_stops_the_daemon_only_where_it_is_to_stop_on_errors() {
    let message = "1 repositorios presentaron errores durante la sincronización:\n- /a => x";
    let settings = Settings::default();
    assert_eq!(
        conclude(&settings, &failed()),
        (
            vec![
                Report::Error(message.to_string()),
                Report::Error("Finalización por error (stop_on_error=true)".to_string()),
            ],
            After::Stop,
        )
    );
    let lenient = Settings { stop_on_error: false, verbose: false, ..settings };
    assert_eq!(
        conclude(&lenient, &failed()),
        (vec![Report::Error(message.to_string())], After::Wait { seconds: 60 })
    );
    let once = Settings { stop_on_error: false, continuous_mode: false, ..settings };
    assert_eq!(
        conclude(&once, &Err(CycleError::ConfigurationEmpty)),
        (vec![Report::Error("No hay repositorios configurados".to_string())], After::Finish)
    );
}
