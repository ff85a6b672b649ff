use git_sync::driver::{Command, Entry, EntryKind, Exit, Ran, Request, Response};
use git_sync::error::{ErrorKind, SyncError};
use git_sync::logger::Report;
use git_sync::publish::{Copier, Publisher};

fn asks_exists(path: &str) -> Option<Request> {
    Some(Request::Exists { path: path.to_string() })
}

fn asks_list(path: &str) -> Option<Request> {
    Some(Request::List { path: path.to_string() })
}

fn found(name: &str, kind: EntryKind) -> Entry {
    Entry::Found { name: name.to_string(), kind }
}

fn exit(success: bool, code: Option<i32>) -> Response {
    Response::Ran(Ran::Exited(Exit {
        success,
        code,
        stdout: String::new(),
        stderr: String::new(),
    }))
}

fn go(publisher: Publisher, response: Response) -> Publisher {
    let (next, reports) = publisher.step(response, false);
    assert_eq!(reports, vec![]);
    next.unwrap()
}

fn fail(publisher: Publisher, response: Response) -> SyncError {
    let (next, reports) = publisher.step(response, true);
    assert_eq!(reports, vec![]);
    next.unwrap_err()
}

fn io_failed(detail: &str) -> SyncError {
    SyncError { kind: ErrorKind::PublishIOFailed, detail: detail.to_string() }
}

fn built() -> Publisher {
    let (publisher, _) = Publisher::start("/b".to_string(), "/pub".to_string(), false);
    go(publisher, exit(true, Some(0)))
}

fn at_creating(entries: Vec<Entry>) -> Publisher {
    let publisher = go(built(), Response::Entries(entries));
    go(publisher, Response::Exists(false))
}

fn copying(entries: Vec<Entry>) -> Publisher {
    go(at_creating(entries), Response::Done)
}

fn mixed() -> Vec<Entry> {
    vec![
        found("d", EntryKind::Directory),
        found("f", EntryKind::File),
        found("l", EntryKind::Symlink),
    ]
}

#[test]
fn publishing_begins_with_the_build() {
    let (publisher, reports) = Publisher::start("/b".to_string(), "/pub".to_string(), true);
    assert_eq!(reports, vec![Report::Line("Ejecutando `npm run build`...".to_string())]);
    assert!(!publisher.is_published());
    assert_eq!(
        publisher.request(),
        Some(Request::Run(Command {
            program: "npm".to_string(),
            args: vec!["run".to_string(), "build".to_string()],
            dir: "/b".to_string(),
            capture: false,
        }))
    );
    let (_, quiet) = Publisher::start("/b".to_string(), "/pub".to_string(), false);
    assert_eq!(quiet, vec![]);
}

#[test]
fn failed_build_carries_the_exit_status() {
    let (publisher, _) = Publisher::start("/b".to_string(), "/pub".to_string(), false);
    assert_eq!(
        fail(publisher, exit(false, Some(1))),
        SyncError {
            kind: ErrorKind::BuildFailed { status: Some(1) },
            detail: "`npm run build` finalizó con estado 1".to_string(),
        }
    );
    let (publisher, _) = Publisher::start("/b".to_string(), "/pub".to_string(), false);
    assert_eq!(
        fail(publisher, exit(false, None)),
        SyncError {
            kind: ErrorKind::BuildFailed { status: None },
            detail: "`npm run build` finalizó con estado -1".to_string(),
        }
    );
    let (publisher, _) = Publisher::start("/b".to_string(), "/pub".to_string(), false);
    assert_eq!(
        fail(publisher, Response::Ran(Ran::NotStarted("No such file".to_string()))),
        SyncError {
            kind: ErrorKind::BuildFailed { status: None },
            detail: "No se pudo ejecutar `npm run build`: No such file".to_string(),
        }
    );
}

#[test]
fn build_is_followed_by_the_listing_of_its_output() {
    assert_eq!(built().request(), asks_list("/b/dist"));
}

#[test]
fn missing_output_directory_is_a_failure() {
    assert_eq!(
        fail(built(), Response::NotDirectory),
        SyncError {
            kind: ErrorKind::ArtifactMissing,
            detail: "No se encontró el directorio de salida en /b/dist".to_string(),
        }
    );
}

#[test]
fn output_that_cannot_be_listed_is_a_failure() {
    assert_eq!(
        fail(built(), Response::Failed("denied".to_string())),
        io_failed("No se pudo leer el directorio /b/dist: denied")
    );
}

#[test]
fn word_that_something_is_there_does_not_stand_for_a_listing() {
    let publisher = go(built(), Response::Exists(true));
    assert_eq!(publisher.request(), asks_list("/b/dist"));
}

#[test]
fn destination_that_exists_is_removed_first() {
    let publisher = go(built(), Response::Entries(vec![]));
    assert_eq!(publisher.request(), asks_exists("/pub"));
    let publisher = go(publisher, Response::Exists(true));
    assert_eq!(publisher.request(), Some(Request::RemoveTree { path: "/pub".to_string() }));
    let publisher = go(publisher, Response::Done);
    assert_eq!(publisher.request(), Some(Request::CreateTree { path: "/pub".to_string() }));
}

#[test]
fn destination_that_is_missing_is_only_created() {
    assert_eq!(
        at_creating(vec![]).request(),
        Some(Request::CreateTree { path: "/pub".to_string() })
    );
}

#[test]
fn clearing_and_creating_failures_name_the_destination() {
    let publisher = go(built(), Response::Entries(mixed()));
    let publisher = go(publisher, Response::Exists(true));
    assert_eq!(
        fail(publisher, Response::Failed("denied".to_string())),
        io_failed("No se pudo limpiar el destino /pub: denied")
    );
    assert_eq!(
        fail(at_creating(mixed()), Response::Failed("denied".to_string())),
        io_failed("No se pudo crear el directorio destino /pub: denied")
    );
}

#[test]
fn copy_goes_depth_first_and_reports_at_the_end() {
    let publisher = copying(vec![
        found("assets", EntryKind::Directory),
        found("sock", EntryKind::Other),
        found("index.html", EntryKind::File),
    ]);
    assert_eq!(
        publisher.request(),
        Some(Request::CreateTree { path: "/pub/assets".to_string() })
    );
    let publisher = go(publisher, Response::Done);
    assert_eq!(publisher.request(), asks_list("/b/dist/assets"));
    let publisher = go(publisher, Response::Entries(vec![found("app.js", EntryKind::File)]));
    assert_eq!(
        publisher.request(),
        Some(Request::CopyFile {
            from: "/b/dist/assets/app.js".to_string(),
            to: "/pub/assets/app.js".to_string(),
        })
    );
    let publisher = go(publisher, Response::Done);
    assert_eq!(
        publisher.request(),
        Some(Request::CopyFile {
            from: "/b/dist/index.html".to_string(),
            to: "/pub/index.html".to_string(),
        })
    );
    let (next, reports) = publisher.step(Response::Done, true);
    let publisher = next.unwrap();
    assert!(publisher.is_published());
    assert_eq!(publisher.request(), None);
    assert_eq!(reports, vec![Report::Line("Archivos desplegados en /pub".to_string())]);
}

#[test]
fn symbolic_link_is_made_anew_with_its_target() {
    let publisher = copying(vec![found("current", EntryKind::Symlink)]);
    assert_eq!(publisher.request(), Some(Request::ReadLink { path: "/b/dist/current".to_string() }));
    let publisher = go(publisher, Response::Target("../v2".to_string()));
    assert_eq!(
        publisher.request(),
        Some(Request::Link { target: "../v2".to_string(), at: "/pub/current".to_string() })
    );
    assert!(go(publisher, Response::Done).is_published());
}

#[test]
fn output_that_is_no_directory_fails_before_the_destination_is_touched() {
    let (publisher, _) = Publisher::start("/b".to_string(), "/pub".to_string(), true);
    let mut asked = vec![publisher.request().unwrap()];
    let (publisher, _) = publisher.step(exit(true, Some(0)), true);
    let publisher = publisher.unwrap();
    asked.push(publisher.request().unwrap());
    let (result, reports) = publisher.step(Response::NotDirectory, true);
    assert_eq!(reports, vec![]);
    assert_eq!(result.unwrap_err().kind, ErrorKind::ArtifactMissing);
    assert_eq!(asked.len(), 2);
    assert!(matches!(asked[0], Request::Run(_)));
    assert_eq!(asked[1], Request::List { path: "/b/dist".to_string() });
}

#[test]
fn empty_output_directory_publishes_nothing() {
    let (result, reports) = at_creating(vec![]).step(Response::Done, true);
    assert!(result.unwrap().is_published());
    assert_eq!(reports, vec![Report::Line("Archivos desplegados en /pub".to_string())]);
    assert!(copying(vec![found("sock", EntryKind::Other)]).is_published());
}

#[test]
fn subdirectory_that_is_none_after_all_is_a_failure() {
    let publisher = go(copying(mixed()), Response::Done);
    assert_eq!(publisher.request(), asks_list("/b/dist/d"));
    assert_eq!(
        fail(publisher, Response::NotDirectory),
        io_failed("No se pudo leer el directorio /b/dist/d: no es un directorio")
    );
}

#[test]
fn copy_failures_name_the_failing_path() {
    assert_eq!(
        fail(copying(mixed()), Response::Failed("full".to_string())),
        io_failed("No se pudo crear el directorio /pub/d: full")
    );
    let listed = || go(go(copying(mixed()), Response::Done), Response::Entries(vec![]));
    assert_eq!(
        fail(go(copying(mixed()), Response::Done), Response::Failed("denied".to_string())),
        io_failed("No se pudo leer el directorio /b/dist/d: denied")
    );
    assert_eq!(
        fail(listed(), Response::Failed("full".to_string())),
        io_failed("No se pudo copiar /b/dist/f a /pub/f: full")
    );
    assert_eq!(
        fail(go(listed(), Response::Done), Response::Failed("gone".to_string())),
        io_failed("No se pudo leer el enlace simbólico /b/dist/l: gone")
    );
    let linking = go(go(listed(), Response::Done), Response::Target("t".to_string()));
    assert_eq!(
        fail(linking, Response::Failed("exists".to_string())),
        io_failed("No se pudo recrear el enlace simbólico /pub/l: exists")
    );
}

#[test]
fn entry_that_cannot_be_read_ends_the_copy_when_its_turn_comes() {
    let publisher = copying(vec![
        found("f", EntryKind::File),
        Entry::Unreadable { why: "io".to_string() },
    ]);
    assert_eq!(
        publisher.request(),
        Some(Request::CopyFile { from: "/b/dist/f".to_string(), to: "/pub/f".to_string() })
    );
    assert_eq!(
        fail(publisher, Response::Done),
        io_failed("No se pudo procesar una entrada en /b/dist: io")
    );
}

#[test]
fn entry_of_unknown_kind_is_named_in_quotes() {
    assert_eq!(
        fail(
            at_creating(vec![Entry::Untyped { name: "a\"b".to_string(), why: "io".to_string() }]),
            Response::Done,
        ),
        io_failed("No se pudo determinar el tipo de \"/b/dist/a\\\"b\": io")
    );
}

#[test]
fn entry_whose_name_is_no_path_component_is_refused() {
    for name in ["/x", "a/b", "..", ".", "", "../x", "x/"] {
        for kind in [EntryKind::File, EntryKind::Directory, EntryKind::Symlink, EntryKind::Other] {
            assert_eq!(
                fail(at_creating(vec![found(name, kind)]), Response::Done),
                io_failed(&format!("Nombre de entrada no válido en /b/dist: {}", name)),
                "{:?}",
                name
            );
        }
        assert_eq!(
            fail(
                at_creating(vec![Entry::Untyped { name: name.to_string(), why: "io".to_string() }]),
                Response::Done,
            ),
            io_failed(&format!("Nombre de entrada no válido en /b/dist: {}", name))
        );
    }
    let publisher = copying(vec![found("ok", EntryKind::File), found("..", EntryKind::File)]);
    assert_eq!(
        fail(publisher, Response::Done),
        io_failed("Nombre de entrada no válido en /b/dist: ..")
    );
    let nested = go(copying(vec![found("d", EntryKind::Directory)]), Response::Done);
    assert_eq!(
        fail(nested, Response::Entries(vec![found("/etc", EntryKind::Directory)])),
        io_failed("Nombre de entrada no válido en /b/dist/d: /etc")
    );
}

#[test]
fn names_with_dots_inside_are_taken() {
    let publisher = copying(vec![found("...", EntryKind::File), found(".a", EntryKind::File)]);
    assert_eq!(
        publisher.request(),
        Some(Request::CopyFile { from: "/b/dist/...".to_string(), to: "/pub/...".to_string() })
    );
    let publisher = go(publisher, Response::Done);
    assert_eq!(
        publisher.request(),
        Some(Request::CopyFile { from: "/b/dist/.a".to_string(), to: "/pub/.a".to_string() })
    );
}

#[test]
fn response_that_does_not_answer_is_passed_over() {
    let publisher = go(copying(mixed()), Response::Exists(true));
    assert_eq!(publisher.request(), Some(Request::CreateTree { path: "/pub/d".to_string() }));
    let (publisher, _) = Publisher::start("/b".to_string(), "/pub".to_string(), false);
    let publisher = go(publisher, Response::Done);
    assert!(matches!(publisher.request(), Some(Request::Run(_))));
}

#[test]
fn copier_alone_copies_a_listed_directory() {
    let copier = Copier::begin(
        "/s".to_string(),
        "/d".to_string(),
        vec![found("x", EntryKind::File)],
    )
    .unwrap();
    assert!(!copier.is_finished());
    assert_eq!(
        copier.request(),
        Some(Request::CopyFile { from: "/s/x".to_string(), to: "/d/x".to_string() })
    );
    let copier = copier.step(Response::Done).unwrap();
    assert!(copier.is_finished());
    assert_eq!(copier.request(), None);
    assert!(Copier::begin("/s".to_string(), "/d".to_string(), vec![]).unwrap().is_finished());
    assert!(Copier::begin(
        "/s".to_string(),
        "/d".to_string(),
        vec![Entry::Unreadable { why: "io".to_string() }]
    )
    .is_err());
}
