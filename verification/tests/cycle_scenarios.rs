use git_sync::config::RepoDefinition;
use git_sync::driver::{Entry, EntryKind, Exit, Ran, Request, Response};
use git_sync::error::{CycleError, ErrorKind, Failure, SyncError};
use git_sync::logger::{Logger, Report};
use git_sync::processor::{Cycle, RepoProcessor};
use std::collections::BTreeMap;

#[derive(Clone, Debug, PartialEq, Eq)]
enum Node {
    Dir,
    File(String),
    Link(String),
}

#[derive(Clone, Debug)]
struct Remote {
    fetch_error: Option<String>,
    head: Option<String>,
    has_main: bool,
    behind: usize,
    pull_error: Option<String>,
    build_status: i32,
    built: Vec<(String, Node)>,
}

impl Remote {
    fn up_to_date() -> Remote {
        Remote {
            fetch_error: None,
            head: Some("main".to_string()),
            has_main: true,
            behind: 0,
            pull_error: None,
            build_status: 0,
            built: vec![],
        }
    }
}

struct World {
    nodes: BTreeMap<String, Node>,
    remotes: BTreeMap<String, Remote>,
    done: Vec<Request>,
}

fn exited(success: bool, code: i32, stdout: &str, stderr: &str) -> Response {
    Response::Ran(Ran::Exited(Exit {
        success,
        code: Some(code),
        stdout: stdout.to_string(),
        stderr: stderr.to_string(),
    }))
}

impl World {
    fn new() -> World {
        World { nodes: BTreeMap::new(), remotes: BTreeMap::new(), done: vec![] }
    }

    fn add_repo(&mut self, path: &str, remote: Remote) {
        self.nodes.insert(path.to_string(), Node::Dir);
        self.nodes.insert(format!("{}/.git", path), Node::Dir);
        self.remotes.insert(path.to_string(), remote);
    }

    fn under(&self, path: &str) -> Vec<String> {
        let prefix = format!("{}/", path);
        self.nodes.keys().filter(|k| k.starts_with(&prefix)).cloned().collect()
    }

    fn run_git(&mut self, dir: &str, args: &[String]) -> Response {
        let remote = match self.remotes.get_mut(dir) {
            Some(remote) => remote,
            None => return Response::Ran(Ran::NotStarted("no such directory".to_string())),
        };
        match args[0].as_str() {
            "fetch" => match &remote.fetch_error {
                Some(why) => exited(false, 128, "", why),
                None => exited(true, 0, "", ""),
            },
            "symbolic-ref" => match &remote.head {
                Some(branch) => {
                    exited(true, 0, &format!("refs/remotes/origin/{}\n", branch), "")
                }
                None => exited(false, 128, "", "fatal: ref is not a symbolic ref\n"),
            },
            "rev-parse" => {
                if remote.has_main {
                    exited(true, 0, "0123abc\n", "")
                } else {
                    exited(false, 128, "", "fatal: Needed a single revision\n")
                }
            }
            "rev-list" => exited(true, 0, &format!("{}\n", remote.behind), ""),
            "pull" => match &remote.pull_error {
                Some(why) => exited(false, 1, "", why),
                None => {
                    remote.behind = 0;
                    exited(true, 0, " Fast-forward\n 1 file changed\n\n", "")
                }
            },
            other => panic!("unexpected git {}", other),
        }
    }

    fn run_build(&mut self, dir: &str) -> Response {
        let remote = self.remotes.get(dir).unwrap().clone();
        if remote.build_status != 0 {
            return exited(false, remote.build_status, "", "");
        }
        for (path, node) in remote.built {
            self.nodes.insert(format!("{}/{}", dir, path), node);
        }
        exited(true, 0, "", "")
    }

    fn list(&self, path: &str) -> Response {
        if self.nodes.get(path) != Some(&Node::Dir) {
            return Response::NotDirectory;
        }
        let prefix = format!("{}/", path);
        let mut entries = vec![];
        for (key, node) in &self.nodes {
            if let Some(name) = key.strip_prefix(&prefix) {
                if !name.contains('/') {
                    let kind = match node {
                        Node::Dir => EntryKind::Directory,
                        Node::File(_) => EntryKind::File,
                        Node::Link(_) => EntryKind::Symlink,
                    };
                    entries.push(Entry::Found { name: name.to_string(), kind });
                }
            }
        }
        Response::Entries(entries)
    }

    fn perform(&mut self, request: Request) -> Response {
        self.done.push(request.clone());
        match request {
            Request::Exists { path } => Response::Exists(self.nodes.contains_key(&path)),
            Request::Run(command) => {
                if command.program == "git" {
                    assert!(command.capture);
                    self.run_git(&command.dir, &command.args)
                } else {
                    assert_eq!(command.program, "npm");
                    assert_eq!(command.args, vec!["run".to_string(), "build".to_string()]);
                    assert!(!command.capture);
                    self.run_build(&command.dir)
                }
            }
            Request::RemoveTree { path } => {
                for key in self.under(&path) {
                    self.nodes.remove(&key);
                }
                self.nodes.remove(&path);
                Response::Done
            }
            Request::CreateTree { path } => {
                self.nodes.insert(path, Node::Dir);
                Response::Done
            }
            Request::List { path } => self.list(&path),
            Request::CopyFile { from, to } => match self.nodes.get(&from).cloned() {
                Some(Node::File(bytes)) => {
                    self.nodes.insert(to, Node::File(bytes));
                    Response::Done
                }
                _ => Response::Failed("not a file".to_string()),
            },
            Request::ReadLink { path } => match self.nodes.get(&path) {
                Some(Node::Link(target)) => Response::Target(target.clone()),
                _ => Response::Failed("not a link".to_string()),
            },
            Request::Link { target, at } => {
                self.nodes.insert(at, Node::Link(target));
                Response::Done
            }
        }
    }

    fn pulls(&self) -> Vec<String> {
        let mut dirs = vec![];
        for request in &self.done {
            if let Request::Run(command) = request {
                if command.program == "git" && command.args[0] == "pull" {
                    dirs.push(command.dir.clone());
                }
            }
        }
        dirs
    }

    fn builds(&self) -> Vec<String> {
        let mut dirs = vec![];
        for request in &self.done {
            if let Request::Run(command) = request {
                if command.program == "npm" {
                    dirs.push(command.dir.clone());
                }
            }
        }
        dirs
    }
}

fn def(path: &str, target: Option<&str>) -> RepoDefinition {
    RepoDefinition::new(path.to_string(), target.map(|t| t.to_string()))
}

fn line(text: &str) -> Report {
    Report::Line(text.to_string())
}

fn run(world: &mut World, defs: Vec<RepoDefinition>, verbose: bool) -> (Cycle, Vec<Report>) {
    let (mut cycle, mut reports) = Cycle::begin(defs, verbose);
    let mut steps = 0;
    while let Some(request) = cycle.request() {
        assert!(!cycle.is_finished());
        assert_eq!(cycle.result(), None);
        let response = world.perform(request);
        assert!(cycle.expects(&response));
        let (next, mut more) = cycle.step(response, verbose);
        cycle = next;
        reports.append(&mut more);
        steps += 1;
        assert!(steps < 1000);
    }
    assert!(cycle.is_finished());
    (cycle, reports)
}

fn failed(path: &str, kind: ErrorKind, detail: &str) -> Failure {
    Failure {
        repo_path: path.to_string(),
        error: SyncError { kind, detail: detail.to_string() },
    }
}

#[test]
fn empty_list_is_a_configuration_failure() {
    for verbose in [false, true] {
        let (cycle, reports) = Cycle::begin(vec![], verbose);
        assert!(cycle.is_finished());
        assert_eq!(cycle.request(), None);
        assert_eq!(cycle.result(), Some(Err(CycleError::ConfigurationEmpty)));
        assert_eq!(
            reports,
            vec![
                line("No se encontraron repositorios en el archivo de configuración."),
                line("Agregue las rutas de los repositorios, una por línea."),
            ]
        );
        let error = cycle.result().unwrap().unwrap_err();
        assert!(error.is_empty_configuration());
        assert_eq!(error.message(), "No hay repositorios configurados");
    }
}

#[test]
fn path_without_marker_is_one_invalid_path_failure() {
    let mut world = World::new();
    world.nodes.insert("/a".to_string(), Node::Dir);
    let (cycle, reports) = run(&mut world, vec![def("/a", None)], false);
    let detail = "El directorio no es un repositorio Git válido: /a";
    assert_eq!(
        cycle.result(),
        Some(Err(CycleError::Failed(vec![failed("/a", ErrorKind::PathInvalid, detail)])))
    );
    assert_eq!(
        reports,
        vec![
            Report::Error(detail.to_string()),
            line("Repositorio omitido /a debido a un error: El directorio no es un repositorio Git válido: /a"),
        ]
    );
    assert_eq!(
        world.done,
        vec![
            Request::Exists { path: "/a".to_string() },
            Request::Exists { path: "/a/.git".to_string() },
        ]
    );
    assert_eq!(
        cycle.result().unwrap().unwrap_err().message(),
        "1 repositorios presentaron errores durante la sincronización:\n\
         - /a => El directorio no es un repositorio Git válido: /a"
    );
}

#[test]
fn missing_path_is_an_invalid_path_failure() {
    let mut world = World::new();
    let (cycle, reports) = run(&mut world, vec![def("/nowhere", None)], false);
    assert_eq!(
        cycle.failures(),
        &vec![failed("/nowhere", ErrorKind::PathInvalid, "La ruta no existe: /nowhere")]
    );
    assert_eq!(reports[0], Report::Error("La ruta no existe: /nowhere".to_string()));
    assert_eq!(world.done, vec![Request::Exists { path: "/nowhere".to_string() }]);
}

#[test]
fn up_to_date_and_behind_repositories_both_succeed() {
    let mut world = World::new();
    world.add_repo("/a", Remote::up_to_date());
    world.add_repo(
        "/b",
        Remote {
            behind: 3,
            built: vec![
                ("dist".to_string(), Node::Dir),
                ("dist/index.html".to_string(), Node::File("<html>".to_string())),
            ],
            ..Remote::up_to_date()
        },
    );
    let (cycle, reports) = run(&mut world, vec![def("/a", None), def("/b", Some("/pub"))], true);
    assert_eq!(cycle.result(), Some(Ok(())));
    assert_eq!(cycle.failures(), &vec![]);
    assert_eq!(world.nodes.get("/pub/index.html"), Some(&Node::File("<html>".to_string())));
    assert_eq!(world.pulls(), vec!["/b".to_string()]);
    assert_eq!(world.builds(), vec!["/b".to_string()]);
    let bar = "==========================================";
    assert_eq!(
        reports,
        vec![
            line("Se analizarán 2 repositorios\n"),
            line(bar),
            line("Procesando repositorio: /a"),
            line(bar),
            line("Verificando el estado del remoto..."),
            line("Se utilizará la rama: main"),
            line("El repositorio ya está actualizado."),
            Report::Raw("\n".to_string()),
            line(bar),
            line("Procesando repositorio con build: /b -> /pub"),
            line(bar),
            line("Verificando el estado del remoto..."),
            line("Se utilizará la rama: main"),
            line("El remoto tiene 3 confirmaciones nuevas. Aplicando cambios..."),
            line("Resultado de `git pull`:\nFast-forward\n 1 file changed"),
            line("Ejecutando `npm run build`..."),
            line("Archivos desplegados en /pub"),
            Report::Raw("\n".to_string()),
            line("Todos los repositorios fueron procesados."),
        ]
    );
}

#[test]
fn quiet_cycle_that_succeeds_reports_nothing() {
    let mut world = World::new();
    world.add_repo("/a", Remote { behind: 2, ..Remote::up_to_date() });
    let (cycle, reports) = run(&mut world, vec![def("/a", None)], false);
    assert_eq!(cycle.result(), Some(Ok(())));
    assert_eq!(reports, vec![]);
    assert_eq!(world.pulls(), vec!["/a".to_string()]);
}

#[test]
fn failed_build_leaves_the_destination_untouched() {
    let mut world = World::new();
    world.add_repo("/b", Remote { behind: 1, build_status: 1, ..Remote::up_to_date() });
    world.nodes.insert("/pub".to_string(), Node::Dir);
    world.nodes.insert("/pub/old.html".to_string(), Node::File("old".to_string()));
    let (cycle, reports) = run(&mut world, vec![def("/b", Some("/pub"))], false);
    assert_eq!(
        cycle.result(),
        Some(Err(CycleError::Failed(vec![failed(
            "/b",
            ErrorKind::BuildFailed { status: Some(1) },
            "`npm run build` finalizó con estado 1",
        )])))
    );
    assert_eq!(
        reports,
        vec![line(
            "Repositorio omitido /b debido a un error: `npm run build` finalizó con estado 1"
        )]
    );
    assert_eq!(world.nodes.get("/pub/old.html"), Some(&Node::File("old".to_string())));
    for request in &world.done {
        assert!(!matches!(
            request,
            Request::RemoveTree { .. } | Request::CreateTree { .. } | Request::CopyFile { .. }
        ));
    }
}

#[test]
fn output_that_is_a_file_leaves_the_destination_untouched() {
    let mut world = World::new();
    world.add_repo(
        "/b",
        Remote {
            built: vec![("dist".to_string(), Node::File("not a directory".to_string()))],
            ..Remote::up_to_date()
        },
    );
    world.nodes.insert("/pub".to_string(), Node::Dir);
    world.nodes.insert("/pub/old.html".to_string(), Node::File("old".to_string()));
    let (cycle, _) = run(&mut world, vec![def("/b", Some("/pub"))], false);
    assert_eq!(
        cycle.result(),
        Some(Err(CycleError::Failed(vec![failed(
            "/b",
            ErrorKind::ArtifactMissing,
            "No se encontró el directorio de salida en /b/dist",
        )])))
    );
    assert_eq!(world.nodes.get("/pub/old.html"), Some(&Node::File("old".to_string())));
    assert_eq!(world.under("/pub").len(), 1);
    assert_eq!(world.done.last(), Some(&Request::List { path: "/b/dist".to_string() }));
    for request in &world.done {
        assert!(matches!(
            request,
            Request::Exists { .. } | Request::Run(_) | Request::List { .. }
        ));
    }
}

#[test]
fn build_that_leaves_nothing_is_an_artifact_failure() {
    let mut world = World::new();
    world.add_repo("/b", Remote::up_to_date());
    world.nodes.insert("/pub".to_string(), Node::Dir);
    let (cycle, _) = run(&mut world, vec![def("/b", Some("/pub"))], false);
    assert_eq!(cycle.failures().len(), 1);
    assert_eq!(cycle.failures()[0].error.kind, ErrorKind::ArtifactMissing);
    assert!(world.nodes.contains_key("/pub"));
}

#[test]
fn publishing_replaces_what_the_destination_held() {
    let mut world = World::new();
    world.add_repo(
        "/b",
        Remote {
            built: vec![
                ("dist".to_string(), Node::Dir),
                ("dist/index.html".to_string(), Node::File("new".to_string())),
                ("dist/assets".to_string(), Node::Dir),
                ("dist/assets/app.js".to_string(), Node::File("js".to_string())),
                ("dist/assets/empty".to_string(), Node::Dir),
                ("dist/latest".to_string(), Node::Link("assets/app.js".to_string())),
            ],
            ..Remote::up_to_date()
        },
    );
    world.nodes.insert("/pub".to_string(), Node::Dir);
    world.nodes.insert("/pub/stale.html".to_string(), Node::File("old".to_string()));
    world.nodes.insert("/pub/assets".to_string(), Node::Dir);
    world.nodes.insert("/pub/assets/old.js".to_string(), Node::File("old".to_string()));
    let (cycle, _) = run(&mut world, vec![def("/b", Some("/pub"))], false);
    assert_eq!(cycle.result(), Some(Ok(())));
    let published: Vec<(String, Node)> = world
        .under("/pub")
        .into_iter()
        .map(|path| (path["/pub".len()..].to_string(), world.nodes[&path].clone()))
        .collect();
    let built: Vec<(String, Node)> = world
        .under("/b/dist")
        .into_iter()
        .map(|path| (path["/b/dist".len()..].to_string(), world.nodes[&path].clone()))
        .collect();
    assert_eq!(published, built);
    assert_eq!(published.len(), 5);
    assert_eq!(world.nodes.get("/pub/latest"), Some(&Node::Link("assets/app.js".to_string())));
    assert_eq!(world.pulls(), Vec::<String>::new());
}

#[test]
fn repository_without_target_is_never_built() {
    let mut world = World::new();
    world.add_repo("/a", Remote { behind: 5, ..Remote::up_to_date() });
    let (cycle, _) = run(&mut world, vec![def("/a", None)], true);
    assert_eq!(cycle.result(), Some(Ok(())));
    assert_eq!(world.builds(), Vec::<String>::new());
}

#[test]
fn failure_does_not_stop_the_repositories_after_it() {
    let mut world = World::new();
    world.add_repo(
        "/a",
        Remote { fetch_error: Some("fatal: unable to access\n".to_string()), ..Remote::up_to_date() },
    );
    world.add_repo("/b", Remote { behind: 1, ..Remote::up_to_date() });
    world.add_repo(
        "/c",
        Remote { behind: 2, pull_error: Some("CONFLICT\n".to_string()), ..Remote::up_to_date() },
    );
    world.add_repo("/d", Remote::up_to_date());
    let defs = vec![def("/a", Some("/pub-a")), def("/b", None), def("/c", None), def("/d", None)];
    let (cycle, reports) = run(&mut world, defs, false);
    let expected = vec![
        failed(
            "/a",
            ErrorKind::FetchFailed,
            "No se pudo ejecutar `git fetch`: fatal: unable to access\n",
        ),
        failed("/c", ErrorKind::PullFailed, "No se pudo ejecutar `git pull`: CONFLICT\n"),
    ];
    assert_eq!(cycle.failures(), &expected);
    assert_eq!(cycle.result(), Some(Err(CycleError::Failed(expected))));
    assert_eq!(world.pulls(), vec!["/b".to_string(), "/c".to_string()]);
    assert_eq!(world.builds(), Vec::<String>::new());
    assert_eq!(reports.len(), 4);
    assert_eq!(
        cycle.result().unwrap().unwrap_err().message(),
        "2 repositorios presentaron errores durante la sincronización:\n\
         - /a => No se pudo ejecutar `git fetch`: fatal: unable to access\n\n\
         - /c => No se pudo ejecutar `git pull`: CONFLICT\n"
    );
    assert_eq!(world.done.last(), Some(&Request::Run(git_sync::driver::Command {
        program: "git".to_string(),
        args: vec!["rev-list".to_string(), "--count".to_string(), "HEAD..origin/main".to_string()],
        dir: "/d".to_string(),
        capture: true,
    })));
}

#[test]
fn branch_is_probed_where_head_names_none() {
    let mut world = World::new();
    world.add_repo("/a", Remote { head: None, has_main: false, ..Remote::up_to_date() });
    world.add_repo("/b", Remote { head: None, has_main: true, ..Remote::up_to_date() });
    let (_, reports) = run(&mut world, vec![def("/a", None), def("/b", None)], true);
    assert!(reports.contains(&line("Se utilizará la rama: master")));
    assert!(reports.contains(&line("Se utilizará la rama: main")));
}

#[test]
fn count_that_cannot_start_is_a_status_check_failure() {
    let (cycle, _) = Cycle::begin(vec![def("/a", None)], false);
    let (cycle, _) = cycle.step(Response::Exists(true), false);
    let (cycle, _) = cycle.step(Response::Exists(true), false);
    let (cycle, _) = cycle.step(exited(true, 0, "", ""), false);
    let (cycle, _) = cycle.step(exited(true, 0, "refs/remotes/origin/dev\n", ""), false);
    let (cycle, reports) = cycle.step(Response::Ran(Ran::NotStarted("gone".to_string())), false);
    let detail = "No se pudo consultar el estado del repositorio: No se pudo comprobar el estado de Git: gone";
    assert_eq!(reports[0], Report::Error(detail.to_string()));
    assert_eq!(cycle.failures(), &vec![failed("/a", ErrorKind::StatusCheckFailed, detail)]);
    assert!(cycle.is_finished());
}

#[test]
fn response_that_does_not_answer_changes_nothing() {
    let (cycle, _) = Cycle::begin(vec![def("/a", None)], true);
    assert!(!cycle.expects(&Response::Done));
    let (cycle, reports) = cycle.step(Response::Done, true);
    assert_eq!(reports, vec![]);
    assert_eq!(cycle.request(), Some(Request::Exists { path: "/a".to_string() }));
    let (cycle, _) = Cycle::begin(vec![], true);
    let (cycle, reports) = cycle.step(Response::Exists(true), true);
    assert_eq!(reports, vec![]);
    assert!(cycle.is_finished());
    assert!(!cycle.expects(&Response::Exists(true)));
}

#[test]
fn processor_records_what_the_cycle_reports() {
    let logger = Logger::new("/tmp/git-sync-test.log".to_string());
    let processor = RepoProcessor::new(&logger, true);
    let (cycle, records) = processor.process_all(vec![def("/a", None)]);
    let consoles: Vec<&str> = records.iter().map(|r| r.console.as_str()).collect();
    assert_eq!(
        consoles,
        vec![
            "Se analizarán 1 repositorios\n\n",
            "==========================================\n",
            "Procesando repositorio: /a\n",
            "==========================================\n",
        ]
    );
    let (cycle, records) = processor.advance(cycle, Response::Exists(false));
    assert_eq!(records.len(), 3);
    assert!(records[0].to_stderr);
    assert_eq!(records[0].console, "ERROR: La ruta no existe: /a\n");
    assert_eq!(
        records[1].console,
        "Repositorio omitido /a debido a un error: La ruta no existe: /a\n"
    );
    assert_eq!(records[2].console, "Todos los repositorios fueron procesados.\n");
    assert!(cycle.is_finished());
    let (_, records) = processor.process_all(vec![]);
    assert_eq!(records.len(), 2);
    let quiet = RepoProcessor::new(&logger, false);
    let (_, records) = quiet.process_all(vec![def("/a", None)]);
    assert_eq!(records.len(), 0);
}
