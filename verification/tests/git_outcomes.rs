use git_sync::driver::{Command, Exit, Ran};
use git_sync::git::GitRepo;

fn exited(success: bool, stdout: &str, stderr: &str) -> Ran {
    Ran::Exited(Exit {
        success,
        code: Some(if success { 0 } else { 1 }),
        stdout: stdout.to_string(),
        stderr: stderr.to_string(),
    })
}

fn not_started(why: &str) -> Ran {
    Ran::NotStarted(why.to_string())
}

fn git(dir: &str, args: &[&str]) -> Command {
    Command {
        program: "git".to_string(),
        args: args.iter().map(|a| a.to_string()).collect(),
        dir: dir.to_string(),
        capture: true,
    }
}

#[test]
fn new_keeps_the_path() {
    assert_eq!(GitRepo::new("/a".to_string()).path, "/a");
}

#[test]
fn commands_run_git_in_the_working_tree() {
    let repo = GitRepo::new("/srv/app".to_string());
    assert_eq!(repo.fetch_command(), git("/srv/app", &["fetch"]));
    assert_eq!(
        repo.head_command(),
        git("/srv/app", &["symbolic-ref", "refs/remotes/origin/HEAD"])
    );
    assert_eq!(
        repo.probe_command(),
        git("/srv/app", &["rev-parse", "--verify", "origin/main"])
    );
    assert_eq!(
        repo.count_command("main"),
        git("/srv/app", &["rev-list", "--count", "HEAD..origin/main"])
    );
    assert_eq!(repo.pull_command("dev"), git("/srv/app", &["pull", "origin", "dev"]));
}

#[test]
fn fetch_passes_the_error_stream_through() {
    let repo = GitRepo::new("/a".to_string());
    assert_eq!(repo.fetch(&exited(true, "", "warning")), Ok(()));
    assert_eq!(
        repo.fetch(&exited(false, "out", "fatal: no remote\n")),
        Err("fatal: no remote\n".to_string())
    );
    assert_eq!(
        repo.fetch(&not_started("No such file")),
        Err("No se pudo ejecutar `git fetch`: No such file".to_string())
    );
}

#[test]
fn default_branch_comes_from_the_symbolic_head() {
    let repo = GitRepo::new("/a".to_string());
    assert_eq!(
        repo.get_default_branch(&exited(true, "refs/remotes/origin/main\n", "")),
        Some("main".to_string())
    );
    assert_eq!(
        repo.get_default_branch(&exited(true, "  refs/remotes/origin/release/1.x \n", "")),
        Some("release/1.x".to_string())
    );
    assert_eq!(
        repo.get_default_branch(&exited(false, "trunk\n", "")),
        Some("trunk".to_string())
    );
}

#[test]
fn default_branch_needs_probing_when_head_names_none() {
    let repo = GitRepo::new("/a".to_string());
    assert_eq!(repo.get_default_branch(&exited(false, "", "fatal")), None);
    assert_eq!(repo.get_default_branch(&exited(true, " \n", "")), None);
    assert_eq!(repo.get_default_branch(&exited(true, "refs/remotes/origin/", "")), None);
    assert_eq!(repo.get_default_branch(&not_started("gone")), None);
}

#[test]
fn fallback_branch_is_main_only_where_the_probe_succeeds() {
    let repo = GitRepo::new("/a".to_string());
    assert_eq!(repo.fallback_branch(&exited(true, "abc123\n", "")), "main");
    assert_eq!(repo.fallback_branch(&exited(false, "", "fatal")), "master");
    assert_eq!(repo.fallback_branch(&not_started("gone")), "master");
}

#[test]
fn count_reads_the_number_and_takes_noise_for_zero() {
    let repo = GitRepo::new("/a".to_string());
    assert_eq!(repo.count_commits_behind(&exited(true, "3\n", "")), Ok(3));
    assert_eq!(repo.count_commits_behind(&exited(true, "0\n", "")), Ok(0));
    assert_eq!(repo.count_commits_behind(&exited(true, "  12  ", "")), Ok(12));
    assert_eq!(repo.count_commits_behind(&exited(false, "", "fatal: bad revision")), Ok(0));
    assert_eq!(repo.count_commits_behind(&exited(true, "three\n", "")), Ok(0));
    assert_eq!(repo.count_commits_behind(&exited(true, "-1\n", "")), Ok(0));
    assert_eq!(
        repo.count_commits_behind(&exited(true, "99999999999999999999999999\n", "")),
        Ok(0)
    );
    assert_eq!(
        repo.count_commits_behind(&not_started("gone")),
        Err("No se pudo comprobar el estado de Git: gone".to_string())
    );
}

#[test]
fn pull_gives_output_or_error_stream() {
    let repo = GitRepo::new("/a".to_string());
    assert_eq!(
        repo.pull(&exited(true, "Updating a..b\n", "")),
        Ok("Updating a..b\n".to_string())
    );
    assert_eq!(
        repo.pull(&exited(false, "x", "CONFLICT\n")),
        Err("CONFLICT\n".to_string())
    );
    assert_eq!(
        repo.pull(&not_started("gone")),
        Err("No se pudo ejecutar `git pull`: gone".to_string())
    );
}
