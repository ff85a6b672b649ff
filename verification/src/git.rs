//! The Git side of one working tree: which commands to run against its
//! remote, and what their outcomes mean.

use crate::driver::{Command, CommandView, Ran, RanView};
use crate::text::{
    chars_of, decimal_usize, parse_usize_in, strip_prefix, trim, trim_range, trimmed,
    without_prefix,
};
use vstd::prelude::*;

verus! {

/// A working tree that tracks the remote `origin`.
#[derive(Debug, Clone, PartialEq, Eq)]
pub struct GitRepo {
    pub path: String,
}

/// `git` with `args`, run in `dir`, its output kept.
pub open spec fn git(dir: Seq<char>, args: Seq<Seq<char>>) -> CommandView {
    CommandView { program: "git"@, args, dir, capture: true }
}

/// The arguments that fetch from the remote.
pub open spec fn fetch_args() -> Seq<Seq<char>> {
    seq!["fetch"@]
}

/// The arguments that read the remote's symbolic `HEAD`.
pub open spec fn head_args() -> Seq<Seq<char>> {
    seq!["symbolic-ref"@, "refs/remotes/origin/HEAD"@]
}

/// The arguments that test whether the remote has a branch `main`.
pub open spec fn probe_args() -> Seq<Seq<char>> {
    seq!["rev-parse"@, "--verify"@, "origin/main"@]
}

/// The arguments that count the commits of the remote's `branch` that the
/// local `HEAD` lacks.
pub open spec fn count_args(branch: Seq<char>) -> Seq<Seq<char>> {
    seq!["rev-list"@, "--count"@, "HEAD..origin/"@ + branch]
}

/// The arguments that pull the remote's `branch` into the checkout.
pub open spec fn pull_args(branch: Seq<char>) -> Seq<Seq<char>> {
    seq!["pull"@, "origin"@, branch]
}

/// What a fetch came to: success, or the reason it failed. A fetch that ran
/// and failed gives what Git wrote to its error stream, unchanged.
pub open spec fn fetch_outcome(ran: RanView) -> Result<(), Seq<char>> {
    match ran {
        RanView::NotStarted(why) => Err("No se pudo ejecutar `git fetch`: "@ + why),
        RanView::Exited(exit) => if exit.success {
            Ok(())
        } else {
            Err(exit.stderr)
        },
    }
}

/// The branch that the remote's symbolic `HEAD` names: what Git wrote,
/// trimmed and without the prefix `refs/remotes/origin/`, where that is not
/// empty.
pub open spec fn head_branch(ran: RanView) -> Option<Seq<char>> {
    match ran {
        RanView::NotStarted(_) => None,
        RanView::Exited(exit) => {
            let name = strip_prefix(trim(exit.stdout), "refs/remotes/origin/"@);
            if name.len() > 0 {
                Some(name)
            } else {
                None
            }
        },
    }
}

/// The branch to assume where the remote's `HEAD` names none: `main` where
/// the remote has it, else `master`.
pub open spec fn probed_branch(ran: RanView) -> Seq<char> {
    match ran {
        RanView::Exited(exit) if exit.success => "main"@,
        _ => "master"@,
    }
}

/// The number that Git's count stands for; 0 where the text is no number
/// that fits.
pub open spec fn behind_count(stdout: Seq<char>) -> nat {
    match decimal_usize(trim(stdout)) {
        Some(n) => n as nat,
        None => 0,
    }
}

/// What a count came to: the number of commits behind, or the reason it
/// could not be had.
pub open spec fn count_outcome(ran: RanView) -> Result<nat, Seq<char>> {
    match ran {
        RanView::NotStarted(why) => Err("No se pudo comprobar el estado de Git: "@ + why),
        RanView::Exited(exit) => Ok(behind_count(exit.stdout)),
    }
}

/// What a pull came to: what Git wrote to its output, or the reason the
/// pull failed.
pub open spec fn pull_outcome(ran: RanView) -> Result<Seq<char>, Seq<char>> {
    match ran {
        RanView::NotStarted(why) => Err("No se pudo ejecutar `git pull`: "@ + why),
        RanView::Exited(exit) => if exit.success {
            Ok(exit.stdout)
        } else {
            Err(exit.stderr)
        },
    }
}

impl GitRepo {
    /// The working tree at `path`.
    pub fn new(path: String) -> (repo: Self)
        ensures
            repo.path == path,
    {
        GitRepo { path }
    }

    fn command(&self, args: Vec<String>) -> (command: Command)
        ensures
            command@ == git(self.path@, args.deep_view()),
    {
        Command { program: "git".to_owned(), args, dir: self.path.clone(), capture: true }
    }

    /// The command that fetches from the remote.
    pub fn fetch_command(&self) -> (command: Command)
        ensures
            command@ == git(self.path@, fetch_args()),
    {
        let mut args: Vec<String> = Vec::new();
        args.push("fetch".to_owned());
        assert(args.deep_view() == fetch_args());
        self.command(args)
    }

    /// The command that reads the remote's symbolic `HEAD`.
    pub fn head_command(&self) -> (command: Command)
        ensures
            command@ == git(self.path@, head_args()),
    {
        let mut args: Vec<String> = Vec::new();
        args.push("symbolic-ref".to_owned());
        args.push("refs/remotes/origin/HEAD".to_owned());
        assert(args.deep_view() == head_args());
        self.command(args)
    }

    /// The command that tests whether the remote has a branch `main`.
    pub fn probe_command(&self) -> (command: Command)
        ensures
            command@ == git(self.path@, probe_args()),
    {
        let mut args: Vec<String> = Vec::new();
        args.push("rev-parse".to_owned());
        args.push("--verify".to_owned());
        args.push("origin/main".to_owned());
        assert(args.deep_view() == probe_args());
        self.command(args)
    }

    /// The command that counts the commits of the remote's `branch` that
    /// the local `HEAD` lacks.
    pub fn count_command(&self, branch: &str) -> (command: Command)
        ensures
            command@ == git(self.path@, count_args(branch@)),
    {
        let mut range = "HEAD..origin/".to_owned();
        range.append(branch);
        let mut args: Vec<String> = Vec::new();
        args.push("rev-list".to_owned());
        args.push("--count".to_owned());
        args.push(range);
        assert(args.deep_view() == count_args(branch@));
        self.command(args)
    }

    /// The command that pulls the remote's `branch` into the checkout.
    pub fn pull_command(&self, branch: &str) -> (command: Command)
        ensures
            command@ == git(self.path@, pull_args(branch@)),
    {
        let mut args: Vec<String> = Vec::new();
        args.push("pull".to_owned());
        args.push("origin".to_owned());
        args.push(branch.to_owned());
        assert(args.deep_view() == pull_args(branch@));
        self.command(args)
    }

    /// Says what the fetch that `ran` came to.
    pub fn fetch(&self, ran: &Ran) -> (r: Result<(), String>)
        ensures
            match r {
                Ok(_) => fetch_outcome(ran@) is Ok,
                Err(why) => fetch_outcome(ran@) == Err::<(), Seq<char>>(why@),
            },
    {
        match ran {
            Ran::NotStarted(why) => {
                let mut message = "No se pudo ejecutar `git fetch`: ".to_owned();
                message.append(why.as_str());
                Err(message)
            },
            Ran::Exited(exit) => {
                if exit.success {
                    Ok(())
                } else {
                    Err(exit.stderr.clone())
                }
            },
        }
    }

    /// Reads the default branch out of what reading the remote's symbolic
    /// `HEAD` came to. Where that names no branch, the remote has to be
    /// probed: see `fallback_branch`.
    pub fn get_default_branch(&self, head: &Ran) -> (r: Option<String>)
        ensures
            match r {
                Some(branch) => head_branch(head@) == Some(branch@),
                None => head_branch(head@) is None,
            },
    {
        match head {
            Ran::NotStarted(_) => None,
            Ran::Exited(exit) => {
                let text = trimmed(exit.stdout.as_str());
                let name = without_prefix(text.as_str(), "refs/remotes/origin/");
                if name.as_str().is_empty() {
                    None
                } else {
                    Some(name)
                }
            },
        }
    }

    /// Chooses the default branch by what probing the remote for `main`
    /// came to.
    pub fn fallback_branch(&self, probe: &Ran) -> (branch: String)
        ensures
            branch@ == probed_branch(probe@),
    {
        match probe {
            Ran::Exited(exit) => {
                if exit.success {
                    "main".to_owned()
                } else {
                    "master".to_owned()
                }
            },
            Ran::NotStarted(_) => "master".to_owned(),
        }
    }

    /// Says how many commits the checkout is behind, by what counting them
    /// came to.
    pub fn count_commits_behind(&self, ran: &Ran) -> (r: Result<usize, String>)
        ensures
            match r {
                Ok(count) => count_outcome(ran@) == Ok::<nat, Seq<char>>(count as nat),
                Err(why) => count_outcome(ran@) == Err::<nat, Seq<char>>(why@),
            },
    {
        match ran {
            Ran::NotStarted(why) => {
                let mut message = "No se pudo comprobar el estado de Git: ".to_owned();
                message.append(why.as_str());
                Err(message)
            },
            Ran::Exited(exit) => {
                let chars = chars_of(exit.stdout.as_str());
                assert(chars@.subrange(0, chars.len() as int) == chars@);
                let (lo, hi) = trim_range(&chars, 0, chars.len());
                match parse_usize_in(&chars, lo, hi) {
                    Some(count) => Ok(count),
                    None => Ok(0),
                }
            },
        }
    }

    /// Says what the pull that `ran` came to.
    pub fn pull(&self, ran: &Ran) -> (r: Result<String, String>)
        ensures
            match r {
                Ok(output) => pull_outcome(ran@) == Ok::<Seq<char>, Seq<char>>(output@),
                Err(why) => pull_outcome(ran@) == Err::<Seq<char>, Seq<char>>(why@),
            },
    {
        match ran {
            Ran::NotStarted(why) => {
                let mut message = "No se pudo ejecutar `git pull`: ".to_owned();
                message.append(why.as_str());
                Err(message)
            },
            Ran::Exited(exit) => {
                if exit.success {
                    Ok(exit.stdout.clone())
                } else {
                    Err(exit.stderr.clone())
                }
            },
        }
    }
}

} // verus!
