//! The repository list: one entry per line, either a bare working-tree path or
//! `path => target` for a tree whose build output is published to `target`.

use crate::text::{
    chars_of, find, find_in, is_trimmed, lemma_find_from, lemma_find_is, lemma_trim,
    lemma_trim_of_trimmed, lemma_trim_padded, lemma_until_within, lines, matches_at, scan_to,
    slice, strip_return, trim, trim_range, trimmed, until,
};
use vstd::prelude::*;

verus! {

/// One entry of the repository list.
#[derive(Debug, PartialEq, Eq)]
pub struct RepoDefinition {
    pub repo_path: String,
    pub deploy_target: Option<String>,
}

/// What a `RepoDefinition` holds, as sequences of characters.
pub struct RepoDefinitionView {
    pub repo_path: Seq<char>,
    pub deploy_target: Option<Seq<char>>,
}

impl View for RepoDefinition {
    type V = RepoDefinitionView;

    open spec fn view(&self) -> RepoDefinitionView {
        RepoDefinitionView {
            repo_path: self.repo_path@,
            deploy_target: match self.deploy_target {
                Some(target) => Some(target@),
                None => None,
            },
        }
    }
}

impl DeepView for RepoDefinition {
    type V = RepoDefinitionView;

    open spec fn deep_view(&self) -> RepoDefinitionView {
        self@
    }
}

/// The separator between a path and its deploy target.
pub open spec fn arrow() -> Seq<char> {
    seq!['=', '>']
}

/// What a line of the repository list stands for: nothing where the line is
/// blank, a comment, or has no path before its first `=>`; otherwise the
/// trimmed path, and the trimmed target where one follows the `=>`.
pub open spec fn parse_line(line: Seq<char>) -> Option<RepoDefinitionView> {
    let entry = trim(line);
    if entry.len() == 0 || entry.first() == '#' {
        None
    } else {
        match find(entry, arrow()) {
            Some(i) => {
                let source = trim(entry.take(i));
                let target = trim(entry.skip(i + 2));
                if source.len() == 0 {
                    None
                } else {
                    Some(
                        RepoDefinitionView {
                            repo_path: source,
                            deploy_target: if target.len() == 0 {
                                None
                            } else {
                                Some(target)
                            },
                        },
                    )
                }
            },
            None => Some(RepoDefinitionView { repo_path: entry, deploy_target: None }),
        }
    }
}

/// The line that stands for an entry: `path => target` where the entry has a
/// target that is not blank, else the bare path; both trimmed.
pub open spec fn render_line(def: RepoDefinitionView) -> Seq<char> {
    match def.deploy_target {
        Some(target) if trim(target).len() > 0 => trim(def.repo_path) + seq![' ', '=', '>', ' ']
            + trim(target),
        _ => trim(def.repo_path),
    }
}

impl Clone for RepoDefinition {
    fn clone(&self) -> (out: Self)
        ensures
            out@ == self@,
    {
        RepoDefinition {
            repo_path: self.repo_path.clone(),
            deploy_target: match &self.deploy_target {
                Some(target) => Some(target.clone()),
                None => None,
            },
        }
    }
}

impl RepoDefinition {
    /// An entry for the working tree at `repo_path`, published to
    /// `deploy_target` where one is given.
    pub fn new(repo_path: String, deploy_target: Option<String>) -> (def: Self)
        ensures
            def.repo_path == repo_path,
            def.deploy_target == deploy_target,
    {
        RepoDefinition { repo_path, deploy_target }
    }

    /// Reads one line of the repository list.
    pub fn from_line(line: &str) -> (r: Option<Self>)
        ensures
            match r {
                Some(def) => parse_line(line@) == Some(def@),
                None => parse_line(line@) is None,
            },
    {
        let chars = chars_of(line);
        let (lo, hi) = trim_range(&chars, 0, chars.len());
        assert(chars@.subrange(0, chars.len() as int) == chars@);
        let ghost entry = trim(line@);
        if lo == hi || chars[lo] == '#' {
            return None;
        }
        let separator = chars_of("=>");
        proof {
            reveal_strlit("=>");
            assert(separator@ == arrow());
        }
        match find_in(&chars, lo, hi, &separator) {
            Some(i) => {
                proof {
                    lemma_find_from(entry, arrow(), 0);
                    assert(entry.take(i - lo) == chars@.subrange(lo as int, i as int));
                    assert(entry.skip(i - lo + 2) == chars@.subrange(i + 2, hi as int));
                }
                let (source_lo, source_hi) = trim_range(&chars, lo, i);
                if source_lo == source_hi {
                    return None;
                }
                let (target_lo, target_hi) = trim_range(&chars, i + 2, hi);
                let deploy_target = if target_lo == target_hi {
                    None
                } else {
                    Some(slice(line, target_lo, target_hi))
                };
                Some(RepoDefinition { repo_path: slice(line, source_lo, source_hi), deploy_target })
            },
            None => Some(RepoDefinition { repo_path: slice(line, lo, hi), deploy_target: None }),
        }
    }

    /// Writes the entry as a line of the repository list.
    pub fn to_line(&self) -> (line: String)
        ensures
            line@ == render_line(self@),
    {
        let path = trimmed(self.repo_path.as_str());
        match &self.deploy_target {
            Some(target) => {
                let target = trimmed(target.as_str());
                if target.as_str().is_empty() {
                    path
                } else {
                    let mut line = path;
                    proof {
                        reveal_strlit(" => ");
                        assert(" => "@ == seq![' ', '=', '>', ' ']);
                    }
                    line.append(" => ");
                    line.append(target.as_str());
                    line
                }
            },
            None => path,
        }
    }
}

/// An entry as `parse_line` gives it: a path that is not empty, is trimmed,
/// is no comment and holds no `=>`; and a target, where there is one, that is
/// trimmed and not empty.
pub open spec fn well_formed(def: RepoDefinitionView) -> bool {
    &&& def.repo_path.len() > 0
    &&& is_trimmed(def.repo_path)
    &&& def.repo_path.first() != '#'
    &&& find(def.repo_path, arrow()) is None
    &&& match def.deploy_target {
        Some(target) => target.len() > 0 && is_trimmed(target),
        None => true,
    }
}

/// Every entry that a line parses to is well formed.
pub proof fn lemma_parsed_is_well_formed(line: Seq<char>)
    requires
        parse_line(line) is Some,
    ensures
        well_formed(parse_line(line)->0),
{
    let entry = trim(line);
    lemma_trim(line);
    lemma_find_from(entry, arrow(), 0);
    match find(entry, arrow()) {
        Some(i) => {
            let head = entry.take(i);
            let source = trim(head);
            let (a, b) = lemma_trim(head);
            lemma_trim(entry.skip(i + 2));
            assert(a == 0) by {
                if a > 0 {
                    assert(head[0] == entry[0]);
                }
            }
            assert(source.first() == entry.first());
            lemma_find_from(source, arrow(), 0);
            if let Some(k) = find(source, arrow()) {
                assert(source.subrange(k, k + 2) == entry.subrange(k, k + 2));
                assert(matches_at(entry, arrow(), k));
            }
        },
        None => {},
    }
}

/// A well-formed entry, written as a line and read again, is itself.
pub proof fn lemma_render_then_parse(def: RepoDefinitionView)
    requires
        well_formed(def),
    ensures
        parse_line(render_line(def)) == Some(def),
{
    let path = def.repo_path;
    lemma_trim_of_trimmed(path);
    lemma_find_from(path, arrow(), 0);
    match def.deploy_target {
        Some(target) => {
            lemma_trim_of_trimmed(target);
            let blank = seq![' '];
            let middle = seq![' ', '=', '>', ' '];
            let line = path + middle + target;
            assert(line == render_line(def));
            assert(line.first() == path.first());
            assert(line.last() == target.last());
            lemma_trim_of_trimmed(line);
            let at = path.len() as int + 1;
            assert(line.subrange(at, at + 2) == arrow());
            assert forall|j: int| 0 <= j < at implies !matches_at(line, arrow(), j) by {
                if matches_at(line, arrow(), j) {
                    let found = line.subrange(j, j + 2);
                    assert(found[0] == '=' && found[1] == '>');
                    if j + 2 <= path.len() {
                        assert(path.subrange(j, j + 2) == found);
                        assert(matches_at(path, arrow(), j));
                    }
                }
            }
            lemma_find_is(line, arrow(), at);
            assert(line.take(at) == Seq::<char>::empty() + path + blank);
            lemma_trim_padded(path, Seq::<char>::empty(), blank);
            assert(line.skip(at + 2) == blank + target + Seq::<char>::empty());
            lemma_trim_padded(target, blank, Seq::<char>::empty());
        },
        None => {},
    }
}

/// Reading a line, writing the entry and reading that line gives the same
/// entry again: the written line differs from the first one in white space
/// alone, and writing is stable from then on.
pub proof fn lemma_line_round_trip(line: Seq<char>)
    requires
        parse_line(line) is Some,
    ensures
        parse_line(render_line(parse_line(line)->0)) == parse_line(line),
        render_line(parse_line(render_line(parse_line(line)->0))->0) == render_line(
            parse_line(line)->0,
        ),
{
    lemma_parsed_is_well_formed(line);
    lemma_render_then_parse(parse_line(line)->0);
}

/// Where the daemon keeps its files.
pub struct Config {
    pub config_dir: String,
    pub repos_file: String,
    pub settings_file: String,
    pub log_dir: String,
    pub log_file: String,
}

/// The entries of a repository list, in the order of its lines. Lines end
/// with a line feed; the last one may go without.
pub open spec fn parse_repos(text: Seq<char>) -> Seq<RepoDefinitionView>
    decreases text.len(),
{
    if text.len() == 0 {
        Seq::empty()
    } else {
        let end = until(text, '\n');
        let first = match parse_line(text.take(end)) {
            Some(def) => seq![def],
            None => Seq::empty(),
        };
        if 0 <= end < text.len() {
            first + parse_repos(text.skip(end + 1))
        } else {
            first
        }
    }
}

/// The comment lines that head a repository list written by `write_repos`.
pub open spec fn list_header() -> Seq<char> {
    "# Lista de repositorios administrada por git-sync\n"@
        + "# Especifique una ruta absoluta por línea\n"@
        + "# Para proyectos que requieren build, utilice el formato:\n"@
        + "#   /ruta/al/proyecto => /ruta/destino\n"@
}

/// The comment lines of a repository list that has no entry yet.
pub open spec fn default_list() -> Seq<char> {
    "# Añada rutas absolutas de repositorios Git, una por línea\n"@
        + "# Para proyectos que requieren compilar y desplegar, utilice:\n"@
        + "# /ruta/al/proyecto => /ruta/destino\n"@ + "# Ejemplos:\n"@
        + "# /home/git/repos/mi-repo\n"@
        + "# /home/git/repos/mi-app-vue => /var/www/html/mi-app\n"@
}

/// The text of a repository list: the header, then one line for each entry.
pub open spec fn render_repos(defs: Seq<RepoDefinitionView>) -> Seq<char>
    decreases defs.len(),
{
    if defs.len() == 0 {
        list_header()
    } else {
        render_repos(defs.drop_last()) + render_line(defs.last()) + seq!['\n']
    }
}

impl Config {
    /// The files under `/etc/git-sync` and `/var/log/git-sync`.
    pub fn new() -> (config: Self)
        ensures
            config.config_dir@ == "/etc/git-sync"@,
            config.repos_file@ == "/etc/git-sync/repositories.txt"@,
            config.settings_file@ == "/etc/git-sync/config.toml"@,
            config.log_dir@ == "/var/log/git-sync"@,
            config.log_file@ == "/var/log/git-sync/git-sync.log"@,
    {
        Config {
            config_dir: "/etc/git-sync".to_owned(),
            repos_file: "/etc/git-sync/repositories.txt".to_owned(),
            settings_file: "/etc/git-sync/config.toml".to_owned(),
            log_dir: "/var/log/git-sync".to_owned(),
            log_file: "/var/log/git-sync/git-sync.log".to_owned(),
        }
    }

    /// The text of a repository list that has no entry yet: comment lines
    /// that tell how to write one.
    pub fn default_repos_text() -> (text: String)
        ensures
            text@ == default_list(),
    {
        let mut text = "# Añada rutas absolutas de repositorios Git, una por línea\n".to_owned();
        text.append("# Para proyectos que requieren compilar y desplegar, utilice:\n");
        text.append("# /ruta/al/proyecto => /ruta/destino\n");
        text.append("# Ejemplos:\n");
        text.append("# /home/git/repos/mi-repo\n");
        text.append("# /home/git/repos/mi-app-vue => /var/www/html/mi-app\n");
        text
    }

    /// Reads the entries out of `contents`, the text of the file at
    /// `repos_file`.
    pub fn read_repos(&self, contents: &str) -> (repos: Vec<RepoDefinition>)
        ensures
            repos.deep_view() == parse_repos(contents@),
    {
        let chars = chars_of(contents);
        let n = chars.len();
        let mut repos: Vec<RepoDefinition> = Vec::new();
        let mut start: usize = 0;
        assert(contents@.skip(0) == contents@);
        assert(repos.deep_view() == Seq::<RepoDefinitionView>::empty());
        while start < n
            invariant
                start <= n,
                n == chars.len(),
                chars@ == contents@,
                repos.deep_view() + parse_repos(contents@.skip(start as int)) == parse_repos(
                    contents@,
                ),
            decreases n - start,
        {
            let ghost rest = contents@.skip(start as int);
            let ghost before = repos.deep_view();
            let end = scan_to(&chars, start, n, '\n');
            proof {
                assert(rest == chars@.subrange(start as int, n as int));
                assert(rest.take(end - start) == contents@.subrange(start as int, end as int));
                if end < n {
                    assert(rest.skip(end - start + 1) == contents@.skip(end + 1));
                }
            }
            let line = slice(contents, start, end);
            let ghost first = match parse_line(line@) {
                Some(def) => seq![def],
                None => Seq::empty(),
            };
            match RepoDefinition::from_line(line.as_str()) {
                Some(def) => {
                    repos.push(def);
                    assert(repos.deep_view() == before + seq![def@]);
                },
                None => {
                    assert(before + Seq::<RepoDefinitionView>::empty() == before);
                },
            }
            if end < n {
                start = end + 1;
            } else {
                start = n;
                assert(contents@.skip(n as int) == Seq::<char>::empty());
            }
            proof {
                let tail = parse_repos(contents@.skip(start as int));
                assert(before + (first + tail) == (before + first) + tail);
            }
        }
        assert(contents@.skip(n as int) == Seq::<char>::empty());
        assert(repos.deep_view() + Seq::<RepoDefinitionView>::empty() == repos.deep_view());
        repos
    }

    /// Writes `repos` as the text of the file at `repos_file`.
    pub fn write_repos(&self, repos: &Vec<RepoDefinition>) -> (content: String)
        ensures
            content@ == render_repos(repos.deep_view()),
    {
        let mut content = "# Lista de repositorios administrada por git-sync\n".to_owned();
        content.append("# Especifique una ruta absoluta por línea\n");
        content.append("# Para proyectos que requieren build, utilice el formato:\n");
        content.append("#   /ruta/al/proyecto => /ruta/destino\n");
        let mut i: usize = 0;
        assert(repos.deep_view().take(0) == Seq::<RepoDefinitionView>::empty());
        while i < repos.len()
            invariant
                i <= repos.len(),
                content@ == render_repos(repos.deep_view().take(i as int)),
            decreases repos.len() - i,
        {
            let line = repos[i].to_line();
            content.append(line.as_str());
            proof {
                reveal_strlit("\n");
            }
            content.append("\n");
            proof {
                let seen = repos.deep_view().take(i + 1);
                assert(seen.drop_last() == repos.deep_view().take(i as int));
                assert(seen.last() == repos[i as int]@);
                assert(content@ == render_repos(seen.drop_last()) + render_line(seen.last())
                    + seq!['\n']);
            }
            i += 1;
        }
        assert(repos.deep_view().take(repos.len() as int) == repos.deep_view());
        content
    }
}

/// The entries that `lines` stand for, in order; lines that stand for none
/// are passed over.
pub open spec fn entries_of(lines: Seq<Seq<char>>) -> Seq<RepoDefinitionView>
    decreases lines.len(),
{
    if lines.len() == 0 {
        Seq::empty()
    } else {
        let first = match parse_line(lines.first()) {
            Some(def) => seq![def],
            None => Seq::empty(),
        };
        first + entries_of(lines.drop_first())
    }
}

/// A carriage return at the end of a line does not change what the line
/// stands for.
pub proof fn lemma_return_is_dropped(line: Seq<char>)
    ensures
        parse_line(strip_return(line)) == parse_line(line),
{
    if line.len() > 0 && line.last() == '\r' {
        let kept = line.drop_last();
        assert(line == Seq::<char>::empty() + kept + seq!['\r']);
        lemma_trim_padded(kept, Seq::empty(), seq!['\r']);
    }
}

/// A repository list holds one entry per line: its entries are those that
/// its lines stand for, in the order of the lines.
pub proof fn lemma_one_entry_per_line(text: Seq<char>)
    ensures
        parse_repos(text) == entries_of(lines(text)),
    decreases text.len(),
{
    if text.len() > 0 {
        let end = until(text, '\n');
        lemma_until_within(text, '\n');
        let line = text.take(end);
        if end < text.len() {
            let rest = text.skip(end + 1);
            let all = seq![strip_return(line)] + lines(rest);
            lemma_one_entry_per_line(rest);
            lemma_return_is_dropped(line);
            assert(all.first() == strip_return(line));
            assert(all.drop_first() == lines(rest));
        } else {
            let all = seq![text];
            assert(line == text);
            assert(all.drop_first() == Seq::<Seq<char>>::empty());
            assert(entries_of(all.drop_first()) == Seq::<RepoDefinitionView>::empty());
        }
    }
}

} // verus!
