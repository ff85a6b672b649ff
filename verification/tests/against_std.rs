use git_sync::config::RepoDefinition;
use git_sync::driver::{Exit, Ran};
use git_sync::git::GitRepo;
use git_sync::text::{parse_usize, trimmed};

struct Dice(u64);

impl Dice {
    fn roll(&mut self, sides: usize) -> usize {
        self.0 = self.0.wrapping_mul(6364136223846793005).wrapping_add(1442695040888963407);
        ((self.0 >> 33) as usize) % sides
    }

    fn text(&mut self, alphabet: &[char], longest: usize) -> String {
        let len = self.roll(longest + 1);
        (0..len).map(|_| alphabet[self.roll(alphabet.len())]).collect()
    }
}

fn from_line_by_std(line: &str) -> Option<RepoDefinition> {
    let entry = line.trim();
    if entry.is_empty() || entry.starts_with('#') {
        return None;
    }
    match entry.split_once("=>") {
        Some((source, target)) => {
            let source = source.trim();
            if source.is_empty() {
                return None;
            }
            let target = target.trim();
            let deploy_target = if target.is_empty() { None } else { Some(target.to_string()) };
            Some(RepoDefinition::new(source.to_string(), deploy_target))
        }
        None => Some(RepoDefinition::new(entry.to_string(), None)),
    }
}

fn to_line_by_std(def: &RepoDefinition) -> String {
    match &def.deploy_target {
        Some(target) if !target.trim().is_empty() => {
            format!("{} => {}", def.repo_path.trim(), target.trim())
        }
        _ => def.repo_path.trim().to_string(),
    }
}

#[test]
fn from_line_agrees_with_trim_and_split_once_of_std() {
    let alphabet = [' ', '\t', '\r', '\u{a0}', '#', '=', '>', '/', 'a', 'é'];
    let mut dice = Dice(1);
    for _ in 0..20000 {
        let line = dice.text(&alphabet, 9);
        assert_eq!(RepoDefinition::from_line(&line), from_line_by_std(&line), "{:?}", line);
    }
}

#[test]
fn to_line_agrees_with_trim_of_std() {
    let alphabet = [' ', '\t', '=', '>', '/', 'a'];
    let mut dice = Dice(2);
    for _ in 0..5000 {
        let path = dice.text(&alphabet, 5);
        let target = if dice.roll(3) == 0 { None } else { Some(dice.text(&alphabet, 5)) };
        let def = RepoDefinition::new(path, target);
        assert_eq!(def.to_line(), to_line_by_std(&def), "{:?}", def);
    }
}

#[test]
fn parsed_line_survives_writing_and_reading() {
    let alphabet = [' ', '\t', '#', '=', '>', '/', 'a', 'b'];
    let mut dice = Dice(3);
    let mut seen = 0;
    for _ in 0..20000 {
        let line = dice.text(&alphabet, 10);
        if let Some(def) = RepoDefinition::from_line(&line) {
            let written = def.to_line();
            assert_eq!(RepoDefinition::from_line(&written), Some(def.clone()), "{:?}", line);
            assert_eq!(RepoDefinition::from_line(&written).unwrap().to_line(), written);
            seen += 1;
        }
    }
    assert!(seen > 1000);
}

#[test]
fn trimmed_agrees_with_std_on_mixed_text() {
    let alphabet = [' ', '\n', '\u{2028}', '\u{200b}', '\u{feff}', 'x', '\u{1680}', '\u{3000}'];
    let mut dice = Dice(4);
    for _ in 0..5000 {
        let text = dice.text(&alphabet, 8);
        assert_eq!(trimmed(&text), text.trim(), "{:?}", text);
    }
}

#[test]
fn count_agrees_with_parse_of_std() {
    let alphabet = [' ', '\n', '+', '-', '0', '1', '9', 'x'];
    let repo = GitRepo::new("/a".to_string());
    let mut dice = Dice(5);
    for _ in 0..20000 {
        let text = dice.text(&alphabet, 6);
        assert_eq!(parse_usize(&text), text.parse::<usize>().ok(), "{:?}", text);
        let ran = Ran::Exited(Exit {
            success: true,
            code: Some(0),
            stdout: text.clone(),
            stderr: String::new(),
        });
        assert_eq!(
            repo.count_commits_behind(&ran),
            Ok(text.trim().parse::<usize>().unwrap_or(0)),
            "{:?}",
            text
        );
    }
    let long = "1".repeat(25);
    assert_eq!(parse_usize(&long), None);
    assert_eq!(parse_usize(&usize::MAX.to_string()), Some(usize::MAX));
}
