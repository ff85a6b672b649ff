use git_sync::config::RepoDefinition;
use git_sync::editor::{
    empty_list_label, label, Editor, Effect, InputMode, Key, Notice, Tone,
};

fn def(path: &str, target: Option<&str>) -> RepoDefinition {
    RepoDefinition::new(path.to_string(), target.map(|t| t.to_string()))
}

fn press(editor: Editor, key: Key) -> Editor {
    let (editor, effect) = editor.handle(key);
    assert_eq!(effect, Effect::Nothing);
    editor
}

fn type_text(mut editor: Editor, text: &str) -> Editor {
    for c in text.chars() {
        editor = press(editor, Key::Char(c));
    }
    editor
}

fn three() -> Editor {
    Editor::new(vec![def("/a", None), def("/b", Some("/pub")), def("/c", None)])
}

#[test]
fn editor_opens_on_the_first_entry() {
    let editor = three();
    assert_eq!(editor.selected(), Some(0));
    assert_eq!(editor.mode(), &InputMode::Normal);
    assert_eq!(editor.input(), "");
    assert_eq!(editor.message(), None);
    assert_eq!(editor.repos().len(), 3);
    assert_eq!(Editor::new(vec![]).selected(), None);
}

#[test]
fn selection_moves_within_the_list() {
    let editor = press(three(), Key::Up);
    assert_eq!(editor.selected(), Some(0));
    let editor = press(editor, Key::Down);
    assert_eq!(editor.selected(), Some(1));
    let editor = press(press(editor, Key::Down), Key::Down);
    assert_eq!(editor.selected(), Some(2));
    let editor = press(editor, Key::Up);
    assert_eq!(editor.selected(), Some(1));
    let empty = press(press(Editor::new(vec![]), Key::Down), Key::Up);
    assert_eq!(empty.selected(), None);
}

#[test]
fn quit_keys_leave_the_editor() {
    for key in [Key::Char('q'), Key::Esc, Key::Interrupt] {
        let (_, effect) = three().handle(key);
        assert_eq!(effect, Effect::Quit);
    }
    let typing = press(three(), Key::Char('a'));
    let (typing, effect) = typing.handle(Key::Interrupt);
    assert_eq!(effect, Effect::Quit);
    let typing = press(typing, Key::Char('q'));
    assert_eq!(typing.input(), "q");
}

#[test]
fn simple_entry_is_added_in_two_steps() {
    let editor = press(three(), Key::Char('a'));
    assert_eq!(editor.mode(), &InputMode::AddingSource);
    assert_eq!(editor.message(), Some(Notice::AskSource));
    let editor = type_text(editor, "  /new ");
    assert_eq!(editor.input(), "  /new ");
    let editor = press(editor, Key::Enter);
    assert_eq!(editor.mode(), &InputMode::ChoosingBuildType { source: "/new".to_string() });
    assert_eq!(editor.input(), "");
    assert_eq!(editor.message(), Some(Notice::AskBuildType));
    let editor = press(editor, Key::Char('x'));
    let (editor, effect) = editor.handle(Key::Char('n'));
    assert_eq!(effect, Effect::Persist);
    assert_eq!(editor.repos().len(), 4);
    assert_eq!(editor.repos()[3], def("/new", None));
    assert_eq!(editor.selected(), Some(3));
    assert_eq!(editor.mode(), &InputMode::Normal);
    assert_eq!(editor.message(), Some(Notice::Added));
}

#[test]
fn built_entry_is_added_in_three_steps() {
    let editor = press(type_text(press(Editor::new(vec![]), Key::Char('a')), "/app"), Key::Enter);
    let editor = press(editor, Key::Char('2'));
    assert_eq!(editor.mode(), &InputMode::AddingDestination { source: "/app".to_string() });
    assert_eq!(editor.message(), Some(Notice::AskTarget));
    let (editor, effect) = type_text(editor, "/www ").handle(Key::Enter);
    assert_eq!(effect, Effect::Persist);
    assert_eq!(editor.repos(), &vec![def("/app", Some("/www"))]);
    assert_eq!(editor.selected(), Some(0));
    assert_eq!(editor.message(), Some(Notice::BuildAdded));
}

#[test]
fn blank_target_adds_a_simple_entry() {
    let editor = press(type_text(press(Editor::new(vec![]), Key::Char('a')), "/app"), Key::Enter);
    let editor = press(editor, Key::Char('S'));
    let (editor, effect) = type_text(editor, "  ").handle(Key::Enter);
    assert_eq!(effect, Effect::Persist);
    assert_eq!(editor.repos(), &vec![def("/app", None)]);
    assert_eq!(editor.message(), Some(Notice::Added));
}

#[test]
fn blank_path_is_refused() {
    let editor = press(press(three(), Key::Char('a')), Key::Enter);
    assert_eq!(editor.mode(), &InputMode::AddingSource);
    assert_eq!(editor.message(), Some(Notice::SourceMissing));
    let editor = press(press(three(), Key::Char('e')), Key::Backspace);
    let editor = press(press(editor, Key::Backspace), Key::Enter);
    assert_eq!(editor.mode(), &InputMode::EditingSource(0));
    assert_eq!(editor.message(), Some(Notice::SourceMissingOnEdit));
    assert_eq!(editor.repos().len(), 3);
}

#[test]
fn entry_is_changed_in_two_steps() {
    let editor = press(press(three(), Key::Down), Key::Enter);
    assert_eq!(editor.mode(), &InputMode::EditingSource(1));
    assert_eq!(editor.input(), "/b");
    assert_eq!(editor.message(), Some(Notice::AdjustSource));
    let editor = press(type_text(editor, "2"), Key::Enter);
    assert_eq!(
        editor.mode(),
        &InputMode::EditingDestination { index: 1, source: "/b2".to_string() }
    );
    assert_eq!(editor.input(), "/pub");
    assert_eq!(editor.message(), Some(Notice::AdjustTarget));
    let (editor, effect) = press(editor, Key::Backspace).handle(Key::Enter);
    assert_eq!(effect, Effect::Persist);
    assert_eq!(editor.repos()[1], def("/b2", Some("/pu")));
    assert_eq!(editor.message(), Some(Notice::UpdatedWithBuild));
    assert_eq!(editor.selected(), Some(1));
}

#[test]
fn emptied_target_is_dropped() {
    let editor = press(press(press(three(), Key::Down), Key::Char('e')), Key::Enter);
    let mut editor = editor;
    for _ in 0..4 {
        editor = press(editor, Key::Backspace);
    }
    let editor = press(editor, Key::Backspace);
    let (editor, effect) = editor.handle(Key::Enter);
    assert_eq!(effect, Effect::Persist);
    assert_eq!(editor.repos()[1], def("/b", None));
    assert_eq!(editor.message(), Some(Notice::Updated));
}

#[test]
fn delete_keeps_the_selection_on_the_list() {
    let editor = press(press(three(), Key::Down), Key::Down);
    let (editor, effect) = editor.handle(Key::Char('d'));
    assert_eq!(effect, Effect::Persist);
    assert_eq!(editor.repos(), &vec![def("/a", None), def("/b", Some("/pub"))]);
    assert_eq!(editor.selected(), Some(1));
    assert_eq!(editor.message(), Some(Notice::Deleted));
    let editor = press(editor, Key::Up);
    let (editor, _) = editor.handle(Key::Char('d'));
    assert_eq!(editor.repos(), &vec![def("/b", Some("/pub"))]);
    assert_eq!(editor.selected(), Some(0));
    let (editor, _) = editor.handle(Key::Char('d'));
    assert_eq!(editor.repos(), &vec![]);
    assert_eq!(editor.selected(), None);
    let (editor, effect) = editor.handle(Key::Char('d'));
    assert_eq!(effect, Effect::Nothing);
    assert_eq!(editor.message(), Some(Notice::Deleted));
    let editor = press(editor, Key::Char('e'));
    assert_eq!(editor.mode(), &InputMode::Normal);
}

#[test]
fn escape_gives_the_input_up() {
    let editor = press(type_text(press(three(), Key::Char('a')), "/x"), Key::Esc);
    assert_eq!(editor.mode(), &InputMode::Normal);
    assert_eq!(editor.input(), "");
    assert_eq!(editor.message(), Some(Notice::Cancelled));
    assert_eq!(editor.repos().len(), 3);
    let editor = press(type_text(press(three(), Key::Char('a')), "/x"), Key::Enter);
    let editor = press(editor, Key::Esc);
    assert_eq!(editor.mode(), &InputMode::Normal);
    assert_eq!(editor.message(), Some(Notice::Cancelled));
}

#[test]
fn other_keys_do_nothing() {
    let editor = press(press(three(), Key::Other), Key::Backspace);
    assert_eq!(editor.mode(), &InputMode::Normal);
    assert_eq!(editor.message(), None);
    let editor = press(press(press(editor, Key::Char('a')), Key::Up), Key::Other);
    assert_eq!(editor.mode(), &InputMode::AddingSource);
    assert_eq!(editor.input(), "");
    let editor = press(editor, Key::Backspace);
    assert_eq!(editor.input(), "");
}

#[test]
fn notices_have_text_and_tone() {
    assert_eq!(Notice::Deleted.text(), "🗑️ Repositorio eliminado");
    assert_eq!(Notice::Deleted.tone(), Tone::Warning);
    assert_eq!(Notice::Cancelled.text(), "↩️ Acción cancelada");
    assert_eq!(Notice::Cancelled.tone(), Tone::Warning);
    assert_eq!(Notice::SourceMissing.text(), "La ruta del repositorio no puede estar vacía");
    assert_eq!(Notice::SourceMissing.tone(), Tone::Failure);
    assert_eq!(Notice::NotFound.tone(), Tone::Failure);
    assert_eq!(Notice::Added.text(), "✅ Repositorio añadido");
    assert_eq!(Notice::Added.tone(), Tone::Success);
    assert_eq!(Notice::BuildAdded.text(), "🚀 Repositorio de compilación añadido");
    assert_eq!(Notice::Updated.text(), "✅ Repositorio actualizado");
    assert_eq!(Notice::UpdatedWithBuild.text(), "🚀 Repositorio actualizado (compilación)");
    assert_eq!(Notice::AskSource.tone(), Tone::Info);
    assert_eq!(Notice::AskTarget.tone(), Tone::Info);
}

#[test]
fn labels_tell_built_entries_apart() {
    assert_eq!(label(&def("/a", None)), "📁 /a");
    assert_eq!(label(&def("/a", Some(""))), "📁 /a");
    assert_eq!(label(&def("/a", Some("/pub"))), "🚀 /a ⇒ /pub");
    assert_eq!(empty_list_label(), "📭 No hay repositorios configurados");
}

#[test]
fn input_box_follows_the_mode() {
    let editor = three();
    assert_eq!(editor.input_box(), "");
    assert_eq!(editor.mode().input_title(), "Ruta");
    assert!(!editor.mode().takes_text());
    assert!(editor.mode().instructions().starts_with("🕹️"));
    let editor = type_text(press(editor, Key::Char('a')), "/x");
    assert_eq!(editor.input_box(), "/x");
    assert!(editor.mode().takes_text());
    assert!(editor.mode().input_title().starts_with("📂 Ruta origen"));
    let editor = press(editor, Key::Enter);
    assert_eq!(editor.input_box(), "1️⃣ Laravel sin build • 2️⃣ Vue compilado (deploy dist/)");
    assert_eq!(editor.mode().input_title(), "🛠️ Tipo de proyecto");
    assert!(!editor.mode().takes_text());
    let editor = press(editor, Key::Char('2'));
    assert_eq!(editor.mode().input_title(), "📦 Ruta destino (Vue: /var/www/html/mi-app/public)");
}
