//! The interactive editing of the repository list, apart from the screen
//! and the keyboard: what each key does to the list, to the entry that is
//! selected and to the text that is being typed, and what is shown for it.
//!
//! An entry is added in up to three steps (its path, whether it is built,
//! its deploy target) and changed in two (its path, its deploy target). The
//! list is to be written out after every change to it.

use crate::config::{RepoDefinition, RepoDefinitionView};
use crate::text::{joined, trim, trimmed};
use vstd::prelude::*;

verus! {

/// What is taken on trust of `String::push`, by the standard library's
/// word: it puts the character at the end of the string.
pub assume_specification[ String::push ](s: &mut String, ch: char)
    ensures
        final(s)@ == old(s)@.push(ch),
;

/// What is taken on trust of `String::pop`, by the standard library's
/// word: it takes the last character off the string and returns it; of an
/// empty string it takes nothing and returns nothing.
pub assume_specification[ String::pop ](s: &mut String) -> (last: Option<char>)
    ensures
        old(s)@.len() == 0 ==> last is None && final(s)@ == old(s)@,
        old(s)@.len() > 0 ==> last == Some(old(s)@.last()) && final(s)@ == old(s)@.drop_last(),
;

/// A key, as far as the editor tells keys apart.
#[derive(Debug, Clone, Copy, PartialEq, Eq)]
pub enum Key {
    Char(char),
    Enter,
    Esc,
    Backspace,
    Up,
    Down,
    /// Control and `c` together.
    Interrupt,
    /// Any other key.
    Other,
}

/// What the driver is to do after a key.
#[derive(Debug, Clone, Copy, PartialEq, Eq)]
pub enum Effect {
    Nothing,
    /// Write the list out.
    Persist,
    /// Leave the editor.
    Quit,
}

/// How a notice is to look.
#[derive(Debug, Clone, Copy, PartialEq, Eq)]
pub enum Tone {
    Info,
    Success,
    Warning,
    Failure,
}

/// What the editor tells the user in its status line.
#[derive(Debug, Clone, Copy, PartialEq, Eq)]
pub enum Notice {
    /// Asks for the path of a new working tree.
    AskSource,
    /// Asks to adjust the path of a working tree.
    AdjustSource,
    /// An entry was removed.
    Deleted,
    /// A new entry needs a path.
    SourceMissing,
    /// Asks whether the new entry is built and published.
    AskBuildType,
    /// An entry with a deploy target was added.
    BuildAdded,
    /// An entry cannot lose its path.
    SourceMissingOnEdit,
    /// The entry that was being edited is gone.
    NotFound,
    /// Asks to adjust the deploy target of an entry.
    AdjustTarget,
    /// An entry was changed and has a deploy target.
    UpdatedWithBuild,
    /// An entry was changed and has no deploy target.
    Updated,
    /// An entry without deploy target was added.
    Added,
    /// Asks for the deploy target of a new entry.
    AskTarget,
    /// The input was given up.
    Cancelled,
}

/// The text of a notice.
pub open spec fn notice_text(notice: Notice) -> Seq<char> {
    match notice {
        Notice::AskSource => "📝 Ruta local del repo (Laravel: /var/www/html/mi-api • Vue: /root/proyects/mi-app)"@,
        Notice::AdjustSource => "✏️ Ajusta la ruta local (Laravel: /var/www/html/mi-api • Vue: /root/proyects/mi-app)"@,
        Notice::Deleted => "🗑️ Repositorio eliminado"@,
        Notice::SourceMissing => "La ruta del repositorio no puede estar vacía"@,
        Notice::AskBuildType => "🛠️ ¿Requiere compilación? 1) No (Laravel directo) • 2) Sí (Vue: fuente /root/proyects → destino /var/www/html/...)"@,
        Notice::BuildAdded => "🚀 Repositorio de compilación añadido"@,
        Notice::SourceMissingOnEdit => "⚠️ La ruta del repositorio no puede estar vacía"@,
        Notice::NotFound => "⚠️ No se encontró el repositorio seleccionado"@,
        Notice::AdjustTarget => "📁 Ruta destino compilada (Vue: /var/www/html/mi-app/public) o vacío para desactivar."@,
        Notice::UpdatedWithBuild => "🚀 Repositorio actualizado (compilación)"@,
        Notice::Updated => "✅ Repositorio actualizado"@,
        Notice::Added => "✅ Repositorio añadido"@,
        Notice::AskTarget => "📦 Ruta destino compilada (Vue: /var/www/html/mi-app/public). Enter confirma, vacío simple."@,
        Notice::Cancelled => "↩️ Acción cancelada"@,
    }
}

/// The tone of a notice.
pub open spec fn notice_tone(notice: Notice) -> Tone {
    match notice {
        Notice::AskSource
        | Notice::AdjustSource
        | Notice::AskBuildType
        | Notice::AdjustTarget
        | Notice::AskTarget => Tone::Info,
        Notice::BuildAdded | Notice::UpdatedWithBuild | Notice::Updated | Notice::Added => {
            Tone::Success
        },
        Notice::Deleted | Notice::Cancelled => Tone::Warning,
        Notice::SourceMissing | Notice::SourceMissingOnEdit | Notice::NotFound => Tone::Failure,
    }
}

impl Notice {
    /// The text of the notice.
    pub fn text(&self) -> (text: &'static str)
        ensures
            text@ == notice_text(*self),
    {
        match self {
            Notice::AskSource => "📝 Ruta local del repo (Laravel: /var/www/html/mi-api • Vue: /root/proyects/mi-app)",
            Notice::AdjustSource => "✏️ Ajusta la ruta local (Laravel: /var/www/html/mi-api • Vue: /root/proyects/mi-app)",
            Notice::Deleted => "🗑️ Repositorio eliminado",
            Notice::SourceMissing => "La ruta del repositorio no puede estar vacía",
            Notice::AskBuildType => "🛠️ ¿Requiere compilación? 1) No (Laravel directo) • 2) Sí (Vue: fuente /root/proyects → destino /var/www/html/...)",
            Notice::BuildAdded => "🚀 Repositorio de compilación añadido",
            Notice::SourceMissingOnEdit => "⚠️ La ruta del repositorio no puede estar vacía",
            Notice::NotFound => "⚠️ No se encontró el repositorio seleccionado",
            Notice::AdjustTarget => "📁 Ruta destino compilada (Vue: /var/www/html/mi-app/public) o vacío para desactivar.",
            Notice::UpdatedWithBuild => "🚀 Repositorio actualizado (compilación)",
            Notice::Updated => "✅ Repositorio actualizado",
            Notice::Added => "✅ Repositorio añadido",
            Notice::AskTarget => "📦 Ruta destino compilada (Vue: /var/www/html/mi-app/public). Enter confirma, vacío simple.",
            Notice::Cancelled => "↩️ Acción cancelada",
        }
    }

    /// The tone of the notice.
    pub fn tone(&self) -> (tone: Tone)
        ensures
            tone == notice_tone(*self),
    {
        match self {
            Notice::AskSource
            | Notice::AdjustSource
            | Notice::AskBuildType
            | Notice::AdjustTarget
            | Notice::AskTarget => Tone::Info,
            Notice::BuildAdded | Notice::UpdatedWithBuild | Notice::Updated | Notice::Added => {
                Tone::Success
            },
            Notice::Deleted | Notice::Cancelled => Tone::Warning,
            Notice::SourceMissing | Notice::SourceMissingOnEdit | Notice::NotFound => Tone::Failure,
        }
    }
}

/// What the editor is waiting for.
#[derive(Debug, Clone, PartialEq, Eq)]
pub enum InputMode {
    /// A command.
    Normal,
    /// The path of a new entry.
    AddingSource,
    /// Whether the new entry for `source` is built and published.
    ChoosingBuildType { source: String },
    /// The deploy target of the new entry for `source`.
    AddingDestination { source: String },
    /// The new path of the entry at this place.
    EditingSource(usize),
    /// The new deploy target of the entry at `index`, whose new path is
    /// `source`.
    EditingDestination { index: usize, source: String },
}

/// What an `InputMode` holds, as sequences of characters.
pub enum InputModeView {
    Normal,
    AddingSource,
    ChoosingBuildType { source: Seq<char> },
    AddingDestination { source: Seq<char> },
    EditingSource(usize),
    EditingDestination { index: usize, source: Seq<char> },
}

impl View for InputMode {
    type V = InputModeView;

    open spec fn view(&self) -> InputModeView {
        match self {
            InputMode::Normal => InputModeView::Normal,
            InputMode::AddingSource => InputModeView::AddingSource,
            InputMode::ChoosingBuildType { source } => InputModeView::ChoosingBuildType {
                source: source@,
            },
            InputMode::AddingDestination { source } => InputModeView::AddingDestination {
                source: source@,
            },
            InputMode::EditingSource(index) => InputModeView::EditingSource(*index),
            InputMode::EditingDestination { index, source } => InputModeView::EditingDestination {
                index: *index,
                source: source@,
            },
        }
    }
}

/// The line that tells which keys do what in a mode.
pub open spec fn instructions_text(mode: InputModeView) -> Seq<char> {
    match mode {
        InputModeView::Normal => "🕹️ ↑/↓ mover • a añadir • e editar • d eliminar • Enter editar • q/Esc salir"@,
        InputModeView::AddingSource => "📝 Escribe la ruta local (Laravel: /var/www/html/mi-api • Vue: /root/proyects/mi-app) y Enter"@,
        InputModeView::ChoosingBuildType { .. } => "🛠️ 1) No (Laravel directo) • 2) Sí (Vue: fuente /root/proyects → destino /var/www/html/...) • Esc cancelar"@,
        InputModeView::AddingDestination { .. } => "📦 Escribe la ruta destino compilada (Vue: /var/www/html/mi-app/public) o deja vacío"@,
        InputModeView::EditingSource(_) => "✏️ Ajusta la ruta local y presiona Enter"@,
        InputModeView::EditingDestination { .. } => "📁 Ajusta la ruta destino local o deja vacío"@,
    }
}

/// Whether text is typed in a mode.
pub open spec fn takes_text(mode: InputModeView) -> bool {
    mode is AddingSource || mode is AddingDestination || mode is EditingSource
        || mode is EditingDestination
}

/// The heading of the input box in a mode.
pub open spec fn input_title(mode: InputModeView) -> Seq<char> {
    match mode {
        InputModeView::Normal => "Ruta"@,
        InputModeView::AddingSource | InputModeView::EditingSource(_) => "📂 Ruta origen (Laravel: /var/www/html/mi-api • Vue: /root/proyects/mi-app)"@,
        InputModeView::AddingDestination { .. } | InputModeView::EditingDestination { .. } => "📦 Ruta destino (Vue: /var/www/html/mi-app/public)"@,
        InputModeView::ChoosingBuildType { .. } => "🛠️ Tipo de proyecto"@,
    }
}

/// What the input box shows in a mode, where `input` is what has been
/// typed.
pub open spec fn input_shown(mode: InputModeView, input: Seq<char>) -> Seq<char> {
    match mode {
        InputModeView::Normal => Seq::empty(),
        InputModeView::ChoosingBuildType { .. } => "1️⃣ Laravel sin build • 2️⃣ Vue compilado (deploy dist/)"@,
        _ => input,
    }
}

/// What the list shows for an entry.
pub open spec fn label_text(def: RepoDefinitionView) -> Seq<char> {
    match def.deploy_target {
        Some(target) if target.len() > 0 => "🚀 "@ + def.repo_path + " ⇒ "@ + target,
        _ => "📁 "@ + def.repo_path,
    }
}

/// What the list shows where it has no entry.
pub open spec fn empty_list_text() -> Seq<char> {
    "📭 No hay repositorios configurados"@
}

impl InputMode {
    /// The line that tells which keys do what in this mode.
    pub fn instructions(&self) -> (text: &'static str)
        ensures
            text@ == instructions_text(self@),
    {
        match self {
            InputMode::Normal => "🕹️ ↑/↓ mover • a añadir • e editar • d eliminar • Enter editar • q/Esc salir",
            InputMode::AddingSource => "📝 Escribe la ruta local (Laravel: /var/www/html/mi-api • Vue: /root/proyects/mi-app) y Enter",
            InputMode::ChoosingBuildType { .. } => "🛠️ 1) No (Laravel directo) • 2) Sí (Vue: fuente /root/proyects → destino /var/www/html/...) • Esc cancelar",
            InputMode::AddingDestination { .. } => "📦 Escribe la ruta destino compilada (Vue: /var/www/html/mi-app/public) o deja vacío",
            InputMode::EditingSource(_) => "✏️ Ajusta la ruta local y presiona Enter",
            InputMode::EditingDestination { .. } => "📁 Ajusta la ruta destino local o deja vacío",
        }
    }

    /// Tells whether text is typed in this mode, so that the cursor is
    /// shown.
    pub fn takes_text(&self) -> (b: bool)
        ensures
            b == takes_text(self@),
    {
        matches!(
            self,
            InputMode::AddingSource
                | InputMode::AddingDestination { .. }
                | InputMode::EditingSource(_)
                | InputMode::EditingDestination { .. }
        )
    }

    /// The heading of the input box in this mode.
    pub fn input_title(&self) -> (text: &'static str)
        ensures
            text@ == input_title(self@),
    {
        match self {
            InputMode::Normal => "Ruta",
            InputMode::AddingSource | InputMode::EditingSource(_) => "📂 Ruta origen (Laravel: /var/www/html/mi-api • Vue: /root/proyects/mi-app)",
            InputMode::AddingDestination { .. } | InputMode::EditingDestination { .. } => "📦 Ruta destino (Vue: /var/www/html/mi-app/public)",
            InputMode::ChoosingBuildType { .. } => "🛠️ Tipo de proyecto",
        }
    }
}

/// Writes what the list shows for `def`.
pub fn label(def: &RepoDefinition) -> (text: String)
    ensures
        text@ == label_text(def@),
{
    match &def.deploy_target {
        Some(target) => {
            if target.as_str().is_empty() {
                joined("📁 ", def.repo_path.as_str())
            } else {
                let mut text = joined("🚀 ", def.repo_path.as_str());
                text.append(" ⇒ ");
                text.append(target.as_str());
                text
            }
        },
        None => joined("📁 ", def.repo_path.as_str()),
    }
}

/// What the list shows where it has no entry.
pub fn empty_list_label() -> (text: &'static str)
    ensures
        text@ == empty_list_text(),
{
    "📭 No hay repositorios configurados"
}

/// The editor of a repository list.
#[derive(Debug)]
pub struct Editor {
    repos: Vec<RepoDefinition>,
    selected: Option<usize>,
    mode: InputMode,
    input: String,
    message: Option<Notice>,
}

/// What an `Editor` holds, as sequences.
pub struct EditorView {
    /// The entries of the list.
    pub repos: Seq<RepoDefinitionView>,
    /// The place of the entry that is selected.
    pub selected: Option<usize>,
    pub mode: InputModeView,
    /// What has been typed.
    pub input: Seq<char>,
    /// The notice in the status line.
    pub message: Option<Notice>,
}

impl View for Editor {
    type V = EditorView;

    closed spec fn view(&self) -> EditorView {
        EditorView {
            repos: self.repos.deep_view(),
            selected: self.selected,
            mode: self.mode@,
            input: self.input@,
            message: self.message,
        }
    }
}

impl Editor {
    #[verifier::type_invariant]
    spec fn selection_within(self) -> bool {
        match self.selected {
            Some(i) => i < self.repos.len(),
            None => true,
        }
    }
}

/// Whether the selection of an editor, if it has one, is an entry of its
/// list.
pub open spec fn selection_valid(editor: EditorView) -> bool {
    match editor.selected {
        Some(i) => i < editor.repos.len(),
        None => true,
    }
}

/// The editor as it opens on `repos`: the first entry selected, if there is
/// one.
pub open spec fn editor_start(repos: Seq<RepoDefinitionView>) -> EditorView {
    EditorView {
        repos,
        selected: if repos.len() > 0 {
            Some(0usize)
        } else {
            None
        },
        mode: InputModeView::Normal,
        input: Seq::empty(),
        message: None,
    }
}

/// The selection moved one entry down, as far as the last.
pub open spec fn select_next(editor: EditorView) -> EditorView {
    if editor.repos.len() == 0 {
        editor
    } else {
        let place = match editor.selected {
            Some(i) => if i + 1 < editor.repos.len() {
                (i + 1) as usize
            } else {
                (editor.repos.len() - 1) as usize
            },
            None => 0usize,
        };
        EditorView { selected: Some(place), ..editor }
    }
}

/// The selection moved one entry up, as far as the first.
pub open spec fn select_previous(editor: EditorView) -> EditorView {
    if editor.repos.len() == 0 {
        editor
    } else {
        let place = match editor.selected {
            Some(i) => if i > 0 {
                (i - 1) as usize
            } else {
                0usize
            },
            None => 0usize,
        };
        EditorView { selected: Some(place), ..editor }
    }
}

/// The editor back at waiting for a command, with nothing typed and
/// `notice` in the status line.
pub open spec fn back_to_normal(editor: EditorView, notice: Notice) -> EditorView {
    EditorView {
        mode: InputModeView::Normal,
        input: Seq::empty(),
        message: Some(notice),
        ..editor
    }
}

/// The editor as it begins to ask for `mode`, with `input` in the input
/// box and `notice` in the status line.
pub open spec fn asking(
    editor: EditorView,
    mode: InputModeView,
    input: Seq<char>,
    notice: Notice,
) -> EditorView {
    EditorView { mode, input, message: Some(notice), ..editor }
}

/// The adding of an entry begun.
pub open spec fn start_add(editor: EditorView) -> EditorView {
    asking(editor, InputModeView::AddingSource, Seq::empty(), Notice::AskSource)
}

/// The changing of the selected entry begun, where one is selected.
pub open spec fn start_edit(editor: EditorView) -> EditorView {
    match editor.selected {
        Some(i) if i < editor.repos.len() => asking(
            editor,
            InputModeView::EditingSource(i),
            editor.repos[i as int].repo_path,
            Notice::AdjustSource,
        ),
        _ => editor,
    }
}

/// The selected entry removed, where one is selected. The selection stays
/// at its place, or goes to the last entry where that place is gone, or
/// goes away with the last entry.
pub open spec fn delete_selected(editor: EditorView) -> (EditorView, Effect) {
    match editor.selected {
        Some(i) if i < editor.repos.len() => {
            let repos = editor.repos.remove(i as int);
            let selected = if repos.len() == 0 {
                None
            } else if i >= repos.len() {
                Some((repos.len() - 1) as usize)
            } else {
                Some(i)
            };
            (
                EditorView { repos, selected, message: Some(Notice::Deleted), ..editor },
                Effect::Persist,
            )
        },
        _ => (editor, Effect::Nothing),
    }
}

/// `def` added at the end of the list and selected.
pub open spec fn add_repo(editor: EditorView, def: RepoDefinitionView, notice: Notice) -> (
    EditorView,
    Effect,
) {
    let repos = editor.repos.push(def);
    (
        EditorView {
            repos,
            selected: Some((repos.len() - 1) as usize),
            mode: InputModeView::Normal,
            input: Seq::empty(),
            message: Some(notice),
        },
        Effect::Persist,
    )
}

/// An entry without deploy target added for `source`.
pub open spec fn finalize_simple_repo(editor: EditorView, source: Seq<char>) -> (
    EditorView,
    Effect,
) {
    add_repo(editor, RepoDefinitionView { repo_path: source, deploy_target: None }, Notice::Added)
}

/// The asking for the deploy target of a new entry begun.
pub open spec fn begin_destination_input(editor: EditorView, source: Seq<char>) -> EditorView {
    asking(editor, InputModeView::AddingDestination { source }, Seq::empty(), Notice::AskTarget)
}

/// The input given up.
pub open spec fn cancel_input(editor: EditorView) -> EditorView {
    back_to_normal(editor, Notice::Cancelled)
}

/// A deploy target as typed: none where nothing was typed.
pub open spec fn typed_target(value: Seq<char>) -> Option<Seq<char>> {
    if value.len() == 0 {
        None
    } else {
        Some(value)
    }
}

/// What has been typed, trimmed, taken as the answer to what the editor
/// was waiting for.
pub open spec fn submit(editor: EditorView) -> (EditorView, Effect) {
    let value = trim(editor.input);
    match editor.mode {
        InputModeView::AddingSource => if value.len() == 0 {
            (EditorView { message: Some(Notice::SourceMissing), ..editor }, Effect::Nothing)
        } else {
            (
                asking(
                    editor,
                    InputModeView::ChoosingBuildType { source: value },
                    Seq::empty(),
                    Notice::AskBuildType,
                ),
                Effect::Nothing,
            )
        },
        InputModeView::AddingDestination { source } => if value.len() == 0 {
            finalize_simple_repo(editor, source)
        } else {
            add_repo(
                editor,
                RepoDefinitionView { repo_path: source, deploy_target: Some(value) },
                Notice::BuildAdded,
            )
        },
        InputModeView::EditingSource(index) => if value.len() == 0 {
            (
                EditorView { message: Some(Notice::SourceMissingOnEdit), ..editor },
                Effect::Nothing,
            )
        } else if index >= editor.repos.len() {
            (cancel_input(editor), Effect::Nothing)
        } else {
            (
                asking(
                    editor,
                    InputModeView::EditingDestination { index, source: value },
                    match editor.repos[index as int].deploy_target {
                        Some(target) => target,
                        None => Seq::empty(),
                    },
                    Notice::AdjustTarget,
                ),
                Effect::Nothing,
            )
        },
        InputModeView::EditingDestination { index, source } => if index >= editor.repos.len() {
            (back_to_normal(editor, Notice::NotFound), Effect::Nothing)
        } else {
            let target = typed_target(value);
            let def = RepoDefinitionView { repo_path: source, deploy_target: target };
            (
                back_to_normal(
                    EditorView { repos: editor.repos.update(index as int, def), ..editor },
                    if target is Some {
                        Notice::UpdatedWithBuild
                    } else {
                        Notice::Updated
                    },
                ),
                Effect::Persist,
            )
        },
        InputModeView::ChoosingBuildType { .. } => (editor, Effect::Nothing),
        InputModeView::Normal => (editor, Effect::Nothing),
    }
}

/// What a key does.
pub open spec fn handle_key(editor: EditorView, key: Key) -> (EditorView, Effect) {
    let nothing = (editor, Effect::Nothing);
    if key is Interrupt {
        (editor, Effect::Quit)
    } else {
        match editor.mode {
            InputModeView::Normal => match key {
                Key::Esc => (editor, Effect::Quit),
                Key::Enter => (start_edit(editor), Effect::Nothing),
                Key::Down => (select_next(editor), Effect::Nothing),
                Key::Up => (select_previous(editor), Effect::Nothing),
                Key::Char(c) => if c == 'q' {
                    (editor, Effect::Quit)
                } else if c == 'a' {
                    (start_add(editor), Effect::Nothing)
                } else if c == 'e' {
                    (start_edit(editor), Effect::Nothing)
                } else if c == 'd' {
                    delete_selected(editor)
                } else {
                    nothing
                },
                _ => nothing,
            },
            InputModeView::ChoosingBuildType { source } => match key {
                Key::Esc => (cancel_input(editor), Effect::Nothing),
                Key::Char(c) => if c == '1' || c == 'n' || c == 'N' {
                    finalize_simple_repo(editor, source)
                } else if c == '2' || c == 's' || c == 'S' {
                    (begin_destination_input(editor, source), Effect::Nothing)
                } else {
                    nothing
                },
                _ => nothing,
            },
            _ => match key {
                Key::Enter => submit(editor),
                Key::Esc => (cancel_input(editor), Effect::Nothing),
                Key::Backspace => (
                    EditorView {
                        input: if editor.input.len() > 0 {
                            editor.input.drop_last()
                        } else {
                            editor.input
                        },
                        ..editor
                    },
                    Effect::Nothing,
                ),
                Key::Char(c) => (
                    EditorView { input: editor.input.push(c), ..editor },
                    Effect::Nothing,
                ),
                _ => nothing,
            },
        }
    }
}

impl Editor {
    /// Opens the editor on `repos`.
    pub fn new(repos: Vec<RepoDefinition>) -> (editor: Self)
        ensures
            editor@ == editor_start(repos.deep_view()),
            selection_valid(editor@),
    {
        let selected = if repos.len() > 0 {
            Some(0)
        } else {
            None
        };
        Editor { repos, selected, mode: InputMode::Normal, input: String::new(), message: None }
    }

    /// The entries of the list.
    pub fn repos(&self) -> (repos: &Vec<RepoDefinition>)
        ensures
            repos.deep_view() == self@.repos,
    {
        &self.repos
    }

    /// The place of the entry that is selected, which is within the list.
    pub fn selected(&self) -> (selected: Option<usize>)
        ensures
            selected == self@.selected,
            selection_valid(self@),
    {
        proof {
            use_type_invariant(self);
        }
        self.selected
    }

    /// What the editor is waiting for.
    pub fn mode(&self) -> (mode: &InputMode)
        ensures
            mode@ == self@.mode,
    {
        &self.mode
    }

    /// What has been typed.
    pub fn input(&self) -> (input: &str)
        ensures
            input@ == self@.input,
    {
        self.input.as_str()
    }

    /// The notice in the status line.
    pub fn message(&self) -> (message: Option<Notice>)
        ensures
            message == self@.message,
    {
        self.message
    }

    /// What the input box shows.
    pub fn input_box(&self) -> (text: String)
        ensures
            text@ == input_shown(self@.mode, self@.input),
    {
        match &self.mode {
            InputMode::Normal => String::new(),
            InputMode::ChoosingBuildType { .. } => "1️⃣ Laravel sin build • 2️⃣ Vue compilado (deploy dist/)".to_owned(),
            _ => self.input.clone(),
        }
    }

    fn select_next(self) -> (editor: Editor)
        ensures
            editor@ == select_next(self@),
    {
        proof {
            use_type_invariant(&self);
        }
        let Editor { repos, selected, mode, input, message } = self;
        if repos.len() == 0 {
            Editor { repos, selected, mode, input, message }
        } else {
            let place = match selected {
                Some(i) => if i + 1 < repos.len() {
                    i + 1
                } else {
                    repos.len() - 1
                },
                None => 0,
            };
            Editor { repos, selected: Some(place), mode, input, message }
        }
    }

    fn select_previous(self) -> (editor: Editor)
        ensures
            editor@ == select_previous(self@),
    {
        proof {
            use_type_invariant(&self);
        }
        let Editor { repos, selected, mode, input, message } = self;
        if repos.len() == 0 {
            Editor { repos, selected, mode, input, message }
        } else {
            let place = match selected {
                Some(i) => if i > 0 {
                    i - 1
                } else {
                    0
                },
                None => 0,
            };
            Editor { repos, selected: Some(place), mode, input, message }
        }
    }

    fn asking(self, mode: InputMode, input: String, notice: Notice) -> (editor: Editor)
        ensures
            editor@ == asking(self@, mode@, input@, notice),
    {
        proof {
            use_type_invariant(&self);
        }
        Editor { repos: self.repos, selected: self.selected, mode, input, message: Some(notice) }
    }

    fn back_to_normal(self, notice: Notice) -> (editor: Editor)
        ensures
            editor@ == back_to_normal(self@, notice),
    {
        self.asking(InputMode::Normal, String::new(), notice)
    }

    fn noticing(self, notice: Notice) -> (editor: Editor)
        ensures
            editor@ == (EditorView { message: Some(notice), ..self@ }),
    {
        proof {
            use_type_invariant(&self);
        }
        Editor {
            repos: self.repos,
            selected: self.selected,
            mode: self.mode,
            input: self.input,
            message: Some(notice),
        }
    }

    fn start_edit(self) -> (editor: Editor)
        ensures
            editor@ == start_edit(self@),
    {
        proof {
            use_type_invariant(&self);
        }
        match self.selected {
            Some(i) => {
                assert(self.repos.deep_view()[i as int] == self.repos[i as int]@);
                let path = self.repos[i].repo_path.clone();
                self.asking(InputMode::EditingSource(i), path, Notice::AdjustSource)
            },
            None => self,
        }
    }

    fn delete_selected(self) -> (r: (Editor, Effect))
        ensures
            (r.0@, r.1) == delete_selected(self@),
    {
        proof {
            use_type_invariant(&self);
        }
        let Editor { repos, selected, mode, input, message } = self;
        match selected {
            Some(i) => {
                let ghost before = repos.deep_view();
                let mut repos = repos;
                let _ = repos.remove(i);
                assert(repos.deep_view() == before.remove(i as int));
                let selected = if repos.len() == 0 {
                    None
                } else if i >= repos.len() {
                    Some(repos.len() - 1)
                } else {
                    Some(i)
                };
                (
                    Editor { repos, selected, mode, input, message: Some(Notice::Deleted) },
                    Effect::Persist,
                )
            },
            None => (Editor { repos, selected, mode, input, message }, Effect::Nothing),
        }
    }

    fn add_repo(self, def: RepoDefinition, notice: Notice) -> (r: (Editor, Effect))
        ensures
            (r.0@, r.1) == add_repo(self@, def@, notice),
    {
        let Editor { repos, .. } = self;
        let ghost before = repos.deep_view();
        let mut repos = repos;
        repos.push(def);
        assert(repos.deep_view() == before.push(def@));
        let selected = Some(repos.len() - 1);
        (
            Editor {
                repos,
                selected,
                mode: InputMode::Normal,
                input: String::new(),
                message: Some(notice),
            },
            Effect::Persist,
        )
    }
}

impl Editor {
    fn submit(self) -> (r: (Editor, Effect))
        ensures
            (r.0@, r.1) == submit(self@),
    {
        proof {
            use_type_invariant(&self);
        }
        let value = trimmed(self.input.as_str());
        let blank = value.as_str().is_empty();
        let Editor { repos, selected, mode, input, message } = self;
        match mode {
            InputMode::AddingSource => {
                let editor = Editor {
                    repos,
                    selected,
                    mode: InputMode::AddingSource,
                    input,
                    message,
                };
                if blank {
                    (editor.noticing(Notice::SourceMissing), Effect::Nothing)
                } else {
                    (
                        editor.asking(
                            InputMode::ChoosingBuildType { source: value },
                            String::new(),
                            Notice::AskBuildType,
                        ),
                        Effect::Nothing,
                    )
                }
            },
            InputMode::AddingDestination { source } => {
                let editor = Editor { repos, selected, mode: InputMode::Normal, input, message };
                if blank {
                    editor.add_repo(RepoDefinition::new(source, None), Notice::Added)
                } else {
                    editor.add_repo(RepoDefinition::new(source, Some(value)), Notice::BuildAdded)
                }
            },
            InputMode::EditingSource(index) => {
                if blank {
                    let editor = Editor {
                        repos,
                        selected,
                        mode: InputMode::EditingSource(index),
                        input,
                        message,
                    };
                    (editor.noticing(Notice::SourceMissingOnEdit), Effect::Nothing)
                } else if index >= repos.len() {
                    let editor = Editor {
                        repos,
                        selected,
                        mode: InputMode::Normal,
                        input,
                        message,
                    };
                    (editor.back_to_normal(Notice::Cancelled), Effect::Nothing)
                } else {
                    assert(repos.deep_view()[index as int] == repos[index as int]@);
                    let target = match &repos[index].deploy_target {
                        Some(target) => target.clone(),
                        None => String::new(),
                    };
                    let editor = Editor {
                        repos,
                        selected,
                        mode: InputMode::Normal,
                        input,
                        message,
                    };
                    (
                        editor.asking(
                            InputMode::EditingDestination { index, source: value },
                            target,
                            Notice::AdjustTarget,
                        ),
                        Effect::Nothing,
                    )
                }
            },
            InputMode::EditingDestination { index, source } => {
                if index >= repos.len() {
                    let editor = Editor {
                        repos,
                        selected,
                        mode: InputMode::Normal,
                        input,
                        message,
                    };
                    (editor.back_to_normal(Notice::NotFound), Effect::Nothing)
                } else {
                    let notice = if blank {
                        Notice::Updated
                    } else {
                        Notice::UpdatedWithBuild
                    };
                    let target = if blank {
                        None
                    } else {
                        Some(value)
                    };
                    let def = RepoDefinition::new(source, target);
                    let ghost before = repos.deep_view();
                    let mut repos = repos;
                    repos.set(index, def);
                    assert(repos.deep_view() == before.update(index as int, def@));
                    let editor = Editor {
                        repos,
                        selected,
                        mode: InputMode::Normal,
                        input,
                        message,
                    };
                    (editor.back_to_normal(notice), Effect::Persist)
                }
            },
            InputMode::ChoosingBuildType { source } => (
                Editor {
                    repos,
                    selected,
                    mode: InputMode::ChoosingBuildType { source },
                    input,
                    message,
                },
                Effect::Nothing,
            ),
            InputMode::Normal => (
                Editor { repos, selected, mode: InputMode::Normal, input, message },
                Effect::Nothing,
            ),
        }
    }

    fn typing(self, key: Key) -> (r: (Editor, Effect))
        requires
            takes_text(self@.mode),
            !(key is Interrupt),
        ensures
            (r.0@, r.1) == handle_key(self@, key),
    {
        proof {
            use_type_invariant(&self);
        }
        match key {
            Key::Enter => self.submit(),
            Key::Esc => (self.back_to_normal(Notice::Cancelled), Effect::Nothing),
            Key::Backspace => {
                let Editor { repos, selected, mode, input, message } = self;
                let mut input = input;
                let _ = input.pop();
                (Editor { repos, selected, mode, input, message }, Effect::Nothing)
            },
            Key::Char(c) => {
                let Editor { repos, selected, mode, input, message } = self;
                let mut input = input;
                input.push(c);
                (Editor { repos, selected, mode, input, message }, Effect::Nothing)
            },
            _ => (self, Effect::Nothing),
        }
    }

    /// Takes a key; returns the editor as the key leaves it, and what the
    /// driver is to do.
    pub fn handle(self, key: Key) -> (r: (Editor, Effect))
        ensures
            (r.0@, r.1) == handle_key(self@, key),
            selection_valid(self@),
            selection_valid(r.0@),
    {
        proof {
            use_type_invariant(&self);
            lemma_selection_stays_valid(self@, key);
        }
        if matches!(key, Key::Interrupt) {
            return (self, Effect::Quit);
        }
        if self.mode.takes_text() {
            return self.typing(key);
        }
        let choosing = match &self.mode {
            InputMode::ChoosingBuildType { source } => Some(source.clone()),
            _ => None,
        };
        match choosing {
            Some(source) => match key {
                Key::Esc => (self.back_to_normal(Notice::Cancelled), Effect::Nothing),
                Key::Char(c) => {
                    if c == '1' || c == 'n' || c == 'N' {
                        self.add_repo(RepoDefinition::new(source, None), Notice::Added)
                    } else if c == '2' || c == 's' || c == 'S' {
                        (
                            self.asking(
                                InputMode::AddingDestination { source },
                                String::new(),
                                Notice::AskTarget,
                            ),
                            Effect::Nothing,
                        )
                    } else {
                        (self, Effect::Nothing)
                    }
                },
                _ => (self, Effect::Nothing),
            },
            None => match key {
                Key::Esc => (self, Effect::Quit),
                Key::Enter => (self.start_edit(), Effect::Nothing),
                Key::Down => (self.select_next(), Effect::Nothing),
                Key::Up => (self.select_previous(), Effect::Nothing),
                Key::Char(c) => {
                    if c == 'q' {
                        (self, Effect::Quit)
                    } else if c == 'a' {
                        (
                            self.asking(InputMode::AddingSource, String::new(), Notice::AskSource),
                            Effect::Nothing,
                        )
                    } else if c == 'e' {
                        (self.start_edit(), Effect::Nothing)
                    } else if c == 'd' {
                        self.delete_selected()
                    } else {
                        (self, Effect::Nothing)
                    }
                },
                _ => (self, Effect::Nothing),
            },
        }
    }
}

/// Every key leaves the selection, if there is one, on an entry of the
/// list.
pub proof fn lemma_selection_stays_valid(editor: EditorView, key: Key)
    requires
        selection_valid(editor),
    ensures
        selection_valid(handle_key(editor, key).0),
{
}

/// The list changes only with a request to write it out: after any other
/// key it is as it was.
pub proof fn lemma_list_changes_are_persisted(editor: EditorView, key: Key)
    requires
        handle_key(editor, key).1 != Effect::Persist,
    ensures
        handle_key(editor, key).0.repos == editor.repos,
{
}

} // verus!
