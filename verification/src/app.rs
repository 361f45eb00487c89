//! The editing session: the document, the register that holds the step cut
//! or copied last, the templates, and the commands that change them.
//!
//! Work that needs the terminal, the clipboard or the editor program is not
//! done here. A command that needs it hands back an `Action`; the caller
//! does the work and calls the function that takes its result.

use crate::clipboard::{
    base64_fits, base64_text, embedded_text, gen_html, html_document, table_html,
};
use crate::config::{
    lemma_delete_wf, lemma_load_after_save, lemma_save_wf, Config, ConfigView, Template,
};
use crate::document::{clamped, lemma_move_selection_in_range, Document, DocumentView};
use crate::err_msg::{EditError, ParseError, StateError};
use crate::screen::constraint_len_calculator;
use crate::test_step::{gen_markdown_spec, parse_markdown_spec, steps_view, StepView, TestStep};
use vstd::prelude::*;
use vstd::utf8::encode_utf8;

verus! {

/// Which of the two tables is shown.
#[derive(Clone, Copy, Debug, PartialEq, Eq, Structural)]
pub enum Window {
    /// The steps of the document.
    UAT,
    /// The names of the templates.
    Template,
}

/// Where a step goes, seen from the selected row.
#[derive(Clone, Copy, Debug, PartialEq, Eq, Structural)]
pub enum InsertDirection {
    /// Into the selected row; what was there moves down.
    Up,
    /// Into the row below the selected one.
    Down,
}

/// What the footer tells the user.
#[derive(Debug)]
pub enum MsgState {
    /// The key bindings.
    Default,
    /// The page was put on the clipboard.
    Compile,
    /// The selected step was copied to the register.
    Yanked,
    /// A document was read from the clipboard.
    Loaded,
    /// Any other message.
    DynamicMsg(String),
}

/// What the footer tells the user, as plain text.
pub enum MsgView {
    Default,
    Compile,
    Yanked,
    Loaded,
    DynamicMsg(Seq<char>),
}

impl View for MsgState {
    type V = MsgView;

    open spec fn view(&self) -> MsgView {
        match self {
            MsgState::Default => MsgView::Default,
            MsgState::Compile => MsgView::Compile,
            MsgState::Yanked => MsgView::Yanked,
            MsgState::Loaded => MsgView::Loaded,
            MsgState::DynamicMsg(msg) => MsgView::DynamicMsg(msg@),
        }
    }
}

impl MsgState {
    /// The message after a command that has nothing to say when it went
    /// well: the key bindings, or else the error.
    pub fn log_err_msg<T>(msg: Result<T, String>) -> (state: MsgState)
        ensures
            state@ == (match msg {
                Ok(_) => MsgView::Default,
                Err(text) => MsgView::DynamicMsg(text@),
            }),
    {
        match msg {
            Ok(_) => MsgState::Default,
            Err(msg) => MsgState::DynamicMsg(msg),
        }
    }

    /// The message after a command that says what it did: that, or else the
    /// error.
    pub fn log_err_msg_or(msg: Result<MsgState, String>) -> (state: MsgState)
        ensures
            state@ == (match msg {
                Ok(done) => done@,
                Err(text) => MsgView::DynamicMsg(text@),
            }),
    {
        match msg {
            Ok(msg) => msg,
            Err(msg) => MsgState::DynamicMsg(msg),
        }
    }
}

/// The step in the register, as plain text.
pub open spec fn register_view(register: Option<TestStep>) -> Option<StepView> {
    match register {
        Some(step) => Some(step@),
        None => None,
    }
}

/// The row that stands for the template called `name` in the table of
/// templates: the name is its instructions.
pub open spec fn name_row(name: Seq<char>) -> StepView {
    StepView {
        is_stepless_comment: false,
        is_new_section: false,
        instructions: name,
        expected_results: Seq::empty(),
        ac: Seq::empty(),
    }
}

/// The rows of the table of templates for the names `names`.
pub open spec fn name_rows(names: Seq<Seq<char>>) -> Seq<StepView> {
    names.map_values(|name: Seq<char>| name_row(name))
}

/// The row below which, or into which, a step goes.
pub open spec fn target(selected: int, direction: InsertDirection) -> int {
    match direction {
        InsertDirection::Up => selected,
        InsertDirection::Down => selected + 1,
    }
}

/// The state of a session, as plain values.
pub struct AppView {
    pub config: ConfigView,
    pub template_list: DocumentView,
    pub window: Window,
    pub msg_state: MsgView,
    pub document: DocumentView,
    pub longest_item_lens: (u16, u16, u16, u16),
    pub register: Option<StepView>,
}

impl AppView {
    /// Every selection is in range, and no template name occurs twice.
    pub open spec fn wf(self) -> bool {
        &&& self.config.wf()
        &&& self.template_list.wf()
        &&& self.document.wf()
    }

    /// The number of rows of the table that is shown.
    pub open spec fn length_constraint(self) -> nat {
        match self.window {
            Window::UAT => self.document.steps.len(),
            Window::Template => self.template_list.steps.len(),
        }
    }

    /// The selection of the table that is shown moves by `delta` rows.
    pub open spec fn delta_row(self, delta: int) -> AppView {
        match self.window {
            Window::UAT => AppView { document: self.document.move_selection(delta), ..self },
            Window::Template => AppView {
                template_list: self.template_list.move_selection(delta),
                ..self
            },
        }
    }

    /// Copy: the selected step goes to the register.
    pub open spec fn yank(self) -> Result<AppView, StateError> {
        match self.document.selected {
            Some(i) => Ok(AppView { register: Some(self.document.steps[i]), ..self }),
            None => Err(StateError::NoSelection),
        }
    }

    /// Cut: the selected step leaves the document and goes to the register.
    pub open spec fn delete_yank(self) -> Result<AppView, StateError> {
        match self.document.selected {
            Some(i) => Ok(
                AppView {
                    register: Some(self.document.steps[i]),
                    document: self.document.remove(i),
                    ..self
                },
            ),
            None => Err(StateError::NoSelection),
        }
    }

    /// Every step leaves the document; the register stays.
    pub open spec fn clear_all(self) -> AppView {
        AppView { document: DocumentView { steps: Seq::empty(), selected: None }, ..self }
    }

    /// The delete command: with both modifiers every step leaves, else the
    /// selected one is cut.
    pub open spec fn handle_deletion(self, ctrl: bool, shift: bool) -> Result<AppView, StateError> {
        if ctrl && shift {
            Ok(self.clear_all())
        } else {
            self.delete_yank()
        }
    }

    /// Paste: a copy of the register's step goes into the selected row or
    /// below it. The register and the selected index stay.
    pub open spec fn paste(self, direction: InsertDirection) -> Result<AppView, StateError> {
        match self.document.selected {
            None => Err(StateError::NoSelection),
            Some(i) => match self.register {
                None => Err(StateError::EmptyRegister),
                Some(step) => Ok(
                    AppView { document: self.document.insert(target(i, direction), step), ..self },
                ),
            },
        }
    }

    /// A new step goes into the selected row, or below it and is selected
    /// then. With nothing selected it goes to the end, and the first row is
    /// selected.
    pub open spec fn insert(self, step: StepView, direction: InsertDirection) -> AppView {
        match self.document.selected {
            Some(i) => AppView {
                document: DocumentView {
                    steps: self.document.steps.insert(target(i, direction), step),
                    selected: Some(target(i, direction)),
                },
                ..self
            },
            None => AppView {
                document: DocumentView { steps: self.document.steps.push(step), selected: Some(0) },
                ..self
            },
        }
    }

    /// The selected step is replaced by `step`.
    pub open spec fn replace_selected(self, step: StepView) -> Result<AppView, StateError> {
        match self.document.selected {
            Some(i) => Ok(AppView { document: self.document.replace(i, step), ..self }),
            None => Err(StateError::NoSelection),
        }
    }

    /// The edited markdown `content` comes back for a new step.
    pub open spec fn insert_step(self, content: Seq<char>, direction: InsertDirection) -> Result<
        AppView,
        ParseError,
    > {
        match parse_markdown_spec(content) {
            Ok(step) => Ok(self.insert(step, direction)),
            Err(e) => Err(e),
        }
    }

    /// The edited markdown `content` comes back for the selected step.
    pub open spec fn edit_existing(self, content: Seq<char>) -> Result<AppView, EditError> {
        match self.document.selected {
            None => Err(EditError::State(StateError::NoSelection)),
            Some(i) => match parse_markdown_spec(content) {
                Ok(step) => Ok(AppView { document: self.document.replace(i, step), ..self }),
                Err(e) => Err(EditError::Parse(e)),
            },
        }
    }

    /// The document is replaced by `steps`, and the footer says so.
    pub open spec fn load_items(self, steps: Seq<StepView>) -> AppView {
        AppView {
            document: DocumentView {
                steps,
                selected: clamped(self.document.selected, steps.len() as int),
            },
            msg_state: MsgView::Loaded,
            ..self
        }
    }

    /// The table of templates is shown; the selection goes along, as far
    /// as that table has rows.
    pub open spec fn switch_to_template_window(self) -> AppView {
        AppView {
            window: Window::Template,
            template_list: DocumentView {
                steps: self.template_list.steps,
                selected: clamped(self.document.selected, self.template_list.steps.len() as int),
            },
            ..self
        }
    }

    /// The table of steps is shown; the selection goes along, as far as
    /// that table has rows.
    pub open spec fn switch_to_uat_window(self) -> AppView {
        AppView {
            window: Window::UAT,
            document: DocumentView {
                steps: self.document.steps,
                selected: clamped(self.template_list.selected, self.document.steps.len() as int),
            },
            ..self
        }
    }

    /// The steps of the document are saved as the template called `name`,
    /// and the table of templates shows the names that there are then.
    pub open spec fn save_template(self, name: Seq<char>) -> AppView {
        let config = self.config.save(name, self.document.steps);
        AppView {
            config,
            template_list: DocumentView {
                steps: name_rows(config.names),
                selected: clamped(self.template_list.selected, config.names.len() as int),
            },
            ..self
        }
    }

    /// The name in the selected row of the table of templates.
    pub open spec fn selected_template(self) -> Option<Seq<char>> {
        match self.template_list.selected {
            Some(i) => Some(self.template_list.steps[i].instructions),
            None => None,
        }
    }

    /// The steps of the selected template become the document, and the
    /// table of steps is shown.
    pub open spec fn load_template(self) -> Result<AppView, StateError> {
        match self.selected_template() {
            None => Err(StateError::NoSelection),
            Some(name) => match self.config.load(name) {
                Err(e) => Err(e),
                Ok(steps) => Ok(
                    AppView {
                        document: DocumentView {
                            steps,
                            selected: clamped(self.template_list.selected, steps.len() as int),
                        },
                        window: Window::UAT,
                        ..self
                    },
                ),
            },
        }
    }

    /// The selected template leaves the settings, and its row the table.
    /// The document stays as it is.
    pub open spec fn delete_template(self) -> Result<AppView, StateError> {
        match self.selected_template() {
            None => Err(StateError::NoSelection),
            Some(name) => if self.config.contains(name) {
                Ok(
                    AppView {
                        config: self.config.delete(name),
                        template_list: self.template_list.remove(self.template_list.selected->0),
                        ..self
                    },
                )
            } else {
                Err(StateError::NotFound)
            },
        }
    }

    /// The session with `msg_state` in the footer.
    pub open spec fn with_msg(self, msg_state: MsgView) -> AppView {
        AppView { msg_state, ..self }
    }

    /// The session after a command that may fail: where it went well, the
    /// new state with `done` in the footer; else the old state with the
    /// error in the footer.
    pub open spec fn logged(self, next: Result<AppView, StateError>, done: MsgView) -> AppView {
        match next {
            Ok(next) => next.with_msg(done),
            Err(e) => self.with_msg(MsgView::DynamicMsg(e.message_spec())),
        }
    }

    /// What the command `command` does to the session, and what it leaves
    /// for the caller to do.
    pub open spec fn execute(self, command: Command) -> (AppView, ActionView) {
        match command {
            Command::Idle => (self.with_msg(MsgView::Default), ActionView::Nothing),
            Command::Quit => (self, ActionView::Quit),
            Command::NextRow => (self.delta_row(1).with_msg(MsgView::Default), ActionView::Nothing),
            Command::PreviousRow => (
                self.delta_row(-1).with_msg(MsgView::Default),
                ActionView::Nothing,
            ),
            Command::EditExisting => match self.document.selected {
                Some(i) => (self, ActionView::EditExisting(gen_markdown_spec(self.document.steps[i]))),
                None => (
                    self.with_msg(MsgView::DynamicMsg(StateError::NoSelection.message_spec())),
                    ActionView::Nothing,
                ),
            },
            Command::Yank => (self.logged(self.yank(), MsgView::Yanked), ActionView::Nothing),
            Command::CompileToClipboard => (self, ActionView::CompileToClipboard),
            Command::LoadFromClipboard => (self, ActionView::LoadFromClipboard),
            Command::Deletion { ctrl, shift } => (
                self.logged(self.handle_deletion(ctrl, shift), MsgView::Default),
                ActionView::Nothing,
            ),
            Command::Paste(direction) => (
                self.logged(self.paste(direction), MsgView::Default),
                ActionView::Nothing,
            ),
            Command::InsertStep(direction) => (
                self,
                ActionView::InsertStep(gen_markdown_spec(blank_step()), direction),
            ),
            Command::SwitchToTemplates => (
                self.switch_to_template_window().with_msg(MsgView::Default),
                ActionView::Nothing,
            ),
            Command::LoadTemplate => (
                self.logged(self.load_template(), MsgView::Default),
                ActionView::Nothing,
            ),
            Command::Back => (
                self.switch_to_uat_window().with_msg(MsgView::Default),
                ActionView::Nothing,
            ),
            Command::DeleteTemplate => (
                self.logged(self.delete_template(), MsgView::DynamicMsg("Deleted template"@)),
                if self.delete_template() is Ok {
                    ActionView::SaveConfig
                } else {
                    ActionView::Nothing
                },
            ),
            Command::SaveTemplate => (self, ActionView::SaveTemplate),
        }
    }

    /// What the key `key` does to the session, and what it leaves for the
    /// caller to do.
    pub open spec fn handle_keys(self, key: KeyPress) -> (AppView, ActionView) {
        match self.window {
            Window::UAT => self.execute(uat_command(key)),
            Window::Template => self.execute(template_command(key)),
        }
    }
}

/// The step that a new step starts from: no mark, no text.
pub open spec fn blank_step() -> StepView {
    StepView {
        is_stepless_comment: false,
        is_new_section: false,
        instructions: Seq::empty(),
        expected_results: Seq::empty(),
        ac: Seq::empty(),
    }
}

/// A key of the keyboard, as far as the session tells keys apart.
#[derive(Clone, Copy, Debug, PartialEq, Eq, Structural)]
pub enum Key {
    Char(char),
    Enter,
    Esc,
    Up,
    Down,
    Other,
}

/// A key event: the key, the modifiers held, and whether the key went down.
#[derive(Clone, Copy, Debug, PartialEq, Eq, Structural)]
pub struct KeyPress {
    pub key: Key,
    pub shift: bool,
    pub ctrl: bool,
    pub press: bool,
}

/// What a key asks for.
#[derive(Clone, Copy, Debug, PartialEq, Eq, Structural)]
pub enum Command {
    /// Nothing: the key is not bound, or it did not go down.
    Idle,
    Quit,
    NextRow,
    PreviousRow,
    EditExisting,
    Yank,
    CompileToClipboard,
    LoadFromClipboard,
    Deletion { ctrl: bool, shift: bool },
    Paste(InsertDirection),
    InsertStep(InsertDirection),
    SwitchToTemplates,
    LoadTemplate,
    Back,
    DeleteTemplate,
    SaveTemplate,
}

/// What is left for the caller to do after a command.
#[derive(Debug)]
pub enum Action {
    /// Nothing.
    Nothing,
    /// End the session.
    Quit,
    /// Let the user edit this markdown, then call `edit_existing` with what
    /// comes back.
    EditExisting(String),
    /// Let the user edit this markdown, then call `insert_step` with what
    /// comes back and this direction.
    InsertStep(String, InsertDirection),
    /// Put the page of `gen_html` on the clipboard.
    CompileToClipboard,
    /// Read the clipboard and call `load_items` with the steps it holds.
    LoadFromClipboard,
    /// Ask for a name and call `save_template` with it, then write the
    /// settings out.
    SaveTemplate,
    /// Write the settings out.
    SaveConfig,
}

/// What is left for the caller to do, as plain values.
pub enum ActionView {
    Nothing,
    Quit,
    EditExisting(Seq<char>),
    InsertStep(Seq<char>, InsertDirection),
    CompileToClipboard,
    LoadFromClipboard,
    SaveTemplate,
    SaveConfig,
}

impl View for Action {
    type V = ActionView;

    open spec fn view(&self) -> ActionView {
        match self {
            Action::Nothing => ActionView::Nothing,
            Action::Quit => ActionView::Quit,
            Action::EditExisting(md) => ActionView::EditExisting(md@),
            Action::InsertStep(md, direction) => ActionView::InsertStep(md@, *direction),
            Action::CompileToClipboard => ActionView::CompileToClipboard,
            Action::LoadFromClipboard => ActionView::LoadFromClipboard,
            Action::SaveTemplate => ActionView::SaveTemplate,
            Action::SaveConfig => ActionView::SaveConfig,
        }
    }
}

/// What the key `key` asks for while the table of steps is shown.
pub open spec fn uat_command(key: KeyPress) -> Command {
    if !key.press {
        Command::Idle
    } else {
        match key.key {
            Key::Char('q') => Command::Quit,
            Key::Char('j') | Key::Down => Command::NextRow,
            Key::Char('k') | Key::Up => Command::PreviousRow,
            Key::Enter => Command::EditExisting,
            Key::Char('y') => Command::Yank,
            Key::Char('$') => Command::CompileToClipboard,
            Key::Char('+') => Command::LoadFromClipboard,
            Key::Char('d') => Command::Deletion { ctrl: key.ctrl, shift: key.shift },
            Key::Char('p') => Command::Paste(InsertDirection::Down),
            Key::Char('P') => Command::Paste(InsertDirection::Up),
            Key::Char('o') => Command::InsertStep(InsertDirection::Down),
            Key::Char('O') => Command::InsertStep(InsertDirection::Up),
            Key::Char('t') => Command::SwitchToTemplates,
            _ => Command::Idle,
        }
    }
}

/// What the key `key` asks for while the table of templates is shown.
pub open spec fn template_command(key: KeyPress) -> Command {
    if !key.press {
        Command::Idle
    } else {
        match key.key {
            Key::Char('j') | Key::Down => Command::NextRow,
            Key::Char('k') | Key::Up => Command::PreviousRow,
            Key::Enter => Command::LoadTemplate,
            Key::Esc => Command::Back,
            Key::Char('q') => Command::Quit,
            Key::Char('d') => Command::DeleteTemplate,
            Key::Char('$') => Command::SaveTemplate,
            _ => Command::Idle,
        }
    }
}

/// Cutting the selected step takes it out of the document and puts it in
/// the register; the other steps keep their order.
pub proof fn lemma_cut(app: AppView, i: int)
    requires
        app.wf(),
        app.document.selected == Some(i),
    ensures
        app.delete_yank() is Ok,
        app.delete_yank()->Ok_0.register == Some(app.document.steps[i]),
        app.delete_yank()->Ok_0.document.steps == app.document.steps.remove(i),
        app.delete_yank()->Ok_0.document.steps.len() == app.document.steps.len() - 1,
        app.delete_yank()->Ok_0.wf(),
{
}

/// Cutting the selected step of a document of two or more steps and
/// pasting below at once puts an equal step back, and the other steps keep
/// their order. The selection stays on its row where the row is still
/// there, so the step comes back one row further down; cut from the last
/// row, it comes back as the last row, and the document is as it was.
pub proof fn lemma_cut_then_paste_down(app: AppView, i: int)
    requires
        app.wf(),
        app.document.selected == Some(i),
        app.document.steps.len() >= 2,
    ensures
        app.delete_yank() is Ok,
        app.delete_yank()->Ok_0.paste(InsertDirection::Down) is Ok,
        ({
            let steps = app.document.steps;
            let after = app.delete_yank()->Ok_0.paste(InsertDirection::Down)->Ok_0;
            let at = if i == steps.len() - 1 {
                i
            } else {
                i + 1
            };
            &&& after.register == Some(steps[i])
            &&& after.document.steps == steps.remove(i).insert(at, steps[i])
            &&& after.document.steps[at] == steps[i]
            &&& after.document.steps.remove(at) == steps.remove(i)
            &&& i == steps.len() - 1 ==> after.document.steps == steps
            &&& after.wf()
        }),
{
    let steps = app.document.steps;
    let at = if i == steps.len() - 1 {
        i
    } else {
        i + 1
    };
    let after = app.delete_yank()->Ok_0.paste(InsertDirection::Down)->Ok_0;
    assert(after.document.steps == steps.remove(i).insert(at, steps[i]));
    assert(after.document.steps.remove(at) =~= steps.remove(i));
    if i == steps.len() - 1 {
        assert(after.document.steps =~= steps);
    }
}

/// A command leaves every selection in range and every template under a
/// name of its own.
pub proof fn lemma_execute_keeps_wf(app: AppView, command: Command)
    requires
        app.wf(),
    ensures
        app.execute(command).0.wf(),
{
    match command {
        Command::NextRow => {
            lemma_delta_row_keeps_wf(app, 1);
        },
        Command::PreviousRow => {
            lemma_delta_row_keeps_wf(app, -1);
        },
        Command::DeleteTemplate => {
            if let Some(name) = app.selected_template() {
                lemma_delete_wf(app.config, name);
            }
        },
        _ => {},
    }
}

/// Moving the selection leaves every selection in range.
pub proof fn lemma_delta_row_keeps_wf(app: AppView, delta: int)
    requires
        app.wf(),
    ensures
        app.delta_row(delta).wf(),
{
    if app.document.steps.len() > 0 {
        lemma_move_selection_in_range(app.document, delta);
    }
    if app.template_list.steps.len() > 0 {
        lemma_move_selection_in_range(app.template_list, delta);
    }
}

/// What comes back from the editor leaves every selection in range,
/// whether it goes into a new step or into the selected one; so does a
/// document that is read in, and so does saving a template.
pub proof fn lemma_edits_keep_wf(
    app: AppView,
    content: Seq<char>,
    direction: InsertDirection,
    steps: Seq<StepView>,
    name: Seq<char>,
)
    requires
        app.wf(),
    ensures
        app.insert_step(content, direction) matches Ok(next) ==> next.wf(),
        app.edit_existing(content) matches Ok(next) ==> next.wf(),
        app.load_items(steps).wf(),
        app.save_template(name).wf(),
{
    lemma_save_wf(app.config, name, app.document.steps);
}

/// A saved template stays what it was when it was saved, whatever is done
/// to the document afterwards. Loading the name gives the steps that the
/// document had when it was saved; and the templates are the same after any
/// command but the deletion of a template, after a step comes back from the
/// editor, and after a document is read in.
pub proof fn lemma_saved_template_stays(
    app: AppView,
    name: Seq<char>,
    command: Command,
    content: Seq<char>,
    direction: InsertDirection,
    steps: Seq<StepView>,
)
    requires
        app.wf(),
        command != Command::DeleteTemplate,
    ensures
        ({
            let saved = app.save_template(name);
            &&& saved.config.load(name) == Ok::<Seq<StepView>, StateError>(app.document.steps)
            &&& saved.execute(command).0.config == saved.config
            &&& saved.insert_step(content, direction) matches Ok(next) ==> next.config
                == saved.config
            &&& saved.edit_existing(content) matches Ok(next) ==> next.config == saved.config
            &&& saved.load_items(steps).config == saved.config
        }),
{
    lemma_load_after_save(app.config, name, app.document.steps);
}

/// The state of a session.
#[derive(Debug)]
pub struct App {
    pub config: Config,
    pub template_list: Document,
    pub window: Window,
    pub msg_state: MsgState,
    pub document: Document,
    pub longest_item_lens: (u16, u16, u16, u16),
    pub internal_clipboard: Option<TestStep>,
}

impl View for App {
    type V = AppView;

    open spec fn view(&self) -> AppView {
        AppView {
            config: self.config@,
            template_list: self.template_list@,
            window: self.window,
            msg_state: self.msg_state@,
            document: self.document@,
            longest_item_lens: self.longest_item_lens,
            register: register_view(self.internal_clipboard),
        }
    }
}

/// The rows of the table of templates for `templates`.
pub fn name_steps(templates: &Vec<Template>) -> (rows: Vec<TestStep>)
    ensures
        steps_view(rows@) == name_rows(crate::config::template_names(templates@)),
{
    let mut rows: Vec<TestStep> = Vec::new();
    let mut i: usize = 0;
    while i < templates.len()
        invariant
            i <= templates.len(),
            rows@.len() == i,
            steps_view(rows@) == name_rows(crate::config::template_names(templates@)).take(
                i as int,
            ),
        decreases templates.len() - i,
    {
        let ghost old_rows = rows@;
        let mut data = TestStep::new(false, false);
        data.instructions = templates[i].name.clone();
        assert(data@ == name_row(templates@[i as int].name@));
        rows.push(data);
        assert(steps_view(rows@) =~= name_rows(crate::config::template_names(templates@)).take(
            i + 1,
        )) by {
            let wanted = name_rows(crate::config::template_names(templates@));
            assert forall|k: int| 0 <= k < i + 1 implies #[trigger] steps_view(rows@)[k]
                == wanted.take(i + 1)[k] by {
                if k < i {
                    assert(steps_view(rows@)[k] == steps_view(old_rows)[k]);
                    assert(wanted.take(i as int)[k] == wanted[k]);
                }
            }
        }
        i = i + 1;
    }
    assert(name_rows(crate::config::template_names(templates@)).take(templates.len() as int)
        == name_rows(crate::config::template_names(templates@)));
    rows
}

impl App {
    /// The session at its start: an empty document, nothing in the
    /// register, the table of steps shown, one row for each template.
    pub fn new(config: Config) -> (app: App)
        ensures
            app@ == (AppView {
                config: config@,
                template_list: DocumentView {
                    steps: name_rows(config@.names),
                    selected: None,
                },
                window: Window::UAT,
                msg_state: MsgView::Default,
                document: DocumentView { steps: Seq::empty(), selected: None },
                longest_item_lens: (4u16, 0u16, 0u16, 0u16),
                register: None,
            }),
            app@.wf(),
    {
        let rows = name_steps(config.templates());
        let template_list = Document::from_items(rows, None);
        let _ = template_list.selected();
        let document = Document::new();
        let longest_item_lens = constraint_len_calculator(document.items().as_slice());
        App {
            template_list,
            config,
            window: Window::UAT,
            msg_state: MsgState::Default,
            document,
            longest_item_lens,
            internal_clipboard: None,
        }
    }

    /// The number of rows of the table that is shown.
    pub fn length_constraint(&self) -> (n: usize)
        ensures
            n == self@.length_constraint(),
    {
        match self.window {
            Window::UAT => self.document.len(),
            Window::Template => self.template_list.len(),
        }
    }

    /// Moves the selection of the table that is shown by `delta` rows,
    /// round its ends.
    pub fn delta_row_impl(&mut self, delta: isize)
        ensures
            final(self)@ == old(self)@.delta_row(delta as int),
    {
        match self.window {
            Window::UAT => self.document.move_selection(delta),
            Window::Template => self.template_list.move_selection(delta),
        }
    }

    /// Selects the next row, the first one behind the last.
    pub fn next_row(&mut self)
        ensures
            final(self)@ == old(self)@.delta_row(1),
    {
        self.delta_row_impl(1);
    }

    /// Selects the row before, the last one before the first.
    pub fn previous_row(&mut self)
        ensures
            final(self)@ == old(self)@.delta_row(-1),
    {
        self.delta_row_impl(-1);
    }

    /// The selected step and its index.
    pub fn grab_selection(&self) -> (r: Result<(usize, &TestStep), StateError>)
        ensures
            match r {
                Ok((i, step)) => self@.document.selected == Some(i as int) && i
                    < self@.document.steps.len() && step@ == self@.document.steps[i as int],
                Err(e) => e == StateError::NoSelection && self@.document.selected is None,
            },
    {
        match self.document.selected() {
            Some(i) => match self.document.get(i) {
                Ok(step) => Ok((i, step)),
                Err(_) => Err(StateError::NoSelection),
            },
            None => Err(StateError::NoSelection),
        }
    }

    /// The selected step, to be changed in place, and its index.
    pub fn grab_selection_as_mut(&mut self) -> (r: Result<(usize, &mut TestStep), StateError>)
        ensures
            match r {
                Ok((i, step)) => {
                    &&& old(self)@.document.selected == Some(i as int)
                    &&& i < old(self)@.document.steps.len()
                    &&& step@ == old(self)@.document.steps[i as int]
                    &&& final(self)@ == (AppView {
                        document: old(self)@.document.replace(i as int, final(step)@),
                        ..old(self)@
                    })
                },
                Err(e) => e == StateError::NoSelection && old(self)@.document.selected is None
                    && final(self)@ == old(self)@,
            },
    {
        match self.document.selected() {
            Some(i) => match self.document.get_mut(i) {
                Ok(step) => Ok((i, step)),
                Err(_) => Err(StateError::NoSelection),
            },
            None => Err(StateError::NoSelection),
        }
    }

    /// The markdown of the selected step.
    pub fn grab_selection_as_markdown(&self) -> (r: Result<String, StateError>)
        ensures
            match r {
                Ok(md) => self@.document.selected is Some && md@ == gen_markdown_spec(
                    self@.document.steps[self@.document.selected->0],
                ),
                Err(e) => e == StateError::NoSelection && self@.document.selected is None,
            },
    {
        match self.grab_selection() {
            Ok((_, step)) => Ok(step.gen_markdown()),
            Err(e) => Err(e),
        }
    }

    /// Copies the selected step to the register.
    pub fn yank(&mut self) -> (r: Result<MsgState, StateError>)
        ensures
            match old(self)@.yank() {
                Ok(next) => r is Ok && r->Ok_0@ == MsgView::Yanked && final(self)@ == next,
                Err(e) => r == Err::<MsgState, StateError>(e) && final(self)@ == old(self)@,
            },
    {
        let copy = match self.grab_selection() {
            Ok((_, step)) => step.clone(),
            Err(e) => {
                return Err(e);
            },
        };
        self.internal_clipboard = Some(copy);
        Ok(MsgState::Yanked)
    }

    /// Cuts the selected step: it leaves the document and goes to the
    /// register.
    pub fn delete_yank(&mut self) -> (r: Result<(), StateError>)
        ensures
            match old(self)@.delete_yank() {
                Ok(next) => r is Ok && final(self)@ == next,
                Err(e) => r == Err::<(), StateError>(e) && final(self)@ == old(self)@,
            },
    {
        let i = match self.document.selected() {
            Some(i) => i,
            None => {
                return Err(StateError::NoSelection);
            },
        };
        match self.document.remove(i) {
            Ok(step) => {
                self.internal_clipboard = Some(step);
                Ok(())
            },
            Err(_) => Err(StateError::NoSelection),
        }
    }

    /// The delete command: with both modifiers every step leaves the
    /// document, else the selected one is cut.
    pub fn handle_deletion(&mut self, ctrl: bool, shift: bool) -> (r: Result<(), StateError>)
        ensures
            match old(self)@.handle_deletion(ctrl, shift) {
                Ok(next) => r is Ok && final(self)@ == next,
                Err(e) => r == Err::<(), StateError>(e) && final(self)@ == old(self)@,
            },
    {
        if ctrl && shift {
            self.document.clear();
            assert(self@.document == old(self)@.clear_all().document);
            Ok(())
        } else {
            self.delete_yank()
        }
    }

    /// Pastes a copy of the register's step into the selected row or below
    /// it.
    pub fn paste(&mut self, direction: InsertDirection) -> (r: Result<(), StateError>)
        ensures
            match old(self)@.paste(direction) {
                Ok(next) => r is Ok && final(self)@ == next,
                Err(e) => r == Err::<(), StateError>(e) && final(self)@ == old(self)@,
            },
    {
        let i = match self.document.selected() {
            Some(i) => i,
            None => {
                return Err(StateError::NoSelection);
            },
        };
        let item = match &self.internal_clipboard {
            Some(step) => step.clone(),
            None => {
                return Err(StateError::EmptyRegister);
            },
        };
        let at = match direction {
            InsertDirection::Up => i,
            InsertDirection::Down => i + 1,
        };
        match self.document.insert(at, item) {
            Ok(()) => Ok(()),
            Err(_) => Err(StateError::NoSelection),
        }
    }

    /// Puts the step that the edited markdown `content` spells into the
    /// selected row, or below it.
    pub fn insert_step(&mut self, content: &String, direction: InsertDirection) -> (r: Result<
        (),
        ParseError,
    >)
        ensures
            match old(self)@.insert_step(content@, direction) {
                Ok(next) => r is Ok && final(self)@ == next,
                Err(e) => r == Err::<(), ParseError>(e) && final(self)@ == old(self)@,
            },
    {
        let new_data = match TestStep::parse_markdown(content) {
            Ok(step) => step,
            Err(e) => {
                return Err(e);
            },
        };
        match self.document.selected() {
            Some(i) => {
                let at = match direction {
                    InsertDirection::Up => i,
                    InsertDirection::Down => i + 1,
                };
                let _ = self.document.insert(at, new_data);
                let _ = self.document.select(at);
            },
            None => {
                let end = self.document.len();
                let _ = self.document.insert(end, new_data);
                let _ = self.document.select(0);
                assert(self@.document.steps == old(self)@.document.steps.push(new_data@));
            },
        }
        Ok(())
    }

    /// Puts the step that the edited markdown `content` spells in the place
    /// of the selected step.
    pub fn edit_existing(&mut self, content: &String) -> (r: Result<(), EditError>)
        ensures
            match old(self)@.edit_existing(content@) {
                Ok(next) => r is Ok && final(self)@ == next,
                Err(e) => r == Err::<(), EditError>(e) && final(self)@ == old(self)@,
            },
    {
        let (i, item) = match self.grab_selection_as_mut() {
            Ok(found) => found,
            Err(e) => {
                return Err(EditError::State(e));
            },
        };
        assert(old(self)@.document.steps.update(i as int, old(self)@.document.steps[i as int])
            == old(self)@.document.steps);
        match TestStep::parse_markdown(content) {
            Ok(new_data) => {
                *item = new_data;
                Ok(())
            },
            Err(e) => Err(EditError::Parse(e)),
        }
    }

    /// Replaces the document by `items`, as read from the clipboard.
    pub fn load_items(&mut self, items: Vec<TestStep>)
        ensures
            final(self)@ == old(self)@.load_items(steps_view(items@)),
    {
        let selected = self.document.selected();
        self.document = Document::from_items(items, selected);
        self.msg_state = MsgState::Loaded;
    }

    /// The page for the clipboard; `items_json` is the JSON text of the
    /// document's steps. What is embedded in the page is that text.
    pub fn gen_html(&self, items_json: &str) -> (r: Option<String>)
        ensures
            match r {
                Some(page) => {
                    &&& base64_fits(encode_utf8(items_json@).len())
                    &&& page@ == html_document(
                        table_html(self@.document.steps),
                        base64_text(encode_utf8(items_json@)),
                    )
                    &&& embedded_text(page@) == Ok::<Seq<char>, ParseError>(items_json@)
                },
                None => !base64_fits(encode_utf8(items_json@).len()),
            },
    {
        gen_html(self.document.items(), items_json)
    }

    /// How far the scrollbar stands: the height of the rows above the
    /// selected one, each of which is `ITEM_HEIGHT` lines high.
    pub fn scroll_position(&self) -> (position: usize)
        ensures
            position == scroll_position_spec(
                match self.window {
                    Window::UAT => self@.document.selected,
                    Window::Template => self@.template_list.selected,
                },
            ),
    {
        let selected = match self.window {
            Window::UAT => self.document.selected(),
            Window::Template => self.template_list.selected(),
        };
        match selected {
            Some(i) => if i <= usize::MAX / ITEM_HEIGHT {
                i * ITEM_HEIGHT
            } else {
                usize::MAX
            },
            None => 0,
        }
    }

    /// Shows the table of templates.
    pub fn switch_to_template_window(&mut self) -> (msg: MsgState)
        ensures
            final(self)@ == old(self)@.switch_to_template_window(),
            msg@ == MsgView::Default,
    {
        self.window = Window::Template;
        self.template_list.reselect(self.document.selected());
        MsgState::Default
    }

    /// Shows the table of steps.
    pub fn switch_to_uat_window(&mut self) -> (msg: MsgState)
        ensures
            final(self)@ == old(self)@.switch_to_uat_window(),
            msg@ == MsgView::Default,
    {
        self.window = Window::UAT;
        self.document.reselect(self.template_list.selected());
        MsgState::Default
    }

    /// Saves the steps of the document as the template called `name`.
    pub fn save_template(&mut self, name: String) -> (msg: MsgState)
        ensures
            final(self)@ == old(self)@.save_template(name@),
            final(self)@.config.load(name@) == Ok::<Seq<StepView>, StateError>(
                old(self)@.document.steps,
            ),
            msg@ == MsgView::DynamicMsg("Saved current UAT as template"@),
    {
        self.config.save(name, self.document.items());
        let rows = name_steps(self.config.templates());
        assert(rows@.len() == steps_view(rows@).len());
        self.template_list = Document::from_items(rows, self.template_list.selected());
        MsgState::DynamicMsg("Saved current UAT as template".to_owned())
    }

    /// The name in the selected row of the table of templates.
    pub fn selected_template(&self) -> (r: Result<(usize, String), StateError>)
        ensures
            match r {
                Ok((i, name)) => self@.template_list.selected == Some(i as int) && i
                    < self@.template_list.steps.len() && self@.selected_template() == Some(name@),
                Err(e) => e == StateError::NoSelection && self@.selected_template() is None,
            },
    {
        match self.template_list.selected() {
            Some(i) => match self.template_list.get(i) {
                Ok(row) => Ok((i, row.instructions.clone())),
                Err(_) => Err(StateError::NoSelection),
            },
            None => Err(StateError::NoSelection),
        }
    }

    /// Makes the steps of the selected template the document, and shows the
    /// table of steps.
    pub fn load_template(&mut self) -> (r: Result<MsgState, StateError>)
        ensures
            match old(self)@.load_template() {
                Ok(next) => r is Ok && r->Ok_0@ == MsgView::Default && final(self)@ == next,
                Err(e) => r == Err::<MsgState, StateError>(e) && final(self)@ == old(self)@,
            },
    {
        let (_, name) = match self.selected_template() {
            Ok(found) => found,
            Err(e) => {
                return Err(e);
            },
        };
        let steps = match self.config.load(name.as_str()) {
            Ok(steps) => steps,
            Err(e) => {
                return Err(e);
            },
        };
        self.document = Document::from_items(steps, self.template_list.selected());
        self.window = Window::UAT;
        Ok(MsgState::Default)
    }

    /// Takes the selected template out of the settings and returns its
    /// steps. The document stays as it is.
    pub fn delete_template(&mut self) -> (r: Result<Vec<TestStep>, StateError>)
        ensures
            match old(self)@.delete_template() {
                Ok(next) => r is Ok && final(self)@ == next && steps_view(r->Ok_0@)
                    == old(self)@.config.document(old(self)@.selected_template()->0),
                Err(e) => r == Err::<Vec<TestStep>, StateError>(e) && final(self)@ == old(self)@,
            },
    {
        let (i, name) = match self.selected_template() {
            Ok(found) => found,
            Err(e) => {
                return Err(e);
            },
        };
        let steps = match self.config.delete(name.as_str()) {
            Ok(steps) => steps,
            Err(e) => {
                return Err(e);
            },
        };
        let _ = self.template_list.remove(i);
        Ok(steps)
    }

    /// Puts the outcome of a command in the footer: `done` where it went
    /// well, else the error.
    fn log(&mut self, outcome: Result<(), StateError>, done: MsgState)
        ensures
            final(self)@ == old(self)@.with_msg(
                match outcome {
                    Ok(()) => done@,
                    Err(e) => MsgView::DynamicMsg(e.message_spec()),
                },
            ),
    {
        self.msg_state = match outcome {
            Ok(()) => done,
            Err(e) => MsgState::DynamicMsg(e.message()),
        };
    }

    /// Carries out `command` as far as that can be done here, and says what
    /// is left for the caller to do.
    pub fn execute(&mut self, command: Command) -> (action: Action)
        ensures
            (final(self)@, action@) == old(self)@.execute(command),
    {
        match command {
            Command::Idle => {
                self.msg_state = MsgState::Default;
                Action::Nothing
            },
            Command::Quit => Action::Quit,
            Command::NextRow => {
                self.next_row();
                self.msg_state = MsgState::Default;
                Action::Nothing
            },
            Command::PreviousRow => {
                self.previous_row();
                self.msg_state = MsgState::Default;
                Action::Nothing
            },
            Command::EditExisting => match self.grab_selection_as_markdown() {
                Ok(md) => Action::EditExisting(md),
                Err(e) => {
                    self.log(Err(e), MsgState::Default);
                    Action::Nothing
                },
            },
            Command::Yank => {
                match self.yank() {
                    Ok(done) => {
                        self.msg_state = done;
                    },
                    Err(e) => {
                        self.log(Err(e), MsgState::Default);
                    },
                }
                Action::Nothing
            },
            Command::CompileToClipboard => Action::CompileToClipboard,
            Command::LoadFromClipboard => Action::LoadFromClipboard,
            Command::Deletion { ctrl, shift } => {
                let outcome = self.handle_deletion(ctrl, shift);
                self.log(outcome, MsgState::Default);
                Action::Nothing
            },
            Command::Paste(direction) => {
                let outcome = self.paste(direction);
                self.log(outcome, MsgState::Default);
                Action::Nothing
            },
            Command::InsertStep(direction) => {
                let data = TestStep::new(false, false);
                Action::InsertStep(data.gen_markdown(), direction)
            },
            Command::SwitchToTemplates => {
                self.msg_state = self.switch_to_template_window();
                Action::Nothing
            },
            Command::LoadTemplate => {
                match self.load_template() {
                    Ok(done) => {
                        self.msg_state = done;
                    },
                    Err(e) => {
                        self.log(Err(e), MsgState::Default);
                    },
                }
                Action::Nothing
            },
            Command::Back => {
                self.msg_state = self.switch_to_uat_window();
                Action::Nothing
            },
            Command::DeleteTemplate => match self.delete_template() {
                Ok(_) => {
                    self.msg_state = MsgState::DynamicMsg("Deleted template".to_owned());
                    Action::SaveConfig
                },
                Err(e) => {
                    self.log(Err(e), MsgState::Default);
                    Action::Nothing
                },
            },
            Command::SaveTemplate => Action::SaveTemplate,
        }
    }

    /// Handles a key while the table of steps is shown.
    pub fn handle_uat_keys(&mut self, key: KeyPress) -> (action: Action)
        ensures
            (final(self)@, action@) == old(self)@.execute(uat_command(key)),
    {
        let command = uat_key(key);
        self.execute(command)
    }

    /// Handles a key while the table of templates is shown.
    pub fn handle_template_keys(&mut self, key: KeyPress) -> (action: Action)
        ensures
            (final(self)@, action@) == old(self)@.execute(template_command(key)),
    {
        let command = template_key(key);
        self.execute(command)
    }

    /// Handles a key: changes the session as far as that can be done here,
    /// and says what is left for the caller to do.
    pub fn handle_keys(&mut self, key: KeyPress) -> (action: Action)
        ensures
            (final(self)@, action@) == old(self)@.handle_keys(key),
    {
        match self.window {
            Window::UAT => self.handle_uat_keys(key),
            Window::Template => self.handle_template_keys(key),
        }
    }
}

/// The height of a row of the table, in lines.
pub const ITEM_HEIGHT: usize = 4;

/// How far the scrollbar stands with `selected` selected.
pub open spec fn scroll_position_spec(selected: Option<int>) -> usize {
    match selected {
        Some(i) => if i * ITEM_HEIGHT <= usize::MAX {
            (i * ITEM_HEIGHT) as usize
        } else {
            usize::MAX
        },
        None => 0,
    }
}

/// What the key `key` asks for while the table of steps is shown.
pub fn uat_key(key: KeyPress) -> (command: Command)
    ensures
        command == uat_command(key),
{
    if !key.press {
        return Command::Idle;
    }
    match key.key {
        Key::Char('q') => Command::Quit,
        Key::Char('j') | Key::Down => Command::NextRow,
        Key::Char('k') | Key::Up => Command::PreviousRow,
        Key::Enter => Command::EditExisting,
        Key::Char('y') => Command::Yank,
        Key::Char('$') => Command::CompileToClipboard,
        Key::Char('+') => Command::LoadFromClipboard,
        Key::Char('d') => Command::Deletion { ctrl: key.ctrl, shift: key.shift },
        Key::Char('p') => Command::Paste(InsertDirection::Down),
        Key::Char('P') => Command::Paste(InsertDirection::Up),
        Key::Char('o') => Command::InsertStep(InsertDirection::Down),
        Key::Char('O') => Command::InsertStep(InsertDirection::Up),
        Key::Char('t') => Command::SwitchToTemplates,
        _ => Command::Idle,
    }
}

/// What the key `key` asks for while the table of templates is shown.
pub fn template_key(key: KeyPress) -> (command: Command)
    ensures
        command == template_command(key),
{
    if !key.press {
        return Command::Idle;
    }
    match key.key {
        Key::Char('j') | Key::Down => Command::NextRow,
        Key::Char('k') | Key::Up => Command::PreviousRow,
        Key::Enter => Command::LoadTemplate,
        Key::Esc => Command::Back,
        Key::Char('q') => Command::Quit,
        Key::Char('d') => Command::DeleteTemplate,
        Key::Char('$') => Command::SaveTemplate,
        _ => Command::Idle,
    }
}

} // verus!
