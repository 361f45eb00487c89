use uat_editor::app::{
    template_key, uat_key, Action, App, Command, InsertDirection, Key, KeyPress, MsgState, Window,
};
use uat_editor::config::Config;
use uat_editor::document::Document;
use uat_editor::err_msg::{EditError, ParseError, Section, StateError};
use uat_editor::test_step::TestStep;

fn step(name: &str) -> TestStep {
    TestStep {
        is_stepless_comment: false,
        is_new_section: false,
        instructions: name.to_string(),
        expected_results: String::new(),
        ac: String::new(),
    }
}

fn app(names: &[&str], selected: Option<usize>) -> App {
    let mut app = App::new(Config::new("vi".to_string()));
    app.document = Document::from_items(names.iter().map(|n| step(n)).collect(), selected);
    app
}

fn names(app: &App) -> Vec<String> {
    app.document.items().iter().map(|s| s.instructions.clone()).collect()
}

fn template_names(app: &App) -> Vec<String> {
    app.template_list.items().iter().map(|s| s.instructions.clone()).collect()
}

fn register(app: &App) -> Option<String> {
    app.internal_clipboard.as_ref().map(|s| s.instructions.clone())
}

fn press(key: Key) -> KeyPress {
    KeyPress { key, shift: false, ctrl: false, press: true }
}

fn md(name: &str) -> String {
    format!("# Instructions\n{}\n\n# Expected Results\ne\n\n# AC\na", name)
}

fn dynamic(msg: &MsgState) -> &str {
    match msg {
        MsgState::DynamicMsg(text) => text,
        other => panic!("no dynamic message: {:?}", other),
    }
}

#[test]
fn new_session() {
    let app = App::new(Config::new("vi".to_string()));
    assert_eq!(app.document.len(), 0);
    assert_eq!(app.document.selected(), None);
    assert_eq!(app.template_list.len(), 0);
    assert_eq!(app.window, Window::UAT);
    assert!(matches!(app.msg_state, MsgState::Default));
    assert_eq!(app.longest_item_lens, (4, 0, 0, 0));
    assert!(app.internal_clipboard.is_none());
    assert_eq!(app.config.editor(), "vi");
}

#[test]
fn new_session_lists_the_templates() {
    let mut config = Config::new("vi".to_string());
    config.save("one".to_string(), &vec![step("a")]);
    config.save("two".to_string(), &vec![]);
    let app = App::new(config);
    assert_eq!(template_names(&app), ["one", "two"]);
    assert_eq!(app.template_list.selected(), None);
    let row = app.template_list.get(0).unwrap();
    assert_eq!(row.expected_results, "");
    assert_eq!(row.ac, "");
    assert!(!row.is_new_section);
    assert!(!row.is_stepless_comment);
}

#[test]
fn length_constraint_follows_the_window() {
    let mut a = app(&["a", "b", "c"], None);
    a.save_template("t".to_string());
    assert_eq!(a.length_constraint(), 3);
    a.switch_to_template_window();
    assert_eq!(a.length_constraint(), 1);
}

#[test]
fn next_and_previous_row_wrap() {
    let mut a = app(&["a", "b", "c"], Some(2));
    a.next_row();
    assert_eq!(a.document.selected(), Some(0));
    a.previous_row();
    assert_eq!(a.document.selected(), Some(2));
    a.previous_row();
    assert_eq!(a.document.selected(), Some(1));
    a.delta_row_impl(-5);
    assert_eq!(a.document.selected(), Some(2));
}

#[test]
fn rows_move_in_the_window_that_is_shown() {
    let mut a = app(&["a", "b", "c"], Some(2));
    a.save_template("one".to_string());
    a.save_template("two".to_string());
    a.switch_to_template_window();
    assert_eq!(a.template_list.selected(), Some(1));
    a.next_row();
    assert_eq!(a.template_list.selected(), Some(0));
    assert_eq!(a.document.selected(), Some(2));
}

#[test]
fn scroll_position_is_four_lines_a_row() {
    let mut a = app(&["a", "b", "c"], Some(2));
    assert_eq!(a.scroll_position(), 8);
    a.document.reselect(None);
    assert_eq!(a.scroll_position(), 0);
}

#[test]
fn yank_copies_the_selected_step() {
    let mut a = app(&["a", "b"], Some(1));
    assert!(matches!(a.yank(), Ok(MsgState::Yanked)));
    assert_eq!(register(&a).as_deref(), Some("b"));
    assert_eq!(names(&a), ["a", "b"]);
    assert_eq!(a.document.selected(), Some(1));
}

#[test]
fn yank_without_selection() {
    let mut a = app(&["a", "b"], None);
    assert_eq!(a.yank().unwrap_err(), StateError::NoSelection);
    assert_eq!(register(&a), None);
    let mut e = app(&[], Some(0));
    assert_eq!(e.yank().unwrap_err(), StateError::NoSelection);
}

#[test]
fn cut_moves_the_selected_step_to_the_register() {
    let mut a = app(&["a", "b", "c"], Some(1));
    a.delete_yank().unwrap();
    assert_eq!(names(&a), ["a", "c"]);
    assert_eq!(register(&a).as_deref(), Some("b"));
    assert_eq!(a.document.selected(), Some(1));
}

#[test]
fn cut_without_selection_changes_nothing() {
    let mut a = app(&["a", "b"], None);
    a.internal_clipboard = Some(step("r"));
    assert_eq!(a.delete_yank().unwrap_err(), StateError::NoSelection);
    assert_eq!(names(&a), ["a", "b"]);
    assert_eq!(register(&a).as_deref(), Some("r"));
}

#[test]
fn cut_then_paste_down_from_the_last_row_restores_the_document() {
    let mut a = app(&["a", "b", "c"], Some(2));
    a.delete_yank().unwrap();
    assert_eq!(a.document.selected(), Some(1));
    a.paste(InsertDirection::Down).unwrap();
    assert_eq!(names(&a), ["a", "b", "c"]);
    assert_eq!(register(&a).as_deref(), Some("c"));
}

#[test]
fn cut_then_paste_down_from_another_row_puts_the_step_one_row_down() {
    let mut a = app(&["a", "b", "c", "d"], Some(1));
    a.delete_yank().unwrap();
    a.paste(InsertDirection::Down).unwrap();
    assert_eq!(names(&a), ["a", "c", "b", "d"]);
    assert_eq!(a.document.selected(), Some(1));
    let mut f = app(&["a", "b"], Some(0));
    f.delete_yank().unwrap();
    f.paste(InsertDirection::Down).unwrap();
    assert_eq!(names(&f), ["b", "a"]);
}

#[test]
fn cut_of_the_only_step_leaves_nothing_to_paste_below() {
    let mut a = app(&["a"], Some(0));
    a.delete_yank().unwrap();
    assert_eq!(a.document.len(), 0);
    assert_eq!(a.document.selected(), None);
    assert_eq!(a.paste(InsertDirection::Down).unwrap_err(), StateError::NoSelection);
    assert_eq!(register(&a).as_deref(), Some("a"));
}

#[test]
fn paste_up_and_down() {
    let mut a = app(&["a", "b"], Some(0));
    a.internal_clipboard = Some(step("r"));
    a.paste(InsertDirection::Up).unwrap();
    assert_eq!(names(&a), ["r", "a", "b"]);
    assert_eq!(a.document.selected(), Some(0));
    a.paste(InsertDirection::Down).unwrap();
    assert_eq!(names(&a), ["r", "r", "a", "b"]);
    assert_eq!(register(&a).as_deref(), Some("r"));
}

#[test]
fn paste_errors() {
    let mut a = app(&["a"], Some(0));
    assert_eq!(a.paste(InsertDirection::Up).unwrap_err(), StateError::EmptyRegister);
    let mut b = app(&["a"], None);
    b.internal_clipboard = Some(step("r"));
    assert_eq!(b.paste(InsertDirection::Up).unwrap_err(), StateError::NoSelection);
    let mut c = app(&["a"], None);
    assert_eq!(c.paste(InsertDirection::Down).unwrap_err(), StateError::NoSelection);
    assert_eq!(names(&b), ["a"]);
}

#[test]
fn handle_deletion_clears_all_with_both_modifiers() {
    let mut a = app(&["a", "b"], Some(0));
    a.internal_clipboard = Some(step("r"));
    a.handle_deletion(true, true).unwrap();
    assert_eq!(a.document.len(), 0);
    assert_eq!(a.document.selected(), None);
    assert_eq!(register(&a).as_deref(), Some("r"));
    let mut b = app(&["a", "b"], Some(0));
    b.handle_deletion(true, false).unwrap();
    assert_eq!(names(&b), ["b"]);
    assert_eq!(register(&b).as_deref(), Some("a"));
    let mut c = app(&["a", "b"], None);
    assert_eq!(c.handle_deletion(false, true).unwrap_err(), StateError::NoSelection);
    c.handle_deletion(true, true).unwrap();
    assert_eq!(c.document.len(), 0);
}

#[test]
fn insert_step_up_down_and_without_selection() {
    let mut a = app(&["a", "b"], Some(0));
    a.insert_step(&md("x"), InsertDirection::Up).unwrap();
    assert_eq!(a.document.get(0).unwrap().instructions(), "x");
    assert_eq!(a.document.len(), 3);
    assert_eq!(a.document.selected(), Some(0));
    a.insert_step(&md("y"), InsertDirection::Down).unwrap();
    assert_eq!(a.document.get(1).unwrap().instructions(), "y");
    assert_eq!(a.document.get(1).unwrap().expected_results(), "e");
    assert_eq!(a.document.get(1).unwrap().ac(), "a");
    assert_eq!(a.document.selected(), Some(1));
    let mut b = app(&["a", "b"], None);
    b.insert_step(&md("z"), InsertDirection::Up).unwrap();
    assert_eq!(b.document.get(2).unwrap().instructions(), "z");
    assert_eq!(b.document.selected(), Some(0));
    let mut c = app(&[], None);
    c.insert_step(&md("z"), InsertDirection::Down).unwrap();
    assert_eq!(c.document.len(), 1);
    assert_eq!(c.document.selected(), Some(0));
}

#[test]
fn insert_step_with_bad_markdown_changes_nothing() {
    let mut a = app(&["a", "b"], Some(0));
    let r = a.insert_step(&"nothing".to_string(), InsertDirection::Down);
    assert_eq!(r.unwrap_err(), ParseError::MissingSection(Section::Instructions));
    assert_eq!(names(&a), ["a", "b"]);
    assert_eq!(a.document.selected(), Some(0));
}

#[test]
fn edit_existing_replaces_the_selected_step() {
    let mut a = app(&["a", "b"], Some(1));
    a.edit_existing(&md("new")).unwrap();
    assert_eq!(a.document.get(1).unwrap().instructions(), "new");
    assert_eq!(a.document.get(0).unwrap().instructions, "a");
    assert_eq!(a.document.len(), 2);
    assert_eq!(a.document.selected(), Some(1));
}

#[test]
fn edit_existing_errors() {
    let mut a = app(&["a", "b"], None);
    assert_eq!(a.edit_existing(&md("x")).unwrap_err(), EditError::State(StateError::NoSelection));
    let mut b = app(&["a", "b"], Some(0));
    assert_eq!(
        b.edit_existing(&"# Instructions # Expected Results".to_string()).unwrap_err(),
        EditError::Parse(ParseError::MissingSection(Section::Ac))
    );
    assert_eq!(names(&b), ["a", "b"]);
}

#[test]
fn grab_selection_as_markdown_renders_the_selected_step() {
    let a = app(&["a", "b"], Some(1));
    assert_eq!(
        a.grab_selection_as_markdown().unwrap(),
        "# Instructions\nb\n\n# Expected Results\n\n\n# AC\n"
    );
    let b = app(&["a"], None);
    assert_eq!(b.grab_selection_as_markdown().unwrap_err(), StateError::NoSelection);
    assert_eq!(b.grab_selection().unwrap_err(), StateError::NoSelection);
    let (i, s) = a.grab_selection().unwrap();
    assert_eq!((i, s.instructions.as_str()), (1, "b"));
}

#[test]
fn grab_selection_as_mut_gives_the_selected_step() {
    let mut a = app(&["a", "b"], Some(1));
    let (i, s) = a.grab_selection_as_mut().unwrap();
    assert_eq!(i, 1);
    s.ac = "x".to_string();
    assert_eq!(a.document.get(1).unwrap().ac, "x");
    let mut b = app(&["a"], None);
    assert_eq!(b.grab_selection_as_mut().unwrap_err(), StateError::NoSelection);
}

#[test]
fn load_items_replaces_the_document() {
    let mut a = app(&["a", "b", "c"], Some(2));
    a.load_items(vec![step("x")]);
    assert_eq!(names(&a), ["x"]);
    assert_eq!(a.document.selected(), Some(0));
    assert!(matches!(a.msg_state, MsgState::Loaded));
    a.load_items(vec![]);
    assert_eq!(a.document.selected(), None);
}

#[test]
fn gen_html_embeds_the_text_it_is_given() {
    let a = app(&["**bold**"], Some(0));
    let page = a.gen_html("[0]").unwrap();
    assert!(page.contains("<strong>bold</strong>"));
    assert_eq!(uat_editor::clipboard::parse_clipboard_context(&page).unwrap(), "[0]");
}

#[test]
fn template_save_then_load() {
    let mut a = app(&["a", "b"], Some(1));
    let msg = a.save_template("mine".to_string());
    assert_eq!(dynamic(&msg), "Saved current UAT as template");
    assert_eq!(template_names(&a), ["mine"]);
    a.delete_yank().unwrap();
    a.insert_step(&md("x"), InsertDirection::Up).unwrap();
    let stored = a.config.load("mine").unwrap();
    assert_eq!(stored.iter().map(|s| s.instructions.as_str()).collect::<Vec<_>>(), ["a", "b"]);
    a.switch_to_template_window();
    assert_eq!(a.template_list.selected(), Some(0));
    assert!(matches!(a.load_template(), Ok(MsgState::Default)));
    assert_eq!(names(&a), ["a", "b"]);
    assert_eq!(a.window, Window::UAT);
    assert_eq!(a.document.selected(), Some(0));
}

#[test]
fn load_template_errors() {
    let mut a = app(&["a"], None);
    a.save_template("mine".to_string());
    assert_eq!(a.load_template().unwrap_err(), StateError::NoSelection);
    a.template_list.select(0).unwrap();
    a.config.delete("mine").unwrap();
    assert_eq!(a.load_template().unwrap_err(), StateError::NotFound);
    assert_eq!(names(&a), ["a"]);
    assert_eq!(a.window, Window::UAT);
}

#[test]
fn delete_template_returns_the_steps_and_keeps_the_document() {
    let mut a = app(&["a"], Some(0));
    a.save_template("one".to_string());
    a.load_items(vec![step("b"), step("c")]);
    a.save_template("two".to_string());
    a.switch_to_template_window();
    a.template_list.select(0).unwrap();
    let steps = a.delete_template().unwrap();
    assert_eq!(steps.len(), 1);
    assert_eq!(steps[0].instructions, "a");
    assert_eq!(template_names(&a), ["two"]);
    assert_eq!(names(&a), ["b", "c"]);
    assert_eq!(a.config.load("one").unwrap_err(), StateError::NotFound);
    assert_eq!(a.config.load("two").unwrap().len(), 2);
}

#[test]
fn delete_template_errors_change_nothing() {
    let mut a = app(&["a"], None);
    a.save_template("one".to_string());
    assert_eq!(a.delete_template().unwrap_err(), StateError::NoSelection);
    a.template_list.select(0).unwrap();
    a.config.delete("one").unwrap();
    assert_eq!(a.delete_template().unwrap_err(), StateError::NotFound);
    assert_eq!(template_names(&a), ["one"]);
}

#[test]
fn window_switch_carries_the_selection() {
    let mut a = app(&["a", "b", "c"], Some(2));
    a.save_template("one".to_string());
    assert!(matches!(a.switch_to_template_window(), MsgState::Default));
    assert_eq!(a.window, Window::Template);
    assert_eq!(a.template_list.selected(), Some(0));
    assert!(matches!(a.switch_to_uat_window(), MsgState::Default));
    assert_eq!(a.window, Window::UAT);
    assert_eq!(a.document.selected(), Some(0));
}

#[test]
fn log_err_msg_values() {
    assert!(matches!(MsgState::log_err_msg(Ok::<u8, String>(3)), MsgState::Default));
    assert_eq!(dynamic(&MsgState::log_err_msg(Err::<u8, String>("bad".to_string()))), "bad");
    assert!(matches!(MsgState::log_err_msg_or(Ok(MsgState::Yanked)), MsgState::Yanked));
    assert_eq!(dynamic(&MsgState::log_err_msg_or(Err("bad".to_string()))), "bad");
}

#[test]
fn uat_key_bindings() {
    assert_eq!(uat_key(press(Key::Char('q'))), Command::Quit);
    assert_eq!(uat_key(press(Key::Char('j'))), Command::NextRow);
    assert_eq!(uat_key(press(Key::Down)), Command::NextRow);
    assert_eq!(uat_key(press(Key::Char('k'))), Command::PreviousRow);
    assert_eq!(uat_key(press(Key::Up)), Command::PreviousRow);
    assert_eq!(uat_key(press(Key::Enter)), Command::EditExisting);
    assert_eq!(uat_key(press(Key::Char('y'))), Command::Yank);
    assert_eq!(uat_key(press(Key::Char('$'))), Command::CompileToClipboard);
    assert_eq!(uat_key(press(Key::Char('+'))), Command::LoadFromClipboard);
    assert_eq!(uat_key(press(Key::Char('d'))), Command::Deletion { ctrl: false, shift: false });
    assert_eq!(
        uat_key(KeyPress { key: Key::Char('d'), shift: true, ctrl: true, press: true }),
        Command::Deletion { ctrl: true, shift: true }
    );
    assert_eq!(uat_key(press(Key::Char('p'))), Command::Paste(InsertDirection::Down));
    assert_eq!(uat_key(press(Key::Char('P'))), Command::Paste(InsertDirection::Up));
    assert_eq!(uat_key(press(Key::Char('o'))), Command::InsertStep(InsertDirection::Down));
    assert_eq!(uat_key(press(Key::Char('O'))), Command::InsertStep(InsertDirection::Up));
    assert_eq!(uat_key(press(Key::Char('t'))), Command::SwitchToTemplates);
    assert_eq!(uat_key(press(Key::Esc)), Command::Idle);
    assert_eq!(uat_key(press(Key::Other)), Command::Idle);
    assert_eq!(uat_key(press(Key::Char('x'))), Command::Idle);
    assert_eq!(
        uat_key(KeyPress { key: Key::Char('q'), shift: false, ctrl: false, press: false }),
        Command::Idle
    );
}

#[test]
fn template_key_bindings() {
    assert_eq!(template_key(press(Key::Char('j'))), Command::NextRow);
    assert_eq!(template_key(press(Key::Down)), Command::NextRow);
    assert_eq!(template_key(press(Key::Char('k'))), Command::PreviousRow);
    assert_eq!(template_key(press(Key::Up)), Command::PreviousRow);
    assert_eq!(template_key(press(Key::Enter)), Command::LoadTemplate);
    assert_eq!(template_key(press(Key::Esc)), Command::Back);
    assert_eq!(template_key(press(Key::Char('q'))), Command::Quit);
    assert_eq!(template_key(press(Key::Char('d'))), Command::DeleteTemplate);
    assert_eq!(template_key(press(Key::Char('$'))), Command::SaveTemplate);
    assert_eq!(template_key(press(Key::Char('y'))), Command::Idle);
    assert_eq!(
        template_key(KeyPress { key: Key::Enter, shift: false, ctrl: false, press: false }),
        Command::Idle
    );
}

#[test]
fn keys_in_the_table_of_steps() {
    let mut a = app(&["a", "b"], Some(0));
    a.msg_state = MsgState::Loaded;
    assert!(matches!(a.handle_keys(press(Key::Char('j'))), Action::Nothing));
    assert_eq!(a.document.selected(), Some(1));
    assert!(matches!(a.msg_state, MsgState::Default));
    assert!(matches!(a.handle_keys(press(Key::Char('y'))), Action::Nothing));
    assert!(matches!(a.msg_state, MsgState::Yanked));
    assert!(matches!(a.handle_keys(press(Key::Char('q'))), Action::Quit));
    assert!(matches!(a.msg_state, MsgState::Yanked));
    assert!(matches!(a.handle_keys(press(Key::Char('P'))), Action::Nothing));
    assert_eq!(names(&a), ["a", "b", "b"]);
    assert!(matches!(a.msg_state, MsgState::Default));
    assert!(matches!(a.handle_keys(press(Key::Char('d'))), Action::Nothing));
    assert_eq!(names(&a), ["a", "b"]);
    assert!(matches!(a.handle_keys(press(Key::Char('$'))), Action::CompileToClipboard));
    assert!(matches!(a.handle_keys(press(Key::Char('+'))), Action::LoadFromClipboard));
    match a.handle_keys(press(Key::Enter)) {
        Action::EditExisting(text) => {
            assert_eq!(text, "# Instructions\nb\n\n# Expected Results\n\n\n# AC\n")
        }
        other => panic!("{:?}", other),
    }
    match a.handle_keys(press(Key::Char('o'))) {
        Action::InsertStep(text, direction) => {
            assert_eq!(text, "# Instructions\n\n\n# Expected Results\n\n\n# AC\n");
            assert_eq!(direction, InsertDirection::Down);
        }
        other => panic!("{:?}", other),
    }
    match a.handle_keys(press(Key::Char('O'))) {
        Action::InsertStep(_, direction) => assert_eq!(direction, InsertDirection::Up),
        other => panic!("{:?}", other),
    }
    assert!(matches!(a.handle_keys(press(Key::Char('t'))), Action::Nothing));
    assert_eq!(a.window, Window::Template);
}

#[test]
fn keys_that_fail_put_the_error_in_the_footer() {
    let mut a = app(&["a"], None);
    assert!(matches!(a.handle_keys(press(Key::Char('y'))), Action::Nothing));
    assert_eq!(dynamic(&a.msg_state), "No item is currently selected");
    assert!(matches!(a.handle_keys(press(Key::Enter)), Action::Nothing));
    assert_eq!(dynamic(&a.msg_state), "No item is currently selected");
    assert!(matches!(a.handle_keys(press(Key::Char('d'))), Action::Nothing));
    assert_eq!(dynamic(&a.msg_state), "No item is currently selected");
    a.document.select(0).unwrap();
    assert!(matches!(a.handle_keys(press(Key::Char('p'))), Action::Nothing));
    assert_eq!(dynamic(&a.msg_state), "No step in internal register");
    assert_eq!(names(&a), ["a"]);
}

#[test]
fn keys_in_the_table_of_templates() {
    let mut a = app(&["a", "b"], Some(1));
    a.save_template("one".to_string());
    a.save_template("two".to_string());
    a.handle_keys(press(Key::Char('t')));
    assert_eq!(a.template_list.selected(), Some(1));
    assert!(matches!(a.handle_keys(press(Key::Char('k'))), Action::Nothing));
    assert_eq!(a.template_list.selected(), Some(0));
    assert!(matches!(a.handle_keys(press(Key::Char('$'))), Action::SaveTemplate));
    assert!(matches!(a.handle_keys(press(Key::Char('q'))), Action::Quit));
    assert!(matches!(a.handle_keys(press(Key::Char('y'))), Action::Nothing));
    assert!(a.internal_clipboard.is_none());
    assert!(matches!(a.handle_keys(press(Key::Char('d'))), Action::SaveConfig));
    assert_eq!(dynamic(&a.msg_state), "Deleted template");
    assert_eq!(template_names(&a), ["two"]);
    assert_eq!(names(&a), ["a", "b"]);
    a.load_items(vec![]);
    assert!(matches!(a.handle_keys(press(Key::Enter)), Action::Nothing));
    assert_eq!(a.window, Window::UAT);
    assert_eq!(names(&a), ["a", "b"]);
    assert!(matches!(a.msg_state, MsgState::Default));
    a.handle_keys(press(Key::Char('t')));
    assert!(matches!(a.handle_keys(press(Key::Esc)), Action::Nothing));
    assert_eq!(a.window, Window::UAT);
}

#[test]
fn template_keys_that_fail_put_the_error_in_the_footer() {
    let mut a = app(&["a"], None);
    a.handle_keys(press(Key::Char('t')));
    assert!(matches!(a.handle_keys(press(Key::Enter)), Action::Nothing));
    assert_eq!(dynamic(&a.msg_state), "No item is currently selected");
    assert_eq!(a.window, Window::Template);
    assert!(matches!(a.handle_keys(press(Key::Char('d'))), Action::Nothing));
    assert_eq!(dynamic(&a.msg_state), "No item is currently selected");
}

#[test]
fn execute_idle_resets_the_footer() {
    let mut a = app(&["a"], Some(0));
    a.msg_state = MsgState::Compile;
    assert!(matches!(a.execute(Command::Idle), Action::Nothing));
    assert!(matches!(a.msg_state, MsgState::Default));
    a.msg_state = MsgState::Compile;
    let release = KeyPress { key: Key::Char('j'), shift: false, ctrl: false, press: false };
    assert!(matches!(a.handle_uat_keys(release), Action::Nothing));
    assert_eq!(a.document.selected(), Some(0));
    assert!(matches!(a.msg_state, MsgState::Default));
    assert!(matches!(a.handle_template_keys(press(Key::Esc)), Action::Nothing));
}
