use uat_editor::config::Config;
use uat_editor::err_msg::StateError;
use uat_editor::test_step::TestStep;

fn step(name: &str) -> TestStep {
    TestStep {
        is_stepless_comment: true,
        is_new_section: false,
        instructions: name.to_string(),
        expected_results: "e".to_string(),
        ac: "c".to_string(),
    }
}

fn texts(steps: &[TestStep]) -> Vec<&str> {
    steps.iter().map(|s| s.instructions.as_str()).collect()
}

fn names(config: &Config) -> Vec<&str> {
    config.templates().iter().map(|t| t.name.as_str()).collect()
}

#[test]
fn new_config_has_no_templates() {
    let config = Config::new("nvim".to_string());
    assert_eq!(config.editor(), "nvim");
    assert!(config.templates().is_empty());
    assert_eq!(config.load("x").unwrap_err(), StateError::NotFound);
}

#[test]
fn load_after_save_gives_what_was_saved() {
    let mut config = Config::new("vi".to_string());
    let mut live = vec![step("a"), step("b")];
    config.save("t".to_string(), &live);
    live.remove(0);
    live[0].instructions = "changed".to_string();
    let back = config.load("t").unwrap();
    assert_eq!(texts(&back), ["a", "b"]);
    assert!(back[0].is_stepless_comment);
    assert!(!back[0].is_new_section);
    assert_eq!(back[0].expected_results, "e");
    assert_eq!(back[0].ac, "c");
}

#[test]
fn a_loaded_copy_is_independent_of_the_store() {
    let mut config = Config::new("vi".to_string());
    config.save("t".to_string(), &vec![step("a")]);
    let mut back = config.load("t").unwrap();
    back[0].instructions = "changed".to_string();
    assert_eq!(texts(&config.load("t").unwrap()), ["a"]);
}

#[test]
fn save_under_an_old_name_replaces_in_place() {
    let mut config = Config::new("vi".to_string());
    config.save("one".to_string(), &vec![step("a")]);
    config.save("two".to_string(), &vec![step("b")]);
    config.save("one".to_string(), &vec![step("c"), step("d")]);
    assert_eq!(names(&config), ["one", "two"]);
    assert_eq!(texts(&config.load("one").unwrap()), ["c", "d"]);
    assert_eq!(texts(&config.load("two").unwrap()), ["b"]);
}

#[test]
fn names_differ_by_case_and_the_empty_name_is_a_name() {
    let mut config = Config::new("vi".to_string());
    config.save("a".to_string(), &vec![step("1")]);
    config.save("A".to_string(), &vec![step("2")]);
    config.save(String::new(), &vec![]);
    assert_eq!(names(&config), ["a", "A", ""]);
    assert_eq!(texts(&config.load("A").unwrap()), ["2"]);
    assert!(config.load("").unwrap().is_empty());
}

#[test]
fn delete_returns_the_steps_and_removes_the_name() {
    let mut config = Config::new("vi".to_string());
    config.save("one".to_string(), &vec![step("a")]);
    config.save("two".to_string(), &vec![step("b")]);
    config.save("three".to_string(), &vec![step("c")]);
    assert_eq!(texts(&config.delete("two").unwrap()), ["b"]);
    assert_eq!(names(&config), ["one", "three"]);
    assert_eq!(config.load("two").unwrap_err(), StateError::NotFound);
    assert_eq!(texts(&config.load("three").unwrap()), ["c"]);
    assert_eq!(config.editor(), "vi");
}

#[test]
fn delete_of_an_unknown_name_changes_nothing() {
    let mut config = Config::new("vi".to_string());
    config.save("one".to_string(), &vec![step("a")]);
    assert_eq!(config.delete("two").unwrap_err(), StateError::NotFound);
    assert_eq!(names(&config), ["one"]);
}
