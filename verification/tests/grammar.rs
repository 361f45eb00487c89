use uat_editor::err_msg::{ParseError, Section};
use uat_editor::test_step::{ret_false, TestStep};
use uat_editor::text::{decimal_string, find, to_chars, trim};

fn step(instructions: &str, expected_results: &str, ac: &str) -> TestStep {
    TestStep {
        is_stepless_comment: false,
        is_new_section: false,
        instructions: instructions.to_string(),
        expected_results: expected_results.to_string(),
        ac: ac.to_string(),
    }
}

fn parse(text: &str) -> Result<TestStep, ParseError> {
    TestStep::parse_markdown(&text.to_string())
}

#[test]
fn ret_false_is_false() {
    assert!(!ret_false());
}

#[test]
fn new_step_is_empty_with_given_marks() {
    let s = TestStep::new(true, false);
    assert!(s.is_stepless_comment);
    assert!(!s.is_new_section);
    assert_eq!(s.instructions, "");
    assert_eq!(s.expected_results, "");
    assert_eq!(s.ac, "");
    let t = TestStep::new(false, true);
    assert!(!t.is_stepless_comment);
    assert!(t.is_new_section);
}

#[test]
fn accessors_trim_without_changing_the_step() {
    let s = step("  Do X \n", "\tY\u{a0}", "\u{3000}Z\r\n");
    assert_eq!(s.instructions(), "Do X");
    assert_eq!(s.expected_results(), "Y");
    assert_eq!(s.ac(), "Z");
    assert_eq!(s.instructions, "  Do X \n");
    assert_eq!(s.expected_results, "\tY\u{a0}");
    assert_eq!(s.ac, "\u{3000}Z\r\n");
}

#[test]
fn ref_array_holds_the_three_trimmed_texts() {
    let s = step(" a ", " b", "c ");
    let texts = s.ref_array();
    assert_eq!(texts[0], "a");
    assert_eq!(texts[1], "b");
    assert_eq!(texts[2], "c");
}

#[test]
fn trim_agrees_with_the_standard_library() {
    let samples = [
        "",
        " ",
        "\n\n",
        "a",
        " a",
        "a ",
        "  a b  ",
        "\u{85}x\u{85}",
        "\u{1680}x\u{2000}\u{200a}",
        "\u{2028}x\u{2029}",
        "\u{202f}x\u{205f}",
        "\u{200b}x\u{200b}",
        "\u{180e}x",
        "\u{feff}x",
        "\u{0b}\u{0c}x\u{1c}",
        "\u{1f}x\u{1f}",
        "é \u{3000}",
    ];
    for s in samples {
        assert_eq!(trim(s), s.trim(), "trimming {:?}", s);
    }
}

#[test]
fn white_space_is_what_the_standard_library_says() {
    for code in 0u32..0x11000 {
        if let Some(c) = char::from_u32(code) {
            assert_eq!(uat_editor::text::white_space(c), c.is_whitespace(), "U+{:04X}", code);
        }
    }
}

#[test]
fn parse_concrete_scenario() {
    let s = parse("# Instructions\nDo X\n\n# Expected Results\nY happens\n\n# AC\nZ").unwrap();
    assert_eq!(s.instructions(), "Do X");
    assert_eq!(s.expected_results(), "Y happens");
    assert_eq!(s.ac(), "Z");
    assert!(!s.is_new_section);
    assert!(!s.is_stepless_comment);
}

#[test]
fn parse_keeps_the_text_between_headers_as_it_stands() {
    let s = parse("# Instructions\nDo X\n\n# Expected Results\nY happens\n\n# AC\nZ").unwrap();
    assert_eq!(s.instructions, "\nDo X\n\n");
    assert_eq!(s.expected_results, "\nY happens\n\n");
    assert_eq!(s.ac, "\nZ");
}

#[test]
fn parse_takes_everything_behind_the_ac_header() {
    let s = parse("# instructions# expected results# acX").unwrap();
    assert_eq!(s.instructions, "");
    assert_eq!(s.expected_results, "");
    assert_eq!(s.ac, "X");
    let t = parse("# instructions# expected results# ac").unwrap();
    assert_eq!(t.ac, "");
}

#[test]
fn parse_ignores_letter_case_of_headers() {
    let s = parse("intro # INSTRUCTIONS a # eXpEcTeD rEsUlTs b # Ac c").unwrap();
    assert_eq!(s.instructions, " a ");
    assert_eq!(s.expected_results, " b ");
    assert_eq!(s.ac, " c");
}

#[test]
fn parse_new_section() {
    let s = parse("# New Section\nn\n\n# Expected Results\ne\n\n# AC\na").unwrap();
    assert!(s.is_new_section);
    assert!(!s.is_stepless_comment);
    assert_eq!(s.instructions(), "n");
}

#[test]
fn parse_comment_section() {
    let s = parse("# Comment Section\nc\n\n# Expected Results\ne\n\n# AC\na").unwrap();
    assert!(!s.is_new_section);
    assert!(s.is_stepless_comment);
    assert_eq!(s.instructions(), "c");
}

#[test]
fn parse_prefers_new_section_over_the_other_opening_headers() {
    let s = parse("# Instructions i # Comment Section c # New Section n # Expected Results e # AC a")
        .unwrap();
    assert!(s.is_new_section);
    assert!(!s.is_stepless_comment);
    assert_eq!(s.instructions(), "n");
    let t = parse("# Instructions i # Comment Section c # Expected Results e # AC a").unwrap();
    assert!(!t.is_new_section);
    assert!(t.is_stepless_comment);
    assert_eq!(t.instructions(), "c");
}

#[test]
fn parse_uses_the_first_occurrence_of_each_header() {
    let s = parse("# Instructions a # Expected Results b # AC c # AC d # Expected Results e").unwrap();
    assert_eq!(s.instructions(), "a");
    assert_eq!(s.expected_results(), "b");
    assert_eq!(s.ac(), "c # AC d # Expected Results e");
}

#[test]
fn parse_looks_for_expected_results_behind_the_opening_header_only() {
    let r = parse("# Expected Results early # Instructions a # AC c");
    assert_eq!(r.unwrap_err(), ParseError::MissingSection(Section::ExpectedResults));
    let s = parse("# AC early # Instructions a # Expected Results b # AC c").unwrap();
    assert_eq!(s.instructions(), "a");
    assert_eq!(s.expected_results(), "b");
    assert_eq!(s.ac(), "c");
}

#[test]
fn parse_works_on_text_beyond_ascii() {
    let s = parse("İİ # Instructions\nÄpfel İ\n# Expected Results\n世界\n# AC\nσς").unwrap();
    assert_eq!(s.instructions(), "Äpfel İ");
    assert_eq!(s.expected_results(), "世界");
    assert_eq!(s.ac(), "σς");
}

#[test]
fn parse_missing_instructions() {
    assert_eq!(parse("").unwrap_err(), ParseError::MissingSection(Section::Instructions));
    assert_eq!(
        parse("# Expected Results\nx\n# AC\ny").unwrap_err(),
        ParseError::MissingSection(Section::Instructions)
    );
    assert_eq!(
        parse("#Instructions # Expected Results # AC").unwrap_err(),
        ParseError::MissingSection(Section::Instructions)
    );
}

#[test]
fn parse_missing_expected_results() {
    assert_eq!(
        parse("# Instructions\nx\n# AC\ny").unwrap_err(),
        ParseError::MissingSection(Section::ExpectedResults)
    );
}

#[test]
fn parse_missing_ac() {
    assert_eq!(
        parse("# Instructions\nx\n# Expected Results\ny").unwrap_err(),
        ParseError::MissingSection(Section::Ac)
    );
    assert_eq!(
        parse("# AC # Instructions\nx\n# Expected Results\ny").unwrap_err(),
        ParseError::MissingSection(Section::Ac)
    );
}

#[test]
fn gen_markdown_exact_text() {
    let s = step("  Do X ", "Y happens\n", "\nZ");
    assert_eq!(
        s.gen_markdown(),
        "# Instructions\nDo X\n\n# Expected Results\nY happens\n\n# AC\nZ"
    );
}

#[test]
fn gen_markdown_of_a_blank_step() {
    let s = TestStep::new(false, false);
    assert_eq!(s.gen_markdown(), "# Instructions\n\n\n# Expected Results\n\n\n# AC\n");
}

#[test]
fn gen_markdown_opening_header_follows_the_marks() {
    let mut s = step("a", "b", "c");
    s.is_new_section = true;
    assert!(s.gen_markdown().starts_with("# New Section\na\n\n"));
    s.is_stepless_comment = true;
    assert!(s.gen_markdown().starts_with("# New Section\na\n\n"));
    s.is_new_section = false;
    assert!(s.gen_markdown().starts_with("# Comment Section\na\n\n"));
}

fn round_trips(s: &TestStep) {
    let back = TestStep::parse_markdown(&s.gen_markdown()).unwrap();
    assert_eq!(back.is_new_section, s.is_new_section);
    assert_eq!(back.is_stepless_comment, s.is_stepless_comment);
    assert_eq!(back.instructions(), s.instructions());
    assert_eq!(back.expected_results(), s.expected_results());
    assert_eq!(back.ac(), s.ac());
}

#[test]
fn grammar_round_trip_on_examples() {
    round_trips(&TestStep::new(false, false));
    round_trips(&TestStep::new(true, false));
    round_trips(&TestStep::new(false, true));
    round_trips(&step("Do X", "Y happens", "Z"));
    round_trips(&step("  line one\nline two\n\n", "# not a header\n#ac", "a # b"));
    round_trips(&step("#", "# ", "# a"));
    round_trips(&step("İ 世界", "\u{3000}x\u{3000}", "# Instruction"));
    let mut s = step("new", "section", "here");
    s.is_new_section = true;
    round_trips(&s);
    let mut c = step("a comment", "", "");
    c.is_stepless_comment = true;
    round_trips(&c);
}

#[test]
fn a_step_with_both_marks_comes_back_as_a_new_section() {
    let mut s = step("a", "b", "c");
    s.is_new_section = true;
    s.is_stepless_comment = true;
    let back = TestStep::parse_markdown(&s.gen_markdown()).unwrap();
    assert!(back.is_new_section);
    assert!(!back.is_stepless_comment);
}

#[test]
fn find_gives_the_first_match_at_or_after_the_start() {
    let text = to_chars("abcABCabc");
    let pat = to_chars("abc");
    assert_eq!(find(&text, &pat, 0, true), Some(0));
    assert_eq!(find(&text, &pat, 1, true), Some(3));
    assert_eq!(find(&text, &pat, 1, false), Some(6));
    assert_eq!(find(&text, &pat, 7, true), None);
    assert_eq!(find(&text, &pat, 100, true), None);
    assert_eq!(find(&text, &to_chars(""), 9, false), Some(9));
    assert_eq!(find(&text, &to_chars(""), 10, false), None);
    assert_eq!(find(&to_chars("ab"), &pat, 0, true), None);
}

#[test]
fn find_folds_ascii_capitals_only() {
    assert_eq!(find(&to_chars("\u{212a}"), &to_chars("k"), 0, true), None);
    assert_eq!(find(&to_chars("É"), &to_chars("é"), 0, true), None);
    assert_eq!(find(&to_chars("@[`{"), &to_chars("`"), 0, true), Some(2));
    assert_eq!(find(&to_chars("AZ"), &to_chars("az"), 0, true), Some(0));
}

#[test]
fn decimal_string_values() {
    assert_eq!(decimal_string(0), "0");
    assert_eq!(decimal_string(7), "7");
    assert_eq!(decimal_string(10), "10");
    assert_eq!(decimal_string(1234567890), "1234567890");
    assert_eq!(decimal_string(usize::MAX), usize::MAX.to_string());
}
