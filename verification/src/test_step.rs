//! One step of a test case, and the markdown in which a step is edited.
//!
//! The markdown of a step has three sections, each under a header line: the
//! instructions, the expected results and the acceptance criteria. The first
//! header also tells what kind of step it is.

use crate::err_msg::{ParseError, Section};
use crate::text::{
    agrees_from, all_white_space, ascii_lower, find, first_match, lacks, lemma_agrees,
    lemma_first_match_is, lemma_first_match_none, lemma_lacks, lemma_match_avoids,
    lemma_match_in_piece, lemma_occurs_in_trimmed, lemma_trimmed_padded, matches_at, occurs_in,
    slice, to_chars, trim, trimmed,
};
use vstd::prelude::*;

verus! {

/// What a step holds, as plain text.
pub struct StepView {
    pub is_stepless_comment: bool,
    pub is_new_section: bool,
    pub instructions: Seq<char>,
    pub expected_results: Seq<char>,
    pub ac: Seq<char>,
}

/// One step: three texts, and two marks that say whether the step starts a
/// new section or is a comment without a step.
#[derive(Debug)]
pub struct TestStep {
    pub is_stepless_comment: bool,
    pub is_new_section: bool,
    pub instructions: String,
    pub expected_results: String,
    pub ac: String,
}

impl View for TestStep {
    type V = StepView;

    open spec fn view(&self) -> StepView {
        StepView {
            is_stepless_comment: self.is_stepless_comment,
            is_new_section: self.is_new_section,
            instructions: self.instructions@,
            expected_results: self.expected_results@,
            ac: self.ac@,
        }
    }
}

impl Clone for TestStep {
    fn clone(&self) -> (r: Self)
        ensures
            r == *self,
    {
        TestStep {
            is_stepless_comment: self.is_stepless_comment,
            is_new_section: self.is_new_section,
            instructions: self.instructions.clone(),
            expected_results: self.expected_results.clone(),
            ac: self.ac.clone(),
        }
    }
}

/// The views of a list of steps, in order.
pub open spec fn steps_view(steps: Seq<TestStep>) -> Seq<StepView> {
    steps.map_values(|s: TestStep| s@)
}

/// The header that opens a step which starts a new section, in lower case.
pub open spec fn new_section_pattern() -> Seq<char> {
    "# new section"@
}

/// The header that opens a comment without a step, in lower case.
pub open spec fn comment_section_pattern() -> Seq<char> {
    "# comment section"@
}

/// The header that opens an ordinary step, in lower case.
pub open spec fn instructions_pattern() -> Seq<char> {
    "# instructions"@
}

/// The header of the expected results, in lower case.
pub open spec fn expected_results_pattern() -> Seq<char> {
    "# expected results"@
}

/// The header of the acceptance criteria, in lower case.
pub open spec fn ac_pattern() -> Seq<char> {
    "# ac"@
}

/// The opening header of `text`: the index just behind it, and the two marks
/// it stands for, `is_new_section` first. The header of a new section is
/// looked for first, then that of a comment, then that of an ordinary step;
/// of each, the first occurrence counts, in any letter case.
pub open spec fn opening(text: Seq<char>) -> Option<(int, bool, bool)> {
    match first_match(text, new_section_pattern(), 0, true) {
        Some(i) => Some((i + new_section_pattern().len(), true, false)),
        None => match first_match(text, comment_section_pattern(), 0, true) {
            Some(i) => Some((i + comment_section_pattern().len(), false, true)),
            None => match first_match(text, instructions_pattern(), 0, true) {
                Some(i) => Some((i + instructions_pattern().len(), false, false)),
                None => None,
            },
        },
    }
}

/// The step that the markdown `text` spells.
///
/// The instructions run from the opening header to the first header of the
/// expected results behind it, the expected results from there to the first
/// header of the acceptance criteria behind that, and the acceptance criteria
/// from there to the end. Headers are found in any letter case. The first
/// header that is missing is the error.
pub open spec fn parse_markdown_spec(text: Seq<char>) -> Result<StepView, ParseError> {
    match opening(text) {
        None => Err(ParseError::MissingSection(Section::Instructions)),
        Some((body, is_new_section, is_stepless_comment)) => match first_match(
            text,
            expected_results_pattern(),
            body,
            true,
        ) {
            None => Err(ParseError::MissingSection(Section::ExpectedResults)),
            Some(e) => match first_match(
                text,
                ac_pattern(),
                e + expected_results_pattern().len(),
                true,
            ) {
                None => Err(ParseError::MissingSection(Section::Ac)),
                Some(a) => Ok(
                    StepView {
                        is_stepless_comment,
                        is_new_section,
                        instructions: text.subrange(body, e),
                        expected_results: text.subrange(e + expected_results_pattern().len(), a),
                        ac: text.subrange(a + ac_pattern().len(), text.len() as int),
                    },
                ),
            },
        },
    }
}

/// The header line that opens the markdown of `step`.
pub open spec fn opening_header(step: StepView) -> Seq<char> {
    if step.is_new_section {
        "# New Section"@
    } else if step.is_stepless_comment {
        "# Comment Section"@
    } else {
        "# Instructions"@
    }
}

/// The markdown of `step`: the opening header, then each text without the
/// white space around it, under its header.
pub open spec fn gen_markdown_spec(step: StepView) -> Seq<char> {
    opening_header(step) + "\n"@ + trimmed(step.instructions) + "\n\n"@ + "# Expected Results"@
        + "\n"@ + trimmed(step.expected_results) + "\n\n"@ + "# AC"@ + "\n"@ + trimmed(step.ac)
}

/// A header line: it starts with `#`, holds no other `#` and no line break.
pub open spec fn is_header(line: Seq<char>) -> bool {
    &&& line.len() >= 3
    &&& line[0] == '#'
    &&& lacks(line, '#', 1)
    &&& lacks(line, '\n', 0)
}

/// None of the five headers stands in `text`, in any letter case.
pub open spec fn header_free(text: Seq<char>) -> bool {
    &&& !occurs_in(text, instructions_pattern(), true)
    &&& !occurs_in(text, new_section_pattern(), true)
    &&& !occurs_in(text, comment_section_pattern(), true)
    &&& !occurs_in(text, expected_results_pattern(), true)
    &&& !occurs_in(text, ac_pattern(), true)
}

/// Three texts under three header lines, laid out as the markdown of a step.
pub open spec fn layout(
    h1: Seq<char>,
    t1: Seq<char>,
    h2: Seq<char>,
    t2: Seq<char>,
    h3: Seq<char>,
    t3: Seq<char>,
) -> Seq<char> {
    h1 + seq!['\n'] + t1 + seq!['\n', '\n'] + h2 + seq!['\n'] + t2 + seq!['\n', '\n'] + h3
        + seq!['\n'] + t3
}

/// A header pattern stands in a header line only at its start, and only
/// where the two agree in their third character.
proof fn lemma_header_match(line: Seq<char>, pat: Seq<char>, o: int)
    requires
        is_header(line),
        is_header(pat),
        matches_at(line, pat, o, true),
    ensures
        o == 0,
        ascii_lower(line[2]) == pat[2],
{
    assert(ascii_lower(line[o + 0]) == pat[0]);
    if o > 0 {
        lemma_lacks(line, '#', 1, o);
    }
    assert(ascii_lower(line[o + 2]) == pat[2]);
}

/// In the markdown of a step whose texts hold no header, a header pattern
/// stands only at the start of a header line that agrees with it in the
/// third character.
proof fn lemma_locate(
    h1: Seq<char>,
    t1: Seq<char>,
    h2: Seq<char>,
    t2: Seq<char>,
    h3: Seq<char>,
    t3: Seq<char>,
    pat: Seq<char>,
    p: int,
)
    requires
        is_header(h1),
        is_header(h2),
        is_header(h3),
        is_header(pat),
        !occurs_in(t1, pat, true),
        !occurs_in(t2, pat, true),
        !occurs_in(t3, pat, true),
        matches_at(layout(h1, t1, h2, t2, h3, t3), pat, p, true),
    ensures
        ({
            ||| p == 0 && ascii_lower(h1[2]) == pat[2]
            ||| p == h1.len() + t1.len() + 3 && ascii_lower(h2[2]) == pat[2]
            ||| p == h1.len() + t1.len() + h2.len() + t2.len() + 6 && ascii_lower(h3[2]) == pat[2]
        }),
{
    let text = layout(h1, t1, h2, t2, h3, t3);
    let a = h1.len() as int;
    let b = a + 1 + t1.len();
    let e = b + 2;
    let f = e + h2.len();
    let c = f + 1 + t2.len();
    let g = c + 2;
    let h = g + h3.len();
    let m = pat.len() as int;
    assert(text.len() == h + 1 + t3.len());
    assert(text[a] == '\n' && text[b] == '\n' && text[b + 1] == '\n' && text[f] == '\n' && text[c]
        == '\n' && text[c + 1] == '\n' && text[h] == '\n');
    if p <= a < p + m {
        lemma_match_avoids(text, pat, p, '\n', a);
    }
    if p <= b < p + m {
        lemma_match_avoids(text, pat, p, '\n', b);
    }
    if p <= b + 1 < p + m {
        lemma_match_avoids(text, pat, p, '\n', b + 1);
    }
    if p <= f < p + m {
        lemma_match_avoids(text, pat, p, '\n', f);
    }
    if p <= c < p + m {
        lemma_match_avoids(text, pat, p, '\n', c);
    }
    if p <= c + 1 < p + m {
        lemma_match_avoids(text, pat, p, '\n', c + 1);
    }
    if p <= h < p + m {
        lemma_match_avoids(text, pat, p, '\n', h);
    }
    if p + m <= a {
        assert(text.subrange(0, a) == h1);
        lemma_match_in_piece(text, h1, 0, pat, p, true);
        lemma_header_match(h1, pat, p);
    } else if p + m <= b {
        assert(text.subrange(a + 1, b) == t1);
        lemma_match_in_piece(text, t1, a + 1, pat, p - (a + 1), true);
        assert(matches_at(t1, pat, p - (a + 1), true));
    } else if p + m <= f {
        assert(text.subrange(e, f) == h2);
        lemma_match_in_piece(text, h2, e, pat, p - e, true);
        lemma_header_match(h2, pat, p - e);
    } else if p + m <= c {
        assert(text.subrange(f + 1, c) == t2);
        lemma_match_in_piece(text, t2, f + 1, pat, p - (f + 1), true);
        assert(matches_at(t2, pat, p - (f + 1), true));
    } else if p + m <= h {
        assert(text.subrange(g, h) == h3);
        lemma_match_in_piece(text, h3, g, pat, p - g, true);
        lemma_header_match(h3, pat, p - g);
    } else {
        assert(text.subrange(h + 1, h + 1 + t3.len()) == t3);
        lemma_match_in_piece(text, t3, h + 1, pat, p - (h + 1), true);
        assert(matches_at(t3, pat, p - (h + 1), true));
    }
}

/// The header line `# Instructions` and its pattern.
proof fn lemma_instructions_header()
    ensures
        is_header("# Instructions"@),
        is_header(instructions_pattern()),
        matches_at("# Instructions"@, instructions_pattern(), 0, true),
        ascii_lower("# Instructions"@[2]) == 'i',
        instructions_pattern()[2] == 'i',
        "# Instructions"@.len() == instructions_pattern().len(),
{
    reveal_strlit("# Instructions");
    reveal_strlit("# instructions");
    reveal_with_fuel(lacks, 20);
    reveal_with_fuel(agrees_from, 20);
    assert(agrees_from("# Instructions"@, "# instructions"@, 0, true));
    lemma_agrees("# Instructions"@, "# instructions"@, 0, true);
}

/// The header line `# New Section` and its pattern.
proof fn lemma_new_section_header()
    ensures
        is_header("# New Section"@),
        is_header(new_section_pattern()),
        matches_at("# New Section"@, new_section_pattern(), 0, true),
        ascii_lower("# New Section"@[2]) == 'n',
        new_section_pattern()[2] == 'n',
        "# New Section"@.len() == new_section_pattern().len(),
{
    reveal_strlit("# New Section");
    reveal_strlit("# new section");
    reveal_with_fuel(lacks, 20);
    reveal_with_fuel(agrees_from, 20);
    assert(agrees_from("# New Section"@, "# new section"@, 0, true));
    lemma_agrees("# New Section"@, "# new section"@, 0, true);
}

/// The header line `# Comment Section` and its pattern.
proof fn lemma_comment_section_header()
    ensures
        is_header("# Comment Section"@),
        is_header(comment_section_pattern()),
        matches_at("# Comment Section"@, comment_section_pattern(), 0, true),
        ascii_lower("# Comment Section"@[2]) == 'c',
        comment_section_pattern()[2] == 'c',
        "# Comment Section"@.len() == comment_section_pattern().len(),
{
    reveal_strlit("# Comment Section");
    reveal_strlit("# comment section");
    reveal_with_fuel(lacks, 20);
    reveal_with_fuel(agrees_from, 20);
    assert(agrees_from("# Comment Section"@, "# comment section"@, 0, true));
    lemma_agrees("# Comment Section"@, "# comment section"@, 0, true);
}

/// The header line `# Expected Results` and its pattern.
proof fn lemma_expected_results_header()
    ensures
        is_header("# Expected Results"@),
        is_header(expected_results_pattern()),
        matches_at("# Expected Results"@, expected_results_pattern(), 0, true),
        ascii_lower("# Expected Results"@[2]) == 'e',
        expected_results_pattern()[2] == 'e',
        "# Expected Results"@.len() == expected_results_pattern().len(),
{
    reveal_strlit("# Expected Results");
    reveal_strlit("# expected results");
    reveal_with_fuel(lacks, 20);
    reveal_with_fuel(agrees_from, 20);
    assert(agrees_from("# Expected Results"@, "# expected results"@, 0, true));
    lemma_agrees("# Expected Results"@, "# expected results"@, 0, true);
}

/// The header line `# AC` and its pattern.
proof fn lemma_ac_header()
    ensures
        is_header("# AC"@),
        is_header(ac_pattern()),
        matches_at("# AC"@, ac_pattern(), 0, true),
        ascii_lower("# AC"@[2]) == 'a',
        ac_pattern()[2] == 'a',
        "# AC"@.len() == ac_pattern().len(),
{
    reveal_strlit("# AC");
    reveal_strlit("# ac");
    reveal_with_fuel(lacks, 20);
    reveal_with_fuel(agrees_from, 20);
    assert(agrees_from("# AC"@, "# ac"@, 0, true));
    lemma_agrees("# AC"@, "# ac"@, 0, true);
}

/// The markdown of a step is laid out as `layout` says.
proof fn lemma_gen_markdown_layout(step: StepView)
    ensures
        gen_markdown_spec(step) == layout(
            opening_header(step),
            trimmed(step.instructions),
            "# Expected Results"@,
            trimmed(step.expected_results),
            "# AC"@,
            trimmed(step.ac),
        ),
{
    reveal_strlit("\n");
    reveal_strlit("\n\n");
    assert("\n"@ == seq!['\n']);
    assert("\n\n"@ == seq!['\n', '\n']);
}

/// In the markdown of a step whose texts hold no header, the header pattern
/// `pat` does not stand at `p`, unless `p` is the start of a header line
/// that agrees with `pat` in the third character.
proof fn lemma_locate_in_markdown(step: StepView, pat: Seq<char>, p: int)
    requires
        header_free(step.instructions),
        header_free(step.expected_results),
        header_free(step.ac),
        pat == instructions_pattern() || pat == new_section_pattern() || pat
            == comment_section_pattern() || pat == expected_results_pattern() || pat
            == ac_pattern(),
        matches_at(gen_markdown_spec(step), pat, p, true),
    ensures
        ({
            let h1 = opening_header(step);
            let t1 = trimmed(step.instructions);
            let t2 = trimmed(step.expected_results);
            ||| p == 0 && ascii_lower(h1[2]) == pat[2]
            ||| p == h1.len() + t1.len() + 3 && pat[2] == 'e'
            ||| p == h1.len() + t1.len() + t2.len() + 24 && pat[2] == 'a'
        }),
{
    lemma_instructions_header();
    lemma_new_section_header();
    lemma_comment_section_header();
    lemma_expected_results_header();
    lemma_ac_header();
    lemma_gen_markdown_layout(step);
    reveal_strlit("# Expected Results");
    let t1 = trimmed(step.instructions);
    let t2 = trimmed(step.expected_results);
    let t3 = trimmed(step.ac);
    if occurs_in(t1, pat, true) {
        lemma_occurs_in_trimmed(step.instructions, pat, true);
    }
    if occurs_in(t2, pat, true) {
        lemma_occurs_in_trimmed(step.expected_results, pat, true);
    }
    if occurs_in(t3, pat, true) {
        lemma_occurs_in_trimmed(step.ac, pat, true);
    }
    lemma_locate(opening_header(step), t1, "# Expected Results"@, t2, "# AC"@, t3, pat, p);
}

/// The pattern of the opening header of `step`.
spec fn own_pattern(step: StepView) -> Seq<char> {
    if step.is_new_section {
        new_section_pattern()
    } else if step.is_stepless_comment {
        comment_section_pattern()
    } else {
        instructions_pattern()
    }
}

/// Where the header of the expected results starts in the markdown of `step`.
spec fn expected_results_at(step: StepView) -> int {
    (opening_header(step).len() + trimmed(step.instructions).len() + 3) as int
}

/// Where the header of the acceptance criteria starts in the markdown of `step`.
spec fn ac_at(step: StepView) -> int {
    expected_results_at(step) + trimmed(step.expected_results).len() + 21
}

/// The three headers stand in the markdown of a step where it puts them.
proof fn lemma_headers_stand(step: StepView)
    ensures
        matches_at(gen_markdown_spec(step), own_pattern(step), 0, true),
        matches_at(
            gen_markdown_spec(step),
            expected_results_pattern(),
            expected_results_at(step),
            true,
        ),
        matches_at(gen_markdown_spec(step), ac_pattern(), ac_at(step), true),
        opening_header(step).len() == own_pattern(step).len(),
        expected_results_pattern().len() == 18,
        ac_pattern().len() == 4,
        gen_markdown_spec(step).len() == ac_at(step) + 5 + trimmed(step.ac).len(),
{
    let text = gen_markdown_spec(step);
    let h1 = opening_header(step);
    let h2 = "# Expected Results"@;
    let h3 = "# AC"@;
    lemma_instructions_header();
    lemma_new_section_header();
    lemma_comment_section_header();
    lemma_expected_results_header();
    lemma_ac_header();
    lemma_gen_markdown_layout(step);
    reveal_strlit("# Expected Results");
    reveal_strlit("# AC");
    let e = expected_results_at(step);
    let g = ac_at(step);
    assert(text.subrange(0, h1.len() as int) == h1);
    lemma_match_in_piece(text, h1, 0, own_pattern(step), 0, true);
    assert(text.subrange(e, e + 18) == h2);
    lemma_match_in_piece(text, h2, e, expected_results_pattern(), 0, true);
    assert(text.subrange(g, g + 4) == h3);
    lemma_match_in_piece(text, h3, g, ac_pattern(), 0, true);
}

/// The opening header of the markdown of a step is the one written.
proof fn lemma_opening_found(step: StepView)
    requires
        !(step.is_new_section && step.is_stepless_comment),
        header_free(step.instructions),
        header_free(step.expected_results),
        header_free(step.ac),
    ensures
        opening(gen_markdown_spec(step)) == Some(
            (opening_header(step).len() as int, step.is_new_section, step.is_stepless_comment),
        ),
{
    let text = gen_markdown_spec(step);
    lemma_headers_stand(step);
    lemma_instructions_header();
    lemma_new_section_header();
    lemma_comment_section_header();
    lemma_first_match_is(text, own_pattern(step), 0, 0, true);
    if !step.is_new_section {
        assert forall|p: int| 0 <= p implies !matches_at(text, new_section_pattern(), p, true) by {
            if matches_at(text, new_section_pattern(), p, true) {
                lemma_locate_in_markdown(step, new_section_pattern(), p);
            }
        }
        lemma_first_match_none(text, new_section_pattern(), 0, true);
        if !step.is_stepless_comment {
            assert forall|p: int| 0 <= p implies !matches_at(
                text,
                comment_section_pattern(),
                p,
                true,
            ) by {
                if matches_at(text, comment_section_pattern(), p, true) {
                    lemma_locate_in_markdown(step, comment_section_pattern(), p);
                }
            }
            lemma_first_match_none(text, comment_section_pattern(), 0, true);
        }
    }
}

/// Behind the opening header, the first header of the expected results is
/// the one written, and behind that the first header of the acceptance
/// criteria is the one written.
proof fn lemma_sections_found(step: StepView)
    requires
        header_free(step.instructions),
        header_free(step.expected_results),
        header_free(step.ac),
    ensures
        first_match(
            gen_markdown_spec(step),
            expected_results_pattern(),
            opening_header(step).len() as int,
            true,
        ) == Some(expected_results_at(step)),
        first_match(
            gen_markdown_spec(step),
            ac_pattern(),
            expected_results_at(step) + 18,
            true,
        ) == Some(ac_at(step)),
{
    let text = gen_markdown_spec(step);
    let a = opening_header(step).len() as int;
    let e = expected_results_at(step);
    let g = ac_at(step);
    lemma_headers_stand(step);
    lemma_instructions_header();
    lemma_new_section_header();
    lemma_comment_section_header();
    lemma_expected_results_header();
    lemma_ac_header();
    assert(a >= 3);
    assert forall|p: int| a <= p < e implies !matches_at(
        text,
        expected_results_pattern(),
        p,
        true,
    ) by {
        if matches_at(text, expected_results_pattern(), p, true) {
            lemma_locate_in_markdown(step, expected_results_pattern(), p);
        }
    }
    lemma_first_match_is(text, expected_results_pattern(), a, e, true);
    assert forall|p: int| e + 18 <= p < g implies !matches_at(text, ac_pattern(), p, true) by {
        if matches_at(text, ac_pattern(), p, true) {
            lemma_locate_in_markdown(step, ac_pattern(), p);
        }
    }
    lemma_first_match_is(text, ac_pattern(), e + 18, g, true);
}

/// What stands between the headers of the markdown of a step is, once
/// trimmed, the trimmed text of the step.
proof fn lemma_sections_trimmed(step: StepView)
    ensures
        ({
            let text = gen_markdown_spec(step);
            let a = opening_header(step).len() as int;
            let e = expected_results_at(step);
            let g = ac_at(step);
            &&& trimmed(text.subrange(a, e)) == trimmed(step.instructions)
            &&& trimmed(text.subrange(e + 18, g)) == trimmed(step.expected_results)
            &&& trimmed(text.subrange(g + 4, text.len() as int)) == trimmed(step.ac)
        }),
{
    let text = gen_markdown_spec(step);
    let a = opening_header(step).len() as int;
    let e = expected_results_at(step);
    let g = ac_at(step);
    let t1 = trimmed(step.instructions);
    let t2 = trimmed(step.expected_results);
    let t3 = trimmed(step.ac);
    lemma_gen_markdown_layout(step);
    reveal_strlit("# Expected Results");
    reveal_strlit("# AC");
    let one = seq!['\n'];
    let two = seq!['\n', '\n'];
    let none = Seq::<char>::empty();
    assert(all_white_space(one) && all_white_space(two) && all_white_space(none));
    assert(text.subrange(a, e) == one + t1 + two);
    assert(text.subrange(e + 18, g) == one + t2 + two);
    assert(text.subrange(g + 4, text.len() as int) == one + t3 + none);
    lemma_trimmed_padded(one, step.instructions, two);
    lemma_trimmed_padded(one, step.expected_results, two);
    lemma_trimmed_padded(one, step.ac, none);
}

/// Reading back the markdown of a step gives the step: the same marks, and
/// texts that are the same once trimmed. This holds of every step whose
/// texts hold none of the five headers, in any letter case, and that does
/// not carry both marks (the markdown has one opening header, which can
/// stand for one mark only).
pub proof fn lemma_parse_gen_markdown(step: StepView)
    requires
        !(step.is_new_section && step.is_stepless_comment),
        header_free(step.instructions),
        header_free(step.expected_results),
        header_free(step.ac),
    ensures
        parse_markdown_spec(gen_markdown_spec(step)) is Ok,
        ({
            let back = parse_markdown_spec(gen_markdown_spec(step))->Ok_0;
            &&& back.is_new_section == step.is_new_section
            &&& back.is_stepless_comment == step.is_stepless_comment
            &&& trimmed(back.instructions) == trimmed(step.instructions)
            &&& trimmed(back.expected_results) == trimmed(step.expected_results)
            &&& trimmed(back.ac) == trimmed(step.ac)
        }),
{
    lemma_headers_stand(step);
    lemma_opening_found(step);
    lemma_sections_found(step);
    lemma_sections_trimmed(step);
}

/// The value of a mark that a stored step does not mention.
pub fn ret_false() -> (b: bool)
    ensures
        !b,
{
    false
}

impl TestStep {
    /// A step with the given marks and three empty texts.
    pub fn new(is_stepless_comment: bool, is_new_section: bool) -> (step: TestStep)
        ensures
            step@ == (StepView {
                is_stepless_comment,
                is_new_section,
                instructions: Seq::empty(),
                expected_results: Seq::empty(),
                ac: Seq::empty(),
            }),
    {
        TestStep {
            is_stepless_comment,
            is_new_section,
            instructions: String::new(),
            expected_results: String::new(),
            ac: String::new(),
        }
    }

    /// The three texts as they are shown: instructions, expected results,
    /// acceptance criteria, each without the white space around it.
    pub fn ref_array(&self) -> (texts: [String; 3])
        ensures
            texts[0]@ == trimmed(self@.instructions),
            texts[1]@ == trimmed(self@.expected_results),
            texts[2]@ == trimmed(self@.ac),
    {
        [self.instructions(), self.expected_results(), self.ac()]
    }

    /// The instructions without the white space around them.
    pub fn instructions(&self) -> (text: String)
        ensures
            text@ == trimmed(self@.instructions),
    {
        trim(self.instructions.as_str())
    }

    /// The expected results without the white space around them.
    pub fn expected_results(&self) -> (text: String)
        ensures
            text@ == trimmed(self@.expected_results),
    {
        trim(self.expected_results.as_str())
    }

    /// The acceptance criteria without the white space around them.
    pub fn ac(&self) -> (text: String)
        ensures
            text@ == trimmed(self@.ac),
    {
        trim(self.ac.as_str())
    }

    /// Reads a step from its markdown.
    pub fn parse_markdown(input: &String) -> (r: Result<TestStep, ParseError>)
        ensures
            match parse_markdown_spec(input@) {
                Ok(v) => r is Ok && r->Ok_0@ == v,
                Err(e) => r == Err::<TestStep, ParseError>(e),
            },
    {
        let text = to_chars(input.as_str());
        let new_section = to_chars("# new section");
        let comment_section = to_chars("# comment section");
        let instructions = to_chars("# instructions");
        let expected_results = to_chars("# expected results");
        let ac = to_chars("# ac");

        let (body, is_new_section, is_stepless_comment) = match find(&text, &new_section, 0, true) {
            Some(i) => (i + new_section.len(), true, false),
            None => match find(&text, &comment_section, 0, true) {
                Some(i) => (i + comment_section.len(), false, true),
                None => match find(&text, &instructions, 0, true) {
                    Some(i) => (i + instructions.len(), false, false),
                    None => {
                        return Err(ParseError::MissingSection(Section::Instructions));
                    },
                },
            },
        };
        let e = match find(&text, &expected_results, body, true) {
            Some(e) => e,
            None => {
                return Err(ParseError::MissingSection(Section::ExpectedResults));
            },
        };
        let a = match find(&text, &ac, e + expected_results.len(), true) {
            Some(a) => a,
            None => {
                return Err(ParseError::MissingSection(Section::Ac));
            },
        };
        Ok(
            TestStep {
                is_stepless_comment,
                is_new_section,
                instructions: slice(input.as_str(), body, e),
                expected_results: slice(input.as_str(), e + expected_results.len(), a),
                ac: slice(input.as_str(), a + ac.len(), text.len()),
            },
        )
    }

    /// Writes the step as markdown.
    pub fn gen_markdown(&self) -> (md: String)
        ensures
            md@ == gen_markdown_spec(self@),
    {
        let pre_str: &str = if self.is_new_section {
            "# New Section"
        } else if self.is_stepless_comment {
            "# Comment Section"
        } else {
            "# Instructions"
        };
        let mut md = pre_str.to_owned();
        md.append("\n");
        md.append(self.instructions().as_str());
        md.append("\n\n");
        md.append("# Expected Results");
        md.append("\n");
        md.append(self.expected_results().as_str());
        md.append("\n\n");
        md.append("# AC");
        md.append("\n");
        md.append(self.ac().as_str());
        md
    }
}

} // verus!
