//! What the screen shows, as plain text and numbers: the widths of the
//! columns, the cells of the rows, the header and the footer.

use crate::app::{MsgState, MsgView, Window};
use crate::err_msg::Section;
use crate::test_step::{steps_view, StepView, TestStep};
use crate::text::{decimal, decimal_string, slice, to_chars, trimmed};
use unicode_width::UnicodeWidthStr;
use vstd::prelude::*;

verus! {

/// The number of terminal columns that the line `line` takes.
pub uninterp spec fn display_width(line: Seq<char>) -> usize;

/// `UnicodeWidthStr::width` of the unicode-width crate: the displayed width
/// of a string in columns. The result is named `display_width`.
#[verifier::external_body]
fn str_width(line: &str) -> (w: usize)
    ensures
        w == display_width(line@),
{
    UnicodeWidthStr::width(line)
}

/// The lines of `text` from index `start` on, where the line that starts at
/// `start` is known to hold no line break before index `i`.
pub open spec fn lines_from(text: Seq<char>, start: int, i: int) -> Seq<Seq<char>>
    decreases text.len() - i,
{
    if i < start || i >= text.len() {
        seq![text.subrange(start, text.len() as int)]
    } else if text[i] == '\n' {
        seq![text.subrange(start, i)] + lines_from(text, i + 1, i + 1)
    } else {
        lines_from(text, start, i + 1)
    }
}

/// The lines of `text`: what stands between its line breaks. A text
/// without a line break is one line, the empty text too.
pub open spec fn lines(text: Seq<char>) -> Seq<Seq<char>> {
    lines_from(text, 0, 0)
}

/// The greater of two numbers.
pub open spec fn greater(a: usize, b: usize) -> usize {
    if a >= b {
        a
    } else {
        b
    }
}

/// The greatest displayed width among `lines`, zero where there is none.
pub open spec fn widest(lines: Seq<Seq<char>>) -> usize
    decreases lines.len(),
{
    if lines.len() == 0 {
        0
    } else {
        greater(display_width(lines[0]), widest(lines.skip(1)))
    }
}

/// The text of `step` that stands in `section`.
pub open spec fn section_text(step: StepView, section: Section) -> Seq<char> {
    match section {
        Section::Instructions => step.instructions,
        Section::ExpectedResults => step.expected_results,
        Section::Ac => step.ac,
    }
}

/// The greatest displayed width among the lines of the trimmed texts that
/// `steps` hold in `section`, zero where there is no step.
pub open spec fn longest(steps: Seq<StepView>, section: Section) -> usize
    decreases steps.len(),
{
    if steps.len() == 0 {
        0
    } else {
        greater(
            longest(steps.drop_last(), section),
            widest(lines(trimmed(section_text(steps.last(), section)))),
        )
    }
}

/// The widths that the four columns ask for: four for the numbers, and for
/// each text column the width of its longest line, cut to sixteen bits.
pub open spec fn constraint_lens(steps: Seq<StepView>) -> (u16, u16, u16, u16) {
    (
        4u16,
        longest(steps, Section::Instructions) as u16,
        longest(steps, Section::ExpectedResults) as u16,
        longest(steps, Section::Ac) as u16,
    )
}

/// The greatest displayed width among the lines of `text`.
pub fn widest_line(text: &str) -> (w: usize)
    ensures
        w == widest(lines(text@)),
{
    let chars = to_chars(text);
    let n: usize = chars.len();
    let mut best: usize = 0;
    let mut start: usize = 0;
    let mut i: usize = 0;
    while i < n
        invariant
            start <= i <= n,
            n == chars@.len(),
            chars@ == text@,
            widest(lines(text@)) == greater(best, widest(lines_from(text@, start as int, i as int))),
        decreases n - i,
    {
        if chars[i] == '\n' {
            let w = str_width(slice(text, start, i).as_str());
            proof {
                let here = seq![text@.subrange(start as int, i as int)];
                let rest = lines_from(text@, i + 1, i + 1);
                assert((here + rest)[0] == text@.subrange(start as int, i as int));
                assert((here + rest).skip(1) == rest);
            }
            if w > best {
                best = w;
            }
            start = i + 1;
        }
        i = i + 1;
    }
    let w = str_width(slice(text, start, n).as_str());
    proof {
        let last = seq![text@.subrange(start as int, n as int)];
        assert(lines_from(text@, start as int, n as int) == last);
        assert(last[0] == text@.subrange(start as int, n as int));
        assert(widest(last.skip(1)) == 0);
        assert(widest(last) == w);
    }
    if w > best {
        w
    } else {
        best
    }
}

/// The trimmed text that `item` holds in `section`.
pub fn section_string(item: &TestStep, section: Section) -> (text: String)
    ensures
        text@ == trimmed(section_text(item@, section)),
{
    match section {
        Section::Instructions => item.instructions(),
        Section::ExpectedResults => item.expected_results(),
        Section::Ac => item.ac(),
    }
}

/// The greatest displayed width among the lines that `items` hold in
/// `section`.
pub fn longest_line(items: &[TestStep], section: Section) -> (w: usize)
    ensures
        w == longest(steps_view(items@), section),
{
    let mut best: usize = 0;
    let mut i: usize = 0;
    while i < items.len()
        invariant
            i <= items.len(),
            best == longest(steps_view(items@).take(i as int), section),
        decreases items.len() - i,
    {
        let w = widest_line(section_string(&items[i], section).as_str());
        proof {
            let steps = steps_view(items@);
            assert(steps.take(i + 1).drop_last() == steps.take(i as int));
            assert(steps.take(i + 1).last() == items@[i as int]@);
        }
        if w > best {
            best = w;
        }
        i = i + 1;
    }
    assert(steps_view(items@).take(items.len() as int) == steps_view(items@));
    best
}

/// The widths that the four columns ask for.
pub fn constraint_len_calculator(items: &[TestStep]) -> (lens: (u16, u16, u16, u16))
    ensures
        lens == constraint_lens(steps_view(items@)),
{
    let name_len: u16 = 4;
    let address_len = longest_line(items, Section::Instructions);
    let email_len = longest_line(items, Section::ExpectedResults);
    let ac_len = longest_line(items, Section::Ac);
    (name_len, address_len as u16, email_len as u16, ac_len as u16)
}

/// The widths of the four columns: one more than asked for, for all but
/// the last.
pub open spec fn column_widths_spec(lens: (u16, u16, u16, u16)) -> (u16, u16, u16, u16) {
    (padded(lens.0), padded(lens.1), padded(lens.2), lens.3)
}

/// One more than `len`, as far as sixteen bits go.
pub open spec fn padded(len: u16) -> u16 {
    if len < u16::MAX {
        (len + 1) as u16
    } else {
        len
    }
}

/// The widths of the four columns.
pub fn column_widths(lens: (u16, u16, u16, u16)) -> (widths: (u16, u16, u16, u16))
    ensures
        widths == column_widths_spec(lens),
{
    let a: u16 = if lens.0 < u16::MAX {
        lens.0 + 1
    } else {
        lens.0
    };
    let b: u16 = if lens.1 < u16::MAX {
        lens.1 + 1
    } else {
        lens.1
    };
    let c: u16 = if lens.2 < u16::MAX {
        lens.2 + 1
    } else {
        lens.2
    };
    (a, b, c, lens.3)
}

/// The titles of the four columns of the table that `window` shows.
pub fn table_header(window: Window) -> (titles: [&'static str; 4])
    ensures
        titles[0]@ == "#"@,
        titles[1]@ == (match window {
            Window::UAT => "Test Directions"@,
            Window::Template => "Template Name"@,
        }),
        titles[2]@ == (match window {
            Window::UAT => "Expected Results"@,
            Window::Template => ""@,
        }),
        titles[3]@ == (match window {
            Window::UAT => "AC"@,
            Window::Template => ""@,
        }),
{
    match window {
        Window::UAT => ["#", "Test Directions", "Expected Results", "AC"],
        Window::Template => ["#", "Template Name", "", ""],
    }
}

/// What a cell shows: the text between two line breaks.
pub open spec fn cell_text(content: Seq<char>) -> Seq<char> {
    "\n"@ + content + "\n"@
}

/// What a cell shows.
pub fn cell(content: &str) -> (text: String)
    ensures
        text@ == cell_text(content@),
{
    let mut text = "\n".to_owned();
    text.append(content);
    text.append("\n");
    text
}

/// The four cells of the row for `item`, which is row number `number`: the
/// number and the three trimmed texts.
pub fn row_cells(number: usize, item: &TestStep) -> (cells: [String; 4])
    ensures
        cells[0]@ == cell_text(decimal(number as nat)),
        cells[1]@ == cell_text(trimmed(item@.instructions)),
        cells[2]@ == cell_text(trimmed(item@.expected_results)),
        cells[3]@ == cell_text(trimmed(item@.ac)),
{
    let texts = item.ref_array();
    [
        cell(decimal_string(number).as_str()),
        cell(texts[0].as_str()),
        cell(texts[1].as_str()),
        cell(texts[2].as_str()),
    ]
}

/// A message as the footer shows it.
pub open spec fn banner(line_one: Seq<char>) -> Seq<char> {
    "==========="@ + line_one + "==========="@
}

/// The two lines of the footer for the message `line_one`.
pub fn gen_msg(line_one: &str) -> (footer: [String; 2])
    ensures
        footer[0]@ == banner(line_one@),
        footer[1]@ == ""@,
{
    let padding = "===========";
    let mut first = padding.to_owned();
    first.append(line_one);
    first.append(padding);
    [first, "".to_owned()]
}

/// The first line of the footer.
pub open spec fn footer_first(msg_state: MsgView, window: Window) -> Seq<char> {
    match msg_state {
        MsgView::Default => match window {
            Window::UAT => "(q) quit | (k/j) move up/down | (Enter) edit | ($) compile to html | (+) load from clipboard"@,
            Window::Template => "(Esc) back | (k/j) move up/down | (Enter) load"@,
        },
        MsgView::Compile => banner("COMPILED HTML COPIED TO CLIPBOARD"@),
        MsgView::Yanked => banner("YANKED TO REGISTER"@),
        MsgView::Loaded => banner("LOADED CONTEXT FROM CLIPBOARD"@),
        MsgView::DynamicMsg(msg) => banner(msg),
    }
}

/// The second line of the footer.
pub open spec fn footer_second(msg_state: MsgView, window: Window) -> Seq<char> {
    match msg_state {
        MsgView::Default => match window {
            Window::UAT => "(O/o) insert above/below | (d) delete to reg | (P/p) paste above/below | (t) templates & config"@,
            Window::Template => "($) save current table as template"@,
        },
        _ => ""@,
    }
}

/// The two lines of the footer: the key bindings of the table that is
/// shown, or the message.
pub fn footer_lines(msg_state: &MsgState, window: Window) -> (footer: [String; 2])
    ensures
        footer[0]@ == footer_first(msg_state@, window),
        footer[1]@ == footer_second(msg_state@, window),
{
    match msg_state {
        MsgState::Default => match window {
            Window::UAT => [
                "(q) quit | (k/j) move up/down | (Enter) edit | ($) compile to html | (+) load from clipboard".to_owned(),
                "(O/o) insert above/below | (d) delete to reg | (P/p) paste above/below | (t) templates & config".to_owned(),
            ],
            Window::Template => [
                "(Esc) back | (k/j) move up/down | (Enter) load".to_owned(),
                "($) save current table as template".to_owned(),
            ],
        },
        MsgState::Compile => gen_msg("COMPILED HTML COPIED TO CLIPBOARD"),
        MsgState::Yanked => gen_msg("YANKED TO REGISTER"),
        MsgState::Loaded => gen_msg("LOADED CONTEXT FROM CLIPBOARD"),
        MsgState::DynamicMsg(msg) => gen_msg(msg.as_str()),
    }
}

} // verus!
