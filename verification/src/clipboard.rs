//! The document on the clipboard: a page of HTML that shows the steps as a
//! table and carries, behind a marker, the base64 text of the document's
//! JSON, and the way back from any text that holds such a payload.
//!
//! The JSON text itself is made and read by the caller; here it is a string.

use crate::err_msg::ParseError;
use crate::test_step::{steps_view, StepView, TestStep};
use crate::text::{
    decimal, decimal_string, find, first_match, lacks, lemma_first_match_is, lemma_lacks,
    lemma_match_in_piece, matches_at, slice, to_chars, trimmed,
};
use base64::prelude::{Engine, BASE64_STANDARD};
use pulldown_cmark::{html, Options, Parser};
use vstd::prelude::*;
use vstd::utf8::{decode_utf8, encode_utf8, encode_utf8_decode_utf8, encode_utf8_valid_utf8, valid_utf8};

verus! {

/// The token that marks the payload in an exported page.
pub const MDEMBEDDING: &'static str = "MDEMBEDDING";

/// The page up to the marker.
pub const HTML_HEAD: &'static str = "<html>\n<head>\n<meta name=\"uat-editor\" content=\"";

/// The page between the payload and the style sheet.
pub const HTML_STYLE: &'static str = "\">\n<style>\n";

/// The style sheet of the page.
pub const STYLE_CSS: &'static str =
    "table { border-collapse: collapse; width: 100%; }\nth, td { border: 1px solid black; padding: 4px; vertical-align: top; }\n";

/// The page between the style sheet and the rows of the table.
pub const HTML_TABLE: &'static str =
    "</style>\n</head>\n<body>\n<table>\n<tr><th>Step</th><th>Pass</th><th>Action</th><th>Expected Result</th><th>Comments</th><th>AC</th></tr>\n";

/// The page behind the rows of the table.
pub const HTML_TAIL: &'static str = "</table>\n</body>\n</html>\n";

/// The base64 text of `bytes`: standard alphabet, padded.
pub uninterp spec fn base64_text(bytes: Seq<u8>) -> Seq<char>;

/// The bytes that the base64 text `text` stands for, if it is base64.
pub uninterp spec fn base64_bytes(text: Seq<char>) -> Option<Seq<u8>>;

/// The HTML that the markdown `markdown` is rendered to.
pub uninterp spec fn markdown_html(markdown: Seq<char>) -> Seq<char>;

/// A character of the standard base64 alphabet, or the padding character.
pub open spec fn is_base64_char(c: char) -> bool {
    let u = c as u32;
    ||| 0x41 <= u <= 0x5A
    ||| 0x61 <= u <= 0x7A
    ||| 0x30 <= u <= 0x39
    ||| c == '+'
    ||| c == '/'
    ||| c == '='
}

/// Whether the base64 text of `len` bytes has a length that fits in `usize`.
pub open spec fn base64_fits(len: nat) -> bool {
    len / 3 <= (usize::MAX - 4) / 4
}

/// The marker as it is searched for: the token and a colon.
pub open spec fn marker() -> Seq<char> {
    MDEMBEDDING@ + ":"@
}

/// One cell of the table.
pub open spec fn td(class: Seq<char>, val: Seq<char>) -> Seq<char> {
    "<td class=\""@ + class + "\" style=\"border: 1px solid black;\">"@ + val + "</td>"@
}

/// The row of the table for `step`, which is step number `number`.
pub open spec fn row_html(number: nat, step: StepView) -> Seq<char> {
    "<tr>"@ + td("step-td"@, decimal(number) + "."@) + td("pass-td"@, ""@) + td(
        "action-td"@,
        markdown_html(trimmed(step.instructions)),
    ) + td("expected-result-td"@, markdown_html(trimmed(step.expected_results))) + td(
        "comments-td"@,
        ""@,
    ) + td("ac-td"@, markdown_html(trimmed(step.ac))) + "</tr>"@
}

/// The rows of the table for `steps`, numbered from one.
pub open spec fn table_html(steps: Seq<StepView>) -> Seq<char>
    decreases steps.len(),
{
    if steps.len() == 0 {
        Seq::empty()
    } else {
        table_html(steps.drop_last()) + row_html(steps.len(), steps.last())
    }
}

/// The page: the marker and the payload in the head, the rows in the body.
pub open spec fn html_document(table: Seq<char>, payload: Seq<char>) -> Seq<char> {
    HTML_HEAD@ + marker() + payload + HTML_STYLE@ + STYLE_CSS@ + HTML_TABLE@ + table + HTML_TAIL@
}

/// The text that the payload `payload` carries: what its base64 decodes to,
/// read as UTF-8.
pub open spec fn payload_text(payload: Seq<char>) -> Result<Seq<char>, ParseError> {
    match base64_bytes(payload) {
        None => Err(ParseError::DecodeFailed),
        Some(bytes) => if valid_utf8(bytes) {
            Ok(decode_utf8(bytes))
        } else {
            Err(ParseError::DecodeFailed)
        },
    }
}

/// The text embedded in `context`: the payload runs from behind the first
/// marker to the first double quote behind it.
pub open spec fn embedded_text(context: Seq<char>) -> Result<Seq<char>, ParseError> {
    match first_match(context, marker(), 0, false) {
        None => Err(ParseError::MarkerNotFound),
        Some(i) => match first_match(context, "\""@, i + marker().len(), false) {
            None => Err(ParseError::TerminatorNotFound),
            Some(q) => payload_text(context.subrange(i + marker().len(), q)),
        },
    }
}

/// `Engine::encode` of the base64 crate, on its `STANDARD` engine. The
/// result is named `base64_text`; it is made of the standard alphabet and
/// `=`, and decoding it gives `bytes` back. The call panics where the length
/// of the result overflows, which `requires` leaves out.
#[verifier::external_body]
fn base64_encode(bytes: &[u8]) -> (text: String)
    requires
        base64_fits(bytes@.len()),
    ensures
        text@ == base64_text(bytes@),
        base64_bytes(text@) == Some(bytes@),
        forall|i: int| 0 <= i < text@.len() ==> is_base64_char(#[trigger] text@[i]),
{
    BASE64_STANDARD.encode(bytes)
}

/// `Engine::decode` of the base64 crate, on its `STANDARD` engine. The
/// result is named `base64_bytes`: the bytes, or `None` where the crate
/// reports an error.
#[verifier::external_body]
fn base64_decode(text: &str) -> (bytes: Option<Vec<u8>>)
    ensures
        match bytes {
            Some(b) => base64_bytes(text@) == Some(b@),
            None => base64_bytes(text@) is None,
        },
{
    BASE64_STANDARD.decode(text).ok()
}

/// `String::from_utf8` of std: the string that the bytes encode, or `None`
/// where they are not UTF-8.
#[verifier::external_body]
fn string_from_utf8(bytes: Vec<u8>) -> (text: Option<String>)
    ensures
        match text {
            Some(s) => valid_utf8(bytes@) && s@ == decode_utf8(bytes@),
            None => !valid_utf8(bytes@),
        },
{
    String::from_utf8(bytes).ok()
}

/// `Parser::new_ext` and `html::push_html` of pulldown-cmark, with no
/// option switched on. The HTML that comes out is named `markdown_html`.
#[verifier::external_body]
fn markdown_to_html(markdown: &str) -> (out: String)
    ensures
        out@ == markdown_html(markdown@),
{
    let mut out = String::new();
    html::push_html(&mut out, Parser::new_ext(markdown, Options::empty()));
    out
}

/// The payload for the JSON text `items_json`: the base64 text of its bytes.
/// `None` where that text would be too long to have a length.
pub fn serialize_items(items_json: &str) -> (r: Option<String>)
    ensures
        match r {
            Some(payload) => {
                &&& base64_fits(encode_utf8(items_json@).len())
                &&& payload@ == base64_text(encode_utf8(items_json@))
                &&& payload_text(payload@) == Ok::<Seq<char>, ParseError>(items_json@)
                &&& forall|i: int| 0 <= i < payload@.len() ==> is_base64_char(#[trigger] payload@[i])
            },
            None => !base64_fits(encode_utf8(items_json@).len()),
        },
{
    let bytes = items_json.as_bytes();
    if bytes.len() / 3 > (usize::MAX - 4) / 4 {
        return None;
    }
    let payload = base64_encode(bytes);
    proof {
        encode_utf8_valid_utf8(items_json@);
        encode_utf8_decode_utf8(items_json@);
    }
    Some(payload)
}

/// The text that the payload `serialized_items` carries.
pub fn deserialize_items(serialized_items: &str) -> (r: Result<String, ParseError>)
    ensures
        match payload_text(serialized_items@) {
            Ok(text) => r is Ok && r->Ok_0@ == text,
            Err(e) => r == Err::<String, ParseError>(e),
        },
{
    let bytes = match base64_decode(serialized_items) {
        Some(bytes) => bytes,
        None => {
            return Err(ParseError::DecodeFailed);
        },
    };
    match string_from_utf8(bytes) {
        Some(text) => Ok(text),
        None => Err(ParseError::DecodeFailed),
    }
}

/// One cell of the table, of class `class`, holding `val`.
pub fn build_td(class: &str, val: &str) -> (cell: String)
    ensures
        cell@ == td(class@, val@),
{
    let mut cell = "<td class=\"".to_owned();
    cell.append(class);
    cell.append("\" style=\"border: 1px solid black;\">");
    cell.append(val);
    cell.append("</td>");
    cell
}

/// One cell of the table, of class `class`, holding the HTML of the
/// markdown `s`.
pub fn parse_td(class: &str, s: String) -> (cell: String)
    ensures
        cell@ == td(class@, markdown_html(s@)),
{
    let html_output = markdown_to_html(s.as_str());
    build_td(class, html_output.as_str())
}

/// The row of the table for `item`, which is step number `number`.
pub fn gen_row(number: usize, item: &TestStep) -> (row: String)
    ensures
        row@ == row_html(number as nat, item@),
{
    let mut label = decimal_string(number);
    label.append(".");
    let mut row = "<tr>".to_owned();
    row.append(build_td("step-td", label.as_str()).as_str());
    row.append(build_td("pass-td", "").as_str());
    row.append(parse_td("action-td", item.instructions()).as_str());
    row.append(parse_td("expected-result-td", item.expected_results()).as_str());
    row.append(build_td("comments-td", "").as_str());
    row.append(parse_td("ac-td", item.ac()).as_str());
    row.append("</tr>");
    row
}

/// The rows of the table for `items`.
pub fn gen_table(items: &Vec<TestStep>) -> (table: String)
    ensures
        table@ == table_html(steps_view(items@)),
{
    let mut table = String::new();
    let mut i: usize = 0;
    while i < items.len()
        invariant
            i <= items.len(),
            table@ == table_html(steps_view(items@).take(i as int)),
        decreases items.len() - i,
    {
        let row = gen_row(i + 1, &items[i]);
        table.append(row.as_str());
        proof {
            let steps = steps_view(items@);
            assert(steps.take(i + 1).drop_last() == steps.take(i as int));
            assert(steps.take(i + 1).last() == items@[i as int]@);
        }
        i = i + 1;
    }
    assert(steps_view(items@).take(items.len() as int) == steps_view(items@));
    table
}

/// The page for `items`, whose JSON text is `items_json`. What is embedded
/// in the page is that text. `None` where the payload would be too long to
/// have a length.
pub fn gen_html(items: &Vec<TestStep>, items_json: &str) -> (r: Option<String>)
    ensures
        match r {
            Some(page) => {
                &&& base64_fits(encode_utf8(items_json@).len())
                &&& page@ == html_document(
                    table_html(steps_view(items@)),
                    base64_text(encode_utf8(items_json@)),
                )
                &&& embedded_text(page@) == Ok::<Seq<char>, ParseError>(items_json@)
            },
            None => !base64_fits(encode_utf8(items_json@).len()),
        },
{
    let payload = match serialize_items(items_json) {
        Some(payload) => payload,
        None => {
            return None;
        },
    };
    let table = gen_table(items);
    let mut page = HTML_HEAD.to_owned();
    page.append(MDEMBEDDING);
    page.append(":");
    page.append(payload.as_str());
    page.append(HTML_STYLE);
    page.append(STYLE_CSS);
    page.append(HTML_TABLE);
    page.append(table.as_str());
    page.append(HTML_TAIL);
    proof {
        let rest = HTML_STYLE@ + STYLE_CSS@ + HTML_TABLE@ + table@ + HTML_TAIL@;
        assert(page@ == HTML_HEAD@ + marker() + payload@ + rest);
        assert(page@ == html_document(table@, payload@));
        lemma_embedded_in_document(table@, payload@, items_json@);
    }
    Some(page)
}

/// The text embedded in `context`.
pub fn parse_clipboard_context(context: &str) -> (r: Result<String, ParseError>)
    ensures
        match embedded_text(context@) {
            Ok(text) => r is Ok && r->Ok_0@ == text,
            Err(e) => r == Err::<String, ParseError>(e),
        },
{
    let text = to_chars(context);
    let mut token = MDEMBEDDING.to_owned();
    token.append(":");
    let marker = to_chars(token.as_str());
    let quote = to_chars("\"");
    let i = match find(&text, &marker, 0, false) {
        Some(i) => i,
        None => {
            return Err(ParseError::MarkerNotFound);
        },
    };
    assert(i + marker@.len() <= text@.len());
    let q = match find(&text, &quote, i + marker.len(), false) {
        Some(q) => q,
        None => {
            return Err(ParseError::TerminatorNotFound);
        },
    };
    let payload = slice(context, i + marker.len(), q);
    deserialize_items(payload.as_str())
}

/// The head of the page holds no `M`, so the marker cannot start in it.
proof fn lemma_head()
    ensures
        lacks(HTML_HEAD@, 'M', 0),
{
    reveal_strlit("<html>\n<head>\n<meta name=\"uat-editor\" content=\"");
    reveal_with_fuel(lacks, 50);
}

/// The marker, and what follows the payload.
proof fn lemma_marker()
    ensures
        marker().len() == 12,
        marker()[0] == 'M',
        "\""@ == seq!['"'],
        HTML_STYLE@.len() > 0,
        HTML_STYLE@[0] == '"',
{
    reveal_strlit("MDEMBEDDING");
    reveal_strlit(":");
    reveal_strlit("\"");
    reveal_strlit("\">\n<style>\n");
    assert("\""@ == seq!['"']);
}

/// A page that carries the base64 text of a text gives that text back,
/// whatever its table holds.
pub proof fn lemma_embedded_in_document(table: Seq<char>, payload: Seq<char>, text: Seq<char>)
    requires
        payload_text(payload) == Ok::<Seq<char>, ParseError>(text),
        forall|i: int| 0 <= i < payload.len() ==> is_base64_char(#[trigger] payload[i]),
    ensures
        embedded_text(html_document(table, payload)) == Ok::<Seq<char>, ParseError>(text),
{
    let page = html_document(table, payload);
    let rest = HTML_STYLE@ + STYLE_CSS@ + HTML_TABLE@ + table + HTML_TAIL@;
    let head = HTML_HEAD@;
    let quote = "\""@;
    lemma_head();
    lemma_marker();
    assert(page == head + marker() + payload + rest);
    let m = head.len() as int;
    let start = m + 12;
    let q = start + payload.len();

    assert(page.subrange(m, m + 12) == marker());
    lemma_match_in_piece(page, marker(), m, marker(), 0, false);
    assert forall|p: int| 0 <= p < m implies !matches_at(page, marker(), p, false) by {
        if matches_at(page, marker(), p, false) {
            assert(page[p + 0] == marker()[0]);
            assert(page[p] == head[p]);
            lemma_lacks(head, 'M', 0, p);
        }
    }
    lemma_first_match_is(page, marker(), 0, m, false);

    assert(page[q] == '"');
    assert(matches_at(page, quote, q, false));
    assert forall|p: int| start <= p < q implies !matches_at(page, quote, p, false) by {
        if matches_at(page, quote, p, false) {
            assert(page[p + 0] == quote[0]);
            assert(page[p] == payload[p - start]);
            assert(is_base64_char(payload[p - start]));
        }
    }
    lemma_first_match_is(page, quote, start, q, false);
    assert(page.subrange(start, q) == payload);
}

} // verus!
