//! An editor for test cases: ordered lists of steps, each with instructions,
//! expected results and acceptance criteria.
//!
//! - `test_step`: a step, and the markdown in which it is edited.
//! - `document`: the steps in their order, and the selected row.
//! - `clipboard`: the page of HTML that carries a document through the
//!   clipboard, and the way back.
//! - `config`: the named templates.
//! - `app`: the session, its commands and its key bindings.
//! - `screen`, `colors`: what is shown, as plain values.
//! - `text`, `err_msg`: text search and trimming; the errors.

pub mod app;
pub mod clipboard;
pub mod colors;
pub mod config;
pub mod document;
pub mod err_msg;
pub mod screen;
pub mod test_step;
pub mod text;
