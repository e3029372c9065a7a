//! A line-oriented text buffer for a modal terminal editor: a cursor addressed
//! by character, lines stored as UTF-8, and a viewport that follows the cursor.
pub mod app;
pub mod laws;
pub mod text;
pub mod viewport;
