//! The editing engine of a text-editor widget: a line buffer, a caret, a
//! selection, a bracket matcher, a viewport mapper and an undo history.
//!
//! The engine neither reads input nor draws. Its host hands it the events of
//! the keyboard and the pointer, the area it may use and the time, and gets
//! back the rectangles to paint. Positions in the document count characters,
//! not bytes. Lengths on the screen are whole pixels, and the time is counted
//! in milliseconds.

pub mod bracket;
pub mod buffer;
pub mod frame;
pub mod history;
pub mod input;
pub mod line;
pub mod roundtrip;
pub mod selection;
pub mod text_editor;
pub mod viewport;
pub mod words;
