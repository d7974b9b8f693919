//! Editing core of a terminal text editor.
//!
//! - [`line`]: a line of text as grapheme clusters with their column widths.
//! - [`buffer`]: a document as a sequence of lines.
//! - [`view`]: a document with a cursor and a viewport that follows it.
//! - [`editor`]: the view with a status line and a message line, driven by
//!   events.
//!
//! Positions in a document count lines and grapheme clusters; positions on
//! screen count rows and columns. Contracts are stated over a line as the
//! sequence of its clusters, each a sequence of characters, and over a
//! document as the sequence of its lines.
//!
//! Apart from the clock that times the message line, the library does no
//! input or output: it is handed the events and the text of files, and hands
//! out what is to be painted and what is to be written.

pub mod buffer;
pub mod commandbar;
pub mod documentstatus;
pub mod editor;
pub mod editorcommand;
pub mod fileinfo;
pub mod line;
pub mod messagebar;
pub mod position;
pub mod statusbar;
pub mod unicode;
pub mod view;
