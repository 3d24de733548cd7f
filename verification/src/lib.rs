//! The front end of the compiler of the Lotus language: the reader and the
//! grammar items of its source text, the command line, and the completions
//! offered to an editor.
pub mod reader;
pub mod text;
pub mod items;
pub mod command_line;
pub mod completion;
