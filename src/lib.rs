//! Backend logic of a multi-tab terminal: shell families, output decoding,
//! one-shot command construction and output cleaning, and the table of
//! interactive sessions.
pub mod shell;
mod text;
pub mod encoding;
pub mod output;
pub mod command;
pub mod error;
pub mod session;
