//! Host-side services of a desktop text editor: decoding files of unknown
//! encoding into text, and the decisions behind the editor's calls into the
//! operating system's shell.

pub mod decode;
pub mod encoding;
pub mod launch;
pub mod print;
pub mod shell;
pub mod utf16;
pub mod utf8;
pub mod windows_1252;
