//! Launch-command resolution for the Common Lisp language-server bridge.
//!
//! The editor asks which process to start for a language server; this crate
//! answers with the interpreter, the bridge script below the user's home
//! directory, and an empty environment.

pub mod command;
pub mod resolver;
