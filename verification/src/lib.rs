//! A minimal interactive command interpreter.
//!
//! The library holds everything the interpreter decides: splitting a line
//! of input into tokens, classifying the first token against the built-in
//! and internal-command namespaces, the built-in directives themselves,
//! and the session state (working directory and termination flag) they
//! mutate.  The host program around it performs the outside work the
//! interpreter asks for — reading lines, changing the process directory,
//! spawning external programs, touching the bookkeeping files — and hands
//! the observed outcome back to the library, which decides what it means.

pub mod diag;
pub mod dispatch;
pub mod interp;
pub mod lines;
pub mod numbers;
pub mod session;
pub mod tokenizer;
