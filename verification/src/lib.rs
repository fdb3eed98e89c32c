//! A small stack-language evaluator with a speculative line-editing session.
//!
//! The evaluator owns a stack of signed integers and executes lines of
//! whitespace-separated tokens against it.  The session controller keeps a
//! committed evaluator and, on every edit, replays the whole in-progress line
//! against a throwaway copy so that previews never touch committed state.

pub mod eval;
pub mod interpreter;
pub mod numbers;
pub mod session;
pub mod tokens;
