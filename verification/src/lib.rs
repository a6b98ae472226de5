//! Core logic of a small interactive shell: parsing one input line into a
//! pipeline of invocations, deciding how each stage's standard streams are
//! wired, the `cd` builtin's directory state machine, the completion-mode
//! decision, and the history recording rules.
pub mod complete;
pub mod cwd;
pub mod history;
pub mod parse;
pub mod pipeline;
pub mod text;
