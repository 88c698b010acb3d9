//! Verified core of a chat bot that grants administrator custom titles.
//!
//! The library holds the logic that deserves proof: mention extraction over
//! UTF-16 entity offsets, the title-mutation workflow, the interactive login
//! state machine, the command router and the randomized selectors. The
//! network transport, prompts and process wiring live outside the library.

pub mod login;
pub mod mention;
pub mod router;
pub mod select;
pub mod text;
pub mod workflow;
