//! A builder and launcher description for the `swaynag` notification dialog.
//!
//! The library assembles the command line, the child's environment and the
//! standard-input plan of one dialog invocation, and tracks the life cycle of
//! a spawned dialog. Performing the spawn, the pipe writes and the waits is
//! left to the caller.

mod builder;
mod handle;
mod invocation;
mod laws;

pub use builder::{button_tokens, opt_view, ButtonKind, Swaynag};
pub use handle::HandleState;
pub use invocation::{Delivery, Invocation, DETAILS_FLAG, PROGRAM, TERMINAL_VAR};
pub use laws::{
    lemma_attached_body_only_when_asked, lemma_button_tokens, lemma_details_follow_delivery,
    lemma_kill_then_wait, lemma_setters_keep_call_order, lemma_wait_is_terminal,
};
