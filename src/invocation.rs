use vstd::prelude::*;

verus! {

/// The program that shows the dialog.
pub const PROGRAM: &'static str = "swaynag";

/// The environment variable through which the dialog learns its terminal.
pub const TERMINAL_VAR: &'static str = "TERMINAL";

/// The flag that turns on the dialog's detailed-message mode.
pub const DETAILS_FLAG: &'static str = "-l";

/// How the detailed message reaches the dialog when it is spawned.
///
/// The four ways are exclusive: one spawn uses exactly one of them, and
/// only the chosen one is consulted.
pub enum Delivery {
    /// No detailed message, even if the configuration holds one.
    Nothing,
    /// The detailed message attached to the configuration, if it holds one.
    Attached,
    /// This body, written whole to the dialog's standard input.
    Inline(String),
    /// A byte stream that the caller drains into the dialog's standard input.
    Stream,
}

impl Delivery {
    /// Whether this way of delivery hands the dialog a body, given the body
    /// attached to the configuration.
    pub open spec fn carries_body(self, attached: Option<Seq<char>>) -> bool {
        match self {
            Delivery::Nothing => false,
            Delivery::Attached => attached is Some,
            Delivery::Inline(_) => true,
            Delivery::Stream => true,
        }
    }

    /// The in-memory body to write to the dialog, given the body attached to
    /// the configuration; a stream has none.
    pub open spec fn body_spec(self, attached: Option<Seq<char>>) -> Option<Seq<char>> {
        match self {
            Delivery::Nothing => None,
            Delivery::Attached => attached,
            Delivery::Inline(b) => Some(b@),
            Delivery::Stream => None,
        }
    }
}

/// Everything needed to start one dialog: the program, its arguments, the
/// terminal to export to it, and its standard-input plan. Its standard output
/// and standard error are always discarded.
pub struct Invocation {
    /// The program to run.
    pub program: String,
    /// The value of `TERMINAL` in the child's environment, if it is set.
    pub terminal: Option<String>,
    /// The arguments, in order.
    pub args: Vec<String>,
    /// Whether the child's standard input is a pipe that receives the
    /// detailed message and is then closed.
    pub pipe_stdin: bool,
    /// The in-memory body to write into that pipe, if one is written.
    pub body: Option<String>,
}

impl Invocation {
    /// The arguments as character sequences.
    pub open spec fn args_view(&self) -> Seq<Seq<char>> {
        self.args@.map_values(|a: String| a@)
    }
}

} // verus!
