use vstd::prelude::*;

use crate::invocation::{Delivery, Invocation, DETAILS_FLAG, PROGRAM};

verus! {

/// The kinds of dialog button that `swaynag` understands.
#[derive(Clone, Copy, Debug, PartialEq, Eq, Structural)]
pub enum ButtonKind {
    /// `-b`: runs its action in a terminal.
    Terminal,
    /// `-B`: runs its action without a terminal.
    NoTerminal,
    /// `-z`: runs its action in a terminal, then dismisses the dialog.
    Dismiss,
    /// `-Z`: runs its action without a terminal, then dismisses the dialog.
    DismissNoTerminal,
    /// `-s`: relabels the default dismiss button; it has no action.
    OverrideDefaultDismiss,
    /// `-L`: relabels the button that expands the detailed message; it has no action.
    Details,
}

impl ButtonKind {
    /// The flag that introduces a button of this kind.
    pub open spec fn flag_spec(self) -> Seq<char> {
        match self {
            ButtonKind::Terminal => "-b"@,
            ButtonKind::NoTerminal => "-B"@,
            ButtonKind::Dismiss => "-z"@,
            ButtonKind::DismissNoTerminal => "-Z"@,
            ButtonKind::OverrideDefaultDismiss => "-s"@,
            ButtonKind::Details => "-L"@,
        }
    }

    /// Whether a button of this kind carries an action argument.
    pub open spec fn takes_action(self) -> bool {
        !(self is OverrideDefaultDismiss || self is Details)
    }

    /// The flag that introduces a button of this kind.
    pub fn flag(self) -> (r: &'static str)
        ensures
            r@ == self.flag_spec(),
    {
        match self {
            ButtonKind::Terminal => "-b",
            ButtonKind::NoTerminal => "-B",
            ButtonKind::Dismiss => "-z",
            ButtonKind::DismissNoTerminal => "-Z",
            ButtonKind::OverrideDefaultDismiss => "-s",
            ButtonKind::Details => "-L",
        }
    }

    /// Whether a button of this kind carries an action argument.
    pub fn has_action(self) -> (r: bool)
        ensures
            r == self.takes_action(),
    {
        match self {
            ButtonKind::OverrideDefaultDismiss | ButtonKind::Details => false,
            _ => true,
        }
    }
}

/// The tokens that one button adds to the command line: its flag, its label,
/// and its action when its kind takes one.
pub open spec fn button_tokens(kind: ButtonKind, label: Seq<char>, action: Seq<char>) -> Seq<Seq<char>> {
    if kind.takes_action() {
        seq![kind.flag_spec(), label, action]
    } else {
        seq![kind.flag_spec(), label]
    }
}

/// The configuration of one dialog: its message, an optional detailed
/// message, an optional terminal for button actions, and the option tokens
/// in the order in which they were set.
#[derive(Debug)]
pub struct Swaynag {
    message: String,
    detailed_message: Option<String>,
    terminal: Option<String>,
    args: Vec<String>,
}

/// The view of an optional string.
pub open spec fn opt_view(o: Option<String>) -> Option<Seq<char>> {
    match o {
        Some(s) => Some(s@),
        None => None,
    }
}

impl Swaynag {
    /// The dialog's main message.
    pub closed spec fn message_view(&self) -> Seq<char> {
        self.message@
    }

    /// The detailed message attached in advance, if any.
    pub closed spec fn detailed_message_view(&self) -> Option<Seq<char>> {
        opt_view(self.detailed_message)
    }

    /// The terminal exported to the child as `TERMINAL`, if any.
    pub closed spec fn terminal_view(&self) -> Option<Seq<char>> {
        opt_view(self.terminal)
    }

    /// The option tokens, in the order in which they were set.
    pub closed spec fn args_view(&self) -> Seq<Seq<char>> {
        self.args@.map_values(|a: String| a@)
    }

    /// Message, detailed message and terminal are those of `other`.
    pub open spec fn same_settings(&self, other: &Self) -> bool {
        &&& self.message_view() == other.message_view()
        &&& self.detailed_message_view() == other.detailed_message_view()
        &&& self.terminal_view() == other.terminal_view()
    }

    /// `self` is `before` with `tokens` appended to its options.
    pub open spec fn appends(&self, before: &Self, tokens: Seq<Seq<char>>) -> bool {
        &&& self.same_settings(before)
        &&& self.args_view() == before.args_view() + tokens
    }

    /// A configuration with the given message and nothing else set.
    pub fn new(message: &str) -> (r: Self)
        ensures
            r.message_view() == message@,
            r.detailed_message_view() is None,
            r.terminal_view() is None,
            r.args_view() == Seq::<Seq<char>>::empty(),
    {
        let r = Swaynag { message: message.to_owned(), detailed_message: None, terminal: None, args: Vec::new() };
        assert(r.args_view() =~= Seq::<Seq<char>>::empty());
        r
    }

    /// Exports `terminal` to the dialog as the `TERMINAL` variable.
    pub fn terminal(&mut self, terminal: &str) -> (r: &mut Self)
        ensures
            r.terminal_view() == Some(terminal@),
            r.message_view() == old(self).message_view(),
            r.detailed_message_view() == old(self).detailed_message_view(),
            r.args_view() == old(self).args_view(),
            *final(r) == *final(self),
    {
        self.terminal = Some(terminal.to_owned());
        self
    }

    /// Attaches a detailed message, to be delivered by a spawn that asks for
    /// the attached body.
    pub fn detailed_message(&mut self, detailed_message: &str) -> (r: &mut Self)
        ensures
            r.detailed_message_view() == Some(detailed_message@),
            r.message_view() == old(self).message_view(),
            r.terminal_view() == old(self).terminal_view(),
            r.args_view() == old(self).args_view(),
            *final(r) == *final(self),
    {
        self.detailed_message = Some(detailed_message.to_owned());
        self
    }

    fn arg(&mut self, a: &str) -> (r: &mut Self)
        ensures
            r.appends(old(self), seq![a@]),
            *final(r) == *final(self),
    {
        self.args.push(a.to_owned());
        assert(self.args_view() =~= old(self).args_view() + seq![a@]);
        self
    }

    fn flag_value(&mut self, flag: &str, value: &str) -> (r: &mut Self)
        ensures
            r.appends(old(self), seq![flag@, value@]),
            *final(r) == *final(self),
    {
        let r = self.arg(flag).arg(value);
        assert(r.args_view() =~= old(self).args_view() + seq![flag@, value@]);
        r
    }

    fn push_button(&mut self, kind: ButtonKind, label: &str, action: &str) -> (r: &mut Self)
        ensures
            r.appends(old(self), button_tokens(kind, label@, action@)),
            *final(r) == *final(self),
    {
        let r = self.flag_value(kind.flag(), label);
        if kind.has_action() {
            let r = r.arg(action);
            assert(r.args_view() =~= old(self).args_view() + button_tokens(kind, label@, action@));
            r
        } else {
            assert(r.args_view() =~= old(self).args_view() + button_tokens(kind, label@, action@));
            r
        }
    }

    /// Places the dialog on the bottom edge of the output (`-e bottom`).
    pub fn display_on_bottom_edge(&mut self) -> (r: &mut Self)
        ensures
            r.appends(old(self), seq!["-e"@, "bottom"@]),
            *final(r) == *final(self),
    {
        self.flag_value("-e", "bottom")
    }

    /// Places the dialog on the top edge of the output (`-e top`).
    pub fn display_on_top_edge(&mut self) -> (r: &mut Self)
        ensures
            r.appends(old(self), seq!["-e"@, "top"@]),
            *final(r) == *final(self),
    {
        self.flag_value("-e", "top")
    }

    /// Sets the font (`-f`).
    pub fn font(&mut self, font: &str) -> (r: &mut Self)
        ensures
            r.appends(old(self), seq!["-f"@, font@]),
            *final(r) == *final(self),
    {
        self.flag_value("-f", font)
    }

    /// Sets the message type (`-t`).
    pub fn message_type(&mut self, message_type: &str) -> (r: &mut Self)
        ensures
            r.appends(old(self), seq!["-t"@, message_type@]),
            *final(r) == *final(self),
    {
        self.flag_value("-t", message_type)
    }

    /// Selects the output to display on (`-o`).
    pub fn output(&mut self, output: &str) -> (r: &mut Self)
        ensures
            r.appends(old(self), seq!["-o"@, output@]),
            *final(r) == *final(self),
    {
        self.flag_value("-o", output)
    }

    /// Sets the background color.
    pub fn background(&mut self, background: &str) -> (r: &mut Self)
        ensures
            r.appends(old(self), seq!["--background"@, background@]),
            *final(r) == *final(self),
    {
        self.flag_value("--background", background)
    }

    /// Sets the border color.
    pub fn border(&mut self, border: &str) -> (r: &mut Self)
        ensures
            r.appends(old(self), seq!["--border"@, border@]),
            *final(r) == *final(self),
    {
        self.flag_value("--border", border)
    }

    /// Sets the color of the bottom border.
    pub fn border_bottom(&mut self, border_bottom: &str) -> (r: &mut Self)
        ensures
            r.appends(old(self), seq!["--border-bottom"@, border_bottom@]),
            *final(r) == *final(self),
    {
        self.flag_value("--border-bottom", border_bottom)
    }

    /// Sets the button background color.
    pub fn button_background(&mut self, button_background: &str) -> (r: &mut Self)
        ensures
            r.appends(old(self), seq!["--button-background"@, button_background@]),
            *final(r) == *final(self),
    {
        self.flag_value("--button-background", button_background)
    }

    /// Sets the text color.
    pub fn text(&mut self, text: &str) -> (r: &mut Self)
        ensures
            r.appends(old(self), seq!["--text"@, text@]),
            *final(r) == *final(self),
    {
        self.flag_value("--text", text)
    }

    /// Sets the button text color.
    pub fn button_text(&mut self, button_text: &str) -> (r: &mut Self)
        ensures
            r.appends(old(self), seq!["--button-text"@, button_text@]),
            *final(r) == *final(self),
    {
        self.flag_value("--button-text", button_text)
    }

    /// Sets the thickness of the bottom border.
    pub fn border_bottom_size(&mut self, border_bottom_size: &str) -> (r: &mut Self)
        ensures
            r.appends(old(self), seq!["--border-bottom-size"@, border_bottom_size@]),
            *final(r) == *final(self),
    {
        self.flag_value("--border-bottom-size", border_bottom_size)
    }

    /// Sets the padding around the message.
    pub fn message_padding(&mut self, message_padding: &str) -> (r: &mut Self)
        ensures
            r.appends(old(self), seq!["--message-padding"@, message_padding@]),
            *final(r) == *final(self),
    {
        self.flag_value("--message-padding", message_padding)
    }

    /// Sets the background color of the details.
    pub fn details_background(&mut self, details_background: &str) -> (r: &mut Self)
        ensures
            r.appends(old(self), seq!["--details-background"@, details_background@]),
            *final(r) == *final(self),
    {
        self.flag_value("--details-background", details_background)
    }

    /// Sets the thickness of the details border.
    pub fn details_border_size(&mut self, details_border_size: &str) -> (r: &mut Self)
        ensures
            r.appends(old(self), seq!["--details-border-size"@, details_border_size@]),
            *final(r) == *final(self),
    {
        self.flag_value("--details-border-size", details_border_size)
    }

    /// Sets the thickness of the button borders.
    pub fn button_border_size(&mut self, button_border_size: &str) -> (r: &mut Self)
        ensures
            r.appends(old(self), seq!["--button-border-size"@, button_border_size@]),
            *final(r) == *final(self),
    {
        self.flag_value("--button-border-size", button_border_size)
    }

    /// Sets the gap between buttons.
    pub fn button_gap(&mut self, button_gap: &str) -> (r: &mut Self)
        ensures
            r.appends(old(self), seq!["--button-gap"@, button_gap@]),
            *final(r) == *final(self),
    {
        self.flag_value("--button-gap", button_gap)
    }

    /// Sets the gap between the dismiss button and the others.
    pub fn button_dismiss_gap(&mut self, button_dismiss_gap: &str) -> (r: &mut Self)
        ensures
            r.appends(old(self), seq!["--button-dismiss-gap"@, button_dismiss_gap@]),
            *final(r) == *final(self),
    {
        self.flag_value("--button-dismiss-gap", button_dismiss_gap)
    }

    /// Sets the margin to the right of the buttons.
    pub fn button_margin_right(&mut self, button_margin_right: &str) -> (r: &mut Self)
        ensures
            r.appends(old(self), seq!["--button-margin-right"@, button_margin_right@]),
            *final(r) == *final(self),
    {
        self.flag_value("--button-margin-right", button_margin_right)
    }

    /// Sets the padding inside the buttons.
    pub fn button_padding(&mut self, button_padding: &str) -> (r: &mut Self)
        ensures
            r.appends(old(self), seq!["--button-padding"@, button_padding@]),
            *final(r) == *final(self),
    {
        self.flag_value("--button-padding", button_padding)
    }

    /// Adds a button whose action runs in a terminal (`-b`).
    pub fn button(&mut self, text: &str, action: &str) -> (r: &mut Self)
        ensures
            r.appends(old(self), button_tokens(ButtonKind::Terminal, text@, action@)),
            r.args_view() == old(self).args_view() + seq!["-b"@, text@, action@],
            *final(r) == *final(self),
    {
        self.push_button(ButtonKind::Terminal, text, action)
    }

    /// Adds a button whose action runs without a terminal (`-B`).
    pub fn button_no_terminal(&mut self, text: &str, action: &str) -> (r: &mut Self)
        ensures
            r.appends(old(self), button_tokens(ButtonKind::NoTerminal, text@, action@)),
            r.args_view() == old(self).args_view() + seq!["-B"@, text@, action@],
            *final(r) == *final(self),
    {
        self.push_button(ButtonKind::NoTerminal, text, action)
    }

    /// Adds a button that runs its action in a terminal and dismisses the dialog (`-z`).
    pub fn dismiss_button(&mut self, text: &str, action: &str) -> (r: &mut Self)
        ensures
            r.appends(old(self), button_tokens(ButtonKind::Dismiss, text@, action@)),
            r.args_view() == old(self).args_view() + seq!["-z"@, text@, action@],
            *final(r) == *final(self),
    {
        self.push_button(ButtonKind::Dismiss, text, action)
    }

    /// Adds a button that runs its action without a terminal and dismisses the dialog (`-Z`).
    pub fn dismiss_button_no_terminal(&mut self, text: &str, action: &str) -> (r: &mut Self)
        ensures
            r.appends(old(self), button_tokens(ButtonKind::DismissNoTerminal, text@, action@)),
            r.args_view() == old(self).args_view() + seq!["-Z"@, text@, action@],
            *final(r) == *final(self),
    {
        self.push_button(ButtonKind::DismissNoTerminal, text, action)
    }

    /// Relabels the default dismiss button (`-s`).
    pub fn override_default_dismiss_button(&mut self, text: &str) -> (r: &mut Self)
        ensures
            r.appends(old(self), button_tokens(ButtonKind::OverrideDefaultDismiss, text@, Seq::empty())),
            r.args_view() == old(self).args_view() + seq!["-s"@, text@],
            *final(r) == *final(self),
    {
        self.push_button(ButtonKind::OverrideDefaultDismiss, text, "")
    }

    /// Relabels the button that expands the detailed message (`-L`).
    pub fn details_button(&mut self, text: &str) -> (r: &mut Self)
        ensures
            r.appends(old(self), button_tokens(ButtonKind::Details, text@, Seq::empty())),
            r.args_view() == old(self).args_view() + seq!["-L"@, text@],
            *final(r) == *final(self),
    {
        self.push_button(ButtonKind::Details, text, "")
    }

    /// The arguments of a dialog for this configuration: the message, the
    /// options in the order in which they were set, and the detailed-message
    /// flag last when a body is delivered.
    pub open spec fn command_line(&self, with_details: bool) -> Seq<Seq<char>> {
        seq!["-m"@, self.message_view()] + self.args_view() + if with_details {
            seq![DETAILS_FLAG@]
        } else {
            Seq::empty()
        }
    }

    /// Describes the dialog to start for this configuration when its detailed
    /// message is delivered as `delivery` says. Detail mode and the stdin pipe
    /// are chosen by the delivery alone: an attached body is consulted only
    /// by `Delivery::Attached`.
    pub fn invocation(&self, delivery: Delivery) -> (r: Invocation)
        ensures
            r.program@ == PROGRAM@,
            opt_view(r.terminal) == self.terminal_view(),
            r.pipe_stdin == delivery.carries_body(self.detailed_message_view()),
            r.args_view() == self.command_line(r.pipe_stdin),
            opt_view(r.body) == delivery.body_spec(self.detailed_message_view()),
    {
        let mut args: Vec<String> = Vec::new();
        args.push("-m".to_owned());
        args.push(self.message.clone());
        let mut i: usize = 0;
        while i < self.args.len()
            invariant
                i <= self.args.len(),
                args@.map_values(|a: String| a@) == seq!["-m"@, self.message@]
                    + self.args_view().subrange(0, i as int),
            decreases self.args.len() - i,
        {
            let ghost before = args@.map_values(|a: String| a@);
            args.push(self.args[i].clone());
            assert(args@.map_values(|a: String| a@) =~= before.push(self.args@[i as int]@));
            assert(self.args_view().subrange(0, i + 1) =~= self.args_view().subrange(0, i as int).push(
                self.args@[i as int]@,
            ));
            i += 1;
        }
        let (pipe_stdin, body) = match delivery {
            Delivery::Nothing => (false, None),
            Delivery::Attached => match &self.detailed_message {
                Some(b) => (true, Some(b.clone())),
                None => (false, None),
            },
            Delivery::Inline(b) => (true, Some(b)),
            Delivery::Stream => (true, None),
        };
        assert(self.args_view().subrange(0, self.args@.len() as int) =~= self.args_view());
        let ghost base = args@.map_values(|a: String| a@);
        if pipe_stdin {
            args.push(DETAILS_FLAG.to_owned());
            assert(args@.map_values(|a: String| a@) =~= base.push(DETAILS_FLAG@));
        }
        let terminal = match &self.terminal {
            Some(t) => Some(t.clone()),
            None => None,
        };
        let r = Invocation { program: PROGRAM.to_owned(), terminal, args, pipe_stdin, body };
        assert(r.args_view() =~= self.command_line(pipe_stdin));
        r
    }
}

} // verus!
