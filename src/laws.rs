use vstd::prelude::*;

use crate::builder::{button_tokens, ButtonKind, Swaynag};
use crate::handle::HandleState;
use crate::invocation::{Delivery, DETAILS_FLAG};

verus! {

/// Setters keep call order: when each step of a run of setter calls appends
/// its own tokens to the options (as every setter's contract says, with no
/// tokens for `terminal` and `detailed_message`), the options at the end are
/// those at the start followed by every step's tokens in call order, with
/// nothing reordered or removed.
pub proof fn lemma_setters_keep_call_order(states: Seq<Swaynag>, steps: Seq<Seq<Seq<char>>>)
    requires
        states.len() == steps.len() + 1,
        forall|i: int|
            0 <= i < steps.len() ==> #[trigger] states[i + 1].args_view() == states[i].args_view()
                + steps[i],
    ensures
        states.last().args_view() == states[0].args_view() + steps.flatten(),
    decreases steps.len(),
{
    if steps.len() > 0 {
        let n = steps.len() - 1;
        lemma_setters_keep_call_order(states.drop_last(), steps.drop_last());
        assert(states[n + 1].args_view() == states[n].args_view() + steps[n]);
        assert(steps.drop_last().push(steps[n]) == steps);
        steps.drop_last().lemma_flatten_push(steps[n]);
        assert(states.last().args_view() =~= states[0].args_view() + steps.flatten());
    } else {
        assert(states[0].args_view() + steps.flatten() =~= states[0].args_view());
    }
}

/// A button emits its flag and its label, then its action only when its
/// kind takes one: the override-default-dismiss and details buttons emit two
/// tokens, every other kind exactly three.
pub proof fn lemma_button_tokens(kind: ButtonKind, label: Seq<char>, action: Seq<char>)
    ensures
        !kind.takes_action() <==> (kind == ButtonKind::OverrideDefaultDismiss || kind
            == ButtonKind::Details),
        button_tokens(kind, label, action).len() == if kind.takes_action() {
            3int
        } else {
            2int
        },
        button_tokens(kind, label, action)[0] == kind.flag_spec(),
        button_tokens(kind, label, action)[1] == label,
        kind.takes_action() ==> button_tokens(kind, label, action)[2] == action,
{
}

/// Detail mode follows the delivery chosen at spawn time: the
/// detailed-message flag is added (last) and standard input is piped exactly
/// when that delivery carries a body. An inline body or a stream always
/// does; the plain path never does, whatever body is attached.
pub proof fn lemma_details_follow_delivery(s: Swaynag, d: Delivery)
    ensures
        ({
            let w = d.carries_body(s.detailed_message_view());
            &&& s.command_line(w).len() == s.command_line(false).len() + if w {
                1int
            } else {
                0int
            }
            &&& w ==> s.command_line(w).last() == DETAILS_FLAG@
            &&& w ==> s.command_line(w).drop_last() == s.command_line(false)
            &&& !w ==> s.command_line(w) == s.command_line(false)
        }),
        d is Nothing ==> !d.carries_body(s.detailed_message_view()),
        (d is Inline || d is Stream) ==> d.carries_body(s.detailed_message_view()),
{
    assert(s.command_line(true).drop_last() =~= s.command_line(false));
}

/// An attached body matters only to a spawn that asks for it: two
/// configurations that differ at most in their attached body get the same
/// arguments, stdin plan and body from every other delivery.
pub proof fn lemma_attached_body_only_when_asked(a: Swaynag, b: Swaynag, d: Delivery)
    requires
        a.message_view() == b.message_view(),
        a.terminal_view() == b.terminal_view(),
        a.args_view() == b.args_view(),
        !(d is Attached),
    ensures
        d.carries_body(a.detailed_message_view()) == d.carries_body(b.detailed_message_view()),
        d.body_spec(a.detailed_message_view()) == d.body_spec(b.detailed_message_view()),
        a.command_line(d.carries_body(a.detailed_message_view())) == b.command_line(
            d.carries_body(b.detailed_message_view()),
        ),
{
}

/// A successful wait on a running child is terminal: it happens once, after
/// which neither a second wait nor a kill is allowed.
pub proof fn lemma_wait_is_terminal(s: HandleState)
    requires
        s.is_live(),
    ensures
        s.waited(true) == HandleState::Exited,
        !s.waited(true).is_live(),
        !s.waited(false).is_live(),
{
}

/// A successful kill does not end the handle: the killed child may, and
/// must, still be waited on, and that wait ends it.
pub proof fn lemma_kill_then_wait(s: HandleState)
    requires
        s.is_live(),
    ensures
        s.killed(true).is_live(),
        s.killed(true).waited(true) == HandleState::Exited,
        !s.killed(false).is_live(),
{
}

} // verus!
