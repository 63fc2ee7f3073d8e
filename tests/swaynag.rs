use swaynag::{ButtonKind, Delivery, HandleState, Invocation, Swaynag, DETAILS_FLAG, PROGRAM, TERMINAL_VAR};

fn args_of(inv: &Invocation) -> Vec<&str> {
    inv.args.iter().map(|a| a.as_str()).collect()
}

#[test]
fn tests_spwan() {
    let mut nag = Swaynag::new("swaynag test from rust");
    nag.detailed_message("interesting details")
        .details_button("show me more")
        .button("simple", "false")
        .dismiss_button("go away", "true")
        .override_default_dismiss_button("Y")
        .display_on_bottom_edge();
    let inv = nag.invocation(Delivery::Nothing);
    assert_eq!(inv.program, "swaynag");
    assert_eq!(
        args_of(&inv),
        vec![
            "-m",
            "swaynag test from rust",
            "-L",
            "show me more",
            "-b",
            "simple",
            "false",
            "-z",
            "go away",
            "true",
            "-s",
            "Y",
            "-e",
            "bottom",
        ]
    );
    assert!(!inv.pipe_stdin);
    assert_eq!(inv.body, None);
    assert_eq!(inv.terminal, None);

    let inv = nag.invocation(Delivery::Attached);
    assert_eq!(args_of(&inv).last(), Some(&"-l"));
    assert!(inv.pipe_stdin);
    assert_eq!(inv.body.as_deref(), Some("interesting details"));
}

#[test]
fn simple_and_override_buttons_give_fixed_command() {
    let mut nag = Swaynag::new("test");
    nag.button("OK", "true-cmd").override_default_dismiss_button("Y");
    let inv = nag.invocation(Delivery::Nothing);
    assert_eq!(args_of(&inv), vec!["-m", "test", "-b", "OK", "true-cmd", "-s", "Y"]);
    assert!(!inv.pipe_stdin);
    assert_eq!(inv.body, None);
}

#[test]
fn inline_body_turns_on_detail_mode() {
    let nag = Swaynag::new("m");
    let inv = nag.invocation(Delivery::Inline(String::from("hello")));
    assert_eq!(args_of(&inv), vec!["-m", "m", "-l"]);
    assert!(inv.pipe_stdin);
    assert_eq!(inv.body.as_deref(), Some("hello"));
    assert_eq!(inv.body.unwrap().as_bytes(), b"hello");
}

#[test]
fn empty_inline_body_still_turns_on_detail_mode() {
    let nag = Swaynag::new("m");
    let inv = nag.invocation(Delivery::Inline(String::new()));
    assert_eq!(args_of(&inv), vec!["-m", "m", "-l"]);
    assert!(inv.pipe_stdin);
    assert_eq!(inv.body.as_deref(), Some(""));
}

#[test]
fn stream_pipes_stdin_without_in_memory_body() {
    let mut nag = Swaynag::new("m");
    nag.detailed_message("attached").font("mono");
    let inv = nag.invocation(Delivery::Stream);
    assert_eq!(args_of(&inv), vec!["-m", "m", "-f", "mono", "-l"]);
    assert!(inv.pipe_stdin);
    assert_eq!(inv.body, None);
}

#[test]
fn attached_body_is_ignored_by_plain_spawn() {
    let mut nag = Swaynag::new("m");
    nag.detailed_message("details");
    let inv = nag.invocation(Delivery::Nothing);
    assert_eq!(args_of(&inv), vec!["-m", "m"]);
    assert!(!inv.pipe_stdin);
    assert_eq!(inv.body, None);
}

#[test]
fn attached_delivery_without_body_is_plain() {
    let nag = Swaynag::new("m");
    let inv = nag.invocation(Delivery::Attached);
    assert_eq!(args_of(&inv), vec!["-m", "m"]);
    assert!(!inv.pipe_stdin);
    assert_eq!(inv.body, None);
}

#[test]
fn inline_body_wins_over_attached_one() {
    let mut nag = Swaynag::new("m");
    nag.detailed_message("attached");
    let inv = nag.invocation(Delivery::Inline(String::from("given")));
    assert_eq!(inv.body.as_deref(), Some("given"));
    assert_eq!(args_of(&inv), vec!["-m", "m", "-l"]);
}

#[test]
fn setters_keep_call_order_without_dedup() {
    let mut nag = Swaynag::new("msg");
    nag.font("a")
        .button("b1", "x")
        .font("a")
        .display_on_top_edge()
        .message_type("error")
        .output("DP-1")
        .details_button("more");
    let inv = nag.invocation(Delivery::Nothing);
    assert_eq!(
        args_of(&inv),
        vec![
            "-m", "msg", "-f", "a", "-b", "b1", "x", "-f", "a", "-e", "top", "-t", "error", "-o",
            "DP-1", "-L", "more",
        ]
    );
}

#[test]
fn every_color_and_size_setter_emits_its_flag_pair() {
    let mut nag = Swaynag::new("m");
    nag.background("1")
        .border("2")
        .border_bottom("3")
        .button_background("4")
        .text("5")
        .button_text("6")
        .border_bottom_size("7")
        .message_padding("8")
        .details_background("9")
        .details_border_size("10")
        .button_border_size("11")
        .button_gap("12")
        .button_dismiss_gap("13")
        .button_margin_right("14")
        .button_padding("15");
    let inv = nag.invocation(Delivery::Nothing);
    assert_eq!(
        args_of(&inv),
        vec![
            "-m",
            "m",
            "--background",
            "1",
            "--border",
            "2",
            "--border-bottom",
            "3",
            "--button-background",
            "4",
            "--text",
            "5",
            "--button-text",
            "6",
            "--border-bottom-size",
            "7",
            "--message-padding",
            "8",
            "--details-background",
            "9",
            "--details-border-size",
            "10",
            "--button-border-size",
            "11",
            "--button-gap",
            "12",
            "--button-dismiss-gap",
            "13",
            "--button-margin-right",
            "14",
            "--button-padding",
            "15",
        ]
    );
}

#[test]
fn action_buttons_emit_three_tokens_and_others_two() {
    let mut nag = Swaynag::new("m");
    nag.button("a", "1")
        .button_no_terminal("b", "2")
        .dismiss_button("c", "3")
        .dismiss_button_no_terminal("d", "4")
        .override_default_dismiss_button("e")
        .details_button("f");
    let inv = nag.invocation(Delivery::Nothing);
    assert_eq!(
        args_of(&inv),
        vec![
            "-m", "m", "-b", "a", "1", "-B", "b", "2", "-z", "c", "3", "-Z", "d", "4", "-s", "e",
            "-L", "f",
        ]
    );
}

#[test]
fn button_kinds_know_their_flags_and_actions() {
    let kinds = [
        (ButtonKind::Terminal, "-b", true),
        (ButtonKind::NoTerminal, "-B", true),
        (ButtonKind::Dismiss, "-z", true),
        (ButtonKind::DismissNoTerminal, "-Z", true),
        (ButtonKind::OverrideDefaultDismiss, "-s", false),
        (ButtonKind::Details, "-L", false),
    ];
    for (kind, flag, action) in kinds {
        assert_eq!(kind.flag(), flag);
        assert_eq!(kind.has_action(), action);
    }
}

#[test]
fn terminal_is_exported_and_not_an_argument() {
    let mut nag = Swaynag::new("m");
    nag.terminal("foot");
    let inv = nag.invocation(Delivery::Nothing);
    assert_eq!(inv.terminal.as_deref(), Some("foot"));
    assert_eq!(args_of(&inv), vec!["-m", "m"]);
    assert_eq!(TERMINAL_VAR, "TERMINAL");
    assert_eq!(PROGRAM, "swaynag");
    assert_eq!(DETAILS_FLAG, "-l");
}

#[test]
fn later_terminal_replaces_earlier_one() {
    let mut nag = Swaynag::new("m");
    nag.terminal("foot").terminal("alacritty");
    let inv = nag.invocation(Delivery::Nothing);
    assert_eq!(inv.terminal.as_deref(), Some("alacritty"));
}

#[test]
fn one_configuration_serves_several_spawns() {
    let mut nag = Swaynag::new("again");
    nag.button("OK", "true");
    let first = nag.invocation(Delivery::Nothing);
    let second = nag.invocation(Delivery::Inline(String::from("x")));
    let third = nag.invocation(Delivery::Nothing);
    assert_eq!(args_of(&first), args_of(&third));
    assert_eq!(args_of(&second), vec!["-m", "again", "-b", "OK", "true", "-l"]);
}

#[test]
fn wait_ends_the_handle_once() {
    let s = HandleState::Running;
    assert!(s.may_wait());
    let s = s.after_wait(true);
    assert_eq!(s, HandleState::Exited);
    assert!(!s.may_wait());
    assert!(!s.may_kill());
}

#[test]
fn failed_wait_leaves_no_safe_call() {
    let s = HandleState::Running.after_wait(false);
    assert_eq!(s, HandleState::Failed);
    assert!(!s.may_wait());
    assert!(!s.may_kill());
}

#[test]
fn killed_child_must_still_be_waited_on() {
    let s = HandleState::Running;
    assert!(s.may_kill());
    let s = s.after_kill(true);
    assert_eq!(s, HandleState::Running);
    assert!(s.may_wait());
    assert_eq!(s.after_wait(true), HandleState::Exited);
    assert_eq!(HandleState::Running.after_kill(false), HandleState::Failed);
}
