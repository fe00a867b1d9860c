use ark::console::{
    begin_read_console, is_save_prompt, on_console_input, r_read_console, r_write_console,
    starts_with_bytes, ConsoleAction, ConsoleEvent, ConsoleInputError,
};
use ark::events::{
    handle_interrupt, r_busy, r_show_message, BusyAction, BusyEvent, PendingInterrupt,
    PositronEvent, ShowMessageEvent,
};
use ark::prompt::PromptInfo;
use ark::wire::{stream_of, ExecuteError, KernelInfoRequest, SocketType, Stream};

#[test]
fn line_is_framed_with_newline_and_terminator() {
    assert_eq!(on_console_input(4096, "1 + 1".to_string()), Ok(b"1 + 1\n\0".to_vec()));
    assert_eq!(on_console_input(4096, String::new()), Ok(vec![10, 0]));
}

#[test]
fn line_is_framed_as_utf8() {
    assert_eq!(
        on_console_input(16, "é€".to_string()),
        Ok(vec![0xC3, 0xA9, 0xE2, 0x82, 0xAC, 10, 0])
    );
}

#[test]
fn line_that_fills_the_buffer_is_taken() {
    assert_eq!(on_console_input(5, "abc".to_string()), Ok(b"abc\n\0".to_vec()));
    assert_eq!(on_console_input(2, String::new()), Ok(vec![10, 0]));
}

#[test]
fn line_over_the_buffer_is_refused_not_cut() {
    assert_eq!(on_console_input(4, "abc".to_string()), Err(ConsoleInputError::TooLarge));
    assert_eq!(on_console_input(1, String::new()), Err(ConsoleInputError::TooLarge));
    assert_eq!(on_console_input(0, String::new()), Err(ConsoleInputError::TooLarge));
    assert_eq!(on_console_input(-1, "a".to_string()), Err(ConsoleInputError::TooLarge));
    assert_eq!(on_console_input(i32::MIN, "a".to_string()), Err(ConsoleInputError::TooLarge));
    assert_eq!(on_console_input(6, "é€".to_string()), Err(ConsoleInputError::TooLarge));
}

#[test]
fn line_with_a_zero_byte_is_refused() {
    assert_eq!(on_console_input(64, "a\0b".to_string()), Err(ConsoleInputError::InteriorNul));
    assert_eq!(on_console_input(3, "a\0b".to_string()), Err(ConsoleInputError::TooLarge));
}

#[test]
fn prefix_of_bytes() {
    assert!(starts_with_bytes(b"Save workspace image?", b"Save workspace"));
    assert!(starts_with_bytes(b"abc", b""));
    assert!(starts_with_bytes(b"abc", b"abc"));
    assert!(!starts_with_bytes(b"ab", b"abc"));
    assert!(!starts_with_bytes(b"abd", b"abc"));
    assert!(!starts_with_bytes(b"", b"a"));
}

#[test]
fn save_workspace_prompt_is_recognised() {
    assert!(is_save_prompt("Save workspace image? [y/n/c]: "));
    assert!(is_save_prompt("Save workspace"));
    assert!(!is_save_prompt("save workspace"));
    assert!(!is_save_prompt(" Save workspace"));
    assert!(!is_save_prompt("> "));
}

#[test]
fn save_workspace_prompt_is_answered_with_n() {
    let actions = begin_read_console(
        "Save workspace image? [y/n/c]: ".to_string(),
        &"+ ".to_string(),
        &"> ".to_string(),
        4096,
    );
    assert_eq!(
        actions,
        vec![ConsoleAction::CopyToBuffer(b"n\n\0".to_vec()), ConsoleAction::Return(1)]
    );
    let actions = begin_read_console(
        "Save workspace image? [y/n/c]: ".to_string(),
        &"+ ".to_string(),
        &"> ".to_string(),
        2,
    );
    assert_eq!(
        actions,
        vec![
            ConsoleAction::ReportRefusal(ConsoleInputError::TooLarge),
            ConsoleAction::ReleaseArbiter,
            ConsoleAction::WaitForInput,
        ]
    );
}

#[test]
fn other_prompts_are_published_before_the_wait() {
    let actions = begin_read_console("+ ".to_string(), &"+ ".to_string(), &"> ".to_string(), 4096);
    assert_eq!(
        actions,
        vec![
            ConsoleAction::PublishPrompt(PromptInfo {
                prompt: "+ ".to_string(),
                incomplete: true,
                user_request: true,
            }),
            ConsoleAction::ReleaseArbiter,
            ConsoleAction::WaitForInput,
        ]
    );
    let actions = begin_read_console("Name: ".to_string(), &"+ ".to_string(), &"> ".to_string(), 8);
    assert_eq!(
        actions[0],
        ConsoleAction::PublishPrompt(PromptInfo {
            prompt: "Name: ".to_string(),
            incomplete: false,
            user_request: true,
        })
    );
}

#[test]
fn timeout_pumps_events_and_keeps_waiting() {
    assert_eq!(
        r_read_console(ConsoleEvent::Timeout, 4096),
        vec![
            ConsoleAction::AcquireArbiter,
            ConsoleAction::PumpEvents,
            ConsoleAction::ReleaseArbiter,
            ConsoleAction::WaitForInput,
        ]
    );
}

#[test]
fn input_clears_the_interrupt_and_is_delivered() {
    assert_eq!(
        r_read_console(ConsoleEvent::Input(Some("x".to_string())), 4096),
        vec![
            ConsoleAction::AcquireArbiter,
            ConsoleAction::ClearInterrupt,
            ConsoleAction::PumpEvents,
            ConsoleAction::CopyToBuffer(b"x\n\0".to_vec()),
            ConsoleAction::Return(1),
        ]
    );
}

#[test]
fn oversized_input_fails_the_one_delivery() {
    assert_eq!(
        r_read_console(ConsoleEvent::Input(Some("xyz".to_string())), 4),
        vec![
            ConsoleAction::AcquireArbiter,
            ConsoleAction::ClearInterrupt,
            ConsoleAction::PumpEvents,
            ConsoleAction::ReportRefusal(ConsoleInputError::TooLarge),
            ConsoleAction::ReleaseArbiter,
            ConsoleAction::WaitForInput,
        ]
    );
    assert_eq!(
        r_read_console(ConsoleEvent::Input(Some("x\0".to_string())), 16)[3],
        ConsoleAction::ReportRefusal(ConsoleInputError::InteriorNul)
    );
}

#[test]
fn end_of_input_is_passed_on() {
    assert_eq!(
        r_read_console(ConsoleEvent::Input(None), 4096),
        vec![
            ConsoleAction::AcquireArbiter,
            ConsoleAction::ClearInterrupt,
            ConsoleAction::PumpEvents,
            ConsoleAction::Return(0),
        ]
    );
    assert_eq!(
        r_read_console(ConsoleEvent::Disconnected, 4096),
        vec![ConsoleAction::AcquireArbiter, ConsoleAction::Return(0)]
    );
}

#[test]
fn interrupt_is_cleared_on_the_next_input() {
    let mut flag = PendingInterrupt::new();
    assert!(!flag.pending);
    handle_interrupt(&mut flag);
    assert!(flag.pending);
    let mut waits = 0;
    for action in r_read_console(ConsoleEvent::Timeout, 4096) {
        match action {
            ConsoleAction::ClearInterrupt => {
                flag.clear();
            }
            ConsoleAction::WaitForInput => waits += 1,
            _ => {}
        }
    }
    assert_eq!(waits, 1);
    assert!(flag.pending);
    let mut observed = false;
    for action in r_read_console(ConsoleEvent::Input(Some("1".to_string())), 4096) {
        if action == ConsoleAction::ClearInterrupt {
            observed = flag.clear();
        }
    }
    assert!(observed);
    assert!(!flag.pending);
    assert!(!flag.clear());
}

#[test]
fn console_read_never_waits_with_the_arbiter_held() {
    let events = vec![
        ConsoleEvent::Timeout,
        ConsoleEvent::Input(Some("a".to_string())),
        ConsoleEvent::Input(Some("a\0".to_string())),
        ConsoleEvent::Input(Some("much too long for the buffer, which holds 64 bytes in all, \
            newline and terminator included".to_string())),
        ConsoleEvent::Input(None),
        ConsoleEvent::Disconnected,
    ];
    for event in events {
        let actions = r_read_console(event, 64);
        let mut held = false;
        for action in &actions {
            match action {
                ConsoleAction::AcquireArbiter => held = true,
                ConsoleAction::ReleaseArbiter => held = false,
                ConsoleAction::WaitForInput => assert!(!held),
                ConsoleAction::PumpEvents | ConsoleAction::CopyToBuffer(_) => assert!(held),
                _ => {}
            }
        }
    }
}

#[test]
fn output_discriminant_names_the_stream() {
    assert_eq!(stream_of(0), Stream::Stdout);
    assert_eq!(stream_of(1), Stream::Stderr);
    assert_eq!(stream_of(-1), Stream::Stderr);
    assert_eq!(stream_of(i32::MAX), Stream::Stderr);
    let out = r_write_console("hello".to_string(), 0);
    assert_eq!(out.stream, Stream::Stdout);
    assert_eq!(out.text, "hello");
    assert_eq!(r_write_console("bad".to_string(), 1).stream, Stream::Stderr);
}

#[test]
fn busy_hook_installs_handlers_before_the_event() {
    assert_eq!(
        r_busy(1),
        vec![
            BusyAction::InstallSignalHandlers,
            BusyAction::SendEvent(PositronEvent::Busy(BusyEvent { busy: true })),
        ]
    );
    assert_eq!(
        r_busy(0)[1],
        BusyAction::SendEvent(PositronEvent::Busy(BusyEvent { busy: false }))
    );
    assert_eq!(
        r_busy(-3)[1],
        BusyAction::SendEvent(PositronEvent::Busy(BusyEvent { busy: true }))
    );
}

#[test]
fn message_box_becomes_an_event() {
    assert_eq!(
        r_show_message("disk full".to_string()),
        PositronEvent::ShowMessage(ShowMessageEvent { message: "disk full".to_string() })
    );
}

#[test]
fn wire_names() {
    assert_eq!(KernelInfoRequest::message_type(), "kernel_info_request");
    assert_eq!(KernelInfoRequest::socket_type(), SocketType::Shell);
    assert_eq!(ExecuteError::message_type(), "error");
}

#[test]
fn interpreter_is_told_of_a_line_only_after_a_copy() {
    let lines = ["", "x <- 1", "a\0b", "0123456789abcdef"];
    for line in lines {
        for buflen in [-1, 0, 1, 2, 8, 17, 18, 19, 4096] {
            let actions = r_read_console(ConsoleEvent::Input(Some(line.to_string())), buflen);
            let copied = actions.iter().any(|a| matches!(a, ConsoleAction::CopyToBuffer(_)));
            let refused = actions.iter().any(|a| matches!(a, ConsoleAction::ReportRefusal(_)));
            assert_ne!(copied, refused);
            let fits = line.len() as i64 + 2 <= buflen as i64 && !line.contains('\0');
            assert_eq!(copied, fits);
            match actions.last() {
                Some(ConsoleAction::Return(1)) => assert!(copied),
                Some(ConsoleAction::WaitForInput) => assert!(refused),
                other => panic!("the turn ends with {:?}", other),
            }
        }
    }
}
