use ark::kernel::{KernelAction, Phase, RKernel};
use ark::prompt::{prompt_info, PromptInfo};
use ark::wire::{
    ExecuteInput, ExecuteReply, ExecuteRequest, ExecuteResult, IOPubMessage, InputRequest, Status,
    Stream, StreamOutput,
};

fn request(code: &str, store_history: bool, silent: bool) -> ExecuteRequest {
    ExecuteRequest { code: code.to_string(), originator: Some(11), store_history, silent }
}

fn prompt(text: &str) -> PromptInfo {
    prompt_info(text.to_string(), &"+ ".to_string(), &"> ".to_string())
}

fn reply(status: Status, execution_count: u32) -> KernelAction {
    KernelAction::Reply { originator: Some(11), reply: ExecuteReply { status, execution_count } }
}

#[test]
fn new_kernel_starts_at_zero_and_idle() {
    let kernel = RKernel::new();
    assert_eq!(kernel.execution_count, 0);
    assert_eq!(kernel.phase, Phase::Idle);
    assert_eq!(kernel.originator, None);
    assert_eq!(kernel.output, "");
}

#[test]
fn count_is_kept_without_history() {
    let mut kernel = RKernel::new();
    kernel.execution_count = 41;
    let actions = kernel.execute_request(request("x <- 1", false, false));
    assert_eq!(kernel.execution_count, 41);
    assert_eq!(
        actions,
        vec![
            KernelAction::Broadcast(IOPubMessage::ExecuteInput(ExecuteInput {
                code: "x <- 1".to_string(),
                execution_count: 41,
            })),
            KernelAction::ConsoleInput(Some("x <- 1".to_string())),
        ]
    );
    let actions = kernel.complete_execute_request(prompt("> "));
    assert_eq!(actions, vec![reply(Status::Success, 41)]);
    assert_eq!(kernel.execution_count, 41);
}

#[test]
fn count_advances_by_one_with_history() {
    let mut kernel = RKernel::new();
    kernel.execution_count = 41;
    let actions = kernel.execute_request(request("x <- 1", true, false));
    assert_eq!(kernel.execution_count, 42);
    assert_eq!(
        actions[0],
        KernelAction::Broadcast(IOPubMessage::ExecuteInput(ExecuteInput {
            code: "x <- 1".to_string(),
            execution_count: 42,
        }))
    );
}

#[test]
fn silent_request_sends_no_echo_and_no_result() {
    let mut kernel = RKernel::new();
    let actions = kernel.execute_request(request("1 + 1", true, true));
    assert_eq!(actions, vec![KernelAction::ConsoleInput(Some("1 + 1".to_string()))]);
    assert_eq!(kernel.execution_count, 1);
    kernel.write_console("[1] 2\n".to_string(), 0);
    let actions = kernel.complete_execute_request(prompt("> "));
    assert_eq!(actions, vec![reply(Status::Success, 1)]);
}

#[test]
fn complete_code_runs_to_ok() {
    let mut kernel = RKernel::new();
    let actions = kernel.execute_request(request("1 + 1", true, false));
    assert_eq!(
        actions,
        vec![
            KernelAction::Broadcast(IOPubMessage::ExecuteInput(ExecuteInput {
                code: "1 + 1".to_string(),
                execution_count: 1,
            })),
            KernelAction::ConsoleInput(Some("1 + 1".to_string())),
        ]
    );
    assert_eq!(kernel.phase, Phase::Busy);
    let actions = kernel.write_console("[1] 2\n".to_string(), 0);
    assert_eq!(
        actions,
        vec![KernelAction::Broadcast(IOPubMessage::Stream(StreamOutput {
            stream: Stream::Stdout,
            text: "[1] 2\n".to_string(),
        }))]
    );
    let actions = kernel.read_console("> ".to_string(), &"+ ".to_string(), &"> ".to_string());
    assert_eq!(
        actions,
        vec![
            KernelAction::Broadcast(IOPubMessage::ExecuteResult(ExecuteResult {
                execution_count: 1,
                data: "[1] 2\n".to_string(),
            })),
            reply(Status::Success, 1),
        ]
    );
    assert_eq!(kernel.phase, Phase::Idle);
    assert_eq!(kernel.execution_count, 1);
    assert_eq!(kernel.output, "");
}

#[test]
fn incomplete_code_is_reported() {
    let mut kernel = RKernel::new();
    kernel.execute_request(request("f <- function() {", true, false));
    kernel.write_console("noise".to_string(), 0);
    let actions = kernel.read_console("+ ".to_string(), &"+ ".to_string(), &"> ".to_string());
    assert_eq!(actions, vec![reply(Status::Incomplete, 1)]);
    assert_eq!(kernel.phase, Phase::Idle);
    assert_eq!(kernel.execution_count, 1);
}

#[test]
fn continuation_prompt_never_moves_the_count() {
    let long = "x + ".repeat(500);
    let mut kernel = RKernel::new();
    kernel.execution_count = 7;
    kernel.execute_request(request(&long, false, false));
    let actions = kernel.complete_execute_request(prompt("+ "));
    assert_eq!(actions, vec![reply(Status::Incomplete, 7)]);
    assert_eq!(kernel.execution_count, 7);
}

#[test]
fn interactive_read_asks_the_client() {
    let mut kernel = RKernel::new();
    kernel.execute_request(request("readline('Name: ')", true, false));
    let actions = kernel.read_console("Name: ".to_string(), &"+ ".to_string(), &"> ".to_string());
    assert_eq!(
        actions,
        vec![KernelAction::RequestInput(InputRequest {
            prompt: "Name: ".to_string(),
            originator: Some(11),
        })]
    );
    assert_eq!(kernel.phase, Phase::RequestingInput);
    let actions = kernel.input_reply(Some("Ada".to_string()));
    assert_eq!(actions, vec![KernelAction::ConsoleInput(Some("Ada".to_string()))]);
    assert_eq!(kernel.phase, Phase::Busy);
    kernel.write_console("[1] \"Ada\"\n".to_string(), 0);
    let actions = kernel.read_console("> ".to_string(), &"+ ".to_string(), &"> ".to_string());
    assert_eq!(actions.len(), 2);
    assert_eq!(actions[1], reply(Status::Success, 1));
    assert_eq!(kernel.phase, Phase::Idle);
}

#[test]
fn input_request_without_originator_is_still_sent() {
    let mut kernel = RKernel::new();
    let mut req = request("menu(c('a', 'b'))", true, false);
    req.originator = None;
    kernel.execute_request(req);
    let actions = kernel.complete_execute_request(prompt("Selection: "));
    assert_eq!(
        actions,
        vec![KernelAction::RequestInput(InputRequest {
            prompt: "Selection: ".to_string(),
            originator: None,
        })]
    );
}

#[test]
fn no_more_input_is_forwarded_to_the_console() {
    let mut kernel = RKernel::new();
    kernel.execute_request(request("readline()", true, false));
    kernel.complete_execute_request(prompt(""));
    let actions = kernel.input_reply(None);
    assert_eq!(actions, vec![KernelAction::ConsoleInput(None)]);
    assert_eq!(kernel.phase, Phase::Busy);
}

#[test]
fn unasked_input_is_dropped() {
    let mut kernel = RKernel::new();
    assert_eq!(kernel.input_reply(Some("x".to_string())), vec![]);
    kernel.execute_request(request("1", true, false));
    assert_eq!(kernel.input_reply(Some("x".to_string())), vec![]);
    assert_eq!(kernel.phase, Phase::Busy);
}

#[test]
fn second_request_is_rejected_while_busy() {
    let mut kernel = RKernel::new();
    kernel.execute_request(request("Sys.sleep(10)", true, false));
    let mut second = request("2 + 2", true, false);
    second.originator = Some(12);
    let actions = kernel.execute_request(second);
    assert_eq!(
        actions,
        vec![KernelAction::Reply {
            originator: Some(12),
            reply: ExecuteReply { status: Status::Error, execution_count: 1 },
        }]
    );
    assert_eq!(kernel.execution_count, 1);
    assert_eq!(kernel.phase, Phase::Busy);
    assert_eq!(kernel.originator, Some(11));
    let actions = kernel.complete_execute_request(prompt("> "));
    assert_eq!(actions, vec![reply(Status::Success, 1)]);
}

#[test]
fn prompt_with_nothing_outstanding_does_nothing() {
    let mut kernel = RKernel::new();
    assert_eq!(kernel.complete_execute_request(prompt("> ")), vec![]);
    assert_eq!(kernel.complete_execute_request(prompt("+ ")), vec![]);
    assert_eq!(kernel.phase, Phase::Idle);
    assert_eq!(kernel.execution_count, 0);
}

#[test]
fn error_output_is_published_but_not_gathered() {
    let mut kernel = RKernel::new();
    kernel.execute_request(request("warning('w')", true, false));
    let actions = kernel.write_console("Warning message:\nw\n".to_string(), 1);
    assert_eq!(
        actions,
        vec![KernelAction::Broadcast(IOPubMessage::Stream(StreamOutput {
            stream: Stream::Stderr,
            text: "Warning message:\nw\n".to_string(),
        }))]
    );
    assert_eq!(kernel.output, "");
    let actions = kernel.complete_execute_request(prompt("> "));
    assert_eq!(actions, vec![reply(Status::Success, 1)]);
}

#[test]
fn output_outside_a_request_is_only_published() {
    let mut kernel = RKernel::new();
    let actions = kernel.write_console("banner".to_string(), 0);
    assert_eq!(actions.len(), 1);
    assert_eq!(kernel.output, "");
}

#[test]
fn output_is_gathered_in_order() {
    let mut kernel = RKernel::new();
    kernel.execute_request(request("print(1); print(2)", true, false));
    kernel.write_console("[1] 1\n".to_string(), 0);
    kernel.write_console("oops".to_string(), 2);
    kernel.write_console("[1] 2\n".to_string(), 0);
    assert_eq!(kernel.output, "[1] 1\n[1] 2\n");
}

#[test]
fn count_follows_the_requests_that_store_history() {
    let mut kernel = RKernel::new();
    let mut expected = 0;
    for i in 0..20 {
        let store = i % 3 != 0;
        let before = kernel.execution_count;
        kernel.execute_request(request("1", store, i % 2 == 0));
        if store {
            expected += 1;
        }
        assert!(kernel.execution_count >= before);
        assert_eq!(kernel.execution_count, expected);
        kernel.complete_execute_request(prompt("> "));
        assert_eq!(kernel.execution_count, expected);
    }
    assert_eq!(expected, 13);
}

#[test]
fn prompts_are_compared_exactly() {
    let info = prompt("> ");
    assert_eq!(
        info,
        PromptInfo { prompt: "> ".to_string(), incomplete: false, user_request: false }
    );
    let info = prompt("+ ");
    assert_eq!(
        info,
        PromptInfo { prompt: "+ ".to_string(), incomplete: true, user_request: true }
    );
    let info = prompt(">");
    assert_eq!(info, PromptInfo { prompt: ">".to_string(), incomplete: false, user_request: true });
    let info = prompt("+");
    assert!(!info.incomplete);
    assert!(info.user_request);
}

#[test]
fn equal_configured_prompts_read_as_continuation() {
    let info = prompt_info("> ".to_string(), &"> ".to_string(), &"> ".to_string());
    assert!(info.incomplete);
    assert!(!info.user_request);
}

#[test]
fn every_accepted_request_gets_one_closing_reply() {
    let mut kernel = RKernel::new();
    let mut accepted = 0;
    let mut closed = 0;
    let mut refused = 0;
    let count = |actions: Vec<KernelAction>, closed: &mut i32, refused: &mut i32| {
        for action in actions {
            if let KernelAction::Reply { reply, .. } = action {
                if reply.status == Status::Error {
                    *refused += 1;
                } else {
                    *closed += 1;
                }
            }
        }
    };
    for round in 0..30 {
        if kernel.phase == Phase::Idle {
            accepted += 1;
        }
        let first = request("x", round % 2 == 0, false);
        count(kernel.execute_request(first), &mut closed, &mut refused);
        if round % 4 == 1 {
            count(kernel.execute_request(request("y", true, true)), &mut closed, &mut refused);
        }
        count(kernel.write_console("out".to_string(), round % 3), &mut closed, &mut refused);
        let text = match round % 5 {
            0 => "+ ",
            1 => "Name: ",
            _ => "> ",
        };
        count(kernel.complete_execute_request(prompt(text)), &mut closed, &mut refused);
        if round % 5 == 1 && round % 2 == 0 {
            count(kernel.input_reply(Some("a".to_string())), &mut closed, &mut refused);
        }
        let outstanding = if kernel.phase == Phase::Idle { 0 } else { 1 };
        assert_eq!(accepted, closed + outstanding);
    }
    assert!(closed > 0);
    assert!(refused > 0);
}

#[test]
fn continuation_prompt_that_is_not_the_default_has_both_flags() {
    let info = prompt_info("... ".to_string(), &"... ".to_string(), &">> ".to_string());
    assert!(info.incomplete);
    assert!(info.user_request);
    let mut kernel = RKernel::new();
    kernel.execute_request(request("f(", true, false));
    let actions = kernel.complete_execute_request(info);
    assert_eq!(actions, vec![reply(Status::Incomplete, 1)]);
    assert_eq!(kernel.phase, Phase::Idle);
}

#[test]
fn abandoned_request_leaves_the_kernel_at_rest() {
    let mut kernel = RKernel::new();
    kernel.execute_request(request("Sys.sleep(1)", true, false));
    kernel.write_console("partial".to_string(), 0);
    kernel.abandon_request();
    assert_eq!(kernel.phase, Phase::Idle);
    assert_eq!(kernel.execution_count, 1);
    assert_eq!(kernel.originator, None);
    assert_eq!(kernel.output, "");
    assert_eq!(kernel.complete_execute_request(prompt("> ")), vec![]);
    let actions = kernel.execute_request(request("1", true, true));
    assert_eq!(actions, vec![KernelAction::ConsoleInput(Some("1".to_string()))]);
    assert_eq!(kernel.execution_count, 2);
    let mut idle = RKernel::new();
    idle.abandon_request();
    assert_eq!(idle.phase, Phase::Idle);
    assert_eq!(idle.execution_count, 0);
}
