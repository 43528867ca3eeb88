use server::chat_action::{ChatAction, StepEvent, StepPhase, StepRequest};
use server::handler::{
    assistant_response_of, cli_response_of, extract_command_from_frontend_message,
    ChatActionOutcome, CommandReport, ResponseStatus,
};
use server::relay::{Activity, DisplayFrame, ProtocolError, RelayAction, RelayEvent, RelayLoop, RelayStatus};
use server::state::{ChatState, CliCommandType, ContextMessage, MessageType, UserChatPreferences};

fn frame(tag: &str, content: &str) -> RelayEvent {
    RelayEvent::DisplayFrame(DisplayFrame {
        message_type: tag.to_string(),
        content: content.to_string(),
    })
}

fn ok_report(stdout: &str) -> CommandReport {
    CommandReport { stdout: stdout.to_string(), stderr: String::new(), exit_code: Some(0) }
}

fn kinds(s: &ChatState) -> Vec<MessageType> {
    s.history().iter().map(|m| m.message_type).collect()
}

/// Runs one step with the given model replies and command report.
fn run_step(
    session: &mut ChatState,
    prompt: ContextMessage,
    first: Result<String, String>,
    report: Option<Result<CommandReport, String>>,
    second: Result<String, String>,
) -> ChatActionOutcome {
    let (mut step, action) = ChatAction::start(session, prompt);
    assert!(matches!(action.next, StepRequest::CallModel(_)));
    let mut action = step.advance(session, StepEvent::ModelReplied(assistant_response_of(first)));
    if let StepRequest::RunCommand(_) = action.next {
        let report = report.expect("a command was proposed");
        action = step.advance(session, StepEvent::CommandFinished(cli_response_of(report)));
        assert!(matches!(action.next, StepRequest::CallModel(_)));
        action = step.advance(session, StepEvent::ModelReplied(assistant_response_of(second)));
    }
    match action.next {
        StepRequest::Finish(o) => o,
        _ => panic!("step did not finish"),
    }
}

#[test]
fn scenario_autorun_continues_within_depth() {
    let mut session = ChatState::new(7);
    assert_eq!(session.preferences(), UserChatPreferences { depth: 5, autorun_readonly: true, autorun_all: false });
    let mut relay = RelayLoop::new(&session);
    let prompt = match relay.handle(&mut session, frame("UserPrompt", "list files")) {
        RelayAction::StartStep(m) => m,
        other => panic!("expected a step, got {:?}", other),
    };
    assert_eq!(prompt.message_type, MessageType::UserPrompt);
    assert_eq!(prompt.content, "list files");
    assert_eq!(session.depth(), 1);
    assert!(relay.autorun_enabled());

    let (mut step, _) = ChatAction::start(&mut session, prompt);
    let action = step.advance(
        &mut session,
        StepEvent::ModelReplied(assistant_response_of(Ok("ls".to_string()))),
    );
    assert_eq!(action.display.as_deref(), Some("ls"));
    match &action.next {
        StepRequest::RunCommand(c) => {
            assert_eq!(c.command_type, CliCommandType::WriteExecuteCliCommand);
            assert_eq!(c.command, "ls");
        }
        other => panic!("expected a command, got {:?}", other),
    }
    step.advance(&mut session, StepEvent::CommandFinished(cli_response_of(Ok(ok_report("a\nb\n")))));
    let action = step.advance(
        &mut session,
        StepEvent::ModelReplied(assistant_response_of(Ok("two files".to_string()))),
    );
    assert!(matches!(action.next, StepRequest::Finish(ChatActionOutcome::Continue)));
    assert_eq!(step.phase(), StepPhase::Finished(ChatActionOutcome::Continue));
    assert_eq!(
        kinds(&session),
        vec![
            MessageType::UserPrompt,
            MessageType::AssistantResponse,
            MessageType::WriteExecuteCliCommand,
            MessageType::CliOutput,
            MessageType::AssistantResponse,
        ]
    );

    let next = relay.handle(&mut session, RelayEvent::StepFinished(ChatActionOutcome::Continue));
    assert!(matches!(next, RelayAction::RequestContinuation));
    match relay.handle(&mut session, RelayEvent::ContinuePrompt(Ok("keep going".to_string()))) {
        RelayAction::StartStep(m) => {
            assert_eq!(m.message_type, MessageType::UserPrompt);
            assert_eq!(m.content, "keep going");
        }
        other => panic!("expected a continuation step, got {:?}", other),
    }
    assert_eq!(session.depth(), 1);
}

#[test]
fn scenario_no_autorun_past_depth() {
    let mut session = ChatState::new(7);
    for _ in 0..6 {
        session.increment_depth();
    }
    let mut relay = RelayLoop::new(&session);
    assert!(matches!(relay.handle(&mut session, frame("UserPrompt", "list files")), RelayAction::StartStep(_)));
    assert_eq!(session.depth(), 7);
    assert!(!relay.autorun_enabled());
    let outcome = run_step(
        &mut session,
        ContextMessage { message_type: MessageType::UserPrompt, content: "list files".to_string(), timestamp: None },
        Ok("ls".to_string()),
        Some(Ok(ok_report("a\n"))),
        Ok("done".to_string()),
    );
    assert_eq!(outcome, ChatActionOutcome::Continue);
    let next = relay.handle(&mut session, RelayEvent::StepFinished(outcome));
    assert!(matches!(next, RelayAction::NoAction));
    assert_eq!(relay.status(), RelayStatus::Active);
    assert!(matches!(relay.handle(&mut session, frame("UserPrompt", "again")), RelayAction::StartStep(_)));
}

#[test]
fn scenario_failing_command_is_recorded_and_summarised() {
    let mut session = ChatState::new(3);
    let (mut step, _) = ChatAction::start(
        &mut session,
        ContextMessage { message_type: MessageType::UserPrompt, content: "run it".to_string(), timestamp: None },
    );
    step.advance(&mut session, StepEvent::ModelReplied(assistant_response_of(Ok("frobnicate".to_string()))));
    let report = CommandReport {
        stdout: String::new(),
        stderr: "sh: frobnicate: command not found\n".to_string(),
        exit_code: Some(127),
    };
    let action = step.advance(&mut session, StepEvent::CommandFinished(cli_response_of(Ok(report))));
    let last = session.history().last().unwrap();
    assert_eq!(last.message_type, MessageType::CliOutput);
    assert!(last.content.contains("command not found"));
    assert_eq!(last.content, "sh: frobnicate: command not found\n[exit status 127]");
    match action.next {
        StepRequest::CallModel(m) => {
            assert_eq!(m.message_type, MessageType::CliOutput);
            assert!(m.content.contains("command not found"));
        }
        other => panic!("the model must be called again, got {:?}", other),
    }
    let action = step.advance(&mut session, StepEvent::ModelReplied(assistant_response_of(Ok("not installed".to_string()))));
    assert!(matches!(action.next, StepRequest::Finish(ChatActionOutcome::Continue)));
}

#[test]
fn model_failure_stops_the_step() {
    let mut session = ChatState::new(3);
    let (mut step, _) = ChatAction::start(
        &mut session,
        ContextMessage { message_type: MessageType::UserPrompt, content: "hi".to_string(), timestamp: None },
    );
    let action = step.advance(&mut session, StepEvent::ModelReplied(assistant_response_of(Err("timeout".to_string()))));
    assert_eq!(action.display.as_deref(), Some("timeout"));
    assert!(matches!(action.next, StepRequest::Finish(ChatActionOutcome::Stop)));
    assert_eq!(kinds(&session), vec![MessageType::UserPrompt]);
}

#[test]
fn empty_reply_stops_without_command() {
    let mut session = ChatState::new(3);
    let outcome = run_step(
        &mut session,
        ContextMessage { message_type: MessageType::UserPrompt, content: "hi".to_string(), timestamp: None },
        Ok(String::new()),
        None,
        Ok(String::new()),
    );
    assert_eq!(outcome, ChatActionOutcome::Stop);
    assert_eq!(kinds(&session), vec![MessageType::UserPrompt, MessageType::AssistantResponse]);
}

#[test]
fn step_accepts_only_expected_events() {
    let mut session = ChatState::new(3);
    let (step, _) = ChatAction::start(
        &mut session,
        ContextMessage { message_type: MessageType::UserPrompt, content: "hi".to_string(), timestamp: None },
    );
    assert_eq!(step.phase(), StepPhase::AwaitingReply);
    assert!(step.accepts(&StepEvent::ModelReplied(assistant_response_of(Ok("x".to_string())))));
    assert!(!step.accepts(&StepEvent::CommandFinished(cli_response_of(Ok(ok_report(""))))));
}

#[test]
fn extraction_policy() {
    let c = extract_command_from_frontend_message("ls -la".to_string()).unwrap();
    assert_eq!(c.command_type, CliCommandType::WriteExecuteCliCommand);
    assert_eq!(c.command, "ls -la");
    assert!(extract_command_from_frontend_message(String::new()).is_none());
}

#[test]
fn command_reports_fold_into_text() {
    let ok = cli_response_of(Ok(ok_report("fine\n")));
    assert_eq!(ok.status, ResponseStatus::Success);
    assert_eq!(ok.output, "fine\n");
    let neg = cli_response_of(Ok(CommandReport {
        stdout: "o".to_string(),
        stderr: "e".to_string(),
        exit_code: Some(-2147483648),
    }));
    assert_eq!(neg.status, ResponseStatus::Failure);
    assert_eq!(neg.output, "oe[exit status -2147483648]");
    let one = cli_response_of(Ok(CommandReport { stdout: String::new(), stderr: String::new(), exit_code: Some(1) }));
    assert_eq!(one.output, "[exit status 1]");
    let sig = cli_response_of(Ok(CommandReport { stdout: "x".to_string(), stderr: String::new(), exit_code: None }));
    assert_eq!(sig.output, "x[terminated by a signal]");
    let err = cli_response_of(Err("no such file".to_string()));
    assert_eq!(err.status, ResponseStatus::Failure);
    assert_eq!(err.output, "no such file");
}

#[test]
fn assistant_responses() {
    let a = assistant_response_of(Ok("x".to_string()));
    assert_eq!(a.status, ResponseStatus::Success);
    assert_eq!(a.output, "x");
    let b = assistant_response_of(Err("bad".to_string()));
    assert_eq!(b.status, ResponseStatus::Failure);
    assert_eq!(b.output, "bad");
}

#[test]
fn cancel_closes_whatever_is_pending() {
    let mut session = ChatState::new(9);
    let mut relay = RelayLoop::new(&session);
    assert!(matches!(relay.handle(&mut session, frame("UserPrompt", "one")), RelayAction::StartStep(_)));
    assert!(matches!(relay.handle(&mut session, frame("UserPrompt", "two")), RelayAction::Queued));
    assert!(matches!(relay.handle(&mut session, frame("UserCancelCmd", "")), RelayAction::Close));
    assert!(relay.is_closed());
    assert!(matches!(relay.handle(&mut session, RelayEvent::StepFinished(ChatActionOutcome::Continue)), RelayAction::NoAction));
    assert!(matches!(relay.handle(&mut session, frame("UserPrompt", "three")), RelayAction::NoAction));
    assert!(matches!(relay.handle(&mut session, RelayEvent::ExecutorFrame), RelayAction::NoAction));
    assert_eq!(relay.status(), RelayStatus::Closed);
}

#[test]
fn queued_prompt_runs_after_step() {
    let mut session = ChatState::new(9);
    let mut relay = RelayLoop::new(&session);
    relay.handle(&mut session, frame("UserPrompt", "one"));
    assert!(matches!(relay.handle(&mut session, frame("UserPrompt", "two")), RelayAction::Queued));
    assert_eq!(session.depth(), 2);
    match relay.handle(&mut session, RelayEvent::StepFinished(ChatActionOutcome::Stop)) {
        RelayAction::StartStep(m) => assert_eq!(m.content, "two"),
        other => panic!("expected the queued prompt, got {:?}", other),
    }
    assert!(matches!(relay.handle(&mut session, RelayEvent::StepFinished(ChatActionOutcome::Stop)), RelayAction::NotifyDone));
}

#[test]
fn relay_protocol_errors_and_passthrough() {
    let mut session = ChatState::new(9);
    let mut relay = RelayLoop::new(&session);
    assert!(matches!(relay.handle(&mut session, RelayEvent::ExecutorFrame), RelayAction::ForwardToDisplay));
    assert!(matches!(
        relay.handle(&mut session, RelayEvent::MalformedDisplayFrame),
        RelayAction::Rejected(ProtocolError::MalformedFrame)
    ));
    assert!(matches!(
        relay.handle(&mut session, frame("Bogus", "x")),
        RelayAction::Rejected(ProtocolError::UnknownKind)
    ));
    assert!(matches!(
        relay.handle(&mut session, frame("AssistantResponse", "x")),
        RelayAction::Rejected(ProtocolError::UnexpectedKind(MessageType::AssistantResponse))
    ));
    assert!(matches!(relay.handle(&mut session, frame("UserAckCmd", "")), RelayAction::NoAction));
    assert_eq!(session.depth(), 0);
    assert!(session.history().is_empty());
    assert!(matches!(relay.handle(&mut session, RelayEvent::ConnectionLost), RelayAction::Close));
    assert!(relay.is_closed());
}

#[test]
fn continuation_failure_is_reported() {
    let mut session = ChatState::new(9);
    let mut relay = RelayLoop::new(&session);
    relay.handle(&mut session, frame("UserPrompt", "one"));
    assert!(matches!(relay.handle(&mut session, RelayEvent::StepFinished(ChatActionOutcome::Continue)), RelayAction::RequestContinuation));
    match relay.handle(&mut session, RelayEvent::ContinuePrompt(Err("quota".to_string()))) {
        RelayAction::Report(e) => assert_eq!(e, "quota"),
        other => panic!("expected a report, got {:?}", other),
    }
    assert!(matches!(relay.handle(&mut session, RelayEvent::ContinuePrompt(Ok("late".to_string()))), RelayAction::NoAction));
    let _ = Activity::Idle;
}
