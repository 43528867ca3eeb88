use vstd::prelude::*;

use crate::handler::{
    extract_command_from_frontend_message, extracted_command, folded_output, signed_decimal_of,
    AssistantResponse, ChatActionOutcome, CliCommand, CliResponse, CommandReport, ResponseStatus,
};
use crate::state::{
    command_message_type, extends_with, ChatState, CliCommandType, ContextMessage, MessageType,
};

verus! {

/// Where one chat-action step stands.
#[derive(Clone, Copy, Debug, PartialEq, Eq, Structural)]
pub enum StepPhase {
    /// The model was asked about the triggering message.
    AwaitingReply,
    /// The proposed command was handed to the executor.
    AwaitingCommandOutput,
    /// The model was asked about the command's output.
    AwaitingSummary,
    Finished(ChatActionOutcome),
}

/// What the outside world reports back to a step.
#[derive(Debug)]
pub enum StepEvent {
    ModelReplied(AssistantResponse),
    CommandFinished(CliResponse),
}

/// The outside work that a step asks for next.
#[derive(Debug)]
pub enum StepRequest {
    /// Call the language model with the history, whose last entry is this message.
    CallModel(ContextMessage),
    RunCommand(CliCommand),
    Finish(ChatActionOutcome),
}

/// Text to show on the display side first, then the next request.
#[derive(Debug)]
pub struct StepAction {
    pub display: Option<String>,
    pub next: StepRequest,
}

pub ghost enum RequestView {
    CallModel(MessageType, Seq<char>),
    RunCommand(CliCommandType, Seq<char>),
    Finish(ChatActionOutcome),
}

pub ghost struct ActionView {
    pub display: Option<Seq<char>>,
    pub next: RequestView,
}

impl View for StepAction {
    type V = ActionView;

    open spec fn view(&self) -> ActionView {
        ActionView {
            display: match self.display {
                Some(s) => Some(s@),
                None => None,
            },
            next: match self.next {
                StepRequest::CallModel(m) => RequestView::CallModel(m.message_type, m.content@),
                StepRequest::RunCommand(c) => RequestView::RunCommand(c.command_type, c.command@),
                StepRequest::Finish(o) => RequestView::Finish(o),
            },
        }
    }
}

/// The entries a transition appends, the phase it reaches and what it asks for.
pub ghost struct StepEffect {
    pub records: Seq<(MessageType, Seq<char>)>,
    pub phase: StepPhase,
    pub action: ActionView,
}

pub open spec fn finish_with(
    records: Seq<(MessageType, Seq<char>)>,
    shown: Seq<char>,
    o: ChatActionOutcome,
) -> StepEffect {
    StepEffect {
        records,
        phase: StepPhase::Finished(o),
        action: ActionView { display: Some(shown), next: RequestView::Finish(o) },
    }
}

/// The events that each phase waits for.
pub open spec fn accepts(phase: StepPhase, event: StepEvent) -> bool {
    ||| (phase is AwaitingReply || phase is AwaitingSummary) && event is ModelReplied
    ||| phase is AwaitingCommandOutput && event is CommandFinished
}

/// One transition of a step.
///
/// A failed model call ends the step with `Stop` and shows the failure. A
/// reply is recorded and shown; after the first call a proposed command is
/// recorded and run, otherwise the step stops. The command's output is
/// recorded, shown and handed to the model, whatever the command's status;
/// the model's reply to it ends the step with `Continue`.
pub open spec fn transition(phase: StepPhase, event: StepEvent) -> StepEffect
    recommends
        accepts(phase, event),
{
    match event {
        StepEvent::ModelReplied(resp) => {
            let out = resp.output@;
            if resp.status == ResponseStatus::Failure {
                finish_with(seq![], out, ChatActionOutcome::Stop)
            } else if phase is AwaitingSummary {
                finish_with(
                    seq![(MessageType::AssistantResponse, out)],
                    out,
                    ChatActionOutcome::Continue,
                )
            } else {
                match extracted_command(out) {
                    Some((t, cmd)) => StepEffect {
                        records: seq![
                            (MessageType::AssistantResponse, out),
                            (command_message_type(t), cmd),
                        ],
                        phase: StepPhase::AwaitingCommandOutput,
                        action: ActionView {
                            display: Some(out),
                            next: RequestView::RunCommand(t, cmd),
                        },
                    },
                    None => finish_with(
                        seq![(MessageType::AssistantResponse, out)],
                        out,
                        ChatActionOutcome::Stop,
                    ),
                }
            }
        },
        StepEvent::CommandFinished(cli) => StepEffect {
            records: seq![(MessageType::CliOutput, cli.output@)],
            phase: StepPhase::AwaitingSummary,
            action: ActionView {
                display: Some(cli.output@),
                next: RequestView::CallModel(MessageType::CliOutput, cli.output@),
            },
        },
    }
}

/// One step of the agent loop: prompt, reply, optional command, reply.
pub struct ChatAction {
    phase: StepPhase,
}

impl ChatAction {
    pub closed spec fn phase_spec(&self) -> StepPhase {
        self.phase
    }

    /// Records the triggering message and asks for the first model call.
    pub fn start(session: &mut ChatState, message: ContextMessage) -> (r: (ChatAction, StepAction))
        ensures
            extends_with(
                old(session)@.history,
                final(session)@.history,
                seq![(message.message_type, message.content@)],
            ),
            final(session)@.chat_id == old(session)@.chat_id,
            final(session)@.preferences == old(session)@.preferences,
            final(session)@.depth == old(session)@.depth,
            r.0.phase_spec() == StepPhase::AwaitingReply,
            r.1@ == (ActionView {
                display: None,
                next: RequestView::CallModel(message.message_type, message.content@),
            }),
    {
        let _ = session.add_message_to_state(message.message_type, message.content.clone());
        (
            ChatAction { phase: StepPhase::AwaitingReply },
            StepAction { display: None, next: StepRequest::CallModel(message) },
        )
    }

    pub fn phase(&self) -> (r: StepPhase)
        ensures
            r == self.phase_spec(),
    {
        self.phase
    }

    /// Whether the step is waiting for this kind of event.
    pub fn accepts(&self, event: &StepEvent) -> (r: bool)
        ensures
            r == accepts(self.phase_spec(), *event),
    {
        match event {
            StepEvent::ModelReplied(_) => match self.phase {
                StepPhase::AwaitingReply | StepPhase::AwaitingSummary => true,
                _ => false,
            },
            StepEvent::CommandFinished(_) => match self.phase {
                StepPhase::AwaitingCommandOutput => true,
                _ => false,
            },
        }
    }

    /// Takes in what the outside work reported and says what to do next.
    pub fn advance(&mut self, session: &mut ChatState, event: StepEvent) -> (r: StepAction)
        requires
            accepts(old(self).phase_spec(), event),
        ensures
            ({
                let eff = transition(old(self).phase_spec(), event);
                &&& extends_with(old(session)@.history, final(session)@.history, eff.records)
                &&& final(self).phase_spec() == eff.phase
                &&& r@ == eff.action
            }),
            final(session)@.chat_id == old(session)@.chat_id,
            final(session)@.preferences == old(session)@.preferences,
            final(session)@.depth == old(session)@.depth,
    {
        let ghost h0 = session@.history;
        match event {
            StepEvent::ModelReplied(resp) => {
                if resp.status == ResponseStatus::Failure {
                    self.phase = StepPhase::Finished(ChatActionOutcome::Stop);
                    proof {
                        assert(session@.history.subrange(0, h0.len() as int) =~= h0);
                    }
                    return StepAction {
                        display: Some(resp.output),
                        next: StepRequest::Finish(ChatActionOutcome::Stop),
                    };
                }
                let _ = session.add_message_to_state(
                    MessageType::AssistantResponse,
                    resp.output.clone(),
                );
                let ghost h1 = session@.history;
                proof {
                    let k = h0.len() as int;
                    assert(h1[k + 0] == h1[k]);
                    assert(h1[k].message_type == MessageType::AssistantResponse);
                }
                if self.phase == StepPhase::AwaitingSummary {
                    self.phase = StepPhase::Finished(ChatActionOutcome::Continue);
                    return StepAction {
                        display: Some(resp.output),
                        next: StepRequest::Finish(ChatActionOutcome::Continue),
                    };
                }
                match extract_command_from_frontend_message(resp.output.clone()) {
                    Some(command) => {
                        let _ = session.add_message_to_state(
                            MessageType::from(command.command_type),
                            command.command.clone(),
                        );
                        proof {
                            let h2 = session@.history;
                            let k = h1.len() as int;
                            assert(h2[k + 0] == h2[k]);
                            assert(h2[k].message_type == command_message_type(command.command_type));
                            assert(h2.subrange(0, h1.len() as int) == h1);
                            assert(h2.subrange(0, h0.len() as int) =~= h1.subrange(
                                0,
                                h0.len() as int,
                            ));
                            assert(h2[h0.len() as int] == h1[h0.len() as int]);
                            let recs = seq![
                                (MessageType::AssistantResponse, resp.output@),
                                (command_message_type(command.command_type), command.command@),
                            ];
                            assert forall|i: int| 0 <= i < recs.len() implies {
                                let m = #[trigger] h2[h0.len() + i];
                                &&& m.message_type == recs[i].0
                                &&& m.content@ == recs[i].1
                                &&& m.timestamp is Some
                            } by {
                                if i == 0 {
                                    assert(h2[h0.len() + i] == h1[h0.len() as int]);
                                } else {
                                    assert(h2[h0.len() + i] == h2[h1.len() as int]);
                                }
                            }
                            assert(extends_with(h0, h2, recs));
                        }
                        self.phase = StepPhase::AwaitingCommandOutput;
                        StepAction {
                            display: Some(resp.output),
                            next: StepRequest::RunCommand(command),
                        }
                    },
                    None => {
                        self.phase = StepPhase::Finished(ChatActionOutcome::Stop);
                        StepAction {
                            display: Some(resp.output),
                            next: StepRequest::Finish(ChatActionOutcome::Stop),
                        }
                    },
                }
            },
            StepEvent::CommandFinished(cli) => {
                let _ = session.add_message_to_state(MessageType::CliOutput, cli.output.clone());
                self.phase = StepPhase::AwaitingSummary;
                let message = ContextMessage {
                    message_type: MessageType::CliOutput,
                    content: cli.output.clone(),
                    timestamp: None,
                };
                StepAction {
                    display: Some(cli.output),
                    next: StepRequest::CallModel(message),
                }
            },
        }
    }
}

/// A failing command is data for the model: what it wrote to stderr is part
/// of the recorded output, and the step goes on to call the model again with
/// that output rather than ending.
pub proof fn lemma_failed_command_reaches_model(rep: CommandReport, cli: CliResponse)
    requires
        rep.exit_code != Some(0i32),
        cli.output@ == folded_output(Ok(rep)),
    ensures
        ({
            let out = cli.output@;
            let eff = transition(StepPhase::AwaitingCommandOutput, StepEvent::CommandFinished(cli));
            &&& out.subrange(rep.stdout@.len() as int, (rep.stdout@.len() + rep.stderr@.len()) as int)
                == rep.stderr@
            &&& eff.records == seq![(MessageType::CliOutput, out)]
            &&& eff.action.next == RequestView::CallModel(MessageType::CliOutput, out)
            &&& eff.phase == StepPhase::AwaitingSummary
        }),
{
    let out = cli.output@;
    let head = rep.stdout@ + rep.stderr@;
    assert(head.subrange(rep.stdout@.len() as int, head.len() as int) =~= rep.stderr@);
    match rep.exit_code {
        Some(c) => {
            let tail = "[exit status "@ + signed_decimal_of(c as int) + "]"@;
            assert(out =~= head + tail);
        },
        None => {
            assert(out =~= head + "[terminated by a signal]"@);
        },
    }
    assert(out.subrange(rep.stdout@.len() as int, head.len() as int) =~= head.subrange(
        rep.stdout@.len() as int,
        head.len() as int,
    ));
}

} // verus!
