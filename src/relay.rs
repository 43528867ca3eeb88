use vstd::prelude::*;

use crate::autorun::{determine_autorun_status, should_autorun};
use crate::handler::ChatActionOutcome;
use crate::state::{ChatState, ContextMessage, MessageType, UserChatPreferences, MAX_CHAT_DEPTH};
use crate::wire::decode_fields;

verus! {

#[derive(Clone, Copy, Debug, PartialEq, Eq, Structural)]
pub enum RelayStatus {
    Active,
    /// Terminal: the session is being torn down.
    Closed,
}

/// Whether agent work is under way; at most one step runs at a time.
#[derive(Clone, Copy, Debug, PartialEq, Eq, Structural)]
pub enum Activity {
    Idle,
    StepRunning,
    /// A continuation prompt was asked of the model.
    AwaitingContinuation,
}

/// A display-side frame, split into its fields.
#[derive(Debug)]
pub struct DisplayFrame {
    pub message_type: String,
    pub content: String,
}

/// What the relay loop waits on.
#[derive(Debug)]
pub enum RelayEvent {
    DisplayFrame(DisplayFrame),
    /// A display-side frame that could not be read as a message.
    MalformedDisplayFrame,
    /// An executor-side frame, which is relayed unread.
    ExecutorFrame,
    StepFinished(ChatActionOutcome),
    /// The model's continuation prompt, or the failure that replaced it.
    ContinuePrompt(Result<String, String>),
    /// A read or write on either connection failed, or one closed.
    ConnectionLost,
}

#[derive(Clone, Copy, Debug, PartialEq, Eq, Structural)]
pub enum ProtocolError {
    MalformedFrame,
    /// The frame's type names no kind.
    UnknownKind,
    /// A kind that the display side may not send.
    UnexpectedKind(MessageType),
}

/// What the relay loop asks of its driver.
#[derive(Debug)]
pub enum RelayAction {
    /// Stop the loop and tear the session down.
    Close,
    /// Run one chat-action step on this message.
    StartStep(ContextMessage),
    /// Send the executor frame to the display side as it is.
    ForwardToDisplay,
    /// Ask the model, as a stand-in user, for the next prompt.
    RequestContinuation,
    /// Tell the display side that control is back with the user.
    NotifyDone,
    /// Show this failure on the display side; control is back with the user.
    Report(String),
    /// The prompt waits until the running step is over.
    Queued,
    /// Log and drop the frame.
    Rejected(ProtocolError),
    NoAction,
}

pub ghost enum ActionView {
    Close,
    StartStep(MessageType, Seq<char>),
    ForwardToDisplay,
    RequestContinuation,
    NotifyDone,
    Report(Seq<char>),
    Queued,
    Rejected(ProtocolError),
    NoAction,
}

impl View for RelayAction {
    type V = ActionView;

    open spec fn view(&self) -> ActionView {
        match self {
            RelayAction::Close => ActionView::Close,
            RelayAction::StartStep(m) => ActionView::StartStep(m.message_type, m.content@),
            RelayAction::ForwardToDisplay => ActionView::ForwardToDisplay,
            RelayAction::RequestContinuation => ActionView::RequestContinuation,
            RelayAction::NotifyDone => ActionView::NotifyDone,
            RelayAction::Report(s) => ActionView::Report(s@),
            RelayAction::Queued => ActionView::Queued,
            RelayAction::Rejected(e) => ActionView::Rejected(*e),
            RelayAction::NoAction => ActionView::NoAction,
        }
    }
}

pub ghost struct RelayView {
    pub status: RelayStatus,
    pub activity: Activity,
    pub autorun_enabled: bool,
    /// Prompts that arrived while a step ran, oldest first.
    pub pending: Seq<Seq<char>>,
}

/// Prompts wait only behind work under way: an idle loop has none waiting.
pub open spec fn relay_wf(v: RelayView) -> bool {
    v.activity is Idle ==> v.pending.len() == 0
}

/// The state after an event, the session's new depth and the action.
pub ghost struct RelayEffect {
    pub view: RelayView,
    pub depth: nat,
    pub action: ActionView,
}

pub open spec fn next_depth(d: nat) -> nat {
    if d < MAX_CHAT_DEPTH {
        d + 1
    } else {
        d
    }
}

pub open spec fn unchanged(v: RelayView, depth: nat, action: ActionView) -> RelayEffect {
    RelayEffect { view: v, depth, action }
}

/// Starts the oldest waiting prompt, or else does `otherwise`.
pub open spec fn start_pending_or(v: RelayView, depth: nat, otherwise: RelayEffect) -> RelayEffect {
    if v.pending.len() > 0 {
        RelayEffect {
            view: RelayView { activity: Activity::StepRunning, pending: v.pending.drop_first(), ..v },
            depth,
            action: ActionView::StartStep(MessageType::UserPrompt, v.pending[0]),
        }
    } else {
        otherwise
    }
}

/// One event of the relay loop.
///
/// A cancel or a lost connection closes the loop; nothing happens once it is
/// closed. A user prompt counts one more step of depth, recomputes autorun,
/// and starts a step, or waits while one runs. An acknowledgement needs no
/// action; other kinds from the display side are rejected. A finished step
/// starts the oldest waiting prompt; otherwise, under autorun, `Continue`
/// asks for a continuation prompt and `Stop` hands control back.
pub open spec fn relay_step(
    v: RelayView,
    prefs: UserChatPreferences,
    depth: nat,
    event: RelayEvent,
) -> RelayEffect {
    if v.status is Closed {
        unchanged(v, depth, ActionView::NoAction)
    } else {
        match event {
            RelayEvent::ConnectionLost => RelayEffect {
                view: RelayView { status: RelayStatus::Closed, ..v },
                depth,
                action: ActionView::Close,
            },
            RelayEvent::ExecutorFrame => unchanged(v, depth, ActionView::ForwardToDisplay),
            RelayEvent::MalformedDisplayFrame => unchanged(
                v,
                depth,
                ActionView::Rejected(ProtocolError::MalformedFrame),
            ),
            RelayEvent::DisplayFrame(f) => match decode_fields(f.message_type@, f.content@) {
                None => unchanged(v, depth, ActionView::Rejected(ProtocolError::UnknownKind)),
                Some((k, c)) => match k {
                    MessageType::UserCancelCmd => RelayEffect {
                        view: RelayView { status: RelayStatus::Closed, ..v },
                        depth,
                        action: ActionView::Close,
                    },
                    MessageType::UserAckCmd => unchanged(v, depth, ActionView::NoAction),
                    MessageType::UserPrompt => {
                        let d = next_depth(depth);
                        let auto = should_autorun(prefs, d as int);
                        if v.activity is Idle {
                            RelayEffect {
                                view: RelayView {
                                    activity: Activity::StepRunning,
                                    autorun_enabled: auto,
                                    ..v
                                },
                                depth: d,
                                action: ActionView::StartStep(MessageType::UserPrompt, c),
                            }
                        } else {
                            RelayEffect {
                                view: RelayView {
                                    autorun_enabled: auto,
                                    pending: v.pending.push(c),
                                    ..v
                                },
                                depth: d,
                                action: ActionView::Queued,
                            }
                        }
                    },
                    _ => unchanged(v, depth, ActionView::Rejected(ProtocolError::UnexpectedKind(k))),
                },
            },
            RelayEvent::StepFinished(o) => {
                if v.activity is StepRunning {
                    let idle = RelayView { activity: Activity::Idle, ..v };
                    start_pending_or(
                        v,
                        depth,
                        if !v.autorun_enabled {
                            unchanged(idle, depth, ActionView::NoAction)
                        } else if o is Continue {
                            RelayEffect {
                                view: RelayView { activity: Activity::AwaitingContinuation, ..v },
                                depth,
                                action: ActionView::RequestContinuation,
                            }
                        } else {
                            unchanged(idle, depth, ActionView::NotifyDone)
                        },
                    )
                } else {
                    unchanged(v, depth, ActionView::NoAction)
                }
            },
            RelayEvent::ContinuePrompt(r) => {
                if v.activity is AwaitingContinuation {
                    match r {
                        Ok(text) => RelayEffect {
                            view: RelayView {
                                activity: Activity::StepRunning,
                                autorun_enabled: should_autorun(prefs, depth as int),
                                ..v
                            },
                            depth,
                            action: ActionView::StartStep(MessageType::UserPrompt, text@),
                        },
                        Err(e) => start_pending_or(
                            v,
                            depth,
                            unchanged(
                                RelayView { activity: Activity::Idle, ..v },
                                depth,
                                ActionView::Report(e@),
                            ),
                        ),
                    }
                } else {
                    unchanged(v, depth, ActionView::NoAction)
                }
            },
        }
    }
}

/// The per-session loop that relays between the two sides and decides when
/// agent steps run.
pub struct RelayLoop {
    status: RelayStatus,
    activity: Activity,
    autorun_enabled: bool,
    pending: Vec<String>,
}

pub open spec fn string_views(v: Seq<String>) -> Seq<Seq<char>> {
    v.map_values(|s: String| s@)
}

impl View for RelayLoop {
    type V = RelayView;

    closed spec fn view(&self) -> RelayView {
        RelayView {
            status: self.status,
            activity: self.activity,
            autorun_enabled: self.autorun_enabled,
            pending: string_views(self.pending@),
        }
    }
}

impl RelayLoop {
    /// A new loop for a freshly paired session, with autorun as the
    /// session's preferences and depth allow.
    pub fn new(session: &ChatState) -> (r: Self)
        ensures
            r@ == (RelayView {
                status: RelayStatus::Active,
                activity: Activity::Idle,
                autorun_enabled: should_autorun(session@.preferences, session@.depth as int),
                pending: Seq::empty(),
            }),
            relay_wf(r@),
    {
        let autorun_enabled = determine_autorun_status(session.preferences(), session.depth());
        let r = RelayLoop {
            status: RelayStatus::Active,
            activity: Activity::Idle,
            autorun_enabled,
            pending: Vec::new(),
        };
        assert(string_views(r.pending@) =~= Seq::empty());
        r
    }

    pub fn status(&self) -> (r: RelayStatus)
        ensures
            r == self@.status,
    {
        self.status
    }

    pub fn is_closed(&self) -> (r: bool)
        ensures
            r == (self@.status is Closed),
    {
        self.status == RelayStatus::Closed
    }

    pub fn autorun_enabled(&self) -> (r: bool)
        ensures
            r == self@.autorun_enabled,
    {
        self.autorun_enabled
    }

    fn start_pending(&mut self) -> (r: RelayAction)
        requires
            old(self).pending@.len() > 0,
        ensures
            ({
                let v = old(self)@;
                &&& final(self)@ == (RelayView {
                    activity: Activity::StepRunning,
                    pending: v.pending.drop_first(),
                    ..v
                })
                &&& r@ == ActionView::StartStep(MessageType::UserPrompt, v.pending[0])
            }),
    {
        let ghost old_pending = self.pending@;
        let content = self.pending.remove(0);
        self.activity = Activity::StepRunning;
        assert(string_views(self.pending@) =~= string_views(old_pending).drop_first());
        RelayAction::StartStep(
            ContextMessage { message_type: MessageType::UserPrompt, content, timestamp: None },
        )
    }

    /// Handles one event.
    pub fn handle(&mut self, session: &mut ChatState, event: RelayEvent) -> (r: RelayAction)
        ensures
            ({
                let eff = relay_step(
                    old(self)@,
                    old(session)@.preferences,
                    old(session)@.depth,
                    event,
                );
                &&& final(self)@ == eff.view
                &&& final(session)@.depth == eff.depth
                &&& r@ == eff.action
            }),
            final(session)@.history == old(session)@.history,
            final(session)@.preferences == old(session)@.preferences,
            final(session)@.chat_id == old(session)@.chat_id,
    {
        if self.status == RelayStatus::Closed {
            return RelayAction::NoAction;
        }
        match event {
            RelayEvent::ConnectionLost => {
                self.status = RelayStatus::Closed;
                RelayAction::Close
            },
            RelayEvent::ExecutorFrame => RelayAction::ForwardToDisplay,
            RelayEvent::MalformedDisplayFrame => RelayAction::Rejected(ProtocolError::MalformedFrame),
            RelayEvent::DisplayFrame(f) => {
                let ghost fv = f;
                match ContextMessage::from_wire(f.message_type.as_str(), f.content, None) {
                    None => RelayAction::Rejected(ProtocolError::UnknownKind),
                    Some(m) => match m.message_type {
                        MessageType::UserCancelCmd => {
                            self.status = RelayStatus::Closed;
                            RelayAction::Close
                        },
                        MessageType::UserAckCmd => RelayAction::NoAction,
                        MessageType::UserPrompt => {
                            let d = session.increment_depth();
                            self.autorun_enabled = determine_autorun_status(session.preferences(), d);
                            if self.activity == Activity::Idle {
                                self.activity = Activity::StepRunning;
                                RelayAction::StartStep(m)
                            } else {
                                let ghost old_pending = self.pending@;
                                self.pending.push(m.content);
                                assert(string_views(self.pending@) =~= string_views(old_pending).push(
                                    fv.content@,
                                ));
                                RelayAction::Queued
                            }
                        },
                        k => RelayAction::Rejected(ProtocolError::UnexpectedKind(k)),
                    },
                }
            },
            RelayEvent::StepFinished(o) => {
                if self.activity != Activity::StepRunning {
                    return RelayAction::NoAction;
                }
                if self.pending.len() > 0 {
                    return self.start_pending();
                }
                if !self.autorun_enabled {
                    self.activity = Activity::Idle;
                    RelayAction::NoAction
                } else if o == ChatActionOutcome::Continue {
                    self.activity = Activity::AwaitingContinuation;
                    RelayAction::RequestContinuation
                } else {
                    self.activity = Activity::Idle;
                    RelayAction::NotifyDone
                }
            },
            RelayEvent::ContinuePrompt(r) => {
                if self.activity != Activity::AwaitingContinuation {
                    return RelayAction::NoAction;
                }
                match r {
                    Ok(text) => {
                        self.activity = Activity::StepRunning;
                        self.autorun_enabled = determine_autorun_status(
                            session.preferences(),
                            session.depth(),
                        );
                        RelayAction::StartStep(
                            ContextMessage {
                                message_type: MessageType::UserPrompt,
                                content: text,
                                timestamp: None,
                            },
                        )
                    },
                    Err(e) => {
                        if self.pending.len() > 0 {
                            self.start_pending()
                        } else {
                            self.activity = Activity::Idle;
                            RelayAction::Report(e)
                        }
                    },
                }
            },
        }
    }
}

/// A cancel from the display side closes the loop at once, whatever else is
/// under way: a step running, prompts waiting or autorun enabled.
pub proof fn lemma_cancel_closes(
    v: RelayView,
    prefs: UserChatPreferences,
    depth: nat,
    frame: DisplayFrame,
)
    requires
        decode_fields(frame.message_type@, frame.content@) matches Some((k, _)) && k
            == MessageType::UserCancelCmd,
    ensures
        relay_step(v, prefs, depth, RelayEvent::DisplayFrame(frame)).view.status is Closed,
        v.status is Active ==> relay_step(v, prefs, depth, RelayEvent::DisplayFrame(frame)).action
            == ActionView::Close,
{
}

/// Once closed, the loop stays closed and asks for nothing.
pub proof fn lemma_closed_is_terminal(
    v: RelayView,
    prefs: UserChatPreferences,
    depth: nat,
    event: RelayEvent,
)
    requires
        v.status is Closed,
    ensures
        relay_step(v, prefs, depth, event) == unchanged(v, depth, ActionView::NoAction),
{
}

/// After a user prompt starts a step from an idle loop, a `Continue` from
/// that step asks for a continuation exactly when the policy allows autorun
/// at the new depth; otherwise the loop goes idle and waits for the user.
pub proof fn lemma_continue_follows_policy(
    v: RelayView,
    prefs: UserChatPreferences,
    depth: nat,
    frame: DisplayFrame,
)
    requires
        v.status is Active,
        v.activity is Idle,
        v.pending.len() == 0,
        decode_fields(frame.message_type@, frame.content@) matches Some((k, _)) && k
            == MessageType::UserPrompt,
    ensures
        ({
            let e1 = relay_step(v, prefs, depth, RelayEvent::DisplayFrame(frame));
            let e2 = relay_step(
                e1.view,
                prefs,
                e1.depth,
                RelayEvent::StepFinished(ChatActionOutcome::Continue),
            );
            &&& e1.depth == next_depth(depth)
            &&& e1.action is StartStep
            &&& (e2.action == ActionView::RequestContinuation) == should_autorun(
                prefs,
                next_depth(depth) as int,
            )
            &&& !should_autorun(prefs, next_depth(depth) as int) ==> e2.action == ActionView::NoAction
                && e2.view.activity is Idle
        }),
{
}

/// Every event keeps the loop well formed.
pub proof fn lemma_relay_step_preserves_wf(
    v: RelayView,
    prefs: UserChatPreferences,
    depth: nat,
    event: RelayEvent,
)
    requires
        relay_wf(v),
    ensures
        relay_wf(relay_step(v, prefs, depth, event).view),
{
}

} // verus!
