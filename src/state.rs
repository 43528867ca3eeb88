use vstd::prelude::*;

verus! {

/// The kind of one entry of a session's history.
#[derive(Clone, Copy, Debug, PartialEq, Eq, Structural)]
pub enum MessageType {
    UserPrompt,
    AssistantResponse,
    ReadOnlyCliCommand,
    WriteExecuteCliCommand,
    CliOutput,
    UserCancelCmd,
    UserAckCmd,
}

/// How a proposed shell command is classified; each variant has a
/// `MessageType` of the same name.
#[derive(Clone, Copy, Debug, PartialEq, Eq, Structural)]
pub enum CliCommandType {
    ReadOnlyCliCommand,
    WriteExecuteCliCommand,
}

pub open spec fn command_message_type(t: CliCommandType) -> MessageType {
    match t {
        CliCommandType::ReadOnlyCliCommand => MessageType::ReadOnlyCliCommand,
        CliCommandType::WriteExecuteCliCommand => MessageType::WriteExecuteCliCommand,
    }
}

impl From<CliCommandType> for MessageType {
    fn from(value: CliCommandType) -> (r: MessageType)
        ensures
            r == command_message_type(value),
    {
        match value {
            CliCommandType::ReadOnlyCliCommand => MessageType::ReadOnlyCliCommand,
            CliCommandType::WriteExecuteCliCommand => MessageType::WriteExecuteCliCommand,
        }
    }
}

impl vstd::std_specs::convert::FromSpecImpl<CliCommandType> for MessageType {
    open spec fn obeys_from_spec() -> bool {
        true
    }

    open spec fn from_spec(v: CliCommandType) -> MessageType {
        command_message_type(v)
    }
}

/// The label that a history listing shows for each kind.
pub open spec fn kind_label(k: MessageType) -> Seq<char> {
    match k {
        MessageType::UserPrompt => "User"@,
        MessageType::AssistantResponse => "Assistant"@,
        MessageType::ReadOnlyCliCommand => "ReadOnlyCliCommand"@,
        MessageType::WriteExecuteCliCommand => "WriteExecuteCliCommand"@,
        MessageType::CliOutput => "Output"@,
        MessageType::UserCancelCmd => "Cancel"@,
        MessageType::UserAckCmd => "Ack"@,
    }
}

impl MessageType {
    pub fn label(&self) -> (r: &'static str)
        ensures
            r@ == kind_label(*self),
    {
        match self {
            MessageType::UserPrompt => "User",
            MessageType::AssistantResponse => "Assistant",
            MessageType::ReadOnlyCliCommand => "ReadOnlyCliCommand",
            MessageType::WriteExecuteCliCommand => "WriteExecuteCliCommand",
            MessageType::CliOutput => "Output",
            MessageType::UserCancelCmd => "Cancel",
            MessageType::UserAckCmd => "Ack",
        }
    }
}

/// An instant in UTC: whole seconds since the Unix epoch and the
/// nanoseconds past them.
#[derive(Clone, Copy, Debug, PartialEq, Eq, Structural)]
pub struct Timestamp {
    pub secs: i64,
    pub nanos: u32,
}

/// The text that chrono displays for the UTC instant `secs` seconds and
/// `nanos` nanoseconds after the epoch, or `None` where chrono cannot
/// represent that instant.
pub uninterp spec fn utc_text_of(secs: int, nanos: int) -> Option<Seq<char>>;

/// Relies on `chrono::Utc::now`, `DateTime::timestamp` and
/// `DateTime::timestamp_subsec_nanos`: reads the system clock, so nothing is
/// known of the value.
#[verifier::external_body]
fn now_timestamp() -> (r: Timestamp) {
    let now = chrono::Utc::now();
    Timestamp { secs: now.timestamp(), nanos: now.timestamp_subsec_nanos() }
}

/// Relies on `chrono::DateTime::<Utc>::from_timestamp` and chrono's `Display`
/// for `DateTime<Utc>`: the text of an instant, `None` where the instant lies
/// outside chrono's range.
#[verifier::external_body]
fn utc_text(secs: i64, nanos: u32) -> (r: Option<String>)
    ensures
        utc_text_of(secs as int, nanos as int) == (match r {
            Some(s) => Some(s@),
            None => None::<Seq<char>>,
        }),
{
    chrono::DateTime::<chrono::Utc>::from_timestamp(secs, nanos).map(|d| d.to_string())
}

/// One entry of a session's history; never changed once appended.
#[derive(Debug)]
pub struct ContextMessage {
    pub message_type: MessageType,
    pub content: String,
    pub timestamp: Option<Timestamp>,
}

impl Clone for ContextMessage {
    fn clone(&self) -> (r: Self)
        ensures
            r == *self,
    {
        ContextMessage {
            message_type: self.message_type,
            content: self.content.clone(),
            timestamp: self.timestamp,
        }
    }
}

pub open spec fn stamp_text(t: Option<Timestamp>) -> Seq<char> {
    match t {
        Some(t) => match utc_text_of(t.secs as int, t.nanos as int) {
            Some(s) => s,
            None => "No timestamp"@,
        },
        None => "No timestamp"@,
    }
}

/// `[<instant>] <label>: <content>`
pub open spec fn context_line(m: ContextMessage) -> Seq<char> {
    "["@ + stamp_text(m.timestamp) + "] "@ + kind_label(m.message_type) + ": "@ + m.content@
}

/// The lines of a history, separated by newlines.
pub open spec fn context_text(h: Seq<ContextMessage>) -> Seq<char>
    decreases h.len(),
{
    if h.len() == 0 {
        Seq::empty()
    } else if h.len() == 1 {
        context_line(h[0])
    } else {
        context_text(h.drop_last()) + "\n"@ + context_line(h.last())
    }
}

/// `a` is an initial part of `b`: what a reader saw of a log before `b` was read.
pub open spec fn is_log_prefix(a: Seq<ContextMessage>, b: Seq<ContextMessage>) -> bool {
    &&& a.len() <= b.len()
    &&& b.subrange(0, a.len() as int) == a
}

/// `new` is `old` followed by one entry per record, each with the record's
/// kind and content and a timestamp.
pub open spec fn extends_with(
    old: Seq<ContextMessage>,
    new: Seq<ContextMessage>,
    records: Seq<(MessageType, Seq<char>)>,
) -> bool {
    &&& new.len() == old.len() + records.len()
    &&& is_log_prefix(old, new)
    &&& forall|i: int|
        0 <= i < records.len() ==> {
            let m = #[trigger] new[old.len() + i];
            &&& m.message_type == records[i].0
            &&& m.content@ == records[i].1
            &&& m.timestamp is Some
        }
}

pub open spec fn default_preferences() -> UserChatPreferences {
    UserChatPreferences { depth: 5, autorun_readonly: true, autorun_all: false }
}

/// What a user allows the agent to do without asking.
#[derive(Clone, Copy, Debug, PartialEq, Eq, Structural)]
pub struct UserChatPreferences {
    /// Ceiling on the number of user-initiated steps under autorun.
    pub depth: u16,
    /// Run read-only commands unattended.
    pub autorun_readonly: bool,
    /// Run every command unattended.
    pub autorun_all: bool,
}

impl Default for UserChatPreferences {
    fn default() -> (r: Self)
        ensures
            r == default_preferences(),
    {
        Self { depth: 5, autorun_readonly: true, autorun_all: false }
    }
}

/// The abstract state of a session.
pub ghost struct SessionView {
    pub chat_id: u128,
    pub history: Seq<ContextMessage>,
    pub preferences: UserChatPreferences,
    pub depth: nat,
}

/// One session: its identifier, its append-only history, the user's
/// preferences and the number of user-initiated steps so far.
pub struct ChatState {
    pub chat_id: u128,
    chat_context: Vec<ContextMessage>,
    user_preferences: UserChatPreferences,
    chat_depth: u16,
}

impl View for ChatState {
    type V = SessionView;

    closed spec fn view(&self) -> SessionView {
        SessionView {
            chat_id: self.chat_id,
            history: self.chat_context@,
            preferences: self.user_preferences,
            depth: self.chat_depth as nat,
        }
    }
}

/// The largest depth the counter holds; it stays there once reached.
pub const MAX_CHAT_DEPTH: u16 = 65535;

impl ChatState {
    pub fn new(chat_id: u128) -> (r: Self)
        ensures
            r@.chat_id == chat_id,
            r@.history.len() == 0,
            r@.preferences == default_preferences(),
            r@.depth == 0,
    {
        Self {
            chat_id,
            chat_context: Vec::new(),
            user_preferences: UserChatPreferences::default(),
            chat_depth: 0,
        }
    }

    /// Appends an entry stamped with the current time.
    pub fn add_message_to_state(&mut self, message_type: MessageType, content: String) -> (r:
        Result<(), String>)
        ensures
            r is Ok,
            extends_with(old(self)@.history, final(self)@.history, seq![(message_type, content@)]),
            final(self)@.chat_id == old(self)@.chat_id,
            final(self)@.preferences == old(self)@.preferences,
            final(self)@.depth == old(self)@.depth,
    {
        let ghost content_view = content@;
        let timestamp = now_timestamp();
        self.chat_context.push(ContextMessage { message_type, content, timestamp: Some(timestamp) });
        proof {
            let h = self.chat_context@;
            assert(h.subrange(0, old(self)@.history.len() as int) =~= old(self)@.history);
            assert(h[old(self)@.history.len() as int].content@ == content_view);
        }
        Ok(())
    }

    /// The whole history as text, one line per entry.
    pub fn get_full_context(&self) -> (r: Result<String, String>)
        ensures
            r matches Ok(s) && s@ == context_text(self@.history),
    {
        let mut text = String::new();
        let n = self.chat_context.len();
        let mut i: usize = 0;
        while i < n
            invariant
                n == self.chat_context@.len(),
                0 <= i <= n,
                text@ == context_text(self.chat_context@.subrange(0, i as int)),
            decreases n - i,
        {
            let m = &self.chat_context[i];
            if i > 0 {
                text.append("\n");
            }
            text.append("[");
            match m.timestamp {
                Some(t) => match utc_text(t.secs, t.nanos) {
                    Some(s) => text.append(s.as_str()),
                    None => text.append("No timestamp"),
                },
                None => text.append("No timestamp"),
            }
            text.append("] ");
            text.append(m.message_type.label());
            text.append(": ");
            text.append(m.content.as_str());
            proof {
                let s = self.chat_context@.subrange(0, i + 1);
                assert(s.drop_last() =~= self.chat_context@.subrange(0, i as int));
                assert(s.last() == *m);
                if i == 0 {
                    assert(s.len() == 1);
                }
            }
            i = i + 1;
        }
        proof {
            assert(self.chat_context@.subrange(0, n as int) =~= self.chat_context@);
        }
        Ok(text)
    }

    /// The history so far.
    pub fn history(&self) -> (r: &Vec<ContextMessage>)
        ensures
            r@ == self@.history,
    {
        &self.chat_context
    }

    pub fn preferences(&self) -> (r: UserChatPreferences)
        ensures
            r == self@.preferences,
    {
        self.user_preferences
    }

    pub fn set_preferences(&mut self, preferences: UserChatPreferences)
        ensures
            final(self)@ == (SessionView { preferences, ..old(self)@ }),
    {
        self.user_preferences = preferences;
    }

    pub fn depth(&self) -> (r: u16)
        ensures
            r as nat == self@.depth,
    {
        self.chat_depth
    }

    /// Counts one more user-initiated step.
    pub fn increment_depth(&mut self) -> (r: u16)
        ensures
            final(self)@ == (SessionView {
                depth: if old(self)@.depth < MAX_CHAT_DEPTH { old(self)@.depth + 1 } else { old(self)@.depth },
                ..old(self)@
            }),
            r as nat == final(self)@.depth,
    {
        if self.chat_depth < MAX_CHAT_DEPTH {
            self.chat_depth = self.chat_depth + 1;
        }
        self.chat_depth
    }
}

/// The history is an append-only log: what one reader saw before another
/// is always an initial part of what the later reader sees.
pub proof fn lemma_log_prefix_transitive(
    a: Seq<ContextMessage>,
    b: Seq<ContextMessage>,
    c: Seq<ContextMessage>,
)
    requires
        is_log_prefix(a, b),
        is_log_prefix(b, c),
    ensures
        is_log_prefix(a, c),
{
    assert(c.subrange(0, a.len() as int) =~= c.subrange(0, b.len() as int).subrange(
        0,
        a.len() as int,
    ));
}

} // verus!
