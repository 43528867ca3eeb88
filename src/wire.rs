use vstd::prelude::*;

use crate::state::{ContextMessage, MessageType, Timestamp};

verus! {

/// The tag that names each kind in a frame's `message_type` field.
pub open spec fn wire_name_of(k: MessageType) -> Seq<char> {
    match k {
        MessageType::UserPrompt => "UserPrompt"@,
        MessageType::AssistantResponse => "AssistantResponse"@,
        MessageType::ReadOnlyCliCommand => "ReadOnlyCliCommand"@,
        MessageType::WriteExecuteCliCommand => "WriteExecuteCliCommand"@,
        MessageType::CliOutput => "CliOutput"@,
        MessageType::UserCancelCmd => "UserCancelCmd"@,
        MessageType::UserAckCmd => "UserAckCmd"@,
    }
}

/// The kind that a tag names, if any.
pub open spec fn kind_of_wire_name(tag: Seq<char>) -> Option<MessageType> {
    if tag == "UserPrompt"@ {
        Some(MessageType::UserPrompt)
    } else if tag == "AssistantResponse"@ {
        Some(MessageType::AssistantResponse)
    } else if tag == "ReadOnlyCliCommand"@ {
        Some(MessageType::ReadOnlyCliCommand)
    } else if tag == "WriteExecuteCliCommand"@ {
        Some(MessageType::WriteExecuteCliCommand)
    } else if tag == "CliOutput"@ {
        Some(MessageType::CliOutput)
    } else if tag == "UserCancelCmd"@ {
        Some(MessageType::UserCancelCmd)
    } else if tag == "UserAckCmd"@ {
        Some(MessageType::UserAckCmd)
    } else {
        None
    }
}

/// The `(type, content)` pair that a frame carries, decoded.
pub open spec fn decode_fields(tag: Seq<char>, content: Seq<char>) -> Option<(MessageType, Seq<char>)> {
    match kind_of_wire_name(tag) {
        Some(k) => Some((k, content)),
        None => None,
    }
}

/// Character-wise equality of two strings.
pub fn str_equals(a: &str, b: &str) -> (r: bool)
    ensures
        r == (a@ == b@),
{
    let n = a.unicode_len();
    if n != b.unicode_len() {
        return false;
    }
    let mut i: usize = 0;
    while i < n
        invariant
            n == a@.len(),
            n == b@.len(),
            0 <= i <= n,
            a@.subrange(0, i as int) == b@.subrange(0, i as int),
        decreases n - i,
    {
        if a.get_char(i) != b.get_char(i) {
            assert(a@[i as int] != b@[i as int]);
            return false;
        }
        assert(a@.subrange(0, i + 1) =~= a@.subrange(0, i as int).push(a@[i as int]));
        assert(b@.subrange(0, i + 1) =~= b@.subrange(0, i as int).push(b@[i as int]));
        i = i + 1;
    }
    assert(a@ =~= a@.subrange(0, n as int));
    assert(b@ =~= b@.subrange(0, n as int));
    true
}

impl MessageType {
    pub fn wire_name(&self) -> (r: &'static str)
        ensures
            r@ == wire_name_of(*self),
    {
        match self {
            MessageType::UserPrompt => "UserPrompt",
            MessageType::AssistantResponse => "AssistantResponse",
            MessageType::ReadOnlyCliCommand => "ReadOnlyCliCommand",
            MessageType::WriteExecuteCliCommand => "WriteExecuteCliCommand",
            MessageType::CliOutput => "CliOutput",
            MessageType::UserCancelCmd => "UserCancelCmd",
            MessageType::UserAckCmd => "UserAckCmd",
        }
    }

    pub fn from_wire_name(tag: &str) -> (r: Option<MessageType>)
        ensures
            r == kind_of_wire_name(tag@),
    {
        if str_equals(tag, "UserPrompt") {
            Some(MessageType::UserPrompt)
        } else if str_equals(tag, "AssistantResponse") {
            Some(MessageType::AssistantResponse)
        } else if str_equals(tag, "ReadOnlyCliCommand") {
            Some(MessageType::ReadOnlyCliCommand)
        } else if str_equals(tag, "WriteExecuteCliCommand") {
            Some(MessageType::WriteExecuteCliCommand)
        } else if str_equals(tag, "CliOutput") {
            Some(MessageType::CliOutput)
        } else if str_equals(tag, "UserCancelCmd") {
            Some(MessageType::UserCancelCmd)
        } else if str_equals(tag, "UserAckCmd") {
            Some(MessageType::UserAckCmd)
        } else {
            None
        }
    }
}

impl ContextMessage {
    /// Builds a message from the fields of a frame; `None` when the tag names
    /// no kind. A frame without a timestamp gives a message without one.
    pub fn from_wire(tag: &str, content: String, timestamp: Option<Timestamp>) -> (r: Option<
        ContextMessage,
    >)
        ensures
            match r {
                Some(m) => decode_fields(tag@, content@) == Some((m.message_type, m.content@))
                    && m.timestamp == timestamp,
                None => decode_fields(tag@, content@) is None,
            },
    {
        match MessageType::from_wire_name(tag) {
            Some(message_type) => Some(ContextMessage { message_type, content, timestamp }),
            None => None,
        }
    }
}

/// Every kind's tag is read back as that kind, so encoding a message's
/// type and content and decoding them gives the same pair.
pub proof fn lemma_wire_round_trip(m: ContextMessage)
    ensures
        decode_fields(wire_name_of(m.message_type), m.content@) == Some((m.message_type, m.content@)),
{
    reveal_strlit("UserPrompt");
    reveal_strlit("AssistantResponse");
    reveal_strlit("ReadOnlyCliCommand");
    reveal_strlit("WriteExecuteCliCommand");
    reveal_strlit("CliOutput");
    reveal_strlit("UserCancelCmd");
    reveal_strlit("UserAckCmd");
    let t = wire_name_of(m.message_type);
    // Tags of equal length differ at their fifth character.
    assert("UserPrompt"@[4] != "UserAckCmd"@[4]);
    match m.message_type {
        MessageType::UserPrompt => {},
        MessageType::AssistantResponse => {
            assert(t.len() != "UserPrompt"@.len());
        },
        MessageType::ReadOnlyCliCommand => {
            assert(t.len() != "UserPrompt"@.len());
            assert(t.len() != "AssistantResponse"@.len());
        },
        MessageType::WriteExecuteCliCommand => {
            assert(t.len() != "UserPrompt"@.len());
            assert(t.len() != "AssistantResponse"@.len());
            assert(t.len() != "ReadOnlyCliCommand"@.len());
        },
        MessageType::CliOutput => {
            assert(t.len() != "UserPrompt"@.len());
            assert(t.len() != "AssistantResponse"@.len());
            assert(t.len() != "ReadOnlyCliCommand"@.len());
            assert(t.len() != "WriteExecuteCliCommand"@.len());
        },
        MessageType::UserCancelCmd => {
            assert(t.len() != "UserPrompt"@.len());
            assert(t.len() != "AssistantResponse"@.len());
            assert(t.len() != "ReadOnlyCliCommand"@.len());
            assert(t.len() != "WriteExecuteCliCommand"@.len());
            assert(t.len() != "CliOutput"@.len());
        },
        MessageType::UserAckCmd => {
            assert(t[4] != "UserPrompt"@[4]);
            assert(t.len() != "AssistantResponse"@.len());
            assert(t.len() != "ReadOnlyCliCommand"@.len());
            assert(t.len() != "WriteExecuteCliCommand"@.len());
            assert(t.len() != "CliOutput"@.len());
            assert(t.len() != "UserCancelCmd"@.len());
        },
    }
}

} // verus!
