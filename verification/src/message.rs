//! Conversation messages and the flat records that stand for them at the boundary.

use crate::text::{chars_equal, chars_of};
use vstd::prelude::*;

verus! {

/// Who speaks in one turn of a conversation.
#[derive(Debug, Clone, Copy, PartialEq, Eq, Structural)]
pub enum Role {
    Human,
    Assistant,
    System,
    Tool,
}

/// One turn of a conversation, as the orchestration core holds it.
#[derive(Debug, Clone, PartialEq, Eq)]
pub struct ConversationMessage {
    pub role: Role,
    pub content: String,
}

/// The mathematical model of a [`ConversationMessage`].
pub struct ConversationMessageView {
    pub role: Role,
    pub content: Seq<char>,
}

impl View for ConversationMessage {
    type V = ConversationMessageView;

    open spec fn view(&self) -> ConversationMessageView {
        ConversationMessageView { role: self.role, content: self.content@ }
    }
}

impl DeepView for ConversationMessage {
    type V = ConversationMessageView;

    open spec fn deep_view(&self) -> ConversationMessageView {
        self@
    }
}

/// One turn of a conversation in the only shape that crosses the boundary: the
/// role is spelled out as text.
#[derive(Debug, Clone, PartialEq, Eq)]
pub struct Message {
    pub content: String,
    pub message_type: String,
}

/// The mathematical model of a [`Message`].
pub struct MessageView {
    pub content: Seq<char>,
    pub message_type: Seq<char>,
}

impl View for Message {
    type V = MessageView;

    open spec fn view(&self) -> MessageView {
        MessageView { content: self.content@, message_type: self.message_type@ }
    }
}

impl DeepView for Message {
    type V = MessageView;

    open spec fn deep_view(&self) -> MessageView {
        self@
    }
}

/// The role that a boundary spelling stands for. The comparison is exact, case
/// included; a spelling that is none of "human", "ai" and "system" stands for
/// `Human`.
pub open spec fn role_of(message_type: Seq<char>) -> Role {
    if message_type == "human"@ {
        Role::Human
    } else if message_type == "ai"@ {
        Role::Assistant
    } else if message_type == "system"@ {
        Role::System
    } else {
        Role::Human
    }
}

/// The boundary spelling of a role.
pub open spec fn role_name(role: Role) -> Seq<char> {
    match role {
        Role::Human => "human"@,
        Role::Assistant => "ai"@,
        Role::System => "system"@,
        Role::Tool => "tool"@,
    }
}

/// Reads the role that a boundary spelling stands for.
pub fn parse_role(message_type: &str) -> (role: Role)
    ensures
        role == role_of(message_type@),
{
    let spelling = chars_of(message_type);
    if chars_equal(&spelling, &chars_of("human")) {
        Role::Human
    } else if chars_equal(&spelling, &chars_of("ai")) {
        Role::Assistant
    } else if chars_equal(&spelling, &chars_of("system")) {
        Role::System
    } else {
        Role::Human
    }
}

/// Writes the boundary spelling of a role.
pub fn role_label(role: Role) -> (label: String)
    ensures
        label@ == role_name(role),
{
    match role {
        Role::Human => "human".to_string(),
        Role::Assistant => "ai".to_string(),
        Role::System => "system".to_string(),
        Role::Tool => "tool".to_string(),
    }
}

/// The conversation message that a boundary record stands for.
pub open spec fn to_message(record: MessageView) -> ConversationMessageView {
    ConversationMessageView { role: role_of(record.message_type), content: record.content }
}

/// The boundary record that stands for a conversation message.
pub open spec fn to_record(message: ConversationMessageView) -> MessageView {
    MessageView { content: message.content, message_type: role_name(message.role) }
}

/// The conversation that a sequence of boundary records stands for, turn by turn.
pub open spec fn to_messages(records: Seq<MessageView>) -> Seq<ConversationMessageView> {
    Seq::new(records.len(), |i: int| to_message(records[i]))
}

impl ConversationMessage {
    /// A message with the given role and content.
    pub fn new(role: Role, content: &str) -> (message: ConversationMessage)
        ensures
            message@ == (ConversationMessageView { role, content: content@ }),
    {
        ConversationMessage { role, content: content.to_string() }
    }

    /// A message spoken by the human side of the conversation.
    pub fn new_human_message(content: &str) -> (message: ConversationMessage)
        ensures
            message@ == (ConversationMessageView { role: Role::Human, content: content@ }),
    {
        ConversationMessage::new(Role::Human, content)
    }

    /// A message spoken by the model.
    pub fn new_ai_message(content: &str) -> (message: ConversationMessage)
        ensures
            message@ == (ConversationMessageView { role: Role::Assistant, content: content@ }),
    {
        ConversationMessage::new(Role::Assistant, content)
    }

    /// A message that instructs the model.
    pub fn new_system_message(content: &str) -> (message: ConversationMessage)
        ensures
            message@ == (ConversationMessageView { role: Role::System, content: content@ }),
    {
        ConversationMessage::new(Role::System, content)
    }
}

impl vstd::std_specs::convert::FromSpecImpl<Message> for ConversationMessage {
    open spec fn obeys_from_spec() -> bool {
        true
    }

    open spec fn from_spec(record: Message) -> ConversationMessage {
        ConversationMessage { role: role_of(record.message_type@), content: record.content }
    }
}

impl From<Message> for ConversationMessage {
    /// Reads a boundary record. The content is carried over unchanged; an
    /// unrecognized role spelling is read as `Human` and is no error.
    fn from(record: Message) -> (message: ConversationMessage)
        ensures
            message@ == to_message(record@),
    {
        let role = parse_role(record.message_type.as_str());
        ConversationMessage { role, content: record.content }
    }
}

impl vstd::std_specs::convert::FromSpecImpl<ConversationMessage> for Message {
    open spec fn obeys_from_spec() -> bool {
        false
    }

    open spec fn from_spec(message: ConversationMessage) -> Message {
        choose|record: Message| record@ == to_record(message@)
    }
}

impl From<ConversationMessage> for Message {
    /// Writes a conversation message as a boundary record. The content is
    /// carried over unchanged and the role is spelled out.
    fn from(message: ConversationMessage) -> (record: Message)
        ensures
            record@ == to_record(message@),
    {
        let message_type = role_label(message.role);
        Message { content: message.content, message_type }
    }
}

/// Reads a whole conversation from boundary records, keeping the order of the turns.
pub fn messages_from_records(records: Vec<Message>) -> (messages: Vec<ConversationMessage>)
    ensures
        messages.deep_view() == to_messages(records.deep_view()),
{
    let ghost all = records.deep_view();
    let mut messages: Vec<ConversationMessage> = Vec::new();
    for record in it: records
        invariant
            it.seq().len() == all.len(),
            forall|i: int| 0 <= i < all.len() ==> (#[trigger] it.seq()[i])@ == all[i],
            messages.len() == it.index(),
            forall|i: int| 0 <= i < messages.len() ==> (#[trigger] messages[i])@ == to_message(all[i]),
    {
        messages.push(ConversationMessage::from(record));
    }
    proof {
        assert(messages.deep_view() =~= to_messages(all));
    }
    messages
}

/// The four spellings are pairwise different.
proof fn lemma_role_names_differ()
    ensures
        "human"@.len() == 5,
        "ai"@.len() == 2,
        "system"@.len() == 6,
        "tool"@.len() == 4,
{
    reveal_strlit("human");
    reveal_strlit("ai");
    reveal_strlit("system");
    reveal_strlit("tool");
}

/// Round trip. A message whose role is `Human`, `Assistant` or `System` is read
/// back from its boundary record with the same role and the same content,
/// whatever the content holds.
pub proof fn lemma_round_trip(message: ConversationMessageView)
    requires
        message.role != Role::Tool,
    ensures
        to_message(to_record(message)) == message,
{
    lemma_role_names_differ();
}

/// A `Tool` message can be written but not read back: its record carries the
/// spelling "tool", which reads as `Human` with the content unchanged.
pub proof fn lemma_tool_is_one_way(message: ConversationMessageView)
    requires
        message.role == Role::Tool,
    ensures
        to_record(message).message_type == "tool"@,
        to_message(to_record(message)) == (ConversationMessageView {
            role: Role::Human,
            content: message.content,
        }),
{
    lemma_role_names_differ();
}

/// Fallback. A record whose role spelling is none of "human", "ai" and "system"
/// reads as a `Human` message with the record's content, whatever the content.
pub proof fn lemma_unrecognized_role_reads_as_human(record: MessageView)
    requires
        record.message_type != "human"@,
        record.message_type != "ai"@,
        record.message_type != "system"@,
    ensures
        to_message(record) == (ConversationMessageView {
            role: Role::Human,
            content: record.content,
        }),
{
}

/// Reading a record never changes its content, whatever the role spelling.
pub proof fn lemma_reading_keeps_content(record: MessageView)
    ensures
        to_message(record).content == record.content,
        to_message(record).role != Role::Tool,
{
}

} // verus!
