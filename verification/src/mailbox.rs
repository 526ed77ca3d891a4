//! Messages between the agents of a team: which may be sent, how they are stamped, and
//! how long a recipient waits for them.

use crate::fingerprint::hex_digits;
use crate::text::{byte_len, lemma_trimmed, trimmed};
use vstd::prelude::*;
use vstd::utf8::encode_utf8;

verus! {

/// The most bytes that a message may take in UTF-8.
pub const MAX_AGENT_MESSAGE_BYTES: usize = 32 * 1024;

/// How long a recipient waits where it does not say, in milliseconds.
pub const DEFAULT_WAIT_MS: u64 = 30_000;

/// The longest that a recipient waits, in milliseconds.
pub const MAX_WAIT_MS: u64 = 600_000;

/// What `list_agents` takes: nothing.
#[derive(Debug, Clone, Default)]
pub struct ListAgentsInput {}

/// What the tools that send a message take.
#[derive(Debug, Clone)]
pub struct SendAgentMessageInput {
    /// Agent ID from `list_agents`, or "root" for the team root.
    pub target: String,
    /// Message text to queue for the target agent.
    pub message: String,
}

/// What `wait_agent` takes.
#[derive(Debug, Clone)]
pub struct WaitAgentInput {
    /// Maximum wait in milliseconds. Omit for 30 seconds; pass 0 for a non-blocking
    /// inbox poll.
    pub timeout_ms: Option<u64>,
}

/// Who an agent is: its team, and its name in the team.
#[derive(Debug, Clone)]
pub struct AgentMailboxIdentity {
    pub team_scope_id: String,
    pub agent_id: String,
}

/// What a message asks of its recipient.
#[derive(Debug, Clone, Copy, PartialEq, Eq, Structural)]
pub enum AgentMailboxMessageKind {
    /// To read it in its own time.
    Message,
    /// To take it up promptly, as a task.
    FollowupTask,
}

/// A message on its way to an agent's mailbox.
#[derive(Debug, Clone)]
pub struct AgentMailboxMessage {
    pub message_id: String,
    pub team_scope_id: String,
    pub from_agent_id: String,
    pub to_agent_id: String,
    pub kind: AgentMailboxMessageKind,
    pub body: String,
    pub created_at_ms: u64,
}

/// Why a tool did not do what it was asked to.
#[derive(Debug, Clone)]
pub enum ToolError {
    InvalidArguments { message: String },
    Custom { code: String, message: String },
}

impl ToolError {
    /// Whether this is an error about the arguments with this text.
    pub open spec fn is_invalid_arguments(&self, text: Seq<char>) -> bool {
        self matches ToolError::InvalidArguments { message } && message@ == text
    }

    /// Whether this is an error with this code and this text.
    pub open spec fn is_custom(&self, expected: Seq<char>, text: Seq<char>) -> bool {
        self matches ToolError::Custom { code, message } && code@ == expected && message@ == text
    }

    fn invalid_arguments(message: &str) -> (res: ToolError)
        ensures
            res.is_invalid_arguments(message@),
    {
        ToolError::InvalidArguments { message: message.to_owned() }
    }

    fn custom(code: &str, message: String) -> (res: ToolError)
        ensures
            res.is_custom(code@, message@),
    {
        ToolError::Custom { code: code.to_owned(), message }
    }
}

/// Why a message is refused, `None` where it may be sent. White space around the target
/// and the message does not count.
pub open spec fn refusal(target: Seq<char>, message: Seq<char>) -> Option<Seq<char>> {
    if trimmed(target).len() == 0 {
        Some("target must not be empty"@)
    } else if trimmed(message).len() == 0 {
        Some("message must not be empty"@)
    } else if encode_utf8(trimmed(message)).len() > MAX_AGENT_MESSAGE_BYTES {
        Some("message exceeds the 32768-byte limit"@)
    } else {
        None
    }
}

/// The target and the text of a message that may be sent, without the white space around
/// them.
pub fn validate_message(input: SendAgentMessageInput) -> (res: Result<(String, String), ToolError>)
    ensures
        match refusal(input.target@, input.message@) {
            Some(text) => res matches Err(error) && error.is_invalid_arguments(text),
            None => res matches Ok((target, message)) && target@ == trimmed(input.target@)
                && message@ == trimmed(input.message@),
        },
        res is Ok <==> trimmed(input.target@).len() > 0 && 0 < trimmed(input.message@).len()
            && encode_utf8(trimmed(input.message@)).len() <= 32768,
        res matches Ok(accepted) ==> accepted.0@ == trimmed(input.target@) && accepted.1@
            == trimmed(input.message@),
        res matches Err(error) ==> error is InvalidArguments,
{
    let target = input.target.as_str().trim();
    if target.is_empty() {
        return Err(ToolError::invalid_arguments("target must not be empty"));
    }
    let message = input.message.as_str().trim();
    if message.is_empty() {
        return Err(ToolError::invalid_arguments("message must not be empty"));
    }
    if byte_len(message) > MAX_AGENT_MESSAGE_BYTES {
        return Err(ToolError::invalid_arguments("message exceeds the 32768-byte limit"));
    }
    Ok((target.to_owned(), message.to_owned()))
}

/// The mailbox backend and the identity of a session, where it has both.
pub fn collaboration_resources<B>(
    backend: Option<B>,
    identity: Option<AgentMailboxIdentity>,
) -> (res: Result<(B, AgentMailboxIdentity), ToolError>)
    ensures
        match (backend, identity) {
            (Some(backend), Some(identity)) => res == Ok::<_, ToolError>((backend, identity)),
            (Some(_), None) => res matches Err(error) && error.is_custom(
                "missing_resource"@,
                "Agent mailbox identity is not initialized for this session"@,
            ),
            (None, _) => res matches Err(error) && error.is_custom(
                "missing_resource"@,
                "Subagent mailbox is not initialized for this session"@,
            ),
        },
{
    match (backend, identity) {
        (Some(backend), Some(identity)) => Ok((backend, identity)),
        (Some(_), None) => Err(
            ToolError::custom(
                "missing_resource",
                "Agent mailbox identity is not initialized for this session".to_owned(),
            ),
        ),
        (None, _) => Err(
            ToolError::custom(
                "missing_resource",
                "Subagent mailbox is not initialized for this session".to_owned(),
            ),
        ),
    }
}

/// Whether `s` is a UUID of version 7 as text: hexadecimal digits with small letters, in
/// groups of 8, 4, 4, 4 and 12.
pub open spec fn is_uuid_v7(s: Seq<char>) -> bool {
    &&& s.len() == 36
    &&& forall|i: int|
        0 <= i < 36 ==> if i == 8 || i == 13 || i == 18 || i == 23 {
            #[trigger] s[i] == '-'
        } else {
            hex_digits().contains(s[i])
        }
    &&& s[14] == '7'
    &&& (s[19] == '8' || s[19] == '9' || s[19] == 'a' || s[19] == 'b')
}

/// Calls `uuid::Uuid::now_v7` and gives its result as text. The identifier depends on
/// the time and on chance: the contract claims its form alone. That two of them differ
/// is not stated. `now_v7` does not return where the clock of the machine stands before
/// 1970, or where the machine has no source of random bytes.
#[verifier::external_body]
fn new_message_id() -> (res: String)
    ensures
        is_uuid_v7(res@),
{
    uuid::Uuid::now_v7().to_string()
}

/// `SystemTime::elapsed`, called on the start of 1970: the seconds since then and the
/// nanoseconds of the second, of which there are less than a billion; `None` where the
/// clock of the machine stands before it. The time itself is open.
#[verifier::external_body]
fn since_epoch() -> (res: Option<(u64, u32)>)
    ensures
        res matches Some((_, nanos)) ==> nanos < 1_000_000_000,
{
    match std::time::UNIX_EPOCH.elapsed() {
        Ok(elapsed) => Some((elapsed.as_secs(), elapsed.subsec_nanos())),
        Err(_) => None,
    }
}

/// The whole milliseconds of a time, by their low 64 bits, or 0 where there is none. The
/// time is given in seconds and nanoseconds.
pub open spec fn millis_of(elapsed: Option<(u64, u32)>) -> int {
    match elapsed {
        Some((secs, nanos)) => (secs * 1000 + nanos as int / 1_000_000) % 0x1_0000_0000_0000_0000,
        None => 0,
    }
}

/// The whole milliseconds of a time, by their low 64 bits, or 0 where there is none. The
/// time is given in seconds and nanoseconds.
pub fn whole_millis(elapsed: Option<(u64, u32)>) -> (res: u64)
    ensures
        res == millis_of(elapsed),
        elapsed matches Some((secs, nanos)) ==> res == (secs * 1000 + nanos as int / 1_000_000)
            % 0x1_0000_0000_0000_0000,
        elapsed is None ==> res == 0,
{
    match elapsed {
        Some((secs, nanos)) => {
            let millis: u128 = secs as u128 * 1000 + (nanos / 1_000_000) as u128;
            assert(#[verifier::truncate] (millis as u64) == millis % 0x1_0000_0000_0000_0000)
                by (bit_vector);
            #[verifier::truncate]
            (millis as u64)
        },
        None => 0,
    }
}

impl AgentMailboxMessage {
    /// Whether this is a message of this kind with this text, from the agent with this
    /// identity to the target.
    pub open spec fn carries(
        &self,
        identity: AgentMailboxIdentity,
        target: Seq<char>,
        body: Seq<char>,
        kind: AgentMailboxMessageKind,
    ) -> bool {
        &&& self.team_scope_id@ == identity.team_scope_id@
        &&& self.from_agent_id@ == identity.agent_id@
        &&& self.to_agent_id@ == target
        &&& self.body@ == body
        &&& self.kind == kind
    }
}

/// The message with this identifier, of this time.
pub fn stamp_message(
    identity: &AgentMailboxIdentity,
    target: String,
    body: String,
    kind: AgentMailboxMessageKind,
    message_id: String,
    created_at_ms: u64,
) -> (res: AgentMailboxMessage)
    ensures
        res.carries(*identity, target@, body@, kind),
        res.team_scope_id@ == identity.team_scope_id@,
        res.from_agent_id@ == identity.agent_id@,
        res.to_agent_id@ == target@,
        res.body@ == body@,
        res.kind == kind,
        res.message_id@ == message_id@,
        res.created_at_ms == created_at_ms,
{
    AgentMailboxMessage {
        message_id,
        team_scope_id: identity.team_scope_id.clone(),
        from_agent_id: identity.agent_id.clone(),
        to_agent_id: target,
        kind,
        body,
        created_at_ms,
    }
}

/// The message with this identifier, where `elapsed` is what the clock reads: the seconds
/// and nanoseconds since the start of 1970, `None` where it stands before it.
pub fn stamp_message_at(
    identity: &AgentMailboxIdentity,
    target: String,
    body: String,
    kind: AgentMailboxMessageKind,
    message_id: String,
    elapsed: Option<(u64, u32)>,
) -> (res: AgentMailboxMessage)
    ensures
        res.carries(*identity, target@, body@, kind),
        res.team_scope_id@ == identity.team_scope_id@,
        res.from_agent_id@ == identity.agent_id@,
        res.to_agent_id@ == target@,
        res.body@ == body@,
        res.kind == kind,
        res.message_id@ == message_id@,
        res.created_at_ms == millis_of(elapsed),
{
    stamp_message(identity, target, body, kind, message_id, whole_millis(elapsed))
}

/// The message with a new identifier, of the present time. That the time is the present
/// one rests on the clock of the machine and is not stated.
pub fn stamped_message(
    identity: &AgentMailboxIdentity,
    target: String,
    body: String,
    kind: AgentMailboxMessageKind,
) -> (res: AgentMailboxMessage)
    ensures
        res.carries(*identity, target@, body@, kind),
        res.team_scope_id@ == identity.team_scope_id@,
        res.from_agent_id@ == identity.agent_id@,
        res.to_agent_id@ == target@,
        res.body@ == body@,
        res.kind == kind,
        is_uuid_v7(res.message_id@),
{
    let elapsed = since_epoch();
    stamp_message_at(identity, target, body, kind, new_message_id(), elapsed)
}

/// What a backend's answer to a message means: what it answered, or an error with its
/// text.
pub fn send_outcome<T>(reply: Result<T, String>) -> (res: Result<T, ToolError>)
    ensures
        match reply {
            Ok(output) => res == Ok::<T, ToolError>(output),
            Err(text) => res matches Err(error) && error.is_custom("agent_mailbox"@, text@),
        },
        reply matches Err(text) ==> res matches Err(ToolError::Custom { code, message }) && code@
            == "agent_mailbox"@ && message@ == text@,
{
    match reply {
        Ok(output) => Ok(output),
        Err(text) => Err(ToolError::custom("agent_mailbox", text)),
    }
}

impl WaitAgentInput {
    /// How long to wait, in milliseconds.
    pub open spec fn wait_ms(&self) -> int {
        match self.timeout_ms {
            Some(asked) => if asked <= MAX_WAIT_MS {
                asked as int
            } else {
                MAX_WAIT_MS as int
            },
            None => DEFAULT_WAIT_MS as int,
        }
    }

    /// How long to wait, in milliseconds: what was asked for, or the default, and never
    /// longer than the limit.
    pub fn effective_timeout_ms(&self) -> (res: u64)
        ensures
            res == self.wait_ms(),
            res <= 600_000,
            self.timeout_ms is None ==> res == 30_000,
            self.timeout_ms matches Some(asked) ==> (asked <= 600_000 ==> res == asked) && (asked
                > 600_000 ==> res == 600_000),
    {
        let asked = match self.timeout_ms {
            Some(asked) => asked,
            None => DEFAULT_WAIT_MS,
        };
        if asked <= MAX_WAIT_MS {
            asked
        } else {
            MAX_WAIT_MS
        }
    }
}

/// A recipient never waits longer than the limit; it waits as long as it asked to where
/// that is within the limit, so that a wait of 0 is a poll.
pub proof fn law_wait_is_capped(input: WaitAgentInput)
    ensures
        0 <= input.wait_ms() <= MAX_WAIT_MS,
        input.timeout_ms matches Some(asked) ==> asked <= MAX_WAIT_MS ==> input.wait_ms() == asked,
        input.timeout_ms is None ==> input.wait_ms() == DEFAULT_WAIT_MS,
        input.timeout_ms matches Some(asked) ==> asked > MAX_WAIT_MS ==> input.wait_ms()
            == MAX_WAIT_MS,
        DEFAULT_WAIT_MS == 30_000,
        MAX_WAIT_MS == 600_000,
{
}

/// White space around a target and a message does not change whether they are refused:
/// what was accepted is accepted again, as it is.
pub proof fn law_validation_settles(target: Seq<char>, message: Seq<char>)
    ensures
        refusal(trimmed(target), trimmed(message)) == refusal(target, message),
        trimmed(trimmed(target)) == trimmed(target),
        trimmed(trimmed(message)) == trimmed(message),
{
    lemma_trimmed(target);
    lemma_trimmed(message);
}

/// A message may be sent exactly where neither its target nor its text is blank and the
/// text is within the limit.
pub proof fn law_accepted_messages(target: Seq<char>, message: Seq<char>)
    ensures
        refusal(target, message) is None <==> {
            &&& trimmed(target).len() > 0
            &&& trimmed(message).len() > 0
            &&& encode_utf8(trimmed(message)).len() <= MAX_AGENT_MESSAGE_BYTES
        },
{
}

/// A message carries what it was stamped with and nothing else: the team and the name of
/// its sender, its target, its text and its kind.
pub proof fn law_message_carries_what_it_was_stamped_with(
    message: AgentMailboxMessage,
    identity: AgentMailboxIdentity,
    target: Seq<char>,
    body: Seq<char>,
    kind: AgentMailboxMessageKind,
)
    ensures
        message.carries(identity, target, body, kind) <==> message.team_scope_id@
            == identity.team_scope_id@ && message.from_agent_id@ == identity.agent_id@
            && message.to_agent_id@ == target && message.body@ == body && message.kind == kind,
{
}

/// Messages that two different agents send name different senders, whatever they say and
/// to whom; messages of two teams name different teams.
pub proof fn law_senders_are_told_apart(
    message: AgentMailboxMessage,
    other: AgentMailboxMessage,
    identity: AgentMailboxIdentity,
    other_identity: AgentMailboxIdentity,
    target: Seq<char>,
    other_target: Seq<char>,
    body: Seq<char>,
    other_body: Seq<char>,
    kind: AgentMailboxMessageKind,
    other_kind: AgentMailboxMessageKind,
)
    requires
        message.carries(identity, target, body, kind),
        other.carries(other_identity, other_target, other_body, other_kind),
    ensures
        identity.agent_id@ != other_identity.agent_id@ ==> message.from_agent_id@
            != other.from_agent_id@,
        identity.team_scope_id@ != other_identity.team_scope_id@ ==> message.team_scope_id@
            != other.team_scope_id@,
        target != other_target ==> message.to_agent_id@ != other.to_agent_id@,
        body != other_body ==> message.body@ != other.body@,
        kind != other_kind ==> message.kind != other.kind,
{
}

/// Of two faults the target is told before the message, and a blank message before a long
/// one.
pub proof fn law_refusals_say_what_is_wrong(target: Seq<char>, message: Seq<char>)
    ensures
        trimmed(target).len() == 0 ==> refusal(target, message) == Some(
            "target must not be empty"@,
        ),
        trimmed(target).len() > 0 && trimmed(message).len() == 0 ==> refusal(target, message)
            == Some("message must not be empty"@),
        trimmed(target).len() > 0 && trimmed(message).len() > 0 && encode_utf8(
            trimmed(message),
        ).len() > 32768 ==> refusal(target, message) == Some(
            "message exceeds the 32768-byte limit"@,
        ),
        refusal(target, message) is None <==> trimmed(target).len() > 0 && trimmed(message).len()
            > 0 && encode_utf8(trimmed(message)).len() <= 32768,
{
}

/// An error holds its code and its text as they are.
pub proof fn law_errors_hold_their_text(error: ToolError, code: Seq<char>, text: Seq<char>)
    ensures
        error.is_invalid_arguments(text) <==> (error matches ToolError::InvalidArguments {
            message,
        } && message@ == text),
        error.is_custom(code, text) <==> (error matches ToolError::Custom {
            code: given,
            message,
        } && given@ == code && message@ == text),
{
}

/// The whole milliseconds of a time that they can count are the number of milliseconds
/// that have passed in full: the time lies between them and one more.
pub proof fn law_millis_are_the_ones_that_have_passed(secs: u64, nanos: u32)
    requires
        secs * 1000 + nanos as int / 1_000_000 <= u64::MAX,
    ensures
        millis_of(Some((secs, nanos))) * 1_000_000 <= secs * 1_000_000_000 + nanos,
        secs * 1_000_000_000 + nanos < (millis_of(Some((secs, nanos))) + 1) * 1_000_000,
        millis_of(None) == 0,
{
    let millis = secs * 1000 + nanos as int / 1_000_000;
    assert(millis % 0x1_0000_0000_0000_0000 == millis);
}

/// A second later, the milliseconds are a thousand more, by their low 64 bits.
pub proof fn law_millis_count_on_by_the_second(secs: u64, nanos: u32)
    requires
        secs < u64::MAX,
    ensures
        millis_of(Some(((secs + 1) as u64, nanos))) == (millis_of(Some((secs, nanos))) + 1000)
            % 0x1_0000_0000_0000_0000,
{
}

} // verus!
