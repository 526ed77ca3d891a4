//! The tools by which the agents of a team find and write to each other.

use crate::mailbox::{
    collaboration_resources, is_uuid_v7, stamped_message, AgentMailboxIdentity,
    AgentMailboxMessage, AgentMailboxMessageKind, ToolError,
};
use vstd::prelude::*;

verus! {

/// The family that a tool belongs to.
#[derive(Clone, Copy, Debug, PartialEq, Eq, Structural)]
pub enum ToolKind {
    AgentCollaboration,
}

/// The set of tools that a tool comes with.
#[derive(Clone, Copy, Debug, PartialEq, Eq, Structural)]
pub enum ToolNamespace {
    GrokBuild,
}

/// What a tool does to the state of a session.
#[derive(Clone, Copy, Debug, PartialEq, Eq, Structural)]
pub enum ToolScope {
    Read,
    Write,
}

/// What a tool declares to the runtime that calls it.
#[derive(Clone, Copy, Debug, PartialEq, Eq, Structural)]
pub struct ToolCapabilities {
    pub is_read_only: bool,
    pub tool_scope: Option<ToolScope>,
}

/// How a tool is presented to a model.
#[derive(Clone, Debug)]
pub struct ToolDescription {
    pub name: String,
    pub description: String,
}

/// Lists the agents of the team.
#[derive(Debug, Default)]
pub struct ListAgentsTool;

/// Queues a message for another agent.
#[derive(Debug, Default)]
pub struct SendAgentMessageTool;

/// Sends another agent a task to take up.
#[derive(Debug, Default)]
pub struct FollowupAgentTaskTool;

/// Reads the messages that wait for the calling agent.
#[derive(Debug, Default)]
pub struct WaitAgentTool;

/// A tool of this module, as the runtime sees it.
pub trait CollaborationTool {
    /// The name by which the tool is called.
    spec fn name(&self) -> Seq<char>;

    /// What a model is told of the tool.
    spec fn template(&self) -> Seq<char>;

    /// Whether the tool leaves the state of the team as it is.
    spec fn reads_only(&self) -> bool;

    /// The name by which the tool is called.
    fn id(&self) -> (res: &'static str)
        ensures
            res@ == self.name(),
    ;

    /// What a model is told of the tool.
    fn description_template(&self) -> (res: &'static str)
        ensures
            res@ == self.template(),
    ;

    /// Whether the tool leaves the state of the team as it is.
    fn is_read_only(&self) -> (res: bool)
        ensures
            res == self.reads_only(),
    ;

    /// The family that the tool belongs to.
    fn kind(&self) -> (res: ToolKind)
        ensures
            res == ToolKind::AgentCollaboration,
    {
        ToolKind::AgentCollaboration
    }

    /// The set of tools that the tool comes with.
    fn tool_namespace(&self) -> (res: ToolNamespace)
        ensures
            res == ToolNamespace::GrokBuild,
    {
        ToolNamespace::GrokBuild
    }

    /// How the tool is presented, where `sanitized` is what the host makes of
    /// `description_template`.
    fn description(&self, sanitized: String) -> (res: ToolDescription)
        ensures
            res.name@ == self.name(),
            res.description@ == sanitized@,
    {
        ToolDescription { name: self.id().to_owned(), description: sanitized }
    }

    /// What the tool declares: the scope of a read exactly where it reads only.
    fn capabilities(&self) -> (res: ToolCapabilities)
        ensures
            res.is_read_only == self.reads_only(),
            res.tool_scope == Some(
                if self.reads_only() {
                    ToolScope::Read
                } else {
                    ToolScope::Write
                },
            ),
    {
        let is_read_only = self.is_read_only();
        let scope = if is_read_only {
            ToolScope::Read
        } else {
            ToolScope::Write
        };
        ToolCapabilities { is_read_only, tool_scope: Some(scope) }
    }
}

impl CollaborationTool for ListAgentsTool {
    open spec fn name(&self) -> Seq<char> {
        "list_agents"@
    }

    open spec fn template(&self) -> Seq<char> {
        "List the root and subagents in this session's collaboration team. Returns stable agent IDs, lifecycle status, task labels, resume provenance, and worktree paths. It does not expose agent transcripts."@
    }

    open spec fn reads_only(&self) -> bool {
        true
    }

    fn id(&self) -> (res: &'static str) {
        "list_agents"
    }

    fn description_template(&self) -> (res: &'static str) {
        "List the root and subagents in this session's collaboration team. Returns stable agent IDs, lifecycle status, task labels, resume provenance, and worktree paths. It does not expose agent transcripts."
    }

    fn is_read_only(&self) -> (res: bool) {
        true
    }
}

impl CollaborationTool for SendAgentMessageTool {
    open spec fn name(&self) -> Seq<char> {
        "send_message"@
    }

    open spec fn template(&self) -> Seq<char> {
        "Queue a message in another live agent's mailbox without starting a new turn. Use list_agents to discover exact target IDs. The recipient reads queued messages with wait_agent."@
    }

    open spec fn reads_only(&self) -> bool {
        false
    }

    fn id(&self) -> (res: &'static str) {
        "send_message"
    }

    fn description_template(&self) -> (res: &'static str) {
        "Queue a message in another live agent's mailbox without starting a new turn. Use list_agents to discover exact target IDs. The recipient reads queued messages with wait_agent."
    }

    fn is_read_only(&self) -> (res: bool) {
        false
    }
}

impl CollaborationTool for FollowupAgentTaskTool {
    open spec fn name(&self) -> Seq<char> {
        "followup_task"@
    }

    open spec fn template(&self) -> Seq<char> {
        "Send a follow-up task to another live agent and wake it promptly. Running recipients receive the message at a safe model boundary; idle root sessions start a synthetic follow-up turn."@
    }

    open spec fn reads_only(&self) -> bool {
        false
    }

    fn id(&self) -> (res: &'static str) {
        "followup_task"
    }

    fn description_template(&self) -> (res: &'static str) {
        "Send a follow-up task to another live agent and wake it promptly. Running recipients receive the message at a safe model boundary; idle root sessions start a synthetic follow-up turn."
    }

    fn is_read_only(&self) -> (res: bool) {
        false
    }
}

impl CollaborationTool for WaitAgentTool {
    open spec fn name(&self) -> Seq<char> {
        "wait_agent"@
    }

    open spec fn template(&self) -> Seq<char> {
        "Read this agent's queued mailbox messages, waiting for activity when requested. Only messages addressed to the calling agent are returned."@
    }

    open spec fn reads_only(&self) -> bool {
        true
    }

    fn id(&self) -> (res: &'static str) {
        "wait_agent"
    }

    fn description_template(&self) -> (res: &'static str) {
        "Read this agent's queued mailbox messages, waiting for activity when requested. Only messages addressed to the calling agent are returned."
    }

    fn is_read_only(&self) -> (res: bool) {
        true
    }
}

/// A tool that sends messages of one kind.
pub trait MessageTool: CollaborationTool {
    /// The kind of the messages.
    spec fn sends(&self) -> AgentMailboxMessageKind;

    /// The kind of the messages.
    fn message_kind(&self) -> (res: AgentMailboxMessageKind)
        ensures
            res == self.sends(),
    ;

    /// The message that a call of the tool sends, with what sends it. The target and the
    /// text are those of a call that was validated; the session may lack the backend or
    /// the identity.
    fn outgoing_message<B>(
        &self,
        target: String,
        body: String,
        backend: Option<B>,
        identity: Option<AgentMailboxIdentity>,
    ) -> (res: Result<OutgoingMessage<B>, ToolError>)
        ensures
            match (backend, identity) {
                (Some(backend), Some(identity)) => res matches Ok(outgoing) && outgoing.backend
                    == backend && outgoing.identity == identity && outgoing.target@ == target@
                    && outgoing.message.carries(identity, target@, body@, self.sends())
                    && is_uuid_v7(outgoing.message.message_id@)
                    && outgoing.message.team_scope_id@ == identity.team_scope_id@
                    && outgoing.message.from_agent_id@ == identity.agent_id@
                    && outgoing.message.to_agent_id@ == target@ && outgoing.message.body@ == body@
                    && outgoing.message.kind == self.sends(),
                (Some(_), None) => res matches Err(error) && error.is_custom(
                    "missing_resource"@,
                    "Agent mailbox identity is not initialized for this session"@,
                ),
                (None, _) => res matches Err(error) && error.is_custom(
                    "missing_resource"@,
                    "Subagent mailbox is not initialized for this session"@,
                ),
            },
    {
        match collaboration_resources(backend, identity) {
            Ok((backend, identity)) => {
                let message = stamped_message(&identity, target.clone(), body, self.message_kind());
                Ok(OutgoingMessage { backend, identity, target, message })
            },
            Err(error) => Err(error),
        }
    }
}

/// A message, with the backend that takes it and the sender in whose name it goes.
#[derive(Debug)]
pub struct OutgoingMessage<B> {
    pub backend: B,
    pub identity: AgentMailboxIdentity,
    pub target: String,
    pub message: AgentMailboxMessage,
}

impl MessageTool for SendAgentMessageTool {
    open spec fn sends(&self) -> AgentMailboxMessageKind {
        AgentMailboxMessageKind::Message
    }

    fn message_kind(&self) -> (res: AgentMailboxMessageKind) {
        AgentMailboxMessageKind::Message
    }
}

impl MessageTool for FollowupAgentTaskTool {
    open spec fn sends(&self) -> AgentMailboxMessageKind {
        AgentMailboxMessageKind::FollowupTask
    }

    fn message_kind(&self) -> (res: AgentMailboxMessageKind) {
        AgentMailboxMessageKind::FollowupTask
    }
}

/// No two tools are called by the same name.
pub proof fn law_tool_names_differ(
    list: ListAgentsTool,
    send: SendAgentMessageTool,
    followup: FollowupAgentTaskTool,
    wait: WaitAgentTool,
)
    ensures
        list.name() != send.name(),
        list.name() != followup.name(),
        list.name() != wait.name(),
        send.name() != followup.name(),
        send.name() != wait.name(),
        followup.name() != wait.name(),
{
    reveal_strlit("list_agents");
    reveal_strlit("send_message");
    reveal_strlit("followup_task");
    reveal_strlit("wait_agent");
    assert(list.name().len() == 11 && send.name().len() == 12);
    assert(followup.name().len() == 13 && wait.name().len() == 10);
}

/// The tools that send a message are the ones that do more than read.
pub proof fn law_sending_is_not_reading(
    list: ListAgentsTool,
    send: SendAgentMessageTool,
    followup: FollowupAgentTaskTool,
    wait: WaitAgentTool,
)
    ensures
        list.reads_only(),
        wait.reads_only(),
        !send.reads_only(),
        !followup.reads_only(),
        send.sends() != followup.sends(),
{
}

/// Each tool is called by its own name and presented with its own text; those that send
/// give their messages different kinds.
pub proof fn law_tools_are_presented_as_they_are(
    list: ListAgentsTool,
    send: SendAgentMessageTool,
    followup: FollowupAgentTaskTool,
    wait: WaitAgentTool,
)
    ensures
        list.name() == "list_agents"@,
        send.name() == "send_message"@,
        followup.name() == "followup_task"@,
        wait.name() == "wait_agent"@,
        list.template()
            == "List the root and subagents in this session's collaboration team. Returns stable agent IDs, lifecycle status, task labels, resume provenance, and worktree paths. It does not expose agent transcripts."@,
        send.template()
            == "Queue a message in another live agent's mailbox without starting a new turn. Use list_agents to discover exact target IDs. The recipient reads queued messages with wait_agent."@,
        followup.template()
            == "Send a follow-up task to another live agent and wake it promptly. Running recipients receive the message at a safe model boundary; idle root sessions start a synthetic follow-up turn."@,
        wait.template()
            == "Read this agent's queued mailbox messages, waiting for activity when requested. Only messages addressed to the calling agent are returned."@,
        send.sends() == AgentMailboxMessageKind::Message,
        followup.sends() == AgentMailboxMessageKind::FollowupTask,
{
}

} // verus!
