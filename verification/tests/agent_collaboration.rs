use opengrok_core::agent_collaboration::{
    CollaborationTool, FollowupAgentTaskTool, ListAgentsTool, MessageTool, SendAgentMessageTool,
    ToolKind, ToolNamespace, ToolScope, WaitAgentTool,
};
use opengrok_core::mailbox::{
    collaboration_resources, send_outcome, stamp_message, stamp_message_at, stamped_message,
    validate_message, whole_millis, AgentMailboxIdentity, AgentMailboxMessageKind, SendAgentMessageInput, ToolError,
    WaitAgentInput, DEFAULT_WAIT_MS, MAX_AGENT_MESSAGE_BYTES, MAX_WAIT_MS,
};

fn identity() -> AgentMailboxIdentity {
    AgentMailboxIdentity {
        team_scope_id: "team".to_owned(),
        agent_id: "root".to_owned(),
    }
}

fn input(target: &str, message: &str) -> SendAgentMessageInput {
    SendAgentMessageInput {
        target: target.to_owned(),
        message: message.to_owned(),
    }
}

fn invalid_text(error: ToolError) -> String {
    match error {
        ToolError::InvalidArguments { message } => message,
        other => panic!("{:?}", other),
    }
}

fn custom_text(error: ToolError) -> (String, String) {
    match error {
        ToolError::Custom { code, message } => (code, message),
        other => panic!("{:?}", other),
    }
}

#[test]
fn collaboration_tool_ids_and_kind_are_stable() {
    for (id, actual) in [
        ("list_agents", CollaborationTool::id(&ListAgentsTool)),
        ("send_message", CollaborationTool::id(&SendAgentMessageTool)),
        (
            "followup_task",
            CollaborationTool::id(&FollowupAgentTaskTool),
        ),
        ("wait_agent", CollaborationTool::id(&WaitAgentTool)),
    ] {
        assert_eq!(actual, id);
    }
    assert_eq!(
        CollaborationTool::kind(&SendAgentMessageTool),
        ToolKind::AgentCollaboration
    );
}

#[test]
fn message_validation_rejects_empty_and_oversized_text() {
    assert!(validate_message(SendAgentMessageInput {
        target: "child".to_string(),
        message: " ".to_string(),
    })
    .is_err());
    assert!(validate_message(SendAgentMessageInput {
        target: "child".to_string(),
        message: "x".repeat(MAX_AGENT_MESSAGE_BYTES + 1),
    })
    .is_err());
    assert_eq!(
        validate_message(SendAgentMessageInput {
            target: " child ".to_string(),
            message: " hello ".to_string(),
        })
        .expect("valid message"),
        ("child".to_string(), "hello".to_string())
    );
}

#[test]
fn wait_timeout_is_capped_by_tool_contract() {
    assert_eq!(DEFAULT_WAIT_MS, 30_000);
    assert_eq!(MAX_WAIT_MS, 600_000);
}

#[test]
fn refusals_say_what_is_wrong() {
    assert_eq!(
        invalid_text(validate_message(input(" \n", "")).unwrap_err()),
        "target must not be empty"
    );
    assert_eq!(
        invalid_text(validate_message(input("child", "\t")).unwrap_err()),
        "message must not be empty"
    );
    assert_eq!(
        invalid_text(
            validate_message(input("child", &"x".repeat(MAX_AGENT_MESSAGE_BYTES + 1))).unwrap_err()
        ),
        "message exceeds the 32768-byte limit"
    );
}

#[test]
fn the_limit_counts_bytes_of_the_trimmed_text() {
    assert_eq!(MAX_AGENT_MESSAGE_BYTES, 32768);
    let full = "x".repeat(MAX_AGENT_MESSAGE_BYTES);
    assert_eq!(
        validate_message(input("child", &format!("  {}  ", full))).unwrap(),
        ("child".to_owned(), full)
    );
    let wide = "\u{e9}".repeat(MAX_AGENT_MESSAGE_BYTES / 2);
    assert!(validate_message(input("child", &wide)).is_ok());
    assert!(validate_message(input("child", &format!("{}x", wide))).is_err());
}

#[test]
fn what_was_accepted_is_accepted_again() {
    let (target, message) = validate_message(input(" child ", " a b ")).unwrap();
    assert_eq!(
        validate_message(input(&target, &message)).unwrap(),
        (target, message)
    );
}

#[test]
fn waits_are_defaulted_and_capped() {
    let wait = |timeout_ms| WaitAgentInput { timeout_ms }.effective_timeout_ms();
    assert_eq!(wait(None), 30_000);
    assert_eq!(wait(Some(0)), 0);
    assert_eq!(wait(Some(1)), 1);
    assert_eq!(wait(Some(600_000)), 600_000);
    assert_eq!(wait(Some(600_001)), 600_000);
    assert_eq!(wait(Some(u64::MAX)), 600_000);
}

#[test]
fn missing_resources_are_named() {
    let (backend, who) = collaboration_resources(Some(7), Some(identity())).unwrap();
    assert_eq!(backend, 7);
    assert_eq!(who.agent_id, "root");
    assert_eq!(
        custom_text(collaboration_resources(None::<u8>, Some(identity())).unwrap_err()),
        (
            "missing_resource".to_owned(),
            "Subagent mailbox is not initialized for this session".to_owned()
        )
    );
    assert_eq!(
        custom_text(collaboration_resources(None::<u8>, None).unwrap_err()).1,
        "Subagent mailbox is not initialized for this session"
    );
    assert_eq!(
        custom_text(collaboration_resources(Some(7), None).unwrap_err()),
        (
            "missing_resource".to_owned(),
            "Agent mailbox identity is not initialized for this session".to_owned()
        )
    );
}

#[test]
fn milliseconds_are_whole_and_keep_their_low_bits() {
    assert_eq!(whole_millis(None), 0);
    assert_eq!(whole_millis(Some((0, 999_999))), 0);
    assert_eq!(whole_millis(Some((1, 2_999_999))), 1002);
    assert_eq!(whole_millis(Some((1_700_000_000, 0))), 1_700_000_000_000);
    let elapsed = std::time::Duration::new(u64::MAX, 999_999_999);
    assert_eq!(
        whole_millis(Some((u64::MAX, 999_999_999))),
        elapsed.as_millis() as u64
    );
}

#[test]
fn a_message_is_stamped_with_its_sender() {
    let message = stamp_message(
        &identity(),
        "child".to_owned(),
        "hello".to_owned(),
        AgentMailboxMessageKind::FollowupTask,
        "id".to_owned(),
        12,
    );
    assert_eq!(message.message_id, "id");
    assert_eq!(message.team_scope_id, "team");
    assert_eq!(message.from_agent_id, "root");
    assert_eq!(message.to_agent_id, "child");
    assert_eq!(message.kind, AgentMailboxMessageKind::FollowupTask);
    assert_eq!(message.body, "hello");
    assert_eq!(message.created_at_ms, 12);
}

#[test]
fn the_reading_of_the_clock_is_the_time_of_the_message() {
    let at = |elapsed| {
        stamp_message_at(
            &identity(),
            "child".to_owned(),
            "hello".to_owned(),
            AgentMailboxMessageKind::Message,
            "id".to_owned(),
            elapsed,
        )
    };
    let message = at(Some((1_700_000_000, 123_999_999)));
    assert_eq!(message.created_at_ms, 1_700_000_000_123);
    assert_eq!(message.message_id, "id");
    assert_eq!(message.from_agent_id, "root");
    assert_eq!(message.to_agent_id, "child");
    assert_eq!(message.body, "hello");
    assert_eq!(at(None).created_at_ms, 0);
}

#[test]
fn new_messages_have_their_own_identifier_and_time() {
    let now = || {
        std::time::SystemTime::now()
            .duration_since(std::time::UNIX_EPOCH)
            .unwrap()
            .as_millis() as u64
    };
    let stamped = || {
        stamped_message(
            &identity(),
            "child".to_owned(),
            "hello".to_owned(),
            AgentMailboxMessageKind::Message,
        )
    };
    let before = now();
    let first = stamped();
    let second = stamped();
    let after = now();
    assert_ne!(first.message_id, second.message_id);
    assert!(before <= first.created_at_ms && first.created_at_ms <= after);
    for message in [first, second] {
        let id: Vec<char> = message.message_id.chars().collect();
        assert_eq!(id.len(), 36);
        for (i, c) in id.iter().enumerate() {
            if matches!(i, 8 | 13 | 18 | 23) {
                assert_eq!(*c, '-');
            } else {
                assert!("0123456789abcdef".contains(*c));
            }
        }
        assert_eq!(id[14], '7');
        assert!("89ab".contains(id[19]));
    }
}

#[test]
fn message_tools_send_their_kind() {
    let sent = SendAgentMessageTool
        .outgoing_message("child".to_owned(), "hi".to_owned(), Some(1), Some(identity()))
        .unwrap();
    assert_eq!(sent.message.kind, AgentMailboxMessageKind::Message);
    assert_eq!(sent.backend, 1);
    assert_eq!(sent.target, "child");
    assert_eq!(sent.identity.agent_id, "root");
    assert_eq!(sent.message.to_agent_id, "child");
    assert_eq!(sent.message.body, "hi");
    let task = FollowupAgentTaskTool
        .outgoing_message("child".to_owned(), "hi".to_owned(), Some(1), Some(identity()))
        .unwrap();
    assert_eq!(task.message.kind, AgentMailboxMessageKind::FollowupTask);
    assert!(FollowupAgentTaskTool
        .outgoing_message("child".to_owned(), "hi".to_owned(), None::<u8>, None)
        .is_err());
}

#[test]
fn backend_errors_keep_their_text() {
    assert_eq!(send_outcome(Ok(3)).unwrap(), 3);
    assert_eq!(
        custom_text(send_outcome::<u8>(Err("mailbox closed".to_owned())).unwrap_err()),
        ("agent_mailbox".to_owned(), "mailbox closed".to_owned())
    );
}

#[test]
fn capabilities_follow_from_reading_only() {
    assert!(ListAgentsTool.is_read_only());
    assert!(WaitAgentTool.is_read_only());
    assert!(!SendAgentMessageTool.is_read_only());
    assert!(!FollowupAgentTaskTool.is_read_only());
    let read = ListAgentsTool.capabilities();
    assert!(read.is_read_only);
    assert_eq!(read.tool_scope, Some(ToolScope::Read));
    let write = FollowupAgentTaskTool.capabilities();
    assert!(!write.is_read_only);
    assert_eq!(write.tool_scope, Some(ToolScope::Write));
    assert_eq!(WaitAgentTool.tool_namespace(), ToolNamespace::GrokBuild);
}

#[test]
fn descriptions_carry_the_name_of_the_tool() {
    let description = WaitAgentTool.description("text".to_owned());
    assert_eq!(description.name, "wait_agent");
    assert_eq!(description.description, "text");
    assert_eq!(
        WaitAgentTool.description_template(),
        "Read this agent's queued mailbox messages, waiting for activity when requested. Only messages addressed to the calling agent are returned."
    );
    assert!(SendAgentMessageTool
        .description_template()
        .starts_with("Queue a message"));
    assert!(FollowupAgentTaskTool
        .description_template()
        .starts_with("Send a follow-up task"));
    assert!(ListAgentsTool
        .description_template()
        .starts_with("List the root and subagents"));
}
