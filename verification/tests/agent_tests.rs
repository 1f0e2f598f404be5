use agent_core::agent::{
    Agent, Choice, Message, ModelResponse, RawFunction, RawMessage, RawToolCall, StepOutcome,
};
use agent_core::bash::{BashTool, SpawnResult};
use agent_core::defs::{ActionOutcome, ToolAction, WriteOutcome};
use agent_core::read::ReadTool;
use agent_core::registry::{Tool, ToolRegistry};
use agent_core::write::WriteTool;

fn full_registry() -> ToolRegistry {
    ToolRegistry::new(vec![
        Tool::Read(ReadTool),
        Tool::Write(WriteTool),
        Tool::Bash(BashTool),
    ])
}

fn tool_call(id: &str, name: &str, arguments: &str) -> RawToolCall {
    RawToolCall {
        id: Some(String::from(id)),
        function: Some(RawFunction {
            name: Some(String::from(name)),
            arguments: Some(String::from(arguments)),
        }),
    }
}

fn assistant_with_calls(calls: Vec<RawToolCall>) -> Choice {
    Choice { message: Some(RawMessage { content: None, tool_calls: Some(calls) }) }
}

fn assistant_text(text: &str) -> Choice {
    Choice {
        message: Some(RawMessage { content: Some(String::from(text)), tool_calls: None }),
    }
}

fn response(choices: Vec<Choice>) -> ModelResponse {
    ModelResponse { choices: Some(choices) }
}

#[test]
fn end_to_end_read_then_final_answer() {
    let mut agent = Agent::new(String::from("please read f.txt"), full_registry());
    assert!(matches!(agent.step(), StepOutcome::NeedModel));

    agent.on_response(response(vec![assistant_with_calls(vec![tool_call(
        "call-1",
        "Read",
        "{\"file_path\": \"f.txt\"}",
    )])]));
    assert!(matches!(agent.step(), StepOutcome::Handled));
    let (id, action) = match agent.step() {
        StepOutcome::Action { id, action } => (id, action),
        _ => panic!("expected a dispatched action"),
    };
    assert_eq!(id, "call-1");
    match &action {
        ToolAction::ReadFile { file_path } => assert_eq!(file_path, "f.txt"),
        _ => panic!("expected a read action"),
    }
    agent.on_outcome(ActionOutcome::ReadDone { contents: Ok(String::from("hello")) });
    assert!(matches!(agent.step(), StepOutcome::NeedModel));

    agent.on_response(response(vec![assistant_text("done")]));
    match agent.step() {
        StepOutcome::Finished { answer } => assert_eq!(answer, Some(String::from("done"))),
        _ => panic!("expected the run to finish"),
    }

    let t = agent.transcript();
    assert_eq!(t.len(), 4);
    assert!(matches!(t[0], Message::User { .. }));
    assert!(matches!(t[1], Message::Assistant { .. }));
    match &t[2] {
        Message::ToolResult { tool_call_id, content } => {
            assert_eq!(tool_call_id, "call-1");
            assert_eq!(content, "hello");
        }
        _ => panic!("expected a tool result"),
    }
    assert!(matches!(t[3], Message::Assistant { .. }));
}

#[test]
fn empty_choices_end_the_run_with_no_answer() {
    let mut agent = Agent::new(String::from("hi"), full_registry());
    agent.on_response(ModelResponse { choices: Some(Vec::new()) });
    match agent.step() {
        StepOutcome::Finished { answer } => assert_eq!(answer, None),
        _ => panic!("expected the run to finish"),
    }
    assert_eq!(agent.transcript().len(), 1);
    assert_eq!(agent.diagnostics().len(), 1);
    assert_eq!(agent.diagnostics()[0], "No 'choices' array in model response");
}

#[test]
fn missing_choices_end_the_run_with_no_answer() {
    let mut agent = Agent::new(String::from("hi"), full_registry());
    agent.on_response(ModelResponse { choices: None });
    match agent.step() {
        StepOutcome::Finished { answer } => assert_eq!(answer, None),
        _ => panic!("expected the run to finish"),
    }
}

#[test]
fn unknown_tool_becomes_a_tool_result() {
    let mut agent = Agent::new(String::from("hi"), full_registry());
    agent.on_response(response(vec![assistant_with_calls(vec![tool_call(
        "call-9", "Delete", "{}",
    )])]));
    assert!(matches!(agent.step(), StepOutcome::Handled));
    assert!(matches!(agent.step(), StepOutcome::Handled));
    let t = agent.transcript();
    assert_eq!(t.len(), 3);
    match &t[2] {
        Message::ToolResult { tool_call_id, content } => {
            assert_eq!(tool_call_id, "call-9");
            assert_eq!(content, "Unknown tool: Delete");
        }
        _ => panic!("expected a tool result"),
    }
}

#[test]
fn malformed_tool_call_is_skipped_with_a_diagnostic() {
    let mut agent = Agent::new(String::from("hi"), full_registry());
    agent.on_response(response(vec![assistant_with_calls(vec![RawToolCall {
        id: None,
        function: Some(RawFunction {
            name: Some(String::from("Read")),
            arguments: Some(String::from("{}")),
        }),
    }])]));
    assert!(matches!(agent.step(), StepOutcome::Handled));
    assert!(matches!(agent.step(), StepOutcome::Handled));
    assert_eq!(agent.transcript().len(), 2);
    assert_eq!(agent.diagnostics().len(), 1);
    assert_eq!(agent.diagnostics()[0], "tool_call missing 'id'");
}

#[test]
fn unparseable_arguments_are_skipped_with_a_diagnostic() {
    let mut agent = Agent::new(String::from("hi"), full_registry());
    agent.on_response(response(vec![assistant_with_calls(vec![tool_call(
        "call-3", "Read", "{bad json",
    )])]));
    assert!(matches!(agent.step(), StepOutcome::Handled));
    assert!(matches!(agent.step(), StepOutcome::Handled));
    assert_eq!(agent.transcript().len(), 2);
    assert_eq!(agent.diagnostics()[0], "failed to parse tool arguments");
}

#[test]
fn message_with_neither_content_nor_calls_is_logged_and_passed_over() {
    let mut agent = Agent::new(String::from("hi"), full_registry());
    agent.on_response(response(vec![
        Choice { message: Some(RawMessage { content: None, tool_calls: None }) },
        assistant_text("ok"),
    ]));
    assert!(matches!(agent.step(), StepOutcome::Handled));
    match agent.step() {
        StepOutcome::Finished { answer } => assert_eq!(answer, Some(String::from("ok"))),
        _ => panic!("expected the run to finish"),
    }
    assert_eq!(agent.transcript().len(), 3);
    assert_eq!(
        agent.diagnostics()[0],
        "Received message without content or tool_calls"
    );
}

#[test]
fn choice_without_message_is_logged_and_passed_over() {
    let mut agent = Agent::new(String::from("hi"), full_registry());
    agent.on_response(response(vec![Choice { message: None }, assistant_text("ok")]));
    assert!(matches!(agent.step(), StepOutcome::Handled));
    match agent.step() {
        StepOutcome::Finished { answer } => assert_eq!(answer, Some(String::from("ok"))),
        _ => panic!("expected the run to finish"),
    }
    assert_eq!(agent.transcript().len(), 2);
    assert_eq!(agent.diagnostics()[0], "Choice without message");
}

#[test]
fn shell_dispatch_renders_the_combined_report() {
    let mut agent = Agent::new(String::from("hi"), full_registry());
    agent.on_response(response(vec![assistant_with_calls(vec![tool_call(
        "call-2",
        "Bash",
        "{\"command\": \"ls; rm -rf /\"}",
    )])]));
    assert!(matches!(agent.step(), StepOutcome::Handled));
    let action = match agent.step() {
        StepOutcome::Action { action, .. } => action,
        _ => panic!("expected a dispatched action"),
    };
    let allowed: Vec<String> = match &action {
        ToolAction::RunShell { segments } => segments
            .iter()
            .filter(|g| g.allowed)
            .map(|g| g.text.clone())
            .collect(),
        _ => panic!("expected a shell action"),
    };
    assert_eq!(allowed, vec![String::from("ls")]);
    agent.on_outcome(ActionOutcome::ShellDone {
        spawns: vec![SpawnResult::Finished {
            stdout: String::from("a.txt\n"),
            stderr: String::new(),
        }],
    });
    let t = agent.transcript();
    match &t[2] {
        Message::ToolResult { tool_call_id, content } => {
            assert_eq!(tool_call_id, "call-2");
            assert_eq!(
                content,
                "Command: 'ls'\na.txt\n\n---\nCommand suppressed: 'rm -rf /'"
            );
        }
        _ => panic!("expected a tool result"),
    }
}

#[test]
fn write_dispatch_confirms_success() {
    let mut agent = Agent::new(String::from("hi"), full_registry());
    agent.on_response(response(vec![assistant_with_calls(vec![tool_call(
        "call-4",
        "Write",
        "{\"file_path\": \"f.txt\", \"content\": \"hello\"}",
    )])]));
    assert!(matches!(agent.step(), StepOutcome::Handled));
    match agent.step() {
        StepOutcome::Action { action: ToolAction::WriteFile { file_path, content }, .. } => {
            assert_eq!(file_path, "f.txt");
            assert_eq!(content, "hello");
        }
        _ => panic!("expected a write action"),
    }
    agent.on_outcome(ActionOutcome::WriteDone { outcome: WriteOutcome::Written });
    match &agent.transcript()[2] {
        Message::ToolResult { content, .. } => {
            assert_eq!(content, "File written successfully");
        }
        _ => panic!("expected a tool result"),
    }
}

#[test]
fn missing_tool_argument_becomes_a_tool_result() {
    let mut agent = Agent::new(String::from("hi"), full_registry());
    agent.on_response(response(vec![assistant_with_calls(vec![tool_call(
        "call-5", "Read", "{}",
    )])]));
    assert!(matches!(agent.step(), StepOutcome::Handled));
    assert!(matches!(agent.step(), StepOutcome::Handled));
    match &agent.transcript()[2] {
        Message::ToolResult { content, .. } => {
            assert_eq!(content, "Read called without file_path");
        }
        _ => panic!("expected a tool result"),
    }
}
