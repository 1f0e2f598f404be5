use agent_core::args::parse_args;
use agent_core::bash::BashTool;
use agent_core::defs::{ToolAction, WriteOutcome};
use agent_core::read::ReadTool;
use agent_core::registry::{Tool, ToolRegistry};
use agent_core::write::WriteTool;

fn full_registry() -> ToolRegistry {
    ToolRegistry::new(vec![
        Tool::Read(ReadTool),
        Tool::Write(WriteTool),
        Tool::Bash(BashTool),
    ])
}

#[test]
fn parse_args_reads_string_fields() {
    let args = parse_args("{\"file_path\": \"f.txt\", \"content\": \"hello\"}").unwrap();
    assert_eq!(args.get_str("file_path").unwrap(), "f.txt");
    assert_eq!(args.get_str("content").unwrap(), "hello");
    assert!(args.get_str("missing").is_none());
}

#[test]
fn parse_args_ignores_non_string_values() {
    let args = parse_args("{\"file_path\": 5}").unwrap();
    assert!(args.get_str("file_path").is_none());
}

#[test]
fn parse_args_rejects_invalid_json() {
    assert!(parse_args("{not json").is_none());
}

#[test]
fn parse_args_accepts_non_object_with_no_fields() {
    let args = parse_args("5").unwrap();
    assert!(args.get_str("file_path").is_none());
}

#[test]
fn read_plan_requires_file_path() {
    let args = parse_args("{}").unwrap();
    match ReadTool.plan(&args) {
        Err(e) => assert_eq!(e, "Read called without file_path"),
        Ok(_) => panic!("plan unexpectedly succeeded"),
    }
}

#[test]
fn read_plan_names_the_file() {
    let args = parse_args("{\"file_path\": \"f.txt\"}").unwrap();
    match ReadTool.plan(&args) {
        Ok(ToolAction::ReadFile { file_path }) => assert_eq!(file_path, "f.txt"),
        other => panic!("unexpected plan: {:?}", other.is_ok()),
    }
}

#[test]
fn read_finish_passes_contents_verbatim() {
    assert_eq!(ReadTool.finish(Ok(String::from("hello"))), Ok(String::from("hello")));
    assert_eq!(
        ReadTool.finish(Err(String::from("denied"))),
        Err(String::from("Error reading file: denied"))
    );
}

#[test]
fn write_plan_requires_both_fields() {
    let args = parse_args("{}").unwrap();
    match WriteTool.plan(&args) {
        Err(e) => assert_eq!(e, "Write called without file_path"),
        Ok(_) => panic!("plan unexpectedly succeeded"),
    }
    let args = parse_args("{\"file_path\": \"f.txt\"}").unwrap();
    match WriteTool.plan(&args) {
        Err(e) => assert_eq!(e, "Write called without content"),
        Ok(_) => panic!("plan unexpectedly succeeded"),
    }
}

#[test]
fn write_finish_reports_each_outcome() {
    assert_eq!(
        WriteTool.finish(WriteOutcome::Written),
        Ok(String::from("File written successfully"))
    );
    assert_eq!(
        WriteTool.finish(WriteOutcome::OpenFailed { error: String::from("denied") }),
        Err(String::from("Error opening file: denied"))
    );
    assert_eq!(
        WriteTool.finish(WriteOutcome::WriteFailed { error: String::from("full") }),
        Err(String::from("Error writing file: full"))
    );
}

#[test]
fn bash_plan_filters_segments() {
    let args = parse_args("{\"command\": \"ls; rm -rf /\"}").unwrap();
    match BashTool.plan(&args) {
        Ok(ToolAction::RunShell { segments }) => {
            assert_eq!(segments.len(), 2);
            assert_eq!(segments[0].text, "ls");
            assert!(segments[0].allowed);
            assert_eq!(segments[1].text, "rm -rf /");
            assert!(!segments[1].allowed);
        }
        other => panic!("unexpected plan: {:?}", other.is_ok()),
    }
}

#[test]
fn bash_plan_treats_missing_command_as_empty() {
    let args = parse_args("{}").unwrap();
    match BashTool.plan(&args) {
        Ok(ToolAction::RunShell { segments }) => assert_eq!(segments.len(), 0),
        other => panic!("unexpected plan: {:?}", other.is_ok()),
    }
}

#[test]
fn registry_advertises_definitions_in_order() {
    let defs = full_registry().definitions();
    assert_eq!(defs.len(), 3);
    assert_eq!(defs[0].name, "Read");
    assert_eq!(defs[1].name, "Write");
    assert_eq!(defs[2].name, "Bash");
    assert_eq!(defs[0].required, vec![String::from("file_path")]);
    assert_eq!(defs[1].required, vec![String::from("file_path"), String::from("content")]);
    assert_eq!(defs[2].parameters[0].name, "command");
}

#[test]
fn unknown_tool_fails_with_its_name() {
    let args = parse_args("{}").unwrap();
    match full_registry().execute("Delete", &args) {
        Err(e) => assert_eq!(e, "Unknown tool: Delete"),
        Ok(_) => panic!("dispatch unexpectedly succeeded"),
    }
}

#[test]
fn registry_dispatches_to_the_named_tool() {
    let args = parse_args("{\"file_path\": \"f.txt\", \"content\": \"hi\"}").unwrap();
    match full_registry().execute("Write", &args) {
        Ok(ToolAction::WriteFile { file_path, content }) => {
            assert_eq!(file_path, "f.txt");
            assert_eq!(content, "hi");
        }
        other => panic!("unexpected dispatch: {:?}", other.is_ok()),
    }
}

#[test]
fn write_then_read_round_trip() {
    let registry = full_registry();
    let mut store: std::collections::HashMap<String, String> = std::collections::HashMap::new();

    let write_args = parse_args("{\"file_path\": \"f.txt\", \"content\": \"hello\"}").unwrap();
    match registry.execute("Write", &write_args) {
        Ok(ToolAction::WriteFile { file_path, content }) => {
            store.insert(file_path, content);
        }
        _ => panic!("write was not planned"),
    }
    assert_eq!(
        WriteTool.finish(WriteOutcome::Written),
        Ok(String::from("File written successfully"))
    );

    let read_args = parse_args("{\"file_path\": \"f.txt\"}").unwrap();
    match registry.execute("Read", &read_args) {
        Ok(ToolAction::ReadFile { file_path }) => {
            let contents = store.get(&file_path).cloned().unwrap();
            assert_eq!(ReadTool.finish(Ok(contents)), Ok(String::from("hello")));
        }
        _ => panic!("read was not planned"),
    }
}
