//! The file-write tool: it asks the host to replace the named file's
//! contents and confirms with a fixed message, or returns a descriptive
//! error.

use vstd::prelude::*;
use crate::args::ToolArgs;
use crate::args::lookup_str;
use crate::bash::str_result_view;
use crate::defs::ToolAction;
use crate::defs::ToolActionV;
use crate::defs::ToolDefinition;
use crate::defs::ToolDefinitionV;
use crate::defs::ToolParam;
use crate::defs::ToolParamV;
use crate::defs::WriteOutcome;
use crate::defs::WriteOutcomeV;
use crate::defs::action_result_view;

verus! {

/// The file-write tool.
pub struct WriteTool;

/// The advertised capability of the write tool.
pub open spec fn write_definition_spec() -> ToolDefinitionV {
    ToolDefinitionV {
        name: "Write"@,
        description: "Write content to a file"@,
        required: seq!["file_path"@, "content"@],
        parameters: seq![
            ToolParamV { name: "file_path"@, description: "The path of the file to write to"@ },
            ToolParamV { name: "content"@, description: "The content to write to the file"@ },
        ],
    }
}

/// The write tool's planning rule: write `content` to the file named by
/// `file_path`; either string field missing fails, `file_path` first.
pub open spec fn write_plan_spec(fields: Seq<(Seq<char>, Option<Seq<char>>)>) -> Result<
    ToolActionV,
    Seq<char>,
> {
    match lookup_str(fields, "file_path"@) {
        None => Err("Write called without file_path"@),
        Some(p) => match lookup_str(fields, "content"@) {
            None => Err("Write called without content"@),
            Some(c) => Ok(ToolActionV::WriteFile { file_path: p, content: c }),
        },
    }
}

/// The write tool's textual result for each way the host's write can end: a
/// fixed confirmation on success, a descriptive error otherwise.
pub open spec fn write_finish_spec(outcome: WriteOutcomeV) -> Result<Seq<char>, Seq<char>> {
    match outcome {
        WriteOutcomeV::Written => Ok("File written successfully"@),
        WriteOutcomeV::OpenFailed { error } => Err("Error opening file: "@ + error),
        WriteOutcomeV::WriteFailed { error } => Err("Error writing file: "@ + error),
    }
}

impl WriteTool {
    /// The dispatch name of the write tool.
    pub fn name(&self) -> (r: &'static str)
        ensures
            r@ == "Write"@,
    {
        "Write"
    }

    /// The write tool's definition, as advertised to the model.
    pub fn definition(&self) -> (d: ToolDefinition)
        ensures
            d@ == write_definition_spec(),
    {
        let d = ToolDefinition {
            name: String::from_str("Write"),
            description: String::from_str("Write content to a file"),
            required: vec![String::from_str("file_path"), String::from_str("content")],
            parameters: vec![
                ToolParam {
                    name: String::from_str("file_path"),
                    description: String::from_str("The path of the file to write to"),
                },
                ToolParam {
                    name: String::from_str("content"),
                    description: String::from_str("The content to write to the file"),
                },
            ],
        };
        proof {
            assert(d@.required =~= write_definition_spec().required);
            assert(d@.parameters =~= write_definition_spec().parameters);
        }
        d
    }

    /// Plans one write from the tool call's decoded arguments.
    pub fn plan(&self, tool_args: &ToolArgs) -> (r: Result<ToolAction, String>)
        ensures
            action_result_view(r) == write_plan_spec(tool_args@),
    {
        let file_path = match tool_args.get_str("file_path") {
            Some(p) => p.clone(),
            None => {
                return Err(String::from_str("Write called without file_path"));
            },
        };
        let content = match tool_args.get_str("content") {
            Some(c) => c.clone(),
            None => {
                return Err(String::from_str("Write called without content"));
            },
        };
        Ok(ToolAction::WriteFile { file_path, content })
    }

    /// Renders the host's write outcome as the tool's textual result.
    pub fn finish(&self, outcome: WriteOutcome) -> (r: Result<String, String>)
        ensures
            str_result_view(r) == write_finish_spec(outcome@),
    {
        match outcome {
            WriteOutcome::Written => Ok(String::from_str("File written successfully")),
            WriteOutcome::OpenFailed { error } => {
                let mut m = String::from_str("Error opening file: ");
                m.append(error.as_str());
                Err(m)
            },
            WriteOutcome::WriteFailed { error } => {
                let mut m = String::from_str("Error writing file: ");
                m.append(error.as_str());
                Err(m)
            },
        }
    }
}

} // verus!
