//! The file-read tool: it asks the host to read the named file and returns
//! the contents verbatim, or a descriptive error.

use vstd::prelude::*;
use crate::args::ToolArgs;
use crate::args::lookup_str;
use crate::bash::str_result_view;
use crate::defs::ToolAction;
use crate::defs::ToolActionV;
use crate::defs::ToolDefinition;
use crate::defs::ToolDefinitionV;
use crate::defs::ToolParam;
use crate::defs::ToolParamV;
use crate::defs::action_result_view;

verus! {

/// The file-read tool.
pub struct ReadTool;

/// The advertised capability of the read tool.
pub open spec fn read_definition_spec() -> ToolDefinitionV {
    ToolDefinitionV {
        name: "Read"@,
        description: "Read and return the contents of a file"@,
        required: seq!["file_path"@],
        parameters: seq![
            ToolParamV { name: "file_path"@, description: "The path to the file to read"@ },
        ],
    }
}

/// The read tool's planning rule: read the file named by `file_path`, or
/// fail when that string field is missing.
pub open spec fn read_plan_spec(fields: Seq<(Seq<char>, Option<Seq<char>>)>) -> Result<
    ToolActionV,
    Seq<char>,
> {
    match lookup_str(fields, "file_path"@) {
        Some(p) => Ok(ToolActionV::ReadFile { file_path: p }),
        None => Err("Read called without file_path"@),
    }
}

/// The read tool's textual result for each way the host's read can end: the
/// contents verbatim on success, a descriptive error otherwise.
pub open spec fn read_finish_spec(contents: Result<Seq<char>, Seq<char>>) -> Result<
    Seq<char>,
    Seq<char>,
> {
    match contents {
        Ok(c) => Ok(c),
        Err(e) => Err("Error reading file: "@ + e),
    }
}

impl ReadTool {
    /// The dispatch name of the read tool.
    pub fn name(&self) -> (r: &'static str)
        ensures
            r@ == "Read"@,
    {
        "Read"
    }

    /// The read tool's definition, as advertised to the model.
    pub fn definition(&self) -> (d: ToolDefinition)
        ensures
            d@ == read_definition_spec(),
    {
        let d = ToolDefinition {
            name: String::from_str("Read"),
            description: String::from_str("Read and return the contents of a file"),
            required: vec![String::from_str("file_path")],
            parameters: vec![
                ToolParam {
                    name: String::from_str("file_path"),
                    description: String::from_str("The path to the file to read"),
                },
            ],
        };
        proof {
            assert(d@.required =~= read_definition_spec().required);
            assert(d@.parameters =~= read_definition_spec().parameters);
        }
        d
    }

    /// Plans one read from the tool call's decoded arguments.
    pub fn plan(&self, tool_args: &ToolArgs) -> (r: Result<ToolAction, String>)
        ensures
            action_result_view(r) == read_plan_spec(tool_args@),
    {
        match tool_args.get_str("file_path") {
            Some(p) => Ok(ToolAction::ReadFile { file_path: p.clone() }),
            None => Err(String::from_str("Read called without file_path")),
        }
    }

    /// Renders the host's read outcome as the tool's textual result.
    pub fn finish(&self, contents: Result<String, String>) -> (r: Result<String, String>)
        ensures
            str_result_view(r) == read_finish_spec(
                match contents {
                    Ok(c) => Ok(c@),
                    Err(e) => Err(e@),
                },
            ),
    {
        match contents {
            Ok(c) => Ok(c),
            Err(e) => {
                let mut m = String::from_str("Error reading file: ");
                m.append(e.as_str());
                Err(m)
            },
        }
    }
}

} // verus!
