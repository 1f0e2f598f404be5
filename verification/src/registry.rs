//! The tool registry: a fixed, ordered collection of tools, advertised
//! collectively to the model on every request and queried by name to
//! dispatch one tool call.

use vstd::prelude::*;
use crate::args::ToolArgs;
use crate::bash::BashTool;
use crate::bash::bash_definition_spec;
use crate::bash::bash_plan_spec;
use crate::defs::ToolAction;
use crate::defs::ToolActionV;
use crate::defs::ToolDefinition;
use crate::defs::ToolDefinitionV;
use crate::defs::action_result_view;
use crate::read::ReadTool;
use crate::read::read_definition_spec;
use crate::read::read_plan_spec;
use crate::text::str_eq;
use crate::write::WriteTool;
use crate::write::write_definition_spec;
use crate::write::write_plan_spec;

verus! {

/// A registered capability: one of the tools this library ships. Dispatch is
/// by the tool's declared name.
pub enum Tool {
    Read(ReadTool),
    Write(WriteTool),
    Bash(BashTool),
}

/// The dispatch name a tool declares.
pub open spec fn tool_name_spec(t: Tool) -> Seq<char> {
    match t {
        Tool::Read(_) => "Read"@,
        Tool::Write(_) => "Write"@,
        Tool::Bash(_) => "Bash"@,
    }
}

/// The definition a tool advertises.
pub open spec fn tool_definition_spec(t: Tool) -> ToolDefinitionV {
    match t {
        Tool::Read(_) => read_definition_spec(),
        Tool::Write(_) => write_definition_spec(),
        Tool::Bash(_) => bash_definition_spec(),
    }
}

/// The action a tool plans from decoded arguments, or its error text.
pub open spec fn tool_plan_spec(t: Tool, fields: Seq<(Seq<char>, Option<Seq<char>>)>) -> Result<
    ToolActionV,
    Seq<char>,
> {
    match t {
        Tool::Read(_) => read_plan_spec(fields),
        Tool::Write(_) => write_plan_spec(fields),
        Tool::Bash(_) => bash_plan_spec(fields),
    }
}

impl Tool {
    /// The tool's dispatch name; it matches the name in its definition.
    pub fn name(&self) -> (r: &'static str)
        ensures
            r@ == tool_name_spec(*self),
    {
        match self {
            Tool::Read(t) => t.name(),
            Tool::Write(t) => t.name(),
            Tool::Bash(t) => t.name(),
        }
    }

    /// The tool's definition, as advertised to the model.
    pub fn definition(&self) -> (d: ToolDefinition)
        ensures
            d@ == tool_definition_spec(*self),
    {
        match self {
            Tool::Read(t) => t.definition(),
            Tool::Write(t) => t.definition(),
            Tool::Bash(t) => t.definition(),
        }
    }

    /// Plans the tool's action from the call's decoded arguments.
    pub fn plan(&self, tool_args: &ToolArgs) -> (r: Result<ToolAction, String>)
        ensures
            action_result_view(r) == tool_plan_spec(*self, tool_args@),
    {
        match self {
            Tool::Read(t) => t.plan(tool_args),
            Tool::Write(t) => t.plan(tool_args),
            Tool::Bash(t) => t.plan(tool_args),
        }
    }
}

/// The first registered tool carrying the requested name.
pub open spec fn find_tool_spec(tools: Seq<Tool>, name: Seq<char>) -> Option<Tool>
    decreases tools.len(),
{
    if tools.len() == 0 {
        None
    } else if tool_name_spec(tools[0]) == name {
        Some(tools[0])
    } else {
        find_tool_spec(tools.drop_first(), name)
    }
}

/// What dispatching a named invocation yields: the matching tool's plan, or
/// an unknown-tool error naming the requested tool.
pub open spec fn dispatch_spec(
    tools: Seq<Tool>,
    name: Seq<char>,
    fields: Seq<(Seq<char>, Option<Seq<char>>)>,
) -> Result<ToolActionV, Seq<char>> {
    match find_tool_spec(tools, name) {
        None => Err("Unknown tool: "@ + name),
        Some(t) => tool_plan_spec(t, fields),
    }
}

/// The fixed, ordered set of tools one orchestration run dispatches over.
pub struct ToolRegistry {
    tools: Vec<Tool>,
}

impl ToolRegistry {
    /// The registered tools, in registration order.
    pub closed spec fn tools_view(&self) -> Seq<Tool> {
        self.tools@
    }

    /// Builds a registry over the given tools; their order is kept.
    pub fn new(tools: Vec<Tool>) -> (r: Self)
        ensures
            r.tools_view() == tools@,
    {
        ToolRegistry { tools }
    }

    /// Every held tool's definition, in registration order.
    pub fn definitions(&self) -> (r: Vec<ToolDefinition>)
        ensures
            r@.map_values(|d: ToolDefinition| d@) == self.tools_view().map_values(
                |t: Tool| tool_definition_spec(t),
            ),
    {
        let mut r: Vec<ToolDefinition> = Vec::new();
        let mut i: usize = 0;
        while i < self.tools.len()
            invariant
                i <= self.tools@.len(),
                r@.map_values(|d: ToolDefinition| d@) == self.tools@.subrange(
                    0,
                    i as int,
                ).map_values(|t: Tool| tool_definition_spec(t)),
            decreases self.tools@.len() - i,
        {
            let ghost old_views = r@.map_values(|d: ToolDefinition| d@);
            let d = self.tools[i].definition();
            r.push(d);
            proof {
                assert(r@.map_values(|d: ToolDefinition| d@) =~= old_views.push(
                    tool_definition_spec(self.tools@[i as int]),
                ));
                assert(r@.map_values(|d: ToolDefinition| d@) =~= self.tools@.subrange(
                    0,
                    i + 1 as int,
                ).map_values(|t: Tool| tool_definition_spec(t)));
            }
            i += 1;
        }
        proof {
            assert(self.tools@.subrange(0, self.tools@.len() as int) =~= self.tools@);
        }
        r
    }

    /// Dispatches a named invocation: a linear scan for the first tool whose
    /// name matches, which then plans the action; an unknown name fails.
    pub fn execute(&self, name: &str, tool_args: &ToolArgs) -> (r: Result<ToolAction, String>)
        ensures
            action_result_view(r) == dispatch_spec(self.tools_view(), name@, tool_args@),
    {
        let mut i: usize = 0;
        proof {
            assert(self.tools@.skip(0) =~= self.tools@);
        }
        while i < self.tools.len()
            invariant
                i <= self.tools@.len(),
                find_tool_spec(self.tools@, name@) == find_tool_spec(
                    self.tools@.skip(i as int),
                    name@,
                ),
            decreases self.tools@.len() - i,
        {
            proof {
                assert(self.tools@.skip(i as int)[0] == self.tools@[i as int]);
                assert(self.tools@.skip(i as int).drop_first() =~= self.tools@.skip(i + 1 as int));
            }
            let t = &self.tools[i];
            if str_eq(t.name(), name) {
                return t.plan(tool_args);
            }
            i += 1;
        }
        proof {
            assert(self.tools@.skip(self.tools@.len() as int) =~= Seq::<Tool>::empty());
        }
        let mut m = String::from_str("Unknown tool: ");
        m.append(name);
        Err(m)
    }
}

} // verus!
