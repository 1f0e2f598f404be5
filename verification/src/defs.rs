//! Shared data of the tool dispatch protocol: tool definitions as advertised
//! to the model, the side-effecting actions a tool asks the host to perform,
//! and the outcomes the host hands back.

use vstd::prelude::*;
use crate::filter::Segment;
use crate::filter::SegmentV;
use crate::bash::SpawnResult;
use crate::bash::SpawnResultV;

verus! {

/// One named parameter of a tool, with its human-readable description. Every
/// parameter of this protocol is a string.
pub struct ToolParam {
    pub name: String,
    pub description: String,
}

/// The mathematical value of a [`ToolParam`].
pub struct ToolParamV {
    pub name: Seq<char>,
    pub description: Seq<char>,
}

impl View for ToolParam {
    type V = ToolParamV;

    open spec fn view(&self) -> ToolParamV {
        ToolParamV { name: self.name@, description: self.description@ }
    }
}

/// A tool's advertised capability: its dispatch name, a description, the
/// names of its required parameters, and its parameter declarations.
pub struct ToolDefinition {
    pub name: String,
    pub description: String,
    pub required: Vec<String>,
    pub parameters: Vec<ToolParam>,
}

/// The mathematical value of a [`ToolDefinition`].
pub struct ToolDefinitionV {
    pub name: Seq<char>,
    pub description: Seq<char>,
    pub required: Seq<Seq<char>>,
    pub parameters: Seq<ToolParamV>,
}

impl View for ToolDefinition {
    type V = ToolDefinitionV;

    open spec fn view(&self) -> ToolDefinitionV {
        ToolDefinitionV {
            name: self.name@,
            description: self.description@,
            required: self.required@.map_values(|s: String| s@),
            parameters: self.parameters@.map_values(|p: ToolParam| p@),
        }
    }
}

/// The side effect a tool asks the host to perform. The verified code decides
/// which action is due; the host performs it and reports an [`ActionOutcome`].
pub enum ToolAction {
    /// Read the full contents of the named file.
    ReadFile { file_path: String },
    /// Replace the full contents of the named file.
    WriteFile { file_path: String, content: String },
    /// Spawn each allowed segment of the plan, in order.
    RunShell { segments: Vec<Segment> },
}

/// The mathematical value of a [`ToolAction`].
pub enum ToolActionV {
    ReadFile { file_path: Seq<char> },
    WriteFile { file_path: Seq<char>, content: Seq<char> },
    RunShell { segments: Seq<SegmentV> },
}

impl View for ToolAction {
    type V = ToolActionV;

    open spec fn view(&self) -> ToolActionV {
        match self {
            ToolAction::ReadFile { file_path } => ToolActionV::ReadFile { file_path: file_path@ },
            ToolAction::WriteFile { file_path, content } => ToolActionV::WriteFile {
                file_path: file_path@,
                content: content@,
            },
            ToolAction::RunShell { segments } => ToolActionV::RunShell {
                segments: segments@.map_values(|g: Segment| g@),
            },
        }
    }
}

fn clone_segments(v: &Vec<Segment>) -> (r: Vec<Segment>)
    ensures
        r@.map_values(|g: Segment| g@) == v@.map_values(|g: Segment| g@),
{
    let mut r: Vec<Segment> = Vec::new();
    let mut i: usize = 0;
    while i < v.len()
        invariant
            i <= v@.len(),
            r@.map_values(|g: Segment| g@) == v@.map_values(|g: Segment| g@).subrange(0, i as int),
        decreases v@.len() - i,
    {
        let ghost old_views = r@.map_values(|g: Segment| g@);
        r.push(v[i].clone());
        proof {
            assert(r@.map_values(|g: Segment| g@) =~= old_views.push(v@[i as int]@));
            assert(r@.map_values(|g: Segment| g@) =~= v@.map_values(|g: Segment| g@).subrange(
                0,
                i + 1 as int,
            ));
        }
        i += 1;
    }
    proof {
        assert(v@.map_values(|g: Segment| g@).subrange(0, v@.len() as int) =~= v@.map_values(
            |g: Segment| g@,
        ));
    }
    r
}

impl Clone for ToolAction {
    fn clone(&self) -> (r: Self)
        ensures
            r@ == self@,
    {
        match self {
            ToolAction::ReadFile { file_path } => ToolAction::ReadFile {
                file_path: file_path.clone(),
            },
            ToolAction::WriteFile { file_path, content } => ToolAction::WriteFile {
                file_path: file_path.clone(),
                content: content.clone(),
            },
            ToolAction::RunShell { segments } => ToolAction::RunShell {
                segments: clone_segments(segments),
            },
        }
    }
}

/// How the host's attempt to write a file ended.
pub enum WriteOutcome {
    /// The file was opened and the full content written.
    Written,
    /// The file could not be opened; the text describes the failure.
    OpenFailed { error: String },
    /// The file was opened but writing failed; the text describes the failure.
    WriteFailed { error: String },
}

/// The mathematical value of a [`WriteOutcome`].
pub enum WriteOutcomeV {
    Written,
    OpenFailed { error: Seq<char> },
    WriteFailed { error: Seq<char> },
}

impl View for WriteOutcome {
    type V = WriteOutcomeV;

    open spec fn view(&self) -> WriteOutcomeV {
        match self {
            WriteOutcome::Written => WriteOutcomeV::Written,
            WriteOutcome::OpenFailed { error } => WriteOutcomeV::OpenFailed { error: error@ },
            WriteOutcome::WriteFailed { error } => WriteOutcomeV::WriteFailed { error: error@ },
        }
    }
}

/// What came of a [`ToolAction`], as reported by the host.
pub enum ActionOutcome {
    /// The file's contents, or the text of the read error.
    ReadDone { contents: Result<String, String> },
    /// How the write ended.
    WriteDone { outcome: WriteOutcome },
    /// One spawn result per allowed segment of the plan, in order.
    ShellDone { spawns: Vec<SpawnResult> },
}

/// The mathematical value of an [`ActionOutcome`].
pub enum ActionOutcomeV {
    ReadDone { contents: Result<Seq<char>, Seq<char>> },
    WriteDone { outcome: WriteOutcomeV },
    ShellDone { spawns: Seq<SpawnResultV> },
}

impl View for ActionOutcome {
    type V = ActionOutcomeV;

    open spec fn view(&self) -> ActionOutcomeV {
        match self {
            ActionOutcome::ReadDone { contents } => ActionOutcomeV::ReadDone {
                contents: match contents {
                    Ok(s) => Ok(s@),
                    Err(e) => Err(e@),
                },
            },
            ActionOutcome::WriteDone { outcome } => ActionOutcomeV::WriteDone { outcome: outcome@ },
            ActionOutcome::ShellDone { spawns } => ActionOutcomeV::ShellDone {
                spawns: spawns@.map_values(|s: SpawnResult| s@),
            },
        }
    }
}

/// The mathematical value of a tool's planning result: the action to perform,
/// or the error text to hand back to the model.
pub open spec fn action_result_view(r: Result<ToolAction, String>) -> Result<
    ToolActionV,
    Seq<char>,
> {
    match r {
        Ok(a) => Ok(a@),
        Err(e) => Err(e@),
    }
}

} // verus!
