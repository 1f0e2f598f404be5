//! The shell tool: it plans a raw command line through the command safety
//! filter, asks the host to spawn each allowed segment, and renders every
//! segment's outcome — captured output, suppression notice or spawn failure —
//! into one combined report.

use vstd::prelude::*;
use crate::filter::Segment;
use crate::filter::SegmentV;
use crate::filter::plan_command;
use crate::filter::plan_views_of;
use crate::filter::segment_plan_spec;
use crate::filter::lemma_plan_views;
use crate::filter::spec_is_allowed;
use crate::args::ToolArgs;
use crate::args::lookup_str;
use crate::defs::ToolAction;
use crate::defs::ToolActionV;
use crate::defs::ToolDefinition;
use crate::defs::ToolDefinitionV;
use crate::defs::ToolParam;
use crate::defs::ToolParamV;
use crate::defs::action_result_view;

verus! {

/// The shell-command tool.
pub struct BashTool;

/// How spawning one allowed segment ended.
pub enum SpawnResult {
    /// The process ran; its captured standard output and standard error.
    Finished { stdout: String, stderr: String },
    /// The process could not be spawned; the text describes the failure.
    SpawnError { error: String },
}

/// The mathematical value of a [`SpawnResult`].
pub enum SpawnResultV {
    Finished { stdout: Seq<char>, stderr: Seq<char> },
    SpawnError { error: Seq<char> },
}

impl View for SpawnResult {
    type V = SpawnResultV;

    open spec fn view(&self) -> SpawnResultV {
        match self {
            SpawnResult::Finished { stdout, stderr } => SpawnResultV::Finished {
                stdout: stdout@,
                stderr: stderr@,
            },
            SpawnResult::SpawnError { error } => SpawnResultV::SpawnError { error: error@ },
        }
    }
}

/// The report line for a segment that ran: its command, its output, and its
/// diagnostics under a marker when there were any.
pub open spec fn executed_line(seg: Seq<char>, stdout: Seq<char>, stderr: Seq<char>) -> Seq<char> {
    "Command: '"@ + seg + "'\n"@ + stdout + (if stderr.len() > 0 {
        "\nSTDERR:\n"@ + stderr
    } else {
        Seq::empty()
    })
}

/// The report line for a segment that could not be spawned.
pub open spec fn spawn_error_line(seg: Seq<char>, error: Seq<char>) -> Seq<char> {
    "Failed to execute '"@ + seg + "': "@ + error
}

/// The report line for a segment the allow policy rejected.
pub open spec fn suppressed_line(seg: Seq<char>) -> Seq<char> {
    "Command suppressed: '"@ + seg + "'"@
}

/// The report line for an allowed segment, by how its spawn ended.
pub open spec fn spawn_line(seg: Seq<char>, sp: SpawnResultV) -> Seq<char> {
    match sp {
        SpawnResultV::Finished { stdout, stderr } => executed_line(seg, stdout, stderr),
        SpawnResultV::SpawnError { error } => spawn_error_line(seg, error),
    }
}

/// The report lines of a plan, in segment order: each allowed segment
/// consumes the next spawn result; each rejected one yields its suppression
/// notice.
pub open spec fn report_lines(segs: Seq<SegmentV>, spawns: Seq<SpawnResultV>) -> Seq<Seq<char>>
    decreases segs.len(),
{
    if segs.len() == 0 {
        Seq::empty()
    } else if segs[0].allowed {
        seq![spawn_line(segs[0].text, spawns[0])] + report_lines(
            segs.drop_first(),
            spawns.drop_first(),
        )
    } else {
        seq![suppressed_line(segs[0].text)] + report_lines(segs.drop_first(), spawns)
    }
}

/// Whether at least one allowed segment of the plan actually ran.
pub open spec fn executed_any(segs: Seq<SegmentV>, spawns: Seq<SpawnResultV>) -> bool
    decreases segs.len(),
{
    if segs.len() == 0 {
        false
    } else if segs[0].allowed {
        (spawns[0] is Finished) || executed_any(segs.drop_first(), spawns.drop_first())
    } else {
        executed_any(segs.drop_first(), spawns)
    }
}

/// How many segments of the plan the allow policy admits.
pub open spec fn allowed_count(segs: Seq<SegmentV>) -> int
    decreases segs.len(),
{
    if segs.len() == 0 {
        0
    } else {
        (if segs[0].allowed {
            1int
        } else {
            0int
        }) + allowed_count(segs.drop_first())
    }
}

/// The lines joined with `sep` between each adjacent pair.
pub open spec fn join_with(lines: Seq<Seq<char>>, sep: Seq<char>) -> Seq<char>
    decreases lines.len(),
{
    if lines.len() == 0 {
        Seq::empty()
    } else if lines.len() == 1 {
        lines[0]
    } else {
        lines[0] + sep + join_with(lines.drop_first(), sep)
    }
}

spec fn tail_join(lines: Seq<Seq<char>>, sep: Seq<char>) -> Seq<char>
    decreases lines.len(),
{
    if lines.len() == 0 {
        Seq::empty()
    } else {
        sep + lines[0] + tail_join(lines.drop_first(), sep)
    }
}

proof fn lemma_join_tail(lines: Seq<Seq<char>>, sep: Seq<char>)
    requires
        lines.len() >= 1,
    ensures
        join_with(lines, sep) == lines[0] + tail_join(lines.drop_first(), sep),
    decreases lines.len(),
{
    if lines.len() == 1 {
        assert(lines.drop_first().len() == 0);
        assert(lines[0] + Seq::<char>::empty() =~= lines[0]);
    } else {
        let rest = lines.drop_first();
        lemma_join_tail(rest, sep);
        assert(lines[0] + sep + (rest[0] + tail_join(rest.drop_first(), sep)) =~= lines[0] + (sep
            + rest[0] + tail_join(rest.drop_first(), sep)));
    }
}

/// The combined success report: the lines joined with a visible separator.
pub open spec fn report_core_spec(segs: Seq<SegmentV>, spawns: Seq<SpawnResultV>) -> Result<
    Seq<char>,
    Seq<char>,
> {
    if executed_any(segs, spawns) {
        Ok(join_with(report_lines(segs, spawns), "\n---\n"@))
    } else {
        Err("No allowed commands executed. Details:\n"@ + join_with(report_lines(segs, spawns), "\n"@))
    }
}

/// The shell tool's whole outcome for a raw command line, given the spawn
/// results of its allowed segments: success with the combined report when at
/// least one segment ran, failure carrying the same report otherwise.
pub open spec fn bash_report_spec(raw: Seq<char>, spawns: Seq<SpawnResultV>) -> Result<
    Seq<char>,
    Seq<char>,
> {
    report_core_spec(plan_views_of(raw), spawns)
}

/// The mathematical value of a tool's textual outcome.
pub open spec fn str_result_view(r: Result<String, String>) -> Result<Seq<char>, Seq<char>> {
    match r {
        Ok(s) => Ok(s@),
        Err(e) => Err(e@),
    }
}

fn line_for_spawn(seg: &Segment, sp: &SpawnResult) -> (r: String)
    ensures
        r@ == spawn_line(seg@.text, sp@),
{
    match sp {
        SpawnResult::Finished { stdout, stderr } => {
            let mut r = String::from_str("Command: '");
            r.append(seg.text.as_str());
            r.append("'\n");
            r.append(stdout.as_str());
            if stderr.as_str().unicode_len() > 0 {
                r.append("\nSTDERR:\n");
                r.append(stderr.as_str());
            } else {
                proof {
                    assert(r@ + Seq::<char>::empty() =~= r@);
                }
            }
            r
        },
        SpawnResult::SpawnError { error } => {
            let mut r = String::from_str("Failed to execute '");
            r.append(seg.text.as_str());
            r.append("': ");
            r.append(error.as_str());
            r
        },
    }
}

fn line_for_suppressed(seg: &Segment) -> (r: String)
    ensures
        r@ == suppressed_line(seg@.text),
{
    let mut r = String::from_str("Command suppressed: '");
    r.append(seg.text.as_str());
    r.append("'");
    r
}

fn join_strings(lines: &Vec<String>, sep: &str) -> (r: String)
    ensures
        r@ == join_with(lines@.map_values(|s: String| s@), sep@),
{
    let ghost views = lines@.map_values(|s: String| s@);
    if lines.len() == 0 {
        return String::new();
    }
    let mut r = lines[0].clone();
    proof {
        lemma_join_tail(views, sep@);
        assert(views[0] == lines@[0]@);
        assert(views.drop_first() =~= views.skip(1));
    }
    let mut i: usize = 1;
    while i < lines.len()
        invariant
            1 <= i <= lines@.len(),
            views == lines@.map_values(|s: String| s@),
            views.len() == lines@.len(),
            join_with(views, sep@) == r@ + tail_join(views.skip(i as int), sep@),
        decreases lines@.len() - i,
    {
        proof {
            assert(views.skip(i as int)[0] == views[i as int]);
            assert(views.skip(i as int).drop_first() =~= views.skip(i + 1 as int));
            assert(views[i as int] == lines@[i as int]@);
        }
        let ghost old_r = r@;
        r.append(sep);
        r.append(lines[i].as_str());
        proof {
            assert(old_r + (sep@ + views[i as int] + tail_join(views.skip(i + 1 as int), sep@))
                =~= r@ + tail_join(views.skip(i + 1 as int), sep@));
        }
        i += 1;
    }
    proof {
        assert(views.skip(views.len() as int) =~= Seq::<Seq<char>>::empty());
        assert(r@ + Seq::<char>::empty() =~= r@);
    }
    r
}

/// Renders the whole report for an already computed plan, given the spawn
/// results of its allowed segments, in order.
pub fn bash_report_core(plan: &Vec<Segment>, spawns: &Vec<SpawnResult>) -> (r: Result<
    String,
    String,
>)
    requires
        spawns@.len() == allowed_count(plan@.map_values(|g: Segment| g@)),
    ensures
        str_result_view(r) == report_core_spec(
            plan@.map_values(|g: Segment| g@),
            spawns@.map_values(|s: SpawnResult| s@),
        ),
{
    let ghost segs = plan@.map_values(|g: Segment| g@);
    let ghost spv = spawns@.map_values(|s: SpawnResult| s@);
    let spawn_count = spawns.len();
    let mut lines: Vec<String> = Vec::new();
    let mut any = false;
    let mut si: usize = 0;
    let mut i: usize = 0;
    proof {
        assert(segs.skip(0) =~= segs);
        assert(spv.skip(0) =~= spv);
        assert(lines@.map_values(|s: String| s@) + report_lines(segs, spv) =~= report_lines(
            segs,
            spv,
        ));
    }
    while i < plan.len()
        invariant
            i <= segs.len(),
            si <= spv.len(),
            segs == plan@.map_values(|g: Segment| g@),
            spv == spawns@.map_values(|s: SpawnResult| s@),
            segs.len() == plan@.len(),
            spv.len() == spawns@.len(),
            spawn_count == spv.len(),
            allowed_count(segs.skip(i as int)) == spv.len() - si,
            report_lines(segs, spv) == lines@.map_values(|s: String| s@) + report_lines(
                segs.skip(i as int),
                spv.skip(si as int),
            ),
            executed_any(segs, spv) == (any || executed_any(
                segs.skip(i as int),
                spv.skip(si as int),
            )),
        decreases segs.len() - i,
    {
        proof {
            assert(segs.skip(i as int)[0] == segs[i as int]);
            assert(segs.skip(i as int).drop_first() =~= segs.skip(i + 1 as int));
            assert(segs[i as int] == plan@[i as int]@);
        }
        let ghost old_lines = lines@.map_values(|s: String| s@);
        if plan[i].allowed {
            proof {
                assert(allowed_count(segs.skip(i as int)) >= 1) by {
                    lemma_allowed_count_nonneg(segs.skip(i + 1 as int));
                    assert(segs.skip(i as int).drop_first() =~= segs.skip(i + 1 as int));
                }
                assert(si < spv.len());
                assert(spv.skip(si as int)[0] == spv[si as int]);
                assert(spv.skip(si as int).drop_first() =~= spv.skip(si + 1 as int));
                assert(spv[si as int] == spawns@[si as int]@);
            }
            let line = line_for_spawn(&plan[i], &spawns[si]);
            lines.push(line);
            match &spawns[si] {
                SpawnResult::Finished { .. } => {
                    any = true;
                },
                SpawnResult::SpawnError { .. } => {
                },
            }
            si += 1;
            proof {
                assert(lines@.map_values(|s: String| s@) =~= old_lines.push(
                    spawn_line(segs[i as int].text, spv[si - 1 as int]),
                ));
                assert(old_lines + (seq![spawn_line(segs[i as int].text, spv[si - 1 as int])]
                    + report_lines(segs.skip(i + 1 as int), spv.skip(si as int)))
                    =~= lines@.map_values(|s: String| s@) + report_lines(
                    segs.skip(i + 1 as int),
                    spv.skip(si as int),
                ));
            }
        } else {
            let line = line_for_suppressed(&plan[i]);
            lines.push(line);
            proof {
                assert(lines@.map_values(|s: String| s@) =~= old_lines.push(
                    suppressed_line(segs[i as int].text),
                ));
                assert(old_lines + (seq![suppressed_line(segs[i as int].text)] + report_lines(
                    segs.skip(i + 1 as int),
                    spv.skip(si as int),
                )) =~= lines@.map_values(|s: String| s@) + report_lines(
                    segs.skip(i + 1 as int),
                    spv.skip(si as int),
                ));
            }
        }
        i += 1;
    }
    proof {
        assert(segs.skip(segs.len() as int) =~= Seq::<SegmentV>::empty());
        assert(spv.skip(spv.len() as int) =~= Seq::<SpawnResultV>::empty());
        assert(si == spv.len());
        assert(lines@.map_values(|s: String| s@) + Seq::<Seq<char>>::empty() =~= lines@.map_values(
            |s: String| s@,
        ));
        assert(report_lines(segs, spv) == lines@.map_values(|s: String| s@));
        assert(executed_any(segs, spv) == any);
    }
    if any {
        Ok(join_strings(&lines, "\n---\n"))
    } else {
        let mut msg = String::from_str("No allowed commands executed. Details:\n");
        let joined = join_strings(&lines, "\n");
        msg.append(joined.as_str());
        Err(msg)
    }
}

proof fn lemma_allowed_count_nonneg(segs: Seq<SegmentV>)
    ensures
        allowed_count(segs) >= 0,
    decreases segs.len(),
{
    if segs.len() > 0 {
        lemma_allowed_count_nonneg(segs.drop_first());
    }
}

/// The shell tool's outcome for a raw command line, given the spawn results
/// of its allowed segments, in order.
pub fn bash_report(raw: &str, spawns: &Vec<SpawnResult>) -> (r: Result<String, String>)
    requires
        spawns@.len() == allowed_count(plan_views_of(raw@)),
    ensures
        str_result_view(r) == bash_report_spec(raw@, spawns@.map_values(|s: SpawnResult| s@)),
{
    let plan = plan_command(raw);
    proof {
        lemma_plan_views(plan@.map_values(|g: Segment| g@), raw@);
    }
    bash_report_core(&plan, spawns)
}

/// The advertised capability of the shell tool.
pub open spec fn bash_definition_spec() -> ToolDefinitionV {
    ToolDefinitionV {
        name: "Bash"@,
        description: "Execute a shell command (only a small whitelist is allowed)"@,
        required: seq!["command"@],
        parameters: seq![
            ToolParamV { name: "command"@, description: "The command to execute"@ },
        ],
    }
}

/// The shell tool's planning rule: the raw command line is the `command`
/// field, or empty when that field is missing; the plan is its filtered
/// segments. Planning itself never fails.
pub open spec fn bash_plan_spec(fields: Seq<(Seq<char>, Option<Seq<char>>)>) -> Result<
    ToolActionV,
    Seq<char>,
> {
    Ok(
        ToolActionV::RunShell {
            segments: plan_views_of(
                match lookup_str(fields, "command"@) {
                    Some(c) => c,
                    None => ""@,
                },
            ),
        },
    )
}

impl BashTool {
    /// The dispatch name of the shell tool.
    pub fn name(&self) -> (r: &'static str)
        ensures
            r@ == "Bash"@,
    {
        "Bash"
    }

    /// The shell tool's definition, as advertised to the model.
    pub fn definition(&self) -> (d: ToolDefinition)
        ensures
            d@ == bash_definition_spec(),
    {
        let d = ToolDefinition {
            name: String::from_str("Bash"),
            description: String::from_str("Execute a shell command (only a small whitelist is allowed)"),
            required: vec![String::from_str("command")],
            parameters: vec![
                ToolParam {
                    name: String::from_str("command"),
                    description: String::from_str("The command to execute"),
                },
            ],
        };
        proof {
            assert(d@.required =~= bash_definition_spec().required);
            assert(d@.parameters =~= bash_definition_spec().parameters);
        }
        d
    }

    /// Plans one shell invocation from its decoded arguments.
    pub fn plan(&self, tool_args: &ToolArgs) -> (r: Result<ToolAction, String>)
        ensures
            action_result_view(r) == bash_plan_spec(tool_args@),
    {
        let cmd: &str = match tool_args.get_str("command") {
            Some(s) => s.as_str(),
            None => "",
        };
        let segments = plan_command(cmd);
        proof {
            lemma_plan_views(segments@.map_values(|g: Segment| g@), cmd@);
        }
        Ok(ToolAction::RunShell { segments })
    }
}

/// When every segment of the command line is allowed and every spawn
/// finished, no segment is suppressed — one spawn is due per segment — and
/// the shell tool reports success.
pub proof fn lemma_all_allowed_succeeds(raw: Seq<char>, spawns: Seq<SpawnResultV>)
    requires
        segment_plan_spec(raw).len() > 0,
        forall|i: int|
            0 <= i < segment_plan_spec(raw).len() ==> spec_is_allowed(
                #[trigger] segment_plan_spec(raw)[i],
            ),
        spawns.len() == segment_plan_spec(raw).len(),
        forall|i: int| 0 <= i < spawns.len() ==> (#[trigger] spawns[i]) is Finished,
    ensures
        allowed_count(plan_views_of(raw)) == segment_plan_spec(raw).len(),
        bash_report_spec(raw, spawns) is Ok,
{
    let segs = plan_views_of(raw);
    assert(forall|i: int| 0 <= i < segs.len() ==> (#[trigger] segs[i]).allowed);
    lemma_all_allowed_count(segs);
    assert(segs[0].allowed);
    assert(spawns[0] is Finished);
    assert(executed_any(segs, spawns));
}

proof fn lemma_all_allowed_count(segs: Seq<SegmentV>)
    requires
        forall|i: int| 0 <= i < segs.len() ==> (#[trigger] segs[i]).allowed,
    ensures
        allowed_count(segs) == segs.len(),
    decreases segs.len(),
{
    if segs.len() > 0 {
        let rest = segs.drop_first();
        assert(forall|i: int| 0 <= i < rest.len() ==> (#[trigger] rest[i]).allowed);
        lemma_all_allowed_count(rest);
    }
}

/// When no segment of the command line is allowed, nothing is handed to the
/// host to spawn, and the shell tool reports failure with one suppression
/// notice per segment.
pub proof fn lemma_none_allowed_fails(raw: Seq<char>)
    requires
        forall|i: int|
            0 <= i < segment_plan_spec(raw).len() ==> !spec_is_allowed(
                #[trigger] segment_plan_spec(raw)[i],
            ),
    ensures
        allowed_count(plan_views_of(raw)) == 0,
        bash_report_spec(raw, Seq::empty()) matches Err(e) && e
            == "No allowed commands executed. Details:\n"@ + join_with(
            segment_plan_spec(raw).map_values(|t: Seq<char>| suppressed_line(t)),
            "\n"@,
        ),
{
    let segs = plan_views_of(raw);
    assert(forall|i: int| 0 <= i < segs.len() ==> !(#[trigger] segs[i]).allowed);
    lemma_none_allowed_core(segs, Seq::empty());
    assert(report_lines(segs, Seq::empty()) =~= segment_plan_spec(raw).map_values(
        |t: Seq<char>| suppressed_line(t),
    ));
}

proof fn lemma_none_allowed_core(segs: Seq<SegmentV>, spawns: Seq<SpawnResultV>)
    requires
        forall|i: int| 0 <= i < segs.len() ==> !(#[trigger] segs[i]).allowed,
    ensures
        allowed_count(segs) == 0,
        !executed_any(segs, spawns),
        report_lines(segs, spawns) == segs.map_values(|g: SegmentV| suppressed_line(g.text)),
    decreases segs.len(),
{
    if segs.len() == 0 {
        assert(report_lines(segs, spawns) =~= segs.map_values(
            |g: SegmentV| suppressed_line(g.text),
        ));
    } else {
        let rest = segs.drop_first();
        assert(forall|i: int| 0 <= i < rest.len() ==> !(#[trigger] rest[i]).allowed);
        lemma_none_allowed_core(rest, spawns);
        assert(report_lines(segs, spawns) =~= segs.map_values(
            |g: SegmentV| suppressed_line(g.text),
        ));
    }
}

} // verus!
