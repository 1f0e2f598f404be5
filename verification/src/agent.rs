//! The orchestration loop, as a state machine over one prompt invocation.
//! The host sends the transcript to the model and performs tool actions; the
//! agent owns every decision: classifying each model response, dispatching
//! tool calls through the registry, appending messages, and deciding when
//! the run is over.

use vstd::prelude::*;
use crate::args::json_string_fields;
use crate::args::parse_args;
use crate::bash::allowed_count;
use crate::bash::bash_report_core;
use crate::bash::report_core_spec;
use crate::defs::ActionOutcome;
use crate::defs::ActionOutcomeV;
use crate::defs::ToolAction;
use crate::defs::ToolActionV;
use crate::defs::ToolDefinition;
use crate::read::ReadTool;
use crate::read::read_finish_spec;
use crate::registry::Tool;
use crate::registry::ToolRegistry;
use crate::registry::dispatch_spec;
use crate::registry::tool_definition_spec;
use crate::write::WriteTool;
use crate::write::write_finish_spec;

verus! {

/// The function part of a tool call request, as it came off the wire: either
/// field may be missing.
pub struct RawFunction {
    pub name: Option<String>,
    pub arguments: Option<String>,
}

/// The mathematical value of a [`RawFunction`].
pub struct RawFunctionV {
    pub name: Option<Seq<char>>,
    pub arguments: Option<Seq<char>>,
}

impl View for RawFunction {
    type V = RawFunctionV;

    open spec fn view(&self) -> RawFunctionV {
        RawFunctionV {
            name: match self.name {
                Some(s) => Some(s@),
                None => None,
            },
            arguments: match self.arguments {
                Some(s) => Some(s@),
                None => None,
            },
        }
    }
}

impl Clone for RawFunction {
    fn clone(&self) -> (r: Self)
        ensures
            r@ == self@,
    {
        RawFunction {
            name: match &self.name {
                Some(s) => Some(s.clone()),
                None => None,
            },
            arguments: match &self.arguments {
                Some(s) => Some(s.clone()),
                None => None,
            },
        }
    }
}

/// One tool call request of an assistant message, as it came off the wire.
pub struct RawToolCall {
    pub id: Option<String>,
    pub function: Option<RawFunction>,
}

/// The mathematical value of a [`RawToolCall`].
pub struct RawToolCallV {
    pub id: Option<Seq<char>>,
    pub function: Option<RawFunctionV>,
}

impl View for RawToolCall {
    type V = RawToolCallV;

    open spec fn view(&self) -> RawToolCallV {
        RawToolCallV {
            id: match self.id {
                Some(s) => Some(s@),
                None => None,
            },
            function: match self.function {
                Some(f) => Some(f@),
                None => None,
            },
        }
    }
}

impl Clone for RawToolCall {
    fn clone(&self) -> (r: Self)
        ensures
            r@ == self@,
    {
        RawToolCall {
            id: match &self.id {
                Some(s) => Some(s.clone()),
                None => None,
            },
            function: match &self.function {
                Some(f) => Some(f.clone()),
                None => None,
            },
        }
    }
}

/// One model-authored message, as it came off the wire: free text, a list of
/// tool call requests, both, or neither.
pub struct RawMessage {
    pub content: Option<String>,
    pub tool_calls: Option<Vec<RawToolCall>>,
}

/// The mathematical value of a [`RawMessage`].
pub struct RawMessageV {
    pub content: Option<Seq<char>>,
    pub tool_calls: Option<Seq<RawToolCallV>>,
}

impl View for RawMessage {
    type V = RawMessageV;

    open spec fn view(&self) -> RawMessageV {
        RawMessageV {
            content: match self.content {
                Some(s) => Some(s@),
                None => None,
            },
            tool_calls: match self.tool_calls {
                Some(cs) => Some(cs@.map_values(|c: RawToolCall| c@)),
                None => None,
            },
        }
    }
}

/// One choice of a model response.
pub struct Choice {
    pub message: Option<RawMessage>,
}

/// The mathematical value of a [`Choice`].
pub struct ChoiceV {
    pub message: Option<RawMessageV>,
}

impl View for Choice {
    type V = ChoiceV;

    open spec fn view(&self) -> ChoiceV {
        ChoiceV {
            message: match &self.message {
                Some(m) => Some(m@),
                None => None,
            },
        }
    }
}

/// One model response, as handed over by the transport: the list of choices,
/// when the response carried one.
pub struct ModelResponse {
    pub choices: Option<Vec<Choice>>,
}

impl View for ModelResponse {
    type V = Option<Seq<ChoiceV>>;

    open spec fn view(&self) -> Option<Seq<ChoiceV>> {
        match self.choices {
            Some(cs) => Some(cs@.map_values(|c: Choice| c@)),
            None => None,
        }
    }
}

/// One message of the conversation transcript.
pub enum Message {
    /// The user's initiating prompt.
    User { content: String },
    /// A model-authored message, kept as it came off the wire.
    Assistant { message: RawMessage },
    /// A tool's textual result, tagged with the identifier of the request it
    /// answers.
    ToolResult { tool_call_id: String, content: String },
}

/// The mathematical value of a [`Message`].
pub enum MessageV {
    User { content: Seq<char> },
    Assistant { message: RawMessageV },
    ToolResult { tool_call_id: Seq<char>, content: Seq<char> },
}

impl View for Message {
    type V = MessageV;

    open spec fn view(&self) -> MessageV {
        match self {
            Message::User { content } => MessageV::User { content: content@ },
            Message::Assistant { message } => MessageV::Assistant { message: message@ },
            Message::ToolResult { tool_call_id, content } => MessageV::ToolResult {
                tool_call_id: tool_call_id@,
                content: content@,
            },
        }
    }
}

/// Whether the message is an assistant message that requests the tool call
/// with the given identifier.
pub open spec fn msg_requests_id(m: MessageV, id: Seq<char>) -> bool {
    m matches MessageV::Assistant { message } && message.tool_calls matches Some(calls) && exists|
        k: int,
    | 0 <= k < calls.len() && (#[trigger] calls[k]).id == Some(id)
}

/// Whether the tool result at position `i` immediately follows the assistant
/// message that requested it: some earlier message requests its identifier,
/// and only other tool results stand between the two.
pub open spec fn tool_result_justified(t: Seq<MessageV>, i: int) -> bool {
    t[i] matches MessageV::ToolResult { tool_call_id, .. } ==> exists|j: int|
        0 <= j < i && msg_requests_id(#[trigger] t[j], tool_call_id) && (forall|k: int|
            j < k < i ==> (#[trigger] t[k]) is ToolResult)
}

/// The transcript invariant: it starts with the user's prompt, every later
/// message is model-authored or a tool result, and every tool result
/// immediately follows the assistant message that requested it, behind its
/// sibling results.
pub open spec fn transcript_wf(t: Seq<MessageV>) -> bool {
    &&& t.len() >= 1
    &&& t[0] is User
    &&& forall|i: int| 1 <= i < t.len() ==> !((#[trigger] t[i]) is User)
    &&& forall|i: int| 0 <= i < t.len() ==> #[trigger] tool_result_justified(t, i)
}

/// Whether the assistant message at `j` is the live dispatch source: it
/// requests every still-queued call and the in-flight identifier, and only
/// tool results follow it in the transcript.
pub open spec fn source_at(
    t: Seq<MessageV>,
    j: int,
    pending: Seq<RawToolCallV>,
    infl: Option<Seq<char>>,
) -> bool {
    &&& t[j] matches MessageV::Assistant { message }
    &&& message.tool_calls matches Some(mcalls)
    &&& forall|k: int| 0 <= k < pending.len() ==> mcalls.contains(#[trigger] pending[k])
    &&& (infl matches Some(id) ==> exists|k: int|
        0 <= k < mcalls.len() && (#[trigger] mcalls[k]).id == Some(id))
    &&& forall|k: int| j < k < t.len() ==> (#[trigger] t[k]) is ToolResult
}

/// Whether some assistant message of the transcript is the live dispatch
/// source for the queued calls and the in-flight identifier.
pub open spec fn dispatch_source_ok(
    t: Seq<MessageV>,
    pending: Seq<RawToolCallV>,
    infl: Option<Seq<char>>,
) -> bool {
    exists|j: int| 0 <= j < t.len() && #[trigger] source_at(t, j, pending, infl)
}

proof fn lemma_wf_push(t: Seq<MessageV>, m: MessageV)
    requires
        transcript_wf(t),
        !(m is User),
        m matches MessageV::ToolResult { tool_call_id, .. } ==> exists|j: int|
            0 <= j < t.len() && msg_requests_id(#[trigger] t[j], tool_call_id) && (forall|k: int|
                j < k < t.len() ==> (#[trigger] t[k]) is ToolResult),
    ensures
        transcript_wf(t.push(m)),
{
    let t2 = t.push(m);
    assert(t2[0] == t[0]);
    assert forall|i: int| 1 <= i < t2.len() implies !((#[trigger] t2[i]) is User) by {
        if i < t.len() {
            assert(t2[i] == t[i]);
        } else {
            assert(t2[i] == m);
        }
    }
    assert forall|i: int| 0 <= i < t2.len() implies #[trigger] tool_result_justified(t2, i) by {
        assert(forall|k: int| 0 <= k < t.len() ==> #[trigger] t2[k] == t[k]);
        if i < t.len() {
            assert(t2[i] == t[i]);
            assert(tool_result_justified(t, i));
            if t[i] is ToolResult {
                let id = t[i]->ToolResult_tool_call_id;
                let j = choose|j: int|
                    0 <= j < i && msg_requests_id(#[trigger] t[j], id) && (forall|k: int|
                        j < k < i ==> (#[trigger] t[k]) is ToolResult);
                assert(msg_requests_id(t2[j], id));
                assert(forall|k: int| j < k < i ==> (#[trigger] t2[k]) is ToolResult);
            }
        } else {
            assert(t2[i] == m);
            if m is ToolResult {
                let id = m->ToolResult_tool_call_id;
                let j = choose|j: int|
                    0 <= j < t.len() && msg_requests_id(#[trigger] t[j], id) && (forall|k: int|
                        j < k < t.len() ==> (#[trigger] t[k]) is ToolResult);
                assert(msg_requests_id(t2[j], id));
                assert(forall|k: int| j < k < i ==> (#[trigger] t2[k]) is ToolResult);
            }
        }
    }
}

proof fn lemma_source_after_pop(
    t: Seq<MessageV>,
    j: int,
    pending: Seq<RawToolCallV>,
    infl2: Option<Seq<char>>,
)
    requires
        0 <= j < t.len(),
        source_at(t, j, pending, None),
        pending.len() > 0,
        infl2 matches Some(id) ==> pending[0].id == Some(id),
    ensures
        source_at(t, j, pending.drop_first(), infl2),
{
    let mcalls = t[j]->Assistant_message.tool_calls->0;
    assert forall|k: int| 0 <= k < pending.drop_first().len() implies mcalls.contains(
        #[trigger] pending.drop_first()[k],
    ) by {
        assert(pending.drop_first()[k] == pending[k + 1]);
        assert(mcalls.contains(pending[k + 1]));
    }
    if infl2 is Some {
        assert(mcalls.contains(pending[0]));
        let k = choose|k: int| 0 <= k < mcalls.len() && mcalls[k] == pending[0];
        assert(mcalls[k].id == infl2);
    }
}

proof fn lemma_source_push_result(
    t: Seq<MessageV>,
    j: int,
    pending: Seq<RawToolCallV>,
    infl: Option<Seq<char>>,
    m: MessageV,
)
    requires
        0 <= j < t.len(),
        source_at(t, j, pending, infl),
        m is ToolResult,
    ensures
        source_at(t.push(m), j, pending, infl),
{
    let t2 = t.push(m);
    assert(t2[j] == t[j]);
    assert forall|k: int| j < k < t2.len() implies (#[trigger] t2[k]) is ToolResult by {
        if k < t.len() {
            assert(t2[k] == t[k]);
        } else {
            assert(t2[k] == m);
        }
    }
}

proof fn lemma_source_requests(
    t: Seq<MessageV>,
    j: int,
    pending: Seq<RawToolCallV>,
    infl: Option<Seq<char>>,
    id: Seq<char>,
)
    requires
        0 <= j < t.len(),
        source_at(t, j, pending, infl),
        (pending.len() > 0 && pending[0].id == Some(id)) || infl == Some(id),
    ensures
        msg_requests_id(t[j], id),
        forall|k: int| j < k < t.len() ==> (#[trigger] t[k]) is ToolResult,
{
    let mcalls = t[j]->Assistant_message.tool_calls->0;
    if pending.len() > 0 && pending[0].id == Some(id) {
        assert(mcalls.contains(pending[0]));
        let k = choose|k: int| 0 <= k < mcalls.len() && mcalls[k] == pending[0];
        assert(mcalls[k].id == Some(id));
    }
}

/// How one queued tool call is handled: skipped with a diagnostic when a wire
/// field is missing or its arguments do not parse; answered at once when the
/// registry or the tool fails without a side effect; or launched as an action
/// the host must perform.
pub enum CallStepV {
    Skipped { note: Seq<char> },
    Replied { id: Seq<char>, content: Seq<char> },
    Launched { id: Seq<char>, action: ToolActionV },
}

/// The dispatch rule for one tool call request, over the registered tools.
pub open spec fn call_step_spec(c: RawToolCallV, tools: Seq<Tool>) -> CallStepV {
    match c.id {
        None => CallStepV::Skipped { note: "tool_call missing 'id'"@ },
        Some(id) => match c.function {
            None => CallStepV::Skipped { note: "tool_call missing 'function' object"@ },
            Some(f) => match f.name {
                None => CallStepV::Skipped { note: "function object missing 'name'"@ },
                Some(name) => match f.arguments {
                    None => CallStepV::Skipped {
                        note: "function object missing 'arguments' string"@,
                    },
                    Some(raw) => match json_string_fields(raw) {
                        None => CallStepV::Skipped { note: "failed to parse tool arguments"@ },
                        Some(fields) => match dispatch_spec(tools, name, fields) {
                            Err(e) => CallStepV::Replied { id, content: e },
                            Ok(a) => CallStepV::Launched { id, action: a },
                        },
                    },
                },
            },
        },
    }
}

/// What one step of the agent did, and what the host must do next.
pub enum StepOutcome {
    /// Both queues are empty: send the transcript to the model.
    NeedModel,
    /// One queued unit was handled internally; step again.
    Handled,
    /// A tool call was dispatched: perform the action, then report back.
    Action { id: String, action: ToolAction },
    /// The run is over, with the final answer when one was produced.
    Finished { answer: Option<String> },
}

/// The mathematical value of a [`StepOutcome`].
pub enum StepOutcomeV {
    NeedModel,
    Handled,
    Action { id: Seq<char>, action: ToolActionV },
    Finished { answer: Option<Seq<char>> },
}

impl View for StepOutcome {
    type V = StepOutcomeV;

    open spec fn view(&self) -> StepOutcomeV {
        match self {
            StepOutcome::NeedModel => StepOutcomeV::NeedModel,
            StepOutcome::Handled => StepOutcomeV::Handled,
            StepOutcome::Action { id, action } => StepOutcomeV::Action {
                id: id@,
                action: action@,
            },
            StepOutcome::Finished { answer } => StepOutcomeV::Finished {
                answer: match answer {
                    Some(a) => Some(a@),
                    None => None,
                },
            },
        }
    }
}

/// One in-flight tool call: the identifier to answer, and the action the
/// host was asked to perform.
struct InFlight {
    id: String,
    action: ToolAction,
}

/// The orchestration state of one prompt invocation.
pub struct Agent {
    registry: ToolRegistry,
    transcript: Vec<Message>,
    pending_choices: Vec<Choice>,
    pending_calls: Vec<RawToolCall>,
    inflight: Option<InFlight>,
    done: bool,
    answer: Option<String>,
    diagnostics: Vec<String>,
}

impl Agent {
    /// The transcript so far.
    pub closed spec fn transcript_view(&self) -> Seq<MessageV> {
        self.transcript@.map_values(|m: Message| m@)
    }

    /// The choices of the current response not yet classified.
    pub closed spec fn pending_choices_view(&self) -> Seq<ChoiceV> {
        self.pending_choices@.map_values(|c: Choice| c@)
    }

    /// The tool calls of the current assistant message not yet dispatched.
    pub closed spec fn pending_calls_view(&self) -> Seq<RawToolCallV> {
        self.pending_calls@.map_values(|c: RawToolCall| c@)
    }

    /// The dispatched action whose outcome the agent is waiting for.
    pub closed spec fn inflight_view(&self) -> Option<(Seq<char>, ToolActionV)> {
        match self.inflight {
            Some(f) => Some((f.id@, f.action@)),
            None => None,
        }
    }

    /// Whether the run is over.
    pub closed spec fn is_done(&self) -> bool {
        self.done
    }

    /// The final answer, when one was produced.
    pub closed spec fn answer_view(&self) -> Option<Seq<char>> {
        match self.answer {
            Some(a) => Some(a@),
            None => None,
        }
    }

    /// The registered tools.
    pub closed spec fn tools_view(&self) -> Seq<Tool> {
        self.registry.tools_view()
    }

    /// The diagnostics recorded so far, for the host to log.
    pub closed spec fn diagnostics_view(&self) -> Seq<Seq<char>> {
        self.diagnostics@.map_values(|s: String| s@)
    }

    /// The in-flight tool call's identifier.
    pub closed spec fn inflight_id(&self) -> Option<Seq<char>> {
        match self.inflight {
            Some(f) => Some(f.id@),
            None => None,
        }
    }

    /// The agent invariant: the transcript is well formed, and while tool
    /// calls are queued or in flight, the last non-result message of the
    /// transcript is the assistant message that requested them all.
    pub closed spec fn wf(&self) -> bool {
        &&& transcript_wf(self.transcript_view())
        &&& ((self.pending_calls_view().len() > 0 || self.inflight is Some)
            ==> dispatch_source_ok(
            self.transcript_view(),
            self.pending_calls_view(),
            self.inflight_id(),
        ))
    }

    /// Seeds a fresh invocation: the transcript holds exactly the user's
    /// prompt, nothing is queued, and the run is not over.
    pub fn new(prompt: String, registry: ToolRegistry) -> (r: Agent)
        ensures
            r.wf(),
            r.transcript_view() == seq![MessageV::User { content: prompt@ }],
            r.pending_choices_view() == Seq::<ChoiceV>::empty(),
            r.pending_calls_view() == Seq::<RawToolCallV>::empty(),
            r.inflight_view() is None,
            !r.is_done(),
            r.answer_view() is None,
            r.tools_view() == registry.tools_view(),
            r.diagnostics_view() == Seq::<Seq<char>>::empty(),
    {
        let r = Agent {
            registry,
            transcript: vec![Message::User { content: prompt }],
            pending_choices: Vec::new(),
            pending_calls: Vec::new(),
            inflight: None,
            done: false,
            answer: None,
            diagnostics: Vec::new(),
        };
        proof {
            assert(r.transcript_view() =~= seq![MessageV::User { content: prompt@ }]);
            assert(r.pending_choices_view() =~= Seq::<ChoiceV>::empty());
            assert(r.pending_calls_view() =~= Seq::<RawToolCallV>::empty());
            assert(r.diagnostics_view() =~= Seq::<Seq<char>>::empty());
        }
        r
    }

    /// The transcript, for the host to serialize into the next request.
    pub fn transcript(&self) -> (r: &Vec<Message>)
        ensures
            r@.map_values(|m: Message| m@) == self.transcript_view(),
    {
        &self.transcript
    }

    /// Every registered tool's definition, advertised on each request.
    pub fn definitions(&self) -> (r: Vec<ToolDefinition>)
        ensures
            r@.map_values(|d: ToolDefinition| d@) == self.tools_view().map_values(
                |t: Tool| tool_definition_spec(t),
            ),
    {
        self.registry.definitions()
    }

    /// The diagnostics recorded so far, for the host to log.
    pub fn diagnostics(&self) -> (r: &Vec<String>)
        ensures
            r@.map_values(|s: String| s@) == self.diagnostics_view(),
    {
        &self.diagnostics
    }

    /// Loads one model response: a response with a non-empty choice list is
    /// queued for classification; any other ends the run cleanly with no
    /// answer and a diagnostic.
    pub fn on_response(&mut self, response: ModelResponse)
        requires
            old(self).wf(),
            !old(self).is_done(),
            old(self).inflight_view() is None,
            old(self).pending_choices_view().len() == 0,
            old(self).pending_calls_view().len() == 0,
        ensures
            final(self).wf(),
            final(self).transcript_view() == old(self).transcript_view(),
            final(self).tools_view() == old(self).tools_view(),
            final(self).inflight_view() is None,
            final(self).pending_calls_view().len() == 0,
            (match response@ {
                Some(cs) => if cs.len() > 0 {
                    &&& final(self).pending_choices_view() == cs
                    &&& !final(self).is_done()
                    &&& final(self).answer_view() == old(self).answer_view()
                    &&& final(self).diagnostics_view() == old(self).diagnostics_view()
                } else {
                    &&& final(self).is_done()
                    &&& final(self).answer_view() is None
                    &&& final(self).pending_choices_view().len() == 0
                    &&& final(self).diagnostics_view() == old(self).diagnostics_view().push(
                        "No 'choices' array in model response"@,
                    )
                },
                None => {
                    &&& final(self).is_done()
                    &&& final(self).answer_view() is None
                    &&& final(self).pending_choices_view().len() == 0
                    &&& final(self).diagnostics_view() == old(self).diagnostics_view().push(
                        "No 'choices' array in model response"@,
                    )
                },
            }),
    {
        let ghost old_diag = self.diagnostics_view();
        match response.choices {
            Some(cs) => {
                if cs.len() > 0 {
                    self.pending_choices = cs;
                } else {
                    self.done = true;
                    self.answer = None;
                    self.diagnostics.push(
                        String::from_str("No 'choices' array in model response"),
                    );
                    proof {
                        assert(self.diagnostics_view() =~= old_diag.push(
                            "No 'choices' array in model response"@,
                        ));
                    }
                }
            },
            None => {
                self.done = true;
                self.answer = None;
                self.diagnostics.push(String::from_str("No 'choices' array in model response"));
                proof {
                    assert(self.diagnostics_view() =~= old_diag.push(
                        "No 'choices' array in model response"@,
                    ));
                }
            },
        }
    }

    /// Performs one unit of orchestration work, per [`step_post`]: it hands
    /// out the next tool action, answers a failed dispatch at once, skips a
    /// malformed call, classifies the next choice, ends the run on final
    /// text, or asks for the next model response.
    pub fn step(&mut self) -> (r: StepOutcome)
        requires
            old(self).wf(),
            old(self).inflight_view() is None,
        ensures
            final(self).wf(),
            final(self).tools_view() == old(self).tools_view(),
            step_post(*old(self), *final(self), r@),
    {
        if self.done {
            let answer = match &self.answer {
                Some(a) => Some(a.clone()),
                None => None,
            };
            return StepOutcome::Finished { answer };
        }
        if self.pending_calls.len() > 0 {
            return self.step_call();
        }
        if self.pending_choices.len() > 0 {
            return self.step_choice();
        }
        StepOutcome::NeedModel
    }

    fn step_call(&mut self) -> (r: StepOutcome)
        requires
            old(self).wf(),
            old(self).inflight_view() is None,
            !old(self).is_done(),
            old(self).pending_calls_view().len() > 0,
        ensures
            final(self).wf(),
            final(self).tools_view() == old(self).tools_view(),
            step_post(*old(self), *final(self), r@),
    {
        let ghost pre = *old(self);
        let call = self.pending_calls.remove(0);
        proof {
            assert(call@ == pre.pending_calls_view()[0]);
            assert(self.pending_calls_view() =~= pre.pending_calls_view().drop_first());
            assert(pre.inflight_id() is None);
            assert(dispatch_source_ok(pre.transcript_view(), pre.pending_calls_view(), None));
            let j0 = choose|j: int|
                0 <= j < pre.transcript_view().len() && #[trigger] source_at(
                    pre.transcript_view(),
                    j,
                    pre.pending_calls_view(),
                    None,
                );
            lemma_source_after_pop(pre.transcript_view(), j0, pre.pending_calls_view(), None);
            assert(source_at(pre.transcript_view(), j0, self.pending_calls_view(), None));
        }
        let ghost old_diag = self.diagnostics_view();
        let id = match call.id {
            Some(id) => id,
            None => {
                self.diagnostics.push(String::from_str("tool_call missing 'id'"));
                proof {
                    assert(self.diagnostics_view() =~= old_diag.push("tool_call missing 'id'"@));
                }
                return StepOutcome::Handled;
            },
        };
        let function = match call.function {
            Some(f) => f,
            None => {
                self.diagnostics.push(String::from_str("tool_call missing 'function' object"));
                proof {
                    assert(self.diagnostics_view() =~= old_diag.push(
                        "tool_call missing 'function' object"@,
                    ));
                }
                return StepOutcome::Handled;
            },
        };
        let name = match function.name {
            Some(n) => n,
            None => {
                self.diagnostics.push(String::from_str("function object missing 'name'"));
                proof {
                    assert(self.diagnostics_view() =~= old_diag.push(
                        "function object missing 'name'"@,
                    ));
                }
                return StepOutcome::Handled;
            },
        };
        let raw_args = match function.arguments {
            Some(a) => a,
            None => {
                self.diagnostics.push(
                    String::from_str("function object missing 'arguments' string"),
                );
                proof {
                    assert(self.diagnostics_view() =~= old_diag.push(
                        "function object missing 'arguments' string"@,
                    ));
                }
                return StepOutcome::Handled;
            },
        };
        let parsed = match parse_args(raw_args.as_str()) {
            Some(p) => p,
            None => {
                self.diagnostics.push(String::from_str("failed to parse tool arguments"));
                proof {
                    assert(self.diagnostics_view() =~= old_diag.push(
                        "failed to parse tool arguments"@,
                    ));
                }
                return StepOutcome::Handled;
            },
        };
        match self.registry.execute(name.as_str(), &parsed) {
            Err(content) => {
                let ghost old_t = self.transcript_view();
                let ghost m = MessageV::ToolResult { tool_call_id: id@, content: content@ };
                proof {
                    let j0 = choose|j: int|
                        0 <= j < old_t.len() && #[trigger] source_at(
                            old_t,
                            j,
                            pre.pending_calls_view(),
                            None,
                        );
                    lemma_source_requests(old_t, j0, pre.pending_calls_view(), None, id@);
                    lemma_wf_push(old_t, m);
                    lemma_source_after_pop(old_t, j0, pre.pending_calls_view(), None);
                    lemma_source_push_result(old_t, j0, self.pending_calls_view(), None, m);
                }
                self.transcript.push(Message::ToolResult { tool_call_id: id, content });
                proof {
                    assert(self.transcript_view() =~= old_t.push(m));
                }
                StepOutcome::Handled
            },
            Ok(action) => {
                proof {
                    let j0 = choose|j: int|
                        0 <= j < pre.transcript_view().len() && #[trigger] source_at(
                            pre.transcript_view(),
                            j,
                            pre.pending_calls_view(),
                            None,
                        );
                    lemma_source_after_pop(
                        pre.transcript_view(),
                        j0,
                        pre.pending_calls_view(),
                        Some(id@),
                    );
                }
                let action_copy = action.clone();
                self.inflight = Some(InFlight { id: id.clone(), action });
                StepOutcome::Action { id, action: action_copy }
            },
        }
    }

    fn step_choice(&mut self) -> (r: StepOutcome)
        requires
            old(self).wf(),
            old(self).inflight_view() is None,
            !old(self).is_done(),
            old(self).pending_calls_view().len() == 0,
            old(self).pending_choices_view().len() > 0,
        ensures
            final(self).wf(),
            final(self).tools_view() == old(self).tools_view(),
            step_post(*old(self), *final(self), r@),
    {
        let ghost pre = *old(self);
        let choice = self.pending_choices.remove(0);
        proof {
            assert(choice@ == pre.pending_choices_view()[0]);
            assert(self.pending_choices_view() =~= pre.pending_choices_view().drop_first());
        }
        let ghost old_diag = self.diagnostics_view();
        let m = match choice.message {
            Some(m) => m,
            None => {
                self.diagnostics.push(String::from_str("Choice without message"));
                proof {
                    assert(self.diagnostics_view() =~= old_diag.push("Choice without message"@));
                }
                return StepOutcome::Handled;
            },
        };
        let ghost mv = m@;
        let ghost old_t = self.transcript_view();
        proof {
            lemma_wf_push(old_t, MessageV::Assistant { message: mv });
        }
        match &m.tool_calls {
            Some(calls) => {
                let queued = clone_calls(calls);
                proof {
                    assert(queued@.map_values(|c: RawToolCall| c@) == mv.tool_calls->0);
                }
                self.transcript.push(Message::Assistant { message: m });
                self.pending_calls = queued;
                proof {
                    assert(self.transcript_view() =~= old_t.push(
                        MessageV::Assistant { message: mv },
                    ));
                    let t2 = self.transcript_view();
                    let j = old_t.len() as int;
                    assert(t2[j] == MessageV::Assistant { message: mv });
                    let mcalls = mv.tool_calls->0;
                    assert forall|k: int|
                        0 <= k < self.pending_calls_view().len() implies mcalls.contains(
                        #[trigger] self.pending_calls_view()[k],
                    ) by {
                        assert(self.pending_calls_view()[k] == mcalls[k]);
                    }
                    assert(forall|k: int| j < k < t2.len() ==> (#[trigger] t2[k]) is ToolResult);
                    assert(source_at(t2, j, self.pending_calls_view(), None));
                }
                StepOutcome::Handled
            },
            None => {
                match &m.content {
                    Some(text) => {
                        let answer = text.clone();
                        self.transcript.push(Message::Assistant { message: m });
                        self.done = true;
                        self.answer = Some(answer.clone());
                        self.pending_choices = Vec::new();
                        proof {
                            assert(self.transcript_view() =~= old_t.push(
                                MessageV::Assistant { message: mv },
                            ));
                            assert(self.pending_choices_view() =~= Seq::<ChoiceV>::empty());
                        }
                        StepOutcome::Finished { answer: Some(answer) }
                    },
                    None => {
                        self.transcript.push(Message::Assistant { message: m });
                        self.diagnostics.push(
                            String::from_str("Received message without content or tool_calls"),
                        );
                        proof {
                            assert(self.transcript_view() =~= old_t.push(
                                MessageV::Assistant { message: mv },
                            ));
                            assert(self.diagnostics_view() =~= old_diag.push(
                                "Received message without content or tool_calls"@,
                            ));
                        }
                        StepOutcome::Handled
                    },
                }
            },
        }
    }

    /// Answers the in-flight tool call: the outcome's text — success or
    /// error, per the tool's finishing rule — is appended to the transcript
    /// as the tool's result message.
    pub fn on_outcome(&mut self, outcome: ActionOutcome)
        requires
            old(self).wf(),
            old(self).inflight_view() is Some,
            outcome_matches(old(self).inflight_view().unwrap().1, outcome@),
        ensures
            final(self).wf(),
            final(self).tools_view() == old(self).tools_view(),
            (final(self).transcript_view() == old(self).transcript_view().push(
                MessageV::ToolResult {
                    tool_call_id: old(self).inflight_view().unwrap().0,
                    content: finish_spec(old(self).inflight_view().unwrap().1, outcome@),
                },
            )),
            final(self).inflight_view() is None,
            final(self).pending_choices_view() == old(self).pending_choices_view(),
            final(self).pending_calls_view() == old(self).pending_calls_view(),
            final(self).is_done() == old(self).is_done(),
            final(self).answer_view() == old(self).answer_view(),
            final(self).diagnostics_view() == old(self).diagnostics_view(),
    {
        let ghost pre = *old(self);
        let fl = match self.inflight.take() {
            Some(fl) => fl,
            None => {
                proof {
                    assert(false);
                }
                return ;
            },
        };
        let content = match (fl.action, outcome) {
            (ToolAction::ReadFile { .. }, ActionOutcome::ReadDone { contents }) => {
                let tool = ReadTool;
                match tool.finish(contents) {
                    Ok(c) => c,
                    Err(e) => e,
                }
            },
            (ToolAction::WriteFile { .. }, ActionOutcome::WriteDone { outcome }) => {
                let tool = WriteTool;
                match tool.finish(outcome) {
                    Ok(c) => c,
                    Err(e) => e,
                }
            },
            (ToolAction::RunShell { segments }, ActionOutcome::ShellDone { spawns }) => {
                match bash_report_core(&segments, &spawns) {
                    Ok(c) => c,
                    Err(e) => e,
                }
            },
            _ => {
                proof {
                    assert(false);
                }
                String::new()
            },
        };
        let ghost old_t = self.transcript_view();
        let ghost m = MessageV::ToolResult { tool_call_id: fl.id@, content: content@ };
        proof {
            assert(old_t == pre.transcript_view());
            assert(dispatch_source_ok(old_t, pre.pending_calls_view(), pre.inflight_id()));
            let j0 = choose|j: int|
                0 <= j < old_t.len() && #[trigger] source_at(
                    old_t,
                    j,
                    pre.pending_calls_view(),
                    pre.inflight_id(),
                );
            lemma_source_requests(
                old_t,
                j0,
                pre.pending_calls_view(),
                pre.inflight_id(),
                fl.id@,
            );
            lemma_wf_push(old_t, m);
            assert(source_at(old_t, j0, pre.pending_calls_view(), None));
            lemma_source_push_result(old_t, j0, pre.pending_calls_view(), None, m);
        }
        self.transcript.push(Message::ToolResult { tool_call_id: fl.id, content });
        proof {
            assert(self.transcript_view() =~= old_t.push(m));
            assert(self.pending_calls_view() == pre.pending_calls_view());
        }
    }
}

fn clone_calls(v: &Vec<RawToolCall>) -> (r: Vec<RawToolCall>)
    ensures
        r@.map_values(|c: RawToolCall| c@) == v@.map_values(|c: RawToolCall| c@),
{
    let mut r: Vec<RawToolCall> = Vec::new();
    let mut i: usize = 0;
    while i < v.len()
        invariant
            i <= v@.len(),
            r@.map_values(|c: RawToolCall| c@) == v@.map_values(|c: RawToolCall| c@).subrange(
                0,
                i as int,
            ),
        decreases v@.len() - i,
    {
        let ghost old_views = r@.map_values(|c: RawToolCall| c@);
        r.push(v[i].clone());
        proof {
            assert(r@.map_values(|c: RawToolCall| c@) =~= old_views.push(v@[i as int]@));
            assert(r@.map_values(|c: RawToolCall| c@) =~= v@.map_values(
                |c: RawToolCall| c@,
            ).subrange(0, i + 1 as int));
        }
        i += 1;
    }
    proof {
        assert(v@.map_values(|c: RawToolCall| c@).subrange(0, v@.len() as int) =~= v@.map_values(
            |c: RawToolCall| c@,
        ));
    }
    r
}

/// Whether an outcome answers an action: the kinds agree, and a shell
/// outcome reports one spawn per allowed segment of the plan.
pub open spec fn outcome_matches(a: ToolActionV, o: ActionOutcomeV) -> bool {
    match (a, o) {
        (ToolActionV::ReadFile { .. }, ActionOutcomeV::ReadDone { .. }) => true,
        (ToolActionV::WriteFile { .. }, ActionOutcomeV::WriteDone { .. }) => true,
        (ToolActionV::RunShell { segments }, ActionOutcomeV::ShellDone { spawns }) => spawns.len()
            == allowed_count(segments),
        _ => false,
    }
}

/// The text a finished action feeds back into the transcript: the tool's
/// success or error text, either way handed to the model as the result.
pub open spec fn finish_spec(a: ToolActionV, o: ActionOutcomeV) -> Seq<char> {
    match (a, o) {
        (ToolActionV::ReadFile { .. }, ActionOutcomeV::ReadDone { contents }) => match read_finish_spec(
            contents,
        ) {
            Ok(c) => c,
            Err(e) => e,
        },
        (ToolActionV::WriteFile { .. }, ActionOutcomeV::WriteDone { outcome }) => match write_finish_spec(
            outcome,
        ) {
            Ok(c) => c,
            Err(e) => e,
        },
        (ToolActionV::RunShell { segments }, ActionOutcomeV::ShellDone { spawns }) => match report_core_spec(
            segments,
            spawns,
        ) {
            Ok(c) => c,
            Err(e) => e,
        },
        _ => Seq::empty(),
    }
}

/// Whether everything the agent owns is unchanged between two states.
pub open spec fn agent_same(pre: Agent, post: Agent) -> bool {
    &&& post.transcript_view() == pre.transcript_view()
    &&& post.pending_choices_view() == pre.pending_choices_view()
    &&& post.pending_calls_view() == pre.pending_calls_view()
    &&& post.inflight_view() == pre.inflight_view()
    &&& post.is_done() == pre.is_done()
    &&& post.answer_view() == pre.answer_view()
    &&& post.diagnostics_view() == pre.diagnostics_view()
}

/// The full effect of one [`Agent::step`], by which state the agent was in:
/// a finished run reports its answer and changes nothing; a queued tool call
/// is dispatched per [`call_step_spec`]; a queued choice is classified as in
/// the protocol; and empty queues ask for the next model response.
pub open spec fn step_post(pre: Agent, post: Agent, r: StepOutcomeV) -> bool {
    if pre.is_done() {
        &&& r == (StepOutcomeV::Finished { answer: pre.answer_view() })
        &&& agent_same(pre, post)
    } else if pre.pending_calls_view().len() > 0 {
        let c = pre.pending_calls_view()[0];
        &&& post.pending_choices_view() == pre.pending_choices_view()
        &&& post.pending_calls_view() == pre.pending_calls_view().drop_first()
        &&& !post.is_done()
        &&& post.answer_view() == pre.answer_view()
        &&& match call_step_spec(c, pre.tools_view()) {
            CallStepV::Skipped { note } => {
                &&& r is Handled
                &&& post.transcript_view() == pre.transcript_view()
                &&& post.inflight_view() is None
                &&& post.diagnostics_view() == pre.diagnostics_view().push(note)
            },
            CallStepV::Replied { id, content } => {
                &&& r is Handled
                &&& post.transcript_view() == pre.transcript_view().push(
                    MessageV::ToolResult { tool_call_id: id, content },
                )
                &&& post.inflight_view() is None
                &&& post.diagnostics_view() == pre.diagnostics_view()
            },
            CallStepV::Launched { id, action } => {
                &&& r == (StepOutcomeV::Action { id, action })
                &&& post.transcript_view() == pre.transcript_view()
                &&& post.inflight_view() == Some((id, action))
                &&& post.diagnostics_view() == pre.diagnostics_view()
            },
        }
    } else if pre.pending_choices_view().len() > 0 {
        let ch = pre.pending_choices_view()[0];
        &&& post.inflight_view() is None
        &&& match ch.message {
            None => {
                &&& r is Handled
                &&& post.transcript_view() == pre.transcript_view()
                &&& post.pending_choices_view() == pre.pending_choices_view().drop_first()
                &&& post.pending_calls_view().len() == 0
                &&& !post.is_done()
                &&& post.answer_view() == pre.answer_view()
                &&& post.diagnostics_view() == pre.diagnostics_view().push(
                    "Choice without message"@,
                )
            },
            Some(m) => {
                &&& post.transcript_view() == pre.transcript_view().push(
                    MessageV::Assistant { message: m },
                )
                &&& match m.tool_calls {
                    Some(calls) => {
                        &&& r is Handled
                        &&& post.pending_choices_view() == pre.pending_choices_view().drop_first()
                        &&& post.pending_calls_view() == calls
                        &&& !post.is_done()
                        &&& post.answer_view() == pre.answer_view()
                        &&& post.diagnostics_view() == pre.diagnostics_view()
                    },
                    None => match m.content {
                        Some(text) => {
                            &&& r == (StepOutcomeV::Finished { answer: Some(text) })
                            &&& post.pending_choices_view().len() == 0
                            &&& post.pending_calls_view().len() == 0
                            &&& post.is_done()
                            &&& post.answer_view() == Some(text)
                            &&& post.diagnostics_view() == pre.diagnostics_view()
                        },
                        None => {
                            &&& r is Handled
                            &&& post.pending_choices_view()
                                == pre.pending_choices_view().drop_first()
                            &&& post.pending_calls_view().len() == 0
                            &&& !post.is_done()
                            &&& post.answer_view() == pre.answer_view()
                            &&& post.diagnostics_view() == pre.diagnostics_view().push(
                                "Received message without content or tool_calls"@,
                            )
                        },
                    },
                }
            },
        }
    } else {
        &&& r is NeedModel
        &&& agent_same(pre, post)
    }
}

} // verus!
