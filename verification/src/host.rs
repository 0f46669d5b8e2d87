//! The host-interpreter surface: the hook entry points fired at block,
//! element and instruction boundaries, over the host's own types.
//!
//! The host's engine state, compiled blocks and values are opaque here; a
//! handful of trusted accessors extract the plain data the hooks read (a
//! span, source bytes, an instruction's textual rendering) and everything
//! from there on is verified.  The actual writes the tracer asks for, and
//! the stepper's handshake with its UI process, are performed by the caller.

use crate::debug_x::{HereticDebuggerX, TraceOp, is_log_op};
use crate::render::{
    compose_snapshot, env_lines, instruction_line, ir_lines, joined, pair_views, register_lines,
    render_instruction_line, render_span_line, render_span_null_line, snapshot_text, span_line,
    span_null_line,
};
use crate::step_debug::HereticStepDebugger;
use vstd::prelude::*;

verus! {

#[verifier::external_type_specification]
#[verifier::external_body]
pub struct ExEngineState(nu_protocol::engine::EngineState);

#[verifier::external_type_specification]
#[verifier::external_body]
pub struct ExBlock(nu_protocol::ast::Block);

#[verifier::external_type_specification]
#[verifier::external_body]
pub struct ExPipelineElement(nu_protocol::ast::PipelineElement);

#[verifier::external_type_specification]
#[verifier::external_body]
pub struct ExIrBlock(nu_protocol::ir::IrBlock);

#[verifier::external_type_specification]
#[verifier::external_body]
pub struct ExShellError(nu_protocol::ShellError);

#[verifier::external_type_specification]
#[verifier::external_body]
pub struct ExPipelineData(nu_protocol::PipelineData);

#[verifier::external_type_specification]
#[verifier::external_body]
pub struct ExPipelineExecutionData(nu_protocol::PipelineExecutionData);

#[verifier::external_type_specification]
#[verifier::external_body]
pub struct ExValue(nu_protocol::Value);

#[verifier::external_type_specification]
pub struct ExSpan(nu_protocol::Span);

/// The message recorded when a pipeline element is left: it tells success
/// from failure by the outcome's kind alone.
pub open spec fn element_outcome_message(ok: bool) -> Seq<char> {
    if ok {
        "leave element (ok)"@
    } else {
        "leave element (err)"@
    }
}

/// The message recorded when an instruction is left: it tells whether a
/// fatal error was supplied.
pub open spec fn instruction_outcome_message(failed: bool) -> Seq<char> {
    if failed {
        "   leave instruction (err)"@
    } else {
        "   leave instruction (ok)"@
    }
}

/// The compiled block's optional origin span, as the `span` field holds it.
pub uninterp spec fn block_span_of(block: nu_protocol::ast::Block) -> Option<nu_protocol::Span>;

/// The pipeline element's span, as its expression carries it.
pub uninterp spec fn element_span_of(element: nu_protocol::ast::PipelineElement) -> nu_protocol::Span;

/// The source bytes the engine state's file cache holds for a span.
pub uninterp spec fn span_bytes(
    engine_state: nu_protocol::engine::EngineState,
    span: nu_protocol::Span,
) -> Seq<u8>;

/// Relies on the `span` field of the host's compiled block: the block's
/// optional origin span.
#[verifier::external_body]
fn block_span(block: &nu_protocol::ast::Block) -> (r: Option<nu_protocol::Span>)
    ensures
        r == block_span_of(*block),
{
    block.span
}

/// Relies on the `expr.span` field of the host's pipeline element: the span
/// of the stage's expression.
#[verifier::external_body]
fn element_span(element: &nu_protocol::ast::PipelineElement) -> (r: nu_protocol::Span)
    ensures
        r == element_span_of(*element),
{
    element.expr.span
}

/// Relies on `EngineState::get_span_contents`: the source bytes the span
/// covers, a pure lookup in the engine state's file cache; the slice is
/// empty when the span lies in no registered file.
#[verifier::external_body]
fn span_contents(
    engine_state: &nu_protocol::engine::EngineState,
    span: nu_protocol::Span,
) -> (r: Vec<u8>)
    requires
        span.start <= span.end,
    ensures
        r@ == span_bytes(*engine_state, span),
        r@.len() == span.end - span.start || r@.len() == 0,
{
    engine_state.get_span_contents(span).to_vec()
}

/// What `String::from_utf8_lossy` decodes the given bytes to.
pub uninterp spec fn lossy_decode(bytes: Seq<u8>) -> Seq<char>;

/// Relies on `String::from_utf8_lossy` from std: the decoding depends on
/// the bytes alone, and bytes that are all ASCII decode to exactly their
/// own characters.
#[verifier::external_body]
fn lossy_string(bytes: &Vec<u8>) -> (r: String)
    ensures
        r@ == lossy_decode(bytes@),
        (forall|i: int| 0 <= i < bytes@.len() ==> bytes@[i] < 128) ==> r@ == bytes@.map(
            |_i, b: u8| b as char,
        ),
{
    String::from_utf8_lossy(bytes).into_owned()
}

/// The textual rendering of each lowered instruction of a compiled block,
/// as `Instruction::display` produces it: a function of the engine state
/// and the block alone.
pub uninterp spec fn ir_listing(
    engine_state: nu_protocol::engine::EngineState,
    ir_block: nu_protocol::ir::IrBlock,
) -> Seq<Seq<char>>;

/// Relies on the `instructions` field of the host's lowered block: the
/// listing has one rendered line per lowered instruction, so its length is
/// the number of instructions.  The engine state parameter only fixes which
/// listing is meant.
#[verifier::external_body]
fn instruction_count(
    engine_state: &nu_protocol::engine::EngineState,
    ir_block: &nu_protocol::ir::IrBlock,
) -> (r: usize)
    ensures
        r == ir_listing(*engine_state, *ir_block).len(),
{
    ir_block.instructions.len()
}

/// Relies on `Instruction::display` with the block's string data: the
/// purely textual rendering of the instruction at the given position.
#[verifier::external_body]
fn instruction_text(
    engine_state: &nu_protocol::engine::EngineState,
    ir_block: &nu_protocol::ir::IrBlock,
    idx: usize,
) -> (r: String)
    requires
        idx < ir_listing(*engine_state, *ir_block).len(),
    ensures
        r@ == ir_listing(*engine_state, *ir_block)[idx as int],
{
    format!("{}", ir_block.instructions[idx].display(engine_state, &ir_block.data))
}

/// The declared type of the value a slot holds, in its standard textual
/// form: a function of the slot value alone.
pub uninterp spec fn slot_type_text(register: nu_protocol::PipelineExecutionData) -> Seq<char>;

/// Relies on `PipelineData::get_type` on the slot's body: the declared type
/// of the value the slot holds, in its standard textual form.
#[verifier::external_body]
fn register_type_text(register: &nu_protocol::PipelineExecutionData) -> (r: String)
    ensures
        r@ == slot_type_text(*register),
{
    format!("{}", register.body.get_type())
}

/// Relies on `EngineState::render_env_vars`: each visible environment
/// variable's name with its value's declared type.  The order comes from a
/// hash map walk, so nothing is assumed of it.
#[verifier::external_body]
fn env_var_entries(engine_state: &nu_protocol::engine::EngineState) -> Vec<(String, String)> {
    engine_state
        .render_env_vars()
        .iter()
        .map(|(k, v)| (k.to_string(), format!("{}", v.get_type())))
        .collect()
}

/// The empty value carrying the given span, as `Value::nothing` builds it.
pub uninterp spec fn nothing_of(span: nu_protocol::Span) -> nu_protocol::Value;

/// Relies on `Value::nothing`: the empty value carrying the given span.
#[verifier::external_body]
fn value_nothing(span: nu_protocol::Span) -> (r: nu_protocol::Value)
    ensures
        r == nothing_of(span),
{
    nu_protocol::Value::nothing(span)
}

/// The text shown for a span: its bytes decoded.  A reversed span — which
/// the host never produces — yields no text; the guard only keeps the
/// lookup total.
pub open spec fn span_code_text(
    engine_state: nu_protocol::engine::EngineState,
    span: nu_protocol::Span,
) -> Seq<char> {
    if span.start <= span.end {
        lossy_decode(span_bytes(engine_state, span))
    } else {
        Seq::empty()
    }
}

/// The trace line for a block event: the message with the block's own span
/// and the decoding of that span's source bytes, or the null form when the
/// block has no origin span.
pub open spec fn block_line_text(
    message: Seq<char>,
    engine_state: nu_protocol::engine::EngineState,
    block: nu_protocol::ast::Block,
) -> Seq<char> {
    match block_span_of(block) {
        Some(span) => span_line(
            message,
            span.start as nat,
            span.end as nat,
            span_code_text(engine_state, span),
        ),
        None => span_null_line(message),
    }
}

/// The trace line for a pipeline-element event: the message with the
/// element expression's span and the decoding of that span's source bytes.
pub open spec fn element_line_text(
    message: Seq<char>,
    engine_state: nu_protocol::engine::EngineState,
    element: nu_protocol::ast::PipelineElement,
) -> Seq<char> {
    span_line(
        message,
        element_span_of(element).start as nat,
        element_span_of(element).end as nat,
        span_code_text(engine_state, element_span_of(element)),
    )
}

/// The number of lines in a block's instruction listing — one per lowered
/// instruction.  Lets a caller check an instruction index against the
/// listing before firing the instruction hooks.
pub fn ir_listing_len(
    engine_state: &nu_protocol::engine::EngineState,
    ir_block: &nu_protocol::ir::IrBlock,
) -> (r: usize)
    ensures
        r == ir_listing(*engine_state, *ir_block).len(),
{
    instruction_count(engine_state, ir_block)
}

/// The source text a span covers, decoded for display; empty when the span
/// is reversed or covers no registered file.
fn span_code(engine_state: &nu_protocol::engine::EngineState, span: nu_protocol::Span) -> (r:
    String)
    ensures
        r@ == span_code_text(*engine_state, span),
{
    if span.start <= span.end {
        let bytes = span_contents(engine_state, span);
        lossy_string(&bytes)
    } else {
        String::new()
    }
}

impl HereticDebuggerX {
    /// Traces one block event: the message with the block's origin span and
    /// code excerpt, or the null form for a block without one.
    fn for_block(
        &self,
        engine_state: &nu_protocol::engine::EngineState,
        block: &nu_protocol::ast::Block,
        message: &str,
    ) -> (op: TraceOp)
        ensures
            is_log_op(op, self.log_target, block_line_text(message@, *engine_state, *block)),
    {
        match block_span(block) {
            Some(span) => {
                let code = span_code(engine_state, span);
                let line = render_span_line(message, span.start, span.end, code.as_str());
                self.log(line.as_str())
            },
            None => {
                let line = render_span_null_line(message);
                self.log(line.as_str())
            },
        }
    }

    /// Traces one pipeline-element event: the message with the element
    /// expression's span and code excerpt.
    fn for_element(
        &self,
        engine_state: &nu_protocol::engine::EngineState,
        pipeline_element: &nu_protocol::ast::PipelineElement,
        message: &str,
    ) -> (op: TraceOp)
        ensures
            is_log_op(
                op,
                self.log_target,
                element_line_text(message@, *engine_state, *pipeline_element),
            ),
    {
        let span = element_span(pipeline_element);
        let code = span_code(engine_state, span);
        let line = render_span_line(message, span.start, span.end, code.as_str());
        self.log(line.as_str())
    }

    /// Traces one instruction event, but only in the very verbose mode: the
    /// message with the instruction's textual rendering.
    fn for_instruction(
        &self,
        engine_state: &nu_protocol::engine::EngineState,
        ir_block: &nu_protocol::ir::IrBlock,
        instruction_index: usize,
        message: &str,
    ) -> (r: Option<TraceOp>)
        requires
            self.very_verbose ==> instruction_index < ir_listing(
                *engine_state,
                *ir_block,
            ).len(),
        ensures
            r is Some <==> self.very_verbose,
            self.very_verbose ==> is_log_op(
                r.unwrap(),
                self.log_target,
                instruction_line(
                    message@,
                    ir_listing(*engine_state, *ir_block)[instruction_index as int],
                ),
            ),
    {
        if !self.very_verbose {
            return None;
        }
        let text = instruction_text(engine_state, ir_block, instruction_index);
        let line = render_instruction_line(message, text.as_str());
        Some(self.log(line.as_str()))
    }

    /// Hook: interpretation enters a compiled block.
    pub fn enter_block(
        &self,
        engine_state: &nu_protocol::engine::EngineState,
        block: &nu_protocol::ast::Block,
    ) -> (op: TraceOp)
        ensures
            is_log_op(op, self.log_target, block_line_text("enter block"@, *engine_state, *block)),
    {
        self.for_block(engine_state, block, "enter block")
    }

    /// Hook: interpretation leaves a compiled block.
    pub fn leave_block(
        &self,
        engine_state: &nu_protocol::engine::EngineState,
        block: &nu_protocol::ast::Block,
    ) -> (op: TraceOp)
        ensures
            is_log_op(op, self.log_target, block_line_text("leave block"@, *engine_state, *block)),
    {
        self.for_block(engine_state, block, "leave block")
    }

    /// Hook: interpretation enters a pipeline element.
    pub fn enter_element(
        &self,
        engine_state: &nu_protocol::engine::EngineState,
        pipeline_element: &nu_protocol::ast::PipelineElement,
    ) -> (op: TraceOp)
        ensures
            is_log_op(
                op,
                self.log_target,
                element_line_text("enter element"@, *engine_state, *pipeline_element),
            ),
    {
        self.for_element(engine_state, pipeline_element, "enter element")
    }

    /// Hook: interpretation leaves a pipeline element.  The message records
    /// only whether the stage succeeded; the outcome itself passes through
    /// the host untouched.
    pub fn leave_element(
        &self,
        engine_state: &nu_protocol::engine::EngineState,
        element: &nu_protocol::ast::PipelineElement,
        result: &Result<nu_protocol::PipelineData, nu_protocol::ShellError>,
    ) -> (op: TraceOp)
        ensures
            is_log_op(
                op,
                self.log_target,
                element_line_text(
                    element_outcome_message(result matches Ok(_)),
                    *engine_state,
                    *element,
                ),
            ),
    {
        let message = match result {
            Ok(_) => "leave element (ok)",
            Err(_) => "leave element (err)",
        };
        proof {
            assert(message@ == element_outcome_message(result matches Ok(_)));
        }
        self.for_element(engine_state, element, message)
    }

    /// Hook: the evaluator is about to run a lowered instruction.  Silent
    /// unless the tracer is very verbose.
    pub fn enter_instruction(
        &self,
        engine_state: &nu_protocol::engine::EngineState,
        ir_block: &nu_protocol::ir::IrBlock,
        instruction_index: usize,
        _registers: &[nu_protocol::PipelineExecutionData],
    ) -> (r: Option<TraceOp>)
        requires
            self.very_verbose ==> instruction_index < ir_listing(
                *engine_state,
                *ir_block,
            ).len(),
        ensures
            r is Some <==> self.very_verbose,
            self.very_verbose ==> is_log_op(
                r.unwrap(),
                self.log_target,
                instruction_line(
                    "   enter instruction"@,
                    ir_listing(*engine_state, *ir_block)[instruction_index as int],
                ),
            ),
    {
        self.for_instruction(engine_state, ir_block, instruction_index, "   enter instruction")
    }

    /// Hook: the evaluator has run a lowered instruction.  Silent unless
    /// the tracer is very verbose; the message records only whether the
    /// instruction failed.
    pub fn leave_instruction(
        &self,
        engine_state: &nu_protocol::engine::EngineState,
        ir_block: &nu_protocol::ir::IrBlock,
        instruction_index: usize,
        _registers: &[nu_protocol::PipelineExecutionData],
        error: Option<&nu_protocol::ShellError>,
    ) -> (r: Option<TraceOp>)
        requires
            self.very_verbose ==> instruction_index < ir_listing(
                *engine_state,
                *ir_block,
            ).len(),
        ensures
            r is Some <==> self.very_verbose,
            self.very_verbose ==> is_log_op(
                r.unwrap(),
                self.log_target,
                instruction_line(
                    instruction_outcome_message(error matches Some(_)),
                    ir_listing(*engine_state, *ir_block)[instruction_index as int],
                ),
            ),
    {
        let message = match error {
            Some(_) => "   leave instruction (err)",
            None => "   leave instruction (ok)",
        };
        proof {
            assert(message@ == instruction_outcome_message(error matches Some(_)));
        }
        self.for_instruction(engine_state, ir_block, instruction_index, message)
    }

    /// Hook: the host queries the tracer for summary data.  The tracer
    /// carries none and answers with the empty value.
    pub fn report(
        &self,
        _engine_state: &nu_protocol::engine::EngineState,
        debugger_span: nu_protocol::Span,
    ) -> (r: Result<nu_protocol::Value, nu_protocol::ShellError>)
        ensures
            (r matches Ok(v) && v == nothing_of(debugger_span)),
    {
        Ok(value_nothing(debugger_span))
    }
}

impl HereticStepDebugger {
    /// Hook: the evaluator is about to run a lowered instruction.  Builds
    /// the snapshot the UI process is to display: the environment listing,
    /// the slot listing (one line per live slot), and the full instruction
    /// listing with the current instruction highlighted.  The caller
    /// transmits the snapshot over the rendezvous directory and blocks until
    /// the UI acknowledges it.
    #[verifier::loop_isolation(false)]
    pub fn enter_instruction(
        &self,
        engine_state: &nu_protocol::engine::EngineState,
        ir_block: &nu_protocol::ir::IrBlock,
        instruction_index: usize,
        registers: &[nu_protocol::PipelineExecutionData],
    ) -> (snapshot: String)
        requires
            self.active(),
            instruction_index < ir_listing(*engine_state, *ir_block).len(),
        ensures
            exists|env: Seq<(Seq<char>, Seq<char>)>|
                snapshot@ == snapshot_text(
                    joined(#[trigger] env_lines(env)),
                    joined(
                        register_lines(
                            registers@.map(
                                |_i, r: nu_protocol::PipelineExecutionData| slot_type_text(r),
                            ),
                        ),
                    ),
                    joined(
                        ir_lines(
                            ir_listing(*engine_state, *ir_block),
                            instruction_index as nat,
                        ),
                    ),
                ),
    {
        let ghost listing = ir_listing(*engine_state, *ir_block);
        let n = instruction_count(engine_state, ir_block);
        let mut ir_texts: Vec<String> = Vec::new();
        let mut i: usize = 0;
        while i < n
            invariant
                i <= n,
                ir_texts@.len() == i,
                forall|j: int| 0 <= j < i ==> ir_texts@[j]@ == listing[j],
            decreases n - i,
        {
            ir_texts.push(instruction_text(engine_state, ir_block, i));
            i = i + 1;
        }
        proof {
            assert(ir_texts.deep_view() =~= listing);
        }
        let mut reg_texts: Vec<String> = Vec::new();
        let mut k: usize = 0;
        while k < registers.len()
            invariant
                k <= registers@.len(),
                reg_texts@.len() == k,
                forall|j: int| 0 <= j < k ==> reg_texts@[j]@ == slot_type_text(registers@[j]),
            decreases registers@.len() - k,
        {
            reg_texts.push(register_type_text(&registers[k]));
            k = k + 1;
        }
        proof {
            assert(reg_texts.deep_view() =~= registers@.map(
                |_i, r: nu_protocol::PipelineExecutionData| slot_type_text(r),
            ));
        }
        let env_pairs = env_var_entries(engine_state);
        let snapshot = compose_snapshot(&env_pairs, &reg_texts, &ir_texts, instruction_index);
        proof {
            let env_w = pair_views(env_pairs@);
            assert(snapshot@ == snapshot_text(
                joined(env_lines(env_w)),
                joined(
                    register_lines(
                        registers@.map(
                            |_i, r: nu_protocol::PipelineExecutionData| slot_type_text(r),
                        ),
                    ),
                ),
                joined(ir_lines(listing, instruction_index as nat)),
            ));
        }
        snapshot
    }

    /// Hook: the evaluator has run a lowered instruction.  A reserved
    /// extension point: no transmission occurs.
    pub fn leave_instruction(
        &self,
        _engine_state: &nu_protocol::engine::EngineState,
        _ir_block: &nu_protocol::ir::IrBlock,
        _instruction_index: usize,
        _registers: &[nu_protocol::PipelineExecutionData],
        _error: Option<&nu_protocol::ShellError>,
    ) {
    }

    /// Hook: interpretation enters a compiled block.  Stepping is at
    /// instruction granularity only, so nothing happens here.
    pub fn enter_block(
        &self,
        _engine_state: &nu_protocol::engine::EngineState,
        _block: &nu_protocol::ast::Block,
    ) {
    }

    /// Hook: interpretation leaves a compiled block.  Nothing happens here.
    pub fn leave_block(
        &self,
        _engine_state: &nu_protocol::engine::EngineState,
        _block: &nu_protocol::ast::Block,
    ) {
    }

    /// Hook: interpretation enters a pipeline element.  Nothing happens
    /// here.
    pub fn enter_element(
        &self,
        _engine_state: &nu_protocol::engine::EngineState,
        _pipeline_element: &nu_protocol::ast::PipelineElement,
    ) {
    }

    /// Hook: interpretation leaves a pipeline element.  Nothing happens
    /// here; the stage's outcome passes through the host untouched.
    pub fn leave_element(
        &self,
        _engine_state: &nu_protocol::engine::EngineState,
        _element: &nu_protocol::ast::PipelineElement,
        _result: &Result<nu_protocol::PipelineData, nu_protocol::ShellError>,
    ) {
    }

    /// Hook: the host queries the stepper for summary data.  The stepper
    /// carries none and answers with the empty value.
    pub fn report(
        &self,
        _engine_state: &nu_protocol::engine::EngineState,
        debugger_span: nu_protocol::Span,
    ) -> (r: Result<nu_protocol::Value, nu_protocol::ShellError>)
        ensures
            (r matches Ok(v) && v == nothing_of(debugger_span)),
    {
        Ok(value_nothing(debugger_span))
    }
}

} // verus!
