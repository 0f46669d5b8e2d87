use heretic_debug::debug_x::{HereticDebuggerLogTarget, HereticDebuggerX, TraceOp};
use heretic_debug::step_debug::HereticStepDebugger;
use nu_protocol::ast::{Block, Expr, Expression, PipelineElement};
use nu_protocol::engine::{EngineState, StateWorkingSet};
use nu_protocol::ir::{Instruction, IrBlock};
use nu_protocol::{
    PipelineData, PipelineExecutionData, RegId, ShellError, Signature, Span, Type, Value,
};
use std::sync::Arc;

/// An engine state whose file cache starts with the given source text, so
/// spans starting at offset zero address it.
fn engine_with_source(source: &str) -> EngineState {
    let mut engine_state = EngineState::new();
    let delta = {
        let mut working_set = StateWorkingSet::new(&engine_state);
        working_set.add_file("test.nu", source.as_bytes());
        working_set.render()
    };
    engine_state.merge_delta(delta).expect("merging the file succeeds");
    engine_state
}

fn block_with_span(span: Option<Span>) -> Block {
    Block {
        signature: Box::new(Signature::new("")),
        pipelines: vec![],
        captures: vec![],
        redirect_env: false,
        ir_block: None,
        span,
    }
}

fn element_with_span(span: Span) -> PipelineElement {
    PipelineElement {
        pipe: None,
        expr: Expression::new_unknown(Expr::Garbage, span, Type::Any),
        redirection: None,
    }
}

fn ir_with_two_instructions() -> IrBlock {
    IrBlock {
        instructions: vec![
            Instruction::Drain { src: RegId::new(0) },
            Instruction::Drop { src: RegId::new(1) },
        ],
        spans: vec![Span::new(0, 1), Span::new(0, 1)],
        data: Arc::from(Vec::<u8>::new().into_boxed_slice()),
        ast: vec![None, None],
        comments: vec![],
        register_count: 2,
        file_count: 0,
    }
}

#[test]
fn enter_block_renders_span_and_code() {
    let engine_state = engine_with_source("print 1");
    let tracer = HereticDebuggerX::default();
    let block = block_with_span(Some(Span::new(0, 5)));
    let op = tracer.enter_block(&engine_state, &block);
    assert_eq!(
        op,
        TraceOp::WriteOut(String::from("-x- enter block: span=0..5, code=print…\n"))
    );
}

#[test]
fn leave_block_without_span_renders_null() {
    let engine_state = engine_with_source("print 1");
    let tracer = HereticDebuggerX::default();
    let block = block_with_span(None);
    let op = tracer.leave_block(&engine_state, &block);
    assert_eq!(
        op,
        TraceOp::WriteOut(String::from("-x- leave block: span=null\n"))
    );
}

#[test]
fn element_events_use_the_expression_span() {
    let engine_state = engine_with_source("0123456789abcdef");
    let tracer = HereticDebuggerX {
        log_target: HereticDebuggerLogTarget::StdErr,
        very_verbose: false,
    };
    let element = element_with_span(Span::new(2, 16));
    let op = tracer.enter_element(&engine_state, &element);
    assert_eq!(
        op,
        TraceOp::WriteErr(String::from(
            "-x- enter element: span=2..16, code=23456789ab…\n"
        ))
    );
}

#[test]
fn leave_element_tells_ok_from_err() {
    let engine_state = engine_with_source("abc");
    let tracer = HereticDebuggerX::default();
    let element = element_with_span(Span::new(0, 3));
    let ok: Result<PipelineData, ShellError> = Ok(PipelineData::empty());
    let op = tracer.leave_element(&engine_state, &element, &ok);
    assert_eq!(
        op,
        TraceOp::WriteOut(String::from(
            "-x- leave element (ok): span=0..3, code=abc…\n"
        ))
    );
    let err: Result<PipelineData, ShellError> = Err(ShellError::NushellFailed {
        msg: String::from("boom"),
    });
    let op = tracer.leave_element(&engine_state, &element, &err);
    assert_eq!(
        op,
        TraceOp::WriteOut(String::from(
            "-x- leave element (err): span=0..3, code=abc…\n"
        ))
    );
}

#[test]
fn instruction_events_are_gated_by_verbosity() {
    let engine_state = engine_with_source("");
    let ir_block = ir_with_two_instructions();
    let quiet = HereticDebuggerX::default();
    assert_eq!(quiet.enter_instruction(&engine_state, &ir_block, 0, &[]), None);
    assert_eq!(
        quiet.leave_instruction(&engine_state, &ir_block, 0, &[], None),
        None
    );
    let verbose = HereticDebuggerX {
        log_target: HereticDebuggerLogTarget::StdOut,
        very_verbose: true,
    };
    let op = verbose
        .enter_instruction(&engine_state, &ir_block, 0, &[])
        .expect("verbose tracing yields a line");
    let rendered = format!(
        "{}",
        ir_block.instructions[0].display(&engine_state, &ir_block.data)
    );
    assert_eq!(
        op,
        TraceOp::WriteOut(format!(
            "-x-    enter instruction: instruction={rendered}\n"
        ))
    );
}

#[test]
fn leave_instruction_tells_ok_from_err() {
    let engine_state = engine_with_source("");
    let ir_block = ir_with_two_instructions();
    let verbose = HereticDebuggerX {
        log_target: HereticDebuggerLogTarget::LogDir(3),
        very_verbose: true,
    };
    let rendered = format!(
        "{}",
        ir_block.instructions[1].display(&engine_state, &ir_block.data)
    );
    let ok_op = verbose
        .leave_instruction(&engine_state, &ir_block, 1, &[], None)
        .expect("verbose tracing yields a line");
    assert_eq!(
        ok_op,
        TraceOp::AppendLogFile(
            3,
            format!("   leave instruction (ok): instruction={rendered}\n")
        )
    );
    let error = ShellError::NushellFailed { msg: String::from("boom") };
    let err_op = verbose
        .leave_instruction(&engine_state, &ir_block, 1, &[], Some(&error))
        .expect("verbose tracing yields a line");
    assert_eq!(
        err_op,
        TraceOp::AppendLogFile(
            3,
            format!("   leave instruction (err): instruction={rendered}\n")
        )
    );
}

#[test]
fn stepper_snapshot_lists_and_marks_instructions() {
    let engine_state = engine_with_source("");
    let ir_block = ir_with_two_instructions();
    let mut stepper = HereticStepDebugger::default();
    stepper
        .activate(Some(String::from("/tmp/step.d")))
        .expect("activation succeeds");
    let registers = [
        PipelineExecutionData::from(PipelineData::Value(Value::int(1, Span::new(0, 0)), None)),
        PipelineExecutionData::empty(),
    ];
    let snapshot = stepper.enter_instruction(&engine_state, &ir_block, 1, &registers);
    assert!(snapshot.contains("\x1b[1;37;45m  <=== ENV ===>  \x1b[0m\n"));
    assert!(snapshot.contains("\x1b[1;37;45m  <=== REGISTERS ===>  \x1b[0m\n"));
    assert!(snapshot.contains("\x1b[1;37;45m  <=== IR ===>  \x1b[0m\n"));
    assert!(snapshot.ends_with("press <return> to continue execution"));
    // The slot listing shows each slot's declared type.
    assert!(snapshot.contains("\x1b[32m0: int"));
    assert!(snapshot.contains("\x1b[33m1: nothing"));
    // Exactly one listing line carries the highlight, at index one.
    let marked: Vec<&str> = snapshot
        .lines()
        .filter(|line| line.starts_with("\x1b[1;31m>"))
        .collect();
    assert_eq!(marked.len(), 1);
    assert!(marked[0].starts_with("\x1b[1;31m>\x1b[33m1: "));
    let second = format!(
        "{}",
        ir_block.instructions[1].display(&engine_state, &ir_block.data)
    );
    assert!(marked[0].ends_with(second.as_str()));
}

#[test]
fn reports_answer_with_the_empty_value() {
    let engine_state = engine_with_source("");
    let tracer = HereticDebuggerX::default();
    let span = Span::new(0, 0);
    let value = tracer.report(&engine_state, span).expect("report succeeds");
    assert!(matches!(value, Value::Nothing { .. }));
    let stepper = HereticStepDebugger::default();
    let value = stepper.report(&engine_state, span).expect("report succeeds");
    assert!(matches!(value, Value::Nothing { .. }));
}
