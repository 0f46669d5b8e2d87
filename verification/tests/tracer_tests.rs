use heretic_debug::debug_x::{
    HereticDebuggerLogTarget, HereticDebuggerX, TraceOp, log_file,
};
use heretic_debug::render::{render_span_line, render_span_null_line};

/// A simulated environment for the tracer's writes: the two console streams
/// and the dated log file, created only by an explicit create.
struct Sink {
    out: String,
    err: String,
    file: Option<(u64, String)>,
}

impl Sink {
    fn new() -> Self {
        Sink { out: String::new(), err: String::new(), file: None }
    }

    fn apply(&mut self, op: TraceOp) {
        match op {
            TraceOp::WriteOut(text) => self.out.push_str(&text),
            TraceOp::WriteErr(text) => self.err.push_str(&text),
            TraceOp::CreateLogFile(id) => self.file = Some((id, String::new())),
            TraceOp::AppendLogFile(id, text) => {
                let file = self.file.as_mut().expect("append before create");
                assert_eq!(file.0, id, "append to a different dated file");
                file.1.push_str(&text);
            }
        }
    }
}

#[test]
fn stdout_target_writes_prefixed_line() {
    let target = HereticDebuggerLogTarget::StdOut;
    let op = target.log("hello");
    assert_eq!(op, TraceOp::WriteOut(String::from("-x- hello\n")));
}

#[test]
fn stderr_target_writes_prefixed_line() {
    let target = HereticDebuggerLogTarget::StdErr;
    let op = target.log("hello");
    assert_eq!(op, TraceOp::WriteErr(String::from("-x- hello\n")));
}

#[test]
fn file_target_appends_newline_terminated_line() {
    let target = HereticDebuggerLogTarget::LogDir(7);
    let op = target.log("hello");
    assert_eq!(op, TraceOp::AppendLogFile(7, String::from("hello\n")));
}

#[test]
fn default_target_is_stdout() {
    let target = HereticDebuggerLogTarget::default();
    assert_eq!(target, HereticDebuggerLogTarget::StdOut);
}

#[test]
fn default_tracer_is_quiet_stdout() {
    let tracer = HereticDebuggerX::default();
    assert_eq!(tracer.log_target, HereticDebuggerLogTarget::StdOut);
    assert!(!tracer.very_verbose);
}

#[test]
fn activate_creates_the_dated_file_once() {
    let tracer = HereticDebuggerX {
        log_target: HereticDebuggerLogTarget::LogDir(42),
        very_verbose: false,
    };
    assert_eq!(tracer.activate(), Some(TraceOp::CreateLogFile(42)));
    let console = HereticDebuggerX {
        log_target: HereticDebuggerLogTarget::StdOut,
        very_verbose: false,
    };
    assert_eq!(console.activate(), None);
}

#[test]
fn log_file_path_carries_the_timestamp() {
    assert_eq!(
        log_file(1234567890),
        ".local/share/heretic_nu/debug_logs/1234567890.txt"
    );
    assert_eq!(log_file(0), ".local/share/heretic_nu/debug_logs/0.txt");
}

#[test]
fn log_file_path_for_the_largest_timestamp() {
    assert_eq!(
        log_file(u64::MAX),
        ".local/share/heretic_nu/debug_logs/18446744073709551615.txt"
    );
}

#[test]
fn console_lines_appear_in_call_order() {
    // Ordering over the console sink: every message reaches the stream
    // once, in call order.
    let tracer = HereticDebuggerX {
        log_target: HereticDebuggerLogTarget::StdOut,
        very_verbose: false,
    };
    let mut sink = Sink::new();
    let messages = ["first", "second", "third", "fourth"];
    for message in messages {
        sink.apply(tracer.log(message));
    }
    assert_eq!(
        sink.out,
        "-x- first\n-x- second\n-x- third\n-x- fourth\n"
    );
    assert_eq!(sink.err, "");
    assert!(sink.file.is_none());
}

#[test]
fn file_lines_appear_in_call_order() {
    let tracer = HereticDebuggerX {
        log_target: HereticDebuggerLogTarget::LogDir(5),
        very_verbose: false,
    };
    let mut sink = Sink::new();
    if let Some(op) = tracer.activate() {
        sink.apply(op);
    }
    for message in ["one", "two", "three"] {
        sink.apply(tracer.log(message));
    }
    assert_eq!(sink.file, Some((5, String::from("one\ntwo\nthree\n"))));
}

#[test]
fn file_appends_survive_deactivation() {
    // Writing further lines after deactivating reopens the file in append
    // mode: nothing already written is truncated.
    let tracer = HereticDebuggerX {
        log_target: HereticDebuggerLogTarget::LogDir(9),
        very_verbose: false,
    };
    let mut sink = Sink::new();
    if let Some(op) = tracer.activate() {
        sink.apply(op);
    }
    sink.apply(tracer.log("a"));
    sink.apply(tracer.log("b"));
    tracer.deactivate();
    sink.apply(tracer.log("c"));
    sink.apply(tracer.log("d"));
    assert_eq!(sink.file, Some((9, String::from("a\nb\nc\nd\n"))));
}

#[test]
fn file_scenario_two_block_events() {
    // A file-target, non-verbose logger traces entering and leaving one
    // block whose span is [0, 5) over the source "print 1": the log file
    // ends up holding exactly those two lines, in order.
    let tracer = HereticDebuggerX {
        log_target: HereticDebuggerLogTarget::LogDir(1),
        very_verbose: false,
    };
    let mut sink = Sink::new();
    if let Some(op) = tracer.activate() {
        sink.apply(op);
    }
    let enter = render_span_line("enter block", 0, 5, "print 1");
    sink.apply(tracer.log(&enter));
    let leave = render_span_line("leave block", 0, 5, "print 1");
    sink.apply(tracer.log(&leave));
    tracer.deactivate();
    let contents = sink.file.expect("the dated file exists").1;
    let lines: Vec<&str> = contents.lines().collect();
    assert_eq!(
        lines,
        vec![
            "enter block: span=0..5, code=print 1…",
            "leave block: span=0..5, code=print 1…",
        ]
    );
}

#[test]
fn null_span_block_line() {
    let tracer = HereticDebuggerX::default();
    let line = render_span_null_line("enter block");
    let op = tracer.log(&line);
    assert_eq!(op, TraceOp::WriteOut(String::from("-x- enter block: span=null\n")));
}
