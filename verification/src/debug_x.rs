//! The textual tracer: a log target (console out, console err, or a dated
//! file), the trace writes it produces, and a model of what a sink holds
//! after a sequence of writes.
//!
//! The tracer itself never performs I/O: each call returns a [`TraceOp`]
//! naming the single write the host must perform, with the exact text.  The
//! sink model below pins down what any sink holds after those writes are
//! applied in call order.

use crate::text::{dec_str, push_decimal};
use vstd::prelude::*;
use vstd::string::StringExecFns;

verus! {

/// One write a trace sink must perform, with the exact text.
///
/// `CreateLogFile` stands for creating the dated log file anew (creating its
/// directory first if absent); `AppendLogFile` for reopening that file in
/// append mode and writing the text; the console variants for writing the
/// text to the standard output or error stream.
#[derive(Clone, Debug, PartialEq, Eq)]
pub enum TraceOp {
    WriteOut(String),
    WriteErr(String),
    CreateLogFile(u64),
    AppendLogFile(u64, String),
}

/// The text a console sink receives for one trace message: a constant
/// four-character prefix, the message, and a newline.
pub open spec fn console_line(message: Seq<char>) -> Seq<char> {
    "-x- "@ + message + "\n"@
}

/// The text appended to the dated log file for one trace message: the
/// message terminated by a single newline.
pub open spec fn file_line(message: Seq<char>) -> Seq<char> {
    message + "\n"@
}

/// Where trace text is written: console out, console err, or a dated log
/// file identified by the seconds-resolution timestamp captured when the
/// tracer was configured.
#[derive(Copy, Clone, Debug, PartialEq, Eq, Structural)]
pub enum HereticDebuggerLogTarget {
    StdErr,
    StdOut,
    LogDir(u64),
}

impl Default for HereticDebuggerLogTarget {
    fn default() -> (r: Self)
        ensures
            r is StdOut,
    {
        HereticDebuggerLogTarget::StdOut
    }
}

/// The write `op` is the one trace write of `message` to `target`.
pub open spec fn is_log_op(
    op: TraceOp,
    target: HereticDebuggerLogTarget,
    message: Seq<char>,
) -> bool {
    match target {
        HereticDebuggerLogTarget::StdOut => op matches TraceOp::WriteOut(t) && t@ == console_line(
            message,
        ),
        HereticDebuggerLogTarget::StdErr => op matches TraceOp::WriteErr(t) && t@ == console_line(
            message,
        ),
        HereticDebuggerLogTarget::LogDir(id) => op matches TraceOp::AppendLogFile(i, t) && i == id
            && t@ == file_line(message),
    }
}

impl HereticDebuggerLogTarget {
    /// Builds the single write that sends one trace message to this target.
    pub fn log(&self, message: &str) -> (op: TraceOp)
        ensures
            is_log_op(op, *self, message@),
    {
        match self {
            HereticDebuggerLogTarget::StdErr => {
                let mut t = String::new();
                t.append("-x- ");
                t.append(message);
                t.append("\n");
                TraceOp::WriteErr(t)
            },
            HereticDebuggerLogTarget::StdOut => {
                let mut t = String::new();
                t.append("-x- ");
                t.append(message);
                t.append("\n");
                TraceOp::WriteOut(t)
            },
            HereticDebuggerLogTarget::LogDir(id) => {
                let mut t = String::new();
                t.append(message);
                t.append("\n");
                TraceOp::AppendLogFile(*id, t)
            },
        }
    }
}

/// The dated log file's path below the user's home directory.
pub open spec fn log_file_rel(id: nat) -> Seq<char> {
    ".local/share/heretic_nu/debug_logs/"@ + dec_str(id) + ".txt"@
}

/// Renders the dated log file's path below the user's home directory; the
/// caller joins it onto the home directory itself.
pub fn log_file(id: u64) -> (r: String)
    ensures
        r@ == log_file_rel(id as nat),
{
    let mut out = String::new();
    out.append(".local/share/heretic_nu/debug_logs/");
    push_decimal(&mut out, id);
    out.append(".txt");
    out
}

/// The textual tracer: a log target and a verbosity flag, both fixed at
/// construction.  Block and element events always trace; instruction events
/// trace only when `very_verbose` is set.
#[derive(Copy, Clone, Debug)]
pub struct HereticDebuggerX {
    pub log_target: HereticDebuggerLogTarget,
    pub very_verbose: bool,
}

impl Default for HereticDebuggerX {
    fn default() -> (r: Self)
        ensures
            r.log_target is StdOut,
            !r.very_verbose,
    {
        HereticDebuggerX { log_target: HereticDebuggerLogTarget::StdOut, very_verbose: false }
    }
}

impl HereticDebuggerX {
    /// Builds the single write that sends one trace message to the
    /// configured target.
    pub fn log(&self, message: &str) -> (op: TraceOp)
        ensures
            is_log_op(op, self.log_target, message@),
    {
        self.log_target.log(message)
    }

    /// Prepares the configured sink: the dated log file is created anew for
    /// a file target; console targets need no setup.
    pub fn activate(&self) -> (r: Option<TraceOp>)
        ensures
            match self.log_target {
                HereticDebuggerLogTarget::LogDir(id) => r == Some(TraceOp::CreateLogFile(id)),
                _ => r is None,
            },
    {
        match &self.log_target {
            HereticDebuggerLogTarget::LogDir(id) => Some(TraceOp::CreateLogFile(*id)),
            _ => None,
        }
    }

    /// Releases the sink.  The tracer never holds its sink open between
    /// writes, so there is nothing to release or flush.
    pub fn deactivate(&self) {
    }
}

/// The text a sink holds after the given writes are applied to it in order.
pub open spec fn sink_after(content: Seq<char>, writes: Seq<Seq<char>>) -> Seq<char>
    decreases writes.len(),
{
    if writes.len() == 0 {
        content
    } else {
        sink_after(content + writes[0], writes.skip(1))
    }
}

/// Writes reach the sink first-in first-out: after a sequence of writes the
/// sink holds its prior text followed by every written text, in write order
/// — none dropped, none reordered.
pub proof fn lemma_sink_fifo(content: Seq<char>, writes: Seq<Seq<char>>)
    ensures
        sink_after(content, writes) == content + writes.flatten(),
    decreases writes.len(),
{
    if writes.len() == 0 {
        assert(writes.flatten() == Seq::<char>::empty());
        assert(content + writes.flatten() =~= content);
    } else {
        lemma_sink_fifo(content + writes[0], writes.skip(1));
        assert(writes.drop_first() =~= writes.skip(1));
        assert((content + writes[0]) + writes.skip(1).flatten() =~= content + (writes[0]
            + writes.skip(1).flatten()));
    }
}

/// The full text the dated log file accumulates for a sequence of traced
/// messages: each message's line, in call order.
pub open spec fn file_text(messages: Seq<Seq<char>>) -> Seq<char> {
    messages.map(|_i, m: Seq<char>| file_line(m)).flatten()
}

/// The full text a console stream accumulates for a sequence of traced
/// messages: each message's prefixed line, in call order.
pub open spec fn console_text(messages: Seq<Seq<char>>) -> Seq<char> {
    messages.map(|_i, m: Seq<char>| console_line(m)).flatten()
}

/// The text a sink accumulates when every message is framed with the same
/// fixed prefix and a terminating newline.
spec fn framed_text(prefix: Seq<char>, messages: Seq<Seq<char>>) -> Seq<char> {
    messages.map(|_i, m: Seq<char>| prefix + m + "\n"@).flatten()
}

/// No message of the sequence contains a newline of its own.
pub open spec fn no_embedded_newlines(messages: Seq<Seq<char>>) -> bool {
    forall|i: int, j: int|
        0 <= i < messages.len() && 0 <= j < messages[i].len() ==> #[trigger] messages[i][j] != '\n'
}

/// Unfolds the framed text of a non-empty message sequence: the first
/// message's line followed by the text of the rest.
proof fn lemma_framed_text_first(prefix: Seq<char>, messages: Seq<Seq<char>>)
    requires
        messages.len() > 0,
    ensures
        framed_text(prefix, messages) == (prefix + messages.first() + "\n"@) + framed_text(
            prefix,
            messages.drop_first(),
        ),
        framed_text(prefix, messages).len() == prefix.len() + messages.first().len()
            + "\n"@.len() + framed_text(prefix, messages.drop_first()).len(),
{
    let mapped = messages.map(|_i, m: Seq<char>| prefix + m + "\n"@);
    assert(mapped.first() == prefix + messages.first() + "\n"@);
    assert(mapped.drop_first() =~= messages.drop_first().map(
        |_i, m: Seq<char>| prefix + m + "\n"@,
    ));
}

/// A framed sink's text determines the messages behind it, whatever the
/// fixed prefix is.
proof fn lemma_framed_text_unambiguous(
    prefix: Seq<char>,
    ms1: Seq<Seq<char>>,
    ms2: Seq<Seq<char>>,
)
    requires
        no_embedded_newlines(ms1),
        no_embedded_newlines(ms2),
        framed_text(prefix, ms1) == framed_text(prefix, ms2),
    ensures
        ms1 == ms2,
    decreases ms1.len(),
{
    reveal_strlit("\n");
    let t1 = framed_text(prefix, ms1);
    let t2 = framed_text(prefix, ms2);
    if ms1.len() == 0 {
        assert(t1.len() == 0);
        if ms2.len() > 0 {
            lemma_framed_text_first(prefix, ms2);
            assert(false);
        }
        assert(ms1 =~= ms2);
    } else if ms2.len() == 0 {
        assert(t2.len() == 0);
        lemma_framed_text_first(prefix, ms1);
        assert(false);
    } else {
        lemma_framed_text_first(prefix, ms1);
        lemma_framed_text_first(prefix, ms2);
        let a = ms1.first();
        let b = ms2.first();
        let r1 = framed_text(prefix, ms1.drop_first());
        let r2 = framed_text(prefix, ms2.drop_first());
        assert(t1 == ((prefix + a) + "\n"@) + r1);
        assert(t2 == ((prefix + b) + "\n"@) + r2);
        // The newline that closes the first line falls exactly behind the
        // first message, so both first messages have the same length.
        assert(t1[(prefix.len() + a.len()) as int] == '\n');
        assert(t2[(prefix.len() + b.len()) as int] == '\n');
        if a.len() < b.len() {
            assert(t2[(prefix.len() + a.len()) as int] == b[a.len() as int]);
            assert(false);
        }
        if b.len() < a.len() {
            assert(t1[(prefix.len() + b.len()) as int] == a[b.len() as int]);
            assert(false);
        }
        assert(a =~= b) by {
            assert forall|k: int| 0 <= k < a.len() implies a[k] == b[k] by {
                assert(t1[prefix.len() + k] == a[k]);
                assert(t2[prefix.len() + k] == b[k]);
            }
        }
        assert(r1 =~= r2) by {
            assert forall|k: int| 0 <= k < r1.len() implies r1[k] == r2[k] by {
                assert(r1[k] == t1[prefix.len() + a.len() + 1 + k]);
                assert(r2[k] == t2[prefix.len() + b.len() + 1 + k]);
            }
        }
        assert(no_embedded_newlines(ms1.drop_first())) by {
            assert forall|i: int, j: int|
                0 <= i < ms1.drop_first().len() && 0 <= j
                    < ms1.drop_first()[i].len() implies #[trigger] ms1.drop_first()[i][j]
                != '\n' by {
                assert(ms1.drop_first()[i] == ms1[i + 1]);
            }
        }
        assert(no_embedded_newlines(ms2.drop_first())) by {
            assert forall|i: int, j: int|
                0 <= i < ms2.drop_first().len() && 0 <= j
                    < ms2.drop_first()[i].len() implies #[trigger] ms2.drop_first()[i][j]
                != '\n' by {
                assert(ms2.drop_first()[i] == ms2[i + 1]);
            }
        }
        lemma_framed_text_unambiguous(prefix, ms1.drop_first(), ms2.drop_first());
        assert(ms1 =~= ms2) by {
            assert forall|k: int| 0 <= k < ms1.len() implies ms1[k] == ms2[k] by {
                if k == 0 {
                    assert(ms1[0] == a && ms2[0] == b);
                } else {
                    assert(ms1[k] == ms1.drop_first()[k - 1]);
                    assert(ms2[k] == ms2.drop_first()[k - 1]);
                }
            }
        }
    }
}

/// The log file's text determines the traced messages: two message
/// sequences without embedded newlines that leave the same file text are
/// the same sequence.  So no message can be dropped, duplicated or
/// reordered without changing the file.
pub proof fn lemma_file_text_unambiguous(ms1: Seq<Seq<char>>, ms2: Seq<Seq<char>>)
    requires
        no_embedded_newlines(ms1),
        no_embedded_newlines(ms2),
        file_text(ms1) == file_text(ms2),
    ensures
        ms1 == ms2,
{
    lemma_file_text_is_framed(ms1);
    lemma_file_text_is_framed(ms2);
    lemma_framed_text_unambiguous(Seq::empty(), ms1, ms2);
}

/// The console stream's text determines the traced messages in the same
/// way: the constant prefix frames every line alike.
pub proof fn lemma_console_text_unambiguous(ms1: Seq<Seq<char>>, ms2: Seq<Seq<char>>)
    requires
        no_embedded_newlines(ms1),
        no_embedded_newlines(ms2),
        console_text(ms1) == console_text(ms2),
    ensures
        ms1 == ms2,
{
    lemma_console_text_is_framed(ms1);
    lemma_console_text_is_framed(ms2);
    lemma_framed_text_unambiguous("-x- "@, ms1, ms2);
}

/// A file line is a framed line with the empty prefix.
proof fn lemma_file_text_is_framed(messages: Seq<Seq<char>>)
    ensures
        file_text(messages) == framed_text(Seq::empty(), messages),
{
    let lines = messages.map(|_i, m: Seq<char>| file_line(m));
    let framed = messages.map(|_i, m: Seq<char>| Seq::empty() + m + "\n"@);
    assert(lines =~= framed) by {
        assert forall|i: int| 0 <= i < messages.len() implies #[trigger] lines[i] == framed[i] by {
            assert(Seq::<char>::empty() + messages[i] =~= messages[i]);
        }
    }
}

/// A console line is a framed line with the constant console prefix.
proof fn lemma_console_text_is_framed(messages: Seq<Seq<char>>)
    ensures
        console_text(messages) == framed_text("-x- "@, messages),
{
    assert(messages.map(|_i, m: Seq<char>| console_line(m)) =~= messages.map(
        |_i, m: Seq<char>| "-x- "@ + m + "\n"@,
    ));
}

/// Appending to a sink composes: writing a second batch after a first —
/// deactivating and reopening in between — leaves exactly the writes of both
/// batches in order, with nothing truncated.
pub proof fn lemma_sink_append_composes(
    content: Seq<char>,
    first: Seq<Seq<char>>,
    second: Seq<Seq<char>>,
)
    ensures
        sink_after(sink_after(content, first), second) == sink_after(content, first + second),
    decreases first.len(),
{
    if first.len() == 0 {
        assert(first + second =~= second);
    } else {
        lemma_sink_append_composes(content + first[0], first.skip(1), second);
        assert((first + second)[0] == first[0]);
        assert((first + second).skip(1) =~= first.skip(1) + second);
    }
}

} // verus!
