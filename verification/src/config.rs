//! Configuration of the debugging surface: which debugger a mode string
//! selects and where the tracer sends its text.  Unrecognized selectors are
//! recoverable errors for the caller to report against the offending
//! argument; nothing here is fatal.

use crate::debug_x::{HereticDebuggerLogTarget, HereticDebuggerX};
use crate::step_debug::HereticStepDebugger;
use crate::text::str_eq;
use vstd::prelude::*;

verus! {

/// What the debug command was asked to do.
#[derive(Clone, Debug)]
pub enum DebugCommand {
    /// Install the textual tracer.
    Trace(HereticDebuggerX),
    /// Install the interactive step debugger.
    Step(HereticStepDebugger),
    /// Uninstall the active debugger.
    Off,
}

/// A configuration error: the argument names no known selector.  Reported
/// to the caller against the argument's source span; never fatal.
#[derive(Copy, Clone, Debug, PartialEq, Eq, Structural)]
pub enum DebugConfigError {
    /// The trace sink selector is none of `stdout`, `stderr`, `file`.
    InvalidLogTarget,
    /// The debug mode is none of `x`, `xx`, `step`, `off`.
    UnsupportedDebugMode,
}

/// The sink selector in force: the given one, or `stdout` by default.
pub open spec fn effective_output(output: Option<&str>) -> Seq<char> {
    match output {
        Some(o) => o@,
        None => "stdout"@,
    }
}

/// The log target a sink selector names.  `file_id` is the
/// seconds-resolution timestamp, captured by the caller, that names the
/// dated log file.
pub open spec fn target_of(output: Seq<char>, file_id: u64) -> Option<HereticDebuggerLogTarget> {
    if output == "stdout"@ {
        Some(HereticDebuggerLogTarget::StdOut)
    } else if output == "stderr"@ {
        Some(HereticDebuggerLogTarget::StdErr)
    } else if output == "file"@ {
        Some(HereticDebuggerLogTarget::LogDir(file_id))
    } else {
        None
    }
}

/// Decides what a debug mode string and an optional sink selector ask for.
///
/// The modes `x` and `xx` select the tracer, quiet and very verbose, over
/// the selected sink; `step` selects the interactive step debugger (not yet
/// activated); `off` asks for the active debugger to be uninstalled.  Any
/// other mode, and any other sink selector under `x`/`xx`, is refused with
/// the matching configuration error.
pub fn parse_debug_command(mode: &str, output: Option<&str>, file_id: u64) -> (r: Result<
    DebugCommand,
    DebugConfigError,
>)
    ensures
        (mode@ == "x"@ || mode@ == "xx"@) ==> match target_of(
            effective_output(output),
            file_id,
        ) {
            Some(target) => r matches Ok(DebugCommand::Trace(t)) && t == (HereticDebuggerX {
                log_target: target,
                very_verbose: mode@ == "xx"@,
            }),
            None => r == Err::<DebugCommand, DebugConfigError>(DebugConfigError::InvalidLogTarget),
        },
        mode@ == "step"@ ==> (r matches Ok(DebugCommand::Step(d)) && !d.active() && d.wf()),
        mode@ == "off"@ ==> r matches Ok(DebugCommand::Off),
        (mode@ != "x"@ && mode@ != "xx"@ && mode@ != "step"@ && mode@ != "off"@) ==> r == Err::<
            DebugCommand,
            DebugConfigError,
        >(DebugConfigError::UnsupportedDebugMode),
{
    proof {
        reveal_strlit("x");
        reveal_strlit("xx");
        reveal_strlit("step");
        reveal_strlit("off");
        reveal_strlit("stdout");
        reveal_strlit("stderr");
        reveal_strlit("file");
        assert("x"@.len() == 1 && "xx"@.len() == 2 && "step"@.len() == 4 && "off"@.len() == 3);
    }
    let is_x = str_eq(mode, "x");
    let is_xx = str_eq(mode, "xx");
    if is_x || is_xx {
        let out = match output {
            Some(o) => o,
            None => "stdout",
        };
        let target = if str_eq(out, "stdout") {
            HereticDebuggerLogTarget::StdOut
        } else if str_eq(out, "stderr") {
            HereticDebuggerLogTarget::StdErr
        } else if str_eq(out, "file") {
            HereticDebuggerLogTarget::LogDir(file_id)
        } else {
            return Err(DebugConfigError::InvalidLogTarget);
        };
        Ok(DebugCommand::Trace(HereticDebuggerX { log_target: target, very_verbose: is_xx }))
    } else if str_eq(mode, "step") {
        Ok(DebugCommand::Step(HereticStepDebugger::default()))
    } else if str_eq(mode, "off") {
        Ok(DebugCommand::Off)
    } else {
        Err(DebugConfigError::UnsupportedDebugMode)
    }
}

} // verus!
