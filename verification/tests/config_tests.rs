use heretic_debug::config::{DebugCommand, DebugConfigError, parse_debug_command};
use heretic_debug::debug_x::HereticDebuggerLogTarget;

#[test]
fn mode_x_defaults_to_quiet_stdout_tracer() {
    match parse_debug_command("x", None, 17) {
        Ok(DebugCommand::Trace(t)) => {
            assert_eq!(t.log_target, HereticDebuggerLogTarget::StdOut);
            assert!(!t.very_verbose);
        }
        other => panic!("expected the tracer, got {:?}", other),
    }
}

#[test]
fn mode_xx_is_very_verbose() {
    match parse_debug_command("xx", Some("stderr"), 17) {
        Ok(DebugCommand::Trace(t)) => {
            assert_eq!(t.log_target, HereticDebuggerLogTarget::StdErr);
            assert!(t.very_verbose);
        }
        other => panic!("expected the tracer, got {:?}", other),
    }
}

#[test]
fn file_output_carries_the_timestamp() {
    match parse_debug_command("x", Some("file"), 1700000000) {
        Ok(DebugCommand::Trace(t)) => {
            assert_eq!(t.log_target, HereticDebuggerLogTarget::LogDir(1700000000));
        }
        other => panic!("expected the tracer, got {:?}", other),
    }
}

#[test]
fn explicit_stdout_output_is_accepted() {
    match parse_debug_command("xx", Some("stdout"), 3) {
        Ok(DebugCommand::Trace(t)) => {
            assert_eq!(t.log_target, HereticDebuggerLogTarget::StdOut);
            assert!(t.very_verbose);
        }
        other => panic!("expected the tracer, got {:?}", other),
    }
}

#[test]
fn unknown_output_is_a_configuration_error() {
    let outcome = parse_debug_command("x", Some("pipe"), 17);
    match outcome {
        Err(DebugConfigError::InvalidLogTarget) => {}
        other => panic!("expected the sink error, got {:?}", other),
    }
}

#[test]
fn mode_step_selects_the_step_debugger() {
    match parse_debug_command("step", None, 17) {
        Ok(DebugCommand::Step(d)) => assert!(!d.is_active()),
        other => panic!("expected the step debugger, got {:?}", other),
    }
}

#[test]
fn mode_off_uninstalls() {
    match parse_debug_command("off", None, 17) {
        Ok(DebugCommand::Off) => {}
        other => panic!("expected the uninstall command, got {:?}", other),
    }
}

#[test]
fn unknown_mode_is_a_configuration_error() {
    match parse_debug_command("verbose", None, 17) {
        Err(DebugConfigError::UnsupportedDebugMode) => {}
        other => panic!("expected the mode error, got {:?}", other),
    }
}

#[test]
fn output_is_ignored_for_off() {
    match parse_debug_command("off", Some("pipe"), 17) {
        Ok(DebugCommand::Off) => {}
        other => panic!("expected the uninstall command, got {:?}", other),
    }
}
