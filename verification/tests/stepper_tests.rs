use heretic_debug::step_debug::{
    HereticStepDebugger, MAX_SOCKET_DIR_PATH_LENGTH, StepDebugError, decode_socket_dir,
    encode_socket_dir,
};

#[test]
fn encode_and_decode_round_trip() {
    let path = "/tmp/tmp.AbC123/rendezvous";
    let buf = encode_socket_dir(path).expect("short path encodes");
    assert_eq!(buf.len(), MAX_SOCKET_DIR_PATH_LENGTH);
    assert_eq!(decode_socket_dir(&buf), path);
}

#[test]
fn encode_pads_with_sentinel() {
    let buf = encode_socket_dir("ab").expect("short path encodes");
    assert_eq!(buf[0], 'a');
    assert_eq!(buf[1], 'b');
    assert!(buf[2..].iter().all(|c| *c == '\0'));
}

#[test]
fn encode_refuses_path_at_capacity() {
    // The boundary: a path of exactly the capacity is refused, not
    // truncated.
    let at_capacity: String = ['x'; 1].iter().collect::<String>().repeat(512);
    assert_eq!(at_capacity.chars().count(), MAX_SOCKET_DIR_PATH_LENGTH);
    assert!(encode_socket_dir(&at_capacity).is_none());
}

#[test]
fn encode_accepts_path_just_below_capacity() {
    let just_below = "y".repeat(511);
    let buf = encode_socket_dir(&just_below).expect("511 characters fit");
    assert_eq!(decode_socket_dir(&buf), just_below);
}

#[test]
fn encode_refuses_overlong_path() {
    let overlong = "z".repeat(600);
    assert!(encode_socket_dir(&overlong).is_none());
}

#[test]
fn activation_stores_and_returns_the_path() {
    let mut debugger = HereticStepDebugger::default();
    assert!(!debugger.is_active());
    assert_eq!(debugger.socket_dir_string(), None);
    let outcome = debugger.activate(Some(String::from("/tmp/step.sock.d")));
    assert_eq!(outcome, Ok(()));
    assert!(debugger.is_active());
    assert_eq!(
        debugger.socket_dir_string(),
        Some(String::from("/tmp/step.sock.d"))
    );
}

#[test]
fn activation_without_a_path_fails_fatally() {
    let mut debugger = HereticStepDebugger::default();
    let outcome = debugger.activate(None);
    assert_eq!(outcome, Err(StepDebugError::UiLaunchFailed));
    assert!(!debugger.is_active());
}

#[test]
fn activation_with_overlong_path_fails_fatally() {
    let mut debugger = HereticStepDebugger::default();
    let outcome = debugger.activate(Some("p".repeat(512)));
    assert_eq!(outcome, Err(StepDebugError::SocketDirTooLong));
    assert!(!debugger.is_active());
}

#[test]
fn deactivation_returns_to_inactive() {
    let mut debugger = HereticStepDebugger::default();
    debugger
        .activate(Some(String::from("/tmp/step")))
        .expect("activation succeeds");
    assert!(debugger.is_active());
    debugger.deactivate();
    assert!(!debugger.is_active());
    assert_eq!(debugger.socket_dir_string(), None);
}
