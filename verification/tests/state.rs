use io_process::{Command, ExitStatus, Handle, Io, Output, State, Stdio};

#[test]
fn new_state_holds_the_command_only() {
    let state = State::new(Command::new("ls"));
    assert_eq!(state.command, Some(Command::new("ls")));
    assert!(state.status.is_none());
    assert!(state.output.is_none());
    assert!(state.stdin.is_none());
    assert!(state.stdout.is_none());
    assert!(state.stderr.is_none());
}

#[test]
fn take_command_builder_gives_the_command_once() {
    let mut command = Command::new("ls");
    command.arg("-l");
    let mut state = State::new(command.clone());
    assert_eq!(state.take_command_builder(), Some(command));
    assert_eq!(state.take_command_builder(), None);
    assert!(state.command.is_none());
}

#[test]
fn take_command_gives_the_command_once() {
    let mut command = Command::new("ls");
    command.arg("-l");
    let mut state = State::new(command.clone());
    assert_eq!(state.take_command().unwrap(), command);
    assert!(state.command.is_none());
    assert!(matches!(state.take_command(), Err(Io::UnavailableInput)));
    assert!(matches!(state.take_command(), Err(Io::UnavailableInput)));
    assert!(state.command.is_none());
}

#[test]
fn take_command_leaves_the_result_slots() {
    let mut state = State::new(Command::new("ls"));
    state.set_status(ExitStatus::from_code(1));
    state.set_stdout(Stdio::Handle(Handle::from_raw(5)));
    assert!(state.take_command().is_ok());
    assert!(state.take_command().is_err());
    assert_eq!(state.status, Some(ExitStatus { code: Some(1) }));
    assert_eq!(state.stdout, Some(Stdio::Handle(Handle { raw: 5 })));
}

#[test]
fn setters_fill_their_own_slot() {
    let mut state = State::new(Command::new("ls"));
    state.set_status(ExitStatus::from_code(3));
    assert_eq!(state.status, Some(ExitStatus { code: Some(3) }));
    assert!(state.output.is_none());
    state.set_output(Output {
        status: ExitStatus::from_code(0),
        stdout: vec![1, 2],
        stderr: vec![],
    });
    assert_eq!(state.output.as_ref().unwrap().stdout, vec![1, 2]);
    state.set_stdin(Stdio::Handle(Handle::from_raw(4)));
    state.set_stdout(Stdio::Handle(Handle::from_raw(5)));
    state.set_stderr(Stdio::Handle(Handle::from_raw(6)));
    assert_eq!(state.stdin, Some(Stdio::Handle(Handle { raw: 4 })));
    assert_eq!(state.stdout, Some(Stdio::Handle(Handle { raw: 5 })));
    assert_eq!(state.stderr, Some(Stdio::Handle(Handle { raw: 6 })));
    assert_eq!(state.command, Some(Command::new("ls")));
    assert_eq!(state.status, Some(ExitStatus { code: Some(3) }));
}

#[test]
fn set_some_with_none_keeps_the_slot() {
    let mut state = State::new(Command::new("ls"));
    state.set_some_stdin(None);
    state.set_some_stdout(None);
    state.set_some_stderr(None);
    assert!(state.stdin.is_none());
    assert!(state.stdout.is_none());
    assert!(state.stderr.is_none());
    state.set_some_stdin(Some(Stdio::Handle(Handle::from_raw(4))));
    state.set_some_stdout(Some(Stdio::Handle(Handle::from_raw(5))));
    state.set_some_stderr(Some(Stdio::Handle(Handle::from_raw(6))));
    state.set_some_stdin(None);
    state.set_some_stdout(None);
    state.set_some_stderr(None);
    assert_eq!(state.stdin, Some(Stdio::Handle(Handle { raw: 4 })));
    assert_eq!(state.stdout, Some(Stdio::Handle(Handle { raw: 5 })));
    assert_eq!(state.stderr, Some(Stdio::Handle(Handle { raw: 6 })));
}

#[test]
fn exit_status_success_is_code_zero() {
    assert!(ExitStatus::from_code(0).success());
    assert!(!ExitStatus::from_code(1).success());
    assert!(!ExitStatus::from_code(-1).success());
    assert!(!ExitStatus { code: None }.success());
    assert_eq!(ExitStatus::from_code(7).code, Some(7));
}

#[test]
fn handle_keeps_its_descriptor() {
    let handle = Handle::from_raw(42);
    assert_eq!(handle.raw, 42);
    assert_eq!(Stdio::from_handle(handle), Stdio::Handle(Handle { raw: 42 }));
    assert_eq!(Handle::from_raw(-1).into_raw(), -1);
}
