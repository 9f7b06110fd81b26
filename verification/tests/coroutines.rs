use io_process::coroutines::{SpawnThenWait, SpawnThenWaitWithOutput};
use io_process::{Command, ExitStatus, Handle, Io, Output, SpawnOutput, Stdio};

fn command() -> Command {
    let mut command = Command::new("/bin/sh");
    command.arg("-c").arg("read line; echo $line").stdout(Stdio::Piped);
    command
}

fn spawn_output() -> SpawnOutput {
    SpawnOutput {
        status: ExitStatus::from_code(0),
        stdin: None,
        stdout: Some(Stdio::Handle(Handle::from_raw(5))),
        stderr: None,
    }
}

fn output() -> Output {
    Output { status: ExitStatus::from_code(1), stdout: Vec::new(), stderr: b"oops\n".to_vec() }
}

#[test]
fn wait_coroutine_hands_its_command_out_once() {
    let mut spawn = SpawnThenWait::new(command());
    match spawn.resume(None) {
        Err(Io::SpawnThenWait(Err(request))) => {
            assert_eq!(request, command());
            assert_eq!(request.stdout, Some(Stdio::Piped));
        }
        other => panic!("{:?}", other),
    }
    assert!(matches!(spawn.resume(None), Err(Io::UnavailableInput)));
    assert!(matches!(spawn.resume(None), Err(Io::UnavailableInput)));
}

#[test]
fn wait_coroutine_hands_the_result_on() {
    let mut spawn = SpawnThenWait::new(command());
    assert!(spawn.resume(None).is_err());
    assert_eq!(spawn.resume(Some(Io::SpawnThenWait(Ok(spawn_output())))).unwrap(), spawn_output());
}

#[test]
fn wait_coroutine_refuses_a_response_before_its_request() {
    let mut spawn = SpawnThenWait::new(command());
    match spawn.resume(Some(Io::SpawnThenWait(Ok(spawn_output())))) {
        Err(Io::UnexpectedInput(inner)) => match *inner {
            Io::SpawnThenWait(Ok(inner)) => assert_eq!(inner, spawn_output()),
            other => panic!("{:?}", other),
        },
        other => panic!("{:?}", other),
    }
    assert!(matches!(spawn.resume(None), Err(Io::SpawnThenWait(Err(_)))));
}

#[test]
fn wait_coroutine_refuses_other_messages() {
    let mut spawn = SpawnThenWait::new(command());
    assert!(spawn.resume(None).is_err());
    match spawn.resume(Some(Io::SpawnThenWaitWithOutput(Ok(output())))) {
        Err(Io::UnexpectedInput(inner)) => match *inner {
            Io::SpawnThenWaitWithOutput(Ok(inner)) => assert_eq!(inner, output()),
            other => panic!("{:?}", other),
        },
        other => panic!("{:?}", other),
    }
    match spawn.resume(Some(Io::UnavailableInput)) {
        Err(Io::UnexpectedInput(inner)) => assert!(matches!(*inner, Io::UnavailableInput)),
        other => panic!("{:?}", other),
    }
    match spawn.resume(Some(Io::UnexpectedInput(Box::new(Io::UnavailableInput)))) {
        Err(Io::UnexpectedInput(inner)) => assert!(matches!(*inner, Io::UnexpectedInput(_))),
        other => panic!("{:?}", other),
    }
}

#[test]
fn wait_coroutine_hands_a_request_back() {
    let mut spawn = SpawnThenWait::new(command());
    match spawn.resume(Some(Io::SpawnThenWait(Err(Command::new("other"))))) {
        Err(Io::SpawnThenWait(Err(request))) => assert_eq!(request, Command::new("other")),
        other => panic!("{:?}", other),
    }
    match spawn.resume(None) {
        Err(Io::SpawnThenWait(Err(request))) => assert_eq!(request, command()),
        other => panic!("{:?}", other),
    }
}

#[test]
fn output_coroutine_hands_its_command_out_once() {
    let mut spawn = SpawnThenWaitWithOutput::new(command());
    match spawn.resume(None) {
        Err(Io::SpawnThenWaitWithOutput(Err(request))) => assert_eq!(request, command()),
        other => panic!("{:?}", other),
    }
    assert!(matches!(spawn.resume(None), Err(Io::UnavailableInput)));
}

#[test]
fn output_coroutine_hands_the_result_on() {
    let mut spawn = SpawnThenWaitWithOutput::new(command());
    assert!(spawn.resume(None).is_err());
    assert_eq!(spawn.resume(Some(Io::SpawnThenWaitWithOutput(Ok(output())))).unwrap(), output());
}

#[test]
fn output_coroutine_refuses_a_response_before_its_request() {
    let mut spawn = SpawnThenWaitWithOutput::new(command());
    assert!(matches!(
        spawn.resume(Some(Io::SpawnThenWaitWithOutput(Ok(output())))),
        Err(Io::UnexpectedInput(_))
    ));
    assert!(matches!(spawn.resume(None), Err(Io::SpawnThenWaitWithOutput(Err(_)))));
}

#[test]
fn output_coroutine_refuses_other_messages() {
    let mut spawn = SpawnThenWaitWithOutput::new(command());
    assert!(spawn.resume(None).is_err());
    match spawn.resume(Some(Io::SpawnThenWait(Ok(spawn_output())))) {
        Err(Io::UnexpectedInput(inner)) => match *inner {
            Io::SpawnThenWait(Ok(inner)) => assert_eq!(inner, spawn_output()),
            other => panic!("{:?}", other),
        },
        other => panic!("{:?}", other),
    }
    assert!(matches!(spawn.resume(Some(Io::UnavailableInput)), Err(Io::UnexpectedInput(_))));
    match spawn.resume(Some(Io::SpawnThenWaitWithOutput(Err(Command::new("other"))))) {
        Err(Io::SpawnThenWaitWithOutput(Err(request))) => assert_eq!(request.program, "other"),
        other => panic!("{:?}", other),
    }
}
