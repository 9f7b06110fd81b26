use io_process::handlers::{
    handle, spawn_then_wait, spawn_then_wait_with_output, Connector, HandlerError, Job,
};
use io_process::launch::{build_command, Launch, Step};
use io_process::{Command, ExitStatus, Handle, Io, Output, SpawnOutput, Stdio};

fn command() -> Command {
    let mut command = Command::new("cat");
    command.arg("-E").arg("file");
    command.env("B", "2").env("A", "1").env("B", "3").env_remove("C");
    command.current_dir("/tmp");
    command.stdin(Stdio::Handle(Handle::from_raw(3))).stdout(Stdio::Piped).stderr(Stdio::Null);
    command
}

fn spawn_output() -> SpawnOutput {
    SpawnOutput { status: ExitStatus::from_code(0), stdin: None, stdout: None, stderr: None }
}

fn output() -> Output {
    Output { status: ExitStatus::from_code(0), stdout: Vec::new(), stderr: Vec::new() }
}

fn assert_launches_command(launch: Launch) {
    assert_eq!(launch.program, "cat");
    let mut steps = launch.steps.into_iter();
    assert!(matches!(steps.next(), Some(Step::Arg(arg)) if arg == "-E"));
    assert!(matches!(steps.next(), Some(Step::Arg(arg)) if arg == "file"));
    let mut vars = Vec::new();
    for _ in 0..3 {
        match steps.next() {
            Some(Step::Env(name, value)) => vars.push((name, Some(value))),
            Some(Step::EnvRemove(name)) => vars.push((name, None)),
            other => panic!("{:?}", other),
        }
    }
    vars.sort();
    assert_eq!(
        vars,
        vec![
            (String::from("A"), Some(String::from("1"))),
            (String::from("B"), Some(String::from("3"))),
            (String::from("C"), None),
        ]
    );
    assert!(matches!(steps.next(), Some(Step::CurrentDir(dir)) if dir == "/tmp"));
    assert!(matches!(steps.next(), Some(Step::Stdin(Stdio::Handle(Handle { raw: 3 })))));
    assert!(matches!(steps.next(), Some(Step::Stdout(Stdio::Piped))));
    assert!(matches!(steps.next(), Some(Step::Stderr(Stdio::Null))));
    assert!(steps.next().is_none());
}

#[test]
fn build_command_lays_the_steps_out_in_order() {
    assert_launches_command(build_command(command()));
}

#[test]
fn build_command_of_a_bare_program_has_no_steps() {
    let launch = build_command(Command::new("true"));
    assert_eq!(launch.program, "true");
    assert!(launch.steps.is_empty());
}

#[test]
fn build_command_skips_what_is_not_set() {
    let mut command = Command::new("ls");
    command.env("A", "1").env_clear().stderr(Stdio::Inherit);
    let launch = build_command(command);
    assert_eq!(launch.steps.len(), 1);
    assert!(matches!(launch.steps[0], Step::Stderr(Stdio::Inherit)));
}

#[test]
fn build_command_removes_what_the_command_removes() {
    let mut command = Command::new("ls");
    command.env("A", "1").env_remove("A");
    let launch = build_command(command);
    assert_eq!(launch.steps.len(), 1);
    assert!(matches!(&launch.steps[0], Step::EnvRemove(name) if name == "A"));
}

#[test]
fn handle_gives_the_job_of_the_request() {
    match handle(Io::SpawnThenWait(Err(command()))) {
        Ok(Job::SpawnThenWait(launch)) => assert_launches_command(launch),
        other => panic!("{:?}", other),
    }
    match handle(Io::SpawnThenWaitWithOutput(Err(command()))) {
        Ok(Job::SpawnThenWaitWithOutput(launch)) => assert_launches_command(launch),
        other => panic!("{:?}", other),
    }
}

#[test]
fn handle_refuses_a_response() {
    assert!(matches!(
        handle(Io::SpawnThenWait(Ok(spawn_output()))),
        Err(HandlerError::MissingCommand)
    ));
    assert!(matches!(
        handle(Io::SpawnThenWaitWithOutput(Ok(output()))),
        Err(HandlerError::MissingCommand)
    ));
}

#[test]
fn handle_refuses_reports_of_misuse() {
    assert!(matches!(handle(Io::UnavailableInput), Err(HandlerError::UnavailableInput)));
    match handle(Io::UnexpectedInput(Box::new(Io::SpawnThenWait(Ok(spawn_output()))))) {
        Err(HandlerError::UnexpectedInput(inner)) => match *inner {
            Io::SpawnThenWait(Ok(inner)) => assert_eq!(inner, spawn_output()),
            other => panic!("{:?}", other),
        },
        other => panic!("{:?}", other),
    }
}

#[test]
fn spawn_then_wait_needs_a_command() {
    assert_launches_command(spawn_then_wait(Err(command())).unwrap());
    assert!(matches!(spawn_then_wait(Ok(spawn_output())), Err(HandlerError::MissingCommand)));
}

#[test]
fn spawn_then_wait_with_output_needs_a_command() {
    assert_launches_command(spawn_then_wait_with_output(Err(command())).unwrap());
    assert!(matches!(
        spawn_then_wait_with_output(Ok(output())),
        Err(HandlerError::MissingCommand)
    ));
}

#[test]
fn connector_decides_as_handle_does() {
    let connector = Connector::new();
    match connector.execute(Io::SpawnThenWait(Err(command()))) {
        Ok(Job::SpawnThenWait(launch)) => assert_launches_command(launch),
        other => panic!("{:?}", other),
    }
    match connector.execute(Io::SpawnThenWaitWithOutput(Err(command()))) {
        Ok(Job::SpawnThenWaitWithOutput(launch)) => assert_launches_command(launch),
        other => panic!("{:?}", other),
    }
    assert!(matches!(
        connector.execute(Io::UnavailableInput),
        Err(HandlerError::UnavailableInput)
    ));
    assert!(matches!(
        connector.execute(Io::UnexpectedInput(Box::new(Io::UnavailableInput))),
        Err(HandlerError::UnexpectedInput(_))
    ));
    assert!(matches!(
        connector.execute(Io::SpawnThenWait(Ok(spawn_output()))),
        Err(HandlerError::MissingCommand)
    ));
}

#[test]
fn handler_errors_say_what_went_wrong() {
    assert_eq!(HandlerError::UnavailableInput.message(), "input has already been used");
    assert_eq!(HandlerError::MissingCommand.message(), "missing command");
    assert_eq!(
        HandlerError::UnexpectedInput(Box::new(Io::UnavailableInput)).message(),
        "unexpected input"
    );
}
