//! From a command to the steps by which a runtime sets a process up.

use crate::command::{texts, Command, CommandView};
use crate::envs::{distinct_names, pairs_of, pairs_to_map};
use crate::stdio::Stdio;
use vstd::prelude::*;

verus! {

/// One thing to tell the operating system about a process before it is
/// spawned.
#[derive(Debug)]
pub enum Step {
    /// Pass this argument after those passed before.
    Arg(String),
    /// Set this variable to this value.
    Env(String, String),
    /// Remove this variable, so that the child does not inherit it.
    EnvRemove(String),
    /// Run in this directory.
    CurrentDir(String),
    /// Connect standard input to this.
    Stdin(Stdio),
    /// Connect standard output to this.
    Stdout(Stdio),
    /// Connect standard error to this.
    Stderr(Stdio),
}

/// What a [`Step`] says, as mathematical values.
pub enum StepView {
    Arg(Seq<char>),
    Env(Seq<char>, Seq<char>),
    EnvRemove(Seq<char>),
    CurrentDir(Seq<char>),
    Stdin(Stdio),
    Stdout(Stdio),
    Stderr(Stdio),
}

impl View for Step {
    type V = StepView;

    open spec fn view(&self) -> StepView {
        match *self {
            Step::Arg(arg) => StepView::Arg(arg@),
            Step::Env(name, value) => StepView::Env(name@, value@),
            Step::EnvRemove(name) => StepView::EnvRemove(name@),
            Step::CurrentDir(dir) => StepView::CurrentDir(dir@),
            Step::Stdin(cfg) => StepView::Stdin(cfg),
            Step::Stdout(cfg) => StepView::Stdout(cfg),
            Step::Stderr(cfg) => StepView::Stderr(cfg),
        }
    }
}

/// A process ready to be spawned: the program, and the steps that set it
/// up, to be taken in order.
#[derive(Debug)]
pub struct Launch {
    pub program: String,
    pub steps: Vec<Step>,
}

/// What a [`Launch`] says, as mathematical values.
pub struct LaunchView {
    pub program: Seq<char>,
    pub steps: Seq<StepView>,
}

impl View for Launch {
    type V = LaunchView;

    open spec fn view(&self) -> LaunchView {
        LaunchView {
            program: self.program@,
            steps: step_views(self.steps@),
        }
    }
}

/// One step for each argument, in order.
pub open spec fn arg_steps(args: Seq<Seq<char>>) -> Seq<StepView> {
    Seq::new(args.len(), |i: int| StepView::Arg(args[i]))
}

/// The step for one variable: to set it where a value is given, to remove
/// it where none is.
pub open spec fn env_step(var: (Seq<char>, Option<Seq<char>>)) -> StepView {
    match var.1 {
        Some(value) => StepView::Env(var.0, value),
        None => StepView::EnvRemove(var.0),
    }
}

/// One step for each variable, in order.
pub open spec fn env_steps(vars: Seq<(Seq<char>, Option<Seq<char>>)>) -> Seq<StepView> {
    Seq::new(vars.len(), |i: int| env_step(vars[i]))
}

/// The step for a working directory, if one is set.
pub open spec fn dir_steps(dir: Option<Seq<char>>) -> Seq<StepView> {
    match dir {
        Some(dir) => seq![StepView::CurrentDir(dir)],
        None => Seq::empty(),
    }
}

/// The steps for those of the three streams that are configured: standard
/// input, then standard output, then standard error.
pub open spec fn stdio_steps(
    stdin: Option<Stdio>,
    stdout: Option<Stdio>,
    stderr: Option<Stdio>,
) -> Seq<StepView> {
    (match stdin {
        Some(cfg) => seq![StepView::Stdin(cfg)],
        None => Seq::empty(),
    }) + (match stdout {
        Some(cfg) => seq![StepView::Stdout(cfg)],
        None => Seq::empty(),
    }) + (match stderr {
        Some(cfg) => seq![StepView::Stderr(cfg)],
        None => Seq::empty(),
    })
}

/// The steps that set up `command`, whose environment is listed in
/// `vars`: the arguments, then the variables, then the working directory,
/// then the streams.
pub open spec fn launch_steps(command: CommandView, vars: Seq<(Seq<char>, Option<Seq<char>>)>) -> Seq<
    StepView,
> {
    arg_steps(command.arg_seq()) + env_steps(vars) + dir_steps(command.current_dir) + stdio_steps(
        command.stdin,
        command.stdout,
        command.stderr,
    )
}

/// What `command` says of its environment, as pairs in the order in which
/// it keeps them; none where it inherits its environment.
pub open spec fn env_pairs(command: Command) -> Seq<(Seq<char>, Option<Seq<char>>)> {
    match command.envs {
        Some(envs) => envs.pairs(),
        None => Seq::empty(),
    }
}

/// What each of `steps` says, in order.
pub open spec fn step_views(steps: Seq<Step>) -> Seq<StepView> {
    Seq::new(steps.len(), |i: int| steps[i]@)
}

/// Appends one step for each of `args`, in order.
fn push_args(steps: &mut Vec<Step>, args: Vec<String>)
    ensures
        step_views(final(steps)@) == step_views(old(steps)@) + arg_steps(texts(args@)),
{
    let ghost before = steps@;
    for arg in it: args
        invariant
            it.seq() == args@,
            steps@.len() == before.len() + it.index(),
            forall|j: int| 0 <= j < before.len() ==> steps@[j] == before[j],
            forall|j: int|
                0 <= j < it.index() ==> (#[trigger] steps@[before.len() + j])@ == StepView::Arg(
                    args@[j]@,
                ),
    {
        steps.push(Step::Arg(arg));
    }
    assert forall|j: int| 0 <= j < steps@.len() implies #[trigger] step_views(steps@)[j] == (
    step_views(before) + arg_steps(texts(args@)))[j] by {
        if j < before.len() {
            assert(steps@[j] == before[j]);
        } else {
            let k = j - before.len();
            assert(steps@[before.len() + k]@ == StepView::Arg(args@[k]@));
        }
    }
    assert(step_views(steps@) =~= step_views(before) + arg_steps(texts(args@)));
}

/// Appends one step for each of `vars`, in order.
fn push_envs(steps: &mut Vec<Step>, vars: Vec<(String, Option<String>)>)
    ensures
        step_views(final(steps)@) == step_views(old(steps)@) + env_steps(pairs_of(vars@)),
{
    let ghost before = steps@;
    for pair in it: vars
        invariant
            it.seq() == vars@,
            steps@.len() == before.len() + it.index(),
            forall|j: int| 0 <= j < before.len() ==> steps@[j] == before[j],
            forall|j: int|
                0 <= j < it.index() ==> (#[trigger] steps@[before.len() + j])@ == env_step(
                    pairs_of(vars@)[j],
                ),
    {
        let (name, value) = pair;
        match value {
            Some(value) => steps.push(Step::Env(name, value)),
            None => steps.push(Step::EnvRemove(name)),
        }
    }
    assert forall|j: int| 0 <= j < steps@.len() implies #[trigger] step_views(steps@)[j] == (
    step_views(before) + env_steps(pairs_of(vars@)))[j] by {
        if j < before.len() {
            assert(steps@[j] == before[j]);
        } else {
            let k = j - before.len();
            assert(steps@[before.len() + k]@ == env_step(pairs_of(vars@)[k]));
        }
    }
    assert(step_views(steps@) =~= step_views(before) + env_steps(pairs_of(vars@)));
}

/// Appends the steps for those of the three streams that are configured.
fn push_stdio(
    steps: &mut Vec<Step>,
    stdin: Option<Stdio>,
    stdout: Option<Stdio>,
    stderr: Option<Stdio>,
)
    ensures
        step_views(final(steps)@) == step_views(old(steps)@) + stdio_steps(stdin, stdout, stderr),
{
    if let Some(cfg) = stdin {
        steps.push(Step::Stdin(cfg));
    }
    if let Some(cfg) = stdout {
        steps.push(Step::Stdout(cfg));
    }
    if let Some(cfg) = stderr {
        steps.push(Step::Stderr(cfg));
    }
    assert(step_views(steps@) =~= step_views(old(steps)@) + stdio_steps(stdin, stdout, stderr));
}

/// Lays out how to spawn the process that `builder` describes.
///
/// The steps are the arguments in their order, one step for each variable
/// that the command sets or removes (no name twice), the working directory
/// if one is set, and the configured streams.
pub fn build_command(builder: Command) -> (launch: Launch)
    ensures
        launch@.program == builder@.program,
        launch@.steps == launch_steps(builder@, env_pairs(builder)),
        distinct_names(env_pairs(builder)),
        pairs_to_map(env_pairs(builder)) == builder@.env_map(),
{
    let ghost command = builder@;
    let ghost vars = env_pairs(builder);
    let Command { program, args, envs, current_dir, stdin, stdout, stderr } = builder;
    let mut steps: Vec<Step> = Vec::new();

    if let Some(args) = args {
        push_args(&mut steps, args);
    }
    assert(step_views(steps@) =~= arg_steps(command.arg_seq()));

    if let Some(envs) = envs {
        push_envs(&mut steps, envs.into_pairs());
    } else {
        assert(pairs_to_map(vars) =~= command.env_map());
    }
    let ghost upto_envs = arg_steps(command.arg_seq()) + env_steps(vars);
    assert(step_views(steps@) =~= upto_envs);

    if let Some(dir) = current_dir {
        steps.push(Step::CurrentDir(dir));
    }
    let ghost upto_dir = upto_envs + dir_steps(command.current_dir);
    assert(step_views(steps@) =~= upto_dir);

    push_stdio(&mut steps, stdin, stdout, stderr);
    Launch { program, steps }
}

} // verus!
