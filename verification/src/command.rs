//! The command builder.

use crate::envs::{pairs_to_map, Envs};
use crate::stdio::Stdio;
use vstd::prelude::*;
use vstd::std_specs::cmp::PartialEqSpecImpl;

verus! {

/// The texts of a list of strings, in order.
pub open spec fn texts(items: Seq<String>) -> Seq<Seq<char>> {
    Seq::new(items.len(), |i: int| items[i]@)
}

/// The texts of a list of string slices, in order.
pub open spec fn str_texts(items: Seq<&str>) -> Seq<Seq<char>> {
    Seq::new(items.len(), |i: int| items[i]@)
}

/// The texts of a list of pairs of string slices, in order.
pub open spec fn str_pairs(items: Seq<(&str, &str)>) -> Seq<(Seq<char>, Seq<char>)> {
    Seq::new(items.len(), |i: int| (items[i].0@, items[i].1@))
}

/// The pairs that set each name of `vars` to its value.
pub open spec fn settings(vars: Seq<(Seq<char>, Seq<char>)>) -> Seq<(Seq<char>, Option<Seq<char>>)> {
    Seq::new(vars.len(), |i: int| (vars[i].0, Some(vars[i].1)))
}

/// The description of a process to run: its program, its arguments, what
/// it sets and removes in its environment, its working directory and what
/// its three standard streams are connected to.
///
/// A command is plain data. Building one starts no process; only a runtime
/// that is handed the command does.
#[derive(Debug)]
pub struct Command {
    /// Path to the program.
    pub program: String,
    /// Arguments passed to the program, in order. `None` until the first
    /// argument is added.
    pub args: Option<Vec<String>>,
    /// What is set and what is removed in the environment of the child
    /// process. `None` means that the child inherits the environment of its
    /// parent unchanged.
    pub envs: Option<Envs>,
    /// Working directory of the child process.
    pub current_dir: Option<String>,
    /// What the child's standard input is connected to.
    pub stdin: Option<Stdio>,
    /// What the child's standard output is connected to.
    pub stdout: Option<Stdio>,
    /// What the child's standard error is connected to.
    pub stderr: Option<Stdio>,
}

/// What a [`Command`] says, as mathematical values.
pub struct CommandView {
    pub program: Seq<char>,
    pub args: Option<Seq<Seq<char>>>,
    pub envs: Option<Map<Seq<char>, Option<Seq<char>>>>,
    pub current_dir: Option<Seq<char>>,
    pub stdin: Option<Stdio>,
    pub stdout: Option<Stdio>,
    pub stderr: Option<Stdio>,
}

impl View for Command {
    type V = CommandView;

    open spec fn view(&self) -> CommandView {
        CommandView {
            program: self.program@,
            args: match self.args {
                Some(args) => Some(texts(args@)),
                None => None,
            },
            envs: match self.envs {
                Some(envs) => Some(envs@),
                None => None,
            },
            current_dir: match self.current_dir {
                Some(dir) => Some(dir@),
                None => None,
            },
            stdin: self.stdin,
            stdout: self.stdout,
            stderr: self.stderr,
        }
    }
}

impl CommandView {
    /// The command that runs `program` with nothing else said.
    pub open spec fn new(program: Seq<char>) -> CommandView {
        CommandView {
            program,
            args: None,
            envs: None,
            current_dir: None,
            stdin: None,
            stdout: None,
            stderr: None,
        }
    }

    /// Whether two commands run the same program with the same arguments
    /// in the same working directory: what `==` on commands means.
    pub open spec fn runs_as(self, other: CommandView) -> bool {
        &&& self.program == other.program
        &&& self.args == other.args
        &&& self.current_dir == other.current_dir
    }

    /// The arguments in order; none where none was added.
    pub open spec fn arg_seq(self) -> Seq<Seq<char>> {
        match self.args {
            Some(args) => args,
            None => Seq::empty(),
        }
    }

    /// What is said of each variable; nothing where the environment is
    /// inherited.
    pub open spec fn env_map(self) -> Map<Seq<char>, Option<Seq<char>>> {
        match self.envs {
            Some(envs) => envs,
            None => Map::empty(),
        }
    }

    /// The command with `arg` added after its arguments.
    pub open spec fn arg(self, arg: Seq<char>) -> CommandView {
        CommandView { args: Some(self.arg_seq().push(arg)), ..self }
    }

    /// The command with `args` added after its arguments, in order. Adding
    /// none leaves the command as it is.
    pub open spec fn args(self, args: Seq<Seq<char>>) -> CommandView {
        if args.len() == 0 {
            self
        } else {
            CommandView { args: Some(self.arg_seq() + args), ..self }
        }
    }

    /// The command with `name` set to `value`.
    pub open spec fn env(self, name: Seq<char>, value: Seq<char>) -> CommandView {
        CommandView { envs: Some(self.env_map().insert(name, Some(value))), ..self }
    }

    /// The command with each name of `vars` set to its value: what `vars`
    /// say wins over what the command said before, and a later pair of
    /// `vars` over an earlier one. Setting none leaves the command as it is.
    pub open spec fn envs(self, vars: Seq<(Seq<char>, Seq<char>)>) -> CommandView {
        if vars.len() == 0 {
            self
        } else {
            CommandView {
                envs: Some(self.env_map().union_prefer_right(pairs_to_map(settings(vars)))),
                ..self
            }
        }
    }

    /// The command with `name` removed: the child does not get the
    /// variable, whether the command set it before or the parent has it. A
    /// command that says nothing of its environment is left as it is.
    pub open spec fn env_remove(self, name: Seq<char>) -> CommandView {
        match self.envs {
            Some(envs) => CommandView { envs: Some(envs.insert(name, None)), ..self },
            None => self,
        }
    }

    /// The command with nothing said of its environment: the child
    /// inherits that of its parent.
    pub open spec fn env_clear(self) -> CommandView {
        CommandView { envs: None, ..self }
    }

    /// The command run in directory `dir`.
    pub open spec fn current_dir(self, dir: Seq<char>) -> CommandView {
        CommandView { current_dir: Some(dir), ..self }
    }

    /// The command with its standard input connected to `cfg`.
    pub open spec fn stdin(self, cfg: Stdio) -> CommandView {
        CommandView { stdin: Some(cfg), ..self }
    }

    /// The command with its standard output connected to `cfg`.
    pub open spec fn stdout(self, cfg: Stdio) -> CommandView {
        CommandView { stdout: Some(cfg), ..self }
    }

    /// The command with its standard error connected to `cfg`.
    pub open spec fn stderr(self, cfg: Stdio) -> CommandView {
        CommandView { stderr: Some(cfg), ..self }
    }
}

impl Command {
    /// Describes the process that runs the program at path `program`.
    pub fn new(program: &str) -> (command: Command)
        ensures
            command@ == CommandView::new(program@),
    {
        Command {
            program: program.to_owned(),
            args: None,
            envs: None,
            current_dir: None,
            stdin: None,
            stdout: None,
            stderr: None,
        }
    }

    /// Adds an argument to pass to the program, after those added before.
    pub fn arg(&mut self, arg: &str) -> (ret: &mut Command)
        ensures
            ret@ == old(self)@.arg(arg@),
            *final(self) == *final(ret),
    {
        let arg: String = arg.to_owned();
        match &mut self.args {
            Some(args) => {
                let ghost before = args@;
                args.push(arg);
                assert(texts(args@) =~= texts(before).push(arg@));
            },
            None => {
                let mut args: Vec<String> = Vec::new();
                args.push(arg);
                assert(texts(args@) =~= Seq::<Seq<char>>::empty().push(arg@));
                self.args = Some(args);
            },
        }
        self
    }

    /// Adds several arguments to pass to the program, in order.
    pub fn args(&mut self, args: &[&str]) -> (ret: &mut Command)
        ensures
            ret@ == old(self)@.args(str_texts(args@)),
            *final(self) == *final(ret),
    {
        let ghost all = str_texts(args@);
        let mut i: usize = 0;
        while i < args.len()
            invariant
                i <= args.len(),
                all == str_texts(args@),
                self@ == old(self)@.args(all.take(i as int)),
            decreases args.len() - i,
        {
            assert(old(self)@.args(all.take(i as int)).arg_seq().push(all[i as int]) =~= old(
                self,
            )@.arg_seq() + all.take(i + 1));
            self.arg(args[i]);
            i += 1;
        }
        assert(all.take(i as int) =~= all);
        self
    }

    /// Sets the environment variable `name` to `value` for the child,
    /// whether or not the command set it before.
    pub fn env(&mut self, name: &str, value: &str) -> (ret: &mut Command)
        ensures
            ret@ == old(self)@.env(name@, value@),
            *final(self) == *final(ret),
    {
        let name: String = name.to_owned();
        let value: String = value.to_owned();
        match &mut self.envs {
            Some(envs) => {
                envs.insert(name, value);
            },
            None => {
                let mut envs = Envs::new();
                envs.insert(name, value);
                self.envs = Some(envs);
            },
        }
        self
    }

    /// Sets several environment variables, in order.
    pub fn envs(&mut self, vars: &[(&str, &str)]) -> (ret: &mut Command)
        ensures
            ret@ == old(self)@.envs(str_pairs(vars@)),
            *final(self) == *final(ret),
    {
        let ghost all = str_pairs(vars@);
        let mut i: usize = 0;
        while i < vars.len()
            invariant
                i <= vars.len(),
                all == str_pairs(vars@),
                self@ == old(self)@.envs(all.take(i as int)),
            decreases vars.len() - i,
        {
            proof {
                let said = old(self)@.envs(all.take(i as int)).env_map();
                assert(settings(all.take(i + 1)).drop_last() =~= settings(all.take(i as int)));
                assert(said =~= old(self)@.env_map().union_prefer_right(
                    pairs_to_map(settings(all.take(i as int))),
                ));
                assert(said.insert(all[i as int].0, Some(all[i as int].1)) =~= old(
                    self,
                )@.env_map().union_prefer_right(pairs_to_map(settings(all.take(i + 1)))));
            }
            self.env(vars[i].0, vars[i].1);
            i += 1;
        }
        assert(all.take(i as int) =~= all);
        self
    }

    /// Removes the environment variable `name` for the child: the child
    /// does not get it, whether the command set it before or the parent has
    /// it. A command that says nothing of its environment, and so inherits
    /// it, stays as it is.
    pub fn env_remove(&mut self, name: &str) -> (ret: &mut Command)
        ensures
            ret@ == old(self)@.env_remove(name@),
            *final(self) == *final(ret),
    {
        match &mut self.envs {
            Some(envs) => {
                envs.remove(name);
            },
            None => {},
        }
        self
    }

    /// Forgets all that the command says of its environment, what it sets
    /// and what it removes: the child inherits the environment of its
    /// parent unchanged.
    pub fn env_clear(&mut self) -> (ret: &mut Command)
        ensures
            ret@ == old(self)@.env_clear(),
            *final(self) == *final(ret),
    {
        self.envs = None;
        self
    }

    /// Sets the working directory of the child process.
    pub fn current_dir(&mut self, dir: &str) -> (ret: &mut Command)
        ensures
            ret@ == old(self)@.current_dir(dir@),
            *final(self) == *final(ret),
    {
        self.current_dir = Some(dir.to_owned());
        self
    }

    /// Connects the standard input of the child process to `cfg`.
    pub fn stdin(&mut self, cfg: Stdio) -> (ret: &mut Command)
        ensures
            ret@ == old(self)@.stdin(cfg),
            *final(self) == *final(ret),
    {
        self.stdin = Some(cfg);
        self
    }

    /// Connects the standard output of the child process to `cfg`.
    pub fn stdout(&mut self, cfg: Stdio) -> (ret: &mut Command)
        ensures
            ret@ == old(self)@.stdout(cfg),
            *final(self) == *final(ret),
    {
        self.stdout = Some(cfg);
        self
    }

    /// Connects the standard error of the child process to `cfg`.
    pub fn stderr(&mut self, cfg: Stdio) -> (ret: &mut Command)
        ensures
            ret@ == old(self)@.stderr(cfg),
            *final(self) == *final(ret),
    {
        self.stderr = Some(cfg);
        self
    }
}

/// A copy of `items` with the same texts.
fn clone_strings(items: &Vec<String>) -> (copy: Vec<String>)
    ensures
        texts(copy@) == texts(items@),
{
    let mut copy: Vec<String> = Vec::new();
    let mut i: usize = 0;
    while i < items.len()
        invariant
            i <= items.len(),
            copy.len() == i,
            forall|j: int| 0 <= j < i ==> (#[trigger] copy@[j])@ == items@[j]@,
        decreases items.len() - i,
    {
        copy.push(items[i].clone());
        i += 1;
    }
    assert(texts(copy@) =~= texts(items@));
    copy
}

/// Whether two lists of strings have the same texts.
fn same_strings(left: &Vec<String>, right: &Vec<String>) -> (same: bool)
    ensures
        same == (texts(left@) == texts(right@)),
{
    if left.len() != right.len() {
        assert(texts(left@).len() != texts(right@).len());
        return false;
    }
    let mut i: usize = 0;
    while i < left.len()
        invariant
            i <= left.len(),
            left.len() == right.len(),
            forall|j: int| 0 <= j < i ==> (#[trigger] left@[j])@ == right@[j]@,
        decreases left.len() - i,
    {
        if left[i] != right[i] {
            assert(texts(left@)[i as int] != texts(right@)[i as int]);
            return false;
        }
        i += 1;
    }
    assert(texts(left@) =~= texts(right@));
    true
}

impl Clone for Command {
    /// A copy with the program, the arguments, the environment and the
    /// working directory of `self`, each as it is.
    ///
    /// The streams are not copied, since a stream has one owner: the copy
    /// has none configured. The copy is equal to `self`.
    fn clone(&self) -> (copy: Command)
        ensures
            copy@ == (CommandView { stdin: None, stdout: None, stderr: None, ..self@ }),
            copy@.runs_as(self@),
    {
        let args = match &self.args {
            Some(args) => Some(clone_strings(args)),
            None => None,
        };
        let envs = match &self.envs {
            Some(envs) => Some(envs.clone()),
            None => None,
        };
        let current_dir = match &self.current_dir {
            Some(dir) => Some(dir.clone()),
            None => None,
        };
        Command {
            program: self.program.clone(),
            args,
            envs,
            current_dir,
            stdin: None,
            stdout: None,
            stderr: None,
        }
    }
}

impl PartialEq for Command {
    /// Whether two commands run the same program with the same arguments
    /// in the same working directory.
    ///
    /// Commands are compared by what they run, not by how they are wired:
    /// the variables and the streams do not count. A directory is compared
    /// as text.
    fn eq(&self, other: &Command) -> (equal: bool) {
        if self.program != other.program {
            return false;
        }
        let same_args = match (&self.args, &other.args) {
            (Some(left), Some(right)) => same_strings(left, right),
            (None, None) => true,
            _ => false,
        };
        if !same_args {
            return false;
        }
        match (&self.current_dir, &other.current_dir) {
            (Some(left), Some(right)) => *left == *right,
            (None, None) => true,
            _ => false,
        }
    }
}

impl PartialEqSpecImpl for Command {
    open spec fn obeys_eq_spec() -> bool {
        true
    }

    open spec fn eq_spec(&self, other: &Command) -> bool {
        self@.runs_as(other@)
    }
}

impl Eq for Command {

}

impl Default for Command {
    /// The command with an empty program and nothing else said.
    fn default() -> (command: Command)
        ensures
            command@ == CommandView::new(Seq::empty()),
    {
        Command {
            program: String::new(),
            args: None,
            envs: None,
            current_dir: None,
            stdin: None,
            stdout: None,
            stderr: None,
        }
    }
}

} // verus!
