use io_process::{Command, Envs, Handle, Stdio};

fn strings(items: &[&str]) -> Vec<String> {
    items.iter().map(|s| String::from(*s)).collect()
}

#[test]
fn new_says_nothing_but_the_program() {
    let command = Command::new("/bin/ls");
    assert_eq!(command.program, "/bin/ls");
    assert!(command.args.is_none());
    assert!(command.envs.is_none());
    assert!(command.current_dir.is_none());
    assert!(command.stdin.is_none());
    assert!(command.stdout.is_none());
    assert!(command.stderr.is_none());
}

#[test]
fn arg_appends_in_order() {
    let mut command = Command::new("echo");
    command.arg("hello");
    assert_eq!(command.args, Some(strings(&["hello"])));
    command.arg("world").arg("");
    assert_eq!(command.args, Some(strings(&["hello", "world", ""])));
    assert_eq!(command.program, "echo");
}

#[test]
fn args_appends_all_in_order() {
    let mut command = Command::new("echo");
    command.arg("a");
    command.args(&["b", "c"]).args(&["d"]);
    assert_eq!(command.args, Some(strings(&["a", "b", "c", "d"])));
}

#[test]
fn args_of_nothing_changes_nothing() {
    let mut command = Command::new("echo");
    command.args(&[]);
    assert!(command.args.is_none());
    command.arg("a").args(&[]);
    assert_eq!(command.args, Some(strings(&["a"])));
}

fn set(value: &str) -> Option<String> {
    Some(String::from(value))
}

#[test]
fn env_inserts_or_overwrites() {
    let mut command = Command::new("env");
    command.env("A", "1").env("B", "2");
    {
        let envs = command.envs.as_ref().unwrap();
        assert_eq!(envs.len(), 2);
        assert_eq!(envs.get("A"), Some(&set("1")));
        assert_eq!(envs.get("B"), Some(&set("2")));
        assert_eq!(envs.get("C"), None);
    }
    command.env("A", "3");
    let envs = command.envs.as_ref().unwrap();
    assert_eq!(envs.len(), 2);
    assert_eq!(envs.get("A"), Some(&set("3")));
    assert_eq!(envs.get("B"), Some(&set("2")));
}

#[test]
fn envs_sets_each_later_winning() {
    let mut command = Command::new("env");
    command.envs(&[("A", "1"), ("B", "2"), ("A", "3")]);
    let envs = command.envs.as_ref().unwrap();
    assert_eq!(envs.len(), 2);
    assert_eq!(envs.get("A"), Some(&set("3")));
    assert_eq!(envs.get("B"), Some(&set("2")));
}

#[test]
fn envs_of_nothing_changes_nothing() {
    let mut command = Command::new("env");
    command.envs(&[]);
    assert!(command.envs.is_none());
}

#[test]
fn env_remove_marks_a_name_as_removed() {
    let mut command = Command::new("env");
    command.env("A", "1").env("B", "2").env_remove("A");
    {
        let envs = command.envs.as_ref().unwrap();
        assert_eq!(envs.len(), 2);
        assert_eq!(envs.get("A"), Some(&None));
        assert_eq!(envs.get("B"), Some(&set("2")));
    }
    command.env_remove("HOME");
    {
        let envs = command.envs.as_ref().unwrap();
        assert_eq!(envs.len(), 3);
        assert_eq!(envs.get("HOME"), Some(&None));
        assert_eq!(envs.get("PATH"), None);
    }
    command.env("A", "4");
    assert_eq!(command.envs.as_ref().unwrap().get("A"), Some(&set("4")));
    assert_eq!(command.envs.as_ref().unwrap().len(), 3);
}

#[test]
fn env_remove_differs_from_saying_nothing() {
    let mut inheriting = Command::new("env");
    inheriting.env("A", "1");
    let mut removing = Command::new("env");
    removing.env("A", "1").env_remove("HOME");
    assert_eq!(inheriting.envs.as_ref().unwrap().get("HOME"), None);
    assert_eq!(removing.envs.as_ref().unwrap().get("HOME"), Some(&None));
}

#[test]
fn env_remove_without_variables_does_nothing() {
    let mut command = Command::new("env");
    command.env_remove("A");
    assert!(command.envs.is_none());
}

#[test]
fn env_clear_goes_back_to_inheriting() {
    let mut command = Command::new("env");
    command.env("A", "1").env_remove("B").env_clear();
    assert!(command.envs.is_none());
    command.env_clear();
    assert!(command.envs.is_none());
    command.env("C", "2");
    let envs = command.envs.as_ref().unwrap();
    assert_eq!(envs.len(), 1);
    assert_eq!(envs.get("A"), None);
    assert_eq!(envs.get("B"), None);
}

#[test]
fn current_dir_sets_the_directory() {
    let mut command = Command::new("pwd");
    command.current_dir("/tmp").current_dir("/var");
    assert_eq!(command.current_dir, Some(String::from("/var")));
}

#[test]
fn streams_are_set_one_by_one() {
    let mut command = Command::new("cat");
    command.stdin(Stdio::Handle(Handle::from_raw(7)));
    assert_eq!(command.stdin, Some(Stdio::Handle(Handle { raw: 7 })));
    assert_eq!(command.stdout, None);
    assert_eq!(command.stderr, None);
    command.stdout(Stdio::Piped).stderr(Stdio::Null).stdin(Stdio::Inherit);
    assert_eq!(command.stdin, Some(Stdio::Inherit));
    assert_eq!(command.stdout, Some(Stdio::Piped));
    assert_eq!(command.stderr, Some(Stdio::Null));
}

#[test]
fn clone_copies_what_runs_and_leaves_the_streams() {
    let mut command = Command::new("cat");
    command.arg("-E").env("A", "1").env_remove("B").current_dir("/tmp");
    command.stdin(Stdio::Handle(Handle::from_raw(3))).stdout(Stdio::Piped).stderr(Stdio::Null);
    let copy = command.clone();
    assert_eq!(copy.program, "cat");
    assert_eq!(copy.args, Some(strings(&["-E"])));
    assert_eq!(copy.envs.as_ref().unwrap().len(), 2);
    assert_eq!(copy.envs.as_ref().unwrap().get("A"), Some(&set("1")));
    assert_eq!(copy.envs.as_ref().unwrap().get("B"), Some(&None));
    assert_eq!(copy.current_dir, Some(String::from("/tmp")));
    assert!(copy.stdin.is_none());
    assert!(copy.stdout.is_none());
    assert!(copy.stderr.is_none());
    assert_eq!(command.stdin, Some(Stdio::Handle(Handle { raw: 3 })));
}

#[test]
fn clone_keeps_an_empty_list_as_it_is() {
    let mut command = Command::new("cat");
    command.args = Some(Vec::new());
    command.envs = Some(Envs::new());
    let copy = command.clone();
    assert_eq!(copy.args, Some(Vec::new()));
    assert_eq!(copy.envs.as_ref().unwrap().len(), 0);
    assert_eq!(copy, command);
}

#[test]
fn clone_is_equal_to_its_source() {
    let bare = Command::new("cat");
    assert_eq!(bare.clone(), bare);
    assert!(bare.clone().args.is_none());
    assert!(bare.clone().envs.is_none());

    let mut command = Command::new("cat");
    command.arg("-E").arg("").env("A", "1").env_remove("B").current_dir("/tmp");
    command.stdin(Stdio::Null).stdout(Stdio::Piped);
    assert_eq!(command.clone(), command);
    assert_eq!(command.clone().clone(), command);
}

#[test]
fn equality_is_by_program_arguments_and_directory() {
    let mut left = Command::new("cat");
    left.arg("-E").current_dir("/tmp");
    let mut right = Command::new("cat");
    right.arg("-E").current_dir("/tmp");
    assert_eq!(left, right);

    right.env("A", "1").stdin(Stdio::Null).stdout(Stdio::Piped).stderr(Stdio::Inherit);
    assert_eq!(left, right);

    let mut other = left.clone();
    other.arg("x");
    assert_ne!(left, other);

    let mut other = left.clone();
    other.current_dir("/var");
    assert_ne!(left, other);

    let mut other = Command::new("dog");
    other.arg("-E").current_dir("/tmp");
    assert_ne!(left, other);

    let mut other = Command::new("cat");
    other.arg("-E");
    assert_ne!(left, other);
}

#[test]
fn equality_tells_no_arguments_from_an_empty_list() {
    let left = Command::new("cat");
    let mut right = Command::new("cat");
    right.args = Some(Vec::new());
    assert_ne!(left, right);
}

#[test]
fn equality_compares_arguments_in_order() {
    let mut left = Command::new("echo");
    left.arg("a").arg("b");
    let mut right = Command::new("echo");
    right.arg("b").arg("a");
    assert_ne!(left, right);
    let mut right = Command::new("echo");
    right.arg("a");
    assert_ne!(left, right);
}

#[test]
fn default_has_an_empty_program() {
    let command = Command::default();
    assert_eq!(command.program, "");
    assert!(command.args.is_none());
    assert!(command.envs.is_none());
    assert!(command.current_dir.is_none());
    assert!(command.stdin.is_none());
}
