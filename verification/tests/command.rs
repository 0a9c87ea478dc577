use scylladb_drivers_benchmarker::command::{Command, CommandParsingError};

#[test]
fn command_from_str() {
    let command = Command::from_str("git commit -m \"This is a commit message\"")
        .unwrap()
        .with_arg("--author".to_owned())
        .with_arg("This is a commit author".to_owned());
    assert_eq!(command.program(), "git");
    let args = command.args();
    assert_eq!(args[0], "commit");
    assert_eq!(args[1], "-m");
    assert_eq!(args[2], "This is a commit message");
    assert_eq!(args[3], "--author");
    assert_eq!(args[4], "This is a commit author");
}

#[test]
fn from_str_error() {
    assert_eq!(
        Command::from_str("").unwrap_err(),
        CommandParsingError::ProgramNotGiven
    );
    assert_eq!(
        Command::from_str("\"unfinished quoting").unwrap_err(),
        CommandParsingError::FailedShlexing
    );
    assert_eq!(
        Command::from_str("git -m \"unfinished quoting").unwrap_err(),
        CommandParsingError::FailedShlexing
    );
}

#[test]
fn program() {
    let command = Command::new_program("git".to_owned());
    assert!(command.program() == "git");
    assert!(*command.args() == Vec::<String>::new());
}

#[test]
fn with_args() {
    let command = Command::new_args(
        "git".to_owned(),
        vec!["--author", "Author", "-m", "\"This is a commit message\""]
            .into_iter()
            .map(String::from)
            .collect(),
    );
    assert_eq!(command.program(), "git".to_owned());

    let args: &Vec<String> = command.args();
    assert_eq!(args[0], "--author");
    assert_eq!(args[1], "Author");
    assert_eq!(args[2], "-m");
    assert_eq!(args[3], "\"This is a commit message\"");
}

#[test]
fn cmd_macro() {
    let command = Command::new_args(
        String::from("git"),
        vec![String::from("status"), String::from("-s")],
    );
    assert_eq!(command.program(), "git");
    assert_eq!(*command.args(), vec!("status", "-s"))
}

#[test]
fn quoted_words_are_one_argument() {
    let command = Command::from_str("node 'bench mark.js' a\\ b").unwrap();
    assert_eq!(command.program(), "node");
    assert_eq!(*command.args(), vec!["bench mark.js", "a b"]);
    assert!(command.cwd().is_none());
    assert!(command.envs().is_empty());
}

#[test]
fn blank_line_has_no_program() {
    assert_eq!(
        Command::from_str("   ").unwrap_err(),
        CommandParsingError::ProgramNotGiven
    );
}

#[test]
fn printed_command_line() {
    let command = Command::new_args("git".to_owned(), vec!["status".to_owned(), "-s".to_owned()]);
    assert_eq!(command.to_string(), "git status -s");
    assert_eq!(Command::new_program("ls".to_owned()).to_string(), "ls");
}

#[test]
fn appended_command_and_environment() {
    let inner = Command::new_args("sleep".to_owned(), vec!["1".to_owned()]);
    let mut outer = Command::new_program("time".to_owned()).with_cmd_arg(inner);
    outer.add_arg("extra".to_owned());
    assert_eq!(*outer.args(), vec!["sleep", "1", "extra"]);
    let outer = outer
        .with_cwd("/tmp")
        .with_env("A", "1")
        .with_envs(vec![("B".to_owned(), "2".to_owned())])
        .with_args(vec!["x".to_owned(), "y".to_owned()]);
    assert_eq!(outer.cwd().as_deref(), Some("/tmp"));
    assert_eq!(
        *outer.envs(),
        vec![("A".to_owned(), "1".to_owned()), ("B".to_owned(), "2".to_owned())]
    );
    assert_eq!(*outer.args(), vec!["sleep", "1", "extra", "x", "y"]);
    let copy = outer.clone();
    assert_eq!(copy.to_string(), "time sleep 1 extra x y");
}
