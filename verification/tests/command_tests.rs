use minishell::commands::{Builtin, BuiltinAction, Command, CommandRegistry, ShellStatus};
use minishell::error::ShellError;

fn run_builtin(
    name: &str,
    args: &[&str],
    registry: &CommandRegistry,
) -> (String, Result<ShellStatus, ShellError>) {
    let builtin: Builtin = registry.get_builtin(name).unwrap();
    let args: Vec<String> = args.iter().map(|s| s.to_string()).collect();
    let step = builtin.execute(&args, registry);
    let result = match step.action {
        BuiltinAction::Complete(r) => r,
        BuiltinAction::ExitShell { .. } => Ok(ShellStatus::Exit),
        other => panic!("builtin asked for an unexpected action: {:?}", other),
    };
    (step.output, result)
}

fn execute_echo(args: &[&str]) -> (String, Result<ShellStatus, ShellError>) {
    let registry = CommandRegistry::default();
    run_builtin("echo", args, &registry)
}

#[test]
fn test_echo_simple() {
    let (output, result) = execute_echo(&["hello"]);
    assert!(result.is_ok());
    assert_eq!(output, "hello\n");
}

#[test]
fn test_echo_multiple_args() {
    let (output, result) = execute_echo(&["hello", "world", "test"]);
    assert!(result.is_ok());
    assert_eq!(output, "hello world test\n");
}

#[test]
fn test_echo_no_args() {
    let (output, result) = execute_echo(&[]);
    assert!(result.is_ok());
    assert_eq!(output, "\n");
}

#[test]
fn test_echo_with_backslash() {
    let (output, result) = execute_echo(&["hello\\nworld"]);
    assert!(result.is_ok());
    assert_eq!(output, "hello\\nworld\n");
}

#[test]
fn test_echo_with_single_quotes() {
    let (output, result) = execute_echo(&["'hello world'"]);
    assert!(result.is_ok());
    assert_eq!(output, "'hello world'\n");
}

#[test]
fn test_echo_with_double_quotes() {
    let (output, result) = execute_echo(&["\"hello world\""]);
    assert!(result.is_ok());
    assert_eq!(output, "\"hello world\"\n");
}

fn execute_pwd() -> (String, Result<ShellStatus, ShellError>) {
    let registry = CommandRegistry::default();
    run_builtin("pwd", &[], &registry)
}

#[test]
fn test_pwd_ends_with_newline() {
    let (output, _) = execute_pwd();
    assert!(output.ends_with('\n'));
}

#[test]
fn test_pwd_prints_session_directory() {
    let mut registry = CommandRegistry::default();
    registry.set_cwd(String::from("/somewhere/deep"));
    let (output, result) = run_builtin("pwd", &[], &registry);
    assert!(result.is_ok());
    assert_eq!(output, "/somewhere/deep\n");
}

#[test]
fn test_cd_no_args_asks_nothing() {
    let registry = CommandRegistry::default();
    let builtin = registry.get_builtin("cd").unwrap();
    let step = builtin.execute(&Vec::new(), &registry);
    assert!(matches!(
        step.action,
        BuiltinAction::Complete(Ok(ShellStatus::Continue))
    ));
    assert_eq!(step.output, "");
}

#[test]
fn test_cd_tilde_goes_home() {
    let mut registry = CommandRegistry::default();
    registry.set_home(String::from("/home/someone"));
    let builtin = registry.get_builtin("cd").unwrap();
    let step = builtin.execute(&vec![String::from("~")], &registry);
    match step.action {
        BuiltinAction::ChangeDir { path } => assert_eq!(path, "/home/someone"),
        other => panic!("unexpected action: {:?}", other),
    }
}

#[test]
fn test_cd_path_passed_through() {
    let registry = CommandRegistry::default();
    let builtin = registry.get_builtin("cd").unwrap();
    let step = builtin.execute(&vec![String::from("/tmp")], &registry);
    match step.action {
        BuiltinAction::ChangeDir { path } => assert_eq!(path, "/tmp"),
        other => panic!("unexpected action: {:?}", other),
    }
}

fn execute_exit(args: &[&str]) -> Result<ShellStatus, ShellError> {
    let registry = CommandRegistry::default();
    run_builtin("exit", args, &registry).1
}

#[test]
fn test_exit_returns_exit_status() {
    let result = execute_exit(&[]);
    assert!(result.is_ok());
    assert!(matches!(result.unwrap(), ShellStatus::Exit));
}

#[test]
fn test_exit_with_code() {
    let result = execute_exit(&["0"]);
    assert!(result.is_ok());
    assert!(matches!(result.unwrap(), ShellStatus::Exit));
}

#[test]
fn test_exit_names_the_session_histfile() {
    let mut registry = CommandRegistry::default();
    registry.set_histfile(Some(String::from("/tmp/histfile")));
    let builtin = registry.get_builtin("exit").unwrap();
    let step = builtin.execute(&Vec::new(), &registry);
    match step.action {
        BuiltinAction::ExitShell { histfile } => {
            assert_eq!(histfile, Some(String::from("/tmp/histfile")))
        }
        other => panic!("unexpected action: {:?}", other),
    }
}

fn type_registry() -> CommandRegistry {
    let mut registry = CommandRegistry::default();
    registry.add_executable(String::from("ls"), String::from("/usr/bin/ls"));
    registry.add_executable(String::from("cat"), String::from("/usr/bin/cat"));
    registry
}

fn execute_type(args: &[&str]) -> (String, Result<ShellStatus, ShellError>) {
    let registry = type_registry();
    run_builtin("type", args, &registry)
}

#[test]
fn test_type_builtin_echo() {
    let (output, result) = execute_type(&["echo"]);
    assert!(result.is_ok());
    assert_eq!(output, "echo is a shell builtin\n");
}

#[test]
fn test_type_builtin_cd() {
    let (output, result) = execute_type(&["cd"]);
    assert!(result.is_ok());
    assert_eq!(output, "cd is a shell builtin\n");
}

#[test]
fn test_type_builtin_pwd() {
    let (output, result) = execute_type(&["pwd"]);
    assert!(result.is_ok());
    assert_eq!(output, "pwd is a shell builtin\n");
}

#[test]
fn test_type_builtin_exit() {
    let (output, result) = execute_type(&["exit"]);
    assert!(result.is_ok());
    assert_eq!(output, "exit is a shell builtin\n");
}

#[test]
fn test_type_builtin_type() {
    let (output, result) = execute_type(&["type"]);
    assert!(result.is_ok());
    assert_eq!(output, "type is a shell builtin\n");
}

#[test]
fn test_type_external_command() {
    let (output, result) = execute_type(&["ls"]);
    assert!(result.is_ok());
    assert!(output.starts_with("ls is "));
    assert!(output.contains("/ls"));
}

#[test]
fn test_type_nonexistent_command() {
    let (_output, result) = execute_type(&["nonexistent_command_xyz"]);
    assert!(result.is_err());
    let err_msg = result.unwrap_err().message();
    assert!(err_msg.contains("not found"));
}

#[test]
fn test_type_multiple_commands() {
    let (output, result) = execute_type(&["echo", "cd", "ls"]);
    assert!(result.is_ok());
    assert!(output.contains("echo is a shell builtin"));
    assert!(output.contains("cd is a shell builtin"));
    assert!(output.contains("ls is "));
}

fn execute_history(args: &[&str]) -> (String, Result<ShellStatus, ShellError>) {
    let mut registry = CommandRegistry::default();
    registry.add_history_entry("echo hello");
    registry.add_history_entry("pwd");
    registry.add_history_entry("cd /tmp");
    run_builtin("history", args, &registry)
}

#[test]
fn test_history_displays_entries() {
    let (output, result) = execute_history(&[]);
    assert!(result.is_ok());
    assert!(output.contains("echo hello"));
    assert!(output.contains("pwd"));
    assert!(output.contains("cd /tmp"));
}

#[test]
fn test_history_has_line_numbers() {
    let (output, result) = execute_history(&[]);
    assert!(result.is_ok());

    let lines: Vec<&str> = output.trim().split('\n').collect();
    assert_eq!(lines.len(), 3);

    assert!(lines[0].contains("1"));
    assert!(lines[1].contains("2"));
    assert!(lines[2].contains("3"));

    assert!(output.contains("echo hello"));
    assert!(output.contains("pwd"));
    assert!(output.contains("cd /tmp"));
}

#[test]
fn test_history_exact_listing_format() {
    let (output, result) = execute_history(&[]);
    assert!(result.is_ok());
    assert_eq!(output, "    1  echo hello\n    2  pwd\n    3  cd /tmp\n");
}

#[test]
fn test_history_numeric_limit() {
    let (output, result) = execute_history(&["2"]);
    assert!(result.is_ok());
    assert_eq!(output, "    2  pwd\n    3  cd /tmp\n");
}

#[test]
fn test_history_plus_prefixed_limit() {
    let (output, result) = execute_history(&["+1"]);
    assert!(result.is_ok());
    assert_eq!(output, "    3  cd /tmp\n");
}

#[test]
fn test_history_limit_larger_than_history() {
    let (output, result) = execute_history(&["100"]);
    assert!(result.is_ok());
    assert_eq!(output, "    1  echo hello\n    2  pwd\n    3  cd /tmp\n");
}

#[test]
fn test_history_invalid_limit_is_error() {
    let (_output, result) = execute_history(&["notanumber"]);
    assert!(result.is_err());
    let msg = result.unwrap_err().message();
    assert_eq!(msg, "history: notanumber: numeric argument required");
}

#[test]
fn test_history_overflowing_limit_is_error() {
    let (_output, result) = execute_history(&["99999999999999999999999999"]);
    assert!(result.is_err());
    assert!(result.unwrap_err().message().contains("numeric argument required"));
}

#[test]
fn test_history_write_flag_needs_path() {
    let (_output, result) = execute_history(&["-w"]);
    assert!(result.is_err());
    assert_eq!(result.unwrap_err().message(), "history: -w: argument required");
}

#[test]
fn test_history_append_flag_resumes_after_mark() {
    let mut registry = CommandRegistry::default();
    registry.add_history_entry("first");
    registry.add_history_entry("history -a out.txt");
    registry.add_history_entry("second");
    registry.add_history_entry("history -a out.txt");
    let builtin = registry.get_builtin("history").unwrap();
    let args = vec![String::from("-a"), String::from("out.txt")];
    let step = builtin.execute(&args, &registry);
    match step.action {
        BuiltinAction::WriteHistoryFile { path, append, start } => {
            assert_eq!(path, "out.txt");
            assert!(append);
            assert_eq!(start, 2);
        }
        other => panic!("unexpected action: {:?}", other),
    }
}

#[test]
fn test_history_write_flag_starts_at_beginning() {
    let mut registry = CommandRegistry::default();
    registry.add_history_entry("first");
    registry.add_history_entry("history -a out.txt");
    registry.add_history_entry("second");
    let builtin = registry.get_builtin("history").unwrap();
    let args = vec![String::from("-w"), String::from("out.txt")];
    let step = builtin.execute(&args, &registry);
    match step.action {
        BuiltinAction::WriteHistoryFile { path, append, start } => {
            assert_eq!(path, "out.txt");
            assert!(!append);
            assert_eq!(start, 0);
        }
        other => panic!("unexpected action: {:?}", other),
    }
}

#[test]
fn test_history_read_flag_names_path() {
    let registry = CommandRegistry::default();
    let builtin = registry.get_builtin("history").unwrap();
    let args = vec![String::from("-r"), String::from("in.txt")];
    let step = builtin.execute(&args, &registry);
    match step.action {
        BuiltinAction::ReadHistoryFile { path } => assert_eq!(path, "in.txt"),
        other => panic!("unexpected action: {:?}", other),
    }
}

#[test]
fn test_error_messages_render_exactly() {
    assert_eq!(
        ShellError::Io(String::from("broken pipe")).message(),
        "IO error: broken pipe"
    );
    assert_eq!(
        ShellError::CommandNotFound(String::from("frobnicate")).message(),
        "frobnicate: command not found"
    );
    assert_eq!(
        ShellError::DirectoryNotFound { path: String::from("/nope") }.message(),
        "cd: /nope: No such file or directory"
    );
    assert_eq!(
        ShellError::TypeNotFound(String::from("zzz")).message(),
        "zzz: not found"
    );
    assert_eq!(
        ShellError::HistoryArgRequired { flag: String::from("-a") }.message(),
        "history: -a: argument required"
    );
    assert_eq!(
        ShellError::HistoryInvalidArg { arg: String::from("x") }.message(),
        "history: x: numeric argument required"
    );
    assert_eq!(
        ShellError::FileOpen {
            path: String::from("out.txt"),
            source: String::from("denied")
        }
        .message(),
        "Failed to open out.txt: denied"
    );
    assert_eq!(
        ShellError::ProcessStart {
            command: String::from("cat"),
            source: String::from("denied")
        }
        .message(),
        "Failed to start cat: denied"
    );
}
