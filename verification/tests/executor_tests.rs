use minishell::commands::executor::{PipelineRun, ShellExecutor, StageAction, StdinSource};
use minishell::commands::{Builtin, BuiltinAction, Command, CommandRegistry, ShellStatus};
use minishell::error::ShellError;
use minishell::parser::{parse_input, ParsedCommand};

/// Drives a pipeline run, performing builtins for real and standing in for
/// the operating system on external stages: a command catalogued in the
/// registry "spawns", an uncatalogued one fails to resolve. Returns the
/// run's outcome and every buffer an external stage was fed on its
/// standard input.
fn drive(
    executor: &ShellExecutor,
    registry: &CommandRegistry,
    pipeline: &Vec<ParsedCommand>,
) -> (Option<Result<ShellStatus, ShellError>>, Vec<String>) {
    let mut run: PipelineRun = executor.start(pipeline);
    let mut fed: Vec<String> = Vec::new();
    let mut guard = 0;
    while let Some(action) = run.next_action() {
        guard += 1;
        assert!(guard < 1000, "the run does not terminate");
        match action {
            StageAction::RunBuiltin { kind, args, .. } => {
                let step = kind.execute(&args, registry);
                let result = match step.action {
                    BuiltinAction::Complete(r) => r,
                    BuiltinAction::ExitShell { .. } => Ok(ShellStatus::Exit),
                    other => panic!("builtin asked for an effect this driver lacks: {:?}", other),
                };
                run.report_builtin(step.output, result);
            }
            StageAction::SpawnExternal { command, stdin, .. } => {
                if let StdinSource::FromBuffer(b) = &stdin {
                    fed.push(b.clone());
                }
                if registry.lookup_executable(&command).is_some() {
                    run.report_spawned();
                } else {
                    run.report_resolve_failed();
                }
            }
            StageAction::WaitCarried => {
                run.report_waited();
            }
        }
    }
    (run.into_outcome(), fed)
}

fn external_registry() -> CommandRegistry {
    let mut registry = CommandRegistry::default();
    registry.add_executable(String::from("true"), String::from("/usr/bin/true"));
    registry.add_executable(String::from("false"), String::from("/usr/bin/false"));
    registry.add_executable(String::from("cat"), String::from("/usr/bin/cat"));
    registry
}

#[test]
fn test_execute_echo() {
    let registry = CommandRegistry::default();
    let executor = ShellExecutor::new(&registry);

    let commands = parse_input("echo hello world");
    let (result, _) = drive(&executor, &registry, &commands);

    assert!(result.unwrap().is_ok());
}

#[test]
fn test_execute_pwd() {
    let registry = CommandRegistry::default();
    let executor = ShellExecutor::new(&registry);

    let commands = parse_input("pwd");
    let (result, _) = drive(&executor, &registry, &commands);

    assert!(result.unwrap().is_ok());
}

#[test]
fn test_execute_exit() {
    let registry = CommandRegistry::default();
    let executor = ShellExecutor::new(&registry);

    let commands = parse_input("exit");
    let (result, _) = drive(&executor, &registry, &commands);

    let status = result.unwrap().unwrap();
    assert!(matches!(status, ShellStatus::Exit));
}

#[test]
fn test_execute_external_command() {
    let registry = external_registry();
    let executor = ShellExecutor::new(&registry);

    let commands = parse_input("true");
    let (result, _) = drive(&executor, &registry, &commands);

    assert!(result.unwrap().is_ok());
}

#[test]
fn test_execute_nonexistent_command() {
    let registry = CommandRegistry::default();
    let executor = ShellExecutor::new(&registry);

    let commands = parse_input("nonexistent_command_xyz");
    let (result, _) = drive(&executor, &registry, &commands);

    let err = result.unwrap();
    assert!(err.is_err());
    let err_msg = err.unwrap_err().message();
    assert!(err_msg.contains("command not found"));
}

#[test]
fn test_simple_pipeline_builtin_to_external() {
    let registry = external_registry();
    let executor = ShellExecutor::new(&registry);

    let commands = parse_input("echo hello | cat");
    let (result, fed) = drive(&executor, &registry, &commands);

    assert!(result.unwrap().is_ok());
    assert_eq!(fed, vec![String::from("hello\n")]);
}

#[test]
fn test_pipeline_builtin_to_builtin() {
    let registry = CommandRegistry::default();
    let executor = ShellExecutor::new(&registry);

    let commands = parse_input("echo test | echo hello");
    let (result, _) = drive(&executor, &registry, &commands);

    assert!(result.unwrap().is_ok());
}

#[test]
fn test_empty_command_list() {
    let registry = CommandRegistry::default();
    let executor = ShellExecutor::new(&registry);

    let commands = parse_input("");
    let (result, _) = drive(&executor, &registry, &commands);

    let status = result.unwrap().unwrap();
    assert!(matches!(status, ShellStatus::Continue));
}

#[test]
fn test_whitespace_only() {
    let registry = CommandRegistry::default();
    let executor = ShellExecutor::new(&registry);

    let commands = parse_input("   \t  ");
    let (result, _) = drive(&executor, &registry, &commands);

    assert!(result.unwrap().is_ok());
}

#[test]
fn test_external_pipeline_completes_and_reaps() {
    let registry = external_registry();
    let executor = ShellExecutor::new(&registry);

    let commands = parse_input("false | true");
    let mut run = executor.start(&commands);
    let mut reaps = 0;
    let mut guard = 0;
    while let Some(action) = run.next_action() {
        guard += 1;
        assert!(guard < 100);
        match action {
            StageAction::SpawnExternal { command, reap_carried, wait, .. } => {
                if command == "false" {
                    assert!(!wait, "the first stage pipes forward and is not waited on yet");
                    assert!(!reap_carried);
                } else {
                    assert_eq!(command, "true");
                    assert!(wait, "the last stage is waited on");
                    assert!(reap_carried, "the carried child of the first stage is reaped");
                }
                run.report_spawned();
            }
            StageAction::WaitCarried => {
                reaps += 1;
                run.report_waited();
            }
            other => panic!("unexpected action: {:?}", other),
        }
    }
    let status = run.into_outcome().unwrap().unwrap();
    assert!(matches!(status, ShellStatus::Continue));
    assert_eq!(reaps, 0, "the last stage consumed the carried child itself");
}

#[test]
fn test_nonexistent_stage_stops_pipeline() {
    let registry = external_registry();
    let executor = ShellExecutor::new(&registry);

    let commands = parse_input("echo hi | nonexistent_command_xyz | cat");
    let mut run = executor.start(&commands);
    let mut spawned: Vec<String> = Vec::new();
    let mut guard = 0;
    let mut failed = false;
    while let Some(action) = run.next_action() {
        guard += 1;
        assert!(guard < 100);
        match action {
            StageAction::RunBuiltin { kind, args, .. } => {
                let step = kind.execute(&args, &registry);
                let result = match step.action {
                    BuiltinAction::Complete(r) => r,
                    BuiltinAction::ExitShell { .. } => Ok(ShellStatus::Exit),
                    other => panic!("unexpected effect: {:?}", other),
                };
                run.report_builtin(step.output, result);
            }
            StageAction::SpawnExternal { command, .. } => {
                if registry.lookup_executable(&command).is_some() {
                    spawned.push(command);
                    run.report_spawned();
                } else {
                    failed = true;
                    run.report_resolve_failed();
                }
            }
            StageAction::WaitCarried => run.report_waited(),
        }
    }
    assert!(failed);
    assert!(spawned.is_empty(), "no stage after the unresolved one was started");
    let err = run.into_outcome().unwrap().unwrap_err();
    assert_eq!(err.message(), "nonexistent_command_xyz: command not found");
}

#[test]
fn test_builtin_failure_recovered_by_stderr_redirect() {
    let registry = CommandRegistry::default();
    let executor = ShellExecutor::new(&registry);

    let commands = parse_input("history -w 2> err.txt");
    let mut run = executor.start(&commands);
    let action = run.next_action().unwrap();
    let directive = match action {
        StageAction::RunBuiltin { kind, args, stderr_file, .. } => {
            assert_eq!(stderr_file, Some((String::from("err.txt"), false)));
            let step = kind.execute(&args, &registry);
            let result = match step.action {
                BuiltinAction::Complete(r) => r,
                other => panic!("unexpected effect: {:?}", other),
            };
            assert!(result.is_err());
            run.report_builtin(step.output, result)
        }
        other => panic!("unexpected action: {:?}", other),
    };
    let (path, message) = directive.unwrap();
    assert_eq!(path, "err.txt");
    assert_eq!(message, "history: -w: argument required\n");
    assert!(run.next_action().is_none());
    let status = run.into_outcome().unwrap().unwrap();
    assert!(matches!(status, ShellStatus::Continue));
}

#[test]
fn test_builtin_failure_without_redirect_aborts() {
    let registry = CommandRegistry::default();
    let executor = ShellExecutor::new(&registry);

    let commands = parse_input("history -w | echo later");
    let mut run = executor.start(&commands);
    let action = run.next_action().unwrap();
    match action {
        StageAction::RunBuiltin { kind, args, .. } => {
            let step = kind.execute(&args, &registry);
            let result = match step.action {
                BuiltinAction::Complete(r) => r,
                other => panic!("unexpected effect: {:?}", other),
            };
            let directive = run.report_builtin(step.output, result);
            assert!(directive.is_none());
        }
        other => panic!("unexpected action: {:?}", other),
    }
    assert!(run.next_action().is_none(), "the failing stage aborts the rest");
    let err = run.into_outcome().unwrap().unwrap_err();
    assert_eq!(err.message(), "history: -w: argument required");
}

#[test]
fn test_builtin_with_redirect_keeps_channel_empty() {
    let registry = external_registry();
    let executor = ShellExecutor::new(&registry);

    let commands = parse_input("echo hi > out.txt | cat");
    let mut run = executor.start(&commands);
    let action = run.next_action().unwrap();
    match action {
        StageAction::RunBuiltin { kind, args, sink, .. } => {
            assert!(matches!(
                sink,
                minishell::commands::executor::BuiltinSink::RedirectFile { .. }
            ));
            let step = kind.execute(&args, &registry);
            let result = match step.action {
                BuiltinAction::Complete(r) => r,
                other => panic!("unexpected effect: {:?}", other),
            };
            run.report_builtin(step.output, result);
        }
        other => panic!("unexpected action: {:?}", other),
    }
    match run.next_action().unwrap() {
        StageAction::SpawnExternal { stdin, .. } => {
            assert!(matches!(stdin, StdinSource::Inherit));
        }
        other => panic!("unexpected action: {:?}", other),
    }
}

#[test]
fn test_exit_stage_stops_pipeline_immediately() {
    let registry = CommandRegistry::default();
    let executor = ShellExecutor::new(&registry);

    let commands = parse_input("exit | echo later");
    let mut run = executor.start(&commands);
    match run.next_action().unwrap() {
        StageAction::RunBuiltin { kind, args, .. } => {
            assert!(matches!(kind, Builtin::Exit));
            let step = kind.execute(&args, &registry);
            let result = match step.action {
                BuiltinAction::ExitShell { .. } => Ok(ShellStatus::Exit),
                other => panic!("unexpected effect: {:?}", other),
            };
            run.report_builtin(step.output, result);
        }
        other => panic!("unexpected action: {:?}", other),
    }
    assert!(run.next_action().is_none(), "nothing after an exit stage runs");
    let status = run.into_outcome().unwrap().unwrap();
    assert!(matches!(status, ShellStatus::Exit));
}
