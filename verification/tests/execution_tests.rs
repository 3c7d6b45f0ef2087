use rustacean_gpt::action::{Action, ActionResult};
use rustacean_gpt::execution::{ExecutionError, Operation, Outcome};
use rustacean_gpt::sandbox::{get_working_path, path_escapes};

fn strings(parts: &[&str]) -> Vec<String> {
    parts.iter().map(|part| part.to_string()).collect()
}

#[test]
fn paths_that_escape() {
    assert!(path_escapes(".."));
    assert!(path_escapes("../x"));
    assert!(path_escapes("../../etc/passwd"));
    assert!(path_escapes("a/../b"));
    assert!(path_escapes("a/.."));
    assert!(path_escapes("/etc/passwd"));
    assert!(path_escapes("\\windows"));
    assert!(path_escapes("a\\..\\b"));
    assert!(path_escapes("/"));
}

#[test]
fn paths_that_stay() {
    assert!(!path_escapes(""));
    assert!(!path_escapes("."));
    assert!(!path_escapes("a"));
    assert!(!path_escapes("a/b/c.txt"));
    assert!(!path_escapes("..a"));
    assert!(!path_escapes("a.."));
    assert!(!path_escapes("a/..b/c"));
    assert!(!path_escapes("a/b../c"));
    assert!(!path_escapes("..."));
    assert!(!path_escapes("a/.../b"));
    assert!(!path_escapes("./a"));
}

#[test]
fn placing_a_path_below_a_directory() {
    assert_eq!(get_working_path("root", "a.txt"), "root/a.txt");
    assert_eq!(get_working_path("root/", "a.txt"), "root/a.txt");
    assert_eq!(get_working_path("", "a.txt"), "a.txt");
    assert_eq!(get_working_path("./work", "src/lib.rs"), "./work/src/lib.rs");
    assert_eq!(get_working_path("root", ""), "root/");
}

#[test]
fn read_outside_the_working_directory_is_refused() {
    let action = Action::ReadFile { file: "../../etc/passwd".to_string() };
    assert_eq!(
        action.take_action("/sandbox"),
        Err(ExecutionError::OutsideWorkingDirectory { path: "../../etc/passwd".to_string() })
    );
}

#[test]
fn every_path_field_is_confined() {
    let outside = "../x".to_string();
    let refused = Err(ExecutionError::OutsideWorkingDirectory { path: outside.clone() });
    let actions = vec![
        Action::AddDependency { directory: outside.clone(), cli_arguments: vec![] },
        Action::AppendToFile { file: outside.clone(), content: String::new() },
        Action::BuildProject { directory: outside.clone(), cli_arguments: vec![] },
        Action::DeleteDirectory { directory: outside.clone() },
        Action::DeleteFile { file: outside.clone() },
        Action::ReadFile { file: outside.clone() },
        Action::RemoveDependency { directory: outside.clone(), cli_arguments: vec![] },
        Action::RenameFile { current_file: outside.clone(), new_file: "ok".to_string() },
        Action::RenameFile { current_file: "ok".to_string(), new_file: outside.clone() },
        Action::RunProject { directory: outside.clone(), cli_arguments: vec![] },
        Action::SearchDirectory { directory: outside.clone() },
        Action::TestProject { directory: outside.clone(), cli_arguments: vec![] },
        Action::UpdateProjectDependencies { directory: outside.clone(), cli_arguments: vec![] },
        Action::WriteFile { file: outside.clone(), content: String::new() },
    ];
    for action in actions {
        assert_eq!(action.take_action("root"), refused);
    }
}

#[test]
fn rename_reports_the_first_path_that_escapes() {
    let action = Action::RenameFile {
        current_file: "/a".to_string(),
        new_file: "../b".to_string(),
    };
    assert_eq!(
        action.take_action("root"),
        Err(ExecutionError::OutsideWorkingDirectory { path: "/a".to_string() })
    );
}

#[test]
fn file_actions_become_operations_below_the_root() {
    assert_eq!(
        Action::ReadFile { file: "a.txt".to_string() }.take_action("root"),
        Ok(Operation::ReadFile { path: "root/a.txt".to_string() })
    );
    assert_eq!(
        Action::WriteFile { file: "out.txt".to_string(), content: "hi".to_string() }
            .take_action("root"),
        Ok(Operation::WriteFile { path: "root/out.txt".to_string(), content: "hi".to_string() })
    );
    assert_eq!(
        Action::AppendToFile { file: "out.txt".to_string(), content: "hi".to_string() }
            .take_action("root"),
        Ok(Operation::AppendToFile {
            path: "root/out.txt".to_string(),
            content: "hi".to_string(),
        })
    );
    assert_eq!(
        Action::DeleteFile { file: "a.txt".to_string() }.take_action("root"),
        Ok(Operation::DeleteFile { path: "root/a.txt".to_string() })
    );
    assert_eq!(
        Action::DeleteDirectory { directory: "old".to_string() }.take_action("root"),
        Ok(Operation::DeleteDirectory { path: "root/old".to_string() })
    );
    assert_eq!(
        Action::RenameFile { current_file: "a".to_string(), new_file: "b".to_string() }
            .take_action("root"),
        Ok(Operation::RenameFile { from: "root/a".to_string(), to: "root/b".to_string() })
    );
    assert_eq!(
        Action::SearchDirectory { directory: "".to_string() }.take_action("root"),
        Ok(Operation::SearchDirectory { path: "root/".to_string() })
    );
}

#[test]
fn project_actions_run_the_build_tool_in_their_directory() {
    let cases = vec![
        (
            Action::AddDependency { directory: "p".to_string(), cli_arguments: strings(&["x"]) },
            "add",
        ),
        (
            Action::BuildProject { directory: "p".to_string(), cli_arguments: strings(&["x"]) },
            "build",
        ),
        (
            Action::RemoveDependency {
                directory: "p".to_string(),
                cli_arguments: strings(&["x"]),
            },
            "remove",
        ),
        (Action::RunProject { directory: "p".to_string(), cli_arguments: strings(&["x"]) }, "run"),
        (
            Action::TestProject { directory: "p".to_string(), cli_arguments: strings(&["x"]) },
            "test",
        ),
        (
            Action::UpdateProjectDependencies {
                directory: "p".to_string(),
                cli_arguments: strings(&["x"]),
            },
            "update",
        ),
    ];
    for (action, subcommand) in cases {
        assert!(action.is_tool_command());
        assert_eq!(
            action.take_action("root"),
            Ok(Operation::RunProgram {
                program: "cargo".to_string(),
                arguments: strings(&[subcommand, "x"]),
                directory: "root/p".to_string(),
            })
        );
    }
}

#[test]
fn package_search_runs_in_the_root() {
    let action = Action::PackageSearch { cli_arguments: strings(&["serde", "--limit", "3"]) };
    assert!(action.is_tool_command());
    assert_eq!(
        action.take_action("root"),
        Ok(Operation::RunProgram {
            program: "cargo".to_string(),
            arguments: strings(&["search", "serde", "--limit", "3"]),
            directory: "root".to_string(),
        })
    );
}

#[test]
fn command_line_runs_any_program_in_the_root() {
    let action =
        Action::CommandLine { command: "ls".to_string(), arguments: strings(&["-l", "../.."]) };
    assert!(!action.is_tool_command());
    assert_eq!(
        action.take_action("root"),
        Ok(Operation::RunProgram {
            program: "ls".to_string(),
            arguments: strings(&["-l", "../.."]),
            directory: "root".to_string(),
        })
    );
}

#[test]
fn save_memory_and_standby_touch_no_file() {
    assert_eq!(
        Action::SaveMemory { memory: "m".to_string() }.take_action("root"),
        Ok(Operation::SaveMemory { text: "m".to_string() })
    );
    assert_eq!(Action::Standby { completed: false }.take_action("root"), Ok(Operation::Complete));
    assert_eq!(Action::Standby { completed: true }.take_action("root"), Ok(Operation::Complete));
    assert_eq!(
        Action::ProjectCompleted { close: true }.take_action("root"),
        Ok(Operation::Complete)
    );
}

#[test]
fn write_file_reports_the_created_file_and_its_size() {
    let action = Action::WriteFile { file: "out.txt".to_string(), content: "hi".to_string() };
    assert_eq!(
        action.conclude(Outcome::Written { size: 2 }),
        Ok(ActionResult::FileCreated("out.txt".to_string(), 2))
    );
}

#[test]
fn append_reports_sizes_with_zero_for_a_new_file() {
    let action = Action::AppendToFile { file: "log".to_string(), content: "x".to_string() };
    assert_eq!(
        action.conclude(Outcome::Appended { size_before: None, size_after: 1 }),
        Ok(ActionResult::FileModified("log".to_string(), 0, 1))
    );
    assert_eq!(
        action.conclude(Outcome::Appended { size_before: Some(10), size_after: 11 }),
        Ok(ActionResult::FileModified("log".to_string(), 10, 11))
    );
}

#[test]
fn read_reports_the_contents() {
    let action = Action::ReadFile { file: "a".to_string() };
    assert_eq!(
        action.conclude(Outcome::Contents("text".to_string())),
        Ok(ActionResult::FileContents("text".to_string()))
    );
}

#[test]
fn deletions_and_renames_are_confirmed() {
    assert_eq!(
        Action::DeleteFile { file: "a".to_string() }.conclude(Outcome::Done),
        Ok(ActionResult::FileDeleted("a".to_string()))
    );
    assert_eq!(
        Action::DeleteDirectory { directory: "d".to_string() }.conclude(Outcome::Done),
        Ok(ActionResult::FolderDeleted("d".to_string()))
    );
    assert_eq!(
        Action::RenameFile { current_file: "a".to_string(), new_file: "b".to_string() }
            .conclude(Outcome::Done),
        Ok(ActionResult::FileRenamed("a".to_string(), "b".to_string()))
    );
    assert_eq!(
        Action::SaveMemory { memory: "m".to_string() }.conclude(Outcome::Done),
        Ok(ActionResult::Success)
    );
    assert_eq!(
        Action::Standby { completed: true }.conclude(Outcome::Done),
        Ok(ActionResult::Success)
    );
    assert_eq!(
        Action::ProjectCompleted { close: false }.conclude(Outcome::Done),
        Ok(ActionResult::Success)
    );
}

#[test]
fn search_reports_entries_relative_to_the_root() {
    let action = Action::SearchDirectory { directory: "src".to_string() };
    assert_eq!(
        action.conclude(Outcome::Entries(strings(&["lib.rs", "main.rs"]))),
        Ok(ActionResult::DirectoryContents(strings(&["src/lib.rs", "src/main.rs"])))
    );
    let at_root = Action::SearchDirectory { directory: "".to_string() };
    assert_eq!(
        at_root.conclude(Outcome::Entries(strings(&["a"]))),
        Ok(ActionResult::DirectoryContents(strings(&["a"])))
    );
    assert_eq!(
        at_root.conclude(Outcome::Entries(vec![])),
        Ok(ActionResult::DirectoryContents(vec![]))
    );
}

#[test]
fn tool_output_is_stdout_on_success_and_stderr_on_failure() {
    let action = Action::BuildProject { directory: "p".to_string(), cli_arguments: vec![] };
    assert_eq!(
        action.conclude(Outcome::Exited {
            success: true,
            stdout: "built".to_string(),
            stderr: "warning".to_string(),
        }),
        Ok(ActionResult::CommandOutput("built".to_string()))
    );
    assert_eq!(
        action.conclude(Outcome::Exited {
            success: false,
            stdout: "built".to_string(),
            stderr: "error".to_string(),
        }),
        Ok(ActionResult::CommandOutput("error".to_string()))
    );
}

#[test]
fn command_line_output_combines_both_streams() {
    let action = Action::CommandLine { command: "ls".to_string(), arguments: vec![] };
    assert_eq!(
        action.conclude(Outcome::Exited {
            success: false,
            stdout: "out".to_string(),
            stderr: "err".to_string(),
        }),
        Ok(ActionResult::CommandOutput("STDOUT: out && STDERR: err".to_string()))
    );
}

#[test]
fn a_failed_operation_is_an_error_with_its_message() {
    let actions = vec![
        Action::ReadFile { file: "a".to_string() },
        Action::CommandLine { command: "nope".to_string(), arguments: vec![] },
        Action::SaveMemory { memory: "m".to_string() },
    ];
    for action in actions {
        assert_eq!(
            action.conclude(Outcome::Failed("No such file or directory".to_string())),
            Err(ExecutionError::Failed { message: "No such file or directory".to_string() })
        );
    }
}

#[test]
fn an_outcome_of_another_operation_is_unexpected() {
    assert_eq!(
        Action::ReadFile { file: "a".to_string() }.conclude(Outcome::Done),
        Err(ExecutionError::UnexpectedOutcome)
    );
    assert_eq!(
        Action::DeleteFile { file: "a".to_string() }.conclude(Outcome::Written { size: 1 }),
        Err(ExecutionError::UnexpectedOutcome)
    );
    assert_eq!(
        Action::WriteFile { file: "a".to_string(), content: String::new() }
            .conclude(Outcome::Contents(String::new())),
        Err(ExecutionError::UnexpectedOutcome)
    );
    assert_eq!(
        Action::ReadFile { file: "a".to_string() }
            .conclude(Outcome::Appended { size_before: None, size_after: 0 }),
        Err(ExecutionError::UnexpectedOutcome)
    );
    assert_eq!(
        Action::ReadFile { file: "a".to_string() }.conclude(Outcome::Entries(vec![])),
        Err(ExecutionError::UnexpectedOutcome)
    );
    assert_eq!(
        Action::ReadFile { file: "a".to_string() }.conclude(Outcome::Exited {
            success: true,
            stdout: String::new(),
            stderr: String::new(),
        }),
        Err(ExecutionError::UnexpectedOutcome)
    );
    assert_eq!(
        Action::BuildProject { directory: "p".to_string(), cli_arguments: vec![] }
            .conclude(Outcome::Done),
        Err(ExecutionError::UnexpectedOutcome)
    );
}

#[test]
fn execution_errors_in_words() {
    assert_eq!(
        ExecutionError::OutsideWorkingDirectory { path: "../x".to_string() }.message(),
        "Path leaves the working directory: ../x"
    );
    assert_eq!(ExecutionError::Failed { message: "denied".to_string() }.message(), "denied");
    assert_eq!(
        ExecutionError::UnexpectedOutcome.message(),
        "Outcome does not belong to the action"
    );
}
