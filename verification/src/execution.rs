//! Carrying out an action, in two halves.
//!
//! The first half turns an action into the one operation that has to be
//! performed on the machine, with every path placed below the working
//! directory. The second half turns what the machine answered into the
//! result that is reported back to the agent. Performing the operation lies
//! between the two and is the caller's part.

use crate::action::{Action, ActionResult, ActionResultView, ActionView};
use crate::sandbox::{escapes, get_working_path, path_escapes, within};
use crate::text::{clone_texts, texts};
use vstd::prelude::*;
use vstd::string::*;

verus! {

/// Something to be done on the machine, with its paths resolved.
#[derive(Debug, PartialEq, Eq)]
pub enum Operation {
    ReadFile { path: String },
    /// Replace the file by the content, creating it if need be.
    WriteFile { path: String, content: String },
    /// Add the content at the end of the file, creating it if need be.
    AppendToFile { path: String, content: String },
    DeleteFile { path: String },
    /// Delete a directory and all that is in it.
    DeleteDirectory { path: String },
    RenameFile { from: String, to: String },
    /// List the entries of a directory.
    SearchDirectory { path: String },
    /// Run a program with arguments, in a directory, and capture its output.
    RunProgram { program: String, arguments: Vec<String>, directory: String },
    /// Hand a text to the long-term memory.
    SaveMemory { text: String },
    /// Nothing: the agent is done.
    Complete,
}

/// What an [`Operation`] says, as mathematics.
pub enum OperationView {
    ReadFile { path: Seq<char> },
    WriteFile { path: Seq<char>, content: Seq<char> },
    AppendToFile { path: Seq<char>, content: Seq<char> },
    DeleteFile { path: Seq<char> },
    DeleteDirectory { path: Seq<char> },
    RenameFile { from: Seq<char>, to: Seq<char> },
    SearchDirectory { path: Seq<char> },
    RunProgram { program: Seq<char>, arguments: Seq<Seq<char>>, directory: Seq<char> },
    SaveMemory { text: Seq<char> },
    Complete,
}

impl View for Operation {
    type V = OperationView;

    open spec fn view(&self) -> OperationView {
        match *self {
            Operation::ReadFile { path } => OperationView::ReadFile { path: path@ },
            Operation::WriteFile { path, content } => OperationView::WriteFile {
                path: path@,
                content: content@,
            },
            Operation::AppendToFile { path, content } => OperationView::AppendToFile {
                path: path@,
                content: content@,
            },
            Operation::DeleteFile { path } => OperationView::DeleteFile { path: path@ },
            Operation::DeleteDirectory { path } => OperationView::DeleteDirectory { path: path@ },
            Operation::RenameFile { from, to } => OperationView::RenameFile {
                from: from@,
                to: to@,
            },
            Operation::SearchDirectory { path } => OperationView::SearchDirectory { path: path@ },
            Operation::RunProgram { program, arguments, directory } => OperationView::RunProgram {
                program: program@,
                arguments: texts(arguments@),
                directory: directory@,
            },
            Operation::SaveMemory { text } => OperationView::SaveMemory { text: text@ },
            Operation::Complete => OperationView::Complete,
        }
    }
}

/// What the machine answered to an operation.
#[derive(Debug, PartialEq, Eq)]
pub enum Outcome {
    /// The operation was performed and has nothing to report.
    Done,
    /// The text of the file that was read.
    Contents(String),
    /// The size in bytes of the file that was written.
    Written { size: u64 },
    /// The size in bytes of the file before (if it was there) and after.
    Appended { size_before: Option<u64>, size_after: u64 },
    /// The names of the entries of the directory that was listed.
    Entries(Vec<String>),
    /// A program ran: whether it reported success, and what it wrote.
    Exited { success: bool, stdout: String, stderr: String },
    /// The operation could not be performed, and why.
    Failed(String),
}

/// What an [`Outcome`] says, as mathematics.
pub enum OutcomeView {
    Done,
    Contents(Seq<char>),
    Written { size: u64 },
    Appended { size_before: Option<u64>, size_after: u64 },
    Entries(Seq<Seq<char>>),
    Exited { success: bool, stdout: Seq<char>, stderr: Seq<char> },
    Failed(Seq<char>),
}

impl View for Outcome {
    type V = OutcomeView;

    open spec fn view(&self) -> OutcomeView {
        match *self {
            Outcome::Done => OutcomeView::Done,
            Outcome::Contents(contents) => OutcomeView::Contents(contents@),
            Outcome::Written { size } => OutcomeView::Written { size },
            Outcome::Appended { size_before, size_after } => OutcomeView::Appended {
                size_before,
                size_after,
            },
            Outcome::Entries(names) => OutcomeView::Entries(texts(names@)),
            Outcome::Exited { success, stdout, stderr } => OutcomeView::Exited {
                success,
                stdout: stdout@,
                stderr: stderr@,
            },
            Outcome::Failed(message) => OutcomeView::Failed(message@),
        }
    }
}

/// Why an action did not give a result. None of these ends the loop.
#[derive(Debug, PartialEq, Eq)]
pub enum ExecutionError {
    /// The action names a path that could lead out of the working directory.
    OutsideWorkingDirectory { path: String },
    /// The machine could not perform the operation.
    Failed { message: String },
    /// The outcome is not one that the action's operation can have.
    UnexpectedOutcome,
}

/// What an [`ExecutionError`] says, as mathematics.
pub enum ExecutionErrorView {
    OutsideWorkingDirectory { path: Seq<char> },
    Failed { message: Seq<char> },
    UnexpectedOutcome,
}

impl View for ExecutionError {
    type V = ExecutionErrorView;

    open spec fn view(&self) -> ExecutionErrorView {
        match *self {
            ExecutionError::OutsideWorkingDirectory {
                path,
            } => ExecutionErrorView::OutsideWorkingDirectory { path: path@ },
            ExecutionError::Failed { message } => ExecutionErrorView::Failed { message: message@ },
            ExecutionError::UnexpectedOutcome => ExecutionErrorView::UnexpectedOutcome,
        }
    }
}

impl ExecutionErrorView {
    /// The error in words.
    pub open spec fn message(self) -> Seq<char> {
        match self {
            ExecutionErrorView::OutsideWorkingDirectory {
                path,
            } => "Path leaves the working directory: "@ + path,
            ExecutionErrorView::Failed { message } => message,
            ExecutionErrorView::UnexpectedOutcome => "Outcome does not belong to the action"@,
        }
    }
}

impl ExecutionError {
    /// The error in words.
    pub fn message(&self) -> (text: String)
        ensures
            text@ == self@.message(),
    {
        match self {
            ExecutionError::OutsideWorkingDirectory { path } => {
                let mut text = String::from_str("Path leaves the working directory: ");
                text.append(path.as_str());
                text
            },
            ExecutionError::Failed { message } => message.clone(),
            ExecutionError::UnexpectedOutcome => String::from_str(
                "Outcome does not belong to the action",
            ),
        }
    }
}

/// The views of a result that may be an error.
pub open spec fn operation_view(planned: Result<Operation, ExecutionError>) -> Result<
    OperationView,
    ExecutionErrorView,
> {
    match planned {
        Ok(operation) => Ok(operation@),
        Err(error) => Err(error@),
    }
}

/// The views of a result that may be an error.
pub open spec fn result_view(concluded: Result<ActionResult, ExecutionError>) -> Result<
    ActionResultView,
    ExecutionErrorView,
> {
    match concluded {
        Ok(result) => Ok(result@),
        Err(error) => Err(error@),
    }
}

/// The build tool that the project actions are carried out with.
pub open spec fn build_tool() -> Seq<char> {
    "cargo"@
}

/// An operation on one path below the root, or the refusal of the path.
pub open spec fn confined(
    root: Seq<char>,
    path: Seq<char>,
    operation: spec_fn(Seq<char>) -> OperationView,
) -> Result<OperationView, ExecutionErrorView> {
    if escapes(path) {
        Err(ExecutionErrorView::OutsideWorkingDirectory { path })
    } else {
        Ok(operation(within(root, path)))
    }
}

/// A run of the build tool in a directory below the root.
pub open spec fn tool_run(
    root: Seq<char>,
    subcommand: Seq<char>,
    directory: Seq<char>,
    cli_arguments: Seq<Seq<char>>,
) -> Result<OperationView, ExecutionErrorView> {
    confined(
        root,
        directory,
        |placed: Seq<char>|
            OperationView::RunProgram {
                program: build_tool(),
                arguments: seq![subcommand] + cli_arguments,
                directory: placed,
            },
    )
}

/// What a program wrote to both of its streams, in one text.
pub open spec fn combined_output(stdout: Seq<char>, stderr: Seq<char>) -> Seq<char> {
    "STDOUT: "@ + stdout + " && STDERR: "@ + stderr
}

impl ActionView {
    /// The subcommand of the build tool that a project action stands for.
    pub open spec fn subcommand(self) -> Option<Seq<char>> {
        match self {
            ActionView::AddDependency { .. } => Some("add"@),
            ActionView::BuildProject { .. } => Some("build"@),
            ActionView::PackageSearch { .. } => Some("search"@),
            ActionView::RemoveDependency { .. } => Some("remove"@),
            ActionView::RunProject { .. } => Some("run"@),
            ActionView::TestProject { .. } => Some("test"@),
            ActionView::UpdateProjectDependencies { .. } => Some("update"@),
            _ => None,
        }
    }

    /// The operation that carries the action out below `root`, or the reason
    /// why there is none.
    pub open spec fn operation(self, root: Seq<char>) -> Result<OperationView, ExecutionErrorView> {
        match self {
            ActionView::AddDependency { directory, cli_arguments } => tool_run(
                root,
                "add"@,
                directory,
                cli_arguments,
            ),
            ActionView::AppendToFile { file, content } => confined(
                root,
                file,
                |placed: Seq<char>| OperationView::AppendToFile { path: placed, content },
            ),
            ActionView::BuildProject { directory, cli_arguments } => tool_run(
                root,
                "build"@,
                directory,
                cli_arguments,
            ),
            ActionView::CommandLine { command, arguments } => Ok(
                OperationView::RunProgram { program: command, arguments, directory: root },
            ),
            ActionView::DeleteDirectory { directory } => confined(
                root,
                directory,
                |placed: Seq<char>| OperationView::DeleteDirectory { path: placed },
            ),
            ActionView::DeleteFile { file } => confined(
                root,
                file,
                |placed: Seq<char>| OperationView::DeleteFile { path: placed },
            ),
            ActionView::PackageSearch { cli_arguments } => Ok(
                OperationView::RunProgram {
                    program: build_tool(),
                    arguments: seq!["search"@] + cli_arguments,
                    directory: root,
                },
            ),
            ActionView::ProjectCompleted { .. } => Ok(OperationView::Complete),
            ActionView::ReadFile { file } => confined(
                root,
                file,
                |placed: Seq<char>| OperationView::ReadFile { path: placed },
            ),
            ActionView::RemoveDependency { directory, cli_arguments } => tool_run(
                root,
                "remove"@,
                directory,
                cli_arguments,
            ),
            ActionView::RenameFile { current_file, new_file } => {
                if escapes(current_file) {
                    Err(ExecutionErrorView::OutsideWorkingDirectory { path: current_file })
                } else if escapes(new_file) {
                    Err(ExecutionErrorView::OutsideWorkingDirectory { path: new_file })
                } else {
                    Ok(
                        OperationView::RenameFile {
                            from: within(root, current_file),
                            to: within(root, new_file),
                        },
                    )
                }
            },
            ActionView::RunProject { directory, cli_arguments } => tool_run(
                root,
                "run"@,
                directory,
                cli_arguments,
            ),
            ActionView::SaveMemory { memory } => Ok(OperationView::SaveMemory { text: memory }),
            ActionView::SearchDirectory { directory } => confined(
                root,
                directory,
                |placed: Seq<char>| OperationView::SearchDirectory { path: placed },
            ),
            ActionView::Standby { .. } => Ok(OperationView::Complete),
            ActionView::TestProject { directory, cli_arguments } => tool_run(
                root,
                "test"@,
                directory,
                cli_arguments,
            ),
            ActionView::UpdateProjectDependencies { directory, cli_arguments } => tool_run(
                root,
                "update"@,
                directory,
                cli_arguments,
            ),
            ActionView::WriteFile { file, content } => confined(
                root,
                file,
                |placed: Seq<char>| OperationView::WriteFile { path: placed, content },
            ),
        }
    }

    /// The result that an outcome of the action's operation amounts to.
    pub open spec fn result(self, outcome: OutcomeView) -> Result<
        ActionResultView,
        ExecutionErrorView,
    > {
        match outcome {
            OutcomeView::Failed(message) => Err(ExecutionErrorView::Failed { message }),
            OutcomeView::Contents(contents) => match self {
                ActionView::ReadFile { .. } => Ok(ActionResultView::FileContents(contents)),
                _ => Err(ExecutionErrorView::UnexpectedOutcome),
            },
            OutcomeView::Written { size } => match self {
                ActionView::WriteFile { file, .. } => Ok(ActionResultView::FileCreated(file, size)),
                _ => Err(ExecutionErrorView::UnexpectedOutcome),
            },
            OutcomeView::Appended { size_before, size_after } => match self {
                ActionView::AppendToFile { file, .. } => Ok(
                    ActionResultView::FileModified(
                        file,
                        match size_before {
                            Some(size) => size,
                            None => 0,
                        },
                        size_after,
                    ),
                ),
                _ => Err(ExecutionErrorView::UnexpectedOutcome),
            },
            OutcomeView::Entries(names) => match self {
                ActionView::SearchDirectory { directory } => Ok(
                    ActionResultView::DirectoryContents(
                        names.map_values(|name: Seq<char>| within(directory, name)),
                    ),
                ),
                _ => Err(ExecutionErrorView::UnexpectedOutcome),
            },
            OutcomeView::Exited { success, stdout, stderr } => match self {
                ActionView::CommandLine { .. } => Ok(
                    ActionResultView::CommandOutput(combined_output(stdout, stderr)),
                ),
                _ => if self.subcommand() is Some {
                    Ok(
                        ActionResultView::CommandOutput(
                            if success {
                                stdout
                            } else {
                                stderr
                            },
                        ),
                    )
                } else {
                    Err(ExecutionErrorView::UnexpectedOutcome)
                },
            },
            OutcomeView::Done => match self {
                ActionView::DeleteFile { file } => Ok(ActionResultView::FileDeleted(file)),
                ActionView::DeleteDirectory { directory } => Ok(
                    ActionResultView::FolderDeleted(directory),
                ),
                ActionView::RenameFile { current_file, new_file } => Ok(
                    ActionResultView::FileRenamed(current_file, new_file),
                ),
                ActionView::ProjectCompleted { .. } => Ok(ActionResultView::Success),
                ActionView::SaveMemory { .. } => Ok(ActionResultView::Success),
                ActionView::Standby { .. } => Ok(ActionResultView::Success),
                _ => Err(ExecutionErrorView::UnexpectedOutcome),
            },
        }
    }
}

impl OperationView {
    /// The paths on the machine that the operation works on or in.
    pub open spec fn paths(self) -> Seq<Seq<char>> {
        match self {
            OperationView::ReadFile { path } => seq![path],
            OperationView::WriteFile { path, .. } => seq![path],
            OperationView::AppendToFile { path, .. } => seq![path],
            OperationView::DeleteFile { path } => seq![path],
            OperationView::DeleteDirectory { path } => seq![path],
            OperationView::RenameFile { from, to } => seq![from, to],
            OperationView::SearchDirectory { path } => seq![path],
            OperationView::RunProgram { directory, .. } => seq![directory],
            OperationView::SaveMemory { .. } => Seq::empty(),
            OperationView::Complete => Seq::empty(),
        }
    }
}

impl ActionView {
    /// The paths that the action names, each relative to the working
    /// directory.
    pub open spec fn named_paths(self) -> Seq<Seq<char>> {
        match self {
            ActionView::AddDependency { directory, .. } => seq![directory],
            ActionView::AppendToFile { file, .. } => seq![file],
            ActionView::BuildProject { directory, .. } => seq![directory],
            ActionView::CommandLine { .. } => Seq::empty(),
            ActionView::DeleteDirectory { directory } => seq![directory],
            ActionView::DeleteFile { file } => seq![file],
            ActionView::PackageSearch { .. } => Seq::empty(),
            ActionView::ProjectCompleted { .. } => Seq::empty(),
            ActionView::ReadFile { file } => seq![file],
            ActionView::RemoveDependency { directory, .. } => seq![directory],
            ActionView::RenameFile { current_file, new_file } => seq![current_file, new_file],
            ActionView::RunProject { directory, .. } => seq![directory],
            ActionView::SaveMemory { .. } => Seq::empty(),
            ActionView::SearchDirectory { directory } => seq![directory],
            ActionView::Standby { .. } => Seq::empty(),
            ActionView::TestProject { directory, .. } => seq![directory],
            ActionView::UpdateProjectDependencies { directory, .. } => seq![directory],
            ActionView::WriteFile { file, content } => seq![file],
        }
    }
}

/// Whether a path lies in a directory: it is the directory itself, or a
/// relative path below it that does not escape.
pub open spec fn lies_within(root: Seq<char>, path: Seq<char>) -> bool {
    path == root || exists|relative: Seq<char>|
        !escapes(relative) && path == #[trigger] within(root, relative)
}

/// An action is refused exactly when one of the paths that it names could
/// lead out of the working directory. Where it is not refused, every path
/// that its operation works on or in lies within the working directory.
pub proof fn lemma_operations_stay_within(action: ActionView, root: Seq<char>)
    ensures
        action.operation(root) is Err <==> exists|at: int|
            0 <= at < action.named_paths().len() && escapes(#[trigger] action.named_paths()[at]),
        action.operation(root) matches Ok(operation) ==> forall|at: int|
            0 <= at < operation.paths().len() ==> lies_within(
                root,
                #[trigger] operation.paths()[at],
            ),
        action.operation(root) matches Err(error) ==> error is OutsideWorkingDirectory,
{
    let named = action.named_paths();
    if named.len() == 1 {
        assert(action.operation(root) is Err <==> escapes(named[0]));
    }
}

fn plan_tool_run(
    working_directory: &str,
    subcommand: &str,
    directory: &String,
    cli_arguments: &Vec<String>,
) -> (planned: Result<Operation, ExecutionError>)
    ensures
        operation_view(planned) == tool_run(
            working_directory@,
            subcommand@,
            directory@,
            texts(cli_arguments@),
        ),
{
    if path_escapes(directory.as_str()) {
        Err(ExecutionError::OutsideWorkingDirectory { path: directory.clone() })
    } else {
        let arguments = tool_arguments(subcommand, cli_arguments);
        Ok(
            Operation::RunProgram {
                program: String::from_str("cargo"),
                arguments,
                directory: get_working_path(working_directory, directory.as_str()),
            },
        )
    }
}

fn tool_arguments(subcommand: &str, cli_arguments: &Vec<String>) -> (arguments: Vec<String>)
    ensures
        texts(arguments@) == seq![subcommand@] + texts(cli_arguments@),
{
    let mut arguments: Vec<String> = Vec::new();
    arguments.push(String::from_str(subcommand));
    let mut index: usize = 0;
    while index < cli_arguments.len()
        invariant
            index <= cli_arguments.len(),
            texts(arguments@) == seq![subcommand@] + texts(cli_arguments@).subrange(
                0,
                index as int,
            ),
        decreases cli_arguments.len() - index,
    {
        let ghost before = texts(arguments@);
        arguments.push(cli_arguments[index].clone());
        assert(texts(arguments@) =~= before.push(cli_arguments@[index as int]@));
        index = index + 1;
    }
    arguments
}

fn place_entries(directory: &str, names: &Vec<String>) -> (entries: Vec<String>)
    ensures
        texts(entries@) == texts(names@).map_values(|name: Seq<char>| within(directory@, name)),
{
    let mut entries: Vec<String> = Vec::new();
    let mut index: usize = 0;
    while index < names.len()
        invariant
            index <= names.len(),
            entries@.len() == index,
            forall|at: int| 0 <= at < index ==> entries@[at]@ == within(directory@, names@[at]@),
        decreases names.len() - index,
    {
        entries.push(get_working_path(directory, names[index].as_str()));
        index = index + 1;
    }
    entries
}

impl Action {
    /// Whether the action is carried out by a subcommand of the build tool.
    pub fn is_tool_command(&self) -> (tool: bool)
        ensures
            tool == (self@.subcommand() is Some),
    {
        match self {
            Action::AddDependency { .. } => true,
            Action::BuildProject { .. } => true,
            Action::PackageSearch { .. } => true,
            Action::RemoveDependency { .. } => true,
            Action::RunProject { .. } => true,
            Action::TestProject { .. } => true,
            Action::UpdateProjectDependencies { .. } => true,
            _ => false,
        }
    }

    /// Decides what has to be done on the machine to carry the action out
    /// with `working_directory` as the root of all its paths.
    ///
    /// An action with a path that could lead out of the working directory is
    /// refused, and nothing is to be done for it.
    pub fn take_action(&self, working_directory: &str) -> (planned: Result<
        Operation,
        ExecutionError,
    >)
        ensures
            operation_view(planned) == self@.operation(working_directory@),
    {
        match self {
            Action::AddDependency { directory, cli_arguments } => plan_tool_run(
                working_directory,
                "add",
                directory,
                cli_arguments,
            ),
            Action::AppendToFile { file, content } => {
                if path_escapes(file.as_str()) {
                    Err(ExecutionError::OutsideWorkingDirectory { path: file.clone() })
                } else {
                    Ok(
                        Operation::AppendToFile {
                            path: get_working_path(working_directory, file.as_str()),
                            content: content.clone(),
                        },
                    )
                }
            },
            Action::BuildProject { directory, cli_arguments } => plan_tool_run(
                working_directory,
                "build",
                directory,
                cli_arguments,
            ),
            Action::CommandLine { command, arguments } => Ok(
                Operation::RunProgram {
                    program: command.clone(),
                    arguments: clone_texts(arguments),
                    directory: String::from_str(working_directory),
                },
            ),
            Action::DeleteDirectory { directory } => {
                if path_escapes(directory.as_str()) {
                    Err(ExecutionError::OutsideWorkingDirectory { path: directory.clone() })
                } else {
                    Ok(
                        Operation::DeleteDirectory {
                            path: get_working_path(working_directory, directory.as_str()),
                        },
                    )
                }
            },
            Action::DeleteFile { file } => {
                if path_escapes(file.as_str()) {
                    Err(ExecutionError::OutsideWorkingDirectory { path: file.clone() })
                } else {
                    Ok(
                        Operation::DeleteFile {
                            path: get_working_path(working_directory, file.as_str()),
                        },
                    )
                }
            },
            Action::PackageSearch { cli_arguments } => Ok(
                Operation::RunProgram {
                    program: String::from_str("cargo"),
                    arguments: tool_arguments("search", cli_arguments),
                    directory: String::from_str(working_directory),
                },
            ),
            Action::ProjectCompleted { .. } => Ok(Operation::Complete),
            Action::ReadFile { file } => {
                if path_escapes(file.as_str()) {
                    Err(ExecutionError::OutsideWorkingDirectory { path: file.clone() })
                } else {
                    Ok(
                        Operation::ReadFile {
                            path: get_working_path(working_directory, file.as_str()),
                        },
                    )
                }
            },
            Action::RemoveDependency { directory, cli_arguments } => plan_tool_run(
                working_directory,
                "remove",
                directory,
                cli_arguments,
            ),
            Action::RenameFile { current_file, new_file } => {
                if path_escapes(current_file.as_str()) {
                    Err(ExecutionError::OutsideWorkingDirectory { path: current_file.clone() })
                } else if path_escapes(new_file.as_str()) {
                    Err(ExecutionError::OutsideWorkingDirectory { path: new_file.clone() })
                } else {
                    Ok(
                        Operation::RenameFile {
                            from: get_working_path(working_directory, current_file.as_str()),
                            to: get_working_path(working_directory, new_file.as_str()),
                        },
                    )
                }
            },
            Action::RunProject { directory, cli_arguments } => plan_tool_run(
                working_directory,
                "run",
                directory,
                cli_arguments,
            ),
            Action::SaveMemory { memory } => Ok(Operation::SaveMemory { text: memory.clone() }),
            Action::SearchDirectory { directory } => {
                if path_escapes(directory.as_str()) {
                    Err(ExecutionError::OutsideWorkingDirectory { path: directory.clone() })
                } else {
                    Ok(
                        Operation::SearchDirectory {
                            path: get_working_path(working_directory, directory.as_str()),
                        },
                    )
                }
            },
            Action::Standby { .. } => Ok(Operation::Complete),
            Action::TestProject { directory, cli_arguments } => plan_tool_run(
                working_directory,
                "test",
                directory,
                cli_arguments,
            ),
            Action::UpdateProjectDependencies { directory, cli_arguments } => plan_tool_run(
                working_directory,
                "update",
                directory,
                cli_arguments,
            ),
            Action::WriteFile { file, content } => {
                if path_escapes(file.as_str()) {
                    Err(ExecutionError::OutsideWorkingDirectory { path: file.clone() })
                } else {
                    Ok(
                        Operation::WriteFile {
                            path: get_working_path(working_directory, file.as_str()),
                            content: content.clone(),
                        },
                    )
                }
            },
        }
    }

    /// Turns what the machine answered to the action's operation into the
    /// result to report, or into the error that stands for a failure.
    pub fn conclude(&self, outcome: Outcome) -> (concluded: Result<ActionResult, ExecutionError>)
        ensures
            result_view(concluded) == self@.result(outcome@),
    {
        match outcome {
            Outcome::Failed(message) => Err(ExecutionError::Failed { message }),
            Outcome::Contents(contents) => match self {
                Action::ReadFile { .. } => Ok(ActionResult::FileContents(contents)),
                _ => Err(ExecutionError::UnexpectedOutcome),
            },
            Outcome::Written { size } => match self {
                Action::WriteFile { file, .. } => Ok(ActionResult::FileCreated(file.clone(), size)),
                _ => Err(ExecutionError::UnexpectedOutcome),
            },
            Outcome::Appended { size_before, size_after } => match self {
                Action::AppendToFile { file, .. } => {
                    let before = match size_before {
                        Some(size) => size,
                        None => 0,
                    };
                    Ok(ActionResult::FileModified(file.clone(), before, size_after))
                },
                _ => Err(ExecutionError::UnexpectedOutcome),
            },
            Outcome::Entries(names) => match self {
                Action::SearchDirectory { directory } => Ok(
                    ActionResult::DirectoryContents(place_entries(directory.as_str(), &names)),
                ),
                _ => Err(ExecutionError::UnexpectedOutcome),
            },
            Outcome::Exited { success, stdout, stderr } => match self {
                Action::CommandLine { .. } => {
                    let mut combined = String::from_str("STDOUT: ");
                    combined.append(stdout.as_str());
                    combined.append(" && STDERR: ");
                    combined.append(stderr.as_str());
                    Ok(ActionResult::CommandOutput(combined))
                },
                _ => if self.is_tool_command() {
                    if success {
                        Ok(ActionResult::CommandOutput(stdout))
                    } else {
                        Ok(ActionResult::CommandOutput(stderr))
                    }
                } else {
                    Err(ExecutionError::UnexpectedOutcome)
                },
            },
            Outcome::Done => match self {
                Action::DeleteFile { file } => Ok(ActionResult::FileDeleted(file.clone())),
                Action::DeleteDirectory { directory } => Ok(
                    ActionResult::FolderDeleted(directory.clone()),
                ),
                Action::RenameFile { current_file, new_file } => Ok(
                    ActionResult::FileRenamed(current_file.clone(), new_file.clone()),
                ),
                Action::ProjectCompleted { .. } => Ok(ActionResult::Success),
                Action::SaveMemory { .. } => Ok(ActionResult::Success),
                Action::Standby { .. } => Ok(ActionResult::Success),
                _ => Err(ExecutionError::UnexpectedOutcome),
            },
        }
    }
}

} // verus!
