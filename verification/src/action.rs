//! The actions an agent may ask for, and what comes of them.

use crate::text::{decimal, decimal_string, join, joined, texts, truth, truth_string};
use vstd::prelude::*;
use vstd::string::*;

verus! {

/// One operation out of the fixed vocabulary that the agent may choose from.
#[derive(Debug, PartialEq, Eq)]
pub enum Action {
    AddDependency { directory: String, cli_arguments: Vec<String> },
    AppendToFile { file: String, content: String },
    BuildProject { directory: String, cli_arguments: Vec<String> },
    CommandLine { command: String, arguments: Vec<String> },
    DeleteDirectory { directory: String },
    DeleteFile { file: String },
    PackageSearch { cli_arguments: Vec<String> },
    /// The agent has reached its objective. The flag carries no meaning.
    ProjectCompleted { close: bool },
    ReadFile { file: String },
    RemoveDependency { directory: String, cli_arguments: Vec<String> },
    RenameFile { current_file: String, new_file: String },
    RunProject { directory: String, cli_arguments: Vec<String> },
    SaveMemory { memory: String },
    SearchDirectory { directory: String },
    /// The agent has nothing more to do. The flag carries no meaning.
    Standby { completed: bool },
    TestProject { directory: String, cli_arguments: Vec<String> },
    UpdateProjectDependencies { directory: String, cli_arguments: Vec<String> },
    WriteFile { file: String, content: String },
}

/// What an [`Action`] says, as mathematics.
pub enum ActionView {
    AddDependency { directory: Seq<char>, cli_arguments: Seq<Seq<char>> },
    AppendToFile { file: Seq<char>, content: Seq<char> },
    BuildProject { directory: Seq<char>, cli_arguments: Seq<Seq<char>> },
    CommandLine { command: Seq<char>, arguments: Seq<Seq<char>> },
    DeleteDirectory { directory: Seq<char> },
    DeleteFile { file: Seq<char> },
    PackageSearch { cli_arguments: Seq<Seq<char>> },
    ProjectCompleted { close: bool },
    ReadFile { file: Seq<char> },
    RemoveDependency { directory: Seq<char>, cli_arguments: Seq<Seq<char>> },
    RenameFile { current_file: Seq<char>, new_file: Seq<char> },
    RunProject { directory: Seq<char>, cli_arguments: Seq<Seq<char>> },
    SaveMemory { memory: Seq<char> },
    SearchDirectory { directory: Seq<char> },
    Standby { completed: bool },
    TestProject { directory: Seq<char>, cli_arguments: Seq<Seq<char>> },
    UpdateProjectDependencies { directory: Seq<char>, cli_arguments: Seq<Seq<char>> },
    WriteFile { file: Seq<char>, content: Seq<char> },
}

impl View for Action {
    type V = ActionView;

    open spec fn view(&self) -> ActionView {
        match *self {
            Action::AddDependency { directory, cli_arguments } => ActionView::AddDependency {
                directory: directory@,
                cli_arguments: texts(cli_arguments@),
            },
            Action::AppendToFile { file, content } => ActionView::AppendToFile {
                file: file@,
                content: content@,
            },
            Action::BuildProject { directory, cli_arguments } => ActionView::BuildProject {
                directory: directory@,
                cli_arguments: texts(cli_arguments@),
            },
            Action::CommandLine { command, arguments } => ActionView::CommandLine {
                command: command@,
                arguments: texts(arguments@),
            },
            Action::DeleteDirectory { directory } => ActionView::DeleteDirectory {
                directory: directory@,
            },
            Action::DeleteFile { file } => ActionView::DeleteFile { file: file@ },
            Action::PackageSearch { cli_arguments } => ActionView::PackageSearch {
                cli_arguments: texts(cli_arguments@),
            },
            Action::ProjectCompleted { close } => ActionView::ProjectCompleted { close },
            Action::ReadFile { file } => ActionView::ReadFile { file: file@ },
            Action::RemoveDependency { directory, cli_arguments } => ActionView::RemoveDependency {
                directory: directory@,
                cli_arguments: texts(cli_arguments@),
            },
            Action::RenameFile { current_file, new_file } => ActionView::RenameFile {
                current_file: current_file@,
                new_file: new_file@,
            },
            Action::RunProject { directory, cli_arguments } => ActionView::RunProject {
                directory: directory@,
                cli_arguments: texts(cli_arguments@),
            },
            Action::SaveMemory { memory } => ActionView::SaveMemory { memory: memory@ },
            Action::SearchDirectory { directory } => ActionView::SearchDirectory {
                directory: directory@,
            },
            Action::Standby { completed } => ActionView::Standby { completed },
            Action::TestProject { directory, cli_arguments } => ActionView::TestProject {
                directory: directory@,
                cli_arguments: texts(cli_arguments@),
            },
            Action::UpdateProjectDependencies {
                directory,
                cli_arguments,
            } => ActionView::UpdateProjectDependencies {
                directory: directory@,
                cli_arguments: texts(cli_arguments@),
            },
            Action::WriteFile { file, content } => ActionView::WriteFile {
                file: file@,
                content: content@,
            },
        }
    }
}

/// A value under its label: `label("value")`.
pub open spec fn labelled(label: Seq<char>, value: Seq<char>) -> Seq<char> {
    label + "(\""@ + value + "\")"@
}

/// A title and the one thing it is said of: `title: first`.
pub open spec fn described(title: Seq<char>, first: Seq<char>) -> Seq<char> {
    title + ": "@ + first
}

/// A title and the two things it is said of: `title: first, second`.
pub open spec fn described_twice(title: Seq<char>, first: Seq<char>, second: Seq<char>) -> Seq<
    char,
> {
    title + ": "@ + first + ", "@ + second
}

/// The line for an action that names a directory and arguments.
pub open spec fn described_project(
    title: Seq<char>,
    directory: Seq<char>,
    cli_arguments: Seq<Seq<char>>,
) -> Seq<char> {
    described_twice(
        title,
        labelled("directory"@, directory),
        labelled("cli_arguments"@, joined(cli_arguments, ", "@)),
    )
}

impl ActionView {
    /// The action in one line, for a person to read.
    pub open spec fn variant_string(self) -> Seq<char> {
        match self {
            ActionView::AddDependency { directory, cli_arguments } => described_project(
                "Add Dependency"@,
                directory,
                cli_arguments,
            ),
            ActionView::AppendToFile { file, content } => described_twice(
                "Append To File"@,
                labelled("file"@, file),
                labelled("content"@, content),
            ),
            ActionView::BuildProject { directory, cli_arguments } => described_project(
                "Build Project"@,
                directory,
                cli_arguments,
            ),
            ActionView::CommandLine { command, arguments } => described_twice(
                "Command Line"@,
                labelled("command"@, command),
                labelled("arguments"@, joined(arguments, ", "@)),
            ),
            ActionView::DeleteDirectory { directory } => described(
                "Delete Directory"@,
                labelled("directory"@, directory),
            ),
            ActionView::DeleteFile { file } => described("Delete File"@, labelled("file"@, file)),
            ActionView::PackageSearch { cli_arguments } => described(
                "Package Search"@,
                labelled("cli_arguments"@, joined(cli_arguments, ", "@)),
            ),
            ActionView::ProjectCompleted { close } => described(
                "Project Completed"@,
                labelled("close"@, truth(close)),
            ),
            ActionView::ReadFile { file } => described("Read File"@, labelled("file"@, file)),
            ActionView::RemoveDependency { directory, cli_arguments } => described_project(
                "Remove Dependency"@,
                directory,
                cli_arguments,
            ),
            ActionView::RenameFile { current_file, new_file } => described_twice(
                "Rename File"@,
                labelled("current_file"@, current_file),
                labelled("new_file"@, new_file),
            ),
            ActionView::RunProject { directory, cli_arguments } => described_project(
                "Run Project"@,
                directory,
                cli_arguments,
            ),
            ActionView::SaveMemory { memory } => described(
                "Save Memory"@,
                labelled("memory"@, memory),
            ),
            ActionView::SearchDirectory { directory } => described(
                "Search Directory"@,
                labelled("directory"@, directory),
            ),
            ActionView::Standby { completed } => described(
                "Standby"@,
                labelled("completed"@, truth(completed)),
            ),
            ActionView::TestProject { directory, cli_arguments } => described_project(
                "Test Project"@,
                directory,
                cli_arguments,
            ),
            ActionView::UpdateProjectDependencies { directory, cli_arguments } => described_project(
                "Update Project Dependencies"@,
                directory,
                cli_arguments,
            ),
            ActionView::WriteFile { file, content } => described_twice(
                "Write File"@,
                labelled("file"@, file),
                labelled("contents"@, content),
            ),
        }
    }
}

fn labelled_string(label: &str, value: &str) -> (text: String)
    ensures
        text@ == labelled(label@, value@),
{
    let mut text = String::from_str(label);
    text.append("(\"");
    text.append(value);
    text.append("\")");
    text
}

fn describe(title: &str, first: &String) -> (text: String)
    ensures
        text@ == described(title@, first@),
{
    let mut text = String::from_str(title);
    text.append(": ");
    text.append(first.as_str());
    text
}

fn describe_twice(title: &str, first: &String, second: &String) -> (text: String)
    ensures
        text@ == described_twice(title@, first@, second@),
{
    let mut text = String::from_str(title);
    text.append(": ");
    text.append(first.as_str());
    text.append(", ");
    text.append(second.as_str());
    text
}

fn describe_project(title: &str, directory: &String, cli_arguments: &Vec<String>) -> (text: String)
    ensures
        text@ == described_project(title@, directory@, texts(cli_arguments@)),
{
    let arguments = join(cli_arguments, ", ");
    describe_twice(
        title,
        &labelled_string("directory", directory.as_str()),
        &labelled_string("cli_arguments", arguments.as_str()),
    )
}

impl Action {
    /// The action in one line, for a person to read.
    pub fn to_variant_string(&self) -> (text: String)
        ensures
            text@ == self@.variant_string(),
    {
        match self {
            Action::AddDependency { directory, cli_arguments } => describe_project(
                "Add Dependency",
                directory,
                cli_arguments,
            ),
            Action::AppendToFile { file, content } => describe_twice(
                "Append To File",
                &labelled_string("file", file.as_str()),
                &labelled_string("content", content.as_str()),
            ),
            Action::BuildProject { directory, cli_arguments } => describe_project(
                "Build Project",
                directory,
                cli_arguments,
            ),
            Action::CommandLine { command, arguments } => {
                let all = join(arguments, ", ");
                describe_twice(
                    "Command Line",
                    &labelled_string("command", command.as_str()),
                    &labelled_string("arguments", all.as_str()),
                )
            },
            Action::DeleteDirectory { directory } => describe(
                "Delete Directory",
                &labelled_string("directory", directory.as_str()),
            ),
            Action::DeleteFile { file } => describe(
                "Delete File",
                &labelled_string("file", file.as_str()),
            ),
            Action::PackageSearch { cli_arguments } => {
                let all = join(cli_arguments, ", ");
                describe("Package Search", &labelled_string("cli_arguments", all.as_str()))
            },
            Action::ProjectCompleted { close } => {
                let flag = truth_string(*close);
                describe("Project Completed", &labelled_string("close", flag.as_str()))
            },
            Action::ReadFile { file } => describe(
                "Read File",
                &labelled_string("file", file.as_str()),
            ),
            Action::RemoveDependency { directory, cli_arguments } => describe_project(
                "Remove Dependency",
                directory,
                cli_arguments,
            ),
            Action::RenameFile { current_file, new_file } => describe_twice(
                "Rename File",
                &labelled_string("current_file", current_file.as_str()),
                &labelled_string("new_file", new_file.as_str()),
            ),
            Action::RunProject { directory, cli_arguments } => describe_project(
                "Run Project",
                directory,
                cli_arguments,
            ),
            Action::SaveMemory { memory } => describe(
                "Save Memory",
                &labelled_string("memory", memory.as_str()),
            ),
            Action::SearchDirectory { directory } => describe(
                "Search Directory",
                &labelled_string("directory", directory.as_str()),
            ),
            Action::Standby { completed } => {
                let flag = truth_string(*completed);
                describe("Standby", &labelled_string("completed", flag.as_str()))
            },
            Action::TestProject { directory, cli_arguments } => describe_project(
                "Test Project",
                directory,
                cli_arguments,
            ),
            Action::UpdateProjectDependencies { directory, cli_arguments } => describe_project(
                "Update Project Dependencies",
                directory,
                cli_arguments,
            ),
            Action::WriteFile { file, content } => describe_twice(
                "Write File",
                &labelled_string("file", file.as_str()),
                &labelled_string("contents", content.as_str()),
            ),
        }
    }
}

/// What came of an action.
#[derive(Debug, PartialEq, Eq)]
pub enum ActionResult {
    CommandOutput(String),
    DirectoryContents(Vec<String>),
    Failure(String),
    FileContents(String),
    /// A file and its size in bytes once written.
    FileCreated(String, u64),
    FileDeleted(String),
    /// A file and its size in bytes before and after.
    FileModified(String, u64, u64),
    /// A file's name before and after.
    FileRenamed(String, String),
    FolderDeleted(String),
    Success,
}

/// What an [`ActionResult`] says, as mathematics.
pub enum ActionResultView {
    CommandOutput(Seq<char>),
    DirectoryContents(Seq<Seq<char>>),
    Failure(Seq<char>),
    FileContents(Seq<char>),
    FileCreated(Seq<char>, u64),
    FileDeleted(Seq<char>),
    FileModified(Seq<char>, u64, u64),
    FileRenamed(Seq<char>, Seq<char>),
    FolderDeleted(Seq<char>),
    Success,
}

impl View for ActionResult {
    type V = ActionResultView;

    open spec fn view(&self) -> ActionResultView {
        match *self {
            ActionResult::CommandOutput(output) => ActionResultView::CommandOutput(output@),
            ActionResult::DirectoryContents(entries) => ActionResultView::DirectoryContents(
                texts(entries@),
            ),
            ActionResult::Failure(message) => ActionResultView::Failure(message@),
            ActionResult::FileContents(contents) => ActionResultView::FileContents(contents@),
            ActionResult::FileCreated(file, size) => ActionResultView::FileCreated(file@, size),
            ActionResult::FileDeleted(file) => ActionResultView::FileDeleted(file@),
            ActionResult::FileModified(file, before, after) => ActionResultView::FileModified(
                file@,
                before,
                after,
            ),
            ActionResult::FileRenamed(before, after) => ActionResultView::FileRenamed(
                before@,
                after@,
            ),
            ActionResult::FolderDeleted(directory) => ActionResultView::FolderDeleted(directory@),
            ActionResult::Success => ActionResultView::Success,
        }
    }
}

/// A value in square brackets under its label: `label[value]`.
pub open spec fn bracketed(label: Seq<char>, value: Seq<char>) -> Seq<char> {
    label + "["@ + value + "]"@
}

impl ActionResultView {
    /// The result in one line, for a person or the agent to read.
    pub open spec fn variant_string(self) -> Seq<char> {
        match self {
            ActionResultView::CommandOutput(output) => described("Command Output"@, output),
            ActionResultView::DirectoryContents(entries) => described(
                "Directory Contents"@,
                bracketed(Seq::empty(), joined(entries, ", "@)),
            ),
            ActionResultView::Failure(message) => described("Failure"@, message),
            ActionResultView::FileContents(contents) => described("File Contents"@, contents),
            ActionResultView::FileCreated(file, size) => described(
                "File Created"@,
                bracketed("file"@, file) + " & "@ + bracketed(
                    "size_in_bytes"@,
                    decimal(size as nat),
                ),
            ),
            ActionResultView::FileDeleted(file) => described("File Deleted"@, file),
            ActionResultView::FileModified(file, before, after) => described(
                "File Modified"@,
                bracketed("file"@, file) + " & "@ + bracketed(
                    "size_in_bytes_before"@,
                    decimal(before as nat),
                ) + " & "@ + bracketed("size_in_bytes_after"@, decimal(after as nat)),
            ),
            ActionResultView::FileRenamed(before, after) => described(
                "File Renamed"@,
                bracketed("file_name_before"@, before) + " & "@ + bracketed(
                    "file_name_after"@,
                    after,
                ),
            ),
            ActionResultView::FolderDeleted(directory) => described("Folder Deleted"@, directory),
            ActionResultView::Success => "Success"@,
        }
    }
}

fn bracketed_string(label: &str, value: &str) -> (text: String)
    ensures
        text@ == bracketed(label@, value@),
{
    let mut text = String::from_str(label);
    text.append("[");
    text.append(value);
    text.append("]");
    text
}

impl ActionResult {
    /// The result in one line, for a person or the agent to read.
    pub fn to_variant_string(&self) -> (text: String)
        ensures
            text@ == self@.variant_string(),
    {
        match self {
            ActionResult::CommandOutput(output) => describe("Command Output", output),
            ActionResult::DirectoryContents(entries) => {
                let all = join(entries, ", ");
                let mut listed = String::new();
                listed.append("[");
                listed.append(all.as_str());
                listed.append("]");
                describe("Directory Contents", &listed)
            },
            ActionResult::Failure(message) => describe("Failure", message),
            ActionResult::FileContents(contents) => describe("File Contents", contents),
            ActionResult::FileCreated(file, size) => {
                let mut facts = bracketed_string("file", file.as_str());
                facts.append(" & ");
                let bytes = decimal_string(*size);
                facts.append(bracketed_string("size_in_bytes", bytes.as_str()).as_str());
                describe("File Created", &facts)
            },
            ActionResult::FileDeleted(file) => describe("File Deleted", file),
            ActionResult::FileModified(file, before, after) => {
                let mut facts = bracketed_string("file", file.as_str());
                facts.append(" & ");
                let bytes_before = decimal_string(*before);
                let bytes_after = decimal_string(*after);
                facts.append(
                    bracketed_string("size_in_bytes_before", bytes_before.as_str()).as_str(),
                );
                facts.append(" & ");
                facts.append(
                    bracketed_string("size_in_bytes_after", bytes_after.as_str()).as_str(),
                );
                describe("File Modified", &facts)
            },
            ActionResult::FileRenamed(before, after) => {
                let mut facts = bracketed_string("file_name_before", before.as_str());
                facts.append(" & ");
                facts.append(bracketed_string("file_name_after", after.as_str()).as_str());
                describe("File Renamed", &facts)
            },
            ActionResult::FolderDeleted(directory) => describe("Folder Deleted", directory),
            ActionResult::Success => String::from_str("Success"),
        }
    }
}

} // verus!
