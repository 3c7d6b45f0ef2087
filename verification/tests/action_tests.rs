use rustacean_gpt::action::{Action, ActionResult};

fn strings(parts: &[&str]) -> Vec<String> {
    parts.iter().map(|part| part.to_string()).collect()
}

#[test]
fn variant_string_of_file_actions() {
    assert_eq!(
        Action::ReadFile { file: "a.txt".to_string() }.to_variant_string(),
        "Read File: file(\"a.txt\")"
    );
    assert_eq!(
        Action::DeleteFile { file: "a.txt".to_string() }.to_variant_string(),
        "Delete File: file(\"a.txt\")"
    );
    assert_eq!(
        Action::WriteFile { file: "out.txt".to_string(), content: "hi".to_string() }
            .to_variant_string(),
        "Write File: file(\"out.txt\"), contents(\"hi\")"
    );
    assert_eq!(
        Action::AppendToFile { file: "out.txt".to_string(), content: "more".to_string() }
            .to_variant_string(),
        "Append To File: file(\"out.txt\"), content(\"more\")"
    );
    assert_eq!(
        Action::RenameFile { current_file: "a".to_string(), new_file: "b".to_string() }
            .to_variant_string(),
        "Rename File: current_file(\"a\"), new_file(\"b\")"
    );
}

#[test]
fn variant_string_of_directory_actions() {
    assert_eq!(
        Action::DeleteDirectory { directory: "old".to_string() }.to_variant_string(),
        "Delete Directory: directory(\"old\")"
    );
    assert_eq!(
        Action::SearchDirectory { directory: "src".to_string() }.to_variant_string(),
        "Search Directory: directory(\"src\")"
    );
}

#[test]
fn variant_string_of_project_actions() {
    let arguments = strings(&["--release", "-q"]);
    assert_eq!(
        Action::BuildProject { directory: "p".to_string(), cli_arguments: arguments.clone() }
            .to_variant_string(),
        "Build Project: directory(\"p\"), cli_arguments(\"--release, -q\")"
    );
    assert_eq!(
        Action::RunProject { directory: "p".to_string(), cli_arguments: vec![] }
            .to_variant_string(),
        "Run Project: directory(\"p\"), cli_arguments(\"\")"
    );
    assert_eq!(
        Action::TestProject { directory: "p".to_string(), cli_arguments: strings(&["x"]) }
            .to_variant_string(),
        "Test Project: directory(\"p\"), cli_arguments(\"x\")"
    );
    assert_eq!(
        Action::AddDependency { directory: "p".to_string(), cli_arguments: strings(&["serde"]) }
            .to_variant_string(),
        "Add Dependency: directory(\"p\"), cli_arguments(\"serde\")"
    );
    assert_eq!(
        Action::RemoveDependency {
            directory: "p".to_string(),
            cli_arguments: strings(&["serde"]),
        }
        .to_variant_string(),
        "Remove Dependency: directory(\"p\"), cli_arguments(\"serde\")"
    );
    assert_eq!(
        Action::UpdateProjectDependencies { directory: "p".to_string(), cli_arguments: vec![] }
            .to_variant_string(),
        "Update Project Dependencies: directory(\"p\"), cli_arguments(\"\")"
    );
    assert_eq!(
        Action::PackageSearch { cli_arguments: strings(&["tokio", "--limit", "1"]) }
            .to_variant_string(),
        "Package Search: cli_arguments(\"tokio, --limit, 1\")"
    );
}

#[test]
fn variant_string_of_the_other_actions() {
    assert_eq!(
        Action::CommandLine { command: "ls".to_string(), arguments: strings(&["-l", "-a"]) }
            .to_variant_string(),
        "Command Line: command(\"ls\"), arguments(\"-l, -a\")"
    );
    assert_eq!(
        Action::SaveMemory { memory: "the sky is blue".to_string() }.to_variant_string(),
        "Save Memory: memory(\"the sky is blue\")"
    );
    assert_eq!(
        Action::Standby { completed: true }.to_variant_string(),
        "Standby: completed(\"true\")"
    );
    assert_eq!(
        Action::Standby { completed: false }.to_variant_string(),
        "Standby: completed(\"false\")"
    );
    assert_eq!(
        Action::ProjectCompleted { close: true }.to_variant_string(),
        "Project Completed: close(\"true\")"
    );
}

#[test]
fn variant_string_of_results_with_text() {
    assert_eq!(
        ActionResult::CommandOutput("done".to_string()).to_variant_string(),
        "Command Output: done"
    );
    assert_eq!(
        ActionResult::FileContents("line\n".to_string()).to_variant_string(),
        "File Contents: line\n"
    );
    assert_eq!(
        ActionResult::Failure("not found".to_string()).to_variant_string(),
        "Failure: not found"
    );
    assert_eq!(ActionResult::Success.to_variant_string(), "Success");
    assert_eq!(
        ActionResult::FileDeleted("a.txt".to_string()).to_variant_string(),
        "File Deleted: a.txt"
    );
    assert_eq!(
        ActionResult::FolderDeleted("old".to_string()).to_variant_string(),
        "Folder Deleted: old"
    );
}

#[test]
fn variant_string_of_directory_contents() {
    assert_eq!(
        ActionResult::DirectoryContents(strings(&["a", "b/c"])).to_variant_string(),
        "Directory Contents: [a, b/c]"
    );
    assert_eq!(
        ActionResult::DirectoryContents(vec![]).to_variant_string(),
        "Directory Contents: []"
    );
}

#[test]
fn variant_string_of_results_with_sizes() {
    assert_eq!(
        ActionResult::FileCreated("out.txt".to_string(), 2).to_variant_string(),
        "File Created: file[out.txt] & size_in_bytes[2]"
    );
    assert_eq!(
        ActionResult::FileModified("out.txt".to_string(), 0, 120).to_variant_string(),
        "File Modified: file[out.txt] & size_in_bytes_before[0] & size_in_bytes_after[120]"
    );
    assert_eq!(
        ActionResult::FileRenamed("a".to_string(), "b".to_string()).to_variant_string(),
        "File Renamed: file_name_before[a] & file_name_after[b]"
    );
}
