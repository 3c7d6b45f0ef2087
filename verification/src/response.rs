//! What the agent answers, and how its text is read.
//!
//! The agent answers with a JSON object:
//!
//! ```text
//! {"thoughts": "...", "reasoning": "...", "action_plan": ["..."],
//!  "constructive_criticism": "...",
//!  "next_command": {"<tag>": { ...fields... }}}
//! ```
//!
//! The tag is the name of an action in lower case, and the object under it
//! holds the fields of that action under their names. Members that are not asked for are
//! passed over. A text that is no JSON, lacks a member, has a member of the
//! wrong kind or names an unknown action is not a response; all of these
//! fail alike, and the failure carries the text as it was.

use crate::action::{Action, ActionView};
use crate::conversation::Chat;
use crate::json::{
    find_member, flag_member, flag_of, json_document, member, parse_document, text_member, text_of,
    texts_member, texts_of, Json,
};
use crate::text::{join, joined, same_text, texts};
use vstd::prelude::*;
use vstd::string::*;

verus! {

/// An answer of the agent, read.
#[derive(Debug, PartialEq, Eq)]
pub struct Response {
    pub action_plan: Vec<String>,
    pub next_command: Action,
    pub reasoning: String,
    pub constructive_criticism: String,
    pub thoughts: String,
}

/// What a [`Response`] says, as mathematics.
pub struct ResponseView {
    pub action_plan: Seq<Seq<char>>,
    pub next_command: ActionView,
    pub reasoning: Seq<char>,
    pub constructive_criticism: Seq<char>,
    pub thoughts: Seq<char>,
}

impl View for Response {
    type V = ResponseView;

    open spec fn view(&self) -> ResponseView {
        ResponseView {
            action_plan: texts(self.action_plan@),
            next_command: self.next_command@,
            reasoning: self.reasoning@,
            constructive_criticism: self.constructive_criticism@,
            thoughts: self.thoughts@,
        }
    }
}

impl ResponseView {
    /// The response as one text, as it is remembered.
    pub open spec fn as_one_string(self) -> Seq<char> {
        "Most Recent Memory: THOUGHTS: "@ + self.thoughts + ". REASONING: "@ + self.reasoning
            + ". ACTION PLAN: "@ + joined(self.action_plan, " "@) + ". NEXT COMMAND: "@
            + self.next_command.variant_string() + ". CONSTRUCTIVE CRITICISM: "@
            + self.constructive_criticism
    }
}

impl Response {
    /// The response as one text, as it is remembered.
    pub fn as_one_string(&self) -> (text: String)
        ensures
            text@ == self@.as_one_string(),
    {
        let plan = join(&self.action_plan, " ");
        let command = self.next_command.to_variant_string();
        let mut text = String::from_str("Most Recent Memory: THOUGHTS: ");
        text.append(self.thoughts.as_str());
        text.append(". REASONING: ");
        text.append(self.reasoning.as_str());
        text.append(". ACTION PLAN: ");
        text.append(plan.as_str());
        text.append(". NEXT COMMAND: ");
        text.append(command.as_str());
        text.append(". CONSTRUCTIVE CRITICISM: ");
        text.append(self.constructive_criticism.as_str());
        text
    }
}

/// A text that could not be read as a response, kept as it was.
#[derive(Debug, PartialEq, Eq)]
pub struct ParseError {
    pub raw_text: String,
}

/// The action that a tag and the fields under it stand for.
pub open spec fn decode_variant(tag: Seq<char>, fields: Seq<(String, Json)>) -> Option<
    ActionView,
> {
    let directory = text_of(member(fields, "directory"@));
    let cli_arguments = texts_of(member(fields, "cli_arguments"@));
    let file = text_of(member(fields, "file"@));
    let content = text_of(member(fields, "content"@));
    if tag == "adddependency"@ {
        if directory is Some && cli_arguments is Some {
            Some(
                ActionView::AddDependency {
                    directory: directory.unwrap(),
                    cli_arguments: cli_arguments.unwrap(),
                },
            )
        } else {
            None
        }
    } else if tag == "appendtofile"@ {
        if file is Some && content is Some {
            Some(ActionView::AppendToFile { file: file.unwrap(), content: content.unwrap() })
        } else {
            None
        }
    } else if tag == "buildproject"@ {
        if directory is Some && cli_arguments is Some {
            Some(
                ActionView::BuildProject {
                    directory: directory.unwrap(),
                    cli_arguments: cli_arguments.unwrap(),
                },
            )
        } else {
            None
        }
    } else if tag == "commandline"@ {
        let command = text_of(member(fields, "command"@));
        let arguments = texts_of(member(fields, "arguments"@));
        if command is Some && arguments is Some {
            Some(
                ActionView::CommandLine {
                    command: command.unwrap(),
                    arguments: arguments.unwrap(),
                },
            )
        } else {
            None
        }
    } else if tag == "deletedirectory"@ {
        if directory is Some {
            Some(ActionView::DeleteDirectory { directory: directory.unwrap() })
        } else {
            None
        }
    } else if tag == "deletefile"@ {
        if file is Some {
            Some(ActionView::DeleteFile { file: file.unwrap() })
        } else {
            None
        }
    } else if tag == "packagesearch"@ {
        if cli_arguments is Some {
            Some(ActionView::PackageSearch { cli_arguments: cli_arguments.unwrap() })
        } else {
            None
        }
    } else if tag == "projectcompleted"@ {
        let close = flag_of(member(fields, "close"@));
        if close is Some {
            Some(ActionView::ProjectCompleted { close: close.unwrap() })
        } else {
            None
        }
    } else if tag == "readfile"@ {
        if file is Some {
            Some(ActionView::ReadFile { file: file.unwrap() })
        } else {
            None
        }
    } else if tag == "removedependency"@ {
        if directory is Some && cli_arguments is Some {
            Some(
                ActionView::RemoveDependency {
                    directory: directory.unwrap(),
                    cli_arguments: cli_arguments.unwrap(),
                },
            )
        } else {
            None
        }
    } else if tag == "renamefile"@ {
        let current_file = text_of(member(fields, "current_file"@));
        let new_file = text_of(member(fields, "new_file"@));
        if current_file is Some && new_file is Some {
            Some(
                ActionView::RenameFile {
                    current_file: current_file.unwrap(),
                    new_file: new_file.unwrap(),
                },
            )
        } else {
            None
        }
    } else if tag == "runproject"@ {
        if directory is Some && cli_arguments is Some {
            Some(
                ActionView::RunProject {
                    directory: directory.unwrap(),
                    cli_arguments: cli_arguments.unwrap(),
                },
            )
        } else {
            None
        }
    } else if tag == "savememory"@ {
        let memory = text_of(member(fields, "memory"@));
        if memory is Some {
            Some(ActionView::SaveMemory { memory: memory.unwrap() })
        } else {
            None
        }
    } else if tag == "searchdirectory"@ {
        if directory is Some {
            Some(ActionView::SearchDirectory { directory: directory.unwrap() })
        } else {
            None
        }
    } else if tag == "standby"@ {
        let completed = flag_of(member(fields, "completed"@));
        if completed is Some {
            Some(ActionView::Standby { completed: completed.unwrap() })
        } else {
            None
        }
    } else if tag == "testproject"@ {
        if directory is Some && cli_arguments is Some {
            Some(
                ActionView::TestProject {
                    directory: directory.unwrap(),
                    cli_arguments: cli_arguments.unwrap(),
                },
            )
        } else {
            None
        }
    } else if tag == "updateprojectdependencies"@ {
        if directory is Some && cli_arguments is Some {
            Some(
                ActionView::UpdateProjectDependencies {
                    directory: directory.unwrap(),
                    cli_arguments: cli_arguments.unwrap(),
                },
            )
        } else {
            None
        }
    } else if tag == "writefile"@ {
        if file is Some && content is Some {
            Some(ActionView::WriteFile { file: file.unwrap(), content: content.unwrap() })
        } else {
            None
        }
    } else {
        None
    }
}

/// The action that a document stands for: an object with one member, whose
/// key is the tag and whose value is the object of the fields.
pub open spec fn decode_action(json: Json) -> Option<ActionView> {
    match json {
        Json::Object(members) => if members@.len() == 1 {
            match members@[0].1 {
                Json::Object(fields) => decode_variant(members@[0].0@, fields@),
                _ => None,
            }
        } else {
            None
        },
        _ => None,
    }
}

/// The response that a document stands for.
pub open spec fn decode_response(json: Json) -> Option<ResponseView> {
    match json {
        Json::Object(members) => {
            let thoughts = text_of(member(members@, "thoughts"@));
            let reasoning = text_of(member(members@, "reasoning"@));
            let action_plan = texts_of(member(members@, "action_plan"@));
            let constructive_criticism = text_of(member(members@, "constructive_criticism"@));
            let next_command = match member(members@, "next_command"@) {
                Some(command) => decode_action(command),
                None => None,
            };
            if thoughts is Some && reasoning is Some && action_plan is Some
                && constructive_criticism is Some && next_command is Some {
                Some(
                    ResponseView {
                        action_plan: action_plan.unwrap(),
                        next_command: next_command.unwrap(),
                        reasoning: reasoning.unwrap(),
                        constructive_criticism: constructive_criticism.unwrap(),
                        thoughts: thoughts.unwrap(),
                    },
                )
            } else {
                None
            }
        },
        _ => None,
    }
}

/// The response that a text stands for, if it stands for one.
pub open spec fn parsed(text: Seq<char>) -> Option<ResponseView> {
    match json_document(text) {
        Some(json) => decode_response(json),
        None => None,
    }
}

/// What reading a text comes to: the response, or the text itself.
pub open spec fn reading(text: Seq<char>) -> Result<ResponseView, Seq<char>> {
    match parsed(text) {
        Some(response) => Ok(response),
        None => Err(text),
    }
}

/// What a result of [`parse_response`] says, as mathematics.
pub open spec fn reading_view(read: Result<Response, ParseError>) -> Result<
    ResponseView,
    Seq<char>,
> {
    match read {
        Ok(response) => Ok(response@),
        Err(error) => Err(error.raw_text@),
    }
}

/// The view of an action that may be missing.
pub open spec fn action_view(action: Option<Action>) -> Option<ActionView> {
    match action {
        Some(action) => Some(action@),
        None => None,
    }
}

/// The view of a response that may be missing.
pub open spec fn response_view(response: Option<Response>) -> Option<ResponseView> {
    match response {
        Some(response) => Some(response@),
        None => None,
    }
}

fn decode_variant_fields(tag: &str, fields: &Vec<(String, Json)>) -> (action: Option<Action>)
    ensures
        action_view(action) == decode_variant(tag@, fields@),
{
    if same_text(tag, "adddependency") {
        match (text_member(fields, "directory"), texts_member(fields, "cli_arguments")) {
            (Some(directory), Some(cli_arguments)) => Some(
                Action::AddDependency { directory, cli_arguments },
            ),
            _ => None,
        }
    } else if same_text(tag, "appendtofile") {
        match (text_member(fields, "file"), text_member(fields, "content")) {
            (Some(file), Some(content)) => Some(Action::AppendToFile { file, content }),
            _ => None,
        }
    } else if same_text(tag, "buildproject") {
        match (text_member(fields, "directory"), texts_member(fields, "cli_arguments")) {
            (Some(directory), Some(cli_arguments)) => Some(
                Action::BuildProject { directory, cli_arguments },
            ),
            _ => None,
        }
    } else if same_text(tag, "commandline") {
        match (text_member(fields, "command"), texts_member(fields, "arguments")) {
            (Some(command), Some(arguments)) => Some(Action::CommandLine { command, arguments }),
            _ => None,
        }
    } else if same_text(tag, "deletedirectory") {
        match text_member(fields, "directory") {
            Some(directory) => Some(Action::DeleteDirectory { directory }),
            None => None,
        }
    } else if same_text(tag, "deletefile") {
        match text_member(fields, "file") {
            Some(file) => Some(Action::DeleteFile { file }),
            None => None,
        }
    } else if same_text(tag, "packagesearch") {
        match texts_member(fields, "cli_arguments") {
            Some(cli_arguments) => Some(Action::PackageSearch { cli_arguments }),
            None => None,
        }
    } else if same_text(tag, "projectcompleted") {
        match flag_member(fields, "close") {
            Some(close) => Some(Action::ProjectCompleted { close }),
            None => None,
        }
    } else if same_text(tag, "readfile") {
        match text_member(fields, "file") {
            Some(file) => Some(Action::ReadFile { file }),
            None => None,
        }
    } else if same_text(tag, "removedependency") {
        match (text_member(fields, "directory"), texts_member(fields, "cli_arguments")) {
            (Some(directory), Some(cli_arguments)) => Some(
                Action::RemoveDependency { directory, cli_arguments },
            ),
            _ => None,
        }
    } else if same_text(tag, "renamefile") {
        match (text_member(fields, "current_file"), text_member(fields, "new_file")) {
            (Some(current_file), Some(new_file)) => Some(
                Action::RenameFile { current_file, new_file },
            ),
            _ => None,
        }
    } else if same_text(tag, "runproject") {
        match (text_member(fields, "directory"), texts_member(fields, "cli_arguments")) {
            (Some(directory), Some(cli_arguments)) => Some(
                Action::RunProject { directory, cli_arguments },
            ),
            _ => None,
        }
    } else if same_text(tag, "savememory") {
        match text_member(fields, "memory") {
            Some(memory) => Some(Action::SaveMemory { memory }),
            None => None,
        }
    } else if same_text(tag, "searchdirectory") {
        match text_member(fields, "directory") {
            Some(directory) => Some(Action::SearchDirectory { directory }),
            None => None,
        }
    } else if same_text(tag, "standby") {
        match flag_member(fields, "completed") {
            Some(completed) => Some(Action::Standby { completed }),
            None => None,
        }
    } else if same_text(tag, "testproject") {
        match (text_member(fields, "directory"), texts_member(fields, "cli_arguments")) {
            (Some(directory), Some(cli_arguments)) => Some(
                Action::TestProject { directory, cli_arguments },
            ),
            _ => None,
        }
    } else if same_text(tag, "updateprojectdependencies") {
        match (text_member(fields, "directory"), texts_member(fields, "cli_arguments")) {
            (Some(directory), Some(cli_arguments)) => Some(
                Action::UpdateProjectDependencies { directory, cli_arguments },
            ),
            _ => None,
        }
    } else if same_text(tag, "writefile") {
        match (text_member(fields, "file"), text_member(fields, "content")) {
            (Some(file), Some(content)) => Some(Action::WriteFile { file, content }),
            _ => None,
        }
    } else {
        None
    }
}

impl Action {
    /// Reads an action from a document: an object with one member, whose key
    /// is the action's tag and whose value holds the action's fields.
    pub fn from_json(json: &Json) -> (action: Option<Action>)
        ensures
            action_view(action) == decode_action(*json),
    {
        match json {
            Json::Object(members) => {
                if members.len() == 1 {
                    match &members[0].1 {
                        Json::Object(fields) => decode_variant_fields(
                            members[0].0.as_str(),
                            fields,
                        ),
                        _ => None,
                    }
                } else {
                    None
                }
            },
            _ => None,
        }
    }
}

impl Response {
    /// Reads a response from a document.
    pub fn from_json(json: &Json) -> (response: Option<Response>)
        ensures
            response_view(response) == decode_response(*json),
    {
        match json {
            Json::Object(members) => {
                let thoughts = text_member(members, "thoughts");
                let reasoning = text_member(members, "reasoning");
                let action_plan = texts_member(members, "action_plan");
                let constructive_criticism = text_member(members, "constructive_criticism");
                let next_command = match find_member(members, "next_command") {
                    Some(command) => Action::from_json(command),
                    None => None,
                };
                match (thoughts, reasoning, action_plan, constructive_criticism, next_command) {
                    (
                        Some(thoughts),
                        Some(reasoning),
                        Some(action_plan),
                        Some(constructive_criticism),
                        Some(next_command),
                    ) => Some(
                        Response {
                            action_plan,
                            next_command,
                            reasoning,
                            constructive_criticism,
                            thoughts,
                        },
                    ),
                    _ => None,
                }
            },
            _ => None,
        }
    }
}

/// Reads a text as a response of the agent. A text that is none comes back
/// unchanged in the error.
pub fn parse_response(text: &str) -> (read: Result<Response, ParseError>)
    ensures
        reading_view(read) == reading(text@),
{
    let response = match parse_document(text) {
        Some(json) => Response::from_json(&json),
        None => None,
    };
    match response {
        Some(response) => Ok(response),
        None => Err(ParseError { raw_text: String::from_str(text) }),
    }
}

impl Chat {
    /// Reads the chat's text as a response of the agent.
    pub fn parse(&self) -> (read: Result<Response, ParseError>)
        ensures
            reading_view(read) == reading(self@.text),
    {
        parse_response(self.text.as_str())
    }
}

/// Reading is a function of the text: whatever two readings of one text
/// return, they say the same.
pub proof fn lemma_reading_twice_agrees(
    text: Seq<char>,
    first: Result<Response, ParseError>,
    second: Result<Response, ParseError>,
)
    requires
        reading_view(first) == reading(text),
        reading_view(second) == reading(text),
    ensures
        reading_view(first) == reading_view(second),
{
}

/// A reading that fails hands back the text exactly.
pub proof fn lemma_failure_keeps_text(text: Seq<char>, read: Result<Response, ParseError>)
    requires
        reading_view(read) == reading(text),
        read is Err,
    ensures
        read->Err_0.raw_text@ == text,
        parsed(text) is None,
{
}

} // verus!
