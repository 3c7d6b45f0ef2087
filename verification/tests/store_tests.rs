use rustacean_gpt::agent::Role;
use rustacean_gpt::conversation::{Chat, Conversation, Whom};
use rustacean_gpt::json::{parse_document, Json};
use rustacean_gpt::store::{
    add_chat_to_conversation, add_chats_to_conversation, conversation, StoreError,
};

fn chat(text: &str, whom: Whom) -> Chat {
    Chat { text: text.to_string(), whom }
}

fn stored_chat(text: &str, whom: &str) -> Json {
    Json::Object(vec![
        ("text".to_string(), Json::Text(text.to_string())),
        ("whom".to_string(), Json::Text(whom.to_string())),
    ])
}

fn written(json: &Json) -> serde_json::Value {
    match json {
        Json::Null => serde_json::Value::Null,
        Json::Bool(flag) => serde_json::Value::Bool(*flag),
        Json::Number(Some(number)) => serde_json::Value::from(*number),
        Json::Number(None) => serde_json::Value::Null,
        Json::Text(text) => serde_json::Value::String(text.clone()),
        Json::Array(items) => serde_json::Value::Array(items.iter().map(written).collect()),
        Json::Object(members) => serde_json::Value::Object(
            members.iter().map(|(key, item)| (key.clone(), written(item))).collect(),
        ),
    }
}

fn talk() -> Conversation {
    let mut talk = Conversation::seeded("You are an assistant.".to_string(), "Go.".to_string());
    talk.push(chat("{\"thoughts\": \"caf\u{e9}\"}\n", Whom::Agent));
    talk
}

#[test]
fn whom_tags() {
    assert_eq!(Whom::Agent.tag(), "agent");
    assert_eq!(Whom::System.tag(), "system");
    assert_eq!(Whom::User.tag(), "user");
    for whom in [Whom::Agent, Whom::System, Whom::User] {
        assert_eq!(Whom::from_tag(whom.tag()), Some(whom));
    }
    assert_eq!(Whom::from_tag("System"), None);
    assert_eq!(Whom::from_tag(""), None);
    assert_eq!(Whom::from_tag("assistant"), None);
}

#[test]
fn whom_roles() {
    assert_eq!(Whom::Agent.role(), Role::Assistant);
    assert_eq!(Whom::System.role(), Role::System);
    assert_eq!(Whom::User.role(), Role::User);
}

#[test]
fn chat_is_stored_as_text_and_whom() {
    assert_eq!(chat("hello", Whom::User).to_json(), stored_chat("hello", "user"));
    assert_eq!(chat("", Whom::Agent).to_json(), stored_chat("", "agent"));
}

#[test]
fn conversation_is_stored_as_an_array_of_chats() {
    let conversation = Conversation::seeded("p".to_string(), "o".to_string());
    assert_eq!(
        conversation.to_json(),
        Json::Array(vec![stored_chat("p", "system"), stored_chat("o", "user")])
    );
    assert_eq!(Conversation::new().to_json(), Json::Array(vec![]));
}

#[test]
fn stored_conversation_reads_back() {
    let conversation = talk();
    assert_eq!(Conversation::from_json(&conversation.to_json()), Some(talk()));
    assert_eq!(Conversation::from_json(&Conversation::new().to_json()), Some(Conversation::new()));
    for chat in conversation.conversation.iter() {
        assert_eq!(Chat::from_json(&chat.to_json()), Some(chat.clone()));
    }
}

#[test]
fn reading_the_stored_text() {
    let contents =
        "[{\"text\": \"You are an assistant.\", \"whom\": \"system\"}, {\"text\": \"Go.\", \"whom\": \"user\"}]";
    assert_eq!(
        conversation(contents),
        Ok(Some(Conversation::seeded("You are an assistant.".to_string(), "Go.".to_string())))
    );
    assert_eq!(conversation("[]"), Ok(Some(Conversation::new())));
}

#[test]
fn reading_nothing_is_no_conversation() {
    assert_eq!(conversation(""), Ok(None));
}

#[test]
fn reading_what_is_no_stored_conversation_fails() {
    for contents in [
        " ",
        "not json",
        "{}",
        "{\"conversation\": []}",
        "[1]",
        "[{\"text\": \"a\"}]",
        "[{\"whom\": \"user\"}]",
        "[{\"text\": \"a\", \"whom\": \"nobody\"}]",
        "[{\"text\": \"a\", \"whom\": \"User\"}]",
        "[{\"text\": 1, \"whom\": \"user\"}]",
        "[{\"text\": \"a\", \"whom\": \"user\"}, null]",
        "[{\"text\": \"a\", \"whom\": \"user\"}",
    ] {
        assert_eq!(conversation(contents), Err(StoreError::Malformed));
    }
}

#[test]
fn reading_passes_over_members_that_are_not_asked_for() {
    assert_eq!(
        conversation("[{\"id\": 7, \"text\": \"a\", \"whom\": \"agent\"}]"),
        Ok(Some(Conversation { conversation: vec![chat("a", Whom::Agent)] }))
    );
}

#[test]
fn chat_from_json_refuses_other_documents() {
    assert_eq!(Chat::from_json(&Json::Null), None);
    assert_eq!(Chat::from_json(&Json::Array(vec![])), None);
    assert_eq!(Chat::from_json(&Json::Object(vec![])), None);
    assert_eq!(Conversation::from_json(&Json::Object(vec![])), None);
    assert_eq!(Conversation::from_json(&Json::Array(vec![Json::Null])), None);
}

#[test]
fn stored_form_agrees_with_the_written_format() {
    let written = "[{\"text\":\"p\",\"whom\":\"system\"},{\"text\":\"o\",\"whom\":\"user\"}]";
    assert_eq!(
        parse_document(written),
        Some(Conversation::seeded("p".to_string(), "o".to_string()).to_json())
    );
}

#[test]
fn adding_a_chat_to_no_conversation_starts_one() {
    let grown = add_chat_to_conversation(None, chat("first", Whom::System));
    assert_eq!(grown.conversation, vec![chat("first", Whom::System)]);
}

#[test]
fn adding_a_chat_keeps_the_conversation() {
    let grown = add_chat_to_conversation(Some(talk()), chat("next", Whom::System));
    assert_eq!(grown.len(), 4);
    assert_eq!(&grown.conversation[..3], &talk().conversation[..]);
    assert_eq!(grown.conversation[3], chat("next", Whom::System));
}

#[test]
fn adding_chats_keeps_their_order() {
    let chats = vec![chat("p", Whom::System), chat("o", Whom::User)];
    assert_eq!(
        add_chats_to_conversation(None, chats),
        Conversation::seeded("p".to_string(), "o".to_string())
    );
    let grown = add_chats_to_conversation(
        Some(talk()),
        vec![chat("a", Whom::System), chat("b", Whom::Agent)],
    );
    assert_eq!(grown.len(), 5);
    assert_eq!(&grown.conversation[..3], &talk().conversation[..]);
    assert_eq!(grown.conversation[3], chat("a", Whom::System));
    assert_eq!(grown.conversation[4], chat("b", Whom::Agent));
}

#[test]
fn written_conversation_reads_back() {
    for stored in [talk(), Conversation::new(), Conversation::seeded("p".to_string(), "o".to_string())]
    {
        let contents = serde_json::to_string(&written(&stored.to_json())).unwrap();
        assert_eq!(conversation(&contents), Ok(Some(stored)));
    }
}

#[test]
fn conversation_is_written_in_the_stored_format() {
    let contents = serde_json::to_string(&written(
        &Conversation::seeded("p".to_string(), "o".to_string()).to_json(),
    ))
    .unwrap();
    let with_order = "[{\"text\":\"p\",\"whom\":\"system\"},{\"text\":\"o\",\"whom\":\"user\"}]";
    assert_eq!(contents, with_order);
}
