//! The conversation as it is kept between runs.
//!
//! A stored conversation is a JSON array with one object for each chat, in
//! order:
//!
//! ```text
//! [{"text": "...", "whom": "system"}, {"text": "...", "whom": "user"}]
//! ```
//!
//! Writing always writes the whole conversation. Nothing stored yet, which
//! reads as an empty text, is no conversation at all, and not an error.

use crate::conversation::{chat_views, Chat, ChatView, Conversation, Whom};
use crate::json::{json_document, member, parse_document, text_member, text_of, Json};
use crate::text::same_text;
use vstd::prelude::*;
use vstd::string::*;

verus! {

/// The word that stands for an author in a stored conversation.
pub open spec fn whom_tag(whom: Whom) -> Seq<char> {
    match whom {
        Whom::Agent => "agent"@,
        Whom::System => "system"@,
        Whom::User => "user"@,
    }
}

/// The author that a word stands for, if it stands for one.
pub open spec fn whom_of_tag(tag: Seq<char>) -> Option<Whom> {
    if tag == "agent"@ {
        Some(Whom::Agent)
    } else if tag == "system"@ {
        Some(Whom::System)
    } else if tag == "user"@ {
        Some(Whom::User)
    } else {
        None
    }
}

/// The chat that a document stands for: an object with the text and the
/// author.
pub open spec fn decode_chat(json: Json) -> Option<ChatView> {
    match json {
        Json::Object(members) => {
            let text = text_of(member(members@, "text"@));
            let whom = match text_of(member(members@, "whom"@)) {
                Some(tag) => whom_of_tag(tag),
                None => None,
            };
            if text is Some && whom is Some {
                Some(ChatView { text: text.unwrap(), whom: whom.unwrap() })
            } else {
                None
            }
        },
        _ => None,
    }
}

/// The conversation that a document stands for: an array of chats.
pub open spec fn decode_conversation(json: Json) -> Option<Seq<ChatView>> {
    match json {
        Json::Array(items) => if forall|at: int|
            0 <= at < items@.len() ==> decode_chat(#[trigger] items@[at]) is Some {
            Some(items@.map_values(|item: Json| decode_chat(item).unwrap()))
        } else {
            None
        },
        _ => None,
    }
}

/// Whether a document is the stored form of a chat: an object of exactly
/// the text and the author, in this order.
pub open spec fn encodes_chat(json: Json, chat: ChatView) -> bool {
    &&& json matches Json::Object(members)
    &&& members@.len() == 2
    &&& members@[0].0@ == "text"@
    &&& members@[0].1 matches Json::Text(text)
    &&& text@ == chat.text
    &&& members@[1].0@ == "whom"@
    &&& members@[1].1 matches Json::Text(tag)
    &&& tag@ == whom_tag(chat.whom)
}

/// Whether a document is the stored form of a conversation: the array of
/// the stored forms of its chats, in order.
pub open spec fn encodes(json: Json, chats: Seq<ChatView>) -> bool {
    &&& json matches Json::Array(items)
    &&& items@.len() == chats.len()
    &&& forall|at: int| 0 <= at < chats.len() ==> encodes_chat(#[trigger] items@[at], chats[at])
}

/// Why what is stored cannot be read.
#[derive(Clone, Copy, Debug, PartialEq, Eq, Structural)]
pub enum StoreError {
    /// What is stored is not the stored form of any conversation.
    Malformed,
}

/// What stored contents stand for: no conversation yet, a conversation, or
/// nothing that can be read.
pub open spec fn stored(contents: Seq<char>) -> Result<Option<Seq<ChatView>>, StoreError> {
    if contents.len() == 0 {
        Ok(None)
    } else {
        match json_document(contents) {
            Some(json) => match decode_conversation(json) {
                Some(chats) => Ok(Some(chats)),
                None => Err(StoreError::Malformed),
            },
            None => Err(StoreError::Malformed),
        }
    }
}

/// What a result of [`conversation`] says, as mathematics.
pub open spec fn stored_view(read: Result<Option<Conversation>, StoreError>) -> Result<
    Option<Seq<ChatView>>,
    StoreError,
> {
    match read {
        Ok(Some(conversation)) => Ok(Some(conversation@)),
        Ok(None) => Ok(None),
        Err(error) => Err(error),
    }
}

/// The view of a chat that may be missing.
pub open spec fn chat_view(chat: Option<Chat>) -> Option<ChatView> {
    match chat {
        Some(chat) => Some(chat@),
        None => None,
    }
}

/// The view of a conversation that may be missing.
pub open spec fn conversation_view(conversation: Option<Conversation>) -> Option<Seq<ChatView>> {
    match conversation {
        Some(conversation) => Some(conversation@),
        None => None,
    }
}

/// Every author has a word of its own.
pub proof fn lemma_whom_tag_reads_back(whom: Whom)
    ensures
        whom_of_tag(whom_tag(whom)) == Some(whom),
{
    reveal_strlit("agent");
    reveal_strlit("system");
    reveal_strlit("user");
    assert("agent"@[0] == 'a');
    assert("system"@[0] == 's');
    assert("user"@[0] == 'u');
}

/// The stored form of a chat reads back as the chat.
pub proof fn lemma_stored_chat_reads_back(json: Json, chat: ChatView)
    requires
        encodes_chat(json, chat),
    ensures
        decode_chat(json) == Some(chat),
{
    lemma_whom_tag_reads_back(chat.whom);
    reveal_strlit("text");
    reveal_strlit("whom");
    assert("whom"@[0] == 'w');
    let members = json->Object_0@;
    assert(member(members.drop_first(), "whom"@) == Some(members[1].1));
}

/// What is written reads back as what it was written from: the stored form
/// of a conversation stands for that conversation, chat by chat.
pub proof fn lemma_stored_conversation_reads_back(json: Json, chats: Seq<ChatView>)
    requires
        encodes(json, chats),
    ensures
        decode_conversation(json) == Some(chats),
{
    let items = json->Array_0@;
    assert forall|at: int| 0 <= at < items.len() implies decode_chat(#[trigger] items[at]) == Some(
        chats[at],
    ) by {
        lemma_stored_chat_reads_back(items[at], chats[at]);
    }
}

impl Whom {
    /// The word that stands for the author in a stored conversation.
    pub fn tag(&self) -> (tag: &'static str)
        ensures
            tag@ == whom_tag(*self),
    {
        match self {
            Whom::Agent => "agent",
            Whom::System => "system",
            Whom::User => "user",
        }
    }

    /// The author that a word stands for.
    pub fn from_tag(tag: &str) -> (whom: Option<Whom>)
        ensures
            whom == whom_of_tag(tag@),
    {
        if same_text(tag, "agent") {
            Some(Whom::Agent)
        } else if same_text(tag, "system") {
            Some(Whom::System)
        } else if same_text(tag, "user") {
            Some(Whom::User)
        } else {
            None
        }
    }
}

impl Chat {
    /// The stored form of the chat.
    pub fn to_json(&self) -> (json: Json)
        ensures
            encodes_chat(json, self@),
            decode_chat(json) == Some(self@),
    {
        let mut members: Vec<(String, Json)> = Vec::new();
        members.push((String::from_str("text"), Json::Text(self.text.clone())));
        members.push((String::from_str("whom"), Json::Text(String::from_str(self.whom.tag()))));
        let json = Json::Object(members);
        proof {
            lemma_stored_chat_reads_back(json, self@);
        }
        json
    }

    /// Reads a chat from its stored form.
    pub fn from_json(json: &Json) -> (chat: Option<Chat>)
        ensures
            chat_view(chat) == decode_chat(*json),
    {
        match json {
            Json::Object(members) => {
                let text = text_member(members, "text");
                let whom = match text_member(members, "whom") {
                    Some(tag) => Whom::from_tag(tag.as_str()),
                    None => None,
                };
                match (text, whom) {
                    (Some(text), Some(whom)) => Some(Chat { text, whom }),
                    _ => None,
                }
            },
            _ => None,
        }
    }
}

impl Conversation {
    /// The stored form of the conversation.
    pub fn to_json(&self) -> (json: Json)
        ensures
            encodes(json, self@),
            decode_conversation(json) == Some(self@),
    {
        let mut items: Vec<Json> = Vec::new();
        let mut index: usize = 0;
        while index < self.conversation.len()
            invariant
                index <= self.conversation.len(),
                items@.len() == index,
                forall|at: int|
                    0 <= at < index ==> encodes_chat(
                        #[trigger] items@[at],
                        self.conversation@[at]@,
                    ),
            decreases self.conversation.len() - index,
        {
            items.push(self.conversation[index].to_json());
            index = index + 1;
        }
        let json = Json::Array(items);
        proof {
            lemma_stored_conversation_reads_back(json, self@);
        }
        json
    }

    /// Reads a conversation from its stored form.
    pub fn from_json(json: &Json) -> (conversation: Option<Conversation>)
        ensures
            conversation_view(conversation) == decode_conversation(*json),
    {
        match json {
            Json::Array(items) => {
                let mut chats: Vec<Chat> = Vec::new();
                let mut index: usize = 0;
                while index < items.len()
                    invariant
                        index <= items.len(),
                        chats@.len() == index,
                        *json == Json::Array(*items),
                        forall|at: int|
                            0 <= at < index ==> decode_chat(#[trigger] items@[at]) == Some(
                                chats@[at]@,
                            ),
                    decreases items.len() - index,
                {
                    match Chat::from_json(&items[index]) {
                        Some(chat) => {
                            chats.push(chat);
                        },
                        None => {
                            return None;
                        },
                    }
                    index = index + 1;
                }
                Some(Conversation { conversation: chats })
            },
            _ => None,
        }
    }
}

/// Reads what is stored: no conversation yet where nothing is stored, the
/// conversation where one is, an error where the contents are no stored
/// conversation.
pub fn conversation(contents: &str) -> (read: Result<Option<Conversation>, StoreError>)
    ensures
        stored_view(read) == stored(contents@),
{
    if contents.unicode_len() == 0 {
        return Ok(None);
    }
    match parse_document(contents) {
        Some(json) => match Conversation::from_json(&json) {
            Some(conversation) => Ok(Some(conversation)),
            None => Err(StoreError::Malformed),
        },
        None => Err(StoreError::Malformed),
    }
}

/// The conversation with one more chat, to be stored in place of the one
/// that was read. Where there was none yet, the chat is its first.
pub fn add_chat_to_conversation(existing: Option<Conversation>, chat: Chat) -> (grown: Conversation)
    ensures
        grown@ == match existing {
            Some(conversation) => conversation@,
            None => Seq::empty(),
        }.push(chat@),
{
    let mut grown = match existing {
        Some(conversation) => conversation,
        None => Conversation::new(),
    };
    grown.push(chat);
    grown
}

/// The conversation with more chats, to be stored in place of the one that
/// was read. Where there was none yet, the chats are its first.
pub fn add_chats_to_conversation(existing: Option<Conversation>, chats: Vec<Chat>) -> (grown:
    Conversation)
    ensures
        grown@ == match existing {
            Some(conversation) => conversation@,
            None => Seq::empty(),
        } + chat_views(chats@),
{
    let mut grown = match existing {
        Some(conversation) => conversation,
        None => Conversation::new(),
    };
    grown.extend(chats);
    grown
}

} // verus!
