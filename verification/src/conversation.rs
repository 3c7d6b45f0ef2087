//! The dialogue between the system, the user and the agent.

use vstd::prelude::*;
use vstd::string::*;

verus! {

/// Who wrote a chat.
#[derive(Clone, Copy, Debug, PartialEq, Eq, Structural)]
pub enum Whom {
    Agent,
    System,
    User,
}

/// One turn of the dialogue. A chat is never changed once it exists.
#[derive(Debug, PartialEq, Eq)]
pub struct Chat {
    pub text: String,
    pub whom: Whom,
}

/// What a [`Chat`] says, as mathematics.
pub struct ChatView {
    pub text: Seq<char>,
    pub whom: Whom,
}

impl View for Chat {
    type V = ChatView;

    open spec fn view(&self) -> ChatView {
        ChatView { text: self.text@, whom: self.whom }
    }
}

impl Clone for Chat {
    fn clone(&self) -> (copy: Self)
        ensures
            copy == *self,
    {
        Chat { text: self.text.clone(), whom: self.whom }
    }
}

/// What a list of chats says.
pub open spec fn chat_views(chats: Seq<Chat>) -> Seq<ChatView> {
    chats.map_values(|chat: Chat| chat@)
}

/// The whole dialogue, oldest chat first. It only ever grows at its end.
#[derive(Debug, PartialEq, Eq)]
pub struct Conversation {
    pub conversation: Vec<Chat>,
}

impl View for Conversation {
    type V = Seq<ChatView>;

    open spec fn view(&self) -> Seq<ChatView> {
        chat_views(self.conversation@)
    }
}

/// `longer` holds everything `shorter` holds, in the same places.
pub open spec fn extends(longer: Seq<ChatView>, shorter: Seq<ChatView>) -> bool {
    shorter.len() <= longer.len() && longer.subrange(0, shorter.len() as int) == shorter
}

impl Clone for Conversation {
    fn clone(&self) -> (copy: Self)
        ensures
            copy@ == self@,
    {
        let mut chats: Vec<Chat> = Vec::new();
        let mut index: usize = 0;
        while index < self.conversation.len()
            invariant
                index <= self.conversation.len(),
                chats@ == self.conversation@.subrange(0, index as int),
            decreases self.conversation.len() - index,
        {
            chats.push(self.conversation[index].clone());
            index = index + 1;
        }
        Conversation { conversation: chats }
    }
}

impl Conversation {
    /// A conversation without any chat.
    pub fn new() -> (fresh: Self)
        ensures
            fresh@ == Seq::<ChatView>::empty(),
    {
        Conversation { conversation: Vec::new() }
    }

    /// A fresh conversation with its two pinned chats: the system's prompt,
    /// then the user's objective.
    pub fn seeded(initial_prompt: String, objective: String) -> (fresh: Self)
        ensures
            fresh@ == seq![
                ChatView { text: initial_prompt@, whom: Whom::System },
                ChatView { text: objective@, whom: Whom::User },
            ],
    {
        let mut fresh = Conversation::new();
        fresh.push(Chat { text: initial_prompt, whom: Whom::System });
        fresh.push(Chat { text: objective, whom: Whom::User });
        fresh
    }

    /// The number of chats.
    pub fn len(&self) -> (count: usize)
        ensures
            count == self@.len(),
    {
        self.conversation.len()
    }

    /// The author of the most recent chat, if there is a chat at all.
    pub fn latest_chat_whom(&self) -> (whom: Option<Whom>)
        ensures
            self@.len() == 0 ==> whom is None,
            self@.len() > 0 ==> whom == Some(self@.last().whom),
    {
        let count = self.conversation.len();
        if count == 0 {
            None
        } else {
            Some(self.conversation[count - 1].whom)
        }
    }

    /// A copy of the chat before the most recent one, if there are two.
    pub fn second_to_last_chat(&self) -> (chat: Option<Chat>)
        ensures
            self@.len() < 2 ==> chat is None,
            self@.len() >= 2 ==> chat is Some && chat.unwrap()@ == self@[self@.len() - 2],
    {
        let count = self.conversation.len();
        if count > 1 {
            Some(self.conversation[count - 2].clone())
        } else {
            None
        }
    }

    /// Adds one chat at the end. Nothing that was there before changes.
    pub fn push(&mut self, chat: Chat)
        ensures
            final(self)@ == old(self)@.push(chat@),
            extends(final(self)@, old(self)@),
    {
        self.conversation.push(chat);
        assert(self@.subrange(0, old(self)@.len() as int) =~= old(self)@);
    }

    /// Adds chats at the end, in their order. Nothing that was there before
    /// changes.
    pub fn extend(&mut self, chats: Vec<Chat>)
        ensures
            final(self)@ == old(self)@ + chat_views(chats@),
            extends(final(self)@, old(self)@),
    {
        let mut chats = chats;
        self.conversation.append(&mut chats);
        assert(self@.subrange(0, old(self)@.len() as int) =~= old(self)@);
    }
}

/// The words in which the user's objective is put to the agent.
pub open spec fn objective_text(objective: Seq<char>) -> Seq<char> {
    "Your Objective: "@ + objective
}

/// Puts the user's objective in the words in which the agent is told it.
pub fn get_objective(objective: &str) -> (text: String)
    ensures
        text@ == objective_text(objective@),
{
    let mut text = String::from_str("Your Objective: ");
    text.append(objective);
    text
}

} // verus!
