//! The loop that drives the agent, as a state machine.
//!
//! The loop is in one state at a time. In every state but the first and the
//! last it waits for something that only the outside world can give: the
//! memories that resemble a text, the agent's reply to a prompt, the outcome
//! of an operation. [`MainLoop::step`] takes what came as an [`Event`],
//! moves to the next state, and answers with the [`Command`] that says what
//! to fetch next. The caller performs commands and reports events; it decides
//! nothing.
//!
//! The conversation only ever grows. It is what the loop remembers: stopped
//! at any point and started again from the stored conversation, the loop
//! picks up where it was.

use crate::action::{ActionResult, ActionResultView};
use crate::agent::{assembled_context, GPT};
use crate::conversation::{chat_views, extends, Chat, ChatView, Conversation, Whom};
use crate::execution::{
    result_view, ExecutionError, ExecutionErrorView, Operation, OperationView, Outcome,
    OutcomeView,
};
use crate::response::{
    parse_response, parsed, reading, reading_view, ParseError, Response, ResponseView,
};
use crate::text::{clone_texts, texts};
use vstd::prelude::*;
use vstd::string::*;

verus! {

/// Where the loop stands.
#[derive(Clone, Copy, Debug, PartialEq, Eq, Structural)]
pub enum LoopState {
    /// Nothing has happened yet.
    Initializing,
    /// Waiting for the memories that resemble a text.
    QueryMemory,
    /// Waiting for the agent's reply.
    GetAgentResponse,
    /// Waiting for the outcome of the agent's action.
    TakeAction,
    /// Done, for good.
    Exit,
}

/// Something that happened outside and is reported to the loop.
#[derive(Debug, PartialEq, Eq)]
pub enum Event {
    /// The loop is started.
    Started,
    /// The memories that were asked for, the most relevant first.
    MemoriesFound(Vec<String>),
    /// The agent's reply, as it came.
    AgentReplied(String),
    /// The agent refused the prompt because it was too long.
    ContextLengthExceeded,
    /// The agent or the memory failed in any other way.
    GatewayFailed(String),
    /// The outcome of the operation that was to be performed.
    ActionPerformed(Outcome),
}

/// What an [`Event`] says, as mathematics.
pub enum EventView {
    Started,
    MemoriesFound(Seq<Seq<char>>),
    AgentReplied(Seq<char>),
    ContextLengthExceeded,
    GatewayFailed(Seq<char>),
    ActionPerformed(OutcomeView),
}

impl View for Event {
    type V = EventView;

    open spec fn view(&self) -> EventView {
        match *self {
            Event::Started => EventView::Started,
            Event::MemoriesFound(ranked) => EventView::MemoriesFound(texts(ranked@)),
            Event::AgentReplied(reply) => EventView::AgentReplied(reply@),
            Event::ContextLengthExceeded => EventView::ContextLengthExceeded,
            Event::GatewayFailed(message) => EventView::GatewayFailed(message@),
            Event::ActionPerformed(outcome) => EventView::ActionPerformed(outcome@),
        }
    }
}

/// What the caller is to do next.
#[derive(Debug, PartialEq, Eq)]
pub enum Command {
    /// Find the memories that resemble the text, and report them.
    QueryMemory { text: String },
    /// Show the agent the prompt, and report its reply.
    GetAgentResponse { context: Vec<Chat> },
    /// Perform the operation, and report its outcome.
    Perform { operation: Operation },
    /// End: the agent is done.
    Stop,
    /// End: something failed that the loop cannot recover from.
    Fail { message: String },
    /// Nothing: the event is not one that the loop was waiting for.
    Ignored,
}

/// What a [`Command`] says, as mathematics.
pub enum CommandView {
    QueryMemory { text: Seq<char> },
    GetAgentResponse { context: Seq<ChatView> },
    Perform { operation: OperationView },
    Stop,
    Fail { message: Seq<char> },
    Ignored,
}

impl View for Command {
    type V = CommandView;

    open spec fn view(&self) -> CommandView {
        match *self {
            Command::QueryMemory { text } => CommandView::QueryMemory { text: text@ },
            Command::GetAgentResponse { context } => CommandView::GetAgentResponse {
                context: chat_views(context@),
            },
            Command::Perform { operation } => CommandView::Perform { operation: operation@ },
            Command::Stop => CommandView::Stop,
            Command::Fail { message } => CommandView::Fail { message: message@ },
            Command::Ignored => CommandView::Ignored,
        }
    }
}

/// The loop: what is configured, what it remembers, and where it stands.
#[derive(Debug, PartialEq, Eq)]
pub struct MainLoop {
    pub agent: GPT,
    pub working_directory: String,
    /// What the agent is told, after its own words, when its reply cannot be
    /// read.
    pub help_text_for_ai_parsing_errors: String,
    pub conversation: Conversation,
    /// The memories that were found last, the most relevant first.
    pub related_memories: Vec<String>,
    /// How many of the oldest chats are kept from the agent by force.
    pub number_of_messages_to_remove: usize,
    pub current_state: LoopState,
}

/// What a [`MainLoop`] holds, as mathematics.
pub struct MainLoopView {
    pub history_budget: u16,
    pub memory_budget: u16,
    pub working_directory: Seq<char>,
    pub help_text: Seq<char>,
    pub conversation: Seq<ChatView>,
    pub related_memories: Seq<Seq<char>>,
    pub number_of_messages_to_remove: usize,
    pub current_state: LoopState,
}

impl View for MainLoop {
    type V = MainLoopView;

    open spec fn view(&self) -> MainLoopView {
        MainLoopView {
            history_budget: self.agent.tokens_reserved_for_history,
            memory_budget: self.agent.tokens_reserved_for_memories,
            working_directory: self.working_directory@,
            help_text: self.help_text_for_ai_parsing_errors@,
            conversation: self.conversation@,
            related_memories: texts(self.related_memories@),
            number_of_messages_to_remove: self.number_of_messages_to_remove,
            current_state: self.current_state,
        }
    }
}

/// By how much the number of chats to drop grows when a prompt was too long.
pub const DROP_INCREMENT: usize = 5;

/// The number of chats to drop after one more prompt was too long.
pub open spec fn bumped(dropped: usize) -> usize {
    if dropped <= usize::MAX - DROP_INCREMENT {
        (dropped + DROP_INCREMENT) as usize
    } else {
        usize::MAX
    }
}

/// A chat of the system.
pub open spec fn system_chat(text: Seq<char>) -> ChatView {
    ChatView { text, whom: Whom::System }
}

/// What the agent is told when its reply cannot be read: its own words, and
/// the help text on a line of its own.
pub open spec fn feedback(raw_text: Seq<char>, help_text: Seq<char>) -> Seq<char> {
    raw_text + "\n"@ + help_text
}

/// What the agent is told of its action: the result, or the failure.
pub open spec fn report(result: Result<ActionResultView, ExecutionErrorView>) -> Seq<char> {
    match result {
        Ok(result) => result.variant_string(),
        Err(error) => ActionResultView::Failure(error.message()).variant_string(),
    }
}

/// What an agent's chat is remembered by: the response in one text where the
/// chat can be read as one, the chat's text as it is where it cannot.
pub open spec fn remembered(text: Seq<char>) -> Seq<char> {
    match parsed(text) {
        Some(response) => response.as_one_string(),
        None => text,
    }
}

/// The position of the agent's most recent chat, if the agent has said
/// anything.
pub open spec fn last_agent_chat(chats: Seq<ChatView>) -> Option<int>
    decreases chats.len(),
{
    if chats.len() == 0 {
        None
    } else if chats.last().whom == Whom::Agent {
        Some(chats.len() - 1)
    } else {
        last_agent_chat(chats.drop_last())
    }
}

/// The text by which memories are looked for: what the agent's most recent
/// chat is remembered by if the agent has said anything, the text of the
/// latest chat otherwise, and nothing for an empty conversation.
pub open spec fn representative_text(chats: Seq<ChatView>) -> Seq<char> {
    match last_agent_chat(chats) {
        Some(position) => remembered(chats[position].text),
        None => if chats.len() >= 1 {
            chats.last().text
        } else {
            Seq::empty()
        },
    }
}

/// The agent's most recent chat is a chat of the agent, and no chat after it
/// is; where there is none, no chat is the agent's.
pub proof fn lemma_last_agent_chat(chats: Seq<ChatView>)
    ensures
        match last_agent_chat(chats) {
            Some(position) => {
                &&& 0 <= position < chats.len()
                &&& chats[position].whom == Whom::Agent
                &&& forall|later: int|
                    position < later < chats.len() ==> (#[trigger] chats[later]).whom
                        != Whom::Agent
            },
            None => forall|at: int| 0 <= at < chats.len() ==> (#[trigger] chats[at]).whom
                != Whom::Agent,
        },
    decreases chats.len(),
{
    if chats.len() > 0 && chats.last().whom != Whom::Agent {
        lemma_last_agent_chat(chats.drop_last());
        assert forall|at: int| 0 <= at < chats.len() - 1 implies chats[at]
            == chats.drop_last()[at] by {}
    }
}

impl MainLoopView {
    /// The loop with one more chat at the end of the conversation.
    pub open spec fn said(self, chat: ChatView) -> MainLoopView {
        MainLoopView { conversation: self.conversation.push(chat), ..self }
    }

    /// The loop in another state.
    pub open spec fn moved(self, state: LoopState) -> MainLoopView {
        MainLoopView { current_state: state, ..self }
    }

    /// On to looking for memories.
    pub open spec fn query_memory(self) -> (MainLoopView, CommandView) {
        (
            self.moved(LoopState::QueryMemory),
            CommandView::QueryMemory { text: representative_text(self.conversation) },
        )
    }

    /// On to asking the agent, with the prompt that fits the budgets.
    pub open spec fn get_agent_response(self) -> (MainLoopView, CommandView) {
        (
            self.moved(LoopState::GetAgentResponse),
            CommandView::GetAgentResponse {
                context: assembled_context(
                    self.conversation,
                    self.related_memories,
                    self.number_of_messages_to_remove as nat,
                    self.history_budget as nat,
                    self.memory_budget as nat,
                ),
            },
        )
    }

    /// On to acting on a reply of the agent, once it is read.
    ///
    /// A reply that could not be read is answered with feedback, and the
    /// agent is asked again. A reply that asks to stand by ends the loop. A
    /// reply with an action that would leave the working directory is
    /// answered with the failure, and the loop goes on. Any other action is
    /// to be performed.
    pub open spec fn take_action(self, read: Result<ResponseView, Seq<char>>) -> (
        MainLoopView,
        CommandView,
    ) {
        match read {
            Err(raw_text) => self.said(
                system_chat(feedback(raw_text, self.help_text)),
            ).get_agent_response(),
            Ok(response) => match response.next_command.operation(self.working_directory) {
                Ok(OperationView::Complete) => (self.moved(LoopState::Exit), CommandView::Stop),
                Ok(operation) => (
                    self.moved(LoopState::TakeAction),
                    CommandView::Perform { operation },
                ),
                Err(error) => self.said(system_chat(report(Err(error)))).query_memory(),
            },
        }
    }

    /// What the outcome of the pending operation amounts to. The action that
    /// it belongs to is the one in the agent's latest chat.
    pub open spec fn pending_result(self, outcome: OutcomeView) -> Result<
        ActionResultView,
        ExecutionErrorView,
    > {
        if self.conversation.len() > 0 && self.conversation.last().whom == Whom::Agent && parsed(
            self.conversation.last().text,
        ) is Some {
            parsed(self.conversation.last().text).unwrap().next_command.result(outcome)
        } else {
            Err(ExecutionErrorView::UnexpectedOutcome)
        }
    }

    /// The loop after an event, and the command that it answers with.
    pub open spec fn step(self, event: EventView) -> (MainLoopView, CommandView) {
        match self.current_state {
            LoopState::Initializing => match event {
                EventView::Started => if self.conversation.len() == 0 {
                    (self.moved(LoopState::Exit), CommandView::Stop)
                } else if self.conversation.last().whom == Whom::Agent {
                    self.take_action(reading(self.conversation.last().text))
                } else {
                    self.query_memory()
                },
                _ => (self, CommandView::Ignored),
            },
            LoopState::QueryMemory => match event {
                EventView::MemoriesFound(ranked) => MainLoopView {
                    related_memories: ranked,
                    ..self
                }.get_agent_response(),
                EventView::GatewayFailed(message) => (
                    self.moved(LoopState::Exit),
                    CommandView::Fail { message },
                ),
                _ => (self, CommandView::Ignored),
            },
            LoopState::GetAgentResponse => match event {
                EventView::AgentReplied(reply) => self.said(
                    ChatView { text: reply, whom: Whom::Agent },
                ).take_action(reading(reply)),
                EventView::ContextLengthExceeded => MainLoopView {
                    number_of_messages_to_remove: bumped(self.number_of_messages_to_remove),
                    ..self
                }.get_agent_response(),
                EventView::GatewayFailed(message) => (
                    self.moved(LoopState::Exit),
                    CommandView::Fail { message },
                ),
                _ => (self, CommandView::Ignored),
            },
            LoopState::TakeAction => match event {
                EventView::ActionPerformed(outcome) => self.said(
                    system_chat(report(self.pending_result(outcome))),
                ).query_memory(),
                EventView::GatewayFailed(message) => (
                    self.moved(LoopState::Exit),
                    CommandView::Fail { message },
                ),
                _ => (self, CommandView::Ignored),
            },
            LoopState::Exit => (self, CommandView::Stop),
        }
    }
}

fn report_text(result: Result<ActionResult, ExecutionError>) -> (text: String)
    ensures
        text@ == report(result_view(result)),
{
    match result {
        Ok(result) => result.to_variant_string(),
        Err(error) => ActionResult::Failure(error.message()).to_variant_string(),
    }
}

impl MainLoop {
    /// A loop that has not started yet, on a conversation that was loaded or
    /// seeded.
    pub fn new(
        agent: GPT,
        working_directory: String,
        help_text_for_ai_parsing_errors: String,
        conversation: Conversation,
    ) -> (fresh: MainLoop)
        ensures
            fresh@ == (MainLoopView {
                history_budget: agent.tokens_reserved_for_history,
                memory_budget: agent.tokens_reserved_for_memories,
                working_directory: working_directory@,
                help_text: help_text_for_ai_parsing_errors@,
                conversation: conversation@,
                related_memories: Seq::empty(),
                number_of_messages_to_remove: 0,
                current_state: LoopState::Initializing,
            }),
    {
        let fresh = MainLoop {
            agent,
            working_directory,
            help_text_for_ai_parsing_errors,
            conversation,
            related_memories: Vec::new(),
            number_of_messages_to_remove: 0,
            current_state: LoopState::Initializing,
        };
        assert(texts(fresh.related_memories@) =~= Seq::<Seq<char>>::empty());
        fresh
    }

    /// The text by which memories are looked for.
    pub fn memory_query_text(&self) -> (text: String)
        ensures
            text@ == representative_text(self@.conversation),
    {
        let chats = &self.conversation.conversation;
        let count = chats.len();
        let mut at = count;
        assert(self@.conversation.subrange(0, at as int) =~= self@.conversation);
        while at > 0
            invariant
                at <= count == chats@.len(),
                chats == &self.conversation.conversation,
                last_agent_chat(self@.conversation) == last_agent_chat(
                    self@.conversation.subrange(0, at as int),
                ),
            decreases at,
        {
            let ghost considered = self@.conversation.subrange(0, at as int);
            if chats[at - 1].whom == Whom::Agent {
                return match chats[at - 1].parse() {
                    Ok(response) => response.as_one_string(),
                    Err(error) => error.raw_text,
                };
            }
            assert(considered.drop_last() =~= self@.conversation.subrange(0, at - 1));
            at = at - 1;
        }
        if count >= 1 {
            chats[count - 1].text.clone()
        } else {
            String::new()
        }
    }

    fn say(&mut self, text: String, whom: Whom)
        ensures
            final(self)@ == old(self)@.said(ChatView { text: text@, whom }),
    {
        self.conversation.push(Chat { text, whom });
    }

    fn enter_query_memory(&mut self) -> (command: Command)
        ensures
            (final(self)@, command@) == old(self)@.query_memory(),
    {
        self.current_state = LoopState::QueryMemory;
        Command::QueryMemory { text: self.memory_query_text() }
    }

    fn enter_get_agent_response(&mut self) -> (command: Command)
        ensures
            (final(self)@, command@) == old(self)@.get_agent_response(),
    {
        self.current_state = LoopState::GetAgentResponse;
        Command::GetAgentResponse {
            context: self.agent.assemble_context(
                &self.conversation,
                &self.related_memories,
                self.number_of_messages_to_remove,
            ),
        }
    }

    /// Acts on a reply of the agent that was read, or could not be: moves
    /// on, and says what to do next.
    ///
    /// This is the part of [`MainLoop::step`] that follows the reading. It
    /// does not look at the state that the loop is in.
    pub fn take_action(&mut self, read: Result<Response, ParseError>) -> (command: Command)
        ensures
            (final(self)@, command@) == old(self)@.take_action(reading_view(read)),
    {
        match read {
            Err(error) => {
                let mut text = error.raw_text;
                text.append("\n");
                text.append(self.help_text_for_ai_parsing_errors.as_str());
                self.say(text, Whom::System);
                self.enter_get_agent_response()
            },
            Ok(response) => match response.next_command.take_action(
                self.working_directory.as_str(),
            ) {
                Ok(Operation::Complete) => {
                    self.current_state = LoopState::Exit;
                    Command::Stop
                },
                Ok(operation) => {
                    self.current_state = LoopState::TakeAction;
                    Command::Perform { operation }
                },
                Err(error) => {
                    self.say(report_text(Err(error)), Whom::System);
                    self.enter_query_memory()
                },
            },
        }
    }

    fn conclude_pending(&self, outcome: Outcome) -> (result: Result<ActionResult, ExecutionError>)
        ensures
            result_view(result) == self@.pending_result(outcome@),
    {
        let chats = &self.conversation.conversation;
        let count = chats.len();
        if count > 0 && chats[count - 1].whom == Whom::Agent {
            match chats[count - 1].parse() {
                Ok(response) => response.next_command.conclude(outcome),
                Err(_) => Err(ExecutionError::UnexpectedOutcome),
            }
        } else {
            Err(ExecutionError::UnexpectedOutcome)
        }
    }

    fn fail(&mut self, message: String) -> (command: Command)
        ensures
            final(self)@ == old(self)@.moved(LoopState::Exit),
            command@ == (CommandView::Fail { message: message@ }),
    {
        self.current_state = LoopState::Exit;
        Command::Fail { message }
    }

    /// Takes an event, moves on, and says what to do next.
    ///
    /// An event that the loop is not waiting for changes nothing and is
    /// answered with [`Command::Ignored`]. Once the loop has ended, every
    /// event is answered with [`Command::Stop`].
    pub fn step(&mut self, event: Event) -> (command: Command)
        ensures
            (final(self)@, command@) == old(self)@.step(event@),
            extends(final(self)@.conversation, old(self)@.conversation),
    {
        proof {
            lemma_step_keeps_conversation(self@, event@);
        }
        match self.current_state {
            LoopState::Initializing => match event {
                Event::Started => {
                    let count = self.conversation.len();
                    if count == 0 {
                        self.current_state = LoopState::Exit;
                        Command::Stop
                    } else if self.conversation.conversation[count - 1].whom == Whom::Agent {
                        let read = self.conversation.conversation[count - 1].parse();
                        self.take_action(read)
                    } else {
                        self.enter_query_memory()
                    }
                },
                _ => Command::Ignored,
            },
            LoopState::QueryMemory => match event {
                Event::MemoriesFound(ranked) => {
                    self.related_memories = ranked;
                    self.enter_get_agent_response()
                },
                Event::GatewayFailed(message) => self.fail(message),
                _ => Command::Ignored,
            },
            LoopState::GetAgentResponse => match event {
                Event::AgentReplied(reply) => {
                    let read = parse_response(reply.as_str());
                    self.say(reply, Whom::Agent);
                    self.take_action(read)
                },
                Event::ContextLengthExceeded => {
                    let dropped = self.number_of_messages_to_remove;
                    self.number_of_messages_to_remove = if dropped <= usize::MAX - DROP_INCREMENT {
                        dropped + DROP_INCREMENT
                    } else {
                        usize::MAX
                    };
                    self.enter_get_agent_response()
                },
                Event::GatewayFailed(message) => self.fail(message),
                _ => Command::Ignored,
            },
            LoopState::TakeAction => match event {
                Event::ActionPerformed(outcome) => {
                    let result = self.conclude_pending(outcome);
                    self.say(report_text(result), Whom::System);
                    self.enter_query_memory()
                },
                Event::GatewayFailed(message) => self.fail(message),
                _ => Command::Ignored,
            },
            LoopState::Exit => Command::Stop,
        }
    }
}

/// No step takes anything away from the conversation or changes what is in
/// it, and none changes what is configured.
pub proof fn lemma_step_keeps_conversation(before: MainLoopView, event: EventView)
    ensures
        extends(before.step(event).0.conversation, before.conversation),
        before.step(event).0.history_budget == before.history_budget,
        before.step(event).0.memory_budget == before.memory_budget,
        before.step(event).0.working_directory == before.working_directory,
        before.step(event).0.help_text == before.help_text,
{
    assert(before.step(event).0.conversation.subrange(0, before.conversation.len() as int)
        =~= before.conversation);
}

/// Once the loop has ended, nothing moves it.
pub proof fn lemma_exit_is_final(before: MainLoopView, event: EventView)
    requires
        before.current_state == LoopState::Exit,
    ensures
        before.step(event) == (before, CommandView::Stop),
{
}

/// A prompt that was too long makes the loop drop five chats more (as far as
/// the counter goes) and ask again; nothing else changes.
pub proof fn lemma_overflow_drops_more(before: MainLoopView)
    requires
        before.current_state == LoopState::GetAgentResponse,
    ensures
        before.step(EventView::ContextLengthExceeded).0 == (MainLoopView {
            number_of_messages_to_remove: bumped(before.number_of_messages_to_remove),
            ..before
        }),
        before.number_of_messages_to_remove <= usize::MAX - DROP_INCREMENT ==> before.step(
            EventView::ContextLengthExceeded,
        ).0.number_of_messages_to_remove == before.number_of_messages_to_remove + 5,
        before.step(EventView::ContextLengthExceeded).1 is GetAgentResponse,
{
}

/// A reply that cannot be read is never fatal: the agent's words are kept,
/// the agent is told of them with the help text, and it is asked again.
pub proof fn lemma_unreadable_reply_is_fed_back(before: MainLoopView, reply: Seq<char>)
    requires
        before.current_state == LoopState::GetAgentResponse,
        reading(reply) is Err,
    ensures
        before.step(EventView::AgentReplied(reply)).0.current_state == LoopState::GetAgentResponse,
        before.step(EventView::AgentReplied(reply)).0.conversation == before.conversation.push(
            ChatView { text: reply, whom: Whom::Agent },
        ).push(system_chat(feedback(reply, before.help_text))),
        before.step(EventView::AgentReplied(reply)).1 is GetAgentResponse,
{
}

} // verus!
