//! Putting together what the agent is shown: a prompt within its budgets.
//!
//! The first two chats of a conversation, the system prompt and the user's
//! objective, are pinned: they are always shown, and come first (in a
//! conversation of fewer than two chats, all of them are). Of the
//! rest, the most recent block that fits the history budget is shown, the
//! pinned chats counted in. Memories are taken in the order of their
//! ranking; one that does not fit the memory budget is passed over, and the
//! ones after it are still tried.
//!
//! A chat or memory whose tokens cannot be counted does not fit any budget.

use crate::configuration::{OpenAIAgentConfiguration, OpenAiEmbeddingModel, OpenAiModel};
use crate::conversation::{chat_views, Chat, ChatView, Conversation, Whom};
use crate::text::{contains, occurs_in, texts};
use crate::tokenizer::{get_token_estimate, token_count};
use vstd::prelude::*;
use vstd::string::*;

verus! {

/// Whether something of a given cost can be added to what is taken already
/// without exceeding the budget.
pub open spec fn fits(total: nat, cost: Option<usize>, budget: nat) -> bool {
    cost is Some && total + cost.unwrap() <= budget
}

/// A cost as a number, nothing for one that is unknown.
pub open spec fn known_cost(cost: Option<usize>) -> nat {
    match cost {
        Some(cost) => cost as nat,
        None => 0,
    }
}

/// The costs from one position up to another, added up.
pub open spec fn cost_sum(costs: Seq<Option<usize>>, from: int, to: int) -> nat
    decreases to - from,
{
    if to <= from {
        0
    } else {
        cost_sum(costs, from, to - 1) + known_cost(costs[to - 1])
    }
}

/// Where the block of history that is shown starts, when everything from
/// `at` on is taken already at a cost of `total`, and nothing before `floor`
/// may be taken.
pub open spec fn history_start(
    costs: Seq<Option<usize>>,
    floor: int,
    at: int,
    total: nat,
    budget: nat,
) -> int
    decreases at - floor,
{
    if at <= floor {
        at
    } else if fits(total, costs[at - 1], budget) {
        history_start(costs, floor, at - 1, total + known_cost(costs[at - 1]), budget)
    } else {
        at
    }
}

/// How many chats at the start of a conversation are pinned: two, or as many
/// as there are.
pub open spec fn pinned(length: nat) -> int {
    if length < 2 {
        length as int
    } else {
        2
    }
}

/// The position of the oldest chat that may be shown besides the pinned
/// ones, when a number of the oldest are dropped by force. However many are
/// dropped, the pinned chats stay.
pub open spec fn first_candidate(length: nat, dropped: nat) -> int {
    if length < 2 {
        length as int
    } else if dropped <= length - 2 {
        2 + dropped as int
    } else {
        length as int
    }
}

/// Where the block of history that is shown starts, for the costs of all
/// chats of a conversation.
pub open spec fn kept_from(costs: Seq<Option<usize>>, dropped: nat, budget: nat) -> int {
    if costs.len() < 2 {
        costs.len() as int
    } else if costs[0] is Some && costs[1] is Some {
        history_start(
            costs,
            first_candidate(costs.len(), dropped),
            costs.len() as int,
            (costs[0].unwrap() + costs[1].unwrap()) as nat,
            budget,
        )
    } else {
        costs.len() as int
    }
}

/// What each chat costs.
pub open spec fn chat_costs(chats: Seq<ChatView>) -> Seq<Option<usize>> {
    chats.map_values(|chat: ChatView| token_count(chat.text))
}

/// The history that is shown: the pinned chats, then the most recent block
/// that fits.
pub open spec fn assembled_history(chats: Seq<ChatView>, dropped: nat, budget: nat) -> Seq<
    ChatView,
> {
    chats.subrange(0, pinned(chats.len())) + chats.subrange(
        kept_from(chat_costs(chats), dropped, budget),
        chats.len() as int,
    )
}

/// The tokens taken by the memories that are shown out of a ranked list.
pub open spec fn taken(costs: Seq<Option<usize>>, budget: nat) -> nat
    decreases costs.len(),
{
    if costs.len() == 0 {
        0
    } else if fits(taken(costs.drop_last(), budget), costs.last(), budget) {
        taken(costs.drop_last(), budget) + known_cost(costs.last())
    } else {
        taken(costs.drop_last(), budget)
    }
}

/// The positions, in a ranked list, of the memories that are shown.
pub open spec fn chosen(costs: Seq<Option<usize>>, budget: nat) -> Seq<int>
    decreases costs.len(),
{
    if costs.len() == 0 {
        Seq::empty()
    } else if fits(taken(costs.drop_last(), budget), costs.last(), budget) {
        chosen(costs.drop_last(), budget).push(costs.len() - 1)
    } else {
        chosen(costs.drop_last(), budget)
    }
}

/// The costs at some positions, added up.
pub open spec fn cost_at(costs: Seq<Option<usize>>, positions: Seq<int>) -> nat
    decreases positions.len(),
{
    if positions.len() == 0 {
        0
    } else {
        cost_at(costs, positions.drop_last()) + known_cost(costs[positions.last()])
    }
}

/// The chat in which a memory is shown.
pub open spec fn memory_message(memory: Seq<char>) -> ChatView {
    ChatView { text: "Related Memory: "@ + memory, whom: Whom::System }
}

/// What each memory costs, as it is shown.
pub open spec fn memory_costs(memories: Seq<Seq<char>>) -> Seq<Option<usize>> {
    memories.map_values(|memory: Seq<char>| token_count(memory_message(memory).text))
}

/// The memories that are shown out of a ranked list.
pub open spec fn pruned_memories(memories: Seq<Seq<char>>, budget: nat) -> Seq<ChatView> {
    chosen(memory_costs(memories), budget).map_values(
        |position: int| memory_message(memories[position]),
    )
}

/// The whole prompt: the history, then the memories.
pub open spec fn assembled_context(
    chats: Seq<ChatView>,
    memories: Seq<Seq<char>>,
    dropped: nat,
    history_budget: nat,
    memory_budget: nat,
) -> Seq<ChatView> {
    assembled_history(chats, dropped, history_budget) + pruned_memories(memories, memory_budget)
}

/// The pinned chats are shown, and first, whatever the budget and however
/// many chats are dropped.
pub proof fn lemma_pinned_always_shown(chats: Seq<ChatView>, dropped: nat, budget: nat)
    requires
        chats.len() >= 2,
    ensures
        assembled_history(chats, dropped, budget).len() >= 2,
        assembled_history(chats, dropped, budget)[0] == chats[0],
        assembled_history(chats, dropped, budget)[1] == chats[1],
{
}

/// What [`history_start`] returns: a position between the floor and the
/// start; everything from there on has a known cost and, with what was
/// taken before, stays within the budget; and the chat just before it, if
/// it may be taken at all, would no longer fit.
proof fn lemma_history_start(
    costs: Seq<Option<usize>>,
    floor: int,
    at: int,
    total: nat,
    budget: nat,
)
    requires
        0 <= floor <= at <= costs.len(),
    ensures
        floor <= history_start(costs, floor, at, total, budget) <= at,
        forall|position: int|
            history_start(costs, floor, at, total, budget) <= position < at
                ==> (#[trigger] costs[position]) is Some,
        history_start(costs, floor, at, total, budget) < at ==> total + cost_sum(
            costs,
            history_start(costs, floor, at, total, budget),
            at,
        ) <= budget,
        history_start(costs, floor, at, total, budget) > floor ==> !fits(
            total + cost_sum(costs, history_start(costs, floor, at, total, budget), at),
            costs[history_start(costs, floor, at, total, budget) - 1],
            budget,
        ),
    decreases at - floor,
{
    if at > floor && fits(total, costs[at - 1], budget) {
        let next = total + known_cost(costs[at - 1]);
        let start = history_start(costs, floor, at - 1, next, budget);
        lemma_history_start(costs, floor, at - 1, next, budget);
        lemma_cost_sum_front(costs, start, at);
    }
}

/// Adding up from a position is adding up from the next one, plus the cost
/// at the position.
proof fn lemma_cost_sum_front(costs: Seq<Option<usize>>, from: int, to: int)
    requires
        from < to,
    ensures
        cost_sum(costs, from, to) == known_cost(costs[from]) + cost_sum(costs, from + 1, to),
    decreases to - from,
{
    if from + 1 < to {
        lemma_cost_sum_front(costs, from, to - 1);
    } else {
        assert(cost_sum(costs, from, to - 1) == 0);
    }
}

/// The history that is shown besides the pinned chats never costs more than
/// the budget, and where any of it is shown, the pinned chats are counted in.
/// It is the most recent block: the chat before it does not fit, is dropped
/// by force or is pinned. Where a pinned chat has no known cost, nothing else
/// is shown.
pub proof fn lemma_history_within_budget(costs: Seq<Option<usize>>, dropped: nat, budget: nat)
    requires
        costs.len() >= 2,
    ensures
        2 <= first_candidate(costs.len(), dropped) <= kept_from(costs, dropped, budget)
            <= costs.len(),
        forall|position: int|
            kept_from(costs, dropped, budget) <= position < costs.len()
                ==> (#[trigger] costs[position]) is Some,
        cost_sum(costs, kept_from(costs, dropped, budget), costs.len() as int) <= budget,
        kept_from(costs, dropped, budget) < costs.len() ==> known_cost(costs[0]) + known_cost(
            costs[1],
        ) + cost_sum(costs, kept_from(costs, dropped, budget), costs.len() as int) <= budget,
        costs[0] is None || costs[1] is None ==> kept_from(costs, dropped, budget) == costs.len(),
        costs[0] is Some && costs[1] is Some && kept_from(costs, dropped, budget) > first_candidate(
            costs.len(),
            dropped,
        ) ==> !fits(
            known_cost(costs[0]) + known_cost(costs[1]) + cost_sum(
                costs,
                kept_from(costs, dropped, budget),
                costs.len() as int,
            ),
            costs[kept_from(costs, dropped, budget) - 1],
            budget,
        ),
{
    let floor = first_candidate(costs.len(), dropped);
    if costs[0] is Some && costs[1] is Some {
        let seed = (costs[0].unwrap() + costs[1].unwrap()) as nat;
        lemma_history_start(costs, floor, costs.len() as int, seed, budget);
    } else {
    }
}

/// The memories that are shown never cost more than the budget, and keep
/// the order of their ranking. Each is taken exactly when it fits beside
/// those taken before it, so one that is too large is passed over and those
/// after it are still tried.
pub proof fn lemma_memories_within_budget(costs: Seq<Option<usize>>, budget: nat)
    ensures
        taken(costs, budget) <= budget,
        taken(costs, budget) == cost_at(costs, chosen(costs, budget)),
        chosen(costs, budget).len() <= costs.len(),
        forall|rank: int|
            0 <= rank < chosen(costs, budget).len() ==> 0 <= (#[trigger] chosen(
                costs,
                budget,
            )[rank]) < costs.len(),
        forall|earlier: int, later: int|
            0 <= earlier < later < chosen(costs, budget).len() ==> (#[trigger] chosen(
                costs,
                budget,
            )[earlier]) < (#[trigger] chosen(costs, budget)[later]),
        forall|position: int|
            0 <= position < costs.len() ==> (chosen(costs, budget).contains(position) <==> fits(
                taken(costs.take(position), budget),
                #[trigger] costs[position],
                budget,
            )),
    decreases costs.len(),
{
    if costs.len() > 0 {
        let shorter = costs.drop_last();
        let last = costs.len() - 1;
        lemma_memories_within_budget(shorter, budget);
        lemma_cost_at_prefix(costs, chosen(shorter, budget));
        let picks = chosen(costs, budget);
        let earlier = chosen(shorter, budget);
        if fits(taken(shorter, budget), costs.last(), budget) {
            assert(picks.drop_last() =~= earlier);
        }
        assert forall|position: int| 0 <= position < costs.len() implies (picks.contains(position)
            <==> fits(taken(costs.take(position), budget), #[trigger] costs[position], budget)) by {
            if position < last {
                assert(costs.take(position) =~= shorter.take(position));
                assert(costs[position] == shorter[position]);
                if earlier.contains(position) {
                    let rank = choose|rank: int|
                        0 <= rank < earlier.len() && earlier[rank] == position;
                }
                if picks.contains(position) {
                    let rank = choose|rank: int| 0 <= rank < picks.len() && picks[rank] == position;
                }
            } else {
                if fits(taken(shorter, budget), costs.last(), budget) {
                    assert(picks[picks.len() - 1] == position);
                } else {
                    if picks.contains(position) {
                        let rank = choose|rank: int|
                            0 <= rank < picks.len() && picks[rank] == position;
                    }
                }
            }
        }
    }
}

/// Positions within a list cost the same in the list as in a longer one.
proof fn lemma_cost_at_prefix(costs: Seq<Option<usize>>, positions: Seq<int>)
    requires
        costs.len() > 0,
        forall|rank: int|
            0 <= rank < positions.len() ==> 0 <= (#[trigger] positions[rank]) < costs.len() - 1,
    ensures
        cost_at(costs, positions) == cost_at(costs.drop_last(), positions),
    decreases positions.len(),
{
    if positions.len() > 0 {
        lemma_cost_at_prefix(costs, positions.drop_last());
    }
}

/// The pinned chats lead the whole prompt, whatever the budgets, however
/// many chats are dropped and whatever memories there are.
pub proof fn lemma_pinned_lead_the_context(
    chats: Seq<ChatView>,
    memories: Seq<Seq<char>>,
    dropped: nat,
    history_budget: nat,
    memory_budget: nat,
)
    requires
        chats.len() >= 2,
    ensures
        assembled_context(chats, memories, dropped, history_budget, memory_budget).len() >= 2,
        assembled_context(chats, memories, dropped, history_budget, memory_budget)[0] == chats[0],
        assembled_context(chats, memories, dropped, history_budget, memory_budget)[1] == chats[1],
{
    lemma_pinned_always_shown(chats, dropped, history_budget);
}

/// Of a conversation with its pinned chats, the history that is shown is the
/// pinned chats and then an unbroken block of the most recent chats, in
/// their order. Every chat of the block has a known cost, and the block
/// costs no more than the budget.
pub proof fn lemma_shown_history(chats: Seq<ChatView>, dropped: nat, budget: nat)
    requires
        chats.len() >= 2,
    ensures
        2 <= kept_from(chat_costs(chats), dropped, budget) <= chats.len(),
        assembled_history(chats, dropped, budget).len() == 2 + chats.len() - kept_from(
            chat_costs(chats),
            dropped,
            budget,
        ),
        forall|at: int|
            2 <= at < assembled_history(chats, dropped, budget).len() ==> (
            #[trigger] assembled_history(chats, dropped, budget)[at]) == chats[kept_from(
                chat_costs(chats),
                dropped,
                budget,
            ) + at - 2],
        forall|at: int|
            kept_from(chat_costs(chats), dropped, budget) <= at < chats.len() ==> token_count(
                (#[trigger] chats[at]).text,
            ) is Some,
        cost_sum(
            chat_costs(chats),
            kept_from(chat_costs(chats), dropped, budget),
            chats.len() as int,
        ) <= budget,
{
    let costs = chat_costs(chats);
    lemma_history_within_budget(costs, dropped, budget);
    let start = kept_from(costs, dropped, budget);
    assert forall|at: int| start <= at < chats.len() implies token_count(
        (#[trigger] chats[at]).text,
    ) is Some by {
        assert(costs[at] is Some);
    }
}

/// The memories that are shown are memories of the list, in the order of
/// their ranking, each as a chat of the system, and together they cost no
/// more than the budget.
pub proof fn lemma_shown_memories(memories: Seq<Seq<char>>, budget: nat)
    ensures
        pruned_memories(memories, budget).len() == chosen(memory_costs(memories), budget).len()
            <= memories.len(),
        forall|rank: int|
            0 <= rank < pruned_memories(memories, budget).len() ==> 0 <= chosen(
                memory_costs(memories),
                budget,
            )[rank] < memories.len() && (#[trigger] pruned_memories(memories, budget)[rank])
                == memory_message(memories[chosen(memory_costs(memories), budget)[rank]]),
        forall|earlier: int, later: int|
            0 <= earlier < later < chosen(memory_costs(memories), budget).len() ==> (
            #[trigger] chosen(memory_costs(memories), budget)[earlier]) < (#[trigger] chosen(
                memory_costs(memories),
                budget,
            )[later]),
        cost_at(memory_costs(memories), chosen(memory_costs(memories), budget)) <= budget,
{
    lemma_memories_within_budget(memory_costs(memories), budget);
}

/// Chooses where the block of history that is shown starts, from the costs
/// of all chats of a conversation.
pub fn select_history(costs: &Vec<Option<usize>>, messages_to_drop: usize, budget: u16) -> (start:
    usize)
    ensures
        start == kept_from(costs@, messages_to_drop as nat, budget as nat),
{
    let length = costs.len();
    if length < 2 {
        return length;
    }
    let floor = if messages_to_drop <= length - 2 {
        2 + messages_to_drop
    } else {
        length
    };
    let limit = budget as usize;
    let seed = match (costs[0], costs[1]) {
        (Some(first), Some(second)) => {
            if first <= limit && second <= limit - first {
                first + second
            } else {
                return length;
            }
        },
        _ => {
            return length;
        },
    };
    let mut at = length;
    let mut total = seed;
    while at > floor
        invariant
            floor <= at <= length,
            length == costs@.len(),
            limit == budget,
            total <= limit,
            kept_from(costs@, messages_to_drop as nat, budget as nat) == history_start(
                costs@,
                floor as int,
                at as int,
                total as nat,
                budget as nat,
            ),
        decreases at,
    {
        match costs[at - 1] {
            Some(cost) => {
                if cost <= limit && total <= limit - cost {
                    total = total + cost;
                    at = at - 1;
                } else {
                    return at;
                }
            },
            None => {
                return at;
            },
        }
    }
    at
}

/// Chooses which memories of a ranked list are shown, from their costs.
pub fn select_memories(costs: &Vec<Option<usize>>, budget: u16) -> (positions: Vec<usize>)
    ensures
        positions@.map_values(|position: usize| position as int) == chosen(costs@, budget as nat),
{
    let limit = budget as usize;
    let mut positions: Vec<usize> = Vec::new();
    let mut total: usize = 0;
    let mut index: usize = 0;
    while index < costs.len()
        invariant
            index <= costs.len(),
            limit == budget,
            total <= limit,
            total == taken(costs@.take(index as int), budget as nat),
            positions@.map_values(|position: usize| position as int) == chosen(
                costs@.take(index as int),
                budget as nat,
            ),
        decreases costs.len() - index,
    {
        assert(costs@.take(index + 1).drop_last() =~= costs@.take(index as int));
        match costs[index] {
            Some(cost) => {
                if cost <= limit && total <= limit - cost {
                    total = total + cost;
                    positions.push(index);
                }
            },
            None => {},
        }
        index = index + 1;
    }
    assert(costs@.take(index as int) =~= costs@);
    positions
}

/// Estimates what each chat of a list costs.
pub fn estimate_chats(chats: &Vec<Chat>) -> (costs: Vec<Option<usize>>)
    ensures
        costs@ == chat_costs(chat_views(chats@)),
{
    let mut costs: Vec<Option<usize>> = Vec::new();
    let mut index: usize = 0;
    while index < chats.len()
        invariant
            index <= chats.len(),
            costs@.len() == index,
            forall|at: int| 0 <= at < index ==> costs@[at] == token_count(chats@[at]@.text),
        decreases chats.len() - index,
    {
        costs.push(get_token_estimate(chats[index].text.as_str()));
        index = index + 1;
    }
    costs
}

/// The words by which the language model says that a prompt was too long
/// for it.
pub open spec fn context_length_marker() -> Seq<char> {
    "This model's maximum context length"@
}

/// Whether an error of the language model says that the prompt was too long
/// for it. Such an error is answered by dropping chats, any other is final.
pub fn is_context_length_exceeded(message: &str) -> (exceeded: bool)
    ensures
        exceeded == occurs_in(message@, context_length_marker()),
{
    contains(message, "This model's maximum context length")
}

/// The part that the author of a message plays for the language model.
#[derive(Clone, Copy, Debug, PartialEq, Eq, Structural)]
pub enum Role {
    Assistant,
    System,
    User,
}

impl Whom {
    /// The part that the author of a chat plays for the language model: the
    /// agent is its assistant, the others are what they are.
    pub open spec fn spec_role(self) -> Role {
        match self {
            Whom::Agent => Role::Assistant,
            Whom::System => Role::System,
            Whom::User => Role::User,
        }
    }

    /// The part that the author of a chat plays for the language model.
    pub fn role(&self) -> (role: Role)
        ensures
            role == self.spec_role(),
    {
        match self {
            Whom::Agent => Role::Assistant,
            Whom::System => Role::System,
            Whom::User => Role::User,
        }
    }
}

/// The chat in which a memory is shown.
pub fn memory_to_chat(memory: &str) -> (chat: Chat)
    ensures
        chat@ == memory_message(memory@),
{
    let mut text = String::from_str("Related Memory: ");
    text.append(memory);
    Chat { text, whom: Whom::System }
}

/// The agent: which models it is, and how much of a request goes to what.
#[derive(Debug, PartialEq, Eq)]
pub struct GPT {
    pub api_key: String,
    pub embedding_model: OpenAiEmbeddingModel,
    pub model: OpenAiModel,
    pub tokens_reserved_for_history: u16,
    pub tokens_reserved_for_memories: u16,
}

impl GPT {
    /// The agent that a configuration describes.
    pub fn new(configuration: &OpenAIAgentConfiguration) -> (agent: GPT)
        ensures
            agent.api_key == configuration.api_key,
            agent.embedding_model == configuration.embedding_model,
            agent.model == configuration.model,
            agent.tokens_reserved_for_history == configuration.tokens_reserved_for_history,
            agent.tokens_reserved_for_memories == configuration.tokens_reserved_for_memories,
    {
        GPT {
            api_key: configuration.api_key.clone(),
            embedding_model: configuration.embedding_model,
            model: configuration.model,
            tokens_reserved_for_history: configuration.tokens_reserved_for_history,
            tokens_reserved_for_memories: configuration.tokens_reserved_for_memories,
        }
    }

    /// The history to show: the two pinned chats, then the most recent chats
    /// that fit the history budget together with them, in their order. The
    /// oldest `messages_to_drop` chats after the pinned ones are left out
    /// whether they fit or not.
    pub fn gather_chat_history(
        &self,
        conversation: &Conversation,
        messages_to_drop: usize,
    ) -> (history: Vec<Chat>)
        ensures
            chat_views(history@) == assembled_history(
                conversation@,
                messages_to_drop as nat,
                self.tokens_reserved_for_history as nat,
            ),
    {
        let chats = &conversation.conversation;
        let costs = estimate_chats(chats);
        let start = select_history(&costs, messages_to_drop, self.tokens_reserved_for_history);
        proof {
            if costs@.len() >= 2 {
                lemma_history_within_budget(
                    costs@,
                    messages_to_drop as nat,
                    self.tokens_reserved_for_history as nat,
                );
            }
        }
        let kept: usize = if chats.len() < 2 {
            chats.len()
        } else {
            2
        };
        let mut history: Vec<Chat> = Vec::new();
        let mut index: usize = 0;
        while index < kept
            invariant
                index <= kept <= chats.len(),
                history@.len() == index,
                forall|at: int| 0 <= at < index ==> (#[trigger] history@[at])@ == chats@[at]@,
            decreases kept - index,
        {
            history.push(chats[index].clone());
            index = index + 1;
        }
        index = start;
        while index < chats.len()
            invariant
                kept <= start <= index <= chats.len(),
                history@.len() == kept + index - start,
                forall|at: int| 0 <= at < kept ==> (#[trigger] history@[at])@ == chats@[at]@,
                forall|at: int|
                    kept <= at < history@.len() ==> (#[trigger] history@[at])@ == chats@[start + at
                        - kept]@,
            decreases chats.len() - index,
        {
            history.push(chats[index].clone());
            index = index + 1;
        }
        history
    }

    /// The memories to show, each as a chat of the system: those of the
    /// ranked list that fit the memory budget, taken in order.
    pub fn prune_memories_to_limit(&self, memories: &Vec<String>) -> (shown: Vec<Chat>)
        ensures
            chat_views(shown@) == pruned_memories(
                texts(memories@),
                self.tokens_reserved_for_memories as nat,
            ),
    {
        let mut messages: Vec<Chat> = Vec::new();
        let mut costs: Vec<Option<usize>> = Vec::new();
        let mut index: usize = 0;
        while index < memories.len()
            invariant
                index <= memories.len(),
                messages@.len() == index,
                costs@.len() == index,
                forall|at: int|
                    0 <= at < index ==> messages@[at]@ == memory_message(memories@[at]@),
                forall|at: int|
                    0 <= at < index ==> costs@[at] == token_count(
                        memory_message(memories@[at]@).text,
                    ),
            decreases memories.len() - index,
        {
            let message = memory_to_chat(memories[index].as_str());
            costs.push(get_token_estimate(message.text.as_str()));
            messages.push(message);
            index = index + 1;
        }
        assert(costs@ =~= memory_costs(texts(memories@)));
        let positions = select_memories(&costs, self.tokens_reserved_for_memories);
        proof {
            lemma_memories_within_budget(costs@, self.tokens_reserved_for_memories as nat);
        }
        let ghost picks = chosen(costs@, self.tokens_reserved_for_memories as nat);
        let mut shown: Vec<Chat> = Vec::new();
        let mut rank: usize = 0;
        while rank < positions.len()
            invariant
                rank <= positions.len(),
                shown@.len() == rank,
                messages@.len() == memories@.len(),
                picks == positions@.map_values(|position: usize| position as int),
                forall|at: int|
                    0 <= at < picks.len() ==> 0 <= (#[trigger] picks[at]) < memories@.len(),
                forall|at: int|
                    0 <= at < memories@.len() ==> messages@[at]@ == memory_message(memories@[at]@),
                forall|at: int|
                    0 <= at < rank ==> shown@[at]@ == memory_message(memories@[picks[at]]@),
            decreases positions.len() - rank,
        {
            let position = positions[rank];
            assert(picks[rank as int] == position);
            shown.push(messages[position].clone());
            rank = rank + 1;
        }
        shown
    }

    /// The whole prompt for one request: the history, then the memories.
    pub fn assemble_context(
        &self,
        conversation: &Conversation,
        related_memories: &Vec<String>,
        messages_to_drop: usize,
    ) -> (context: Vec<Chat>)
        ensures
            chat_views(context@) == assembled_context(
                conversation@,
                texts(related_memories@),
                messages_to_drop as nat,
                self.tokens_reserved_for_history as nat,
                self.tokens_reserved_for_memories as nat,
            ),
    {
        let mut context = self.gather_chat_history(conversation, messages_to_drop);
        let mut memories = self.prune_memories_to_limit(related_memories);
        context.append(&mut memories);
        context
    }
}

} // verus!
