use rustacean_gpt::agent::{
    estimate_chats, is_context_length_exceeded, memory_to_chat, select_history, select_memories,
    GPT,
};
use rustacean_gpt::configuration::{OpenAIAgentConfiguration, OpenAiEmbeddingModel, OpenAiModel};
use rustacean_gpt::conversation::{Chat, Conversation, Whom};
use rustacean_gpt::tokenizer::get_token_estimate;

fn chat(text: &str, whom: Whom) -> Chat {
    Chat { text: text.to_string(), whom }
}

fn agent(history: u16, memories: u16) -> GPT {
    GPT::new(&OpenAIAgentConfiguration {
        api_key: "key".to_string(),
        embedding_model: OpenAiEmbeddingModel::Ada002,
        model: OpenAiModel::GPT4,
        tokens_reserved_for_history: history,
        tokens_reserved_for_memories: memories,
    })
}

fn talk(count: usize) -> Conversation {
    let mut conversation = Conversation::seeded(
        "You are an assistant.".to_string(),
        "Objective: print 1..3".to_string(),
    );
    for number in 0..count {
        let whom = if number % 2 == 0 { Whom::Agent } else { Whom::System };
        conversation.push(chat(&format!("message number {}", number), whom));
    }
    conversation
}

fn cost(text: &str) -> usize {
    get_token_estimate(text).unwrap()
}

fn known(costs: &[usize]) -> Vec<Option<usize>> {
    costs.iter().map(|cost| Some(*cost)).collect()
}

#[test]
fn new_agent_takes_over_its_configuration() {
    let agent = agent(3000, 500);
    assert_eq!(agent.api_key, "key");
    assert_eq!(agent.embedding_model, OpenAiEmbeddingModel::Ada002);
    assert_eq!(agent.model, OpenAiModel::GPT4);
    assert_eq!(agent.tokens_reserved_for_history, 3000);
    assert_eq!(agent.tokens_reserved_for_memories, 500);
}

#[test]
fn model_names_and_limits() {
    assert_eq!(OpenAiModel::GPT3_5Turbo.name(), "gpt-3.5-turbo");
    assert_eq!(OpenAiModel::GPT4.name(), "gpt-4");
    assert_eq!(OpenAiModel::GPT4_0314.name(), "gpt-4-0314");
    assert_eq!(OpenAiModel::GPT3_5Turbo.token_limit(), 4096);
    assert_eq!(OpenAiModel::GPT4.token_limit(), 8192);
    assert_eq!(OpenAiModel::GPT4_0314.token_limit(), 8192);
    assert_eq!(OpenAiEmbeddingModel::Ada002.name(), "text-embedding-ada-002");
}

#[test]
fn history_keeps_the_most_recent_block_that_fits() {
    // pinned 10 + 10, then 5, 5, 5, 5: with 31 there is room for two more.
    let costs = known(&[10, 10, 5, 5, 5, 5]);
    assert_eq!(select_history(&costs, 0, 31), 4);
    assert_eq!(select_history(&costs, 0, 30), 4);
    assert_eq!(select_history(&costs, 0, 29), 5);
    assert_eq!(select_history(&costs, 0, 40), 2);
    assert_eq!(select_history(&costs, 0, 1000), 2);
}

#[test]
fn history_stops_at_the_first_chat_that_does_not_fit() {
    // the large chat at 3 ends the walk although the chat at 2 would fit.
    let costs = known(&[1, 1, 1, 100, 1, 1]);
    assert_eq!(select_history(&costs, 0, 50), 4);
    assert_eq!(select_history(&costs, 0, 104), 3);
    assert_eq!(select_history(&costs, 0, 105), 2);
}

#[test]
fn history_without_room_is_only_the_pinned_chats() {
    let costs = known(&[10, 10, 1, 1]);
    assert_eq!(select_history(&costs, 0, 0), 4);
    assert_eq!(select_history(&costs, 0, 20), 4);
    assert_eq!(select_history(&costs, 0, 21), 3);
    let heavy = known(&[usize::MAX, usize::MAX, 1]);
    assert_eq!(select_history(&heavy, 0, u16::MAX), 3);
}

#[test]
fn history_drops_the_oldest_chats_by_force() {
    let costs = known(&[1, 1, 1, 1, 1, 1, 1]);
    assert_eq!(select_history(&costs, 0, 100), 2);
    assert_eq!(select_history(&costs, 1, 100), 3);
    assert_eq!(select_history(&costs, 4, 100), 6);
    assert_eq!(select_history(&costs, 5, 100), 7);
    assert_eq!(select_history(&costs, 6, 100), 7);
    assert_eq!(select_history(&costs, usize::MAX, 100), 7);
}

#[test]
fn history_of_a_short_conversation() {
    assert_eq!(select_history(&vec![], 0, 10), 0);
    assert_eq!(select_history(&known(&[100]), 0, 10), 1);
    assert_eq!(select_history(&known(&[100, 100]), 3, 10), 2);
}

#[test]
fn history_treats_an_unknown_cost_as_too_much() {
    let costs = vec![Some(1), Some(1), Some(1), None, Some(1)];
    assert_eq!(select_history(&costs, 0, 100), 4);
    let unknown_pinned = vec![None, Some(1), Some(1)];
    assert_eq!(select_history(&unknown_pinned, 0, 100), 3);
}

#[test]
fn memories_that_do_not_fit_are_passed_over() {
    let costs = known(&[5, 100, 5, 1, 90]);
    assert_eq!(select_memories(&costs, 12), vec![0, 2, 3]);
    assert_eq!(select_memories(&costs, 10), vec![0, 2]);
    assert_eq!(select_memories(&costs, 4), vec![3]);
    assert_eq!(select_memories(&costs, 0), Vec::<usize>::new());
    assert_eq!(select_memories(&costs, 201), vec![0, 1, 2, 3, 4]);
    assert_eq!(select_memories(&costs, 200), vec![0, 1, 2, 3]);
}

#[test]
fn memories_of_unknown_cost_are_passed_over() {
    let costs = vec![None, Some(2), None, Some(2)];
    assert_eq!(select_memories(&costs, 10), vec![1, 3]);
    assert_eq!(select_memories(&vec![], 10), Vec::<usize>::new());
}

#[test]
fn memories_of_no_cost_always_fit() {
    assert_eq!(select_memories(&known(&[0, 1, 0]), 0), vec![0, 2]);
}

#[test]
fn estimate_chats_counts_each_text() {
    let conversation = talk(2);
    let costs = estimate_chats(&conversation.conversation);
    assert_eq!(costs.len(), 4);
    for (chat, cost) in conversation.conversation.iter().zip(costs.iter()) {
        assert_eq!(*cost, get_token_estimate(&chat.text));
    }
}

#[test]
fn memory_is_shown_as_a_chat_of_the_system() {
    assert_eq!(
        memory_to_chat("the sky is blue"),
        chat("Related Memory: the sky is blue", Whom::System)
    );
}

#[test]
fn pinned_chats_are_shown_whatever_the_budget() {
    let conversation = talk(6);
    for budget in [0, 1, 5, 20, 100, u16::MAX] {
        for dropped in [0, 1, 5, 100] {
            let history = agent(budget, 0).gather_chat_history(&conversation, dropped);
            assert!(history.len() >= 2);
            assert_eq!(history[0], conversation.conversation[0]);
            assert_eq!(history[1], conversation.conversation[1]);
        }
    }
}

#[test]
fn history_with_a_large_budget_is_the_whole_conversation() {
    let conversation = talk(5);
    let history = agent(u16::MAX, 0).gather_chat_history(&conversation, 0);
    assert_eq!(history, conversation.conversation);
}

#[test]
fn history_stays_within_its_budget() {
    let conversation = talk(8);
    let pinned = cost("You are an assistant.") + cost("Objective: print 1..3");
    let each = cost("message number 0");
    let budget = (pinned + 3 * each) as u16;
    let history = agent(budget, 0).gather_chat_history(&conversation, 0);
    assert_eq!(history.len(), 5);
    assert_eq!(&history[2..], &conversation.conversation[7..]);
    let spent: usize = history.iter().map(|chat| cost(&chat.text)).sum();
    assert!(spent <= budget as usize);
    let tighter = agent(budget - 1, 0).gather_chat_history(&conversation, 0);
    assert_eq!(tighter.len(), 4);
    assert_eq!(&tighter[2..], &conversation.conversation[8..]);
}

#[test]
fn history_leaves_out_dropped_chats() {
    let conversation = talk(4);
    let history = agent(u16::MAX, 0).gather_chat_history(&conversation, 3);
    assert_eq!(history.len(), 3);
    assert_eq!(history[2], conversation.conversation[5]);
    let only_pinned = agent(u16::MAX, 0).gather_chat_history(&conversation, 15);
    assert_eq!(only_pinned, conversation.conversation[..2].to_vec());
}

#[test]
fn history_of_a_conversation_without_pinned_pair() {
    let mut conversation = Conversation::new();
    assert_eq!(agent(0, 0).gather_chat_history(&conversation, 0), vec![]);
    conversation.push(chat("alone", Whom::System));
    assert_eq!(agent(0, 0).gather_chat_history(&conversation, 0), vec![chat("alone", Whom::System)]);
}

#[test]
fn memories_stay_within_their_budget() {
    let small = "a".to_string();
    let large = "many words in a long memory that costs a lot of tokens to show".to_string();
    let memories = vec![small.clone(), large.clone(), small.clone()];
    let small_cost = cost("Related Memory: a");
    let large_cost = cost(&format!("Related Memory: {}", large));
    assert!(large_cost > small_cost);
    let budget = (2 * small_cost) as u16;
    assert!((budget as usize) < small_cost + large_cost);
    let shown = agent(0, budget).prune_memories_to_limit(&memories);
    assert_eq!(
        shown,
        vec![chat("Related Memory: a", Whom::System), chat("Related Memory: a", Whom::System)]
    );
    let everything = agent(0, u16::MAX).prune_memories_to_limit(&memories);
    assert_eq!(everything.len(), 3);
    assert_eq!(everything[1], chat(&format!("Related Memory: {}", large), Whom::System));
    assert_eq!(agent(0, 0).prune_memories_to_limit(&memories), vec![]);
}

#[test]
fn context_is_history_then_memories() {
    let conversation = talk(2);
    let memories = vec!["one".to_string(), "two".to_string()];
    let context = agent(u16::MAX, u16::MAX).assemble_context(&conversation, &memories, 0);
    let mut expected = conversation.conversation.clone();
    expected.push(chat("Related Memory: one", Whom::System));
    expected.push(chat("Related Memory: two", Whom::System));
    assert_eq!(context, expected);
}

#[test]
fn context_length_errors_are_told_apart() {
    assert!(is_context_length_exceeded(
        "This model's maximum context length is 4097 tokens. However, your messages resulted in 5000 tokens."
    ));
    assert!(is_context_length_exceeded("error: This model's maximum context length"));
    assert!(!is_context_length_exceeded("You exceeded your current quota."));
    assert!(!is_context_length_exceeded("this model's maximum context length"));
    assert!(!is_context_length_exceeded(""));
}
