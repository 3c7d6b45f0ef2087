//! What is configured once, at startup, and never changed afterwards.

use vstd::prelude::*;

verus! {

/// The chat models that can be asked.
#[derive(Clone, Copy, Debug, PartialEq, Eq, Structural)]
pub enum OpenAiModel {
    GPT3_5Turbo,
    GPT4,
    GPT4_0314,
}

/// The models that turn a text into an embedding.
#[derive(Clone, Copy, Debug, PartialEq, Eq, Structural)]
pub enum OpenAiEmbeddingModel {
    Ada002,
}

impl OpenAiModel {
    /// The name under which the service knows the model.
    pub open spec fn spec_name(self) -> Seq<char> {
        match self {
            OpenAiModel::GPT3_5Turbo => "gpt-3.5-turbo"@,
            OpenAiModel::GPT4 => "gpt-4"@,
            OpenAiModel::GPT4_0314 => "gpt-4-0314"@,
        }
    }

    /// The number of tokens that one request to the model may hold.
    pub open spec fn spec_token_limit(self) -> nat {
        match self {
            OpenAiModel::GPT3_5Turbo => 4096,
            OpenAiModel::GPT4 => 8192,
            OpenAiModel::GPT4_0314 => 8192,
        }
    }

    /// The name under which the service knows the model.
    pub fn name(&self) -> (name: &'static str)
        ensures
            name@ == self.spec_name(),
    {
        match self {
            OpenAiModel::GPT3_5Turbo => "gpt-3.5-turbo",
            OpenAiModel::GPT4 => "gpt-4",
            OpenAiModel::GPT4_0314 => "gpt-4-0314",
        }
    }

    /// The number of tokens that one request to the model may hold.
    pub fn token_limit(&self) -> (limit: u16)
        ensures
            limit == self.spec_token_limit(),
    {
        match self {
            OpenAiModel::GPT3_5Turbo => 4096,
            OpenAiModel::GPT4 => 8192,
            OpenAiModel::GPT4_0314 => 8192,
        }
    }
}

impl OpenAiEmbeddingModel {
    /// The name under which the service knows the model.
    pub open spec fn spec_name(self) -> Seq<char> {
        match self {
            OpenAiEmbeddingModel::Ada002 => "text-embedding-ada-002"@,
        }
    }

    /// The name under which the service knows the model.
    pub fn name(&self) -> (name: &'static str)
        ensures
            name@ == self.spec_name(),
    {
        match self {
            OpenAiEmbeddingModel::Ada002 => "text-embedding-ada-002",
        }
    }
}

/// How to reach the agent, and how much of a request it may use for what.
#[derive(Debug, PartialEq, Eq)]
pub struct OpenAIAgentConfiguration {
    pub api_key: String,
    pub embedding_model: OpenAiEmbeddingModel,
    pub model: OpenAiModel,
    /// The ceiling, in tokens, on the conversation history in a request.
    pub tokens_reserved_for_history: u16,
    /// The ceiling, in tokens, on the memories in a request.
    pub tokens_reserved_for_memories: u16,
}

/// The agent to use.
#[derive(Debug, PartialEq, Eq)]
pub enum AgentConfiguration {
    OpenAIAgentConfiguration(OpenAIAgentConfiguration),
}

/// How to reach the long-term memory.
#[derive(Debug, PartialEq, Eq)]
pub struct PineconeMemoryConfiguration {
    pub api_key: String,
    pub index_name: String,
    pub region: String,
    /// How many memories to ask for at a time.
    pub similar_memories_count: u8,
}

/// The long-term memory to use.
#[derive(Debug, PartialEq, Eq)]
pub enum MemoryConfiguration {
    PineconeConfiguration(PineconeMemoryConfiguration),
}

/// Where the first message of a fresh conversation comes from.
#[derive(Debug, PartialEq, Eq)]
pub enum InitialPromptConfiguration {
    File { path: String },
    Raw { value: String },
}

impl InitialPromptConfiguration {
    /// The prompt itself where the configuration holds it, and `None` where
    /// it names a file to read it from.
    pub fn raw_value(&self) -> (value: Option<String>)
        ensures
            match *self {
                InitialPromptConfiguration::Raw { value: held } => value == Some(held),
                InitialPromptConfiguration::File { .. } => value is None,
            },
    {
        match self {
            InitialPromptConfiguration::Raw { value } => Some(value.clone()),
            InitialPromptConfiguration::File { .. } => None,
        }
    }
}

/// Where the loop keeps its conversation and does its work.
#[derive(Debug, PartialEq, Eq)]
pub struct SystemConfiguration {
    pub conversation_file_path: String,
    pub initial_prompt: InitialPromptConfiguration,
    pub working_directory: String,
    /// What the agent is told, after its own words, when its reply cannot be
    /// read.
    pub help_text_for_ai_parsing_errors: String,
}

/// Everything that is configured.
#[derive(Debug, PartialEq, Eq)]
pub struct ApplicationConfiguration {
    pub agent: AgentConfiguration,
    pub memory: MemoryConfiguration,
    pub system: SystemConfiguration,
}

} // verus!
