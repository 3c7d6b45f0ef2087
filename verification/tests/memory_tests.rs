use rustacean_gpt::configuration::PineconeMemoryConfiguration;
use rustacean_gpt::memory::{MemoryError, Pinecone, Vector, VectorMetadata};

fn configuration() -> PineconeMemoryConfiguration {
    PineconeMemoryConfiguration {
        api_key: "key".to_string(),
        index_name: "index".to_string(),
        region: "region".to_string(),
        similar_memories_count: 5,
    }
}

fn vector(id: &str, text: &str) -> Vector {
    Vector { id: id.to_string(), metadata: VectorMetadata { raw_text: text.to_string() } }
}

#[test]
fn new_memory_is_not_initialized() {
    let memory = Pinecone::new(&configuration());
    assert_eq!(memory.api_key, "key");
    assert_eq!(memory.index_name, "index");
    assert_eq!(memory.region, "region");
    assert_eq!(memory.similar_memories_count, 5);
    assert_eq!(memory.project_name, None);
    assert_eq!(memory.vector_count(), 0);
}

#[test]
fn adding_before_initialization_is_refused() {
    let memory = Pinecone::new(&configuration());
    assert_eq!(memory.add_memory("m".to_string()), Err(MemoryError::NotInitialized));
    assert_eq!(memory.add_memories(&vec!["m".to_string()]), Err(MemoryError::NotInitialized));
}

#[test]
fn initialize_takes_over_the_reported_count() {
    let mut memory = Pinecone::new(&configuration());
    assert_eq!(memory.initialize("project".to_string(), 41), Ok(()));
    assert_eq!(memory.project_name, Some("project".to_string()));
    assert_eq!(memory.vector_count(), 41);
    assert_eq!(memory.initialize("project".to_string(), 7), Ok(()));
    assert_eq!(memory.vector_count(), 7);
}

#[test]
fn initialize_refuses_a_count_that_does_not_fit() {
    let mut memory = Pinecone::new(&configuration());
    assert_eq!(
        memory.initialize("project".to_string(), u32::MAX as u64 + 1),
        Err(MemoryError::CountOutOfRange)
    );
    assert_eq!(memory.project_name, None);
    assert_eq!(memory.vector_count(), 0);
    assert_eq!(memory.initialize("project".to_string(), u32::MAX as u64), Ok(()));
    assert_eq!(memory.vector_count(), u32::MAX);
}

#[test]
fn a_memory_is_numbered_by_the_count() {
    let mut memory = Pinecone::new(&configuration());
    memory.initialize("project".to_string(), 12).unwrap();
    assert_eq!(memory.add_memory("m".to_string()), Ok(vector("12", "m")));
    assert_eq!(memory.vector_count(), 12);
}

#[test]
fn memories_are_numbered_on_from_the_count() {
    let mut memory = Pinecone::new(&configuration());
    memory.initialize("project".to_string(), 9).unwrap();
    let texts = vec!["a".to_string(), "b".to_string(), "c".to_string()];
    assert_eq!(
        memory.add_memories(&texts),
        Ok(vec![vector("9", "a"), vector("10", "b"), vector("11", "c")])
    );
    assert_eq!(memory.add_memories(&vec![]), Ok(vec![]));
}

#[test]
fn upsert_moves_the_count_on() {
    let mut memory = Pinecone::new(&configuration());
    memory.initialize("project".to_string(), 9).unwrap();
    assert_eq!(memory.upsert(3), Ok(()));
    assert_eq!(memory.vector_count(), 12);
    assert_eq!(memory.add_memory("next".to_string()), Ok(vector("12", "next")));
    assert_eq!(memory.upsert(0), Ok(()));
    assert_eq!(memory.vector_count(), 12);
}

#[test]
fn counting_past_the_end_is_refused() {
    let mut memory = Pinecone::new(&configuration());
    memory.initialize("project".to_string(), u32::MAX as u64 - 1).unwrap();
    assert_eq!(memory.upsert(2), Err(MemoryError::CountOutOfRange));
    assert_eq!(memory.vector_count(), u32::MAX - 1);
    assert_eq!(
        memory.add_memories(&vec!["a".to_string(), "b".to_string()]),
        Err(MemoryError::CountOutOfRange)
    );
    assert_eq!(memory.add_memories(&vec!["a".to_string()]), Ok(vec![vector("4294967294", "a")]));
    assert_eq!(memory.upsert(1), Ok(()));
    assert_eq!(memory.vector_count(), u32::MAX);
}
