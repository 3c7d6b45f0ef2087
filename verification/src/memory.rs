//! Keeping count of what the long-term memory holds.
//!
//! Every record gets the count of the records before it as its identifier,
//! so identifiers never repeat as long as the count is right. The count is
//! the store's own: it is taken over on every initialisation, and moved on
//! only once the store has confirmed that records were added.

use crate::configuration::PineconeMemoryConfiguration;
use crate::text::{decimal, decimal_string, digit, texts};
use vstd::prelude::*;

verus! {

/// The text that a record was made from, kept beside its embedding.
#[derive(Debug, PartialEq, Eq)]
pub struct VectorMetadata {
    pub raw_text: String,
}

/// A record to add, without its embedding, which travels beside it.
#[derive(Debug, PartialEq, Eq)]
pub struct Vector {
    pub id: String,
    pub metadata: VectorMetadata,
}

/// Why records cannot be added.
#[derive(Clone, Copy, Debug, PartialEq, Eq, Structural)]
pub enum MemoryError {
    /// The memory has not been initialised, so its project is not known.
    NotInitialized,
    /// There are more records than can be counted.
    CountOutOfRange,
}

/// The long-term memory, as far as the loop keeps track of it.
#[derive(Debug, PartialEq, Eq)]
pub struct Pinecone {
    pub api_key: String,
    pub index_name: String,
    pub region: String,
    pub similar_memories_count: u8,
    /// The project that the index belongs to, known once initialised.
    pub project_name: Option<String>,
    /// How many records the store holds.
    pub vector_count: u32,
}

/// The identifier and text of each record, for texts added to a store that
/// holds `count` records.
pub open spec fn numbered(count: nat, memories: Seq<Seq<char>>) -> Seq<(Seq<char>, Seq<char>)> {
    Seq::new(memories.len(), |at: int| (decimal((count + at) as nat), memories[at]))
}

/// The identifier and text of each record of a list.
pub open spec fn vector_views(vectors: Seq<Vector>) -> Seq<(Seq<char>, Seq<char>)> {
    vectors.map_values(|vector: Vector| (vector.id@, vector.metadata.raw_text@))
}

impl Pinecone {
    /// The memory that a configuration describes, not yet initialised.
    pub fn new(pinecone_configuration: &PineconeMemoryConfiguration) -> (memory: Pinecone)
        ensures
            memory.api_key == pinecone_configuration.api_key,
            memory.index_name == pinecone_configuration.index_name,
            memory.region == pinecone_configuration.region,
            memory.similar_memories_count == pinecone_configuration.similar_memories_count,
            memory.project_name is None,
            memory.vector_count == 0,
    {
        Pinecone {
            api_key: pinecone_configuration.api_key.clone(),
            index_name: pinecone_configuration.index_name.clone(),
            region: pinecone_configuration.region.clone(),
            similar_memories_count: pinecone_configuration.similar_memories_count,
            project_name: None,
            vector_count: 0,
        }
    }

    /// How many records the store holds.
    pub fn vector_count(&self) -> (count: u32)
        ensures
            count == self.vector_count,
    {
        self.vector_count
    }

    /// Takes over what the store reports of itself: its project, and how
    /// many records it holds. A count that does not fit is refused, and
    /// nothing changes.
    pub fn initialize(&mut self, project_name: String, total_vector_count: u64) -> (done: Result<
        (),
        MemoryError,
    >)
        ensures
            total_vector_count <= u32::MAX ==> done is Ok && *final(self) == (Pinecone {
                project_name: Some(project_name),
                vector_count: total_vector_count as u32,
                ..*old(self)
            }),
            total_vector_count > u32::MAX ==> done == Err::<(), MemoryError>(
                MemoryError::CountOutOfRange,
            ) && *final(self) == *old(self),
    {
        if total_vector_count <= u32::MAX as u64 {
            self.project_name = Some(project_name);
            self.vector_count = total_vector_count as u32;
            Ok(())
        } else {
            Err(MemoryError::CountOutOfRange)
        }
    }

    /// The record to add for one text.
    pub fn add_memory(&self, memory: String) -> (vector: Result<Vector, MemoryError>)
        ensures
            self.project_name is None ==> vector == Err::<Vector, MemoryError>(
                MemoryError::NotInitialized,
            ),
            self.project_name is Some ==> vector is Ok && vector.unwrap().id@ == decimal(
                self.vector_count as nat,
            ) && vector.unwrap().metadata.raw_text == memory,
    {
        if self.project_name.is_none() {
            return Err(MemoryError::NotInitialized);
        }
        Ok(
            Vector {
                id: decimal_string(self.vector_count as u64),
                metadata: VectorMetadata { raw_text: memory },
            },
        )
    }

    /// The records to add for some texts, numbered on from the count.
    pub fn add_memories(&self, memories: &Vec<String>) -> (vectors: Result<
        Vec<Vector>,
        MemoryError,
    >)
        ensures
            self.project_name is None ==> vectors == Err::<Vec<Vector>, MemoryError>(
                MemoryError::NotInitialized,
            ),
            self.project_name is Some && self.vector_count + memories@.len() > u32::MAX ==> vectors
                == Err::<Vec<Vector>, MemoryError>(MemoryError::CountOutOfRange),
            self.project_name is Some && self.vector_count + memories@.len() <= u32::MAX
                ==> vectors is Ok && vector_views(vectors.unwrap()@) == numbered(
                self.vector_count as nat,
                texts(memories@),
            ),
    {
        if self.project_name.is_none() {
            return Err(MemoryError::NotInitialized);
        }
        let room = (u32::MAX - self.vector_count) as u64;
        if memories.len() as u64 > room {
            return Err(MemoryError::CountOutOfRange);
        }
        let mut vectors: Vec<Vector> = Vec::new();
        let mut index: usize = 0;
        while index < memories.len()
            invariant
                index <= memories.len(),
                self.vector_count + memories@.len() <= u32::MAX,
                vectors@.len() == index,
                forall|at: int|
                    0 <= at < index ==> (#[trigger] vectors@[at]).id@ == decimal(
                        (self.vector_count + at) as nat,
                    ) && vectors@[at].metadata.raw_text@ == memories@[at]@,
            decreases memories.len() - index,
        {
            vectors.push(
                Vector {
                    id: decimal_string(self.vector_count as u64 + index as u64),
                    metadata: VectorMetadata { raw_text: memories[index].clone() },
                },
            );
            index = index + 1;
        }
        Ok(vectors)
    }

    /// Moves the count on by the records that the store has taken. A count
    /// that would not fit is refused, and nothing changes.
    pub fn upsert(&mut self, added: usize) -> (done: Result<(), MemoryError>)
        ensures
            old(self).vector_count + added <= u32::MAX ==> done is Ok && *final(self) == (Pinecone {
                vector_count: (old(self).vector_count + added) as u32,
                ..*old(self)
            }),
            old(self).vector_count + added > u32::MAX ==> done == Err::<(), MemoryError>(
                MemoryError::CountOutOfRange,
            ) && *final(self) == *old(self),
    {
        let room = (u32::MAX - self.vector_count) as u64;
        if added as u64 > room {
            return Err(MemoryError::CountOutOfRange);
        }
        self.vector_count = self.vector_count + added as u32;
        Ok(())
    }
}

/// No two records get the same identifier: not within one batch, and not
/// across batches as long as the count has moved on by every batch that
/// the store has taken.
pub proof fn lemma_identifiers_never_repeat(
    count: nat,
    earlier: Seq<Seq<char>>,
    later: Seq<Seq<char>>,
    first: int,
    second: int,
)
    requires
        0 <= first < earlier.len(),
        0 <= second < later.len(),
    ensures
        numbered(count, earlier)[first].0 != numbered(count + earlier.len(), later)[second].0,
        first != second && second < earlier.len() ==> numbered(count, earlier)[first].0
            != numbered(count, earlier)[second].0,
{
    let one = (count + first) as nat;
    let other = (count + earlier.len() + second) as nat;
    if decimal(one) == decimal(other) {
        lemma_decimal_is_injective(one, other);
    }
    if first != second && second < earlier.len() {
        let same_batch = (count + second) as nat;
        if decimal(one) == decimal(same_batch) {
            lemma_decimal_is_injective(one, same_batch);
        }
    }
}

/// Numbers that are written the same in base ten are the same.
pub proof fn lemma_decimal_is_injective(left: nat, right: nat)
    requires
        decimal(left) == decimal(right),
    ensures
        left == right,
    decreases left,
{
    lemma_decimal_is_digits(left);
    lemma_decimal_is_digits(right);
    if left < 10 {
        if right >= 10 {
            lemma_decimal_is_digits(right / 10);
        }
        assert(decimal(right)[0] == digit(right));
        lemma_digit_is_injective(left, right);
    } else {
        lemma_decimal_is_digits(left / 10);
        let most = decimal(left).len() - 1;
        assert(decimal(left).drop_last() =~= decimal(left / 10));
        assert(decimal(right).drop_last() =~= decimal(right / 10));
        assert(decimal(right)[most] == digit(right % 10));
        lemma_decimal_is_injective(left / 10, right / 10);
        lemma_digit_is_injective(left % 10, right % 10);
    }
}

/// Different digits are written differently.
proof fn lemma_digit_is_injective(left: nat, right: nat)
    requires
        left < 10,
        right < 10,
        digit(left) == digit(right),
    ensures
        left == right,
{
}

/// A number in base ten has at least one digit.
proof fn lemma_decimal_is_digits(number: nat)
    ensures
        decimal(number).len() >= 1,
    decreases number,
{
    if number >= 10 {
        lemma_decimal_is_digits(number / 10);
    }
}

} // verus!
