//! Intent construction.

use vstd::prelude::*;
use crate::error::Error;
use crate::proto::{CapabilityFacets, Intent, CANONICAL_EMBEDDING_DIM};

verus! {

/// What a requester supplies for an intent. `embedding` holds the bit
/// patterns of the `f32` components.
pub struct IntentInput {
    pub requester_agent_id: String,
    pub facets: CapabilityFacets,
    pub description: String,
    pub embedding: Vec<u32>,
    pub payload: Vec<u8>,
    pub deadline_ns: u64,
}

/// An intent together with the facets and embedding used to route it.
pub struct BuiltIntent {
    pub intent: Intent,
    pub facets: CapabilityFacets,
    pub embedding: Vec<u32>,
}

/// Build an intent with the given id.
pub fn build_with_id(input: IntentInput, intent_id: String) -> (res: Result<BuiltIntent, Error>)
    ensures
        input.embedding@.len() != CANONICAL_EMBEDDING_DIM <==> (res matches Err(Error::EmbeddingDimension { expected, got })
            && expected == CANONICAL_EMBEDDING_DIM && got == input.embedding@.len() as u32),
        input.embedding@.len() == CANONICAL_EMBEDDING_DIM <==> res is Ok,
        res matches Ok(b) ==> {
            &&& b.intent.intent_id@ == intent_id@
            &&& b.intent.requester_agent_id@ == input.requester_agent_id@
            &&& b.intent.description@ == input.description@
            &&& b.intent.payload@ == input.payload@
            &&& b.intent.deadline_ns == input.deadline_ns
            &&& b.facets == input.facets
            &&& b.embedding@ == input.embedding@
        },
{
    if input.embedding.len() != 384 {
        return Err(Error::EmbeddingDimension { expected: CANONICAL_EMBEDDING_DIM, got: input.embedding.len() as u32 });
    }
    let intent = Intent {
        intent_id,
        requester_agent_id: input.requester_agent_id,
        description: input.description,
        payload: input.payload,
        deadline_ns: input.deadline_ns,
    };
    Ok(BuiltIntent { intent, facets: input.facets, embedding: input.embedding })
}

/// Build an intent with a fresh random id.
pub fn build(input: IntentInput) -> (res: Result<BuiltIntent, Error>)
    ensures
        input.embedding@.len() != CANONICAL_EMBEDDING_DIM <==> (res matches Err(Error::EmbeddingDimension { expected, got })
            && expected == CANONICAL_EMBEDDING_DIM && got == input.embedding@.len() as u32),
        input.embedding@.len() == CANONICAL_EMBEDDING_DIM <==> res is Ok,
        res matches Ok(b) ==> {
            &&& crate::clock::uuid_v4_text(b.intent.intent_id@)
            &&& b.intent.requester_agent_id@ == input.requester_agent_id@
            &&& b.intent.description@ == input.description@
            &&& b.intent.payload@ == input.payload@
            &&& b.intent.deadline_ns == input.deadline_ns
            &&& b.facets == input.facets
            &&& b.embedding@ == input.embedding@
        },
{
    let id = crate::clock::new_uuid();
    build_with_id(input, id)
}

} // verus!
