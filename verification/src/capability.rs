//! Capability card construction, signing, and verification.

use vstd::prelude::*;
use crate::error::Error;
use crate::facets::{facet_fingerprint, fingerprint};
use crate::identity::{
    key_peer_id, parsed_peer_id, public_key_decodes, signature_accepted, AgentIdentity,
};
use crate::order::{copy_bytes, copy_strings, views};
use crate::proto::{
    canonical_model_id, canonical_model_id_string, CapabilityCard, CapabilityFacets,
    EmbeddingDescriptor, AGENT_STATUS_AVAILABLE, CANONICAL_EMBEDDING_DIM,
};

verus! {

/// What card verification finds first.
pub enum CardFault {
    MissingFacets,
    MissingEmbedding,
    UnsupportedModel,
    EmbeddingDimension,
    FingerprintMismatch,
    BadAgentId,
    BadPublicKey,
    KeyMismatch,
    BadSignature,
}

/// The first fault of a card, in the order verification checks: facets and
/// embedding present, canonical model, canonical dimension (declared and
/// actual), fingerprint, agent id syntax, public key decoding, agent id
/// derived from the public key, signature over the signing bytes.
pub open spec fn card_fault(card: CapabilityCard) -> Option<CardFault> {
    match card.facets {
        None => Some(CardFault::MissingFacets),
        Some(facets) => match card.embedding {
            None => Some(CardFault::MissingEmbedding),
            Some(e) => if e.model_id@ != canonical_model_id() {
                Some(CardFault::UnsupportedModel)
            } else if e.dimension != CANONICAL_EMBEDDING_DIM || (e.vector@.len() as u32) != CANONICAL_EMBEDDING_DIM {
                Some(CardFault::EmbeddingDimension)
            } else if card.facet_fingerprint@ != facet_fingerprint(facets) {
                Some(CardFault::FingerprintMismatch)
            } else if parsed_peer_id(card.agent_id@) is None {
                Some(CardFault::BadAgentId)
            } else if !public_key_decodes(card.public_key@) {
                Some(CardFault::BadPublicKey)
            } else if parsed_peer_id(card.agent_id@) != Some(key_peer_id(card.public_key@)) {
                Some(CardFault::KeyMismatch)
            } else if !signature_accepted(card.public_key@, card.signing_bytes(), card.signature@) {
                Some(CardFault::BadSignature)
            } else {
                None
            },
        },
    }
}

/// A card as issued by the holder of the public key `pk`: complete,
/// canonical, fingerprinted, bound to the peer id of `pk`, and signed.
pub open spec fn issued_by(card: CapabilityCard, pk: Seq<u8>) -> bool {
    &&& card.facets matches Some(f) && card.facet_fingerprint@ == facet_fingerprint(f)
    &&& card.embedding matches Some(e) && e.model_id@ == canonical_model_id()
        && e.dimension == CANONICAL_EMBEDDING_DIM && e.vector@.len() == CANONICAL_EMBEDDING_DIM
    &&& card.public_key@ == pk
    &&& public_key_decodes(pk)
    &&& card.agent_id@ == key_peer_id(pk)
    &&& parsed_peer_id(key_peer_id(pk)) == Some(key_peer_id(pk))
    &&& signature_accepted(pk, card.signing_bytes(), card.signature@)
}

/// A card issued by the holder of a public key passes verification.
pub proof fn lemma_issued_card_verifies(card: CapabilityCard, pk: Seq<u8>)
    requires
        issued_by(card, pk),
    ensures
        card_fault(card) is None,
{
}

/// Build a signed card with the given clock reading `now_ns`.
pub fn build_at(
    identity: &AgentIdentity,
    capability_id: String,
    agent_name: String,
    agent_version: String,
    facets: CapabilityFacets,
    description: String,
    vector: Vec<u32>,
    ttl_ns: u64,
    now_ns: u64,
) -> (res: Result<CapabilityCard, Error>)
    ensures
        vector@.len() != CANONICAL_EMBEDDING_DIM <==> (res matches Err(Error::EmbeddingDimension { expected, got })
            && expected == CANONICAL_EMBEDDING_DIM && got == vector@.len() as u32),
        vector@.len() == CANONICAL_EMBEDDING_DIM ==> (res is Ok),
        res matches Ok(card) ==> {
            &&& issued_by(card, identity@)
            &&& card.capability_id@ == capability_id@
            &&& card.agent_name@ == agent_name@
            &&& card.agent_version@ == agent_version@
            &&& views(card.ontologies@) == views(facets.ontologies@)
            &&& card.tools@.len() == 0
            &&& card.facets == Some(facets)
            &&& card.description@ == description@
            &&& card.embedding matches Some(e) && e.vector@ == vector@ && e.normalized
            &&& card.pricing is None
            &&& card.status == AGENT_STATUS_AVAILABLE
            &&& card.last_seen_ns == now_ns
            &&& card.expires_at_ns == if now_ns + ttl_ns > u64::MAX { u64::MAX as int } else { now_ns + ttl_ns }
            &&& card.endorsements@.len() == 0
            &&& card.mcp_servers@.len() == 0
            &&& card.a2a_agent_card_url@.len() == 0
        },
{
    if vector.len() != 384 {
        return Err(Error::EmbeddingDimension { expected: CANONICAL_EMBEDDING_DIM, got: vector.len() as u32 });
    }
    let fp = fingerprint(&facets);
    let ontologies = copy_strings(&facets.ontologies);
    let expires_at_ns = now_ns.saturating_add(ttl_ns);
    let mut card = CapabilityCard {
        capability_id,
        agent_id: identity.peer_id(),
        agent_name,
        agent_version,
        ontologies,
        tools: Vec::new(),
        facets: Some(facets),
        description,
        embedding: Some(
            EmbeddingDescriptor {
                model_id: canonical_model_id_string(),
                dimension: CANONICAL_EMBEDDING_DIM,
                vector,
                normalized: true,
            },
        ),
        pricing: None,
        status: AGENT_STATUS_AVAILABLE,
        last_seen_ns: now_ns,
        expires_at_ns,
        facet_fingerprint: copy_bytes(&fp),
        endorsements: Vec::new(),
        signature: Vec::new(),
        mcp_servers: Vec::new(),
        a2a_agent_card_url: String::new(),
        public_key: identity.public_key(),
    };
    let bytes = card.signing_bytes_exec();
    let sig = identity.sign(bytes.as_slice())?;
    card.signature = sig;
    Ok(card)
}

/// Build a signed card, stamped with the current time: last seen now, and
/// expiring `ttl_ns` later (saturating).
pub fn build(
    identity: &AgentIdentity,
    capability_id: String,
    agent_name: String,
    agent_version: String,
    facets: CapabilityFacets,
    description: String,
    vector: Vec<u32>,
    ttl_ns: u64,
) -> (res: Result<CapabilityCard, Error>)
    ensures
        vector@.len() != CANONICAL_EMBEDDING_DIM <==> (res matches Err(Error::EmbeddingDimension { expected, got })
            && expected == CANONICAL_EMBEDDING_DIM && got == vector@.len() as u32),
        vector@.len() == CANONICAL_EMBEDDING_DIM ==> (res is Ok),
        res matches Ok(card) ==> {
            &&& issued_by(card, identity@)
            &&& card.capability_id@ == capability_id@
            &&& card.agent_name@ == agent_name@
            &&& card.agent_version@ == agent_version@
            &&& views(card.ontologies@) == views(facets.ontologies@)
            &&& card.tools@.len() == 0
            &&& card.facets == Some(facets)
            &&& card.description@ == description@
            &&& card.embedding matches Some(e) && e.vector@ == vector@ && e.normalized
            &&& card.pricing is None
            &&& card.status == AGENT_STATUS_AVAILABLE
            &&& card.expires_at_ns == if card.last_seen_ns + ttl_ns > u64::MAX { u64::MAX as int } else { card.last_seen_ns + ttl_ns }
            &&& card.endorsements@.len() == 0
            &&& card.mcp_servers@.len() == 0
            &&& card.a2a_agent_card_url@.len() == 0
        },
{
    let now = crate::clock::now_ns();
    build_at(identity, capability_id, agent_name, agent_version, facets, description, vector, ttl_ns, now)
}

/// The error verification reports for a card's first fault.
pub open spec fn fault_reported(card: CapabilityCard, e: Error) -> bool {
    match card_fault(card) {
        Some(CardFault::MissingFacets) => e matches Error::InvalidCard(m) && m@ == "missing facets"@,
        Some(CardFault::MissingEmbedding) => e matches Error::InvalidCard(m) && m@ == "missing embedding"@,
        Some(CardFault::UnsupportedModel) => e matches Error::UnsupportedModel(m)
            && (card.embedding matches Some(d) && m@ == d.model_id@),
        Some(CardFault::EmbeddingDimension) => e matches Error::EmbeddingDimension { expected, got }
            && expected == CANONICAL_EMBEDDING_DIM && (card.embedding matches Some(d) && got == d.vector@.len() as u32),
        Some(CardFault::FingerprintMismatch) => e is FingerprintMismatch,
        Some(CardFault::BadAgentId) => e matches Error::InvalidCard(m) && m@ == "bad agent_id"@,
        Some(CardFault::BadPublicKey) => e is InvalidCard,
        Some(CardFault::KeyMismatch) => e matches Error::InvalidCard(m) && m@ == "public key does not match agent_id"@,
        Some(CardFault::BadSignature) => e is BadSignature,
        None => false,
    }
}

/// Verify a card's completeness, model, dimension, fingerprint, peer-id
/// binding and signature, reporting the first failure.
pub fn verify(card: &CapabilityCard) -> (res: Result<(), Error>)
    ensures
        res is Ok <==> card_fault(*card) is None,
        res matches Err(e) ==> fault_reported(*card, e),
{
    let facets = match &card.facets {
        Some(f) => f,
        None => {
            return Err(Error::InvalidCard(String::from_str("missing facets")));
        },
    };
    let embedding = match &card.embedding {
        Some(e) => e,
        None => {
            return Err(Error::InvalidCard(String::from_str("missing embedding")));
        },
    };
    let canonical = canonical_model_id_string();
    if embedding.model_id != canonical {
        return Err(Error::UnsupportedModel(embedding.model_id.clone()));
    }
    if embedding.dimension != CANONICAL_EMBEDDING_DIM || embedding.vector.len() as u32 != CANONICAL_EMBEDDING_DIM {
        return Err(Error::EmbeddingDimension { expected: CANONICAL_EMBEDDING_DIM, got: embedding.vector.len() as u32 });
    }
    let expected_fp = fingerprint(facets);
    if !crate::order::bytes_equal(card.facet_fingerprint.as_slice(), &expected_fp) {
        return Err(Error::FingerprintMismatch);
    }
    crate::identity::check_signed_by(card.agent_id.as_str(), card.public_key.as_slice(), &card.signing_bytes_exec(), card.signature.as_slice(),
        "bad agent_id", "bad public key", "public key does not match agent_id")
}

} // verus!
