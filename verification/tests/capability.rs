use kite_mesh::capability::{build, build_at, verify};
use kite_mesh::error::Error;
use kite_mesh::identity::AgentIdentity;
use kite_mesh::proto::{CapabilityFacets, AGENT_STATUS_AVAILABLE, CANONICAL_EMBEDDING_DIM};

fn sample_vector() -> Vec<u32> {
    let mut v = vec![0.0f32.to_bits(); CANONICAL_EMBEDDING_DIM as usize];
    v[0] = 1.0f32.to_bits();
    v
}

fn sample_facets() -> CapabilityFacets {
    CapabilityFacets {
        tools: vec!["python_exec".into()],
        ontologies: vec!["code-execution".into()],
        sandbox_level: "container".into(),
        network_access: "egress-limited".into(),
        gpu_class: "none".into(),
        privacy_tier: "trusted".into(),
        region: "local".into(),
        pricing_band: "free".into(),
        trust_tier: "local".into(),
        status: AGENT_STATUS_AVAILABLE,
    }
}

#[test]
fn capability_round_trip_sign_and_verify() {
    let id = AgentIdentity::generate();
    let card = build(
        &id,
        "cap-1".into(),
        "python-worker".into(),
        "0.1.0".into(),
        sample_facets(),
        "executes python in a container".into(),
        sample_vector(),
        60_000_000_000,
    )
    .unwrap();
    verify(&card).unwrap();
}

#[test]
fn tampered_description_fails_verification() {
    let id = AgentIdentity::generate();
    let mut card = build(
        &id,
        "cap-1".into(),
        "python-worker".into(),
        "0.1.0".into(),
        sample_facets(),
        "executes python in a container".into(),
        sample_vector(),
        60_000_000_000,
    )
    .unwrap();
    card.description = "executes bash as root".into();
    assert!(matches!(verify(&card), Err(Error::BadSignature)));
}

#[test]
fn tampered_facets_fails_fingerprint_before_signature() {
    let id = AgentIdentity::generate();
    let mut card = build(
        &id,
        "cap-1".into(),
        "python-worker".into(),
        "0.1.0".into(),
        sample_facets(),
        "executes python in a container".into(),
        sample_vector(),
        60_000_000_000,
    )
    .unwrap();
    if let Some(f) = card.facets.as_mut() {
        f.sandbox_level = "none".into();
    }
    assert!(matches!(verify(&card), Err(Error::FingerprintMismatch)));
}

fn sample_card(id: &AgentIdentity) -> kite_mesh::proto::CapabilityCard {
    build_at(
        id,
        "cap-1".into(),
        "python-worker".into(),
        "0.1.0".into(),
        sample_facets(),
        "executes python in a container".into(),
        sample_vector(),
        60_000_000_000,
        1_000,
    )
    .unwrap()
}

#[test]
fn build_at_stamps_times_and_identity() {
    let id = AgentIdentity::generate();
    let card = sample_card(&id);
    assert_eq!(card.last_seen_ns, 1_000);
    assert_eq!(card.expires_at_ns, 60_000_001_000);
    assert_eq!(card.agent_id, id.peer_id());
    assert_eq!(card.public_key, id.public_key());
    assert_eq!(card.status, AGENT_STATUS_AVAILABLE);
    assert_eq!(card.facet_fingerprint, kite_mesh::facets::fingerprint(&sample_facets()).to_vec());
    let e = card.embedding.as_ref().unwrap();
    assert_eq!(e.model_id, kite_mesh::proto::canonical_model_id_string());
    assert_eq!(e.dimension, CANONICAL_EMBEDDING_DIM);
    assert!(e.normalized);
    assert_eq!(e.vector, sample_vector());
}

#[test]
fn expiry_saturates() {
    let id = AgentIdentity::generate();
    let card = build_at(
        &id,
        "cap-1".into(),
        "w".into(),
        "1".into(),
        sample_facets(),
        "d".into(),
        sample_vector(),
        u64::MAX,
        5,
    )
    .unwrap();
    assert_eq!(card.expires_at_ns, u64::MAX);
}

#[test]
fn wrong_dimension_is_rejected() {
    let id = AgentIdentity::generate();
    let res = build(&id, "cap-1".into(), "w".into(), "1".into(), sample_facets(), "d".into(), vec![0u32; 3], 1);
    assert!(matches!(res, Err(Error::EmbeddingDimension { expected: 384, got: 3 })));
}

#[test]
fn missing_facets_is_reported() {
    let id = AgentIdentity::generate();
    let mut card = sample_card(&id);
    card.facets = None;
    assert!(matches!(verify(&card), Err(Error::InvalidCard(m)) if m == "missing facets"));
}

#[test]
fn missing_embedding_is_reported() {
    let id = AgentIdentity::generate();
    let mut card = sample_card(&id);
    card.embedding = None;
    assert!(matches!(verify(&card), Err(Error::InvalidCard(m)) if m == "missing embedding"));
}

#[test]
fn foreign_model_is_unsupported() {
    let id = AgentIdentity::generate();
    let mut card = sample_card(&id);
    card.embedding.as_mut().unwrap().model_id = "other/model".into();
    assert!(matches!(verify(&card), Err(Error::UnsupportedModel(m)) if m == "other/model"));
}

#[test]
fn short_embedding_is_rejected_by_verify() {
    let id = AgentIdentity::generate();
    let mut card = sample_card(&id);
    card.embedding.as_mut().unwrap().vector.truncate(10);
    assert!(matches!(verify(&card), Err(Error::EmbeddingDimension { expected: 384, got: 10 })));
}

#[test]
fn bad_agent_id_is_rejected() {
    let id = AgentIdentity::generate();
    let mut card = sample_card(&id);
    card.agent_id = "not-a-peer-id".into();
    assert!(matches!(verify(&card), Err(Error::InvalidCard(m)) if m == "bad agent_id"));
}

#[test]
fn bad_public_key_is_rejected() {
    let id = AgentIdentity::generate();
    let mut card = sample_card(&id);
    card.public_key = vec![1, 2, 3];
    assert!(matches!(verify(&card), Err(Error::InvalidCard(_))));
}

#[test]
fn key_of_another_agent_is_rejected() {
    let id = AgentIdentity::generate();
    let other = AgentIdentity::generate();
    let mut card = sample_card(&id);
    card.public_key = other.public_key();
    assert!(matches!(verify(&card), Err(Error::InvalidCard(m)) if m == "public key does not match agent_id"));
}
