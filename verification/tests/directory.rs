use kite_mesh::capability::build_at;
use kite_mesh::directory::{build_records, dht_key, lookup_keys, verify_record};
use kite_mesh::error::Error;
use kite_mesh::identity::AgentIdentity;
use kite_mesh::proto::{canonical_model_id_string, CapabilityFacets, PROTOCOL_VERSION, AGENT_STATUS_AVAILABLE};

fn facets() -> CapabilityFacets {
    CapabilityFacets {
        tools: vec!["python_exec".into()],
        ontologies: vec!["code-execution".into()],
        sandbox_level: "container".into(),
        network_access: "egress-limited".into(),
        gpu_class: "none".into(),
        privacy_tier: "trusted".into(),
        region: "local".into(),
        pricing_band: "free".into(),
        trust_tier: "local".into(),
        status: AGENT_STATUS_AVAILABLE,
    }
}

fn vector() -> Vec<u32> {
    let mut v = vec![0u32; 384];
    v[1] = 1.0f32.to_bits();
    v
}

#[test]
fn dht_key_is_blake3_of_fields() {
    let key = dht_key(&[1, 2], "m", 3, &[9]);
    let mut input = Vec::new();
    input.extend_from_slice(&PROTOCOL_VERSION.to_le_bytes());
    input.extend_from_slice(&[1, 2]);
    input.extend_from_slice(b"m");
    input.extend_from_slice(&3u32.to_le_bytes());
    input.push(9);
    assert_eq!(key, blake3::hash(&input).as_bytes().to_vec());
    assert_ne!(dht_key(&[1, 2], "m", 4, &[9]), key);
}

#[test]
fn records_verify_and_sit_under_lookup_keys() {
    let id = AgentIdentity::generate();
    let card = build_at(&id, "cap-1".into(), "w".into(), "1".into(), facets(), "d".into(), vector(), 10, 1).unwrap();
    let sigs = vec![vec![0x01], vec![0x80], vec![0xff], vec![0x00]];
    let pubs = build_records(&card, &sigs, &id, 300_000_000_000).unwrap();
    assert_eq!(pubs.len(), 4);
    let keys = lookup_keys(&kite_mesh::facets::fingerprint(&facets()), &sigs);
    for (i, p) in pubs.iter().enumerate() {
        verify_record(&p.record).unwrap();
        assert_eq!(keys[i].0, i as u32);
        assert_eq!(p.key, keys[i].1);
        assert_eq!(p.record.table_id, i as u32);
        assert_eq!(p.record.hash_code, sigs[i]);
        assert_eq!(p.record.capability_id, "cap-1");
        assert_eq!(p.record.peer_id, id.peer_id());
        assert_eq!(p.record.model_id, canonical_model_id_string());
        assert_eq!(p.record.status, "available");
        assert_eq!(p.record.ttl_ns, 300_000_000_000);
        assert_eq!(p.record_bytes, p.record.encode());
    }
}

#[test]
fn card_without_embedding_has_no_records() {
    let id = AgentIdentity::generate();
    let mut card = build_at(&id, "cap-1".into(), "w".into(), "1".into(), facets(), "d".into(), vector(), 10, 1).unwrap();
    card.embedding = None;
    let res = build_records(&card, &vec![vec![0]], &id, 1);
    assert!(matches!(res, Err(Error::InvalidCard(m)) if m == "missing embedding"));
}

#[test]
fn tampered_record_fails() {
    let id = AgentIdentity::generate();
    let card = build_at(&id, "cap-1".into(), "w".into(), "1".into(), facets(), "d".into(), vector(), 10, 1).unwrap();
    let pubs = build_records(&card, &vec![vec![3]], &id, 1).unwrap();
    let mut r = pubs[0].record.clone();
    r.capability_id = "cap-evil".into();
    assert!(matches!(verify_record(&r), Err(Error::BadSignature)));
    let mut r = pubs[0].record.clone();
    r.peer_id = "junk".into();
    assert!(matches!(verify_record(&r), Err(Error::InvalidCard(m)) if m == "bad peer id in record"));
    let mut r = pubs[0].record.clone();
    r.peer_id = AgentIdentity::generate().peer_id();
    assert!(matches!(verify_record(&r), Err(Error::InvalidCard(m)) if m == "publisher public key does not match peer_id"));
}
