use kite_mesh::error::Error;
use kite_mesh::intent::{build, build_with_id, IntentInput};
use kite_mesh::proto::{CapabilityFacets, AGENT_STATUS_AVAILABLE};

fn input(dim: usize) -> IntentInput {
    IntentInput {
        requester_agent_id: "me".into(),
        facets: CapabilityFacets {
            tools: vec![],
            ontologies: vec!["code-execution".into()],
            sandbox_level: "container".into(),
            network_access: String::new(),
            gpu_class: String::new(),
            privacy_tier: String::new(),
            region: String::new(),
            pricing_band: String::new(),
            trust_tier: String::new(),
            status: AGENT_STATUS_AVAILABLE,
        },
        description: "run python".into(),
        embedding: vec![0u32; dim],
        payload: b"hello from b".to_vec(),
        deadline_ns: 5,
    }
}

#[test]
fn intent_carries_its_fields() {
    let b = build_with_id(input(384), "int-7".into()).unwrap();
    assert_eq!(b.intent.intent_id, "int-7");
    assert_eq!(b.intent.requester_agent_id, "me");
    assert_eq!(b.intent.description, "run python");
    assert_eq!(b.intent.payload, b"hello from b".to_vec());
    assert_eq!(b.intent.deadline_ns, 5);
    assert_eq!(b.embedding.len(), 384);
}

#[test]
fn fresh_ids_differ() {
    let a = build(input(384)).unwrap();
    let b = build(input(384)).unwrap();
    assert_ne!(a.intent.intent_id, b.intent.intent_id);
    for id in [&a.intent.intent_id, &b.intent.intent_id] {
        let c: Vec<char> = id.chars().collect();
        assert_eq!(c.len(), 36);
        for i in [8, 13, 18, 23] {
            assert_eq!(c[i], '-');
        }
        assert_eq!(c[14], '4');
        assert!(matches!(c[19], '8' | '9' | 'a' | 'b'));
        assert!(c.iter().all(|x| *x == '-' || x.is_ascii_digit() || ('a'..='f').contains(x)));
    }
}

#[test]
fn wrong_dimension_is_an_error() {
    assert!(matches!(build(input(2)), Err(Error::EmbeddingDimension { expected: 384, got: 2 })));
}
