use kite_mesh::proto::{
    Agreement, CapabilityFacets, EmbeddingDescriptor, Intent, Payload, Receipt, TaskResult, TrustContext,
};
use kite_mesh::wire::put_varint;

#[test]
fn varints_are_little_endian_base_128() {
    let mut b = Vec::new();
    put_varint(&mut b, 0);
    put_varint(&mut b, 1);
    put_varint(&mut b, 127);
    put_varint(&mut b, 128);
    put_varint(&mut b, 300);
    assert_eq!(b, vec![0, 1, 127, 0x80, 0x01, 0xac, 0x02]);
    let mut m = Vec::new();
    put_varint(&mut m, u64::MAX);
    assert_eq!(m, vec![0xff, 0xff, 0xff, 0xff, 0xff, 0xff, 0xff, 0xff, 0xff, 0x01]);
}

#[test]
fn agreement_encoding() {
    let a = Agreement { conversation_id: "c".into(), capability_id: "k".into() };
    assert_eq!(a.encode(), vec![0x0a, 1, b'c', 0x12, 1, b'k']);
}

#[test]
fn default_fields_are_left_out() {
    let t = TaskResult { conversation_id: String::new(), payload: Vec::new(), status: 0, error_message: String::new() };
    assert!(t.encode().is_empty());
    let i = Intent {
        intent_id: String::new(),
        requester_agent_id: String::new(),
        description: String::new(),
        payload: Vec::new(),
        deadline_ns: 300,
    };
    assert_eq!(i.encode(), vec![0x28, 0xac, 0x02]);
}

#[test]
fn negative_int32_takes_ten_bytes() {
    let t = TaskResult { conversation_id: String::new(), payload: Vec::new(), status: -1, error_message: String::new() };
    assert_eq!(t.encode(), vec![0x18, 0xff, 0xff, 0xff, 0xff, 0xff, 0xff, 0xff, 0xff, 0xff, 0x01]);
}

#[test]
fn packed_fixed32_and_bool() {
    let e = EmbeddingDescriptor { model_id: "m".into(), dimension: 2, vector: vec![1.0f32.to_bits(), 0], normalized: true };
    assert_eq!(
        e.encode(),
        vec![0x0a, 1, b'm', 0x10, 2, 0x1a, 8, 0x00, 0x00, 0x80, 0x3f, 0, 0, 0, 0, 0x20, 1]
    );
}

#[test]
fn repeated_strings_keep_order() {
    let t = TrustContext { tier: "local".into(), endorser_peer_ids: vec!["a".into(), "bc".into()] };
    assert_eq!(t.encode(), vec![0x0a, 5, b'l', b'o', b'c', b'a', b'l', 0x12, 1, b'a', 0x12, 2, b'b', b'c']);
    let f = CapabilityFacets {
        tools: vec!["x".into()],
        ontologies: vec![],
        sandbox_level: String::new(),
        network_access: String::new(),
        gpu_class: String::new(),
        privacy_tier: String::new(),
        region: String::new(),
        pricing_band: String::new(),
        trust_tier: String::new(),
        status: 2,
    };
    assert_eq!(f.encode(), vec![0x0a, 1, b'x', 0x50, 2]);
}

#[test]
fn payload_tags_and_signing_bytes() {
    let mut b = Vec::new();
    Payload::Agreement(Agreement { conversation_id: "c".into(), capability_id: String::new() }).put(&mut b);
    assert_eq!(b, vec![0x6a, 3, 0x0a, 1, b'c']);
    let r = Receipt {
        conversation_id: "c".into(),
        capability_id: String::new(),
        requester_peer_id: String::new(),
        provider_peer_id: String::new(),
        status: 1,
        completed_at_ns: 0,
        signature: vec![9, 9],
        issuer_public_key: vec![],
    };
    assert_eq!(r.encode(), vec![0x0a, 1, b'c', 0x28, 1, 0x3a, 2, 9, 9]);
    assert_eq!(r.signing_bytes_exec(), vec![0x0a, 1, b'c', 0x28, 1]);
    let mut rb = Vec::new();
    Payload::Receipt(r).put(&mut rb);
    assert_eq!(&rb[..2], &[0x92, 0x01]);
}
