use kite_mesh::error::Error;
use kite_mesh::identity::AgentIdentity;
use kite_mesh::proto::{ResultStatus, RESULT_STATUS_ERROR, RESULT_STATUS_OK};
use kite_mesh::receipt::{build, build_at, verify};

#[test]
fn built_receipt_verifies() {
    let id = AgentIdentity::generate();
    let r = build(&id, "conv-1".into(), "cap-1".into(), "12D3KooWExample".into(), id.peer_id(), ResultStatus::Success).unwrap();
    assert_eq!(r.conversation_id, "conv-1");
    assert_eq!(r.capability_id, "cap-1");
    assert_eq!(r.requester_peer_id, "12D3KooWExample");
    assert_eq!(r.provider_peer_id, id.peer_id());
    assert_eq!(r.status, RESULT_STATUS_OK);
    assert_eq!(r.issuer_public_key, id.public_key());
    verify(&r).unwrap();
}

#[test]
fn build_at_keeps_completion_time_and_status() {
    let id = AgentIdentity::generate();
    let r = build_at(&id, "c".into(), "k".into(), "a".into(), "b".into(), ResultStatus::Failure, 99).unwrap();
    assert_eq!(r.completed_at_ns, 99);
    assert_eq!(r.status, RESULT_STATUS_ERROR);
    verify(&r).unwrap();
}

#[test]
fn tampered_receipt_fails() {
    let id = AgentIdentity::generate();
    let mut r = build(&id, "conv-1".into(), "cap-1".into(), "x".into(), "y".into(), ResultStatus::Success).unwrap();
    r.capability_id = "cap-2".into();
    assert!(matches!(verify(&r), Err(Error::BadSignature)));
}

#[test]
fn undecodable_issuer_key_fails() {
    let id = AgentIdentity::generate();
    let mut r = build(&id, "conv-1".into(), "cap-1".into(), "x".into(), "y".into(), ResultStatus::Success).unwrap();
    r.issuer_public_key = vec![9, 9];
    assert!(matches!(verify(&r), Err(Error::InvalidCard(m)) if m.starts_with("bad issuer public key")));
}
