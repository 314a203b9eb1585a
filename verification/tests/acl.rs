use kite_mesh::acl::{verify, AclBuilder};
use kite_mesh::error::Error;
use kite_mesh::identity::AgentIdentity;
use kite_mesh::proto::{Intent, Payload, Performative};

#[test]
fn acl_round_trip_sign_and_verify() {
    let id = AgentIdentity::generate();
    let builder = AclBuilder::new(&id, "conv-1");
    let intent = Intent {
        intent_id: "int-1".into(),
        requester_agent_id: id.peer_id().to_string(),
        description: "please echo hello".into(),
        payload: b"hello".to_vec(),
        deadline_ns: 0,
    };
    let msg = builder.request("code-execution", intent).unwrap();
    verify(&msg).unwrap();
}

#[test]
fn tamper_fails_verification() {
    let id = AgentIdentity::generate();
    let builder = AclBuilder::new(&id, "conv-1");
    let mut msg = builder
        .request(
            "code-execution",
            Intent {
                intent_id: "int-1".into(),
                requester_agent_id: id.peer_id().to_string(),
                description: "hi".into(),
                payload: Vec::new(),
                deadline_ns: 0,
            },
        )
        .unwrap();
    msg.ontology = "tampered".into();
    assert!(verify(&msg).is_err());
}

fn hello(id: &AgentIdentity) -> Intent {
    Intent {
        intent_id: "int-1".into(),
        requester_agent_id: id.peer_id(),
        description: "hi".into(),
        payload: b"hello".to_vec(),
        deadline_ns: 7,
    }
}

#[test]
fn envelope_header_fields() {
    let id = AgentIdentity::generate();
    let builder = AclBuilder::new(&id, "conv-9");
    let msg = builder
        .build_at(Performative::Request, "code-execution", "m-0", Some(Payload::Intent(hello(&id))), 42, "m-1".into())
        .unwrap();
    assert_eq!(msg.sender_id, id.peer_id());
    assert_eq!(msg.sender_public_key, id.public_key());
    assert_eq!(msg.conversation_id, "conv-9");
    assert_eq!(msg.performative, 1);
    assert_eq!(msg.ontology, "code-execution");
    assert_eq!(msg.in_reply_to, "m-0");
    assert_eq!(msg.timestamp_ns, 42);
    assert_eq!(msg.message_id, "m-1");
    let trust = msg.trust.as_ref().unwrap();
    assert_eq!(trust.tier, "local");
    assert!(trust.endorser_peer_ids.is_empty());
    verify(&msg).unwrap();
}

#[test]
fn performatives_of_each_builder() {
    let id = AgentIdentity::generate();
    let b = AclBuilder::new(&id, "c");
    let r = b.request("o", hello(&id)).unwrap();
    assert_eq!(r.performative, 1);
    assert!(r.in_reply_to.is_empty());
    let p = b
        .propose(
            "o",
            "m",
            kite_mesh::proto::Proposal {
                capability_id: "cap".into(),
                provider_agent_id: id.peer_id(),
                quote: "echo".into(),
                expires_at_ns: 0,
            },
        )
        .unwrap();
    assert_eq!(p.performative, 2);
    assert_eq!(p.in_reply_to, "m");
    let a = b
        .agree("o", "m", kite_mesh::proto::Agreement { conversation_id: "c".into(), capability_id: "cap".into() })
        .unwrap();
    assert_eq!(a.performative, 3);
    let i = b
        .inform(
            "o",
            "m",
            kite_mesh::proto::TaskResult {
                conversation_id: "c".into(),
                payload: b"x".to_vec(),
                status: 1,
                error_message: String::new(),
            },
        )
        .unwrap();
    assert_eq!(i.performative, 5);
    for m in [&r, &p, &a, &i] {
        verify(m).unwrap();
    }
}

#[test]
fn tampered_payload_is_a_bad_signature() {
    let id = AgentIdentity::generate();
    let mut msg = AclBuilder::new(&id, "c").request("o", hello(&id)).unwrap();
    if let Some(Payload::Intent(i)) = msg.payload.as_mut() {
        i.payload = b"goodbye".to_vec();
    }
    assert!(matches!(verify(&msg), Err(Error::BadSignature)));
}

#[test]
fn bad_sender_id_is_reported() {
    let id = AgentIdentity::generate();
    let mut msg = AclBuilder::new(&id, "c").request("o", hello(&id)).unwrap();
    msg.sender_id = "nobody".into();
    assert!(matches!(verify(&msg), Err(Error::InvalidCard(m)) if m == "bad sender peer id"));
}

#[test]
fn key_of_another_sender_is_reported() {
    let id = AgentIdentity::generate();
    let other = AgentIdentity::generate();
    let mut msg = AclBuilder::new(&id, "c").request("o", hello(&id)).unwrap();
    msg.sender_public_key = other.public_key();
    assert!(matches!(verify(&msg), Err(Error::InvalidCard(m)) if m == "sender public key does not match sender_id"));
}

#[test]
fn undecodable_sender_key_is_reported() {
    let id = AgentIdentity::generate();
    let mut msg = AclBuilder::new(&id, "c").request("o", hello(&id)).unwrap();
    msg.sender_public_key = vec![0xff; 4];
    assert!(matches!(verify(&msg), Err(Error::InvalidCard(m)) if m.starts_with("bad sender public key")));
}

#[test]
fn performative_codes_round_trip() {
    for p in [
        Performative::Unspecified,
        Performative::Request,
        Performative::Propose,
        Performative::Agree,
        Performative::Refuse,
        Performative::Inform,
        Performative::Failure,
        Performative::Cancel,
        Performative::Subscribe,
    ] {
        assert_eq!(Performative::from_code(p.code()), p);
    }
    assert_eq!(Performative::Inform.code(), 5);
    assert_eq!(Performative::from_code(42), Performative::Unspecified);
    assert_eq!(Performative::from_code(-1), Performative::Unspecified);
}

#[test]
fn fresh_envelopes_get_uuid_message_ids() {
    let id = AgentIdentity::generate();
    let b = AclBuilder::new(&id, "c");
    let m1 = b.request("o", hello(&id)).unwrap();
    let m2 = b.request("o", hello(&id)).unwrap();
    assert_eq!(m1.message_id.len(), 36);
    assert_eq!(m1.message_id.chars().nth(14), Some('4'));
    assert_ne!(m1.message_id, m2.message_id);
}
