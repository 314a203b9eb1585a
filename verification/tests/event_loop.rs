use kite_mesh::acl::{verify as verify_envelope, AclBuilder};
use kite_mesh::capability::build_at;
use kite_mesh::event_loop::{speaks_protocol, Action, MeshState, Notice};
use kite_mesh::identity::AgentIdentity;
use kite_mesh::proto::{CapabilityCard, CapabilityFacets, Intent, Payload, AGENT_STATUS_AVAILABLE, RESULT_STATUS_OK};
use kite_mesh::receipt::verify as verify_receipt;

fn facets(sandbox: &str) -> CapabilityFacets {
    CapabilityFacets {
        tools: vec!["python_exec".into()],
        ontologies: vec!["code-execution".into()],
        sandbox_level: sandbox.into(),
        network_access: "egress-limited".into(),
        gpu_class: "none".into(),
        privacy_tier: "trusted".into(),
        region: "local".into(),
        pricing_band: "free".into(),
        trust_tier: "local".into(),
        status: AGENT_STATUS_AVAILABLE,
    }
}

fn vector() -> Vec<u32> {
    let mut v = vec![0u32; 384];
    v[0] = 1.0f32.to_bits();
    v
}

fn card(id: &AgentIdentity, sandbox: &str) -> CapabilityCard {
    build_at(
        id,
        "cap-python-1".into(),
        "python-worker".into(),
        "0.1.0".into(),
        facets(sandbox),
        "executes python in a sandboxed linux container with a 60 second timeout".into(),
        vector(),
        300_000_000_000,
        1,
    )
    .unwrap()
}

fn intent(requester: &AgentIdentity, payload: &[u8]) -> Intent {
    Intent {
        intent_id: "int-1".into(),
        requester_agent_id: requester.peer_id(),
        description: "run python code inside a container sandbox".into(),
        payload: payload.to_vec(),
        deadline_ns: 0,
    }
}

fn sigs() -> Vec<Vec<u8>> {
    vec![vec![0x11], vec![0x22], vec![0x33], vec![0x44]]
}

#[test]
fn publication_is_acknowledged_by_its_last_put() {
    let a = AgentIdentity::generate();
    let mut s = MeshState::new(a.duplicate());
    let c = card(&a, "container");
    let pubs = s.publish(c, &sigs()).unwrap();
    assert_eq!(pubs.len(), 4);
    s.publish_started("cap-python-1".into(), vec![1, 2, 3, 4]);
    let acts = s.put_record_finished(1, None);
    assert_eq!(acts.len(), 1);
    assert!(matches!(acts[0], Action::CountRecordPublished));
    let acts = s.put_record_finished(4, None);
    assert_eq!(acts.len(), 3);
    assert!(matches!(acts[1], Action::ReplyPublish { query: 4, error: None }));
    assert!(matches!(&acts[2], Action::Emit(Notice::CapabilityPublished { capability_id, record_count: 4 }) if capability_id == "cap-python-1"));
    // Answered once.
    let acts = s.put_record_finished(4, None);
    assert_eq!(acts.len(), 1);
    let acts = s.put_record_finished(3, Some("timeout".into()));
    assert!(acts.is_empty());
}

#[test]
fn failed_acknowledging_put_reports_the_error() {
    let a = AgentIdentity::generate();
    let mut s = MeshState::new(a.duplicate());
    s.publish(card(&a, "container"), &sigs()).unwrap();
    s.publish_started("cap-python-1".into(), vec![7, 8]);
    let acts = s.put_record_finished(8, Some("quorum failed".into()));
    assert_eq!(acts.len(), 1);
    assert!(matches!(&acts[0], Action::ReplyPublish { query: 8, error: Some(e) } if e == "quorum failed"));
}

#[test]
fn invalid_card_is_not_published() {
    let a = AgentIdentity::generate();
    let mut s = MeshState::new(a.duplicate());
    let mut c = card(&a, "container");
    c.description = "tampered".into();
    assert!(s.publish(c, &sigs()).is_err());
    assert!(s.serve_card(&"cap-python-1".to_string()).is_none());
}

#[test]
fn peers_are_announced_once() {
    let a = AgentIdentity::generate();
    let mut s = MeshState::new(a);
    let acts = s.routing_updated("p1".into(), true);
    assert!(matches!(&acts[0], Action::Emit(Notice::PeerDiscovered(p)) if p == "p1"));
    assert!(s.routing_updated("p1".into(), true).is_empty());
    assert!(s.routing_updated("p2".into(), false).is_empty());
}

#[test]
fn two_agents_complete_an_intent() {
    let a = AgentIdentity::generate();
    let b = AgentIdentity::generate();
    let mut pa = MeshState::new(a.duplicate());
    let mut rb = MeshState::new(b.duplicate());

    // Provider publishes.
    let c = card(&a, "container");
    let pubs = pa.publish(c.clone(), &sigs()).unwrap();
    assert_eq!(pa.serve_card(&"cap-python-1".to_string()), Some(c.encode()));
    assert_eq!(pa.serve_card(&"cap-other".to_string()), None);

    // Requester looks the facets up under the same keys.
    let keys = MeshState::intent_keys(&facets("container"), &sigs());
    for (i, p) in pubs.iter().enumerate() {
        assert_eq!(keys[i].1, p.key);
    }
    rb.register_intent("conv-1".into(), facets("container"), vector(), intent(&b, b"hello from b"), vec![10, 11, 12, 13]);

    let acts = rb.record_found(10, Some(pubs[0].record.clone()));
    assert_eq!(acts.len(), 1);
    match &acts[0] {
        Action::SendCardRequest { peer, capability_id, conversation_id } => {
            assert_eq!(peer, &a.peer_id());
            assert_eq!(capability_id, "cap-python-1");
            assert_eq!(conversation_id, "conv-1");
        }
        _ => panic!("expected a card fetch"),
    }
    rb.card_fetch_started(100, "conv-1".into());
    // The same capability seen again is not fetched twice.
    assert!(rb.record_found(11, Some(pubs[1].record.clone())).is_empty());
    // Unknown lookups and undecodable records are ignored.
    assert!(rb.record_found(99, Some(pubs[2].record.clone())).is_empty());
    assert!(rb.record_found(12, None).is_empty());

    for q in [10u64, 11, 12, 13] {
        let (acts, cands) = rb.lookup_finished(q);
        assert!(acts.is_empty());
        assert!(cands.is_none());
    }

    // The card arrives; nothing else is awaited, so the candidates are ready.
    let (acts, cands) = rb.card_received(100, Some(c.clone()));
    assert!(acts.is_empty());
    let cands = cands.unwrap();
    assert_eq!(cands.conversation_id, "conv-1");
    assert_eq!(cands.query_vector, vector());
    assert_eq!(cands.passing.len(), 1);

    // Commit to it: one REQUEST.
    let acts = rb.commit_choice(&"conv-1".to_string(), &cands.passing[0], 1.0f32.to_bits()).unwrap();
    assert_eq!(acts.len(), 2);
    assert!(matches!(&acts[0], Action::CountMatchAccepted { conversation_id } if conversation_id == "conv-1"));
    let request = match &acts[1] {
        Action::SendAclRequest { peer, message, round: 1, conversation_id } => {
            assert_eq!(peer, &a.peer_id());
            assert_eq!(conversation_id, "conv-1");
            assert_eq!(message.performative, 1);
            assert_eq!(message.ontology, "code-execution");
            message.clone()
        }
        _ => panic!("expected the REQUEST"),
    };
    verify_envelope(&request).unwrap();
    assert!(rb.commit_choice(&"conv-1".to_string(), &cands.passing[0], 0).unwrap().is_empty());
    rb.acl_request_sent(500, 1, "conv-1".into());

    // Provider proposes.
    let reply = pa.acl_request(b.peer_id(), request).unwrap();
    assert!(reply.actions.is_empty());
    let propose = reply.response.unwrap();
    assert_eq!(propose.performative, 2);
    match &propose.payload {
        Some(Payload::Proposal(p)) => {
            assert_eq!(p.capability_id, "cap-python-1");
            assert_eq!(p.provider_agent_id, a.peer_id());
            assert_eq!(p.quote, "echo");
        }
        _ => panic!("expected a proposal"),
    }

    // Requester agrees.
    let acts = rb.acl_response(a.peer_id(), 500, propose).unwrap();
    assert_eq!(acts.len(), 1);
    let agree = match &acts[0] {
        Action::SendAclRequest { peer, message, round: 2, conversation_id } => {
            assert_eq!(peer, &a.peer_id());
            assert_eq!(conversation_id, "conv-1");
            message.clone()
        }
        _ => panic!("expected the AGREE"),
    };
    assert!(matches!(&agree.payload, Some(Payload::Agreement(g)) if g.capability_id == "cap-python-1" && g.conversation_id == "conv-1"));
    rb.acl_request_sent(501, 2, "conv-1".into());

    // Provider executes: INFORM echoing the payload, and its receipt.
    let reply = pa.acl_request(b.peer_id(), agree.clone()).unwrap();
    let inform = reply.response.unwrap();
    assert_eq!(inform.performative, 5);
    assert!(matches!(&inform.payload, Some(Payload::Result(t)) if t.payload == b"hello from b".to_vec() && t.status == RESULT_STATUS_OK));
    assert_eq!(reply.actions.len(), 1);
    match &reply.actions[0] {
        Action::StoreReceipt { receipt, counterparty_signature: None } => {
            verify_receipt(receipt).unwrap();
            assert_eq!(receipt.requester_peer_id, b.peer_id());
            assert_eq!(receipt.provider_peer_id, a.peer_id());
            assert_eq!(receipt.capability_id, "cap-python-1");
        }
        _ => panic!("expected the provider's receipt"),
    }
    // A second AGREE is not answered.
    let again = pa.acl_request(b.peer_id(), agree).unwrap();
    assert!(again.response.is_none() && again.actions.is_empty());

    // Requester completes.
    let sig = inform.signature.clone();
    let acts = rb.acl_response(a.peer_id(), 501, inform).unwrap();
    assert_eq!(acts.len(), 3);
    match &acts[0] {
        Action::StoreReceipt { receipt, counterparty_signature: Some(s) } => {
            verify_receipt(receipt).unwrap();
            assert_eq!(s, &sig);
            assert_eq!(receipt.requester_peer_id, b.peer_id());
            assert_eq!(receipt.provider_peer_id, a.peer_id());
            assert_eq!(receipt.conversation_id, "conv-1");
        }
        _ => panic!("expected the requester's receipt"),
    }
    assert!(matches!(&acts[1], Action::ReplyIntent { conversation_id, result: Ok(o) }
        if conversation_id == "conv-1" && o.matched_capability_id == "cap-python-1" && o.cosine_score == 1.0f32.to_bits()));
    assert!(matches!(&acts[2], Action::Emit(Notice::IntentCompleted(o)) if o.conversation_id == "conv-1"));
    assert!(!rb.requesters.contains(&"conv-1".to_string()));
}

#[test]
fn no_passing_card_ends_the_conversation() {
    let a = AgentIdentity::generate();
    let b = AgentIdentity::generate();
    let mut pa = MeshState::new(a.duplicate());
    let c = card(&a, "none");
    let pubs = pa.publish(c.clone(), &sigs()).unwrap();
    let mut rb = MeshState::new(b.duplicate());
    rb.register_intent("conv-2".into(), facets("container"), vector(), intent(&b, b""), vec![1]);
    assert_eq!(rb.record_found(1, Some(pubs[0].record.clone())).len(), 1);
    rb.card_fetch_started(7, "conv-2".into());
    assert!(rb.lookup_finished(1).1.is_none());
    let (acts, cands) = rb.card_received(7, Some(c));
    assert!(cands.is_none());
    assert_eq!(acts.len(), 1);
    assert!(matches!(&acts[0], Action::ReplyIntent { conversation_id, result: Err(m) }
        if conversation_id == "conv-2" && m == "no matching capability"));
    assert!(!rb.requesters.contains(&"conv-2".to_string()));
}

#[test]
fn tampered_request_is_dropped() {
    let a = AgentIdentity::generate();
    let b = AgentIdentity::generate();
    let mut pa = MeshState::new(a.duplicate());
    pa.publish(card(&a, "container"), &sigs()).unwrap();
    let mut req = AclBuilder::new(&b, "conv-3").request("code-execution", intent(&b, b"x")).unwrap();
    req.ontology = "tampered".into();
    let reply = pa.acl_request(b.peer_id(), req).unwrap();
    assert!(reply.response.is_none());
    assert!(!pa.providers.contains(&"conv-3".to_string()));
}

#[test]
fn request_without_local_cards_is_not_answered() {
    let a = AgentIdentity::generate();
    let b = AgentIdentity::generate();
    let mut pa = MeshState::new(a);
    let req = AclBuilder::new(&b, "conv-4").request("code-execution", intent(&b, b"x")).unwrap();
    let reply = pa.acl_request(b.peer_id(), req).unwrap();
    assert!(reply.response.is_none());
}

#[test]
fn empty_payload_is_echoed_as_marker() {
    let a = AgentIdentity::generate();
    let b = AgentIdentity::generate();
    let mut pa = MeshState::new(a.duplicate());
    pa.publish(card(&a, "container"), &sigs()).unwrap();
    let req = AclBuilder::new(&b, "conv-5").request("code-execution", intent(&b, b"")).unwrap();
    assert!(pa.acl_request(b.peer_id(), req).unwrap().response.is_some());
    let agree = AclBuilder::new(&b, "conv-5")
        .agree("code-execution", "m", kite_mesh::proto::Agreement { conversation_id: "conv-5".into(), capability_id: "cap-python-1".into() })
        .unwrap();
    let inform = pa.acl_request(b.peer_id(), agree).unwrap().response.unwrap();
    assert!(matches!(&inform.payload, Some(Payload::Result(t)) if t.payload == b"(empty)".to_vec()));
}

#[test]
fn opened_conversations_get_fresh_ids() {
    let b = AgentIdentity::generate();
    let mut rb = MeshState::new(b.duplicate());
    let c1 = rb.open_conversation(facets("container"), vector(), intent(&b, b"x"), vec![1]);
    let c2 = rb.open_conversation(facets("container"), vector(), intent(&b, b"y"), vec![2]);
    assert_ne!(c1, c2);
    assert!(rb.requesters.contains(&c1));
    assert!(rb.requesters.contains(&c2));
}

#[test]
fn kad_protocol_is_recognised() {
    let protocols = vec!["/ipfs/id/1.0.0".to_string(), "/ipfs/kad/1.0.0".to_string()];
    assert!(speaks_protocol(&protocols, "/ipfs/kad/1.0.0"));
    assert!(!speaks_protocol(&protocols, "/kite/acl/1"));
    assert!(!speaks_protocol(&Vec::new(), "/ipfs/kad/1.0.0"));
}
