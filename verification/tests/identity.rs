use kite_mesh::error::Error;
use kite_mesh::identity::{parse_peer_id, AgentIdentity, VerifyingKey};

#[test]
fn generate_sign_verify() {
    let id = AgentIdentity::generate();
    let msg = b"walking skeleton";
    let sig = id.sign(msg).unwrap();
    AgentIdentity::verify(&id.verifying_key(), msg, &sig).unwrap();
}

#[test]
fn protobuf_round_trip_keeps_peer_id() {
    let id = AgentIdentity::generate();
    let bytes = id.to_protobuf_encoding().unwrap();
    let loaded = AgentIdentity::from_protobuf_encoding(&bytes).unwrap();
    assert_eq!(id.peer_id(), loaded.peer_id());
    assert_eq!(id.public_key(), loaded.public_key());
}

#[test]
fn garbage_keypair_is_a_libp2p_error() {
    assert!(matches!(AgentIdentity::from_protobuf_encoding(&[1, 2, 3]), Err(Error::Libp2pIdentity(_))));
}

#[test]
fn wrong_signature_is_rejected() {
    let id = AgentIdentity::generate();
    let mut sig = id.sign(b"a").unwrap();
    sig[0] ^= 1;
    assert!(matches!(AgentIdentity::verify(&id.verifying_key(), b"a", &sig), Err(Error::BadSignature)));
    let sig = id.sign(b"a").unwrap();
    assert!(matches!(AgentIdentity::verify(&id.verifying_key(), b"b", &sig), Err(Error::BadSignature)));
}

#[test]
fn peer_id_matches_libp2p() {
    let id = AgentIdentity::generate();
    let key = libp2p::identity::PublicKey::try_decode_protobuf(&id.public_key()).unwrap();
    assert_eq!(id.peer_id(), key.to_peer_id().to_string());
    assert!(id.peer_id().starts_with("12D3KooW"));
}

#[test]
fn verifying_key_decodes_public_key() {
    let id = AgentIdentity::generate();
    let key = VerifyingKey::decode(&id.public_key()).unwrap();
    assert_eq!(key.peer_id(), id.peer_id());
    let sig = id.sign(b"m").unwrap();
    assert!(key.verify(b"m", &sig));
    assert!(!key.verify(b"n", &sig));
    assert!(VerifyingKey::decode(&[0u8; 3]).is_err());
}

#[test]
fn peer_ids_parse_to_canonical_text() {
    let id = AgentIdentity::generate();
    assert_eq!(parse_peer_id(&id.peer_id()), Some(id.peer_id()));
    assert_eq!(parse_peer_id("not a peer id"), None);
    assert_eq!(parse_peer_id(""), None);
}

#[test]
fn duplicate_is_the_same_identity() {
    let id = AgentIdentity::generate();
    let d = id.duplicate();
    assert_eq!(d.peer_id(), id.peer_id());
    let sig = d.sign(b"x").unwrap();
    AgentIdentity::verify(&id.verifying_key(), b"x", &sig).unwrap();
}

#[test]
fn generated_key_is_ed25519() {
    let id = AgentIdentity::generate();
    let pk = id.public_key();
    assert_eq!(pk.len(), 36);
    assert_eq!(&pk[..4], &[0x08, 0x01, 0x12, 0x20]);
}

#[test]
fn saved_bytes_load_the_same_key() {
    let id = AgentIdentity::generate();
    let saved = id.to_protobuf_encoding().unwrap();
    let loaded = AgentIdentity::from_protobuf_encoding(&saved).unwrap();
    assert_eq!(loaded.public_key(), id.public_key());
    let sig = loaded.sign(b"m").unwrap();
    AgentIdentity::verify(&id.verifying_key(), b"m", &sig).unwrap();
}
