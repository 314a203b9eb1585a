use kite_mesh::codec::{decode_frame, encode_frame, frame_length, AclCodec, CardCodec, CardRequest, CardResponse, FrameError, MAX_MESSAGE_BYTES};
use kite_mesh::identity::AgentIdentity;
use kite_mesh::proto::Intent;

#[test]
fn frame_round_trip() {
    let body = b"hello frame".to_vec();
    let mut framed = encode_frame(&body).unwrap();
    assert_eq!(&framed[..4], &[0, 0, 0, 11]);
    framed.extend_from_slice(b"next");
    let (decoded, used) = decode_frame(&framed).unwrap();
    assert_eq!(decoded, body);
    assert_eq!(used, 15);
}

#[test]
fn frame_header_is_big_endian() {
    let body = vec![7u8; 0x0102];
    let framed = encode_frame(&body).unwrap();
    assert_eq!(&framed[..4], &[0, 0, 1, 2]);
    assert_eq!(framed.len(), 4 + 0x0102);
    assert_eq!(frame_length(&[0, 0x10, 0, 0]), Ok(MAX_MESSAGE_BYTES));
}

#[test]
fn oversized_bodies_are_refused() {
    let body = vec![0u8; MAX_MESSAGE_BYTES + 1];
    assert_eq!(encode_frame(&body), Err(FrameError::TooLarge));
    assert_eq!(frame_length(&[0, 0x10, 0, 1]), Err(FrameError::TooLarge));
    assert_eq!(decode_frame(&[0xff, 0, 0, 0, 1]), Err(FrameError::TooLarge));
    assert!(encode_frame(&vec![0u8; MAX_MESSAGE_BYTES]).is_ok());
}

#[test]
fn short_input_is_truncated() {
    assert_eq!(decode_frame(&[0, 0]), Err(FrameError::Truncated));
    assert_eq!(decode_frame(&[0, 0, 0, 5, 1, 2]), Err(FrameError::Truncated));
    assert_eq!(decode_frame(&[0, 0, 0, 0]), Ok((Vec::new(), 4)));
}

#[test]
fn card_request_encoding() {
    let req = CardRequest { capability_id: "cap-1".into() };
    assert_eq!(req.encode(), vec![0x0a, 5, b'c', b'a', b'p', b'-', b'1']);
    let framed = CardCodec.frame_request(&req).unwrap();
    assert_eq!(framed, vec![0, 0, 0, 7, 0x0a, 5, b'c', b'a', b'p', b'-', b'1']);
}

#[test]
fn not_found_response_is_empty() {
    assert!(CardResponse::NotFound.encode().is_empty());
    assert_eq!(CardCodec.frame_response(&CardResponse::NotFound).unwrap(), vec![0, 0, 0, 0]);
    assert!(CardResponse::from_card(None).into_card().is_none());
}

#[test]
fn acl_frame_carries_the_encoded_envelope() {
    let id = AgentIdentity::generate();
    let msg = kite_mesh::acl::AclBuilder::new(&id, "c")
        .request(
            "code-execution",
            Intent { intent_id: "i".into(), requester_agent_id: id.peer_id(), description: "d".into(), payload: vec![1], deadline_ns: 0 },
        )
        .unwrap();
    let framed = AclCodec.frame_message(&msg).unwrap();
    let (body, used) = decode_frame(&framed).unwrap();
    assert_eq!(used, framed.len());
    assert_eq!(body, msg.encode());
}
