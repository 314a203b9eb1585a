//! ACL envelope construction and signature verification.

use vstd::prelude::*;
use crate::error::Error;
use crate::identity::{
    check_signed_by, key_peer_id, parsed_peer_id, public_key_decodes, signature_accepted,
    AgentIdentity,
};
use crate::proto::{
    performative_code, AclMessage, Agreement, Intent, Payload, Performative, Proposal, Receipt,
    TaskResult, TrustContext,
};

verus! {

/// An envelope as sent by the holder of the public key `pk`: it bundles
/// `pk`, names the peer id derived from it, and is signed with it.
pub open spec fn signed_by(msg: AclMessage, pk: Seq<u8>) -> bool {
    &&& msg.sender_public_key@ == pk
    &&& public_key_decodes(pk)
    &&& msg.sender_id@ == key_peer_id(pk)
    &&& parsed_peer_id(key_peer_id(pk)) == Some(key_peer_id(pk))
    &&& signature_accepted(pk, msg.signing_bytes(), msg.signature@)
}

/// Whether an envelope passes verification: its sender id parses, its
/// bundled key decodes and derives that sender id, and the signature
/// verifies over the signing bytes.
pub open spec fn envelope_valid(msg: AclMessage) -> bool {
    &&& parsed_peer_id(msg.sender_id@) is Some
    &&& public_key_decodes(msg.sender_public_key@)
    &&& parsed_peer_id(msg.sender_id@) == Some(key_peer_id(msg.sender_public_key@))
    &&& signature_accepted(msg.sender_public_key@, msg.signing_bytes(), msg.signature@)
}

/// An envelope signed by any key passes verification.
pub proof fn lemma_signed_envelope_verifies(msg: AclMessage, pk: Seq<u8>)
    requires
        signed_by(msg, pk),
    ensures
        envelope_valid(msg),
{
}

/// The header fields an envelope was built with, and its signature.
pub open spec fn envelope_shape(
    msg: AclMessage,
    pk: Seq<u8>,
    conversation_id: Seq<char>,
    performative: Performative,
    ontology: Seq<char>,
    in_reply_to: Seq<char>,
) -> bool {
    &&& signed_by(msg, pk)
    &&& msg.conversation_id@ == conversation_id
    &&& msg.performative == performative_code(performative)
    &&& msg.ontology@ == ontology
    &&& msg.in_reply_to@ == in_reply_to
    &&& msg.trust matches Some(t) && t.tier@ == "local"@ && t.endorser_peer_ids@.len() == 0
}

/// The fields an envelope was built from.
pub open spec fn envelope_of(
    msg: AclMessage,
    pk: Seq<u8>,
    conversation_id: Seq<char>,
    performative: Performative,
    ontology: Seq<char>,
    in_reply_to: Seq<char>,
    payload: Option<Payload>,
) -> bool {
    &&& envelope_shape(msg, pk, conversation_id, performative, ontology, in_reply_to)
    &&& msg.payload == payload
}

/// Builder for signed ACL envelopes within one conversation.
pub struct AclBuilder<'a> {
    identity: &'a AgentIdentity,
    conversation_id: String,
}

impl<'a> AclBuilder<'a> {
    /// The identity that signs, as its public key encoding.
    pub closed spec fn signer(&self) -> Seq<u8> {
        self.identity@
    }

    /// The conversation the builder's envelopes belong to.
    pub closed spec fn conversation(&self) -> Seq<char> {
        self.conversation_id@
    }

    pub fn new(identity: &'a AgentIdentity, conversation_id: &str) -> (b: AclBuilder<'a>)
        ensures
            b.signer() == identity@,
            b.conversation() == conversation_id@,
    {
        AclBuilder { identity, conversation_id: String::from_str(conversation_id) }
    }

    /// A REQUEST carrying an intent.
    pub fn request(&self, ontology: &str, intent: Intent) -> (res: Result<AclMessage, Error>)
        ensures
            res is Ok,
            res matches Ok(m) ==> envelope_of(m, self.signer(), self.conversation(), Performative::Request,
                ontology@, ""@, Some(Payload::Intent(intent))),
            res matches Ok(m) ==> crate::clock::uuid_v4_text(m.message_id@),
    {
        self.build(Performative::Request, ontology, "", Some(Payload::Intent(intent)))
    }

    /// A PROPOSE in reply to `in_reply_to`.
    pub fn propose(&self, ontology: &str, in_reply_to: &str, proposal: Proposal) -> (res: Result<AclMessage, Error>)
        ensures
            res is Ok,
            res matches Ok(m) ==> envelope_of(m, self.signer(), self.conversation(), Performative::Propose,
                ontology@, in_reply_to@, Some(Payload::Proposal(proposal))),
            res matches Ok(m) ==> crate::clock::uuid_v4_text(m.message_id@),
    {
        self.build(Performative::Propose, ontology, in_reply_to, Some(Payload::Proposal(proposal)))
    }

    /// An AGREE in reply to `in_reply_to`.
    pub fn agree(&self, ontology: &str, in_reply_to: &str, agreement: Agreement) -> (res: Result<AclMessage, Error>)
        ensures
            res is Ok,
            res matches Ok(m) ==> envelope_of(m, self.signer(), self.conversation(), Performative::Agree,
                ontology@, in_reply_to@, Some(Payload::Agreement(agreement))),
            res matches Ok(m) ==> crate::clock::uuid_v4_text(m.message_id@),
    {
        self.build(Performative::Agree, ontology, in_reply_to, Some(Payload::Agreement(agreement)))
    }

    /// An INFORM carrying a task result.
    pub fn inform(&self, ontology: &str, in_reply_to: &str, result: TaskResult) -> (res: Result<AclMessage, Error>)
        ensures
            res is Ok,
            res matches Ok(m) ==> envelope_of(m, self.signer(), self.conversation(), Performative::Inform,
                ontology@, in_reply_to@, Some(Payload::Result(result))),
            res matches Ok(m) ==> crate::clock::uuid_v4_text(m.message_id@),
    {
        self.build(Performative::Inform, ontology, in_reply_to, Some(Payload::Result(result)))
    }

    /// An INFORM carrying a receipt.
    pub fn receipt(&self, ontology: &str, in_reply_to: &str, receipt: Receipt) -> (res: Result<AclMessage, Error>)
        ensures
            res is Ok,
            res matches Ok(m) ==> envelope_of(m, self.signer(), self.conversation(), Performative::Inform,
                ontology@, in_reply_to@, Some(Payload::Receipt(receipt))),
            res matches Ok(m) ==> crate::clock::uuid_v4_text(m.message_id@),
    {
        self.build(Performative::Inform, ontology, in_reply_to, Some(Payload::Receipt(receipt)))
    }

    /// An envelope stamped with the current time and a fresh message id.
    fn build(&self, performative: Performative, ontology: &str, in_reply_to: &str, payload: Option<Payload>) -> (res: Result<AclMessage, Error>)
        ensures
            res is Ok,
            res matches Ok(m) ==> envelope_of(m, self.signer(), self.conversation(), performative,
                ontology@, in_reply_to@, payload),
            res matches Ok(m) ==> crate::clock::uuid_v4_text(m.message_id@),
    {
        let now = crate::clock::now_ns();
        let message_id = crate::clock::new_uuid();
        self.build_at(performative, ontology, in_reply_to, payload, now, message_id)
    }

    /// An envelope with the given timestamp and message id.
    pub fn build_at(
        &self,
        performative: Performative,
        ontology: &str,
        in_reply_to: &str,
        payload: Option<Payload>,
        timestamp_ns: u64,
        message_id: String,
    ) -> (res: Result<AclMessage, Error>)
        ensures
            res is Ok,
            res matches Ok(m) ==> envelope_of(m, self.signer(), self.conversation(), performative,
                ontology@, in_reply_to@, payload) && m.timestamp_ns == timestamp_ns && m.message_id@ == message_id@,
    {
        let mut msg = AclMessage {
            sender_id: self.identity.peer_id(),
            signature: Vec::new(),
            timestamp_ns,
            message_id,
            performative: performative.code(),
            ontology: String::from_str(ontology),
            conversation_id: self.conversation_id.clone(),
            in_reply_to: String::from_str(in_reply_to),
            payload,
            trust: Some(TrustContext { tier: String::from_str("local"), endorser_peer_ids: Vec::new() }),
            sender_public_key: self.identity.public_key(),
        };
        let bytes = msg.signing_bytes_exec();
        let sig = self.identity.sign(bytes.as_slice())?;
        msg.signature = sig;
        Ok(msg)
    }
}

/// Verify an ACL envelope against the sender's bundled public key.
pub fn verify(msg: &AclMessage) -> (res: Result<(), Error>)
    ensures
        res is Ok <==> envelope_valid(*msg),
        parsed_peer_id(msg.sender_id@) is None ==> (res matches Err(Error::InvalidCard(m)) && m@ == "bad sender peer id"@),
        parsed_peer_id(msg.sender_id@) is Some && !public_key_decodes(msg.sender_public_key@) ==> res matches Err(Error::InvalidCard(_)),
        parsed_peer_id(msg.sender_id@) is Some && public_key_decodes(msg.sender_public_key@)
            && parsed_peer_id(msg.sender_id@) != Some(key_peer_id(msg.sender_public_key@))
            ==> (res matches Err(Error::InvalidCard(m)) && m@ == "sender public key does not match sender_id"@),
        parsed_peer_id(msg.sender_id@) is Some && public_key_decodes(msg.sender_public_key@)
            && parsed_peer_id(msg.sender_id@) == Some(key_peer_id(msg.sender_public_key@))
            && !signature_accepted(msg.sender_public_key@, msg.signing_bytes(), msg.signature@) ==> res matches Err(Error::BadSignature),
{
    let signing = msg.signing_bytes_exec();
    check_signed_by(msg.sender_id.as_str(), msg.sender_public_key.as_slice(), &signing, msg.signature.as_slice(),
        "bad sender peer id", "bad sender public key", "sender public key does not match sender_id")
}

} // verus!
