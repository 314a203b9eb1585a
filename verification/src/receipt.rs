//! Receipt construction and verification.

use vstd::prelude::*;
use crate::error::Error;
use crate::identity::{public_key_decodes, signature_accepted, AgentIdentity, VerifyingKey};
use crate::proto::{result_status_code, Receipt, ResultStatus};

verus! {

/// A receipt as persisted, with the counterparty's signature when known.
#[derive(Clone, Debug)]
pub struct StoredReceipt {
    pub receipt: Receipt,
    pub counterparty_signature: Option<Vec<u8>>,
}

/// A receipt issued by the holder of the public key `pk`.
pub open spec fn receipt_issued_by(r: Receipt, pk: Seq<u8>) -> bool {
    &&& r.issuer_public_key@ == pk
    &&& public_key_decodes(pk)
    &&& signature_accepted(pk, r.signing_bytes(), r.signature@)
}

/// Whether a receipt passes verification: its issuer key decodes and the
/// signature verifies over the signing bytes.
pub open spec fn receipt_valid(r: Receipt) -> bool {
    &&& public_key_decodes(r.issuer_public_key@)
    &&& signature_accepted(r.issuer_public_key@, r.signing_bytes(), r.signature@)
}

/// A receipt issued by any key passes verification.
pub proof fn lemma_issued_receipt_verifies(r: Receipt, pk: Seq<u8>)
    requires
        receipt_issued_by(r, pk),
    ensures
        receipt_valid(r),
{
}

/// Build a signed receipt completed at `completed_at_ns`.
pub fn build_at(
    identity: &AgentIdentity,
    conversation_id: String,
    capability_id: String,
    requester_peer_id: String,
    provider_peer_id: String,
    status: ResultStatus,
    completed_at_ns: u64,
) -> (res: Result<Receipt, Error>)
    ensures
        res is Ok,
        res matches Ok(r) ==> {
            &&& receipt_issued_by(r, identity@)
            &&& r.conversation_id@ == conversation_id@
            &&& r.capability_id@ == capability_id@
            &&& r.requester_peer_id@ == requester_peer_id@
            &&& r.provider_peer_id@ == provider_peer_id@
            &&& r.status == result_status_code(status)
            &&& r.completed_at_ns == completed_at_ns
        },
{
    let mut receipt = Receipt {
        conversation_id,
        capability_id,
        requester_peer_id,
        provider_peer_id,
        status: status.code(),
        completed_at_ns,
        signature: Vec::new(),
        issuer_public_key: identity.public_key(),
    };
    let bytes = receipt.signing_bytes_exec();
    let sig = identity.sign(bytes.as_slice())?;
    receipt.signature = sig;
    Ok(receipt)
}

/// Build a signed receipt completed now.
pub fn build(
    identity: &AgentIdentity,
    conversation_id: String,
    capability_id: String,
    requester_peer_id: String,
    provider_peer_id: String,
    status: ResultStatus,
) -> (res: Result<Receipt, Error>)
    ensures
        res is Ok,
        res matches Ok(r) ==> {
            &&& receipt_issued_by(r, identity@)
            &&& r.conversation_id@ == conversation_id@
            &&& r.capability_id@ == capability_id@
            &&& r.requester_peer_id@ == requester_peer_id@
            &&& r.provider_peer_id@ == provider_peer_id@
            &&& r.status == result_status_code(status)
        },
{
    let now = crate::clock::now_ns();
    build_at(identity, conversation_id, capability_id, requester_peer_id, provider_peer_id, status, now)
}

/// Verify a receipt against its bundled issuer key.
pub fn verify(receipt: &Receipt) -> (res: Result<(), Error>)
    ensures
        res is Ok <==> receipt_valid(*receipt),
        !public_key_decodes(receipt.issuer_public_key@) ==> res matches Err(Error::InvalidCard(_)),
        public_key_decodes(receipt.issuer_public_key@)
            && !signature_accepted(receipt.issuer_public_key@, receipt.signing_bytes(), receipt.signature@)
            ==> res matches Err(Error::BadSignature),
{
    let key = match VerifyingKey::decode(receipt.issuer_public_key.as_slice()) {
        Ok(k) => k,
        Err(e) => {
            return Err(Error::InvalidCard(crate::identity::describe_decoding_error("bad issuer public key", &e)));
        },
    };
    let bytes = receipt.signing_bytes_exec();
    AgentIdentity::verify(&key, bytes.as_slice(), receipt.signature.as_slice())
}

} // verus!
