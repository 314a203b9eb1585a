//! Directory-record key derivation and record construction.

use vstd::prelude::*;
use vstd::utf8::encode_utf8;
use crate::error::Error;
use crate::facets::{blake3_digest, blake3_hash, facet_fingerprint, lemma_fingerprint_canonical, same_canonical_facets};
use crate::identity::{
    check_signed_by, key_peer_id, parsed_peer_id, public_key_decodes, signature_accepted,
    AgentIdentity,
};
use crate::order::copy_bytes;
use crate::proto::{
    canonical_model_id, canonical_model_id_string, CapabilityCard, CapabilityFacets, DirectoryRecord,
    AGENT_STATUS_AVAILABLE, AGENT_STATUS_BUSY, AGENT_STATUS_DRAINING, CANONICAL_EMBEDDING_DIM, PROTOCOL_VERSION,
};
use crate::wire::{le32, put_bytes, put_le32};

verus! {

/// The DHT key of table `table_id` with hash code `hash_code`:
/// `blake3(protocol_version || facet_fingerprint || model_id || table_id || hash_code)`,
/// integers little-endian.
pub open spec fn dht_key_bytes(facet_fingerprint: Seq<u8>, model_id: Seq<char>, table_id: u32, hash_code: Seq<u8>) -> Seq<u8> {
    blake3_digest(le32(PROTOCOL_VERSION) + facet_fingerprint + encode_utf8(model_id) + le32(table_id) + hash_code)
}

/// Derive the exact DHT key for table `table_id` with hash code `hash_code`.
pub fn dht_key(facet_fingerprint: &[u8], model_id: &str, table_id: u32, hash_code: &[u8]) -> (key: Vec<u8>)
    ensures
        key@ == dht_key_bytes(facet_fingerprint@, model_id@, table_id, hash_code@),
{
    let mut input: Vec<u8> = Vec::new();
    put_le32(&mut input, PROTOCOL_VERSION);
    put_bytes(&mut input, facet_fingerprint);
    put_bytes(&mut input, model_id.as_bytes());
    put_le32(&mut input, table_id);
    put_bytes(&mut input, hash_code);
    assert(input@ =~= le32(PROTOCOL_VERSION) + facet_fingerprint@ + encode_utf8(model_id@) + le32(table_id) + hash_code@);
    let digest = blake3_hash(input.as_slice());
    copy_bytes(&digest)
}

/// A directory record ready for publication under its DHT key.
pub struct DirectoryPublication {
    pub key: Vec<u8>,
    pub record: DirectoryRecord,
    pub record_bytes: Vec<u8>,
}

/// Status text published in directory records.
pub open spec fn status_text(status: i32) -> Seq<char> {
    if status == AGENT_STATUS_AVAILABLE {
        "available"@
    } else if status == AGENT_STATUS_BUSY {
        "busy"@
    } else if status == AGENT_STATUS_DRAINING {
        "draining"@
    } else {
        "offline"@
    }
}

/// The published status text tells the status codes apart: it is
/// `available` exactly for code 1, `busy` exactly for code 2, `draining`
/// exactly for code 3, and `offline` for every other code.
pub proof fn lemma_status_text(status: i32)
    ensures
        status_text(status) == "available"@ <==> status == AGENT_STATUS_AVAILABLE,
        status_text(status) == "busy"@ <==> status == AGENT_STATUS_BUSY,
        status_text(status) == "draining"@ <==> status == AGENT_STATUS_DRAINING,
        status_text(status) == "offline"@ <==> (status != AGENT_STATUS_AVAILABLE && status != AGENT_STATUS_BUSY
            && status != AGENT_STATUS_DRAINING),
{
    reveal_strlit("available");
    reveal_strlit("busy");
    reveal_strlit("draining");
    reveal_strlit("offline");
    assert("available"@ != "busy"@) by {
        assert("available"@[0] != "busy"@[0]);
    }
    assert("available"@ != "draining"@) by {
        assert("available"@[0] != "draining"@[0]);
    }
    assert("available"@ != "offline"@) by {
        assert("available"@[0] != "offline"@[0]);
    }
    assert("busy"@ != "draining"@) by {
        assert("busy"@[0] != "draining"@[0]);
    }
    assert("busy"@ != "offline"@) by {
        assert("busy"@[0] != "offline"@[0]);
    }
    assert("draining"@ != "offline"@) by {
        assert("draining"@[0] != "offline"@[0]);
    }
}

fn status_string(status: i32) -> (s: String)
    ensures
        s@ == status_text(status),
{
    if status == AGENT_STATUS_AVAILABLE {
        String::from_str("available")
    } else if status == AGENT_STATUS_BUSY {
        String::from_str("busy")
    } else if status == AGENT_STATUS_DRAINING {
        String::from_str("draining")
    } else {
        String::from_str("offline")
    }
}

/// A record published by the holder of `pk`: it bundles `pk`, names the
/// peer id derived from it, and is signed with it.
pub open spec fn record_signed_by(r: DirectoryRecord, pk: Seq<u8>) -> bool {
    &&& r.publisher_public_key@ == pk
    &&& public_key_decodes(pk)
    &&& r.peer_id@ == key_peer_id(pk)
    &&& parsed_peer_id(key_peer_id(pk)) == Some(key_peer_id(pk))
    &&& signature_accepted(pk, r.signing_bytes(), r.signature@)
}

/// Whether a record passes verification.
pub open spec fn record_valid(r: DirectoryRecord) -> bool {
    &&& parsed_peer_id(r.peer_id@) is Some
    &&& public_key_decodes(r.publisher_public_key@)
    &&& parsed_peer_id(r.peer_id@) == Some(key_peer_id(r.publisher_public_key@))
    &&& signature_accepted(r.publisher_public_key@, r.signing_bytes(), r.signature@)
}

/// A record signed by any key passes verification.
pub proof fn lemma_signed_record_verifies(r: DirectoryRecord, pk: Seq<u8>)
    requires
        record_signed_by(r, pk),
    ensures
        record_valid(r),
{
}

/// Publication `p` is the one for table `table_id` of `card`, with LSH
/// signature `hash_code`, published by the holder of `pk` with TTL `ttl_ns`.
pub open spec fn publication_for(
    p: DirectoryPublication,
    card: CapabilityCard,
    table_id: u32,
    hash_code: Seq<u8>,
    pk: Seq<u8>,
    ttl_ns: u64,
) -> bool {
    &&& p.key@ == dht_key_bytes(card.facet_fingerprint@, canonical_model_id(), table_id, hash_code)
    &&& p.record.capability_id@ == card.capability_id@
    &&& p.record.agent_id@ == card.agent_id@
    &&& p.record.facet_fingerprint@ == card.facet_fingerprint@
    &&& p.record.model_id@ == canonical_model_id()
    &&& p.record.table_id == table_id
    &&& p.record.hash_code@ == hash_code
    &&& p.record.status@ == status_text(card.status)
    &&& p.record.ttl_ns == ttl_ns
    &&& p.record.protocol_version == PROTOCOL_VERSION
    &&& record_signed_by(p.record, pk)
    &&& p.record_bytes@ == p.record.encoding()
}

/// Build one signed directory record per LSH table for a card.
/// `signatures[i]` is the card embedding's signature in table `i`; the
/// embedding must have the canonical dimension the tables hash.
pub fn build_records(
    card: &CapabilityCard,
    signatures: &Vec<Vec<u8>>,
    identity: &AgentIdentity,
    ttl_ns: u64,
) -> (res: Result<Vec<DirectoryPublication>, Error>)
    requires
        card.embedding matches Some(e) ==> (e.vector@.len() as u32) == CANONICAL_EMBEDDING_DIM,
    ensures
        card.embedding is None ==> (res matches Err(Error::InvalidCard(m)) && m@ == "missing embedding"@),
        card.embedding is Some ==> (res is Ok),
        res matches Ok(out) ==> {
            &&& out@.len() == signatures@.len()
            &&& forall|i: int| 0 <= i < out@.len() ==> publication_for(#[trigger] out@[i], *card, i as u32,
                signatures@[i]@, identity@, ttl_ns)
        },
{
    if card.embedding.is_none() {
        return Err(Error::InvalidCard(String::from_str("missing embedding")));
    }
    let status = status_string(card.status);
    let mut out: Vec<DirectoryPublication> = Vec::new();
    let mut i: usize = 0;
    while i < signatures.len()
        invariant
            i <= signatures@.len(),
            out@.len() == i,
            status@ == status_text(card.status),
            card.embedding is Some,
            forall|x: int| 0 <= x < i ==> publication_for(#[trigger] out@[x], *card, x as u32,
                signatures@[x]@, identity@, ttl_ns),
        decreases signatures@.len() - i,
    {
        let table_id: u32 = i as u32;
        let model = canonical_model_id_string();
        let key = dht_key(card.facet_fingerprint.as_slice(), model.as_str(), table_id, signatures[i].as_slice());
        let mut record = DirectoryRecord {
            capability_id: card.capability_id.clone(),
            agent_id: card.agent_id.clone(),
            peer_id: identity.peer_id(),
            facet_fingerprint: copy_bytes(card.facet_fingerprint.as_slice()),
            model_id: model,
            table_id,
            hash_code: copy_bytes(signatures[i].as_slice()),
            status: status.clone(),
            ttl_ns,
            signature: Vec::new(),
            protocol_version: PROTOCOL_VERSION,
            publisher_public_key: identity.public_key(),
        };
        let signing = record.signing_bytes_exec();
        let sig = identity.sign(signing.as_slice())?;
        record.signature = sig;
        let record_bytes = record.encode();
        out.push(DirectoryPublication { key, record, record_bytes });
        i = i + 1;
    }
    Ok(out)
}

/// DHT keys to look up for an intent: one per LSH table, from the intent's
/// facet fingerprint and the query embedding's table signatures.
pub fn lookup_keys(facet_fingerprint: &[u8], signatures: &Vec<Vec<u8>>) -> (keys: Vec<(u32, Vec<u8>)>)
    ensures
        keys@.len() == signatures@.len(),
        forall|i: int| 0 <= i < keys@.len() ==> (#[trigger] keys@[i]).0 == i as u32
            && keys@[i].1@ == dht_key_bytes(facet_fingerprint@, canonical_model_id(), i as u32, signatures@[i]@),
{
    let model = canonical_model_id_string();
    let mut keys: Vec<(u32, Vec<u8>)> = Vec::new();
    let mut i: usize = 0;
    while i < signatures.len()
        invariant
            i <= signatures@.len(),
            keys@.len() == i,
            model@ == canonical_model_id(),
            forall|x: int| 0 <= x < i ==> (#[trigger] keys@[x]).0 == x as u32
                && keys@[x].1@ == dht_key_bytes(facet_fingerprint@, canonical_model_id(), x as u32, signatures@[x]@),
        decreases signatures@.len() - i,
    {
        let table_id: u32 = i as u32;
        let key = dht_key(facet_fingerprint, model.as_str(), table_id, signatures[i].as_slice());
        keys.push((table_id, key));
        i = i + 1;
    }
    keys
}

/// An intent finds a card's record: when the intent's required facets agree
/// with the card's facets up to canonicalization, and the query falls in the
/// same LSH bucket of a table, the lookup key of that table is the key the
/// card's record was published under.
pub proof fn lemma_intent_finds_card(
    p: DirectoryPublication,
    card: CapabilityCard,
    table_id: u32,
    hash_code: Seq<u8>,
    pk: Seq<u8>,
    ttl_ns: u64,
    required: CapabilityFacets,
)
    requires
        publication_for(p, card, table_id, hash_code, pk, ttl_ns),
        card.facets matches Some(f) && card.facet_fingerprint@ == facet_fingerprint(f)
            && same_canonical_facets(required, f),
    ensures
        p.key@ == dht_key_bytes(facet_fingerprint(required), canonical_model_id(), table_id, hash_code),
{
    lemma_fingerprint_canonical(required, card.facets->0);
}

/// Verify a signed directory record against the publisher's bundled key.
pub fn verify_record(record: &DirectoryRecord) -> (res: Result<(), Error>)
    ensures
        res is Ok <==> record_valid(*record),
        parsed_peer_id(record.peer_id@) is None ==> (res matches Err(Error::InvalidCard(m)) && m@ == "bad peer id in record"@),
        parsed_peer_id(record.peer_id@) is Some && !public_key_decodes(record.publisher_public_key@) ==> res matches Err(Error::InvalidCard(_)),
        parsed_peer_id(record.peer_id@) is Some && public_key_decodes(record.publisher_public_key@)
            && parsed_peer_id(record.peer_id@) != Some(key_peer_id(record.publisher_public_key@))
            ==> (res matches Err(Error::InvalidCard(m)) && m@ == "publisher public key does not match peer_id"@),
        parsed_peer_id(record.peer_id@) is Some && public_key_decodes(record.publisher_public_key@)
            && parsed_peer_id(record.peer_id@) == Some(key_peer_id(record.publisher_public_key@))
            && !signature_accepted(record.publisher_public_key@, record.signing_bytes(), record.signature@)
            ==> res matches Err(Error::BadSignature),
{
    let signing = record.signing_bytes_exec();
    check_signed_by(record.peer_id.as_str(), record.publisher_public_key.as_slice(), &signing, record.signature.as_slice(),
        "bad peer id in record", "bad publisher key", "publisher public key does not match peer_id")
}

} // verus!
