//! Wire schema of the mesh protocol (package `kite.mesh.v1`) and the exact
//! byte encoding of every message.
//!
//! Enumerations are carried as `i32` codes, as on the wire. Embedding
//! vectors are carried as the IEEE-754 bit patterns of their `f32` values.
//! Embedded messages whose schema this crate does not interpret (tools,
//! pricing, endorsements, MCP server descriptors) are carried encoded.

use vstd::prelude::*;
use vstd::utf8::encode_utf8;
use crate::wire::{
    bool_field, bytes_field, int32_field, len_delimited, message_field, packed_fixed32, put_bool_field,
    put_bytes_field, put_int32_field, put_len_delimited, put_packed_fixed32, put_repeated_bytes,
    put_repeated_string, put_string_field, put_uint_field, repeated_bytes, repeated_string,
    string_field, uint_field, contains_bytes, lemma_contains_extend, lemma_contains_last, lemma_contains_self,
};

verus! {

/// Wire protocol version.
pub const PROTOCOL_VERSION: u32 = 1;

/// Canonical embedding dimensionality.
pub const CANONICAL_EMBEDDING_DIM: u32 = 384;

/// Canonical encoder id of the current epoch, as characters.
pub open spec fn canonical_model_id() -> Seq<char> {
    seq!['a', 'l', 'l', '-', 'm', 'i', 'n', 'i', 'l', 'm', '-', 'l', '6', '-', 'v', '2', '-', 'i', 'n', 't', '8']
}

/// The canonical encoder id (`all-minilm-l6-v2-int8`).
pub fn canonical_model_id_string() -> (s: String)
    ensures
        s@ == canonical_model_id(),
{
    let mut s = String::new();
    let text = "all-minilm-l6-v2-int8";
    proof {
        reveal_strlit("all-minilm-l6-v2-int8");
    }
    s.append(text);
    assert(s@ =~= canonical_model_id());
    s
}

/// ACL performatives.
#[derive(Clone, Copy, Debug, PartialEq, Eq)]
pub enum Performative {
    Unspecified,
    Request,
    Propose,
    Agree,
    Refuse,
    Inform,
    Failure,
    Cancel,
    Subscribe,
}

/// Wire code of a performative.
pub open spec fn performative_code(p: Performative) -> i32 {
    match p {
        Performative::Unspecified => 0,
        Performative::Request => 1,
        Performative::Propose => 2,
        Performative::Agree => 3,
        Performative::Refuse => 4,
        Performative::Inform => 5,
        Performative::Failure => 6,
        Performative::Cancel => 7,
        Performative::Subscribe => 8,
    }
}

impl Performative {
    /// Wire code of this performative.
    pub fn code(&self) -> (c: i32)
        ensures
            c == performative_code(*self),
    {
        match self {
            Performative::Unspecified => 0,
            Performative::Request => 1,
            Performative::Propose => 2,
            Performative::Agree => 3,
            Performative::Refuse => 4,
            Performative::Inform => 5,
            Performative::Failure => 6,
            Performative::Cancel => 7,
            Performative::Subscribe => 8,
        }
    }

    /// The performative of a wire code; unknown codes read as `Unspecified`.
    pub fn from_code(c: i32) -> (p: Performative)
        ensures
            0 <= c <= 8 ==> performative_code(p) == c,
            !(0 <= c <= 8) ==> p == Performative::Unspecified,
    {
        if c == 1 {
            Performative::Request
        } else if c == 2 {
            Performative::Propose
        } else if c == 3 {
            Performative::Agree
        } else if c == 4 {
            Performative::Refuse
        } else if c == 5 {
            Performative::Inform
        } else if c == 6 {
            Performative::Failure
        } else if c == 7 {
            Performative::Cancel
        } else if c == 8 {
            Performative::Subscribe
        } else {
            Performative::Unspecified
        }
    }
}

/// Wire codes of agent status.
pub const AGENT_STATUS_UNSPECIFIED: i32 = 0;
pub const AGENT_STATUS_AVAILABLE: i32 = 1;
pub const AGENT_STATUS_BUSY: i32 = 2;
pub const AGENT_STATUS_DRAINING: i32 = 3;
pub const AGENT_STATUS_OFFLINE: i32 = 4;

/// Wire codes of task result status.
pub const RESULT_STATUS_UNSPECIFIED: i32 = 0;
pub const RESULT_STATUS_OK: i32 = 1;
pub const RESULT_STATUS_ERROR: i32 = 2;

/// Status of an executed task.
#[derive(Clone, Copy, Debug, PartialEq, Eq)]
pub enum ResultStatus {
    Unspecified,
    Success,
    Failure,
}

/// Wire code of a result status.
pub open spec fn result_status_code(s: ResultStatus) -> i32 {
    match s {
        ResultStatus::Unspecified => RESULT_STATUS_UNSPECIFIED,
        ResultStatus::Success => RESULT_STATUS_OK,
        ResultStatus::Failure => RESULT_STATUS_ERROR,
    }
}

impl ResultStatus {
    /// Wire code of this status.
    pub fn code(&self) -> (c: i32)
        ensures
            c == result_status_code(*self),
    {
        match self {
            ResultStatus::Unspecified => RESULT_STATUS_UNSPECIFIED,
            ResultStatus::Success => RESULT_STATUS_OK,
            ResultStatus::Failure => RESULT_STATUS_ERROR,
        }
    }
}

/// Exact-match facets of a capability.
#[derive(Clone, Debug)]
pub struct CapabilityFacets {
    pub tools: Vec<String>,
    pub ontologies: Vec<String>,
    pub sandbox_level: String,
    pub network_access: String,
    pub gpu_class: String,
    pub privacy_tier: String,
    pub region: String,
    pub pricing_band: String,
    pub trust_tier: String,
    pub status: i32,
}

impl CapabilityFacets {
    pub open spec fn encoding(&self) -> Seq<u8> {
        repeated_string(1, self.tools@) + repeated_string(2, self.ontologies@) + string_field(
            3,
            self.sandbox_level@,
        ) + string_field(4, self.network_access@) + string_field(5, self.gpu_class@)
            + string_field(6, self.privacy_tier@) + string_field(7, self.region@) + string_field(
            8,
            self.pricing_band@,
        ) + string_field(9, self.trust_tier@) + int32_field(10, self.status)
    }

    pub fn encode(&self) -> (out: Vec<u8>)
        ensures
            out@ == self.encoding(),
    {
        let mut b: Vec<u8> = Vec::new();
        put_repeated_string(&mut b, 1, &self.tools);
        put_repeated_string(&mut b, 2, &self.ontologies);
        put_string_field(&mut b, 3, &self.sandbox_level);
        put_string_field(&mut b, 4, &self.network_access);
        put_string_field(&mut b, 5, &self.gpu_class);
        put_string_field(&mut b, 6, &self.privacy_tier);
        put_string_field(&mut b, 7, &self.region);
        put_string_field(&mut b, 8, &self.pricing_band);
        put_string_field(&mut b, 9, &self.trust_tier);
        put_int32_field(&mut b, 10, self.status);
        assert(b@ =~= self.encoding());
        b
    }
}

/// Embedding of a capability description. `vector` holds the bit patterns
/// of the `f32` components.
#[derive(Clone, Debug)]
pub struct EmbeddingDescriptor {
    pub model_id: String,
    pub dimension: u32,
    pub vector: Vec<u32>,
    pub normalized: bool,
}

impl EmbeddingDescriptor {
    pub open spec fn encoding(&self) -> Seq<u8> {
        string_field(1, self.model_id@) + uint_field(2, self.dimension as nat) + packed_fixed32(
            3,
            self.vector@,
        ) + bool_field(4, self.normalized)
    }

    pub fn encode(&self) -> (out: Vec<u8>)
        ensures
            out@ == self.encoding(),
    {
        let mut b: Vec<u8> = Vec::new();
        put_string_field(&mut b, 1, &self.model_id);
        put_uint_field(&mut b, 2, self.dimension as u64);
        put_packed_fixed32(&mut b, 3, &self.vector);
        put_bool_field(&mut b, 4, self.normalized);
        assert(b@ =~= self.encoding());
        b
    }
}

/// Encoding of an optional embedded message.
pub open spec fn opt_facets(m: Option<CapabilityFacets>) -> Option<Seq<u8>> {
    match m {
        Some(f) => Some(f.encoding()),
        None => None,
    }
}

/// Encoding of an optional embedding.
pub open spec fn opt_embedding(m: Option<EmbeddingDescriptor>) -> Option<Seq<u8>> {
    match m {
        Some(e) => Some(e.encoding()),
        None => None,
    }
}

/// Encoding of an optional pre-encoded message.
pub open spec fn opt_bytes(m: Option<Vec<u8>>) -> Option<Seq<u8>> {
    match m {
        Some(b) => Some(b@),
        None => None,
    }
}

/// A signed, TTL-bounded capability advertisement.
#[derive(Clone, Debug)]
pub struct CapabilityCard {
    pub capability_id: String,
    pub agent_id: String,
    pub agent_name: String,
    pub agent_version: String,
    pub ontologies: Vec<String>,
    /// Encoded `Tool` messages.
    pub tools: Vec<Vec<u8>>,
    pub facets: Option<CapabilityFacets>,
    pub description: String,
    pub embedding: Option<EmbeddingDescriptor>,
    /// Encoded `PricingModel` message.
    pub pricing: Option<Vec<u8>>,
    pub status: i32,
    pub last_seen_ns: u64,
    pub expires_at_ns: u64,
    pub facet_fingerprint: Vec<u8>,
    /// Encoded `TrustSignature` messages.
    pub endorsements: Vec<Vec<u8>>,
    pub signature: Vec<u8>,
    /// Encoded `McpServerDescriptor` messages.
    pub mcp_servers: Vec<Vec<u8>>,
    pub a2a_agent_card_url: String,
    pub public_key: Vec<u8>,
}

impl CapabilityCard {
    /// Encoding of the card with the given signature bytes.
    pub open spec fn encoding_with_signature(&self, signature: Seq<u8>) -> Seq<u8> {
        string_field(1, self.capability_id@) + string_field(2, self.agent_id@) + string_field(
            3,
            self.agent_name@,
        ) + string_field(4, self.agent_version@) + repeated_string(5, self.ontologies@)
            + repeated_bytes(6, self.tools@) + message_field(7, opt_facets(self.facets))
            + string_field(8, self.description@) + message_field(
            9,
            opt_embedding(self.embedding),
        ) + message_field(10, opt_bytes(self.pricing)) + int32_field(11, self.status)
            + uint_field(12, self.last_seen_ns as nat) + uint_field(13, self.expires_at_ns as nat)
            + bytes_field(14, self.facet_fingerprint@) + repeated_bytes(15, self.endorsements@)
            + bytes_field(16, signature) + repeated_bytes(17, self.mcp_servers@) + string_field(
            18,
            self.a2a_agent_card_url@,
        ) + bytes_field(19, self.public_key@)
    }

    /// Wire encoding of the card.
    pub open spec fn encoding(&self) -> Seq<u8> {
        self.encoding_with_signature(self.signature@)
    }

    /// Canonical signing bytes: the card encoded with an empty signature.
    pub open spec fn signing_bytes(&self) -> Seq<u8> {
        self.encoding_with_signature(Seq::empty())
    }

    fn encode_with_signature(&self, signature: &[u8]) -> (out: Vec<u8>)
        ensures
            out@ == self.encoding_with_signature(signature@),
    {
        let mut b: Vec<u8> = Vec::new();
        put_string_field(&mut b, 1, &self.capability_id);
        put_string_field(&mut b, 2, &self.agent_id);
        put_string_field(&mut b, 3, &self.agent_name);
        put_string_field(&mut b, 4, &self.agent_version);
        put_repeated_string(&mut b, 5, &self.ontologies);
        put_repeated_bytes(&mut b, 6, &self.tools);
        match &self.facets {
            Some(f) => {
                let e = f.encode();
                put_len_delimited(&mut b, 7, e.as_slice());
            },
            None => {},
        }
        put_string_field(&mut b, 8, &self.description);
        match &self.embedding {
            Some(m) => {
                let e = m.encode();
                put_len_delimited(&mut b, 9, e.as_slice());
            },
            None => {},
        }
        match &self.pricing {
            Some(p) => {
                put_len_delimited(&mut b, 10, p.as_slice());
            },
            None => {},
        }
        put_int32_field(&mut b, 11, self.status);
        put_uint_field(&mut b, 12, self.last_seen_ns);
        put_uint_field(&mut b, 13, self.expires_at_ns);
        put_bytes_field(&mut b, 14, self.facet_fingerprint.as_slice());
        put_repeated_bytes(&mut b, 15, &self.endorsements);
        put_bytes_field(&mut b, 16, signature);
        put_repeated_bytes(&mut b, 17, &self.mcp_servers);
        put_string_field(&mut b, 18, &self.a2a_agent_card_url);
        put_bytes_field(&mut b, 19, self.public_key.as_slice());
        assert(b@ =~= self.encoding_with_signature(signature@));
        b
    }

    /// Wire encoding of the card.
    pub fn encode(&self) -> (out: Vec<u8>)
        ensures
            out@ == self.encoding(),
    {
        self.encode_with_signature(self.signature.as_slice())
    }

    /// Canonical signing bytes: the card encoded with an empty signature.
    pub fn signing_bytes_exec(&self) -> (out: Vec<u8>)
        ensures
            out@ == self.signing_bytes(),
    {
        let empty: Vec<u8> = Vec::new();
        self.encode_with_signature(empty.as_slice())
    }
}

/// A full task request.
#[derive(Clone, Debug)]
pub struct Intent {
    pub intent_id: String,
    pub requester_agent_id: String,
    pub description: String,
    pub payload: Vec<u8>,
    pub deadline_ns: u64,
}

impl Intent {
    pub open spec fn encoding(&self) -> Seq<u8> {
        string_field(1, self.intent_id@) + string_field(2, self.requester_agent_id@)
            + string_field(3, self.description@) + bytes_field(4, self.payload@) + uint_field(
            5,
            self.deadline_ns as nat,
        )
    }

    pub fn encode(&self) -> (out: Vec<u8>)
        ensures
            out@ == self.encoding(),
    {
        let mut b: Vec<u8> = Vec::new();
        put_string_field(&mut b, 1, &self.intent_id);
        put_string_field(&mut b, 2, &self.requester_agent_id);
        put_string_field(&mut b, 3, &self.description);
        put_bytes_field(&mut b, 4, self.payload.as_slice());
        put_uint_field(&mut b, 5, self.deadline_ns);
        assert(b@ =~= self.encoding());
        b
    }
}

/// Two intents with the same fields.
pub open spec fn same_intent(a: Intent, b: Intent) -> bool {
    &&& a.intent_id@ == b.intent_id@
    &&& a.requester_agent_id@ == b.requester_agent_id@
    &&& a.description@ == b.description@
    &&& a.payload@ == b.payload@
    &&& a.deadline_ns == b.deadline_ns
}

impl Intent {
    /// A copy of the intent.
    pub fn copy(&self) -> (r: Intent)
        ensures
            same_intent(r, *self),
            r.encoding() == self.encoding(),
    {
        Intent {
            intent_id: self.intent_id.clone(),
            requester_agent_id: self.requester_agent_id.clone(),
            description: self.description.clone(),
            payload: crate::order::copy_bytes(self.payload.as_slice()),
            deadline_ns: self.deadline_ns,
        }
    }
}

/// A provider's offer in reply to a request.
#[derive(Clone, Debug)]
pub struct Proposal {
    pub capability_id: String,
    pub provider_agent_id: String,
    pub quote: String,
    pub expires_at_ns: u64,
}

impl Proposal {
    pub open spec fn encoding(&self) -> Seq<u8> {
        string_field(1, self.capability_id@) + string_field(2, self.provider_agent_id@)
            + string_field(3, self.quote@) + uint_field(4, self.expires_at_ns as nat)
    }

    pub fn encode(&self) -> (out: Vec<u8>)
        ensures
            out@ == self.encoding(),
    {
        let mut b: Vec<u8> = Vec::new();
        put_string_field(&mut b, 1, &self.capability_id);
        put_string_field(&mut b, 2, &self.provider_agent_id);
        put_string_field(&mut b, 3, &self.quote);
        put_uint_field(&mut b, 4, self.expires_at_ns);
        assert(b@ =~= self.encoding());
        b
    }
}

/// A requester's acceptance of a proposal.
#[derive(Clone, Debug)]
pub struct Agreement {
    pub conversation_id: String,
    pub capability_id: String,
}

impl Agreement {
    pub open spec fn encoding(&self) -> Seq<u8> {
        string_field(1, self.conversation_id@) + string_field(2, self.capability_id@)
    }

    pub fn encode(&self) -> (out: Vec<u8>)
        ensures
            out@ == self.encoding(),
    {
        let mut b: Vec<u8> = Vec::new();
        put_string_field(&mut b, 1, &self.conversation_id);
        put_string_field(&mut b, 2, &self.capability_id);
        assert(b@ =~= self.encoding());
        b
    }
}

/// The outcome of an executed task.
#[derive(Clone, Debug)]
pub struct TaskResult {
    pub conversation_id: String,
    pub payload: Vec<u8>,
    pub status: i32,
    pub error_message: String,
}

impl TaskResult {
    pub open spec fn encoding(&self) -> Seq<u8> {
        string_field(1, self.conversation_id@) + bytes_field(2, self.payload@) + int32_field(
            3,
            self.status,
        ) + string_field(4, self.error_message@)
    }

    pub fn encode(&self) -> (out: Vec<u8>)
        ensures
            out@ == self.encoding(),
    {
        let mut b: Vec<u8> = Vec::new();
        put_string_field(&mut b, 1, &self.conversation_id);
        put_bytes_field(&mut b, 2, self.payload.as_slice());
        put_int32_field(&mut b, 3, self.status);
        put_string_field(&mut b, 4, &self.error_message);
        assert(b@ =~= self.encoding());
        b
    }
}

/// A signed record of a completed conversation.
#[derive(Clone, Debug)]
pub struct Receipt {
    pub conversation_id: String,
    pub capability_id: String,
    pub requester_peer_id: String,
    pub provider_peer_id: String,
    pub status: i32,
    pub completed_at_ns: u64,
    pub signature: Vec<u8>,
    pub issuer_public_key: Vec<u8>,
}

impl Receipt {
    pub open spec fn encoding_with_signature(&self, signature: Seq<u8>) -> Seq<u8> {
        string_field(1, self.conversation_id@) + string_field(2, self.capability_id@)
            + string_field(3, self.requester_peer_id@) + string_field(4, self.provider_peer_id@)
            + int32_field(5, self.status) + uint_field(6, self.completed_at_ns as nat)
            + bytes_field(7, signature) + bytes_field(8, self.issuer_public_key@)
    }

    pub open spec fn encoding(&self) -> Seq<u8> {
        self.encoding_with_signature(self.signature@)
    }

    /// Canonical signing bytes: the receipt encoded with an empty signature.
    pub open spec fn signing_bytes(&self) -> Seq<u8> {
        self.encoding_with_signature(Seq::empty())
    }

    fn encode_with_signature(&self, signature: &[u8]) -> (out: Vec<u8>)
        ensures
            out@ == self.encoding_with_signature(signature@),
    {
        let mut b: Vec<u8> = Vec::new();
        put_string_field(&mut b, 1, &self.conversation_id);
        put_string_field(&mut b, 2, &self.capability_id);
        put_string_field(&mut b, 3, &self.requester_peer_id);
        put_string_field(&mut b, 4, &self.provider_peer_id);
        put_int32_field(&mut b, 5, self.status);
        put_uint_field(&mut b, 6, self.completed_at_ns);
        put_bytes_field(&mut b, 7, signature);
        put_bytes_field(&mut b, 8, self.issuer_public_key.as_slice());
        assert(b@ =~= self.encoding_with_signature(signature@));
        b
    }

    pub fn encode(&self) -> (out: Vec<u8>)
        ensures
            out@ == self.encoding(),
    {
        self.encode_with_signature(self.signature.as_slice())
    }

    pub fn signing_bytes_exec(&self) -> (out: Vec<u8>)
        ensures
            out@ == self.signing_bytes(),
    {
        let empty: Vec<u8> = Vec::new();
        self.encode_with_signature(empty.as_slice())
    }
}

/// Trust metadata attached to an ACL envelope.
#[derive(Clone, Debug)]
pub struct TrustContext {
    pub tier: String,
    pub endorser_peer_ids: Vec<String>,
}

impl TrustContext {
    pub open spec fn encoding(&self) -> Seq<u8> {
        string_field(1, self.tier@) + repeated_string(2, self.endorser_peer_ids@)
    }

    pub fn encode(&self) -> (out: Vec<u8>)
        ensures
            out@ == self.encoding(),
    {
        let mut b: Vec<u8> = Vec::new();
        put_string_field(&mut b, 1, &self.tier);
        put_repeated_string(&mut b, 2, &self.endorser_peer_ids);
        assert(b@ =~= self.encoding());
        b
    }
}

/// Payload of an ACL envelope (a oneof on the wire).
#[derive(Clone, Debug)]
pub enum Payload {
    Intent(Intent),
    Proposal(Proposal),
    Agreement(Agreement),
    Result(TaskResult),
    Receipt(Receipt),
}

impl Payload {
    /// The payload's field, with its tag in the envelope.
    pub open spec fn encoding(&self) -> Seq<u8> {
        match self {
            Payload::Intent(m) => len_delimited(10, m.encoding()),
            Payload::Proposal(m) => len_delimited(12, m.encoding()),
            Payload::Agreement(m) => len_delimited(13, m.encoding()),
            Payload::Result(m) => len_delimited(14, m.encoding()),
            Payload::Receipt(m) => len_delimited(18, m.encoding()),
        }
    }

    pub fn put(&self, b: &mut Vec<u8>)
        ensures
            final(b)@ == old(b)@ + self.encoding(),
    {
        match self {
            Payload::Intent(m) => {
                let e = m.encode();
                put_len_delimited(b, 10, e.as_slice());
            },
            Payload::Proposal(m) => {
                let e = m.encode();
                put_len_delimited(b, 12, e.as_slice());
            },
            Payload::Agreement(m) => {
                let e = m.encode();
                put_len_delimited(b, 13, e.as_slice());
            },
            Payload::Result(m) => {
                let e = m.encode();
                put_len_delimited(b, 14, e.as_slice());
            },
            Payload::Receipt(m) => {
                let e = m.encode();
                put_len_delimited(b, 18, e.as_slice());
            },
        }
    }
}

/// Encoding of an optional payload.
pub open spec fn opt_payload(p: Option<Payload>) -> Seq<u8> {
    match p {
        Some(m) => m.encoding(),
        None => Seq::empty(),
    }
}

/// Encoding of an optional trust context.
pub open spec fn opt_trust(t: Option<TrustContext>) -> Option<Seq<u8>> {
    match t {
        Some(m) => Some(m.encoding()),
        None => None,
    }
}

/// The signed ACL envelope.
#[derive(Clone, Debug)]
pub struct AclMessage {
    pub sender_id: String,
    pub signature: Vec<u8>,
    pub timestamp_ns: u64,
    pub message_id: String,
    pub performative: i32,
    pub ontology: String,
    pub conversation_id: String,
    pub in_reply_to: String,
    pub payload: Option<Payload>,
    pub trust: Option<TrustContext>,
    pub sender_public_key: Vec<u8>,
}

impl AclMessage {
    pub open spec fn encoding_with_signature(&self, signature: Seq<u8>) -> Seq<u8> {
        string_field(1, self.sender_id@) + bytes_field(2, signature) + uint_field(
            3,
            self.timestamp_ns as nat,
        ) + string_field(4, self.message_id@) + int32_field(5, self.performative)
            + string_field(6, self.ontology@) + string_field(7, self.conversation_id@)
            + string_field(8, self.in_reply_to@) + opt_payload(self.payload) + message_field(
            20,
            opt_trust(self.trust),
        ) + bytes_field(21, self.sender_public_key@)
    }

    pub open spec fn encoding(&self) -> Seq<u8> {
        self.encoding_with_signature(self.signature@)
    }

    /// Canonical signing bytes: the envelope encoded with an empty signature.
    pub open spec fn signing_bytes(&self) -> Seq<u8> {
        self.encoding_with_signature(Seq::empty())
    }

    fn encode_with_signature(&self, signature: &[u8]) -> (out: Vec<u8>)
        ensures
            out@ == self.encoding_with_signature(signature@),
    {
        let mut b: Vec<u8> = Vec::new();
        put_string_field(&mut b, 1, &self.sender_id);
        put_bytes_field(&mut b, 2, signature);
        put_uint_field(&mut b, 3, self.timestamp_ns);
        put_string_field(&mut b, 4, &self.message_id);
        put_int32_field(&mut b, 5, self.performative);
        put_string_field(&mut b, 6, &self.ontology);
        put_string_field(&mut b, 7, &self.conversation_id);
        put_string_field(&mut b, 8, &self.in_reply_to);
        match &self.payload {
            Some(p) => p.put(&mut b),
            None => {},
        }
        match &self.trust {
            Some(t) => {
                let e = t.encode();
                put_len_delimited(&mut b, 20, e.as_slice());
            },
            None => {},
        }
        put_bytes_field(&mut b, 21, self.sender_public_key.as_slice());
        assert(b@ =~= self.encoding_with_signature(signature@));
        b
    }

    pub fn encode(&self) -> (out: Vec<u8>)
        ensures
            out@ == self.encoding(),
    {
        self.encode_with_signature(self.signature.as_slice())
    }

    pub fn signing_bytes_exec(&self) -> (out: Vec<u8>)
        ensures
            out@ == self.signing_bytes(),
    {
        let empty: Vec<u8> = Vec::new();
        self.encode_with_signature(empty.as_slice())
    }
}

/// A signed directory entry stored in the DHT under one LSH table key.
#[derive(Clone, Debug)]
pub struct DirectoryRecord {
    pub capability_id: String,
    pub agent_id: String,
    pub peer_id: String,
    pub facet_fingerprint: Vec<u8>,
    pub model_id: String,
    pub table_id: u32,
    pub hash_code: Vec<u8>,
    pub status: String,
    pub ttl_ns: u64,
    pub signature: Vec<u8>,
    pub protocol_version: u32,
    pub publisher_public_key: Vec<u8>,
}

impl DirectoryRecord {
    pub open spec fn encoding_with_signature(&self, signature: Seq<u8>) -> Seq<u8> {
        string_field(1, self.capability_id@) + string_field(2, self.agent_id@) + string_field(
            3,
            self.peer_id@,
        ) + bytes_field(4, self.facet_fingerprint@) + string_field(5, self.model_id@)
            + uint_field(6, self.table_id as nat) + bytes_field(7, self.hash_code@)
            + string_field(8, self.status@) + uint_field(9, self.ttl_ns as nat) + bytes_field(
            10,
            signature,
        ) + uint_field(11, self.protocol_version as nat) + bytes_field(
            12,
            self.publisher_public_key@,
        )
    }

    pub open spec fn encoding(&self) -> Seq<u8> {
        self.encoding_with_signature(self.signature@)
    }

    /// Canonical signing bytes: the record encoded with an empty signature.
    pub open spec fn signing_bytes(&self) -> Seq<u8> {
        self.encoding_with_signature(Seq::empty())
    }

    fn encode_with_signature(&self, signature: &[u8]) -> (out: Vec<u8>)
        ensures
            out@ == self.encoding_with_signature(signature@),
    {
        let mut b: Vec<u8> = Vec::new();
        put_string_field(&mut b, 1, &self.capability_id);
        put_string_field(&mut b, 2, &self.agent_id);
        put_string_field(&mut b, 3, &self.peer_id);
        put_bytes_field(&mut b, 4, self.facet_fingerprint.as_slice());
        put_string_field(&mut b, 5, &self.model_id);
        put_uint_field(&mut b, 6, self.table_id as u64);
        put_bytes_field(&mut b, 7, self.hash_code.as_slice());
        put_string_field(&mut b, 8, &self.status);
        put_uint_field(&mut b, 9, self.ttl_ns);
        put_bytes_field(&mut b, 10, signature);
        put_uint_field(&mut b, 11, self.protocol_version as u64);
        put_bytes_field(&mut b, 12, self.publisher_public_key.as_slice());
        assert(b@ =~= self.encoding_with_signature(signature@));
        b
    }

    pub fn encode(&self) -> (out: Vec<u8>)
        ensures
            out@ == self.encoding(),
    {
        self.encode_with_signature(self.signature.as_slice())
    }

    pub fn signing_bytes_exec(&self) -> (out: Vec<u8>)
        ensures
            out@ == self.signing_bytes(),
    {
        let empty: Vec<u8> = Vec::new();
        self.encode_with_signature(empty.as_slice())
    }
}

/// Receipt signatures cover every field but the signature: the signing
/// bytes are exactly the wire encoding of the same receipt with its
/// signature emptied, and they do not depend on the signature.
pub proof fn lemma_receipt_signing_bytes(r: Receipt, cleared: Receipt)
    requires
        cleared.conversation_id@ == r.conversation_id@,
        cleared.capability_id@ == r.capability_id@,
        cleared.requester_peer_id@ == r.requester_peer_id@,
        cleared.provider_peer_id@ == r.provider_peer_id@,
        cleared.status == r.status,
        cleared.completed_at_ns == r.completed_at_ns,
        cleared.issuer_public_key@ == r.issuer_public_key@,
        cleared.signature@.len() == 0,
    ensures
        r.signing_bytes() == cleared.encoding(),
        r.signing_bytes() == cleared.signing_bytes(),
{
    assert(cleared.signature@ =~= Seq::<u8>::empty());
}

/// Each field of a receipt other than the signature appears, encoded, in its
/// signing bytes, so changing any of them changes what is signed.
pub proof fn lemma_receipt_signing_bytes_cover(r: Receipt)
    ensures

        contains_bytes(r.signing_bytes(), string_field(1, r.conversation_id@)),
        contains_bytes(r.signing_bytes(), string_field(2, r.capability_id@)),
        contains_bytes(r.signing_bytes(), string_field(3, r.requester_peer_id@)),
        contains_bytes(r.signing_bytes(), string_field(4, r.provider_peer_id@)),
        contains_bytes(r.signing_bytes(), int32_field(5, r.status)),
        contains_bytes(r.signing_bytes(), uint_field(6, r.completed_at_ns as nat)),
        contains_bytes(r.signing_bytes(), bytes_field(8, r.issuer_public_key@)),
{
    let j = r.signing_bytes();
    assert(contains_bytes(j, string_field(1, r.conversation_id@))) by {
        lemma_contains_self(string_field(1, r.conversation_id@));
        lemma_contains_extend(string_field(1, r.conversation_id@), string_field(1, r.conversation_id@), string_field(2, r.capability_id@));
        lemma_contains_extend(string_field(1, r.conversation_id@) + string_field(2, r.capability_id@), string_field(1, r.conversation_id@), string_field(3, r.requester_peer_id@));
        lemma_contains_extend(string_field(1, r.conversation_id@) + string_field(2, r.capability_id@) + string_field(3, r.requester_peer_id@), string_field(1, r.conversation_id@), string_field(4, r.provider_peer_id@));
        lemma_contains_extend(string_field(1, r.conversation_id@) + string_field(2, r.capability_id@) + string_field(3, r.requester_peer_id@) + string_field(4, r.provider_peer_id@), string_field(1, r.conversation_id@), int32_field(5, r.status));
        lemma_contains_extend(string_field(1, r.conversation_id@) + string_field(2, r.capability_id@) + string_field(3, r.requester_peer_id@) + string_field(4, r.provider_peer_id@) + int32_field(5, r.status), string_field(1, r.conversation_id@), uint_field(6, r.completed_at_ns as nat));
        lemma_contains_extend(string_field(1, r.conversation_id@) + string_field(2, r.capability_id@) + string_field(3, r.requester_peer_id@) + string_field(4, r.provider_peer_id@) + int32_field(5, r.status) + uint_field(6, r.completed_at_ns as nat), string_field(1, r.conversation_id@), bytes_field(7, Seq::empty()));
        lemma_contains_extend(string_field(1, r.conversation_id@) + string_field(2, r.capability_id@) + string_field(3, r.requester_peer_id@) + string_field(4, r.provider_peer_id@) + int32_field(5, r.status) + uint_field(6, r.completed_at_ns as nat) + bytes_field(7, Seq::empty()), string_field(1, r.conversation_id@), bytes_field(8, r.issuer_public_key@));
    }
    assert(contains_bytes(j, string_field(2, r.capability_id@))) by {
        lemma_contains_last(string_field(1, r.conversation_id@), string_field(2, r.capability_id@));
        lemma_contains_extend(string_field(1, r.conversation_id@) + string_field(2, r.capability_id@), string_field(2, r.capability_id@), string_field(3, r.requester_peer_id@));
        lemma_contains_extend(string_field(1, r.conversation_id@) + string_field(2, r.capability_id@) + string_field(3, r.requester_peer_id@), string_field(2, r.capability_id@), string_field(4, r.provider_peer_id@));
        lemma_contains_extend(string_field(1, r.conversation_id@) + string_field(2, r.capability_id@) + string_field(3, r.requester_peer_id@) + string_field(4, r.provider_peer_id@), string_field(2, r.capability_id@), int32_field(5, r.status));
        lemma_contains_extend(string_field(1, r.conversation_id@) + string_field(2, r.capability_id@) + string_field(3, r.requester_peer_id@) + string_field(4, r.provider_peer_id@) + int32_field(5, r.status), string_field(2, r.capability_id@), uint_field(6, r.completed_at_ns as nat));
        lemma_contains_extend(string_field(1, r.conversation_id@) + string_field(2, r.capability_id@) + string_field(3, r.requester_peer_id@) + string_field(4, r.provider_peer_id@) + int32_field(5, r.status) + uint_field(6, r.completed_at_ns as nat), string_field(2, r.capability_id@), bytes_field(7, Seq::empty()));
        lemma_contains_extend(string_field(1, r.conversation_id@) + string_field(2, r.capability_id@) + string_field(3, r.requester_peer_id@) + string_field(4, r.provider_peer_id@) + int32_field(5, r.status) + uint_field(6, r.completed_at_ns as nat) + bytes_field(7, Seq::empty()), string_field(2, r.capability_id@), bytes_field(8, r.issuer_public_key@));
    }
    assert(contains_bytes(j, string_field(3, r.requester_peer_id@))) by {
        lemma_contains_last(string_field(1, r.conversation_id@) + string_field(2, r.capability_id@), string_field(3, r.requester_peer_id@));
        lemma_contains_extend(string_field(1, r.conversation_id@) + string_field(2, r.capability_id@) + string_field(3, r.requester_peer_id@), string_field(3, r.requester_peer_id@), string_field(4, r.provider_peer_id@));
        lemma_contains_extend(string_field(1, r.conversation_id@) + string_field(2, r.capability_id@) + string_field(3, r.requester_peer_id@) + string_field(4, r.provider_peer_id@), string_field(3, r.requester_peer_id@), int32_field(5, r.status));
        lemma_contains_extend(string_field(1, r.conversation_id@) + string_field(2, r.capability_id@) + string_field(3, r.requester_peer_id@) + string_field(4, r.provider_peer_id@) + int32_field(5, r.status), string_field(3, r.requester_peer_id@), uint_field(6, r.completed_at_ns as nat));
        lemma_contains_extend(string_field(1, r.conversation_id@) + string_field(2, r.capability_id@) + string_field(3, r.requester_peer_id@) + string_field(4, r.provider_peer_id@) + int32_field(5, r.status) + uint_field(6, r.completed_at_ns as nat), string_field(3, r.requester_peer_id@), bytes_field(7, Seq::empty()));
        lemma_contains_extend(string_field(1, r.conversation_id@) + string_field(2, r.capability_id@) + string_field(3, r.requester_peer_id@) + string_field(4, r.provider_peer_id@) + int32_field(5, r.status) + uint_field(6, r.completed_at_ns as nat) + bytes_field(7, Seq::empty()), string_field(3, r.requester_peer_id@), bytes_field(8, r.issuer_public_key@));
    }
    assert(contains_bytes(j, string_field(4, r.provider_peer_id@))) by {
        lemma_contains_last(string_field(1, r.conversation_id@) + string_field(2, r.capability_id@) + string_field(3, r.requester_peer_id@), string_field(4, r.provider_peer_id@));
        lemma_contains_extend(string_field(1, r.conversation_id@) + string_field(2, r.capability_id@) + string_field(3, r.requester_peer_id@) + string_field(4, r.provider_peer_id@), string_field(4, r.provider_peer_id@), int32_field(5, r.status));
        lemma_contains_extend(string_field(1, r.conversation_id@) + string_field(2, r.capability_id@) + string_field(3, r.requester_peer_id@) + string_field(4, r.provider_peer_id@) + int32_field(5, r.status), string_field(4, r.provider_peer_id@), uint_field(6, r.completed_at_ns as nat));
        lemma_contains_extend(string_field(1, r.conversation_id@) + string_field(2, r.capability_id@) + string_field(3, r.requester_peer_id@) + string_field(4, r.provider_peer_id@) + int32_field(5, r.status) + uint_field(6, r.completed_at_ns as nat), string_field(4, r.provider_peer_id@), bytes_field(7, Seq::empty()));
        lemma_contains_extend(string_field(1, r.conversation_id@) + string_field(2, r.capability_id@) + string_field(3, r.requester_peer_id@) + string_field(4, r.provider_peer_id@) + int32_field(5, r.status) + uint_field(6, r.completed_at_ns as nat) + bytes_field(7, Seq::empty()), string_field(4, r.provider_peer_id@), bytes_field(8, r.issuer_public_key@));
    }
    assert(contains_bytes(j, int32_field(5, r.status))) by {
        lemma_contains_last(string_field(1, r.conversation_id@) + string_field(2, r.capability_id@) + string_field(3, r.requester_peer_id@) + string_field(4, r.provider_peer_id@), int32_field(5, r.status));
        lemma_contains_extend(string_field(1, r.conversation_id@) + string_field(2, r.capability_id@) + string_field(3, r.requester_peer_id@) + string_field(4, r.provider_peer_id@) + int32_field(5, r.status), int32_field(5, r.status), uint_field(6, r.completed_at_ns as nat));
        lemma_contains_extend(string_field(1, r.conversation_id@) + string_field(2, r.capability_id@) + string_field(3, r.requester_peer_id@) + string_field(4, r.provider_peer_id@) + int32_field(5, r.status) + uint_field(6, r.completed_at_ns as nat), int32_field(5, r.status), bytes_field(7, Seq::empty()));
        lemma_contains_extend(string_field(1, r.conversation_id@) + string_field(2, r.capability_id@) + string_field(3, r.requester_peer_id@) + string_field(4, r.provider_peer_id@) + int32_field(5, r.status) + uint_field(6, r.completed_at_ns as nat) + bytes_field(7, Seq::empty()), int32_field(5, r.status), bytes_field(8, r.issuer_public_key@));
    }
    assert(contains_bytes(j, uint_field(6, r.completed_at_ns as nat))) by {
        lemma_contains_last(string_field(1, r.conversation_id@) + string_field(2, r.capability_id@) + string_field(3, r.requester_peer_id@) + string_field(4, r.provider_peer_id@) + int32_field(5, r.status), uint_field(6, r.completed_at_ns as nat));
        lemma_contains_extend(string_field(1, r.conversation_id@) + string_field(2, r.capability_id@) + string_field(3, r.requester_peer_id@) + string_field(4, r.provider_peer_id@) + int32_field(5, r.status) + uint_field(6, r.completed_at_ns as nat), uint_field(6, r.completed_at_ns as nat), bytes_field(7, Seq::empty()));
        lemma_contains_extend(string_field(1, r.conversation_id@) + string_field(2, r.capability_id@) + string_field(3, r.requester_peer_id@) + string_field(4, r.provider_peer_id@) + int32_field(5, r.status) + uint_field(6, r.completed_at_ns as nat) + bytes_field(7, Seq::empty()), uint_field(6, r.completed_at_ns as nat), bytes_field(8, r.issuer_public_key@));
    }
    assert(contains_bytes(j, bytes_field(8, r.issuer_public_key@))) by {
        lemma_contains_last(string_field(1, r.conversation_id@) + string_field(2, r.capability_id@) + string_field(3, r.requester_peer_id@) + string_field(4, r.provider_peer_id@) + int32_field(5, r.status) + uint_field(6, r.completed_at_ns as nat) + bytes_field(7, Seq::empty()), bytes_field(8, r.issuer_public_key@));
    }
}

/// Envelope signatures cover every field but the signature: the signing
/// bytes are exactly the wire encoding of the same envelope with its
/// signature emptied, and they do not depend on the signature.
pub proof fn lemma_envelope_signing_bytes(m: AclMessage, cleared: AclMessage)
    requires
        cleared.sender_id@ == m.sender_id@,
        cleared.timestamp_ns == m.timestamp_ns,
        cleared.message_id@ == m.message_id@,
        cleared.performative == m.performative,
        cleared.ontology@ == m.ontology@,
        cleared.conversation_id@ == m.conversation_id@,
        cleared.in_reply_to@ == m.in_reply_to@,
        cleared.payload == m.payload,
        cleared.trust == m.trust,
        cleared.sender_public_key@ == m.sender_public_key@,
        cleared.signature@.len() == 0,
    ensures
        m.signing_bytes() == cleared.encoding(),
        m.signing_bytes() == cleared.signing_bytes(),
{
    assert(cleared.signature@ =~= Seq::<u8>::empty());
}

/// Each field of an envelope other than the signature appears, encoded, in its
/// signing bytes, so changing any of them changes what is signed.
pub proof fn lemma_envelope_signing_bytes_cover(m: AclMessage)
    ensures

        contains_bytes(m.signing_bytes(), string_field(1, m.sender_id@)),
        contains_bytes(m.signing_bytes(), uint_field(3, m.timestamp_ns as nat)),
        contains_bytes(m.signing_bytes(), string_field(4, m.message_id@)),
        contains_bytes(m.signing_bytes(), int32_field(5, m.performative)),
        contains_bytes(m.signing_bytes(), string_field(6, m.ontology@)),
        contains_bytes(m.signing_bytes(), string_field(7, m.conversation_id@)),
        contains_bytes(m.signing_bytes(), string_field(8, m.in_reply_to@)),
        contains_bytes(m.signing_bytes(), opt_payload(m.payload)),
        contains_bytes(m.signing_bytes(), message_field(20, opt_trust(m.trust))),
        contains_bytes(m.signing_bytes(), bytes_field(21, m.sender_public_key@)),
{
    let j = m.signing_bytes();
    assert(contains_bytes(j, string_field(1, m.sender_id@))) by {
        lemma_contains_self(string_field(1, m.sender_id@));
        lemma_contains_extend(string_field(1, m.sender_id@), string_field(1, m.sender_id@), bytes_field(2, Seq::empty()));
        lemma_contains_extend(string_field(1, m.sender_id@) + bytes_field(2, Seq::empty()), string_field(1, m.sender_id@), uint_field(3, m.timestamp_ns as nat));
        lemma_contains_extend(string_field(1, m.sender_id@) + bytes_field(2, Seq::empty()) + uint_field(3, m.timestamp_ns as nat), string_field(1, m.sender_id@), string_field(4, m.message_id@));
        lemma_contains_extend(string_field(1, m.sender_id@) + bytes_field(2, Seq::empty()) + uint_field(3, m.timestamp_ns as nat) + string_field(4, m.message_id@), string_field(1, m.sender_id@), int32_field(5, m.performative));
        lemma_contains_extend(string_field(1, m.sender_id@) + bytes_field(2, Seq::empty()) + uint_field(3, m.timestamp_ns as nat) + string_field(4, m.message_id@) + int32_field(5, m.performative), string_field(1, m.sender_id@), string_field(6, m.ontology@));
        lemma_contains_extend(string_field(1, m.sender_id@) + bytes_field(2, Seq::empty()) + uint_field(3, m.timestamp_ns as nat) + string_field(4, m.message_id@) + int32_field(5, m.performative) + string_field(6, m.ontology@), string_field(1, m.sender_id@), string_field(7, m.conversation_id@));
        lemma_contains_extend(string_field(1, m.sender_id@) + bytes_field(2, Seq::empty()) + uint_field(3, m.timestamp_ns as nat) + string_field(4, m.message_id@) + int32_field(5, m.performative) + string_field(6, m.ontology@) + string_field(7, m.conversation_id@), string_field(1, m.sender_id@), string_field(8, m.in_reply_to@));
        lemma_contains_extend(string_field(1, m.sender_id@) + bytes_field(2, Seq::empty()) + uint_field(3, m.timestamp_ns as nat) + string_field(4, m.message_id@) + int32_field(5, m.performative) + string_field(6, m.ontology@) + string_field(7, m.conversation_id@) + string_field(8, m.in_reply_to@), string_field(1, m.sender_id@), opt_payload(m.payload));
        lemma_contains_extend(string_field(1, m.sender_id@) + bytes_field(2, Seq::empty()) + uint_field(3, m.timestamp_ns as nat) + string_field(4, m.message_id@) + int32_field(5, m.performative) + string_field(6, m.ontology@) + string_field(7, m.conversation_id@) + string_field(8, m.in_reply_to@) + opt_payload(m.payload), string_field(1, m.sender_id@), message_field(20, opt_trust(m.trust)));
        lemma_contains_extend(string_field(1, m.sender_id@) + bytes_field(2, Seq::empty()) + uint_field(3, m.timestamp_ns as nat) + string_field(4, m.message_id@) + int32_field(5, m.performative) + string_field(6, m.ontology@) + string_field(7, m.conversation_id@) + string_field(8, m.in_reply_to@) + opt_payload(m.payload) + message_field(20, opt_trust(m.trust)), string_field(1, m.sender_id@), bytes_field(21, m.sender_public_key@));
    }
    assert(contains_bytes(j, uint_field(3, m.timestamp_ns as nat))) by {
        lemma_contains_last(string_field(1, m.sender_id@) + bytes_field(2, Seq::empty()), uint_field(3, m.timestamp_ns as nat));
        lemma_contains_extend(string_field(1, m.sender_id@) + bytes_field(2, Seq::empty()) + uint_field(3, m.timestamp_ns as nat), uint_field(3, m.timestamp_ns as nat), string_field(4, m.message_id@));
        lemma_contains_extend(string_field(1, m.sender_id@) + bytes_field(2, Seq::empty()) + uint_field(3, m.timestamp_ns as nat) + string_field(4, m.message_id@), uint_field(3, m.timestamp_ns as nat), int32_field(5, m.performative));
        lemma_contains_extend(string_field(1, m.sender_id@) + bytes_field(2, Seq::empty()) + uint_field(3, m.timestamp_ns as nat) + string_field(4, m.message_id@) + int32_field(5, m.performative), uint_field(3, m.timestamp_ns as nat), string_field(6, m.ontology@));
        lemma_contains_extend(string_field(1, m.sender_id@) + bytes_field(2, Seq::empty()) + uint_field(3, m.timestamp_ns as nat) + string_field(4, m.message_id@) + int32_field(5, m.performative) + string_field(6, m.ontology@), uint_field(3, m.timestamp_ns as nat), string_field(7, m.conversation_id@));
        lemma_contains_extend(string_field(1, m.sender_id@) + bytes_field(2, Seq::empty()) + uint_field(3, m.timestamp_ns as nat) + string_field(4, m.message_id@) + int32_field(5, m.performative) + string_field(6, m.ontology@) + string_field(7, m.conversation_id@), uint_field(3, m.timestamp_ns as nat), string_field(8, m.in_reply_to@));
        lemma_contains_extend(string_field(1, m.sender_id@) + bytes_field(2, Seq::empty()) + uint_field(3, m.timestamp_ns as nat) + string_field(4, m.message_id@) + int32_field(5, m.performative) + string_field(6, m.ontology@) + string_field(7, m.conversation_id@) + string_field(8, m.in_reply_to@), uint_field(3, m.timestamp_ns as nat), opt_payload(m.payload));
        lemma_contains_extend(string_field(1, m.sender_id@) + bytes_field(2, Seq::empty()) + uint_field(3, m.timestamp_ns as nat) + string_field(4, m.message_id@) + int32_field(5, m.performative) + string_field(6, m.ontology@) + string_field(7, m.conversation_id@) + string_field(8, m.in_reply_to@) + opt_payload(m.payload), uint_field(3, m.timestamp_ns as nat), message_field(20, opt_trust(m.trust)));
        lemma_contains_extend(string_field(1, m.sender_id@) + bytes_field(2, Seq::empty()) + uint_field(3, m.timestamp_ns as nat) + string_field(4, m.message_id@) + int32_field(5, m.performative) + string_field(6, m.ontology@) + string_field(7, m.conversation_id@) + string_field(8, m.in_reply_to@) + opt_payload(m.payload) + message_field(20, opt_trust(m.trust)), uint_field(3, m.timestamp_ns as nat), bytes_field(21, m.sender_public_key@));
    }
    assert(contains_bytes(j, string_field(4, m.message_id@))) by {
        lemma_contains_last(string_field(1, m.sender_id@) + bytes_field(2, Seq::empty()) + uint_field(3, m.timestamp_ns as nat), string_field(4, m.message_id@));
        lemma_contains_extend(string_field(1, m.sender_id@) + bytes_field(2, Seq::empty()) + uint_field(3, m.timestamp_ns as nat) + string_field(4, m.message_id@), string_field(4, m.message_id@), int32_field(5, m.performative));
        lemma_contains_extend(string_field(1, m.sender_id@) + bytes_field(2, Seq::empty()) + uint_field(3, m.timestamp_ns as nat) + string_field(4, m.message_id@) + int32_field(5, m.performative), string_field(4, m.message_id@), string_field(6, m.ontology@));
        lemma_contains_extend(string_field(1, m.sender_id@) + bytes_field(2, Seq::empty()) + uint_field(3, m.timestamp_ns as nat) + string_field(4, m.message_id@) + int32_field(5, m.performative) + string_field(6, m.ontology@), string_field(4, m.message_id@), string_field(7, m.conversation_id@));
        lemma_contains_extend(string_field(1, m.sender_id@) + bytes_field(2, Seq::empty()) + uint_field(3, m.timestamp_ns as nat) + string_field(4, m.message_id@) + int32_field(5, m.performative) + string_field(6, m.ontology@) + string_field(7, m.conversation_id@), string_field(4, m.message_id@), string_field(8, m.in_reply_to@));
        lemma_contains_extend(string_field(1, m.sender_id@) + bytes_field(2, Seq::empty()) + uint_field(3, m.timestamp_ns as nat) + string_field(4, m.message_id@) + int32_field(5, m.performative) + string_field(6, m.ontology@) + string_field(7, m.conversation_id@) + string_field(8, m.in_reply_to@), string_field(4, m.message_id@), opt_payload(m.payload));
        lemma_contains_extend(string_field(1, m.sender_id@) + bytes_field(2, Seq::empty()) + uint_field(3, m.timestamp_ns as nat) + string_field(4, m.message_id@) + int32_field(5, m.performative) + string_field(6, m.ontology@) + string_field(7, m.conversation_id@) + string_field(8, m.in_reply_to@) + opt_payload(m.payload), string_field(4, m.message_id@), message_field(20, opt_trust(m.trust)));
        lemma_contains_extend(string_field(1, m.sender_id@) + bytes_field(2, Seq::empty()) + uint_field(3, m.timestamp_ns as nat) + string_field(4, m.message_id@) + int32_field(5, m.performative) + string_field(6, m.ontology@) + string_field(7, m.conversation_id@) + string_field(8, m.in_reply_to@) + opt_payload(m.payload) + message_field(20, opt_trust(m.trust)), string_field(4, m.message_id@), bytes_field(21, m.sender_public_key@));
    }
    assert(contains_bytes(j, int32_field(5, m.performative))) by {
        lemma_contains_last(string_field(1, m.sender_id@) + bytes_field(2, Seq::empty()) + uint_field(3, m.timestamp_ns as nat) + string_field(4, m.message_id@), int32_field(5, m.performative));
        lemma_contains_extend(string_field(1, m.sender_id@) + bytes_field(2, Seq::empty()) + uint_field(3, m.timestamp_ns as nat) + string_field(4, m.message_id@) + int32_field(5, m.performative), int32_field(5, m.performative), string_field(6, m.ontology@));
        lemma_contains_extend(string_field(1, m.sender_id@) + bytes_field(2, Seq::empty()) + uint_field(3, m.timestamp_ns as nat) + string_field(4, m.message_id@) + int32_field(5, m.performative) + string_field(6, m.ontology@), int32_field(5, m.performative), string_field(7, m.conversation_id@));
        lemma_contains_extend(string_field(1, m.sender_id@) + bytes_field(2, Seq::empty()) + uint_field(3, m.timestamp_ns as nat) + string_field(4, m.message_id@) + int32_field(5, m.performative) + string_field(6, m.ontology@) + string_field(7, m.conversation_id@), int32_field(5, m.performative), string_field(8, m.in_reply_to@));
        lemma_contains_extend(string_field(1, m.sender_id@) + bytes_field(2, Seq::empty()) + uint_field(3, m.timestamp_ns as nat) + string_field(4, m.message_id@) + int32_field(5, m.performative) + string_field(6, m.ontology@) + string_field(7, m.conversation_id@) + string_field(8, m.in_reply_to@), int32_field(5, m.performative), opt_payload(m.payload));
        lemma_contains_extend(string_field(1, m.sender_id@) + bytes_field(2, Seq::empty()) + uint_field(3, m.timestamp_ns as nat) + string_field(4, m.message_id@) + int32_field(5, m.performative) + string_field(6, m.ontology@) + string_field(7, m.conversation_id@) + string_field(8, m.in_reply_to@) + opt_payload(m.payload), int32_field(5, m.performative), message_field(20, opt_trust(m.trust)));
        lemma_contains_extend(string_field(1, m.sender_id@) + bytes_field(2, Seq::empty()) + uint_field(3, m.timestamp_ns as nat) + string_field(4, m.message_id@) + int32_field(5, m.performative) + string_field(6, m.ontology@) + string_field(7, m.conversation_id@) + string_field(8, m.in_reply_to@) + opt_payload(m.payload) + message_field(20, opt_trust(m.trust)), int32_field(5, m.performative), bytes_field(21, m.sender_public_key@));
    }
    assert(contains_bytes(j, string_field(6, m.ontology@))) by {
        lemma_contains_last(string_field(1, m.sender_id@) + bytes_field(2, Seq::empty()) + uint_field(3, m.timestamp_ns as nat) + string_field(4, m.message_id@) + int32_field(5, m.performative), string_field(6, m.ontology@));
        lemma_contains_extend(string_field(1, m.sender_id@) + bytes_field(2, Seq::empty()) + uint_field(3, m.timestamp_ns as nat) + string_field(4, m.message_id@) + int32_field(5, m.performative) + string_field(6, m.ontology@), string_field(6, m.ontology@), string_field(7, m.conversation_id@));
        lemma_contains_extend(string_field(1, m.sender_id@) + bytes_field(2, Seq::empty()) + uint_field(3, m.timestamp_ns as nat) + string_field(4, m.message_id@) + int32_field(5, m.performative) + string_field(6, m.ontology@) + string_field(7, m.conversation_id@), string_field(6, m.ontology@), string_field(8, m.in_reply_to@));
        lemma_contains_extend(string_field(1, m.sender_id@) + bytes_field(2, Seq::empty()) + uint_field(3, m.timestamp_ns as nat) + string_field(4, m.message_id@) + int32_field(5, m.performative) + string_field(6, m.ontology@) + string_field(7, m.conversation_id@) + string_field(8, m.in_reply_to@), string_field(6, m.ontology@), opt_payload(m.payload));
        lemma_contains_extend(string_field(1, m.sender_id@) + bytes_field(2, Seq::empty()) + uint_field(3, m.timestamp_ns as nat) + string_field(4, m.message_id@) + int32_field(5, m.performative) + string_field(6, m.ontology@) + string_field(7, m.conversation_id@) + string_field(8, m.in_reply_to@) + opt_payload(m.payload), string_field(6, m.ontology@), message_field(20, opt_trust(m.trust)));
        lemma_contains_extend(string_field(1, m.sender_id@) + bytes_field(2, Seq::empty()) + uint_field(3, m.timestamp_ns as nat) + string_field(4, m.message_id@) + int32_field(5, m.performative) + string_field(6, m.ontology@) + string_field(7, m.conversation_id@) + string_field(8, m.in_reply_to@) + opt_payload(m.payload) + message_field(20, opt_trust(m.trust)), string_field(6, m.ontology@), bytes_field(21, m.sender_public_key@));
    }
    assert(contains_bytes(j, string_field(7, m.conversation_id@))) by {
        lemma_contains_last(string_field(1, m.sender_id@) + bytes_field(2, Seq::empty()) + uint_field(3, m.timestamp_ns as nat) + string_field(4, m.message_id@) + int32_field(5, m.performative) + string_field(6, m.ontology@), string_field(7, m.conversation_id@));
        lemma_contains_extend(string_field(1, m.sender_id@) + bytes_field(2, Seq::empty()) + uint_field(3, m.timestamp_ns as nat) + string_field(4, m.message_id@) + int32_field(5, m.performative) + string_field(6, m.ontology@) + string_field(7, m.conversation_id@), string_field(7, m.conversation_id@), string_field(8, m.in_reply_to@));
        lemma_contains_extend(string_field(1, m.sender_id@) + bytes_field(2, Seq::empty()) + uint_field(3, m.timestamp_ns as nat) + string_field(4, m.message_id@) + int32_field(5, m.performative) + string_field(6, m.ontology@) + string_field(7, m.conversation_id@) + string_field(8, m.in_reply_to@), string_field(7, m.conversation_id@), opt_payload(m.payload));
        lemma_contains_extend(string_field(1, m.sender_id@) + bytes_field(2, Seq::empty()) + uint_field(3, m.timestamp_ns as nat) + string_field(4, m.message_id@) + int32_field(5, m.performative) + string_field(6, m.ontology@) + string_field(7, m.conversation_id@) + string_field(8, m.in_reply_to@) + opt_payload(m.payload), string_field(7, m.conversation_id@), message_field(20, opt_trust(m.trust)));
        lemma_contains_extend(string_field(1, m.sender_id@) + bytes_field(2, Seq::empty()) + uint_field(3, m.timestamp_ns as nat) + string_field(4, m.message_id@) + int32_field(5, m.performative) + string_field(6, m.ontology@) + string_field(7, m.conversation_id@) + string_field(8, m.in_reply_to@) + opt_payload(m.payload) + message_field(20, opt_trust(m.trust)), string_field(7, m.conversation_id@), bytes_field(21, m.sender_public_key@));
    }
    assert(contains_bytes(j, string_field(8, m.in_reply_to@))) by {
        lemma_contains_last(string_field(1, m.sender_id@) + bytes_field(2, Seq::empty()) + uint_field(3, m.timestamp_ns as nat) + string_field(4, m.message_id@) + int32_field(5, m.performative) + string_field(6, m.ontology@) + string_field(7, m.conversation_id@), string_field(8, m.in_reply_to@));
        lemma_contains_extend(string_field(1, m.sender_id@) + bytes_field(2, Seq::empty()) + uint_field(3, m.timestamp_ns as nat) + string_field(4, m.message_id@) + int32_field(5, m.performative) + string_field(6, m.ontology@) + string_field(7, m.conversation_id@) + string_field(8, m.in_reply_to@), string_field(8, m.in_reply_to@), opt_payload(m.payload));
        lemma_contains_extend(string_field(1, m.sender_id@) + bytes_field(2, Seq::empty()) + uint_field(3, m.timestamp_ns as nat) + string_field(4, m.message_id@) + int32_field(5, m.performative) + string_field(6, m.ontology@) + string_field(7, m.conversation_id@) + string_field(8, m.in_reply_to@) + opt_payload(m.payload), string_field(8, m.in_reply_to@), message_field(20, opt_trust(m.trust)));
        lemma_contains_extend(string_field(1, m.sender_id@) + bytes_field(2, Seq::empty()) + uint_field(3, m.timestamp_ns as nat) + string_field(4, m.message_id@) + int32_field(5, m.performative) + string_field(6, m.ontology@) + string_field(7, m.conversation_id@) + string_field(8, m.in_reply_to@) + opt_payload(m.payload) + message_field(20, opt_trust(m.trust)), string_field(8, m.in_reply_to@), bytes_field(21, m.sender_public_key@));
    }
    assert(contains_bytes(j, opt_payload(m.payload))) by {
        lemma_contains_last(string_field(1, m.sender_id@) + bytes_field(2, Seq::empty()) + uint_field(3, m.timestamp_ns as nat) + string_field(4, m.message_id@) + int32_field(5, m.performative) + string_field(6, m.ontology@) + string_field(7, m.conversation_id@) + string_field(8, m.in_reply_to@), opt_payload(m.payload));
        lemma_contains_extend(string_field(1, m.sender_id@) + bytes_field(2, Seq::empty()) + uint_field(3, m.timestamp_ns as nat) + string_field(4, m.message_id@) + int32_field(5, m.performative) + string_field(6, m.ontology@) + string_field(7, m.conversation_id@) + string_field(8, m.in_reply_to@) + opt_payload(m.payload), opt_payload(m.payload), message_field(20, opt_trust(m.trust)));
        lemma_contains_extend(string_field(1, m.sender_id@) + bytes_field(2, Seq::empty()) + uint_field(3, m.timestamp_ns as nat) + string_field(4, m.message_id@) + int32_field(5, m.performative) + string_field(6, m.ontology@) + string_field(7, m.conversation_id@) + string_field(8, m.in_reply_to@) + opt_payload(m.payload) + message_field(20, opt_trust(m.trust)), opt_payload(m.payload), bytes_field(21, m.sender_public_key@));
    }
    assert(contains_bytes(j, message_field(20, opt_trust(m.trust)))) by {
        lemma_contains_last(string_field(1, m.sender_id@) + bytes_field(2, Seq::empty()) + uint_field(3, m.timestamp_ns as nat) + string_field(4, m.message_id@) + int32_field(5, m.performative) + string_field(6, m.ontology@) + string_field(7, m.conversation_id@) + string_field(8, m.in_reply_to@) + opt_payload(m.payload), message_field(20, opt_trust(m.trust)));
        lemma_contains_extend(string_field(1, m.sender_id@) + bytes_field(2, Seq::empty()) + uint_field(3, m.timestamp_ns as nat) + string_field(4, m.message_id@) + int32_field(5, m.performative) + string_field(6, m.ontology@) + string_field(7, m.conversation_id@) + string_field(8, m.in_reply_to@) + opt_payload(m.payload) + message_field(20, opt_trust(m.trust)), message_field(20, opt_trust(m.trust)), bytes_field(21, m.sender_public_key@));
    }
    assert(contains_bytes(j, bytes_field(21, m.sender_public_key@))) by {
        lemma_contains_last(string_field(1, m.sender_id@) + bytes_field(2, Seq::empty()) + uint_field(3, m.timestamp_ns as nat) + string_field(4, m.message_id@) + int32_field(5, m.performative) + string_field(6, m.ontology@) + string_field(7, m.conversation_id@) + string_field(8, m.in_reply_to@) + opt_payload(m.payload) + message_field(20, opt_trust(m.trust)), bytes_field(21, m.sender_public_key@));
    }
}

/// Card signatures cover every field but the signature: the signing
/// bytes are exactly the wire encoding of the same card with its
/// signature emptied, and they do not depend on the signature.
pub proof fn lemma_card_signing_bytes(c: CapabilityCard, cleared: CapabilityCard)
    requires
        cleared.capability_id@ == c.capability_id@,
        cleared.agent_id@ == c.agent_id@,
        cleared.agent_name@ == c.agent_name@,
        cleared.agent_version@ == c.agent_version@,
        cleared.ontologies@ == c.ontologies@,
        cleared.tools@ == c.tools@,
        cleared.facets == c.facets,
        cleared.description@ == c.description@,
        cleared.embedding == c.embedding,
        cleared.pricing == c.pricing,
        cleared.status == c.status,
        cleared.last_seen_ns == c.last_seen_ns,
        cleared.expires_at_ns == c.expires_at_ns,
        cleared.facet_fingerprint@ == c.facet_fingerprint@,
        cleared.endorsements@ == c.endorsements@,
        cleared.mcp_servers@ == c.mcp_servers@,
        cleared.a2a_agent_card_url@ == c.a2a_agent_card_url@,
        cleared.public_key@ == c.public_key@,
        cleared.signature@.len() == 0,
    ensures
        c.signing_bytes() == cleared.encoding(),
        c.signing_bytes() == cleared.signing_bytes(),
{
    assert(cleared.signature@ =~= Seq::<u8>::empty());
}

/// Record signatures cover every field but the signature: the signing
/// bytes are exactly the wire encoding of the same record with its
/// signature emptied, and they do not depend on the signature.
pub proof fn lemma_record_signing_bytes(d: DirectoryRecord, cleared: DirectoryRecord)
    requires
        cleared.capability_id@ == d.capability_id@,
        cleared.agent_id@ == d.agent_id@,
        cleared.peer_id@ == d.peer_id@,
        cleared.facet_fingerprint@ == d.facet_fingerprint@,
        cleared.model_id@ == d.model_id@,
        cleared.table_id == d.table_id,
        cleared.hash_code@ == d.hash_code@,
        cleared.status@ == d.status@,
        cleared.ttl_ns == d.ttl_ns,
        cleared.protocol_version == d.protocol_version,
        cleared.publisher_public_key@ == d.publisher_public_key@,
        cleared.signature@.len() == 0,
    ensures
        d.signing_bytes() == cleared.encoding(),
        d.signing_bytes() == cleared.signing_bytes(),
{
    assert(cleared.signature@ =~= Seq::<u8>::empty());
}

} // verus!
