//! Decisions of the daemon's event loop: publication bookkeeping, the
//! requester's directory lookups and card fetches, and both sides of the
//! ACL conversation (REQUEST → PROPOSE, AGREE → INFORM), with a signed
//! receipt on completion.
//!
//! Each method takes the state and one event and returns what the caller
//! must perform. Network query and request handles are opaque integers the
//! caller assigns; peers are carried as peer-id text; similarity scores are
//! carried as `f32` bit patterns.

use vstd::prelude::*;
use crate::acl::{envelope_of, envelope_shape, envelope_valid, verify as verify_envelope, AclBuilder};
use crate::capability::{card_fault, fault_reported, verify as verify_card};
use crate::directory::{build_records, lookup_keys, publication_for, record_valid, verify_record};
use crate::error::Error;
use crate::facets::{facet_fingerprint, fingerprint};
use crate::identity::{key_peer_id, parse_peer_id, parsed_peer_id, AgentIdentity};
use crate::order::copy_bytes;
use crate::proto::{
    canonical_model_id, canonical_model_id_string, same_intent, AclMessage, Agreement,
    CapabilityCard, CapabilityFacets, DirectoryRecord, Intent, Payload, Performative,
    performative_code, Proposal, Receipt, ResultStatus, TaskResult, CANONICAL_EMBEDDING_DIM, RESULT_STATUS_OK,
};
use crate::receipt::{build as build_receipt, receipt_issued_by};
use crate::rerank::{facet_filter, meets_requirements};
use crate::table::Table;

verus! {

/// Ontology of the echo task the skeleton executes.
pub open spec fn echo_ontology() -> Seq<char> {
    "code-execution"@
}

/// Lifetime of published directory records: five minutes.
pub const RECORD_TTL_NS: u64 = 300000000000;

/// Requester-side state of one conversation.
pub struct RequesterState {
    pub conversation_id: String,
    pub required: CapabilityFacets,
    /// Query embedding, as `f32` bit patterns.
    pub query_vector: Vec<u32>,
    pub intent: Intent,
    pub outstanding_dht_queries: Table<u64, ()>,
    pub fetched_cards: Vec<CapabilityCard>,
    pub seen_capability_ids: Table<String, ()>,
    pub in_flight_card_fetches: Table<u64, ()>,
    pub request_sent: bool,
    pub provider_peer: Option<String>,
    pub chosen_capability_id: Option<String>,
    /// Similarity of the chosen card, as an `f32` bit pattern.
    pub chosen_score: u32,
    /// Whether the submitter still awaits the outcome.
    pub awaiting_reply: bool,
}

/// Provider-side state between PROPOSE and INFORM.
pub struct ProviderState {
    pub requester_peer: String,
    pub capability_id: String,
    pub intent_payload: Vec<u8>,
}

/// Bookkeeping of one DHT put: the publication it acknowledges, if any.
pub struct PublishAck {
    pub cap_id: String,
    /// Records in the publication; zero for puts that only count.
    pub remaining: u32,
}

/// Outcome of a completed intent.
#[derive(Debug, Clone)]
pub struct IntentOutcome {
    pub conversation_id: String,
    pub matched_capability_id: String,
    /// Similarity of the matched card, as an `f32` bit pattern.
    pub cosine_score: u32,
}

/// Observable daemon events.
#[derive(Debug, Clone)]
pub enum Notice {
    PeerDiscovered(String),
    CapabilityPublished { capability_id: String, record_count: u32 },
    IntentCompleted(IntentOutcome),
}

/// What the caller must perform.
pub enum Action {
    /// Emit an observable event.
    Emit(Notice),
    /// Answer the publisher whose put has handle `query` (`None`: success).
    ReplyPublish { query: u64, error: Option<String> },
    /// Answer the submitter of a conversation (`Err`: the reason).
    ReplyIntent { conversation_id: String, result: Result<IntentOutcome, String> },
    /// Fetch a card from a peer; report the request handle back.
    SendCardRequest { peer: String, capability_id: String, conversation_id: String },
    /// Send an ACL request to a peer; report the request handle back.
    SendAclRequest { peer: String, message: AclMessage, round: u8, conversation_id: String },
    /// Persist a receipt.
    StoreReceipt { receipt: Receipt, counterparty_signature: Option<Vec<u8>> },
    /// Count a published directory record.
    CountRecordPublished,
    /// Count an accepted match (and time the lookup of the conversation).
    CountMatchAccepted { conversation_id: String },
}

/// Candidates ready for ranking: every fetched card that passed the facet
/// filter, in fetch order, with the query embedding.
pub struct Candidates {
    pub conversation_id: String,
    pub query_vector: Vec<u32>,
    pub passing: Vec<CapabilityCard>,
}

/// Reply to an incoming ACL request: the response to send, and what to
/// perform.
pub struct AclReply {
    pub response: Option<AclMessage>,
    pub actions: Vec<Action>,
}

/// Payload the provider echoes back: the intent's payload, or `(empty)`.
pub open spec fn echo_payload(p: Seq<u8>) -> Seq<u8> {
    if p.len() == 0 {
        seq![40u8, 101u8, 109u8, 112u8, 116u8, 121u8, 41u8]
    } else {
        p
    }
}

fn echo_payload_bytes(p: &Vec<u8>) -> (r: Vec<u8>)
    ensures
        r@ == echo_payload(p@),
{
    if p.len() == 0 {
        let r: Vec<u8> = vec![40u8, 101u8, 109u8, 112u8, 116u8, 121u8, 41u8];
        assert(r@ =~= echo_payload(p@));
        r
    } else {
        copy_bytes(p.as_slice())
    }
}

/// The string of a chosen capability id, or the empty string.
pub open spec fn chosen_id(c: Option<String>) -> Seq<char> {
    match c {
        Some(s) => s@,
        None => Seq::empty(),
    }
}

fn chosen_id_string(c: &Option<String>) -> (r: String)
    ensures
        r@ == chosen_id(*c),
{
    match c {
        Some(s) => s.clone(),
        None => String::new(),
    }
}

/// The daemon's event-loop state.
pub struct MeshState {
    pub identity: AgentIdentity,
    /// Local cards, with their wire encodings, by capability id.
    pub local_cards: Table<String, (CapabilityCard, Vec<u8>)>,
    pub pending_lookups: Table<u64, String>,
    pub pending_card_fetches: Table<u64, String>,
    pub requesters: Table<String, RequesterState>,
    pub providers: Table<String, ProviderState>,
    pub pending_publish_acks: Table<u64, PublishAck>,
    /// Outbound request handles awaiting a PROPOSE.
    pub pending_acl_round1: Table<u64, String>,
    /// Outbound request handles awaiting an INFORM.
    pub pending_acl_round2: Table<u64, String>,
    pub known_peers: Table<String, ()>,
}

/// Nothing more is awaited for a conversation: no outstanding lookups and
/// no card fetches in flight.
pub open spec fn awaiting_nothing(r: RequesterState) -> bool {
    &&& r.outstanding_dht_queries.view().dom() == Set::<u64>::empty()
    &&& r.in_flight_card_fetches.view().dom() == Set::<u64>::empty()
}

/// A fetched card is a candidate: it has facets and they meet the
/// requirements.
pub open spec fn card_passes(required: CapabilityFacets, c: CapabilityCard) -> bool {
    c.facets matches Some(f) && meets_requirements(required, f)
}

/// The fetched cards that pass the facet filter, in fetch order.
pub open spec fn passing_cards(required: CapabilityFacets, cards: Seq<CapabilityCard>) -> Seq<CapabilityCard>
    decreases cards.len(),
{
    if cards.len() == 0 {
        Seq::empty()
    } else {
        passing_cards(required, cards.drop_last()) + if card_passes(required, cards.last()) {
            seq![cards.last()]
        } else {
            Seq::empty()
        }
    }
}

/// The candidates handed to ranking are exactly the fetched cards that pass
/// the facet filter, in fetch order: `passing_cards` is the filter of the
/// fetched cards by `card_passes`. So every passing card is a candidate,
/// whatever the cards before it, and every candidate is a fetched card that
/// passes.
pub proof fn lemma_passing_cards_filter(required: CapabilityFacets, cards: Seq<CapabilityCard>)
    ensures
        passing_cards(required, cards) == cards.filter(|c: CapabilityCard| card_passes(required, c)),
        forall|i: int| 0 <= i < cards.len() && card_passes(required, #[trigger] cards[i])
            ==> passing_cards(required, cards).contains(cards[i]),
        forall|c: CapabilityCard| #[trigger] passing_cards(required, cards).contains(c)
            ==> cards.contains(c) && card_passes(required, c),
    decreases cards.len(),
{
    let pred = |c: CapabilityCard| card_passes(required, c);
    reveal(Seq::filter);
    if cards.len() > 0 {
        let init = cards.drop_last();
        let x = cards.last();
        lemma_passing_cards_filter(required, init);
        let pi = passing_cards(required, init);
        assert(pi == init.filter(pred));
        if card_passes(required, x) {
            assert(passing_cards(required, cards) =~= pi.push(x));
            assert(cards.filter(pred) == init.filter(pred).push(x));
        } else {
            assert(passing_cards(required, cards) =~= pi);
            assert(cards.filter(pred) == init.filter(pred));
        }
        assert forall|i: int| 0 <= i < cards.len() && card_passes(required, #[trigger] cards[i])
            implies passing_cards(required, cards).contains(cards[i]) by {
            if i < cards.len() - 1 {
                assert(init[i] == cards[i]);
                let k = choose|k: int| 0 <= k < pi.len() && pi[k] == init[i];
                assert(passing_cards(required, cards)[k] == cards[i]);
            } else {
                assert(passing_cards(required, cards)[passing_cards(required, cards).len() - 1] == x);
            }
        }
        assert forall|c: CapabilityCard| #[trigger] passing_cards(required, cards).contains(c)
            implies cards.contains(c) && card_passes(required, c) by {
            let k = choose|k: int| 0 <= k < passing_cards(required, cards).len() && passing_cards(required, cards)[k] == c;
            if k < pi.len() {
                assert(pi[k] == c);
                assert(pi.contains(c));
                let m = choose|m: int| 0 <= m < init.len() && init[m] == c;
                assert(cards[m] == c);
            } else {
                assert(c == x);
                assert(cards[cards.len() - 1] == x);
            }
        }
    } else {
        assert(passing_cards(required, cards) =~= cards.filter(pred));
    }
}

/// A directory hit that leads to a card fetch: the lookup is pending, the
/// record decoded, is for the canonical model, verifies, and names a
/// capability its conversation has not seen.
pub open spec fn hit_accepted(s: MeshState, query: u64, record: Option<DirectoryRecord>) -> bool {
    &&& s.pending_lookups.view().contains_key(query)
    &&& record matches Some(d)
    &&& d.model_id@ == canonical_model_id()
    &&& record_valid(d)
    &&& s.requesters.view().contains_key(s.pending_lookups.view()[query]@)
    &&& !s.requesters.view()[s.pending_lookups.view()[query]@].seen_capability_ids.view().contains_key(d.capability_id@)
}

/// A capability's card is fetched at most once per conversation: an
/// accepted directory hit records the capability as seen (`record_found`),
/// and a later hit naming a capability its conversation has seen is not
/// accepted, so it fetches nothing.
pub proof fn lemma_card_fetched_once(s: MeshState, query: u64, d: DirectoryRecord)
    requires
        s.pending_lookups.view().contains_key(query),
        s.requesters.view().contains_key(s.pending_lookups.view()[query]@),
        s.requesters.view()[s.pending_lookups.view()[query]@].seen_capability_ids.view().contains_key(d.capability_id@),
    ensures
        !hit_accepted(s, query, Some(d)),
{
}

/// A conversation is ready to rank its candidates: it exists, has not sent
/// its request, and awaits nothing.
pub open spec fn ready_to_rank(m: Map<Seq<char>, RequesterState>, conv: Seq<char>) -> bool {
    &&& m.contains_key(conv)
    &&& !m[conv].request_sent
    &&& awaiting_nothing(m[conv])
}

/// The effect of `take_candidates` on conversation `conv`, given the
/// conversations before (`m0`) and after (`m1`), the actions and the
/// candidates.
pub open spec fn took_candidates(m0: Map<Seq<char>, RequesterState>, m1: Map<Seq<char>, RequesterState>, conv: Seq<char>, actions: Seq<Action>, out: Option<Candidates>) -> bool {
    if !ready_to_rank(m0, conv) {
        &&& m1 == m0
        &&& actions.len() == 0
        &&& out is None
    } else {
        let r = m0[conv];
        let passing = passing_cards(r.required, r.fetched_cards@);
        if passing.len() == 0 {
            &&& m1 == m0.remove(conv)
            &&& out is None
            &&& r.awaiting_reply ==> actions.len() == 1 && (actions[0] matches Action::ReplyIntent { conversation_id, result }
                && conversation_id@ == conv && (result matches Err(m) && m@ == "no matching capability"@))
            &&& !r.awaiting_reply ==> actions.len() == 0
        } else {
            let after = m1[conv];
            &&& m1.dom() == m0.dom()
            &&& forall|c: Seq<char>| c != conv && #[trigger] m0.contains_key(c)
                ==> m1[c] == m0[c]
            &&& after.fetched_cards@.len() == 0
            &&& after.outstanding_dht_queries == r.outstanding_dht_queries
            &&& after.in_flight_card_fetches == r.in_flight_card_fetches
            &&& after.seen_capability_ids == r.seen_capability_ids
            &&& after.request_sent == r.request_sent
            &&& after.awaiting_reply == r.awaiting_reply
            &&& after.required == r.required
            &&& after.intent == r.intent
            &&& after.query_vector == r.query_vector
            &&& actions.len() == 0
            &&& out matches Some(c)
            &&& c.conversation_id@ == conv
            &&& c.query_vector@ == r.query_vector@
            &&& c.passing@ == passing
        }
    }
}

/// Two states of a conversation that agree on everything but its
/// progress: outstanding lookups, card fetches in flight, fetched cards.
pub open spec fn same_apart_from_progress(a: RequesterState, b: RequesterState) -> bool {
    &&& a.conversation_id == b.conversation_id
    &&& a.required == b.required
    &&& a.query_vector == b.query_vector
    &&& a.intent == b.intent
    &&& a.seen_capability_ids == b.seen_capability_ids
    &&& a.request_sent == b.request_sent
    &&& a.provider_peer == b.provider_peer
    &&& a.chosen_capability_id == b.chosen_capability_id
    &&& a.chosen_score == b.chosen_score
    &&& a.awaiting_reply == b.awaiting_reply
}

/// `m1` is `m0` with lookup `query` no longer outstanding for `conv`.
pub open spec fn lookup_retired(m0: Map<Seq<char>, RequesterState>, m1: Map<Seq<char>, RequesterState>, conv: Seq<char>, query: u64) -> bool {
    &&& m1.dom() == m0.dom()
    &&& forall|c: Seq<char>| c != conv && #[trigger] m0.contains_key(c) ==> m1[c] == m0[c]
    &&& m0.contains_key(conv) ==> {
        &&& same_apart_from_progress(m0[conv], m1[conv])
        &&& m1[conv].outstanding_dht_queries.view() == m0[conv].outstanding_dht_queries.view().remove(query)
        &&& m1[conv].in_flight_card_fetches == m0[conv].in_flight_card_fetches
        &&& m1[conv].fetched_cards == m0[conv].fetched_cards
    }
}

/// `m1` is `m0` with card fetch `request` of `conv` answered by `card`: the
/// fetch is no longer in flight, and a card that verifies joins the
/// fetched cards.
pub open spec fn card_arrived(m0: Map<Seq<char>, RequesterState>, m1: Map<Seq<char>, RequesterState>, conv: Seq<char>, request: u64, card: Option<CapabilityCard>) -> bool {
    &&& m1.dom() == m0.dom()
    &&& forall|c: Seq<char>| c != conv && #[trigger] m0.contains_key(c) ==> m1[c] == m0[c]
    &&& m0.contains_key(conv) ==> {
        &&& same_apart_from_progress(m0[conv], m1[conv])
        &&& m1[conv].in_flight_card_fetches.view() == m0[conv].in_flight_card_fetches.view().remove(request)
        &&& m1[conv].outstanding_dht_queries == m0[conv].outstanding_dht_queries
        &&& m1[conv].fetched_cards@ == m0[conv].fetched_cards@ + if card is Some && card_fault(card->0) is None {
            seq![card->0]
        } else {
            Seq::empty()
        }
    }
}

/// A put with handle `query` acknowledges a publication: it is the put a
/// publisher waits on (the others of the publication only count).
pub open spec fn acknowledges(acks: Map<u64, PublishAck>, query: u64) -> bool {
    acks.contains_key(query) && acks[query].remaining > 0
}

/// A publication of `capability_id` whose puts have the distinct handles
/// `queries` is acknowledged by its last put alone, which reports all of its
/// records: given the bookkeeping `publish_started` leaves, the earlier puts
/// acknowledge nothing, and the last one acknowledges the publication with
/// `queries.len()` records. `publish_started` requires the handles to be
/// distinct and ensures this bookkeeping; `put_record_finished` retires each
/// handle, so each put is acknowledged at most once.
pub proof fn lemma_publication_acknowledged_by_last_put(
    acks: Map<u64, PublishAck>,
    capability_id: Seq<char>,
    queries: Seq<u64>,
)
    requires
        queries.len() > 0,
        queries.no_duplicates(),
        forall|q: u64| queries.contains(q) ==> #[trigger] acks.contains_key(q),
        forall|i: int| 0 <= i < queries.len() - 1 ==> {
            let a = #[trigger] acks[queries[i]];
            a.remaining == 0 && a.cap_id@.len() == 0
        },
        acks[queries.last()].remaining == queries.len() && acks[queries.last()].cap_id@ == capability_id,
    ensures
        forall|i: int| 0 <= i < queries.len() - 1 ==> !acknowledges(acks, #[trigger] queries[i]),
        acknowledges(acks, queries.last()),
        acks[queries.last()].remaining == queries.len(),
        acks[queries.last()].cap_id@ == capability_id,
{
    assert(queries.contains(queries.last())) by {
        assert(queries[queries.len() - 1] == queries.last());
    }
}

/// The intent an envelope carries, if its payload is one.
pub open spec fn carried_intent(p: Option<Payload>) -> Option<Intent> {
    match p {
        Some(Payload::Intent(i)) => Some(i),
        _ => None,
    }
}

/// An empty reply: nothing to send or perform.
pub open spec fn no_reply(r: AclReply) -> bool {
    &&& r.response is None
    &&& r.actions@.len() == 0
}

/// The provider's answer to a valid REQUEST carrying intent `i` from
/// `peer`: a signed PROPOSE of one of its local capabilities, priced
/// `echo`, and the conversation remembered with the payload to echo.
pub open spec fn proposed(s0: MeshState, s1: MeshState, peer: Seq<char>, msg: AclMessage, i: Intent, r: AclReply) -> bool {
    let conv = msg.conversation_id@;
    &&& r.response matches Some(m)
    &&& m.payload matches Some(Payload::Proposal(p))
    &&& envelope_of(m, s0.identity@, conv, Performative::Propose, msg.ontology@, msg.message_id@, Some(Payload::Proposal(p)))
    &&& s0.local_cards.view().contains_key(p.capability_id@)
    &&& p.provider_agent_id@ == key_peer_id(s0.identity@)
    &&& p.quote@ == "echo"@
    &&& p.expires_at_ns == 0
    &&& s1.providers.view().dom() == s0.providers.view().dom().insert(conv)
    &&& forall|c: Seq<char>| c != conv && #[trigger] s0.providers.view().contains_key(c)
        ==> s1.providers.view()[c] == s0.providers.view()[c]
    &&& s1.providers.view()[conv].requester_peer@ == peer
    &&& s1.providers.view()[conv].capability_id@ == p.capability_id@
    &&& s1.providers.view()[conv].intent_payload@ == echo_payload(i.payload@)
    &&& r.actions@.len() == 0
}

/// The provider's answer to a valid AGREE for a proposed conversation: a
/// signed INFORM echoing the payload with status OK, and its own receipt
/// to persist.
pub open spec fn informed(s0: MeshState, msg: AclMessage, r: AclReply) -> bool {
    let conv = msg.conversation_id@;
    let prov = s0.providers.view()[conv];
    &&& r.response matches Some(m)
    &&& m.payload matches Some(Payload::Result(t))
    &&& envelope_of(m, s0.identity@, conv, Performative::Inform, echo_ontology(), msg.message_id@, Some(Payload::Result(t)))
    &&& t.conversation_id@ == conv
    &&& t.payload@ == prov.intent_payload@
    &&& t.status == RESULT_STATUS_OK
    &&& t.error_message@.len() == 0
    &&& r.actions@.len() == 1
    &&& r.actions@[0] matches Action::StoreReceipt { receipt, counterparty_signature }
    &&& counterparty_signature is None
    &&& receipt_issued_by(receipt, s0.identity@)
    &&& receipt.conversation_id@ == conv
    &&& receipt.capability_id@ == prov.capability_id@
    &&& receipt.requester_peer_id@ == prov.requester_peer@
    &&& receipt.provider_peer_id@ == key_peer_id(s0.identity@)
    &&& receipt.status == RESULT_STATUS_OK
}

/// The outcome reported for a completed conversation `conv` whose
/// requester state was `r`.
pub open spec fn outcome_of(o: IntentOutcome, conv: Seq<char>, r: RequesterState) -> bool {
    &&& o.conversation_id@ == conv
    &&& o.matched_capability_id@ == chosen_id(r.chosen_capability_id)
    &&& o.cosine_score == r.chosen_score
}

/// The requester's AGREE for conversation `conv` after a PROPOSE `msg`:
/// signed, in reply to the proposal, naming the chosen capability, and
/// sent to the chosen provider.
pub open spec fn agreed(s0: MeshState, conv: Seq<char>, msg: AclMessage, a: Seq<Action>) -> bool {
    let r = s0.requesters.view()[conv];
    &&& a.len() == 1
    &&& a[0] matches Action::SendAclRequest { peer, message, round, conversation_id }
    &&& r.provider_peer matches Some(p) && peer@ == p@
    &&& round == 2
    &&& conversation_id@ == conv
    &&& message.payload matches Some(Payload::Agreement(g))
    &&& envelope_of(message, s0.identity@, conv, Performative::Agree, echo_ontology(), msg.message_id@, Some(Payload::Agreement(g)))
    &&& g.conversation_id@ == conv
    &&& g.capability_id@ == chosen_id(r.chosen_capability_id)
}

/// What completing conversation `conv` on an INFORM `msg` from provider
/// `peer` performs: persist the requester's receipt with the provider's
/// signature, answer the submitter if it still waits, and announce the
/// outcome.
pub open spec fn completed(s0: MeshState, peer: Seq<char>, conv: Seq<char>, msg: AclMessage, a: Seq<Action>) -> bool {
    let r = s0.requesters.view()[conv];
    &&& a.len() >= 2
    &&& a[0] matches Action::StoreReceipt { receipt, counterparty_signature }
    &&& counterparty_signature matches Some(sig) && sig@ == msg.signature@
    &&& receipt_issued_by(receipt, s0.identity@)
    &&& receipt.conversation_id@ == conv
    &&& receipt.capability_id@ == chosen_id(r.chosen_capability_id)
    &&& receipt.requester_peer_id@ == key_peer_id(s0.identity@)
    &&& receipt.provider_peer_id@ == peer
    &&& receipt.status == RESULT_STATUS_OK
    &&& a.last() matches Action::Emit(Notice::IntentCompleted(o)) && outcome_of(o, conv, r)
    &&& r.awaiting_reply ==> a.len() == 3 && (a[1] matches Action::ReplyIntent { conversation_id, result }
        && conversation_id@ == conv && (result matches Ok(o) && outcome_of(o, conv, r)))
    &&& !r.awaiting_reply ==> a.len() == 2
}

impl MeshState {
    /// A fresh state for an identity: no cards, conversations or peers.
    pub fn new(identity: AgentIdentity) -> (s: MeshState)
        ensures
            s.identity@ == identity@,
            s.local_cards.view() == Map::<Seq<char>, (CapabilityCard, Vec<u8>)>::empty(),
            s.requesters.view() == Map::<Seq<char>, RequesterState>::empty(),
            s.providers.view() == Map::<Seq<char>, ProviderState>::empty(),
            s.known_peers.view() == Map::<Seq<char>, ()>::empty(),
    {
        MeshState {
            identity,
            local_cards: Table::new(),
            pending_lookups: Table::new(),
            pending_card_fetches: Table::new(),
            requesters: Table::new(),
            providers: Table::new(),
            pending_publish_acks: Table::new(),
            pending_acl_round1: Table::new(),
            pending_acl_round2: Table::new(),
            known_peers: Table::new(),
        }
    }

    /// A peer entered the routing table. It is announced the first time.
    pub fn routing_updated(&mut self, peer: String, is_new_peer: bool) -> (actions: Vec<Action>)
        ensures
            (is_new_peer && !old(self).known_peers.view().contains_key(peer@)) ==> (
                final(self).known_peers.view() == old(self).known_peers.view().insert(peer@, ())
                && actions@.len() == 1 && (actions@[0] matches Action::Emit(Notice::PeerDiscovered(p)) && p@ == peer@)),
            !(is_new_peer && !old(self).known_peers.view().contains_key(peer@)) ==> (
                final(self).known_peers.view() == old(self).known_peers.view() && actions@.len() == 0),
            peer_step(old(self).known_peers.view(), final(self).known_peers.view(), announced_peer(actions@)),
            final(self).identity@ == old(self).identity@,
            final(self).local_cards.view() == old(self).local_cards.view(),
            final(self).pending_lookups.view() == old(self).pending_lookups.view(),
            final(self).pending_card_fetches.view() == old(self).pending_card_fetches.view(),
            final(self).requesters.view() == old(self).requesters.view(),
            final(self).providers.view() == old(self).providers.view(),
            final(self).pending_publish_acks.view() == old(self).pending_publish_acks.view(),
            final(self).pending_acl_round1.view() == old(self).pending_acl_round1.view(),
            final(self).pending_acl_round2.view() == old(self).pending_acl_round2.view(),
    {
        let mut actions: Vec<Action> = Vec::new();
        if is_new_peer && !self.known_peers.contains(&peer) {
            let announced = peer.clone();
            self.known_peers.insert(peer, ());
            actions.push(Action::Emit(Notice::PeerDiscovered(announced)));
        }
        actions
    }

    /// Publish a local card: verify it, build its directory records from
    /// the embedding's table signatures, and keep the card (with its wire
    /// encoding) to serve fetches. Nothing changes when the card is invalid.
    pub fn publish(&mut self, card: CapabilityCard, signatures: &Vec<Vec<u8>>) -> (res: Result<Vec<crate::directory::DirectoryPublication>, Error>)
        ensures
            card_fault(card) is Some ==> (res matches Err(e) && fault_reported(card, e)),
            card_fault(card) is None ==> (res is Ok),
            res is Err ==> final(self).local_cards.view() == old(self).local_cards.view(),
            res matches Ok(pubs) ==> {
                &&& pubs@.len() == signatures@.len()
                &&& forall|i: int| 0 <= i < pubs@.len() ==> publication_for(#[trigger] pubs@[i], card, i as u32,
                    signatures@[i]@, old(self).identity@, RECORD_TTL_NS)
                &&& final(self).local_cards.view().contains_key(card.capability_id@)
                &&& final(self).local_cards.view()[card.capability_id@].0 == card
                &&& final(self).local_cards.view()[card.capability_id@].1@ == card.encoding()
                &&& final(self).local_cards.view() == old(self).local_cards.view().insert(
                    card.capability_id@, final(self).local_cards.view()[card.capability_id@])
            },
            final(self).identity@ == old(self).identity@,
            final(self).known_peers.view() == old(self).known_peers.view(),
            final(self).requesters.view() == old(self).requesters.view(),
            final(self).providers.view() == old(self).providers.view(),
            final(self).pending_publish_acks.view() == old(self).pending_publish_acks.view(),
            final(self).pending_lookups.view() == old(self).pending_lookups.view(),
            final(self).pending_card_fetches.view() == old(self).pending_card_fetches.view(),
            final(self).pending_acl_round1.view() == old(self).pending_acl_round1.view(),
            final(self).pending_acl_round2.view() == old(self).pending_acl_round2.view(),
    {
        verify_card(&card)?;
        assert(card.embedding matches Some(e) && (e.vector@.len() as u32) == CANONICAL_EMBEDDING_DIM);
        let publications = build_records(&card, signatures, &self.identity, RECORD_TTL_NS)?;
        let encoding = card.encode();
        let cap_id = card.capability_id.clone();
        self.local_cards.insert(cap_id, (card, encoding));
        Ok(publications)
    }

    /// The puts of a publication were issued with handles `queries`, in
    /// order: the last one acknowledges the publication, the others only
    /// count.
    pub fn publish_started(&mut self, capability_id: String, queries: Vec<u64>)
        requires
            queries@.len() > 0,
            queries@.no_duplicates(),
            queries@.len() <= u32::MAX,
        ensures
            forall|q: u64| #![trigger final(self).pending_publish_acks.view().contains_key(q)]
                !queries@.contains(q) ==> (final(self).pending_publish_acks.view().contains_key(q)
                    == old(self).pending_publish_acks.view().contains_key(q)
                && (old(self).pending_publish_acks.view().contains_key(q) ==>
                    final(self).pending_publish_acks.view()[q] == old(self).pending_publish_acks.view()[q])),
            forall|q: u64| queries@.contains(q) ==> #[trigger] final(self).pending_publish_acks.view().contains_key(q),
            forall|i: int| 0 <= i < queries@.len() - 1 ==> {
                let a = #[trigger] final(self).pending_publish_acks.view()[queries@[i]];
                a.remaining == 0 && a.cap_id@.len() == 0
            },
            ({
                let a = final(self).pending_publish_acks.view()[queries@.last()];
                a.remaining == queries@.len() && a.cap_id@ == capability_id@
            }),
            final(self).local_cards.view() == old(self).local_cards.view(),
            final(self).identity@ == old(self).identity@,
            final(self).known_peers.view() == old(self).known_peers.view(),
            final(self).pending_lookups.view() == old(self).pending_lookups.view(),
            final(self).pending_card_fetches.view() == old(self).pending_card_fetches.view(),
            final(self).requesters.view() == old(self).requesters.view(),
            final(self).providers.view() == old(self).providers.view(),
            final(self).pending_acl_round1.view() == old(self).pending_acl_round1.view(),
            final(self).pending_acl_round2.view() == old(self).pending_acl_round2.view(),
    {
        let n: usize = queries.len();
        let last = queries[n - 1];
        self.pending_publish_acks.insert(last, PublishAck { cap_id: capability_id, remaining: n as u32 });
        let ghost after_last = self.pending_publish_acks.view();
        let mut i: usize = 0;
        while i < n - 1
            invariant
                n == queries@.len(),
                n > 0,
                i <= n - 1,
                last == queries@[n - 1],
                forall|q: u64| #![trigger self.pending_publish_acks.view().contains_key(q)]
                    !queries@.take(i as int).contains(q) ==> (self.pending_publish_acks.view().contains_key(q)
                        == after_last.contains_key(q)
                    && (after_last.contains_key(q) ==> self.pending_publish_acks.view()[q] == after_last[q])),
                forall|q: u64| queries@.take(i as int).contains(q) ==> #[trigger] self.pending_publish_acks.view().contains_key(q),
                forall|j: int| 0 <= j < i ==> {
                    let a = #[trigger] self.pending_publish_acks.view()[queries@[j]];
                    a.remaining == 0 && a.cap_id@.len() == 0
                },
                after_last.contains_key(last),
                self.local_cards.view() == old(self).local_cards.view(),
                self.identity@ == old(self).identity@,
                self.known_peers.view() == old(self).known_peers.view(),
                self.pending_lookups.view() == old(self).pending_lookups.view(),
                self.pending_card_fetches.view() == old(self).pending_card_fetches.view(),
                self.requesters.view() == old(self).requesters.view(),
                self.providers.view() == old(self).providers.view(),
                self.pending_acl_round1.view() == old(self).pending_acl_round1.view(),
                self.pending_acl_round2.view() == old(self).pending_acl_round2.view(),
                forall|q: u64| #![trigger after_last.contains_key(q)] q != last ==> (after_last.contains_key(q)
                    == old(self).pending_publish_acks.view().contains_key(q)
                    && (after_last.contains_key(q) ==> after_last[q] == old(self).pending_publish_acks.view()[q])),
                after_last[last].remaining == n && after_last[last].cap_id@ == capability_id@,
            decreases n - 1 - i,
        {
            let q = queries[i];
            let ghost before = self.pending_publish_acks.view();
            self.pending_publish_acks.insert(q, PublishAck { cap_id: String::new(), remaining: 0 });
            proof {
                assert(queries@.take(i + 1) =~= queries@.take(i as int).push(q));
                assert forall|q2: u64| queries@.take(i + 1).contains(q2) implies #[trigger] self.pending_publish_acks.view().contains_key(q2) by {
                    if q2 != q {
                        let k = choose|k: int| 0 <= k < i + 1 && #[trigger] queries@.take(i + 1)[k] == q2;
                        assert(queries@.take(i as int)[k] == q2);
                    }
                }
                assert forall|j: int| 0 <= j < i + 1 implies {
                    let a = #[trigger] self.pending_publish_acks.view()[queries@[j]];
                    a.remaining == 0 && a.cap_id@.len() == 0
                } by {
                    if queries@[j] != q {
                        assert(before[queries@[j]] == self.pending_publish_acks.view()[queries@[j]]);
                    }
                }
                assert forall|q2: u64| #![trigger self.pending_publish_acks.view().contains_key(q2)]
                    !queries@.take(i + 1).contains(q2) implies (self.pending_publish_acks.view().contains_key(q2)
                        == after_last.contains_key(q2)
                    && (after_last.contains_key(q2) ==> self.pending_publish_acks.view()[q2] == after_last[q2])) by {
                    assert(q2 != q) by {
                        assert(queries@.take(i + 1)[i as int] == q);
                    }
                    if queries@.take(i as int).contains(q2) {
                        let k = choose|k: int| 0 <= k < i && #[trigger] queries@.take(i as int)[k] == q2;
                        assert(queries@.take(i + 1)[k] == q2);
                    }
                }
            }
            i = i + 1;
        }
        proof {
            assert(queries@.take((n - 1) as int) =~= queries@.drop_last());
            assert(queries@.last() == last);
            assert(!queries@.drop_last().contains(last)) by {
                if queries@.drop_last().contains(last) {
                    let k = choose|k: int| 0 <= k < n - 1 && #[trigger] queries@.drop_last()[k] == last;
                    assert(queries@[k] == queries@[n - 1]);
                }
            }
            assert(self.pending_publish_acks.view().contains_key(last) == after_last.contains_key(last));
            assert forall|q: u64| queries@.contains(q) implies #[trigger] self.pending_publish_acks.view().contains_key(q) by {
                let k = choose|k: int| 0 <= k < n && #[trigger] queries@[k] == q;
                if k < n - 1 {
                    assert(queries@.drop_last()[k] == q);
                } else if !queries@.drop_last().contains(q) {
                }
            }
            assert forall|q: u64| #![trigger self.pending_publish_acks.view().contains_key(q)]
                !queries@.contains(q) implies (self.pending_publish_acks.view().contains_key(q)
                    == old(self).pending_publish_acks.view().contains_key(q)
                && (old(self).pending_publish_acks.view().contains_key(q) ==>
                    self.pending_publish_acks.view()[q] == old(self).pending_publish_acks.view()[q])) by {
                assert(q != last) by {
                    assert(queries@[n - 1] == last);
                }
                if queries@.drop_last().contains(q) {
                    let k = choose|k: int| 0 <= k < n - 1 && #[trigger] queries@.drop_last()[k] == q;
                    assert(queries@[k] == q);
                }
                assert(!queries@.take((n - 1) as int).contains(q));
                assert(self.pending_publish_acks.view().contains_key(q) == after_last.contains_key(q));
                assert(after_last.contains_key(q) == old(self).pending_publish_acks.view().contains_key(q));
            }
        }
    }

    /// A put finished (`error`: its failure). A successful put is counted;
    /// the publication it acknowledges, if any, is answered once.
    pub fn put_record_finished(&mut self, query: u64, error: Option<String>) -> (actions: Vec<Action>)
        ensures
            final(self).pending_publish_acks.view() == old(self).pending_publish_acks.view().remove(query),
            ({
                let acked = acknowledges(old(self).pending_publish_acks.view(), query);
                let ack = old(self).pending_publish_acks.view()[query];
                match error {
                    None => if acked {
                        actions@.len() == 3 && actions@[0] is CountRecordPublished
                        && (actions@[1] matches Action::ReplyPublish { query: q, error: e } && q == query && e is None)
                        && (actions@[2] matches Action::Emit(Notice::CapabilityPublished { capability_id, record_count })
                            && capability_id@ == ack.cap_id@ && record_count == ack.remaining)
                    } else {
                        actions@.len() == 1 && actions@[0] is CountRecordPublished
                    },
                    Some(msg) => if acked {
                        actions@.len() == 1 && (actions@[0] matches Action::ReplyPublish { query: q, error: Some(e) }
                            && q == query && e@ == msg@)
                    } else {
                        actions@.len() == 0
                    },
                }
            }),
            final(self).local_cards.view() == old(self).local_cards.view(),
            final(self).requesters.view() == old(self).requesters.view(),
            final(self).identity@ == old(self).identity@,
            final(self).known_peers.view() == old(self).known_peers.view(),
            final(self).pending_lookups.view() == old(self).pending_lookups.view(),
            final(self).pending_card_fetches.view() == old(self).pending_card_fetches.view(),
            final(self).providers.view() == old(self).providers.view(),
            final(self).pending_acl_round1.view() == old(self).pending_acl_round1.view(),
            final(self).pending_acl_round2.view() == old(self).pending_acl_round2.view(),
    {
        let mut actions: Vec<Action> = Vec::new();
        if error.is_none() {
            actions.push(Action::CountRecordPublished);
        }
        let ack = self.pending_publish_acks.remove(&query);
        match ack {
            Some(a) => {
                if a.remaining > 0 {
                    match error {
                        None => {
                            actions.push(Action::ReplyPublish { query, error: None });
                            actions.push(Action::Emit(Notice::CapabilityPublished { capability_id: a.cap_id, record_count: a.remaining }));
                        },
                        Some(e) => {
                            actions.push(Action::ReplyPublish { query, error: Some(e) });
                        },
                    }
                }
            },
            None => {},
        }
        actions
    }

    /// DHT keys to look up for an intent: one per LSH table, from the
    /// fingerprint of the required facets and the query's table signatures.
    pub fn intent_keys(required: &CapabilityFacets, signatures: &Vec<Vec<u8>>) -> (keys: Vec<(u32, Vec<u8>)>)
        ensures
            keys@.len() == signatures@.len(),
            forall|i: int| 0 <= i < keys@.len() ==> (#[trigger] keys@[i]).0 == i as u32
                && keys@[i].1@ == crate::directory::dht_key_bytes(facet_fingerprint(*required), canonical_model_id(), i as u32, signatures@[i]@),
    {
        let fp = fingerprint(required);
        lookup_keys(&fp, signatures)
    }

    /// An intent's lookups were issued with handles `queries`: open the
    /// conversation, awaiting those lookups.
    pub fn register_intent(
        &mut self,
        conversation_id: String,
        required: CapabilityFacets,
        query_vector: Vec<u32>,
        intent: Intent,
        queries: Vec<u64>,
    )
        ensures
            final(self).requesters.view().dom() == old(self).requesters.view().dom().insert(conversation_id@),
            forall|c: Seq<char>| c != conversation_id@ && #[trigger] old(self).requesters.view().contains_key(c)
                ==> final(self).requesters.view()[c] == old(self).requesters.view()[c],
            ({
                let r = final(self).requesters.view()[conversation_id@];
                &&& r.conversation_id@ == conversation_id@
                &&& r.required == required
                &&& r.query_vector@ == query_vector@
                &&& r.intent == intent
                &&& r.outstanding_dht_queries.view().dom() == queries@.to_set()
                &&& r.fetched_cards@.len() == 0
                &&& r.seen_capability_ids.view().dom() == Set::<Seq<char>>::empty()
                &&& r.in_flight_card_fetches.view().dom() == Set::<u64>::empty()
                &&& !r.request_sent
                &&& r.provider_peer is None
                &&& r.chosen_capability_id is None
                &&& r.awaiting_reply
            }),
            forall|q: u64| #![trigger final(self).pending_lookups.view().contains_key(q)] queries@.contains(q) ==>
                final(self).pending_lookups.view().contains_key(q) && final(self).pending_lookups.view()[q]@ == conversation_id@,
            forall|q: u64| #![trigger final(self).pending_lookups.view().contains_key(q)] !queries@.contains(q) ==>
                final(self).pending_lookups.view().contains_key(q) == old(self).pending_lookups.view().contains_key(q)
                && final(self).pending_lookups.view()[q] == old(self).pending_lookups.view()[q],
            final(self).local_cards.view() == old(self).local_cards.view(),
            final(self).identity@ == old(self).identity@,
            final(self).known_peers.view() == old(self).known_peers.view(),
            final(self).pending_card_fetches.view() == old(self).pending_card_fetches.view(),
            final(self).providers.view() == old(self).providers.view(),
            final(self).pending_publish_acks.view() == old(self).pending_publish_acks.view(),
            final(self).pending_acl_round1.view() == old(self).pending_acl_round1.view(),
            final(self).pending_acl_round2.view() == old(self).pending_acl_round2.view(),
    {
        let mut outstanding: Table<u64, ()> = Table::new();
        let mut i: usize = 0;
        while i < queries.len()
            invariant
                i <= queries@.len(),
                outstanding.view().dom() == queries@.take(i as int).to_set(),
                forall|q: u64| #![trigger self.pending_lookups.view().contains_key(q)] queries@.take(i as int).contains(q) ==>
                    self.pending_lookups.view().contains_key(q) && self.pending_lookups.view()[q]@ == conversation_id@,
                forall|q: u64| #![trigger self.pending_lookups.view().contains_key(q)] !queries@.take(i as int).contains(q) ==>
                    self.pending_lookups.view().contains_key(q) == old(self).pending_lookups.view().contains_key(q)
                    && self.pending_lookups.view()[q] == old(self).pending_lookups.view()[q],
                self.requesters.view() == old(self).requesters.view(),
                self.local_cards.view() == old(self).local_cards.view(),
                self.identity@ == old(self).identity@,
                self.known_peers.view() == old(self).known_peers.view(),
                self.pending_card_fetches.view() == old(self).pending_card_fetches.view(),
                self.providers.view() == old(self).providers.view(),
                self.pending_publish_acks.view() == old(self).pending_publish_acks.view(),
                self.pending_acl_round1.view() == old(self).pending_acl_round1.view(),
                self.pending_acl_round2.view() == old(self).pending_acl_round2.view(),
            decreases queries@.len() - i,
        {
            let q = queries[i];
            let ghost before = self.pending_lookups.view();
            self.pending_lookups.insert(q, conversation_id.clone());
            outstanding.insert(q, ());
            proof {
                let t0 = queries@.take(i as int);
                let t1 = queries@.take(i + 1);
                assert(t1 =~= t0.push(q));
                assert forall|x: u64| t1.contains(x) <==> (x == q || t0.contains(x)) by {
                    if x == q {
                        assert(t1[i as int] == q);
                    }
                    if t0.contains(x) {
                        let k = choose|k: int| 0 <= k < t0.len() && #[trigger] t0[k] == x;
                        assert(t1[k] == x);
                    }
                    if t1.contains(x) && x != q {
                        let k = choose|k: int| 0 <= k < t1.len() && #[trigger] t1[k] == x;
                        assert(t0[k] == x);
                    }
                }
                assert(outstanding.view().dom() =~= t1.to_set());
                assert forall|x: u64| #![trigger self.pending_lookups.view().contains_key(x)] t1.contains(x) implies
                    self.pending_lookups.view().contains_key(x) && self.pending_lookups.view()[x]@ == conversation_id@ by {
                    if x != q {
                        assert(before.contains_key(x));
                    }
                }
                assert forall|x: u64| #![trigger self.pending_lookups.view().contains_key(x)] !t1.contains(x) implies
                    self.pending_lookups.view().contains_key(x) == old(self).pending_lookups.view().contains_key(x)
                    && self.pending_lookups.view()[x] == old(self).pending_lookups.view()[x] by {
                    assert(before.contains_key(x) == old(self).pending_lookups.view().contains_key(x));
                }
            }
            i = i + 1;
        }
        assert(queries@.take(queries@.len() as int) =~= queries@);
        let state = RequesterState {
            conversation_id: conversation_id.clone(),
            required,
            query_vector,
            intent,
            outstanding_dht_queries: outstanding,
            fetched_cards: Vec::new(),
            seen_capability_ids: Table::new(),
            in_flight_card_fetches: Table::new(),
            request_sent: false,
            provider_peer: None,
            chosen_capability_id: None,
            chosen_score: 0,
            awaiting_reply: true,
        };
        self.requesters.insert(conversation_id, state);
        assert(self.requesters.view().dom() =~= old(self).requesters.view().dom().insert(conversation_id@));
    }

    /// A lookup returned a record (`None`: it did not decode). A fresh,
    /// valid record for the canonical model leads to fetching its card from
    /// the publishing peer.
    pub fn record_found(&mut self, query: u64, record: Option<DirectoryRecord>) -> (actions: Vec<Action>)
        ensures
            !hit_accepted(*old(self), query, record) ==> actions@.len() == 0
                && final(self).requesters.view() == old(self).requesters.view(),
            hit_accepted(*old(self), query, record) ==> ({
                let conv = old(self).pending_lookups.view()[query]@;
                let d = record->0;
                let before = old(self).requesters.view()[conv];
                let after = final(self).requesters.view()[conv];
                &&& final(self).requesters.view().dom() == old(self).requesters.view().dom()
                &&& forall|c: Seq<char>| c != conv && #[trigger] old(self).requesters.view().contains_key(c)
                    ==> final(self).requesters.view()[c] == old(self).requesters.view()[c]
                &&& after.seen_capability_ids.view() == before.seen_capability_ids.view().insert(d.capability_id@, ())
                &&& after.outstanding_dht_queries == before.outstanding_dht_queries
                &&& after.in_flight_card_fetches == before.in_flight_card_fetches
                &&& after.fetched_cards == before.fetched_cards
                &&& after.request_sent == before.request_sent
                &&& after.awaiting_reply == before.awaiting_reply
                &&& after.required == before.required
                &&& after.intent == before.intent
                &&& actions@.len() == 1
                &&& actions@[0] matches Action::SendCardRequest { peer, capability_id, conversation_id }
                &&& parsed_peer_id(d.peer_id@) == Some(peer@)
                &&& capability_id@ == d.capability_id@
                &&& conversation_id@ == conv
            }),
            final(self).pending_lookups.view() == old(self).pending_lookups.view(),
            final(self).local_cards.view() == old(self).local_cards.view(),
            final(self).identity@ == old(self).identity@,
            final(self).known_peers.view() == old(self).known_peers.view(),
            final(self).pending_card_fetches.view() == old(self).pending_card_fetches.view(),
            final(self).providers.view() == old(self).providers.view(),
            final(self).pending_publish_acks.view() == old(self).pending_publish_acks.view(),
            final(self).pending_acl_round1.view() == old(self).pending_acl_round1.view(),
            final(self).pending_acl_round2.view() == old(self).pending_acl_round2.view(),
    {
        let mut actions: Vec<Action> = Vec::new();
        let conv = match self.pending_lookups.get(&query) {
            Some(c) => c.clone(),
            None => {
                return actions;
            },
        };
        let dir = match record {
            Some(d) => d,
            None => {
                return actions;
            },
        };
        let canonical = canonical_model_id_string();
        if dir.model_id != canonical {
            return actions;
        }
        if verify_record(&dir).is_err() {
            return actions;
        }
        let mut req = match self.requesters.remove(&conv) {
            Some(r) => r,
            None => {
                return actions;
            },
        };
        if req.seen_capability_ids.contains(&dir.capability_id) {
            self.requesters.insert(conv, req);
            assert(self.requesters.view() =~= old(self).requesters.view());
            return actions;
        }
        req.seen_capability_ids.insert(dir.capability_id.clone(), ());
        match parse_peer_id(dir.peer_id.as_str()) {
            Some(peer) => {
                actions.push(Action::SendCardRequest {
                    peer,
                    capability_id: dir.capability_id.clone(),
                    conversation_id: conv.clone(),
                });
            },
            None => {},
        }
        self.requesters.insert(conv, req);
        assert(self.requesters.view().dom() =~= old(self).requesters.view().dom());
        actions
    }

    /// The card fetch of a conversation was issued with handle `request`.
    pub fn card_fetch_started(&mut self, request: u64, conversation_id: String)
        ensures
            final(self).pending_card_fetches.view() == old(self).pending_card_fetches.view().insert(request, conversation_id),
            final(self).requesters.view().dom() == old(self).requesters.view().dom(),
            forall|c: Seq<char>| c != conversation_id@ && #[trigger] old(self).requesters.view().contains_key(c)
                ==> final(self).requesters.view()[c] == old(self).requesters.view()[c],
            old(self).requesters.view().contains_key(conversation_id@) ==> ({
                let before = old(self).requesters.view()[conversation_id@];
                let after = final(self).requesters.view()[conversation_id@];
                &&& after.in_flight_card_fetches.view() == before.in_flight_card_fetches.view().insert(request, ())
                &&& after.outstanding_dht_queries == before.outstanding_dht_queries
                &&& after.seen_capability_ids == before.seen_capability_ids
                &&& after.fetched_cards == before.fetched_cards
                &&& after.request_sent == before.request_sent
                &&& after.awaiting_reply == before.awaiting_reply
            }),
            final(self).local_cards.view() == old(self).local_cards.view(),
            final(self).identity@ == old(self).identity@,
            final(self).known_peers.view() == old(self).known_peers.view(),
            final(self).pending_lookups.view() == old(self).pending_lookups.view(),
            final(self).providers.view() == old(self).providers.view(),
            final(self).pending_publish_acks.view() == old(self).pending_publish_acks.view(),
            final(self).pending_acl_round1.view() == old(self).pending_acl_round1.view(),
            final(self).pending_acl_round2.view() == old(self).pending_acl_round2.view(),
    {
        match self.requesters.remove(&conversation_id) {
            Some(mut req) => {
                req.in_flight_card_fetches.insert(request, ());
                self.requesters.insert(conversation_id.clone(), req);
                assert(self.requesters.view().dom() =~= old(self).requesters.view().dom());
            },
            None => {
                assert(self.requesters.view() =~= old(self).requesters.view());
            },
        }
        self.pending_card_fetches.insert(request, conversation_id);
    }

    /// Once a conversation awaits nothing and has not sent its request,
    /// filter its fetched cards: the passing ones are handed out for
    /// ranking; with none, the submitter is told there is no match and the
    /// conversation ends.
    pub fn take_candidates(&mut self, conversation_id: &String) -> (res: (Vec<Action>, Option<Candidates>))
        ensures
            took_candidates(old(self).requesters.view(), final(self).requesters.view(), conversation_id@, res.0@, res.1),
            final(self).pending_lookups.view() == old(self).pending_lookups.view(),
            final(self).pending_card_fetches.view() == old(self).pending_card_fetches.view(),
            final(self).local_cards.view() == old(self).local_cards.view(),
            final(self).identity@ == old(self).identity@,
            final(self).known_peers.view() == old(self).known_peers.view(),
            final(self).providers.view() == old(self).providers.view(),
            final(self).pending_publish_acks.view() == old(self).pending_publish_acks.view(),
            final(self).pending_acl_round1.view() == old(self).pending_acl_round1.view(),
            final(self).pending_acl_round2.view() == old(self).pending_acl_round2.view(),
    {
        let mut actions: Vec<Action> = Vec::new();
        let mut req = match self.requesters.remove(conversation_id) {
            Some(r) => r,
            None => {
                assert(self.requesters.view() =~= old(self).requesters.view());
                return (actions, None);
            },
        };
        let ghost r0 = req;
        if req.request_sent || !req.outstanding_dht_queries.is_empty() || !req.in_flight_card_fetches.is_empty() {
            self.requesters.insert(conversation_id.clone(), req);
            assert(self.requesters.view() =~= old(self).requesters.view());
            return (actions, None);
        }
        let mut cards: Vec<CapabilityCard> = Vec::new();
        std::mem::swap(&mut cards, &mut req.fetched_cards);
        let ghost all = cards@;
        assert(all.len() == cards.len());
        let mut passing: Vec<CapabilityCard> = Vec::new();
        let mut k: usize = 0;
        assert(all.skip(0) =~= all);
        assert(all.take(0) =~= Seq::<CapabilityCard>::empty());
        while cards.len() > 0
            invariant
                k <= all.len(),
                all.len() <= usize::MAX,
                cards@ == all.skip(k as int),
                passing@ == passing_cards(r0.required, all.take(k as int)),
                req.required == r0.required,
            decreases cards@.len(),
        {
            let c = cards.remove(0);
            let keep = match &c.facets {
                Some(f) => facet_filter(&req.required, f).0,
                None => false,
            };
            proof {
                assert(all.skip(k as int)[0] == all[k as int]);
                let next = all.take(k + 1);
                assert(next.drop_last() =~= all.take(k as int));
                assert(next.last() == all[k as int]);
                assert(cards@ =~= all.skip(k + 1));
            }
            if keep {
                passing.push(c);
            }
            k = k + 1;
        }
        assert(all.take(k as int) =~= all);
        if passing.len() == 0 {
            if req.awaiting_reply {
                actions.push(Action::ReplyIntent {
                    conversation_id: conversation_id.clone(),
                    result: Err(String::from_str("no matching capability")),
                });
            }
            return (actions, None);
        }
        let query_vector = crate::wire::copy_words(&req.query_vector);
        self.requesters.insert(conversation_id.clone(), req);
        assert(self.requesters.view().dom() =~= old(self).requesters.view().dom());
        (actions, Some(Candidates { conversation_id: conversation_id.clone(), query_vector, passing }))
    }

    /// A lookup ended without further records: it no longer counts as
    /// outstanding, and the conversation may be ready to rank.
    pub fn lookup_finished(&mut self, query: u64) -> (res: (Vec<Action>, Option<Candidates>))
        ensures
            final(self).pending_lookups.view() == old(self).pending_lookups.view().remove(query),
            !old(self).pending_lookups.view().contains_key(query) ==> res.0@.len() == 0 && res.1 is None
                && final(self).requesters.view() == old(self).requesters.view(),
            old(self).pending_lookups.view().contains_key(query) ==> exists|mid: Map<Seq<char>, RequesterState>|
                #[trigger] lookup_retired(old(self).requesters.view(), mid, old(self).pending_lookups.view()[query]@, query)
                && took_candidates(mid, final(self).requesters.view(), old(self).pending_lookups.view()[query]@, res.0@, res.1),
            final(self).pending_card_fetches.view() == old(self).pending_card_fetches.view(),
            final(self).local_cards.view() == old(self).local_cards.view(),
            final(self).identity@ == old(self).identity@,
            final(self).known_peers.view() == old(self).known_peers.view(),
            final(self).providers.view() == old(self).providers.view(),
            final(self).pending_publish_acks.view() == old(self).pending_publish_acks.view(),
            final(self).pending_acl_round1.view() == old(self).pending_acl_round1.view(),
            final(self).pending_acl_round2.view() == old(self).pending_acl_round2.view(),
    {
        let conv = match self.pending_lookups.remove(&query) {
            Some(c) => c,
            None => {
                return (Vec::new(), None);
            },
        };
        match self.requesters.remove(&conv) {
            Some(mut req) => {
                let _ = req.outstanding_dht_queries.remove(&query);
                self.requesters.insert(conv.clone(), req);
            },
            None => {},
        }
        let ghost mid = self.requesters.view();
        assert(mid.dom() =~= old(self).requesters.view().dom());
        assert(lookup_retired(old(self).requesters.view(), mid, conv@, query));
        self.take_candidates(&conv)
    }

    /// A card fetch answered (`None`: not found). A card that verifies joins
    /// the conversation's fetched cards; once the conversation awaits
    /// nothing more it may be ready to rank.
    pub fn card_received(&mut self, request: u64, card: Option<CapabilityCard>) -> (res: (Vec<Action>, Option<Candidates>))
        ensures
            final(self).pending_card_fetches.view() == old(self).pending_card_fetches.view().remove(request),
            !old(self).pending_card_fetches.view().contains_key(request) ==> res.0@.len() == 0 && res.1 is None
                && final(self).requesters.view() == old(self).requesters.view(),
            old(self).pending_card_fetches.view().contains_key(request) ==> exists|mid: Map<Seq<char>, RequesterState>|
                #[trigger] card_arrived(old(self).requesters.view(), mid, old(self).pending_card_fetches.view()[request]@, request, card)
                && if mid.contains_key(old(self).pending_card_fetches.view()[request]@)
                    && awaiting_nothing(mid[old(self).pending_card_fetches.view()[request]@]) {
                    took_candidates(mid, final(self).requesters.view(), old(self).pending_card_fetches.view()[request]@, res.0@, res.1)
                } else {
                    final(self).requesters.view() == mid && res.0@.len() == 0 && res.1 is None
                },
            final(self).pending_lookups.view() == old(self).pending_lookups.view(),
            final(self).local_cards.view() == old(self).local_cards.view(),
            final(self).identity@ == old(self).identity@,
            final(self).known_peers.view() == old(self).known_peers.view(),
            final(self).providers.view() == old(self).providers.view(),
            final(self).pending_publish_acks.view() == old(self).pending_publish_acks.view(),
            final(self).pending_acl_round1.view() == old(self).pending_acl_round1.view(),
            final(self).pending_acl_round2.view() == old(self).pending_acl_round2.view(),
    {
        let conv = match self.pending_card_fetches.remove(&request) {
            Some(c) => c,
            None => {
                return (Vec::new(), None);
            },
        };
        let ghost m0 = self.requesters.view();
        let ghost card0 = card;
        let mut ready = false;
        match self.requesters.remove(&conv) {
            Some(mut req) => {
                let ghost r0 = req;
                let _ = req.in_flight_card_fetches.remove(&request);
                match card {
                    Some(c) => {
                        if verify_card(&c).is_ok() {
                            req.fetched_cards.push(c);
                        }
                    },
                    None => {},
                }
                assert(req.fetched_cards@ == r0.fetched_cards@ + if card0 is Some && card_fault(card0->0) is None {
                    seq![card0->0]
                } else {
                    Seq::<CapabilityCard>::empty()
                });
                ready = req.outstanding_dht_queries.is_empty() && req.in_flight_card_fetches.is_empty();
                assert(ready == awaiting_nothing(req));
                assert(same_apart_from_progress(r0, req));
                self.requesters.insert(conv.clone(), req);
            },
            None => {
                assert(self.requesters.view() =~= m0);
            },
        }
        let ghost mid = self.requesters.view();
        assert(mid.dom() =~= m0.dom());
        assert(card_arrived(m0, mid, conv@, request, card0));
        assert(ready == (mid.contains_key(conv@) && awaiting_nothing(mid[conv@])));
        if ready {
            self.take_candidates(&conv)
        } else {
            (Vec::new(), None)
        }
    }

    /// Answer a card fetch: the wire encoding of the local card with that
    /// id, or `None` when there is none.
    pub fn serve_card(&self, capability_id: &String) -> (r: Option<Vec<u8>>)
        ensures
            match r {
                Some(b) => self.local_cards.view().contains_key(capability_id@)
                    && b@ == self.local_cards.view()[capability_id@].1@,
                None => !self.local_cards.view().contains_key(capability_id@),
            },
    {
        match self.local_cards.get(capability_id) {
            Some(entry) => Some(copy_bytes(entry.1.as_slice())),
            None => None,
        }
    }

    /// The ACL request of a conversation's `round` (1: REQUEST, 2: AGREE)
    /// was sent with handle `request`.
    pub fn acl_request_sent(&mut self, request: u64, round: u8, conversation_id: String)
        ensures
            round == 1 ==> final(self).pending_acl_round1.view() == old(self).pending_acl_round1.view().insert(request, conversation_id)
                && final(self).pending_acl_round2.view() == old(self).pending_acl_round2.view(),
            round != 1 ==> final(self).pending_acl_round2.view() == old(self).pending_acl_round2.view().insert(request, conversation_id)
                && final(self).pending_acl_round1.view() == old(self).pending_acl_round1.view(),
            final(self).requesters.view() == old(self).requesters.view(),
            final(self).providers.view() == old(self).providers.view(),
            final(self).local_cards.view() == old(self).local_cards.view(),
            final(self).identity@ == old(self).identity@,
            final(self).known_peers.view() == old(self).known_peers.view(),
            final(self).pending_lookups.view() == old(self).pending_lookups.view(),
            final(self).pending_card_fetches.view() == old(self).pending_card_fetches.view(),
            final(self).pending_publish_acks.view() == old(self).pending_publish_acks.view(),
    {
        if round == 1 {
            self.pending_acl_round1.insert(request, conversation_id);
        } else {
            self.pending_acl_round2.insert(request, conversation_id);
        }
    }

    /// Commit a conversation to the top-ranked card: build the signed
    /// REQUEST carrying the intent and record the choice. A conversation
    /// sends at most one REQUEST: once it has, nothing happens.
    pub fn commit_choice(&mut self, conversation_id: &String, card: &CapabilityCard, score: u32) -> (res: Result<Vec<Action>, Error>)
        ensures
            final(self).identity@ == old(self).identity@,
            final(self).known_peers.view() == old(self).known_peers.view(),
            final(self).providers.view() == old(self).providers.view(),
            final(self).local_cards.view() == old(self).local_cards.view(),
            final(self).pending_acl_round1.view() == old(self).pending_acl_round1.view(),
            final(self).pending_acl_round2.view() == old(self).pending_acl_round2.view(),
            !(old(self).requesters.view().contains_key(conversation_id@)
                && !old(self).requesters.view()[conversation_id@].request_sent) ==> (res matches Ok(a) && a@.len() == 0
                && final(self).requesters.view() == old(self).requesters.view()),
            res is Err ==> final(self).requesters.view() == old(self).requesters.view(),
            (old(self).requesters.view().contains_key(conversation_id@)
                && !old(self).requesters.view()[conversation_id@].request_sent
                && parsed_peer_id(card.agent_id@) is None) ==> (res matches Err(Error::InvalidCard(m))
                && m@ == "bad provider peer id"@),
            (old(self).requesters.view().contains_key(conversation_id@)
                && !old(self).requesters.view()[conversation_id@].request_sent
                && parsed_peer_id(card.agent_id@) is Some) ==> (res is Ok),
            (old(self).requesters.view().contains_key(conversation_id@)
                && !old(self).requesters.view()[conversation_id@].request_sent
                && res is Ok) ==> ({
                let conv = conversation_id@;
                let before = old(self).requesters.view()[conv];
                let after = final(self).requesters.view()[conv];
                let a = res->Ok_0@;
                &&& final(self).requesters.view().dom() == old(self).requesters.view().dom()
                &&& forall|c: Seq<char>| c != conv && #[trigger] old(self).requesters.view().contains_key(c)
                    ==> final(self).requesters.view()[c] == old(self).requesters.view()[c]
                &&& after.request_sent
                &&& after.provider_peer matches Some(p) && parsed_peer_id(card.agent_id@) == Some(p@)
                &&& after.chosen_capability_id matches Some(c) && c@ == card.capability_id@
                &&& after.chosen_score == score
                &&& after.outstanding_dht_queries == before.outstanding_dht_queries
                &&& after.in_flight_card_fetches == before.in_flight_card_fetches
                &&& after.seen_capability_ids == before.seen_capability_ids
                &&& after.fetched_cards == before.fetched_cards
                &&& after.awaiting_reply == before.awaiting_reply
                &&& after.required == before.required
                &&& after.intent == before.intent
                &&& a.len() == 2
                &&& a[0] matches Action::CountMatchAccepted { conversation_id: c } && c@ == conv
                &&& a[1] matches Action::SendAclRequest { peer, message, round, conversation_id: c }
                &&& Some(peer@) == parsed_peer_id(card.agent_id@)
                &&& round == 1
                &&& c@ == conv
                &&& envelope_shape(message, old(self).identity@, conv, Performative::Request, echo_ontology(), ""@)
                &&& message.payload matches Some(Payload::Intent(i)) && same_intent(i, before.intent)
            }),
            final(self).pending_lookups.view() == old(self).pending_lookups.view(),
            final(self).pending_card_fetches.view() == old(self).pending_card_fetches.view(),
            final(self).pending_publish_acks.view() == old(self).pending_publish_acks.view(),
    {
        let mut req = match self.requesters.remove(conversation_id) {
            Some(r) => r,
            None => {
                assert(self.requesters.view() =~= old(self).requesters.view());
                return Ok(Vec::new());
            },
        };
        if req.request_sent {
            self.requesters.insert(conversation_id.clone(), req);
            assert(self.requesters.view() =~= old(self).requesters.view());
            return Ok(Vec::new());
        }
        let provider = match parse_peer_id(card.agent_id.as_str()) {
            Some(p) => p,
            None => {
                self.requesters.insert(conversation_id.clone(), req);
                assert(self.requesters.view() =~= old(self).requesters.view());
                return Err(Error::InvalidCard(String::from_str("bad provider peer id")));
            },
        };
        let builder = AclBuilder::new(&self.identity, conversation_id.as_str());
        let msg = match builder.request("code-execution", req.intent.copy()) {
            Ok(m) => m,
            Err(e) => {
                self.requesters.insert(conversation_id.clone(), req);
                assert(self.requesters.view() =~= old(self).requesters.view());
                return Err(e);
            },
        };
        req.request_sent = true;
        req.provider_peer = Some(provider.clone());
        req.chosen_capability_id = Some(card.capability_id.clone());
        req.chosen_score = score;
        self.requesters.insert(conversation_id.clone(), req);
        assert(self.requesters.view().dom() =~= old(self).requesters.view().dom());
        let mut actions: Vec<Action> = Vec::new();
        actions.push(Action::CountMatchAccepted { conversation_id: conversation_id.clone() });
        actions.push(Action::SendAclRequest { peer: provider, message: msg, round: 1, conversation_id: conversation_id.clone() });
        Ok(actions)
    }

    /// Round 1 on the provider side: answer a REQUEST carrying an intent
    /// with a PROPOSE of a local capability.
    fn answer_request(&mut self, peer: String, msg: &AclMessage) -> (res: Result<AclReply, Error>)
        ensures
            final(self).identity@ == old(self).identity@,
            final(self).known_peers.view() == old(self).known_peers.view(),
            final(self).requesters.view() == old(self).requesters.view(),
            final(self).local_cards.view() == old(self).local_cards.view(),
            final(self).pending_acl_round1.view() == old(self).pending_acl_round1.view(),
            final(self).pending_acl_round2.view() == old(self).pending_acl_round2.view(),
            ({
                if carried_intent(msg.payload) is Some && old(self).local_cards.view().dom() != Set::<Seq<char>>::empty() {
                    &&& (res is Ok)
                    &&& res matches Ok(r) ==> proposed(*old(self), *final(self), peer@, *msg, carried_intent(msg.payload)->0, r)
                } else {
                    &&& res matches Ok(r) && no_reply(r)
                    &&& final(self).providers.view() == old(self).providers.view()
                }
            }),
            final(self).pending_lookups.view() == old(self).pending_lookups.view(),
            final(self).pending_card_fetches.view() == old(self).pending_card_fetches.view(),
            final(self).pending_publish_acks.view() == old(self).pending_publish_acks.view(),
    {
        let intent = match &msg.payload {
            Some(Payload::Intent(i)) => i,
            _ => {
                return Ok(AclReply { response: None, actions: Vec::new() });
            },
        };
        let cap_id = match self.local_cards.any_key() {
            Some(k) => k.clone(),
            None => {
                return Ok(AclReply { response: None, actions: Vec::new() });
            },
        };
        let proposal = Proposal {
            capability_id: cap_id.clone(),
            provider_agent_id: self.identity.peer_id(),
            quote: String::from_str("echo"),
            expires_at_ns: 0,
        };
        let builder = AclBuilder::new(&self.identity, msg.conversation_id.as_str());
        let propose = match builder.propose(msg.ontology.as_str(), msg.message_id.as_str(), proposal) {
            Ok(m) => m,
            Err(e) => {
                return Err(e);
            },
        };
        let payload = echo_payload_bytes(&intent.payload);
        let ghost p0 = self.providers.view();
        self.providers.insert(msg.conversation_id.clone(), ProviderState { requester_peer: peer, capability_id: cap_id, intent_payload: payload });
        assert(self.providers.view().dom() =~= p0.dom().insert(msg.conversation_id@));
        Ok(AclReply { response: Some(propose), actions: Vec::new() })
    }

    /// Round 2 on the provider side: answer an AGREE for a proposed
    /// conversation with an INFORM echoing the payload, and issue the
    /// provider's receipt. The conversation ends either way.
    fn answer_agree(&mut self, msg: &AclMessage) -> (res: Result<AclReply, Error>)
        ensures
            final(self).identity@ == old(self).identity@,
            final(self).known_peers.view() == old(self).known_peers.view(),
            final(self).requesters.view() == old(self).requesters.view(),
            final(self).local_cards.view() == old(self).local_cards.view(),
            final(self).pending_acl_round1.view() == old(self).pending_acl_round1.view(),
            final(self).pending_acl_round2.view() == old(self).pending_acl_round2.view(),
            final(self).providers.view() == old(self).providers.view().remove(msg.conversation_id@),
            !old(self).providers.view().contains_key(msg.conversation_id@) ==> (res matches Ok(r) && no_reply(r)),
            old(self).providers.view().contains_key(msg.conversation_id@) ==> (res is Ok),
            old(self).providers.view().contains_key(msg.conversation_id@) && res is Ok ==> informed(*old(self), *msg, res->Ok_0),
            final(self).pending_lookups.view() == old(self).pending_lookups.view(),
            final(self).pending_card_fetches.view() == old(self).pending_card_fetches.view(),
            final(self).pending_publish_acks.view() == old(self).pending_publish_acks.view(),
    {
        let prov = match self.providers.remove(&msg.conversation_id) {
            Some(p) => p,
            None => {
                return Ok(AclReply { response: None, actions: Vec::new() });
            },
        };
        let result = TaskResult {
            conversation_id: msg.conversation_id.clone(),
            payload: copy_bytes(prov.intent_payload.as_slice()),
            status: RESULT_STATUS_OK,
            error_message: String::new(),
        };
        let builder = AclBuilder::new(&self.identity, msg.conversation_id.as_str());
        let inform = match builder.inform("code-execution", msg.message_id.as_str(), result) {
            Ok(m) => m,
            Err(e) => {
                return Err(e);
            },
        };
        let me = self.identity.peer_id();
        match build_receipt(&self.identity, msg.conversation_id.clone(), prov.capability_id, prov.requester_peer, me, ResultStatus::Success) {
            Ok(receipt) => {
                let mut actions: Vec<Action> = Vec::new();
                actions.push(Action::StoreReceipt { receipt, counterparty_signature: None });
                Ok(AclReply { response: Some(inform), actions })
            },
            Err(e) => Err(e),
        }
    }

    /// An ACL request arrived from `peer`. Envelopes that fail verification
    /// are dropped; a REQUEST is answered with a PROPOSE (round 1), an AGREE
    /// with an INFORM (round 2); other performatives are ignored.
    pub fn acl_request(&mut self, peer: String, msg: AclMessage) -> (res: Result<AclReply, Error>)
        ensures
            final(self).identity@ == old(self).identity@,
            final(self).known_peers.view() == old(self).known_peers.view(),
            final(self).requesters.view() == old(self).requesters.view(),
            final(self).local_cards.view() == old(self).local_cards.view(),
            final(self).pending_acl_round1.view() == old(self).pending_acl_round1.view(),
            final(self).pending_acl_round2.view() == old(self).pending_acl_round2.view(),
            !envelope_valid(msg) ==> (res matches Ok(r) && no_reply(r))
                && final(self).providers.view() == old(self).providers.view(),
            envelope_valid(msg) && msg.performative == performative_code(Performative::Request) ==> ({
                if carried_intent(msg.payload) is Some && old(self).local_cards.view().dom() != Set::<Seq<char>>::empty() {
                    &&& (res is Ok)
                    &&& res matches Ok(r) ==> proposed(*old(self), *final(self), peer@, msg, carried_intent(msg.payload)->0, r)
                } else {
                    &&& res matches Ok(r) && no_reply(r)
                    &&& final(self).providers.view() == old(self).providers.view()
                }
            }),
            envelope_valid(msg) && msg.performative == performative_code(Performative::Agree) ==> {
                &&& final(self).providers.view() == old(self).providers.view().remove(msg.conversation_id@)
                &&& !old(self).providers.view().contains_key(msg.conversation_id@) ==> (res matches Ok(r) && no_reply(r))
                &&& old(self).providers.view().contains_key(msg.conversation_id@) ==> (res is Ok)
                &&& old(self).providers.view().contains_key(msg.conversation_id@) && res is Ok ==> informed(*old(self), msg, res->Ok_0)
            },
            envelope_valid(msg) && msg.performative != performative_code(Performative::Request)
                && msg.performative != performative_code(Performative::Agree) ==> (res matches Ok(r) && no_reply(r))
                && final(self).providers.view() == old(self).providers.view(),
            final(self).pending_lookups.view() == old(self).pending_lookups.view(),
            final(self).pending_card_fetches.view() == old(self).pending_card_fetches.view(),
            final(self).pending_publish_acks.view() == old(self).pending_publish_acks.view(),
    {
        if verify_envelope(&msg).is_err() {
            return Ok(AclReply { response: None, actions: Vec::new() });
        }
        if msg.performative == Performative::Request.code() {
            self.answer_request(peer, &msg)
        } else if msg.performative == Performative::Agree.code() {
            self.answer_agree(&msg)
        } else {
            Ok(AclReply { response: None, actions: Vec::new() })
        }
    }

    /// Round 2 on the requester side: AGREE to the proposal received for
    /// a conversation, addressed to the chosen provider.
    fn send_agree(&self, conv: String, msg: &AclMessage) -> (res: Result<Vec<Action>, Error>)
        ensures
            !(self.requesters.view().contains_key(conv@) && self.requesters.view()[conv@].provider_peer is Some)
                ==> (res matches Ok(a) && a@.len() == 0),
            (self.requesters.view().contains_key(conv@) && self.requesters.view()[conv@].provider_peer is Some)
                ==> (res is Ok),
            (self.requesters.view().contains_key(conv@) && self.requesters.view()[conv@].provider_peer is Some)
                && res is Ok ==> agreed(*self, conv@, *msg, res->Ok_0@),
    {
        let req = match self.requesters.get(&conv) {
            Some(r) => r,
            None => {
                return Ok(Vec::new());
            },
        };
        let provider = match &req.provider_peer {
            Some(p) => p.clone(),
            None => {
                return Ok(Vec::new());
            },
        };
        let capability_id = chosen_id_string(&req.chosen_capability_id);
        let builder = AclBuilder::new(&self.identity, conv.as_str());
        let agreement = Agreement { conversation_id: conv.clone(), capability_id };
        let agree = match builder.agree("code-execution", msg.message_id.as_str(), agreement) {
            Ok(m) => m,
            Err(e) => {
                return Err(e);
            },
        };
        let mut actions: Vec<Action> = Vec::new();
        actions.push(Action::SendAclRequest { peer: provider, message: agree, round: 2, conversation_id: conv });
        Ok(actions)
    }

    /// Complete a conversation on the provider's INFORM: the requester's
    /// receipt, the submitter's answer and the announcement.
    fn complete_intent(&mut self, provider_peer: String, conv: &String, inform: &AclMessage) -> (res: Result<Vec<Action>, Error>)
        ensures
            final(self).requesters.view() == old(self).requesters.view().remove(conv@),
            final(self).identity@ == old(self).identity@,
            final(self).known_peers.view() == old(self).known_peers.view(),
            final(self).providers.view() == old(self).providers.view(),
            final(self).local_cards.view() == old(self).local_cards.view(),
            final(self).pending_acl_round1.view() == old(self).pending_acl_round1.view(),
            final(self).pending_acl_round2.view() == old(self).pending_acl_round2.view(),
            !old(self).requesters.view().contains_key(conv@) ==> (res matches Ok(a) && a@.len() == 0),
            old(self).requesters.view().contains_key(conv@) ==> (res is Ok),
            old(self).requesters.view().contains_key(conv@) && res is Ok
                ==> completed(*old(self), provider_peer@, conv@, *inform, res->Ok_0@),
            final(self).pending_lookups.view() == old(self).pending_lookups.view(),
            final(self).pending_card_fetches.view() == old(self).pending_card_fetches.view(),
            final(self).pending_publish_acks.view() == old(self).pending_publish_acks.view(),
    {
        let req = match self.requesters.remove(conv) {
            Some(r) => r,
            None => {
                return Ok(Vec::new());
            },
        };
        let capability_id = chosen_id_string(&req.chosen_capability_id);
        let me = self.identity.peer_id();
        let receipt = match build_receipt(&self.identity, conv.clone(), capability_id.clone(), me, provider_peer, ResultStatus::Success) {
            Ok(r) => r,
            Err(e) => {
                return Err(e);
            },
        };
        let mut actions: Vec<Action> = Vec::new();
        actions.push(Action::StoreReceipt { receipt, counterparty_signature: Some(copy_bytes(inform.signature.as_slice())) });
        if req.awaiting_reply {
            let outcome = IntentOutcome {
                conversation_id: conv.clone(),
                matched_capability_id: capability_id.clone(),
                cosine_score: req.chosen_score,
            };
            actions.push(Action::ReplyIntent { conversation_id: conv.clone(), result: Ok(outcome) });
        }
        let announced = IntentOutcome { conversation_id: conv.clone(), matched_capability_id: capability_id, cosine_score: req.chosen_score };
        actions.push(Action::Emit(Notice::IntentCompleted(announced)));
        Ok(actions)
    }

    /// A response to one of our ACL requests arrived from `peer`. Envelopes
    /// that fail verification are dropped. A PROPOSE answering a REQUEST is
    /// agreed to (round 2); an INFORM answering an AGREE completes the
    /// conversation. A response of any other performative only retires the
    /// request handle.
    pub fn acl_response(&mut self, peer: String, request: u64, msg: AclMessage) -> (res: Result<Vec<Action>, Error>)
        ensures
            final(self).identity@ == old(self).identity@,
            final(self).known_peers.view() == old(self).known_peers.view(),
            final(self).providers.view() == old(self).providers.view(),
            final(self).local_cards.view() == old(self).local_cards.view(),
            !envelope_valid(msg) ==> (res matches Ok(a) && a@.len() == 0)
                && final(self).requesters.view() == old(self).requesters.view()
                && final(self).pending_acl_round1.view() == old(self).pending_acl_round1.view()
                && final(self).pending_acl_round2.view() == old(self).pending_acl_round2.view(),
            envelope_valid(msg) && old(self).pending_acl_round1.view().contains_key(request) ==> {
                let conv = old(self).pending_acl_round1.view()[request]@;
                &&& final(self).pending_acl_round1.view() == old(self).pending_acl_round1.view().remove(request)
                &&& final(self).pending_acl_round2.view() == old(self).pending_acl_round2.view()
                &&& final(self).requesters.view() == old(self).requesters.view()
                &&& if msg.performative == performative_code(Performative::Propose)
                    && old(self).requesters.view().contains_key(conv)
                    && old(self).requesters.view()[conv].provider_peer is Some {
                    &&& (res is Ok)
                    &&& res is Ok ==> agreed(*old(self), conv, msg, res->Ok_0@)
                } else {
                    res matches Ok(a) && a@.len() == 0
                }
            },
            envelope_valid(msg) && !old(self).pending_acl_round1.view().contains_key(request)
                && old(self).pending_acl_round2.view().contains_key(request) ==> {
                let conv = old(self).pending_acl_round2.view()[request]@;
                &&& final(self).pending_acl_round2.view() == old(self).pending_acl_round2.view().remove(request)
                &&& final(self).pending_acl_round1.view() == old(self).pending_acl_round1.view()
                &&& if msg.performative == performative_code(Performative::Inform)
                    && old(self).requesters.view().contains_key(conv) {
                    &&& final(self).requesters.view() == old(self).requesters.view().remove(conv)
                    &&& (res is Ok)
                    &&& res is Ok ==> completed(*old(self), peer@, conv, msg, res->Ok_0@)
                } else {
                    &&& res matches Ok(a) && a@.len() == 0
                    &&& final(self).requesters.view() == old(self).requesters.view()
                }
            },
            envelope_valid(msg) && !old(self).pending_acl_round1.view().contains_key(request)
                && !old(self).pending_acl_round2.view().contains_key(request) ==> (res matches Ok(a) && a@.len() == 0)
                && final(self).requesters.view() == old(self).requesters.view()
                && final(self).pending_acl_round1.view() == old(self).pending_acl_round1.view()
                && final(self).pending_acl_round2.view() == old(self).pending_acl_round2.view(),
            final(self).pending_lookups.view() == old(self).pending_lookups.view(),
            final(self).pending_card_fetches.view() == old(self).pending_card_fetches.view(),
            final(self).pending_publish_acks.view() == old(self).pending_publish_acks.view(),
    {
        if verify_envelope(&msg).is_err() {
            return Ok(Vec::new());
        }
        match self.pending_acl_round1.remove(&request) {
            Some(conv) => {
                if msg.performative != Performative::Propose.code() {
                    return Ok(Vec::new());
                }
                return self.send_agree(conv, &msg);
            },
            None => {},
        }
        match self.pending_acl_round2.remove(&request) {
            Some(conv) => {
                if msg.performative != Performative::Inform.code() {
                    return Ok(Vec::new());
                }
                self.complete_intent(peer, &conv, &msg)
            },
            None => Ok(Vec::new()),
        }
    }

    /// Submit an intent whose lookups were issued with handles `queries`:
    /// open a conversation under a fresh random id, awaiting those lookups.
    #[verifier::spinoff_prover]
    pub fn open_conversation(
        &mut self,
        required: CapabilityFacets,
        query_vector: Vec<u32>,
        intent: Intent,
        queries: Vec<u64>,
    ) -> (conversation_id: String)
        ensures
            crate::clock::uuid_v4_text(conversation_id@),
            final(self).requesters.view().dom() == old(self).requesters.view().dom().insert(conversation_id@),
            forall|c: Seq<char>| c != conversation_id@ && #[trigger] old(self).requesters.view().contains_key(c)
                ==> final(self).requesters.view()[c] == old(self).requesters.view()[c],
            ({
                let r = final(self).requesters.view()[conversation_id@];
                &&& r.conversation_id@ == conversation_id@
                &&& r.required == required
                &&& r.query_vector@ == query_vector@
                &&& r.intent == intent
                &&& r.outstanding_dht_queries.view().dom() == queries@.to_set()
                &&& r.fetched_cards@.len() == 0
                &&& r.seen_capability_ids.view().dom() == Set::<Seq<char>>::empty()
                &&& r.in_flight_card_fetches.view().dom() == Set::<u64>::empty()
                &&& !r.request_sent
                &&& r.provider_peer is None
                &&& r.chosen_capability_id is None
                &&& r.awaiting_reply
            }),
            forall|q: u64| #![trigger final(self).pending_lookups.view().contains_key(q)] queries@.contains(q) ==>
                final(self).pending_lookups.view().contains_key(q) && final(self).pending_lookups.view()[q]@ == conversation_id@,
            forall|q: u64| #![trigger final(self).pending_lookups.view().contains_key(q)] !queries@.contains(q) ==>
                final(self).pending_lookups.view().contains_key(q) == old(self).pending_lookups.view().contains_key(q)
                && final(self).pending_lookups.view()[q] == old(self).pending_lookups.view()[q],
            final(self).local_cards.view() == old(self).local_cards.view(),
            final(self).identity@ == old(self).identity@,
            final(self).known_peers.view() == old(self).known_peers.view(),
            final(self).pending_card_fetches.view() == old(self).pending_card_fetches.view(),
            final(self).providers.view() == old(self).providers.view(),
            final(self).pending_publish_acks.view() == old(self).pending_publish_acks.view(),
            final(self).pending_acl_round1.view() == old(self).pending_acl_round1.view(),
            final(self).pending_acl_round2.view() == old(self).pending_acl_round2.view(),
    {
        let conversation_id = crate::clock::new_uuid();
        self.register_intent(conversation_id.clone(), required, query_vector, intent, queries);
        conversation_id
    }
}

/// The peer a step announces, if its actions are a single peer
/// announcement.
pub open spec fn announced_peer(actions: Seq<Action>) -> Option<Seq<char>> {
    if actions.len() == 1 {
        match actions[0] {
            Action::Emit(Notice::PeerDiscovered(p)) => Some(p@),
            _ => None,
        }
    } else {
        None
    }
}

/// One step of the known-peer table: unchanged when no peer is announced,
/// and grown by exactly the announced peer, which was unknown, otherwise.
pub open spec fn peer_step(k0: Map<Seq<char>, ()>, k1: Map<Seq<char>, ()>, announced: Option<Seq<char>>) -> bool {
    match announced {
        None => k1 == k0,
        Some(p) => !k0.contains_key(p) && k1 == k0.insert(p, ()),
    }
}

/// A run of steps over the known-peer table.
pub open spec fn peer_run(ks: Seq<Map<Seq<char>, ()>>, anns: Seq<Option<Seq<char>>>) -> bool {
    &&& ks.len() == anns.len() + 1
    &&& forall|i: int| 0 <= i < anns.len() ==> peer_step(ks[i], ks[i + 1], #[trigger] anns[i])
}

proof fn lemma_known_peers_grow(ks: Seq<Map<Seq<char>, ()>>, anns: Seq<Option<Seq<char>>>, i: int, j: int)
    requires
        peer_run(ks, anns),
        0 <= i <= j < ks.len(),
    ensures
        forall|p: Seq<char>| ks[i].contains_key(p) ==> #[trigger] ks[j].contains_key(p),
    decreases j - i,
{
    if i < j {
        lemma_known_peers_grow(ks, anns, i, j - 1);
        assert(peer_step(ks[j - 1], ks[j], anns[j - 1]));
    }
}

/// Over a daemon's lifetime each peer is announced at most once, and the
/// known-peer table only grows. Every step of the state machine is a
/// `peer_step`: `routing_updated` announces exactly the peer it adds
/// (`announced_peer` of its actions), and every other step leaves the
/// table unchanged and announces no peer.
pub proof fn lemma_peers_announced_once(ks: Seq<Map<Seq<char>, ()>>, anns: Seq<Option<Seq<char>>>)
    requires
        peer_run(ks, anns),
    ensures
        forall|i: int, j: int| #![trigger ks[i], ks[j]] 0 <= i <= j < ks.len() ==> ks[i].dom().subset_of(ks[j].dom()),
        forall|i: int, j: int| 0 <= i < j < anns.len() && #[trigger] anns[i] is Some && #[trigger] anns[j] is Some
            ==> anns[i]->0 != anns[j]->0,
{
    assert forall|i: int, j: int| #![trigger ks[i], ks[j]] 0 <= i <= j < ks.len() implies ks[i].dom().subset_of(ks[j].dom()) by {
        lemma_known_peers_grow(ks, anns, i, j);
    }
    assert forall|i: int, j: int| 0 <= i < j < anns.len() && #[trigger] anns[i] is Some && #[trigger] anns[j] is Some
        implies anns[i]->0 != anns[j]->0 by {
        assert(peer_step(ks[i], ks[i + 1], anns[i]));
        assert(peer_step(ks[j], ks[j + 1], anns[j]));
        lemma_known_peers_grow(ks, anns, i + 1, j);
        assert(ks[i + 1].contains_key(anns[i]->0));
    }
}

/// An AGREE is answered at most once: answering a valid AGREE retires the
/// conversation's proposal (`acl_request` leaves the provider table without
/// it), and a later AGREE for that conversation finds no proposal, so
/// `acl_request` gives it no reply.
pub proof fn lemma_agree_answered_once(
    before: Map<Seq<char>, ProviderState>,
    after: Map<Seq<char>, ProviderState>,
    conversation_id: Seq<char>,
)
    requires
        after == before.remove(conversation_id),
    ensures
        !after.contains_key(conversation_id),
{
}

/// Whether a peer's identify report lists `protocol` among the protocols it
/// speaks; only then are its listen addresses added to the routing table.
pub fn speaks_protocol(protocols: &Vec<String>, protocol: &str) -> (b: bool)
    ensures
        b <==> exists|i: int| 0 <= i < protocols@.len() && (#[trigger] protocols@[i])@ == protocol@,
{
    let wanted = String::from_str(protocol);
    let mut i: usize = 0;
    while i < protocols.len()
        invariant
            i <= protocols@.len(),
            wanted@ == protocol@,
            forall|j: int| 0 <= j < i ==> (#[trigger] protocols@[j])@ != protocol@,
        decreases protocols@.len() - i,
    {
        if protocols[i] == wanted {
            return true;
        }
        i = i + 1;
    }
    false
}

} // verus!
