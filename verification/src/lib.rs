//! Verified core of the Kite Mesh agent network: the wire schema and its
//! signing bytes, canonical facet fingerprints, capability cards, ACL
//! envelopes, receipts, directory records, the exact facet filter, message
//! framing, daemon configuration and the ACL conversation state machine.

pub mod wire;
pub mod proto;
pub mod error;
pub mod identity;
pub mod order;
pub mod facets;
pub mod rerank;
pub mod clock;
pub mod capability;
pub mod acl;
pub mod receipt;
pub mod intent;
pub mod lsh;
pub mod directory;
pub mod codec;
pub mod config;
pub mod table;
pub mod event_loop;
