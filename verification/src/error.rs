//! Errors of the mesh core.

use vstd::prelude::*;

verus! {

#[verifier::external_type_specification]
#[verifier::external_body]
pub struct ExDecodingError(libp2p::identity::DecodingError);

#[verifier::external_type_specification]
#[verifier::external_body]
pub struct ExSigningError(libp2p::identity::SigningError);

/// Errors of card, envelope, receipt and record construction and checking.
#[derive(Debug)]
pub enum Error {
    /// The identity key could not be encoded or decoded.
    Identity(String),
    /// A signature did not verify under the bundled public key.
    BadSignature,
    /// A card, envelope or record failed validation.
    InvalidCard(String),
    /// The stored facet fingerprint is not the fingerprint of the facets.
    FingerprintMismatch,
    /// An embedding has the wrong number of components.
    EmbeddingDimension { expected: u32, got: u32 },
    /// An embedding was produced by an encoder other than the canonical one.
    UnsupportedModel(String),
    /// A keypair could not be decoded.
    Libp2pIdentity(libp2p::identity::DecodingError),
    /// The keypair refused to sign.
    Signing(libp2p::identity::SigningError),
}

} // verus!
