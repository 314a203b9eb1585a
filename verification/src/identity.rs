//! Agent identity: an Ed25519 keypair, its bundled public key, and the
//! peer id derived from it.

use vstd::prelude::*;
use crate::error::Error;

verus! {

#[verifier::external_type_specification]
#[verifier::external_body]
pub struct ExKeypair(libp2p::identity::Keypair);

#[verifier::external_type_specification]
#[verifier::external_body]
pub struct ExPublicKey(libp2p::identity::PublicKey);

/// Whether `encoding` decodes (as a protobuf `PublicKey`) to a public key.
pub uninterp spec fn public_key_decodes(encoding: Seq<u8>) -> bool;

/// Whether `signature` is a valid signature of `message` under the public
/// key that `encoding` decodes to.
pub uninterp spec fn signature_accepted(encoding: Seq<u8>, message: Seq<u8>, signature: Seq<u8>) -> bool;

/// Text form of the peer id derived from the public key `encoding` decodes to.
pub uninterp spec fn key_peer_id(encoding: Seq<u8>) -> Seq<char>;

/// Canonical text of the peer id that `text` parses to, if it parses.
pub uninterp spec fn parsed_peer_id(text: Seq<char>) -> Option<Seq<char>>;

/// Whether `bytes` decode (as a protobuf `PrivateKey`) to a keypair.
pub uninterp spec fn keypair_decodes(bytes: Seq<u8>) -> bool;

/// Protobuf encoding of the public key of the keypair that `bytes` decode to.
pub uninterp spec fn keypair_public_key(bytes: Seq<u8>) -> Seq<u8>;

/// The protobuf encoding of an Ed25519 public key: key type 1 (`08 01`),
/// then the 32 key bytes as field 2 (`12 20`), 36 bytes in all.
pub open spec fn ed25519_public_key_encoding(e: Seq<u8>) -> bool {
    &&& e.len() == 36
    &&& e.take(4) == seq![8u8, 1u8, 18u8, 32u8]
}

/// `libp2p::identity::Keypair::generate_ed25519`: a fresh random keypair,
/// returned with its public key in protobuf form (`public`, then
/// `encode_protobuf`). Claimed: that encoding is an Ed25519 public-key
/// encoding, and it decodes. Nothing is claimed of which key it is.
#[verifier::external_body]
fn generate_ed25519_keypair() -> (res: (libp2p::identity::Keypair, Vec<u8>))
    ensures
        ed25519_public_key_encoding(res.1@),
        public_key_decodes(res.1@),
{
    let kp = libp2p::identity::Keypair::generate_ed25519();
    let pk = kp.public().encode_protobuf();
    (kp, pk)
}

/// `libp2p::identity::PublicKey::try_decode_protobuf`. Claimed: it succeeds
/// exactly when `public_key_decodes` holds of the bytes.
#[verifier::external_body]
fn decode_public_key(bytes: &[u8]) -> (res: Result<libp2p::identity::PublicKey, libp2p::identity::DecodingError>)
    ensures
        res is Ok <==> public_key_decodes(bytes@),
{
    libp2p::identity::PublicKey::try_decode_protobuf(bytes)
}

/// `libp2p::identity::PublicKey::verify`. Claimed: the result is
/// `signature_accepted` of the key's encoding, the message and the signature.
#[verifier::external_body]
fn verify_with_key(key: &VerifyingKey, msg: &[u8], sig: &[u8]) -> (res: bool)
    ensures
        res == signature_accepted(key@, msg@, sig@),
{
    key.key.verify(msg, sig)
}

/// `libp2p::PeerId::from_public_key`, rendered as text (base58). Claimed:
/// the text is `key_peer_id` of the key's encoding, and it parses back to
/// itself (libp2p's base58 round trip).
#[verifier::external_body]
fn peer_id_of_key(key: &VerifyingKey) -> (res: String)
    ensures
        res@ == key_peer_id(key@),
        parsed_peer_id(res@) == Some(res@),
{
    libp2p::PeerId::from_public_key(&key.key).to_string()
}

/// `<libp2p::PeerId as FromStr>::from_str`, with the parsed id rendered as
/// text. Claimed: the result is `parsed_peer_id` of the input.
#[verifier::external_body]
fn parse_peer_id_text(text: &str) -> (res: Option<String>)
    ensures
        match res {
            Some(t) => parsed_peer_id(text@) == Some(t@),
            None => parsed_peer_id(text@) is None,
        },
{
    match text.parse::<libp2p::PeerId>() {
        Ok(p) => Some(p.to_string()),
        Err(_) => None,
    }
}

/// `libp2p::identity::Keypair::sign`. Claimed: it succeeds (the keypairs
/// here are Ed25519, whose signing returns `Ok` always; RSA, the one kind
/// that can fail, is not compiled in), and the signature is accepted under
/// the identity's own public key, as libp2p documents.
#[verifier::external_body]
fn sign_with_keypair(identity: &AgentIdentity, msg: &[u8]) -> (res: Result<Vec<u8>, libp2p::identity::SigningError>)
    ensures
        res is Ok,
        res matches Ok(sig) ==> signature_accepted(identity@, msg@, sig@),
{
    identity.keypair.sign(msg)
}

/// `libp2p::identity::Keypair::from_protobuf_encoding`, returned with the
/// decoded keypair's public key in protobuf form (`public`, then
/// `encode_protobuf`). Claimed: it succeeds exactly when `keypair_decodes`
/// holds of the bytes, and that public key is `keypair_public_key` of them
/// and decodes.
#[verifier::external_body]
fn keypair_from_protobuf(bytes: &[u8]) -> (res: Result<(libp2p::identity::Keypair, Vec<u8>), libp2p::identity::DecodingError>)
    ensures
        res is Ok <==> keypair_decodes(bytes@),
        res matches Ok((_, pk)) ==> pk@ == keypair_public_key(bytes@) && public_key_decodes(pk@),
{
    match libp2p::identity::Keypair::from_protobuf_encoding(bytes) {
        Ok(kp) => {
            let pk = kp.public().encode_protobuf();
            Ok((kp, pk))
        },
        Err(e) => Err(e),
    }
}

/// `libp2p::identity::Keypair::to_protobuf_encoding` of the identity's
/// keypair. Claimed: it succeeds (it fails only for RSA keys, and the
/// keypairs here are Ed25519), and the bytes decode again to a keypair whose
/// public key is the identity's (libp2p writes the key material that
/// `from_protobuf_encoding` reads).
#[verifier::external_body]
fn keypair_to_protobuf(identity: &AgentIdentity) -> (res: Result<Vec<u8>, libp2p::identity::DecodingError>)
    ensures
        res is Ok,
        res matches Ok(b) ==> keypair_decodes(b@) && keypair_public_key(b@) == identity@,
{
    identity.keypair.to_protobuf_encoding()
}

/// `<libp2p::identity::Keypair as Clone>::clone`. Nothing is claimed of the
/// copy (it holds the same key; the identity built around it keeps the
/// duplicated identity's public key bytes).
#[verifier::external_body]
fn clone_keypair(identity: &AgentIdentity) -> (res: libp2p::identity::Keypair) {
    identity.keypair.clone()
}

/// `Display` of `libp2p::identity::DecodingError`, after a prefix. Nothing is
/// claimed of the text.
#[verifier::external_body]
pub(crate) fn describe_decoding_error(prefix: &str, e: &libp2p::identity::DecodingError) -> String {
    format!("{prefix}: {e}")
}

/// A public key together with the bytes it was decoded from (its view).
pub struct VerifyingKey {
    key: libp2p::identity::PublicKey,
    encoding: Vec<u8>,
}

/// Parse a peer id, giving its canonical text.
pub fn parse_peer_id(text: &str) -> (res: Option<String>)
    ensures
        match res {
            Some(t) => parsed_peer_id(text@) == Some(t@),
            None => parsed_peer_id(text@) is None,
        },
{
    parse_peer_id_text(text)
}

impl View for VerifyingKey {
    type V = Seq<u8>;

    closed spec fn view(&self) -> Seq<u8> {
        self.encoding@
    }
}

impl VerifyingKey {
    /// Decode a protobuf-encoded public key.
    pub fn decode(bytes: &[u8]) -> (res: Result<VerifyingKey, libp2p::identity::DecodingError>)
        ensures
            res is Ok <==> public_key_decodes(bytes@),
            res matches Ok(k) ==> k@ == bytes@,
    {
        match decode_public_key(bytes) {
            Ok(key) => {
                let mut encoding: Vec<u8> = Vec::new();
                crate::wire::put_bytes(&mut encoding, bytes);
                assert(encoding@ =~= bytes@);
                Ok(VerifyingKey { key, encoding })
            },
            Err(e) => Err(e),
        }
    }

    /// Text form of the peer id of this key.
    pub fn peer_id(&self) -> (res: String)
        ensures
            res@ == key_peer_id(self@),
            parsed_peer_id(res@) == Some(res@),
    {
        peer_id_of_key(self)
    }

    /// Whether `signature` is valid for `message` under this key.
    pub fn verify(&self, message: &[u8], signature: &[u8]) -> (res: bool)
        ensures
            res == signature_accepted(self@, message@, signature@),
    {
        verify_with_key(self, message, signature)
    }
}

/// An agent's Ed25519 identity. Its view is the protobuf encoding of its
/// public key.
///
/// The stored public-key bytes are always the encoding of the held
/// keypair's public key: the fields are private, and every identity is built
/// by `from_keypair` from a keypair and the encoding libp2p gave of that
/// keypair's public key (or, in `duplicate`, from a clone of the keypair and
/// the same bytes). The contracts of `sign_with_keypair` and
/// `keypair_to_protobuf`, which speak of the identity's view, rest on this.
pub struct AgentIdentity {
    keypair: libp2p::identity::Keypair,
    public_key: Vec<u8>,
    peer_id: String,
}

impl View for AgentIdentity {
    type V = Seq<u8>;

    closed spec fn view(&self) -> Seq<u8> {
        self.public_key@
    }
}

impl AgentIdentity {
    /// The identity is consistent: its public key decodes and its peer id is
    /// the one derived from that key.
    #[verifier::type_invariant]
    closed spec fn consistent(&self) -> bool {
        &&& public_key_decodes(self.public_key@)
        &&& self.peer_id@ == key_peer_id(self.public_key@)
    }

    /// The libp2p keypair this identity holds.
    pub closed spec fn held_keypair(&self) -> libp2p::identity::Keypair {
        self.keypair
    }

    /// The identity holding `keypair`, whose public key has the protobuf
    /// encoding `public_key`.
    fn from_keypair(keypair: libp2p::identity::Keypair, public_key: Vec<u8>) -> (id: AgentIdentity)
        requires
            public_key_decodes(public_key@),
        ensures
            id.held_keypair() == keypair,
            id@ == public_key@,
    {
        let key = VerifyingKey::decode(public_key.as_slice()).unwrap();
        let peer_id = key.peer_id();
        AgentIdentity { keypair, public_key: key.encoding, peer_id }
    }

    /// Generate a fresh Ed25519 identity.
    pub fn generate() -> (id: AgentIdentity)
        ensures
            ed25519_public_key_encoding(id@),
    {
        let (kp, pk) = generate_ed25519_keypair();
        AgentIdentity::from_keypair(kp, pk)
    }

    /// Decode an identity from protobuf-encoded private key bytes. Its
    /// public key is the one the bytes hold.
    pub fn from_protobuf_encoding(bytes: &[u8]) -> (res: Result<AgentIdentity, Error>)
        ensures
            res is Ok <==> keypair_decodes(bytes@),
            res matches Ok(id) ==> id@ == keypair_public_key(bytes@),
            res matches Err(e) ==> e is Libp2pIdentity,
    {
        match keypair_from_protobuf(bytes) {
            Ok((kp, pk)) => Ok(AgentIdentity::from_keypair(kp, pk)),
            Err(e) => Err(Error::Libp2pIdentity(e)),
        }
    }

    /// Protobuf encoding of the private key, for persisting the identity.
    /// It always succeeds, and decoding it gives back this identity's public
    /// key (and so its peer id).
    pub fn to_protobuf_encoding(&self) -> (res: Result<Vec<u8>, Error>)
        ensures
            res is Ok,
            res matches Ok(b) ==> keypair_decodes(b@) && keypair_public_key(b@) == self@,
    {
        match keypair_to_protobuf(self) {
            Ok(b) => Ok(b),
            Err(e) => Err(Error::Identity(describe_decoding_error("keypair encoding", &e))),
        }
    }

    /// A second handle on the same identity.
    pub fn duplicate(&self) -> (r: AgentIdentity)
        ensures
            r@ == self@,
    {
        proof {
            use_type_invariant(self);
        }
        let keypair = clone_keypair(self);
        let public_key = self.public_key();
        let peer_id = self.peer_id();
        AgentIdentity { keypair, public_key, peer_id }
    }

    /// The underlying libp2p keypair, for the transport's handshakes.
    pub fn keypair(&self) -> (kp: &libp2p::identity::Keypair)
        ensures
            *kp == self.held_keypair(),
    {
        &self.keypair
    }

    /// Text form of this identity's peer id.
    pub fn peer_id(&self) -> (res: String)
        ensures
            res@ == key_peer_id(self@),
            parsed_peer_id(res@) == Some(res@),
    {
        proof {
            use_type_invariant(self);
        }
        let key = self.verifying_key();
        key.peer_id()
    }

    /// Protobuf encoding of this identity's public key.
    pub fn public_key(&self) -> (res: Vec<u8>)
        ensures
            res@ == self@,
            public_key_decodes(res@),
    {
        proof {
            use_type_invariant(self);
        }
        let mut out: Vec<u8> = Vec::new();
        crate::wire::put_bytes(&mut out, self.public_key.as_slice());
        assert(out@ =~= self@);
        out
    }

    /// This identity's public key, ready for verification.
    pub fn verifying_key(&self) -> (res: VerifyingKey)
        ensures
            res@ == self@,
    {
        proof {
            use_type_invariant(self);
        }
        let bytes = self.public_key();
        VerifyingKey::decode(bytes.as_slice()).unwrap()
    }

    /// Sign `bytes` with this identity's private key.
    pub fn sign(&self, bytes: &[u8]) -> (res: Result<Vec<u8>, Error>)
        ensures
            res is Ok,
            res matches Ok(sig) ==> signature_accepted(self@, bytes@, sig@),
    {
        match sign_with_keypair(self, bytes) {
            Ok(sig) => Ok(sig),
            Err(e) => Err(Error::Signing(e)),
        }
    }

    /// Verify `signature` over `bytes` with the given public key.
    pub fn verify(public: &VerifyingKey, bytes: &[u8], signature: &[u8]) -> (res: Result<(), Error>)
        ensures
            res is Ok <==> signature_accepted(public@, bytes@, signature@),
            res matches Err(e) ==> e is BadSignature,
    {
        if public.verify(bytes, signature) {
            Ok(())
        } else {
            Err(Error::BadSignature)
        }
    }
}

/// The common tail of signed-object verification: the claimed peer id
/// parses, the bundled key decodes and derives that peer id, and the
/// signature verifies over `signing`.
pub fn check_signed_by(
    peer: &str,
    public_key: &[u8],
    signing: &Vec<u8>,
    signature: &[u8],
    bad_peer: &str,
    bad_key: &str,
    mismatch: &str,
) -> (res: Result<(), Error>)
    ensures
        res is Ok <==> {
            &&& parsed_peer_id(peer@) is Some
            &&& public_key_decodes(public_key@)
            &&& parsed_peer_id(peer@) == Some(key_peer_id(public_key@))
            &&& signature_accepted(public_key@, signing@, signature@)
        },
        parsed_peer_id(peer@) is None ==> (res matches Err(Error::InvalidCard(m)) && m@ == bad_peer@),
        parsed_peer_id(peer@) is Some && !public_key_decodes(public_key@) ==> (res matches Err(Error::InvalidCard(_))),
        parsed_peer_id(peer@) is Some && public_key_decodes(public_key@) && parsed_peer_id(peer@) != Some(key_peer_id(public_key@))
            ==> (res matches Err(Error::InvalidCard(m)) && m@ == mismatch@),
        parsed_peer_id(peer@) is Some && public_key_decodes(public_key@) && parsed_peer_id(peer@) == Some(key_peer_id(public_key@))
            && !signature_accepted(public_key@, signing@, signature@) ==> (res matches Err(Error::BadSignature)),
{
    let expected = match parse_peer_id(peer) {
        Some(p) => p,
        None => {
            return Err(Error::InvalidCard(String::from_str(bad_peer)));
        },
    };
    let key = match VerifyingKey::decode(public_key) {
        Ok(k) => k,
        Err(e) => {
            return Err(Error::InvalidCard(describe_decoding_error(bad_key, &e)));
        },
    };
    let derived = key.peer_id();
    if derived != expected {
        return Err(Error::InvalidCard(String::from_str(mismatch)));
    }
    AgentIdentity::verify(&key, signing.as_slice(), signature)
}

} // verus!
