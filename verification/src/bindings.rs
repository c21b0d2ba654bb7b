//! Trusted declarations of the outside code that the library calls, and the
//! signing key that holds a keypair together with what libp2p derives from
//! it.
//!
//! The declared types, the wrappers and the names of outside results are
//! believed by Verus without proof; each doc comment says what is claimed of
//! the outside function and what is left unsaid. [`SigningKey`] and its
//! methods are verified.

use vstd::prelude::*;
use vstd::utf8::*;

verus! {

/// The error that `std::str::from_utf8` returns; opaque to the library.
#[verifier::external_type_specification]
#[verifier::external_body]
pub struct ExUtf8Error(std::str::Utf8Error);

/// Calls `std::str::from_utf8`. std documents that it succeeds exactly when
/// the bytes are valid UTF-8, and that the text then is those bytes; the
/// claim is stated over vstd's UTF-8 model (`valid_utf8`, `decode_utf8`).
/// Where in the bytes the error points is left unsaid.
#[verifier::external_body]
pub(crate) fn str_from_utf8(bytes: &[u8]) -> (r: Result<&str, std::str::Utf8Error>)
    ensures
        r is Ok <==> valid_utf8(bytes@),
        r matches Ok(s) ==> s@ == decode_utf8(bytes@),
{
    std::str::from_utf8(bytes)
}

/// The error that `libp2p::identity::Keypair::sign` returns; opaque to the library.
#[verifier::external_type_specification]
#[verifier::external_body]
pub struct ExSigningError(libp2p::identity::SigningError);

/// A libp2p keypair; opaque to the library, which only asks it for its
/// public key and hands it to `sign`.
#[verifier::external_type_specification]
#[verifier::external_body]
pub struct ExKeypair(libp2p::identity::Keypair);

/// The bytes of the peer id (`PublicKey::to_peer_id`, then `PeerId::to_bytes`)
/// of the public key that `public_key` decodes to
/// (`PublicKey::try_decode_protobuf`). libp2p derives a peer id from the
/// key alone.
pub uninterp spec fn key_peer_id(public_key: Seq<u8>) -> Seq<u8>;

/// Calls `Keypair::public`, then `PublicKey::encode_protobuf` and
/// `PublicKey::to_peer_id` with `PeerId::to_bytes` on the result. The
/// contract says that the second part is the peer id of the first, and, as
/// `PeerId::from_public_key` writes it, that a key encoded in at most 42
/// bytes is held inline: the identity multihash code 0, the length, then
/// the encoding. Which key the keypair holds is left to libp2p.
#[verifier::external_body]
fn public_parts(keypair: &libp2p::identity::Keypair) -> (r: (Vec<u8>, Vec<u8>))
    ensures
        r.1@ == key_peer_id(r.0@),
        r.0@.len() <= 42 ==> r.1@ == seq![0u8, r.0@.len() as u8] + r.0@,
{
    let public = keypair.public();
    (public.encode_protobuf(), public.to_peer_id().to_bytes())
}

/// Decodes `public_key` with `PublicKey::try_decode_protobuf` and gives the
/// bytes of its peer id (`PublicKey::to_peer_id`, then `PeerId::to_bytes`);
/// `None` where the bytes decode to no key. The contract names the id, and
/// says that bytes which decode to no key accept no signature: the same
/// decoding fails in [`public_key_verify`], which then answers `false`.
/// Which bytes decode is left to libp2p.
#[verifier::external_body]
pub(crate) fn peer_id_of_public_key(public_key: &[u8]) -> (r: Option<Vec<u8>>)
    ensures
        r matches Some(id) ==> id@ == key_peer_id(public_key@),
        r is None ==> forall|message: Seq<u8>, signature: Seq<u8>|
            !#[trigger] signature_verifies(public_key@, message, signature),
{
    match libp2p::identity::PublicKey::try_decode_protobuf(public_key) {
        Ok(key) => Some(key.to_peer_id().to_bytes()),
        Err(_) => None,
    }
}

/// Reads `peer_id` with `PeerId::from_bytes` and gives the digest of its
/// multihash; `None` where the bytes are no peer id. For a peer id that
/// holds its public key inline the digest is that key's protobuf encoding.
/// Nothing is stated of the result: callers check it with
/// [`peer_id_of_public_key`].
#[verifier::external_body]
pub(crate) fn peer_id_digest(peer_id: &[u8]) -> Option<Vec<u8>> {
    match libp2p::PeerId::from_bytes(peer_id) {
        Ok(id) => {
            let hash: &libp2p::multihash::Multihash<64> = id.as_ref();
            Some(hash.digest().to_vec())
        },
        Err(_) => None,
    }
}

/// A node's signing key: a libp2p keypair, with the protobuf encoding of its
/// public key and the bytes of its peer id. [`SigningKey::new`] is the only
/// way to build one, so both always belong to the keypair.
pub struct SigningKey {
    keypair: libp2p::identity::Keypair,
    public_key: Vec<u8>,
    peer_id: Vec<u8>,
}

/// What a [`SigningKey`] shows of itself: its public key's protobuf encoding
/// and its peer id's bytes.
pub struct SigningKeyView {
    pub public_key: Seq<u8>,
    pub peer_id: Seq<u8>,
}

impl View for SigningKey {
    type V = SigningKeyView;

    closed spec fn view(&self) -> SigningKeyView {
        SigningKeyView { public_key: self.public_key@, peer_id: self.peer_id@ }
    }
}

impl SigningKey {
    /// The signing key of `keypair`; its peer id is the one libp2p derives
    /// from its public key.
    pub fn new(keypair: libp2p::identity::Keypair) -> (r: Self)
        ensures
            r@.peer_id == key_peer_id(r@.public_key),
            r@.public_key.len() <= 42 ==> r@.peer_id == seq![0u8, r@.public_key.len() as u8] + r@.public_key,
    {
        let (public_key, peer_id) = public_parts(&keypair);
        SigningKey { keypair, public_key, peer_id }
    }

    /// The protobuf encoding of the public key.
    pub fn public_key(&self) -> (r: &Vec<u8>)
        ensures
            r@ == self@.public_key,
    {
        &self.public_key
    }

    /// The bytes of the peer id.
    pub fn peer_id(&self) -> (r: &Vec<u8>)
        ensures
            r@ == self@.peer_id,
    {
        &self.peer_id
    }
}

/// Calls `Keypair::sign` on the keypair of `key`. libp2p documents that the
/// signature "can be verified using the corresponding public key"; the
/// contract says so over [`signature_verifies`] and the public key that
/// [`SigningKey::new`] took from the same keypair. It also says that
/// signing succeeds: only RSA keys can fail to sign, and the libp2p built
/// here has no RSA support (its keypairs are ed25519 keys, whose `sign`
/// returns `Ok`). Which signature bytes come back is left to libp2p.
#[verifier::external_body]
pub(crate) fn keypair_sign(key: &SigningKey, message: &[u8]) -> (r: Result<Vec<u8>, libp2p::identity::SigningError>)
    ensures
        r is Ok,
        r matches Ok(signature) ==> signature_verifies(key@.public_key, message@, signature@),
{
    key.keypair.sign(message)
}

/// Whether `signature` is accepted for `message` by the public key whose
/// protobuf encoding (`PublicKey::encode_protobuf`) is `public_key`; false
/// where those bytes decode to no key.
pub uninterp spec fn signature_verifies(public_key: Seq<u8>, message: Seq<u8>, signature: Seq<u8>) -> bool;

/// Decodes `public_key` with `PublicKey::try_decode_protobuf` and calls
/// `PublicKey::verify` on the result; a key that does not decode accepts no
/// signature. The contract names the outcome; which signatures a key
/// accepts is left to libp2p.
#[verifier::external_body]
pub(crate) fn public_key_verify(public_key: &[u8], message: &[u8], signature: &[u8]) -> (r: bool)
    ensures
        r == signature_verifies(public_key@, message@, signature@),
{
    match libp2p::identity::PublicKey::try_decode_protobuf(public_key) {
        Ok(key) => key.verify(message, signature),
        Err(_) => false,
    }
}

/// The bytes (`PeerId::to_bytes`) of the peer id that `PeerId::from_str`
/// reads from the text; `None` where the text is not base-58 that decodes to
/// a multihash libp2p takes as a peer id.
pub uninterp spec fn peer_id_text_bytes(text: Seq<char>) -> Option<Seq<u8>>;

/// Calls `<PeerId as FromStr>::from_str` and gives the bytes of the parsed
/// peer id. The contract names the outcome; which texts parse, and to which
/// bytes, is left to libp2p.
#[verifier::external_body]
pub(crate) fn parse_peer_id(text: &str) -> (r: Option<Vec<u8>>)
    ensures
        r matches Some(bytes) ==> peer_id_text_bytes(text@) == Some(bytes@),
        r is None <==> peer_id_text_bytes(text@) is None,
{
    match <libp2p::PeerId as std::str::FromStr>::from_str(text) {
        Ok(id) => Some(id.to_bytes()),
        Err(_) => None,
    }
}

} // verus!
