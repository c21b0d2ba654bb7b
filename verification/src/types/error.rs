use vstd::prelude::*;
use vstd::utf8::*;

use crate::bindings::str_from_utf8;

verus! {

/// Bytes that are not valid UTF-8, kept together with std's account of
/// where they stop being so.
#[derive(Debug)]
pub struct Utf8Rejection {
    bytes: Vec<u8>,
    error: std::str::Utf8Error,
}

impl View for Utf8Rejection {
    type V = Seq<u8>;

    /// The rejected bytes.
    closed spec fn view(&self) -> Seq<u8> {
        self.bytes@
    }
}

impl Utf8Rejection {
    /// The rejected bytes.
    pub fn as_bytes(&self) -> (r: &[u8])
        ensures
            r@ == self@,
    {
        self.bytes.as_slice()
    }

    /// Gives back the rejected bytes.
    pub fn into_bytes(self) -> (r: Vec<u8>)
        ensures
            r@ == self@,
    {
        self.bytes
    }

    /// Where the bytes stop being UTF-8.
    pub fn utf8_error(&self) -> &std::str::Utf8Error {
        &self.error
    }
}

/// The text that `bytes` encode, or the bytes back where they are not
/// UTF-8.
pub fn text_of(bytes: Vec<u8>) -> (r: Result<String, Utf8Rejection>)
    ensures
        r is Ok <==> valid_utf8(bytes@),
        r matches Ok(s) ==> s@ == decode_utf8(bytes@),
        r matches Err(e) ==> e@ == bytes@,
{
    let checked = match str_from_utf8(bytes.as_slice()) {
        Ok(text) => Ok(text.to_owned()),
        Err(error) => Err(error),
    };
    match checked {
        Ok(text) => Ok(text),
        Err(error) => Err(Utf8Rejection { bytes, error }),
    }
}

/// Errors raised while encoding, decoding or signing packets.
#[derive(Debug)]
pub enum Error {
    /// An infallible conversion failed; never produced.
    Infallible,
    /// Signing a packet with the local keypair failed.
    Signing(libp2p::identity::SigningError),
    /// A packet's type or payload was not valid UTF-8; the error holds the
    /// rejected bytes.
    Utf8(Utf8Rejection),
    /// A packet's payload does not have the layout its type calls for.
    Malformed,
}

} // verus!
