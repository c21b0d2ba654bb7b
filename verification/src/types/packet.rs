use vstd::prelude::*;
use vstd::utf8::*;

use crate::bindings::{
    key_peer_id, keypair_sign, peer_id_digest, peer_id_of_public_key, public_key_verify, signature_verifies,
    SigningKey,
};
use crate::types::codec::{
    avatar_bytes, avatar_fits, avatar_from_bytes, avatar_of, avatar_to_bytes, lemma_avatar_round_trip,
    lemma_movement_round_trip, movement_bytes, movement_from_bytes, movement_of, movement_to_bytes,
};
use crate::types::error::{text_of, Error};
use crate::types::{Avatar, AvatarView};

verus! {

/// The UTF-8 bytes of the packet type `message`.
pub open spec fn message_tag() -> Seq<u8> {
    seq![109u8, 101u8, 115u8, 115u8, 97u8, 103u8, 101u8]
}

/// The characters of the packet type `message`.
pub open spec fn message_chars() -> Seq<char> {
    seq!['m', 'e', 's', 's', 'a', 'g', 'e']
}

/// The UTF-8 bytes of the packet type `voice`.
pub open spec fn voice_tag() -> Seq<u8> {
    seq![118u8, 111u8, 105u8, 99u8, 101u8]
}

/// The UTF-8 bytes of the packet type `movement`.
pub open spec fn movement_tag() -> Seq<u8> {
    seq![109u8, 111u8, 118u8, 101u8, 109u8, 101u8, 110u8, 116u8]
}

/// The UTF-8 bytes of the packet type `add_passport`.
pub open spec fn add_passport_tag() -> Seq<u8> {
    seq![97u8, 100u8, 100u8, 95u8, 112u8, 97u8, 115u8, 115u8, 112u8, 111u8, 114u8, 116u8]
}

/// The UTF-8 bytes of the packet type `set_avatar`.
pub open spec fn set_avatar_tag() -> Seq<u8> {
    seq![115u8, 101u8, 116u8, 95u8, 97u8, 118u8, 97u8, 116u8, 97u8, 114u8]
}

/// Whether `packet_type` names one of the basic kinds of packet.
pub open spec fn known_type(packet_type: Seq<u8>) -> bool {
    ||| packet_type == message_tag()
    ||| packet_type == voice_tag()
    ||| packet_type == movement_tag()
    ||| packet_type == add_passport_tag()
    ||| packet_type == set_avatar_tag()
}

/// The packet types that [`PacketData::from_bytes`] handles: every type
/// that is not UTF-8 (rejected with an error) and the basic kinds.
pub open spec fn decodable_type(packet_type: Seq<u8>) -> bool {
    !valid_utf8(packet_type) || known_type(packet_type)
}

/// What a packet of type `packet_type` with payload `data` decodes to: a
/// message or a passport where the payload is UTF-8 text, voice samples as
/// they are, a movement where the payload is its 144 bytes, an avatar where
/// the payload is its six text fields; nothing otherwise.
pub open spec fn decoded(packet_type: Seq<u8>, data: Seq<u8>) -> Option<PacketView> {
    if packet_type == message_tag() && valid_utf8(data) {
        Some(PacketView::Message(decode_utf8(data)))
    } else if packet_type == voice_tag() {
        Some(PacketView::Voice(data))
    } else if packet_type == movement_tag() && data.len() == 144 {
        Some(PacketView::Movement(movement_of(data)))
    } else if packet_type == add_passport_tag() && valid_utf8(data) {
        Some(PacketView::AddPassport(decode_utf8(data)))
    } else if packet_type == set_avatar_tag() && avatar_of(data) is Some {
        Some(PacketView::SetAvatar(avatar_of(data)->0))
    } else {
        None
    }
}

/// The eight big-endian bytes of `n`, as `u64::to_be_bytes` gives them.
pub open spec fn be_bytes(n: u64) -> Seq<u8> {
    seq![
        (n >> 56u64) as u8,
        (n >> 48u64) as u8,
        (n >> 40u64) as u8,
        (n >> 32u64) as u8,
        (n >> 24u64) as u8,
        (n >> 16u64) as u8,
        (n >> 8u64) as u8,
        n as u8,
    ]
}

/// The bytes that a packet's signature covers: its type, its payload, its
/// sequence number in big-endian order and the bytes of its source.
pub open spec fn signed_bytes(packet_type: Seq<u8>, data: Seq<u8>, sequence_number: u64, source: Seq<u8>) -> Seq<u8> {
    packet_type + data + be_bytes(sequence_number) + source
}

/// Whether `p` carries a signature that the public key whose protobuf
/// encoding is `public_key` accepts over the bytes that [`signed_bytes`]
/// describes.
pub open spec fn packet_verifies(public_key: Seq<u8>, p: RawPacketView) -> bool {
    p.signature matches Some(signature) && signature_verifies(
        public_key,
        signed_bytes(p.packet_type, p.data, p.sequence_number, p.source),
        signature,
    )
}

/// Whether `p` carries `data` in its wire form, numbered `sequence_number`
/// and sent by `source`.
pub open spec fn carries(p: RawPacketView, data: PacketView, sequence_number: u64, source: Seq<u8>) -> bool {
    &&& p.packet_type == data.wire_type()
    &&& p.data == data.wire_payload()
    &&& p.sequence_number == sequence_number
    &&& p.source == source
}

/// What a peer that checks `p` against the public key whose protobuf
/// encoding is `public_key` makes of it: the data it decodes to, and
/// whether its signature verified; `None` where it does not decode.
pub open spec fn received(p: RawPacketView, public_key: Seq<u8>) -> Option<(PacketView, bool)> {
    match decoded(p.packet_type, p.data) {
        Some(data) => Some((data, packet_verifies(public_key, p))),
        None => None,
    }
}

/// Whether `p` is signed by the peer it names as its source: its signature
/// verifies under a public key whose peer id is that source.
pub open spec fn signed_by_source(p: RawPacketView) -> bool {
    exists|public_key: Seq<u8>| #[trigger] key_peer_id(public_key) == p.source && packet_verifies(public_key, p)
}

/// The public key that a peer id holds inline, as `PeerId::from_public_key`
/// writes a key encoded in at most 42 bytes: the identity multihash code 0,
/// the length, then the key's protobuf encoding.
pub open spec fn inline_key(peer_id: Seq<u8>) -> Option<Seq<u8>> {
    if 2 <= peer_id.len() <= 44 && peer_id[0] == 0 && peer_id[1] == peer_id.len() - 2 {
        Some(peer_id.subrange(2, peer_id.len() as int))
    } else {
        None
    }
}

/// Whether `p` is signed with the key that its source's peer id holds
/// inline, that key's peer id being the source.
pub open spec fn signed_inline(p: RawPacketView) -> bool {
    inline_key(p.source) matches Some(k) && key_peer_id(k) == p.source && packet_verifies(k, p)
}

/// A packet signed with the key its source holds inline is signed by its
/// source.
pub proof fn lemma_signed_inline_is_signed_by_source(p: RawPacketView)
    requires
        signed_inline(p),
    ensures
        signed_by_source(p),
{
    let k = inline_key(p.source)->0;
    assert(key_peer_id(k) == p.source && packet_verifies(k, p));
}

/// A packet signed with a key arrives intact at a peer that checks it with
/// that key's public key: [`ValidPacket::new`] accepts it, decodes the data
/// that was signed, and marks it verified.
pub proof fn lemma_signed_packet_verifies(
    p: RawPacketView,
    data: PacketView,
    sequence_number: u64,
    source: Seq<u8>,
    public_key: Seq<u8>,
)
    requires
        data.fits_wire(),
        carries(p, data, sequence_number, source),
        packet_verifies(public_key, p),
    ensures
        decodable_type(p.packet_type),
        received(p, public_key) == Some((data, true)),
{
    lemma_wire_round_trip(data);
}

proof fn lemma_message_tag()
    ensures
        valid_utf8(message_tag()),
        decode_utf8(message_tag()) == message_chars(),
        encode_utf8(message_chars()) == message_tag(),
{
    let chars = message_chars();
    assert(is_ascii_chars(chars));
    is_ascii_chars_encode_utf8(chars);
    assert(encode_utf8(chars) =~= message_tag());
    encode_utf8_valid_utf8(chars);
    encode_utf8_decode_utf8(chars);
}

/// The packet types of the basic kinds are UTF-8 text and tell the kinds
/// apart.
pub proof fn lemma_tags()
    ensures
        valid_utf8(message_tag()),
        valid_utf8(voice_tag()),
        valid_utf8(movement_tag()),
        valid_utf8(add_passport_tag()),
        valid_utf8(set_avatar_tag()),
        message_tag().len() == 7,
        voice_tag().len() == 5,
        movement_tag().len() == 8,
        add_passport_tag().len() == 12,
        set_avatar_tag().len() == 10,
{
    lemma_message_tag();
    let voice = seq!['v', 'o', 'i', 'c', 'e'];
    assert(is_ascii_chars(voice));
    is_ascii_chars_encode_utf8(voice);
    assert(encode_utf8(voice) =~= voice_tag());
    encode_utf8_valid_utf8(voice);
    let movement = seq!['m', 'o', 'v', 'e', 'm', 'e', 'n', 't'];
    assert(is_ascii_chars(movement));
    is_ascii_chars_encode_utf8(movement);
    assert(encode_utf8(movement) =~= movement_tag());
    encode_utf8_valid_utf8(movement);
    let add_passport = seq!['a', 'd', 'd', '_', 'p', 'a', 's', 's', 'p', 'o', 'r', 't'];
    assert(is_ascii_chars(add_passport));
    is_ascii_chars_encode_utf8(add_passport);
    assert(encode_utf8(add_passport) =~= add_passport_tag());
    encode_utf8_valid_utf8(add_passport);
    let set_avatar = seq!['s', 'e', 't', '_', 'a', 'v', 'a', 't', 'a', 'r'];
    assert(is_ascii_chars(set_avatar));
    is_ascii_chars_encode_utf8(set_avatar);
    assert(encode_utf8(set_avatar) =~= set_avatar_tag());
    encode_utf8_valid_utf8(set_avatar);
}

/// The key of a packet names its kind: packets of different kinds have
/// different packet types, and every packet type is UTF-8 text.
pub proof fn lemma_wire_type_names_kind(p: PacketView, q: PacketView)
    ensures
        valid_utf8(p.wire_type()),
        known_type(p.wire_type()),
        p.wire_type() == q.wire_type() <==> p.same_kind(q),
{
    lemma_tags();
}

/// Decoding undoes encoding: the packet type and payload that
/// [`PacketData::as_bytes`] gives for a packet are accepted by
/// [`PacketData::from_bytes`] and decode back to the same packet.
pub proof fn lemma_wire_round_trip(p: PacketView)
    requires
        p.fits_wire(),
    ensures
        decodable_type(p.wire_type()),
        decoded(p.wire_type(), p.wire_payload()) == Some(p),
{
    lemma_tags();
    match p {
        PacketView::Message(s) => {
            encode_utf8_valid_utf8(s);
            encode_utf8_decode_utf8(s);
        },
        PacketView::Movement(m) => {
            lemma_movement_round_trip(m);
        },
        PacketView::AddPassport(s) => {
            encode_utf8_valid_utf8(s);
            encode_utf8_decode_utf8(s);
        },
        PacketView::SetAvatar(a) => {
            lemma_avatar_round_trip(a);
        },
        PacketView::Voice(_) => {},
    }
}

/// The data a packet carries.
///
/// `Movement` holds twelve 3-vectors, four for each of the head, right hand
/// and left hand transforms, as the bit patterns of their `f32` coordinates.
#[derive(Debug, Clone, PartialEq)]
pub enum PacketData {
    Message(String),
    Voice(Vec<u8>),
    Movement([[u32; 3]; 12]),
    AddPassport(String),
    SetAvatar(Avatar),
}

/// The mathematical value of a [`PacketData`].
pub enum PacketView {
    Message(Seq<char>),
    Voice(Seq<u8>),
    Movement([[u32; 3]; 12]),
    AddPassport(Seq<char>),
    SetAvatar(AvatarView),
}

impl View for PacketData {
    type V = PacketView;

    open spec fn view(&self) -> PacketView {
        match self {
            PacketData::Message(s) => PacketView::Message(s@),
            PacketData::Voice(v) => PacketView::Voice(v@),
            PacketData::Movement(m) => PacketView::Movement(*m),
            PacketData::AddPassport(s) => PacketView::AddPassport(s@),
            PacketData::SetAvatar(a) => PacketView::SetAvatar(a@),
        }
    }
}

impl PacketView {
    /// Whether the byte form of this packet can say how long each of its
    /// texts is: always so for the data of a [`PacketData`].
    pub open spec fn fits_wire(self) -> bool {
        self matches PacketView::SetAvatar(a) ==> avatar_fits(a)
    }

    /// Whether two packets are of the same kind.
    pub open spec fn same_kind(self, other: PacketView) -> bool {
        ||| self is Message && other is Message
        ||| self is Voice && other is Voice
        ||| self is Movement && other is Movement
        ||| self is AddPassport && other is AddPassport
        ||| self is SetAvatar && other is SetAvatar
    }

    /// The packet type that names this kind of packet on the wire.
    pub open spec fn wire_type(self) -> Seq<u8> {
        match self {
            PacketView::Message(_) => message_tag(),
            PacketView::Voice(_) => voice_tag(),
            PacketView::Movement(_) => movement_tag(),
            PacketView::AddPassport(_) => add_passport_tag(),
            PacketView::SetAvatar(_) => set_avatar_tag(),
        }
    }

    /// The payload bytes of this packet: the UTF-8 encoding of a message or
    /// passport, voice samples as they are, the bytes of a movement or an
    /// avatar.
    pub open spec fn wire_payload(self) -> Seq<u8> {
        match self {
            PacketView::Message(s) => encode_utf8(s),
            PacketView::Voice(v) => v,
            PacketView::Movement(m) => movement_bytes(m),
            PacketView::AddPassport(s) => encode_utf8(s),
            PacketView::SetAvatar(a) => avatar_bytes(a),
        }
    }
}

fn movement_tag_bytes() -> (r: Vec<u8>)
    ensures
        r@ == movement_tag(),
{
    let r = vec![109u8, 111u8, 118u8, 101u8, 109u8, 101u8, 110u8, 116u8];
    assert(r@ =~= movement_tag());
    r
}

fn add_passport_tag_bytes() -> (r: Vec<u8>)
    ensures
        r@ == add_passport_tag(),
{
    let r = vec![97u8, 100u8, 100u8, 95u8, 112u8, 97u8, 115u8, 115u8, 112u8, 111u8, 114u8, 116u8];
    assert(r@ =~= add_passport_tag());
    r
}

fn set_avatar_tag_bytes() -> (r: Vec<u8>)
    ensures
        r@ == set_avatar_tag(),
{
    let r = vec![115u8, 101u8, 116u8, 95u8, 97u8, 118u8, 97u8, 116u8, 97u8, 114u8];
    assert(r@ =~= set_avatar_tag());
    r
}

fn message_tag_bytes() -> (r: Vec<u8>)
    ensures
        r@ == message_tag(),
{
    let r = vec![109u8, 101u8, 115u8, 115u8, 97u8, 103u8, 101u8];
    assert(r@ =~= message_tag());
    r
}

fn voice_tag_bytes() -> (r: Vec<u8>)
    ensures
        r@ == voice_tag(),
{
    let r = vec![118u8, 111u8, 105u8, 99u8, 101u8];
    assert(r@ =~= voice_tag());
    r
}

/// Appends `bytes` to `out`.
pub(crate) fn append_bytes(out: &mut Vec<u8>, bytes: &[u8])
    ensures
        final(out)@ == old(out)@ + bytes@,
{
    let ghost start = out@;
    let mut i: usize = 0;
    while i < bytes.len()
        invariant
            i <= bytes@.len(),
            out@ == start + bytes@.subrange(0, i as int),
        decreases bytes@.len() - i,
    {
        out.push(bytes[i]);
        i = i + 1;
        assert(out@ =~= start + bytes@.subrange(0, i as int));
    }
    assert(bytes@.subrange(0, i as int) =~= bytes@);
}

/// The big-endian bytes of `n`.
pub(crate) fn u64_to_be_bytes(n: u64) -> (r: Vec<u8>)
    ensures
        r@ == be_bytes(n),
{
    let r = vec![
        (n >> 56u64) as u8,
        (n >> 48u64) as u8,
        (n >> 40u64) as u8,
        (n >> 32u64) as u8,
        (n >> 24u64) as u8,
        (n >> 16u64) as u8,
        (n >> 8u64) as u8,
        n as u8,
    ];
    assert(r@ =~= be_bytes(n));
    r
}

/// The bytes that a packet's signature covers.
pub fn signing_message(packet_type: &[u8], data: &[u8], sequence_number: u64, source: &[u8]) -> (r: Vec<u8>)
    ensures
        r@ == signed_bytes(packet_type@, data@, sequence_number, source@),
{
    let mut message: Vec<u8> = Vec::new();
    append_bytes(&mut message, packet_type);
    append_bytes(&mut message, data);
    let seq_bytes = u64_to_be_bytes(sequence_number);
    append_bytes(&mut message, seq_bytes.as_slice());
    append_bytes(&mut message, source);
    assert(message@ =~= signed_bytes(packet_type@, data@, sequence_number, source@));
    message
}

/// Copies a byte slice into a new vector.
pub(crate) fn bytes_to_vec(bytes: &[u8]) -> (r: Vec<u8>)
    ensures
        r@ == bytes@,
{
    let mut r: Vec<u8> = Vec::new();
    append_bytes(&mut r, bytes);
    assert(r@ =~= bytes@);
    r
}

impl PacketData {
    /// The packet type and payload bytes of a packet: its key, which names
    /// its kind, and its value.
    pub fn as_bytes(&self) -> (r: (Vec<u8>, Vec<u8>))
        ensures
            r.0@ == self@.wire_type(),
            r.1@ == self@.wire_payload(),
    {
        match self {
            PacketData::Message(message) => {
                (message_tag_bytes(), bytes_to_vec(message.as_str().as_bytes()))
            },
            PacketData::Voice(voice_data) => (voice_tag_bytes(), bytes_to_vec(voice_data.as_slice())),
            PacketData::Movement(m) => (movement_tag_bytes(), movement_to_bytes(m)),
            PacketData::AddPassport(passport) => {
                (add_passport_tag_bytes(), bytes_to_vec(passport.as_str().as_bytes()))
            },
            PacketData::SetAvatar(avatar) => (set_avatar_tag_bytes(), avatar_to_bytes(avatar)),
        }
    }

    /// Decodes a packet from its type and payload bytes. The type must be
    /// UTF-8 text; the payload must have the form its type calls for.
    pub fn from_bytes(packet_type: Vec<u8>, data: Vec<u8>) -> (r: Result<Self, Error>)
        requires
            decodable_type(packet_type@),
        ensures
            r is Ok <==> decoded(packet_type@, data@) is Some,
            r matches Ok(p) ==> decoded(packet_type@, data@) == Some(p@),
            r matches Err(e) ==> e is Utf8 || e is Malformed,
            !valid_utf8(packet_type@) ==> (r matches Err(Error::Utf8(e)) && e@ == packet_type@),
            (packet_type@ == message_tag() || packet_type@ == add_passport_tag()) && !valid_utf8(data@) ==> (r matches Err(
                Error::Utf8(e),
            ) && e@ == data@),
            packet_type@ == movement_tag() && data@.len() != 144 ==> (r matches Err(e) && e is Malformed),
    {
        let is_message = packet_type == message_tag_bytes();
        let is_voice = packet_type == voice_tag_bytes();
        let is_movement = packet_type == movement_tag_bytes();
        let is_passport = packet_type == add_passport_tag_bytes();
        let is_avatar = packet_type == set_avatar_tag_bytes();
        proof {
            lemma_tags();
        }
        match text_of(packet_type) {
            Err(e) => Err(Error::Utf8(e)),
            Ok(_) => {
                if is_message {
                    match text_of(data) {
                        Err(e) => Err(Error::Utf8(e)),
                        Ok(text) => Ok(PacketData::Message(text)),
                    }
                } else if is_voice {
                    Ok(PacketData::Voice(data))
                } else if is_movement {
                    if data.len() == 144 {
                        Ok(PacketData::Movement(movement_from_bytes(data.as_slice())))
                    } else {
                        Err(Error::Malformed)
                    }
                } else if is_passport {
                    match text_of(data) {
                        Err(e) => Err(Error::Utf8(e)),
                        Ok(text) => Ok(PacketData::AddPassport(text)),
                    }
                } else if is_avatar {
                    match avatar_from_bytes(data.as_slice()) {
                        Ok(avatar) => Ok(PacketData::SetAvatar(avatar)),
                        Err(e) => Err(e),
                    }
                } else {
                    proof {
                        assert(false);
                    }
                    Err(Error::Infallible)
                }
            },
        }
    }

    /// Decodes the data of a raw packet.
    pub fn try_from(value: RawPacket) -> (r: Result<PacketData, Error>)
        requires
            decodable_type(value.packet_type@),
        ensures
            r is Ok <==> decoded(value.packet_type@, value.data@) is Some,
            r matches Ok(p) ==> decoded(value.packet_type@, value.data@) == Some(p@),
            r matches Err(e) ==> e is Utf8 || e is Malformed,
    {
        PacketData::from_bytes(value.packet_type, value.data)
    }
}

/// A packet as it travels between peers.
#[derive(Debug)]
pub struct RawPacket {
    pub packet_type: Vec<u8>,
    pub data: Vec<u8>,
    pub sequence_number: u64,
    pub source: Vec<u8>,
    pub signature: Option<Vec<u8>>,
}

/// The mathematical value of a [`RawPacket`].
pub struct RawPacketView {
    pub packet_type: Seq<u8>,
    pub data: Seq<u8>,
    pub sequence_number: u64,
    pub source: Seq<u8>,
    pub signature: Option<Seq<u8>>,
}

impl View for RawPacket {
    type V = RawPacketView;

    open spec fn view(&self) -> RawPacketView {
        RawPacketView {
            packet_type: self.packet_type@,
            data: self.data@,
            sequence_number: self.sequence_number,
            source: self.source@,
            signature: match self.signature {
                Some(s) => Some(s@),
                None => None,
            },
        }
    }
}

impl Clone for RawPacket {
    fn clone(&self) -> (r: Self)
        ensures
            r@ == self@,
    {
        let signature = match &self.signature {
            Some(s) => Some(bytes_to_vec(s.as_slice())),
            None => None,
        };
        RawPacket {
            packet_type: bytes_to_vec(self.packet_type.as_slice()),
            data: bytes_to_vec(self.data.as_slice()),
            sequence_number: self.sequence_number,
            source: bytes_to_vec(self.source.as_slice()),
            signature,
        }
    }
}

impl RawPacket {
    /// Builds a packet from `data` with no signature.
    pub fn new_unsigned(data: PacketData, sequence_number: u64, source: Vec<u8>) -> (r: Self)
        ensures
            r@ == (RawPacketView {
                packet_type: data@.wire_type(),
                data: data@.wire_payload(),
                sequence_number,
                source: source@,
                signature: None,
            }),
    {
        let (packet_type, data) = data.as_bytes();
        RawPacket { packet_type, data, sequence_number, source, signature: None }
    }

    /// Builds a packet from `data` and signs it with `key`. The signature
    /// covers the packet type, the payload, the big-endian sequence number
    /// and the source bytes, in that order, and `key`'s public key accepts
    /// it.
    pub fn new_signed(data: PacketData, sequence_number: u64, key: &SigningKey, source: Vec<u8>) -> (r: Result<Self, Error>)
        ensures
            r matches Ok(p) && carries(p@, data@, sequence_number, source@) && packet_verifies(key@.public_key, p@),
    {
        let (packet_type, data) = data.as_bytes();
        let message = signing_message(packet_type.as_slice(), data.as_slice(), sequence_number, source.as_slice());
        match keypair_sign(key, message.as_slice()) {
            Ok(signature) => Ok(RawPacket { packet_type, data, sequence_number, source, signature: Some(signature) }),
            Err(err) => Err(Error::Signing(err)),
        }
    }
}

/// A packet whose data has been decoded, with the outcome of checking its
/// signature.
#[derive(Debug, Clone)]
pub struct ValidPacket {
    pub data: PacketData,
    pub source: Vec<u8>,
    pub sequence_number: u64,
    pub verified: bool,
}

impl ValidPacket {
    /// Decodes `packet` as coming from the peer `peer_id`. Gives `None` when
    /// the packet does not decode. A packet without a signature is never
    /// marked verified; one with a signature is verified against `key` (a
    /// public key in its protobuf encoding) over the bytes that
    /// [`signed_bytes`] describes.
    pub fn new(packet: RawPacket, key: Vec<u8>, peer_id: Vec<u8>) -> (r: Option<Self>)
        requires
            decodable_type(packet.packet_type@),
        ensures
            r is Some <==> received(packet@, key@) is Some,
            r matches Some(v) ==> {
                &&& received(packet@, key@) == Some((v.data@, v.verified))
                &&& v.source@ == peer_id@
                &&& v.sequence_number == packet.sequence_number
            },
    {
        let data = match PacketData::from_bytes(
            bytes_to_vec(packet.packet_type.as_slice()),
            bytes_to_vec(packet.data.as_slice()),
        ) {
            Ok(data) => data,
            Err(_) => {
                return None;
            },
        };
        let sequence_number = packet.sequence_number;
        match packet.signature {
            None => Some(ValidPacket { data, source: peer_id, sequence_number, verified: false }),
            Some(signature) => {
                let message = signing_message(
                    packet.packet_type.as_slice(),
                    packet.data.as_slice(),
                    packet.sequence_number,
                    packet.source.as_slice(),
                );
                let verified = public_key_verify(key.as_slice(), message.as_slice(), signature.as_slice());
                Some(ValidPacket { data, source: peer_id, sequence_number, verified })
            },
        }
    }
}

/// The public key that the peer id `source` holds inline, if any.
fn inline_key_of(source: &[u8]) -> (r: Option<Vec<u8>>)
    ensures
        match inline_key(source@) {
            Some(k) => r matches Some(v) && v@ == k,
            None => r is None,
        },
{
    let n = source.len();
    if 2 <= n && n <= 44 && source[0] == 0 && (source[1] as usize) == n - 2 {
        let mut key: Vec<u8> = Vec::new();
        let mut i: usize = 2;
        while i < n
            invariant
                n == source@.len(),
                2 <= i <= n,
                key@ == source@.subrange(2, i as int),
            decreases n - i,
        {
            key.push(source[i]);
            i = i + 1;
            assert(key@ =~= source@.subrange(2, i as int));
        }
        Some(key)
    } else {
        None
    }
}

/// Decodes `packet` as coming from the peer it names as its source, and
/// checks its signature against that peer's own public key: the key that
/// the source's peer id holds, taken only where its peer id is the source.
/// A packet whose source holds no such key is never marked verified.
pub fn validate_from_source(packet: RawPacket) -> (r: Option<ValidPacket>)
    requires
        decodable_type(packet.packet_type@),
    ensures
        r is Some <==> decoded(packet.packet_type@, packet.data@) is Some,
        r matches Some(v) ==> {
            &&& decoded(packet.packet_type@, packet.data@) == Some(v.data@)
            &&& v.source@ == packet.source@
            &&& v.sequence_number == packet.sequence_number
            &&& (v.verified ==> signed_by_source(packet@))
            &&& (packet.signature is None ==> !v.verified)
            &&& (inline_key(packet@.source) matches Some(k) ==> (key_peer_id(k) == packet@.source ==> (v.verified
                <==> packet_verifies(k, packet@))))
            &&& (signed_inline(packet@) ==> v.verified)
        },
{
    let ghost original = packet@;
    let source = bytes_to_vec(packet.source.as_slice());
    let candidate = match inline_key_of(packet.source.as_slice()) {
        Some(k) => Some(k),
        None => peer_id_digest(packet.source.as_slice()),
    };
    let key = match candidate {
        Some(candidate) => match peer_id_of_public_key(candidate.as_slice()) {
            Some(id) => {
                let same = id == source;
                proof {
                    assert(same == (id@ =~= source@));
                }
                if same {
                    Some(candidate)
                } else {
                    None
                }
            },
            None => None,
        },
        None => None,
    };
    match key {
        Some(key) => {
            let ghost k = key@;
            let r = ValidPacket::new(packet, key, source);
            proof {
                if r is Some && r->0.verified {
                    assert(key_peer_id(k) == original.source && packet_verifies(k, original));
                }
            }
            r
        },
        None => {
            proof {
                if let Some(k0) = inline_key(original.source) {
                    if key_peer_id(k0) == original.source {
                        assert(!packet_verifies(k0, original));
                    }
                }
            }
            let unsigned = RawPacket {
                packet_type: packet.packet_type,
                data: packet.data,
                sequence_number: packet.sequence_number,
                source: packet.source,
                signature: None,
            };
            ValidPacket::new(unsigned, Vec::new(), source)
        },
    }
}

} // verus!
