//! What the Godot extension emits for each response of a network: the
//! engine-independent part of its polling.

use vstd::prelude::*;

use crate::types::{AvatarView, ClientResponse, NetworkUpdate, PacketData, PacketView, Response, ResponseView};
use crate::network::untrusted;
use crate::types::packet::signed_by_source;
use crate::types::Avatar;

verus! {

/// A signal of the Godot extension; peers are named by their peer id bytes
/// (the extension shows them in base 58).
pub enum Signal {
    /// A peer connected.
    Connected,
    /// A peer disconnected.
    Disconnected,
    /// A peer sent voice samples.
    VoipData(Vec<u8>, Vec<u8>),
    /// A peer sent a text message.
    Message(Vec<u8>, String),
    /// A peer moved: twelve 3-vectors as `f32` bit patterns.
    Movement(Vec<u8>, [[u32; 3]; 12]),
    /// A peer changed its avatar.
    SetAvatar(Vec<u8>, Avatar),
    /// The network listens on this address; the extension prints it.
    Alive(String),
    /// Nothing to emit.
    Nothing,
}

/// The mathematical value of a [`Signal`].
pub enum SignalView {
    Connected,
    Disconnected,
    VoipData(Seq<u8>, Seq<u8>),
    Message(Seq<u8>, Seq<char>),
    Movement(Seq<u8>, [[u32; 3]; 12]),
    SetAvatar(Seq<u8>, AvatarView),
    Alive(Seq<char>),
    Nothing,
}

impl View for Signal {
    type V = SignalView;

    open spec fn view(&self) -> SignalView {
        match self {
            Signal::Connected => SignalView::Connected,
            Signal::Disconnected => SignalView::Disconnected,
            Signal::VoipData(p, d) => SignalView::VoipData(p@, d@),
            Signal::Message(p, t) => SignalView::Message(p@, t@),
            Signal::Movement(p, m) => SignalView::Movement(p@, *m),
            Signal::SetAvatar(p, a) => SignalView::SetAvatar(p@, a@),
            Signal::Alive(a) => SignalView::Alive(a@),
            Signal::Nothing => SignalView::Nothing,
        }
    }
}

/// The signal for a response.
pub open spec fn signal_of(response: ResponseView) -> SignalView {
    match response {
        ResponseView::Client { peer, data } => match data {
            PacketView::Voice(d) => SignalView::VoipData(peer, d),
            PacketView::Message(t) => SignalView::Message(peer, t),
            PacketView::Movement(m) => SignalView::Movement(peer, m),
            PacketView::SetAvatar(a) => SignalView::SetAvatar(peer, a),
            PacketView::AddPassport(_) => SignalView::Nothing,
        },
        ResponseView::AliveWithAddr(a) => SignalView::Alive(a),
        ResponseView::NewPeer(_) => SignalView::Connected,
        ResponseView::PeerDisconnected(_) => SignalView::Disconnected,
        _ => SignalView::Nothing,
    }
}

/// The peer a signal is about, for the signals that carry what a peer sent.
pub open spec fn signal_peer(signal: SignalView) -> Option<Seq<u8>> {
    match signal {
        SignalView::VoipData(p, _) => Some(p),
        SignalView::Message(p, _) => Some(p),
        SignalView::Movement(p, _) => Some(p),
        SignalView::SetAvatar(p, _) => Some(p),
        _ => None,
    }
}

/// The packet data a signal about a peer carries.
pub open spec fn signal_data(signal: SignalView) -> Option<PacketView> {
    match signal {
        SignalView::VoipData(_, d) => Some(PacketView::Voice(d)),
        SignalView::Message(_, t) => Some(PacketView::Message(t)),
        SignalView::Movement(_, m) => Some(PacketView::Movement(m)),
        SignalView::SetAvatar(_, a) => Some(PacketView::SetAvatar(a)),
        _ => None,
    }
}

/// A signal about what a peer sent names that peer and carries the data
/// exactly as it was sent: voice samples, text, the twelve movement vectors
/// in their order (head, right hand, left hand) and the avatar unchanged.
pub proof fn lemma_signal_carries_what_was_sent(peer: Seq<u8>, data: PacketView)
    requires
        !(data is AddPassport),
    ensures
        signal_peer(signal_of(ResponseView::Client { peer, data })) == Some(peer),
        signal_data(signal_of(ResponseView::Client { peer, data })) == Some(data),
{
}

/// On an untrusted network every signal about a peer stands for a message
/// signed by that peer: the packet it came from names the peer as its
/// source, and its signature verifies under a public key whose peer id is
/// that peer.
pub proof fn lemma_untrusted_peer_signals_are_signed(event: untrusted::NetworkEventView, response: ResponseView)
    requires
        untrusted::reports(event, response),
    ensures
        signal_peer(signal_of(response)) matches Some(peer) ==> (event matches untrusted::NetworkEventView::Message(
            _,
            raw,
        ) && raw.source == peer && signed_by_source(raw)),
{
    if signal_peer(signal_of(response)) is Some {
        untrusted::lemma_reports_are_signed(event, response);
    }
}

/// Decides which signal the extension emits for a response. Passports that
/// peers add are not handled yet.
pub fn poll_signal(event: Response) -> (r: Signal)
    requires
        !(event@ matches ResponseView::Client { data: PacketView::AddPassport(_), .. }),
    ensures
        r@ == signal_of(event@),
        event@ matches ResponseView::Client { peer, data: PacketView::Movement(m) } ==> r@ == SignalView::Movement(
            peer,
            m,
        ),
        event@ matches ResponseView::Client { peer, data: PacketView::Voice(d) } ==> r@ == SignalView::VoipData(
            peer,
            d,
        ),
        event@ matches ResponseView::Client { peer, data: PacketView::Message(t) } ==> r@ == SignalView::Message(
            peer,
            t,
        ),
        event@ matches ResponseView::Client { peer, data: PacketView::SetAvatar(a) } ==> r@ == SignalView::SetAvatar(
            peer,
            a,
        ),
{
    match event {
        Response::Server(_server_response) => Signal::Nothing,
        Response::Client(client_response) => {
            let ClientResponse { peer, data } = client_response;
            match data {
                PacketData::Voice(data) => Signal::VoipData(peer, data),
                PacketData::Message(text) => Signal::Message(peer, text),
                PacketData::Movement(floats) => Signal::Movement(peer, floats),
                PacketData::SetAvatar(avatar) => Signal::SetAvatar(peer, avatar),
                PacketData::AddPassport(_passport) => {
                    proof {
                        assert(false);
                    }
                    Signal::Nothing
                },
            }
        },
        Response::Network(network_update) => match network_update {
            NetworkUpdate::AliveWithAddr(addr) => Signal::Alive(addr),
            NetworkUpdate::NewPeer(_peer_id) => Signal::Connected,
            NetworkUpdate::PeerDisconnected(_peer_id) => Signal::Disconnected,
            NetworkUpdate::Disconnected => Signal::Nothing,
        },
    }
}

} // verus!
