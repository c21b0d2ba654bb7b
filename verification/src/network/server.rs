//! The gossip hub network: a hub relays a `chat` topic between the peers
//! connected to it.

use vstd::prelude::*;
use vstd::utf8::*;

use crate::types::packet::bytes_to_vec;
use crate::types::{ClientResponse, NetworkUpdate, PacketData, PacketView, Response, ResponseView};

pub use crate::network::untrusted::ServerUpdate;

verus! {

/// What the swarm of a gossip hub reports, as plain values; peers are named
/// by the bytes of their peer ids.
pub enum NetworkEvent {
    /// The node listens on a new address.
    NewListenAddr(String),
    /// A connection to a peer is open.
    ConnectionEstablished(Vec<u8>),
    /// A peer does not speak the gossip protocol.
    GossipsubNotSupported(Vec<u8>),
    /// A peer sent a request on the `/evergreen` protocol.
    Request(Vec<u8>, ServerUpdate),
    /// A gossip message carried packet data from a peer.
    Message(Vec<u8>, PacketData),
    /// The connection to a peer closed.
    ConnectionClosed(Vec<u8>),
    /// Any other swarm or behaviour event.
    Other,
}

/// What a gossip hub must do after an event or a command.
pub enum Action {
    /// Report to the application.
    Report(Response),
    /// Gossip with this peer directly.
    AddExplicitPeer(Vec<u8>),
    /// Close the connections to this peer.
    DisconnectPeer(Vec<u8>),
    /// Publish these bytes on the `chat` topic.
    Publish(Vec<u8>),
}

/// The mathematical value of an [`Action`].
pub enum ActionView {
    Report(ResponseView),
    AddExplicitPeer(Seq<u8>),
    DisconnectPeer(Seq<u8>),
    Publish(Seq<u8>),
}

impl View for Action {
    type V = ActionView;

    open spec fn view(&self) -> ActionView {
        match self {
            Action::Report(r) => ActionView::Report(r@),
            Action::AddExplicitPeer(p) => ActionView::AddExplicitPeer(p@),
            Action::DisconnectPeer(p) => ActionView::DisconnectPeer(p@),
            Action::Publish(b) => ActionView::Publish(b@),
        }
    }
}

/// Decides what a gossip hub does on an event of its swarm. Requests on the
/// `/evergreen` protocol are not handled yet.
pub fn handle_event(event: NetworkEvent) -> (r: Option<Action>)
    requires
        !(event is Request),
    ensures
        match event {
            NetworkEvent::NewListenAddr(a) => r matches Some(x) && x@ == ActionView::Report(
                ResponseView::AliveWithAddr(a@),
            ),
            NetworkEvent::ConnectionEstablished(p) => r matches Some(x) && x@ == ActionView::AddExplicitPeer(p@),
            NetworkEvent::GossipsubNotSupported(p) => r matches Some(x) && x@ == ActionView::DisconnectPeer(p@),
            NetworkEvent::Message(p, d) => r matches Some(x) && x@ == ActionView::Report(
                ResponseView::Client { peer: p@, data: d@ },
            ),
            _ => r is None,
        },
{
    match event {
        NetworkEvent::NewListenAddr(address) => Some(
            Action::Report(Response::Network(NetworkUpdate::AliveWithAddr(address))),
        ),
        NetworkEvent::ConnectionEstablished(peer_id) => Some(Action::AddExplicitPeer(peer_id)),
        NetworkEvent::GossipsubNotSupported(peer) => Some(Action::DisconnectPeer(peer)),
        NetworkEvent::Request(_peer, _packet) => {
            proof {
                assert(false);
            }
            None
        },
        NetworkEvent::Message(peer_id, data) => Some(
            Action::Report(Response::Client(ClientResponse { peer: peer_id, data })),
        ),
        NetworkEvent::ConnectionClosed(_) => None,
        NetworkEvent::Other => None,
    }
}

/// Decides what a gossip hub does with data the application sends: a
/// message is published on the `chat` topic as its UTF-8 bytes. Other kinds
/// of data are not handled yet.
pub fn handle_command(command: PacketData) -> (r: Action)
    requires
        command is Message,
    ensures
        command matches PacketData::Message(m) && r@ == ActionView::Publish(encode_utf8(m@)),
{
    match command {
        PacketData::Message(msg) => Action::Publish(bytes_to_vec(msg.as_str().as_bytes())),
        _ => {
            proof {
                assert(false);
            }
            Action::Publish(Vec::new())
        },
    }
}

} // verus!
