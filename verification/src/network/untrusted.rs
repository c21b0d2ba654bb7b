//! The untrusted hub network: peers connect to a hub that relays their
//! packets; every packet a peer sends is signed by that peer.

use vstd::prelude::*;

use crate::network::peers::{after_connect, after_packet, PeerTable};
use crate::types::packet::{decodable_type, decoded, signed_by_source, signed_inline, validate_from_source};
use crate::types::{
    ClientCommand, ClientResponse, Command, NetworkUpdate, PacketData, Peer, PeerView, RawPacket,
    RawPacketView, Response, ResponseView,
};

verus! {

/// What one peer tells another about the peers it knows.
#[derive(Debug, Clone, PartialEq, Eq)]
pub enum ServerUpdate {
    Peers(Vec<Peer>),
}

/// What the swarm of an untrusted network reports, as plain values; peers
/// are named by the bytes of their peer ids.
pub enum NetworkEvent {
    /// The node listens on a new address.
    NewListenAddr(String),
    /// A connection to a peer is open.
    ConnectionEstablished(Vec<u8>),
    /// A peer sent a request on the `/evergreen` protocol.
    Request(Vec<u8>, ServerUpdate),
    /// A peer delivered a packet, as it came off the wire.
    Message(Vec<u8>, RawPacket),
    /// The connection to a peer closed.
    ConnectionClosed(Vec<u8>),
    /// Any other swarm or behaviour event.
    Other,
}

/// The mathematical value of a [`NetworkEvent`].
pub enum NetworkEventView {
    NewListenAddr(Seq<char>),
    ConnectionEstablished(Seq<u8>),
    Request(Seq<u8>),
    /// The delivering peer, then the packet.
    Message(Seq<u8>, RawPacketView),
    ConnectionClosed(Seq<u8>),
    Other,
}

impl View for NetworkEvent {
    type V = NetworkEventView;

    open spec fn view(&self) -> NetworkEventView {
        match self {
            NetworkEvent::NewListenAddr(a) => NetworkEventView::NewListenAddr(a@),
            NetworkEvent::ConnectionEstablished(p) => NetworkEventView::ConnectionEstablished(p@),
            NetworkEvent::Request(p, _) => NetworkEventView::Request(p@),
            NetworkEvent::Message(p, raw) => NetworkEventView::Message(p@, raw@),
            NetworkEvent::ConnectionClosed(p) => NetworkEventView::ConnectionClosed(p@),
            NetworkEvent::Other => NetworkEventView::Other,
        }
    }
}

/// The events an untrusted network handles: every event but a request, and
/// delivered packets whose type it can decode.
pub open spec fn handled_event(event: NetworkEventView) -> bool {
    &&& !(event is Request)
    &&& event matches NetworkEventView::Message(_, raw) ==> decodable_type(raw.packet_type)
}

/// The peers after an event that led to `report`: a delivered packet that
/// is reported changes what its source's entry shows, one that is dropped
/// changes nothing.
pub open spec fn peers_after(
    peers: Map<Seq<u8>, PeerView>,
    event: NetworkEventView,
    report: Option<ResponseView>,
) -> Map<Seq<u8>, PeerView> {
    match event {
        NetworkEventView::ConnectionEstablished(p) => after_connect(peers, p),
        NetworkEventView::Message(_, _) => match report {
            Some(ResponseView::Client { peer, data }) => after_packet(peers, peer, data),
            _ => peers,
        },
        _ => peers,
    }
}

/// What the network reports to the application after an event other than
/// a delivered packet.
pub open spec fn response_to(event: NetworkEventView) -> Option<ResponseView> {
    match event {
        NetworkEventView::NewListenAddr(a) => Some(ResponseView::AliveWithAddr(a)),
        NetworkEventView::ConnectionEstablished(p) => Some(ResponseView::NewPeer(p)),
        NetworkEventView::ConnectionClosed(p) => Some(ResponseView::PeerDisconnected(p)),
        _ => None,
    }
}

/// Whether `response` is something the network may report after `event`:
/// the report of a network event, or, for a delivered packet that is
/// signed by the peer it names as its source, the data it carries as sent
/// by that peer.
pub open spec fn reports(event: NetworkEventView, response: ResponseView) -> bool {
    match event {
        NetworkEventView::Message(_, raw) => {
            &&& signed_by_source(raw)
            &&& decoded(raw.packet_type, raw.data) matches Some(data)
            &&& response == ResponseView::Client { peer: raw.source, data }
        },
        _ => response_to(event) == Some(response),
    }
}

/// A network report answers the event it is about: a new listen address
/// is reported with that address, a connection and a closed connection with
/// the peer concerned, and nothing else is reported as either.
pub proof fn lemma_reports_follow_events(event: NetworkEventView)
    ensures
        response_to(event) matches Some(ResponseView::AliveWithAddr(a)) ==> event == NetworkEventView::NewListenAddr(a),
        response_to(event) matches Some(ResponseView::NewPeer(p)) ==> event
            == NetworkEventView::ConnectionEstablished(p),
        response_to(event) matches Some(ResponseView::PeerDisconnected(p)) ==> event
            == NetworkEventView::ConnectionClosed(p),
        event matches NetworkEventView::NewListenAddr(a) ==> response_to(event) == Some(ResponseView::AliveWithAddr(a)),
        event matches NetworkEventView::ConnectionEstablished(p) ==> response_to(event) == Some(ResponseView::NewPeer(p)),
        event matches NetworkEventView::ConnectionClosed(p) ==> response_to(event) == Some(
            ResponseView::PeerDisconnected(p),
        ),
        event is Other ==> response_to(event) is None,
{
}

/// No event makes an untrusted network forget a peer: a closed connection
/// is reported, but the peer keeps its entry.
pub proof fn lemma_events_keep_peers(
    peers: Map<Seq<u8>, PeerView>,
    event: NetworkEventView,
    report: Option<ResponseView>,
)
    ensures
        peers.dom().subset_of(peers_after(peers, event, report).dom()),
        event is ConnectionClosed ==> peers_after(peers, event, report) == peers,
{
    if let NetworkEventView::Message(_, _) = event {
        if let Some(ResponseView::Client { peer, data }) = report {
            crate::network::peers::lemma_packet_keeps_peers(peers, peer, data);
        }
    }
}

/// Everything an untrusted network reports as sent by a peer was signed by
/// that peer: it comes from a delivered packet that names the peer as its
/// source and whose signature verifies under a public key whose peer id is
/// that peer.
pub proof fn lemma_reports_are_signed(event: NetworkEventView, response: ResponseView)
    requires
        reports(event, response),
        response is Client,
    ensures
        event matches NetworkEventView::Message(_, raw) && raw.source == response->Client_peer
            && signed_by_source(raw),
{
}

/// A delivered packet signed with the key that its source holds inline,
/// whose data decodes, may be reported as that data sent by its source; with
/// [`NetworkState::handle_event`] it always is.
pub proof fn lemma_signed_packets_are_reportable(peer: Seq<u8>, raw: RawPacketView)
    requires
        signed_inline(raw),
        decoded(raw.packet_type, raw.data) is Some,
    ensures
        reports(
            NetworkEventView::Message(peer, raw),
            ResponseView::Client { peer: raw.source, data: decoded(raw.packet_type, raw.data)->0 },
        ),
{
    crate::types::packet::lemma_signed_inline_is_signed_by_source(raw);
}

/// The state of an untrusted network task: the peers it knows.
pub struct NetworkState {
    peers: PeerTable,
}

impl NetworkState {
    pub closed spec fn wf(&self) -> bool {
        self.peers.wf()
    }

    /// The known peers, keyed by the bytes of their peer ids.
    pub closed spec fn peers(&self) -> Map<Seq<u8>, PeerView> {
        self.peers.view()
    }

    /// The peer ids in the order in which they connected.
    pub closed spec fn peer_table_order(&self) -> Seq<Seq<u8>> {
        self.peers.key_order()
    }

    /// A task that knows no peers yet.
    pub fn new() -> (r: Self)
        ensures
            r.wf(),
            r.peers() == Map::<Seq<u8>, PeerView>::empty(),
    {
        NetworkState { peers: PeerTable::new() }
    }

    /// The peers table.
    pub fn peer_table(&self) -> (r: &PeerTable)
        requires
            self.wf(),
        ensures
            r.wf(),
            r.view() == self.peers(),
    {
        &self.peers
    }

    /// Handles one event of the swarm and gives back what to report to the
    /// application. A new connection gives the peer a fresh entry; a closed
    /// connection keeps the peer's entry. A delivered packet is checked
    /// against the public key of the peer it names as its source and taken
    /// only where that signature verifies; then it is reported as sent by
    /// its source, and an avatar it carries is recorded for its source.
    /// Unsigned packets are dropped; a packet signed with the key its source
    /// holds inline is always taken. Requests on the `/evergreen` protocol
    /// are not handled yet.
    pub fn handle_event(&mut self, event: NetworkEvent) -> (r: Option<Response>)
        requires
            old(self).wf(),
            handled_event(event@),
        ensures
            final(self).wf(),
            final(self).peers() == peers_after(
                old(self).peers(),
                event@,
                match r {
                    Some(x) => Some(x@),
                    None => None,
                },
            ),
            r matches Some(resp) ==> reports(event@, resp@),
            !(event@ is Message) ==> (r is None <==> response_to(event@) is None),
            event@ matches NetworkEventView::Message(_, raw) && raw.signature is None ==> r is None,
            event@ matches NetworkEventView::Message(_, raw) ==> (signed_inline(raw) ==> (decoded(
                raw.packet_type,
                raw.data,
            ) matches Some(d) ==> (r matches Some(resp) && resp@ == ResponseView::Client {
                peer: raw.source,
                data: d,
            }))),
    {
        match event {
            NetworkEvent::NewListenAddr(address) => {
                Some(Response::Network(NetworkUpdate::AliveWithAddr(address)))
            },
            NetworkEvent::ConnectionEstablished(peer_id) => {
                let key = peer_id.clone();
                self.peers.insert(key, Peer::default());
                Some(Response::Network(NetworkUpdate::NewPeer(peer_id)))
            },
            NetworkEvent::Request(_peer, _packet) => {
                proof {
                    assert(false);
                }
                None
            },
            NetworkEvent::Message(_peer_id, raw) => {
                match validate_from_source(raw) {
                    Some(packet) => {
                        if packet.verified {
                            if let PacketData::SetAvatar(avatar_data) = &packet.data {
                                self.peers.set_avatar(&packet.source, avatar_data.clone());
                            }
                            Some(Response::Client(ClientResponse { peer: packet.source, data: packet.data }))
                        } else {
                            None
                        }
                    },
                    None => None,
                }
            },
            NetworkEvent::ConnectionClosed(peer_id) => {
                Some(Response::Network(NetworkUpdate::PeerDisconnected(peer_id)))
            },
            NetworkEvent::Other => None,
        }
    }

    /// Handles one command of the application and gives back the peers to
    /// disconnect from. Disconnecting forgets every peer and gives back each
    /// of them, in connection order. Broadcasting is not wired to a
    /// transport in this network, so other commands change nothing.
    pub fn handle_command(&mut self, command: Command) -> (r: Vec<Vec<u8>>)
        requires
            old(self).wf(),
        ensures
            final(self).wf(),
            command is ClientCommand ==> {
                &&& final(self).peers() == Map::<Seq<u8>, PeerView>::empty()
                &&& r@.map_values(|v: Vec<u8>| v@) == old(self).peer_table_order()
            },
            !(command is ClientCommand) ==> final(self).peers() == old(self).peers() && r@.len() == 0,
    {
        match command {
            Command::ClientCommand(ClientCommand::Disconnect) => self.peers.take_all(),
            Command::SendData(data) => match &data {
                PacketData::Message(..) => Vec::new(),
                _ => Vec::new(),
            },
            Command::ServerCommand(_) => Vec::new(),
        }
    }
}

} // verus!
