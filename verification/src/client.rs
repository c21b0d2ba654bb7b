//! The peer-to-peer client network: every peer sends its packets directly
//! to every connected peer, signed or not as configured.

use vstd::prelude::*;

use crate::bindings::{SigningKey, SigningKeyView};
use crate::network::peers::{after_connect, after_packet, PeerTable};
use crate::types::packet::{carries, decodable_type, decoded, packet_verifies, received};
use crate::types::{
    ClientCommand, Command, NetworkUpdate, PacketData, PacketView, PeerView, RawPacket, RawPacketView,
    Response, ResponseView, ValidPacket,
};
use crate::types::Peer;

verus! {

/// How a client network behaves.
pub struct Config {
    /// Whether packets this node sends carry a signature.
    pub sign_packets: bool,
}

/// What the swarm of a client network reports, as plain values; peers are
/// named by the bytes of their peer ids.
pub enum NetworkEvent {
    /// The node listens on a new address.
    NewListenAddr(String),
    /// A connection to a peer is open.
    ConnectionEstablished(Vec<u8>),
    /// A peer sent a packet as a request.
    Request(Vec<u8>, RawPacket),
    /// A peer answered one of this node's requests.
    Response(Vec<u8>),
    /// The connection to a peer closed.
    ConnectionClosed(Vec<u8>),
    /// Any other swarm or behaviour event.
    Other,
}

/// The mathematical value of a [`NetworkEvent`].
pub enum NetworkEventView {
    NewListenAddr(Seq<char>),
    ConnectionEstablished(Seq<u8>),
    Request(Seq<u8>, RawPacketView),
    Response(Seq<u8>),
    ConnectionClosed(Seq<u8>),
    Other,
}

impl View for NetworkEvent {
    type V = NetworkEventView;

    open spec fn view(&self) -> NetworkEventView {
        match self {
            NetworkEvent::NewListenAddr(a) => NetworkEventView::NewListenAddr(a@),
            NetworkEvent::ConnectionEstablished(p) => NetworkEventView::ConnectionEstablished(p@),
            NetworkEvent::Request(p, r) => NetworkEventView::Request(p@, r@),
            NetworkEvent::Response(p) => NetworkEventView::Response(p@),
            NetworkEvent::ConnectionClosed(p) => NetworkEventView::ConnectionClosed(p@),
            NetworkEvent::Other => NetworkEventView::Other,
        }
    }
}

/// The events a client network handles: requests whose packet type it can
/// decode, and every other kind of event.
pub open spec fn handled_event(event: NetworkEventView) -> bool {
    event matches NetworkEventView::Request(_, r) ==> decodable_type(r.packet_type)
}

/// The peers after an event.
pub open spec fn peers_after(peers: Map<Seq<u8>, PeerView>, event: NetworkEventView) -> Map<Seq<u8>, PeerView> {
    match event {
        NetworkEventView::ConnectionEstablished(p) => after_connect(peers, p),
        NetworkEventView::Request(p, r) => match decoded(r.packet_type, r.data) {
            Some(d) => after_packet(peers, p, d),
            None => peers,
        },
        _ => peers,
    }
}

/// What the network reports to the application after an event.
pub open spec fn response_to(event: NetworkEventView) -> Option<ResponseView> {
    match event {
        NetworkEventView::NewListenAddr(a) => Some(ResponseView::AliveWithAddr(a)),
        NetworkEventView::ConnectionEstablished(p) => Some(ResponseView::NewPeer(p)),
        NetworkEventView::ConnectionClosed(p) => Some(ResponseView::PeerDisconnected(p)),
        _ => None,
    }
}

/// A network report answers the event it is about: a new listen address
/// is reported with that address, a connection and a closed connection with
/// the peer concerned, and nothing else is reported as either.
pub proof fn lemma_reports_follow_events(event: NetworkEventView)
    ensures
        response_to(event) matches Some(ResponseView::AliveWithAddr(a)) ==> event == NetworkEventView::NewListenAddr(a),
        response_to(event) matches Some(ResponseView::NewPeer(p)) ==> event
            == NetworkEventView::ConnectionEstablished(p),
        response_to(event) matches Some(ResponseView::PeerDisconnected(p)) ==> event
            == NetworkEventView::ConnectionClosed(p),
        event matches NetworkEventView::NewListenAddr(a) ==> response_to(event) == Some(ResponseView::AliveWithAddr(a)),
        event matches NetworkEventView::ConnectionEstablished(p) ==> response_to(event) == Some(ResponseView::NewPeer(p)),
        event matches NetworkEventView::ConnectionClosed(p) ==> response_to(event) == Some(
            ResponseView::PeerDisconnected(p),
        ),
        event is Other ==> response_to(event) is None,
{
}

/// No event makes a client network forget a peer: a closed connection is
/// reported, but the peer keeps its entry, so it stays a recipient of what
/// this node sends.
pub proof fn lemma_events_keep_peers(peers: Map<Seq<u8>, PeerView>, event: NetworkEventView)
    ensures
        peers.dom().subset_of(peers_after(peers, event).dom()),
        event is ConnectionClosed ==> peers_after(peers, event) == peers,
{
    match event {
        NetworkEventView::Request(p, r) => {
            match decoded(r.packet_type, r.data) {
                Some(d) => {
                    crate::network::peers::lemma_packet_keeps_peers(peers, p, d);
                },
                None => {},
            }
        },
        _ => {},
    }
}

/// A request from a known peer that decodes to an avatar update gives that
/// peer the avatar, keeps its other fields, and changes no other entry and
/// no set of peers; a request that does not decode changes nothing.
pub proof fn lemma_request_avatar_updates_sender(
    peers: Map<Seq<u8>, PeerView>,
    p: Seq<u8>,
    raw: RawPacketView,
    other: Seq<u8>,
)
    ensures
        peers_after(peers, NetworkEventView::Request(p, raw)).dom() == peers.dom(),
        decoded(raw.packet_type, raw.data) is None ==> peers_after(peers, NetworkEventView::Request(p, raw)) == peers,
        decoded(raw.packet_type, raw.data) matches Some(PacketView::SetAvatar(a)) ==> (peers.contains_key(p) ==> {
            &&& peers_after(peers, NetworkEventView::Request(p, raw))[p].avatar == a
            &&& peers_after(peers, NetworkEventView::Request(p, raw))[p].identity == peers[p].identity
            &&& peers_after(peers, NetworkEventView::Request(p, raw))[p].passports == peers[p].passports
        }),
        other != p && peers.contains_key(other) ==> peers_after(peers, NetworkEventView::Request(p, raw))[other]
            == peers[other],
{
    if let Some(d) = decoded(raw.packet_type, raw.data) {
        crate::network::peers::lemma_packet_keeps_peers(peers, p, d);
    }
}

/// What a client sends arrives as it was sent: the packet of every request
/// that [`NetworkState::handle_command`] gives for data is one that
/// [`NetworkState::handle_event`] of the receiving peer accepts, and it
/// decodes there to the same data; where the sender signs, a peer that
/// checks it with the sender's public key finds it verified.
pub proof fn lemma_sent_data_decodes(p: RawPacketView, data: PacketView, n: u64, identity: Seq<u8>, public_key: Seq<u8>)
    requires
        data.fits_wire(),
        carries(p, data, n, identity),
    ensures
        handled_event(NetworkEventView::Request(identity, p)),
        decoded(p.packet_type, p.data) == Some(data),
        packet_verifies(public_key, p) ==> received(p, public_key) == Some((data, true)),
{
    crate::types::packet::lemma_wire_round_trip(data);
}

/// A packet to send to one peer.
pub struct OutgoingRequest {
    pub peer: Vec<u8>,
    pub packet: RawPacket,
}

/// What a client network does on the swarm for a command.
pub enum Action {
    /// Send a packet to a peer as a request.
    Send(OutgoingRequest),
    /// Close the connection to the peer with these id bytes.
    Disconnect(Vec<u8>),
}

/// The state of a client network task.
pub struct NetworkState {
    config: Config,
    key: SigningKey,
    identity: Vec<u8>,
    sequence_number: u64,
    peers: PeerTable,
}

impl NetworkState {
    pub closed spec fn wf(&self) -> bool {
        &&& self.peers.wf()
        &&& self.identity@ == self.key@.peer_id
    }

    /// The known peers, keyed by the bytes of their peer ids.
    pub closed spec fn peers(&self) -> Map<Seq<u8>, PeerView> {
        self.peers.view()
    }

    /// The peer ids in the order in which they connected.
    pub closed spec fn peer_order(&self) -> Seq<Seq<u8>> {
        self.peers.key_order()
    }

    /// The sequence number of the last packet this node built.
    pub closed spec fn sequence(&self) -> u64 {
        self.sequence_number
    }

    /// The key this node signs with.
    pub closed spec fn key(&self) -> SigningKeyView {
        self.key@
    }

    /// The bytes of this node's peer id, the source of its packets.
    pub closed spec fn identity(&self) -> Seq<u8> {
        self.identity@
    }

    /// Whether this node signs its packets.
    pub closed spec fn signs(&self) -> bool {
        self.config.sign_packets
    }

    /// The identity of a node is the peer id of its key.
    pub proof fn lemma_identity(&self)
        requires
            self.wf(),
        ensures
            self.identity() == self.key().peer_id,
    {
    }

    /// The peer order lists every known peer exactly once, so a broadcast
    /// from [`NetworkState::handle_command`] reaches each known peer once.
    pub proof fn lemma_recipients(&self)
        requires
            self.wf(),
        ensures
            self.peer_order().no_duplicates(),
            forall|k: Seq<u8>| self.peers().contains_key(k) <==> self.peer_order().contains(k),
    {
        self.peers.lemma_key_order();
    }

    /// A task that knows no peers yet, with `key` as its identity;
    /// `sequence_number` is where numbering starts.
    pub fn new(key: SigningKey, config: Config, sequence_number: u64) -> (r: Self)
        ensures
            r.wf(),
            r.peers() == Map::<Seq<u8>, PeerView>::empty(),
            r.peer_order() == Seq::<Seq<u8>>::empty(),
            r.sequence() == sequence_number,
            r.key() == key@,
            r.identity() == key@.peer_id,
            r.signs() == config.sign_packets,
    {
        let identity = key.peer_id().clone();
        NetworkState { config, key, identity, sequence_number, peers: PeerTable::new() }
    }

    /// The peers table.
    pub fn peer_table(&self) -> (r: &PeerTable)
        requires
            self.wf(),
        ensures
            r.wf(),
            r.view() == self.peers(),
            r.key_order() == self.peer_order(),
    {
        &self.peers
    }

    /// The sequence number of the last packet this node built.
    pub fn sequence_number(&self) -> (r: u64)
        ensures
            r == self.sequence(),
    {
        self.sequence_number
    }

    /// Records what a decoded packet tells about its sender: an avatar
    /// update from a known peer replaces that peer's avatar.
    pub fn handle_packet(&mut self, packet: ValidPacket)
        requires
            old(self).wf(),
        ensures
            final(self).wf(),
            final(self).peers() == after_packet(old(self).peers(), packet.source@, packet.data@),
            final(self).peer_order() == old(self).peer_order(),
            final(self).sequence() == old(self).sequence(),
            final(self).key() == old(self).key(),
            final(self).identity() == old(self).identity(),
            final(self).signs() == old(self).signs(),
    {
        if let PacketData::SetAvatar(avatar_data) = packet.data {
            self.peers.set_avatar(&packet.source, avatar_data);
        }
    }

    /// Handles one event of the swarm and gives back what to report to the
    /// application. A request is decoded; one that decodes is handled as a
    /// packet from the requesting peer (not checked against a signature),
    /// one that does not is dropped.
    pub fn handle_event(&mut self, event: NetworkEvent) -> (r: Option<Response>)
        requires
            old(self).wf(),
            handled_event(event@),
        ensures
            final(self).wf(),
            final(self).peers() == peers_after(old(self).peers(), event@),
            final(self).sequence() == old(self).sequence(),
            final(self).key() == old(self).key(),
            final(self).identity() == old(self).identity(),
            final(self).signs() == old(self).signs(),
            match r {
                Some(resp) => response_to(event@) == Some(resp@),
                None => response_to(event@) is None,
            },
            event@ matches NetworkEventView::Request(p, raw) ==> (decoded(raw.packet_type, raw.data) matches Some(
                PacketView::SetAvatar(a),
            ) ==> (old(self).peers().contains_key(p) ==> final(self).peers().contains_key(p)
                && final(self).peers()[p].avatar == a)),
    {
        match event {
            NetworkEvent::NewListenAddr(address) => {
                Some(Response::Network(NetworkUpdate::AliveWithAddr(address)))
            },
            NetworkEvent::ConnectionEstablished(peer_id) => {
                self.peers.insert(peer_id.clone(), Peer::default());
                Some(Response::Network(NetworkUpdate::NewPeer(peer_id)))
            },
            NetworkEvent::Request(peer, request) => {
                let sequence_number = request.sequence_number;
                match PacketData::try_from(request) {
                    Ok(data) => {
                        self.handle_packet(ValidPacket { data, source: peer, sequence_number, verified: false });
                    },
                    Err(_) => {},
                }
                None
            },
            NetworkEvent::Response(_) => None,
            NetworkEvent::ConnectionClosed(peer_id) => {
                Some(Response::Network(NetworkUpdate::PeerDisconnected(peer_id)))
            },
            NetworkEvent::Other => None,
        }
    }

    /// Handles one command of the application.
    ///
    /// Sending data numbers it with the next sequence number, builds its
    /// packet (signed with this node's key when configured) and gives back
    /// one request per connected peer, in connection order, all with that
    /// packet. Disconnecting forgets every peer and gives back one
    /// disconnection per peer, so later data reaches none of them. Orders
    /// meant for a hub server do nothing here.
    pub fn handle_command(&mut self, command: Command) -> (r: Vec<Action>)
        requires
            old(self).wf(),
            command is SendData ==> old(self).sequence() < u64::MAX,
        ensures
            final(self).wf(),
            final(self).key() == old(self).key(),
            final(self).identity() == old(self).identity(),
            final(self).signs() == old(self).signs(),
            command matches Command::SendData(d) ==> {
                &&& final(self).peers() == old(self).peers()
                &&& final(self).peer_order() == old(self).peer_order()
                &&& final(self).sequence() == old(self).sequence() + 1
                &&& r@.len() == old(self).peer_order().len()
                &&& forall|i: int| 0 <= i < r@.len() ==> {
                    &&& (#[trigger] r@[i]) is Send
                    &&& r@[i]->Send_0.peer@ == old(self).peer_order()[i]
                    &&& r@[i]->Send_0.packet@ == r@[0]->Send_0.packet@
                    &&& carries(r@[i]->Send_0.packet@, d@, final(self).sequence(), old(self).identity())
                    &&& (old(self).signs() ==> packet_verifies(old(self).key().public_key, r@[i]->Send_0.packet@))
                    &&& (!old(self).signs() ==> r@[i]->Send_0.packet@.signature is None)
                }
            },
            command is ClientCommand ==> {
                &&& final(self).peers() == Map::<Seq<u8>, PeerView>::empty()
                &&& final(self).peer_order() == Seq::<Seq<u8>>::empty()
                &&& final(self).sequence() == old(self).sequence()
                &&& r@.len() == old(self).peer_order().len()
                &&& forall|i: int| 0 <= i < r@.len() ==> {
                    &&& (#[trigger] r@[i]) is Disconnect
                    &&& r@[i]->Disconnect_0@ == old(self).peer_order()[i]
                }
            },
            command is ServerCommand ==> {
                &&& final(self).peers() == old(self).peers()
                &&& final(self).peer_order() == old(self).peer_order()
                &&& final(self).sequence() == old(self).sequence()
                &&& r@.len() == 0
            },
    {
        match command {
            Command::SendData(data) => {
                self.sequence_number = self.sequence_number + 1;
                let packet = if self.config.sign_packets {
                    match RawPacket::new_signed(data, self.sequence_number, &self.key, self.identity.clone()) {
                        Ok(packet) => packet,
                        Err(_) => {
                            return Vec::new();
                        },
                    }
                } else {
                    RawPacket::new_unsigned(data, self.sequence_number, self.identity.clone())
                };
                let n = self.peers.len();
                let mut actions: Vec<Action> = Vec::new();
                let mut i: usize = 0;
                while i < n
                    invariant
                        self.wf(),
                        n == self.peer_order().len(),
                        i <= n,
                        actions@.len() == i,
                        forall|j: int| 0 <= j < i ==> {
                            &&& (#[trigger] actions@[j]) is Send
                            &&& actions@[j]->Send_0.peer@ == self.peer_order()[j]
                            &&& actions@[j]->Send_0.packet@ == packet@
                        },
                    decreases n - i,
                {
                    let peer = self.peers.id_at(i);
                    actions.push(Action::Send(OutgoingRequest { peer, packet: packet.clone() }));
                    i = i + 1;
                }
                actions
            },
            Command::ClientCommand(ClientCommand::Disconnect) => {
                let ids = self.peers.take_all();
                let ghost order = ids@.map_values(|v: Vec<u8>| v@);
                let mut actions: Vec<Action> = Vec::new();
                let mut i: usize = 0;
                while i < ids.len()
                    invariant
                        order == ids@.map_values(|v: Vec<u8>| v@),
                        i <= ids@.len(),
                        actions@.len() == i,
                        forall|j: int| 0 <= j < i ==> {
                            &&& (#[trigger] actions@[j]) is Disconnect
                            &&& actions@[j]->Disconnect_0@ == order[j]
                        },
                    decreases ids@.len() - i,
                {
                    actions.push(Action::Disconnect(ids[i].clone()));
                    i = i + 1;
                }
                actions
            },
            Command::ServerCommand(_) => Vec::new(),
        }
    }
}

} // verus!
