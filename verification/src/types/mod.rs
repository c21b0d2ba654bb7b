//! The data that peers exchange: avatars, peers, packets, and the commands
//! and responses that pass between an application and a network task.

use vstd::prelude::*;

pub mod auth;
pub mod codec;
pub mod error;
pub mod packet;

pub use packet::{PacketData, PacketView, RawPacket, RawPacketView, ValidPacket};

verus! {

/// Seconds since the UNIX epoch.
pub type Timestamp = i64;

/// Stores data related to the public profile of a user on the network.
/// Most of this data can be set freely by a user. Restrictions on this data
/// are applied by other clients.
///
/// For our purposes, this is a display name, head, torso, backpack, and
/// primary and accent colors.
#[derive(Debug, PartialEq, Eq, Hash)]
pub struct Avatar {
    pub display_name: String,
    pub head: String,
    pub torso: String,
    pub backpack: String,
    pub primary_color: String,
    pub accent_color: String,
}

/// The mathematical value of an [`Avatar`].
pub struct AvatarView {
    pub display_name: Seq<char>,
    pub head: Seq<char>,
    pub torso: Seq<char>,
    pub backpack: Seq<char>,
    pub primary_color: Seq<char>,
    pub accent_color: Seq<char>,
}

impl AvatarView {
    /// The avatar of a peer that has not described itself: every field empty.
    pub open spec fn empty() -> AvatarView {
        AvatarView {
            display_name: Seq::empty(),
            head: Seq::empty(),
            torso: Seq::empty(),
            backpack: Seq::empty(),
            primary_color: Seq::empty(),
            accent_color: Seq::empty(),
        }
    }
}

impl View for Avatar {
    type V = AvatarView;

    open spec fn view(&self) -> AvatarView {
        AvatarView {
            display_name: self.display_name@,
            head: self.head@,
            torso: self.torso@,
            backpack: self.backpack@,
            primary_color: self.primary_color@,
            accent_color: self.accent_color@,
        }
    }
}

impl Clone for Avatar {
    fn clone(&self) -> (r: Self)
        ensures
            r@ == self@,
    {
        Avatar {
            display_name: self.display_name.clone(),
            head: self.head.clone(),
            torso: self.torso.clone(),
            backpack: self.backpack.clone(),
            primary_color: self.primary_color.clone(),
            accent_color: self.accent_color.clone(),
        }
    }
}

impl Default for Avatar {
    fn default() -> (r: Self)
        ensures
            r@ == AvatarView::empty(),
    {
        Avatar {
            display_name: String::new(),
            head: String::new(),
            torso: String::new(),
            backpack: String::new(),
            primary_color: String::new(),
            accent_color: String::new(),
        }
    }
}

/// A copy of a list of strings, each string copied.
pub fn clone_strings(v: &Vec<String>) -> (r: Vec<String>)
    ensures
        r@.map_values(|s: String| s@) == v@.map_values(|s: String| s@),
{
    let mut r: Vec<String> = Vec::new();
    let mut i: usize = 0;
    while i < v.len()
        invariant
            i <= v@.len(),
            r@.len() == i,
            forall|j: int| 0 <= j < i ==> (#[trigger] r@[j])@ == v@[j]@,
        decreases v@.len() - i,
    {
        r.push(v[i].clone());
        i = i + 1;
    }
    assert(r@.map_values(|s: String| s@) =~= v@.map_values(|s: String| s@));
    r
}

/// A remote participant as this peer knows it.
#[derive(Debug, Clone, PartialEq, Eq)]
pub struct Peer {
    pub identity: String,
    pub avatar: Avatar,
    pub passports: Vec<String>,
}

/// The mathematical value of a [`Peer`].
pub struct PeerView {
    pub identity: Seq<char>,
    pub avatar: AvatarView,
    pub passports: Seq<Seq<char>>,
}

impl PeerView {
    /// A peer that has connected but not yet described itself.
    pub open spec fn empty() -> PeerView {
        PeerView { identity: Seq::empty(), avatar: AvatarView::empty(), passports: Seq::empty() }
    }
}

impl View for Peer {
    type V = PeerView;

    open spec fn view(&self) -> PeerView {
        PeerView {
            identity: self.identity@,
            avatar: self.avatar@,
            passports: self.passports@.map_values(|s: String| s@),
        }
    }
}

impl Default for Peer {
    fn default() -> (r: Self)
        ensures
            r@ == PeerView::empty(),
    {
        let r = Peer { identity: String::new(), avatar: Avatar::default(), passports: Vec::new() };
        assert(r@.passports =~= Seq::<Seq<char>>::empty());
        r
    }
}

/// Enum for sending commands to a network instance through a network handle.
pub enum Command {
    /// Broadcast data to the network
    SendData(PacketData),
    /// Take some action as the client (such as disconnecting)
    ClientCommand(ClientCommand),
    /// Talk directly to the connected server. Unused in p2p settings
    ServerCommand(ServerCommand),
}

pub enum ClientCommand {
    Disconnect,
}

/// Orders to a hub server about one peer, named by its peer id bytes.
pub enum ServerCommand {
    DisconnectPeer(Vec<u8>),
    BanPeer(Vec<u8>),
    KickPeer(Vec<u8>),
}

/// Enum for getting responses from a network instance through a network handle.
#[derive(Debug)]
pub enum Response {
    Server(ServerResponse),
    Client(ClientResponse),
    Network(NetworkUpdate),
}

/// Data that a peer (named by its peer id bytes) sent.
#[derive(Debug)]
pub struct ClientResponse {
    pub peer: Vec<u8>,
    pub data: PacketData,
}

#[derive(Debug)]
pub struct ServerResponse {}

/// A change in the network itself; peers are named by their peer id bytes.
#[derive(Debug)]
pub enum NetworkUpdate {
    AliveWithAddr(String),
    NewPeer(Vec<u8>),
    PeerDisconnected(Vec<u8>),
    Disconnected,
}

/// The mathematical value of a [`Response`].
pub enum ResponseView {
    Server,
    Client { peer: Seq<u8>, data: PacketView },
    AliveWithAddr(Seq<char>),
    NewPeer(Seq<u8>),
    PeerDisconnected(Seq<u8>),
    Disconnected,
}

impl View for Response {
    type V = ResponseView;

    open spec fn view(&self) -> ResponseView {
        match self {
            Response::Server(_) => ResponseView::Server,
            Response::Client(c) => ResponseView::Client { peer: c.peer@, data: c.data@ },
            Response::Network(NetworkUpdate::AliveWithAddr(a)) => ResponseView::AliveWithAddr(a@),
            Response::Network(NetworkUpdate::NewPeer(p)) => ResponseView::NewPeer(p@),
            Response::Network(NetworkUpdate::PeerDisconnected(p)) => ResponseView::PeerDisconnected(p@),
            Response::Network(NetworkUpdate::Disconnected) => ResponseView::Disconnected,
        }
    }
}

} // verus!
