use vstd::prelude::*;

verus! {

/// What a peer tells another when they connect: the ticket to reach it,
/// its passports, the tickets of the peers it knows, and optionally the
/// room it is in and some data.
pub struct InitialPayload {
    ticket: String,
    passports: Vec<String>,
    other_peers: Vec<String>,
    // Technically these can be "none" by being empty but we want to be explicit with how we model our data
    room_id: Option<String>,
    data: Option<Vec<u8>>,
}

/// The mathematical value of an [`InitialPayload`].
pub struct InitialPayloadView {
    pub ticket: Seq<char>,
    pub passports: Seq<Seq<char>>,
    pub other_peers: Seq<Seq<char>>,
    pub room_id: Option<Seq<char>>,
    pub data: Option<Seq<u8>>,
}

impl View for InitialPayload {
    type V = InitialPayloadView;

    closed spec fn view(&self) -> InitialPayloadView {
        InitialPayloadView {
            ticket: self.ticket@,
            passports: self.passports@.map_values(|s: String| s@),
            other_peers: self.other_peers@.map_values(|s: String| s@),
            room_id: match self.room_id {
                Some(r) => Some(r@),
                None => None,
            },
            data: match self.data {
                Some(d) => Some(d@),
                None => None,
            },
        }
    }
}

impl InitialPayload {
    /// Assembles a payload from its parts.
    pub fn new(ticket: String, passports: Vec<String>, other_peers: Vec<String>, room_id: Option<String>, data: Option<Vec<u8>>) -> (r: Self)
        ensures
            r@ == (InitialPayloadView {
                ticket: ticket@,
                passports: passports@.map_values(|s: String| s@),
                other_peers: other_peers@.map_values(|s: String| s@),
                room_id: match room_id {
                    Some(r) => Some(r@),
                    None => None,
                },
                data: match data {
                    Some(d) => Some(d@),
                    None => None,
                },
            }),
    {
        InitialPayload { ticket, passports, other_peers, room_id, data }
    }
}

impl InitialPayload {
    /// The ticket to reach the peer that sent this payload.
    pub fn ticket(&self) -> (r: &String)
        ensures
            r@ == self@.ticket,
    {
        &self.ticket
    }

    /// The JWTs of the passports of the peer that sent this payload.
    pub fn passports(&self) -> (r: &Vec<String>)
        ensures
            r@.map_values(|s: String| s@) == self@.passports,
    {
        &self.passports
    }

    /// The tickets of the peers known to the peer that sent this payload.
    pub fn other_peers(&self) -> (r: &Vec<String>)
        ensures
            r@.map_values(|s: String| s@) == self@.other_peers,
    {
        &self.other_peers
    }
}

/// A packet of the mesh protocol.
pub enum Packet {
    Init(InitialPayload),
    Data(Vec<u8>),
}

} // verus!
