//! The first exchange on a new mesh connection: whether the remote
//! endpoint is let in, in which order it is asked what, and what it is told
//! of the peers already known. Endpoints are named by the bytes of their
//! ids.

use vstd::prelude::*;

use crate::mesh::room::FilterResult;
use crate::mesh::wire::{InitialPayload, InitialPayloadView, Packet};
use crate::types::clone_strings;

verus! {

/// Connection close value: no error.
pub const OK: u32 = 0;

/// Connection close value: the remote sent a packet that does not belong.
pub const ERR_MALFORMED_PACKET: u32 = 1;

/// Connection close value: the remote is not allowed in.
pub const ERR_NOT_ALLOWED: u32 = 2;

/// Whether `remote` is on the blocklist.
pub fn is_blocked(blocklist: &Vec<Vec<u8>>, remote: &Vec<u8>) -> (r: bool)
    ensures
        r == blocklist@.map_values(|v: Vec<u8>| v@).contains(remote@),
{
    let ghost ids = blocklist@.map_values(|v: Vec<u8>| v@);
    let mut i: usize = 0;
    while i < blocklist.len()
        invariant
            ids == blocklist@.map_values(|v: Vec<u8>| v@),
            i <= blocklist@.len(),
            forall|j: int| 0 <= j < i ==> ids[j] != remote@,
        decreases blocklist@.len() - i,
    {
        if blocklist[i] == *remote {
            proof {
                assert(ids[i as int] == remote@);
            }
            return true;
        }
        i = i + 1;
    }
    false
}

/// Why a handshake did not let a peer in.
#[derive(Clone, Copy, Debug, PartialEq, Eq)]
pub enum HandshakeError {
    /// The peer is blocked or the connection filter turned it away.
    Filter,
    /// The first packet did not introduce the peer.
    NotInit,
    /// The ticket in the first packet could not be read.
    TicketParse,
    /// Reading, decoding or writing a packet on the stream failed.
    Io,
}

/// What to do with a connection after the first packet of a handshake.
pub enum HandshakeStep {
    /// Let the peer in; it introduced itself with this payload.
    Accept(InitialPayload),
    /// Close the connection with this close value and give up with this
    /// error.
    Close(u32, HandshakeError),
    /// Give up with this error, leaving the connection as it is.
    Fail(HandshakeError),
}

/// What reading the ticket in a peer's first packet showed.
#[derive(Clone, Copy, Debug, PartialEq, Eq)]
pub enum TicketCheck {
    /// The ticket names the endpoint at the other end of the connection.
    Matching,
    /// The ticket names some other endpoint.
    Foreign,
    /// The ticket could not be read.
    Unreadable,
}

/// Decides an outgoing connection on the reply to this peer's introduction
/// and on what reading the reply's ticket showed: a reply that does not
/// introduce the remote is malformed, one whose ticket cannot be read
/// fails; otherwise the remote's introduction is taken.
pub fn outgoing_decision(reply: Packet, ticket: TicketCheck) -> (r: HandshakeStep)
    ensures
        reply is Data ==> (r matches HandshakeStep::Close(code, e) && code == ERR_MALFORMED_PACKET && e is NotInit),
        reply is Init && ticket is Unreadable ==> (r matches HandshakeStep::Fail(e) && e is TicketParse),
        !(ticket is Unreadable) ==> (reply matches Packet::Init(p) ==> r == HandshakeStep::Accept(p)),
{
    match reply {
        Packet::Init(initial_payload) => match ticket {
            TicketCheck::Unreadable => HandshakeStep::Fail(HandshakeError::TicketParse),
            _ => HandshakeStep::Accept(initial_payload),
        },
        Packet::Data(_) => HandshakeStep::Close(ERR_MALFORMED_PACKET, HandshakeError::NotInit),
    }
}

/// What happened on an incoming connection, as the task that runs it
/// reports it to an [`IncomingHandshake`].
pub enum IncomingEvent {
    /// The connection came in; whether the remote is on the blocklist.
    Opened(bool),
    /// The remote's first packet was read and decoded.
    FirstPacket(Packet),
    /// Reading or decoding the remote's first packet, or writing the reply,
    /// failed.
    Failed,
    /// What reading the ticket in the remote's introduction showed.
    TicketChecked(TicketCheck),
    /// What the connection filter answered for the remote and its
    /// introduction.
    Filtered(FilterResult),
    /// The reply was written and the stream finished.
    Written,
}

/// The mathematical value of an [`IncomingEvent`]; a first packet is its
/// payload, `None` for a data packet.
pub enum IncomingEventView {
    Opened(bool),
    FirstPacket(Option<InitialPayloadView>),
    Failed,
    TicketChecked(TicketCheck),
    Filtered(FilterResult),
    Written,
}

impl View for IncomingEvent {
    type V = IncomingEventView;

    open spec fn view(&self) -> IncomingEventView {
        match self {
            IncomingEvent::Opened(b) => IncomingEventView::Opened(*b),
            IncomingEvent::FirstPacket(Packet::Init(p)) => IncomingEventView::FirstPacket(Some(p@)),
            IncomingEvent::FirstPacket(Packet::Data(_)) => IncomingEventView::FirstPacket(None),
            IncomingEvent::Failed => IncomingEventView::Failed,
            IncomingEvent::TicketChecked(t) => IncomingEventView::TicketChecked(*t),
            IncomingEvent::Filtered(f) => IncomingEventView::Filtered(*f),
            IncomingEvent::Written => IncomingEventView::Written,
        }
    }
}

/// What the task that runs an incoming connection does next.
pub enum IncomingAction {
    /// Accept the stream and read the remote's first packet.
    ReadFirstPacket,
    /// Read the ticket in the remote's introduction and compare the endpoint
    /// it names with the remote.
    CheckTicket,
    /// Ask the connection filter about the remote and its introduction.
    AskFilter,
    /// Write this reply on the stream and finish it.
    Write(InitialPayload),
    /// The handshake succeeded; the remote introduced itself with this.
    Accept(InitialPayload),
    /// The handshake failed with this error.
    Fail(HandshakeError),
}

/// The mathematical value of an [`IncomingAction`].
pub enum IncomingActionView {
    ReadFirstPacket,
    CheckTicket,
    AskFilter,
    Write(InitialPayloadView),
    Accept(InitialPayloadView),
    Fail(HandshakeError),
}

impl View for IncomingAction {
    type V = IncomingActionView;

    open spec fn view(&self) -> IncomingActionView {
        match self {
            IncomingAction::ReadFirstPacket => IncomingActionView::ReadFirstPacket,
            IncomingAction::CheckTicket => IncomingActionView::CheckTicket,
            IncomingAction::AskFilter => IncomingActionView::AskFilter,
            IncomingAction::Write(p) => IncomingActionView::Write(p@),
            IncomingAction::Accept(p) => IncomingActionView::Accept(p@),
            IncomingAction::Fail(e) => IncomingActionView::Fail(*e),
        }
    }
}

/// One step of an incoming handshake: the close value to close the
/// connection with first, if any, then what to do.
pub struct IncomingStep {
    pub close: Option<u32>,
    pub action: IncomingAction,
}

/// Where an incoming handshake stands; the payload is the remote's
/// introduction.
pub enum IncomingStage {
    Start,
    Reading,
    CheckingTicket(InitialPayloadView),
    Filtering(InitialPayloadView),
    Writing(InitialPayloadView),
    Done,
}

/// The events a handshake at `stage` waits for.
pub open spec fn expects(stage: IncomingStage, event: IncomingEventView) -> bool {
    match stage {
        IncomingStage::Start => event is Opened,
        IncomingStage::Reading => event is FirstPacket || event is Failed,
        IncomingStage::CheckingTicket(_) => event is TicketChecked,
        IncomingStage::Filtering(_) => event is Filtered,
        IncomingStage::Writing(_) => event is Written || event is Failed,
        IncomingStage::Done => false,
    }
}

/// An incoming handshake step by step: the close value, the action and the
/// next stage after `event` at `stage`, where `reply` is the introduction
/// this peer answers with.
///
/// A blocked remote is turned away before anything is read. A first packet
/// that does not introduce the remote is malformed. A ticket that cannot be
/// read fails the handshake; one that names another endpoint closes the
/// connection as malformed, and the handshake still goes on to the filter.
/// A remote that the filter turns away is not allowed in. Otherwise the
/// reply is written, and once it is out the remote is let in.
pub open spec fn incoming_step(
    stage: IncomingStage,
    event: IncomingEventView,
    reply: InitialPayloadView,
) -> (Option<u32>, IncomingActionView, IncomingStage) {
    match (stage, event) {
        (IncomingStage::Start, IncomingEventView::Opened(true)) => (
            Some(ERR_NOT_ALLOWED),
            IncomingActionView::Fail(HandshakeError::Filter),
            IncomingStage::Done,
        ),
        (IncomingStage::Start, IncomingEventView::Opened(false)) => (
            None,
            IncomingActionView::ReadFirstPacket,
            IncomingStage::Reading,
        ),
        (IncomingStage::Reading, IncomingEventView::FirstPacket(None)) => (
            Some(ERR_MALFORMED_PACKET),
            IncomingActionView::Fail(HandshakeError::NotInit),
            IncomingStage::Done,
        ),
        (IncomingStage::Reading, IncomingEventView::FirstPacket(Some(p))) => (
            None,
            IncomingActionView::CheckTicket,
            IncomingStage::CheckingTicket(p),
        ),
        (IncomingStage::CheckingTicket(_), IncomingEventView::TicketChecked(TicketCheck::Unreadable)) => (
            None,
            IncomingActionView::Fail(HandshakeError::TicketParse),
            IncomingStage::Done,
        ),
        (IncomingStage::CheckingTicket(p), IncomingEventView::TicketChecked(TicketCheck::Foreign)) => (
            Some(ERR_MALFORMED_PACKET),
            IncomingActionView::AskFilter,
            IncomingStage::Filtering(p),
        ),
        (IncomingStage::CheckingTicket(p), IncomingEventView::TicketChecked(TicketCheck::Matching)) => (
            None,
            IncomingActionView::AskFilter,
            IncomingStage::Filtering(p),
        ),
        (IncomingStage::Filtering(_), IncomingEventView::Filtered(FilterResult::CloseConnection)) => (
            Some(ERR_NOT_ALLOWED),
            IncomingActionView::Fail(HandshakeError::Filter),
            IncomingStage::Done,
        ),
        (IncomingStage::Filtering(p), IncomingEventView::Filtered(FilterResult::AcceptConnection)) => (
            None,
            IncomingActionView::Write(reply),
            IncomingStage::Writing(p),
        ),
        (IncomingStage::Writing(p), IncomingEventView::Written) => (
            None,
            IncomingActionView::Accept(p),
            IncomingStage::Done,
        ),
        _ => (None, IncomingActionView::Fail(HandshakeError::Io), IncomingStage::Done),
    }
}

/// Whether the step records the remote's ticket: when the filter lets the
/// remote in.
pub open spec fn records_ticket(stage: IncomingStage, event: IncomingEventView) -> bool {
    stage is Filtering && event matches IncomingEventView::Filtered(FilterResult::AcceptConnection)
}

/// What each step of an incoming handshake may do. It closes the connection
/// only to turn the remote away (not allowed in, or a first packet that is
/// not an introduction) or on a ticket that names another endpoint; it
/// reads only a remote that is not blocked; it asks the filter only after
/// the ticket was read; it writes a reply only when the filter lets the
/// remote in; and it lets the remote in only once the reply is out, with
/// the introduction the remote sent.
pub proof fn lemma_incoming_step_order(stage: IncomingStage, event: IncomingEventView, reply: InitialPayloadView)
    ensures
        ({
            let (close, action, next) = incoming_step(stage, event, reply);
            &&& close matches Some(code) ==> {
                ||| code == ERR_NOT_ALLOWED && action == IncomingActionView::Fail(HandshakeError::Filter)
                ||| code == ERR_MALFORMED_PACKET && action == IncomingActionView::Fail(HandshakeError::NotInit)
                ||| code == ERR_MALFORMED_PACKET && stage is CheckingTicket && event
                    == IncomingEventView::TicketChecked(TicketCheck::Foreign)
            }
            &&& action is ReadFirstPacket ==> stage is Start && event == IncomingEventView::Opened(false)
            &&& action is CheckTicket ==> (stage is Reading && (event matches IncomingEventView::FirstPacket(Some(p))
                && next == IncomingStage::CheckingTicket(p)))
            &&& action is AskFilter ==> (stage is CheckingTicket && (event == IncomingEventView::TicketChecked(
                TicketCheck::Matching) || event == IncomingEventView::TicketChecked(TicketCheck::Foreign)))
            &&& action is Write ==> (stage is Filtering && event == IncomingEventView::Filtered(
                FilterResult::AcceptConnection) && action == IncomingActionView::Write(reply))
            &&& action matches IncomingActionView::Accept(p) ==> (stage == IncomingStage::Writing(p) && event
                is Written)
            &&& (stage is Reading && event matches IncomingEventView::FirstPacket(Some(_))) ==> close is None
            &&& (stage is Start && event == IncomingEventView::Opened(true)) ==> (close == Some(ERR_NOT_ALLOWED)
                && next is Done)
            &&& action == IncomingActionView::Fail(HandshakeError::Filter) ==> close == Some(ERR_NOT_ALLOWED)
            &&& action == IncomingActionView::Fail(HandshakeError::NotInit) ==> close == Some(ERR_MALFORMED_PACKET)
            &&& action == IncomingActionView::Fail(HandshakeError::TicketParse) ==> close is None
            &&& action == IncomingActionView::Fail(HandshakeError::Io) ==> close is None
            &&& (stage is CheckingTicket && event == IncomingEventView::TicketChecked(TicketCheck::Foreign)) ==> close
                == Some(ERR_MALFORMED_PACKET)
            &&& (stage is Filtering && event == IncomingEventView::Filtered(FilterResult::CloseConnection)) ==> action
                == IncomingActionView::Fail(HandshakeError::Filter)
        }),
{
}

/// Peers that are let in one after another learn of each other: the reply
/// to a peer lists, in order, every ticket recorded before it, so the reply
/// to the second of two peers names the first; and every reply carries this
/// peer's own ticket, passports and room.
pub proof fn lemma_later_peers_learn_of_earlier(
    own_ticket: Seq<char>,
    passports: Seq<Seq<char>>,
    known: Seq<Seq<char>>,
    first: Seq<char>,
    room: Option<Seq<char>>,
)
    ensures
        introduction(own_ticket, passports, known.push(first), room).other_peers.contains(first),
        introduction(own_ticket, passports, known.push(first), room).other_peers.len() == known.len() + 1,
        forall|i: int|
            0 <= i < known.len() ==> #[trigger] introduction(own_ticket, passports, known, room).other_peers[i]
                == known[i],
        introduction(own_ticket, passports, known, room).ticket == own_ticket,
        introduction(own_ticket, passports, known, room).passports == passports,
        introduction(own_ticket, passports, known, room).room_id == room,
{
    assert(known.push(first)[known.len() as int] == first);
}

/// The state of the first exchange on an incoming connection.
pub struct IncomingHandshake {
    stage: Stage,
}

enum Stage {
    Start,
    Reading,
    CheckingTicket(InitialPayload),
    Filtering(InitialPayload),
    Writing(InitialPayload),
    Done,
}

impl IncomingHandshake {
    /// Where the handshake stands.
    pub closed spec fn stage(&self) -> IncomingStage {
        match self.stage {
            Stage::Start => IncomingStage::Start,
            Stage::Reading => IncomingStage::Reading,
            Stage::CheckingTicket(p) => IncomingStage::CheckingTicket(p@),
            Stage::Filtering(p) => IncomingStage::Filtering(p@),
            Stage::Writing(p) => IncomingStage::Writing(p@),
            Stage::Done => IncomingStage::Done,
        }
    }

    /// A handshake on a connection that has just come in.
    pub fn new() -> (r: Self)
        ensures
            r.stage() is Start,
    {
        IncomingHandshake { stage: Stage::Start }
    }

    /// The remote's introduction, once it has been read and until the
    /// handshake is over; the ticket check and the filter look at it.
    pub fn introduction(&self) -> (r: Option<&InitialPayload>)
        ensures
            match self.stage() {
                IncomingStage::CheckingTicket(p) => r matches Some(q) && q@ == p,
                IncomingStage::Filtering(p) => r matches Some(q) && q@ == p,
                IncomingStage::Writing(p) => r matches Some(q) && q@ == p,
                _ => r is None,
            },
    {
        match &self.stage {
            Stage::CheckingTicket(p) => Some(p),
            Stage::Filtering(p) => Some(p),
            Stage::Writing(p) => Some(p),
            _ => None,
        }
    }

    /// Takes one event of the connection and says what to do next. Where
    /// the filter lets the remote in, the reply lists this peer's ticket,
    /// passports and room and the tickets of the peers known before the
    /// remote, and the remote's ticket is recorded after them.
    pub fn step(
        &mut self,
        event: IncomingEvent,
        own_ticket: &String,
        passports: &Vec<String>,
        peer_tickets: &mut Vec<String>,
        room: &Option<String>,
    ) -> (r: IncomingStep)
        requires
            expects(old(self).stage(), event@),
        ensures
            ({
                let reply = introduction(own_ticket@, texts(passports@), texts(old(peer_tickets)@), room_text(*room));
                let (close, action, next) = incoming_step(old(self).stage(), event@, reply);
                r.close == close && r.action@ == action && final(self).stage() == next
            }),
            records_ticket(old(self).stage(), event@) ==> texts(final(peer_tickets)@) == texts(old(peer_tickets)@).push(
                old(self).stage()->Filtering_0.ticket,
            ),
            !records_ticket(old(self).stage(), event@) ==> final(peer_tickets)@ == old(peer_tickets)@,
    {
        let mut stage = Stage::Done;
        std::mem::swap(&mut stage, &mut self.stage);
        match stage {
            Stage::Start => match event {
                IncomingEvent::Opened(true) => {
                    IncomingStep { close: Some(ERR_NOT_ALLOWED), action: IncomingAction::Fail(HandshakeError::Filter) }
                },
                _ => {
                    self.stage = Stage::Reading;
                    IncomingStep { close: None, action: IncomingAction::ReadFirstPacket }
                },
            },
            Stage::Reading => match event {
                IncomingEvent::FirstPacket(Packet::Init(payload)) => {
                    self.stage = Stage::CheckingTicket(payload);
                    IncomingStep { close: None, action: IncomingAction::CheckTicket }
                },
                IncomingEvent::FirstPacket(Packet::Data(_)) => {
                    IncomingStep {
                        close: Some(ERR_MALFORMED_PACKET),
                        action: IncomingAction::Fail(HandshakeError::NotInit),
                    }
                },
                _ => IncomingStep { close: None, action: IncomingAction::Fail(HandshakeError::Io) },
            },
            Stage::CheckingTicket(payload) => match event {
                IncomingEvent::TicketChecked(TicketCheck::Matching) => {
                    self.stage = Stage::Filtering(payload);
                    IncomingStep { close: None, action: IncomingAction::AskFilter }
                },
                IncomingEvent::TicketChecked(TicketCheck::Foreign) => {
                    self.stage = Stage::Filtering(payload);
                    IncomingStep { close: Some(ERR_MALFORMED_PACKET), action: IncomingAction::AskFilter }
                },
                _ => IncomingStep { close: None, action: IncomingAction::Fail(HandshakeError::TicketParse) },
            },
            Stage::Filtering(payload) => match event {
                IncomingEvent::Filtered(FilterResult::AcceptConnection) => {
                    let reply = accept_peer(
                        peer_tickets,
                        payload.ticket().clone(),
                        own_ticket.clone(),
                        passports,
                        room.clone(),
                    );
                    self.stage = Stage::Writing(payload);
                    IncomingStep { close: None, action: IncomingAction::Write(reply) }
                },
                _ => IncomingStep { close: Some(ERR_NOT_ALLOWED), action: IncomingAction::Fail(HandshakeError::Filter) },
            },
            Stage::Writing(payload) => match event {
                IncomingEvent::Written => IncomingStep { close: None, action: IncomingAction::Accept(payload) },
                _ => IncomingStep { close: None, action: IncomingAction::Fail(HandshakeError::Io) },
            },
            Stage::Done => IncomingStep { close: None, action: IncomingAction::Fail(HandshakeError::Io) },
        }
    }
}

/// The strings of a list as sequences of characters.
pub open spec fn texts(v: Seq<String>) -> Seq<Seq<char>> {
    v.map_values(|s: String| s@)
}

/// The payload with which this peer introduces itself: the ticket to reach
/// it, its passports' JWTs, the tickets of the peers it knows, the room it
/// is in (as it is written on the wire), and no data.
pub open spec fn introduction(
    own_ticket: Seq<char>,
    passports: Seq<Seq<char>>,
    peer_tickets: Seq<Seq<char>>,
    room: Option<Seq<char>>,
) -> InitialPayloadView {
    InitialPayloadView {
        ticket: own_ticket,
        passports,
        other_peers: peer_tickets,
        room_id: room,
        data: Some(Seq::empty()),
    }
}

/// The room as sequences of characters.
pub open spec fn room_text(room: Option<String>) -> Option<Seq<char>> {
    match room {
        Some(r) => Some(r@),
        None => None,
    }
}

/// Builds the payload with which this peer introduces itself.
pub fn introduce(own_ticket: String, passports: &Vec<String>, peer_tickets: &Vec<String>, room: Option<String>) -> (r: InitialPayload)
    ensures
        r@ == introduction(own_ticket@, texts(passports@), texts(peer_tickets@), room_text(room)),
{
    let r = InitialPayload::new(own_ticket, clone_strings(passports), clone_strings(peer_tickets), room, Some(Vec::new()));
    proof {
        assert(r@.data == Some(Seq::<u8>::empty()));
    }
    r
}

/// Lets in a peer that introduced itself with `ticket`: gives back the
/// payload to answer it with, which lists the peers known before it, and
/// then records its ticket, so that peers which connect later learn of it.
pub fn accept_peer(
    peer_tickets: &mut Vec<String>,
    ticket: String,
    own_ticket: String,
    passports: &Vec<String>,
    room: Option<String>,
) -> (reply: InitialPayload)
    ensures
        reply@ == introduction(own_ticket@, texts(passports@), texts(old(peer_tickets)@), room_text(room)),
        final(peer_tickets)@ == old(peer_tickets)@.push(ticket),
{
    let reply = introduce(own_ticket, passports, peer_tickets, room);
    peer_tickets.push(ticket);
    reply
}

/// The payload of the first packet of a connection, which must introduce
/// the remote; `None` where it is a data packet.
pub fn initial_payload(packet: Packet) -> (r: Option<InitialPayload>)
    ensures
        match packet {
            Packet::Init(p) => r == Some(p),
            Packet::Data(_) => r is None,
        },
{
    match packet {
        Packet::Init(initial_payload) => Some(initial_payload),
        _ => None,
    }
}

} // verus!
