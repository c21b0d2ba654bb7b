//! The event loop of a mesh client: it keeps the connections to peers and
//! the handshakes in flight, and decides what to do when one of its sources
//! wakes it. Connections, handshake handles and streams are carried through
//! without being read.

use vstd::prelude::*;

verus! {

/// What the application asks of a mesh client.
pub enum Request<C> {
    /// This adds a connection to the list of peers internally but does not make an actual connection on its own
    AddConnection(C),
}

/// What woke the event loop.
pub enum LoopEvent<C, H, S> {
    /// The cancellation token fired.
    Cancelled,
    /// A request arrived; `None` when the request queue closed.
    Request(Option<Request<C>>),
    /// The endpoint accepted an attempt to connect, whose handshake now runs
    /// under the handle; `None` when the endpoint closed.
    Incoming(Option<H>),
    /// The handshake at this index of the list in flight finished, with
    /// success or not.
    IncomingFinished(usize, bool),
    /// The connection at this index opened a stream, or failed (`None`).
    Stream(usize, Option<S>),
}

/// What the event loop does next.
pub enum LoopAction<S> {
    /// Wait for the next event.
    Continue,
    /// Leave the loop.
    Stop,
    /// Fire the cancellation token: the endpoint closed.
    Cancel,
    /// Read the packet on this stream, in a task of its own.
    ReadPacket(S),
}

/// The state of the event loop.
pub struct LoopState<C, H> {
    room_id: Option<u64>,
    connections: Vec<C>,
    incoming: Vec<H>,
}

/// The events the loop handles: indices name entries that exist, and a
/// handshake that failed is not handled yet.
pub open spec fn handled<C, H, S>(event: LoopEvent<C, H, S>, connections: nat, incoming: nat) -> bool {
    match event {
        LoopEvent::IncomingFinished(i, ok) => i < incoming && ok,
        LoopEvent::Stream(i, _) => i < connections,
        _ => true,
    }
}

impl<C, H> LoopState<C, H> {
    /// The connections to peers, in the order they were added.
    pub closed spec fn connections(&self) -> Seq<C> {
        self.connections@
    }

    /// The handshakes in flight, in the order they started.
    pub closed spec fn incoming(&self) -> Seq<H> {
        self.incoming@
    }

    /// The room the client is in.
    pub closed spec fn room(&self) -> Option<u64> {
        self.room_id
    }

    /// A loop with no connections, no handshakes and no room.
    pub fn new() -> (r: Self)
        ensures
            r.connections() == Seq::<C>::empty(),
            r.incoming() == Seq::<H>::empty(),
            r.room() is None,
    {
        LoopState { room_id: None, connections: Vec::new(), incoming: Vec::new() }
    }

    /// The number of connections.
    pub fn connection_count(&self) -> (r: usize)
        ensures
            r == self.connections().len(),
    {
        self.connections.len()
    }

    /// The number of handshakes in flight.
    pub fn incoming_count(&self) -> (r: usize)
        ensures
            r == self.incoming().len(),
    {
        self.incoming.len()
    }

    /// Decides what to do with one event. Cancellation and a closed request
    /// queue end the loop; a closed endpoint fires the cancellation; a new
    /// connection or handshake is kept at the end of its list; a finished
    /// handshake and a failed connection leave their lists; a stream is
    /// handed on to be read.
    pub fn step<S>(&mut self, event: LoopEvent<C, H, S>) -> (r: LoopAction<S>)
        requires
            handled(event, old(self).connections().len(), old(self).incoming().len()),
        ensures
            final(self).room() == old(self).room(),
            match event {
                LoopEvent::Cancelled => r is Stop && final(self).connections() == old(self).connections()
                    && final(self).incoming() == old(self).incoming(),
                LoopEvent::Request(None) => r is Stop && final(self).connections() == old(self).connections()
                    && final(self).incoming() == old(self).incoming(),
                LoopEvent::Request(Some(Request::AddConnection(c))) => r is Continue
                    && final(self).connections() == old(self).connections().push(c)
                    && final(self).incoming() == old(self).incoming(),
                LoopEvent::Incoming(None) => r is Cancel && final(self).connections() == old(self).connections()
                    && final(self).incoming() == old(self).incoming(),
                LoopEvent::Incoming(Some(h)) => r is Continue && final(self).connections() == old(self).connections()
                    && final(self).incoming() == old(self).incoming().push(h),
                LoopEvent::IncomingFinished(i, _) => r is Continue
                    && final(self).connections() == old(self).connections()
                    && final(self).incoming() == old(self).incoming().remove(i as int),
                LoopEvent::Stream(i, None) => r is Continue
                    && final(self).connections() == old(self).connections().remove(i as int)
                    && final(self).incoming() == old(self).incoming(),
                LoopEvent::Stream(_, Some(s)) => r == LoopAction::ReadPacket(s)
                    && final(self).connections() == old(self).connections()
                    && final(self).incoming() == old(self).incoming(),
            },
    {
        match event {
            LoopEvent::Cancelled => LoopAction::Stop,
            LoopEvent::Request(new_command) => match new_command {
                None => LoopAction::Stop,
                Some(command) => match command {
                    Request::AddConnection(connection) => {
                        self.connections.push(connection);
                        LoopAction::Continue
                    },
                },
            },
            LoopEvent::Incoming(new_connection) => match new_connection {
                None => LoopAction::Cancel,
                Some(handle) => {
                    self.incoming.push(handle);
                    LoopAction::Continue
                },
            },
            LoopEvent::IncomingFinished(incoming_index, _status) => {
                self.incoming.remove(incoming_index);
                LoopAction::Continue
            },
            LoopEvent::Stream(connection_index, stream_event) => match stream_event {
                None => {
                    self.connections.remove(connection_index);
                    LoopAction::Continue
                },
                Some(stream) => LoopAction::ReadPacket(stream),
            },
        }
    }
}

} // verus!
