use vstd::prelude::*;

verus! {

/// Identifies a room.
pub struct RoomID {
    id: [u8; 32],
}

impl RoomID {
    /// The 32 bytes of the id.
    pub closed spec fn bytes(&self) -> Seq<u8> {
        self.id@
    }

    /// The 32 bytes of the id.
    pub fn as_bytes(&self) -> (r: [u8; 32])
        ensures
            r@ == self.bytes(),
    {
        self.id
    }
}

impl From<u8> for RoomID {
    /// A room id of 32 copies of one byte; handy while debugging.
    fn from(value: u8) -> (r: Self)
        ensures
            r.bytes() == Seq::new(32, |_i: int| value),
    {
        let r = RoomID { id: [value; 32] };
        assert(r.bytes() =~= Seq::new(32, |_i: int| value));
        assert(r.id =~= vstd::array::spec_array_fill_for_copy_type::<u8, 32>(value));
        r
    }
}

impl vstd::std_specs::convert::FromSpecImpl<u8> for RoomID {
    open spec fn obeys_from_spec() -> bool {
        true
    }

    closed spec fn from_spec(v: u8) -> Self {
        RoomID { id: vstd::array::spec_array_fill_for_copy_type::<u8, 32>(v) }
    }
}

/// How a client moves from one room to another.
pub enum RoomTransition {
    /// Disconnect from the current room, then connect to the next room. (Most standard model)
    LoadingScreen,
    /// Wait to disconnect from previous room until fully connected to the next room. Transition to next room can then be instant.
    Instant,
    /// Connect to multiple rooms at the same time. Broadcast your packets to all rooms at once.
    Simultaneous,
}

/// Instruction to be broadcast to all connections.
pub enum Order {
    /// A client *may* connect to new peers whose room ids do not match.
    /// However, when a room update is broadcast, connections with non-matching room ids will be closed.
    UpdateRoom(u64),
    /// An individual connection determines whether to send the packet depending on if the room ids of this client and the peer match
    SendData(Vec<u8>),
}

/// Whether an incoming connection is kept.
#[derive(Clone, Copy, Debug, PartialEq, Eq)]
pub enum FilterResult {
    AcceptConnection,
    CloseConnection,
}

} // verus!
