use vstd::prelude::*;

use crate::types::{Avatar, AvatarView, PacketView, Peer, PeerView};

verus! {

/// The peer `p` with its avatar replaced by `a`.
pub open spec fn with_avatar(p: PeerView, a: AvatarView) -> PeerView {
    PeerView { avatar: a, ..p }
}

/// The peers after `source` sent a packet with `data`: an avatar update from
/// a known peer replaces that peer's avatar; anything else changes nothing.
pub open spec fn after_packet(peers: Map<Seq<u8>, PeerView>, source: Seq<u8>, data: PacketView) -> Map<Seq<u8>, PeerView> {
    match data {
        PacketView::SetAvatar(a) => if peers.contains_key(source) {
            peers.insert(source, with_avatar(peers[source], a))
        } else {
            peers
        },
        _ => peers,
    }
}

/// The peers after `id` connected: a fresh, empty entry, replacing any
/// entry the id had before.
pub open spec fn after_connect(peers: Map<Seq<u8>, PeerView>, id: Seq<u8>) -> Map<Seq<u8>, PeerView> {
    peers.insert(id, PeerView::empty())
}

/// A peer that connects gets an entry, and the entry is fresh: a peer that
/// reconnects starts again with an empty avatar and no passports.
pub proof fn lemma_connect_registers(peers: Map<Seq<u8>, PeerView>, id: Seq<u8>)
    ensures
        after_connect(peers, id).contains_key(id),
        after_connect(peers, id)[id] == PeerView::empty(),
        peers.dom().subset_of(after_connect(peers, id).dom()),
{
}

/// A packet never adds or drops a peer.
pub proof fn lemma_packet_keeps_peers(peers: Map<Seq<u8>, PeerView>, source: Seq<u8>, data: PacketView)
    ensures
        after_packet(peers, source, data).dom() == peers.dom(),
{
    if data is SetAvatar && peers.contains_key(source) {
        assert(after_packet(peers, source, data).dom() =~= peers.dom());
    }
}

/// A packet changes at most the entry of its sender, and an avatar update
/// from a known peer is what that peer's entry then shows, its other fields
/// kept.
pub proof fn lemma_packet_touches_only_sender(peers: Map<Seq<u8>, PeerView>, source: Seq<u8>, data: PacketView, other: Seq<u8>)
    requires
        other != source,
    ensures
        peers.contains_key(other) ==> after_packet(peers, source, data)[other] == peers[other],
        peers.contains_key(source) ==> (data matches PacketView::SetAvatar(a) ==> after_packet(peers, source, data)[source].avatar == a),
        peers.contains_key(source) ==> after_packet(peers, source, data)[source].passports == peers[source].passports,
        peers.contains_key(source) ==> after_packet(peers, source, data)[source].identity == peers[source].identity,
{
}

/// The peers this node is connected to, keyed by the bytes of their peer
/// ids, in the order in which they first connected.
pub struct PeerTable {
    ids: Vec<Vec<u8>>,
    peers: Vec<Peer>,
}

impl PeerTable {
    /// The peer ids, in the order in which they first connected.
    pub closed spec fn key_order(&self) -> Seq<Seq<u8>> {
        self.ids@.map_values(|v: Vec<u8>| v@)
    }

    closed spec fn values(&self) -> Seq<PeerView> {
        self.peers@.map_values(|p: Peer| p@)
    }

    /// Every id appears once, and each has its peer.
    pub closed spec fn wf(&self) -> bool {
        &&& self.ids@.len() == self.peers@.len()
        &&& self.key_order().no_duplicates()
    }

    /// The table as a map from peer id bytes to peers.
    pub closed spec fn view(&self) -> Map<Seq<u8>, PeerView> {
        Map::new(
            |k: Seq<u8>| self.key_order().contains(k),
            |k: Seq<u8>| self.values()[self.key_order().index_of(k)],
        )
    }

    /// The order of the ids lists each peer of the table exactly once.
    pub proof fn lemma_key_order(&self)
        requires
            self.wf(),
        ensures
            self.key_order().no_duplicates(),
            self.key_order().len() == self.view().dom().len(),
            forall|k: Seq<u8>| self.view().contains_key(k) <==> self.key_order().contains(k),
            self.view().dom().finite(),
    {
        assert(self.view().dom() =~= self.key_order().to_set());
        self.key_order().unique_seq_to_set();
    }

    proof fn lemma_index(&self, i: int)
        requires
            self.wf(),
            0 <= i < self.ids@.len(),
        ensures
            self.key_order().contains(self.ids@[i]@),
            self.key_order().index_of(self.ids@[i]@) == i,
            self.view()[self.ids@[i]@] == self.peers@[i]@,
    {
        let k = self.ids@[i]@;
        assert(self.key_order()[i] == k);
        let j = self.key_order().index_of(k);
        assert(0 <= j < self.key_order().len() && self.key_order()[j] == k);
    }

    pub fn new() -> (r: Self)
        ensures
            r.wf(),
            r.view() == Map::<Seq<u8>, PeerView>::empty(),
            r.key_order() == Seq::<Seq<u8>>::empty(),
    {
        let r = PeerTable { ids: Vec::new(), peers: Vec::new() };
        assert(r.key_order() =~= Seq::<Seq<u8>>::empty());
        assert(r.view() =~= Map::<Seq<u8>, PeerView>::empty());
        r
    }

    /// The number of peers.
    pub fn len(&self) -> (r: usize)
        requires
            self.wf(),
        ensures
            r == self.key_order().len(),
    {
        self.ids.len()
    }

    fn find(&self, id: &Vec<u8>) -> (r: Option<usize>)
        requires
            self.wf(),
        ensures
            r is None <==> !self.view().contains_key(id@),
            r matches Some(i) ==> i < self.ids@.len() && self.ids@[i as int]@ == id@,
    {
        let mut i: usize = 0;
        while i < self.ids.len()
            invariant
                self.wf(),
                i <= self.ids@.len(),
                forall|j: int| 0 <= j < i ==> self.ids@[j]@ != id@,
            decreases self.ids@.len() - i,
        {
            if self.ids[i] == *id {
                proof {
                    assert(self.key_order()[i as int] == id@);
                }
                return Some(i);
            }
            i = i + 1;
        }
        proof {
            if self.key_order().contains(id@) {
                let j = self.key_order().index_of(id@);
                assert(self.ids@[j]@ == id@);
            }
        }
        None
    }

    /// Whether a peer with this id is in the table.
    pub fn contains(&self, id: &Vec<u8>) -> (r: bool)
        requires
            self.wf(),
        ensures
            r == self.view().contains_key(id@),
    {
        self.find(id).is_some()
    }

    /// The id of the `i`-th peer in connection order.
    pub fn id_at(&self, i: usize) -> (r: Vec<u8>)
        requires
            self.wf(),
            i < self.key_order().len(),
        ensures
            r@ == self.key_order()[i as int],
    {
        self.ids[i].clone()
    }

    /// The peer with this id, if any.
    pub fn get(&self, id: &Vec<u8>) -> (r: Option<&Peer>)
        requires
            self.wf(),
        ensures
            r is Some <==> self.view().contains_key(id@),
            r matches Some(p) ==> p@ == self.view()[id@],
    {
        match self.find(id) {
            Some(i) => {
                proof {
                    self.lemma_index(i as int);
                }
                Some(&self.peers[i])
            },
            None => None,
        }
    }

    /// Puts `peer` under `id`, replacing any peer there before.
    pub fn insert(&mut self, id: Vec<u8>, peer: Peer)
        requires
            old(self).wf(),
        ensures
            final(self).wf(),
            final(self).view() == old(self).view().insert(id@, peer@),
            old(self).view().contains_key(id@) ==> final(self).key_order() == old(self).key_order(),
            !old(self).view().contains_key(id@) ==> final(self).key_order() == old(self).key_order().push(id@),
    {
        let ghost old_table = *old(self);
        match self.find(&id) {
            Some(i) => {
                let ghost key = id@;
                self.peers.remove(i);
                self.peers.insert(i, peer);
                proof {
                    assert(self.key_order() =~= old_table.key_order());
                    assert(self.values() =~= old_table.values().update(i as int, peer@));
                    assert forall|k: Seq<u8>| #[trigger] self.view().contains_key(k) implies self.view()[k]
                        == old_table.view().insert(key, peer@)[k] by {
                        let j = self.key_order().index_of(k);
                        assert(self.key_order()[j] == k);
                        if k != key {
                            assert(j != i);
                        } else {
                            old_table.lemma_index(i as int);
                        }
                    }
                    assert(self.view() =~= old_table.view().insert(key, peer@));
                }
            },
            None => {
                let ghost key = id@;
                self.ids.push(id);
                self.peers.push(peer);
                proof {
                    assert(self.key_order() =~= old_table.key_order().push(key));
                    assert(self.values() =~= old_table.values().push(peer@));
                    let n = old_table.key_order().len();
                    assert(self.key_order()[n as int] == key);
                    assert forall|k: Seq<u8>| #[trigger] self.key_order().contains(k) <==> (old_table.key_order().contains(k) || k == key) by {
                        if self.key_order().contains(k) {
                            let j = self.key_order().index_of(k);
                            if j < n {
                                assert(old_table.key_order()[j] == k);
                            }
                        }
                        if old_table.key_order().contains(k) {
                            let j0 = old_table.key_order().index_of(k);
                            assert(self.key_order()[j0] == k);
                        }
                    }
                    assert forall|k: Seq<u8>| #[trigger] self.view().contains_key(k) implies self.view()[k]
                        == old_table.view().insert(key, peer@)[k] by {
                        let j = self.key_order().index_of(k);
                        assert(self.key_order()[j] == k);
                        if k != key {
                            assert(j != n);
                            assert(old_table.key_order()[j] == k);
                            let j0 = old_table.key_order().index_of(k);
                            assert(old_table.key_order()[j0] == k);
                            assert(self.key_order()[j0] == k);
                        } else {
                            assert(j == n);
                        }
                    }
                    assert(self.view() =~= old_table.view().insert(key, peer@));
                }
            },
        }
    }

    /// Empties the table and gives back the ids it held, in connection order.
    pub fn take_all(&mut self) -> (r: Vec<Vec<u8>>)
        requires
            old(self).wf(),
        ensures
            final(self).wf(),
            final(self).view() == Map::<Seq<u8>, PeerView>::empty(),
            final(self).key_order() == Seq::<Seq<u8>>::empty(),
            r@.map_values(|v: Vec<u8>| v@) == old(self).key_order(),
    {
        let mut ids: Vec<Vec<u8>> = Vec::new();
        std::mem::swap(&mut ids, &mut self.ids);
        self.peers = Vec::new();
        proof {
            assert(self.key_order() =~= Seq::<Seq<u8>>::empty());
            assert(self.view() =~= Map::<Seq<u8>, PeerView>::empty());
        }
        ids
    }

    /// Gives the peer under `id` this avatar; a table without that peer is
    /// left as it is.
    pub fn set_avatar(&mut self, id: &Vec<u8>, avatar: Avatar)
        requires
            old(self).wf(),
        ensures
            final(self).wf(),
            final(self).key_order() == old(self).key_order(),
            final(self).view() == (if old(self).view().contains_key(id@) {
                old(self).view().insert(id@, with_avatar(old(self).view()[id@], avatar@))
            } else {
                old(self).view()
            }),
    {
        let ghost old_table = *old(self);
        match self.find(id) {
            Some(i) => {
                let ghost key = id@;
                let mut peer = self.peers.remove(i);
                peer.avatar = avatar;
                let ghost new_peer = peer@;
                self.peers.insert(i, peer);
                proof {
                    old_table.lemma_index(i as int);
                    assert(new_peer == with_avatar(old_table.view()[key], avatar@));
                    assert(self.key_order() =~= old_table.key_order());
                    assert(self.values() =~= old_table.values().update(i as int, new_peer));
                    assert forall|k: Seq<u8>| #[trigger] self.view().contains_key(k) implies self.view()[k]
                        == old_table.view().insert(key, new_peer)[k] by {
                        let j = self.key_order().index_of(k);
                        assert(self.key_order()[j] == k);
                        if k != key {
                            assert(j != i);
                        }
                    }
                    assert(self.view() =~= old_table.view().insert(key, new_peer));
                }
            },
            None => {},
        }
    }
}

} // verus!
