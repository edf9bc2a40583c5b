//! The consumer-side store of decoded packets.
//!
//! An id-indexed, append-only log: one ordered sequence of packets per id,
//! dense from id 0 upward. The store grows on first sight of a new id, never
//! shrinks, and fills any gap with empty sequences, so a sequence for an id
//! always exists before anything is appended to it. Empty packet markers are
//! never stored.

use vstd::prelude::*;

use crate::packet::PacketData;

verus! {

/// The id a decoded packet is stored under, if it is stored at all: empty
/// markers carry no id and are never stored.
pub open spec fn stored_id(data: PacketData) -> Option<u8> {
    match data {
        PacketData::Integer(_, id, _) => Some(id),
        PacketData::Text(_, id, _) => Some(id),
        PacketData::Empty => None,
    }
}

/// The id-indexed, append-only log of decoded packets.
#[derive(Debug)]
pub struct DataStore {
    pub entries: Vec<Vec<PacketData>>,
}

impl View for DataStore {
    type V = Seq<Seq<PacketData>>;

    open spec fn view(&self) -> Seq<Seq<PacketData>> {
        self.entries@.map_values(|series: Vec<PacketData>| series@)
    }
}

impl DataStore {
    /// Every stored packet is a real decoded value: empty markers never
    /// enter the store.
    pub open spec fn wf(&self) -> bool {
        forall|i: int, j: int|
            0 <= i < self@.len() && 0 <= j < self@[i].len() ==> stored_id(#[trigger] self@[i][j]) is Some
    }

    /// A store with no ids and no packets.
    pub fn new() -> (store: DataStore)
        ensures
            store@ == Seq::<Seq<PacketData>>::empty(),
            store.wf(),
    {
        let store = DataStore { entries: Vec::new() };
        proof {
            assert(store@ =~= Seq::<Seq<PacketData>>::empty());
        }
        store
    }

    /// How many ids the store currently covers.
    pub fn len(&self) -> (n: usize)
        ensures
            n == self@.len(),
    {
        self.entries.len()
    }

    /// The ordered packets recorded so far under one id, or nothing for an
    /// id the store has never grown to.
    pub fn series(&self, id: usize) -> (r: Option<&Vec<PacketData>>)
        ensures
            id < self@.len() ==> (r matches Some(v) && v@ == self@[id as int]),
            id >= self@.len() ==> r is None,
    {
        if id < self.entries.len() {
            Some(&self.entries[id])
        } else {
            None
        }
    }

    /// Records one decoded packet under its id, in one atomic update: the
    /// store first grows with empty sequences until the id's sequence
    /// exists, then appends. Every previously stored packet stays where it
    /// was, and an empty marker changes nothing.
    pub fn record(&mut self, data: PacketData)
        ensures
            stored_id(data) is None ==> *final(self) == *old(self),
            stored_id(data) matches Some(id) ==> {
                let i = id as int;
                &&& final(self)@.len() == if i + 1 > old(self)@.len() {
                    i + 1
                } else {
                    old(self)@.len() as int
                }
                &&& final(self)@[i] == (if i < old(self)@.len() {
                    old(self)@[i]
                } else {
                    Seq::<PacketData>::empty()
                }).push(data)
                &&& forall|j: int| 0 <= j < old(self)@.len() && j != i ==> final(self)@[j]
                    == old(self)@[j]
                &&& forall|j: int| old(self)@.len() <= j < final(self)@.len() && j != i
                    ==> final(self)@[j] == Seq::<PacketData>::empty()
            },
            old(self).wf() ==> final(self).wf(),
    {
        let id: u8 = match &data {
            PacketData::Integer(_, id, _) => *id,
            PacketData::Text(_, id, _) => *id,
            PacketData::Empty => {
                return ;
            },
        };
        let ghost pre = self@;
        let slot: usize = id as usize;
        if slot >= self.entries.len() {
            self.entries.resize(slot + 1, Vec::new());
            proof {
                assert(forall|j: int| 0 <= j < pre.len() ==> self@[j] == pre[j]);
                assert(forall|j: int| pre.len() <= j < self@.len() ==> self@[j]
                    =~= Seq::<PacketData>::empty());
            }
        }
        let ghost grown = self@;
        self.entries[slot].push(data);
        proof {
            assert(self@ =~= grown.update(slot as int, grown[slot as int].push(data)));
            if slot as int >= pre.len() {
                assert(grown[slot as int] =~= Seq::<PacketData>::empty());
            }
            if old(self).wf() {
                assert forall|i: int, j: int|
                    0 <= i < self@.len() && 0 <= j < self@[i].len() implies stored_id(
                    self@[i][j],
                ) is Some by {
                    if i == slot as int {
                        let base = grown[slot as int];
                        assert(self@[i] == base.push(data));
                        if j < base.len() {
                            assert(self@[i][j] == base[j]);
                            if i < pre.len() {
                                assert(base == pre[i]);
                            }
                        } else {
                            assert(self@[i][j] == data);
                        }
                    } else if i < pre.len() {
                        assert(self@[i] == pre[i]);
                    } else {
                        assert(self@[i] == Seq::<PacketData>::empty());
                    }
                }
            }
        }
    }
}

} // verus!
