//! The watch registry: one watch for each directory, found by the identity of
//! the directory and not by the path that led to it.

use vstd::prelude::*;
use std::collections::HashMap;
use vstd::std_specs::hash::*;
use vstd::std_specs::iter::IteratorSpec;
use crate::error::{Error, NotifyResult};
use crate::handle::{HANDLE, INode};
use crate::helpers::{idxmut_map, key_borrowed_as};

verus! {

/// A live subscription to the changes of one directory.
#[derive(Clone, PartialEq, Eq, Debug)]
pub struct Watch {
    /// The open directory and its identity.
    pub inode: INode,
    /// The path under which the directory was first watched; events of this
    /// watch are reported below it.
    pub path: String,
}

/// Every watch is stored under the identity of its own directory.
pub open spec fn keyed_by_identity(m: Map<(u32, u64), Watch>) -> bool {
    forall|id: (u32, u64)| #[trigger] m.contains_key(id) ==> m[id].inode.identity() == id
}

/// The handles that the watches of a registry hold open.
pub open spec fn handles_of(m: Map<(u32, u64), Watch>) -> Set<HANDLE> {
    Set::new(
        |h: HANDLE|
            exists|id: (u32, u64)| #[trigger] m.contains_key(id) && m[id].inode.handle == h,
    )
}

/// `list` holds each watch of `m` once, and nothing else.
pub open spec fn lists_all(list: Seq<Watch>, m: Map<(u32, u64), Watch>) -> bool {
    &&& forall|id: (u32, u64)| #[trigger] m.contains_key(id) ==> list.contains(m[id])
    &&& forall|k: int|
        0 <= k < list.len() ==> m.contains_key((#[trigger] list[k]).inode.identity())
            && m[list[k].inode.identity()] == list[k]
    &&& forall|k: int, l: int|
        0 <= k < l < list.len() ==> (#[trigger] list[k]).inode.identity()
            != (#[trigger] list[l]).inode.identity()
}

/// What registering the open directory `inode` under `path` makes of the
/// registry `m`: nothing new if the directory is already watched, one more
/// watch otherwise.
pub open spec fn spec_register(m: Map<(u32, u64), Watch>, inode: INode, path: String) -> Map<
    (u32, u64),
    Watch,
> {
    if m.contains_key(inode.identity()) {
        m
    } else {
        m.insert(inode.identity(), Watch { inode, path })
    }
}

/// The watches of a notifier, by volume and then by file index.
pub struct WatchRegistry {
    watches: HashMap<u32, HashMap<u64, Watch>>,
}

impl View for WatchRegistry {
    type V = Map<(u32, u64), Watch>;

    closed spec fn view(&self) -> Map<(u32, u64), Watch> {
        Map::new(
            |id: (u32, u64)|
                self.watches@.contains_key(id.0) && self.watches@[id.0]@.contains_key(id.1),
            |id: (u32, u64)| self.watches@[id.0]@[id.1],
        )
    }
}

impl WatchRegistry {
    /// The registry's invariant: every watch is stored under its own identity.
    pub open spec fn wf(&self) -> bool {
        keyed_by_identity(self@)
    }

    /// A registry without watches.
    pub fn new() -> (r: WatchRegistry)
        ensures
            r@ == Map::<(u32, u64), Watch>::empty(),
            r.wf(),
    {
        broadcast use group_hash_axioms;

        let r = WatchRegistry { watches: HashMap::new() };
        r
    }

    /// The watch of the directory with the given identity, if it has one.
    pub fn get(&self, volume: u32, index: u64) -> (r: Option<&Watch>)
        ensures
            match r {
                Some(w) => self@.contains_key((volume, index)) && *w == self@[(volume, index)],
                None => !self@.contains_key((volume, index)),
            },
    {
        broadcast use group_hash_axioms;

        match self.watches.get(&volume) {
            None => None,
            Some(watches) => watches.get(&index),
        }
    }

    /// The watch of the directory that `inode` identifies, if it has one.
    pub fn watch_entry(&self, inode: &INode) -> (r: Option<&Watch>)
        ensures
            match r {
                Some(w) => self@.contains_key(inode.identity()) && *w == self@[inode.identity()],
                None => !self@.contains_key(inode.identity()),
            },
    {
        self.get(inode.volume, inode.index)
    }

    /// Takes the open directory `inode` into the registry under `path`. If the
    /// directory is already watched, the registry stays as it is and the
    /// handle of `inode`, a second one on the same directory, is handed back
    /// to be closed.
    pub fn register(&mut self, inode: INode, path: String) -> (duplicate: Option<HANDLE>)
        ensures
            final(self)@ == spec_register(old(self)@, inode, path),
            duplicate == if old(self)@.contains_key(inode.identity()) {
                Some(inode.handle)
            } else {
                None
            },
            old(self).wf() ==> final(self).wf(),
    {
        broadcast use group_hash_axioms;

        if self.watch_entry(&inode).is_some() {
            return Some(inode.handle);
        }
        let volume = self.watches.entry(inode.volume).or_insert(HashMap::new());
        volume.insert(inode.index, Watch { inode, path });
        None
    }

    /// Drops the watch of the directory with the given identity and hands it
    /// back, for its pending read to be cancelled and its handle closed.
    /// Fails with `NotWatched` exactly if there is no such watch.
    pub fn remove(&mut self, volume: u32, index: u64) -> (r: NotifyResult<Watch>)
        ensures
            final(self)@ == old(self)@.remove((volume, index)),
            r == if old(self)@.contains_key((volume, index)) {
                Ok::<Watch, Error>(old(self)@[(volume, index)])
            } else {
                Err::<Watch, Error>(Error::NotWatched)
            },
            old(self).wf() ==> final(self).wf(),
    {
        broadcast use group_hash_axioms;

        let found = if self.watches.contains_key(&volume) {
            let watches = idxmut_map(&mut self.watches, &volume);
            let ghost before = watches@;
            let found = watches.remove(&index);
            proof {
                let k = choose|k: u32|
                    #![trigger key_borrowed_as(old(self).watches@, k, &volume)]
                    {
                        &&& key_borrowed_as(old(self).watches@, k, &volume)
                        &&& before == old(self).watches@[k]@
                        &&& self.watches@ == old(self).watches@.insert(k, *watches)
                    };
                assert(!old(self).watches@.remove(volume).contains_key(k));
                assert(k == volume);
            }
            found
        } else {
            None
        };
        match found {
            Some(watch) => Ok(watch),
            None => Err(Error::NotWatched),
        }
    }

    /// Empties the registry and hands out its watches, each one once, for
    /// their reads to be cancelled and their handles closed. The order in
    /// which they come is not fixed.
    pub fn close_all(&mut self) -> (drained: Vec<Watch>)
        requires
            old(self).wf(),
        ensures
            final(self)@ == Map::<(u32, u64), Watch>::empty(),
            final(self).wf(),
            lists_all(drained@, old(self)@),
    {
        broadcast use group_hash_axioms;

        let mut drained: Vec<Watch> = Vec::new();
        let volumes = keys_of(&self.watches);
        let mut i: usize = 0;
        while i < volumes.len()
            invariant
                i <= volumes.len(),
                self == old(self),
                self.wf(),
                volumes@.no_duplicates(),
                volumes@.to_set() == self.watches@.dom(),
                forall|id: (u32, u64)|
                    #![trigger self@.contains_key(id)]
                    self@.contains_key(id) && volumes@.take(i as int).contains(id.0)
                        ==> drained@.contains(self@[id]),
                forall|k: int|
                    0 <= k < drained.len() ==> volumes@.take(i as int).contains(
                        (#[trigger] drained[k]).inode.volume,
                    ) && self@.contains_key(drained[k].inode.identity())
                        && self@[drained[k].inode.identity()] == drained[k],
                forall|k: int, l: int|
                    0 <= k < l < drained.len() ==> (#[trigger] drained[k]).inode.identity()
                        != (#[trigger] drained[l]).inode.identity(),
            decreases volumes.len() - i,
        {
            let volume: u32 = volumes[i];
            let ghost before = drained@;
            assert(!volumes@.take(i as int).contains(volume)) by {
                if volumes@.take(i as int).contains(volume) {
                    let shorter = volumes@.take(i as int);
                    let j = choose|j: int| 0 <= j < shorter.len() && shorter[j] == volume;
                    assert(volumes@[j] == volumes@[i as int]);
                }
            }
            match self.watches.get(&volume) {
                None => {},
                Some(watches) => {
                    let indices = keys_of(watches);
                    let mut j: usize = 0;
                    while j < indices.len()
                        invariant
                            j <= indices.len(),
                            i < volumes.len(),
                            volume == volumes[i as int],
                            self.wf(),
                            self.watches@.contains_key(volume),
                            *watches == self.watches@[volume],
                            indices@.no_duplicates(),
                            indices@.to_set() == watches@.dom(),
                            drained@.len() == before.len() + j,
                            drained@.take(before.len() as int) == before,
                            forall|k: int|
                                0 <= k < j ==> #[trigger] drained[before.len() + k]
                                    == self@[(volume, indices[k])],
                        decreases indices.len() - j,
                    {
                        let index: u64 = indices[j];
                        match watches.get(&index) {
                            None => {},
                            Some(watch) => {
                                drained.push(
                                    Watch { inode: watch.inode, path: watch.path.clone() },
                                );
                            },
                        }
                        j += 1;
                    }
                    proof {
                        assert forall|k: int| 0 <= k < drained.len() implies volumes@.take(
                            (i + 1) as int,
                        ).contains((#[trigger] drained[k]).inode.volume) && self@.contains_key(
                            drained[k].inode.identity(),
                        ) && self@[drained[k].inode.identity()] == drained[k] by {
                            if k < before.len() {
                                assert(drained[k] == before[k]);
                                let v = before[k].inode.volume;
                                let shorter = volumes@.take(i as int);
                                let p = choose|p: int| 0 <= p < shorter.len() && shorter[p] == v;
                                assert(volumes@.take((i + 1) as int)[p] == v);
                            } else {
                                let q = k - before.len();
                                assert(drained[before.len() + q] == self@[(volume, indices[q])]);
                                assert(self@.contains_key((volume, indices[q])));
                                assert(volumes@.take((i + 1) as int)[i as int] == volume);
                            }
                        }
                        assert forall|k: int, l: int| 0 <= k < l < drained.len() implies (
                        #[trigger] drained[k]).inode.identity() != (
                        #[trigger] drained[l]).inode.identity() by {
                            if l < before.len() {
                                assert(drained[k] == before[k]);
                                assert(drained[l] == before[l]);
                            } else if k < before.len() {
                                assert(drained[k] == before[k]);
                                let q = l - before.len();
                                assert(drained[before.len() + q] == self@[(volume, indices[q])]);
                                assert(self@.contains_key((volume, indices[q])));
                            } else {
                                let q = k - before.len();
                                let r = l - before.len();
                                assert(drained[before.len() + q] == self@[(volume, indices[q])]);
                                assert(drained[before.len() + r] == self@[(volume, indices[r])]);
                                assert(self@.contains_key((volume, indices[q])));
                                assert(self@.contains_key((volume, indices[r])));
                                assert(indices[q] != indices[r]);
                            }
                        }
                        assert forall|id: (u32, u64)|
                            #![trigger self@.contains_key(id)]
                            self@.contains_key(id) && volumes@.take((i + 1) as int).contains(
                                id.0,
                            ) implies drained@.contains(self@[id]) by {
                            if id.0 == volume {
                                let q = choose|q: int| 0 <= q < indices.len() && indices[q] == id.1;
                                assert(drained[before.len() + q] == self@[(volume, indices[q])]);
                            } else {
                                let longer = volumes@.take((i + 1) as int);
                                let p = choose|p: int| 0 <= p < longer.len() && longer[p] == id.0;
                                assert(volumes@.take(i as int)[p] == id.0);
                                let q = choose|q: int|
                                    0 <= q < before.len() && before[q] == self@[id];
                                assert(drained[q] == before[q]);
                            }
                        }
                    }
                },
            }
            i += 1;
        }
        proof {
            assert(volumes@.take(i as int) =~= volumes@);
            assert forall|id: (u32, u64)| #[trigger]
                self@.contains_key(id) implies drained@.contains(self@[id]) by {
                assert(volumes@.to_set().contains(id.0));
            }
        }
        self.watches.clear();
        drained
    }
}

/// The keys of a map, each one once.
fn keys_of<K: Copy, V>(m: &HashMap<K, V>) -> (keys: Vec<K>)
    requires
        obeys_key_model::<K>(),
    ensures
        keys@.no_duplicates(),
        keys@.to_set() == m@.dom(),
{
    broadcast use group_hash_axioms;

    let mut keys: Vec<K> = Vec::new();
    for key in it: m.keys()
        invariant
            it.seq() == spec_keys_iter(m).remaining(),
            keys@ == it.seq().take(it.index()).unref(),
    {
        keys.push(*key);
    }
    assert(keys@ =~= spec_keys_iter(m).remaining().unref());
    keys
}

} // verus!
