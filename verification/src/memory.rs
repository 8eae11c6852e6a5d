//! A store that keeps its mappings in memory, in the order of writing.

use vstd::prelude::*;
use crate::mapping::{
    in_range, is_nearest_at, no_farther, AssetIdMapping, Direction, MappingView, ResolvedAssetId,
};
use crate::store::{MappingQuery, MappingStore, PutRequest, Row, StoreError};

verus! {

/// An append-only list of mappings that answers lookups by scanning it.
#[derive(Debug, Clone)]
pub struct MemoryStore {
    items: Vec<AssetIdMapping>,
}

impl MemoryStore {
    /// The mappings held, oldest write first.
    pub closed spec fn contents(&self) -> Seq<MappingView> {
        self.items@.map_values(|m: AssetIdMapping| m@)
    }

    /// A store that holds nothing.
    pub fn new() -> (r: MemoryStore)
        ensures
            r.contents() == Seq::<MappingView>::empty(),
    {
        let r = MemoryStore { items: Vec::new() };
        assert(r.contents() =~= Seq::<MappingView>::empty());
        r
    }

    /// The number of mappings held.
    pub fn len(&self) -> (n: usize)
        ensures
            n == self.contents().len(),
    {
        self.items.len()
    }

    /// Whether `m` lies on side `dir` of `ts` under `key`.
    fn qualifies(m: &AssetIdMapping, key: &String, ts: u64, dir: Direction) -> (r: bool)
        ensures
            r == in_range(m@, key@, ts as nat, dir),
    {
        let on_side = match dir {
            Direction::FirstAfter => m.c_timestamp >= ts,
            Direction::LastBefore => m.c_timestamp <= ts,
        };
        on_side && m.pseudo_key == *key
    }

    /// Index of the first mapping among those nearest to `ts` on side `dir`
    /// under `key`, if any qualifies.
    pub fn nearest(&self, key: &String, ts: u64, dir: Direction) -> (r: Option<usize>)
        ensures
            match r {
                Some(b) => {
                    &&& is_nearest_at(self.contents(), key@, ts as nat, dir, b as int)
                    &&& forall|j: int|
                        0 <= j < b && in_range(#[trigger] self.contents()[j], key@, ts as nat, dir)
                            ==> self.contents()[j].c_timestamp != self.contents()[b as int].c_timestamp
                },
                None => forall|j: int|
                    0 <= j < self.contents().len() ==> !in_range(
                        #[trigger] self.contents()[j],
                        key@,
                        ts as nat,
                        dir,
                    ),
            },
    {
        let mut best: Option<usize> = None;
        let mut i: usize = 0;
        while i < self.items.len()
            invariant
                i <= self.items.len(),
                self.contents().len() == self.items.len(),
                forall|j: int| 0 <= j < self.items.len() ==> self.contents()[j] == self.items[j]@,
                match best {
                    Some(b) => {
                        &&& b < i
                        &&& in_range(self.contents()[b as int], key@, ts as nat, dir)
                        &&& forall|j: int|
                            0 <= j < b && in_range(
                                #[trigger] self.contents()[j],
                                key@,
                                ts as nat,
                                dir,
                            ) ==> self.contents()[j].c_timestamp != self.contents()[b as int].c_timestamp
                        &&& forall|j: int|
                            0 <= j < i && in_range(
                                #[trigger] self.contents()[j],
                                key@,
                                ts as nat,
                                dir,
                            ) ==> no_farther(
                                self.contents()[b as int].c_timestamp,
                                self.contents()[j].c_timestamp,
                                dir,
                            )
                    },
                    None => forall|j: int|
                        0 <= j < i ==> !in_range(#[trigger] self.contents()[j], key@, ts as nat, dir),
                },
            decreases self.items.len() - i,
        {
            if Self::qualifies(&self.items[i], key, ts, dir) {
                let closer = match best {
                    None => true,
                    Some(b) => match dir {
                        Direction::FirstAfter => self.items[i].c_timestamp
                            < self.items[b].c_timestamp,
                        Direction::LastBefore => self.items[i].c_timestamp
                            > self.items[b].c_timestamp,
                    },
                };
                if closer {
                    best = Some(i);
                }
            }
            i = i + 1;
        }
        best
    }
}

impl MappingStore for MemoryStore {
    open spec fn records(&self) -> Seq<MappingView> {
        self.contents()
    }

    open spec fn never_fails(&self) -> bool {
        true
    }

    /// Never fails. A query with a limit of zero gets no item.
    fn query(&self, q: &MappingQuery) -> (r: Result<Option<Vec<Row>>, StoreError>) {
        let mut rows: Vec<Row> = Vec::new();
        if q.limit >= 1 {
            match self.nearest(&q.pseudo_key, q.c_timestamp, q.direction) {
                Some(b) => {
                    rows.push(
                        Row::Decoded(ResolvedAssetId { asset_id: self.items[b].asset_id.clone() }),
                    );
                },
                None => {},
            }
        }
        Ok(Some(rows))
    }

    /// Never fails.
    fn put_item(&mut self, p: PutRequest) -> (r: Result<(), StoreError>) {
        let ghost before = self.contents();
        self.items.push(p.item);
        assert(self.contents() =~= before.push(p.item@));
        Ok(())
    }
}

} // verus!
