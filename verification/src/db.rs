//! The mapping store as the resolver sees it: typed lookups and writes over a
//! [`MappingStore`].

use vstd::prelude::*;
use crate::host::{pseudo_key_of, HostId, HostIdView};
use crate::mapping::{has_match, nearest_asset, Direction, MappingView};
use crate::store::{
    binding, decoding, is_miss, lookup, opening, put_request, read_reply, MappingStore, Row, Step,
    StoreError,
};

verus! {

/// What a lookup on one side of `ts` may return over a store holding
/// `records`: for an asset identifier, itself; for an observed identifier,
/// the asset identifier of a nearest qualifying mapping, a miss exactly where
/// none qualifies, or a failure of transport.
pub open spec fn lookup_result(
    records: Seq<MappingView>,
    h: HostIdView,
    ts: u64,
    dir: Direction,
    r: Result<Option<String>, StoreError>,
) -> bool {
    match h {
        HostIdView::AssetId(a) => r matches Ok(Some(id)) && id@ == a,
        _ => match r {
            Ok(Some(id)) => nearest_asset(records, pseudo_key_of(h), ts as nat, dir, id@),
            Ok(None) => !has_match(records, pseudo_key_of(h), ts as nat, dir),
            Err(e) => e is Transport,
        },
    }
}

/// What resolving `h` at `ts` may return over a store holding `records`: the
/// latest mapping at or before `ts` where there is one, else the earliest at
/// or after it, else a miss.
pub open spec fn resolution(
    records: Seq<MappingView>,
    h: HostIdView,
    ts: u64,
    r: Result<Option<String>, StoreError>,
) -> bool {
    match h {
        HostIdView::AssetId(a) => r matches Ok(Some(id)) && id@ == a,
        _ => {
            let key = pseudo_key_of(h);
            let t = ts as nat;
            match r {
                Ok(Some(id)) => if has_match(records, key, t, Direction::LastBefore) {
                    nearest_asset(records, key, t, Direction::LastBefore, id@)
                } else {
                    nearest_asset(records, key, t, Direction::FirstAfter, id@)
                },
                Ok(None) => !has_match(records, key, t, Direction::LastBefore) && !has_match(
                    records,
                    key,
                    t,
                    Direction::FirstAfter,
                ),
                Err(e) => e is Transport,
            }
        },
    }
}

/// Begins a resolution: an asset identifier is resolved at once, without a
/// read; for an observed identifier the latest mapping at or before `ts` is
/// asked for.
pub fn resolve_start(host_id: &HostId, ts: u64) -> (s: Step)
    ensures
        opening(host_id@, ts, Direction::LastBefore, s),
{
    lookup(host_id, ts, Direction::LastBefore)
}

/// Goes on with a resolution once the store has answered the first question.
/// A mapping found, or a failure, ends it; after a miss the earliest mapping
/// at or after `ts` is asked for, and the reading of that reply is the
/// result.
pub fn resolve_fallback(
    host_id: &HostId,
    ts: u64,
    before: Result<Option<Vec<Row>>, StoreError>,
) -> (s: Step)
    ensures
        match before {
            Err(e) => s == Step::Done(Err(e)),
            Ok(items) => if is_miss(items) {
                opening(host_id@, ts, Direction::FirstAfter, s)
            } else {
                s matches Step::Done(r) && decoding(items, r)
            },
        },
{
    match read_reply(before) {
        Ok(None) => lookup(host_id, ts, Direction::FirstAfter),
        r => Step::Done(r),
    }
}

/// Typed access to the mappings of a store.
#[derive(Debug, Clone)]
pub struct AssetIdDb<S: MappingStore> {
    store: S,
}

impl<S: MappingStore> AssetIdDb<S> {
    /// The mappings that the store holds.
    pub closed spec fn records(&self) -> Seq<MappingView> {
        self.store.records()
    }

    /// Whether every call to the store succeeds.
    pub closed spec fn never_fails(&self) -> bool {
        self.store.never_fails()
    }

    pub fn new(store: S) -> (r: Self)
        ensures
            r.records() == store.records(),
            r.never_fails() == store.never_fails(),
    {
        Self { store }
    }

    /// The store behind this access.
    pub fn store(&self) -> (r: &S)
        ensures
            r.records() == self.records(),
            r.never_fails() == self.never_fails(),
    {
        &self.store
    }

    /// Looks on side `dir` of `ts`.
    fn find(&self, host_id: &HostId, ts: u64, dir: Direction) -> (r: Result<
        Option<String>,
        StoreError,
    >)
        ensures
            lookup_result(self.records(), host_id@, ts, dir, r),
            self.never_fails() ==> r is Ok,
    {
        match lookup(host_id, ts, dir) {
            Step::Done(r) => r,
            Step::Ask(q) => read_reply(self.store.query(&q)),
        }
    }

    /// The asset identifier of the earliest mapping of `host_id` at or after
    /// `ts`. An asset identifier is returned as it is, without a read.
    pub fn find_first_mapping_after(&self, host_id: &HostId, ts: u64) -> (r: Result<
        Option<String>,
        StoreError,
    >)
        ensures
            lookup_result(self.records(), host_id@, ts, Direction::FirstAfter, r),
            self.never_fails() ==> r is Ok,
    {
        self.find(host_id, ts, Direction::FirstAfter)
    }

    /// The asset identifier of the latest mapping of `host_id` at or before
    /// `ts`. An asset identifier is returned as it is, without a read.
    pub fn find_last_mapping_before(&self, host_id: &HostId, ts: u64) -> (r: Result<
        Option<String>,
        StoreError,
    >)
        ensures
            lookup_result(self.records(), host_id@, ts, Direction::LastBefore, r),
            self.never_fails() ==> r is Ok,
    {
        self.find(host_id, ts, Direction::LastBefore)
    }

    /// Resolves `host_id` as of `ts`: the binding already in force at `ts` is
    /// preferred; the nearest later one stands in where none is on record.
    pub fn resolve_asset_id(&self, host_id: &HostId, ts: u64) -> (r: Result<
        Option<String>,
        StoreError,
    >)
        ensures
            resolution(self.records(), host_id@, ts, r),
            self.never_fails() ==> r is Ok,
    {
        match resolve_start(host_id, ts) {
            Step::Done(r) => r,
            Step::Ask(first) => match resolve_fallback(host_id, ts, self.store.query(&first)) {
                Step::Done(r) => r,
                Step::Ask(second) => read_reply(self.store.query(&second)),
            },
        }
    }

    /// Records that `host_id` was bound to `asset_id` at `ts`: one mapping is
    /// appended, whatever the store already holds. For an asset identifier
    /// nothing is written and the call succeeds.
    pub fn create_mapping(&mut self, host_id: &HostId, asset_id: String, ts: u64) -> (r: Result<
        (),
        StoreError,
    >)
        ensures
            host_id@ is AssetId ==> r is Ok && final(self).records() == old(self).records(),
            !(host_id@ is AssetId) && r is Ok ==> final(self).records() == old(
                self,
            ).records().push(binding(host_id@, asset_id@, ts)),
            r matches Err(e) ==> e is Transport && (final(self).records() == old(self).records()
                || final(self).records() == old(self).records().push(
                binding(host_id@, asset_id@, ts),
            )),
            old(self).never_fails() ==> r is Ok,
            final(self).never_fails() == old(self).never_fails(),
    {
        match put_request(host_id, asset_id, ts) {
            None => Ok(()),
            Some(p) => self.store.put_item(p),
        }
    }
}

} // verus!
