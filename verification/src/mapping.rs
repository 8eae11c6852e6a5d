//! Stored mappings and the meaning of a nearest-mapping lookup over them.

use vstd::prelude::*;

verus! {

/// A stored binding: at `c_timestamp` the host behind `pseudo_key` carried
/// `asset_id`.
#[derive(Debug, Clone, PartialEq, Eq)]
pub struct AssetIdMapping {
    pub pseudo_key: String,
    pub asset_id: String,
    pub c_timestamp: u64,
}

/// Mathematical model of an [`AssetIdMapping`].
pub struct MappingView {
    pub pseudo_key: Seq<char>,
    pub asset_id: Seq<char>,
    pub c_timestamp: nat,
}

impl View for AssetIdMapping {
    type V = MappingView;

    open spec fn view(&self) -> MappingView {
        MappingView {
            pseudo_key: self.pseudo_key@,
            asset_id: self.asset_id@,
            c_timestamp: self.c_timestamp as nat,
        }
    }
}

/// What a lookup hands back of a stored mapping: the asset identifier alone.
#[derive(Debug, Clone, PartialEq, Eq)]
pub struct ResolvedAssetId {
    pub asset_id: String,
}

impl View for ResolvedAssetId {
    type V = Seq<char>;

    open spec fn view(&self) -> Seq<char> {
        self.asset_id@
    }
}

/// The side of a timestamp on which a lookup searches.
#[derive(Debug, Clone, Copy, PartialEq, Eq, Structural)]
pub enum Direction {
    /// The earliest mapping at or after the timestamp.
    FirstAfter,
    /// The latest mapping at or before the timestamp.
    LastBefore,
}

/// `m` belongs to `key` and lies on the searched side of `ts`.
pub open spec fn in_range(m: MappingView, key: Seq<char>, ts: nat, dir: Direction) -> bool {
    m.pseudo_key == key && match dir {
        Direction::FirstAfter => m.c_timestamp >= ts,
        Direction::LastBefore => m.c_timestamp <= ts,
    }
}

/// Timestamp `a` is at least as close to the searched bound as `b`.
pub open spec fn no_farther(a: nat, b: nat, dir: Direction) -> bool {
    match dir {
        Direction::FirstAfter => a <= b,
        Direction::LastBefore => a >= b,
    }
}

/// Some stored mapping qualifies for the lookup.
pub open spec fn has_match(records: Seq<MappingView>, key: Seq<char>, ts: nat, dir: Direction) -> bool {
    exists|i: int| 0 <= i < records.len() && in_range(#[trigger] records[i], key, ts, dir)
}

/// `records[i]` qualifies for the lookup and no qualifying mapping is closer
/// to `ts`.
pub open spec fn is_nearest_at(
    records: Seq<MappingView>,
    key: Seq<char>,
    ts: nat,
    dir: Direction,
    i: int,
) -> bool {
    &&& 0 <= i < records.len()
    &&& in_range(records[i], key, ts, dir)
    &&& forall|j: int|
        0 <= j < records.len() && in_range(#[trigger] records[j], key, ts, dir) ==> no_farther(
            records[i].c_timestamp,
            records[j].c_timestamp,
            dir,
        )
}

/// `asset_id` is the asset identifier of a nearest qualifying mapping. Where
/// several mappings share the nearest timestamp, each of their identifiers
/// qualifies.
pub open spec fn nearest_asset(
    records: Seq<MappingView>,
    key: Seq<char>,
    ts: nat,
    dir: Direction,
    asset_id: Seq<char>,
) -> bool {
    exists|i: int| #[trigger] is_nearest_at(records, key, ts, dir, i) && records[i].asset_id == asset_id
}

} // verus!
