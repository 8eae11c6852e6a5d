//! What resolution guarantees of the mappings on record.

use vstd::prelude::*;
use crate::db::resolution;
use crate::identifier::{
    attribution, identity, AttributionError, EventRecord, RecordKind, Unattributable,
};
use crate::host::{pseudo_key_of, HostIdView};
use crate::mapping::{has_match, in_range, is_nearest_at, Direction, MappingView};
use crate::store::{binding, StoreError};

verus! {

/// After `h` was bound to `a` at `x`, resolving `h` at `x` or any later time
/// `y` gives `a`, unless the store fails or holds a binding of `h` to another
/// asset between `x` and `y`.
pub proof fn lemma_prior_mapping_resolves(
    records: Seq<MappingView>,
    h: HostIdView,
    a: Seq<char>,
    x: u64,
    y: u64,
    r: Result<Option<String>, StoreError>,
)
    requires
        h.is_observed(),
        x <= y,
        forall|i: int|
            0 <= i < records.len() && (#[trigger] records[i]).pseudo_key == pseudo_key_of(h) && x
                <= records[i].c_timestamp <= y ==> records[i].asset_id == a,
        resolution(records.push(binding(h, a, x)), h, y, r),
        r is Ok,
    ensures
        r matches Ok(Some(id)) && id@ == a,
{
    let key = pseudo_key_of(h);
    let after = records.push(binding(h, a, x));
    let n = records.len() as int;
    assert(after[n] == binding(h, a, x));
    assert(in_range(after[n], key, y as nat, Direction::LastBefore));
    assert(has_match(after, key, y as nat, Direction::LastBefore));
    match r {
        Ok(Some(id)) => {
            let i = choose|i: int| #[trigger]
                is_nearest_at(after, key, y as nat, Direction::LastBefore, i) && after[i].asset_id
                    == id@;
            if i < n {
                assert(after[i] == records[i]);
            }
        },
        _ => {},
    }
}

/// Where no mapping of `h` lies at or before `y`, resolving `h` at `y` gives
/// the asset of the earliest mapping after `y`: that of `records[z]`, if no
/// mapping of `h` to another asset lies between `y` and it.
pub proof fn lemma_first_after_fallback(
    records: Seq<MappingView>,
    h: HostIdView,
    y: u64,
    z: int,
    r: Result<Option<String>, StoreError>,
)
    requires
        h.is_observed(),
        !has_match(records, pseudo_key_of(h), y as nat, Direction::LastBefore),
        0 <= z < records.len(),
        records[z].pseudo_key == pseudo_key_of(h),
        records[z].c_timestamp >= y,
        forall|j: int|
            0 <= j < records.len() && (#[trigger] records[j]).pseudo_key == pseudo_key_of(h) && y
                <= records[j].c_timestamp <= records[z].c_timestamp ==> records[j].asset_id
                == records[z].asset_id,
        resolution(records, h, y, r),
        r is Ok,
    ensures
        r matches Ok(Some(id)) && id@ == records[z].asset_id,
{
    let key = pseudo_key_of(h);
    assert(in_range(records[z], key, y as nat, Direction::FirstAfter));
    assert(has_match(records, key, y as nat, Direction::FirstAfter));
    match r {
        Ok(Some(id)) => {
            let i = choose|i: int| #[trigger]
                is_nearest_at(records, key, y as nat, Direction::FirstAfter, i)
                    && records[i].asset_id == id@;
            assert(records[i].c_timestamp <= records[z].c_timestamp);
        },
        _ => {},
    }
}

/// Between two mappings of `h`, to `a1` at `t1` and to `a2` at a later `t2`,
/// the earlier one holds until the later one begins: resolving `h` at `t`
/// gives `a1` for `t1 <= t < t2` and `a2` at `t2`, unless the store fails or
/// holds a third mapping of `h` from `t1` to `t2`.
pub proof fn lemma_later_mapping_takes_over(
    records: Seq<MappingView>,
    h: HostIdView,
    a1: Seq<char>,
    a2: Seq<char>,
    t1: u64,
    t2: u64,
    t: u64,
    r: Result<Option<String>, StoreError>,
)
    requires
        h.is_observed(),
        t1 < t2,
        t1 <= t <= t2,
        records.contains(binding(h, a1, t1)),
        records.contains(binding(h, a2, t2)),
        forall|i: int|
            0 <= i < records.len() && (#[trigger] records[i]).pseudo_key == pseudo_key_of(h) && t1
                <= records[i].c_timestamp <= t2 ==> records[i] == binding(h, a1, t1) || records[i]
                == binding(h, a2, t2),
        resolution(records, h, t, r),
        r is Ok,
    ensures
        r matches Ok(Some(id)) && id@ == (if t == t2 {
            a2
        } else {
            a1
        }),
{
    let key = pseudo_key_of(h);
    let i1 = choose|i: int| 0 <= i < records.len() && records[i] == binding(h, a1, t1);
    let i2 = choose|i: int| 0 <= i < records.len() && records[i] == binding(h, a2, t2);
    assert(in_range(records[i1], key, t as nat, Direction::LastBefore));
    assert(has_match(records, key, t as nat, Direction::LastBefore));
    match r {
        Ok(Some(id)) => {
            let i = choose|i: int| #[trigger]
                is_nearest_at(records, key, t as nat, Direction::LastBefore, i)
                    && records[i].asset_id == id@;
            assert(records[i].c_timestamp >= records[i1].c_timestamp);
            if t == t2 {
                assert(in_range(records[i2], key, t as nat, Direction::LastBefore));
                assert(records[i].c_timestamp >= records[i2].c_timestamp);
            }
        },
        _ => {},
    }
}

/// An asset identifier resolves to itself at any time, whatever is on
/// record.
pub proof fn lemma_asset_id_resolves_to_itself(
    records: Seq<MappingView>,
    a: Seq<char>,
    ts: u64,
    r: Result<Option<String>, StoreError>,
)
    requires
        resolution(records, HostIdView::AssetId(a), ts, r),
    ensures
        r matches Ok(Some(id)) && id@ == a,
{
}

/// A host with no mapping at all does not resolve: the only outcomes are a
/// miss and a failure of the store.
pub proof fn lemma_unmapped_host_is_unresolved(
    records: Seq<MappingView>,
    h: HostIdView,
    ts: u64,
    r: Result<Option<String>, StoreError>,
)
    requires
        h.is_observed(),
        forall|i: int| 0 <= i < records.len() ==> (#[trigger] records[i]).pseudo_key != pseudo_key_of(h),
        resolution(records, h, ts, r),
        r is Ok,
    ensures
        r matches Ok(None),
{
    let key = pseudo_key_of(h);
    match r {
        Ok(Some(id)) => {
            if has_match(records, key, ts as nat, Direction::LastBefore) {
                let i = choose|i: int| #[trigger]
                    is_nearest_at(records, key, ts as nat, Direction::LastBefore, i)
                        && records[i].asset_id == id@;
                assert(records[i].pseudo_key == key);
            } else {
                let i = choose|i: int| #[trigger]
                    is_nearest_at(records, key, ts as nat, Direction::FirstAfter, i)
                        && records[i].asset_id == id@;
                assert(records[i].pseudo_key == key);
            }
        },
        _ => {},
    }
}

/// A record that names no asset id, no hostname and no host IP is
/// unattributable, whatever is on record.
pub proof fn lemma_record_without_identity_is_unattributable(
    records: Seq<MappingView>,
    record: EventRecord,
    r: Result<String, AttributionError>,
)
    requires
        record.asset_id is None,
        record.hostname is None,
        record.host_ip is None,
        attribution(records, record, r),
    ensures
        r matches Err(AttributionError::Unattributable(_)),
        record.kind != RecordKind::IpAddress ==> r matches Err(
            AttributionError::Unattributable(Unattributable::NoIdentity),
        ),
{
}

/// A record whose host has no mapping at all is not attributed: unless the
/// store fails, the outcome is the failure to resolve.
pub proof fn lemma_unmapped_record_is_unresolved(
    records: Seq<MappingView>,
    record: EventRecord,
    r: Result<String, AttributionError>,
)
    requires
        identity(record) matches Ok(h) && h.is_observed() && forall|i: int|
            0 <= i < records.len() ==> (#[trigger] records[i]).pseudo_key != pseudo_key_of(h),
        attribution(records, record, r),
        !(r matches Err(AttributionError::Storage(_))),
    ensures
        r matches Err(AttributionError::Unresolved),
{
    let h = identity(record)->Ok_0;
    match r {
        Ok(id) => {
            lemma_unmapped_host_is_unresolved(records, h, record.timestamp, Ok(Some(id)));
        },
        _ => {},
    }
}

/// A record that names only a hostname is attributed to the asset to which
/// a prior mapping binds that hostname, unless the store fails or holds a
/// binding of the hostname to another asset between the mapping and the
/// record.
pub proof fn lemma_hostname_record_follows_prior_mapping(
    records: Seq<MappingView>,
    record: EventRecord,
    a: Seq<char>,
    x: u64,
    r: Result<String, AttributionError>,
)
    requires
        record.kind != RecordKind::IpAddress,
        record.asset_id is None,
        record.hostname is Some,
        x <= record.timestamp,
        forall|i: int|
            0 <= i < records.len() && (#[trigger] records[i]).pseudo_key == pseudo_key_of(
                HostIdView::Hostname(record.hostname->0@),
            ) && x <= records[i].c_timestamp <= record.timestamp ==> records[i].asset_id == a,
        attribution(
            records.push(binding(HostIdView::Hostname(record.hostname->0@), a, x)),
            record,
            r,
        ),
        !(r matches Err(AttributionError::Storage(_))),
    ensures
        r matches Ok(id) && id@ == a,
{
    let h = HostIdView::Hostname(record.hostname->0@);
    assert(identity(record) == Ok::<HostIdView, Unattributable>(h));
    match r {
        Ok(id) => {
            lemma_prior_mapping_resolves(records, h, a, x, record.timestamp, Ok(Some(id)));
        },
        Err(AttributionError::Unresolved) => {
            lemma_prior_mapping_resolves(records, h, a, x, record.timestamp, Ok(None));
        },
        _ => {},
    }
}

} // verus!
