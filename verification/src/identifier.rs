//! Attribution of event records to assets.

use vstd::prelude::*;
use vstd::string::StringExecFns;
use crate::db::{resolution, AssetIdDb};
use crate::host::{host_id_of_fields, opt_view, HostId, HostIdView};
use crate::mapping::MappingView;
use crate::store::{MappingStore, StoreError};

verus! {

/// The kind of activity or entity that an event record describes.
#[derive(Debug, Clone, Copy, PartialEq, Eq, Structural)]
pub enum RecordKind {
    Process,
    File,
    OutboundConnection,
    Dynamic,
    /// A standalone IP address: an entity without a host of its own.
    IpAddress,
}

/// What attribution reads of an event record.
#[derive(Debug, Clone, PartialEq, Eq)]
pub struct EventRecord {
    pub kind: RecordKind,
    pub asset_id: Option<String>,
    pub hostname: Option<String>,
    pub host_ip: Option<String>,
    pub timestamp: u64,
}

/// Why a record can have no host identity.
#[derive(Debug, Clone, Copy, PartialEq, Eq, Structural)]
pub enum Unattributable {
    /// The record describes a standalone IP address.
    IpAddressEntity,
    /// The record names no asset id, hostname or host IP.
    NoIdentity,
}

/// Why a record was not attributed.
#[derive(Debug, Clone, PartialEq, Eq)]
pub enum AttributionError {
    /// The record carries no host identity to resolve.
    Unattributable(Unattributable),
    /// The record is well formed, but no mapping of its host is on record.
    Unresolved,
    /// The store failed.
    Storage(StoreError),
}

impl AttributionError {
    /// The text that describes the failure.
    pub open spec fn text(&self) -> Seq<char> {
        match self {
            AttributionError::Unattributable(Unattributable::IpAddressEntity) =>
                "Can not call attribute_asset_id with IpAddressNode"@,
            AttributionError::Unattributable(Unattributable::NoIdentity) =>
                "Must provide at least one of: asset_id, hostname, host_ip"@,
            AttributionError::Unresolved => "Failed to resolve assetid"@,
            AttributionError::Storage(e) => "Failed to resolve assetid "@ + e.text(),
        }
    }

    /// A description for diagnostics; a failure of the store is named with
    /// the store's own words.
    pub fn message(&self) -> (r: String)
        ensures
            r@ == self.text(),
    {
        match self {
            AttributionError::Unattributable(Unattributable::IpAddressEntity) => String::from_str(
                "Can not call attribute_asset_id with IpAddressNode",
            ),
            AttributionError::Unattributable(Unattributable::NoIdentity) => String::from_str(
                "Must provide at least one of: asset_id, hostname, host_ip",
            ),
            AttributionError::Unresolved => String::from_str("Failed to resolve assetid"),
            AttributionError::Storage(e) => {
                let m = e.message();
                String::from_str("Failed to resolve assetid ").concat(m.as_str())
            },
        }
    }
}

/// The host identity that a record carries, or why it carries none.
pub open spec fn identity(record: EventRecord) -> Result<HostIdView, Unattributable> {
    if record.kind == RecordKind::IpAddress {
        Err(Unattributable::IpAddressEntity)
    } else {
        match host_id_of_fields(
            opt_view(record.asset_id),
            opt_view(record.hostname),
            opt_view(record.host_ip),
        ) {
            Some(h) => Ok(h),
            None => Err(Unattributable::NoIdentity),
        }
    }
}

/// What attributing `record` may return over a store holding `records`.
pub open spec fn attribution(
    records: Seq<MappingView>,
    record: EventRecord,
    r: Result<String, AttributionError>,
) -> bool {
    match identity(record) {
        Err(why) => r == Err::<String, AttributionError>(AttributionError::Unattributable(why)),
        Ok(h) => match r {
            Ok(id) => resolution(records, h, record.timestamp, Ok(Some(id))),
            Err(AttributionError::Unresolved) => resolution(records, h, record.timestamp, Ok(None)),
            Err(AttributionError::Storage(e)) => resolution(records, h, record.timestamp, Err(e)),
            Err(AttributionError::Unattributable(_)) => false,
        },
    }
}

impl EventRecord {
    /// The identity under which the record's host was observed: the asset
    /// id before the hostname, the hostname before the host IP. A standalone
    /// IP address has no host, whatever its fields hold.
    pub fn host_id(self) -> (r: Result<HostId, Unattributable>)
        ensures
            match r {
                Ok(h) => Ok(h@),
                Err(why) => Err(why),
            } == identity(self),
    {
        match self.kind {
            RecordKind::IpAddress => {
                return Err(Unattributable::IpAddressEntity);
            },
            _ => {},
        }
        match HostId::from_fields(self.asset_id, self.hostname, self.host_ip) {
            Some(h) => Ok(h),
            None => Err(Unattributable::NoIdentity),
        }
    }
}

/// Turns the outcome of a resolution into that of an attribution: a miss
/// is a failure of its own kind, never a guessed asset.
pub fn attributed(resolved: Result<Option<String>, StoreError>) -> (r: Result<
    String,
    AttributionError,
>)
    ensures
        match resolved {
            Ok(Some(id)) => r == Ok::<String, AttributionError>(id),
            Ok(None) => r == Err::<String, AttributionError>(AttributionError::Unresolved),
            Err(e) => r == Err::<String, AttributionError>(AttributionError::Storage(e)),
        },
{
    match resolved {
        Ok(Some(asset_id)) => Ok(asset_id),
        Ok(None) => Err(AttributionError::Unresolved),
        Err(e) => Err(AttributionError::Storage(e)),
    }
}

/// Attributes event records to assets through a mapping store.
#[derive(Debug, Clone)]
pub struct AssetIdentifier<S: MappingStore> {
    assetdb: AssetIdDb<S>,
}

impl<S: MappingStore> AssetIdentifier<S> {
    /// The mappings that attribution goes by.
    pub closed spec fn records(&self) -> Seq<MappingView> {
        self.assetdb.records()
    }

    /// Whether every call to the store succeeds.
    pub closed spec fn never_fails(&self) -> bool {
        self.assetdb.never_fails()
    }

    pub fn new(assetdb: AssetIdDb<S>) -> (r: Self)
        ensures
            r.records() == assetdb.records(),
            r.never_fails() == assetdb.never_fails(),
    {
        Self { assetdb }
    }

    /// The asset on which the recorded activity took place, as of the
    /// record's timestamp.
    pub fn attribute_asset_id(&self, record: EventRecord) -> (r: Result<String, AttributionError>)
        ensures
            attribution(self.records(), record, r),
            self.never_fails() ==> !(r matches Err(AttributionError::Storage(_))),
    {
        let ts = record.timestamp;
        match record.host_id() {
            Err(why) => Err(AttributionError::Unattributable(why)),
            Ok(host_id) => attributed(self.assetdb.resolve_asset_id(&host_id, ts)),
        }
    }
}

} // verus!
