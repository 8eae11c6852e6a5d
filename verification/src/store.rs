//! The contract between the resolver and the time-indexed store behind it:
//! the shape of the requests it sends and the decoding of what comes back.

use vstd::prelude::*;
use vstd::string::StringExecFns;
use crate::host::{pseudo_key_of, HostId, HostIdView};
use crate::mapping::{
    has_match, nearest_asset, AssetIdMapping, Direction, MappingView, ResolvedAssetId,
};

verus! {

/// A range read for the single mapping nearest to a timestamp.
#[derive(Debug, Clone, PartialEq, Eq)]
pub struct MappingQuery {
    pub table_name: String,
    /// The key condition, written over the two placeholders.
    pub key_condition_expression: String,
    /// Placeholder that stands for `pseudo_key` in the condition.
    pub key_placeholder: String,
    pub pseudo_key: String,
    /// Placeholder that stands for `c_timestamp` in the condition.
    pub timestamp_placeholder: String,
    pub c_timestamp: u64,
    /// `c_timestamp` as the store compares it: a number in decimal digits.
    pub timestamp_number: String,
    pub consistent_read: bool,
    pub limit: u64,
    /// `Some(false)` asks for descending timestamps; `None` leaves the
    /// store's ascending default.
    pub scan_index_forward: Option<bool>,
    /// The side of `c_timestamp` that the condition selects.
    pub direction: Direction,
}

/// A point write of one mapping.
#[derive(Debug, Clone, PartialEq, Eq)]
pub struct PutRequest {
    pub table_name: String,
    pub item: AssetIdMapping,
}

/// One item of a reply, as far as it could be decoded.
#[derive(Debug, Clone, PartialEq, Eq)]
pub enum Row {
    Decoded(ResolvedAssetId),
    /// The item carried no readable asset identifier; the text says why.
    Malformed(String),
}

/// Why a call to the store failed.
#[derive(Debug, Clone, PartialEq, Eq)]
pub enum StoreError {
    /// The request did not go through.
    Transport(String),
    /// The single item of a reply could not be decoded.
    Malformed(String),
    /// A read limited to one item returned more.
    UnexpectedItemCount,
}

impl StoreError {
    /// The text that describes the failure.
    pub open spec fn text(&self) -> Seq<char> {
        match self {
            StoreError::Transport(m) => m@,
            StoreError::Malformed(m) => m@,
            StoreError::UnexpectedItemCount => "Unexpected number of items returned"@,
        }
    }

    /// A description for diagnostics.
    pub fn message(&self) -> (r: String)
        ensures
            r@ == self.text(),
    {
        match self {
            StoreError::Transport(m) => m.clone(),
            StoreError::Malformed(m) => m.clone(),
            StoreError::UnexpectedItemCount => String::from_str(
                "Unexpected number of items returned",
            ),
        }
    }
}

/// What a lookup or a resolution does next: it has a question for the store,
/// or it is done.
#[derive(Debug, PartialEq, Eq)]
pub enum Step {
    Ask(MappingQuery),
    Done(Result<Option<String>, StoreError>),
}

/// The character of a decimal digit.
pub open spec fn digit(d: nat) -> char {
    if d == 0 {
        '0'
    } else if d == 1 {
        '1'
    } else if d == 2 {
        '2'
    } else if d == 3 {
        '3'
    } else if d == 4 {
        '4'
    } else if d == 5 {
        '5'
    } else if d == 6 {
        '6'
    } else if d == 7 {
        '7'
    } else if d == 8 {
        '8'
    } else {
        '9'
    }
}

/// `n` in decimal digits, without leading zeros.
pub open spec fn decimal(n: nat) -> Seq<char>
    decreases n,
{
    if n < 10 {
        seq![digit(n)]
    } else {
        decimal(n / 10).push(digit(n % 10))
    }
}

fn digit_text(d: u64) -> (r: &'static str)
    requires
        d < 10,
    ensures
        r@ == seq![digit(d as nat)],
{
    proof {
        reveal_strlit("0");
        reveal_strlit("1");
        reveal_strlit("2");
        reveal_strlit("3");
        reveal_strlit("4");
        reveal_strlit("5");
        reveal_strlit("6");
        reveal_strlit("7");
        reveal_strlit("8");
        reveal_strlit("9");
    }
    let r = if d == 0 {
        "0"
    } else if d == 1 {
        "1"
    } else if d == 2 {
        "2"
    } else if d == 3 {
        "3"
    } else if d == 4 {
        "4"
    } else if d == 5 {
        "5"
    } else if d == 6 {
        "6"
    } else if d == 7 {
        "7"
    } else if d == 8 {
        "8"
    } else {
        "9"
    };
    assert(r@ =~= seq![digit(d as nat)]);
    r
}

/// Writes a timestamp as the value of a number attribute.
pub fn number_attribute(n: u64) -> (r: String)
    ensures
        r@ == decimal(n as nat),
    decreases n,
{
    if n < 10 {
        String::from_str(digit_text(n))
    } else {
        let head = number_attribute(n / 10);
        let r = head.concat(digit_text(n % 10));
        assert(r@ =~= decimal(n as nat));
        r
    }
}

/// The key condition of a lookup on the given side.
pub open spec fn condition_text(dir: Direction) -> Seq<char> {
    match dir {
        Direction::FirstAfter => "pseudo_key = :pkey_val AND c_timestamp >= :c_timestamp"@,
        Direction::LastBefore => "pseudo_key = :pseudo_key AND c_timestamp <= :c_timestamp"@,
    }
}

/// The placeholder for the key in the condition of a lookup on the given side.
pub open spec fn key_placeholder_text(dir: Direction) -> Seq<char> {
    match dir {
        Direction::FirstAfter => ":pkey_val"@,
        Direction::LastBefore => ":pseudo_key"@,
    }
}

impl MappingQuery {
    /// The query is the nearest-mapping read for `h` at `ts` on side `dir`:
    /// strongly consistent, limited to one item, ordered so that the nearest
    /// mapping comes first.
    pub open spec fn is_lookup(&self, h: HostIdView, ts: u64, dir: Direction) -> bool {
        &&& self.table_name@ == "asset_id_mappings"@
        &&& self.key_condition_expression@ == condition_text(dir)
        &&& self.key_placeholder@ == key_placeholder_text(dir)
        &&& self.pseudo_key@ == pseudo_key_of(h)
        &&& self.timestamp_placeholder@ == ":c_timestamp"@
        &&& self.c_timestamp == ts
        &&& self.timestamp_number@ == decimal(ts as nat)
        &&& self.consistent_read
        &&& self.limit == 1
        &&& self.scan_index_forward == match dir {
            Direction::FirstAfter => None::<bool>,
            Direction::LastBefore => Some(false),
        }
        &&& self.direction == dir
    }
}

/// `s` is the step that a lookup of `h` at `ts` on side `dir` begins with: an
/// asset identifier is the answer, an observed identifier is asked for.
pub open spec fn opening(h: HostIdView, ts: u64, dir: Direction, s: Step) -> bool {
    match h {
        HostIdView::AssetId(a) => s matches Step::Done(Ok(Some(id))) && id@ == a,
        _ => s matches Step::Ask(q) && q.is_lookup(h, ts, dir),
    }
}

/// Begins the lookup of the mapping nearest to `ts` on side `dir`. For an
/// asset identifier there is nothing to read.
pub fn lookup(host_id: &HostId, ts: u64, dir: Direction) -> (s: Step)
    ensures
        opening(host_id@, ts, dir, s),
{
    let key = match host_id {
        HostId::AssetId(id) => {
            return Step::Done(Ok(Some(id.clone())));
        },
        HostId::Hostname(hostname) => String::from_str("hostname").concat(hostname.as_str()),
        HostId::Ip(ip) => String::from_str("ip").concat(ip.as_str()),
    };
    let (condition, key_placeholder, order) = match dir {
        Direction::FirstAfter => (
            String::from_str("pseudo_key = :pkey_val AND c_timestamp >= :c_timestamp"),
            String::from_str(":pkey_val"),
            None,
        ),
        Direction::LastBefore => (
            String::from_str("pseudo_key = :pseudo_key AND c_timestamp <= :c_timestamp"),
            String::from_str(":pseudo_key"),
            Some(false),
        ),
    };
    Step::Ask(
        MappingQuery {
            table_name: String::from_str("asset_id_mappings"),
            key_condition_expression: condition,
            key_placeholder,
            pseudo_key: key,
            timestamp_placeholder: String::from_str(":c_timestamp"),
            c_timestamp: ts,
            timestamp_number: number_attribute(ts),
            consistent_read: true,
            limit: 1,
            scan_index_forward: order,
            direction: dir,
        },
    )
}

/// The mapping that records `host_id` as bound to `asset_id` at `ts`.
pub open spec fn binding(h: HostIdView, asset_id: Seq<char>, ts: u64) -> MappingView {
    MappingView { pseudo_key: pseudo_key_of(h), asset_id, c_timestamp: ts as nat }
}

/// Prepares the write that records `host_id` as bound to `asset_id` at `ts`.
/// An asset identifier is bound to itself by definition: nothing is written
/// for it.
pub fn put_request(host_id: &HostId, asset_id: String, ts: u64) -> (r: Option<PutRequest>)
    ensures
        host_id@ is AssetId <==> r is None,
        r matches Some(p) ==> p.table_name@ == "asset_id_mappings"@ && p.item@ == binding(
            host_id@,
            asset_id@,
            ts,
        ),
{
    match host_id.pseudo_key() {
        None => None,
        Some(key) => Some(
            PutRequest {
                table_name: String::from_str("asset_id_mappings"),
                item: AssetIdMapping { pseudo_key: key, asset_id, c_timestamp: ts },
            },
        ),
    }
}

/// `r` is the reading of the items of a reply to a one-item query: no items
/// is a miss, a single item is decoded, more are refused.
pub open spec fn decoding(items: Option<Vec<Row>>, r: Result<Option<String>, StoreError>) -> bool {
    match items {
        None => r matches Ok(None),
        Some(rows) => if rows@.len() == 0 {
            r matches Ok(None)
        } else if rows@.len() == 1 {
            match rows@[0] {
                Row::Decoded(d) => r matches Ok(Some(id)) && id@ == d@,
                Row::Malformed(why) => r matches Err(StoreError::Malformed(m)) && m@ == why@,
            }
        } else {
            r matches Err(StoreError::UnexpectedItemCount)
        },
    }
}

/// The reply holds no item.
pub open spec fn is_miss(items: Option<Vec<Row>>) -> bool {
    items matches Some(rows) ==> rows@.len() == 0
}

/// Reads the answer out of the items of a reply to a one-item query.
pub fn decode_reply(items: Option<Vec<Row>>) -> (r: Result<Option<String>, StoreError>)
    ensures
        decoding(items, r),
{
    match items {
        None => Ok(None),
        Some(rows) => {
            if rows.len() == 0 {
                Ok(None)
            } else if rows.len() == 1 {
                match &rows[0] {
                    Row::Decoded(d) => Ok(Some(d.asset_id.clone())),
                    Row::Malformed(why) => Err(StoreError::Malformed(why.clone())),
                }
            } else {
                Err(StoreError::UnexpectedItemCount)
            }
        },
    }
}

/// Reads the answer out of what a query came back with: a failure is passed
/// on, the items of a reply are decoded.
pub fn read_reply(reply: Result<Option<Vec<Row>>, StoreError>) -> (r: Result<
    Option<String>,
    StoreError,
>)
    ensures
        match reply {
            Ok(items) => decoding(items, r),
            Err(e) => r == Err::<Option<String>, StoreError>(e),
        },
{
    match reply {
        Ok(items) => decode_reply(items),
        Err(e) => Err(e),
    }
}

/// The items are what a store holding `records` owes a one-item lookup: the
/// asset identifier of a nearest qualifying mapping where one exists, and
/// nothing where none does.
pub open spec fn honest_reply(
    records: Seq<MappingView>,
    key: Seq<char>,
    ts: nat,
    dir: Direction,
    items: Option<Vec<Row>>,
) -> bool {
    if has_match(records, key, ts, dir) {
        &&& items matches Some(rows)
        &&& rows@.len() == 1
        &&& rows@[0] matches Row::Decoded(d)
        &&& nearest_asset(records, key, ts, dir, d@)
    } else {
        items matches Some(rows) ==> rows@.len() == 0
    }
}

/// A time-indexed store of mappings: point writes, and range reads on a key
/// with a bound on the timestamp. `records` is what the store holds, in the
/// order of writing.
pub trait MappingStore {
    spec fn records(&self) -> Seq<MappingView>;

    /// Whether every call to this store succeeds. A store behind a network
    /// makes no such promise.
    spec fn never_fails(&self) -> bool;

    /// Answers a read. A reply to a one-item query is honest; a failure is a
    /// failure of transport.
    fn query(&self, q: &MappingQuery) -> (r: Result<Option<Vec<Row>>, StoreError>)
        ensures
            r matches Ok(items) ==> (q.limit == 1 ==> honest_reply(
                self.records(),
                q.pseudo_key@,
                q.c_timestamp as nat,
                q.direction,
                items,
            )),
            r matches Err(e) ==> e is Transport,
            self.never_fails() ==> r is Ok,
    ;

    /// Adds one mapping. After a failure the mapping may or may not have been
    /// stored; nothing else has changed.
    fn put_item(&mut self, p: PutRequest) -> (r: Result<(), StoreError>)
        ensures
            r is Ok ==> final(self).records() == old(self).records().push(p.item@),
            r matches Err(e) ==> e is Transport && (final(self).records() == old(self).records()
                || final(self).records() == old(self).records().push(p.item@)),
            old(self).never_fails() ==> r is Ok,
            final(self).never_fails() == old(self).never_fails(),
    ;
}

} // verus!
