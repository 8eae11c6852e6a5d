//! Host identifiers and the lookup keys derived from them.

use vstd::prelude::*;
use vstd::string::StringExecFns;

verus! {

/// How a host was identified when an event was observed.
#[derive(Debug, Clone, PartialEq, Eq)]
pub enum HostId {
    /// The stable asset identifier itself; it is its own resolution.
    AssetId(String),
    /// An observed hostname.
    Hostname(String),
    /// An observed IP address.
    Ip(String),
}

/// Mathematical model of a [`HostId`].
pub enum HostIdView {
    AssetId(Seq<char>),
    Hostname(Seq<char>),
    Ip(Seq<char>),
}

impl View for HostId {
    type V = HostIdView;

    open spec fn view(&self) -> HostIdView {
        match self {
            HostId::AssetId(s) => HostIdView::AssetId(s@),
            HostId::Hostname(s) => HostIdView::Hostname(s@),
            HostId::Ip(s) => HostIdView::Ip(s@),
        }
    }
}

impl HostIdView {
    /// True for the identifiers that have to be looked up.
    pub open spec fn is_observed(self) -> bool {
        !(self is AssetId)
    }
}

/// The key under which mappings of an observed identifier are stored: the kind
/// of the identifier followed by its value. An asset identifier has no key; the
/// empty sequence stands for that.
pub open spec fn pseudo_key_of(h: HostIdView) -> Seq<char> {
    match h {
        HostIdView::AssetId(_) => Seq::empty(),
        HostIdView::Hostname(v) => "hostname"@ + v,
        HostIdView::Ip(v) => "ip"@ + v,
    }
}

/// The identifier that a record's optional identity fields denote: the asset
/// id before the hostname, the hostname before the IP address.
pub open spec fn host_id_of_fields(
    asset_id: Option<Seq<char>>,
    hostname: Option<Seq<char>>,
    host_ip: Option<Seq<char>>,
) -> Option<HostIdView> {
    match (asset_id, hostname, host_ip) {
        (Some(a), _, _) => Some(HostIdView::AssetId(a)),
        (None, Some(h), _) => Some(HostIdView::Hostname(h)),
        (None, None, Some(ip)) => Some(HostIdView::Ip(ip)),
        (None, None, None) => None,
    }
}

/// View of an optional string.
pub open spec fn opt_view(s: Option<String>) -> Option<Seq<char>> {
    match s {
        Some(v) => Some(v@),
        None => None,
    }
}

impl HostId {
    /// Computes the lookup key of an observed identifier; `None` for an asset
    /// identifier, which is never looked up.
    pub fn pseudo_key(&self) -> (r: Option<String>)
        ensures
            self@ is AssetId <==> r is None,
            r matches Some(k) ==> k@ == pseudo_key_of(self@),
    {
        match self {
            HostId::AssetId(_) => None,
            HostId::Hostname(hostname) => Some(
                String::from_str("hostname").concat(hostname.as_str()),
            ),
            HostId::Ip(ip) => Some(String::from_str("ip").concat(ip.as_str())),
        }
    }

    /// Chooses the identifier of a record from its optional identity fields.
    pub fn from_fields(
        asset_id: Option<String>,
        hostname: Option<String>,
        host_ip: Option<String>,
    ) -> (r: Option<HostId>)
        ensures
            match r {
                Some(h) => Some(h@),
                None => None,
            } == host_id_of_fields(opt_view(asset_id), opt_view(hostname), opt_view(host_ip)),
    {
        match (asset_id, hostname, host_ip) {
            (Some(a), _, _) => Some(HostId::AssetId(a)),
            (None, Some(h), _) => Some(HostId::Hostname(h)),
            (None, None, Some(ip)) => Some(HostId::Ip(ip)),
            (None, None, None) => None,
        }
    }
}

/// Two observed identifiers share a lookup key only if they are the same
/// identifier: a hostname and an IP address never collide, whatever their
/// values.
pub proof fn lemma_pseudo_key_injective(a: HostIdView, b: HostIdView)
    requires
        a.is_observed(),
        b.is_observed(),
        pseudo_key_of(a) == pseudo_key_of(b),
    ensures
        a == b,
{
    reveal_strlit("hostname");
    reveal_strlit("ip");
    let ka = pseudo_key_of(a);
    let kb = pseudo_key_of(b);
    match (a, b) {
        (HostIdView::Hostname(x), HostIdView::Hostname(y)) => {
            assert(ka.subrange(8, ka.len() as int) =~= x);
            assert(kb.subrange(8, kb.len() as int) =~= y);
        },
        (HostIdView::Ip(x), HostIdView::Ip(y)) => {
            assert(ka.subrange(2, ka.len() as int) =~= x);
            assert(kb.subrange(2, kb.len() as int) =~= y);
        },
        (HostIdView::Hostname(x), HostIdView::Ip(y)) => {
            assert(ka[0] == 'h');
            assert(kb[0] == 'i');
        },
        (HostIdView::Ip(x), HostIdView::Hostname(y)) => {
            assert(ka[0] == 'i');
            assert(kb[0] == 'h');
        },
        _ => {},
    }
}

} // verus!
