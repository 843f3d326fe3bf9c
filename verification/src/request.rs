//! Building the request URL for one lookup.
//!
//! A lookup addresses `<endpoint>/<entity-kind>`, with no query string for
//! "list all" and a single-key query `?uid=`, `?gid=` or `?name=` for a
//! filtered lookup. Numeric ids are written as plain decimal text; a name
//! is written as it stands, an empty name included.
use vstd::prelude::*;
use vstd::string::StrSliceExecFns;
use vstd::string::StringExecFns;
use crate::text::{spec_decimal, u32_to_decimal};

verus! {

/// The three entity kinds the directory serves.
#[derive(Clone, Copy, Debug, PartialEq, Eq)]
pub enum EntityKind {
    Passwd,
    Group,
    Shadow,
}

/// The addressing mode of one lookup: enumerate all records, or select one
/// by numeric id or by name. Exactly one shape per request; shapes are
/// never combined.
#[derive(Clone, Debug, PartialEq, Eq)]
pub enum LookupFilter {
    All,
    ByUid(u32),
    ByGid(u32),
    ByName(String),
}

/// The path segment of an entity kind.
pub open spec fn kind_path(k: EntityKind) -> Seq<char> {
    match k {
        EntityKind::Passwd => "passwd"@,
        EntityKind::Group => "group"@,
        EntityKind::Shadow => "shadow"@,
    }
}

/// The query string of a filter: empty for "list all".
pub open spec fn filter_query(f: LookupFilter) -> Seq<char> {
    match f {
        LookupFilter::All => Seq::empty(),
        LookupFilter::ByUid(u) => "?uid="@ + spec_decimal(u as int),
        LookupFilter::ByGid(g) => "?gid="@ + spec_decimal(g as int),
        LookupFilter::ByName(n) => "?name="@ + n@,
    }
}

/// The full request URL for one lookup.
pub open spec fn spec_url(endpoint: Seq<char>, k: EntityKind, f: LookupFilter) -> Seq<char> {
    endpoint + "/"@ + kind_path(k) + filter_query(f)
}

/// Builds the request URL for one lookup against a configured endpoint.
pub fn build_url(endpoint: &str, kind: EntityKind, filter: &LookupFilter) -> (r: String)
    ensures
        r@ == spec_url(endpoint@, kind, *filter),
{
    let mut url = endpoint.to_owned();
    url.append("/");
    match kind {
        EntityKind::Passwd => url.append("passwd"),
        EntityKind::Group => url.append("group"),
        EntityKind::Shadow => url.append("shadow"),
    }
    match filter {
        LookupFilter::All => {},
        LookupFilter::ByUid(u) => {
            url.append("?uid=");
            let d = u32_to_decimal(*u);
            url.append(d.as_str());
        },
        LookupFilter::ByGid(g) => {
            url.append("?gid=");
            let d = u32_to_decimal(*g);
            url.append(d.as_str());
        },
        LookupFilter::ByName(n) => {
            url.append("?name=");
            url.append(n.as_str());
        },
    }
    proof {
        assert(url@ =~= spec_url(endpoint@, kind, *filter));
    }
    url
}

} // verus!
