//! The lookup resolution core.
//!
//! One lookup runs in two decision steps around a single HTTP exchange that
//! the caller performs. `plan_lookup` decides, before anything is sent,
//! whether the lookup is denied (shadow without privilege, or no endpoint
//! configured — both fail closed to "not found" without any network
//! traffic) and otherwise yields the exact request URL and timeout.
//! `classify_wire` and the `finish_*` functions then turn the raw transport
//! outcome into the closed set of lookup outcomes: a decoded record or
//! list, `NotFound`, `TransientFailure` (timeout — the caller may retry),
//! or `Unavailable` (transport or body defect; a body that fails to decode
//! is classified here, deliberately, like any other remote-side failure).
use vstd::prelude::*;
use crate::config::Config;
use crate::decode::{decode_passwd, decode_passwd_list, decode_group, decode_group_list,
    decode_shadow, decode_shadow_list};
use crate::decode::{passwd_of_json, passwd_list_of_json, group_of_json, group_list_of_json,
    shadow_of_json, shadow_list_of_json};
use crate::decode::{lemma_passwd_item_decodes_alike, lemma_group_item_decodes_alike,
    lemma_shadow_item_decodes_alike};
use crate::json::{json_model, json_parse, parse_json};
use crate::records::{PasswdRecord, PasswdRecordV, GroupRecord, GroupRecordV, ShadowRecord,
    ShadowRecordV};
use crate::request::{EntityKind, LookupFilter, build_url, spec_url};

verus! {

/// The raw outcome of one HTTP exchange, as the transport hands it back:
/// a response with its status and body text, an elapsed timeout, or any
/// other transport failure with its diagnostic text.
pub enum WireEvent {
    Response { status: u16, body: String },
    TimedOut,
    TransportError(String),
}

/// Mathematical view of a `WireEvent`.
pub enum WireEventV {
    Response { status: u16, body: Seq<char> },
    TimedOut,
    TransportError(Seq<char>),
}

impl View for WireEvent {
    type V = WireEventV;

    open spec fn view(&self) -> WireEventV {
        match self {
            WireEvent::Response { status, body } => WireEventV::Response {
                status: *status,
                body: body@,
            },
            WireEvent::TimedOut => WireEventV::TimedOut,
            WireEvent::TransportError(e) => WireEventV::TransportError(e@),
        }
    }
}

/// The classification of one exchange, before any record decoding: the
/// parsed body on candidate success, `NotFound` on a 404 status, `TimeOut`
/// on an elapsed timeout, and `Error` (with diagnostic text) on any other
/// transport failure or an unparsable body.
pub enum NetworkReqResponse {
    Success(serde_json::Value),
    NotFound,
    TimeOut,
    Error(String),
}

/// Classifies one exchange. A 404 status means the record is absent,
/// whatever the body holds; any other status makes the body a parse
/// candidate, and a body that is not valid JSON is an error, never a
/// record.
pub fn classify_wire(ev: WireEvent) -> (r: NetworkReqResponse)
    ensures
        ev@ is TimedOut ==> r is TimeOut,
        ev@ is TransportError ==> r is Error,
        ev@ is Response && ev@->Response_status == 404 ==> r is NotFound,
        ev@ is Response && ev@->Response_status != 404 && json_parse(ev@->Response_body)
            is Some ==> r is Success && json_model(r->Success_0) == json_parse(
            ev@->Response_body,
        )->Some_0,
        ev@ is Response && ev@->Response_status != 404 && json_parse(ev@->Response_body)
            is None ==> r is Error,
{
    match ev {
        WireEvent::TimedOut => NetworkReqResponse::TimeOut,
        WireEvent::TransportError(e) => NetworkReqResponse::Error(e),
        WireEvent::Response { status, body } => {
            if status == 404 {
                return NetworkReqResponse::NotFound;
            }
            match parse_json(body.as_str()) {
                Ok(v) => NetworkReqResponse::Success(v),
                Err(e) => NetworkReqResponse::Error(e),
            }
        },
    }
}

/// The outcome of a single-account lookup.
#[derive(Debug, PartialEq, Eq)]
pub enum PasswdResponse {
    Found(PasswdRecord),
    NotFound,
    TransientFailure,
    Unavailable,
}

/// Mathematical view of a `PasswdResponse`.
pub enum PasswdResponseV {
    Found(PasswdRecordV),
    NotFound,
    TransientFailure,
    Unavailable,
}

impl View for PasswdResponse {
    type V = PasswdResponseV;

    open spec fn view(&self) -> PasswdResponseV {
        match self {
            PasswdResponse::Found(p) => PasswdResponseV::Found(p@),
            PasswdResponse::NotFound => PasswdResponseV::NotFound,
            PasswdResponse::TransientFailure => PasswdResponseV::TransientFailure,
            PasswdResponse::Unavailable => PasswdResponseV::Unavailable,
        }
    }
}

/// The outcome of an account enumeration.
#[derive(Debug, PartialEq, Eq)]
pub enum PasswdVectorResponse {
    Found(Vec<PasswdRecord>),
    NotFound,
    TransientFailure,
    Unavailable,
}

/// Mathematical view of a `PasswdVectorResponse`.
pub enum PasswdVectorResponseV {
    Found(Seq<PasswdRecordV>),
    NotFound,
    TransientFailure,
    Unavailable,
}

impl View for PasswdVectorResponse {
    type V = PasswdVectorResponseV;

    open spec fn view(&self) -> PasswdVectorResponseV {
        match self {
            PasswdVectorResponse::Found(rs) => PasswdVectorResponseV::Found(
                rs@.map_values(|p: PasswdRecord| p@),
            ),
            PasswdVectorResponse::NotFound => PasswdVectorResponseV::NotFound,
            PasswdVectorResponse::TransientFailure => PasswdVectorResponseV::TransientFailure,
            PasswdVectorResponse::Unavailable => PasswdVectorResponseV::Unavailable,
        }
    }
}

/// The outcome of a single-group lookup.
#[derive(Debug, PartialEq, Eq)]
pub enum GroupResponse {
    Found(GroupRecord),
    NotFound,
    TransientFailure,
    Unavailable,
}

/// Mathematical view of a `GroupResponse`.
pub enum GroupResponseV {
    Found(GroupRecordV),
    NotFound,
    TransientFailure,
    Unavailable,
}

impl View for GroupResponse {
    type V = GroupResponseV;

    open spec fn view(&self) -> GroupResponseV {
        match self {
            GroupResponse::Found(g) => GroupResponseV::Found(g@),
            GroupResponse::NotFound => GroupResponseV::NotFound,
            GroupResponse::TransientFailure => GroupResponseV::TransientFailure,
            GroupResponse::Unavailable => GroupResponseV::Unavailable,
        }
    }
}

/// The outcome of a group enumeration.
#[derive(Debug, PartialEq, Eq)]
pub enum GroupVectorResponse {
    Found(Vec<GroupRecord>),
    NotFound,
    TransientFailure,
    Unavailable,
}

/// Mathematical view of a `GroupVectorResponse`.
pub enum GroupVectorResponseV {
    Found(Seq<GroupRecordV>),
    NotFound,
    TransientFailure,
    Unavailable,
}

impl View for GroupVectorResponse {
    type V = GroupVectorResponseV;

    open spec fn view(&self) -> GroupVectorResponseV {
        match self {
            GroupVectorResponse::Found(rs) => GroupVectorResponseV::Found(
                rs@.map_values(|g: GroupRecord| g@),
            ),
            GroupVectorResponse::NotFound => GroupVectorResponseV::NotFound,
            GroupVectorResponse::TransientFailure => GroupVectorResponseV::TransientFailure,
            GroupVectorResponse::Unavailable => GroupVectorResponseV::Unavailable,
        }
    }
}

/// The outcome of a single-shadow lookup.
#[derive(Debug, PartialEq, Eq)]
pub enum ShadowResponse {
    Found(ShadowRecord),
    NotFound,
    TransientFailure,
    Unavailable,
}

/// Mathematical view of a `ShadowResponse`.
pub enum ShadowResponseV {
    Found(ShadowRecordV),
    NotFound,
    TransientFailure,
    Unavailable,
}

impl View for ShadowResponse {
    type V = ShadowResponseV;

    open spec fn view(&self) -> ShadowResponseV {
        match self {
            ShadowResponse::Found(s) => ShadowResponseV::Found(s@),
            ShadowResponse::NotFound => ShadowResponseV::NotFound,
            ShadowResponse::TransientFailure => ShadowResponseV::TransientFailure,
            ShadowResponse::Unavailable => ShadowResponseV::Unavailable,
        }
    }
}

/// The outcome of a shadow enumeration.
#[derive(Debug, PartialEq, Eq)]
pub enum ShadowVectorResponse {
    Found(Vec<ShadowRecord>),
    NotFound,
    TransientFailure,
    Unavailable,
}

/// Mathematical view of a `ShadowVectorResponse`.
pub enum ShadowVectorResponseV {
    Found(Seq<ShadowRecordV>),
    NotFound,
    TransientFailure,
    Unavailable,
}

impl View for ShadowVectorResponse {
    type V = ShadowVectorResponseV;

    open spec fn view(&self) -> ShadowVectorResponseV {
        match self {
            ShadowVectorResponse::Found(rs) => ShadowVectorResponseV::Found(
                rs@.map_values(|s: ShadowRecord| s@),
            ),
            ShadowVectorResponse::NotFound => ShadowVectorResponseV::NotFound,
            ShadowVectorResponse::TransientFailure => ShadowVectorResponseV::TransientFailure,
            ShadowVectorResponse::Unavailable => ShadowVectorResponseV::Unavailable,
        }
    }
}

/// The outcome a single-account lookup owes for a given exchange: timeout
/// means retry, a transport failure means unavailable, 404 means absent,
/// and any other response yields the decoded record — or unavailable when
/// the body does not parse or does not describe an account record.
pub open spec fn spec_passwd_outcome(ev: WireEventV) -> PasswdResponseV {
    match ev {
        WireEventV::TimedOut => PasswdResponseV::TransientFailure,
        WireEventV::TransportError(_) => PasswdResponseV::Unavailable,
        WireEventV::Response { status, body } => if status == 404 {
            PasswdResponseV::NotFound
        } else {
            match json_parse(body) {
                None => PasswdResponseV::Unavailable,
                Some(j) => match passwd_of_json(j) {
                    None => PasswdResponseV::Unavailable,
                    Some(p) => PasswdResponseV::Found(p),
                },
            }
        },
    }
}

/// The outcome an account enumeration owes for a given exchange.
pub open spec fn spec_passwd_list_outcome(ev: WireEventV) -> PasswdVectorResponseV {
    match ev {
        WireEventV::TimedOut => PasswdVectorResponseV::TransientFailure,
        WireEventV::TransportError(_) => PasswdVectorResponseV::Unavailable,
        WireEventV::Response { status, body } => if status == 404 {
            PasswdVectorResponseV::NotFound
        } else {
            match json_parse(body) {
                None => PasswdVectorResponseV::Unavailable,
                Some(j) => match passwd_list_of_json(j) {
                    None => PasswdVectorResponseV::Unavailable,
                    Some(rs) => PasswdVectorResponseV::Found(rs),
                },
            }
        },
    }
}

/// The outcome a single-group lookup owes for a given exchange.
pub open spec fn spec_group_outcome(ev: WireEventV) -> GroupResponseV {
    match ev {
        WireEventV::TimedOut => GroupResponseV::TransientFailure,
        WireEventV::TransportError(_) => GroupResponseV::Unavailable,
        WireEventV::Response { status, body } => if status == 404 {
            GroupResponseV::NotFound
        } else {
            match json_parse(body) {
                None => GroupResponseV::Unavailable,
                Some(j) => match group_of_json(j) {
                    None => GroupResponseV::Unavailable,
                    Some(g) => GroupResponseV::Found(g),
                },
            }
        },
    }
}

/// The outcome a group enumeration owes for a given exchange.
pub open spec fn spec_group_list_outcome(ev: WireEventV) -> GroupVectorResponseV {
    match ev {
        WireEventV::TimedOut => GroupVectorResponseV::TransientFailure,
        WireEventV::TransportError(_) => GroupVectorResponseV::Unavailable,
        WireEventV::Response { status, body } => if status == 404 {
            GroupVectorResponseV::NotFound
        } else {
            match json_parse(body) {
                None => GroupVectorResponseV::Unavailable,
                Some(j) => match group_list_of_json(j) {
                    None => GroupVectorResponseV::Unavailable,
                    Some(rs) => GroupVectorResponseV::Found(rs),
                },
            }
        },
    }
}

/// The outcome a single-shadow lookup owes for a given exchange.
pub open spec fn spec_shadow_outcome(ev: WireEventV) -> ShadowResponseV {
    match ev {
        WireEventV::TimedOut => ShadowResponseV::TransientFailure,
        WireEventV::TransportError(_) => ShadowResponseV::Unavailable,
        WireEventV::Response { status, body } => if status == 404 {
            ShadowResponseV::NotFound
        } else {
            match json_parse(body) {
                None => ShadowResponseV::Unavailable,
                Some(j) => match shadow_of_json(j) {
                    None => ShadowResponseV::Unavailable,
                    Some(s) => ShadowResponseV::Found(s),
                },
            }
        },
    }
}

/// The outcome a shadow enumeration owes for a given exchange.
pub open spec fn spec_shadow_list_outcome(ev: WireEventV) -> ShadowVectorResponseV {
    match ev {
        WireEventV::TimedOut => ShadowVectorResponseV::TransientFailure,
        WireEventV::TransportError(_) => ShadowVectorResponseV::Unavailable,
        WireEventV::Response { status, body } => if status == 404 {
            ShadowVectorResponseV::NotFound
        } else {
            match json_parse(body) {
                None => ShadowVectorResponseV::Unavailable,
                Some(j) => match shadow_list_of_json(j) {
                    None => ShadowVectorResponseV::Unavailable,
                    Some(rs) => ShadowVectorResponseV::Found(rs),
                },
            }
        },
    }
}

/// Turns one exchange into the outcome of a single-account lookup.
pub fn finish_passwd(ev: WireEvent) -> (r: PasswdResponse)
    ensures
        r@ == spec_passwd_outcome(ev@),
{
    match classify_wire(ev) {
        NetworkReqResponse::TimeOut => PasswdResponse::TransientFailure,
        NetworkReqResponse::Error(_) => PasswdResponse::Unavailable,
        NetworkReqResponse::NotFound => PasswdResponse::NotFound,
        NetworkReqResponse::Success(v) => match decode_passwd(&v) {
            Some(p) => PasswdResponse::Found(p),
            None => PasswdResponse::Unavailable,
        },
    }
}

/// Turns one exchange into the outcome of an account enumeration.
pub fn finish_passwd_list(ev: WireEvent) -> (r: PasswdVectorResponse)
    ensures
        r@ == spec_passwd_list_outcome(ev@),
{
    match classify_wire(ev) {
        NetworkReqResponse::TimeOut => PasswdVectorResponse::TransientFailure,
        NetworkReqResponse::Error(_) => PasswdVectorResponse::Unavailable,
        NetworkReqResponse::NotFound => PasswdVectorResponse::NotFound,
        NetworkReqResponse::Success(v) => match decode_passwd_list(&v) {
            Some(rs) => PasswdVectorResponse::Found(rs),
            None => PasswdVectorResponse::Unavailable,
        },
    }
}

/// Turns one exchange into the outcome of a single-group lookup.
pub fn finish_group(ev: WireEvent) -> (r: GroupResponse)
    ensures
        r@ == spec_group_outcome(ev@),
{
    match classify_wire(ev) {
        NetworkReqResponse::TimeOut => GroupResponse::TransientFailure,
        NetworkReqResponse::Error(_) => GroupResponse::Unavailable,
        NetworkReqResponse::NotFound => GroupResponse::NotFound,
        NetworkReqResponse::Success(v) => match decode_group(&v) {
            Some(g) => GroupResponse::Found(g),
            None => GroupResponse::Unavailable,
        },
    }
}

/// Turns one exchange into the outcome of a group enumeration.
pub fn finish_group_list(ev: WireEvent) -> (r: GroupVectorResponse)
    ensures
        r@ == spec_group_list_outcome(ev@),
{
    match classify_wire(ev) {
        NetworkReqResponse::TimeOut => GroupVectorResponse::TransientFailure,
        NetworkReqResponse::Error(_) => GroupVectorResponse::Unavailable,
        NetworkReqResponse::NotFound => GroupVectorResponse::NotFound,
        NetworkReqResponse::Success(v) => match decode_group_list(&v) {
            Some(rs) => GroupVectorResponse::Found(rs),
            None => GroupVectorResponse::Unavailable,
        },
    }
}

/// Turns one exchange into the outcome of a single-shadow lookup.
pub fn finish_shadow(ev: WireEvent) -> (r: ShadowResponse)
    ensures
        r@ == spec_shadow_outcome(ev@),
{
    match classify_wire(ev) {
        NetworkReqResponse::TimeOut => ShadowResponse::TransientFailure,
        NetworkReqResponse::Error(_) => ShadowResponse::Unavailable,
        NetworkReqResponse::NotFound => ShadowResponse::NotFound,
        NetworkReqResponse::Success(v) => match decode_shadow(&v) {
            Some(s) => ShadowResponse::Found(s),
            None => ShadowResponse::Unavailable,
        },
    }
}

/// Turns one exchange into the outcome of a shadow enumeration.
pub fn finish_shadow_list(ev: WireEvent) -> (r: ShadowVectorResponse)
    ensures
        r@ == spec_shadow_list_outcome(ev@),
{
    match classify_wire(ev) {
        NetworkReqResponse::TimeOut => ShadowVectorResponse::TransientFailure,
        NetworkReqResponse::Error(_) => ShadowVectorResponse::Unavailable,
        NetworkReqResponse::NotFound => ShadowVectorResponse::NotFound,
        NetworkReqResponse::Success(v) => match decode_shadow_list(&v) {
            Some(rs) => ShadowVectorResponse::Found(rs),
            None => ShadowVectorResponse::Unavailable,
        },
    }
}

/// What the core decides before anything is sent: deny the lookup (the
/// caller reports "not found" without any network traffic), or fetch the
/// given URL with the given timeout.
pub enum LookupPlan {
    Deny,
    Fetch { url: String, timeout_secs: u64 },
}

/// Decides one lookup before the network is touched. Shadow lookups are
/// denied unless the caller proved privilege, and every lookup is denied
/// when no endpoint is configured — both deny silently, so a caller cannot
/// tell denial from an absent record. Otherwise the plan carries exactly
/// the request URL for the query and the configured timeout.
pub fn plan_lookup(cfg: &Config, kind: EntityKind, filter: &LookupFilter, privileged: bool) -> (r:
    LookupPlan)
    ensures
        r is Deny <==> (kind is Shadow && !privileged) || cfg.endpoint is None,
        r is Fetch ==> r->Fetch_url@ == spec_url(cfg.endpoint->Some_0@, kind, *filter)
            && r->Fetch_timeout_secs == cfg.timeout_secs,
{
    let shadow = match kind {
        EntityKind::Shadow => true,
        _ => false,
    };
    if shadow && !privileged {
        return LookupPlan::Deny;
    }
    let endpoint = match &cfg.endpoint {
        Some(e) => e,
        None => {
            return LookupPlan::Deny;
        },
    };
    let url = build_url(endpoint.as_str(), kind, filter);
    LookupPlan::Fetch { url, timeout_secs: cfg.timeout_secs }
}

/// Law: when the remote service is consistent, looking an account up
/// agrees with enumerating. If the enumeration exchange yields a list of
/// records, and a single-record exchange answers with a body that parses
/// to exactly the i-th element of the enumerated array, then the single
/// lookup finds a record equal to the i-th enumerated record.
pub proof fn lemma_passwd_lookup_agrees_with_enumeration(
    list_ev: WireEventV,
    single_ev: WireEventV,
    i: int,
)
    requires
        list_ev is Response,
        list_ev->Response_status != 404,
        single_ev is Response,
        single_ev->Response_status != 404,
        spec_passwd_list_outcome(list_ev) is Found,
        0 <= i < json_parse(list_ev->Response_body)->Some_0->List_0.len(),
        json_parse(single_ev->Response_body) == Some(
            json_parse(list_ev->Response_body)->Some_0->List_0[i],
        ),
    ensures
        spec_passwd_outcome(single_ev) == PasswdResponseV::Found(
            spec_passwd_list_outcome(list_ev)->Found_0[i],
        ),
{
    let a = json_parse(list_ev->Response_body)->Some_0->List_0;
    lemma_passwd_item_decodes_alike(a, i);
}

/// Law: when the remote service is consistent, looking a group up agrees
/// with enumerating.
pub proof fn lemma_group_lookup_agrees_with_enumeration(
    list_ev: WireEventV,
    single_ev: WireEventV,
    i: int,
)
    requires
        list_ev is Response,
        list_ev->Response_status != 404,
        single_ev is Response,
        single_ev->Response_status != 404,
        spec_group_list_outcome(list_ev) is Found,
        0 <= i < json_parse(list_ev->Response_body)->Some_0->List_0.len(),
        json_parse(single_ev->Response_body) == Some(
            json_parse(list_ev->Response_body)->Some_0->List_0[i],
        ),
    ensures
        spec_group_outcome(single_ev) == GroupResponseV::Found(
            spec_group_list_outcome(list_ev)->Found_0[i],
        ),
{
    let a = json_parse(list_ev->Response_body)->Some_0->List_0;
    lemma_group_item_decodes_alike(a, i);
}

/// Law: when the remote service is consistent, looking a shadow record up
/// agrees with enumerating.
pub proof fn lemma_shadow_lookup_agrees_with_enumeration(
    list_ev: WireEventV,
    single_ev: WireEventV,
    i: int,
)
    requires
        list_ev is Response,
        list_ev->Response_status != 404,
        single_ev is Response,
        single_ev->Response_status != 404,
        spec_shadow_list_outcome(list_ev) is Found,
        0 <= i < json_parse(list_ev->Response_body)->Some_0->List_0.len(),
        json_parse(single_ev->Response_body) == Some(
            json_parse(list_ev->Response_body)->Some_0->List_0[i],
        ),
    ensures
        spec_shadow_outcome(single_ev) == ShadowResponseV::Found(
            spec_shadow_list_outcome(list_ev)->Found_0[i],
        ),
{
    let a = json_parse(list_ev->Response_body)->Some_0->List_0;
    lemma_shadow_item_decodes_alike(a, i);
}

/// Law: an elapsed timeout classifies as a transient failure — the caller
/// may retry — for every entity kind and both query shapes, and carries no
/// record.
pub proof fn lemma_timeout_is_transient(ev: WireEventV)
    requires
        ev is TimedOut,
    ensures
        spec_passwd_outcome(ev) is TransientFailure,
        spec_passwd_list_outcome(ev) is TransientFailure,
        spec_group_outcome(ev) is TransientFailure,
        spec_group_list_outcome(ev) is TransientFailure,
        spec_shadow_outcome(ev) is TransientFailure,
        spec_shadow_list_outcome(ev) is TransientFailure,
{
}

/// Law: a transport failure other than a timeout classifies as unavailable
/// for every entity kind and both query shapes, and carries no record.
pub proof fn lemma_transport_error_is_unavailable(ev: WireEventV)
    requires
        ev is TransportError,
    ensures
        spec_passwd_outcome(ev) is Unavailable,
        spec_passwd_list_outcome(ev) is Unavailable,
        spec_group_outcome(ev) is Unavailable,
        spec_group_list_outcome(ev) is Unavailable,
        spec_shadow_outcome(ev) is Unavailable,
        spec_shadow_list_outcome(ev) is Unavailable,
{
}

/// Law: a remote 404 classifies as "not found" for every entity kind and
/// both query shapes, whatever the response body holds.
pub proof fn lemma_status_404_is_not_found(ev: WireEventV)
    requires
        ev is Response,
        ev->Response_status == 404,
    ensures
        spec_passwd_outcome(ev) is NotFound,
        spec_passwd_list_outcome(ev) is NotFound,
        spec_group_outcome(ev) is NotFound,
        spec_group_list_outcome(ev) is NotFound,
        spec_shadow_outcome(ev) is NotFound,
        spec_shadow_list_outcome(ev) is NotFound,
{
}

} // verus!
