//! Verified decoding of parsed JSON documents into typed records.
//!
//! Every decoder is specified against a spec-level decoder over the
//! abstract document content (`JsonData`), so the executable code is proved
//! to accept exactly the documents of the expected shape and to build
//! exactly the record the document describes. A document of any other
//! shape is rejected, never misread.
use vstd::prelude::*;
use crate::json::{obj_field, json_model, seq_model, JsonData};
use crate::json::{value_get, value_as_str, value_as_u64, value_as_i64, value_as_array};
use crate::records::{PasswdRecord, PasswdRecordV, GroupRecord, GroupRecordV, ShadowRecord,
    ShadowRecordV};

verus! {

/// A string field of a JSON object.
pub open spec fn field_str(j: JsonData, key: Seq<char>) -> Option<Seq<char>> {
    match obj_field(j, key) {
        Some(JsonData::Text(s)) => Some(s),
        _ => None,
    }
}

/// A numeric field of a JSON object that is an integer fitting `u32`.
pub open spec fn field_u32(j: JsonData, key: Seq<char>) -> Option<u32> {
    match obj_field(j, key) {
        Some(JsonData::NumU(n)) => if n <= u32::MAX as u64 {
            Some(n as u32)
        } else {
            None
        },
        _ => None,
    }
}

/// A numeric field of a JSON object that is an integer fitting `u64`.
pub open spec fn field_u64(j: JsonData, key: Seq<char>) -> Option<u64> {
    match obj_field(j, key) {
        Some(JsonData::NumU(n)) => Some(n),
        _ => None,
    }
}

/// A numeric field of a JSON object that is an integer fitting `i64`.
pub open spec fn field_i64(j: JsonData, key: Seq<char>) -> Option<i64> {
    match obj_field(j, key) {
        Some(JsonData::NumU(n)) => if n <= i64::MAX as u64 {
            Some(n as i64)
        } else {
            None
        },
        Some(JsonData::NumNeg(n)) => Some(n),
        _ => None,
    }
}

/// The texts of a sequence of JSON documents, when every one is a string.
pub open spec fn str_items(a: Seq<JsonData>) -> Option<Seq<Seq<char>>>
    decreases a.len(),
{
    if a.len() == 0 {
        Some(Seq::empty())
    } else {
        match (str_items(a.drop_last()), a.last()) {
            (Some(ss), JsonData::Text(s)) => Some(ss.push(s)),
            _ => None,
        }
    }
}

/// A field of a JSON object that is an array of strings.
pub open spec fn field_str_list(j: JsonData, key: Seq<char>) -> Option<Seq<Seq<char>>> {
    match obj_field(j, key) {
        Some(JsonData::List(a)) => str_items(a),
        _ => None,
    }
}

/// The account record a JSON document describes, when it is an object with
/// the seven `passwd` fields of the expected shapes.
pub open spec fn passwd_of_json(j: JsonData) -> Option<PasswdRecordV> {
    if field_str(j, "name"@) is Some && field_str(j, "passwd"@) is Some && field_u32(j, "uid"@)
        is Some && field_u32(j, "gid"@) is Some && field_str(j, "gecos"@) is Some && field_str(
        j,
        "dir"@,
    ) is Some && field_str(j, "shell"@) is Some {
        Some(
            PasswdRecordV {
                name: field_str(j, "name"@)->Some_0,
                passwd: field_str(j, "passwd"@)->Some_0,
                uid: field_u32(j, "uid"@)->Some_0,
                gid: field_u32(j, "gid"@)->Some_0,
                gecos: field_str(j, "gecos"@)->Some_0,
                dir: field_str(j, "dir"@)->Some_0,
                shell: field_str(j, "shell"@)->Some_0,
            },
        )
    } else {
        None
    }
}

/// The group record a JSON document describes.
pub open spec fn group_of_json(j: JsonData) -> Option<GroupRecordV> {
    if field_str(j, "name"@) is Some && field_str(j, "passwd"@) is Some && field_u32(j, "gid"@)
        is Some && field_str_list(j, "members"@) is Some {
        Some(
            GroupRecordV {
                name: field_str(j, "name"@)->Some_0,
                passwd: field_str(j, "passwd"@)->Some_0,
                gid: field_u32(j, "gid"@)->Some_0,
                members: field_str_list(j, "members"@)->Some_0,
            },
        )
    } else {
        None
    }
}

/// The shadow record a JSON document describes.
pub open spec fn shadow_of_json(j: JsonData) -> Option<ShadowRecordV> {
    if field_str(j, "name"@) is Some && field_str(j, "passwd"@) is Some && field_i64(
        j,
        "last_change"@,
    ) is Some && field_i64(j, "change_min_days"@) is Some && field_i64(j, "change_max_days"@)
        is Some && field_i64(j, "change_warn_days"@) is Some && field_i64(
        j,
        "change_inactive_days"@,
    ) is Some && field_i64(j, "expire_date"@) is Some && field_u64(j, "reserved"@) is Some {
        Some(
            ShadowRecordV {
                name: field_str(j, "name"@)->Some_0,
                passwd: field_str(j, "passwd"@)->Some_0,
                last_change: field_i64(j, "last_change"@)->Some_0,
                change_min_days: field_i64(j, "change_min_days"@)->Some_0,
                change_max_days: field_i64(j, "change_max_days"@)->Some_0,
                change_warn_days: field_i64(j, "change_warn_days"@)->Some_0,
                change_inactive_days: field_i64(j, "change_inactive_days"@)->Some_0,
                expire_date: field_i64(j, "expire_date"@)->Some_0,
                reserved: field_u64(j, "reserved"@)->Some_0,
            },
        )
    } else {
        None
    }
}

/// The account records of a sequence of JSON documents, when every one
/// describes an account record.
pub open spec fn passwd_items(a: Seq<JsonData>) -> Option<Seq<PasswdRecordV>>
    decreases a.len(),
{
    if a.len() == 0 {
        Some(Seq::empty())
    } else {
        match (passwd_items(a.drop_last()), passwd_of_json(a.last())) {
            (Some(rs), Some(p)) => Some(rs.push(p)),
            _ => None,
        }
    }
}

/// The group records of a sequence of JSON documents.
pub open spec fn group_items(a: Seq<JsonData>) -> Option<Seq<GroupRecordV>>
    decreases a.len(),
{
    if a.len() == 0 {
        Some(Seq::empty())
    } else {
        match (group_items(a.drop_last()), group_of_json(a.last())) {
            (Some(rs), Some(g)) => Some(rs.push(g)),
            _ => None,
        }
    }
}

/// The shadow records of a sequence of JSON documents.
pub open spec fn shadow_items(a: Seq<JsonData>) -> Option<Seq<ShadowRecordV>>
    decreases a.len(),
{
    if a.len() == 0 {
        Some(Seq::empty())
    } else {
        match (shadow_items(a.drop_last()), shadow_of_json(a.last())) {
            (Some(rs), Some(s)) => Some(rs.push(s)),
            _ => None,
        }
    }
}

/// The list of account records a JSON document describes, when it is an
/// array of account documents.
pub open spec fn passwd_list_of_json(j: JsonData) -> Option<Seq<PasswdRecordV>> {
    match j {
        JsonData::List(a) => passwd_items(a),
        _ => None,
    }
}

/// The list of group records a JSON document describes.
pub open spec fn group_list_of_json(j: JsonData) -> Option<Seq<GroupRecordV>> {
    match j {
        JsonData::List(a) => group_items(a),
        _ => None,
    }
}

/// The list of shadow records a JSON document describes.
pub open spec fn shadow_list_of_json(j: JsonData) -> Option<Seq<ShadowRecordV>> {
    match j {
        JsonData::List(a) => shadow_items(a),
        _ => None,
    }
}

fn get_str_field(v: &serde_json::Value, key: &str) -> (r: Option<String>)
    ensures
        r is Some <==> field_str(json_model(*v), key@) is Some,
        r matches Some(s) ==> field_str(json_model(*v), key@) == Some(s@),
{
    let w = match value_get(v, key) {
        Some(w) => w,
        None => {
            return None;
        },
    };
    match value_as_str(w) {
        Some(s) => Some(s.to_owned()),
        None => None,
    }
}

fn get_u32_field(v: &serde_json::Value, key: &str) -> (r: Option<u32>)
    ensures
        r is Some <==> field_u32(json_model(*v), key@) is Some,
        r matches Some(n) ==> field_u32(json_model(*v), key@) == Some(n),
{
    let w = match value_get(v, key) {
        Some(w) => w,
        None => {
            return None;
        },
    };
    match value_as_u64(w) {
        Some(n) => if n <= u32::MAX as u64 {
            Some(n as u32)
        } else {
            None
        },
        None => None,
    }
}

fn get_u64_field(v: &serde_json::Value, key: &str) -> (r: Option<u64>)
    ensures
        r is Some <==> field_u64(json_model(*v), key@) is Some,
        r matches Some(n) ==> field_u64(json_model(*v), key@) == Some(n),
{
    let w = match value_get(v, key) {
        Some(w) => w,
        None => {
            return None;
        },
    };
    value_as_u64(w)
}

fn get_i64_field(v: &serde_json::Value, key: &str) -> (r: Option<i64>)
    ensures
        r is Some <==> field_i64(json_model(*v), key@) is Some,
        r matches Some(n) ==> field_i64(json_model(*v), key@) == Some(n),
{
    let w = match value_get(v, key) {
        Some(w) => w,
        None => {
            return None;
        },
    };
    value_as_i64(w)
}

proof fn lemma_str_items_bad(a: Seq<JsonData>, i: int)
    requires
        0 <= i < a.len(),
        !(a[i] is Text),
    ensures
        str_items(a) is None,
    decreases a.len(),
{
    if i < a.len() - 1 {
        lemma_str_items_bad(a.drop_last(), i);
    }
}

fn get_str_list_field(v: &serde_json::Value, key: &str) -> (r: Option<Vec<String>>)
    ensures
        r is Some <==> field_str_list(json_model(*v), key@) is Some,
        r matches Some(ms) ==> field_str_list(json_model(*v), key@) == Some(
            ms@.map_values(|m: String| m@),
        ),
{
    let w = match value_get(v, key) {
        Some(w) => w,
        None => {
            return None;
        },
    };
    let arr = match value_as_array(w) {
        Some(a) => a,
        None => {
            return None;
        },
    };
    let ghost aj: Seq<JsonData> = json_model(*w)->List_0;
    let mut out: Vec<String> = Vec::new();
    let mut i: usize = 0;
    while i < arr.len()
        invariant
            i <= arr@.len(),
            seq_model(arr@) == aj,
            json_model(*w) == JsonData::List(aj),
            obj_field(json_model(*v), key@) == Some(json_model(*w)),
            str_items(aj.subrange(0, i as int)) == Some(out@.map_values(|m: String| m@)),
        decreases arr@.len() - i,
    {
        proof {
            assert(json_model(arr@[i as int]) == aj[i as int]);
        }
        let s = match value_as_str(&arr[i]) {
            Some(s) => s,
            None => {
                proof {
                    lemma_str_items_bad(aj, i as int);
                }
                return None;
            },
        };
        let ghost old_out = out@;
        out.push(s.to_owned());
        proof {
            let sub = aj.subrange(0, i + 1 as int);
            assert(sub.drop_last() =~= aj.subrange(0, i as int));
            assert(sub.last() == JsonData::Text(s@));
            assert(out@.map_values(|m: String| m@) =~= old_out.map_values(|m: String| m@).push(
                s@,
            ));
        }
        i = i + 1;
    }
    proof {
        assert(aj.subrange(0, i as int) =~= aj);
    }
    Some(out)
}

/// Decodes the account record a JSON document describes: exactly
/// `passwd_of_json` on the document's content.
pub fn decode_passwd(v: &serde_json::Value) -> (r: Option<PasswdRecord>)
    ensures
        r is Some <==> passwd_of_json(json_model(*v)) is Some,
        r matches Some(p) ==> passwd_of_json(json_model(*v)) == Some(p@),
{
    let name = match get_str_field(v, "name") {
        Some(s) => s,
        None => {
            return None;
        },
    };
    let passwd = match get_str_field(v, "passwd") {
        Some(s) => s,
        None => {
            return None;
        },
    };
    let uid = match get_u32_field(v, "uid") {
        Some(n) => n,
        None => {
            return None;
        },
    };
    let gid = match get_u32_field(v, "gid") {
        Some(n) => n,
        None => {
            return None;
        },
    };
    let gecos = match get_str_field(v, "gecos") {
        Some(s) => s,
        None => {
            return None;
        },
    };
    let dir = match get_str_field(v, "dir") {
        Some(s) => s,
        None => {
            return None;
        },
    };
    let shell = match get_str_field(v, "shell") {
        Some(s) => s,
        None => {
            return None;
        },
    };
    Some(PasswdRecord { name, passwd, uid, gid, gecos, dir, shell })
}

/// Decodes the group record a JSON document describes: exactly
/// `group_of_json` on the document's content.
pub fn decode_group(v: &serde_json::Value) -> (r: Option<GroupRecord>)
    ensures
        r is Some <==> group_of_json(json_model(*v)) is Some,
        r matches Some(g) ==> group_of_json(json_model(*v)) == Some(g@),
{
    let name = match get_str_field(v, "name") {
        Some(s) => s,
        None => {
            return None;
        },
    };
    let passwd = match get_str_field(v, "passwd") {
        Some(s) => s,
        None => {
            return None;
        },
    };
    let gid = match get_u32_field(v, "gid") {
        Some(n) => n,
        None => {
            return None;
        },
    };
    let members = match get_str_list_field(v, "members") {
        Some(ms) => ms,
        None => {
            return None;
        },
    };
    Some(GroupRecord { name, passwd, gid, members })
}

/// Decodes the shadow record a JSON document describes: exactly
/// `shadow_of_json` on the document's content.
pub fn decode_shadow(v: &serde_json::Value) -> (r: Option<ShadowRecord>)
    ensures
        r is Some <==> shadow_of_json(json_model(*v)) is Some,
        r matches Some(s) ==> shadow_of_json(json_model(*v)) == Some(s@),
{
    let name = match get_str_field(v, "name") {
        Some(s) => s,
        None => {
            return None;
        },
    };
    let passwd = match get_str_field(v, "passwd") {
        Some(s) => s,
        None => {
            return None;
        },
    };
    let last_change = match get_i64_field(v, "last_change") {
        Some(n) => n,
        None => {
            return None;
        },
    };
    let change_min_days = match get_i64_field(v, "change_min_days") {
        Some(n) => n,
        None => {
            return None;
        },
    };
    let change_max_days = match get_i64_field(v, "change_max_days") {
        Some(n) => n,
        None => {
            return None;
        },
    };
    let change_warn_days = match get_i64_field(v, "change_warn_days") {
        Some(n) => n,
        None => {
            return None;
        },
    };
    let change_inactive_days = match get_i64_field(v, "change_inactive_days") {
        Some(n) => n,
        None => {
            return None;
        },
    };
    let expire_date = match get_i64_field(v, "expire_date") {
        Some(n) => n,
        None => {
            return None;
        },
    };
    let reserved = match get_u64_field(v, "reserved") {
        Some(n) => n,
        None => {
            return None;
        },
    };
    Some(
        ShadowRecord {
            name,
            passwd,
            last_change,
            change_min_days,
            change_max_days,
            change_warn_days,
            change_inactive_days,
            expire_date,
            reserved,
        },
    )
}

proof fn lemma_passwd_items_bad(a: Seq<JsonData>, i: int)
    requires
        0 <= i < a.len(),
        passwd_of_json(a[i]) is None,
    ensures
        passwd_items(a) is None,
    decreases a.len(),
{
    if i < a.len() - 1 {
        lemma_passwd_items_bad(a.drop_last(), i);
    }
}

proof fn lemma_group_items_bad(a: Seq<JsonData>, i: int)
    requires
        0 <= i < a.len(),
        group_of_json(a[i]) is None,
    ensures
        group_items(a) is None,
    decreases a.len(),
{
    if i < a.len() - 1 {
        lemma_group_items_bad(a.drop_last(), i);
    }
}

proof fn lemma_shadow_items_bad(a: Seq<JsonData>, i: int)
    requires
        0 <= i < a.len(),
        shadow_of_json(a[i]) is None,
    ensures
        shadow_items(a) is None,
    decreases a.len(),
{
    if i < a.len() - 1 {
        lemma_shadow_items_bad(a.drop_last(), i);
    }
}

/// Decodes the list of account records a JSON document describes: exactly
/// `passwd_list_of_json` on the document's content.
pub fn decode_passwd_list(v: &serde_json::Value) -> (r: Option<Vec<PasswdRecord>>)
    ensures
        r is Some <==> passwd_list_of_json(json_model(*v)) is Some,
        r matches Some(rs) ==> passwd_list_of_json(json_model(*v)) == Some(
            rs@.map_values(|p: PasswdRecord| p@),
        ),
{
    let arr = match value_as_array(v) {
        Some(a) => a,
        None => {
            return None;
        },
    };
    let ghost aj: Seq<JsonData> = json_model(*v)->List_0;
    let mut out: Vec<PasswdRecord> = Vec::new();
    let mut i: usize = 0;
    while i < arr.len()
        invariant
            i <= arr@.len(),
            seq_model(arr@) == aj,
            json_model(*v) == JsonData::List(aj),
            passwd_items(aj.subrange(0, i as int)) == Some(
                out@.map_values(|p: PasswdRecord| p@),
            ),
        decreases arr@.len() - i,
    {
        proof {
            assert(json_model(arr@[i as int]) == aj[i as int]);
        }
        let rec = match decode_passwd(&arr[i]) {
            Some(rec) => rec,
            None => {
                proof {
                    lemma_passwd_items_bad(aj, i as int);
                }
                return None;
            },
        };
        let ghost old_out = out@;
        out.push(rec);
        proof {
            let sub = aj.subrange(0, i + 1 as int);
            assert(sub.drop_last() =~= aj.subrange(0, i as int));
            assert(out@.map_values(|p: PasswdRecord| p@) =~= old_out.map_values(
                |p: PasswdRecord| p@,
            ).push(rec@));
        }
        i = i + 1;
    }
    proof {
        assert(aj.subrange(0, i as int) =~= aj);
    }
    Some(out)
}

/// Decodes the list of group records a JSON document describes: exactly
/// `group_list_of_json` on the document's content.
pub fn decode_group_list(v: &serde_json::Value) -> (r: Option<Vec<GroupRecord>>)
    ensures
        r is Some <==> group_list_of_json(json_model(*v)) is Some,
        r matches Some(rs) ==> group_list_of_json(json_model(*v)) == Some(
            rs@.map_values(|g: GroupRecord| g@),
        ),
{
    let arr = match value_as_array(v) {
        Some(a) => a,
        None => {
            return None;
        },
    };
    let ghost aj: Seq<JsonData> = json_model(*v)->List_0;
    let mut out: Vec<GroupRecord> = Vec::new();
    let mut i: usize = 0;
    while i < arr.len()
        invariant
            i <= arr@.len(),
            seq_model(arr@) == aj,
            json_model(*v) == JsonData::List(aj),
            group_items(aj.subrange(0, i as int)) == Some(out@.map_values(|g: GroupRecord| g@)),
        decreases arr@.len() - i,
    {
        proof {
            assert(json_model(arr@[i as int]) == aj[i as int]);
        }
        let rec = match decode_group(&arr[i]) {
            Some(rec) => rec,
            None => {
                proof {
                    lemma_group_items_bad(aj, i as int);
                }
                return None;
            },
        };
        let ghost old_out = out@;
        out.push(rec);
        proof {
            let sub = aj.subrange(0, i + 1 as int);
            assert(sub.drop_last() =~= aj.subrange(0, i as int));
            assert(out@.map_values(|g: GroupRecord| g@) =~= old_out.map_values(
                |g: GroupRecord| g@,
            ).push(rec@));
        }
        i = i + 1;
    }
    proof {
        assert(aj.subrange(0, i as int) =~= aj);
    }
    Some(out)
}

/// Decodes the list of shadow records a JSON document describes: exactly
/// `shadow_list_of_json` on the document's content.
pub fn decode_shadow_list(v: &serde_json::Value) -> (r: Option<Vec<ShadowRecord>>)
    ensures
        r is Some <==> shadow_list_of_json(json_model(*v)) is Some,
        r matches Some(rs) ==> shadow_list_of_json(json_model(*v)) == Some(
            rs@.map_values(|s: ShadowRecord| s@),
        ),
{
    let arr = match value_as_array(v) {
        Some(a) => a,
        None => {
            return None;
        },
    };
    let ghost aj: Seq<JsonData> = json_model(*v)->List_0;
    let mut out: Vec<ShadowRecord> = Vec::new();
    let mut i: usize = 0;
    while i < arr.len()
        invariant
            i <= arr@.len(),
            seq_model(arr@) == aj,
            json_model(*v) == JsonData::List(aj),
            shadow_items(aj.subrange(0, i as int)) == Some(
                out@.map_values(|s: ShadowRecord| s@),
            ),
        decreases arr@.len() - i,
    {
        proof {
            assert(json_model(arr@[i as int]) == aj[i as int]);
        }
        let rec = match decode_shadow(&arr[i]) {
            Some(rec) => rec,
            None => {
                proof {
                    lemma_shadow_items_bad(aj, i as int);
                }
                return None;
            },
        };
        let ghost old_out = out@;
        out.push(rec);
        proof {
            let sub = aj.subrange(0, i + 1 as int);
            assert(sub.drop_last() =~= aj.subrange(0, i as int));
            assert(out@.map_values(|s: ShadowRecord| s@) =~= old_out.map_values(
                |s: ShadowRecord| s@,
            ).push(rec@));
        }
        i = i + 1;
    }
    proof {
        assert(aj.subrange(0, i as int) =~= aj);
    }
    Some(out)
}


proof fn lemma_passwd_items_len(a: Seq<JsonData>)
    requires
        passwd_items(a) is Some,
    ensures
        passwd_items(a)->Some_0.len() == a.len(),
    decreases a.len(),
{
    if a.len() > 0 {
        lemma_passwd_items_len(a.drop_last());
    }
}

proof fn lemma_group_items_len(a: Seq<JsonData>)
    requires
        group_items(a) is Some,
    ensures
        group_items(a)->Some_0.len() == a.len(),
    decreases a.len(),
{
    if a.len() > 0 {
        lemma_group_items_len(a.drop_last());
    }
}

proof fn lemma_shadow_items_len(a: Seq<JsonData>)
    requires
        shadow_items(a) is Some,
    ensures
        shadow_items(a)->Some_0.len() == a.len(),
    decreases a.len(),
{
    if a.len() > 0 {
        lemma_shadow_items_len(a.drop_last());
    }
}

/// Law: enumerating and looking one record up agree. When a list document
/// decodes to a sequence of account records, every element of the array
/// decodes on its own to exactly the record at the same index, so a by-name
/// lookup whose response repeats the list's element returns an equal record.
pub proof fn lemma_passwd_item_decodes_alike(a: Seq<JsonData>, i: int)
    requires
        passwd_items(a) is Some,
        0 <= i < a.len(),
    ensures
        passwd_of_json(a[i]) == Some(passwd_items(a)->Some_0[i]),
    decreases a.len(),
{
    lemma_passwd_items_len(a.drop_last());
    if i == a.len() - 1 {
        assert(a[i] == a.last());
    } else {
        lemma_passwd_item_decodes_alike(a.drop_last(), i);
        assert(a.drop_last()[i] == a[i]);
        assert(passwd_items(a)->Some_0 == passwd_items(a.drop_last())->Some_0.push(
            passwd_of_json(a.last())->Some_0,
        ));
        assert(passwd_items(a)->Some_0[i] == passwd_items(a.drop_last())->Some_0[i]);
    }
}

/// Law: enumerating and looking one record up agree, for group records.
pub proof fn lemma_group_item_decodes_alike(a: Seq<JsonData>, i: int)
    requires
        group_items(a) is Some,
        0 <= i < a.len(),
    ensures
        group_of_json(a[i]) == Some(group_items(a)->Some_0[i]),
    decreases a.len(),
{
    lemma_group_items_len(a.drop_last());
    if i == a.len() - 1 {
        assert(a[i] == a.last());
    } else {
        lemma_group_item_decodes_alike(a.drop_last(), i);
        assert(a.drop_last()[i] == a[i]);
        assert(group_items(a)->Some_0 == group_items(a.drop_last())->Some_0.push(
            group_of_json(a.last())->Some_0,
        ));
        assert(group_items(a)->Some_0[i] == group_items(a.drop_last())->Some_0[i]);
    }
}

/// Law: enumerating and looking one record up agree, for shadow records.
pub proof fn lemma_shadow_item_decodes_alike(a: Seq<JsonData>, i: int)
    requires
        shadow_items(a) is Some,
        0 <= i < a.len(),
    ensures
        shadow_of_json(a[i]) == Some(shadow_items(a)->Some_0[i]),
    decreases a.len(),
{
    lemma_shadow_items_len(a.drop_last());
    if i == a.len() - 1 {
        assert(a[i] == a.last());
    } else {
        lemma_shadow_item_decodes_alike(a.drop_last(), i);
        assert(a.drop_last()[i] == a[i]);
        assert(shadow_items(a)->Some_0 == shadow_items(a.drop_last())->Some_0.push(
            shadow_of_json(a.last())->Some_0,
        ));
        assert(shadow_items(a)->Some_0[i] == shadow_items(a.drop_last())->Some_0[i]);
    }
}

} // verus!
