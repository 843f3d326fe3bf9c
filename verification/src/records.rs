//! The three record shapes that the remote directory service can return:
//! account (`passwd`), group, and shadow (credential) entries.
//!
//! Each executable record type has a mathematical view (`...V`) over
//! `Seq<char>` and plain integers; all contracts in this crate speak of
//! those views.
use vstd::prelude::*;

verus! {

/// An account entry: one line of the `passwd` database.
#[derive(Clone, Debug, PartialEq, Eq)]
pub struct PasswdRecord {
    pub name: String,
    pub passwd: String,
    pub uid: u32,
    pub gid: u32,
    pub gecos: String,
    pub dir: String,
    pub shell: String,
}

/// Mathematical view of a `PasswdRecord`.
pub struct PasswdRecordV {
    pub name: Seq<char>,
    pub passwd: Seq<char>,
    pub uid: u32,
    pub gid: u32,
    pub gecos: Seq<char>,
    pub dir: Seq<char>,
    pub shell: Seq<char>,
}

impl View for PasswdRecord {
    type V = PasswdRecordV;

    open spec fn view(&self) -> PasswdRecordV {
        PasswdRecordV {
            name: self.name@,
            passwd: self.passwd@,
            uid: self.uid,
            gid: self.gid,
            gecos: self.gecos@,
            dir: self.dir@,
            shell: self.shell@,
        }
    }
}

/// A group entry, with the ordered list of member account names.
#[derive(Clone, Debug, PartialEq, Eq)]
pub struct GroupRecord {
    pub name: String,
    pub passwd: String,
    pub gid: u32,
    pub members: Vec<String>,
}

/// Mathematical view of a `GroupRecord`.
pub struct GroupRecordV {
    pub name: Seq<char>,
    pub passwd: Seq<char>,
    pub gid: u32,
    pub members: Seq<Seq<char>>,
}

impl View for GroupRecord {
    type V = GroupRecordV;

    open spec fn view(&self) -> GroupRecordV {
        GroupRecordV {
            name: self.name@,
            passwd: self.passwd@,
            gid: self.gid,
            members: self.members@.map_values(|m: String| m@),
        }
    }
}

/// A shadow (credential) entry. The numeric fields are day counts as the
/// shadow database defines them; a negative count means "not set".
#[derive(Clone, Debug, PartialEq, Eq)]
pub struct ShadowRecord {
    pub name: String,
    pub passwd: String,
    pub last_change: i64,
    pub change_min_days: i64,
    pub change_max_days: i64,
    pub change_warn_days: i64,
    pub change_inactive_days: i64,
    pub expire_date: i64,
    pub reserved: u64,
}

/// Mathematical view of a `ShadowRecord`.
pub struct ShadowRecordV {
    pub name: Seq<char>,
    pub passwd: Seq<char>,
    pub last_change: i64,
    pub change_min_days: i64,
    pub change_max_days: i64,
    pub change_warn_days: i64,
    pub change_inactive_days: i64,
    pub expire_date: i64,
    pub reserved: u64,
}

impl View for ShadowRecord {
    type V = ShadowRecordV;

    open spec fn view(&self) -> ShadowRecordV {
        ShadowRecordV {
            name: self.name@,
            passwd: self.passwd@,
            last_change: self.last_change,
            change_min_days: self.change_min_days,
            change_max_days: self.change_max_days,
            change_warn_days: self.change_warn_days,
            change_inactive_days: self.change_inactive_days,
            expire_date: self.expire_date,
            reserved: self.reserved,
        }
    }
}

} // verus!
