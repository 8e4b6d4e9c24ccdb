//! Wire types shared by the team routes: group descriptions and time ranges.

use vstd::prelude::*;
use crate::json::{
    Json, JsonVal, FromJson, ToJson, spec_union_tag, union_tag, tag_obj, key_count, key_first,
    scan_members, view_members, lemma_view_members_index,
};
use crate::strutil::string_eq_str;

verus! {

pub type GroupExternalId = String;

pub type GroupId = String;

pub type MemberExternalId = String;

pub type ResellerId = String;

pub type TeamId = String;

pub type TeamMemberId = String;

/// The group type determines how a group is managed.
#[derive(Debug, Clone, PartialEq, Eq, Structural)]
#[non_exhaustive]
pub enum GroupManagementType {
    /// A group which is managed by selected users.
    UserManaged,
    /// A group which is managed by team admins only.
    CompanyManaged,
    /// A group which is managed automatically by Dropbox.
    SystemManaged,
    /// Catch-all for tags this library does not know.
    Other,
}

/// The group type determines how a group is created and managed.
#[derive(Debug, Clone, PartialEq, Eq, Structural)]
#[non_exhaustive]
pub enum GroupType {
    /// A group to which team members are automatically added.
    Team,
    /// A group is created and managed by a user.
    UserManaged,
    /// Catch-all for tags this library does not know.
    Other,
}

/// The type of the space limit imposed on a team member.
#[derive(Debug, Clone, PartialEq, Eq, Structural)]
#[non_exhaustive]
pub enum MemberSpaceLimitType {
    /// The team member does not have imposed space limit.
    Off,
    /// The team member has soft imposed space limit - the limit is used for display and for
    /// notifications.
    AlertOnly,
    /// The team member has hard imposed space limit - Dropbox file sync is stopped after the limit
    /// is reached.
    StopSync,
    /// Catch-all for tags this library does not know.
    Other,
}

impl View for GroupManagementType {
    type V = Self;

    open spec fn view(&self) -> Self {
        *self
    }
}

impl View for GroupType {
    type V = Self;

    open spec fn view(&self) -> Self {
        *self
    }
}

impl View for MemberSpaceLimitType {
    type V = Self;

    open spec fn view(&self) -> Self {
        *self
    }
}

/// Information about a group.
#[derive(Debug, Clone, PartialEq, Eq)]
#[non_exhaustive]
pub struct GroupSummary {
    pub group_name: String,
    pub group_id: GroupId,
    /// Who is allowed to manage the group.
    pub group_management_type: GroupManagementType,
    /// External ID of group. This is an arbitrary ID that an admin can attach to a group.
    pub group_external_id: Option<GroupExternalId>,
    /// The number of members in the group.
    pub member_count: Option<u32>,
}

/// The mathematical shape of a [`GroupSummary`].
pub struct GroupSummaryV {
    pub group_name: Seq<char>,
    pub group_id: Seq<char>,
    pub group_management_type: GroupManagementType,
    pub group_external_id: Option<Seq<char>>,
    pub member_count: Option<u32>,
}

impl View for GroupSummary {
    type V = GroupSummaryV;

    open spec fn view(&self) -> GroupSummaryV {
        GroupSummaryV {
            group_name: self.group_name@,
            group_id: self.group_id@,
            group_management_type: self.group_management_type,
            group_external_id: match self.group_external_id {
                Some(ref s) => Some(s@),
                None => None,
            },
            member_count: self.member_count,
        }
    }
}

impl GroupSummary {
    pub fn new(
        group_name: String,
        group_id: GroupId,
        group_management_type: GroupManagementType,
    ) -> (r: Self)
        ensures
            r@.group_name == group_name@,
            r@.group_id == group_id@,
            r@.group_management_type == group_management_type,
            r@.group_external_id is None,
            r@.member_count is None,
    {
        GroupSummary {
            group_name,
            group_id,
            group_management_type,
            group_external_id: None,
            member_count: None,
        }
    }

    pub fn with_group_external_id(self, value: GroupExternalId) -> (r: Self)
        ensures
            r@ == (GroupSummaryV { group_external_id: Some(value@), ..self@ }),
    {
        GroupSummary { group_external_id: Some(value), ..self }
    }

    pub fn with_member_count(self, value: u32) -> (r: Self)
        ensures
            r@ == (GroupSummaryV { member_count: Some(value), ..self@ }),
    {
        GroupSummary { member_count: Some(value), ..self }
    }
}

/// Time range.
#[derive(Debug, Clone, PartialEq, Eq)]
#[non_exhaustive]
pub struct TimeRange {
    /// Optional starting time (inclusive).
    pub start_time: Option<String>,
    /// Optional ending time (exclusive).
    pub end_time: Option<String>,
}

/// The mathematical shape of a [`TimeRange`].
pub struct TimeRangeV {
    pub start_time: Option<Seq<char>>,
    pub end_time: Option<Seq<char>>,
}

impl View for TimeRange {
    type V = TimeRangeV;

    open spec fn view(&self) -> TimeRangeV {
        TimeRangeV {
            start_time: match self.start_time {
                Some(ref s) => Some(s@),
                None => None,
            },
            end_time: match self.end_time {
                Some(ref s) => Some(s@),
                None => None,
            },
        }
    }
}

impl Default for TimeRange {
    /// The empty range: neither bound set.
    fn default() -> (r: Self)
        ensures
            r@.start_time is None,
            r@.end_time is None,
    {
        TimeRange { start_time: None, end_time: None }
    }
}

impl TimeRange {
    pub fn with_start_time(self, value: String) -> (r: Self)
        ensures
            r@ == (TimeRangeV { start_time: Some(value@), ..self@ }),
    {
        TimeRange { start_time: Some(value), ..self }
    }

    pub fn with_end_time(self, value: String) -> (r: Self)
        ensures
            r@ == (TimeRangeV { end_time: Some(value@), ..self@ }),
    {
        TimeRange { end_time: Some(value), ..self }
    }
}

// ---------------------------------------------------------------------------
// Wire forms.
// ---------------------------------------------------------------------------

impl FromJson for GroupManagementType {
    open spec fn spec_from_json(v: JsonVal) -> Option<Self> {
        match spec_union_tag(v) {
            Some(tag) => if tag == "user_managed"@ {
                Some(GroupManagementType::UserManaged)
            } else if tag == "company_managed"@ {
                Some(GroupManagementType::CompanyManaged)
            } else if tag == "system_managed"@ {
                Some(GroupManagementType::SystemManaged)
            } else {
                Some(GroupManagementType::Other)
            },
            None => None,
        }
    }

    fn from_json(v: &Json) -> (r: Option<Self>) {
        match union_tag(v) {
            Some(tag) => if string_eq_str(&tag, "user_managed") {
                Some(GroupManagementType::UserManaged)
            } else if string_eq_str(&tag, "company_managed") {
                Some(GroupManagementType::CompanyManaged)
            } else if string_eq_str(&tag, "system_managed") {
                Some(GroupManagementType::SystemManaged)
            } else {
                Some(GroupManagementType::Other)
            },
            None => None,
        }
    }
}

impl ToJson for GroupManagementType {
    open spec fn spec_to_json(v: Self) -> Option<JsonVal> {
        match v {
            GroupManagementType::UserManaged => Some(
                JsonVal::Obj(seq![(".tag"@, JsonVal::Str("user_managed"@))]),
            ),
            GroupManagementType::CompanyManaged => Some(
                JsonVal::Obj(seq![(".tag"@, JsonVal::Str("company_managed"@))]),
            ),
            GroupManagementType::SystemManaged => Some(
                JsonVal::Obj(seq![(".tag"@, JsonVal::Str("system_managed"@))]),
            ),
            GroupManagementType::Other => None,
        }
    }

    fn to_json(&self) -> (r: Option<Json>) {
        match self {
            GroupManagementType::UserManaged => Some(tag_obj("user_managed")),
            GroupManagementType::CompanyManaged => Some(tag_obj("company_managed")),
            GroupManagementType::SystemManaged => Some(tag_obj("system_managed")),
            GroupManagementType::Other => None,
        }
    }
}

impl FromJson for GroupType {
    open spec fn spec_from_json(v: JsonVal) -> Option<Self> {
        match spec_union_tag(v) {
            Some(tag) => if tag == "team"@ {
                Some(GroupType::Team)
            } else if tag == "user_managed"@ {
                Some(GroupType::UserManaged)
            } else {
                Some(GroupType::Other)
            },
            None => None,
        }
    }

    fn from_json(v: &Json) -> (r: Option<Self>) {
        match union_tag(v) {
            Some(tag) => if string_eq_str(&tag, "team") {
                Some(GroupType::Team)
            } else if string_eq_str(&tag, "user_managed") {
                Some(GroupType::UserManaged)
            } else {
                Some(GroupType::Other)
            },
            None => None,
        }
    }
}

impl ToJson for GroupType {
    open spec fn spec_to_json(v: Self) -> Option<JsonVal> {
        match v {
            GroupType::Team => Some(JsonVal::Obj(seq![(".tag"@, JsonVal::Str("team"@))])),
            GroupType::UserManaged => Some(
                JsonVal::Obj(seq![(".tag"@, JsonVal::Str("user_managed"@))]),
            ),
            GroupType::Other => None,
        }
    }

    fn to_json(&self) -> (r: Option<Json>) {
        match self {
            GroupType::Team => Some(tag_obj("team")),
            GroupType::UserManaged => Some(tag_obj("user_managed")),
            GroupType::Other => None,
        }
    }
}

impl FromJson for MemberSpaceLimitType {
    open spec fn spec_from_json(v: JsonVal) -> Option<Self> {
        match spec_union_tag(v) {
            Some(tag) => if tag == "off"@ {
                Some(MemberSpaceLimitType::Off)
            } else if tag == "alert_only"@ {
                Some(MemberSpaceLimitType::AlertOnly)
            } else if tag == "stop_sync"@ {
                Some(MemberSpaceLimitType::StopSync)
            } else {
                Some(MemberSpaceLimitType::Other)
            },
            None => None,
        }
    }

    fn from_json(v: &Json) -> (r: Option<Self>) {
        match union_tag(v) {
            Some(tag) => if string_eq_str(&tag, "off") {
                Some(MemberSpaceLimitType::Off)
            } else if string_eq_str(&tag, "alert_only") {
                Some(MemberSpaceLimitType::AlertOnly)
            } else if string_eq_str(&tag, "stop_sync") {
                Some(MemberSpaceLimitType::StopSync)
            } else {
                Some(MemberSpaceLimitType::Other)
            },
            None => None,
        }
    }
}

impl ToJson for MemberSpaceLimitType {
    open spec fn spec_to_json(v: Self) -> Option<JsonVal> {
        match v {
            MemberSpaceLimitType::Off => Some(JsonVal::Obj(seq![(".tag"@, JsonVal::Str("off"@))])),
            MemberSpaceLimitType::AlertOnly => Some(
                JsonVal::Obj(seq![(".tag"@, JsonVal::Str("alert_only"@))]),
            ),
            MemberSpaceLimitType::StopSync => Some(
                JsonVal::Obj(seq![(".tag"@, JsonVal::Str("stop_sync"@))]),
            ),
            MemberSpaceLimitType::Other => None,
        }
    }

    fn to_json(&self) -> (r: Option<Json>) {
        match self {
            MemberSpaceLimitType::Off => Some(tag_obj("off")),
            MemberSpaceLimitType::AlertOnly => Some(tag_obj("alert_only")),
            MemberSpaceLimitType::StopSync => Some(tag_obj("stop_sync")),
            MemberSpaceLimitType::Other => None,
        }
    }
}

/// What an optional string field denotes among an object's members: absent or
/// null means no value, a string carries one, anything else (a duplicate key
/// included) is an error.  The outer option is the error channel.
pub open spec fn spec_opt_str_field(ms: Seq<(Seq<char>, JsonVal)>, key: Seq<char>) -> Option<
    Option<Seq<char>>,
> {
    let c = key_count(ms, key);
    if c == 0 {
        Some(None)
    } else if c == 1 {
        match key_first(ms, key) {
            Some(JsonVal::Str(s)) => Some(Some(s)),
            Some(JsonVal::Null) => Some(None),
            _ => None,
        }
    } else {
        None
    }
}

/// Reads an optional string field.
fn opt_str_field(members: &Vec<(String, Json)>, key: &str) -> (r: Option<Option<String>>)
    ensures
        match r {
            Some(Some(s)) => spec_opt_str_field(view_members(members@), key@) == Some(
                Some(s@),
            ),
            Some(None) => spec_opt_str_field(view_members(members@), key@) == Some(
                None::<Seq<char>>,
            ),
            None => spec_opt_str_field(view_members(members@), key@) is None,
        },
{
    proof {
        lemma_view_members_index(members@);
    }
    let (cnt, idx) = scan_members(members, key);
    if cnt == 0 {
        return Some(None);
    }
    if cnt != 1 {
        return None;
    }
    match idx {
        Some(i) => match &members[i].1 {
            Json::Str(s) => Some(Some(s.clone())),
            Json::Null => Some(None),
            _ => None,
        },
        None => {
            assert(false);
            None
        },
    }
}

/// What a [`GroupSummary`]'s fields denote among an object's members.
pub open spec fn spec_group_summary_fields(ms: Seq<(Seq<char>, JsonVal)>) -> Option<GroupSummaryV> {
    if key_count(ms, "group_name"@) != 1 || key_count(ms, "group_id"@) != 1 || key_count(
        ms,
        "group_management_type"@,
    ) != 1 {
        None
    } else {
        match (key_first(ms, "group_name"@), key_first(ms, "group_id"@)) {
            (Some(JsonVal::Str(name)), Some(JsonVal::Str(id))) => {
                match key_first(ms, "group_management_type"@) {
                    Some(mv) => match GroupManagementType::spec_from_json(mv) {
                        Some(mt) => match (
                            spec_opt_str_field(ms, "group_external_id"@),
                            spec_member_count_field(ms),
                        ) {
                            (Some(ext), Some(mc)) => Some(
                                GroupSummaryV {
                                    group_name: name,
                                    group_id: id,
                                    group_management_type: mt,
                                    group_external_id: ext,
                                    member_count: mc,
                                },
                            ),
                            _ => None,
                        },
                        None => None,
                    },
                    None => None,
                }
            },
            _ => None,
        }
    }
}

/// What the optional `member_count` field denotes: absent or null means no
/// value, an integer that fits in a `u32` carries one, anything else is an
/// error.
pub open spec fn spec_member_count_field(ms: Seq<(Seq<char>, JsonVal)>) -> Option<Option<u32>> {
    let c = key_count(ms, "member_count"@);
    if c == 0 {
        Some(None)
    } else if c == 1 {
        match key_first(ms, "member_count"@) {
            Some(JsonVal::Int(n)) => if 0 <= n <= u32::MAX {
                Some(Some(n as u32))
            } else {
                None
            },
            Some(JsonVal::Null) => Some(None),
            _ => None,
        }
    } else {
        None
    }
}

fn member_count_field(members: &Vec<(String, Json)>) -> (r: Option<Option<u32>>)
    ensures
        match r {
            Some(mc) => spec_member_count_field(view_members(members@)) == Some(mc),
            None => spec_member_count_field(view_members(members@)) is None,
        },
{
    proof {
        lemma_view_members_index(members@);
    }
    let (cnt, idx) = scan_members(members, "member_count");
    if cnt == 0 {
        return Some(None);
    }
    if cnt != 1 {
        return None;
    }
    match idx {
        Some(i) => match &members[i].1 {
            Json::Int(n) => if 0 <= *n && *n <= u32::MAX as i64 {
                Some(Some(*n as u32))
            } else {
                None
            },
            Json::Null => Some(None),
            _ => None,
        },
        None => {
            assert(false);
            None
        },
    }
}

impl FromJson for GroupSummary {
    open spec fn spec_from_json(v: JsonVal) -> Option<GroupSummaryV> {
        match v {
            JsonVal::Obj(ms) => spec_group_summary_fields(ms),
            _ => None,
        }
    }

    fn from_json(v: &Json) -> (r: Option<Self>) {
        match v {
            Json::Obj(members) => {
                proof {
                    lemma_view_members_index(members@);
                }
                let (nc, ni) = scan_members(members, "group_name");
                let (ic, ii) = scan_members(members, "group_id");
                let (mc, mi) = scan_members(members, "group_management_type");
                if nc != 1 || ic != 1 || mc != 1 {
                    return None;
                }
                let (ni, ii, mi) = match (ni, ii, mi) {
                    (Some(a), Some(b), Some(c)) => (a, b, c),
                    _ => {
                        assert(false);
                        return None;
                    },
                };
                let name = match &members[ni].1 {
                    Json::Str(s) => s.clone(),
                    _ => {
                        return None;
                    },
                };
                let id = match &members[ii].1 {
                    Json::Str(s) => s.clone(),
                    _ => {
                        return None;
                    },
                };
                let mt = match GroupManagementType::from_json(&members[mi].1) {
                    Some(mt) => mt,
                    None => {
                        return None;
                    },
                };
                let ext = match opt_str_field(members, "group_external_id") {
                    Some(ext) => ext,
                    None => {
                        return None;
                    },
                };
                let count = match member_count_field(members) {
                    Some(c) => c,
                    None => {
                        return None;
                    },
                };
                Some(
                    GroupSummary {
                        group_name: name,
                        group_id: id,
                        group_management_type: mt,
                        group_external_id: ext,
                        member_count: count,
                    },
                )
            },
            _ => None,
        }
    }
}

impl ToJson for GroupSummary {
    open spec fn spec_to_json(v: GroupSummaryV) -> Option<JsonVal> {
        match GroupManagementType::spec_to_json(v.group_management_type) {
            Some(mj) => {
                let base = seq![
                    ("group_name"@, JsonVal::Str(v.group_name)),
                    ("group_id"@, JsonVal::Str(v.group_id)),
                    ("group_management_type"@, mj),
                ];
                let with_ext = match v.group_external_id {
                    Some(s) => base + seq![("group_external_id"@, JsonVal::Str(s))],
                    None => base,
                };
                let with_count = match v.member_count {
                    Some(n) => with_ext + seq![("member_count"@, JsonVal::Int(n as i64))],
                    None => with_ext,
                };
                Some(JsonVal::Obj(with_count))
            },
            None => None,
        }
    }

    fn to_json(&self) -> (r: Option<Json>) {
        match self.group_management_type.to_json() {
            Some(mj) => {
                let ghost mjv = mj@;
                let mut ms: Vec<(String, Json)> = Vec::new();
                ms.push(("group_name".to_owned(), Json::Str(self.group_name.clone())));
                ms.push(("group_id".to_owned(), Json::Str(self.group_id.clone())));
                ms.push(("group_management_type".to_owned(), mj));
                match &self.group_external_id {
                    Some(s) => {
                        ms.push(("group_external_id".to_owned(), Json::Str(s.clone())));
                    },
                    None => {},
                }
                match self.member_count {
                    Some(n) => {
                        ms.push(("member_count".to_owned(), Json::Int(n as i64)));
                    },
                    None => {},
                }
                proof {
                    lemma_view_members_index(ms@);
                    let base = seq![
                        ("group_name"@, JsonVal::Str(self@.group_name)),
                        ("group_id"@, JsonVal::Str(self@.group_id)),
                        ("group_management_type"@, mjv),
                    ];
                    let with_ext = match self@.group_external_id {
                        Some(s) => base + seq![("group_external_id"@, JsonVal::Str(s))],
                        None => base,
                    };
                    let with_count = match self@.member_count {
                        Some(n) => with_ext + seq![("member_count"@, JsonVal::Int(n as i64))],
                        None => with_ext,
                    };
                    assert(view_members(ms@) =~= with_count);
                }
                Some(Json::Obj(ms))
            },
            None => None,
        }
    }
}

/// What a [`TimeRange`]'s fields denote among an object's members.
pub open spec fn spec_time_range_fields(ms: Seq<(Seq<char>, JsonVal)>) -> Option<TimeRangeV> {
    match (spec_opt_str_field(ms, "start_time"@), spec_opt_str_field(ms, "end_time"@)) {
        (Some(st), Some(et)) => Some(TimeRangeV { start_time: st, end_time: et }),
        _ => None,
    }
}

impl FromJson for TimeRange {
    open spec fn spec_from_json(v: JsonVal) -> Option<TimeRangeV> {
        match v {
            JsonVal::Obj(ms) => spec_time_range_fields(ms),
            _ => None,
        }
    }

    fn from_json(v: &Json) -> (r: Option<Self>) {
        match v {
            Json::Obj(members) => {
                let st = match opt_str_field(members, "start_time") {
                    Some(st) => st,
                    None => {
                        return None;
                    },
                };
                let et = match opt_str_field(members, "end_time") {
                    Some(et) => et,
                    None => {
                        return None;
                    },
                };
                Some(TimeRange { start_time: st, end_time: et })
            },
            _ => None,
        }
    }
}

impl ToJson for TimeRange {
    open spec fn spec_to_json(v: TimeRangeV) -> Option<JsonVal> {
        let base = Seq::<(Seq<char>, JsonVal)>::empty();
        let with_start = match v.start_time {
            Some(s) => base + seq![("start_time"@, JsonVal::Str(s))],
            None => base,
        };
        let with_end = match v.end_time {
            Some(s) => with_start + seq![("end_time"@, JsonVal::Str(s))],
            None => with_start,
        };
        Some(JsonVal::Obj(with_end))
    }

    fn to_json(&self) -> (r: Option<Json>) {
        let mut ms: Vec<(String, Json)> = Vec::new();
        match &self.start_time {
            Some(s) => {
                ms.push(("start_time".to_owned(), Json::Str(s.clone())));
            },
            None => {},
        }
        match &self.end_time {
            Some(s) => {
                ms.push(("end_time".to_owned(), Json::Str(s.clone())));
            },
            None => {},
        }
        proof {
            lemma_view_members_index(ms@);
            let base = Seq::<(Seq<char>, JsonVal)>::empty();
            let with_start = match self@.start_time {
                Some(s) => base + seq![("start_time"@, JsonVal::Str(s))],
                None => base,
            };
            let with_end = match self@.end_time {
                Some(s) => with_start + seq![("end_time"@, JsonVal::Str(s))],
                None => with_start,
            };
            assert(view_members(ms@) =~= with_end);
        }
        Some(Json::Obj(ms))
    }
}

} // verus!
