//! The records of a reply: bugs, the users and flags they refer to, the
//! envelope of a list of bugs and the envelope of a failure.
//!
//! Each record is read from a JSON object. The members that the record's
//! fields are read from are named in the record's list of field names; every
//! other member is kept, with its value, in the record's `extra` list.

use vstd::prelude::*;

use crate::error::{outcome, DecodeError};
use crate::json::{
    document_of, find_member, lemma_array_view, lemma_member_push, lemma_object_view, member,
    Json, JsonView,
};
use crate::schema::{
    bool_field, each_in, int32_field, int32s_field, int64_field, lemma_each_in_fails,
    lemma_each_in_step, lemma_member_of_others, list_in, names_of, opt_int32_field, opt_int64_field, opt_text_field,
    opt_texts_field, optional, other_members, others, read_bool, read_int32, read_int32s,
    read_int64, read_opt_int32, read_opt_int64, read_opt_text, read_opt_texts, read_text,
    read_texts, required, text_field, texts_field, Members,
};

verus! {

/// The names of the members that a user's fields are read from.
pub const USER_FIELDS: [&'static str; 4] = [
    "email", "id", "name", "real_name",
];

/// The names of the members that a flag's fields are read from.
pub const FLAG_FIELDS: [&'static str; 8] = [
    "id", "type_id", "creation_date", "modification_date", "name", "status", "setter",
    "requestee",
];

/// The names of the members that a bug's fields are read from.
pub const BUG_FIELDS: [&'static str; 47] = [
    "op_sys", "classification", "id", "url", "creator", "creator_detail", "summary", "status",
    "estimated_time", "target_milestone", "cc", "cc_detail", "is_open",
    "is_creator_accessible", "docs_contact", "docs_contact_detail", "assigned_to",
    "assigned_to_detail", "resolution", "severity", "product", "platform", "last_change_time",
    "remaining_time", "priority", "whiteboard", "creation_time", "is_confirmed", "qa_contact",
    "qa_contact_detail", "dupe_of", "target_release", "actual_time", "component",
    "is_cc_accessible", "version", "keywords", "depends_on", "blocks", "see_also", "groups",
    "deadline", "update_token", "work_time", "flags", "tags", "dependent_products",
];

/// The names of the members that the fields of a list of bugs are read from.
pub const RESPONSE_FIELDS: [&'static str; 4] = [
    "offset", "limit", "total_matches", "bugs",
];

/// The names of the members that the fields of a failure are read from.
pub const ERROR_FIELDS: [&'static str; 3] = [
    "error", "message", "code",
];

/// A person as Bugzilla resolves one: creator, assignee, QA contact, docs
/// contact or a member of the CC list.
#[derive(Clone, Debug, PartialEq, Eq)]
pub struct User {
    pub email: String,
    pub id: i32,
    pub name: String,
    pub real_name: String,
    /// The members of the object that no field above is read from.
    pub extra: Vec<(String, Json)>,
}

/// A review or approval flag attached to a bug.
#[derive(Clone, Debug, PartialEq, Eq)]
pub struct Flag {
    pub id: i32,
    pub type_id: i32,
    pub creation_date: String,
    pub modification_date: String,
    pub name: String,
    pub status: String,
    pub setter: String,
    pub requestee: Option<String>,
    /// The members of the object that no field above is read from.
    pub extra: Vec<(String, Json)>,
}

/// A bug, with the fields of Bugzilla's default set and those that are
/// only there on request.
#[derive(Clone, Debug, PartialEq, Eq)]
pub struct Bug {
    pub op_sys: String,
    pub classification: String,
    pub id: i32,
    pub url: String,
    pub creator: String,
    pub creator_detail: User,
    pub summary: String,
    pub status: String,
    pub estimated_time: i64,
    pub target_milestone: String,
    pub cc: Vec<String>,
    pub cc_detail: Vec<User>,
    pub is_open: bool,
    pub is_creator_accessible: bool,
    pub docs_contact: String,
    pub docs_contact_detail: Option<User>,
    pub assigned_to: String,
    pub assigned_to_detail: User,
    pub resolution: String,
    pub severity: String,
    pub product: String,
    pub platform: String,
    pub last_change_time: String,
    pub remaining_time: i64,
    pub priority: String,
    pub whiteboard: String,
    pub creation_time: String,
    pub is_confirmed: bool,
    pub qa_contact: String,
    pub qa_contact_detail: Option<User>,
    pub dupe_of: Option<i32>,
    pub target_release: Vec<String>,
    pub actual_time: i64,
    pub component: Vec<String>,
    pub is_cc_accessible: bool,
    pub version: Vec<String>,
    pub keywords: Vec<String>,
    pub depends_on: Vec<i32>,
    pub blocks: Vec<i32>,
    pub see_also: Vec<String>,
    pub groups: Vec<String>,
    pub deadline: Option<String>,
    pub update_token: Option<String>,
    pub work_time: Option<i64>,
    // Not part of the default reply:
    pub flags: Option<Vec<Flag>>,
    pub tags: Option<Vec<String>>,
    pub dependent_products: Option<Vec<String>>,
    /// The members of the object that no field above is read from.
    pub extra: Vec<(String, Json)>,
}

/// The envelope of a list of bugs. The server gives `limit` as text.
#[derive(Clone, Debug, PartialEq, Eq)]
pub struct Response {
    pub offset: i32,
    pub limit: String,
    pub total_matches: i32,
    pub bugs: Vec<Bug>,
    /// The members of the object that no field above is read from.
    pub extra: Vec<(String, Json)>,
}

/// The envelope that Bugzilla returns on failure.
#[derive(Clone, Debug, PartialEq, Eq)]
pub struct BugzillaError {
    pub error: bool,
    pub message: String,
    pub code: i32,
    /// The members of the object that no field above is read from.
    pub extra: Vec<(String, Json)>,
}

/// The mathematical value of a [`User`].
pub struct UserView {
    pub email: Seq<char>,
    pub id: i32,
    pub name: Seq<char>,
    pub real_name: Seq<char>,
    pub extra: Members,
}

/// The mathematical value of a [`Flag`].
pub struct FlagView {
    pub id: i32,
    pub type_id: i32,
    pub creation_date: Seq<char>,
    pub modification_date: Seq<char>,
    pub name: Seq<char>,
    pub status: Seq<char>,
    pub setter: Seq<char>,
    pub requestee: Option<Seq<char>>,
    pub extra: Members,
}

/// The mathematical value of a [`Bug`].
pub struct BugView {
    pub op_sys: Seq<char>,
    pub classification: Seq<char>,
    pub id: i32,
    pub url: Seq<char>,
    pub creator: Seq<char>,
    pub creator_detail: UserView,
    pub summary: Seq<char>,
    pub status: Seq<char>,
    pub estimated_time: i64,
    pub target_milestone: Seq<char>,
    pub cc: Seq<Seq<char>>,
    pub cc_detail: Seq<UserView>,
    pub is_open: bool,
    pub is_creator_accessible: bool,
    pub docs_contact: Seq<char>,
    pub docs_contact_detail: Option<UserView>,
    pub assigned_to: Seq<char>,
    pub assigned_to_detail: UserView,
    pub resolution: Seq<char>,
    pub severity: Seq<char>,
    pub product: Seq<char>,
    pub platform: Seq<char>,
    pub last_change_time: Seq<char>,
    pub remaining_time: i64,
    pub priority: Seq<char>,
    pub whiteboard: Seq<char>,
    pub creation_time: Seq<char>,
    pub is_confirmed: bool,
    pub qa_contact: Seq<char>,
    pub qa_contact_detail: Option<UserView>,
    pub dupe_of: Option<i32>,
    pub target_release: Seq<Seq<char>>,
    pub actual_time: i64,
    pub component: Seq<Seq<char>>,
    pub is_cc_accessible: bool,
    pub version: Seq<Seq<char>>,
    pub keywords: Seq<Seq<char>>,
    pub depends_on: Seq<i32>,
    pub blocks: Seq<i32>,
    pub see_also: Seq<Seq<char>>,
    pub groups: Seq<Seq<char>>,
    pub deadline: Option<Seq<char>>,
    pub update_token: Option<Seq<char>>,
    pub work_time: Option<i64>,
    pub flags: Option<Seq<FlagView>>,
    pub tags: Option<Seq<Seq<char>>>,
    pub dependent_products: Option<Seq<Seq<char>>>,
    pub extra: Members,
}

/// The mathematical value of a [`Response`].
pub struct ResponseView {
    pub offset: i32,
    pub limit: Seq<char>,
    pub total_matches: i32,
    pub bugs: Seq<BugView>,
    pub extra: Members,
}

/// The mathematical value of a [`BugzillaError`].
pub struct BugzillaErrorView {
    pub error: bool,
    pub message: Seq<char>,
    pub code: i32,
    pub extra: Members,
}

impl DeepView for User {
    type V = UserView;

    open spec fn deep_view(&self) -> UserView {
        UserView {
            email: self.email.deep_view(),
            id: self.id,
            name: self.name.deep_view(),
            real_name: self.real_name.deep_view(),
            extra: self.extra.deep_view(),
        }
    }
}

impl View for User {
    type V = UserView;

    open spec fn view(&self) -> UserView {
        self.deep_view()
    }
}

impl DeepView for Flag {
    type V = FlagView;

    open spec fn deep_view(&self) -> FlagView {
        FlagView {
            id: self.id,
            type_id: self.type_id,
            creation_date: self.creation_date.deep_view(),
            modification_date: self.modification_date.deep_view(),
            name: self.name.deep_view(),
            status: self.status.deep_view(),
            setter: self.setter.deep_view(),
            requestee: self.requestee.deep_view(),
            extra: self.extra.deep_view(),
        }
    }
}

impl View for Flag {
    type V = FlagView;

    open spec fn view(&self) -> FlagView {
        self.deep_view()
    }
}

impl DeepView for Bug {
    type V = BugView;

    open spec fn deep_view(&self) -> BugView {
        BugView {
            op_sys: self.op_sys.deep_view(),
            classification: self.classification.deep_view(),
            id: self.id,
            url: self.url.deep_view(),
            creator: self.creator.deep_view(),
            creator_detail: self.creator_detail.deep_view(),
            summary: self.summary.deep_view(),
            status: self.status.deep_view(),
            estimated_time: self.estimated_time,
            target_milestone: self.target_milestone.deep_view(),
            cc: self.cc.deep_view(),
            cc_detail: self.cc_detail.deep_view(),
            is_open: self.is_open,
            is_creator_accessible: self.is_creator_accessible,
            docs_contact: self.docs_contact.deep_view(),
            docs_contact_detail: self.docs_contact_detail.deep_view(),
            assigned_to: self.assigned_to.deep_view(),
            assigned_to_detail: self.assigned_to_detail.deep_view(),
            resolution: self.resolution.deep_view(),
            severity: self.severity.deep_view(),
            product: self.product.deep_view(),
            platform: self.platform.deep_view(),
            last_change_time: self.last_change_time.deep_view(),
            remaining_time: self.remaining_time,
            priority: self.priority.deep_view(),
            whiteboard: self.whiteboard.deep_view(),
            creation_time: self.creation_time.deep_view(),
            is_confirmed: self.is_confirmed,
            qa_contact: self.qa_contact.deep_view(),
            qa_contact_detail: self.qa_contact_detail.deep_view(),
            dupe_of: self.dupe_of,
            target_release: self.target_release.deep_view(),
            actual_time: self.actual_time,
            component: self.component.deep_view(),
            is_cc_accessible: self.is_cc_accessible,
            version: self.version.deep_view(),
            keywords: self.keywords.deep_view(),
            depends_on: self.depends_on.deep_view(),
            blocks: self.blocks.deep_view(),
            see_also: self.see_also.deep_view(),
            groups: self.groups.deep_view(),
            deadline: self.deadline.deep_view(),
            update_token: self.update_token.deep_view(),
            work_time: self.work_time,
            flags: self.flags.deep_view(),
            tags: self.tags.deep_view(),
            dependent_products: self.dependent_products.deep_view(),
            extra: self.extra.deep_view(),
        }
    }
}

impl View for Bug {
    type V = BugView;

    open spec fn view(&self) -> BugView {
        self.deep_view()
    }
}

impl DeepView for Response {
    type V = ResponseView;

    open spec fn deep_view(&self) -> ResponseView {
        ResponseView {
            offset: self.offset,
            limit: self.limit.deep_view(),
            total_matches: self.total_matches,
            bugs: self.bugs.deep_view(),
            extra: self.extra.deep_view(),
        }
    }
}

impl View for Response {
    type V = ResponseView;

    open spec fn view(&self) -> ResponseView {
        self.deep_view()
    }
}

impl DeepView for BugzillaError {
    type V = BugzillaErrorView;

    open spec fn deep_view(&self) -> BugzillaErrorView {
        BugzillaErrorView {
            error: self.error,
            message: self.message.deep_view(),
            code: self.code,
            extra: self.extra.deep_view(),
        }
    }
}

impl View for BugzillaError {
    type V = BugzillaErrorView;

    open spec fn view(&self) -> BugzillaErrorView {
        self.deep_view()
    }
}

/// A required field that holds a user.
pub open spec fn user_field(o: Members, name: &'static str) -> Result<UserView, DecodeError> {
    required(o, name, |value: JsonView| decoded_user(value))
}

/// An optional field that holds a user.
pub open spec fn opt_user_field(o: Members, name: &'static str) -> Result<
    Option<UserView>,
    DecodeError,
> {
    optional(o, name, |value: JsonView| decoded_user(value))
}

/// A required field that holds a list of users.
pub open spec fn users_field(o: Members, name: &'static str) -> Result<
    Seq<UserView>,
    DecodeError,
> {
    required(o, name, |value: JsonView| list_in(value, name, |item: JsonView| decoded_user(item)))
}

/// An optional field that holds a list of flags.
pub open spec fn opt_flags_field(o: Members, name: &'static str) -> Result<
    Option<Seq<FlagView>>,
    DecodeError,
> {
    optional(o, name, |value: JsonView| list_in(value, name, |item: JsonView| decoded_flag(item)))
}

/// A required field that holds a list of bugs.
pub open spec fn bugs_field(o: Members, name: &'static str) -> Result<Seq<BugView>, DecodeError> {
    required(o, name, |value: JsonView| list_in(value, name, |item: JsonView| decoded_bug(item)))
}

/// The user that a JSON value holds. Every field is read, in the order of the
/// record's declaration; the first field that fails gives the failure; the
/// members that no field is read from are kept as `extra`.
pub open spec fn decoded_user(value: JsonView) -> Result<UserView, DecodeError> {
    match value {
        JsonView::Object(o) => {
            let email = text_field(o, "email");
            let id = int32_field(o, "id");
            let name = text_field(o, "name");
            let real_name = text_field(o, "real_name");
            if email is Err {
                Err(email->Err_0)
            } else if id is Err {
                Err(id->Err_0)
            } else if name is Err {
                Err(name->Err_0)
            } else if real_name is Err {
                Err(real_name->Err_0)
            } else {
                Ok(
                    UserView {
                        email: email->Ok_0,
                        id: id->Ok_0,
                        name: name->Ok_0,
                        real_name: real_name->Ok_0,
                        extra: others(o, names_of(USER_FIELDS@)),
                    },
                )
            }
        },
        _ => Err(DecodeError::NotAnObject),
    }
}

/// The flag that a JSON value holds. Every field is read, in the order of the
/// record's declaration; the first field that fails gives the failure; the
/// members that no field is read from are kept as `extra`.
pub open spec fn decoded_flag(value: JsonView) -> Result<FlagView, DecodeError> {
    match value {
        JsonView::Object(o) => {
            let id = int32_field(o, "id");
            let type_id = int32_field(o, "type_id");
            let creation_date = text_field(o, "creation_date");
            let modification_date = text_field(o, "modification_date");
            let name = text_field(o, "name");
            let status = text_field(o, "status");
            let setter = text_field(o, "setter");
            let requestee = opt_text_field(o, "requestee");
            if id is Err {
                Err(id->Err_0)
            } else if type_id is Err {
                Err(type_id->Err_0)
            } else if creation_date is Err {
                Err(creation_date->Err_0)
            } else if modification_date is Err {
                Err(modification_date->Err_0)
            } else if name is Err {
                Err(name->Err_0)
            } else if status is Err {
                Err(status->Err_0)
            } else if setter is Err {
                Err(setter->Err_0)
            } else if requestee is Err {
                Err(requestee->Err_0)
            } else {
                Ok(
                    FlagView {
                        id: id->Ok_0,
                        type_id: type_id->Ok_0,
                        creation_date: creation_date->Ok_0,
                        modification_date: modification_date->Ok_0,
                        name: name->Ok_0,
                        status: status->Ok_0,
                        setter: setter->Ok_0,
                        requestee: requestee->Ok_0,
                        extra: others(o, names_of(FLAG_FIELDS@)),
                    },
                )
            }
        },
        _ => Err(DecodeError::NotAnObject),
    }
}

/// The bug that a JSON value holds. Every field is read, in the order of the
/// record's declaration; the first field that fails gives the failure; the
/// members that no field is read from are kept as `extra`.
pub open spec fn decoded_bug(value: JsonView) -> Result<BugView, DecodeError> {
    match value {
        JsonView::Object(o) => {
            let op_sys = text_field(o, "op_sys");
            let classification = text_field(o, "classification");
            let id = int32_field(o, "id");
            let url = text_field(o, "url");
            let creator = text_field(o, "creator");
            let creator_detail = user_field(o, "creator_detail");
            let summary = text_field(o, "summary");
            let status = text_field(o, "status");
            let estimated_time = int64_field(o, "estimated_time");
            let target_milestone = text_field(o, "target_milestone");
            let cc = texts_field(o, "cc");
            let cc_detail = users_field(o, "cc_detail");
            let is_open = bool_field(o, "is_open");
            let is_creator_accessible = bool_field(o, "is_creator_accessible");
            let docs_contact = text_field(o, "docs_contact");
            let docs_contact_detail = opt_user_field(o, "docs_contact_detail");
            let assigned_to = text_field(o, "assigned_to");
            let assigned_to_detail = user_field(o, "assigned_to_detail");
            let resolution = text_field(o, "resolution");
            let severity = text_field(o, "severity");
            let product = text_field(o, "product");
            let platform = text_field(o, "platform");
            let last_change_time = text_field(o, "last_change_time");
            let remaining_time = int64_field(o, "remaining_time");
            let priority = text_field(o, "priority");
            let whiteboard = text_field(o, "whiteboard");
            let creation_time = text_field(o, "creation_time");
            let is_confirmed = bool_field(o, "is_confirmed");
            let qa_contact = text_field(o, "qa_contact");
            let qa_contact_detail = opt_user_field(o, "qa_contact_detail");
            let dupe_of = opt_int32_field(o, "dupe_of");
            let target_release = texts_field(o, "target_release");
            let actual_time = int64_field(o, "actual_time");
            let component = texts_field(o, "component");
            let is_cc_accessible = bool_field(o, "is_cc_accessible");
            let version = texts_field(o, "version");
            let keywords = texts_field(o, "keywords");
            let depends_on = int32s_field(o, "depends_on");
            let blocks = int32s_field(o, "blocks");
            let see_also = texts_field(o, "see_also");
            let groups = texts_field(o, "groups");
            let deadline = opt_text_field(o, "deadline");
            let update_token = opt_text_field(o, "update_token");
            let work_time = opt_int64_field(o, "work_time");
            let flags = opt_flags_field(o, "flags");
            let tags = opt_texts_field(o, "tags");
            let dependent_products = opt_texts_field(o, "dependent_products");
            if op_sys is Err {
                Err(op_sys->Err_0)
            } else if classification is Err {
                Err(classification->Err_0)
            } else if id is Err {
                Err(id->Err_0)
            } else if url is Err {
                Err(url->Err_0)
            } else if creator is Err {
                Err(creator->Err_0)
            } else if creator_detail is Err {
                Err(creator_detail->Err_0)
            } else if summary is Err {
                Err(summary->Err_0)
            } else if status is Err {
                Err(status->Err_0)
            } else if estimated_time is Err {
                Err(estimated_time->Err_0)
            } else if target_milestone is Err {
                Err(target_milestone->Err_0)
            } else if cc is Err {
                Err(cc->Err_0)
            } else if cc_detail is Err {
                Err(cc_detail->Err_0)
            } else if is_open is Err {
                Err(is_open->Err_0)
            } else if is_creator_accessible is Err {
                Err(is_creator_accessible->Err_0)
            } else if docs_contact is Err {
                Err(docs_contact->Err_0)
            } else if docs_contact_detail is Err {
                Err(docs_contact_detail->Err_0)
            } else if assigned_to is Err {
                Err(assigned_to->Err_0)
            } else if assigned_to_detail is Err {
                Err(assigned_to_detail->Err_0)
            } else if resolution is Err {
                Err(resolution->Err_0)
            } else if severity is Err {
                Err(severity->Err_0)
            } else if product is Err {
                Err(product->Err_0)
            } else if platform is Err {
                Err(platform->Err_0)
            } else if last_change_time is Err {
                Err(last_change_time->Err_0)
            } else if remaining_time is Err {
                Err(remaining_time->Err_0)
            } else if priority is Err {
                Err(priority->Err_0)
            } else if whiteboard is Err {
                Err(whiteboard->Err_0)
            } else if creation_time is Err {
                Err(creation_time->Err_0)
            } else if is_confirmed is Err {
                Err(is_confirmed->Err_0)
            } else if qa_contact is Err {
                Err(qa_contact->Err_0)
            } else if qa_contact_detail is Err {
                Err(qa_contact_detail->Err_0)
            } else if dupe_of is Err {
                Err(dupe_of->Err_0)
            } else if target_release is Err {
                Err(target_release->Err_0)
            } else if actual_time is Err {
                Err(actual_time->Err_0)
            } else if component is Err {
                Err(component->Err_0)
            } else if is_cc_accessible is Err {
                Err(is_cc_accessible->Err_0)
            } else if version is Err {
                Err(version->Err_0)
            } else if keywords is Err {
                Err(keywords->Err_0)
            } else if depends_on is Err {
                Err(depends_on->Err_0)
            } else if blocks is Err {
                Err(blocks->Err_0)
            } else if see_also is Err {
                Err(see_also->Err_0)
            } else if groups is Err {
                Err(groups->Err_0)
            } else if deadline is Err {
                Err(deadline->Err_0)
            } else if update_token is Err {
                Err(update_token->Err_0)
            } else if work_time is Err {
                Err(work_time->Err_0)
            } else if flags is Err {
                Err(flags->Err_0)
            } else if tags is Err {
                Err(tags->Err_0)
            } else if dependent_products is Err {
                Err(dependent_products->Err_0)
            } else {
                Ok(
                    BugView {
                        op_sys: op_sys->Ok_0,
                        classification: classification->Ok_0,
                        id: id->Ok_0,
                        url: url->Ok_0,
                        creator: creator->Ok_0,
                        creator_detail: creator_detail->Ok_0,
                        summary: summary->Ok_0,
                        status: status->Ok_0,
                        estimated_time: estimated_time->Ok_0,
                        target_milestone: target_milestone->Ok_0,
                        cc: cc->Ok_0,
                        cc_detail: cc_detail->Ok_0,
                        is_open: is_open->Ok_0,
                        is_creator_accessible: is_creator_accessible->Ok_0,
                        docs_contact: docs_contact->Ok_0,
                        docs_contact_detail: docs_contact_detail->Ok_0,
                        assigned_to: assigned_to->Ok_0,
                        assigned_to_detail: assigned_to_detail->Ok_0,
                        resolution: resolution->Ok_0,
                        severity: severity->Ok_0,
                        product: product->Ok_0,
                        platform: platform->Ok_0,
                        last_change_time: last_change_time->Ok_0,
                        remaining_time: remaining_time->Ok_0,
                        priority: priority->Ok_0,
                        whiteboard: whiteboard->Ok_0,
                        creation_time: creation_time->Ok_0,
                        is_confirmed: is_confirmed->Ok_0,
                        qa_contact: qa_contact->Ok_0,
                        qa_contact_detail: qa_contact_detail->Ok_0,
                        dupe_of: dupe_of->Ok_0,
                        target_release: target_release->Ok_0,
                        actual_time: actual_time->Ok_0,
                        component: component->Ok_0,
                        is_cc_accessible: is_cc_accessible->Ok_0,
                        version: version->Ok_0,
                        keywords: keywords->Ok_0,
                        depends_on: depends_on->Ok_0,
                        blocks: blocks->Ok_0,
                        see_also: see_also->Ok_0,
                        groups: groups->Ok_0,
                        deadline: deadline->Ok_0,
                        update_token: update_token->Ok_0,
                        work_time: work_time->Ok_0,
                        flags: flags->Ok_0,
                        tags: tags->Ok_0,
                        dependent_products: dependent_products->Ok_0,
                        extra: others(o, names_of(BUG_FIELDS@)),
                    },
                )
            }
        },
        _ => Err(DecodeError::NotAnObject),
    }
}

/// The list of bugs that a JSON value holds. Every field is read, in the order of the
/// record's declaration; the first field that fails gives the failure; the
/// members that no field is read from are kept as `extra`.
pub open spec fn decoded_response(value: JsonView) -> Result<ResponseView, DecodeError> {
    match value {
        JsonView::Object(o) => {
            let offset = int32_field(o, "offset");
            let limit = text_field(o, "limit");
            let total_matches = int32_field(o, "total_matches");
            let bugs = bugs_field(o, "bugs");
            if offset is Err {
                Err(offset->Err_0)
            } else if limit is Err {
                Err(limit->Err_0)
            } else if total_matches is Err {
                Err(total_matches->Err_0)
            } else if bugs is Err {
                Err(bugs->Err_0)
            } else {
                Ok(
                    ResponseView {
                        offset: offset->Ok_0,
                        limit: limit->Ok_0,
                        total_matches: total_matches->Ok_0,
                        bugs: bugs->Ok_0,
                        extra: others(o, names_of(RESPONSE_FIELDS@)),
                    },
                )
            }
        },
        _ => Err(DecodeError::NotAnObject),
    }
}

/// The failure that a JSON value holds. Every field is read, in the order of the
/// record's declaration; the first field that fails gives the failure; the
/// members that no field is read from are kept as `extra`.
pub open spec fn decoded_error(value: JsonView) -> Result<BugzillaErrorView, DecodeError> {
    match value {
        JsonView::Object(o) => {
            let error = bool_field(o, "error");
            let message = text_field(o, "message");
            let code = int32_field(o, "code");
            if error is Err {
                Err(error->Err_0)
            } else if message is Err {
                Err(message->Err_0)
            } else if code is Err {
                Err(code->Err_0)
            } else {
                Ok(
                    BugzillaErrorView {
                        error: error->Ok_0,
                        message: message->Ok_0,
                        code: code->Ok_0,
                        extra: others(o, names_of(ERROR_FIELDS@)),
                    },
                )
            }
        },
        _ => Err(DecodeError::NotAnObject),
    }
}

impl User {
    /// Reads a user from a JSON value.
    pub fn from_json(value: &Json) -> (r: Result<User, DecodeError>)
        ensures
            outcome(r) == decoded_user(value@),
    {
        match value {
            Json::Object(o) => {
                proof {
                    lemma_object_view(*o);
                }
                let email = read_text(o, "email")?;
                let id = read_int32(o, "id")?;
                let name = read_text(o, "name")?;
                let real_name = read_text(o, "real_name")?;
                let extra = other_members(o, &USER_FIELDS);
                Ok(
                    User {
                        email,
                        id,
                        name,
                        real_name,
                        extra,
                    },
                )
            },
            _ => Err(DecodeError::NotAnObject),
        }
    }
}

impl Flag {
    /// Reads a flag from a JSON value.
    pub fn from_json(value: &Json) -> (r: Result<Flag, DecodeError>)
        ensures
            outcome(r) == decoded_flag(value@),
    {
        match value {
            Json::Object(o) => {
                proof {
                    lemma_object_view(*o);
                }
                let id = read_int32(o, "id")?;
                let type_id = read_int32(o, "type_id")?;
                let creation_date = read_text(o, "creation_date")?;
                let modification_date = read_text(o, "modification_date")?;
                let name = read_text(o, "name")?;
                let status = read_text(o, "status")?;
                let setter = read_text(o, "setter")?;
                let requestee = read_opt_text(o, "requestee")?;
                let extra = other_members(o, &FLAG_FIELDS);
                Ok(
                    Flag {
                        id,
                        type_id,
                        creation_date,
                        modification_date,
                        name,
                        status,
                        setter,
                        requestee,
                        extra,
                    },
                )
            },
            _ => Err(DecodeError::NotAnObject),
        }
    }
}

/// Reads a required field that holds a user.
pub fn read_user(o: &Vec<(String, Json)>, name: &'static str) -> (r: Result<User, DecodeError>)
    ensures
        outcome(r) == user_field(o.deep_view(), name),
{
    match find_member(o, name) {
        None => Err(DecodeError::Missing(name)),
        Some(value) => User::from_json(value),
    }
}

/// Reads an optional field that holds a user.
pub fn read_opt_user(o: &Vec<(String, Json)>, name: &'static str) -> (r: Result<
    Option<User>,
    DecodeError,
>)
    ensures
        outcome(r) == opt_user_field(o.deep_view(), name),
{
    match find_member(o, name) {
        None => Ok(None),
        Some(Json::Null) => Ok(None),
        Some(value) => match User::from_json(value) {
            Ok(user) => Ok(Some(user)),
            Err(e) => Err(e),
        },
    }
}

/// Reads a required field that holds a list of users.
pub fn read_users(o: &Vec<(String, Json)>, name: &'static str) -> (r: Result<
    Vec<User>,
    DecodeError,
>)
    ensures
        outcome(r) == users_field(o.deep_view(), name),
{
    match find_member(o, name) {
        None => Err(DecodeError::Missing(name)),
        Some(value) => users_of(value, name),
    }
}

/// Reads an optional field that holds a list of flags.
pub fn read_opt_flags(o: &Vec<(String, Json)>, name: &'static str) -> (r: Result<
    Option<Vec<Flag>>,
    DecodeError,
>)
    ensures
        outcome(r) == opt_flags_field(o.deep_view(), name),
{
    match find_member(o, name) {
        None => Ok(None),
        Some(Json::Null) => Ok(None),
        Some(value) => match flags_of(value, name) {
            Ok(flags) => Ok(Some(flags)),
            Err(e) => Err(e),
        },
    }
}

/// Reads a required field that holds a list of bugs.
pub fn read_bugs(o: &Vec<(String, Json)>, name: &'static str) -> (r: Result<
    Vec<Bug>,
    DecodeError,
>)
    ensures
        outcome(r) == bugs_field(o.deep_view(), name),
{
    match find_member(o, name) {
        None => Err(DecodeError::Missing(name)),
        Some(value) => bugs_of(value, name),
    }
}

/// The users of a JSON array of users.
pub fn users_of(value: &Json, name: &'static str) -> (r: Result<Vec<User>, DecodeError>)
    ensures
        outcome(r) == list_in(value@, name, |item: JsonView| decoded_user(item)),
{
    match value {
        Json::Array(items) => {
            proof {
                lemma_array_view(*items);
            }
            let ghost all = items.deep_view();
            let ghost one = |item: JsonView| decoded_user(item);
            let mut out: Vec<User> = Vec::new();
            let mut i: usize = 0;
            assert(out.deep_view() =~= Seq::<UserView>::empty());
            assert(all.subrange(0, 0) =~= Seq::<JsonView>::empty());
            while i < items.len()
                invariant
                    i <= items.len(),
                    all == items.deep_view(),
                    value@ == JsonView::Array(all),
                    one == (|item: JsonView| decoded_user(item)),
                    each_in(all.subrange(0, i as int), one) == Ok::<Seq<UserView>, DecodeError>(
                        out.deep_view(),
                    ),
                decreases items.len() - i,
            {
                proof {
                    lemma_each_in_step(all, one, i as int);
                }
                match User::from_json(&items[i]) {
                    Ok(record) => {
                        let ghost before = out.deep_view();
                        out.push(record);
                        assert(out.deep_view() =~= before.push(record@));
                    },
                    Err(e) => {
                        proof {
                            lemma_each_in_fails(all, one, i + 1);
                        }
                        return Err(e);
                    },
                }
                i += 1;
            }
            assert(all.subrange(0, i as int) =~= all);
            Ok(out)
        },
        _ => Err(DecodeError::Invalid(name)),
    }
}

/// The flags of a JSON array of flags.
pub fn flags_of(value: &Json, name: &'static str) -> (r: Result<Vec<Flag>, DecodeError>)
    ensures
        outcome(r) == list_in(value@, name, |item: JsonView| decoded_flag(item)),
{
    match value {
        Json::Array(items) => {
            proof {
                lemma_array_view(*items);
            }
            let ghost all = items.deep_view();
            let ghost one = |item: JsonView| decoded_flag(item);
            let mut out: Vec<Flag> = Vec::new();
            let mut i: usize = 0;
            assert(out.deep_view() =~= Seq::<FlagView>::empty());
            assert(all.subrange(0, 0) =~= Seq::<JsonView>::empty());
            while i < items.len()
                invariant
                    i <= items.len(),
                    all == items.deep_view(),
                    value@ == JsonView::Array(all),
                    one == (|item: JsonView| decoded_flag(item)),
                    each_in(all.subrange(0, i as int), one) == Ok::<Seq<FlagView>, DecodeError>(
                        out.deep_view(),
                    ),
                decreases items.len() - i,
            {
                proof {
                    lemma_each_in_step(all, one, i as int);
                }
                match Flag::from_json(&items[i]) {
                    Ok(record) => {
                        let ghost before = out.deep_view();
                        out.push(record);
                        assert(out.deep_view() =~= before.push(record@));
                    },
                    Err(e) => {
                        proof {
                            lemma_each_in_fails(all, one, i + 1);
                        }
                        return Err(e);
                    },
                }
                i += 1;
            }
            assert(all.subrange(0, i as int) =~= all);
            Ok(out)
        },
        _ => Err(DecodeError::Invalid(name)),
    }
}

impl Bug {
    /// Reads a bug from a JSON value.
    pub fn from_json(value: &Json) -> (r: Result<Bug, DecodeError>)
        ensures
            outcome(r) == decoded_bug(value@),
    {
        match value {
            Json::Object(o) => {
                proof {
                    lemma_object_view(*o);
                }
                let op_sys = read_text(o, "op_sys")?;
                let classification = read_text(o, "classification")?;
                let id = read_int32(o, "id")?;
                let url = read_text(o, "url")?;
                let creator = read_text(o, "creator")?;
                let creator_detail = read_user(o, "creator_detail")?;
                let summary = read_text(o, "summary")?;
                let status = read_text(o, "status")?;
                let estimated_time = read_int64(o, "estimated_time")?;
                let target_milestone = read_text(o, "target_milestone")?;
                let cc = read_texts(o, "cc")?;
                let cc_detail = read_users(o, "cc_detail")?;
                let is_open = read_bool(o, "is_open")?;
                let is_creator_accessible = read_bool(o, "is_creator_accessible")?;
                let docs_contact = read_text(o, "docs_contact")?;
                let docs_contact_detail = read_opt_user(o, "docs_contact_detail")?;
                let assigned_to = read_text(o, "assigned_to")?;
                let assigned_to_detail = read_user(o, "assigned_to_detail")?;
                let resolution = read_text(o, "resolution")?;
                let severity = read_text(o, "severity")?;
                let product = read_text(o, "product")?;
                let platform = read_text(o, "platform")?;
                let last_change_time = read_text(o, "last_change_time")?;
                let remaining_time = read_int64(o, "remaining_time")?;
                let priority = read_text(o, "priority")?;
                let whiteboard = read_text(o, "whiteboard")?;
                let creation_time = read_text(o, "creation_time")?;
                let is_confirmed = read_bool(o, "is_confirmed")?;
                let qa_contact = read_text(o, "qa_contact")?;
                let qa_contact_detail = read_opt_user(o, "qa_contact_detail")?;
                let dupe_of = read_opt_int32(o, "dupe_of")?;
                let target_release = read_texts(o, "target_release")?;
                let actual_time = read_int64(o, "actual_time")?;
                let component = read_texts(o, "component")?;
                let is_cc_accessible = read_bool(o, "is_cc_accessible")?;
                let version = read_texts(o, "version")?;
                let keywords = read_texts(o, "keywords")?;
                let depends_on = read_int32s(o, "depends_on")?;
                let blocks = read_int32s(o, "blocks")?;
                let see_also = read_texts(o, "see_also")?;
                let groups = read_texts(o, "groups")?;
                let deadline = read_opt_text(o, "deadline")?;
                let update_token = read_opt_text(o, "update_token")?;
                let work_time = read_opt_int64(o, "work_time")?;
                let flags = read_opt_flags(o, "flags")?;
                let tags = read_opt_texts(o, "tags")?;
                let dependent_products = read_opt_texts(o, "dependent_products")?;
                let extra = other_members(o, &BUG_FIELDS);
                Ok(
                    Bug {
                        op_sys,
                        classification,
                        id,
                        url,
                        creator,
                        creator_detail,
                        summary,
                        status,
                        estimated_time,
                        target_milestone,
                        cc,
                        cc_detail,
                        is_open,
                        is_creator_accessible,
                        docs_contact,
                        docs_contact_detail,
                        assigned_to,
                        assigned_to_detail,
                        resolution,
                        severity,
                        product,
                        platform,
                        last_change_time,
                        remaining_time,
                        priority,
                        whiteboard,
                        creation_time,
                        is_confirmed,
                        qa_contact,
                        qa_contact_detail,
                        dupe_of,
                        target_release,
                        actual_time,
                        component,
                        is_cc_accessible,
                        version,
                        keywords,
                        depends_on,
                        blocks,
                        see_also,
                        groups,
                        deadline,
                        update_token,
                        work_time,
                        flags,
                        tags,
                        dependent_products,
                        extra,
                    },
                )
            },
            _ => Err(DecodeError::NotAnObject),
        }
    }
}

/// The bugs of a JSON array of bugs.
pub fn bugs_of(value: &Json, name: &'static str) -> (r: Result<Vec<Bug>, DecodeError>)
    ensures
        outcome(r) == list_in(value@, name, |item: JsonView| decoded_bug(item)),
{
    match value {
        Json::Array(items) => {
            proof {
                lemma_array_view(*items);
            }
            let ghost all = items.deep_view();
            let ghost one = |item: JsonView| decoded_bug(item);
            let mut out: Vec<Bug> = Vec::new();
            let mut i: usize = 0;
            assert(out.deep_view() =~= Seq::<BugView>::empty());
            assert(all.subrange(0, 0) =~= Seq::<JsonView>::empty());
            while i < items.len()
                invariant
                    i <= items.len(),
                    all == items.deep_view(),
                    value@ == JsonView::Array(all),
                    one == (|item: JsonView| decoded_bug(item)),
                    each_in(all.subrange(0, i as int), one) == Ok::<Seq<BugView>, DecodeError>(
                        out.deep_view(),
                    ),
                decreases items.len() - i,
            {
                proof {
                    lemma_each_in_step(all, one, i as int);
                }
                match Bug::from_json(&items[i]) {
                    Ok(record) => {
                        let ghost before = out.deep_view();
                        out.push(record);
                        assert(out.deep_view() =~= before.push(record@));
                    },
                    Err(e) => {
                        proof {
                            lemma_each_in_fails(all, one, i + 1);
                        }
                        return Err(e);
                    },
                }
                i += 1;
            }
            assert(all.subrange(0, i as int) =~= all);
            Ok(out)
        },
        _ => Err(DecodeError::Invalid(name)),
    }
}

impl Response {
    /// Reads the envelope of a list of bugs from a JSON value.
    pub fn from_json(value: &Json) -> (r: Result<Response, DecodeError>)
        ensures
            outcome(r) == decoded_response(value@),
    {
        match value {
            Json::Object(o) => {
                proof {
                    lemma_object_view(*o);
                }
                let offset = read_int32(o, "offset")?;
                let limit = read_text(o, "limit")?;
                let total_matches = read_int32(o, "total_matches")?;
                let bugs = read_bugs(o, "bugs")?;
                let extra = other_members(o, &RESPONSE_FIELDS);
                Ok(
                    Response {
                        offset,
                        limit,
                        total_matches,
                        bugs,
                        extra,
                    },
                )
            },
            _ => Err(DecodeError::NotAnObject),
        }
    }
}

impl Response {
    /// Parses the body of a reply as the envelope of a list of bugs.
    pub fn parse(body: &str) -> (r: Result<Response, DecodeError>)
        ensures
            match document_of(body@) {
                None => r matches Err(DecodeError::Syntax(_)),
                Some(value) => outcome(r) == decoded_response(value),
            },
    {
        match Json::parse(body) {
            Err(e) => Err(e),
            Ok(value) => Response::from_json(&value),
        }
    }
}

impl BugzillaError {
    /// Reads the envelope of a failure from a JSON value.
    pub fn from_json(value: &Json) -> (r: Result<BugzillaError, DecodeError>)
        ensures
            outcome(r) == decoded_error(value@),
    {
        match value {
            Json::Object(o) => {
                proof {
                    lemma_object_view(*o);
                }
                let error = read_bool(o, "error")?;
                let message = read_text(o, "message")?;
                let code = read_int32(o, "code")?;
                let extra = other_members(o, &ERROR_FIELDS);
                Ok(
                    BugzillaError {
                        error,
                        message,
                        code,
                        extra,
                    },
                )
            },
            _ => Err(DecodeError::NotAnObject),
        }
    }
}

impl BugView {
    /// What holds of a bug as a Bugzilla server sends it: the ID is
    /// positive, `cc_detail` resolves `cc` entry by entry, and the plural
    /// fields `target_release`, `component` and `version` hold at least
    /// one value each. Reading a bug does not test this.
    pub open spec fn well_formed(self) -> bool {
        &&& self.id > 0
        &&& self.cc.len() == self.cc_detail.len()
        &&& self.target_release.len() > 0
        &&& self.component.len() > 0
        &&& self.version.len() > 0
    }
}

impl Bug {
    /// Tests what holds of a bug as a Bugzilla server sends it.
    pub fn is_well_formed(&self) -> (ok: bool)
        ensures
            ok == self@.well_formed(),
    {
        self.id > 0 && self.cc.len() == self.cc_detail.len() && self.target_release.len() > 0
            && self.component.len() > 0 && self.version.len() > 0
    }

    /// The member that the reply held under `key` beside the bug's
    /// fields.
    pub fn extra_field(&self, key: &str) -> (found: Option<&Json>)
        ensures
            match found {
                Some(value) => member(self@.extra, key@) == Some(value@),
                None => member(self@.extra, key@) is None,
            },
    {
        find_member(&self.extra, key)
    }
}

impl ResponseView {
    /// What holds of a list of bugs as a Bugzilla server sends it: each bug
    /// is well formed, and no two have the same ID.
    pub open spec fn well_formed(self) -> bool {
        &&& forall|i: int| 0 <= i < self.bugs.len() ==> (#[trigger] self.bugs[i]).well_formed()
        &&& forall|i: int, j: int|
            0 <= i < j < self.bugs.len() ==> (#[trigger] self.bugs[i]).id != (
            #[trigger] self.bugs[j]).id
    }
}

impl Response {
    /// Tests what holds of a list of bugs as a Bugzilla server sends it.
    pub fn is_well_formed(&self) -> (ok: bool)
        ensures
            ok == self@.well_formed(),
    {
        let ghost bugs = self@.bugs;
        let mut i: usize = 0;
        while i < self.bugs.len()
            invariant
                i <= self.bugs.len(),
                bugs == self@.bugs,
                bugs.len() == self.bugs.len(),
                forall|k: int| 0 <= k < i ==> (#[trigger] bugs[k]).well_formed(),
                forall|k: int, l: int|
                    0 <= k < l < bugs.len() && k < i ==> (#[trigger] bugs[k]).id != (
                    #[trigger] bugs[l]).id,
            decreases self.bugs.len() - i,
        {
            assert(bugs[i as int] == self.bugs[i as int]@);
            if !self.bugs[i].is_well_formed() {
                return false;
            }
            let mut j: usize = i + 1;
            while j < self.bugs.len()
                invariant
                    i < j <= self.bugs.len(),
                    bugs == self@.bugs,
                    bugs.len() == self.bugs.len(),
                    forall|l: int| i < l < j ==> bugs[i as int].id != (#[trigger] bugs[l]).id,
                decreases self.bugs.len() - j,
            {
                assert(bugs[i as int] == self.bugs[i as int]@);
                assert(bugs[j as int] == self.bugs[j as int]@);
                if self.bugs[i].id == self.bugs[j].id {
                    return false;
                }
                j += 1;
            }
            i += 1;
        }
        true
    }
}

/// Two objects that hold the same under each of a bug's field names are
/// read alike: the same failure, or the same fields. Only `extra` may
/// differ.
pub proof fn lemma_bug_reads_named_members(o: Members, p: Members)
    requires
        forall|i: int|
            0 <= i < BUG_FIELDS@.len() ==> member(o, #[trigger] BUG_FIELDS@[i]@) == member(
                p,
                BUG_FIELDS@[i]@,
            ),
    ensures
        decoded_bug(JsonView::Object(p)) == match decoded_bug(JsonView::Object(o)) {
            Err(e) => Err::<BugView, DecodeError>(e),
            Ok(bug) => Ok(BugView { extra: others(p, names_of(BUG_FIELDS@)), ..bug }),
        },
{
    assert(text_field(p, "op_sys") == text_field(o, "op_sys")) by {
        assert(BUG_FIELDS@[0] == "op_sys");
    }
    assert(text_field(p, "classification") == text_field(o, "classification")) by {
        assert(BUG_FIELDS@[1] == "classification");
    }
    assert(int32_field(p, "id") == int32_field(o, "id")) by {
        assert(BUG_FIELDS@[2] == "id");
    }
    assert(text_field(p, "url") == text_field(o, "url")) by {
        assert(BUG_FIELDS@[3] == "url");
    }
    assert(text_field(p, "creator") == text_field(o, "creator")) by {
        assert(BUG_FIELDS@[4] == "creator");
    }
    assert(user_field(p, "creator_detail") == user_field(o, "creator_detail")) by {
        assert(BUG_FIELDS@[5] == "creator_detail");
    }
    assert(text_field(p, "summary") == text_field(o, "summary")) by {
        assert(BUG_FIELDS@[6] == "summary");
    }
    assert(text_field(p, "status") == text_field(o, "status")) by {
        assert(BUG_FIELDS@[7] == "status");
    }
    assert(int64_field(p, "estimated_time") == int64_field(o, "estimated_time")) by {
        assert(BUG_FIELDS@[8] == "estimated_time");
    }
    assert(text_field(p, "target_milestone") == text_field(o, "target_milestone")) by {
        assert(BUG_FIELDS@[9] == "target_milestone");
    }
    assert(texts_field(p, "cc") == texts_field(o, "cc")) by {
        assert(BUG_FIELDS@[10] == "cc");
    }
    assert(users_field(p, "cc_detail") == users_field(o, "cc_detail")) by {
        assert(BUG_FIELDS@[11] == "cc_detail");
    }
    assert(bool_field(p, "is_open") == bool_field(o, "is_open")) by {
        assert(BUG_FIELDS@[12] == "is_open");
    }
    assert(bool_field(p, "is_creator_accessible") == bool_field(o, "is_creator_accessible")) by {
        assert(BUG_FIELDS@[13] == "is_creator_accessible");
    }
    assert(text_field(p, "docs_contact") == text_field(o, "docs_contact")) by {
        assert(BUG_FIELDS@[14] == "docs_contact");
    }
    assert(opt_user_field(p, "docs_contact_detail") == opt_user_field(o, "docs_contact_detail")) by {
        assert(BUG_FIELDS@[15] == "docs_contact_detail");
    }
    assert(text_field(p, "assigned_to") == text_field(o, "assigned_to")) by {
        assert(BUG_FIELDS@[16] == "assigned_to");
    }
    assert(user_field(p, "assigned_to_detail") == user_field(o, "assigned_to_detail")) by {
        assert(BUG_FIELDS@[17] == "assigned_to_detail");
    }
    assert(text_field(p, "resolution") == text_field(o, "resolution")) by {
        assert(BUG_FIELDS@[18] == "resolution");
    }
    assert(text_field(p, "severity") == text_field(o, "severity")) by {
        assert(BUG_FIELDS@[19] == "severity");
    }
    assert(text_field(p, "product") == text_field(o, "product")) by {
        assert(BUG_FIELDS@[20] == "product");
    }
    assert(text_field(p, "platform") == text_field(o, "platform")) by {
        assert(BUG_FIELDS@[21] == "platform");
    }
    assert(text_field(p, "last_change_time") == text_field(o, "last_change_time")) by {
        assert(BUG_FIELDS@[22] == "last_change_time");
    }
    assert(int64_field(p, "remaining_time") == int64_field(o, "remaining_time")) by {
        assert(BUG_FIELDS@[23] == "remaining_time");
    }
    assert(text_field(p, "priority") == text_field(o, "priority")) by {
        assert(BUG_FIELDS@[24] == "priority");
    }
    assert(text_field(p, "whiteboard") == text_field(o, "whiteboard")) by {
        assert(BUG_FIELDS@[25] == "whiteboard");
    }
    assert(text_field(p, "creation_time") == text_field(o, "creation_time")) by {
        assert(BUG_FIELDS@[26] == "creation_time");
    }
    assert(bool_field(p, "is_confirmed") == bool_field(o, "is_confirmed")) by {
        assert(BUG_FIELDS@[27] == "is_confirmed");
    }
    assert(text_field(p, "qa_contact") == text_field(o, "qa_contact")) by {
        assert(BUG_FIELDS@[28] == "qa_contact");
    }
    assert(opt_user_field(p, "qa_contact_detail") == opt_user_field(o, "qa_contact_detail")) by {
        assert(BUG_FIELDS@[29] == "qa_contact_detail");
    }
    assert(opt_int32_field(p, "dupe_of") == opt_int32_field(o, "dupe_of")) by {
        assert(BUG_FIELDS@[30] == "dupe_of");
    }
    assert(texts_field(p, "target_release") == texts_field(o, "target_release")) by {
        assert(BUG_FIELDS@[31] == "target_release");
    }
    assert(int64_field(p, "actual_time") == int64_field(o, "actual_time")) by {
        assert(BUG_FIELDS@[32] == "actual_time");
    }
    assert(texts_field(p, "component") == texts_field(o, "component")) by {
        assert(BUG_FIELDS@[33] == "component");
    }
    assert(bool_field(p, "is_cc_accessible") == bool_field(o, "is_cc_accessible")) by {
        assert(BUG_FIELDS@[34] == "is_cc_accessible");
    }
    assert(texts_field(p, "version") == texts_field(o, "version")) by {
        assert(BUG_FIELDS@[35] == "version");
    }
    assert(texts_field(p, "keywords") == texts_field(o, "keywords")) by {
        assert(BUG_FIELDS@[36] == "keywords");
    }
    assert(int32s_field(p, "depends_on") == int32s_field(o, "depends_on")) by {
        assert(BUG_FIELDS@[37] == "depends_on");
    }
    assert(int32s_field(p, "blocks") == int32s_field(o, "blocks")) by {
        assert(BUG_FIELDS@[38] == "blocks");
    }
    assert(texts_field(p, "see_also") == texts_field(o, "see_also")) by {
        assert(BUG_FIELDS@[39] == "see_also");
    }
    assert(texts_field(p, "groups") == texts_field(o, "groups")) by {
        assert(BUG_FIELDS@[40] == "groups");
    }
    assert(opt_text_field(p, "deadline") == opt_text_field(o, "deadline")) by {
        assert(BUG_FIELDS@[41] == "deadline");
    }
    assert(opt_text_field(p, "update_token") == opt_text_field(o, "update_token")) by {
        assert(BUG_FIELDS@[42] == "update_token");
    }
    assert(opt_int64_field(p, "work_time") == opt_int64_field(o, "work_time")) by {
        assert(BUG_FIELDS@[43] == "work_time");
    }
    assert(opt_flags_field(p, "flags") == opt_flags_field(o, "flags")) by {
        assert(BUG_FIELDS@[44] == "flags");
    }
    assert(opt_texts_field(p, "tags") == opt_texts_field(o, "tags")) by {
        assert(BUG_FIELDS@[45] == "tags");
    }
    assert(opt_texts_field(p, "dependent_products") == opt_texts_field(o, "dependent_products")) by {
        assert(BUG_FIELDS@[46] == "dependent_products");
    }
}

/// A member under a key that is none of a bug's field names changes
/// nothing in how the bug is read: the same failure, or the same fields.
/// Only `extra` differs, which keeps the member.
pub proof fn lemma_bug_tolerates_other_member(o: Members, key: Seq<char>, value: JsonView)
    requires
        !names_of(BUG_FIELDS@).contains(key),
    ensures
        decoded_bug(JsonView::Object(o.push((key, value)))) == match decoded_bug(
            JsonView::Object(o),
        ) {
            Err(e) => Err::<BugView, DecodeError>(e),
            Ok(bug) => Ok(
                BugView { extra: others(o.push((key, value)), names_of(BUG_FIELDS@)), ..bug },
            ),
        },
{
    let names = names_of(BUG_FIELDS@);
    assert forall|i: int| 0 <= i < BUG_FIELDS@.len() implies member(
        o,
        #[trigger] BUG_FIELDS@[i]@,
    ) == member(o.push((key, value)), BUG_FIELDS@[i]@) by {
        assert(names[i] == BUG_FIELDS@[i]@);
        lemma_member_push(o, (key, value), BUG_FIELDS@[i]@);
    }
    lemma_bug_reads_named_members(o, o.push((key, value)));
}

/// What a bug keeps in `extra` under a key that is none of its field
/// names is what the object holds under that key.
pub proof fn lemma_bug_keeps_other_members(o: Members, key: Seq<char>)
    requires
        !names_of(BUG_FIELDS@).contains(key),
        decoded_bug(JsonView::Object(o)) is Ok,
    ensures
        member(decoded_bug(JsonView::Object(o))->Ok_0.extra, key) == member(o, key),
{
    lemma_member_of_others(o, names_of(BUG_FIELDS@), key);
}

/// Whether `name` is a field of a bug that a reply may leave out.
pub open spec fn optional_bug_field(name: Seq<char>) -> bool {
    name == "docs_contact_detail"@
    || name == "qa_contact_detail"@
    || name == "dupe_of"@
    || name == "deadline"@
    || name == "update_token"@
    || name == "work_time"@
    || name == "flags"@
    || name == "tags"@
    || name == "dependent_products"@
}

/// A field that a reply may leave out is absent in the bug that is read
/// where the object has no member under its name.
pub proof fn lemma_bug_field_absent(o: Members)
    requires
        decoded_bug(JsonView::Object(o)) is Ok,
    ensures
        member(o, "docs_contact_detail"@) is None ==> decoded_bug(JsonView::Object(o))->Ok_0.docs_contact_detail is None,
        member(o, "qa_contact_detail"@) is None ==> decoded_bug(JsonView::Object(o))->Ok_0.qa_contact_detail is None,
        member(o, "dupe_of"@) is None ==> decoded_bug(JsonView::Object(o))->Ok_0.dupe_of is None,
        member(o, "deadline"@) is None ==> decoded_bug(JsonView::Object(o))->Ok_0.deadline is None,
        member(o, "update_token"@) is None ==> decoded_bug(JsonView::Object(o))->Ok_0.update_token is None,
        member(o, "work_time"@) is None ==> decoded_bug(JsonView::Object(o))->Ok_0.work_time is None,
        member(o, "flags"@) is None ==> decoded_bug(JsonView::Object(o))->Ok_0.flags is None,
        member(o, "tags"@) is None ==> decoded_bug(JsonView::Object(o))->Ok_0.tags is None,
        member(o, "dependent_products"@) is None ==> decoded_bug(JsonView::Object(o))->Ok_0.dependent_products is None,
{
}

/// No field that a reply must hold shares its name with one that it may
/// leave out.
proof fn lemma_optional_is_not_required(name: Seq<char>)
    requires
        optional_bug_field(name),
    ensures
        name != "op_sys"@,
        name != "classification"@,
        name != "id"@,
        name != "url"@,
        name != "creator"@,
        name != "creator_detail"@,
        name != "summary"@,
        name != "status"@,
        name != "estimated_time"@,
        name != "target_milestone"@,
        name != "cc"@,
        name != "cc_detail"@,
        name != "is_open"@,
        name != "is_creator_accessible"@,
        name != "docs_contact"@,
        name != "assigned_to"@,
        name != "assigned_to_detail"@,
        name != "resolution"@,
        name != "severity"@,
        name != "product"@,
        name != "platform"@,
        name != "last_change_time"@,
        name != "remaining_time"@,
        name != "priority"@,
        name != "whiteboard"@,
        name != "creation_time"@,
        name != "is_confirmed"@,
        name != "qa_contact"@,
        name != "target_release"@,
        name != "actual_time"@,
        name != "component"@,
        name != "is_cc_accessible"@,
        name != "version"@,
        name != "keywords"@,
        name != "depends_on"@,
        name != "blocks"@,
        name != "see_also"@,
        name != "groups"@,
{
    reveal_strlit("op_sys");
    reveal_strlit("classification");
    reveal_strlit("id");
    reveal_strlit("url");
    reveal_strlit("creator");
    reveal_strlit("creator_detail");
    reveal_strlit("summary");
    reveal_strlit("status");
    reveal_strlit("estimated_time");
    reveal_strlit("target_milestone");
    reveal_strlit("cc");
    reveal_strlit("cc_detail");
    reveal_strlit("is_open");
    reveal_strlit("is_creator_accessible");
    reveal_strlit("docs_contact");
    reveal_strlit("docs_contact_detail");
    reveal_strlit("assigned_to");
    reveal_strlit("assigned_to_detail");
    reveal_strlit("resolution");
    reveal_strlit("severity");
    reveal_strlit("product");
    reveal_strlit("platform");
    reveal_strlit("last_change_time");
    reveal_strlit("remaining_time");
    reveal_strlit("priority");
    reveal_strlit("whiteboard");
    reveal_strlit("creation_time");
    reveal_strlit("is_confirmed");
    reveal_strlit("qa_contact");
    reveal_strlit("qa_contact_detail");
    reveal_strlit("dupe_of");
    reveal_strlit("target_release");
    reveal_strlit("actual_time");
    reveal_strlit("component");
    reveal_strlit("is_cc_accessible");
    reveal_strlit("version");
    reveal_strlit("keywords");
    reveal_strlit("depends_on");
    reveal_strlit("blocks");
    reveal_strlit("see_also");
    reveal_strlit("groups");
    reveal_strlit("deadline");
    reveal_strlit("update_token");
    reveal_strlit("work_time");
    reveal_strlit("flags");
    reveal_strlit("tags");
    reveal_strlit("dependent_products");
    assert(
        name.len() == 19 && name[0] == 'd'
        || name.len() == 17 && name[0] == 'q'
        || name.len() == 7 && name[0] == 'd'
        || name.len() == 8 && name[0] == 'd'
        || name.len() == 12 && name[0] == 'u'
        || name.len() == 9 && name[0] == 'w'
        || name.len() == 5 && name[0] == 'f'
        || name.len() == 4 && name[0] == 't'
        || name.len() == 18 && name[0] == 'd'
    );
    assert("op_sys"@.len() == 6 && "op_sys"@[0] == 'o');
    assert("classification"@.len() == 14 && "classification"@[0] == 'c');
    assert("id"@.len() == 2 && "id"@[0] == 'i');
    assert("url"@.len() == 3 && "url"@[0] == 'u');
    assert("creator"@.len() == 7 && "creator"@[0] == 'c');
    assert("creator_detail"@.len() == 14 && "creator_detail"@[0] == 'c');
    assert("summary"@.len() == 7 && "summary"@[0] == 's');
    assert("status"@.len() == 6 && "status"@[0] == 's');
    assert("estimated_time"@.len() == 14 && "estimated_time"@[0] == 'e');
    assert("target_milestone"@.len() == 16 && "target_milestone"@[0] == 't');
    assert("cc"@.len() == 2 && "cc"@[0] == 'c');
    assert("cc_detail"@.len() == 9 && "cc_detail"@[0] == 'c');
    assert("is_open"@.len() == 7 && "is_open"@[0] == 'i');
    assert("is_creator_accessible"@.len() == 21 && "is_creator_accessible"@[0] == 'i');
    assert("docs_contact"@.len() == 12 && "docs_contact"@[0] == 'd');
    assert("assigned_to"@.len() == 11 && "assigned_to"@[0] == 'a');
    assert("assigned_to_detail"@.len() == 18 && "assigned_to_detail"@[0] == 'a');
    assert("resolution"@.len() == 10 && "resolution"@[0] == 'r');
    assert("severity"@.len() == 8 && "severity"@[0] == 's');
    assert("product"@.len() == 7 && "product"@[0] == 'p');
    assert("platform"@.len() == 8 && "platform"@[0] == 'p');
    assert("last_change_time"@.len() == 16 && "last_change_time"@[0] == 'l');
    assert("remaining_time"@.len() == 14 && "remaining_time"@[0] == 'r');
    assert("priority"@.len() == 8 && "priority"@[0] == 'p');
    assert("whiteboard"@.len() == 10 && "whiteboard"@[0] == 'w');
    assert("creation_time"@.len() == 13 && "creation_time"@[0] == 'c');
    assert("is_confirmed"@.len() == 12 && "is_confirmed"@[0] == 'i');
    assert("qa_contact"@.len() == 10 && "qa_contact"@[0] == 'q');
    assert("target_release"@.len() == 14 && "target_release"@[0] == 't');
    assert("actual_time"@.len() == 11 && "actual_time"@[0] == 'a');
    assert("component"@.len() == 9 && "component"@[0] == 'c');
    assert("is_cc_accessible"@.len() == 16 && "is_cc_accessible"@[0] == 'i');
    assert("version"@.len() == 7 && "version"@[0] == 'v');
    assert("keywords"@.len() == 8 && "keywords"@[0] == 'k');
    assert("depends_on"@.len() == 10 && "depends_on"@[0] == 'd');
    assert("blocks"@.len() == 6 && "blocks"@[0] == 'b');
    assert("see_also"@.len() == 8 && "see_also"@[0] == 's');
    assert("groups"@.len() == 6 && "groups"@[0] == 'g');
}

/// Leaving out a member that a reply may leave out never makes a bug
/// unreadable: where an object is read as a bug, so is the object without
/// its members under that name.
pub proof fn lemma_bug_optional_member_removed(o: Members, name: Seq<char>)
    requires
        optional_bug_field(name),
        decoded_bug(JsonView::Object(o)) is Ok,
    ensures
        decoded_bug(JsonView::Object(others(o, seq![name]))) is Ok,
{
    lemma_optional_is_not_required(name);
    let p = others(o, seq![name]);
    assert forall|key: Seq<char>| seq![name].contains(key) <==> key == name by {
        assert(seq![name][0] == name);
    }
    assert(text_field(p, "op_sys") is Ok) by {
        lemma_member_of_others(o, seq![name], "op_sys"@);
    }
    assert(text_field(p, "classification") is Ok) by {
        lemma_member_of_others(o, seq![name], "classification"@);
    }
    assert(int32_field(p, "id") is Ok) by {
        lemma_member_of_others(o, seq![name], "id"@);
    }
    assert(text_field(p, "url") is Ok) by {
        lemma_member_of_others(o, seq![name], "url"@);
    }
    assert(text_field(p, "creator") is Ok) by {
        lemma_member_of_others(o, seq![name], "creator"@);
    }
    assert(user_field(p, "creator_detail") is Ok) by {
        lemma_member_of_others(o, seq![name], "creator_detail"@);
    }
    assert(text_field(p, "summary") is Ok) by {
        lemma_member_of_others(o, seq![name], "summary"@);
    }
    assert(text_field(p, "status") is Ok) by {
        lemma_member_of_others(o, seq![name], "status"@);
    }
    assert(int64_field(p, "estimated_time") is Ok) by {
        lemma_member_of_others(o, seq![name], "estimated_time"@);
    }
    assert(text_field(p, "target_milestone") is Ok) by {
        lemma_member_of_others(o, seq![name], "target_milestone"@);
    }
    assert(texts_field(p, "cc") is Ok) by {
        lemma_member_of_others(o, seq![name], "cc"@);
    }
    assert(users_field(p, "cc_detail") is Ok) by {
        lemma_member_of_others(o, seq![name], "cc_detail"@);
    }
    assert(bool_field(p, "is_open") is Ok) by {
        lemma_member_of_others(o, seq![name], "is_open"@);
    }
    assert(bool_field(p, "is_creator_accessible") is Ok) by {
        lemma_member_of_others(o, seq![name], "is_creator_accessible"@);
    }
    assert(text_field(p, "docs_contact") is Ok) by {
        lemma_member_of_others(o, seq![name], "docs_contact"@);
    }
    assert(opt_user_field(p, "docs_contact_detail") is Ok) by {
        lemma_member_of_others(o, seq![name], "docs_contact_detail"@);
    }
    assert(text_field(p, "assigned_to") is Ok) by {
        lemma_member_of_others(o, seq![name], "assigned_to"@);
    }
    assert(user_field(p, "assigned_to_detail") is Ok) by {
        lemma_member_of_others(o, seq![name], "assigned_to_detail"@);
    }
    assert(text_field(p, "resolution") is Ok) by {
        lemma_member_of_others(o, seq![name], "resolution"@);
    }
    assert(text_field(p, "severity") is Ok) by {
        lemma_member_of_others(o, seq![name], "severity"@);
    }
    assert(text_field(p, "product") is Ok) by {
        lemma_member_of_others(o, seq![name], "product"@);
    }
    assert(text_field(p, "platform") is Ok) by {
        lemma_member_of_others(o, seq![name], "platform"@);
    }
    assert(text_field(p, "last_change_time") is Ok) by {
        lemma_member_of_others(o, seq![name], "last_change_time"@);
    }
    assert(int64_field(p, "remaining_time") is Ok) by {
        lemma_member_of_others(o, seq![name], "remaining_time"@);
    }
    assert(text_field(p, "priority") is Ok) by {
        lemma_member_of_others(o, seq![name], "priority"@);
    }
    assert(text_field(p, "whiteboard") is Ok) by {
        lemma_member_of_others(o, seq![name], "whiteboard"@);
    }
    assert(text_field(p, "creation_time") is Ok) by {
        lemma_member_of_others(o, seq![name], "creation_time"@);
    }
    assert(bool_field(p, "is_confirmed") is Ok) by {
        lemma_member_of_others(o, seq![name], "is_confirmed"@);
    }
    assert(text_field(p, "qa_contact") is Ok) by {
        lemma_member_of_others(o, seq![name], "qa_contact"@);
    }
    assert(opt_user_field(p, "qa_contact_detail") is Ok) by {
        lemma_member_of_others(o, seq![name], "qa_contact_detail"@);
    }
    assert(opt_int32_field(p, "dupe_of") is Ok) by {
        lemma_member_of_others(o, seq![name], "dupe_of"@);
    }
    assert(texts_field(p, "target_release") is Ok) by {
        lemma_member_of_others(o, seq![name], "target_release"@);
    }
    assert(int64_field(p, "actual_time") is Ok) by {
        lemma_member_of_others(o, seq![name], "actual_time"@);
    }
    assert(texts_field(p, "component") is Ok) by {
        lemma_member_of_others(o, seq![name], "component"@);
    }
    assert(bool_field(p, "is_cc_accessible") is Ok) by {
        lemma_member_of_others(o, seq![name], "is_cc_accessible"@);
    }
    assert(texts_field(p, "version") is Ok) by {
        lemma_member_of_others(o, seq![name], "version"@);
    }
    assert(texts_field(p, "keywords") is Ok) by {
        lemma_member_of_others(o, seq![name], "keywords"@);
    }
    assert(int32s_field(p, "depends_on") is Ok) by {
        lemma_member_of_others(o, seq![name], "depends_on"@);
    }
    assert(int32s_field(p, "blocks") is Ok) by {
        lemma_member_of_others(o, seq![name], "blocks"@);
    }
    assert(texts_field(p, "see_also") is Ok) by {
        lemma_member_of_others(o, seq![name], "see_also"@);
    }
    assert(texts_field(p, "groups") is Ok) by {
        lemma_member_of_others(o, seq![name], "groups"@);
    }
    assert(opt_text_field(p, "deadline") is Ok) by {
        lemma_member_of_others(o, seq![name], "deadline"@);
    }
    assert(opt_text_field(p, "update_token") is Ok) by {
        lemma_member_of_others(o, seq![name], "update_token"@);
    }
    assert(opt_int64_field(p, "work_time") is Ok) by {
        lemma_member_of_others(o, seq![name], "work_time"@);
    }
    assert(opt_flags_field(p, "flags") is Ok) by {
        lemma_member_of_others(o, seq![name], "flags"@);
    }
    assert(opt_texts_field(p, "tags") is Ok) by {
        lemma_member_of_others(o, seq![name], "tags"@);
    }
    assert(opt_texts_field(p, "dependent_products") is Ok) by {
        lemma_member_of_others(o, seq![name], "dependent_products"@);
    }
}

} // verus!
