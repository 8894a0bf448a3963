//! Creating a user on the bridge: the request and the answer.
use vstd::prelude::*;

use crate::json::{
    member, member_views, object_text, read_required_integer, read_required_text, required_integer,
    required_text, write_object, Json,
};

verus! {

/// The member of a successful answer.
#[derive(Debug)]
pub struct SuccessDetail {
    pub username: String,
}

/// An error entry as the bridge writes it.
#[derive(Debug)]
pub struct ErrorDetail {
    pub _type: i32,
    pub address: String,
    pub description: String,
}

/// One entry of the answer to a create-user request.
#[derive(Debug)]
pub enum CreateUserEntry {
    Success { success: SuccessDetail },
    Error { error: ErrorDetail },
}

/// The answer to a create-user request: a list of entries.
pub type CreateUserResponse = Vec<CreateUserEntry>;

/// A user of the bridge. A request to create one carries the device type
/// only; the answer carries the user name only.
#[derive(Debug)]
pub struct User {
    devicetype: Option<String>,
    username: Option<String>,
}

/// The username in a success detail: an object with a `username` string.
pub open spec fn success_detail_of(j: Json) -> Option<SuccessDetail> {
    match j {
        Json::Object(ms) => match required_text(member_views(ms@), "username"@) {
            Some(u) => Some(SuccessDetail { username: u }),
            None => None,
        },
        _ => None,
    }
}

/// An error detail: an object with an integer `type` that fits in 32 bits, an
/// `address` and a `description`.
pub open spec fn error_detail_of(j: Json) -> Option<ErrorDetail> {
    match j {
        Json::Object(ms) => {
            let vs = member_views(ms@);
            let t = required_integer(vs, "type"@, i32::MIN as i128, i32::MAX as i128);
            let a = required_text(vs, "address"@);
            let d = required_text(vs, "description"@);
            if t is Some && a is Some && d is Some {
                Some(ErrorDetail { _type: t->0 as i32, address: a->0, description: d->0 })
            } else {
                None
            }
        },
        _ => None,
    }
}

/// The detail under `key` of an entry, read by `read`.
pub open spec fn detail_under<T>(vs: Seq<(Seq<char>, Json)>, key: Seq<char>, read: spec_fn(Json) -> Option<T>) -> Option<T> {
    match member(vs, key) {
        Some(x) => read(x),
        None => None,
    }
}

/// A create-user entry: an object whose `success` member is a success
/// detail, or else whose `error` member is an error detail.
pub open spec fn create_user_entry_of(j: Json) -> Option<CreateUserEntry> {
    match j {
        Json::Object(ms) => {
            let vs = member_views(ms@);
            let success = detail_under(vs, "success"@, |x: Json| success_detail_of(x));
            let error = detail_under(vs, "error"@, |x: Json| error_detail_of(x));
            if success is Some {
                Some(CreateUserEntry::Success { success: success->0 })
            } else if error is Some {
                Some(CreateUserEntry::Error { error: error->0 })
            } else {
                None
            }
        },
        _ => None,
    }
}

/// The entries of a list, each read as a create-user entry; `None` if any
/// of them is not one.
pub open spec fn create_user_entries_of(items: Seq<Json>) -> Option<Seq<CreateUserEntry>>
    decreases items.len(),
{
    if items.len() == 0 {
        Some(Seq::empty())
    } else {
        match (create_user_entries_of(items.drop_last()), create_user_entry_of(items.last())) {
            (Some(es), Some(e)) => Some(es.push(e)),
            _ => None,
        }
    }
}

/// The answer to a create-user request: a JSON array of entries.
pub open spec fn create_user_response_of(j: Json) -> Option<Seq<CreateUserEntry>> {
    match j {
        Json::Array(items) => create_user_entries_of(items@),
        _ => None,
    }
}

proof fn lemma_entries_prefix_fails(items: Seq<Json>, k: int)
    requires
        0 <= k <= items.len(),
        create_user_entries_of(items.take(k)) is None,
    ensures
        create_user_entries_of(items) is None,
    decreases items.len() - k,
{
    if k < items.len() {
        assert(items.take(k + 1).drop_last() =~= items.take(k));
        lemma_entries_prefix_fails(items, k + 1);
    } else {
        assert(items.take(k) =~= items);
    }
}

impl SuccessDetail {
    pub fn from_json(j: &Json) -> (r: Option<SuccessDetail>)
        ensures
            r == success_detail_of(*j),
    {
        match j {
            Json::Object(ms) => match read_required_text(ms, "username") {
                Some(u) => Some(SuccessDetail { username: u }),
                None => None,
            },
            _ => None,
        }
    }
}

impl ErrorDetail {
    pub fn from_json(j: &Json) -> (r: Option<ErrorDetail>)
        ensures
            r == error_detail_of(*j),
    {
        match j {
            Json::Object(ms) => {
                let t = read_required_integer(ms, "type", i32::MIN as i128, i32::MAX as i128);
                let a = read_required_text(ms, "address");
                let d = read_required_text(ms, "description");
                match (t, a, d) {
                    (Some(t), Some(a), Some(d)) => Some(
                        ErrorDetail { _type: t as i32, address: a, description: d },
                    ),
                    _ => None,
                }
            },
            _ => None,
        }
    }
}

impl CreateUserEntry {
    pub fn from_json(j: &Json) -> (r: Option<CreateUserEntry>)
        ensures
            r == create_user_entry_of(*j),
    {
        match j {
            Json::Object(ms) => {
                let success = match crate::json::find_member(ms, "success") {
                    Some(i) => SuccessDetail::from_json(&ms[i].1),
                    None => None,
                };
                if let Some(success) = success {
                    return Some(CreateUserEntry::Success { success });
                }
                let error = match crate::json::find_member(ms, "error") {
                    Some(i) => ErrorDetail::from_json(&ms[i].1),
                    None => None,
                };
                match error {
                    Some(error) => Some(CreateUserEntry::Error { error }),
                    None => None,
                }
            },
            _ => None,
        }
    }
}

/// Reads the answer to a create-user request.
pub fn create_user_response_from_json(j: &Json) -> (r: Option<CreateUserResponse>)
    ensures
        r is Some <==> create_user_response_of(*j) is Some,
        r matches Some(v) ==> v@ == create_user_response_of(*j)->0,
{
    match j {
        Json::Array(items) => {
            let mut out: Vec<CreateUserEntry> = Vec::new();
            let mut i: usize = 0;
            while i < items.len()
                invariant
                    i <= items@.len(),
                    create_user_entries_of(items@.take(i as int)) == Some(out@),
                    create_user_response_of(*j) == create_user_entries_of(items@),
                decreases items@.len() - i,
            {
                assert(items@.take(i as int + 1).drop_last() =~= items@.take(i as int));
                match CreateUserEntry::from_json(&items[i]) {
                    Some(e) => {
                        out.push(e);
                    },
                    None => {
                        proof {
                            lemma_entries_prefix_fails(items@, i as int + 1);
                        }
                        return None;
                    },
                }
                i = i + 1;
            }
            assert(items@.take(i as int) =~= items@);
            Some(out)
        },
        _ => None,
    }
}

/// The members that encode a user: the device type, then the user name,
/// each only when present.
pub open spec fn user_fields(devicetype: Option<String>, username: Option<String>) -> Seq<(Seq<char>, Json)> {
    let d = match devicetype {
        Some(s) => seq![("devicetype"@, Json::Str(s))],
        None => Seq::empty(),
    };
    let u = match username {
        Some(s) => seq![("username"@, Json::Str(s))],
        None => Seq::empty(),
    };
    d + u
}

impl User {
    pub closed spec fn devicetype_spec(&self) -> Option<String> {
        self.devicetype
    }

    pub closed spec fn username_spec(&self) -> Option<String> {
        self.username
    }

    pub fn devicetype(&self) -> (r: Option<&str>)
        ensures
            r is Some <==> self.devicetype_spec() is Some,
            r matches Some(s) ==> s@ == self.devicetype_spec()->0@,
    {
        match &self.devicetype {
            Some(s) => Some(s.as_str()),
            None => None,
        }
    }

    pub fn username(&self) -> (r: Option<&str>)
        ensures
            r is Some <==> self.username_spec() is Some,
            r matches Some(s) ==> s@ == self.username_spec()->0@,
    {
        match &self.username {
            Some(s) => Some(s.as_str()),
            None => None,
        }
    }

    /// A user to request: it carries the device type only.
    pub fn with_devicetype(devicetype: &str) -> (r: Self)
        ensures
            r.devicetype_spec() matches Some(d) && d@ == devicetype@,
            r.username_spec() is None,
    {
        User { devicetype: Some(devicetype.to_owned()), username: None }
    }

    /// A created user: it carries the user name only.
    pub fn with_username(username: &str) -> (r: Self)
        ensures
            r.username_spec() matches Some(u) && u@ == username@,
            r.devicetype_spec() is None,
    {
        User { username: Some(username.to_owned()), devicetype: None }
    }

    /// The JSON text of this user: a member for each of the device type and
    /// the user name that is present.
    pub fn to_json_text(&self) -> (r: String)
        ensures
            r@ == object_text(user_fields(self.devicetype_spec(), self.username_spec())),
    {
        let mut ms: Vec<(String, Json)> = Vec::new();
        if let Some(d) = &self.devicetype {
            ms.push(("devicetype".to_owned(), Json::Str(d.clone())));
        }
        if let Some(u) = &self.username {
            ms.push(("username".to_owned(), Json::Str(u.clone())));
        }
        assert(member_views(ms@) =~= user_fields(self.devicetype_spec(), self.username_spec()));
        write_object(&ms)
    }
}

} // verus!
