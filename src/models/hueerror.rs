//! The answer to a command: success and error entries in one list.
use vstd::prelude::*;

use crate::json::{member, member_views, Json};
pub use crate::models::createuser::ErrorDetail;
use crate::models::createuser::{detail_under, error_detail_of};

verus! {

/// What a success entry reports: each affected resource path with the value
/// the bridge accepted for it.
pub type HueSuccessDetail = Vec<(String, Json)>;

/// One entry of the answer to a command.
#[derive(Debug)]
pub enum HueResponseEntry {
    Error { error: ErrorDetail },
    Success { success: HueSuccessDetail },
}

/// The answer to a command, entry by entry, in the order received.
pub type HueResponse = Vec<HueResponseEntry>;

/// A command entry: an object whose `error` member is an error detail, or
/// else whose `success` member is an object.
pub open spec fn hue_response_entry_of(j: Json) -> Option<HueResponseEntry> {
    match j {
        Json::Object(ms) => {
            let vs = member_views(ms@);
            let error = detail_under(vs, "error"@, |x: Json| error_detail_of(x));
            if error is Some {
                Some(HueResponseEntry::Error { error: error->0 })
            } else {
                match member(vs, "success"@) {
                    Some(Json::Object(s)) => Some(HueResponseEntry::Success { success: s }),
                    _ => None,
                }
            }
        },
        _ => None,
    }
}

/// The entries of a list, each read as a command entry; `None` if any of
/// them is not one.
pub open spec fn hue_entries_of(items: Seq<Json>) -> Option<Seq<HueResponseEntry>>
    decreases items.len(),
{
    if items.len() == 0 {
        Some(Seq::empty())
    } else {
        match (hue_entries_of(items.drop_last()), hue_response_entry_of(items.last())) {
            (Some(es), Some(e)) => Some(es.push(e)),
            _ => None,
        }
    }
}

/// The answer to a command: a JSON array of entries.
pub open spec fn hue_response_of(j: Json) -> Option<Seq<HueResponseEntry>> {
    match j {
        Json::Array(items) => hue_entries_of(items@),
        _ => None,
    }
}

proof fn lemma_hue_entries_prefix_fails(items: Seq<Json>, k: int)
    requires
        0 <= k <= items.len(),
        hue_entries_of(items.take(k)) is None,
    ensures
        hue_entries_of(items) is None,
    decreases items.len() - k,
{
    if k < items.len() {
        assert(items.take(k + 1).drop_last() =~= items.take(k));
        lemma_hue_entries_prefix_fails(items, k + 1);
    } else {
        assert(items.take(k) =~= items);
    }
}

impl HueResponseEntry {
    /// Reads a command entry, taking the value apart.
    pub fn from_json(j: Json) -> (r: Option<HueResponseEntry>)
        ensures
            r == hue_response_entry_of(j),
    {
        match j {
            Json::Object(mut ms) => {
                let error = match crate::json::find_member(&ms, "error") {
                    Some(i) => ErrorDetail::from_json(&ms[i].1),
                    None => None,
                };
                if let Some(error) = error {
                    return Some(HueResponseEntry::Error { error });
                }
                match crate::json::find_member(&ms, "success") {
                    Some(i) => {
                        let (_, value) = ms.remove(i);
                        match value {
                            Json::Object(s) => Some(HueResponseEntry::Success { success: s }),
                            _ => None,
                        }
                    },
                    None => None,
                }
            },
            _ => None,
        }
    }

    /// Whether this is a success entry that reports `path`.
    pub fn reports_success_for(&self, path: &str) -> (r: bool)
        ensures
            r == (self matches HueResponseEntry::Success { success } && member(
                member_views(success@),
                path@,
            ) is Some),
    {
        match self {
            HueResponseEntry::Success { success } => crate::json::find_member(success, path).is_some(),
            HueResponseEntry::Error { .. } => false,
        }
    }
}

/// Reads the answer to a command, keeping every entry in order.
pub fn hue_response_from_json(j: Json) -> (r: Option<HueResponse>)
    ensures
        r is Some <==> hue_response_of(j) is Some,
        r matches Some(v) ==> v@ == hue_response_of(j)->0,
{
    match j {
        Json::Array(items) => {
            let ghost all = items@;
            let mut rest = items;
            let n = rest.len();
            let mut out: Vec<HueResponseEntry> = Vec::new();
            let mut i: usize = 0;
            while rest.len() > 0
                invariant
                    i <= all.len(),
                    rest@ == all.skip(i as int),
                    i + rest@.len() == all.len(),
                    all.len() == n,
                    hue_entries_of(all.take(i as int)) == Some(out@),
                    hue_response_of(j) == hue_entries_of(all),
                decreases rest@.len(),
            {
                assert(all.take(i as int + 1).drop_last() =~= all.take(i as int));
                let item = rest.remove(0);
                assert(rest@ =~= all.skip(i as int + 1));
                match HueResponseEntry::from_json(item) {
                    Some(e) => {
                        out.push(e);
                    },
                    None => {
                        proof {
                            lemma_hue_entries_prefix_fails(all, i as int + 1);
                        }
                        return None;
                    },
                }
                i = i + 1;
            }
            assert(all.take(i as int) =~= all);
            Some(out)
        },
        _ => None,
    }
}

/// Whether any entry of an answer is a success entry that reports `path`.
pub fn reports_success(response: &HueResponse, path: &str) -> (r: bool)
    ensures
        r == exists|i: int|
            0 <= i < response@.len() && (#[trigger] response@[i] matches HueResponseEntry::Success {
                success,
            } && member(member_views(success@), path@) is Some),
{
    let mut i: usize = 0;
    while i < response.len()
        invariant
            i <= response@.len(),
            forall|k: int|
                0 <= k < i ==> !(#[trigger] response@[k] matches HueResponseEntry::Success {
                    success,
                } && member(member_views(success@), path@) is Some),
        decreases response@.len() - i,
    {
        if response[i].reports_success_for(path) {
            return true;
        }
        i = i + 1;
    }
    false
}

} // verus!
