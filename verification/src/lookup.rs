//! The decision logic of the reference cache-or-fetch lookup: given what
//! the key-value store returned, decide whether the cached value answers
//! the lookup or a network fetch is needed, and given what the fetch
//! returned, decide what to store back and what message to publish.  The
//! store and the fetch themselves are I/O, performed by the surrounding
//! system; only their outcomes pass through here.

use vstd::prelude::*;

use crate::cell::{CellKey, Dup};

verus! {

/// The key of the reference lookup: a timezone, named by its area and
/// location, both taken from the surrounding system's route.
pub struct TimeZoneKey {
    pub area: String,
    pub location: String,
}

/// The mathematical value of a [`TimeZoneKey`].
pub ghost struct TimeZoneKeyView {
    pub area: Seq<char>,
    pub location: Seq<char>,
}

impl View for TimeZoneKey {
    type V = TimeZoneKeyView;

    open spec fn view(&self) -> TimeZoneKeyView {
        TimeZoneKeyView { area: self.area@, location: self.location@ }
    }
}

impl Dup for TimeZoneKey {
    fn dup(&self) -> (r: Self) {
        TimeZoneKey { area: self.area.clone(), location: self.location.clone() }
    }
}

impl CellKey for TimeZoneKey {
    fn key_eq(&self, other: &Self) -> (r: bool) {
        <String as PartialEq>::eq(&self.area, &other.area) && <String as PartialEq>::eq(
            &self.location,
            &other.location,
        )
    }
}

impl TimeZoneKey {
    pub fn new(area: String, location: String) -> (r: Self)
        ensures
            r@.area == area@,
            r@.location == location@,
    {
        TimeZoneKey { area, location }
    }
}

/// What reading the serialized key from the key-value store yielded.
pub enum StoreRead {
    /// No store is available at all.
    Unavailable,
    /// The store holds this value under the key.
    Hit(String),
    /// The store is available but holds nothing under the key.
    Miss,
}

/// What the lookup does next, decided from the store read alone.
pub enum LookupStep {
    /// The lookup is finished with this message; no fetch is needed.
    Done(String),
    /// The store could not answer: fetch, then conclude with
    /// [`conclude_fetch`].
    NeedFetch,
}

/// What the network fetch yielded.
pub enum FetchOutcome {
    /// The fetched result, as the plain string to be cached.
    Fetched(String),
    /// The fetch failed with this error description.
    Failed(String),
}

/// How a fetch concludes: the message to publish, and the raw value to
/// store back under the serialized key, if any.
pub struct FetchConclusion {
    pub message: String,
    pub store_back: Option<String>,
}

/// The message published when no key-value store is available.
pub open spec fn no_storage_msg() -> Seq<char> {
    "No storage found"@
}

/// The message published for a value found in the store.
pub open spec fn cache_msg(val: Seq<char>) -> Seq<char> {
    "[cache] "@ + val
}

/// The message published for a freshly fetched value.
pub open spec fn fetch_msg(res: Seq<char>) -> Seq<char> {
    "[fetch] "@ + res
}

/// The message published when the fetch failed.
pub open spec fn error_msg(e: Seq<char>) -> Seq<char> {
    "Error "@ + e
}

/// Decide from the store read whether the lookup is already answered: a
/// missing store answers it with the no-storage message, a hit answers it
/// with the cached value's message, and only a miss asks for a fetch.
pub fn plan_lookup(read: StoreRead) -> (r: LookupStep)
    ensures
        read is Unavailable ==> (r matches LookupStep::Done(m) && m@ == no_storage_msg()),
        read matches StoreRead::Hit(val) ==> (r matches LookupStep::Done(m) && m@ == cache_msg(
            val@,
        )),
        read is Miss <==> r is NeedFetch,
{
    match read {
        StoreRead::Unavailable => LookupStep::Done("No storage found".to_owned()),
        StoreRead::Hit(val) => LookupStep::Done("[cache] ".to_owned().concat(val.as_str())),
        StoreRead::Miss => LookupStep::NeedFetch,
    }
}

/// Conclude a fetch: a fetched value is stored back verbatim and published
/// with the fetch message; a failure stores nothing and publishes the
/// error message.
pub fn conclude_fetch(outcome: FetchOutcome) -> (r: FetchConclusion)
    ensures
        outcome matches FetchOutcome::Fetched(res) ==> (r.store_back matches Some(s) && s@ == res@
            && r.message@ == fetch_msg(res@)),
        outcome matches FetchOutcome::Failed(e) ==> (r.message@ == error_msg(e@)
            && r.store_back is None),
{
    match outcome {
        FetchOutcome::Fetched(res) => {
            let message = "[fetch] ".to_owned().concat(res.as_str());
            FetchConclusion { message, store_back: Some(res) }
        },
        FetchOutcome::Failed(e) => {
            let message = "Error ".to_owned().concat(e.as_str());
            FetchConclusion { message, store_back: None }
        },
    }
}

} // verus!
