//! Read-modify-write of hub records in an expiring key/value store.
//!
//! The store is reached over the network by the caller, which reads a
//! record, then its remaining lifetime, hands both to [`decide_mutation`] and
//! writes back what it returns with a "only if still present" write. The
//! sequence is not atomic: two concurrent mutations of one hub may lose one
//! of the two edits (last write wins), while the lifetime stays intact.
use crate::error::AppError;
use crate::hub::{edited, fresh_hub, Edit, EditView, Hub, HubView};
use crate::time::{Timestamp, HUB_TTL_SECS};
use vstd::prelude::*;

verus! {

/// Remaining lifetime that the store reports for an absent key.
pub const TTL_MISSING: i64 = -2;

pub open spec fn opt_view(h: Option<Hub>) -> Option<HubView> {
    match h {
        Some(h) => Some(h@),
        None => None,
    }
}

/// The decision of a mutation, given the record read (if any), the remaining
/// lifetime read after it, and the edit: the record and lifetime to write
/// back, or the failure.
pub open spec fn mutation_decision(current: Option<HubView>, ttl: int, e: EditView) -> Result<
    (HubView, int),
    AppError,
> {
    match current {
        None => Err(AppError::NotFound),
        Some(h) => if ttl > 0 {
            Ok((edited(h, e), ttl))
        } else if ttl == TTL_MISSING {
            Err(AppError::NotFound)
        } else {
            Err(AppError::Expired)
        },
    }
}

/// Decides a mutation. The lifetime handed back is the one read, never reset
/// to a full hub lifetime; nothing is written once it has run out.
pub fn decide_mutation(current: Option<Hub>, ttl: i64, edit: Edit) -> (r: Result<(Hub, u64), AppError>)
    ensures
        match (r, mutation_decision(opt_view(current), ttl as int, edit@)) {
            (Ok((h, t)), Ok((hv, tv))) => h@ == hv && t == tv,
            (Err(e), Err(ev)) => e == ev,
            _ => false,
        },
{
    match current {
        None => Err(AppError::NotFound),
        Some(hub) => {
            if ttl > 0 {
                Ok((crate::hub::apply_edit(hub, edit), ttl as u64))
            } else if ttl == TTL_MISSING {
                Err(AppError::NotFound)
            } else {
                Err(AppError::Expired)
            }
        },
    }
}

/// Result of a conditional write-back: a key that vanished since it was read
/// leaves the write undone, and the hub counts as not found.
pub open spec fn write_back_result(stored: bool) -> Result<(), AppError> {
    if stored {
        Ok(())
    } else {
        Err(AppError::NotFound)
    }
}

pub fn write_back_outcome(stored: bool) -> (r: Result<(), AppError>)
    ensures
        r == write_back_result(stored),
{
    if stored {
        Ok(())
    } else {
        Err(AppError::NotFound)
    }
}

/// Result of creating a record that must not exist yet.
pub open spec fn create_result(stored: bool) -> Result<(), AppError> {
    if stored {
        Ok(())
    } else {
        Err(AppError::Conflict)
    }
}

pub fn create_outcome(stored: bool) -> (r: Result<(), AppError>)
    ensures
        r == create_result(stored),
{
    if stored {
        Ok(())
    } else {
        Err(AppError::Conflict)
    }
}

/// Result of reading a hub.
pub open spec fn read_result(current: Option<HubView>) -> Result<HubView, AppError> {
    match current {
        Some(h) => Ok(h),
        None => Err(AppError::NotFound),
    }
}

/// A hub as read from the store, or `NotFound`.
pub fn get_hub(current: Option<Hub>) -> (r: Result<Hub, AppError>)
    ensures
        match (r, read_result(opt_view(current))) {
            (Ok(h), Ok(hv)) => h@ == hv,
            (Err(e), Err(ev)) => e == ev,
            _ => false,
        },
{
    match current {
        Some(h) => Ok(h),
        None => Err(AppError::NotFound),
    }
}

// A model of the store, to state what a sequence of calls does.
/// One stored record with its remaining lifetime in seconds.
pub struct Entry {
    pub record: HubView,
    pub ttl: int,
}

/// The store's contents at one moment, by key.
pub struct StoreModel {
    pub entries: Map<Seq<char>, Entry>,
}

/// `GET key`.
pub open spec fn stored_record(s: StoreModel, k: Seq<char>) -> Option<HubView> {
    if s.entries.contains_key(k) {
        Some(s.entries[k].record)
    } else {
        None
    }
}

/// `TTL key`.
pub open spec fn remaining_ttl(s: StoreModel, k: Seq<char>) -> int {
    if s.entries.contains_key(k) {
        s.entries[k].ttl
    } else {
        TTL_MISSING as int
    }
}

/// `SET key value EX ttl XX`: writes only over a present key.
pub open spec fn set_if_present(s: StoreModel, k: Seq<char>, record: HubView, ttl: int) -> (
    StoreModel,
    bool,
) {
    if s.entries.contains_key(k) {
        (StoreModel { entries: s.entries.insert(k, Entry { record, ttl }) }, true)
    } else {
        (s, false)
    }
}

/// `SET key value EX ttl NX`: writes only where the key is absent.
pub open spec fn set_if_absent(s: StoreModel, k: Seq<char>, record: HubView, ttl: int) -> (
    StoreModel,
    bool,
) {
    if s.entries.contains_key(k) {
        (s, false)
    } else {
        (StoreModel { entries: s.entries.insert(k, Entry { record, ttl }) }, true)
    }
}

/// A whole mutation against the store: read, read the lifetime, decide, write.
pub open spec fn mutate_in_store(s: StoreModel, k: Seq<char>, e: EditView) -> (
    StoreModel,
    Result<(), AppError>,
) {
    match mutation_decision(stored_record(s, k), remaining_ttl(s, k), e) {
        Err(err) => (s, Err(err)),
        Ok((record, ttl)) => {
            let (s2, stored) = set_if_present(s, k, record, ttl);
            (s2, write_back_result(stored))
        },
    }
}

/// Creating a hub record under a key, for a full lifetime.
pub open spec fn create_in_store(s: StoreModel, k: Seq<char>, record: HubView) -> (
    StoreModel,
    Result<(), AppError>,
) {
    let (s2, stored) = set_if_absent(s, k, record, HUB_TTL_SECS as int);
    (s2, create_result(stored))
}

/// A hub created under an unused key reads back with no files and an empty
/// whiteboard.
pub proof fn lemma_created_hub_starts_empty(
    s: StoreModel,
    k: Seq<char>,
    id: Seq<char>,
    created_at: Timestamp,
)
    requires
        !s.entries.contains_key(k),
    ensures
        ({
            let (s2, r) = create_in_store(s, k, fresh_hub(id, created_at));
            &&& r == Ok::<(), AppError>(())
            &&& read_result(stored_record(s2, k)) is Ok
            &&& read_result(stored_record(s2, k))->Ok_0.files == Seq::<crate::hub::FileView>::empty()
            &&& read_result(stored_record(s2, k))->Ok_0.whiteboard == Seq::<
                crate::hub::PathView,
            >::empty()
            &&& remaining_ttl(s2, k) == HUB_TTL_SECS
        }),
{
}

/// Setting the text of a live hub, then reading it, gives that text; the
/// remaining lifetime is never raised, whether or not the call succeeds.
pub proof fn lemma_set_text_then_read(s: StoreModel, k: Seq<char>, text: Seq<char>)
    ensures
        ({
            let (s2, r) = mutate_in_store(s, k, EditView::SetText(text));
            &&& (s.entries.contains_key(k) && s.entries[k].ttl > 0) ==> r == Ok::<(), AppError>(())
            &&& r is Ok ==> read_result(stored_record(s2, k)) is Ok
                && read_result(stored_record(s2, k))->Ok_0.content == text
            &&& remaining_ttl(s2, k) <= remaining_ttl(s, k)
        }),
{
}

/// Every mutation carries the remaining lifetime over unchanged and touches
/// no other key.
pub proof fn lemma_mutation_keeps_ttl(s: StoreModel, k: Seq<char>, e: EditView)
    ensures
        ({
            let (s2, r) = mutate_in_store(s, k, e);
            &&& remaining_ttl(s2, k) == remaining_ttl(s, k)
            &&& s2.entries.dom() == s.entries.dom()
            &&& forall|other: Seq<char>| other != k ==> #[trigger] s2.entries.get(other) == s.entries.get(other)
        }),
{
}

/// A mutation of a hub whose lifetime has run out (evicted, or no time left)
/// fails with `NotFound` or `Expired` and leaves the store as it was: an
/// evicted key is not brought back.
pub proof fn lemma_elapsed_hub_not_resurrected(s: StoreModel, k: Seq<char>, e: EditView)
    requires
        !s.entries.contains_key(k) || s.entries[k].ttl <= 0,
    ensures
        ({
            let (s2, r) = mutate_in_store(s, k, e);
            &&& r == Err::<(), AppError>(AppError::NotFound) || r == Err::<(), AppError>(AppError::Expired)
            &&& s2 == s
        }),
{
}

} // verus!
