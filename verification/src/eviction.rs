//! The eviction sweep's decisions. The caller keeps time and deletes the
//! files; what to delete, and what a deletion's outcome does to the store, is
//! decided here.

use crate::ledger::ClientAddr;
use crate::state::{candidates_view, MediaType, MediaViewState, StoreView};
use crate::text::joined;
use crate::time::{Span, Timestamp};
use vstd::prelude::*;

verus! {

/// Seconds between two sweeps.
pub const SWEEP_INTERVAL_SECS: u64 = 1;

/// Seconds after which an item is stale.
pub const DELETION_THRESHOLD_SECS: u64 = 10;

/// How the deletion of a backing file ended.
#[derive(Clone, Copy, Debug, PartialEq, Eq, Structural)]
pub enum DeleteOutcome {
    /// The file is gone.
    Deleted,
    /// The file could not be deleted.
    Failed,
}

/// The age above which an item is stale.
pub open spec fn threshold() -> Span {
    Span { secs: DELETION_THRESHOLD_SECS, nanos: 0 }
}

/// Where the file stored under `filename` lies.
pub open spec fn backing_path(filename: Seq<char>) -> Seq<char> {
    "uploads/"@ + filename
}

/// The store after the deletion of `filename`'s backing file ended in
/// `outcome`: a deleted file leaves the store, one that could not be deleted
/// is quarantined.
pub open spec fn settled(store: StoreView, filename: Seq<char>, outcome: DeleteOutcome) -> StoreView {
    match outcome {
        DeleteOutcome::Deleted => store.remove_file(filename),
        DeleteOutcome::Failed => store.mark_for_deletion(filename),
    }
}

/// The age above which an item is stale.
pub fn deletion_threshold() -> (limit: Span)
    ensures
        limit == threshold(),
{
    Span::from_secs(DELETION_THRESHOLD_SECS)
}

/// Where the file stored under `filename` lies.
pub fn backing_file(filename: &str) -> (path: String)
    ensures
        path@ == backing_path(filename@),
{
    let path = joined("uploads/", filename, "");
    assert(path@ =~= backing_path(filename@)) by {
        reveal_strlit("");
    }
    path
}

/// First step of a sweep at `now`: the files whose backing file is to be
/// deleted.
pub fn sweep_candidates(state: &MediaViewState, now: Timestamp) -> (files: Vec<
    (String, MediaType),
>)
    ensures
        candidates_view(files@) == state@.stale_candidates(now, threshold()),
{
    state.stale_candidates_at(now, deletion_threshold())
}

/// Last step of a sweep, once for each candidate: brings the store in line
/// with how the deletion of `filename`'s backing file ended. A name that the
/// store no longer holds changes nothing.
pub fn settle(state: &mut MediaViewState, filename: &str, outcome: DeleteOutcome)
    ensures
        final(state)@ == settled(old(state)@, filename@, outcome),
{
    match outcome {
        DeleteOutcome::Deleted => state.remove_file_from_state(filename),
        DeleteOutcome::Failed => state.mark_for_deletion(filename),
    }
}

/// A candidate whose file could not be deleted stays in the media slot,
/// flagged, is served to no viewer, and is not a candidate again.
pub proof fn lemma_failed_delete_quarantines(
    store: StoreView,
    now: Timestamp,
    limit: Span,
    later: Timestamp,
    viewer: ClientAddr,
)
    requires
        store.media_is_stale(now, limit),
    ensures
        store.stale_candidates(now, limit) == seq![
            (store.media->0.filename, store.media->0.media_type),
        ],
        settled(store, store.media->0.filename, DeleteOutcome::Failed).media is Some,
        settled(store, store.media->0.filename, DeleteOutcome::Failed).media->0.marked_for_deletion,
        settled(store, store.media->0.filename, DeleteOutcome::Failed).media->0.filename
            == store.media->0.filename,
        settled(store, store.media->0.filename, DeleteOutcome::Failed).served_to(viewer) is None,
        settled(store, store.media->0.filename, DeleteOutcome::Failed).stale_candidates(
            later,
            limit,
        ) == Seq::<(Seq<char>, MediaType)>::empty(),
{
}

/// A candidate whose file was deleted leaves the media slot together with
/// its views, and nothing is served until the next upload.
pub proof fn lemma_deleted_candidate_is_gone(
    store: StoreView,
    now: Timestamp,
    limit: Span,
    viewer: ClientAddr,
)
    requires
        store.media_is_stale(now, limit),
    ensures
        settled(store, store.media->0.filename, DeleteOutcome::Deleted).media is None,
        settled(store, store.media->0.filename, DeleteOutcome::Deleted).served_to(viewer) is None,
        forall|who: ClientAddr|
            !settled(store, store.media->0.filename, DeleteOutcome::Deleted).has_viewed(
                store.media->0.filename,
                who,
            ),
{
}

/// An item replaced before it went stale is never a candidate: only the
/// item in the media slot is ever listed.
pub proof fn lemma_only_the_slot_is_swept(store: StoreView, now: Timestamp, limit: Span)
    ensures
        store.stale_candidates(now, limit).len() <= 1,
        forall|i: int|
            0 <= i < store.stale_candidates(now, limit).len() ==> store.tracks_media(
                (#[trigger] store.stale_candidates(now, limit)[i]).0,
            ),
{
}

} // verus!
