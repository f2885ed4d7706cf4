//! What holds of the slot store over whole runs of operations.

use crate::ledger::ClientAddr;
use crate::state::{MediaInfoView, SoundInfoView, StoreView};
use vstd::prelude::*;

verus! {

/// One operation on the store.
pub enum StoreOp {
    SetMedia(MediaInfoView),
    SetSound(SoundInfoView),
    MarkViewed(Seq<char>, ClientAddr),
    MarkForDeletion(Seq<char>),
    RemoveFile(Seq<char>),
}

/// The store after one operation.
pub open spec fn apply(store: StoreView, op: StoreOp) -> StoreView {
    match op {
        StoreOp::SetMedia(media) => store.set_media(media),
        StoreOp::SetSound(sound) => store.set_sound(sound),
        StoreOp::MarkViewed(filename, viewer) => store.mark_viewed(filename, viewer),
        StoreOp::MarkForDeletion(filename) => store.mark_for_deletion(filename),
        StoreOp::RemoveFile(filename) => store.remove_file(filename),
    }
}

/// The store after a run of operations, first to last.
pub open spec fn apply_all(store: StoreView, ops: Seq<StoreOp>) -> StoreView
    decreases ops.len(),
{
    if ops.len() == 0 {
        store
    } else {
        apply(apply_all(store, ops.drop_last()), ops.last())
    }
}

/// Whether no operation of the run puts an item in the media slot.
pub open spec fn keeps_media_slot(ops: Seq<StoreOp>) -> bool {
    forall|i: int| 0 <= i < ops.len() ==> !(#[trigger] ops[i] is SetMedia)
}

/// The media slot is empty, or holds `filename` already consumed by `viewer`.
spec fn consumed_or_gone(store: StoreView, filename: Seq<char>, viewer: ClientAddr) -> bool {
    store.media is None || (store.media->0.filename == filename && store.has_viewed(
        filename,
        viewer,
    ))
}

/// The media slot is empty, or holds `filename` quarantined.
spec fn quarantined_or_gone(store: StoreView, filename: Seq<char>) -> bool {
    store.media is None || (store.media->0.filename == filename
        && store.media->0.marked_for_deletion)
}

/// Once a viewer has been served an item and marked it viewed, the viewer is
/// served nothing for as long as no item is put in the media slot, whatever
/// else happens to the store.
pub proof fn lemma_served_at_most_once(store: StoreView, viewer: ClientAddr, ops: Seq<StoreOp>)
    requires
        store.served_to(viewer) is Some,
        keeps_media_slot(ops),
    ensures
        store.newly_viewed(store.served_to(viewer)->0.filename, viewer),
        apply_all(
            store.mark_viewed(store.served_to(viewer)->0.filename, viewer),
            ops,
        ).served_to(viewer) is None,
{
    let filename = store.served_to(viewer)->0.filename;
    lemma_consumed_stays(store.mark_viewed(filename, viewer), filename, viewer, ops);
}

proof fn lemma_consumed_stays(
    store: StoreView,
    filename: Seq<char>,
    viewer: ClientAddr,
    ops: Seq<StoreOp>,
)
    requires
        consumed_or_gone(store, filename, viewer),
        keeps_media_slot(ops),
    ensures
        consumed_or_gone(apply_all(store, ops), filename, viewer),
    decreases ops.len(),
{
    if ops.len() > 0 {
        let earlier = ops.drop_last();
        assert forall|i: int| 0 <= i < earlier.len() implies !(#[trigger] earlier[i] is SetMedia) by {
            assert(earlier[i] == ops[i]);
        }
        lemma_consumed_stays(store, filename, viewer, earlier);
        assert(!(ops[ops.len() - 1] is SetMedia));
    }
}

/// Whether no operation of the run removes `filename` from the store.
pub open spec fn keeps_file(ops: Seq<StoreOp>, filename: Seq<char>) -> bool {
    forall|i: int| 0 <= i < ops.len() ==> #[trigger] ops[i] != StoreOp::RemoveFile(filename)
}

/// A name that a viewer has consumed is not served to that viewer again, not
/// even after other uploads, for as long as the name is not removed from the
/// store: whatever the viewer is served then has another name.
pub proof fn lemma_consumed_name_not_served_again(
    store: StoreView,
    viewer: ClientAddr,
    ops: Seq<StoreOp>,
)
    requires
        store.served_to(viewer) is Some,
        keeps_file(ops, store.served_to(viewer)->0.filename),
    ensures
        ({
            let filename = store.served_to(viewer)->0.filename;
            let later = apply_all(store.mark_viewed(filename, viewer), ops);
            later.has_viewed(filename, viewer) && (later.served_to(viewer) is Some
                ==> later.served_to(viewer)->0.filename != filename)
        }),
{
    let filename = store.served_to(viewer)->0.filename;
    lemma_view_stays(store.mark_viewed(filename, viewer), filename, viewer, ops);
}

proof fn lemma_view_stays(
    store: StoreView,
    filename: Seq<char>,
    viewer: ClientAddr,
    ops: Seq<StoreOp>,
)
    requires
        store.has_viewed(filename, viewer),
        keeps_file(ops, filename),
    ensures
        apply_all(store, ops).has_viewed(filename, viewer),
    decreases ops.len(),
{
    if ops.len() > 0 {
        let earlier = ops.drop_last();
        assert forall|i: int| 0 <= i < earlier.len() implies #[trigger] earlier[i]
            != StoreOp::RemoveFile(filename) by {
            assert(earlier[i] == ops[i]);
        }
        lemma_view_stays(store, filename, viewer, earlier);
        assert(ops[ops.len() - 1] != StoreOp::RemoveFile(filename));
    }
}

/// A quarantined item is served to no viewer.
pub proof fn lemma_quarantined_is_not_served(store: StoreView, viewer: ClientAddr)
    requires
        store.media is Some,
        store.media->0.marked_for_deletion,
    ensures
        store.served_to(viewer) is None,
{
}

/// The ledger is pruned by removal alone: a recorded view of `filename`
/// outlives every operation but the removal of `filename` itself. An upload
/// that replaces the item leaves the views of the replaced name in place.
pub proof fn lemma_views_outlive_all_but_removal(
    store: StoreView,
    op: StoreOp,
    filename: Seq<char>,
    viewer: ClientAddr,
)
    requires
        store.has_viewed(filename, viewer),
        op != StoreOp::RemoveFile(filename),
    ensures
        apply(store, op).has_viewed(filename, viewer),
{
}

/// Views are kept viewer by viewer: after one viewer has consumed the item,
/// every other viewer who has not is still served it.
pub proof fn lemma_view_hides_from_one_viewer(store: StoreView, viewer: ClientAddr, other: ClientAddr)
    requires
        store.served_to(viewer) is Some,
        other != viewer,
        !store.has_viewed(store.served_to(viewer)->0.filename, other),
    ensures
        store.mark_viewed(store.served_to(viewer)->0.filename, viewer).served_to(other)
            == store.served_to(viewer),
{
}

/// Last write wins: after two items are put in the media slot one after the
/// other, the slot holds the second, and every viewer that has not consumed
/// the second one's name is served the second, never the first.
pub proof fn lemma_last_write_wins(
    store: StoreView,
    first: MediaInfoView,
    second: MediaInfoView,
    viewer: ClientAddr,
)
    ensures
        store.set_media(first).set_media(second).media == Some(second),
        !second.marked_for_deletion && !store.has_viewed(second.filename, viewer)
            ==> store.set_media(first).set_media(second).served_to(viewer) == Some(second),
{
}

/// Marking a view twice: the second mark of the same file by the same viewer
/// is never a first view, and leaves the store as the first mark left it.
pub proof fn lemma_mark_viewed_idempotent(store: StoreView, filename: Seq<char>, viewer: ClientAddr)
    ensures
        !store.mark_viewed(filename, viewer).newly_viewed(filename, viewer),
        store.mark_viewed(filename, viewer).mark_viewed(filename, viewer) == store.mark_viewed(
            filename,
            viewer,
        ),
{
    let once = store.mark_viewed(filename, viewer);
    assert(once.mark_viewed(filename, viewer).viewed =~= once.viewed);
}

/// A mutation that names a file which the media slot does not hold changes
/// nothing.
pub proof fn lemma_stale_name_is_noop(store: StoreView, filename: Seq<char>, viewer: ClientAddr)
    requires
        !store.tracks_media(filename),
    ensures
        store.mark_viewed(filename, viewer) == store,
        store.mark_for_deletion(filename) == store,
        !store.tracks_sound(filename) ==> store.remove_file(filename) == store,
{
}

/// A quarantined item stays tracked and is served to nobody: after the item
/// in the media slot is marked for deletion, the slot still holds it, now
/// flagged, and for as long as no item is put in the slot every viewer is
/// served nothing.
pub proof fn lemma_quarantine_is_permanent(
    store: StoreView,
    filename: Seq<char>,
    viewer: ClientAddr,
    ops: Seq<StoreOp>,
)
    requires
        store.tracks_media(filename),
        keeps_media_slot(ops),
    ensures
        store.mark_for_deletion(filename).tracks_media(filename),
        store.mark_for_deletion(filename).media->0.marked_for_deletion,
        apply_all(store.mark_for_deletion(filename), ops).served_to(viewer) is None,
{
    lemma_quarantine_stays(store.mark_for_deletion(filename), filename, ops);
}

proof fn lemma_quarantine_stays(store: StoreView, filename: Seq<char>, ops: Seq<StoreOp>)
    requires
        quarantined_or_gone(store, filename),
        keeps_media_slot(ops),
    ensures
        quarantined_or_gone(apply_all(store, ops), filename),
    decreases ops.len(),
{
    if ops.len() > 0 {
        let earlier = ops.drop_last();
        assert forall|i: int| 0 <= i < earlier.len() implies !(#[trigger] earlier[i] is SetMedia) by {
            assert(earlier[i] == ops[i]);
        }
        lemma_quarantine_stays(store, filename, earlier);
        assert(!(ops[ops.len() - 1] is SetMedia));
    }
}

} // verus!
