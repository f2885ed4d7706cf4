//! Showing the current item to a viewer: decide under a shared hold on the
//! store what to show, then record the view under an exclusive hold. The
//! store may change between the two steps; the second step re-checks the
//! item's name, so a view is never recorded against an item that has been
//! replaced.

use crate::ledger::ClientAddr;
use crate::state::{MediaInfo, MediaInfoView, MediaViewState, StoreView};
use vstd::prelude::*;

verus! {

/// What a viewer at `addr` is shown: nothing where the address is unknown.
pub open spec fn shown_to(store: StoreView, addr: Option<ClientAddr>) -> Option<MediaInfoView> {
    match addr {
        Some(ip) => store.served_to(ip),
        None => None,
    }
}

/// The store after the view of `shown` by the viewer at `addr` was recorded.
pub open spec fn recorded(
    store: StoreView,
    shown: Option<MediaInfoView>,
    addr: Option<ClientAddr>,
) -> StoreView {
    match (shown, addr) {
        (Some(media), Some(ip)) => store.mark_viewed(media.filename, ip),
        _ => store,
    }
}

/// First step: a copy of the item to show to the viewer at `addr`, if there
/// is one. The store is not changed.
pub fn media_for_viewer(state: &MediaViewState, addr: Option<ClientAddr>) -> (shown: Option<
    MediaInfo,
>)
    ensures
        shown is Some == shown_to(state@, addr) is Some,
        shown is Some ==> shown->0@ == shown_to(state@, addr)->0,
{
    match addr {
        Some(ip) => match state.get_last_media_for_ip(ip) {
            Some(media) => Some(media.duplicate()),
            None => None,
        },
        None => None,
    }
}

/// Second step: records that the viewer at `addr` has seen `shown`, if that
/// item is still the one in the media slot. Returns whether a first view was
/// recorded.
pub fn confirm_viewed(
    state: &mut MediaViewState,
    shown: &Option<MediaInfo>,
    addr: Option<ClientAddr>,
) -> (fresh: bool)
    ensures
        final(state)@ == recorded(
            old(state)@,
            match shown {
                Some(media) => Some(media@),
                None => None,
            },
            addr,
        ),
        fresh == (shown is Some && addr is Some && old(state)@.newly_viewed(
            shown->0@.filename,
            addr->0,
        )),
{
    match (shown, addr) {
        (Some(media), Some(ip)) => state.mark_viewed(media.filename.as_str(), ip),
        _ => false,
    }
}

/// Both steps with nothing in between: the viewer is shown the item and is
/// not shown it again.
pub proof fn lemma_shown_then_recorded(store: StoreView, addr: Option<ClientAddr>)
    ensures
        shown_to(recorded(store, shown_to(store, addr), addr), addr) is None,
{
}

/// An upload between the two steps: where the new item has another name, the
/// late record changes nothing, so the new item is still shown to every
/// viewer who has not seen it.
pub proof fn lemma_late_record_spares_new_item(
    store: StoreView,
    addr: Option<ClientAddr>,
    newer: MediaInfoView,
    viewer: ClientAddr,
)
    requires
        shown_to(store, addr) is Some,
        shown_to(store, addr)->0.filename != newer.filename,
    ensures
        recorded(store.set_media(newer), shown_to(store, addr), addr) == store.set_media(newer),
        recorded(store.set_media(newer), shown_to(store, addr), addr).served_to(viewer)
            == store.set_media(newer).served_to(viewer),
{
}

} // verus!
