//! Binding an upgraded connection to its booked slot, and the teardown
//! bookkeeping when a connection ends. The asynchronous pumps around the
//! socket live outside the library; they hand the channel ends in here.

use vstd::prelude::*;

use crate::kv::{kv_find, kv_remove, lookup};
use crate::messaging::{OutgoingUserMessage, SlideSettings};
use crate::presentation::Presentation;
use crate::User;

verus! {

/// Binds an upgraded connection's channel ends to the slot its handle was
/// booked under: a presenter slot gets them directly; a user slot is
/// reinstalled through the registry, whose takeover rule fires for a
/// reconnecting identity, and is greeted with the presentation's initial
/// data. A handle nobody booked binds nothing, and the answer says so.
pub fn bind_connection(
    presentation: &mut Presentation,
    guid: &String,
    sender: tokio::sync::mpsc::UnboundedSender<
        Result<warp::filters::ws::Message, warp::Error>,
    >,
    closer: tokio::sync::mpsc::UnboundedSender<()>,
) -> (r: bool)
    requires
        old(presentation).wf(),
    ensures
        final(presentation).wf(),
        final(presentation).id == old(presentation).id,
        final(presentation).presenter_identity == old(presentation).presenter_identity,
        final(presentation).authentication_key == old(presentation).authentication_key,
        final(presentation).encrypted == old(presentation).encrypted,
        final(presentation).slide_settings == old(presentation).slide_settings,
        final(presentation).ratelimiter == old(presentation).ratelimiter,
        final(presentation).presentation_data == old(presentation).presentation_data,
        r == (contains_key_spec(old(presentation).presenters@, guid@) || contains_key_spec(
            old(presentation).users.guid_mapping@,
            guid@,
        )),
        !r ==> *final(presentation) == *old(presentation),
        // a bound presenter slot carries the channels, under the same
        // handle and identity
        match lookup(old(presentation).presenters@, guid@) {
            Some(pr) => {
                &&& final(presentation).users == old(presentation).users
                &&& match lookup(final(presentation).presenters@, guid@) {
                    Some(pr2) => pr2@.identity == pr@.identity && pr2@.guid == pr@.guid
                        && pr2@.has_sender && pr2@.has_closer,
                    None => false,
                }
                &&& forall|g: Seq<char>|
                    g != guid@ ==> #[trigger] lookup(final(presentation).presenters@, g) == lookup(
                        old(presentation).presenters@,
                        g,
                    )
            },
            None => final(presentation).presenters == old(presentation).presenters,
        },
        // a bound user slot is reinstalled with the channels attached
        lookup(old(presentation).presenters@, guid@) is None ==> match lookup(
            old(presentation).users.guid_mapping@,
            guid@,
        ) {
            Some(u) => match lookup(final(presentation).users.guid_mapping@, guid@) {
                Some(u2) => u2@.identity == u@.identity && u2@.guid == u@.guid && u2@.has_sender
                    && u2@.has_closer,
                None => false,
            },
            None => true,
        },
{
    let in_presenters = kv_find(&presentation.presenters, guid);
    match in_presenters {
        Some(i) => {
            let ghost pre = presentation.presenters@;
            let mut pair = presentation.presenters.remove(i);
            pair.1.sender = Some(sender);
            pair.1.closer = Some(closer);
            presentation.presenters.insert(i, pair);
            proof {
                assert(presentation.presenters@ =~= pre.update(
                    i as int,
                    (pre[i as int].0, presentation.presenters@[i as int].1),
                ));
                crate::kv::lemma_lookup_update(
                    pre,
                    i as int,
                    presentation.presenters@[i as int],
                    guid@,
                );
                crate::kv::lemma_lookup_update_all(
                    pre,
                    i as int,
                    presentation.presenters@[i as int],
                );
            }
            true
        },
        None => {
            let found = presentation.users.get_by_guid(guid);
            match found {
                Some(mut user) => {
                    user.sender = Some(sender);
                    user.closer = Some(closer);
                    let greeting = initial_presentation_data(presentation);
                    user.send_ignore_fail(&greeting);
                    presentation.users.insert(user);
                    true
                },
                None => false,
            }
        },
    }
}

/// The byte cap on one incoming frame.
pub const MAX_FRAME_BYTES: usize = 4096;

/// Whether one incoming frame is small enough to act on. The transport is
/// configured to the same cap, and anything larger is dropped before it
/// reaches the router, so an oversized frame changes no state.
pub fn frame_size_ok(frame_len: usize) -> (r: bool)
    ensures
        r == (frame_len <= 4096),
{
    frame_len <= MAX_FRAME_BYTES
}

/// Just `contains_key`, spelled out for this module's contracts.
pub open spec fn contains_key_spec<V>(s: Seq<(String, V)>, k: Seq<char>) -> bool {
    lookup(s, k) is Some
}

/// The greeting a newly connected user receives: the presentation's title
/// and the current slide settings, if a slide is up.
pub fn initial_presentation_data(presentation: &Presentation) -> (r: OutgoingUserMessage)
    ensures
        match r {
            OutgoingUserMessage::InitialPresentationData { title, settings } => {
                &&& title@ == presentation.presentation_data.title@
                &&& match (settings, presentation.slide_settings) {
                    (Some(a), Some(b)) => a.message@ == b.message@ && a.emojis@ == b.emojis@,
                    (None, None) => true,
                    _ => false,
                }
            },
            _ => false,
        },
{
    let settings: Option<SlideSettings> = match &presentation.slide_settings {
        Some(st) => Some(
            SlideSettings {
                message: st.message.clone(),
                emojis: crate::presentation::poll::copy_strings(&st.emojis),
            },
        ),
        None => None,
    };
    OutgoingUserMessage::InitialPresentationData {
        title: presentation.get_title(),
        settings,
    }
}

/// Drops a presenter slot when its connection ends; the answer says
/// whether the handle was still booked.
pub fn remove_presenter(presentation: &mut Presentation, guid: &String) -> (r: bool)
    requires
        old(presentation).wf(),
    ensures
        final(presentation).wf(),
        final(presentation).id == old(presentation).id,
        final(presentation).presenter_identity == old(presentation).presenter_identity,
        final(presentation).users == old(presentation).users,
        final(presentation).authentication_key == old(presentation).authentication_key,
        final(presentation).encrypted == old(presentation).encrypted,
        final(presentation).slide_settings == old(presentation).slide_settings,
        final(presentation).ratelimiter == old(presentation).ratelimiter,
        final(presentation).presentation_data == old(presentation).presentation_data,
        r == contains_key_spec(old(presentation).presenters@, guid@),
        lookup(final(presentation).presenters@, guid@) is None,
        forall|g: Seq<char>|
            g != guid@ ==> #[trigger] lookup(final(presentation).presenters@, g) == lookup(
                old(presentation).presenters@,
                g,
            ),
{
    kv_remove(&mut presentation.presenters, guid)
}

} // verus!
