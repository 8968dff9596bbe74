//! Relaying reactions to the presenters.

use vstd::prelude::*;

use crate::messaging::{EmojiMessage, OutgoingPresenterMessage, SlideSettings};
use crate::presentation::poll::{choice_in, string_vec_contains};
use crate::presentation::Presentation;
use crate::User;

verus! {

/// Whether the current slide settings allow this emoji: there must be a
/// slide, and the emoji must be among its permitted ones.
pub fn emoji_allowed(settings: &Option<SlideSettings>, emoji: &String) -> (r: bool)
    ensures
        r == match settings {
            Some(st) => choice_in(st.emojis@, emoji@),
            None => false,
        },
{
    match settings {
        Some(st) => string_vec_contains(&st.emojis, emoji),
        None => false,
    }
}

/// Relays a reaction to every presenter, but only when the presentation
/// has a slide whose settings list the emoji; the presentation itself is
/// read, never changed.
pub fn handle_user_emoji(presentation: &Presentation, user: &User, emoji_message: EmojiMessage) {
    if emoji_allowed(&presentation.slide_settings, &emoji_message.emoji) {
        crate::processor::broadcast_to_presenters(
            &OutgoingPresenterMessage::Emoji(emoji_message),
            &presentation.presenters,
        );
    }
}

} // verus!
