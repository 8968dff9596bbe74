//! Applying a user's ballot and answering the voter.

use vstd::prelude::*;

use crate::messaging::OutgoingUserMessage;
use crate::presentation::poll::{vote_applied, IdentifiedVote, Vote};
use crate::presentation::Presentation;
use crate::User;

verus! {

/// Casts one identified ballot into the poll it names and tells the voter
/// whether it was recorded; the poll engine alone decides.
pub fn handle_user_vote(presentation: &mut Presentation, user: &User, vote: Vote)
    requires
        old(presentation).wf(),
    ensures
        final(presentation).wf(),
        final(presentation).id == old(presentation).id,
        final(presentation).presenter_identity == old(presentation).presenter_identity,
        final(presentation).users == old(presentation).users,
        final(presentation).presenters == old(presentation).presenters,
        final(presentation).authentication_key == old(presentation).authentication_key,
        final(presentation).encrypted == old(presentation).encrypted,
        final(presentation).slide_settings == old(presentation).slide_settings,
        final(presentation).ratelimiter == old(presentation).ratelimiter,
        final(presentation).presentation_data.title == old(presentation).presentation_data.title,
        vote_applied(
            old(presentation).presentation_data.polls.polls@,
            final(presentation).presentation_data.polls.polls@,
            user.identity,
            vote,
        ),
{
    let identified = IdentifiedVote { identity: user.identity.clone(), vote };
    let result = presentation.presentation_data.polls.vote_in_poll(identified);
    match result {
        Ok(()) => {
            user.send_ignore_fail(&OutgoingUserMessage::Success("Vote recorded".to_owned()));
        },
        Err(e) => {
            user.send_ignore_fail(&OutgoingUserMessage::Error(e));
        },
    }
}

} // verus!
