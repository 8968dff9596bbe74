//! The message router: classifies incoming messages, authorizes presenter
//! actions, rate-limits user actions, applies them to the presentation and
//! fans the results out.

use vstd::prelude::*;

pub mod emoji;
pub mod vote;

use crate::kv::lookup;
use crate::messaging::{
    IncomingPresenterMessage, IncomingUserMessage, OutgoingPresenterMessage, OutgoingUserMessage,
};
use crate::outside::now_unix_secs;
use crate::presentation::poll::{choice_in, vote_applied};
use crate::presentation::Presentation;
use crate::ratelimiting::lmt_key;
use crate::{Presenter, Presenters, User, Users};

verus! {

/// Sends a message to every connected presenter; slots without a channel
/// are skipped.
pub fn broadcast_to_presenters(message: &OutgoingPresenterMessage, presenters: &Presenters) {
    let n = presenters.len();
    for i in 0..n
        invariant
            n == presenters@.len(),
    {
        presenters[i].1.send_ignore_fail(message);
    }
}

/// Sends a message to every registered user; slots without a channel are
/// skipped.
pub fn broadcast_to_clients(message: &OutgoingUserMessage, users: &Users) {
    let n = users.guid_mapping.len();
    for i in 0..n
        invariant
            n == users.guid_mapping@.len(),
    {
        users.guid_mapping[i].1.send_ignore_fail(message);
    }
}

/// Applies one presenter message. The sender must carry the presentation's
/// presenter identity: anyone else changes nothing at all. An authorized
/// slide change replaces the slide settings and is broadcast; a new poll
/// is installed unless the name stands, in which case the standing
/// definition is echoed; a totals request and limiter changes act on their
/// components alone.
pub fn handle_presenter_message_types(
    presenter_message: IncomingPresenterMessage,
    presenter: &Presenter,
    presentation: &mut Presentation,
)
    requires
        old(presentation).wf(),
    ensures
        final(presentation).wf(),
        final(presentation).id == old(presentation).id,
        final(presentation).presenter_identity == old(presentation).presenter_identity,
        final(presentation).users == old(presentation).users,
        final(presentation).presenters == old(presentation).presenters,
        final(presentation).authentication_key == old(presentation).authentication_key,
        final(presentation).encrypted == old(presentation).encrypted,
        final(presentation).presentation_data.title == old(presentation).presentation_data.title,
        // unauthorized senders change nothing
        presenter@.identity != old(presentation).presenter_identity@ ==> *final(presentation)
            == *old(presentation),
        presenter@.identity == old(presentation).presenter_identity@ ==> match presenter_message {
            IncomingPresenterMessage::NewSlide(m) => {
                &&& final(presentation).slide_settings == Some(m.slide_settings)
                &&& final(presentation).ratelimiter == old(presentation).ratelimiter
                &&& final(presentation).presentation_data.polls == old(
                    presentation,
                ).presentation_data.polls
            },
            IncomingPresenterMessage::NewPoll(poll) => {
                &&& final(presentation).slide_settings == old(presentation).slide_settings
                &&& final(presentation).ratelimiter == old(presentation).ratelimiter
                &&& (match lookup(
                    old(presentation).presentation_data.polls.polls@,
                    poll.name@,
                ) {
                    Some(_) => final(presentation).presentation_data.polls.polls@ == old(
                        presentation,
                    ).presentation_data.polls.polls@,
                    None => {
                        &&& match lookup(
                            final(presentation).presentation_data.polls.polls@,
                            poll.name@,
                        ) {
                            Some(p) => {
                                &&& p.votes@.len() == 0
                                &&& p.totals@.len() == 0
                                &&& p.vote_type@ == poll.vote_type@
                                &&& forall|c: Seq<char>| #[trigger]
                                    choice_in(p.choices@, c) == choice_in(poll.options@, c)
                            },
                            None => false,
                        }
                        &&& forall|k: Seq<char>|
                            k != poll.name@ ==> #[trigger] lookup(
                                final(presentation).presentation_data.polls.polls@,
                                k,
                            ) == lookup(old(presentation).presentation_data.polls.polls@, k)
                    },
                })
            },
            IncomingPresenterMessage::GetPollTotals(_) => *final(presentation) == *old(
                presentation,
            ),
            IncomingPresenterMessage::AddRatelimiter(m) => {
                &&& final(presentation).slide_settings == old(presentation).slide_settings
                &&& final(presentation).presentation_data.polls == old(
                    presentation,
                ).presentation_data.polls
                &&& lookup(final(presentation).ratelimiter.limiters@, m.name@) == Some(m.limiter)
                &&& forall|k: Seq<char>|
                    k != m.name@ ==> #[trigger] lookup(final(presentation).ratelimiter.limiters@, k)
                        == lookup(old(presentation).ratelimiter.limiters@, k)
                &&& final(presentation).ratelimiter.limiter_data == old(
                    presentation,
                ).ratelimiter.limiter_data
                &&& final(presentation).ratelimiter.global_data == old(
                    presentation,
                ).ratelimiter.global_data
            },
            IncomingPresenterMessage::RemoveRatelimiter(m) => {
                &&& final(presentation).slide_settings == old(presentation).slide_settings
                &&& final(presentation).presentation_data.polls == old(
                    presentation,
                ).presentation_data.polls
                &&& lookup(final(presentation).ratelimiter.limiters@, m.name@) is None
                &&& forall|k: Seq<char>|
                    k != m.name@ ==> #[trigger] lookup(final(presentation).ratelimiter.limiters@, k)
                        == lookup(old(presentation).ratelimiter.limiters@, k)
                &&& final(presentation).ratelimiter.limiter_data == old(
                    presentation,
                ).ratelimiter.limiter_data
                &&& final(presentation).ratelimiter.global_data == old(
                    presentation,
                ).ratelimiter.global_data
            },
        },
{
    if !(presenter.identity == presentation.presenter_identity) {
        return ;
    }
    match presenter_message {
        IncomingPresenterMessage::NewSlide(m) => {
            let outgoing = m.slide_settings.clone();
            presentation.slide_settings = Some(m.slide_settings);
            broadcast_to_clients(
                &OutgoingUserMessage::NewSlide(outgoing),
                &presentation.users,
            );
        },
        IncomingPresenterMessage::NewPoll(poll) => {
            let outgoing = poll.clone();
            let result = presentation.presentation_data.polls.new_poll(poll);
            match result {
                Ok(()) => {
                    broadcast_to_clients(
                        &OutgoingUserMessage::NewPoll(outgoing),
                        &presentation.users,
                    );
                },
                Err(existing) => {
                    let mut note = "Presenter tried to create poll that already exists: "
                        .to_owned();
                    note.append(existing.name.as_str());
                    presenter.send_ignore_fail(&OutgoingPresenterMessage::Error(note));
                    broadcast_to_clients(
                        &OutgoingUserMessage::NewPoll(existing),
                        &presentation.users,
                    );
                },
            }
        },
        IncomingPresenterMessage::GetPollTotals(m) => {
            let results = presentation.presentation_data.polls.get_poll_totals(&m.name);
            match results {
                Some(totals) => {
                    presenter.send_ignore_fail(&OutgoingPresenterMessage::PollResults(totals));
                },
                None => {
                    let mut note = "Presenter requested poll results for a poll that does not exist: "
                        .to_owned();
                    note.append(m.name.as_str());
                    presenter.send_ignore_fail(&OutgoingPresenterMessage::Error(note));
                },
            }
        },
        IncomingPresenterMessage::AddRatelimiter(m) => {
            presentation.ratelimiter.add_ratelimit(m.name, m.limiter);
        },
        IncomingPresenterMessage::RemoveRatelimiter(m) => {
            presentation.ratelimiter.remove_ratelimit(&m.name);
        },
    }
}

/// Everything one routed user message at wall-clock reading `t` settles,
/// relating the presentation before (`pre`) to after (`post`): the fixed
/// parts never move; a rate-limited message changes nothing at all; an
/// accepted one commits the limiter bookkeeping, and a ballot applies
/// exactly the named poll's change.
pub open spec fn user_message_outcome(
    pre: Presentation,
    post: Presentation,
    identity: String,
    user_message: IncomingUserMessage,
    t: u64,
) -> bool {
    &&& post.wf()
    &&& post.id == pre.id
    &&& post.presenter_identity == pre.presenter_identity
    &&& post.users == pre.users
    &&& post.presenters == pre.presenters
    &&& post.authentication_key == pre.authentication_key
    &&& post.encrypted == pre.encrypted
    &&& post.slide_settings == pre.slide_settings
    &&& post.presentation_data.title == pre.presentation_data.title
    &&& post.ratelimiter.limiters == pre.ratelimiter.limiters
    &&& (exists|i: int|
        0 <= i < pre.ratelimiter.limiters@.len() && (#[trigger] pre.ratelimiter.eval_at(
            identity@,
            user_message,
            t,
            i,
        )) is Err) ==> post == pre
    &&& (forall|i: int|
        0 <= i < pre.ratelimiter.limiters@.len() ==> (#[trigger] pre.ratelimiter.eval_at(
            identity@,
            user_message,
            t,
            i,
        )) is Ok) ==> {
        &&& lookup(post.ratelimiter.global_data@, lmt_key(identity@)) == Some(t)
        &&& match user_message {
            IncomingUserMessage::Emoji(_) => post.presentation_data.polls
                == pre.presentation_data.polls,
            IncomingUserMessage::Vote(v) => vote_applied(
                pre.presentation_data.polls.polls@,
                post.presentation_data.polls.polls@,
                identity,
                v,
            ),
        }
    }
}

/// Applies one user message at the given wall-clock time. The rate limiter
/// answers first and its answer goes back to the sender; a refusal leaves
/// the presentation exactly as it was. An allowed reaction changes nothing
/// but the limiter state; an allowed ballot is applied to the named poll.
pub fn handle_user_message_types_at(
    user_message: IncomingUserMessage,
    user: &User,
    presentation: &mut Presentation,
    current_time: u64,
)
    requires
        old(presentation).wf(),
    ensures
        user_message_outcome(
            *old(presentation),
            *final(presentation),
            user.identity,
            user_message,
            current_time,
        ),
{

    let response = presentation.ratelimiter.check_allowed_at(
        &user.identity,
        &user_message,
        current_time,
    );
    let reply = OutgoingUserMessage::RatelimiterResponse(response);
    user.send_ignore_fail(&reply);
    let blocked = match &reply {
        OutgoingUserMessage::RatelimiterResponse(
            crate::ratelimiting::RatelimiterResponse::Blocked(_),
        ) => true,
        _ => false,
    };
    if blocked {
        return ;
    }
    match user_message {
        IncomingUserMessage::Emoji(m) => {
            emoji::handle_user_emoji(presentation, user, m);
        },
        IncomingUserMessage::Vote(v) => {
            vote::handle_user_vote(presentation, user, v);
        },
    }
}

/// Applies one user message at the wall clock's current reading: at some
/// reading `t`, the whole outcome is exactly one routing at `t`.
pub fn handle_user_message_types(
    user_message: IncomingUserMessage,
    user: &User,
    presentation: &mut Presentation,
)
    requires
        old(presentation).wf(),
    ensures
        exists|t: u64|
            #[trigger] user_message_outcome(
                *old(presentation),
                *final(presentation),
                user.identity,
                user_message,
                t,
            ),
        final(presentation).wf(),
        final(presentation).id == old(presentation).id,
        final(presentation).presenter_identity == old(presentation).presenter_identity,
        final(presentation).users == old(presentation).users,
        final(presentation).presenters == old(presentation).presenters,
        final(presentation).authentication_key == old(presentation).authentication_key,
        final(presentation).encrypted == old(presentation).encrypted,
        final(presentation).slide_settings == old(presentation).slide_settings,
        final(presentation).presentation_data.title == old(presentation).presentation_data.title,
        final(presentation).ratelimiter.limiters == old(presentation).ratelimiter.limiters,
{
    let ghost pre = *presentation;
    let now = now_unix_secs();
    handle_user_message_types_at(user_message, user, presentation, now);
    proof {
        assert(user_message_outcome(pre, *presentation, user.identity, user_message, now));
    }
}

} // verus!
