//! The per-presentation aggregate: slide state, users, presenters, polls
//! and the rate-limiter pipeline.

use vstd::prelude::*;

pub mod poll;

use crate::kv::{contains_key, kv_get, kv_set, lookup, unique_keys};
use crate::messaging::SlideSettings;
use crate::ratelimiting::{LimiterType, Ratelimiter};
use crate::{Presenters, Users};

use self::poll::Polls;

verus! {

/// The descriptive state of a presentation: its title and its polls.
pub struct PresentationData {
    /// The title of the presentation, sent to clients when they first
    /// connect.
    pub title: String,
    /// The polls created in the presentation, by name.
    pub polls: Polls,
}

impl PresentationData {
    pub fn new(title: String) -> (r: Self)
        ensures
            r.title == title,
            r.polls.wf(),
            r.polls.polls@.len() == 0,
    {
        PresentationData { title, polls: Polls::new() }
    }
}

/// One tenant session: the privileged identity, the authentication key
/// its join tokens verify against, the connected users and presenters,
/// the current slide settings and the rate limiter.
pub struct Presentation {
    pub id: String,
    pub presenter_identity: String,
    pub users: Users,
    pub presenters: Presenters,
    pub authentication_key: jsonwebtoken::DecodingKey,
    pub ratelimiter: Ratelimiter,
    pub slide_settings: Option<SlideSettings>,
    pub encrypted: bool,
    pub presentation_data: PresentationData,
}

impl Presentation {
    /// The registries and the rate limiter are well formed, and presenter
    /// handles are distinct.
    pub open spec fn wf(self) -> bool {
        &&& self.users.wf()
        &&& unique_keys(self.presenters@)
        &&& self.ratelimiter.wf()
        &&& self.presentation_data.polls.wf()
    }

    /// A fresh presentation with no users, no presenters, no polls, no
    /// slide yet, and the default pipeline of one 15-second time limiter
    /// named "15s".
    pub fn new(
        presentation_id: String,
        presenter_identity: String,
        encrypted: bool,
        authentication_key: jsonwebtoken::DecodingKey,
        title: String,
    ) -> (r: Self)
        ensures
            r.wf(),
            r.id == presentation_id,
            r.presenter_identity == presenter_identity,
            r.encrypted == encrypted,
            r.authentication_key == authentication_key,
            r.slide_settings is None,
            r.users.client_mapping@.len() == 0,
            r.users.guid_mapping@.len() == 0,
            r.presenters@.len() == 0,
            r.presentation_data.title == title,
            r.presentation_data.polls.polls@.len() == 0,
            r.ratelimiter.limiters@.len() == 1,
            r.ratelimiter.limiters@[0].0@ == "15s"@,
            r.ratelimiter.limiters@[0].1 == LimiterType::Time(
                crate::ratelimiting::time::TimeLimiter { interval: 15 },
            ),
            r.ratelimiter.limiter_data@.len() == 0,
            r.ratelimiter.global_data@.len() == 0,
    {
        let mut ratelimiter = Ratelimiter::new();
        ratelimiter.add_ratelimit(
            "15s".to_owned(),
            LimiterType::Time(crate::ratelimiting::time::TimeLimiter::new(15)),
        );
        Presentation {
            id: presentation_id,
            presenter_identity,
            users: Users::new(),
            presenters: Vec::new(),
            authentication_key,
            ratelimiter,
            slide_settings: None,
            encrypted,
            presentation_data: PresentationData::new(title),
        }
    }

    /// The poll engine of this presentation.
    pub fn get_polls(&mut self) -> (r: &mut Polls)
        ensures
            *r == old(self).presentation_data.polls,
            final(self).presentation_data.polls == *final(r),
            final(self).id == old(self).id,
            final(self).presenter_identity == old(self).presenter_identity,
            final(self).users == old(self).users,
            final(self).presenters == old(self).presenters,
            final(self).authentication_key == old(self).authentication_key,
            final(self).ratelimiter == old(self).ratelimiter,
            final(self).slide_settings == old(self).slide_settings,
            final(self).encrypted == old(self).encrypted,
            final(self).presentation_data.title == old(self).presentation_data.title,
    {
        &mut self.presentation_data.polls
    }

    /// The presentation's title.
    pub fn get_title(&self) -> (r: String)
        ensures
            r@ == self.presentation_data.title@,
    {
        self.presentation_data.title.clone()
    }
}

/// Every presentation on this broker, by id.
pub struct Presentations {
    pub presentations: Vec<(String, Presentation)>,
}

impl Presentations {
    /// Ids are distinct and every presentation is well formed.
    pub open spec fn wf(self) -> bool {
        &&& unique_keys(self.presentations@)
        &&& forall|i: int|
            0 <= i < self.presentations@.len() ==> (#[trigger] self.presentations@[i]).1.wf()
    }

    pub fn new() -> (r: Self)
        ensures
            r.wf(),
            r.presentations@.len() == 0,
    {
        Presentations { presentations: Vec::new() }
    }

    /// Whether a presentation with this id exists.
    pub fn contains(&self, id: &String) -> (r: bool)
        ensures
            r == contains_key(self.presentations@, id@),
    {
        match kv_get(&self.presentations, id) {
            Some(_) => true,
            None => false,
        }
    }

    /// Registers a new presentation. An id once installed is never
    /// replaced: registering it again is refused, so an id cannot be
    /// reused or taken over.
    pub fn register(&mut self, presentation: Presentation) -> (r: bool)
        requires
            old(self).wf(),
            presentation.wf(),
        ensures
            final(self).wf(),
            r == !contains_key(old(self).presentations@, presentation.id@),
            !r ==> *final(self) == *old(self),
            r ==> lookup(final(self).presentations@, presentation.id@) == Some(presentation),
            r ==> forall|k: Seq<char>|
                k != presentation.id@ ==> #[trigger] lookup(final(self).presentations@, k)
                    == lookup(old(self).presentations@, k),
    {
        if self.contains(&presentation.id) {
            return false;
        }
        let ghost pre = self.presentations@;
        let id = presentation.id.clone();
        kv_set(&mut self.presentations, id, presentation);
        proof {
            assert forall|i: int|
                0 <= i < self.presentations@.len() implies (
            #[trigger] self.presentations@[i]).1.wf() by {
                if i < pre.len() {
                    assert(self.presentations@[i] == pre[i]);
                } else {
                    assert(self.presentations@[i].1 == presentation);
                }
            }
        }
        true
    }
}

} // verus!
