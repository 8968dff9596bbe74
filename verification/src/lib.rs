//! A broker for live audience interaction: presenters run presentations,
//! users join them over persistent connections to send reactions and poll
//! votes, and the broker validates, authorizes, rate-limits and fans the
//! messages out.

use vstd::prelude::*;

pub mod authentication;
pub mod handler;
pub mod json;
pub mod kv;
pub mod messaging;
pub mod outside;
pub mod presentation;
pub mod processor;
pub mod ratelimiting;
pub mod textfmt;
pub mod ws;

pub use messaging::OutgoingPresenterMessage;
pub use messaging::OutgoingUserMessage;
pub use messaging::SlideSettings;
pub use presentation::Presentation;

use crate::kv::{kv_find, kv_get, kv_remove, kv_set, lookup, unique_keys};

verus! {

/// The claims a verified token asserts: the subject's identity, the
/// presentation it speaks of, and its expiry in Unix seconds.
#[derive(Clone, Debug, PartialEq)]
pub struct JwtClaims {
    pub sub: String,
    pub pid: String,
    pub exp: usize,
}

/// What a validated join yields: the presentation joined and the verified
/// claims.
#[derive(Clone, Debug, PartialEq)]
pub struct ClientJoinPresentationData {
    pub presentation: String,
    pub claims: JwtClaims,
}

/// The mathematical shape of a connection record: its strings, and whether
/// a send channel and a close signal are attached.
pub struct ClientView {
    pub identity: Seq<char>,
    pub guid: Seq<char>,
    pub presentation: Seq<char>,
    pub has_sender: bool,
    pub has_closer: bool,
}

/// One registered connection: the identity it was opened for, its handle,
/// the presentation it belongs to, and — once the channel is upgraded —
/// the send sink and the close signal.
pub struct Client<T> where T: Clone {
    pub sender: Option<
        tokio::sync::mpsc::UnboundedSender<Result<warp::filters::ws::Message, warp::Error>>,
    >,
    pub closer: Option<tokio::sync::mpsc::UnboundedSender<()>>,
    pub identity: String,
    pub guid: String,
    pub presentation: String,
    pub _phantom: core::marker::PhantomData<T>,
}

impl<T: Clone> View for Client<T> {
    type V = ClientView;

    open spec fn view(&self) -> ClientView {
        ClientView {
            identity: self.identity@,
            guid: self.guid@,
            presentation: self.presentation@,
            has_sender: self.sender is Some,
            has_closer: self.closer is Some,
        }
    }
}

impl<T: Clone> Client<T> {
    /// A fresh, not yet upgraded record with a newly drawn handle.
    pub fn new(identity: String, presentation: String) -> (r: Self)
        ensures
            r@.identity == identity@,
            r@.presentation == presentation@,
            r@.guid.len() == 32,
            !r@.has_sender,
            !r@.has_closer,
    {
        Client {
            sender: None,
            closer: None,
            identity,
            guid: crate::outside::new_guid(),
            presentation,
            _phantom: core::marker::PhantomData,
        }
    }

    /// Fires the close signal, if one is attached, and detaches both
    /// channels; without a close signal nothing happens.
    pub fn close(&mut self)
        ensures
            final(self).identity == old(self).identity,
            final(self).guid == old(self).guid,
            final(self).presentation == old(self).presentation,
            old(self).closer is Some ==> final(self).sender is None && final(self).closer is None,
            old(self).closer is None ==> *final(self) == *old(self),
    {
        if self.closer.is_some() {
            if let Some(c) = &self.closer {
                let _ = c.send(());
            }
            self.sender = None;
            self.closer = None;
        }
    }
}

impl<T: Clone> Clone for Client<T> {
    /// A copy holding handles to the same channels.
    fn clone(&self) -> (r: Self)
        ensures
            r@ == self@,
    {
        Client {
            sender: match &self.sender {
                Some(s) => Some(s.clone()),
                None => None,
            },
            closer: match &self.closer {
                Some(c) => Some(c.clone()),
                None => None,
            },
            identity: self.identity.clone(),
            guid: self.guid.clone(),
            presentation: self.presentation.clone(),
            _phantom: core::marker::PhantomData,
        }
    }
}

/// A connection registered for an audience member.
pub type User = Client<OutgoingUserMessage>;

/// A connection registered for a presenter.
pub type Presenter = Client<OutgoingPresenterMessage>;

/// The presenter slots of one presentation, by connection handle; one
/// presenter identity may hold several at once.
pub type Presenters = Vec<(String, Presenter)>;

impl Client<OutgoingUserMessage> {
    /// Sends the message on this record's channel, if one is attached;
    /// a failed send is ignored, the connection's teardown handles it.
    pub fn send_ignore_fail(&self, message: &OutgoingUserMessage) {
        if let Some(sender) = &self.sender {
            let text = message.json();
            let _ = sender.send(Ok(warp::filters::ws::Message::text(text)));
        }
    }
}

impl OutgoingPresenterMessage {
    /// This message as a transport text frame.
    pub fn to_sendable_message(&self) -> warp::filters::ws::Message {
        warp::filters::ws::Message::text(self.json())
    }
}

impl Client<OutgoingPresenterMessage> {
    /// Sends the message on this record's channel, if one is attached;
    /// a failed send is ignored, the connection's teardown handles it.
    pub fn send_ignore_fail(&self, message: &OutgoingPresenterMessage) {
        if let Some(sender) = &self.sender {
            let text = message.json();
            let _ = sender.send(Ok(warp::filters::ws::Message::text(text)));
        }
    }
}

/// The user registry of one presentation: records by handle, plus the
/// index from identity to the handle of that identity's one live
/// connection.
pub struct Users {
    /// Maps each identity to the handle of its current connection.
    pub client_mapping: Vec<(String, String)>,
    /// Maps each handle to the registered record.
    pub guid_mapping: Vec<(String, User)>,
}

impl Users {
    /// Both indices have distinct keys and agree: every identity's handle
    /// names a record carrying that identity and handle, and every record
    /// is named by its own identity's index row.
    pub open spec fn wf(self) -> bool {
        &&& unique_keys(self.client_mapping@)
        &&& unique_keys(self.guid_mapping@)
        &&& forall|id: Seq<char>|
            match #[trigger] lookup(self.client_mapping@, id) {
                Some(g) => match lookup(self.guid_mapping@, g@) {
                    Some(u) => u@.identity == id && u@.guid == g@,
                    None => false,
                },
                None => true,
            }
        &&& forall|g: Seq<char>|
            match #[trigger] lookup(self.guid_mapping@, g) {
                Some(u) => u@.guid == g && match lookup(self.client_mapping@, u@.identity) {
                    Some(g2) => g2@ == g,
                    None => false,
                },
                None => true,
            }
    }

    pub fn new() -> (r: Self)
        ensures
            r.wf(),
            r.client_mapping@.len() == 0,
            r.guid_mapping@.len() == 0,
    {
        Users { client_mapping: Vec::new(), guid_mapping: Vec::new() }
    }

    /// The registered record for a handle, if any.
    pub fn get_by_guid(&self, guid: &String) -> (r: Option<User>)
        ensures
            match lookup(self.guid_mapping@, guid@) {
                Some(u) => r matches Some(c) && c@ == u@,
                None => r is None,
            },
    {
        match kv_get(&self.guid_mapping, guid) {
            Some(u) => Some(u.clone()),
            None => None,
        }
    }

    /// Registers a connection. Any previous connection of the same
    /// identity is taken over: its close signal is fired and both of its
    /// index rows are dropped before the new record is installed.
    pub fn insert(&mut self, client: User)
        requires
            old(self).wf(),
            match lookup(old(self).guid_mapping@, client@.guid) {
                Some(u) => u@.identity == client@.identity,
                None => true,
            },
    ensures
            final(self).wf(),
            (match lookup(final(self).client_mapping@, client@.identity) {
                Some(g) => g@ == client@.guid,
                None => false,
            }),
            forall|id: Seq<char>|
                id != client@.identity ==> #[trigger] lookup(final(self).client_mapping@, id)
                    == lookup(old(self).client_mapping@, id),
            (match lookup(final(self).guid_mapping@, client@.guid) {
                Some(u) => u@ == client@,
                None => false,
            }),
            forall|g: Seq<char>|
                #![trigger lookup(final(self).guid_mapping@, g)]
                g != client@.guid && (match lookup(old(self).client_mapping@, client@.identity) {
                    Some(og) => g != og@,
                    None => true,
                }) ==> lookup(final(self).guid_mapping@, g) == lookup(old(self).guid_mapping@, g),
            (match lookup(old(self).client_mapping@, client@.identity) {
                Some(og) => og@ != client@.guid ==> lookup(final(self).guid_mapping@, og@) is None,
                None => true,
            }),
    {
        let ghost s0 = *self;
        let old_guid: Option<String> = match kv_get(&self.client_mapping, &client.identity) {
            Some(g) => Some(g.clone()),
            None => None,
        };
        if let Some(og) = &old_guid {
            kv_remove(&mut self.client_mapping, &client.identity);
            let found = kv_find(&self.guid_mapping, og);
            proof {
                assert(found is Some);
            }
            if let Some(gi) = found {
                let ghost pre = self.guid_mapping@;
                let mut pair = self.guid_mapping.remove(gi);
                proof {
                    crate::kv::lemma_lookup_remove(pre, gi as int, og@);
                    crate::kv::lemma_lookup_remove_all(pre, gi as int);
                }
                pair.1.close();
            }
        }
        let identity_key = client.identity.clone();
        let guid_key = client.guid.clone();
        let guid_val = client.guid.clone();
        kv_set(&mut self.client_mapping, identity_key, guid_val);
        kv_set(&mut self.guid_mapping, guid_key, client);
        proof {
            let c1 = self.client_mapping@;
            let g1 = self.guid_mapping@;
            let oldc = s0.client_mapping@;
            let oldg = s0.guid_mapping@;
            assert forall|id: Seq<char>|
                match #[trigger] lookup(c1, id) {
                    Some(g) => match lookup(g1, g@) {
                        Some(u) => u@.identity == id && u@.guid == g@,
                        None => false,
                    },
                    None => true,
                } by {
                if id != client@.identity {
                    match lookup(c1, id) {
                        Some(g) => {
                            assert(lookup(oldc, id) == Some(g));
                            assert(g@ != client@.guid);
                            match lookup(oldc, client@.identity) {
                                Some(og) => {
                                    assert(g@ != og@);
                                },
                                None => {},
                            }
                        },
                        None => {},
                    }
                }
            }
            assert forall|g: Seq<char>|
                match #[trigger] lookup(g1, g) {
                    Some(u) => u@.guid == g && match lookup(c1, u@.identity) {
                        Some(g2) => g2@ == g,
                        None => false,
                    },
                    None => true,
                } by {
                if g != client@.guid {
                    match lookup(oldc, client@.identity) {
                        Some(og) => {
                            if g != og@ {
                                match lookup(g1, g) {
                                    Some(u) => {
                                        assert(lookup(oldg, g) == Some(u));
                                        assert(u@.identity != client@.identity);
                                    },
                                    None => {},
                                }
                            } else {
                                assert(lookup(g1, g) is None);
                            }
                        },
                        None => {
                            match lookup(g1, g) {
                                Some(u) => {
                                    assert(lookup(oldg, g) == Some(u));
                                    assert(u@.identity != client@.identity);
                                },
                                None => {},
                            }
                        },
                    }
                }
            }
        }
    }

    /// Removes a record, but only while the identity's index row still
    /// names this record's handle; a record already taken over is left
    /// alone, and the answer says whether removal happened.
    pub fn remove(&mut self, client: &User) -> (r: bool)
        requires
            old(self).wf(),
        ensures
            final(self).wf(),
            r == (match lookup(old(self).client_mapping@, client@.identity) {
                Some(g) => g@ == client@.guid,
                None => false,
            }),
            !r ==> *final(self) == *old(self),
            r ==> lookup(final(self).client_mapping@, client@.identity) is None && lookup(
                final(self).guid_mapping@,
                client@.guid,
            ) is None,
            forall|id: Seq<char>|
                id != client@.identity ==> #[trigger] lookup(final(self).client_mapping@, id)
                    == lookup(old(self).client_mapping@, id),
            forall|g: Seq<char>|
                g != client@.guid ==> #[trigger] lookup(final(self).guid_mapping@, g) == lookup(
                    old(self).guid_mapping@,
                    g,
                ),
    {
        let ghost s0 = *self;
        let still_current = match kv_get(&self.client_mapping, &client.identity) {
            Some(g) => *g == client.guid,
            None => false,
        };
        if !still_current {
            return false;
        }
        kv_remove(&mut self.client_mapping, &client.identity);
        kv_remove(&mut self.guid_mapping, &client.guid);
        proof {
            let c1 = self.client_mapping@;
            let g1 = self.guid_mapping@;
            let oldc = s0.client_mapping@;
            let oldg = s0.guid_mapping@;
            assert forall|id: Seq<char>|
                match #[trigger] lookup(c1, id) {
                    Some(g) => match lookup(g1, g@) {
                        Some(u) => u@.identity == id && u@.guid == g@,
                        None => false,
                    },
                    None => true,
                } by {
                if id != client@.identity {
                    match lookup(c1, id) {
                        Some(g) => {
                            assert(lookup(oldc, id) == Some(g));
                            assert(g@ != client@.guid);
                        },
                        None => {},
                    }
                }
            }
            assert forall|g: Seq<char>|
                match #[trigger] lookup(g1, g) {
                    Some(u) => u@.guid == g && match lookup(c1, u@.identity) {
                        Some(g2) => g2@ == g,
                        None => false,
                    },
                    None => true,
                } by {
                if g != client@.guid {
                    match lookup(g1, g) {
                        Some(u) => {
                            assert(lookup(oldg, g) == Some(u));
                            assert(u@.identity != client@.identity);
                        },
                        None => {},
                    }
                }
            }
        }
        true
    }

    /// A snapshot of all registered records.
    pub fn iter(&self) -> (r: Vec<User>)
        ensures
            r@.len() == self.guid_mapping@.len(),
            forall|i: int| 0 <= i < r@.len() ==> (#[trigger] r@[i])@ == self.guid_mapping@[i].1@,
    {
        let n = self.guid_mapping.len();
        let mut out: Vec<User> = Vec::new();
        for i in 0..n
            invariant
                n == self.guid_mapping@.len(),
                out@.len() == i,
                forall|j: int| 0 <= j < i ==> (#[trigger] out@[j])@ == self.guid_mapping@[j].1@,
        {
            out.push(self.guid_mapping[i].1.clone());
            proof {
                assert(out@[i as int]@ == self.guid_mapping@[i as int].1@);
            }
        }
        out
    }
}

/// Law: takeover uniqueness. In a well-formed registry at most one record
/// exists per identity: two records carrying the same identity are the
/// same record, so two devices can never both stand registered for one
/// identity.
pub proof fn lemma_takeover_uniqueness(u: Users, i: int, j: int)
    requires
        u.wf(),
        0 <= i < u.guid_mapping@.len(),
        0 <= j < u.guid_mapping@.len(),
        u.guid_mapping@[i].1@.identity == u.guid_mapping@[j].1@.identity,
    ensures
        i == j,
{
    let s = u.guid_mapping@;
    assert(forall|m: int| 0 <= m < i ==> s[m].0@ != s[i].0@);
    assert(forall|m: int| 0 <= m < j ==> s[m].0@ != s[j].0@);
    crate::kv::lemma_lookup_first_match(s, s[i].0@, i);
    crate::kv::lemma_lookup_first_match(s, s[j].0@, j);
    assert(lookup(s, s[i].0@) == Some(s[i].1));
    assert(lookup(s, s[j].0@) == Some(s[j].1));
    assert(s[i].0@ == s[j].0@);
}

} // verus!
