//! Registration of joining clients: each validated join books a slot —
//! presenter or user by identity — and answers with the upgrade URL that
//! carries the connection's fresh handle.

use vstd::prelude::*;
use vstd::string::StringExecFns;

use crate::kv::{kv_set, lookup};
use crate::presentation::Presentation;
use crate::{Client, ClientJoinPresentationData};

verus! {

/// The answer to a validated join: where to upgrade the connection.
#[derive(Clone, Debug, PartialEq)]
pub struct RegisterResponse {
    pub url: String,
}

/// The upgrade URL for a handle within a presentation.
pub open spec fn ws_url(pid: Seq<char>, guid: Seq<char>) -> Seq<char> {
    "/ws/"@ + pid + "/"@ + guid
}

/// What one join books, for a drawn handle `g` of the usual 32
/// characters, relating the presentation before (`pre`) to after (`post`)
/// and the answer: the presenter identity is booked as one more presenter
/// slot, any other identity as a user; the answer carries the upgrade URL
/// for `g`; and a refusal happens only when `g` collides with a handle
/// already booked on that side, changing nothing.
pub open spec fn register_outcome(
    pre: Presentation,
    post: Presentation,
    user_auth_data: ClientJoinPresentationData,
    g: Seq<char>,
    r: Option<RegisterResponse>,
) -> bool {
    &&& g.len() == 32
    &&& if user_auth_data.claims.sub@ == pre.presenter_identity@ {
        &&& post.users == pre.users
        &&& match r {
            Some(resp) => {
                &&& resp.url@ == ws_url(pre.id@, g)
                &&& match lookup(post.presenters@, g) {
                    Some(pr) => pr@.identity == user_auth_data.claims.sub@ && pr@.guid == g
                        && !pr@.has_sender && !pr@.has_closer,
                    None => false,
                }
                &&& forall|g2: Seq<char>|
                    g2 != g ==> #[trigger] lookup(post.presenters@, g2) == lookup(
                        pre.presenters@,
                        g2,
                    )
            },
            None => post == pre && lookup(pre.presenters@, g) is Some,
        }
    } else {
        &&& post.presenters == pre.presenters
        &&& match r {
            Some(resp) => {
                &&& resp.url@ == ws_url(pre.id@, g)
                &&& match lookup(post.users.client_mapping@, user_auth_data.claims.sub@) {
                    Some(g2) => g2@ == g,
                    None => false,
                }
                &&& match lookup(post.users.guid_mapping@, g) {
                    Some(u) => u@.identity == user_auth_data.claims.sub@ && u@.guid == g
                        && !u@.has_sender && !u@.has_closer,
                    None => false,
                }
            },
            None => post == pre && lookup(pre.users.guid_mapping@, g) is Some,
        }
    }
}

/// Books a slot for a validated join. An identity equal to the
/// presentation's presenter identity is booked as one more presenter;
/// any other identity is booked as a user, taking over its previous
/// connection if one stands. The answer carries the upgrade URL with the
/// drawn handle; the one way nothing is booked is a drawn handle that
/// collides with one already booked, and nothing changes.
pub fn register_join(
    presentation: &mut Presentation,
    user_auth_data: ClientJoinPresentationData,
) -> (r: Option<RegisterResponse>)
    requires
        old(presentation).wf(),
    ensures
        final(presentation).wf(),
        final(presentation).id == old(presentation).id,
        final(presentation).presenter_identity == old(presentation).presenter_identity,
        final(presentation).authentication_key == old(presentation).authentication_key,
        final(presentation).encrypted == old(presentation).encrypted,
        final(presentation).slide_settings == old(presentation).slide_settings,
        final(presentation).ratelimiter == old(presentation).ratelimiter,
        final(presentation).presentation_data == old(presentation).presentation_data,
        r is None ==> *final(presentation) == *old(presentation),
        exists|g: Seq<char>|
            #[trigger] register_outcome(
                *old(presentation),
                *final(presentation),
                user_auth_data,
                g,
                r,
            ),
{
    let identity = user_auth_data.claims.sub;
    let is_presenter = identity == presentation.presenter_identity;
    let new_client: Client<crate::messaging::OutgoingUserMessage> = Client::new(
        identity,
        user_auth_data.presentation,
    );
    let guid = new_client.guid.clone();
    if is_presenter {
        // a presenter may hold several simultaneous connections, each
        // under its own fresh handle
        if crate::kv::kv_get(&presentation.presenters, &guid).is_some() {
            proof {
                assert(register_outcome(
                    *old(presentation),
                    *presentation,
                    user_auth_data,
                    guid@,
                    None::<RegisterResponse>,
                ));
            }
            return None;
        }
        let presenter: crate::Presenter = Client {
            sender: None,
            closer: None,
            identity: new_client.identity,
            guid: new_client.guid,
            presentation: new_client.presentation,
            _phantom: core::marker::PhantomData,
        };
        kv_set(&mut presentation.presenters, guid.clone(), presenter);
    } else {
        if lookup_guard(presentation, &guid) {
            proof {
                assert(register_outcome(
                    *old(presentation),
                    *presentation,
                    user_auth_data,
                    guid@,
                    None::<RegisterResponse>,
                ));
            }
            return None;
        }
        presentation.users.insert(new_client);
    }
    let mut url = "/ws/".to_owned();
    url.append(presentation.id.as_str());
    url.append("/");
    url.append(guid.as_str());
    proof {
        assert(url@ =~= ws_url(presentation.id@, guid@));
    }
    let resp = RegisterResponse { url };
    proof {
        assert(register_outcome(
            *old(presentation),
            *presentation,
            user_auth_data,
            guid@,
            Some(resp),
        ));
    }
    Some(resp)
}

/// Whether the drawn handle is already booked for a different identity,
/// which the registry's takeover rule could not tell from a reconnect.
fn lookup_guard(presentation: &Presentation, guid: &String) -> (r: bool)
    ensures
        r == match lookup(presentation.users.guid_mapping@, guid@) {
            Some(_) => true,
            None => false,
        },
{
    match crate::kv::kv_get(&presentation.users.guid_mapping, guid) {
        Some(_) => true,
        None => false,
    }
}

} // verus!
