//! The rate-limiter pipeline: named limiters evaluated in insertion order,
//! whose state updates commit only when every limiter passes.

use vstd::prelude::*;
use vstd::string::StringExecFns;

use crate::kv::{contains_key, kv_get, kv_remove, kv_set, lookup, unique_keys};
use crate::messaging::IncomingUserMessage;
use crate::outside::now_unix_secs;

pub mod time;
pub mod value;

use time::{time_verdict, TimeLimiter};
use value::{value_verdict, ValueLimiter};

verus! {

/// A concrete limiter, as a presenter may install one.
#[derive(Clone, Copy, Debug, PartialEq)]
pub enum LimiterType {
    Time(TimeLimiter),
    Value(ValueLimiter),
}

/// What the rate limiter told a user: per-limiter notes in pipeline order
/// on success, or the name of the limiter that refused.
#[derive(Clone, Debug, PartialEq)]
pub enum RatelimiterResponse {
    Allowed(Vec<(String, String)>),
    Blocked(String),
}

/// A write to the shared limiter state: the scope (the sender's identity)
/// and the value to record under it.
#[derive(Debug)]
pub struct LimiterDataUpdate {
    pub data: String,
    pub value: u64,
}

/// One limiter's answer on a pass: a note for the client, and at most one
/// state write.
#[derive(Debug)]
pub struct LimiterUpdate {
    pub client_message: String,
    pub limiter_data_update: Option<LimiterDataUpdate>,
}

/// What a limiter answers: on pass, the client note and an optional state
/// write `(scope, value)`; on refusal, the note explaining it.
pub open spec fn spec_evaluate(
    l: LimiterType,
    last_message_time: u64,
    current_time: u64,
    existing: Option<u64>,
    identity: Seq<char>,
    message: IncomingUserMessage,
) -> Result<(Seq<char>, Option<(Seq<char>, u64)>), Seq<char>> {
    match l {
        LimiterType::Time(t) => match time_verdict(t.interval, last_message_time, current_time) {
            Ok(note) => Ok((note, None)),
            Err(note) => Err(note),
        },
        LimiterType::Value(v) => value_verdict(
            v,
            last_message_time,
            current_time,
            existing,
            identity,
            message,
        ),
    }
}

/// The carried update agrees with the specified pass verdict.
pub open spec fn update_matches(u: LimiterUpdate, pass: (Seq<char>, Option<(Seq<char>, u64)>)) -> bool {
    &&& u.client_message@ == pass.0
    &&& match (u.limiter_data_update, pass.1) {
        (Some(du), Some(su)) => du.data@ == su.0 && du.value == su.1,
        (None, None) => true,
        _ => false,
    }
}

impl LimiterType {
    /// Evaluates this limiter for one message, given the sender's last
    /// accepted time and the balance on record for the sender, if any.
    pub fn check_allowed(
        &self,
        last_message_time: u64,
        current_time: u64,
        existing: Option<u64>,
        identity: &String,
        message: &IncomingUserMessage,
    ) -> (r: Result<LimiterUpdate, String>)
        ensures
            match spec_evaluate(
                *self,
                last_message_time,
                current_time,
                existing,
                identity@,
                *message,
            ) {
                Ok(pass) => r matches Ok(u) && update_matches(u, pass),
                Err(note) => r matches Err(e) && e@ == note,
            },
    {
        match self {
            LimiterType::Time(t) => t.check_allowed(last_message_time, current_time),
            LimiterType::Value(v) => v.check_allowed(
                last_message_time,
                current_time,
                existing,
                identity,
                message,
            ),
        }
    }
}

/// The key under which the global state keeps a sender's last accepted time.
pub open spec fn lmt_key(identity: Seq<char>) -> Seq<char> {
    "lmt-"@ + identity
}

/// The key under which a named limiter's state for one scope is kept.
pub open spec fn data_key(name: Seq<char>, scope: Seq<char>) -> Seq<char> {
    name + "-"@ + scope
}

fn make_lmt_key(identity: &String) -> (k: String)
    ensures
        k@ == lmt_key(identity@),
{
    let mut k = "lmt-".to_owned();
    k.append(identity.as_str());
    k
}

fn make_data_key(name: &String, scope: &String) -> (k: String)
    ensures
        k@ == data_key(name@, scope@),
{
    let mut k = name.clone();
    k.append("-");
    k.append(scope.as_str());
    proof {
        assert(k@ =~= name@ + "-"@ + scope@);
    }
    k
}

proof fn lemma_append_cancel_right<A>(a: Seq<A>, b: Seq<A>, s: Seq<A>)
    requires
        a + s == b + s,
    ensures
        a == b,
{
    assert((a + s).len() == a.len() + s.len());
    assert((b + s).len() == b.len() + s.len());
    assert(a.len() == b.len());
    assert(a =~= b) by {
        assert(forall|i: int| 0 <= i < a.len() ==> a[i] == (a + s)[i]);
        assert(forall|i: int| 0 <= i < b.len() ==> b[i] == (b + s)[i]);
    }
}

proof fn lemma_data_key_injective(n1: Seq<char>, n2: Seq<char>, scope: Seq<char>)
    requires
        data_key(n1, scope) == data_key(n2, scope),
    ensures
        n1 == n2,
{
    assert((n1 + "-"@) + scope == (n2 + "-"@) + scope) by {
        assert(n1 + "-"@ + scope =~= (n1 + "-"@) + scope);
        assert(n2 + "-"@ + scope =~= (n2 + "-"@) + scope);
    }
    lemma_append_cancel_right(n1 + "-"@, n2 + "-"@, scope);
    lemma_append_cancel_right(n1, n2, "-"@);
}

/// On a pass, a limiter writes only under the sender's own identity.
proof fn lemma_update_scope(
    l: LimiterType,
    last_message_time: u64,
    current_time: u64,
    existing: Option<u64>,
    identity: Seq<char>,
    message: IncomingUserMessage,
)
    ensures
        match spec_evaluate(l, last_message_time, current_time, existing, identity, message) {
            Ok(pass) => match pass.1 {
                Some(su) => su.0 == identity,
                None => true,
            },
            Err(_) => true,
        },
{
}

/// Everything one pipeline evaluation at wall-clock reading `t` settles,
/// relating the state before (`pre`) to the state after (`post`) and the
/// answer: either the first refusing limiter is named and nothing changed,
/// or every limiter passed, each reported write is recorded, nothing else
/// in the shared state moves, the sender's last accepted time becomes `t`,
/// and the notes come back per limiter in pipeline order.
pub open spec fn pipeline_outcome(
    pre: Ratelimiter,
    post: Ratelimiter,
    identity: Seq<char>,
    message: IncomingUserMessage,
    t: u64,
    r: RatelimiterResponse,
) -> bool {
    &&& post.wf()
    &&& post.limiters == pre.limiters
    &&& match r {
        RatelimiterResponse::Blocked(name) => {
            &&& post == pre
            &&& exists|i: int|
                {
                    &&& 0 <= i < pre.limiters@.len()
                    &&& name@ == pre.limiters@[i].0@
                    &&& (#[trigger] pre.eval_at(identity, message, t, i)) is Err
                    &&& forall|j: int|
                        0 <= j < i ==> (#[trigger] pre.eval_at(identity, message, t, j)) is Ok
                }
        },
        RatelimiterResponse::Allowed(notes) => {
            &&& forall|i: int|
                0 <= i < pre.limiters@.len() ==> (#[trigger] pre.eval_at(
                    identity,
                    message,
                    t,
                    i,
                )) is Ok
            &&& notes@.len() == pre.limiters@.len()
            &&& forall|i: int|
                0 <= i < notes@.len() ==> (#[trigger] notes@[i]).0@ == pre.limiters@[i].0@
                    && notes@[i].1@ == pre.eval_at(identity, message, t, i)->Ok_0.0
            &&& forall|i: int|
                0 <= i < pre.limiters@.len() ==> match (#[trigger] pre.written_update(
                    identity,
                    message,
                    t,
                    i,
                )) {
                    Some(w) => lookup(post.limiter_data@, w.0) == Some(w.1),
                    None => true,
                }
            &&& forall|k: Seq<char>|
                #![trigger lookup(post.limiter_data@, k)]
                (forall|i: int|
                    0 <= i < pre.limiters@.len() ==> match (#[trigger] pre.written_update(
                        identity,
                        message,
                        t,
                        i,
                    )) {
                        Some(w) => w.0 != k,
                        None => true,
                    }) ==> lookup(post.limiter_data@, k) == lookup(pre.limiter_data@, k)
            &&& lookup(post.global_data@, lmt_key(identity)) == Some(t)
            &&& forall|k: Seq<char>|
                k != lmt_key(identity) ==> lookup(post.global_data@, k) == lookup(
                    pre.global_data@,
                    k,
                )
        },
    }
}

/// The pipeline: limiters by name in insertion order, their shared state,
/// and the global per-sender bookkeeping.
#[derive(Debug)]
pub struct Ratelimiter {
    pub limiters: Vec<(String, LimiterType)>,
    pub limiter_data: Vec<(String, u64)>,
    pub global_data: Vec<(String, u64)>,
}

impl Ratelimiter {
    /// Names are distinct in every table.
    pub open spec fn wf(self) -> bool {
        &&& unique_keys(self.limiters@)
        &&& unique_keys(self.limiter_data@)
        &&& unique_keys(self.global_data@)
    }

    /// When this sender's last message was accepted; 0 if never.
    pub open spec fn last_time_of(self, identity: Seq<char>) -> u64 {
        match lookup(self.global_data@, lmt_key(identity)) {
            Some(t) => t,
            None => 0,
        }
    }

    /// What limiter `i` answers for this message against this state.
    pub open spec fn eval_at(
        self,
        identity: Seq<char>,
        message: IncomingUserMessage,
        current_time: u64,
        i: int,
    ) -> Result<(Seq<char>, Option<(Seq<char>, u64)>), Seq<char>> {
        spec_evaluate(
            self.limiters@[i].1,
            self.last_time_of(identity),
            current_time,
            lookup(self.limiter_data@, data_key(self.limiters@[i].0@, identity)),
            identity,
            message,
        )
    }

    /// The state write limiter `i` reports, as a full key and value.
    pub open spec fn written_update(
        self,
        identity: Seq<char>,
        message: IncomingUserMessage,
        current_time: u64,
        i: int,
    ) -> Option<(Seq<char>, u64)> {
        match self.eval_at(identity, message, current_time, i) {
            Ok(pass) => match pass.1 {
                Some(su) => Some((data_key(self.limiters@[i].0@, su.0), su.1)),
                None => None,
            },
            Err(_) => None,
        }
    }

    pub fn new() -> (r: Self)
        ensures
            r.wf(),
            r.limiters@.len() == 0,
            r.limiter_data@.len() == 0,
            r.global_data@.len() == 0,
    {
        Self { limiters: Vec::new(), limiter_data: Vec::new(), global_data: Vec::new() }
    }

    /// Installs a limiter under a name; a limiter already under that name is
    /// replaced in place, otherwise the new one evaluates last.
    pub fn add_ratelimit(&mut self, name: String, limit: LimiterType)
        requires
            old(self).wf(),
        ensures
            final(self).wf(),
            lookup(final(self).limiters@, name@) == Some(limit),
            forall|k: Seq<char>| k != name@ ==> lookup(final(self).limiters@, k) == lookup(
                old(self).limiters@,
                k,
            ),
            !contains_key(old(self).limiters@, name@) ==> final(self).limiters@ == old(
                self,
            ).limiters@.push((name, limit)),
            final(self).limiter_data == old(self).limiter_data,
            final(self).global_data == old(self).global_data,
    {
        kv_set(&mut self.limiters, name, limit);
    }

    /// Drops the limiter under a name, if one is installed.
    pub fn remove_ratelimit(&mut self, name: &String)
        requires
            old(self).wf(),
        ensures
            final(self).wf(),
            lookup(final(self).limiters@, name@) is None,
            forall|k: Seq<char>| k != name@ ==> lookup(final(self).limiters@, k) == lookup(
                old(self).limiters@,
                k,
            ),
            final(self).limiter_data == old(self).limiter_data,
            final(self).global_data == old(self).global_data,
    {
        kv_remove(&mut self.limiters, name);
    }

    /// Evaluates the pipeline for one message at the given wall-clock time.
    ///
    /// Either some limiter refuses — the answer names the first one that
    /// did, and no state changed at all — or every limiter passes: each
    /// reported write is recorded, nothing else in the shared state moves,
    /// and the sender's last accepted time becomes `current_time`. The notes
    /// come back per limiter, in pipeline order.
    pub fn check_allowed_at(
        &mut self,
        identity: &String,
        message: &IncomingUserMessage,
        current_time: u64,
    ) -> (r: RatelimiterResponse)
        requires
            old(self).wf(),
        ensures
            pipeline_outcome(
                *old(self),
                *final(self),
                identity@,
                *message,
                current_time,
                r,
            ),
    {
        let ghost s0 = *self;
        let lkey = make_lmt_key(identity);
        let last: u64 = match kv_get(&self.global_data, &lkey) {
            Some(v) => *v,
            None => 0,
        };
        proof {
            assert(last == s0.last_time_of(identity@));
        }
        let n = self.limiters.len();
        let mut verdicts: Vec<LimiterUpdate> = Vec::new();
        for i in 0..n
            invariant
                *self == s0,
                s0.wf(),
                n == s0.limiters@.len(),
                last == s0.last_time_of(identity@),
                verdicts@.len() == i,
                forall|j: int|
                    0 <= j < i ==> (#[trigger] s0.eval_at(identity@, *message, current_time, j)) is Ok
                        && update_matches(
                        verdicts@[j],
                        s0.eval_at(identity@, *message, current_time, j)->Ok_0,
                    ),
        {
            let dkey = make_data_key(&self.limiters[i].0, identity);
            let existing: Option<u64> = match kv_get(&self.limiter_data, &dkey) {
                Some(v) => Some(*v),
                None => None,
            };
            let res = self.limiters[i].1.check_allowed(
                last,
                current_time,
                existing,
                identity,
                message,
            );
            match res {
                Ok(u) => {
                    verdicts.push(u);
                },
                Err(_e) => {
                    proof {
                        assert(s0.eval_at(identity@, *message, current_time, i as int) is Err);
                    }
                    return RatelimiterResponse::Blocked(self.limiters[i].0.clone());
                },
            }
        }
        let mut notes: Vec<(String, String)> = Vec::new();
        for i in 0..n
            invariant
                self.limiters == s0.limiters,
                self.global_data == s0.global_data,
                unique_keys(self.limiter_data@),
                s0.wf(),
                n == s0.limiters@.len(),
                verdicts@.len() == n,
                forall|j: int|
                    0 <= j < n ==> (#[trigger] s0.eval_at(identity@, *message, current_time, j)) is Ok
                        && update_matches(
                        verdicts@[j],
                        s0.eval_at(identity@, *message, current_time, j)->Ok_0,
                    ),
                notes@.len() == i,
                forall|j: int|
                    0 <= j < i ==> (#[trigger] notes@[j]).0@ == s0.limiters@[j].0@ && notes@[j].1@
                        == s0.eval_at(identity@, *message, current_time, j)->Ok_0.0,
                forall|j: int|
                    0 <= j < i ==> match (#[trigger] s0.written_update(
                        identity@,
                        *message,
                        current_time,
                        j,
                    )) {
                        Some(w) => lookup(self.limiter_data@, w.0) == Some(w.1),
                        None => true,
                    },
                forall|k: Seq<char>|
                    #![trigger lookup(self.limiter_data@, k)]
                    (forall|j: int|
                        0 <= j < i ==> match (#[trigger] s0.written_update(
                            identity@,
                            *message,
                            current_time,
                            j,
                        )) {
                            Some(w) => w.0 != k,
                            None => true,
                        }) ==> lookup(self.limiter_data@, k) == lookup(s0.limiter_data@, k),
        {
            notes.push((self.limiters[i].0.clone(), verdicts[i].client_message.clone()));
            proof {
                lemma_update_scope(
                    s0.limiters@[i as int].1,
                    s0.last_time_of(identity@),
                    current_time,
                    lookup(s0.limiter_data@, data_key(s0.limiters@[i as int].0@, identity@)),
                    identity@,
                    *message,
                );
            }
            if let Some(du) = &verdicts[i].limiter_data_update {
                let value = du.value;
                let wkey = make_data_key(&self.limiters[i].0, &du.data);
                proof {
                    assert(s0.written_update(identity@, *message, current_time, i as int) == Some(
                        (wkey@, value),
                    ));
                    // Distinct limiter names write distinct keys.
                    assert forall|j: int|
                        0 <= j < i implies match (#[trigger] s0.written_update(
                        identity@,
                        *message,
                        current_time,
                        j,
                    )) {
                        Some(w) => w.0 != wkey@,
                        None => true,
                    } by {
                        lemma_update_scope(
                            s0.limiters@[j].1,
                            s0.last_time_of(identity@),
                            current_time,
                            lookup(s0.limiter_data@, data_key(s0.limiters@[j].0@, identity@)),
                            identity@,
                            *message,
                        );
                        match s0.written_update(identity@, *message, current_time, j) {
                            Some(w) => {
                                if w.0 == wkey@ {
                                    lemma_data_key_injective(
                                        s0.limiters@[j].0@,
                                        s0.limiters@[i as int].0@,
                                        identity@,
                                    );
                                }
                            },
                            None => {},
                        }
                    }
                }
                kv_set(&mut self.limiter_data, wkey, value);
            }
        }
        kv_set(&mut self.global_data, lkey, current_time);
        RatelimiterResponse::Allowed(notes)
    }

    /// Law: a committed check is visible to the next one. Once the global
    /// bookkeeping records `t` for an identity — as every allowed check
    /// makes it do — the next check reads `t` as that identity's last
    /// accepted time.
    pub proof fn lemma_committed_time_visible(self, identity: Seq<char>, t: u64)
        requires
            lookup(self.global_data@, lmt_key(identity)) == Some(t),
        ensures
            self.last_time_of(identity) == t,
    {
    }

    /// Evaluates the pipeline at the wall clock's current reading: at some
    /// reading `t`, the whole outcome is exactly one evaluation at `t`. In
    /// particular a refusal leaves the whole state untouched, whatever the
    /// clock said.
    pub fn check_allowed(&mut self, identity: &String, message: &IncomingUserMessage) -> (r:
        RatelimiterResponse)
        requires
            old(self).wf(),
        ensures
            exists|t: u64|
                #[trigger] pipeline_outcome(
                    *old(self),
                    *final(self),
                    identity@,
                    *message,
                    t,
                    r,
                ),
            final(self).wf(),
            final(self).limiters == old(self).limiters,
            r matches RatelimiterResponse::Blocked(_) ==> *final(self) == *old(self),
            old(self).limiters@.len() == 0 ==> r is Allowed,
    {
        let now = now_unix_secs();
        let r = self.check_allowed_at(identity, message, now);
        proof {
            assert(pipeline_outcome(*old(self), *self, identity@, *message, now, r));
        }
        r
    }
}

impl Default for Ratelimiter {
    fn default() -> (r: Self)
        ensures
            r.wf(),
            r.limiters@.len() == 0,
            r.limiter_data@.len() == 0,
            r.global_data@.len() == 0,
    {
        Self::new()
    }
}

} // verus!
