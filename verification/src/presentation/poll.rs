//! The poll engine: poll lifecycle, one vote per identity, and tallying.

use vstd::prelude::*;
use vstd::string::StringExecFns;

use crate::kv::{
    contains_key, kv_find, kv_get, kv_set, lemma_lookup_none_no_match, lemma_lookup_some_index,
    lemma_lookup_update, lookup, unique_keys,
};
use crate::messaging::NewPollMessage;

verus! {

/// How a poll is voted in, and what a single ballot carries.
#[derive(Clone, Debug, PartialEq)]
pub enum VoteType {
    /// One choice, counted as one.
    SingleBinary { choice: String },
    /// Several choices, each taken or not.
    MultipleBinary { choices: Vec<(String, bool)> },
    /// One choice with a weight; declared but votes of this kind are refused.
    SingleValue { choice: String, value: u8 },
    /// Several weighted choices; declared but votes of this kind are refused.
    MultipleValue { choices: Vec<(String, u8)> },
}

/// The mathematical shape of a vote kind: its choices as character
/// sequences.
pub enum VoteTypeView {
    SingleBinary { choice: Seq<char> },
    MultipleBinary { choices: Seq<(Seq<char>, bool)> },
    SingleValue { choice: Seq<char>, value: u8 },
    MultipleValue { choices: Seq<(Seq<char>, u8)> },
}

impl View for VoteType {
    type V = VoteTypeView;

    open spec fn view(&self) -> VoteTypeView {
        match self {
            VoteType::SingleBinary { choice } => VoteTypeView::SingleBinary { choice: choice@ },
            VoteType::MultipleBinary { choices } => VoteTypeView::MultipleBinary {
                choices: choices@.map_values(|p: (String, bool)| (p.0@, p.1)),
            },
            VoteType::SingleValue { choice, value } => VoteTypeView::SingleValue {
                choice: choice@,
                value: *value,
            },
            VoteType::MultipleValue { choices } => VoteTypeView::MultipleValue {
                choices: choices@.map_values(|p: (String, u8)| (p.0@, p.1)),
            },
        }
    }
}

/// A ballot: which poll, and the vote itself.
#[derive(Clone, Debug, PartialEq)]
pub struct Vote {
    pub poll_name: String,
    pub vote_type: VoteType,
}

/// A ballot together with the verified identity that cast it.
#[derive(Clone, Debug, PartialEq)]
pub struct IdentifiedVote {
    pub identity: String,
    pub vote: Vote,
}

/// Whether `c` is among the choices.
pub open spec fn choice_in(choices: Seq<String>, c: Seq<char>) -> bool {
    exists|i: int| 0 <= i < choices.len() && choices[i]@ == c
}

/// The choices are pairwise distinct.
pub open spec fn unique_choices(choices: Seq<String>) -> bool {
    forall|i: int, j: int| 0 <= i < j < choices.len() ==> choices[i]@ != choices[j]@
}

/// Whether the ballot takes choice `c`.
pub open spec fn picked(ballot: Seq<(String, bool)>, c: Seq<char>) -> bool {
    exists|i: int| 0 <= i < ballot.len() && ballot[i].0@ == c && ballot[i].1
}

/// How much one accepted ballot adds to the tally of choice `c`.
pub open spec fn tally_delta(vt: VoteType, c: Seq<char>) -> int {
    match vt {
        VoteType::SingleBinary { choice } => if choice@ == c {
            1
        } else {
            0
        },
        VoteType::MultipleBinary { choices } => if picked(choices@, c) {
            1
        } else {
            0
        },
        _ => 0,
    }
}

/// The tally recorded for choice `c`; a choice never voted for counts 0.
pub open spec fn count_of(totals: Seq<(String, u64)>, c: Seq<char>) -> int {
    match lookup(totals, c) {
        Some(v) => v as int,
        None => 0,
    }
}

/// The sum of all recorded tallies.
pub open spec fn sum_values(s: Seq<(String, u64)>) -> int
    decreases s.len(),
{
    if s.len() == 0 {
        0
    } else {
        s[0].1 + sum_values(s.drop_first())
    }
}

proof fn lemma_sum_update(s: Seq<(String, u64)>, i: int, p: (String, u64))
    requires
        0 <= i < s.len(),
    ensures
        sum_values(s.update(i, p)) == sum_values(s) - s[i].1 + p.1,
    decreases s.len(),
{
    if i == 0 {
        assert(s.update(0, p).drop_first() =~= s.drop_first());
    } else {
        assert(s.update(i, p).drop_first() =~= s.drop_first().update(i - 1, p));
        lemma_sum_update(s.drop_first(), i - 1, p);
    }
}

proof fn lemma_sum_push(s: Seq<(String, u64)>, p: (String, u64))
    ensures
        sum_values(s.push(p)) == sum_values(s) + p.1,
    decreases s.len(),
{
    let s1 = s.push(p);
    if s.len() == 0 {
        assert(s1[0] == p);
        assert(s1.drop_first() =~= Seq::<(String, u64)>::empty());
        assert(sum_values(Seq::<(String, u64)>::empty()) == 0);
        assert(sum_values(s1) == s1[0].1 + sum_values(s1.drop_first()));
    } else {
        assert(s1.drop_first() =~= s.drop_first().push(p));
        lemma_sum_push(s.drop_first(), p);
        assert(s1[0] == s[0]);
        assert(sum_values(s1) == s1[0].1 + sum_values(s1.drop_first()));
        assert(sum_values(s) == s[0].1 + sum_values(s.drop_first()));
    }
}

/// Every recorded tally is bounded by the sum's bound on its entry.
proof fn lemma_count_bounded(totals: Seq<(String, u64)>, c: Seq<char>, bound: int)
    requires
        forall|i: int| 0 <= i < totals.len() ==> (#[trigger] totals[i]).1 <= bound,
        0 <= bound,
    ensures
        count_of(totals, c) <= bound,
{
    if lookup(totals, c) is Some {
        let i = lemma_lookup_some_index(totals, c);
    }
}

proof fn lemma_picked_extend(b: Seq<(String, bool)>, i: int, c: Seq<char>)
    requires
        0 <= i < b.len(),
    ensures
        picked(b.subrange(0, i + 1), c) == (picked(b.subrange(0, i), c) || (b[i].0@ == c
            && b[i].1)),
{
    let pre = b.subrange(0, i);
    let cur = b.subrange(0, i + 1);
    assert(forall|j: int| 0 <= j < i + 1 ==> cur[j] == b[j]);
    assert(forall|j: int| 0 <= j < i ==> pre[j] == b[j]);
    if picked(cur, c) {
        let j = choose|j: int| 0 <= j < cur.len() && cur[j].0@ == c && cur[j].1;
        if j < i {
            assert(pre[j].0@ == c && pre[j].1);
        }
    }
    if picked(pre, c) {
        let j = choose|j: int| 0 <= j < pre.len() && pre[j].0@ == c && pre[j].1;
        assert(cur[j].0@ == c && cur[j].1);
    }
    if b[i].0@ == c && b[i].1 {
        assert(cur[i].0@ == c && cur[i].1);
    }
}

/// Reports whether `needle` is among the strings of `v`.
pub fn string_vec_contains(v: &Vec<String>, needle: &String) -> (r: bool)
    ensures
        r == choice_in(v@, needle@),
{
    let n = v.len();
    for i in 0..n
        invariant
            n == v@.len(),
            forall|j: int| 0 <= j < i ==> v@[j]@ != needle@,
    {
        if v[i] == *needle {
            return true;
        }
    }
    false
}

/// A ballot is well formed for a poll when its choices are pairwise
/// distinct and every one of them is a declared choice of the poll.
fn ballot_ok(ballot: &Vec<(String, bool)>, choices: &Vec<String>) -> (r: bool)
    ensures
        r == (unique_keys(ballot@) && forall|i: int|
            0 <= i < ballot@.len() ==> choice_in(choices@, (#[trigger] ballot@[i]).0@)),
{
    let n = ballot.len();
    for i in 0..n
        invariant
            n == ballot@.len(),
            forall|a: int, b: int| 0 <= a < b < i ==> ballot@[a].0@ != ballot@[b].0@,
            forall|j: int| 0 <= j < i ==> choice_in(choices@, (#[trigger] ballot@[j]).0@),
    {
        if !string_vec_contains(choices, &ballot[i].0) {
            return false;
        }
        for j in 0..i
            invariant
                n == ballot@.len(),
                i < n,
                forall|jj: int| 0 <= jj < j ==> ballot@[jj].0@ != ballot@[i as int].0@,
        {
            if ballot[j].0 == ballot[i].0 {
                assert(!unique_keys(ballot@));
                return false;
            }
        }
    }
    true
}

/// Tallying plans, by the kind of ballot accepted.
enum TallyPlan {
    Single(String),
    Multi(Vec<(String, bool)>),
}

/// Copies a ballot entry for entry.
fn copy_ballot(v: &Vec<(String, bool)>) -> (r: Vec<(String, bool)>)
    ensures
        r@ == v@,
{
    let n = v.len();
    let mut r: Vec<(String, bool)> = Vec::new();
    for i in 0..n
        invariant
            n == v@.len(),
            r@.len() == i,
            forall|j: int| 0 <= j < i ==> r@[j] == v@[j],
    {
        r.push((v[i].0.clone(), v[i].1));
        proof {
            assert(r@[i as int] == v@[i as int]);
        }
    }
    proof {
        assert(r@ =~= v@);
    }
    r
}

/// Copies a list of choices entry for entry.
pub fn copy_strings(v: &Vec<String>) -> (r: Vec<String>)
    ensures
        r@ == v@,
{
    let n = v.len();
    let mut r: Vec<String> = Vec::new();
    for i in 0..n
        invariant
            n == v@.len(),
            r@.len() == i,
            forall|j: int| 0 <= j < i ==> r@[j] == v@[j],
    {
        r.push(v[i].clone());
        proof {
            assert(r@[i as int] == v@[i as int]);
        }
    }
    proof {
        assert(r@ =~= v@);
    }
    r
}

/// A poll: its declared choices and kind, the ballots recorded so far, one
/// per identity, and the running tally per choice.
#[derive(Debug)]
pub struct Poll {
    pub votes: Vec<(String, VoteType)>,
    pub totals: Vec<(String, u64)>,
    pub choices: Vec<String>,
    pub vote_type: VoteType,
}

impl Poll {
    /// At most one ballot per identity; one tally per choice, each bounded
    /// by the number of ballots; and in a single-choice poll the tallies
    /// sum to exactly the number of ballots.
    pub open spec fn wf(self) -> bool {
        &&& unique_keys(self.votes@)
        &&& unique_keys(self.totals@)
        &&& unique_choices(self.choices@)
        &&& forall|i: int|
            0 <= i < self.totals@.len() ==> (#[trigger] self.totals@[i]).1 <= self.votes@.len()
        &&& (self.vote_type matches VoteType::SingleBinary { .. } ==> sum_values(self.totals@)
            == self.votes@.len())
    }

    /// Whether a ballot of this shape is acceptable for this poll: its kind
    /// matches the poll's declared kind, its choices are declared, and the
    /// weighted kinds are refused outright.
    pub open spec fn vote_acceptable(self, vt: VoteType) -> bool {
        match (self.vote_type, vt) {
            (VoteType::SingleBinary { .. }, VoteType::SingleBinary { choice }) => choice_in(
                self.choices@,
                choice@,
            ),
            (VoteType::MultipleBinary { .. }, VoteType::MultipleBinary { choices }) => unique_keys(
                choices@,
            ) && forall|i: int|
                0 <= i < choices@.len() ==> choice_in(self.choices@, (#[trigger] choices@[i]).0@),
            _ => false,
        }
    }

    /// Whether this poll takes a ballot of this shape from this identity.
    pub open spec fn spec_accepts(self, identity: Seq<char>, vt: VoteType) -> bool {
        &&& !contains_key(self.votes@, identity)
        &&& self.vote_acceptable(vt)
    }

    /// A fresh poll over the given options, deduplicated.
    pub fn new(options: &Vec<String>, vote_type: VoteType) -> (r: Poll)
        ensures
            r.wf(),
            r.votes@.len() == 0,
            r.totals@.len() == 0,
            r.vote_type == vote_type,
            forall|c: Seq<char>| #[trigger] choice_in(r.choices@, c) == choice_in(options@, c),
    {
        let n = options.len();
        let mut choices: Vec<String> = Vec::new();
        for i in 0..n
            invariant
                n == options@.len(),
                unique_choices(choices@),
                forall|c: Seq<char>| #[trigger]
                    choice_in(choices@, c) == exists|j: int|
                        0 <= j < i && (#[trigger] options@[j])@ == c,
        {
            let ghost prev = choices@;
            if !string_vec_contains(&choices, &options[i]) {
                choices.push(options[i].clone());
                proof {
                    assert forall|c: Seq<char>| #[trigger] choice_in(choices@, c) == (choice_in(
                        prev,
                        c,
                    ) || options@[i as int]@ == c) by {
                        if choice_in(choices@, c) {
                            let j = choose|j: int|
                                0 <= j < choices@.len() && choices@[j]@ == c;
                            if j < prev.len() {
                                assert(prev[j]@ == c);
                            }
                        }
                        if choice_in(prev, c) {
                            let j = choose|j: int| 0 <= j < prev.len() && prev[j]@ == c;
                            assert(choices@[j]@ == c);
                        }
                        if options@[i as int]@ == c {
                            assert(choices@[choices@.len() - 1]@ == c);
                        }
                    }
                }
            } else {
                proof {
                    assert(choice_in(choices@, options@[i as int]@));
                }
            }
        }
        proof {
            assert forall|c: Seq<char>| #[trigger] choice_in(choices@, c) == choice_in(
                options@,
                c,
            ) by {
                if choice_in(options@, c) {
                    let j = choose|j: int| 0 <= j < options@.len() && options@[j]@ == c;
                    assert(0 <= j < n && options@[j]@ == c);
                }
            }
        }
        Poll { votes: Vec::new(), totals: Vec::new(), choices, vote_type }
    }

    /// Records a ballot: refused if the identity has already voted, the
    /// kind does not match, a choice is not declared, or the kind is one of
    /// the weighted ones. On acceptance the ballot is recorded and each
    /// taken choice's tally rises by one; on refusal nothing changes.
    pub fn vote(&mut self, vote: IdentifiedVote) -> (r: bool)
        requires
            old(self).wf(),
        ensures
            final(self).wf(),
            final(self).choices == old(self).choices,
            final(self).vote_type == old(self).vote_type,
            r == old(self).spec_accepts(vote.identity@, vote.vote.vote_type),
            !r ==> *final(self) == *old(self),
            r ==> final(self).votes@ == old(self).votes@.push(
                (vote.identity, vote.vote.vote_type),
            ),
            r ==> forall|c: Seq<char>| #[trigger] count_of(final(self).totals@, c) == count_of(
                old(self).totals@,
                c,
            ) + tally_delta(vote.vote.vote_type, c),
    {
        let ghost s0 = *self;
        let ghost vt0 = vote.vote.vote_type;
        let voted = match kv_get(&self.votes, &vote.identity) {
            Some(_) => true,
            None => false,
        };
        let acceptable: bool = if voted {
            false
        } else {
            match (&self.vote_type, &vote.vote.vote_type) {
                (VoteType::SingleBinary { .. }, VoteType::SingleBinary { choice }) => {
                    string_vec_contains(&self.choices, choice)
                },
                (VoteType::MultipleBinary { .. }, VoteType::MultipleBinary { choices }) => {
                    ballot_ok(choices, &self.choices)
                },
                _ => false,
            }
        };
        if !acceptable {
            return false;
        }
        let plan: TallyPlan = match &vote.vote.vote_type {
            VoteType::SingleBinary { choice } => TallyPlan::Single(choice.clone()),
            VoteType::MultipleBinary { choices } => TallyPlan::Multi(copy_ballot(choices)),
            _ => {
                proof {
                    assert(false);
                }
                vstd::pervasive::unreached()
            },
        };
        proof {
            lemma_lookup_none_no_match(s0.votes@, vote.identity@);
        }
        self.votes.push((vote.identity, vote.vote.vote_type));
        let n1 = self.votes.len();
        let ghost totals0 = self.totals@;
        proof {
            assert(unique_keys(self.votes@)) by {
                assert(forall|j: int|
                    0 <= j < s0.votes@.len() ==> self.votes@[j] == s0.votes@[j]);
            }
            assert(forall|i: int| 0 <= i < totals0.len() ==> (#[trigger] totals0[i]).1 <= n1 - 1);
        }
        match plan {
            TallyPlan::Single(key) => {
                let ghost key0 = vt0->SingleBinary_choice;
                let count: u64 = match kv_get(&self.totals, &key) {
                    Some(v) => *v,
                    None => 0,
                };
                proof {
                    lemma_count_bounded(totals0, key@, n1 - 1);
                    assert(count <= n1 - 1);
                }
                let ghost pre = self.totals@;
                let newcount = count + 1;
                kv_set(&mut self.totals, key, newcount);
                proof {
                    assert(key == key0);
                    if contains_key(pre, key0@) {
                        let i = choose|i: int|
                            0 <= i < pre.len() && pre[i].0@ == key0@ && self.totals@ == pre.update(
                                i,
                                (key0, newcount),
                            );
                        lemma_sum_update(pre, i, (key0, newcount));
                        assert(forall|j: int| 0 <= j < i ==> pre[j].0@ != key0@);
                        crate::kv::lemma_lookup_first_match(pre, key0@, i);
                        assert(pre[i].1 == count);
                        assert(forall|idx: int|
                            0 <= idx < self.totals@.len() ==> self.totals@[idx] == (if idx == i {
                                (key0, newcount)
                            } else {
                                pre[idx]
                            }));
                    } else {
                        lemma_sum_push(pre, (key0, newcount));
                        assert(count == 0);
                        assert(forall|idx: int|
                            0 <= idx < pre.len() ==> self.totals@[idx] == pre[idx]);
                        assert(self.totals@[pre.len() as int] == (key0, newcount));
                    }
                    assert(forall|idx: int|
                        0 <= idx < self.totals@.len() ==> (#[trigger] self.totals@[idx]).1 <= n1);
                    assert(sum_values(self.totals@) == sum_values(totals0) + 1);
                    assert forall|c: Seq<char>| #[trigger] count_of(self.totals@, c) == count_of(
                        totals0,
                        c,
                    ) + tally_delta(vt0, c) by {
                        if c != key0@ {
                            assert(lookup(self.totals@, c) == lookup(pre, c));
                        }
                    }
                }
            },
            TallyPlan::Multi(ballot) => {
                let ghost bseq = vt0->MultipleBinary_choices@;
                let m = ballot.len();
                proof {
                    assert(ballot@ == bseq);
                    assert(bseq.subrange(0, 0) =~= Seq::<(String, bool)>::empty());
                }
                for j in 0..m
                    invariant
                        m == bseq.len(),
                        ballot@ == bseq,
                        unique_keys(bseq),
                        unique_keys(self.totals@),
                        self.votes@.len() == n1,
                        n1 <= usize::MAX,
                        1 <= n1,
                        self.votes@ == s0.votes@.push((vote.identity, vt0)),
                        self.choices == s0.choices,
                        self.vote_type == s0.vote_type,
                        forall|i: int|
                            0 <= i < totals0.len() ==> (#[trigger] totals0[i]).1 <= n1 - 1,
                        forall|i: int|
                            0 <= i < self.totals@.len() ==> (#[trigger] self.totals@[i]).1 <= n1,
                        forall|c: Seq<char>| #[trigger]
                            count_of(self.totals@, c) == count_of(totals0, c) + (if picked(
                                bseq.subrange(0, j as int),
                                c,
                            ) {
                                1int
                            } else {
                                0
                            }),
                {
                    let taken = ballot[j].1;
                    let ghost pre = self.totals@;
                    if taken {
                        let key = ballot[j].0.clone();
                        proof {
                            // the ballot's keys are distinct, so this choice
                            // was not yet counted for this ballot
                            assert(!picked(bseq.subrange(0, j as int), key@)) by {
                                if picked(bseq.subrange(0, j as int), key@) {
                                    let jj = choose|jj: int|
                                        0 <= jj < j && bseq.subrange(0, j as int)[jj].0@ == key@
                                            && bseq.subrange(0, j as int)[jj].1;
                                    assert(bseq[jj].0@ == bseq[j as int].0@);
                                }
                            }
                            lemma_count_bounded(totals0, key@, n1 - 1);
                            assert(count_of(pre, key@) == count_of(totals0, key@));
                        }
                        let count: u64 = match kv_get(&self.totals, &key) {
                            Some(v) => *v,
                            None => 0,
                        };
                        assert(count <= n1 - 1);
                        kv_set(&mut self.totals, key, count + 1);
                        proof {
                            assert forall|c: Seq<char>| #[trigger] count_of(self.totals@, c)
                                == count_of(totals0, c) + (if picked(
                                bseq.subrange(0, j as int + 1),
                                c,
                            ) {
                                1int
                            } else {
                                0
                            }) by {
                                lemma_picked_extend(bseq, j as int, c);
                                if c != key@ {
                                    assert(lookup(self.totals@, c) == lookup(pre, c));
                                    assert(count_of(pre, c) == count_of(totals0, c) + (
                                    if picked(bseq.subrange(0, j as int), c) {
                                        1int
                                    } else {
                                        0
                                    }));
                                    assert(count_of(self.totals@, c) == count_of(pre, c));
                                } else {
                                    assert(lookup(self.totals@, c) == Some((count + 1) as u64));
                                    assert(!picked(bseq.subrange(0, j as int), c));
                                    assert(count_of(pre, c) == count_of(totals0, c));
                                    assert(count_of(self.totals@, c) == count + 1);
                                }
                            }
                            assert forall|i: int|
                                0 <= i < self.totals@.len() implies (#[trigger] self.totals@[i]).1
                                <= n1 by {
                                if contains_key(pre, key@) {
                                    let i2 = choose|i2: int|
                                        0 <= i2 < pre.len() && pre[i2].0@ == key@ && self.totals@
                                            == pre.update(i2, (ballot@[j as int].0, (count + 1) as u64));
                                    assert(self.totals@[i] == (if i == i2 {
                                        (ballot@[j as int].0, (count + 1) as u64)
                                    } else {
                                        pre[i]
                                    }));
                                } else {
                                    if i < pre.len() {
                                        assert(self.totals@[i] == pre[i]);
                                    } else {
                                        assert(self.totals@[i] == (ballot@[j as int].0, (count
                                            + 1) as u64));
                                    }
                                }
                            }
                        }
                    } else {
                        proof {
                            assert forall|c: Seq<char>| #[trigger] count_of(self.totals@, c)
                                == count_of(totals0, c) + (if picked(
                                bseq.subrange(0, j as int + 1),
                                c,
                            ) {
                                1int
                            } else {
                                0
                            }) by {
                                lemma_picked_extend(bseq, j as int, c);
                            }
                        }
                    }
                }
                proof {
                    assert(bseq.subrange(0, m as int) =~= bseq);
                }
            },
        }
        true
    }
}

/// The set of polls of one presentation, by name.
#[derive(Debug)]
pub struct Polls {
    pub polls: Vec<(String, Poll)>,
}

/// The note sent when a vote names a poll that does not exist.
pub open spec fn no_poll_note(name: Seq<char>) -> Seq<char> {
    "No poll with name "@ + name + " exists"@
}

/// The note sent when a poll refuses a ballot.
pub open spec fn cannot_vote_note(identity: Seq<char>, name: Seq<char>) -> Seq<char> {
    identity + " could not vote in "@ + name
}

impl Polls {
    /// Poll names are distinct and every poll is well formed.
    pub open spec fn wf(self) -> bool {
        &&& unique_keys(self.polls@)
        &&& forall|i: int| 0 <= i < self.polls@.len() ==> (#[trigger] self.polls@[i]).1.wf()
    }

    pub fn new() -> (r: Self)
        ensures
            r.wf(),
            r.polls@.len() == 0,
    {
        Polls { polls: Vec::new() }
    }

    /// Installs a poll under a new name, with empty ballots and tallies.
    /// A poll by that name already standing is left as it is, and its
    /// definition comes back as the error, so the caller can echo it.
    pub fn new_poll(&mut self, poll: NewPollMessage) -> (r: Result<(), NewPollMessage>)
        requires
            old(self).wf(),
        ensures
            final(self).wf(),
            match r {
                Ok(()) => {
                    &&& !contains_key(old(self).polls@, poll.name@)
                    &&& final(self).polls@.len() == old(self).polls@.len() + 1
                    &&& forall|k: Seq<char>|
                        k != poll.name@ ==> lookup(final(self).polls@, k) == lookup(
                            old(self).polls@,
                            k,
                        )
                    &&& match lookup(final(self).polls@, poll.name@) {
                        Some(p) => {
                            &&& p.votes@.len() == 0
                            &&& p.totals@.len() == 0
                            &&& p.vote_type == poll.vote_type
                            &&& forall|c: Seq<char>| #[trigger]
                                choice_in(p.choices@, c) == choice_in(poll.options@, c)
                        },
                        None => false,
                    }
                },
                Err(echo) => {
                    &&& contains_key(old(self).polls@, poll.name@)
                    &&& *final(self) == *old(self)
                    &&& echo.name@ == poll.name@
                    &&& match lookup(old(self).polls@, poll.name@) {
                        Some(p) => echo.options@ == p.choices@ && echo.vote_type@
                            == p.vote_type@,
                        None => false,
                    }
                },
            },
    {
        match kv_find(&self.polls, &poll.name) {
            Some(i) => {
                let existing = &self.polls[i].1;
                let echo = NewPollMessage {
                    name: poll.name.clone(),
                    options: copy_strings(&existing.choices),
                    vote_type: clone_vote_type(&existing.vote_type),
                };
                Err(echo)
            },
            None => {
                let fresh = Poll::new(&poll.options, poll.vote_type);
                kv_set(&mut self.polls, poll.name, fresh);
                Ok(())
            },
        }
    }

    /// Applies a ballot to the poll it names. The answer distinguishes a
    /// poll that does not exist from a poll that refused the ballot, each
    /// with the note the voter is sent; nothing changes except the named
    /// poll, and only when it accepted.
    pub fn vote_in_poll(&mut self, vote: IdentifiedVote) -> (r: Result<(), String>)
        requires
            old(self).wf(),
        ensures
            final(self).wf(),
            final(self).polls@.len() == old(self).polls@.len(),
            forall|k: Seq<char>|
                k != vote.vote.poll_name@ ==> lookup(final(self).polls@, k) == lookup(
                    old(self).polls@,
                    k,
                ),
            match lookup(old(self).polls@, vote.vote.poll_name@) {
                None => {
                    &&& r matches Err(e) && e@ == no_poll_note(vote.vote.poll_name@)
                    &&& *final(self) == *old(self)
                },
                Some(p) => {
                    if p.spec_accepts(vote.identity@, vote.vote.vote_type) {
                        &&& r is Ok
                        &&& match lookup(final(self).polls@, vote.vote.poll_name@) {
                            Some(p2) => {
                                &&& p2.votes@ == p.votes@.push(
                                    (vote.identity, vote.vote.vote_type),
                                )
                                &&& p2.choices == p.choices
                                &&& p2.vote_type == p.vote_type
                                &&& forall|c: Seq<char>| #[trigger]
                                    count_of(p2.totals@, c) == count_of(p.totals@, c)
                                        + tally_delta(vote.vote.vote_type, c)
                            },
                            None => false,
                        }
                    } else {
                        &&& r matches Err(e) && e@ == cannot_vote_note(
                            vote.identity@,
                            vote.vote.poll_name@,
                        )
                        &&& final(self).polls@ == old(self).polls@
                    }
                },
            },
    {
        let ghost s0 = *self;
        let name = vote.vote.poll_name.clone();
        let identity = vote.identity.clone();
        match kv_find(&self.polls, &name) {
            None => {
                let mut msg = "No poll with name ".to_owned();
                msg.append(name.as_str());
                msg.append(" exists");
                proof {
                    assert(msg@ =~= no_poll_note(vote.vote.poll_name@));
                }
                Err(msg)
            },
            Some(i) => {
                let ghost pre = self.polls@;
                let mut pair = self.polls.remove(i);
                let accepted = pair.1.vote(vote);
                self.polls.insert(i, pair);
                proof {
                    assert(self.polls@ =~= pre.update(
                        i as int,
                        (pre[i as int].0, self.polls@[i as int].1),
                    ));
                    lemma_lookup_update(
                        pre,
                        i as int,
                        self.polls@[i as int],
                        vote.vote.poll_name@,
                    );
                    crate::kv::lemma_lookup_update_all(
                        pre,
                        i as int,
                        self.polls@[i as int],
                    );
                    if !accepted {
                        assert(self.polls@ =~= pre);
                    }
                    assert forall|idx: int|
                        0 <= idx < self.polls@.len() implies (#[trigger] self.polls@[idx]).1.wf()
                    by {
                        if idx != i as int {
                            assert(self.polls@[idx] == pre[idx]);
                        }
                    }
                }
                if accepted {
                    Ok(())
                } else {
                    let mut msg = identity;
                    msg.append(" could not vote in ");
                    msg.append(name.as_str());
                    proof {
                        assert(msg@ =~= cannot_vote_note(
                            vote.identity@,
                            vote.vote.poll_name@,
                        ));
                    }
                    Err(msg)
                }
            },
        }
    }

    /// A snapshot of the tallies of the poll named, if it exists.
    pub fn get_poll_totals(&self, poll_name: &String) -> (r: Option<Vec<(String, u64)>>)
        ensures
            match lookup(self.polls@, poll_name@) {
                Some(p) => r matches Some(t) && t@ == p.totals@,
                None => r is None,
            },
    {
        match kv_find(&self.polls, poll_name) {
            Some(i) => {
                let poll = &self.polls[i].1;
                let n = poll.totals.len();
                let mut out: Vec<(String, u64)> = Vec::new();
                for j in 0..n
                    invariant
                        n == poll.totals@.len(),
                        out@.len() == j,
                        forall|m: int| 0 <= m < j ==> out@[m] == poll.totals@[m],
                {
                    out.push((poll.totals[j].0.clone(), poll.totals[j].1));
                    proof {
                        assert(out@[j as int] == poll.totals@[j as int]);
                    }
                }
                proof {
                    assert(out@ =~= poll.totals@);
                }
                Some(out)
            },
            None => None,
        }
    }
}

/// How a set of polls changes when one identified ballot is applied: a
/// ballot for an unknown poll or one the poll refuses changes nothing;
/// an accepted ballot is appended to the named poll's record and raises
/// each taken choice's tally by one. No other poll moves.
pub open spec fn vote_applied(
    pre: Seq<(String, Poll)>,
    post: Seq<(String, Poll)>,
    identity: String,
    v: Vote,
) -> bool {
    &&& post.len() == pre.len()
    &&& forall|k: Seq<char>| k != v.poll_name@ ==> #[trigger] lookup(post, k) == lookup(pre, k)
    &&& match lookup(pre, v.poll_name@) {
        None => post == pre,
        Some(p) => if p.spec_accepts(identity@, v.vote_type) {
            match lookup(post, v.poll_name@) {
                Some(p2) => {
                    &&& p2.votes@ == p.votes@.push((identity, v.vote_type))
                    &&& p2.choices == p.choices
                    &&& p2.vote_type == p.vote_type
                    &&& forall|c: Seq<char>| #[trigger]
                        count_of(p2.totals@, c) == count_of(p.totals@, c) + tally_delta(
                            v.vote_type,
                            c,
                        )
                },
                None => false,
            }
        } else {
            post == pre
        },
    }
}

/// Law: vote idempotence. In a well-formed poll, at most one recorded
/// ballot is keyed by any one identity: two entries with the same identity
/// are the same entry, however many concurrent attempts were made.
pub proof fn lemma_vote_idempotence(p: Poll, identity: Seq<char>, i: int, j: int)
    requires
        p.wf(),
        0 <= i < p.votes@.len(),
        0 <= j < p.votes@.len(),
        p.votes@[i].0@ == identity,
        p.votes@[j].0@ == identity,
    ensures
        i == j,
{
}

/// Law: totals consistency. In a well-formed single-choice poll the
/// recorded tallies sum to exactly the number of recorded ballots.
pub proof fn lemma_totals_consistency(p: Poll)
    requires
        p.wf(),
        p.vote_type matches VoteType::SingleBinary { .. },
    ensures
        sum_values(p.totals@) == p.votes@.len(),
{
}

/// Copies a vote kind, field for field.
pub fn clone_vote_type(vt: &VoteType) -> (r: VoteType)
    ensures
        r@ == vt@,
{
    match vt {
        VoteType::SingleBinary { choice } => VoteType::SingleBinary { choice: choice.clone() },
        VoteType::MultipleBinary { choices } => VoteType::MultipleBinary {
            choices: copy_ballot(choices),
        },
        VoteType::SingleValue { choice, value } => VoteType::SingleValue {
            choice: choice.clone(),
            value: *value,
        },
        VoteType::MultipleValue { choices } => {
            let n = choices.len();
            let mut out: Vec<(String, u8)> = Vec::new();
            for i in 0..n
                invariant
                    n == choices@.len(),
                    out@.len() == i,
                    forall|j: int| 0 <= j < i ==> out@[j] == choices@[j],
            {
                out.push((choices[i].0.clone(), choices[i].1));
                proof {
                    assert(out@[i as int] == choices@[i as int]);
                }
            }
            proof {
                assert(out@ =~= choices@);
            }
            VoteType::MultipleValue { choices: out }
        },
    }
}

} // verus!
