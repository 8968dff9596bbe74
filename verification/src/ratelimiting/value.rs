//! A limiter that prices reactions against a regenerating balance.

use vstd::prelude::*;
use vstd::string::StringExecFns;

use super::{LimiterDataUpdate, LimiterUpdate};
use crate::messaging::{EmojiMessage, IncomingUserMessage};
use crate::textfmt::{dec_str, u64_to_string};

verus! {

/// Charges each reaction a cost by its size class, against a per-sender
/// balance that regenerates with time up to a ceiling.
#[derive(Clone, Copy, Debug, PartialEq)]
pub struct ValueLimiter {
    pub small_cost: u64,
    pub large_cost: u64,
    pub huge_cost: u64,
    pub points_per_10: u64,
    pub max_points: u64,
}

/// The cost of a message, by its size field; a message without a valid size
/// has no cost and is refused.
pub open spec fn value_cost(v: ValueLimiter, message: IncomingUserMessage) -> Option<u64> {
    match message {
        IncomingUserMessage::Emoji(e) => {
            if e.size == 0 {
                Some(v.small_cost)
            } else if e.size == 1 {
                Some(v.large_cost)
            } else if e.size == 2 {
                Some(v.huge_cost)
            } else {
                None
            }
        },
        _ => None,
    }
}

/// The balance after regeneration: one `points_per_10` grant for every full
/// ten seconds since the sender's last accepted message, capped at
/// `max_points`. A sender never seen before starts at `max_points`.
pub open spec fn value_new_balance(
    v: ValueLimiter,
    existing: Option<u64>,
    last_message_time: u64,
    current_time: u64,
) -> int {
    let existing_balance = match existing {
        Some(b) => b as int,
        None => v.max_points as int,
    };
    let elapsed = if current_time >= last_message_time {
        current_time - last_message_time
    } else {
        0
    };
    let regenerated = existing_balance + (elapsed / 10) * (v.points_per_10 as int);
    if regenerated <= v.max_points {
        regenerated
    } else {
        v.max_points as int
    }
}

/// The refusal note for a message that carries no usable size.
pub open spec fn value_no_cost_note(identity: Seq<char>, message: IncomingUserMessage) -> Seq<
    char,
> {
    match message {
        IncomingUserMessage::Emoji(e) => identity + " sent emoji with invalid size: "@ + dec_str(
            e.size as int,
        ),
        _ => identity + " sent a message that has no size"@,
    }
}

/// What the value limiter answers: on pass, a note with the points left and
/// an update writing the sender's new balance; otherwise a refusal note.
pub open spec fn value_verdict(
    v: ValueLimiter,
    last_message_time: u64,
    current_time: u64,
    existing: Option<u64>,
    identity: Seq<char>,
    message: IncomingUserMessage,
) -> Result<(Seq<char>, Option<(Seq<char>, u64)>), Seq<char>> {
    match value_cost(v, message) {
        None => Err(value_no_cost_note(identity, message)),
        Some(cost) => {
            let balance = value_new_balance(v, existing, last_message_time, current_time);
            if cost > balance {
                Err("Emoji too expensive"@)
            } else {
                Ok(
                    (
                        "You have "@ + dec_str(balance - cost) + " remaining points"@,
                        Some((identity, (balance - cost) as u64)),
                    ),
                )
            }
        },
    }
}

impl ValueLimiter {
    pub fn new(small_cost: u64, large_cost: u64, huge_cost: u64, points_per_10: u64, max_points: u64) -> (r:
        Self)
        ensures
            r == (ValueLimiter { small_cost, large_cost, huge_cost, points_per_10, max_points }),
    {
        Self { small_cost, large_cost, huge_cost, points_per_10, max_points }
    }

    /// Decides whether the sender's balance covers this message, given the
    /// balance currently on record for the sender, if any.
    pub fn check_allowed(
        &self,
        last_message_time: u64,
        current_time: u64,
        existing: Option<u64>,
        identity: &String,
        message: &IncomingUserMessage,
    ) -> (r: Result<LimiterUpdate, String>)
        ensures
            match value_verdict(
                *self,
                last_message_time,
                current_time,
                existing,
                identity@,
                *message,
            ) {
                Ok(pass) => r matches Ok(u) && u.client_message@ == pass.0 && match (
                    u.limiter_data_update,
                    pass.1,
                ) {
                    (Some(du), Some(su)) => du.data@ == su.0 && du.value == su.1,
                    _ => false,
                },
                Err(note) => r matches Err(e) && e@ == note,
            },
    {
        let cost: u64 = match message {
            IncomingUserMessage::Emoji(e) => {
                if e.size == 0 {
                    self.small_cost
                } else if e.size == 1 {
                    self.large_cost
                } else if e.size == 2 {
                    self.huge_cost
                } else {
                    let num = u64_to_string(e.size as u64);
                    let mut msg = identity.clone();
                    msg.append(" sent emoji with invalid size: ");
                    msg.append(num.as_str());
                    proof {
                        assert(msg@ =~= value_no_cost_note(identity@, *message));
                    }
                    return Err(msg);
                }
            },
            _ => {
                let mut msg = identity.clone();
                msg.append(" sent a message that has no size");
                return Err(msg);
            },
        };
        let existing_balance: u64 = match existing {
            Some(b) => b,
            None => self.max_points,
        };
        let elapsed: u64 = if current_time >= last_message_time {
            current_time - last_message_time
        } else {
            0
        };
        let per: u64 = elapsed / 10;
        proof {
            assert((per as u128) * (self.points_per_10 as u128) <= (u64::MAX as u128) * (
            u64::MAX as u128) && (u64::MAX as u128) * (u64::MAX as u128) + (u64::MAX as u128)
                <= u128::MAX) by (nonlinear_arith)
                requires
                    per <= u64::MAX,
                    self.points_per_10 <= u64::MAX,
            ;
        }
        let regen: u128 = (per as u128) * (self.points_per_10 as u128);
        let total: u128 = (existing_balance as u128) + regen;
        let new_balance: u64 = if total > (self.max_points as u128) {
            self.max_points
        } else {
            total as u64
        };
        assert(new_balance as int == value_new_balance(
            *self,
            existing,
            last_message_time,
            current_time,
        ));
        if cost > new_balance {
            return Err("Emoji too expensive".to_owned());
        }
        let remaining = new_balance - cost;
        let num = u64_to_string(remaining);
        let mut msg = "You have ".to_owned();
        msg.append(num.as_str());
        msg.append(" remaining points");
        proof {
            assert(msg@ =~= "You have "@ + dec_str(remaining as int) + " remaining points"@);
        }
        Ok(
            LimiterUpdate {
                client_message: msg,
                limiter_data_update: Some(
                    LimiterDataUpdate { data: identity.clone(), value: remaining },
                ),
            },
        )
    }
}

} // verus!
