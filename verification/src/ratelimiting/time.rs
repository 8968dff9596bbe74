//! A limiter that spaces messages by a fixed number of seconds.

use vstd::prelude::*;

use vstd::string::StringExecFns;

use super::LimiterUpdate;
use crate::textfmt::{dec_str, u64_to_string};

verus! {

/// Blocks a sender until `interval` seconds have passed since the sender's
/// last accepted message.
#[derive(Clone, Copy, Debug, PartialEq)]
pub struct TimeLimiter {
    pub interval: u64,
}

/// The time the sender is next allowed at, clamped to the range of u64.
pub open spec fn next_allowed_at(interval: u64, current_time: u64) -> int {
    if current_time + interval <= u64::MAX {
        current_time + interval
    } else {
        u64::MAX as int
    }
}

/// What the time limiter answers: a note for the client on pass, a refusal
/// note otherwise. It keeps no per-limiter state, so no update is carried.
pub open spec fn time_verdict(interval: u64, last_message_time: u64, current_time: u64) -> Result<
    Seq<char>,
    Seq<char>,
> {
    if last_message_time > current_time {
        Err("Try again shortly."@)
    } else if current_time - last_message_time < interval {
        Err("Try again in "@ + dec_str(interval - (current_time - last_message_time)) + " seconds"@)
    } else {
        Ok("Next send allowed: "@ + dec_str(next_allowed_at(interval, current_time)))
    }
}

impl TimeLimiter {
    pub fn new(interval: u64) -> (r: Self)
        ensures
            r.interval == interval,
    {
        Self { interval }
    }

    /// Decides whether a message sent now may pass, given when the sender's
    /// last message was accepted.
    pub fn check_allowed(&self, last_message_time: u64, current_time: u64) -> (r: Result<
        LimiterUpdate,
        String,
    >)
        ensures
            match time_verdict(self.interval, last_message_time, current_time) {
                Ok(note) => r matches Ok(u) && u.client_message@ == note
                    && u.limiter_data_update is None,
                Err(note) => r matches Err(e) && e@ == note,
            },
    {
        if last_message_time > current_time {
            return Err("Try again shortly.".to_owned());
        }
        let since = current_time - last_message_time;
        if since < self.interval {
            let num = u64_to_string(self.interval - since);
            let mut msg = "Try again in ".to_owned();
            msg.append(num.as_str());
            msg.append(" seconds");
            proof {
                assert(msg@ =~= "Try again in "@ + dec_str(self.interval - since) + " seconds"@);
            }
            return Err(msg);
        }
        let at = if self.interval <= u64::MAX - current_time {
            current_time + self.interval
        } else {
            u64::MAX
        };
        let num = u64_to_string(at);
        let mut msg = "Next send allowed: ".to_owned();
        msg.append(num.as_str());
        proof {
            assert(msg@ =~= "Next send allowed: "@ + dec_str(
                next_allowed_at(self.interval, current_time),
            ));
        }
        Ok(LimiterUpdate { client_message: msg, limiter_data_update: None })
    }
}

} // verus!
