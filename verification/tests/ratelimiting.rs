//! The rate-limiter pipeline: the two limiters' formulas, pipeline order,
//! atomic refusal and committed updates.

use exhibit::messaging::{EmojiMessage, IncomingUserMessage};
use exhibit::ratelimiting::time::TimeLimiter;
use exhibit::ratelimiting::value::ValueLimiter;
use exhibit::ratelimiting::{LimiterType, Ratelimiter, RatelimiterResponse};

fn emoji(size: u8) -> IncomingUserMessage {
    IncomingUserMessage::Emoji(EmojiMessage { emoji: "👍".to_string(), size })
}

#[test]
fn time_limiter_blocks_and_passes() {
    let t = TimeLimiter::new(15);
    // clock ran backwards
    let r = t.check_allowed(100, 90);
    assert_eq!(r.unwrap_err(), "Try again shortly.");
    // too soon
    let r = t.check_allowed(100, 110);
    assert_eq!(r.unwrap_err(), "Try again in 5 seconds");
    // exactly on the boundary
    let r = t.check_allowed(100, 115).unwrap();
    assert_eq!(r.client_message, "Next send allowed: 130");
    assert!(r.limiter_data_update.is_none());
}

#[test]
fn value_limiter_formulas() {
    let v = ValueLimiter::new(1, 5, 10, 2, 10);
    let id = "bob".to_string();
    // a fresh sender starts at the ceiling
    let r = v.check_allowed(0, 0, None, &id, &emoji(2)).unwrap();
    assert_eq!(r.client_message, "You have 0 remaining points");
    let upd = r.limiter_data_update.unwrap();
    assert_eq!(upd.data, "bob");
    assert_eq!(upd.value, 0);
    // regeneration: 30 seconds at 2 points per 10, capped at 10
    let r = v.check_allowed(100, 130, Some(3), &id, &emoji(1)).unwrap();
    assert_eq!(r.client_message, "You have 4 remaining points");
    assert_eq!(r.limiter_data_update.unwrap().value, 4);
    // too expensive
    let r = v.check_allowed(100, 100, Some(3), &id, &emoji(1));
    assert_eq!(r.unwrap_err(), "Emoji too expensive");
    // an unknown size class is refused
    let r = v.check_allowed(0, 0, None, &id, &emoji(3));
    assert_eq!(r.unwrap_err(), "bob sent emoji with invalid size: 3");
}

#[test]
fn pipeline_blocks_atomically() {
    let mut rl = Ratelimiter::new();
    rl.add_ratelimit("pts".to_string(), LimiterType::Value(ValueLimiter::new(1, 5, 10, 1, 10)));
    rl.add_ratelimit("15s".to_string(), LimiterType::Time(TimeLimiter::new(15)));
    let bob = "bob".to_string();

    // first message passes both limiters and commits both updates
    let r = rl.check_allowed_at(&bob, &emoji(0), 1000);
    match r {
        RatelimiterResponse::Allowed(notes) => {
            assert_eq!(notes.len(), 2);
            assert_eq!(notes[0].0, "pts");
            assert_eq!(notes[0].1, "You have 9 remaining points");
            assert_eq!(notes[1].0, "15s");
            assert_eq!(notes[1].1, "Next send allowed: 1015");
        },
        RatelimiterResponse::Blocked(_) => panic!("expected a pass"),
    }
    assert_eq!(rl.limiter_data, vec![("pts-bob".to_string(), 9)]);
    assert_eq!(rl.global_data, vec![("lmt-bob".to_string(), 1000)]);

    // a blocked message changes no state at all
    let data_before = rl.limiter_data.clone();
    let global_before = rl.global_data.clone();
    let r = rl.check_allowed_at(&bob, &emoji(0), 1001);
    assert_eq!(r, RatelimiterResponse::Blocked("15s".to_string()));
    assert_eq!(rl.limiter_data, data_before);
    assert_eq!(rl.global_data, global_before);

    // later the balance regenerated and both limiters pass again
    let r = rl.check_allowed_at(&bob, &emoji(0), 1020);
    assert!(matches!(r, RatelimiterResponse::Allowed(_)));
    assert_eq!(rl.limiter_data, vec![("pts-bob".to_string(), 9)]);
    assert_eq!(rl.global_data, vec![("lmt-bob".to_string(), 1020)]);
}

#[test]
fn first_blocker_is_named() {
    let mut rl = Ratelimiter::new();
    // the value limiter stands first and prices everything out of reach
    rl.add_ratelimit("pts".to_string(), LimiterType::Value(ValueLimiter::new(99, 99, 99, 0, 10)));
    rl.add_ratelimit("15s".to_string(), LimiterType::Time(TimeLimiter::new(15)));
    let bob = "bob".to_string();
    let r = rl.check_allowed_at(&bob, &emoji(0), 1000);
    assert_eq!(r, RatelimiterResponse::Blocked("pts".to_string()));
    assert!(rl.limiter_data.is_empty());
    assert!(rl.global_data.is_empty());
}

#[test]
fn add_and_remove_limiters() {
    let mut rl = Ratelimiter::new();
    rl.add_ratelimit("a".to_string(), LimiterType::Time(TimeLimiter::new(1)));
    rl.add_ratelimit("b".to_string(), LimiterType::Time(TimeLimiter::new(2)));
    assert_eq!(rl.limiters.len(), 2);
    // replacement keeps the pipeline position
    rl.add_ratelimit("a".to_string(), LimiterType::Time(TimeLimiter::new(9)));
    assert_eq!(rl.limiters.len(), 2);
    assert_eq!(rl.limiters[0].0, "a");
    assert_eq!(rl.limiters[0].1, LimiterType::Time(TimeLimiter::new(9)));
    rl.remove_ratelimit(&"a".to_string());
    assert_eq!(rl.limiters.len(), 1);
    assert_eq!(rl.limiters[0].0, "b");
}

#[test]
fn votes_have_no_size_for_the_value_limiter() {
    let v = ValueLimiter::new(1, 1, 1, 1, 10);
    let id = "bob".to_string();
    let vote = IncomingUserMessage::Vote(exhibit::presentation::poll::Vote {
        poll_name: "q".to_string(),
        vote_type: exhibit::presentation::poll::VoteType::SingleBinary {
            choice: "a".to_string(),
        },
    });
    let r = v.check_allowed(0, 0, None, &id, &vote);
    assert_eq!(r.unwrap_err(), "bob sent a message that has no size");
}

#[test]
fn wall_clock_check() {
    let mut rl = Ratelimiter::new();
    rl.add_ratelimit("15s".to_string(), LimiterType::Time(TimeLimiter::new(15)));
    let bob = "bob".to_string();
    // a first message long after the epoch passes
    assert!(matches!(
        rl.check_allowed(&bob, &emoji(0)),
        RatelimiterResponse::Allowed(_)
    ));
    // an immediate repeat is refused, and refusal commits nothing
    let before = (rl.limiter_data.clone(), rl.global_data.clone());
    assert_eq!(
        rl.check_allowed(&bob, &emoji(0)),
        RatelimiterResponse::Blocked("15s".to_string())
    );
    assert_eq!((rl.limiter_data.clone(), rl.global_data.clone()), before);
}
