//! The poll engine: creation, conflicts, every refusal, and the tallies.

use exhibit::messaging::NewPollMessage;
use exhibit::presentation::poll::{IdentifiedVote, Poll, Polls, Vote, VoteType};

fn ballot(identity: &str, poll: &str, vt: VoteType) -> IdentifiedVote {
    IdentifiedVote {
        identity: identity.to_string(),
        vote: Vote { poll_name: poll.to_string(), vote_type: vt },
    }
}

fn single(choice: &str) -> VoteType {
    VoteType::SingleBinary { choice: choice.to_string() }
}

fn new_single_poll(polls: &mut Polls, name: &str, options: &[&str]) {
    let message = NewPollMessage {
        name: name.to_string(),
        options: options.iter().map(|o| o.to_string()).collect(),
        vote_type: single(""),
    };
    assert!(polls.new_poll(message).is_ok());
}

#[test]
fn poll_creation_and_conflict() {
    let mut polls = Polls::new();
    new_single_poll(&mut polls, "q1", &["a", "b"]);
    // the same name again comes back as the standing definition
    let echo = polls
        .new_poll(NewPollMessage {
            name: "q1".to_string(),
            options: vec!["x".to_string()],
            vote_type: single("x"),
        })
        .unwrap_err();
    assert_eq!(echo.name, "q1");
    assert_eq!(echo.options, vec!["a".to_string(), "b".to_string()]);
    assert!(matches!(echo.vote_type, VoteType::SingleBinary { .. }));
    // the standing poll kept its definition
    assert_eq!(polls.get_poll_totals(&"q1".to_string()).unwrap(), Vec::new());
}

#[test]
fn options_are_deduplicated() {
    let mut polls = Polls::new();
    new_single_poll(&mut polls, "q1", &["a", "b", "a"]);
    assert!(polls.vote_in_poll(ballot("u1", "q1", single("a"))).is_ok());
    assert!(polls.vote_in_poll(ballot("u2", "q1", single("a"))).is_ok());
    let totals = polls.get_poll_totals(&"q1".to_string()).unwrap();
    assert_eq!(totals, vec![("a".to_string(), 2)]);
}

#[test]
fn unknown_poll_is_refused() {
    let mut polls = Polls::new();
    let err = polls.vote_in_poll(ballot("bob", "nope", single("a"))).unwrap_err();
    assert_eq!(err, "No poll with name nope exists");
    assert!(polls.get_poll_totals(&"nope".to_string()).is_none());
}

#[test]
fn duplicate_vote_is_refused() {
    let mut polls = Polls::new();
    new_single_poll(&mut polls, "q1", &["a", "b"]);
    assert!(polls.vote_in_poll(ballot("bob", "q1", single("a"))).is_ok());
    let err = polls.vote_in_poll(ballot("bob", "q1", single("b"))).unwrap_err();
    assert_eq!(err, "bob could not vote in q1");
    assert_eq!(
        polls.get_poll_totals(&"q1".to_string()).unwrap(),
        vec![("a".to_string(), 1)]
    );
}

#[test]
fn invalid_choice_is_refused() {
    let mut polls = Polls::new();
    new_single_poll(&mut polls, "q1", &["a", "b"]);
    let err = polls.vote_in_poll(ballot("bob", "q1", single("z"))).unwrap_err();
    assert_eq!(err, "bob could not vote in q1");
    assert_eq!(polls.get_poll_totals(&"q1".to_string()).unwrap(), Vec::new());
}

#[test]
fn kind_mismatch_is_refused() {
    let mut polls = Polls::new();
    new_single_poll(&mut polls, "q1", &["a", "b"]);
    let vt = VoteType::MultipleBinary { choices: vec![("a".to_string(), true)] };
    let err = polls.vote_in_poll(ballot("bob", "q1", vt)).unwrap_err();
    assert_eq!(err, "bob could not vote in q1");
}

#[test]
fn weighted_kinds_are_declared_but_refused() {
    let mut polls = Polls::new();
    let message = NewPollMessage {
        name: "w".to_string(),
        options: vec!["a".to_string()],
        vote_type: VoteType::SingleValue { choice: String::new(), value: 0 },
    };
    assert!(polls.new_poll(message).is_ok());
    let vt = VoteType::SingleValue { choice: "a".to_string(), value: 3 };
    let err = polls.vote_in_poll(ballot("bob", "w", vt)).unwrap_err();
    assert_eq!(err, "bob could not vote in w");
    assert_eq!(polls.get_poll_totals(&"w".to_string()).unwrap(), Vec::new());
}

#[test]
fn multiple_binary_tallies_taken_choices() {
    let mut polls = Polls::new();
    let message = NewPollMessage {
        name: "m".to_string(),
        options: vec!["a".to_string(), "b".to_string(), "c".to_string()],
        vote_type: VoteType::MultipleBinary { choices: Vec::new() },
    };
    assert!(polls.new_poll(message).is_ok());
    let vt = VoteType::MultipleBinary {
        choices: vec![("a".to_string(), true), ("b".to_string(), false), ("c".to_string(), true)],
    };
    assert!(polls.vote_in_poll(ballot("u1", "m", vt)).is_ok());
    let vt = VoteType::MultipleBinary { choices: vec![("a".to_string(), true)] };
    assert!(polls.vote_in_poll(ballot("u2", "m", vt)).is_ok());
    let totals = polls.get_poll_totals(&"m".to_string()).unwrap();
    assert_eq!(totals, vec![("a".to_string(), 2), ("c".to_string(), 1)]);
}

#[test]
fn multiple_binary_rejects_undeclared_and_duplicate_choices() {
    let mut polls = Polls::new();
    let message = NewPollMessage {
        name: "m".to_string(),
        options: vec!["a".to_string()],
        vote_type: VoteType::MultipleBinary { choices: Vec::new() },
    };
    assert!(polls.new_poll(message).is_ok());
    let vt = VoteType::MultipleBinary { choices: vec![("z".to_string(), true)] };
    assert!(polls.vote_in_poll(ballot("u1", "m", vt)).is_err());
    let vt = VoteType::MultipleBinary {
        choices: vec![("a".to_string(), true), ("a".to_string(), true)],
    };
    assert!(polls.vote_in_poll(ballot("u1", "m", vt)).is_err());
    assert_eq!(polls.get_poll_totals(&"m".to_string()).unwrap(), Vec::new());
}

#[test]
fn totals_match_vote_count_for_single_choice_polls() {
    let mut poll = Poll::new(
        &vec!["a".to_string(), "b".to_string()],
        VoteType::SingleBinary { choice: String::new() },
    );
    let voters = ["u1", "u2", "u3", "u4", "u5"];
    let choices = ["a", "b", "a", "a", "b"];
    for (voter, choice) in voters.iter().zip(choices.iter()) {
        assert!(poll.vote(ballot(voter, "p", single(choice))));
    }
    let sum: u64 = poll.totals.iter().map(|t| t.1).sum();
    assert_eq!(sum as usize, poll.votes.len());
    assert_eq!(poll.totals, vec![("a".to_string(), 3), ("b".to_string(), 2)]);
}
