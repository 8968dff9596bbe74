//! The JSON emitter, message by message and character by character.

use exhibit::messaging::{
    EmojiMessage, NewPollMessage, SlideSettings,
};
use exhibit::presentation::poll::VoteType;
use exhibit::ratelimiting::RatelimiterResponse;
use exhibit::textfmt::u64_to_string;
use exhibit::{OutgoingPresenterMessage, OutgoingUserMessage};

#[test]
fn decimal_rendering() {
    assert_eq!(u64_to_string(0), "0");
    assert_eq!(u64_to_string(7), "7");
    assert_eq!(u64_to_string(10), "10");
    assert_eq!(u64_to_string(1015), "1015");
    assert_eq!(u64_to_string(u64::MAX), "18446744073709551615");
}

#[test]
fn success_and_error_messages() {
    assert_eq!(
        OutgoingUserMessage::Success("Vote recorded".to_string()).json(),
        "{\"Success\":\"Vote recorded\"}"
    );
    assert_eq!(
        OutgoingUserMessage::Error("nope".to_string()).json(),
        "{\"Error\":\"nope\"}"
    );
    assert_eq!(OutgoingUserMessage::Disconnect(String::new()).json(), "{\"Disconnect\":\"\"}");
}

#[test]
fn string_escaping() {
    assert_eq!(
        OutgoingUserMessage::Success("a\"b\\c".to_string()).json(),
        "{\"Success\":\"a\\\"b\\\\c\"}"
    );
    assert_eq!(
        OutgoingUserMessage::Success("line\nbreak\ttab\rret".to_string()).json(),
        "{\"Success\":\"line\\nbreak\\ttab\\rret\"}"
    );
    assert_eq!(
        OutgoingUserMessage::Success("\u{8}\u{c}\u{1f}".to_string()).json(),
        "{\"Success\":\"\\b\\f\\u001f\"}"
    );
    assert_eq!(
        OutgoingUserMessage::Success("🎉 emoji".to_string()).json(),
        "{\"Success\":\"🎉 emoji\"}"
    );
}

#[test]
fn escaping_agrees_with_the_reference_serializer() {
    let tricky = "a\"b\\c\nd\te\rf\u{8}g\u{c}h\u{1f}i🎉";
    let mine = OutgoingUserMessage::Success(tricky.to_string()).json();
    let reference = format!(
        "{{\"Success\":{}}}",
        serde_json::to_string(tricky).unwrap()
    );
    assert_eq!(mine, reference);
}

#[test]
fn initial_presentation_data_message() {
    assert_eq!(
        OutgoingUserMessage::InitialPresentationData {
            title: "Demo".to_string(),
            settings: None,
        }
        .json(),
        "{\"InitialPresentationData\":{\"title\":\"Demo\",\"settings\":null}}"
    );
    assert_eq!(
        OutgoingUserMessage::InitialPresentationData {
            title: "Demo".to_string(),
            settings: Some(SlideSettings {
                message: "Hi".to_string(),
                emojis: vec!["👍".to_string()],
            }),
        }
        .json(),
        "{\"InitialPresentationData\":{\"title\":\"Demo\",\"settings\":{\"message\":\"Hi\",\"emojis\":[\"👍\"]}}}"
    );
}

#[test]
fn ratelimiter_response_messages() {
    assert_eq!(
        OutgoingUserMessage::RatelimiterResponse(RatelimiterResponse::Blocked("15s".to_string()))
            .json(),
        "{\"RatelimiterResponse\":{\"Blocked\":\"15s\"}}"
    );
    assert_eq!(
        OutgoingUserMessage::RatelimiterResponse(RatelimiterResponse::Allowed(vec![
            ("15s".to_string(), "ok".to_string()),
            ("pts".to_string(), "9 left".to_string()),
        ]))
        .json(),
        "{\"RatelimiterResponse\":{\"Allowed\":{\"15s\":\"ok\",\"pts\":\"9 left\"}}}"
    );
    assert_eq!(
        OutgoingUserMessage::RatelimiterResponse(RatelimiterResponse::Allowed(Vec::new())).json(),
        "{\"RatelimiterResponse\":{\"Allowed\":{}}}"
    );
}

#[test]
fn new_poll_message_shapes() {
    assert_eq!(
        OutgoingUserMessage::NewPoll(NewPollMessage {
            name: "q1".to_string(),
            options: vec!["a".to_string(), "b".to_string()],
            vote_type: VoteType::SingleBinary { choice: String::new() },
        })
        .json(),
        "{\"NewPoll\":{\"name\":\"q1\",\"options\":[\"a\",\"b\"],\"vote_type\":{\"SingleBinary\":{\"choice\":\"\"}}}}"
    );
    assert_eq!(
        OutgoingUserMessage::NewPoll(NewPollMessage {
            name: "q2".to_string(),
            options: Vec::new(),
            vote_type: VoteType::MultipleBinary {
                choices: vec![("a".to_string(), true), ("b".to_string(), false)],
            },
        })
        .json(),
        "{\"NewPoll\":{\"name\":\"q2\",\"options\":[],\"vote_type\":{\"MultipleBinary\":{\"choices\":{\"a\":true,\"b\":false}}}}}"
    );
    assert_eq!(
        OutgoingUserMessage::NewPoll(NewPollMessage {
            name: "q3".to_string(),
            options: vec!["a".to_string()],
            vote_type: VoteType::SingleValue { choice: "a".to_string(), value: 7 },
        })
        .json(),
        "{\"NewPoll\":{\"name\":\"q3\",\"options\":[\"a\"],\"vote_type\":{\"SingleValue\":{\"choice\":\"a\",\"value\":7}}}}"
    );
    assert_eq!(
        OutgoingUserMessage::NewPoll(NewPollMessage {
            name: "q4".to_string(),
            options: vec!["a".to_string()],
            vote_type: VoteType::MultipleValue { choices: vec![("a".to_string(), 255)] },
        })
        .json(),
        "{\"NewPoll\":{\"name\":\"q4\",\"options\":[\"a\"],\"vote_type\":{\"MultipleValue\":{\"choices\":{\"a\":255}}}}}"
    );
}

#[test]
fn presenter_messages() {
    assert_eq!(
        OutgoingPresenterMessage::Emoji(EmojiMessage { emoji: "👍".to_string(), size: 2 }).json(),
        "{\"Emoji\":{\"emoji\":\"👍\",\"size\":2}}"
    );
    assert_eq!(
        OutgoingPresenterMessage::PollResults(vec![("a".to_string(), 1), ("b".to_string(), 0)])
            .json(),
        "{\"PollResults\":{\"a\":1,\"b\":0}}"
    );
    assert_eq!(
        OutgoingPresenterMessage::Error("why".to_string()).json(),
        "{\"Error\":\"why\"}"
    );
}

#[test]
fn new_slide_message() {
    assert_eq!(
        OutgoingUserMessage::NewSlide(SlideSettings {
            message: "Hi".to_string(),
            emojis: vec!["👍".to_string(), "👎".to_string()],
        })
        .json(),
        "{\"NewSlide\":{\"message\":\"Hi\",\"emojis\":[\"👍\",\"👎\"]}}"
    );
}
