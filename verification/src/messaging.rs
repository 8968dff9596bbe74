//! The wire-level message vocabulary: what clients and presenters send in,
//! and what the broker sends back out.
//!
//! Mappings that arrive as JSON objects (a multiple-choice ballot, a result
//! table, the per-limiter response notes) are held as vectors of key/value
//! pairs in the order they were produced.

use vstd::prelude::*;

use crate::presentation::poll::{Vote, VoteType};
use crate::ratelimiting::RatelimiterResponse;

verus! {

/// The message and permitted emoji set for the slide currently shown.
#[derive(Clone, Debug, PartialEq)]
pub struct SlideSettings {
    pub message: String,
    pub emojis: Vec<String>,
}

/// A reaction: an emoji and its size class (0 small, 1 large, 2 huge).
#[derive(Clone, Debug, PartialEq)]
pub struct EmojiMessage {
    pub emoji: String,
    pub size: u8,
}

/// A presenter's request to open a new poll.
#[derive(Clone, Debug, PartialEq)]
pub struct NewPollMessage {
    pub name: String,
    pub options: Vec<String>,
    pub vote_type: VoteType,
}

/// A presenter's slide change, with the settings users should see.
#[derive(Clone, Debug, PartialEq)]
pub struct NewSlideMessage {
    pub slide: u64,
    pub slide_settings: SlideSettings,
}

/// A presenter's request for a poll's current tallies.
#[derive(Clone, Debug, PartialEq)]
pub struct GetPollTotalsMessage {
    pub name: String,
}

/// A presenter's request to install a named limiter.
#[derive(Clone, Debug, PartialEq)]
pub struct AddRatelimiterMessage {
    pub name: String,
    pub limiter: crate::ratelimiting::LimiterType,
}

/// A presenter's request to drop a named limiter.
#[derive(Clone, Debug, PartialEq)]
pub struct RemoveRatelimiterMessage {
    pub name: String,
}

/// Everything a presenter may send.
#[derive(Clone, Debug, PartialEq)]
pub enum IncomingPresenterMessage {
    NewSlide(NewSlideMessage),
    NewPoll(NewPollMessage),
    GetPollTotals(GetPollTotalsMessage),
    AddRatelimiter(AddRatelimiterMessage),
    RemoveRatelimiter(RemoveRatelimiterMessage),
}

/// Everything a user may send.
#[derive(Clone, Debug, PartialEq)]
pub enum IncomingUserMessage {
    Emoji(EmojiMessage),
    Vote(Vote),
}

/// A frame from either side of a connection.
#[derive(Clone, Debug, PartialEq)]
pub enum IncomingMessage {
    Presenter(IncomingPresenterMessage),
    User(IncomingUserMessage),
}

/// Marker for the two outgoing message vocabularies.
pub trait OutgoingMessage: Clone {

}

/// Everything the broker sends to a user.
#[derive(Clone, Debug, PartialEq)]
pub enum OutgoingUserMessage {
    InitialPresentationData { title: String, settings: Option<SlideSettings> },
    RatelimiterResponse(RatelimiterResponse),
    NewSlide(SlideSettings),
    NewPoll(NewPollMessage),
    Success(String),
    Error(String),
    Disconnect(String),
}

impl OutgoingMessage for OutgoingUserMessage {

}

/// Everything the broker sends to a presenter.
#[derive(Clone, Debug, PartialEq)]
pub enum OutgoingPresenterMessage {
    Emoji(EmojiMessage),
    PollResults(Vec<(String, u64)>),
    Error(String),
}

impl OutgoingMessage for OutgoingPresenterMessage {

}

} // verus!
