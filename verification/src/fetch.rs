//! The decisions of the HTTP fetcher: whether to fetch at all, how much
//! of a body to let through, and what a fetch comes to.

use vstd::prelude::*;
use vstd::string::*;
use crate::model::{BodyReadError, EvergardenError};

verus! {

/// How many chunks of a body may wait for a slow reader.
pub const BODY_CHANNEL_CAPACITY: usize = 1024;

/// How many bytes of a body are read back from the archive at once.
pub const STORED_CHUNK_LENGTH: usize = 8096;

/// What the storage said when asked for a URL.
#[derive(Clone, Copy, Debug, PartialEq, Eq, Structural)]
pub enum StorageReply {
    /// The URL is in the archive.
    Found,
    /// The URL is not in the archive.
    Missing,
    /// The storage answered something else, or failed.
    Other,
}

/// What the fetcher does with a URL.
#[derive(Clone, Copy, Debug, PartialEq, Eq, Structural)]
pub enum FetchPlan {
    /// Hand back the archived response; nothing goes over the network.
    ReplyCached,
    /// Wait for a permit of the rate limiter, then fetch.
    Fetch,
}

/// A URL that is in the archive is never fetched again; every other URL
/// is fetched.
pub fn plan_fetch(reply: StorageReply) -> (r: FetchPlan)
    ensures
        r == if reply == StorageReply::Found {
            FetchPlan::ReplyCached
        } else {
            FetchPlan::Fetch
        },
{
    match reply {
        StorageReply::Found => FetchPlan::ReplyCached,
        _ => FetchPlan::Fetch,
    }
}

/// How the wait for the response headers ended.
#[derive(Clone, Debug, PartialEq, Eq)]
pub enum HeaderPhase {
    /// The headers came in time.
    Arrived,
    /// The client failed; the text says how.
    Failed(String),
    /// The headers did not come in time.
    TimedOut,
}

/// The error of a header phase, if it ended in one.
pub open spec fn header_error_of(phase: HeaderPhase) -> Option<BodyReadError> {
    match phase {
        HeaderPhase::Arrived => None,
        HeaderPhase::Failed(m) => Some(BodyReadError::Client(m)),
        HeaderPhase::TimedOut => Some(BodyReadError::TimedOut),
    }
}

/// The error that a fetch ends with after its header phase, if any: a
/// failure of the client, or the timeout.
pub fn header_error(phase: HeaderPhase) -> (r: Option<BodyReadError>)
    ensures
        r == header_error_of(phase),
{
    match phase {
        HeaderPhase::Arrived => None,
        HeaderPhase::Failed(m) => Some(BodyReadError::Client(m)),
        HeaderPhase::TimedOut => Some(BodyReadError::TimedOut),
    }
}

/// What the stream of a body brings.
#[derive(Clone, Debug, PartialEq, Eq)]
pub enum BodyEvent {
    /// A chunk of that many bytes.
    Chunk(usize),
    /// The end of the body.
    End,
    /// A failure of the client; the text says how.
    Failed(String),
    /// A failure to read a body back from the archive; the text says how.
    ReadFailed(String),
}

/// What is done with what the stream of a body brought.
#[derive(Clone, Debug, PartialEq, Eq)]
pub enum BodyStep {
    /// The chunk goes to every reader.
    Forward,
    /// The body is complete: the channel is closed.
    Finish,
    /// The body ends early: the error goes to every reader as the last
    /// value, the channel is closed, and the fetch fails with the error.
    Abort(BodyReadError),
}

/// What is done with an event, given how many more bytes are accepted, and
/// how many are accepted afterwards. A chunk that is longer than what is
/// still accepted ends the body.
pub open spec fn body_step(remaining: Option<nat>, event: BodyEvent) -> (Option<nat>, BodyStep) {
    match event {
        BodyEvent::Chunk(len) => match remaining {
            None => (None, BodyStep::Forward),
            Some(left) => if len > left {
                (remaining, BodyStep::Abort(BodyReadError::BodyTooLarge))
            } else {
                (Some((left - len) as nat), BodyStep::Forward)
            },
        },
        BodyEvent::End => (remaining, BodyStep::Finish),
        BodyEvent::Failed(m) => (remaining, BodyStep::Abort(BodyReadError::Client(m))),
        BodyEvent::ReadFailed(m) => (remaining, BodyStep::Abort(BodyReadError::IO(m))),
    }
}

/// The sum of the lengths of chunks.
pub open spec fn total(lengths: Seq<usize>) -> nat
    decreases lengths.len(),
{
    if lengths.len() == 0 {
        0
    } else {
        total(lengths.drop_last()) + lengths.last() as nat
    }
}

/// How many bytes are still accepted after chunks of these lengths, or
/// nothing where one of them was too long.
pub open spec fn after_chunks(limit: nat, lengths: Seq<usize>) -> Option<nat>
    decreases lengths.len(),
{
    if lengths.len() == 0 {
        Some(limit)
    } else {
        match after_chunks(limit, lengths.drop_last()) {
            None => None,
            Some(left) => match body_step(Some(left), BodyEvent::Chunk(lengths.last())).1 {
                BodyStep::Forward => Some((left - lengths.last()) as nat),
                _ => None,
            },
        }
    }
}

/// A body gets through exactly when it is not longer than the limit,
/// however it is cut into chunks; what is accepted afterwards is the
/// limit less the body's length.
pub proof fn lemma_body_limit(limit: nat, lengths: Seq<usize>)
    ensures
        after_chunks(limit, lengths) is Some <==> total(lengths) <= limit,
        after_chunks(limit, lengths) is Some ==> after_chunks(limit, lengths).unwrap() == limit
            - total(lengths),
    decreases lengths.len(),
{
    if lengths.len() > 0 {
        lemma_body_limit(limit, lengths.drop_last());
    }
}

/// Lets the chunks of a body through until the body has grown past its
/// limit.
#[derive(Debug)]
pub struct BodyPump {
    remaining: Option<usize>,
}

impl View for BodyPump {
    type V = Option<nat>;

    closed spec fn view(&self) -> Option<nat> {
        match self.remaining {
            Some(left) => Some(left as nat),
            None => None,
        }
    }
}

impl BodyPump {
    /// A pump for a body that may be `max_length` bytes long, or as long
    /// as it likes where there is no limit.
    pub fn new(max_length: Option<usize>) -> (r: BodyPump)
        ensures
            r@ == match max_length {
                Some(m) => Some(m as nat),
                None => None,
            },
    {
        BodyPump { remaining: max_length }
    }

    /// How many more bytes are accepted, where there is a limit.
    pub fn remaining(&self) -> (r: Option<usize>)
        ensures
            match r {
                Some(left) => self@ == Some(left as nat),
                None => self@ is None,
            },
    {
        self.remaining
    }

    /// Decides what is done with what the stream brought.
    pub fn step(&mut self, event: BodyEvent) -> (r: BodyStep)
        ensures
            (final(self)@, r) == body_step(old(self)@, event),
    {
        match event {
            BodyEvent::Chunk(len) => match self.remaining {
                None => BodyStep::Forward,
                Some(left) => if len > left {
                    BodyStep::Abort(BodyReadError::BodyTooLarge)
                } else {
                    self.remaining = Some(left - len);
                    BodyStep::Forward
                },
            },
            BodyEvent::End => BodyStep::Finish,
            BodyEvent::Failed(m) => BodyStep::Abort(BodyReadError::Client(m)),
            BodyEvent::ReadFailed(m) => BodyStep::Abort(BodyReadError::IO(m)),
        }
    }
}

/// What a fetch comes to: the error of the body where it has one, else
/// that of the storage, else that of the scrapers, else success.
pub open spec fn fetch_outcome(
    body: Result<(), EvergardenError>,
    storage: Result<(), EvergardenError>,
    scraper: Result<(), EvergardenError>,
) -> Result<(), EvergardenError> {
    match body {
        Err(e) => Err(e),
        Ok(_) => match storage {
            Err(e) => Err(e),
            Ok(_) => scraper,
        },
    }
}

/// Puts together what the three parts of a fetch came to: reading the
/// body, storing the response, and showing it to the scrapers. The fetch
/// succeeds when all three did.
pub fn fetch_result(
    body: Result<(), EvergardenError>,
    storage: Result<(), EvergardenError>,
    scraper: Result<(), EvergardenError>,
) -> (r: Result<(), EvergardenError>)
    ensures
        r == fetch_outcome(body, storage, scraper),
{
    match body {
        Err(e) => Err(e),
        Ok(_) => match storage {
            Err(e) => Err(e),
            Ok(_) => scraper,
        },
    }
}

} // verus!
