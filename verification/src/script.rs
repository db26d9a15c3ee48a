//! The decisions of the scraper side: which scrapers see a response, what
//! is done with each frame a scraper sends, and what a scraper may do in
//! each state.

use vstd::prelude::*;
use vstd::string::*;
use crate::config::{passes, ScriptFilter, ScriptFilterView};
use crate::model::{
    error_text, hop_of, EvergardenError, ResponseMetadata, ResponseMetadataView, UrlInfo,
    UrlInfoView,
};
use crate::protocol::{
    answer_fetch_frame, chunks_view, error_fetch_frame, ClientRequest, ClientRequestView,
    ClientWriter,
};
use crate::text::{pad_decimal, push_char, zero_padded};

verus! {

/// How many requests may wait in the mailbox of a scraper.
pub const SCRIPT_MAILBOX_CAPACITY: usize = 256;

/// How long a scraper is given to exit once it was told to, in milliseconds.
pub const GRACEFUL_EXIT_MILLIS: u64 = 100;

/// The name of one running scraper: the name of its script and its number.
#[derive(Clone, Debug)]
pub struct ScriptId {
    pub name: String,
    pub counter: usize,
}

/// How a [`ScriptId`] is shown: the name, and the number in brackets with
/// at least three digits.
pub open spec fn script_id_text(name: Seq<char>, counter: nat) -> Seq<char> {
    name + seq!['['] + zero_padded(counter, 3) + seq![']']
}

impl ScriptId {
    /// The id as text, as in `links[007]`.
    pub fn to_text(&self) -> (r: String)
        ensures
            r@ == script_id_text(self.name@, self.counter as nat),
    {
        let mut out = self.name.clone();
        push_char(&mut out, '[');
        out.append(pad_decimal(self.counter as u64, 3).as_str());
        push_char(&mut out, ']');
        out
    }
}

/// The ids of the instances of a script: its name with the numbers from
/// zero up to the number of workers.
pub fn instance_ids(name: &str, workers: usize) -> (r: Vec<ScriptId>)
    ensures
        r@.len() == workers,
        forall|i: int| 0 <= i < workers ==> (#[trigger] r@[i]).name@ == name@ && r@[i].counter == i,
{
    let mut out: Vec<ScriptId> = Vec::new();
    let mut i: usize = 0;
    while i < workers
        invariant
            i <= workers,
            out@.len() == i,
            forall|k: int| 0 <= k < i ==> (#[trigger] out@[k]).name@ == name@ && out@[k].counter == k,
        decreases workers - i,
    {
        out.push(ScriptId { name: String::from_str(name), counter: i });
        i += 1;
    }
    out
}

/// Why a URL that a scraper found is not followed.
#[derive(Clone, Copy, Debug, PartialEq, Eq, Structural)]
pub enum SkipReason {
    /// The text is no URL, read against the URL of the response.
    InvalidUrl,
    /// The way to the URL crosses hosts more often than allowed.
    TooManyHops,
}

/// What is done with a frame that a scraper sent.
#[derive(Debug)]
pub enum FrameAction {
    /// The URL goes to the fetcher; nobody waits for the fetch.
    Enqueue(UrlInfo),
    /// The URL is dropped.
    Skip(SkipReason),
    /// The scraper is told that its fetch failed: the message goes back
    /// in an `AnswerFetch` frame.
    AnswerError(String),
    /// The URL is fetched and the response, or the error, goes back in an
    /// `AnswerFetch` frame.
    FetchThenAnswer(UrlInfo),
    /// The scraper is done with the response: the request is answered.
    Done,
}

/// The mathematical value of a [`FrameAction`].
pub ghost enum FrameActionView {
    Enqueue(UrlInfoView),
    Skip(SkipReason),
    AnswerError(Seq<char>),
    FetchThenAnswer(UrlInfoView),
    Done,
}

impl View for FrameAction {
    type V = FrameActionView;

    open spec fn view(&self) -> FrameActionView {
        match self {
            FrameAction::Enqueue(u) => FrameActionView::Enqueue(u@),
            FrameAction::Skip(r) => FrameActionView::Skip(*r),
            FrameAction::AnswerError(m) => FrameActionView::AnswerError(m@),
            FrameAction::FetchThenAnswer(u) => FrameActionView::FetchThenAnswer(u@),
            FrameAction::Done => FrameActionView::Done,
        }
    }
}

/// What is done with a frame from a scraper that reads the response at
/// `base`. A URL that was found is read against `base`; it is dropped
/// where that gives no URL or where its hops exceed `max_hops`, and goes
/// to the fetcher otherwise. A URL that is to be fetched is read the same
/// way; where that gives no URL the scraper is told `invalid_url`, and
/// otherwise it is fetched, however many hops it has.
pub open spec fn frame_action(base: UrlInfoView, max_hops: nat, request: ClientRequestView)
    -> FrameActionView {
    match request {
        ClientRequestView::Submit { url } => match hop_of(base, url) {
            None => FrameActionView::Skip(SkipReason::InvalidUrl),
            Some(next) => if next.hops > max_hops {
                FrameActionView::Skip(SkipReason::TooManyHops)
            } else {
                FrameActionView::Enqueue(next)
            },
        },
        ClientRequestView::Fetch { url } => match hop_of(base, url) {
            None => FrameActionView::AnswerError("invalid_url"@),
            Some(next) => FrameActionView::FetchThenAnswer(next),
        },
        ClientRequestView::EndFile => FrameActionView::Done,
    }
}

/// Decides what is done with a frame that a scraper sent while it reads
/// the response at `base`.
pub fn on_frame(base: &UrlInfo, max_hops: usize, request: ClientRequest) -> (r: FrameAction)
    requires
        base.hops < usize::MAX,
    ensures
        r@ == frame_action(base@, max_hops as nat, request@),
{
    match request {
        ClientRequest::Submit { url } => match base.clone().hop(url.as_str()) {
            None => FrameAction::Skip(SkipReason::InvalidUrl),
            Some(next) => if next.hops > max_hops {
                FrameAction::Skip(SkipReason::TooManyHops)
            } else {
                FrameAction::Enqueue(next)
            },
        },
        ClientRequest::Fetch { url } => match base.clone().hop(url.as_str()) {
            None => FrameAction::AnswerError(String::from_str("invalid_url")),
            Some(next) => FrameAction::FetchThenAnswer(next),
        },
        ClientRequest::EndFile => FrameAction::Done,
    }
}

/// A fetched response as it goes to a scraper: its metadata as JSON and
/// the chunks of its body.
#[derive(Debug)]
pub struct FetchedResponse {
    pub meta_json: Vec<u8>,
    pub body: Vec<Vec<u8>>,
}

/// The frame that answers a `Fetch`: the response where the fetch
/// succeeded, the message of the error where it failed.
pub open spec fn fetch_answer(result: Result<FetchedResponse, EvergardenError>) -> Seq<u8> {
    match result {
        Ok(res) => answer_fetch_frame(res.meta_json@, chunks_view(res.body@)),
        Err(e) => error_fetch_frame(error_text(e)),
    }
}

/// Writes the frame that answers a `Fetch`.
pub fn write_fetch_answer(
    writer: &mut ClientWriter,
    result: &Result<FetchedResponse, EvergardenError>,
)
    ensures
        final(writer)@ == old(writer)@ + fetch_answer(*result),
{
    match result {
        Ok(res) => writer.answer_fetch(res.meta_json.as_slice(), &res.body),
        Err(e) => writer.error_fetch(e.message().as_str()),
    }
}

/// The state of one running scraper.
#[derive(Clone, Copy, Debug, PartialEq, Eq, Structural)]
pub enum InstanceState {
    /// Waits for a response to scrape.
    Idle,
    /// Was sent a response and has not said `EndFile` yet.
    AwaitingFrames,
    /// Was told to exit.
    Closing,
    /// Has exited, or was given up on.
    Terminated,
}

/// What happens to one running scraper.
#[derive(Clone, Copy, Debug, PartialEq, Eq, Structural)]
pub enum InstanceEvent {
    /// A response was sent to it in a `Submit` frame.
    Submitted,
    /// It sent a frame that is not `EndFile`.
    Frame,
    /// It sent `EndFile`.
    EndFile,
    /// It was sent `CloseScript`.
    Close,
    /// It exited, or the time it was given to exit has passed.
    Exited,
}

/// The state of a scraper after an event, or nothing where the event
/// cannot happen in the state.
pub open spec fn instance_step(state: InstanceState, event: InstanceEvent) -> Option<
    InstanceState,
> {
    match (state, event) {
        (InstanceState::Idle, InstanceEvent::Submitted) => Some(InstanceState::AwaitingFrames),
        (InstanceState::AwaitingFrames, InstanceEvent::Frame) => Some(
            InstanceState::AwaitingFrames,
        ),
        (InstanceState::AwaitingFrames, InstanceEvent::EndFile) => Some(InstanceState::Idle),
        (InstanceState::Idle, InstanceEvent::Close) => Some(InstanceState::Closing),
        (InstanceState::Closing, InstanceEvent::Exited) => Some(InstanceState::Terminated),
        _ => None,
    }
}

impl InstanceState {
    /// Whether a new response may be sent: only to an idle scraper.
    pub fn accepts_request(&self) -> (r: bool)
        ensures
            r == (instance_step(*self, InstanceEvent::Submitted) is Some),
            r == (*self == InstanceState::Idle),
    {
        match self {
            InstanceState::Idle => true,
            _ => false,
        }
    }

    /// The state after an event, or nothing where the event cannot happen
    /// in this state.
    pub fn on(&self, event: InstanceEvent) -> (r: Option<InstanceState>)
        ensures
            r == instance_step(*self, event),
    {
        match (*self, event) {
            (InstanceState::Idle, InstanceEvent::Submitted) => Some(InstanceState::AwaitingFrames),
            (InstanceState::AwaitingFrames, InstanceEvent::Frame) => Some(
                InstanceState::AwaitingFrames,
            ),
            (InstanceState::AwaitingFrames, InstanceEvent::EndFile) => Some(InstanceState::Idle),
            (InstanceState::Idle, InstanceEvent::Close) => Some(InstanceState::Closing),
            (InstanceState::Closing, InstanceEvent::Exited) => Some(InstanceState::Terminated),
            _ => None,
        }
    }
}

/// The values of a list of filters.
pub open spec fn filters_view(filters: Seq<ScriptFilter>) -> Seq<ScriptFilterView> {
    Seq::new(filters.len(), |i: int| filters[i]@)
}

/// The numbers of the filters, among the first `n`, that let a response
/// through, in rising order.
pub open spec fn matching(filters: Seq<ScriptFilterView>, meta: ResponseMetadataView, n: int) -> Seq<
    usize,
>
    decreases n,
{
    if n <= 0 {
        Seq::empty()
    } else if passes(filters[n - 1], meta) {
        matching(filters, meta, n - 1).push((n - 1) as usize)
    } else {
        matching(filters, meta, n - 1)
    }
}

/// Picks the scripts that are shown a response: those whose filters let
/// it through.
pub fn matching_scripts(filters: &Vec<ScriptFilter>, meta: &ResponseMetadata) -> (r: Vec<usize>)
    ensures
        r@ == matching(filters_view(filters@), meta@, filters@.len() as int),
{
    let mut out: Vec<usize> = Vec::new();
    let mut i: usize = 0;
    while i < filters.len()
        invariant
            i <= filters@.len(),
            out@ == matching(filters_view(filters@), meta@, i as int),
        decreases filters@.len() - i,
    {
        if filters[i].matches(meta) {
            out.push(i);
        }
        i += 1;
    }
    out
}

/// The first failure among results, if there is one.
pub open spec fn first_failure(results: Seq<Result<(), EvergardenError>>) -> Result<
    (),
    EvergardenError,
>
    decreases results.len(),
{
    if results.len() == 0 {
        Ok(())
    } else {
        match results[0] {
            Err(e) => Err(e),
            Ok(_) => first_failure(results.drop_first()),
        }
    }
}

/// Puts together what the scripts that were shown a response came to, in
/// the order they finished: the first failure, or success where none
/// failed.
pub fn aggregate(results: Vec<Result<(), EvergardenError>>) -> (r: Result<(), EvergardenError>)
    ensures
        r == first_failure(results@),
{
    let ghost all = results@;
    proof {
        assert(all.skip(0) =~= all);
    }
    for result in it: results.into_iter()
        invariant
            it.seq() == all,
            first_failure(all) == first_failure(all.skip(it.index() as int)),
    {
        proof {
            assert(all.skip(it.index() as int).drop_first() =~= all.skip(it.index() as int + 1));
        }
        match result {
            Err(e) => {
                return Err(e);
            },
            Ok(()) => {},
        }
    }
    Ok(())
}

} // verus!
