//! The task that takes ticks in from the stream and hands them on, as a
//! machine: each answer of the socket or the channel moves it to its next
//! request.

use vstd::prelude::*;
use crate::error::TaskError;
use crate::record::Lvl1Data;

verus! {

/// The number of records that the channel between the two tasks holds
/// before the sender has to wait.
pub const CHANNEL_CAPACITY: usize = 5;

/// Where the task stands: what it has asked for and not yet been answered.
#[derive(Clone, Copy, Debug, PartialEq, Eq, Structural)]
pub enum IngestStage {
    /// The connection to the endpoint.
    Connecting,
    /// The next message of the stream.
    Listening,
    /// Room in the channel for the record in hand.
    Sending,
    /// Nothing more: the task has ended, cleanly or with an error.
    Finished(Option<TaskError>),
}

/// An answer to what the task asked for.
#[derive(Debug)]
pub enum IngestEvent {
    /// The connection stands.
    Connected,
    /// The connection could not be made.
    ConnectFailed,
    /// A text message that holds a tick.
    Tick(Lvl1Data),
    /// A text message that could not be read as a tick.
    Malformed,
    /// A message that is no text: it is passed over.
    Ignored,
    /// The stream broke.
    Broken,
    /// The stream came to its end.
    Ended,
    /// The channel took the record.
    Sent,
    /// The channel has no receiver any more.
    ReceiverGone,
}

/// What the task asks for next.
#[derive(Debug)]
pub enum IngestAction {
    /// Connect to the endpoint.
    Connect,
    /// Wait for the next message.
    Next,
    /// Put this record into the channel, waiting while it is full.
    Send(Lvl1Data),
    /// End the task: cleanly, or with this error.
    Finish(Option<TaskError>),
}

/// Whether `event` answers what the task asked for at `stage`.
pub open spec fn ingest_expects(stage: IngestStage, event: IngestEvent) -> bool {
    match stage {
        IngestStage::Connecting => event is Connected || event is ConnectFailed,
        IngestStage::Listening => event is Tick || event is Malformed || event is Ignored
            || event is Broken || event is Ended,
        IngestStage::Sending => event is Sent || event is ReceiverGone,
        IngestStage::Finished(_) => false,
    }
}

/// The stage that follows on an event that answers the one before. Every
/// failure ends the task at once: nothing is tried again.
pub open spec fn ingest_next(event: IngestEvent) -> IngestStage {
    match event {
        IngestEvent::Connected => IngestStage::Listening,
        IngestEvent::ConnectFailed => IngestStage::Finished(Some(TaskError::Connection)),
        IngestEvent::Tick(_) => IngestStage::Sending,
        IngestEvent::Malformed => IngestStage::Finished(Some(TaskError::Protocol)),
        IngestEvent::Ignored => IngestStage::Listening,
        IngestEvent::Broken => IngestStage::Finished(Some(TaskError::Connection)),
        IngestEvent::Ended => IngestStage::Finished(None),
        IngestEvent::Sent => IngestStage::Listening,
        IngestEvent::ReceiverGone => IngestStage::Finished(Some(TaskError::ChannelClosed)),
    }
}

/// What the task asks for after an event that answers its last request. A
/// tick is sent on as it came.
pub open spec fn ingest_request(event: IngestEvent) -> IngestAction {
    match event {
        IngestEvent::Tick(record) => IngestAction::Send(record),
        _ => match ingest_next(event) {
            IngestStage::Connecting => IngestAction::Connect,
            IngestStage::Listening => IngestAction::Next,
            IngestStage::Sending => IngestAction::Next,
            IngestStage::Finished(end) => IngestAction::Finish(end),
        },
    }
}

/// While a record waits for room in the channel only the channel moves the
/// task: it takes no further message, so no record is dropped or overtaken,
/// and the record that it asks to send is the one that came, unaltered.
pub proof fn lemma_sending_waits_for_the_channel(event: IngestEvent)
    ensures
        ingest_expects(IngestStage::Sending, event) <==> event is Sent || event is ReceiverGone,
        event matches IngestEvent::Tick(record) ==> {
            &&& ingest_expects(IngestStage::Listening, event)
            &&& !ingest_expects(IngestStage::Sending, event)
            &&& ingest_next(event) == IngestStage::Sending
            &&& ingest_request(event) == IngestAction::Send(record)
        },
        event is Sent ==> ingest_next(event) == IngestStage::Listening,
{
}

/// The ingest task: the endpoint that it listens to, and where it stands.
pub struct WsClient {
    url: String,
    stage: IngestStage,
}

impl WsClient {
    /// Where the task stands.
    pub closed spec fn spec_stage(&self) -> IngestStage {
        self.stage
    }

    /// The address of the endpoint.
    pub closed spec fn spec_url(&self) -> Seq<char> {
        self.url@
    }

    /// A task that has yet to connect to `url`.
    pub fn new(url: String) -> (client: WsClient)
        ensures
            client.spec_stage() == IngestStage::Connecting,
            client.spec_url() == url@,
    {
        WsClient { url, stage: IngestStage::Connecting }
    }

    /// Where the task stands.
    #[verifier::when_used_as_spec(spec_stage)]
    pub fn stage(&self) -> (stage: IngestStage)
        ensures
            stage == self.spec_stage(),
    {
        self.stage
    }

    /// The address of the endpoint.
    pub fn url(&self) -> (url: &str)
        ensures
            url@ == self.spec_url(),
    {
        self.url.as_str()
    }

    /// Takes the answer to what the task asked for and says what it asks
    /// for next. An event that is no answer to that, and any event once the
    /// task has ended, changes nothing and gets no request.
    pub fn step(&mut self, event: IngestEvent) -> (action: Option<IngestAction>)
        ensures
            final(self).spec_url() == old(self).spec_url(),
            action.is_some() <==> ingest_expects(old(self).spec_stage(), event),
            ingest_expects(old(self).spec_stage(), event) ==> {
                &&& final(self).spec_stage() == ingest_next(event)
                &&& action == Some(ingest_request(event))
            },
            !ingest_expects(old(self).spec_stage(), event) ==> final(self).spec_stage() == old(
                self,
            ).spec_stage(),
    {
        let (next, action) = match (self.stage, event) {
            (IngestStage::Connecting, IngestEvent::Connected) => (
                IngestStage::Listening,
                IngestAction::Next,
            ),
            (IngestStage::Connecting, IngestEvent::ConnectFailed) => (
                IngestStage::Finished(Some(TaskError::Connection)),
                IngestAction::Finish(Some(TaskError::Connection)),
            ),
            (IngestStage::Listening, IngestEvent::Tick(record)) => (
                IngestStage::Sending,
                IngestAction::Send(record),
            ),
            (IngestStage::Listening, IngestEvent::Malformed) => (
                IngestStage::Finished(Some(TaskError::Protocol)),
                IngestAction::Finish(Some(TaskError::Protocol)),
            ),
            (IngestStage::Listening, IngestEvent::Ignored) => (
                IngestStage::Listening,
                IngestAction::Next,
            ),
            (IngestStage::Listening, IngestEvent::Broken) => (
                IngestStage::Finished(Some(TaskError::Connection)),
                IngestAction::Finish(Some(TaskError::Connection)),
            ),
            (IngestStage::Listening, IngestEvent::Ended) => (
                IngestStage::Finished(None),
                IngestAction::Finish(None),
            ),
            (IngestStage::Sending, IngestEvent::Sent) => (
                IngestStage::Listening,
                IngestAction::Next,
            ),
            (IngestStage::Sending, IngestEvent::ReceiverGone) => (
                IngestStage::Finished(Some(TaskError::ChannelClosed)),
                IngestAction::Finish(Some(TaskError::ChannelClosed)),
            ),
            (_, _) => {
                return None;
            },
        };
        self.stage = next;
        Some(action)
    }
}

} // verus!
