use vstd::prelude::*;
use crate::codec::{decode, decoded, DecodeError, JsonValue};
use crate::distributor::{offer, Distributor, Received};
use crate::stats::{recorded, MarketStats, StatsBook};
use crate::types::{MarketDataMessage, MessageView};

verus! {

/// Why a session could not start.
pub enum ClientError {
    WebSocket(String),
    Connection(String),
    Parse(String),
}

#[derive(Clone, Copy, Debug, PartialEq, Eq, Structural)]
pub enum SessionState {
    Idle,
    Starting,
    Running,
    Stopping,
}

/// What happened, as the driver of a session reports it.
#[derive(Clone, Copy, Debug, PartialEq, Eq, Structural)]
pub enum SessionEvent {
    /// `start()` was called.
    Start,
    /// The connection and the subscribe request went through.
    Connected,
    /// The connection or the subscribe request failed.
    ConnectFailed,
    /// `stop()` was called.
    Stop,
    /// The read loop is at the top of an iteration.
    LoopBoundary,
    /// A close frame, a transport error or the end of the stream.
    StreamEnded,
}

/// What the driver is to do next.
#[derive(Clone, Copy, Debug, PartialEq, Eq, Structural)]
pub enum SessionAction {
    Nothing,
    /// `start()` while a session is live: warn, open nothing.
    WarnAlreadyRunning,
    /// `start()` while the previous read loop has yet to leave: warn, open
    /// nothing; `start()` again once the session is idle.
    WarnStillStopping,
    /// Open the connection and send the subscribe request.
    Connect,
    /// Start the read loop.
    SpawnReader,
    /// Hand the connection error to the caller of `start()`.
    ReportConnectError,
    /// Read the next frame.
    ReadFrame,
    /// Leave the read loop.
    ExitLoop,
}

/// The lifecycle `Idle -> Starting -> Running -> Stopping -> Idle`.
pub open spec fn transition_spec(s: SessionState, e: SessionEvent) -> (SessionState, SessionAction) {
    match (s, e) {
        (SessionState::Idle, SessionEvent::Start) => (SessionState::Starting, SessionAction::Connect),
        (SessionState::Idle, SessionEvent::LoopBoundary) => (SessionState::Idle, SessionAction::ExitLoop),
        (SessionState::Idle, _) => (SessionState::Idle, SessionAction::Nothing),
        (SessionState::Stopping, SessionEvent::Start) => (s, SessionAction::WarnStillStopping),
        (_, SessionEvent::Start) => (s, SessionAction::WarnAlreadyRunning),
        (SessionState::Starting, SessionEvent::Connected) => (SessionState::Running, SessionAction::SpawnReader),
        (SessionState::Stopping, SessionEvent::Connected) => (SessionState::Stopping, SessionAction::SpawnReader),
        (SessionState::Running, SessionEvent::Connected) => (s, SessionAction::Nothing),
        (SessionState::Running, SessionEvent::ConnectFailed) => (s, SessionAction::Nothing),
        (_, SessionEvent::ConnectFailed) => (SessionState::Idle, SessionAction::ReportConnectError),
        (_, SessionEvent::Stop) => (SessionState::Stopping, SessionAction::Nothing),
        (SessionState::Running, SessionEvent::LoopBoundary) => (s, SessionAction::ReadFrame),
        (SessionState::Stopping, SessionEvent::LoopBoundary) => (SessionState::Idle, SessionAction::ExitLoop),
        (SessionState::Starting, SessionEvent::LoopBoundary) => (s, SessionAction::Nothing),
        (SessionState::Starting, SessionEvent::StreamEnded) => (SessionState::Idle, SessionAction::Nothing),
        (_, SessionEvent::StreamEnded) => (SessionState::Idle, SessionAction::ExitLoop),
    }
}

/// Whether a session in state `s` counts as running.
pub open spec fn running_spec(s: SessionState) -> bool {
    s == SessionState::Starting || s == SessionState::Running
}

/// The next state and the action to take on event `e` in state `s`.
pub fn transition(s: SessionState, e: SessionEvent) -> (r: (SessionState, SessionAction))
    ensures
        r == transition_spec(s, e),
{
    match (s, e) {
        (SessionState::Idle, SessionEvent::Start) => (SessionState::Starting, SessionAction::Connect),
        (SessionState::Idle, SessionEvent::LoopBoundary) => (SessionState::Idle, SessionAction::ExitLoop),
        (SessionState::Idle, _) => (SessionState::Idle, SessionAction::Nothing),
        (SessionState::Stopping, SessionEvent::Start) => (s, SessionAction::WarnStillStopping),
        (_, SessionEvent::Start) => (s, SessionAction::WarnAlreadyRunning),
        (SessionState::Starting, SessionEvent::Connected) => (SessionState::Running, SessionAction::SpawnReader),
        (SessionState::Stopping, SessionEvent::Connected) => (SessionState::Stopping, SessionAction::SpawnReader),
        (SessionState::Running, SessionEvent::Connected) => (s, SessionAction::Nothing),
        (SessionState::Running, SessionEvent::ConnectFailed) => (s, SessionAction::Nothing),
        (_, SessionEvent::ConnectFailed) => (SessionState::Idle, SessionAction::ReportConnectError),
        (_, SessionEvent::Stop) => (SessionState::Stopping, SessionAction::Nothing),
        (SessionState::Running, SessionEvent::LoopBoundary) => (s, SessionAction::ReadFrame),
        (SessionState::Stopping, SessionEvent::LoopBoundary) => (SessionState::Idle, SessionAction::ExitLoop),
        (SessionState::Starting, SessionEvent::LoopBoundary) => (s, SessionAction::Nothing),
        (SessionState::Starting, SessionEvent::StreamEnded) => (SessionState::Idle, SessionAction::Nothing),
        (_, SessionEvent::StreamEnded) => (SessionState::Idle, SessionAction::ExitLoop),
    }
}

/// Lifecycle laws. Two `start()` calls in a row ask for at most one
/// connection; `stop()` on an idle session changes nothing; after `stop()`
/// the session does not count as running, and the read loop leaves at its
/// next iteration boundary, the session then idle.
pub proof fn lemma_lifecycle(s: SessionState)
    ensures
        ({
            let first = transition_spec(s, SessionEvent::Start);
            let second = transition_spec(first.0, SessionEvent::Start);
            second.1 != SessionAction::Connect && (first.1 == SessionAction::Connect ==> s
                == SessionState::Idle)
        }),
        transition_spec(SessionState::Idle, SessionEvent::Stop) == (
            SessionState::Idle,
            SessionAction::Nothing,
        ),
        !running_spec(transition_spec(s, SessionEvent::Stop).0),
        transition_spec(transition_spec(s, SessionEvent::Stop).0, SessionEvent::LoopBoundary) == (
            SessionState::Idle,
            SessionAction::ExitLoop,
        ),
{
}

/// What became of one data frame.
pub enum FrameOutcome {
    /// Decoded and handed to every subscriber. The flag says whether the
    /// statistics took the message in: `false` for a message that is not a
    /// trade, and for a trade that the statistics left out.
    Published(bool),
    /// Not a message; the stream goes on.
    Rejected(DecodeError),
    /// Decoded, but the message counter is exhausted.
    Dropped,
}

/// One streaming session: its lifecycle state, the distributor its
/// messages go out through, and the statistics of the trades among them.
pub struct MarketDataClient {
    url: String,
    state: SessionState,
    distributor: Distributor,
    stats: StatsBook,
}

impl MarketDataClient {
    pub closed spec fn wf(&self) -> bool {
        self.distributor.wf() && self.stats.wf()
    }

    pub closed spec fn state_spec(&self) -> SessionState {
        self.state
    }

    pub closed spec fn url_spec(&self) -> Seq<char> {
        self.url@
    }

    pub closed spec fn channel(&self) -> Distributor {
        self.distributor
    }

    pub closed spec fn book(&self) -> StatsBook {
        self.stats
    }

    /// A well-formed session has a well-formed distributor, with room for
    /// at least one message per subscriber, and well-formed statistics.
    pub proof fn lemma_parts_wf(&self)
        requires
            self.wf(),
        ensures
            self.channel().wf(),
            self.channel().capacity_spec() > 0,
            self.book().wf(),
    {
        self.distributor.lemma_capacity_positive();
    }

    /// A new idle session for `url`, with subscriber buffers of
    /// `buffer_size` messages.
    pub fn new(url: String, buffer_size: usize) -> (r: Self)
        requires
            buffer_size > 0,
        ensures
            r.wf(),
            r.state_spec() == SessionState::Idle,
            r.url_spec() == url@,
            r.channel().capacity_spec() == buffer_size,
            r.channel().handles() == 0,
            r.channel().history().len() == 0,
            r.book()@.len() == 0,
    {
        MarketDataClient {
            url,
            state: SessionState::Idle,
            distributor: Distributor::new(buffer_size),
            stats: StatsBook::new(),
        }
    }

    pub fn url(&self) -> (r: &String)
        ensures
            r@ == self.url_spec(),
    {
        &self.url
    }

    pub fn state(&self) -> (r: SessionState)
        ensures
            r == self.state_spec(),
    {
        self.state
    }

    /// A new subscriber handle; it sees what is published from now on.
    pub fn subscribe(&mut self) -> (id: usize)
        requires
            old(self).wf(),
        ensures
            final(self).wf(),
            final(self).state_spec() == old(self).state_spec(),
            final(self).url_spec() == old(self).url_spec(),
            final(self).book() == old(self).book(),
            id == old(self).channel().handles(),
            final(self).channel().handles() == old(self).channel().handles() + 1,
            final(self).channel().capacity_spec() == old(self).channel().capacity_spec(),
            final(self).channel().history() == old(self).channel().history(),
            final(self).channel().is_active(id as int),
            final(self).channel().pending(id as int).len() == 0,
            final(self).channel().lag(id as int) == 0,
            forall|j: int|
                0 <= j < old(self).channel().handles() ==> (#[trigger] final(self).channel().is_active(j))
                    == old(self).channel().is_active(j) && final(self).channel().pending(j) == old(self).channel().pending(j) && final(self).channel().lag(j) == old(self).channel().lag(j),
    {
        self.distributor.subscribe()
    }

    /// Releases a subscriber handle; every other handle keeps its buffer.
    pub fn unsubscribe(&mut self, id: usize)
        requires
            old(self).wf(),
        ensures
            final(self).wf(),
            final(self).state_spec() == old(self).state_spec(),
            final(self).url_spec() == old(self).url_spec(),
            final(self).book() == old(self).book(),
            !final(self).channel().is_active(id as int),
            final(self).channel().handles() == old(self).channel().handles(),
            final(self).channel().capacity_spec() == old(self).channel().capacity_spec(),
            final(self).channel().history() == old(self).channel().history(),
            forall|j: int|
                j != id ==> (#[trigger] final(self).channel().is_active(j)) == old(self).channel().is_active(j),
            forall|j: int|
                0 <= j < old(self).channel().handles() && j != id ==> (#[trigger] final(self).channel().pending(j)) == old(self).channel().pending(j) && final(self).channel().lag(j)
                    == old(self).channel().lag(j),
    {
        self.distributor.unsubscribe(id)
    }

    /// Reads subscriber `id`'s buffer (see [`Distributor::receive`]).
    pub fn receive(&mut self, id: usize) -> (r: Received)
        requires
            old(self).wf(),
        ensures
            final(self).wf(),
            final(self).state_spec() == old(self).state_spec(),
            final(self).url_spec() == old(self).url_spec(),
            final(self).book() == old(self).book(),
            final(self).channel().history() == old(self).channel().history(),
            final(self).channel().handles() == old(self).channel().handles(),
            final(self).channel().capacity_spec() == old(self).channel().capacity_spec(),
            forall|j: int| #[trigger] final(self).channel().is_active(j) == old(self).channel().is_active(j),
            forall|j: int|
                0 <= j < old(self).channel().handles() && j != id ==> (#[trigger] final(self).channel().pending(j)) == old(self).channel().pending(j) && final(self).channel().lag(j)
                    == old(self).channel().lag(j),
            !old(self).channel().is_active(id as int) ==> r is Closed,
            old(self).channel().is_active(id as int) && old(self).channel().lag(id as int) > 0 ==> r
                == Received::Lagged(old(self).channel().lag(id as int) as u64) && final(self).channel().lag(
                id as int,
            ) == 0 && final(self).channel().pending(id as int) == old(self).channel().pending(id as int),
            old(self).channel().is_active(id as int) && old(self).channel().lag(id as int) == 0
                && old(self).channel().pending(id as int).len() == 0 ==> r is Empty && final(self).channel().lag(id as int) == 0 && final(self).channel().pending(id as int) == old(self).channel().pending(id as int),
            old(self).channel().is_active(id as int) && old(self).channel().lag(id as int) == 0
                && old(self).channel().pending(id as int).len() > 0 ==> (r matches Received::Message(m)
                && m@ == old(self).channel().pending(id as int)[0]) && final(self).channel().lag(id as int)
                == 0 && final(self).channel().pending(id as int) == old(self).channel().pending(
                id as int,
            ).drop_first(),
    {
        self.distributor.receive(id)
    }

    /// Applies a lifecycle event and returns the action to take; the
    /// distributor and the statistics are left as they are.
    pub fn handle(&mut self, e: SessionEvent) -> (a: SessionAction)
        requires
            old(self).wf(),
        ensures
            final(self).wf(),
            (final(self).state_spec(), a) == transition_spec(old(self).state_spec(), e),
            final(self).url_spec() == old(self).url_spec(),
            final(self).channel() == old(self).channel(),
            final(self).book() == old(self).book(),
    {
        let (s, a) = transition(self.state, e);
        self.state = s;
        a
    }

    /// `start()`: opens a connection only from `Idle`; publishes nothing.
    pub fn start(&mut self) -> (a: SessionAction)
        requires
            old(self).wf(),
        ensures
            final(self).wf(),
            (final(self).state_spec(), a) == transition_spec(old(self).state_spec(), SessionEvent::Start),
            final(self).url_spec() == old(self).url_spec(),
            final(self).channel() == old(self).channel(),
            final(self).book() == old(self).book(),
    {
        self.handle(SessionEvent::Start)
    }

    /// `stop()`: asks the read loop to leave; nothing on an idle session.
    /// Subscribers and statistics are left as they are.
    pub fn stop(&mut self)
        requires
            old(self).wf(),
        ensures
            final(self).wf(),
            final(self).state_spec() == transition_spec(old(self).state_spec(), SessionEvent::Stop).0,
            !running_spec(final(self).state_spec()),
            final(self).url_spec() == old(self).url_spec(),
            final(self).channel() == old(self).channel(),
            final(self).book() == old(self).book(),
    {
        self.handle(SessionEvent::Stop);
    }

    pub fn is_running(&self) -> (r: bool)
        ensures
            r == running_spec(self.state_spec()),
    {
        self.state == SessionState::Starting || self.state == SessionState::Running
    }

    /// One data frame, already parsed as JSON: decoded, then published to
    /// every subscriber; a trade also goes into the statistics. A frame that
    /// is not a message is rejected and changes nothing.
    pub fn on_data(&mut self, doc: &JsonValue) -> (r: FrameOutcome)
        requires
            old(self).wf(),
        ensures
            final(self).wf(),
            final(self).state_spec() == old(self).state_spec(),
            final(self).url_spec() == old(self).url_spec(),
            decoded(*doc) is Err ==> r is Rejected && final(self).channel() == old(self).channel()
                && final(self).book() == old(self).book(),
            r matches FrameOutcome::Rejected(e) ==> decoded(*doc) == Err::<MessageView, DecodeError>(e),
            decoded(*doc) is Ok ==> (r is Published <==> old(self).channel().history().len() < u64::MAX),
            r is Dropped ==> final(self).channel() == old(self).channel() && final(self).book() == old(self).book(),
            r is Published ==> decoded(*doc) is Ok && final(self).channel().history() == old(self).channel().history().push(decoded(*doc)->Ok_0),
            r is Published ==> final(self).channel().handles() == old(self).channel().handles()
                && final(self).channel().capacity_spec() == old(self).channel().capacity_spec(),
            r is Published ==> forall|j: int| #[trigger]
                final(self).channel().is_active(j) == old(self).channel().is_active(j),
            r is Published ==> forall|j: int| #[trigger]
                old(self).channel().is_active(j) ==> (
                final(self).channel().pending(j),
                final(self).channel().lag(j),
            ) == offer(
                old(self).channel().pending(j),
                old(self).channel().lag(j),
                decoded(*doc)->Ok_0,
                old(self).channel().capacity_spec(),
            ),
            r is Published && !(decoded(*doc)->Ok_0 is Trade) ==> final(self).book() == old(self).book()
                && r == FrameOutcome::Published(false),
            r is Published && decoded(*doc)->Ok_0 is Trade ==> r == FrameOutcome::Published(
                old(self).book().takes(decoded(*doc)->Ok_0->Trade_0),
            ) && recorded(
                old(self).book(),
                final(self).book(),
                decoded(*doc)->Ok_0->Trade_0,
                old(self).book().takes(decoded(*doc)->Ok_0->Trade_0),
            ),
    {
        match decode(doc) {
            Err(e) => FrameOutcome::Rejected(e),
            Ok(m) => {
                if !self.distributor.can_publish() {
                    return FrameOutcome::Dropped;
                }
                let counted = match &m {
                    MarketDataMessage::Trade(t) => self.stats.record(t),
                    _ => false,
                };
                self.distributor.publish(m);
                FrameOutcome::Published(counted)
            },
        }
    }

    /// The statistics of `symbol` (the empty record before its first trade).
    pub fn get_statistics(&self, symbol: &String) -> (r: MarketStats)
        requires
            self.wf(),
        ensures
            self.book().has(symbol@) ==> r == self.book().record_of(symbol@),
            !self.book().has(symbol@) ==> r.symbol@ == symbol@ && r == crate::stats::empty_stats(r.symbol),
    {
        self.stats.get_statistics(symbol)
    }
}

} // verus!
