//! The transport: the rules by which the engine connects to the feed, keeps
//! its subscriptions across reconnections, and hands inbound frames on.
//!
//! The transport is a state machine. The caller performs the network
//! operations and tells the transport what happened; the transport answers
//! with what to do next.

use vstd::prelude::*;
use vstd::string::StringExecFns;
use crate::amount::{amount_text, push_amount};
use crate::error::MarketDataError;
use crate::json::{json_quote, json_quoted};
use crate::replay::{MasterClock, ReplayConfig};
use crate::text::{int_text, push_i64};
use crate::types::DmsEventType;

verus! {

/// Attempts that `connect` makes before it reports failure.
pub const MAX_CONNECT_ATTEMPTS: u32 = 3;

/// Milliseconds between two attempts of `connect`.
pub const CONNECT_RETRY_MS: u64 = 5_000;

/// Milliseconds after which an attempt of `connect` is given up.
pub const CONNECT_TIMEOUT_MS: u64 = 10_000;

/// Attempts that are made to restore a lost connection.
pub const MAX_RECONNECT_ATTEMPTS: u32 = 20;

/// Milliseconds between two attempts to restore a lost connection.
pub const RECONNECT_RETRY_MS: u64 = 2_000;

/// The state of the connection.
#[derive(Debug, Clone, Copy, PartialEq, Eq, Structural)]
pub enum Link {
    /// Disconnected, and no attempt is under way.
    Idle,
    /// The caller asked for a connection; `failures` attempts have failed.
    Connecting { failures: u32 },
    /// Up, subscriptions being sent; inbound frames are not yet handed on.
    Resubscribing { failures: u32 },
    /// Up; inbound frames are handed on.
    Connected,
    /// The connection was lost; `failures` attempts to restore it have
    /// failed.
    Reconnecting { failures: u32 },
    /// Closed by the caller.
    Closed,
}

/// What the caller observed.
#[derive(Debug, Clone, Copy, PartialEq, Eq, Structural)]
pub enum Event {
    /// The caller asks for a connection.
    Connect,
    /// An attempt to open the connection failed or timed out, or a
    /// subscription could not be sent.
    AttemptFailed,
    /// An attempt to open the connection succeeded.
    AttemptSucceeded,
    /// The subscriptions that the transport asked to send were sent.
    Resubscribed,
    /// A text frame arrived.
    TextFrame,
    /// A close frame arrived, or reading failed.
    Dropped,
    /// A frame of another kind arrived.
    OtherFrame,
    /// The caller closes the connection.
    Close,
}

/// An inbound frame.
#[derive(Debug)]
pub enum Frame {
    Text(String),
    /// A close frame.
    Close,
    /// Reading failed.
    Error,
    /// Ping, pong or binary.
    Other,
}

impl Frame {
    /// The event that the arrival of the frame is.
    pub open spec fn event(self) -> Event {
        match self {
            Frame::Text(_) => Event::TextFrame,
            Frame::Close => Event::Dropped,
            Frame::Error => Event::Dropped,
            Frame::Other => Event::OtherFrame,
        }
    }
}

/// What the caller is to do next.
#[derive(Debug)]
pub enum Action {
    /// Nothing.
    Nothing,
    /// Try to open the connection, after waiting `delay_ms`; give the
    /// attempt up after `timeout_ms`, if that is not zero.
    Attempt { delay_ms: u64, timeout_ms: u64 },
    /// Send these messages, then report `Resubscribed`, or `AttemptFailed`
    /// if one of them cannot be sent.
    Resubscribe(Vec<String>),
    /// Put the text on the bus.
    Forward(String),
    /// Report the error to the caller of `connect`.
    Fail(MarketDataError),
    /// Stop trying to restore the connection.
    GiveUp,
    /// Send a close frame.
    SendClose,
}

impl Link {
    /// The failure counts are below their limits.
    pub open spec fn wf(self) -> bool {
        match self {
            Link::Connecting { failures } => failures < MAX_CONNECT_ATTEMPTS,
            Link::Reconnecting { failures } => failures < MAX_RECONNECT_ATTEMPTS,
            Link::Resubscribing { failures } => failures < MAX_RECONNECT_ATTEMPTS,
            _ => true,
        }
    }

    /// A connection is up, so that messages can be sent.
    pub open spec fn up(self) -> bool {
        self is Connected || self is Resubscribing
    }

    /// The state after a failed attempt.
    pub open spec fn after_failure(self) -> Link {
        match self {
            Link::Connecting { failures } => if failures + 1 >= MAX_CONNECT_ATTEMPTS {
                Link::Idle
            } else {
                Link::Connecting { failures: (failures + 1) as u32 }
            },
            Link::Reconnecting { failures } => if failures + 1 >= MAX_RECONNECT_ATTEMPTS {
                Link::Idle
            } else {
                Link::Reconnecting { failures: (failures + 1) as u32 }
            },
            Link::Resubscribing { failures } => if failures + 1 >= MAX_RECONNECT_ATTEMPTS {
                Link::Idle
            } else {
                Link::Reconnecting { failures: (failures + 1) as u32 }
            },
            _ => self,
        }
    }

    /// The state after a successful attempt.
    pub open spec fn after_success(self) -> Link {
        match self {
            Link::Connecting { failures } => Link::Resubscribing { failures: 0 },
            Link::Reconnecting { failures } => Link::Resubscribing { failures },
            _ => self,
        }
    }

    /// The state after `event`.
    pub open spec fn step(self, event: Event) -> Link {
        match event {
            Event::Connect => if self is Idle || self is Closed {
                Link::Connecting { failures: 0 }
            } else {
                self
            },
            Event::AttemptFailed => self.after_failure(),
            Event::AttemptSucceeded => self.after_success(),
            Event::Resubscribed => if self is Resubscribing {
                Link::Connected
            } else {
                self
            },
            Event::TextFrame => self,
            Event::OtherFrame => self,
            Event::Dropped => if self.up() {
                Link::Reconnecting { failures: 0 }
            } else {
                self
            },
            Event::Close => Link::Closed,
        }
    }

    /// `event` makes the transport hand a frame on.
    pub open spec fn forwards(self, event: Event) -> bool {
        self is Connected && event is TextFrame
    }

    /// `event` makes the transport send its subscriptions.
    pub open spec fn resubscribes(self, event: Event) -> bool {
        (self is Connecting || self is Reconnecting) && event is AttemptSucceeded
    }

    /// The state after `events`, one after another.
    pub open spec fn run(self, events: Seq<Event>) -> Link
        decreases events.len(),
    {
        if events.len() == 0 {
            self
        } else {
            self.run(events.drop_last()).step(events.last())
        }
    }
}

/// Among the first `k` of `events`, one made the transport send its
/// subscriptions.
pub open spec fn resubscribed_within(start: Link, events: Seq<Event>, k: int) -> bool {
    exists|j: int|
        0 <= j < k && j < events.len() && #[trigger] start.run(events.take(j)).resubscribes(
            events[j],
        )
}

/// A transport that is not up hands no frame on before it has sent its
/// subscriptions: whatever happens after a connection was lost or before
/// one was made, each frame that reaches the bus comes after an event at
/// which every recorded subscription was sent again.
pub proof fn lemma_resubscribe_before_delivery(start: Link, events: Seq<Event>, k: int)
    requires
        !start.up(),
        0 <= k < events.len(),
        start.run(events.take(k)).forwards(events[k]),
    ensures
        resubscribed_within(start, events, k),
{
    lemma_up_after_resubscription(start, events, k);
}

/// A transport that was not up and is up after `k` events has sent its
/// subscriptions in between.
pub proof fn lemma_up_after_resubscription(start: Link, events: Seq<Event>, k: int)
    requires
        !start.up(),
        0 <= k <= events.len(),
    ensures
        start.run(events.take(k)).up() ==> resubscribed_within(start, events, k),
    decreases k,
{
    if k > 0 {
        lemma_up_after_resubscription(start, events, k - 1);
        let before = start.run(events.take(k - 1));
        assert(events.take(k).drop_last() =~= events.take(k - 1));
        assert(events.take(k).last() == events[k - 1]);
        assert(start.run(events.take(k)) == before.step(events[k - 1]));
        if start.run(events.take(k)).up() {
            if before.up() {
                let j = choose|j: int|
                    0 <= j < k - 1 && j < events.len() && #[trigger] start.run(
                        events.take(j),
                    ).resubscribes(events[j]);
                assert(start.run(events.take(j)).resubscribes(events[j]));
            } else {
                assert(before.resubscribes(events[k - 1]));
                assert(start.run(events.take(k - 1)).resubscribes(events[k - 1]));
            }
        }
    } else {
        assert(events.take(0) =~= Seq::<Event>::empty());
    }
}

/// The topic of an event kind and an instrument.
pub open spec fn topic_text(kind: DmsEventType, instrument_id: Seq<char>) -> Seq<char> {
    kind.text() + "."@ + instrument_id
}

/// The subscribe message for a topic: a JSON object with the members
/// `event` and `topic` and, in replay mode, the replay parameters.
pub open spec fn subscription_text(
    kind: DmsEventType,
    instrument_id: Seq<char>,
    replay: Option<ReplayConfig>,
) -> Seq<char> {
    let topic = json_quoted(topic_text(kind, instrument_id));
    match replay {
        None => "{\"event\":\"sub\",\"topic\":"@ + topic + "}"@,
        Some(r) => "{\"end_time\":"@ + int_text(r.end_time as int)
            + ",\"event\":\"sub\",\"replay_window\":"@ + int_text(r.replay_window as int)
            + ",\"speed_multiplier\":"@ + amount_text(r.speed_multiplier as int)
            + ",\"start_time\":"@ + int_text(r.start_time as int) + ",\"topic\":"@ + topic
            + ",\"x-cur-time\":"@ + int_text(r.x_cur_time as int) + "}"@,
    }
}

/// The subscribe message for a topic.
pub fn subscription_message(
    kind: DmsEventType,
    instrument_id: &str,
    replay: &Option<ReplayConfig>,
) -> (message: String)
    ensures
        message@ == subscription_text(kind, instrument_id@, *replay),
{
    let mut topic = kind.to_string();
    topic.append(".");
    topic.append(instrument_id);
    let quoted = json_quote(topic.as_str());
    match replay {
        None => {
            let mut out = String::from_str("{\"event\":\"sub\",\"topic\":");
            out.append(quoted.as_str());
            out.append("}");
            out
        },
        Some(r) => {
            let mut out = String::from_str("{\"end_time\":");
            push_i64(&mut out, r.end_time);
            out.append(",\"event\":\"sub\",\"replay_window\":");
            push_i64(&mut out, r.replay_window);
            out.append(",\"speed_multiplier\":");
            push_amount(&mut out, r.speed_multiplier);
            out.append(",\"start_time\":");
            push_i64(&mut out, r.start_time);
            out.append(",\"topic\":");
            out.append(quoted.as_str());
            out.append(",\"x-cur-time\":");
            push_i64(&mut out, r.x_cur_time);
            out.append("}");
            out
        },
    }
}

/// The connection to the feed and the subscriptions made on it.
pub struct WsClient {
    pub url: String,
    /// Every subscription that was asked for, in the order of asking.
    pub subscriptions: Vec<(DmsEventType, String)>,
    pub link: Link,
    pub replay_config: Option<ReplayConfig>,
    pub master_clock: Option<MasterClock>,
    pub is_replay: bool,
}

impl WsClient {
    pub open spec fn wf(&self) -> bool {
        self.link.wf()
    }

    /// The subscribe messages of all recorded subscriptions, in order.
    pub open spec fn is_resubscription(&self, messages: Seq<String>) -> bool {
        &&& messages.len() == self.subscriptions@.len()
        &&& forall|i: int|
            0 <= i < messages.len() ==> (#[trigger] messages[i])@ == subscription_text(
                self.subscriptions@[i].0,
                self.subscriptions@[i].1@,
                self.replay_config,
            )
    }

    /// A transport for the feed at `url`, disconnected, without
    /// subscriptions, on real time.
    pub fn new(url: String) -> (c: Self)
        ensures
            c.wf(),
            c.url == url,
            c.subscriptions@.len() == 0,
            c.link == Link::Idle,
            c.replay_config is None,
            c.master_clock is None,
            !c.is_replay,
    {
        WsClient {
            url,
            subscriptions: Vec::new(),
            link: Link::Idle,
            replay_config: None,
            master_clock: None,
            is_replay: false,
        }
    }

    /// A transport for the feed at `url` in replay mode, created when the
    /// real clock shows `wall_time`.
    pub fn with_replay(
        url: String,
        start_time: i64,
        end_time: i64,
        speed_multiplier: i64,
        replay_window: i64,
        x_cur_time: i64,
        wall_time: i64,
    ) -> (c: Self)
        ensures
            c.wf(),
            c.url == url,
            c.subscriptions@.len() == 0,
            c.link == Link::Idle,
            c.replay_config == Some(
                ReplayConfig { start_time, end_time, speed_multiplier, replay_window, x_cur_time },
            ),
            c.is_replay,
            (c.master_clock matches Some(clock) && clock.start() == start_time && clock.speed()
                == speed_multiplier && clock.base() == wall_time && clock.reading() == start_time),
    {
        let replay_config = ReplayConfig::new(
            start_time,
            end_time,
            speed_multiplier,
            replay_window,
            x_cur_time,
        );
        let master_clock = MasterClock::new(start_time, speed_multiplier, wall_time);
        let mut client = Self::new(url);
        client.replay_config = Some(replay_config);
        client.master_clock = Some(master_clock);
        client.is_replay = true;
        client
    }

    /// Whether a connection is up.
    pub fn is_connected(&self) -> (up: bool)
        ensures
            up == self.link.up(),
    {
        match self.link {
            Link::Connected => true,
            Link::Resubscribing { .. } => true,
            _ => false,
        }
    }

    /// The subscribe messages of all recorded subscriptions, in order.
    pub fn resubscription(&self) -> (messages: Vec<String>)
        ensures
            self.is_resubscription(messages@),
    {
        let mut messages: Vec<String> = Vec::new();
        let mut i: usize = 0;
        while i < self.subscriptions.len()
            invariant
                i <= self.subscriptions.len(),
                messages@.len() == i,
                forall|k: int|
                    0 <= k < i ==> (#[trigger] messages@[k])@ == subscription_text(
                        self.subscriptions@[k].0,
                        self.subscriptions@[k].1@,
                        self.replay_config,
                    ),
            decreases self.subscriptions.len() - i,
        {
            let message = subscription_message(
                self.subscriptions[i].0,
                self.subscriptions[i].1.as_str(),
                &self.replay_config,
            );
            messages.push(message);
            i += 1;
        }
        messages
    }

    /// The caller asks for a connection. A transport that is idle or closed
    /// starts its first attempt; any other stays as it is.
    pub fn connect(&mut self) -> (action: Action)
        requires
            old(self).wf(),
        ensures
            final(self).wf(),
            *final(self) == (WsClient { link: old(self).link.step(Event::Connect), ..*old(self) }),
            action == if old(self).link is Idle || old(self).link is Closed {
                Action::Attempt { delay_ms: 0, timeout_ms: CONNECT_TIMEOUT_MS }
            } else {
                Action::Nothing
            },
    {
        match self.link {
            Link::Idle | Link::Closed => {
                self.link = Link::Connecting { failures: 0 };
                Action::Attempt { delay_ms: 0, timeout_ms: CONNECT_TIMEOUT_MS }
            },
            _ => Action::Nothing,
        }
    }

    /// An attempt failed. While attempts are left, the next one follows
    /// after the retry delay. When `connect` has used its attempts, the
    /// failure is reported; when the attempts to restore a connection are
    /// used up, the transport gives up and stays disconnected.
    pub fn on_attempt_failed(&mut self) -> (action: Action)
        requires
            old(self).wf(),
        ensures
            final(self).wf(),
            *final(self) == (WsClient { link: old(self).link.after_failure(), ..*old(self) }),
            action == match old(self).link {
                Link::Connecting { failures } => if failures + 1 >= MAX_CONNECT_ATTEMPTS {
                    Action::Fail(MarketDataError::ConnectFailed)
                } else {
                    Action::Attempt { delay_ms: CONNECT_RETRY_MS, timeout_ms: CONNECT_TIMEOUT_MS }
                },
                Link::Reconnecting { failures } | Link::Resubscribing { failures } => if failures
                    + 1 >= MAX_RECONNECT_ATTEMPTS {
                    Action::GiveUp
                } else {
                    Action::Attempt { delay_ms: RECONNECT_RETRY_MS, timeout_ms: 0 }
                },
                _ => Action::Nothing,
            },
    {
        match self.link {
            Link::Connecting { failures } => {
                if failures + 1 >= MAX_CONNECT_ATTEMPTS {
                    self.link = Link::Idle;
                    Action::Fail(MarketDataError::ConnectFailed)
                } else {
                    self.link = Link::Connecting { failures: failures + 1 };
                    Action::Attempt { delay_ms: CONNECT_RETRY_MS, timeout_ms: CONNECT_TIMEOUT_MS }
                }
            },
            Link::Reconnecting { failures } | Link::Resubscribing { failures } => {
                if failures + 1 >= MAX_RECONNECT_ATTEMPTS {
                    self.link = Link::Idle;
                    Action::GiveUp
                } else {
                    self.link = Link::Reconnecting { failures: failures + 1 };
                    Action::Attempt { delay_ms: RECONNECT_RETRY_MS, timeout_ms: 0 }
                }
            },
            _ => Action::Nothing,
        }
    }

    /// An attempt succeeded: every recorded subscription is to be sent, in
    /// the order in which it was made, before any frame is handed on.
    pub fn on_attempt_succeeded(&mut self) -> (action: Action)
        requires
            old(self).wf(),
        ensures
            final(self).wf(),
            *final(self) == (WsClient { link: old(self).link.after_success(), ..*old(self) }),
            old(self).link.resubscribes(Event::AttemptSucceeded) ==> (action matches Action::Resubscribe(
                messages,
            ) && old(self).is_resubscription(messages@)),
            !old(self).link.resubscribes(Event::AttemptSucceeded) ==> action == Action::Nothing,
    {
        match self.link {
            Link::Connecting { failures } => {
                self.link = Link::Resubscribing { failures: 0 };
                Action::Resubscribe(self.resubscription())
            },
            Link::Reconnecting { failures } => {
                self.link = Link::Resubscribing { failures };
                Action::Resubscribe(self.resubscription())
            },
            _ => Action::Nothing,
        }
    }

    /// The subscriptions were sent: frames are handed on from now.
    pub fn on_resubscribed(&mut self)
        requires
            old(self).wf(),
        ensures
            final(self).wf(),
            *final(self) == (WsClient {
                link: old(self).link.step(Event::Resubscribed),
                ..*old(self)
            }),
    {
        if let Link::Resubscribing { .. } = self.link {
            self.link = Link::Connected;
        }
    }

    /// A frame arrived. A text frame is put on the bus if the transport is
    /// connected. A close frame or an error on a connection that is up
    /// starts the attempts to restore it. Anything else is passed over.
    pub fn handle_messages(&mut self, frame: Frame) -> (action: Action)
        requires
            old(self).wf(),
        ensures
            final(self).wf(),
            *final(self) == (WsClient { link: old(self).link.step(frame.event()), ..*old(self) }),
            action == match frame {
                Frame::Text(text) => if old(self).link is Connected {
                    Action::Forward(text)
                } else {
                    Action::Nothing
                },
                Frame::Close | Frame::Error => if old(self).link.up() {
                    Action::Attempt { delay_ms: 0, timeout_ms: 0 }
                } else {
                    Action::Nothing
                },
                Frame::Other => Action::Nothing,
            },
            (action is Forward) == old(self).link.forwards(frame.event()),
    {
        match frame {
            Frame::Text(text) => {
                if let Link::Connected = self.link {
                    Action::Forward(text)
                } else {
                    Action::Nothing
                }
            },
            Frame::Close | Frame::Error => {
                if self.is_connected() {
                    self.link = Link::Reconnecting { failures: 0 };
                    Action::Attempt { delay_ms: 0, timeout_ms: 0 }
                } else {
                    Action::Nothing
                }
            },
            Frame::Other => Action::Nothing,
        }
    }

    /// The message to put on the wire for `message`, or `NotConnected` when
    /// no connection is up.
    pub fn send_message(&self, message: &str) -> (r: Result<String, MarketDataError>)
        ensures
            match r {
                Ok(wire) => self.link.up() && wire@ == message@,
                Err(e) => !self.link.up() && e == MarketDataError::NotConnected,
            },
    {
        if self.is_connected() {
            Ok(message.to_owned())
        } else {
            Err(MarketDataError::NotConnected)
        }
    }

    /// Records the subscription, and returns its subscribe message for
    /// sending if a connection is up.
    pub fn subscribe(&mut self, event_type: DmsEventType, instrument_id: &str) -> (r: Option<
        String,
    >)
        requires
            old(self).wf(),
        ensures
            final(self).wf(),
            final(self).subscriptions@.len() == old(self).subscriptions@.len() + 1,
            final(self).subscriptions@.take(old(self).subscriptions@.len() as int) == old(
                self,
            ).subscriptions@,
            final(self).subscriptions@.last().0 == event_type,
            final(self).subscriptions@.last().1@ == instrument_id@,
            final(self).url == old(self).url,
            final(self).link == old(self).link,
            final(self).replay_config == old(self).replay_config,
            final(self).master_clock == old(self).master_clock,
            final(self).is_replay == old(self).is_replay,
            match r {
                Some(message) => old(self).link.up() && message@ == subscription_text(
                    event_type,
                    instrument_id@,
                    old(self).replay_config,
                ),
                None => !old(self).link.up(),
            },
    {
        self.subscriptions.push((event_type, instrument_id.to_owned()));
        assert(self.subscriptions@.take(old(self).subscriptions@.len() as int) =~= old(
            self,
        ).subscriptions@);
        if self.is_connected() {
            Some(subscription_message(event_type, instrument_id, &self.replay_config))
        } else {
            None
        }
    }

    /// The subscribe message for a topic, for sending, or `NotConnected`
    /// when no connection is up.
    pub fn send_subscription(&self, event_type: DmsEventType, instrument_id: &str) -> (r: Result<
        String,
        MarketDataError,
    >)
        ensures
            match r {
                Ok(message) => self.link.up() && message@ == subscription_text(
                    event_type,
                    instrument_id@,
                    self.replay_config,
                ),
                Err(e) => !self.link.up() && e == MarketDataError::NotConnected,
            },
    {
        if self.is_connected() {
            Ok(subscription_message(event_type, instrument_id, &self.replay_config))
        } else {
            Err(MarketDataError::NotConnected)
        }
    }

    /// The caller closes the connection: a close frame is to be sent if a
    /// connection is up, and no attempt is made to restore it.
    pub fn close(&mut self) -> (action: Action)
        requires
            old(self).wf(),
        ensures
            final(self).wf(),
            *final(self) == (WsClient { link: old(self).link.step(Event::Close), ..*old(self) }),
            action == if old(self).link.up() {
                Action::SendClose
            } else {
                Action::Nothing
            },
    {
        let up = self.is_connected();
        self.link = Link::Closed;
        if up {
            Action::SendClose
        } else {
            Action::Nothing
        }
    }

    /// The engine's time: the reading of the replay clock in replay mode,
    /// and the real clock's `wall_time` otherwise.
    pub fn get_current_time(&self, wall_time: i64) -> (t: i64)
        ensures
            t == match self.master_clock {
                Some(clock) => if self.is_replay {
                    clock.reading()
                } else {
                    wall_time as int
                },
                None => wall_time as int,
            },
    {
        if self.is_replay {
            match &self.master_clock {
                Some(clock) => clock.get_current_time(),
                None => wall_time,
            }
        } else {
            wall_time
        }
    }

    /// Refreshes the replay clock, now that the real clock shows
    /// `wall_time`. Without a replay clock nothing changes.
    pub fn update_time(&mut self, wall_time: i64)
        ensures
            final(self).url == old(self).url,
            final(self).subscriptions == old(self).subscriptions,
            final(self).link == old(self).link,
            final(self).replay_config == old(self).replay_config,
            final(self).is_replay == old(self).is_replay,
            match old(self).master_clock {
                Some(clock) => (final(self).master_clock matches Some(after) && after.start()
                    == clock.start() && after.speed() == clock.speed() && after.base()
                    == clock.base() && after.reading() == clock.reading_at(wall_time as int)),
                None => final(self).master_clock is None,
            },
    {
        match &mut self.master_clock {
            Some(clock) => {
                clock.update_time(wall_time);
            },
            None => {},
        }
    }
}

} // verus!
