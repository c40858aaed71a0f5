//! The event bus: events addressed to a guild, channel or user topic, a
//! backend pinned once at startup (an external broker, or an in-process
//! channel when none is reachable), and subscriptions that deliver the events
//! of one topic until they are cancelled.
use vstd::prelude::*;

use crate::json::{decode_value, encode_value, null_value};

verus! {

/// A domain event. Its topic is the first scope identifier present, in the
/// order guild, channel, user.
pub struct Event {
    pub event: String,
    pub data: serde_json::Value,
    pub guild_id: Option<String>,
    pub channel_id: Option<String>,
    pub user_id: Option<String>,
}

#[derive(Debug, Clone, Copy, PartialEq, Eq, Structural)]
pub enum EventError {
    /// The event has no scope identifier to route it by.
    MissingRoutingKey,
    /// The broker could not take the event.
    PublishError,
    /// The bus was used before a backend was chosen.
    BusUninitialized,
}

pub open spec fn opt_view(o: Option<String>) -> Option<Seq<char>> {
    match o {
        Some(s) => Some(s@),
        None => None,
    }
}

/// The topic of an event: guild, else channel, else user.
pub open spec fn topic_of(e: Event) -> Option<Seq<char>> {
    if e.guild_id is Some {
        opt_view(e.guild_id)
    } else if e.channel_id is Some {
        opt_view(e.channel_id)
    } else {
        opt_view(e.user_id)
    }
}

impl Event {
    fn topic_ref(&self) -> (r: Option<&String>)
        ensures
            match r {
                Some(t) => topic_of(*self) == Some(t@),
                None => topic_of(*self) is None,
            },
    {
        match &self.guild_id {
            Some(g) => Some(g),
            None => match &self.channel_id {
                Some(c) => Some(c),
                None => match &self.user_id {
                    Some(u) => Some(u),
                    None => None,
                },
            },
        }
    }

    /// The topic this event is routed by, if it names any scope.
    pub fn topic(&self) -> (r: Option<String>)
        ensures
            opt_view(r) == topic_of(*self),
    {
        match self.topic_ref() {
            Some(t) => Some(t.clone()),
            None => None,
        }
    }
}

/// The transport behind the bus.
#[derive(Debug, Clone, Copy, PartialEq, Eq, Structural)]
pub enum Backend {
    Broker,
    Local,
}

/// How the attempt to reach a broker at startup went.
#[derive(Debug, Clone, Copy, PartialEq, Eq, Structural)]
pub enum BrokerAttempt {
    /// No broker address is configured.
    NotConfigured,
    /// An address is configured but the broker could not be reached.
    Failed,
    Connected,
}

/// The backend a startup attempt pins.
pub open spec fn backend_for(a: BrokerAttempt) -> Backend {
    if a == BrokerAttempt::Connected {
        Backend::Broker
    } else {
        Backend::Local
    }
}

/// `m` is the broker message of `e`: bound for the exchange of its topic and
/// tagged with its name.
pub open spec fn broker_message_of(e: Event, m: BrokerMessage) -> bool {
    Some(m.exchange@) == topic_of(e) && m.kind@ == e.event@
}

/// A message for the broker: the payload goes to the fanout exchange named
/// after the topic, tagged with the event name.
pub struct BrokerMessage {
    pub exchange: String,
    pub kind: String,
    pub payload: Vec<u8>,
}

/// Where a published event goes.
pub enum Route {
    Broker(BrokerMessage),
    /// Onto the shared in-process channel.
    Local,
}

/// The bus, whose backend is chosen once and never switched.
pub struct EventBus {
    backend: Option<Backend>,
}

impl EventBus {
    pub closed spec fn spec_backend(&self) -> Option<Backend> {
        self.backend
    }

    /// A bus with no backend yet.
    pub fn new() -> (r: EventBus)
        ensures
            r.spec_backend() is None,
    {
        EventBus { backend: None }
    }

    pub fn backend(&self) -> (r: Option<Backend>)
        ensures
            r == self.spec_backend(),
    {
        self.backend
    }

    /// Whether a startup should try the broker at all: only while no backend
    /// is pinned and a broker address is configured.
    pub fn should_try_broker(&self, broker_host: Option<&str>) -> (r: bool)
        ensures
            r == (self.spec_backend() is None && broker_host is Some),
    {
        self.backend.is_none() && broker_host.is_some()
    }

    /// Pins the backend after the startup attempt: the broker if it was
    /// reached, the local channel otherwise. A bus already pinned stays as it is.
    pub fn initialize(&mut self, attempt: BrokerAttempt)
        ensures
            old(self).spec_backend() is Some ==> final(self).spec_backend() == old(self).spec_backend(),
            old(self).spec_backend() is None ==> final(self).spec_backend() == Some(backend_for(attempt)),
    {
        if self.backend.is_none() {
            self.backend = Some(
                match attempt {
                    BrokerAttempt::Connected => Backend::Broker,
                    _ => Backend::Local,
                },
            );
        }
    }

    /// The backend a new subscription runs on; subscribing before a backend
    /// is chosen is an error.
    pub fn subscription_backend(&self) -> (r: Result<Backend, EventError>)
        ensures
            match self.spec_backend() {
                Some(b) => r == Ok::<Backend, EventError>(b),
                None => r == Err::<Backend, EventError>(EventError::BusUninitialized),
            },
    {
        match self.backend {
            Some(b) => Ok(b),
            None => Err(EventError::BusUninitialized),
        }
    }

    /// Decides where `event` goes. An event without a topic is refused before
    /// anything else; on the broker the payload is the event data as JSON text.
    pub fn route(&self, event: &Event) -> (r: Result<Route, EventError>)
        ensures
            topic_of(*event) is None ==> r == Err::<Route, EventError>(EventError::MissingRoutingKey),
            topic_of(*event) is Some && self.spec_backend() is None ==> r == Err::<Route, EventError>(
                EventError::BusUninitialized,
            ),
            topic_of(*event) is Some && self.spec_backend() == Some(Backend::Local) ==> r is Ok && r->Ok_0 is Local,
            topic_of(*event) is Some && self.spec_backend() == Some(Backend::Broker) ==> match r {
                Ok(Route::Broker(m)) => broker_message_of(*event, m),
                _ => false,
            },
    {
        let topic = match event.topic() {
            Some(t) => t,
            None => return Err(EventError::MissingRoutingKey),
        };
        match self.backend {
            None => Err(EventError::BusUninitialized),
            Some(Backend::Local) => Ok(Route::Local),
            Some(Backend::Broker) => match encode_value(&event.data) {
                Ok(payload) => Ok(Route::Broker(BrokerMessage { exchange: topic, kind: event.event.clone(), payload })),
                Err(_) => Err(EventError::PublishError),
            },
        }
    }
}

/// What a local subscriber's receiver handed over.
pub enum Received<'a> {
    Event(&'a Event),
    /// The subscriber fell behind and this many events were dropped for it.
    Lagged(u64),
    /// Every sender is gone.
    Closed,
}

/// What a subscription does with something it received.
#[derive(Debug, Clone, Copy, PartialEq, Eq, Structural)]
pub enum Delivery {
    /// Invoke the callback with the event.
    Deliver,
    /// Drop it and keep consuming.
    Skip,
    /// Stop consuming.
    Stop,
}

/// Interest in one topic, until cancelled.
pub struct Subscription {
    topic: String,
    active: bool,
}

impl Subscription {
    pub closed spec fn spec_topic(&self) -> Seq<char> {
        self.topic@
    }

    pub closed spec fn spec_active(&self) -> bool {
        self.active
    }

    /// Whether this subscription hands `e` to its callback.
    pub open spec fn wants(&self, e: Event) -> bool {
        self.spec_active() && topic_of(e) == Some(self.spec_topic())
    }

    /// What this subscription does with what its local receiver handed over.
    pub open spec fn local_delivery(&self, r: Received) -> Delivery {
        if !self.spec_active() {
            Delivery::Stop
        } else {
            match r {
                Received::Event(e) => if self.wants(*e) {
                    Delivery::Deliver
                } else {
                    Delivery::Skip
                },
                Received::Lagged(_) => Delivery::Skip,
                Received::Closed => Delivery::Stop,
            }
        }
    }

    /// `e` is the event this subscription rebuilds from a broker delivery
    /// tagged `kind`.
    pub open spec fn rebuilt(&self, kind: Option<String>, e: Event) -> bool {
        &&& opt_view(e.guild_id) == Some(self.spec_topic())
        &&& e.channel_id is None
        &&& e.user_id is None
        &&& e.event@ == match kind {
            Some(k) => k@,
            None => Seq::<char>::empty(),
        }
    }

    pub fn new(topic: &str) -> (r: Subscription)
        ensures
            r.spec_topic() == topic@,
            r.spec_active(),
    {
        Subscription { topic: topic.to_string(), active: true }
    }

    pub fn topic(&self) -> (r: &String)
        ensures
            r@ == self.spec_topic(),
    {
        &self.topic
    }

    pub fn is_active(&self) -> (r: bool)
        ensures
            r == self.spec_active(),
    {
        self.active
    }

    /// Stops the subscription: from now on nothing is delivered to it.
    pub fn cancel(&mut self)
        ensures
            !final(self).spec_active(),
            final(self).spec_topic() == old(self).spec_topic(),
    {
        self.active = false;
    }

    pub fn accepts(&self, e: &Event) -> (r: bool)
        ensures
            r == self.wants(*e),
    {
        if !self.active {
            return false;
        }
        match e.topic_ref() {
            Some(t) => *t == self.topic,
            None => false,
        }
    }

    /// Decides on one item from the shared local channel: events of other
    /// topics are skipped, lag is skipped silently, a closed channel stops.
    pub fn on_local(&self, r: &Received) -> (d: Delivery)
        ensures
            d == self.local_delivery(*r),
    {
        if !self.active {
            return Delivery::Stop;
        }
        match r {
            Received::Event(e) => if self.accepts(e) {
                Delivery::Deliver
            } else {
                Delivery::Skip
            },
            Received::Lagged(_) => Delivery::Skip,
            Received::Closed => Delivery::Stop,
        }
    }

    /// The exchange this subscription's broker queue is bound to.
    pub fn exchange(&self) -> (r: String)
        ensures
            r@ == self.spec_topic(),
    {
        self.topic.clone()
    }

    /// Rebuilds the event of one broker delivery on this subscription's queue:
    /// routed by this topic, named by the message's type tag (empty if it has
    /// none), with the payload decoded as JSON (`null` if it does not decode).
    /// A cancelled subscription delivers nothing.
    pub fn on_broker(&self, kind: Option<String>, payload: &[u8]) -> (r: Option<Event>)
        ensures
            !self.spec_active() ==> r is None,
            self.spec_active() ==> r is Some && self.rebuilt(kind, r->Some_0),
    {
        if !self.active {
            return None;
        }
        let data = match decode_value(payload) {
            Some(v) => v,
            None => null_value(),
        };
        let event = match kind {
            Some(k) => k,
            None => String::new(),
        };
        Some(Event { event, data, guild_id: Some(self.topic.clone()), channel_id: None, user_id: None })
    }
}

/// An event reaches exactly the active subscriptions of its topic: every one
/// of them is handed the event and every other subscription skips it.
pub proof fn lemma_delivered_to_topic_only(subs: Seq<Subscription>, e: Event)
    ensures
        forall|i: int|
            0 <= i < subs.len() ==> (#[trigger] subs[i].local_delivery(Received::Event(&e)) == Delivery::Deliver
                <==> subs[i].spec_active() && topic_of(e) == Some(subs[i].spec_topic())),
        forall|i: int|
            0 <= i < subs.len() && subs[i].spec_active() && topic_of(e) != Some(subs[i].spec_topic())
                ==> #[trigger] subs[i].local_delivery(Received::Event(&e)) == Delivery::Skip,
{
}

/// On the broker backend an event reaches the same subscriptions as on the
/// local one: its message goes to the exchange of its topic, so only queues of
/// subscriptions to that topic get it, and the event each of them rebuilds,
/// with the same name, is one it wants.
pub proof fn lemma_broker_matches_local(e: Event, m: BrokerMessage, s: Subscription, rebuilt: Event)
    requires
        broker_message_of(e, m),
        s.spec_active(),
        s.rebuilt(Some(m.kind), rebuilt),
    ensures
        s.spec_topic() == m.exchange@ <==> s.wants(e),
        s.spec_topic() == m.exchange@ ==> s.wants(rebuilt) && rebuilt.event@ == e.event@,
{
}

/// Once a subscription is cancelled, nothing more is delivered to it, from
/// either backend.
pub proof fn lemma_cancelled_delivers_nothing(s: Subscription, r: Received, e: Event)
    requires
        !s.spec_active(),
    ensures
        s.local_delivery(r) == Delivery::Stop,
        !s.wants(e),
{
}

} // verus!
