use spacebar_gateway::events::{
    Backend, BrokerAttempt, Delivery, Event, EventBus, EventError, Received, Route, Subscription,
};

fn event(name: &str, guild: Option<&str>, channel: Option<&str>, user: Option<&str>) -> Event {
    Event {
        event: name.to_string(),
        data: serde_json::from_str("{\"content\":\"hi\"}").unwrap(),
        guild_id: guild.map(|s| s.to_string()),
        channel_id: channel.map(|s| s.to_string()),
        user_id: user.map(|s| s.to_string()),
    }
}

#[test]
fn topic_precedence() {
    assert_eq!(event("E", Some("G"), Some("C"), Some("U")).topic(), Some("G".to_string()));
    assert_eq!(event("E", None, Some("C"), Some("U")).topic(), Some("C".to_string()));
    assert_eq!(event("E", None, None, Some("U")).topic(), Some("U".to_string()));
    assert_eq!(event("E", None, None, None).topic(), None);
}

#[test]
fn guild_event_reaches_its_topic_only() {
    let e = event("MESSAGE_CREATE", Some("G1"), None, None);
    let g1a = Subscription::new("G1");
    let g1b = Subscription::new("G1");
    let g2 = Subscription::new("G2");
    let received = Received::Event(&e);
    assert_eq!(g1a.on_local(&received), Delivery::Deliver);
    assert_eq!(g1b.on_local(&received), Delivery::Deliver);
    assert_eq!(g2.on_local(&received), Delivery::Skip);
}

#[test]
fn channel_event_scenario_two_receivers_one_bystander() {
    let e = event("MESSAGE_CREATE", None, Some("C42"), None);
    let s1 = Subscription::new("C42");
    let s2 = Subscription::new("C42");
    let s3 = Subscription::new("C99");
    assert!(s1.accepts(&e));
    assert!(s2.accepts(&e));
    assert!(!s3.accepts(&e));
}

#[test]
fn cancelled_subscription_gets_nothing() {
    let mut s = Subscription::new("G1");
    s.cancel();
    assert!(!s.is_active());
    let e = event("MESSAGE_CREATE", Some("G1"), None, None);
    assert!(!s.accepts(&e));
    assert_eq!(s.on_local(&Received::Event(&e)), Delivery::Stop);
    assert!(s.on_broker(Some("MESSAGE_CREATE".to_string()), b"{}").is_none());
}

#[test]
fn lag_is_skipped_and_closed_stops() {
    let s = Subscription::new("G1");
    assert_eq!(s.on_local(&Received::Lagged(12)), Delivery::Skip);
    assert_eq!(s.on_local(&Received::Closed), Delivery::Stop);
}

#[test]
fn backend_is_pinned_once() {
    let mut bus = EventBus::new();
    assert!(bus.should_try_broker(Some("amqp://localhost")));
    assert!(!bus.should_try_broker(None));
    bus.initialize(BrokerAttempt::Failed);
    assert_eq!(bus.backend(), Some(Backend::Local));
    bus.initialize(BrokerAttempt::Connected);
    assert_eq!(bus.backend(), Some(Backend::Local));
    assert!(!bus.should_try_broker(Some("amqp://localhost")));

    let mut bus = EventBus::new();
    bus.initialize(BrokerAttempt::Connected);
    assert_eq!(bus.backend(), Some(Backend::Broker));
    bus.initialize(BrokerAttempt::NotConfigured);
    assert_eq!(bus.backend(), Some(Backend::Broker));

    let mut bus = EventBus::new();
    bus.initialize(BrokerAttempt::NotConfigured);
    assert_eq!(bus.backend(), Some(Backend::Local));
}

#[test]
fn subscribing_needs_a_backend() {
    assert!(matches!(EventBus::new().subscription_backend(), Err(EventError::BusUninitialized)));
    let mut bus = EventBus::new();
    bus.initialize(BrokerAttempt::Connected);
    assert!(matches!(bus.subscription_backend(), Ok(Backend::Broker)));
}

#[test]
fn publish_errors() {
    let bus = EventBus::new();
    let no_topic = event("E", None, None, None);
    assert!(matches!(bus.route(&no_topic), Err(EventError::MissingRoutingKey)));
    let e = event("E", Some("G1"), None, None);
    assert!(matches!(bus.route(&e), Err(EventError::BusUninitialized)));
    let mut local = EventBus::new();
    local.initialize(BrokerAttempt::NotConfigured);
    assert!(matches!(local.route(&no_topic), Err(EventError::MissingRoutingKey)));
    assert!(matches!(local.route(&e), Ok(Route::Local)));
}

#[test]
fn broker_route_carries_topic_name_and_json_payload() {
    let mut bus = EventBus::new();
    bus.initialize(BrokerAttempt::Connected);
    let e = event("MESSAGE_CREATE", None, Some("C42"), Some("U1"));
    match bus.route(&e) {
        Ok(Route::Broker(m)) => {
            assert_eq!(m.exchange, "C42");
            assert_eq!(m.kind, "MESSAGE_CREATE");
            assert_eq!(m.payload, b"{\"content\":\"hi\"}".to_vec());
        }
        _ => panic!("expected a broker route"),
    }
}

#[test]
fn broker_delivery_rebuilds_event_for_the_subscription() {
    let s = Subscription::new("G1");
    assert_eq!(s.exchange(), "G1");
    let e = s.on_broker(Some("MESSAGE_CREATE".to_string()), b"{\"a\":1}").unwrap();
    assert_eq!(e.event, "MESSAGE_CREATE");
    assert_eq!(e.guild_id.as_deref(), Some("G1"));
    assert!(e.channel_id.is_none() && e.user_id.is_none());
    assert_eq!(e.data, serde_json::from_str::<serde_json::Value>("{\"a\":1}").unwrap());
    assert!(s.accepts(&e));
    let bad = s.on_broker(None, b"not json").unwrap();
    assert_eq!(bad.event, "");
    assert_eq!(bad.data, serde_json::Value::Null);
}
