use music_module::event_bus::{EventBus, EventBusMessage, EventType};

#[test]
fn late_subscriber_misses_earlier_publishes() {
    let mut bus = EventBus::new();
    let early = bus.subscribe(EventType::PlaybackChanged);
    assert!(bus.publish(EventType::PlaybackChanged, vec![1]));
    assert!(bus.publish(EventType::PlaybackChanged, vec![2]));
    let late = bus.subscribe(EventType::PlaybackChanged);
    assert!(bus.publish(EventType::PlaybackChanged, vec![3]));
    assert!(bus.publish(EventType::PlaybackChanged, vec![4]));
    assert_eq!(bus.receive(late), Some(vec![3]));
    assert_eq!(bus.receive(late), Some(vec![4]));
    assert_eq!(bus.receive(late), None);
    for want in 1..=4u8 {
        assert_eq!(bus.receive(early), Some(vec![want]));
    }
    assert_eq!(bus.receive(early), None);
}

#[test]
fn subscribers_of_same_type_see_same_sequence() {
    let mut bus = EventBus::new();
    let a = bus.subscribe(EventType::PlayerStateChanged);
    let b = bus.subscribe(EventType::PlayerStateChanged);
    let other = bus.subscribe(EventType::PlayerSongChanged);
    bus.publish(EventType::PlayerStateChanged, vec![7, 8]);
    bus.publish(EventType::PlayerSongChanged, vec![9]);
    bus.publish(EventType::PlayerStateChanged, vec![]);
    for id in [a, b] {
        assert_eq!(bus.receive(id), Some(vec![7, 8]));
        assert_eq!(bus.receive(id), Some(vec![]));
        assert_eq!(bus.receive(id), None);
    }
    assert_eq!(bus.receive(other), Some(vec![9]));
    assert_eq!(bus.receive(other), None);
}

#[test]
fn publish_without_subscribers_is_a_no_op() {
    let mut bus = EventBus::new();
    let id = bus.subscribe(EventType::PlaybackChanged);
    assert!(!bus.publish(EventType::ParseError, vec![1]));
    assert_eq!(bus.receive(id), None);
    assert_eq!(bus.len(), 1);
}

#[test]
fn run_handles_both_requests() {
    let mut bus = EventBus::new();
    let id = bus.run(EventBusMessage::Subscribe { event_type: EventType::Unknown("X".to_string()) });
    assert_eq!(id, Some(0));
    let r = bus.run(EventBusMessage::Publish {
        event_type: EventType::Unknown("X".to_string()),
        data: vec![5],
    });
    assert_eq!(r, None);
    bus.publish(EventType::Unknown("Y".to_string()), vec![6]);
    assert_eq!(bus.receive(0), Some(vec![5]));
    assert_eq!(bus.receive(0), None);
}

#[test]
fn event_types_compare_by_kind_and_name() {
    assert!(EventType::PlaybackChanged == EventType::PlaybackChanged);
    assert!(EventType::PlaybackChanged != EventType::PlayerSongChanged);
    assert!(EventType::Unknown("a".to_string()) == EventType::Unknown("a".to_string()));
    assert!(EventType::Unknown("a".to_string()) != EventType::Unknown("b".to_string()));
    assert_eq!(EventType::Unknown("a".to_string()).name(), "Unknown");
    assert_eq!(EventType::PlayerStateChanged.name(), "PlayerStateChanged");
}

#[test]
fn property_names_classify_events() {
    assert!(EventType::from_property(Some("Metadata".to_string())) == EventType::PlayerSongChanged);
    assert!(
        EventType::from_property(Some("PlaybackStatus".to_string())) == EventType::PlaybackChanged
    );
    assert!(
        EventType::from_property(Some("Volume".to_string()))
            == EventType::Unknown("Volume".to_string())
    );
    assert!(EventType::from_property(None) == EventType::ParseError);
}

#[test]
fn event_type_names() {
    assert_eq!(EventType::PlayerSongChanged.name(), "PlayerSongChanged");
    assert_eq!(EventType::PlaybackChanged.name(), "PlaybackChanged");
    assert_eq!(EventType::ParseError.name(), "ParseError");
}
