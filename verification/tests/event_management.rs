use poe2_overlord::domain::event_management::events::EventManagementEvent;
use poe2_overlord::domain::event_management::models::{
    ChannelStats, EventChannelConfig, EventManagementError, EventManagementSession,
    EventManagementStats, EventSubscription, EventType,
};
use poe2_overlord::domain::event_management::service::EventManagementState;
use poe2_overlord::time::Timestamp;

fn count(session: &EventManagementSession, t: EventType) -> u32 {
    session
        .active_subscriptions
        .iter()
        .find(|(k, _)| *k == t)
        .map(|(_, c)| *c)
        .unwrap_or(0)
}

#[test]
fn event_type_names() {
    assert_eq!(EventType::LogEvent.as_str(), "log_event");
    assert_eq!(EventType::TimeTrackingUpdate.as_str(), "time_tracking_update");
    assert_eq!(EventType::ServerPing.variant_name(), "ServerPing");
}

#[test]
fn channel_defaults_and_capacity() {
    let config = EventChannelConfig::default();
    assert_eq!(config.channel_capacity, 1000);
    assert_eq!(config.max_subscribers, 100);
    assert!(!config.enable_persistence);
    assert_eq!(config.retention_duration_hours, 24);
    assert!(!config.is_at_capacity(99));
    assert!(config.is_at_capacity(100));
}

#[test]
fn subscriptions_start_active() {
    let mut s = EventSubscription::new(EventType::CharacterUpdate, "ui".to_string());
    assert!(s.is_active);
    assert_eq!(s.subscription_id.len(), 36);
    s.deactivate();
    assert!(!s.is_active);
}

#[test]
fn removing_a_subscription_undoes_adding_it() {
    let mut session = EventManagementSession::new();
    session.add_subscription(EventType::LogEvent);
    session.add_subscription(EventType::LogEvent);
    assert_eq!(count(&session, EventType::LogEvent), 2);
    session.add_subscription(EventType::ServerPing);
    session.remove_subscription(EventType::ServerPing);
    assert_eq!(count(&session, EventType::ServerPing), 0);
    assert_eq!(count(&session, EventType::LogEvent), 2);
    session.remove_subscription(EventType::ServerPing);
    assert_eq!(count(&session, EventType::ServerPing), 0);
    session.remove_subscription(EventType::GameProcessStatus);
    assert_eq!(count(&session, EventType::GameProcessStatus), 0);
}

#[test]
fn session_counts_and_end() {
    let mut session = EventManagementSession::new();
    session.increment_published_events();
    session.increment_published_events();
    session.increment_received_events();
    session.end_session();
    assert!(!session.is_active);
    assert!(session.end_time.is_some());
    let mut stats = EventManagementStats::default();
    stats.record_ended_session(&session);
    assert_eq!(stats.total_sessions, 1);
    assert_eq!(stats.total_events_published, 2);
    assert_eq!(stats.total_events_received, 1);
}

#[test]
fn state_tracks_subscriptions_and_session() {
    let mut state = EventManagementState::new();
    state.start_session();
    let config = EventChannelConfig::default();
    let sub = state
        .subscribe(EventType::CharacterUpdate, "ui".to_string(), 3, &config)
        .unwrap();
    state.record_published();
    assert_eq!(state.active_subscriptions().len(), 1);
    let full = state.subscribe(EventType::CharacterUpdate, "late".to_string(), 100, &config);
    assert_eq!(
        full.unwrap_err().to_string(),
        "Event emission error: create_channel: Channel for event type CharacterUpdate is at capacity"
    );
    let removed = state.unsubscribe(&sub.subscription_id).unwrap();
    assert!(!removed.is_active);
    assert!(state.unsubscribe(&sub.subscription_id).is_none());
    assert!(state.active_subscriptions().is_empty());
    let session = state.current_session.as_ref().unwrap();
    assert_eq!(count(session, EventType::CharacterUpdate), 0);
    assert_eq!(session.total_events_published, 1);
    let mut stats = EventManagementStats::default();
    let ended = state.end_session(&mut stats).unwrap();
    assert!(!ended.is_active);
    assert!(!state.is_session_active());
    assert_eq!(stats.total_sessions, 1);
    assert_eq!(stats.total_events_published, 1);
    assert!(state.end_session(&mut stats).is_none());
    assert_eq!(stats.total_sessions, 1);
}

#[test]
fn error_texts() {
    let e = EventManagementError::ChannelAtCapacity { event_type: "log_event".to_string() };
    assert_eq!(e.to_string(), "Channel at capacity: log_event");
    let e = EventManagementError::BroadcastError { message: "closed".to_string() };
    assert_eq!(e.to_string(), "Broadcast error: closed");
}

#[test]
fn management_events_carry_their_fields() {
    match EventManagementEvent::session_ended("s1".to_string(), 4, 2) {
        EventManagementEvent::SessionEnded { session_id, events_published, events_received, timestamp } => {
            assert_eq!(session_id, "s1");
            assert_eq!(events_published, 4);
            assert_eq!(events_received, 2);
            assert!(!timestamp.is_empty());
        }
        other => panic!("unexpected event {other:?}"),
    }
    let stats = ChannelStats::for_channel(EventType::LogEvent, 3, Timestamp { secs: 1, nanos: 0 });
    assert_eq!(stats.subscriber_count, 3);
    assert_eq!(stats.messages_sent, 0);
}
