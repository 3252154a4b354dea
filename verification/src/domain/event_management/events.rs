//! The events the event system reports about itself, each stamped with the
//! time it was made (RFC 3339).

use vstd::prelude::*;
use crate::domain::event_management::models::EventType;
use crate::time::now_rfc3339;

verus! {

/// Something that happened in the event system.
#[derive(Debug, Clone)]
pub enum EventManagementEvent {
    /// An event was published to its subscribers.
    EventPublished { event_type: EventType, timestamp: String },
    /// A subscription was made.
    SubscriptionCreated {
        subscription_id: String,
        event_type: EventType,
        subscriber_name: String,
        timestamp: String,
    },
    /// A subscription was removed.
    SubscriptionRemoved { subscription_id: String, event_type: EventType, timestamp: String },
    /// A channel was made.
    ChannelCreated { event_type: EventType, channel_capacity: usize, timestamp: String },
    /// A channel was removed.
    ChannelRemoved { event_type: EventType, timestamp: String },
    /// A session started.
    SessionStarted { session_id: String, timestamp: String },
    /// A session ended, with what it counted.
    SessionEnded {
        session_id: String,
        events_published: u64,
        events_received: u64,
        timestamp: String,
    },
    /// A channel's settings changed.
    ChannelConfigUpdated { event_type: EventType, timestamp: String },
    /// Something went wrong.
    ManagementError { error_message: String, timestamp: String },
}

impl EventManagementEvent {
    /// An event of `event_type` was published, now.
    pub fn event_published(event_type: EventType) -> (res: EventManagementEvent)
        ensures
            res matches EventManagementEvent::EventPublished { event_type: t, .. } && t == event_type,
    {
        EventManagementEvent::EventPublished { event_type, timestamp: now_rfc3339() }
    }

    /// A subscription was made, now.
    pub fn subscription_created(
        subscription_id: String,
        event_type: EventType,
        subscriber_name: String,
    ) -> (res: EventManagementEvent)
        ensures
            res matches EventManagementEvent::SubscriptionCreated {
                subscription_id: id,
                event_type: t,
                subscriber_name: name,
                ..
            } && id == subscription_id && t == event_type && name == subscriber_name,
    {
        EventManagementEvent::SubscriptionCreated {
            subscription_id,
            event_type,
            subscriber_name,
            timestamp: now_rfc3339(),
        }
    }

    /// A subscription was removed, now.
    pub fn subscription_removed(subscription_id: String, event_type: EventType) -> (res: EventManagementEvent)
        ensures
            res matches EventManagementEvent::SubscriptionRemoved {
                subscription_id: id,
                event_type: t,
                ..
            } && id == subscription_id && t == event_type,
    {
        EventManagementEvent::SubscriptionRemoved {
            subscription_id,
            event_type,
            timestamp: now_rfc3339(),
        }
    }

    /// A channel was made, now.
    pub fn channel_created(event_type: EventType, channel_capacity: usize) -> (res: EventManagementEvent)
        ensures
            res matches EventManagementEvent::ChannelCreated {
                event_type: t,
                channel_capacity: c,
                ..
            } && t == event_type && c == channel_capacity,
    {
        EventManagementEvent::ChannelCreated {
            event_type,
            channel_capacity,
            timestamp: now_rfc3339(),
        }
    }

    /// A channel was removed, now.
    pub fn channel_removed(event_type: EventType) -> (res: EventManagementEvent)
        ensures
            res matches EventManagementEvent::ChannelRemoved { event_type: t, .. } && t == event_type,
    {
        EventManagementEvent::ChannelRemoved { event_type, timestamp: now_rfc3339() }
    }

    /// A session started, now.
    pub fn session_started(session_id: String) -> (res: EventManagementEvent)
        ensures
            res matches EventManagementEvent::SessionStarted { session_id: id, .. } && id
                == session_id,
    {
        EventManagementEvent::SessionStarted { session_id, timestamp: now_rfc3339() }
    }

    /// A session ended, now, having counted these events.
    pub fn session_ended(session_id: String, events_published: u64, events_received: u64) -> (res: EventManagementEvent)
        ensures
            res matches EventManagementEvent::SessionEnded {
                session_id: id,
                events_published: p,
                events_received: r,
                ..
            } && id == session_id && p == events_published && r == events_received,
    {
        EventManagementEvent::SessionEnded {
            session_id,
            events_published,
            events_received,
            timestamp: now_rfc3339(),
        }
    }

    /// A channel's settings changed, now.
    pub fn channel_config_updated(event_type: EventType) -> (res: EventManagementEvent)
        ensures
            res matches EventManagementEvent::ChannelConfigUpdated { event_type: t, .. } && t
                == event_type,
    {
        EventManagementEvent::ChannelConfigUpdated { event_type, timestamp: now_rfc3339() }
    }

    /// Something went wrong, now.
    pub fn management_error(error_message: String) -> (res: EventManagementEvent)
        ensures
            res matches EventManagementEvent::ManagementError { error_message: m, .. } && m
                == error_message,
    {
        EventManagementEvent::ManagementError { error_message, timestamp: now_rfc3339() }
    }
}

} // verus!
