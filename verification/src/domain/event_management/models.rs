//! Event management models: event types, subscriptions, channel settings,
//! sessions and their statistics, and the errors of the event system.

use vstd::prelude::*;
use crate::time::{Timestamp, now, new_uuid_v4, is_v4_uuid_text};

verus! {

/// A type of event that can be published and subscribed to.
#[derive(Debug, Clone, Copy, PartialEq, Eq, Structural, Hash)]
pub enum EventType {
    LogEvent,
    ServerPing,
    GameProcessStatus,
    ConfigurationChange,
    CharacterUpdate,
    TimeTrackingUpdate,
}

/// The name an event type is known by.
pub open spec fn event_type_name(t: EventType) -> Seq<char> {
    match t {
        EventType::LogEvent => "log_event"@,
        EventType::ServerPing => "server_ping"@,
        EventType::GameProcessStatus => "game_process_status"@,
        EventType::ConfigurationChange => "configuration_change"@,
        EventType::CharacterUpdate => "character_update"@,
        EventType::TimeTrackingUpdate => "time_tracking_update"@,
    }
}

/// The name of an event type's variant, as it appears in messages.
pub open spec fn event_type_variant(t: EventType) -> Seq<char> {
    match t {
        EventType::LogEvent => "LogEvent"@,
        EventType::ServerPing => "ServerPing"@,
        EventType::GameProcessStatus => "GameProcessStatus"@,
        EventType::ConfigurationChange => "ConfigurationChange"@,
        EventType::CharacterUpdate => "CharacterUpdate"@,
        EventType::TimeTrackingUpdate => "TimeTrackingUpdate"@,
    }
}

impl EventType {
    /// The name this event type is known by.
    pub fn as_str(&self) -> (res: &'static str)
        ensures
            res@ == event_type_name(*self),
    {
        match self {
            EventType::LogEvent => "log_event",
            EventType::ServerPing => "server_ping",
            EventType::GameProcessStatus => "game_process_status",
            EventType::ConfigurationChange => "configuration_change",
            EventType::CharacterUpdate => "character_update",
            EventType::TimeTrackingUpdate => "time_tracking_update",
        }
    }

    /// The name of this event type's variant.
    pub fn variant_name(&self) -> (res: &'static str)
        ensures
            res@ == event_type_variant(*self),
    {
        match self {
            EventType::LogEvent => "LogEvent",
            EventType::ServerPing => "ServerPing",
            EventType::GameProcessStatus => "GameProcessStatus",
            EventType::ConfigurationChange => "ConfigurationChange",
            EventType::CharacterUpdate => "CharacterUpdate",
            EventType::TimeTrackingUpdate => "TimeTrackingUpdate",
        }
    }
}

/// Different event types have different names.
pub proof fn lemma_event_type_names_distinct(a: EventType, b: EventType)
    requires
        a != b,
    ensures
        event_type_name(a) != event_type_name(b),
{
    reveal_strlit("log_event");
    reveal_strlit("server_ping");
    reveal_strlit("game_process_status");
    reveal_strlit("configuration_change");
    reveal_strlit("character_update");
    reveal_strlit("time_tracking_update");
    assert("log_event"@.len() == 9);
    assert("server_ping"@.len() == 11);
    assert("game_process_status"@.len() == 19);
    assert("configuration_change"@.len() == 20);
    assert("character_update"@.len() == 16);
    assert("time_tracking_update"@.len() == 20);
    if event_type_name(a) == event_type_name(b) {
        if (a == EventType::ConfigurationChange && b == EventType::TimeTrackingUpdate) || (a
            == EventType::TimeTrackingUpdate && b == EventType::ConfigurationChange) {
            assert("configuration_change"@[0] == 'c');
            assert("time_tracking_update"@[0] == 't');
        }
    }
}

/// A subscriber's subscription to one event type.
#[derive(Debug, Clone)]
pub struct EventSubscription {
    pub subscription_id: String,
    pub event_type: EventType,
    pub subscriber_name: String,
    pub created_at: Timestamp,
    pub is_active: bool,
}

impl EventSubscription {
    /// An active subscription with a fresh random id, created now.
    pub fn new(event_type: EventType, subscriber_name: String) -> (res: EventSubscription)
        ensures
            is_v4_uuid_text(res.subscription_id@),
            res.event_type == event_type,
            res.subscriber_name == subscriber_name,
            res.is_active,
    {
        EventSubscription {
            subscription_id: new_uuid_v4(),
            event_type,
            subscriber_name,
            created_at: now(),
            is_active: true,
        }
    }

    /// Marks the subscription inactive; nothing else changes.
    pub fn deactivate(&mut self)
        ensures
            !final(self).is_active,
            final(self).subscription_id == old(self).subscription_id,
            final(self).event_type == old(self).event_type,
            final(self).subscriber_name == old(self).subscriber_name,
            final(self).created_at == old(self).created_at,
    {
        self.is_active = false;
    }
}

/// The settings of an event channel.
#[derive(Debug, Clone, Copy)]
pub struct EventChannelConfig {
    pub channel_capacity: usize,
    pub max_subscribers: usize,
    pub enable_persistence: bool,
    pub retention_duration_hours: u64,
}

impl Default for EventChannelConfig {
    /// Room for 1000 pending events and 100 subscribers, not persisted, kept
    /// for 24 hours.
    fn default() -> (res: EventChannelConfig)
        ensures
            res.channel_capacity == 1000,
            res.max_subscribers == 100,
            !res.enable_persistence,
            res.retention_duration_hours == 24,
    {
        EventChannelConfig {
            channel_capacity: 1000,
            max_subscribers: 100,
            enable_persistence: false,
            retention_duration_hours: 24,
        }
    }
}

impl EventChannelConfig {
    /// Whether a channel with `subscriber_count` subscribers is full.
    pub fn is_at_capacity(&self, subscriber_count: usize) -> (res: bool)
        ensures
            res == (subscriber_count >= self.max_subscribers),
    {
        subscriber_count >= self.max_subscribers
    }
}

/// The subscription count of an event type in a list of counts: 0 where the
/// type has no entry.
pub open spec fn subscription_count(counts: Seq<(EventType, u32)>, t: EventType) -> int {
    if exists|i: int| 0 <= i < counts.len() && #[trigger] counts[i].0 == t {
        let i = choose|i: int| 0 <= i < counts.len() && #[trigger] counts[i].0 == t;
        counts[i].1 as int
    } else {
        0
    }
}

/// Whether an event type has an entry in a list of counts.
pub open spec fn has_count_entry(counts: Seq<(EventType, u32)>, t: EventType) -> bool {
    exists|i: int| 0 <= i < counts.len() && #[trigger] counts[i].0 == t
}

/// Each event type has one entry at most.
pub open spec fn count_keys_unique(counts: Seq<(EventType, u32)>) -> bool {
    forall|i: int, j: int|
        0 <= i < counts.len() && 0 <= j < counts.len() && #[trigger] counts[i].0
            == #[trigger] counts[j].0 ==> i == j
}

/// In counts with unique keys, the count of a key is the one at its
/// position.
proof fn lemma_count_at(counts: Seq<(EventType, u32)>, i: int)
    requires
        count_keys_unique(counts),
        0 <= i < counts.len(),
    ensures
        subscription_count(counts, counts[i].0) == counts[i].1,
        has_count_entry(counts, counts[i].0),
{
    let t = counts[i].0;
    assert(counts[i].0 == t);
    let j = choose|j: int| 0 <= j < counts.len() && #[trigger] counts[j].0 == t;
    assert(counts[i].0 == counts[j].0);
}

/// Every event type with its subscription count.
pub open spec fn count_map(counts: Seq<(EventType, u32)>) -> Map<EventType, int> {
    Map::new(|t: EventType| true, |t: EventType| subscription_count(counts, t))
}

/// The counts with one more subscription to `t`.
pub open spec fn with_one_more(m: Map<EventType, int>, t: EventType) -> Map<EventType, int> {
    m.insert(t, m[t] + 1)
}

/// The counts with one subscription to `t` less, never below 0.
pub open spec fn with_one_less(m: Map<EventType, int>, t: EventType) -> Map<EventType, int> {
    m.insert(t, if m[t] > 0 { m[t] - 1 } else { 0 })
}

/// Removing a subscription undoes adding one: the counts are as before.
pub proof fn lemma_remove_undoes_add(m: Map<EventType, int>, t: EventType)
    requires
        forall|u: EventType| #[trigger] m.dom().contains(u) && m[u] >= 0,
    ensures
        with_one_less(with_one_more(m, t), t) == m,
{
    assert(m.dom().contains(t));
    assert(with_one_less(with_one_more(m, t), t) =~= m);
}

/// A period in which event activity is counted.
#[derive(Debug, Clone)]
pub struct EventManagementSession {
    pub session_id: String,
    pub start_time: Timestamp,
    pub end_time: Option<Timestamp>,
    pub total_events_published: u64,
    pub total_events_received: u64,
    pub active_subscriptions: Vec<(EventType, u32)>,
    pub is_active: bool,
}

impl EventManagementSession {
    /// Each event type has one count at most.
    pub open spec fn well_formed(&self) -> bool {
        count_keys_unique(self.active_subscriptions@)
    }

    /// The number of active subscriptions to an event type.
    pub open spec fn count(&self, t: EventType) -> int {
        subscription_count(self.active_subscriptions@, t)
    }

    /// The number of active subscriptions to every event type.
    pub open spec fn counts(&self) -> Map<EventType, int> {
        count_map(self.active_subscriptions@)
    }

    /// A new active session with a fresh random id, started now, with nothing
    /// counted yet.
    pub fn new() -> (res: EventManagementSession)
        ensures
            is_v4_uuid_text(res.session_id@),
            res.well_formed(),
            res.is_active,
            res.end_time is None,
            res.total_events_published == 0,
            res.total_events_received == 0,
            res.active_subscriptions@.len() == 0,
            res.counts() == Map::new(|t: EventType| true, |t: EventType| 0int),
    {
        let res = EventManagementSession {
            session_id: new_uuid_v4(),
            start_time: now(),
            end_time: None,
            total_events_published: 0,
            total_events_received: 0,
            active_subscriptions: Vec::new(),
            is_active: true,
        };
        assert(res.counts() =~= Map::new(|t: EventType| true, |t: EventType| 0int));
        res
    }

    /// Ends the session now; its counts are kept.
    pub fn end_session(&mut self)
        ensures
            !final(self).is_active,
            final(self).end_time is Some,
            final(self).session_id == old(self).session_id,
            final(self).start_time == old(self).start_time,
            final(self).total_events_published == old(self).total_events_published,
            final(self).total_events_received == old(self).total_events_received,
            final(self).active_subscriptions@ == old(self).active_subscriptions@,
    {
        self.end_time = Some(now());
        self.is_active = false;
    }

    /// Counts one more published event.
    pub fn increment_published_events(&mut self)
        requires
            old(self).total_events_published < u64::MAX,
        ensures
            final(self).total_events_published == old(self).total_events_published + 1,
            final(self).total_events_received == old(self).total_events_received,
            final(self).active_subscriptions@ == old(self).active_subscriptions@,
            final(self).is_active == old(self).is_active,
            final(self).session_id == old(self).session_id,
            final(self).end_time == old(self).end_time,
    {
        self.total_events_published = self.total_events_published + 1;
    }

    /// Counts one more received event.
    pub fn increment_received_events(&mut self)
        requires
            old(self).total_events_received < u64::MAX,
        ensures
            final(self).total_events_received == old(self).total_events_received + 1,
            final(self).total_events_published == old(self).total_events_published,
            final(self).active_subscriptions@ == old(self).active_subscriptions@,
            final(self).is_active == old(self).is_active,
            final(self).session_id == old(self).session_id,
            final(self).end_time == old(self).end_time,
    {
        self.total_events_received = self.total_events_received + 1;
    }

    /// The position of the count of an event type, if it has one.
    fn count_position(&self, event_type: EventType) -> (res: Option<usize>)
        requires
            self.well_formed(),
        ensures
            res matches Some(i) ==> i < self.active_subscriptions@.len()
                && self.active_subscriptions@[i as int].0 == event_type,
            res is None ==> !has_count_entry(self.active_subscriptions@, event_type),
    {
        let mut i: usize = 0;
        while i < self.active_subscriptions.len()
            invariant
                i <= self.active_subscriptions.len(),
                forall|k: int| 0 <= k < i ==> self.active_subscriptions@[k].0 != event_type,
            decreases self.active_subscriptions.len() - i,
        {
            if self.active_subscriptions[i].0 == event_type {
                return Some(i);
            }
            i = i + 1;
        }
        None
    }

    /// Counts one more subscription to an event type.
    pub fn add_subscription(&mut self, event_type: EventType)
        requires
            old(self).well_formed(),
            old(self).count(event_type) < u32::MAX,
        ensures
            final(self).well_formed(),
            final(self).counts() == with_one_more(old(self).counts(), event_type),
            forall|t: EventType| #[trigger] has_count_entry(final(self).active_subscriptions@, t)
                <==> has_count_entry(old(self).active_subscriptions@, t) || t == event_type,
            final(self).total_events_published == old(self).total_events_published,
            final(self).total_events_received == old(self).total_events_received,
            final(self).is_active == old(self).is_active,
            final(self).session_id == old(self).session_id,
    {
        let ghost before = self.active_subscriptions@;
        match self.count_position(event_type) {
            Some(i) => {
                proof {
                    lemma_count_at(before, i as int);
                }
                let c = self.active_subscriptions[i].1;
                self.active_subscriptions.set(i, (event_type, c + 1));
                proof {
                    let after = self.active_subscriptions@;
                    lemma_counts_after_set(before, after, i as int);
                    lemma_count_at(after, i as int);
                }
            },
            None => {
                self.active_subscriptions.push((event_type, 1));
                proof {
                    let after = self.active_subscriptions@;
                    lemma_counts_after_push(before, after, event_type);
                    lemma_count_at(after, before.len() as int);
                }
            },
        }
        assert(count_map(self.active_subscriptions@) =~= with_one_more(count_map(before), event_type));
    }

    /// Counts one subscription to an event type less; a count of 0 stays 0.
    pub fn remove_subscription(&mut self, event_type: EventType)
        requires
            old(self).well_formed(),
        ensures
            final(self).well_formed(),
            final(self).counts() == with_one_less(old(self).counts(), event_type),
            forall|t: EventType| #[trigger] has_count_entry(final(self).active_subscriptions@, t)
                <==> has_count_entry(old(self).active_subscriptions@, t),
            final(self).total_events_published == old(self).total_events_published,
            final(self).total_events_received == old(self).total_events_received,
            final(self).is_active == old(self).is_active,
            final(self).session_id == old(self).session_id,
    {
        let ghost before = self.active_subscriptions@;
        match self.count_position(event_type) {
            Some(i) => {
                proof {
                    lemma_count_at(before, i as int);
                }
                let c = self.active_subscriptions[i].1;
                if c > 0 {
                    self.active_subscriptions.set(i, (event_type, c - 1));
                    proof {
                        let after = self.active_subscriptions@;
                        lemma_counts_after_set(before, after, i as int);
                        lemma_count_at(after, i as int);
                    }
                }
            },
            None => {
                assert(!has_count_entry(before, event_type));
            },
        }
        assert(count_map(self.active_subscriptions@) =~= with_one_less(count_map(before), event_type));
    }
}

/// Replacing the count at one position keeps the keys unique and every
/// other count.
proof fn lemma_counts_after_set(before: Seq<(EventType, u32)>, after: Seq<(EventType, u32)>, i: int)
    requires
        count_keys_unique(before),
        0 <= i < before.len(),
        after.len() == before.len(),
        after[i].0 == before[i].0,
        forall|k: int| 0 <= k < before.len() && k != i ==> after[k] == before[k],
    ensures
        count_keys_unique(after),
        forall|t: EventType| t != before[i].0 ==> subscription_count(after, t) == subscription_count(before, t),
        forall|t: EventType| #[trigger] has_count_entry(after, t) <==> has_count_entry(before, t),
{
    assert forall|a: int, b: int|
        0 <= a < after.len() && 0 <= b < after.len() && #[trigger] after[a].0 == #[trigger] after[b].0 implies a == b by {
        assert(before[a].0 == after[a].0);
        assert(before[b].0 == after[b].0);
    }
    assert forall|t: EventType| t != before[i].0 implies subscription_count(after, t) == subscription_count(before, t) by {
        if has_count_entry(before, t) {
            let k = choose|k: int| 0 <= k < before.len() && #[trigger] before[k].0 == t;
            assert(after[k].0 == t);
            lemma_count_at(before, k);
            lemma_count_at(after, k);
        } else if has_count_entry(after, t) {
            let k = choose|k: int| 0 <= k < after.len() && #[trigger] after[k].0 == t;
            assert(before[k].0 == t);
        }
    }
    assert forall|t: EventType| #[trigger] has_count_entry(after, t) <==> has_count_entry(before, t) by {
        if has_count_entry(before, t) {
            let k = choose|k: int| 0 <= k < before.len() && #[trigger] before[k].0 == t;
            assert(after[k].0 == t);
        }
        if has_count_entry(after, t) {
            let k = choose|k: int| 0 <= k < after.len() && #[trigger] after[k].0 == t;
            assert(before[k].0 == t);
        }
    }
}

/// Appending the count of a type without one keeps the keys unique and
/// every other count.
proof fn lemma_counts_after_push(before: Seq<(EventType, u32)>, after: Seq<(EventType, u32)>, t0: EventType)
    requires
        count_keys_unique(before),
        !has_count_entry(before, t0),
        after.len() == before.len() + 1,
        after[before.len() as int].0 == t0,
        forall|k: int| 0 <= k < before.len() ==> after[k] == before[k],
    ensures
        count_keys_unique(after),
        forall|t: EventType| t != t0 ==> subscription_count(after, t) == subscription_count(before, t),
        forall|t: EventType| #[trigger] has_count_entry(after, t) <==> has_count_entry(before, t) || t == t0,
{
    assert forall|a: int, b: int|
        0 <= a < after.len() && 0 <= b < after.len() && #[trigger] after[a].0 == #[trigger] after[b].0 implies a == b by {
        if a < before.len() && b < before.len() {
            assert(before[a].0 == before[b].0);
        } else if a < before.len() {
            assert(before[a].0 == t0);
        } else if b < before.len() {
            assert(before[b].0 == t0);
        }
    }
    assert forall|t: EventType| t != t0 implies subscription_count(after, t) == subscription_count(before, t) by {
        if has_count_entry(before, t) {
            let k = choose|k: int| 0 <= k < before.len() && #[trigger] before[k].0 == t;
            assert(after[k].0 == t);
            lemma_count_at(before, k);
            lemma_count_at(after, k);
        } else if has_count_entry(after, t) {
            let k = choose|k: int| 0 <= k < after.len() && #[trigger] after[k].0 == t;
            assert(k < before.len());
            assert(before[k].0 == t);
        }
    }
    assert forall|t: EventType| #[trigger] has_count_entry(after, t) <==> has_count_entry(before, t) || t == t0 by {
        if has_count_entry(before, t) {
            let k = choose|k: int| 0 <= k < before.len() && #[trigger] before[k].0 == t;
            assert(after[k].0 == t);
        }
        if t == t0 {
            assert(after[before.len() as int].0 == t);
        }
        if has_count_entry(after, t) && t != t0 {
            let k = choose|k: int| 0 <= k < after.len() && #[trigger] after[k].0 == t;
            assert(k < before.len());
            assert(before[k].0 == t);
        }
    }
}

/// Totals of event activity over all sessions.
#[derive(Debug, Clone)]
pub struct EventManagementStats {
    pub total_sessions: u64,
    pub total_events_published: u64,
    pub total_events_received: u64,
    pub active_channels: u32,
    pub total_subscribers: u32,
    pub last_activity_time: Timestamp,
    pub current_session: Option<EventManagementSession>,
}

impl Default for EventManagementStats {
    /// No activity yet, last active now.
    fn default() -> (res: EventManagementStats)
        ensures
            res.total_sessions == 0,
            res.total_events_published == 0,
            res.total_events_received == 0,
            res.active_channels == 0,
            res.total_subscribers == 0,
            res.current_session is None,
    {
        EventManagementStats {
            total_sessions: 0,
            total_events_published: 0,
            total_events_received: 0,
            active_channels: 0,
            total_subscribers: 0,
            last_activity_time: now(),
            current_session: None,
        }
    }
}

impl EventManagementStats {
    /// Adds an ended session to the totals: one more session, and its
    /// published and received events.
    pub fn record_ended_session(&mut self, session: &EventManagementSession)
        requires
            old(self).total_sessions < u64::MAX,
            old(self).total_events_published + session.total_events_published <= u64::MAX,
            old(self).total_events_received + session.total_events_received <= u64::MAX,
        ensures
            final(self).total_sessions == old(self).total_sessions + 1,
            final(self).total_events_published == old(self).total_events_published
                + session.total_events_published,
            final(self).total_events_received == old(self).total_events_received
                + session.total_events_received,
            final(self).active_channels == old(self).active_channels,
            final(self).total_subscribers == old(self).total_subscribers,
            final(self).last_activity_time == old(self).last_activity_time,
    {
        self.total_sessions = self.total_sessions + 1;
        self.total_events_published = self.total_events_published + session.total_events_published;
        self.total_events_received = self.total_events_received + session.total_events_received;
    }
}

/// The ways the event system can fail.
#[derive(Debug, Clone)]
pub enum EventManagementError {
    ChannelNotFound { event_type: String },
    ChannelAtCapacity { event_type: String },
    SubscriptionNotFound { subscription_id: String },
    InvalidEventType { event_type: String },
    BroadcastError { message: String },
    ConfigurationError { message: String },
}

/// The text an event system error is shown with.
pub open spec fn event_management_error_text(e: EventManagementError) -> Seq<char> {
    match e {
        EventManagementError::ChannelNotFound { event_type } => "Channel not found: "@ + event_type@,
        EventManagementError::ChannelAtCapacity { event_type } => "Channel at capacity: "@
            + event_type@,
        EventManagementError::SubscriptionNotFound { subscription_id } => "Subscription not found: "@
            + subscription_id@,
        EventManagementError::InvalidEventType { event_type } => "Invalid event type: "@
            + event_type@,
        EventManagementError::BroadcastError { message } => "Broadcast error: "@ + message@,
        EventManagementError::ConfigurationError { message } => "Configuration error: "@ + message@,
    }
}

impl EventManagementError {
    /// The text this error is shown with.
    pub fn to_string(&self) -> (res: String)
        ensures
            res@ == event_management_error_text(*self),
    {
        match self {
            EventManagementError::ChannelNotFound { event_type } => String::from_str(
                "Channel not found: ",
            ).concat(event_type.as_str()),
            EventManagementError::ChannelAtCapacity { event_type } => String::from_str(
                "Channel at capacity: ",
            ).concat(event_type.as_str()),
            EventManagementError::SubscriptionNotFound { subscription_id } => String::from_str(
                "Subscription not found: ",
            ).concat(subscription_id.as_str()),
            EventManagementError::InvalidEventType { event_type } => String::from_str(
                "Invalid event type: ",
            ).concat(event_type.as_str()),
            EventManagementError::BroadcastError { message } => String::from_str(
                "Broadcast error: ",
            ).concat(message.as_str()),
            EventManagementError::ConfigurationError { message } => String::from_str(
                "Configuration error: ",
            ).concat(message.as_str()),
        }
    }
}

/// What is known of one event channel.
#[derive(Debug, Clone, Copy)]
pub struct ChannelStats {
    pub event_type: EventType,
    pub subscriber_count: usize,
    pub messages_sent: u64,
    pub messages_received: u64,
    pub created_at: Timestamp,
    pub last_activity: Timestamp,
}

impl ChannelStats {
    /// The statistics of a channel of `event_type`, created at `created_at`,
    /// with `subscriber_count` subscribers, taken now. Messages are not
    /// counted.
    pub fn for_channel(event_type: EventType, subscriber_count: usize, created_at: Timestamp) -> (res: ChannelStats)
        ensures
            res.event_type == event_type,
            res.subscriber_count == subscriber_count,
            res.messages_sent == 0,
            res.messages_received == 0,
            res.created_at == created_at,
    {
        ChannelStats {
            event_type,
            subscriber_count,
            messages_sent: 0,
            messages_received: 0,
            created_at,
            last_activity: now(),
        }
    }
}

} // verus!
