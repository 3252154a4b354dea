//! The bookkeeping of the event management service: which subscriptions
//! exist, what the current session has counted, and when a subscription is
//! refused. Channels and the delivery of events are handled by the caller,
//! which hands in what it observes (how many subscribers a channel has).

use vstd::prelude::*;
use crate::domain::event_management::models::{
    EventChannelConfig, EventManagementSession, EventManagementStats, EventSubscription, EventType,
    event_type_variant, with_one_more, with_one_less,
};
use crate::errors::{AppError, ErrorKind, operation_message};

verus! {

/// No two subscriptions share an id.
pub open spec fn ids_unique(subs: Seq<EventSubscription>) -> bool {
    forall|i: int, j: int|
        0 <= i < subs.len() && 0 <= j < subs.len() && #[trigger] subs[i].subscription_id@
            == #[trigger] subs[j].subscription_id@ ==> i == j
}

/// The subscription with id `id`, if any.
pub open spec fn subscription_with_id(subs: Seq<EventSubscription>, id: Seq<char>) -> Option<EventSubscription> {
    if exists|i: int| 0 <= i < subs.len() && #[trigger] subs[i].subscription_id@ == id {
        let i = choose|i: int| 0 <= i < subs.len() && #[trigger] subs[i].subscription_id@ == id;
        Some(subs[i])
    } else {
        None
    }
}

/// The message a subscription to a full channel is refused with.
pub open spec fn channel_full_text(t: EventType) -> Seq<char> {
    "Channel for event type "@ + event_type_variant(t) + " is at capacity"@
}

/// In subscriptions with unique ids, the subscription of an id is the one at
/// its position.
proof fn lemma_subscription_at(subs: Seq<EventSubscription>, i: int)
    requires
        ids_unique(subs),
        0 <= i < subs.len(),
    ensures
        subscription_with_id(subs, subs[i].subscription_id@) == Some(subs[i]),
{
    let id = subs[i].subscription_id@;
    assert(subs[i].subscription_id@ == id);
    let j = choose|j: int| 0 <= j < subs.len() && #[trigger] subs[j].subscription_id@ == id;
    assert(subs[i].subscription_id@ == subs[j].subscription_id@);
}

/// Clones a subscription.
fn copy_subscription(s: &EventSubscription) -> (res: EventSubscription)
    ensures
        res == *s,
{
    EventSubscription {
        subscription_id: s.subscription_id.clone(),
        event_type: s.event_type,
        subscriber_name: s.subscriber_name.clone(),
        created_at: s.created_at,
        is_active: s.is_active,
    }
}

/// The subscriptions that exist and the session being counted.
#[derive(Debug)]
pub struct EventManagementState {
    pub subscriptions: Vec<EventSubscription>,
    pub current_session: Option<EventManagementSession>,
}

impl EventManagementState {
    /// Subscription ids are unique and the session's counts are well formed.
    pub open spec fn well_formed(&self) -> bool {
        &&& ids_unique(self.subscriptions@)
        &&& (self.current_session matches Some(s) ==> s.well_formed())
    }

    /// The subscription with id `id`, if any.
    pub open spec fn subscription(&self, id: Seq<char>) -> Option<EventSubscription> {
        subscription_with_id(self.subscriptions@, id)
    }

    /// No subscriptions and no session.
    pub fn new() -> (res: EventManagementState)
        ensures
            res.well_formed(),
            res.subscriptions@.len() == 0,
            res.current_session is None,
    {
        EventManagementState { subscriptions: Vec::new(), current_session: None }
    }

    /// Starts a new session, replacing any current one.
    pub fn start_session(&mut self)
        ensures
            final(self).subscriptions@ == old(self).subscriptions@,
            final(self).current_session matches Some(s) && s.well_formed() && s.is_active
                && s.total_events_published == 0 && s.total_events_received == 0
                && s.active_subscriptions@.len() == 0,
    {
        self.current_session = Some(EventManagementSession::new());
    }

    /// Whether a session is being counted.
    pub fn is_session_active(&self) -> (res: bool)
        ensures
            res == self.current_session is Some,
    {
        self.current_session.is_some()
    }

    /// Counts a published event in the current session, if there is one.
    pub fn record_published(&mut self)
        requires
            old(self).current_session matches Some(s) ==> s.total_events_published < u64::MAX,
        ensures
            final(self).subscriptions@ == old(self).subscriptions@,
            old(self).current_session is None ==> final(self).current_session is None,
            old(self).current_session matches Some(s) ==> (final(self).current_session matches Some(t) && t.total_events_published == s.total_events_published + 1
                && t.total_events_received == s.total_events_received
                && t.active_subscriptions@ == s.active_subscriptions@ && t.session_id
                == s.session_id && t.is_active == s.is_active),
    {
        match &mut self.current_session {
            Some(s) => s.increment_published_events(),
            None => {},
        }
    }

    /// Subscribes `subscriber_name` to `event_type`, whose channel has
    /// `subscriber_count` subscribers: refused when the channel is full;
    /// otherwise the new subscription is kept and counted in the current
    /// session.
    pub fn subscribe(
        &mut self,
        event_type: EventType,
        subscriber_name: String,
        subscriber_count: usize,
        config: &EventChannelConfig,
    ) -> (res: Result<EventSubscription, AppError>)
        requires
            old(self).well_formed(),
            old(self).current_session matches Some(s) ==> s.count(event_type) < u32::MAX,
        ensures
            final(self).well_formed(),
            subscriber_count >= config.max_subscribers ==> (res matches Err(e) && e.kind()
                == ErrorKind::EventEmission && e.message() == operation_message(
                "create_channel"@,
                channel_full_text(event_type),
            ) && final(self).subscriptions@ == old(self).subscriptions@
                && final(self).current_session == old(self).current_session),
            subscriber_count < config.max_subscribers ==> (res matches Ok(sub) && {
                &&& sub.event_type == event_type
                &&& sub.subscriber_name == subscriber_name
                &&& sub.is_active
                &&& final(self).subscription(sub.subscription_id@) == Some(sub)
                &&& forall|id: Seq<char>|
                    id != sub.subscription_id@ ==> final(self).subscription(id) == old(self).subscription(id)
                &&& (old(self).current_session matches Some(s) ==> (final(self).current_session matches Some(t) && t.counts() == with_one_more(
                    s.counts(),
                    event_type,
                ) && t.total_events_published == s.total_events_published
                    && t.total_events_received == s.total_events_received))
                &&& (old(self).current_session is None ==> final(self).current_session is None)
            }),
    {
        if config.is_at_capacity(subscriber_count) {
            let message = String::from_str("Channel for event type ").concat(
                event_type.variant_name(),
            ).concat(" is at capacity");
            return Err(AppError::event_emission_error("create_channel", message.as_str()));
        }
        let subscription = EventSubscription::new(event_type, subscriber_name);
        let stored = copy_subscription(&subscription);
        self.insert_subscription(stored);
        match &mut self.current_session {
            Some(s) => s.add_subscription(event_type),
            None => {},
        }
        Ok(subscription)
    }

    /// Keeps a subscription, replacing one with the same id.
    fn insert_subscription(&mut self, sub: EventSubscription)
        requires
            ids_unique(old(self).subscriptions@),
        ensures
            ids_unique(final(self).subscriptions@),
            final(self).current_session == old(self).current_session,
            final(self).subscription(sub.subscription_id@) == Some(sub),
            forall|id: Seq<char>|
                id != sub.subscription_id@ ==> final(self).subscription(id) == old(self).subscription(id),
    {
        let ghost before = self.subscriptions@;
        let ghost id0 = sub.subscription_id@;
        let n = self.subscriptions.len();
        let mut pos: usize = n;
        let mut i: usize = 0;
        while i < n
            invariant
                i <= n,
                n == before.len(),
                self.subscriptions@ == before,
                id0 == sub.subscription_id@,
                pos == n || (pos < i && before[pos as int].subscription_id@ == id0),
                pos == n ==> forall|k: int| 0 <= k < i ==> before[k].subscription_id@ != id0,
            decreases n - i,
        {
            if pos == n && crate::text::str_equals(
                self.subscriptions[i].subscription_id.as_str(),
                sub.subscription_id.as_str(),
            ) {
                pos = i;
            }
            i = i + 1;
        }
        if pos < n {
            self.subscriptions.set(pos, sub);
            let ghost after = self.subscriptions@;
            assert forall|a: int, b: int|
                0 <= a < after.len() && 0 <= b < after.len() && #[trigger] after[a].subscription_id@
                    == #[trigger] after[b].subscription_id@ implies a == b by {
                if a != pos && b != pos {
                    assert(before[a].subscription_id@ == before[b].subscription_id@);
                } else if a == pos && b != pos {
                    assert(before[b].subscription_id@ == before[pos as int].subscription_id@);
                } else if b == pos && a != pos {
                    assert(before[a].subscription_id@ == before[pos as int].subscription_id@);
                }
            }
            proof {
                lemma_subscription_at(after, pos as int);
            }
            assert forall|id: Seq<char>| id != id0 implies #[trigger] subscription_with_id(after, id)
                == subscription_with_id(before, id) by {
                if exists|k: int| 0 <= k < before.len() && #[trigger] before[k].subscription_id@ == id {
                    let k = choose|k: int| 0 <= k < before.len() && #[trigger] before[k].subscription_id@
                        == id;
                    assert(after[k].subscription_id@ == id);
                    lemma_subscription_at(before, k);
                    lemma_subscription_at(after, k);
                } else if exists|k: int| 0 <= k < after.len() && #[trigger] after[k].subscription_id@ == id {
                    let k = choose|k: int| 0 <= k < after.len() && #[trigger] after[k].subscription_id@
                        == id;
                    assert(before[k].subscription_id@ == id);
                }
            }
        } else {
            self.subscriptions.push(sub);
            let ghost after = self.subscriptions@;
            assert forall|a: int, b: int|
                0 <= a < after.len() && 0 <= b < after.len() && #[trigger] after[a].subscription_id@
                    == #[trigger] after[b].subscription_id@ implies a == b by {
                if a < before.len() && b < before.len() {
                    assert(before[a].subscription_id@ == before[b].subscription_id@);
                }
            }
            proof {
                lemma_subscription_at(after, before.len() as int);
            }
            assert forall|id: Seq<char>| id != id0 implies #[trigger] subscription_with_id(after, id)
                == subscription_with_id(before, id) by {
                if exists|k: int| 0 <= k < before.len() && #[trigger] before[k].subscription_id@ == id {
                    let k = choose|k: int| 0 <= k < before.len() && #[trigger] before[k].subscription_id@
                        == id;
                    assert(after[k].subscription_id@ == id);
                    lemma_subscription_at(before, k);
                    lemma_subscription_at(after, k);
                } else if exists|k: int| 0 <= k < after.len() && #[trigger] after[k].subscription_id@ == id {
                    let k = choose|k: int| 0 <= k < after.len() && #[trigger] after[k].subscription_id@
                        == id;
                    assert(k < before.len());
                    assert(before[k].subscription_id@ == id);
                }
            }
        }
    }
}

impl EventManagementState {
    /// The position of the subscription with id `id`, if any.
    fn position_of(&self, id: &str) -> (res: Option<usize>)
        ensures
            res matches Some(i) ==> i < self.subscriptions@.len()
                && self.subscriptions@[i as int].subscription_id@ == id@,
            res is None ==> forall|k: int|
                0 <= k < self.subscriptions@.len() ==> #[trigger] self.subscriptions@[k].subscription_id@
                    != id@,
    {
        let mut i: usize = 0;
        while i < self.subscriptions.len()
            invariant
                i <= self.subscriptions.len(),
                forall|k: int| 0 <= k < i ==> #[trigger] self.subscriptions@[k].subscription_id@ != id@,
            decreases self.subscriptions.len() - i,
        {
            if crate::text::str_equals(self.subscriptions[i].subscription_id.as_str(), id) {
                return Some(i);
            }
            i = i + 1;
        }
        None
    }

    /// Removes the subscription with id `id`: it is given back deactivated
    /// and no longer counted in the current session. An unknown id changes
    /// nothing.
    pub fn unsubscribe(&mut self, subscription_id: &str) -> (res: Option<EventSubscription>)
        requires
            old(self).well_formed(),
        ensures
            final(self).well_formed(),
            old(self).subscription(subscription_id@) is None ==> res is None && final(self).subscriptions@ == old(self).subscriptions@ && final(self).current_session == old(self).current_session,
            old(self).subscription(subscription_id@) matches Some(s) ==> (res matches Some(r) && {
                &&& r.subscription_id == s.subscription_id
                &&& r.event_type == s.event_type
                &&& r.subscriber_name == s.subscriber_name
                &&& r.created_at == s.created_at
                &&& !r.is_active
                &&& final(self).subscription(subscription_id@) is None
                &&& forall|id: Seq<char>|
                    id != subscription_id@ ==> final(self).subscription(id) == old(self).subscription(id)
                &&& (old(self).current_session matches Some(c) ==> (final(self).current_session matches Some(d) && d.counts() == with_one_less(
                    c.counts(),
                    s.event_type,
                ) && d.total_events_published == c.total_events_published
                    && d.total_events_received == c.total_events_received))
                &&& (old(self).current_session is None ==> final(self).current_session is None)
            }),
    {
        let ghost before = self.subscriptions@;
        match self.position_of(subscription_id) {
            None => {
                assert(subscription_with_id(before, subscription_id@) is None);
                None
            },
            Some(i) => {
                proof {
                    lemma_subscription_at(before, i as int);
                }
                let mut removed = self.subscriptions.remove(i);
                let ghost after = self.subscriptions@;
                assert(after =~= before.remove(i as int));
                assert forall|a: int, b: int|
                    0 <= a < after.len() && 0 <= b < after.len() && #[trigger] after[a].subscription_id@
                        == #[trigger] after[b].subscription_id@ implies a == b by {
                    let a2 = if a < i { a } else { a + 1 };
                    let b2 = if b < i { b } else { b + 1 };
                    assert(after[a] == before[a2]);
                    assert(after[b] == before[b2]);
                    assert(before[a2].subscription_id@ == before[b2].subscription_id@);
                }
                assert forall|id: Seq<char>| id != subscription_id@ implies #[trigger] subscription_with_id(
                    after,
                    id,
                ) == subscription_with_id(before, id) by {
                    if exists|k: int| 0 <= k < before.len() && #[trigger] before[k].subscription_id@ == id {
                        let k = choose|k: int|
                            0 <= k < before.len() && #[trigger] before[k].subscription_id@ == id;
                        assert(k != i);
                        let k2 = if k < i { k } else { k - 1 };
                        assert(after[k2] == before[k]);
                        lemma_subscription_at(before, k);
                        lemma_subscription_at(after, k2);
                    } else if exists|k: int| 0 <= k < after.len() && #[trigger] after[k].subscription_id@ == id {
                        let k = choose|k: int|
                            0 <= k < after.len() && #[trigger] after[k].subscription_id@ == id;
                        let k2 = if k < i { k } else { k + 1 };
                        assert(after[k] == before[k2]);
                        assert(before[k2].subscription_id@ == id);
                    }
                }
                assert(subscription_with_id(after, subscription_id@) is None) by {
                    if exists|k: int| 0 <= k < after.len() && #[trigger] after[k].subscription_id@
                        == subscription_id@ {
                        let k = choose|k: int|
                            0 <= k < after.len() && #[trigger] after[k].subscription_id@
                                == subscription_id@;
                        let k2 = if k < i { k } else { k + 1 };
                        assert(after[k] == before[k2]);
                        assert(before[k2].subscription_id@ == before[i as int].subscription_id@);
                    }
                }
                let event_type = removed.event_type;
                removed.deactivate();
                match &mut self.current_session {
                    Some(s) => s.remove_subscription(event_type),
                    None => {},
                }
                Some(removed)
            },
        }
    }

    /// The subscriptions that are active, in the order they are kept.
    pub fn active_subscriptions(&self) -> (res: Vec<EventSubscription>)
        ensures
            res@ == self.subscriptions@.filter(|s: EventSubscription| s.is_active),
    {
        let mut out: Vec<EventSubscription> = Vec::new();
        let mut i: usize = 0;
        while i < self.subscriptions.len()
            invariant
                i <= self.subscriptions.len(),
                out@ == self.subscriptions@.subrange(0, i as int).filter(
                    |s: EventSubscription| s.is_active,
                ),
            decreases self.subscriptions.len() - i,
        {
            proof {
                reveal(Seq::filter);
                assert(self.subscriptions@.subrange(0, i + 1).drop_last() =~= self.subscriptions@.subrange(
                    0,
                    i as int,
                ));
            }
            if self.subscriptions[i].is_active {
                out.push(copy_subscription(&self.subscriptions[i]));
            }
            i = i + 1;
        }
        assert(self.subscriptions@.subrange(0, self.subscriptions@.len() as int) =~= self.subscriptions@);
        out
    }

    /// Ends the current session, if any: it is given back ended, its counts
    /// are added to `stats`, and no session is current any more.
    pub fn end_session(&mut self, stats: &mut EventManagementStats) -> (res: Option<
        EventManagementSession,
    >)
        requires
            old(self).current_session matches Some(s) ==> old(stats).total_sessions < u64::MAX
                && old(stats).total_events_published + s.total_events_published <= u64::MAX
                && old(stats).total_events_received + s.total_events_received <= u64::MAX,
        ensures
            final(self).subscriptions@ == old(self).subscriptions@,
            final(self).current_session is None,
            old(self).current_session is None ==> res is None && *final(stats) == *old(stats),
            old(self).current_session matches Some(s) ==> (res matches Some(e) && {
                &&& !e.is_active
                &&& e.end_time is Some
                &&& e.session_id == s.session_id
                &&& e.total_events_published == s.total_events_published
                &&& e.total_events_received == s.total_events_received
                &&& final(stats).total_sessions == old(stats).total_sessions + 1
                &&& final(stats).total_events_published == old(stats).total_events_published
                    + s.total_events_published
                &&& final(stats).total_events_received == old(stats).total_events_received
                    + s.total_events_received
            }),
    {
        let current = self.current_session.take();
        match current {
            None => None,
            Some(mut session) => {
                session.end_session();
                stats.record_ended_session(&session);
                Some(session)
            },
        }
    }
}

/// The settings a channel has before any are set for it: room for 1000
/// pending events and 100 subscribers, not persisted, kept for 24 hours.
pub open spec fn default_channel_config() -> EventChannelConfig {
    EventChannelConfig {
        channel_capacity: 1000,
        max_subscribers: 100,
        enable_persistence: false,
        retention_duration_hours: 24,
    }
}

/// No event type has two settings entries.
pub open spec fn config_keys_unique(entries: Seq<(EventType, EventChannelConfig)>) -> bool {
    forall|i: int, j: int|
        0 <= i < entries.len() && 0 <= j < entries.len() && #[trigger] entries[i].0
            == #[trigger] entries[j].0 ==> i == j
}

/// The settings stored for an event type, if any.
pub open spec fn stored_config(
    entries: Seq<(EventType, EventChannelConfig)>,
    t: EventType,
) -> Option<EventChannelConfig> {
    if exists|i: int| 0 <= i < entries.len() && #[trigger] entries[i].0 == t {
        let i = choose|i: int| 0 <= i < entries.len() && #[trigger] entries[i].0 == t;
        Some(entries[i].1)
    } else {
        None
    }
}

/// The settings of each event channel that has been configured.
#[derive(Debug)]
pub struct ChannelConfigs {
    pub entries: Vec<(EventType, EventChannelConfig)>,
}

impl ChannelConfigs {
    /// Each event type has one entry at most.
    pub open spec fn well_formed(&self) -> bool {
        config_keys_unique(self.entries@)
    }

    /// The settings a channel of event type `t` has: those set last for it,
    /// or the default ones.
    pub open spec fn config_of(&self, t: EventType) -> EventChannelConfig {
        match stored_config(self.entries@, t) {
            Some(c) => c,
            None => default_channel_config(),
        }
    }

    /// No channel configured yet: every channel has the default settings.
    pub fn new() -> (res: ChannelConfigs)
        ensures
            res.well_formed(),
            forall|t: EventType| res.config_of(t) == default_channel_config(),
    {
        ChannelConfigs { entries: Vec::new() }
    }

    /// Sets the settings of the channel of `event_type`; the other channels
    /// keep theirs.
    pub fn update_channel_config(&mut self, event_type: EventType, config: EventChannelConfig)
        requires
            old(self).well_formed(),
        ensures
            final(self).well_formed(),
            final(self).config_of(event_type) == config,
            forall|t: EventType| t != event_type ==> final(self).config_of(t) == old(self).config_of(t),
    {
        let ghost before = self.entries@;
        let n = self.entries.len();
        let mut pos: usize = n;
        let mut i: usize = 0;
        while i < n
            invariant
                i <= n,
                n == before.len(),
                self.entries@ == before,
                pos == n || (pos < i && before[pos as int].0 == event_type),
                pos == n ==> forall|k: int| 0 <= k < i ==> before[k].0 != event_type,
            decreases n - i,
        {
            if pos == n && self.entries[i].0 == event_type {
                pos = i;
            }
            i = i + 1;
        }
        if pos < n {
            self.entries.set(pos, (event_type, config));
            let ghost after = self.entries@;
            assert(after[pos as int].0 == event_type);
            assert forall|a: int, b: int|
                0 <= a < after.len() && 0 <= b < after.len() && #[trigger] after[a].0
                    == #[trigger] after[b].0 implies a == b by {
                if a != pos && b != pos {
                    assert(before[a].0 == before[b].0);
                } else if a == pos && b != pos {
                    assert(before[b].0 == before[pos as int].0);
                } else if b == pos && a != pos {
                    assert(before[a].0 == before[pos as int].0);
                }
            }
            assert forall|t: EventType| t != event_type implies #[trigger] stored_config(after, t)
                == stored_config(before, t) by {
                if exists|k: int| 0 <= k < before.len() && #[trigger] before[k].0 == t {
                    let k = choose|k: int| 0 <= k < before.len() && #[trigger] before[k].0 == t;
                    assert(after[k].0 == t);
                } else if exists|k: int| 0 <= k < after.len() && #[trigger] after[k].0 == t {
                    let k = choose|k: int| 0 <= k < after.len() && #[trigger] after[k].0 == t;
                    assert(before[k].0 == t);
                }
            }
            proof {
                let j = choose|j: int| 0 <= j < after.len() && #[trigger] after[j].0 == event_type;
                assert(after[j].0 == after[pos as int].0);
            }
        } else {
            self.entries.push((event_type, config));
            let ghost after = self.entries@;
            assert(after[n as int].0 == event_type);
            assert forall|a: int, b: int|
                0 <= a < after.len() && 0 <= b < after.len() && #[trigger] after[a].0
                    == #[trigger] after[b].0 implies a == b by {
                if a < n && b < n {
                    assert(before[a].0 == before[b].0);
                }
            }
            assert forall|t: EventType| t != event_type implies #[trigger] stored_config(after, t)
                == stored_config(before, t) by {
                if exists|k: int| 0 <= k < before.len() && #[trigger] before[k].0 == t {
                    let k = choose|k: int| 0 <= k < before.len() && #[trigger] before[k].0 == t;
                    assert(after[k].0 == t);
                } else if exists|k: int| 0 <= k < after.len() && #[trigger] after[k].0 == t {
                    let k = choose|k: int| 0 <= k < after.len() && #[trigger] after[k].0 == t;
                    assert(k < n);
                    assert(before[k].0 == t);
                }
            }
            proof {
                let j = choose|j: int| 0 <= j < after.len() && #[trigger] after[j].0 == event_type;
                assert(after[j].0 == after[n as int].0);
            }
        }
    }

    /// The settings of the channel of `event_type`: those set last for it,
    /// or the default ones.
    pub fn get_channel_config(&self, event_type: EventType) -> (res: Option<EventChannelConfig>)
        requires
            self.well_formed(),
        ensures
            res == Some(self.config_of(event_type)),
    {
        let mut i: usize = 0;
        while i < self.entries.len()
            invariant
                i <= self.entries.len(),
                config_keys_unique(self.entries@),
                forall|k: int| 0 <= k < i ==> self.entries@[k].0 != event_type,
            decreases self.entries.len() - i,
        {
            if self.entries[i].0 == event_type {
                let ghost e = self.entries@;
                proof {
                    let j = choose|j: int| 0 <= j < e.len() && #[trigger] e[j].0 == event_type;
                    assert(e[j].0 == e[i as int].0);
                }
                return Some(self.entries[i].1);
            }
            i = i + 1;
        }
        Some(EventChannelConfig::default())
    }
}

} // verus!
