//! The storage collaborator: accounts, monitors with their heartbeat
//! history, and alert channels with their links to monitors, held in
//! memory. Every read
//! and write is scoped by owner, except the history append and the
//! monitor-to-channel lookup, which are scoped by monitor.
use vstd::prelude::*;
use crate::model::{
    AppError, CreateMonitor, CreateUser, Heartbeat, Monitor, MonitorStatus, Notification,
    NotificationConfig, UpdateMonitor, User,
};
use crate::text::str_eq;
use vstd::string::StrSliceExecFns;

verus! {

/// The interval, in seconds, of a monitor created without one.
pub const DEFAULT_INTERVAL: i32 = 60;

/// The timeout, in seconds, of a monitor created without one.
pub const DEFAULT_TIMEOUT: i32 = 30;

/// The monitor `id` of owner `user_id`, if there is one.
pub open spec fn find_monitor(ms: Seq<Monitor>, id: i64, user_id: i64) -> Option<Monitor> {
    if exists|i: int| 0 <= i < ms.len() && ms[i].id == id && ms[i].user_id == user_id {
        Some(ms[choose|i: int| 0 <= i < ms.len() && ms[i].id == id && ms[i].user_id == user_id])
    } else {
        None
    }
}

/// Holds of the monitors of `user_id`.
pub open spec fn monitor_of(user_id: i64) -> spec_fn(Monitor) -> bool {
    |m: Monitor| m.user_id == user_id
}

/// Creation times never decrease along the table.
pub open spec fn created_in_order(ms: Seq<Monitor>) -> bool {
    forall|i: int, j: int| 0 <= i < j < ms.len() ==> #[trigger] ms[i].created_at <= #[trigger] ms[j].created_at
}

/// The creation time `create` stamps at `now`: `now`, or the newest
/// monitor's creation time when the clock went back, so that creation
/// times never decrease along the table.
pub open spec fn creation_stamp(ms: Seq<Monitor>, now: i64) -> i64 {
    if ms.len() > 0 && ms.last().created_at > now {
        ms.last().created_at
    } else {
        now
    }
}

/// The monitor that `create` stores for `input`.
pub open spec fn new_monitor(id: i64, user_id: i64, input: CreateMonitor, now: i64) -> Monitor {
    Monitor {
        id,
        user_id,
        name: input.name,
        url: input.url,
        type_: input.type_,
        interval: match input.interval {
            Some(v) => v,
            None => DEFAULT_INTERVAL,
        },
        timeout: match input.timeout {
            Some(v) => v,
            None => DEFAULT_TIMEOUT,
        },
        status: MonitorStatus::Unknown,
        last_check: None,
        created_at: now,
        updated_at: now,
    }
}

/// `m` with the fields that `changes` gives replaced.
pub open spec fn apply_changes(m: Monitor, changes: UpdateMonitor) -> Monitor {
    Monitor {
        name: match changes.name {
            Some(v) => v,
            None => m.name,
        },
        url: match changes.url {
            Some(v) => v,
            None => m.url,
        },
        type_: match changes.type_ {
            Some(v) => v,
            None => m.type_,
        },
        interval: match changes.interval {
            Some(v) => v,
            None => m.interval,
        },
        timeout: match changes.timeout {
            Some(v) => v,
            None => m.timeout,
        },
        ..m
    }
}

/// `m` after a check at `now` that found it `status`.
pub open spec fn checked(m: Monitor, status: MonitorStatus, now: i64) -> Monitor {
    Monitor { status, last_check: Some(now), ..m }
}

/// The monitors after a check of monitor `id` at `now` found it `status`.
pub open spec fn record_status(ms: Seq<Monitor>, id: i64, status: MonitorStatus, now: i64) -> Seq<
    Monitor,
> {
    ms.map_values(|m: Monitor| if m.id == id { checked(m, status, now) } else { m })
}

/// No two monitors share an id.
pub open spec fn unique_ids(ms: Seq<Monitor>) -> bool {
    forall|i: int, j: int| 0 <= i < ms.len() && 0 <= j < ms.len() && i != j ==> ms[i].id != ms[j].id
}

/// Holds of every monitor but `id`.
pub open spec fn monitor_other_than(id: i64) -> spec_fn(Monitor) -> bool {
    |m: Monitor| m.id != id
}

/// The alert channel `id` of owner `user_id`, if there is one.
pub open spec fn find_notification(ns: Seq<Notification>, id: i64, user_id: i64) -> Option<
    Notification,
> {
    if exists|i: int| 0 <= i < ns.len() && ns[i].id == id && ns[i].user_id == user_id {
        Some(ns[choose|i: int| 0 <= i < ns.len() && ns[i].id == id && ns[i].user_id == user_id])
    } else {
        None
    }
}

/// Holds of the alert channels of `user_id`.
pub open spec fn notification_of(user_id: i64) -> spec_fn(Notification) -> bool {
    |n: Notification| n.user_id == user_id
}

/// Holds of the alert channels linked to monitor `monitor_id`.
pub open spec fn linked_to(links: Seq<(i64, i64)>, monitor_id: i64) -> spec_fn(Notification) -> bool {
    |n: Notification| links.contains((monitor_id, n.id))
}

/// The alert channel that `config` describes.
pub open spec fn configured(
    id: i64,
    user_id: i64,
    config: NotificationConfig,
    created_at: i64,
    now: i64,
) -> Notification {
    Notification {
        id,
        user_id,
        name: config.name,
        type_: config.type_,
        config: config.provider_config,
        is_default: config.is_default,
        created_at,
        updated_at: now,
    }
}

pub struct MonitorStore {
    monitors: Vec<Monitor>,
    heartbeats: Vec<Heartbeat>,
    notifications: Vec<Notification>,
    links: Vec<(i64, i64)>,
    users: Vec<User>,
    next_monitor_id: i64,
    next_notification_id: i64,
    next_user_id: i64,
}

impl MonitorStore {
    /// The monitors, oldest first.
    pub closed spec fn monitors(&self) -> Seq<Monitor> {
        self.monitors@
    }

    /// The heartbeat history, oldest first.
    pub closed spec fn heartbeats(&self) -> Seq<Heartbeat> {
        self.heartbeats@
    }

    /// The alert channels, oldest first.
    pub closed spec fn notifications(&self) -> Seq<Notification> {
        self.notifications@
    }

    /// The links from monitors to alert channels, as `(monitor, channel)`.
    pub closed spec fn links(&self) -> Seq<(i64, i64)> {
        self.links@
    }

    /// The accounts, oldest first.
    pub closed spec fn users(&self) -> Seq<User> {
        self.users@
    }

    /// Ids are handed out from counters, so they grow along each table and
    /// no id occurs twice.
    pub closed spec fn wf(&self) -> bool {
        &&& 1 <= self.next_monitor_id
        &&& 1 <= self.next_notification_id
        &&& forall|i: int|
            0 <= i < self.monitors@.len() ==> 1 <= #[trigger] self.monitors@[i].id
                < self.next_monitor_id
        &&& forall|i: int, j: int|
            0 <= i < j < self.monitors@.len() ==> #[trigger] self.monitors@[i].id
                < #[trigger] self.monitors@[j].id
        &&& created_in_order(self.monitors@)
        &&& forall|i: int|
            0 <= i < self.notifications@.len() ==> 1 <= #[trigger] self.notifications@[i].id
                < self.next_notification_id
        &&& forall|i: int, j: int|
            0 <= i < j < self.notifications@.len() ==> #[trigger] self.notifications@[i].id
                < #[trigger] self.notifications@[j].id
        &&& 1 <= self.next_user_id
        &&& forall|i: int|
            0 <= i < self.users@.len() ==> 1 <= #[trigger] self.users@[i].id < self.next_user_id
        &&& forall|i: int, j: int|
            0 <= i < self.users@.len() && 0 <= j < self.users@.len() && i != j ==> (
            #[trigger] self.users@[i]).username@ != (#[trigger] self.users@[j]).username@
    }

    /// The next monitor id to hand out; every monitor id is below it.
    pub closed spec fn monitor_counter(&self) -> i64 {
        self.next_monitor_id
    }

    /// The next channel id to hand out; every channel id is below it.
    pub closed spec fn notification_counter(&self) -> i64 {
        self.next_notification_id
    }

    /// The next account id to hand out; every account id is below it.
    pub closed spec fn user_counter(&self) -> i64 {
        self.next_user_id
    }

    /// Another monitor id can be handed out.
    pub open spec fn can_add_monitor(&self) -> bool {
        self.monitor_counter() < i64::MAX
    }

    /// Another channel id can be handed out.
    pub open spec fn can_add_notification(&self) -> bool {
        self.notification_counter() < i64::MAX
    }

    /// An empty store.
    pub fn new() -> (r: Self)
        ensures
            r.wf(),
            r.monitors() == Seq::<Monitor>::empty(),
            r.heartbeats() == Seq::<Heartbeat>::empty(),
            r.notifications() == Seq::<Notification>::empty(),
            r.links() == Seq::<(i64, i64)>::empty(),
            r.users() == Seq::<User>::empty(),
            r.monitor_counter() == 1,
            r.notification_counter() == 1,
            r.user_counter() == 1,
    {
        MonitorStore {
            monitors: Vec::new(),
            heartbeats: Vec::new(),
            notifications: Vec::new(),
            links: Vec::new(),
            users: Vec::new(),
            next_monitor_id: 1,
            next_notification_id: 1,
            next_user_id: 1,
        }
    }

    /// The position of monitor `id` of `user_id`, if there is one.
    fn monitor_index(&self, id: i64, user_id: i64) -> (r: Option<usize>)
        requires
            self.wf(),
        ensures
            match r {
                Some(i) => i < self.monitors@.len() && self.monitors@[i as int].id == id
                    && self.monitors@[i as int].user_id == user_id && find_monitor(
                    self.monitors@,
                    id,
                    user_id,
                ) == Some(self.monitors@[i as int]),
                None => find_monitor(self.monitors@, id, user_id).is_none(),
            },
    {
        let mut i: usize = 0;
        while i < self.monitors.len()
            invariant
                self.wf(),
                i <= self.monitors@.len(),
                forall|a: int|
                    0 <= a < i ==> !(self.monitors@[a].id == id && self.monitors@[a].user_id
                        == user_id),
            decreases self.monitors.len() - i,
        {
            if self.monitors[i].id == id && self.monitors[i].user_id == user_id {
                proof {
                    let k = choose|k: int|
                        0 <= k < self.monitors@.len() && self.monitors@[k].id == id
                            && self.monitors@[k].user_id == user_id;
                    if k != i {
                        if k < i {
                            assert(self.monitors@[k].id < self.monitors@[i as int].id);
                        } else {
                            assert(self.monitors@[i as int].id < self.monitors@[k].id);
                        }
                    }
                }
                return Some(i);
            }
            i = i + 1;
        }
        None
    }

    /// The position of monitor `id`, whoever owns it.
    fn position_of(&self, id: i64) -> (r: Option<usize>)
        requires
            self.wf(),
        ensures
            match r {
                Some(i) => i < self.monitors@.len() && self.monitors@[i as int].id == id,
                None => forall|a: int| 0 <= a < self.monitors@.len() ==> self.monitors@[a].id != id,
            },
    {
        let mut i: usize = 0;
        while i < self.monitors.len()
            invariant
                i <= self.monitors@.len(),
                forall|a: int| 0 <= a < i ==> self.monitors@[a].id != id,
            decreases self.monitors.len() - i,
        {
            if self.monitors[i].id == id {
                return Some(i);
            }
            i = i + 1;
        }
        None
    }

    /// The position of alert channel `id` of `user_id`, if there is one.
    fn notification_index(&self, id: i64, user_id: i64) -> (r: Option<usize>)
        requires
            self.wf(),
        ensures
            match r {
                Some(i) => i < self.notifications@.len() && self.notifications@[i as int].id == id
                    && self.notifications@[i as int].user_id == user_id && find_notification(
                    self.notifications@,
                    id,
                    user_id,
                ) == Some(self.notifications@[i as int]),
                None => find_notification(self.notifications@, id, user_id).is_none(),
            },
    {
        let mut i: usize = 0;
        while i < self.notifications.len()
            invariant
                self.wf(),
                i <= self.notifications@.len(),
                forall|a: int|
                    0 <= a < i ==> !(self.notifications@[a].id == id
                        && self.notifications@[a].user_id == user_id),
            decreases self.notifications.len() - i,
        {
            if self.notifications[i].id == id && self.notifications[i].user_id == user_id {
                proof {
                    let k = choose|k: int|
                        0 <= k < self.notifications@.len() && self.notifications@[k].id == id
                            && self.notifications@[k].user_id == user_id;
                    if k != i {
                        if k < i {
                            assert(self.notifications@[k].id < self.notifications@[i as int].id);
                        } else {
                            assert(self.notifications@[i as int].id < self.notifications@[k].id);
                        }
                    }
                }
                return Some(i);
            }
            i = i + 1;
        }
        None
    }

    fn is_linked(&self, monitor_id: i64, notification_id: i64) -> (r: bool)
        ensures
            r == self.links@.contains((monitor_id, notification_id)),
    {
        let mut i: usize = 0;
        while i < self.links.len()
            invariant
                i <= self.links@.len(),
                forall|a: int| 0 <= a < i ==> self.links@[a] != (monitor_id, notification_id),
            decreases self.links.len() - i,
        {
            let (m, n) = self.links[i];
            if m == monitor_id && n == notification_id {
                proof {
                    assert(self.links@[i as int] == (monitor_id, notification_id));
                }
                return true;
            }
            i = i + 1;
        }
        false
    }

    /// Subscribes alert channel `notification_id` to monitor `monitor_id`
    /// when `user_id` owns both; whether the link now stands.
    pub fn link_notification(&mut self, monitor_id: i64, notification_id: i64, user_id: i64) -> (r:
        bool)
        requires
            old(self).wf(),
        ensures
            final(self).wf(),
            r == (find_monitor(old(self).monitors(), monitor_id, user_id).is_some()
                && find_notification(old(self).notifications(), notification_id, user_id).is_some()),
            r ==> final(self).links().contains((monitor_id, notification_id)),
            r ==> (old(self).links().contains((monitor_id, notification_id)) ==> final(self).links()
                == old(self).links()),
            r ==> (!old(self).links().contains((monitor_id, notification_id)) ==> final(self).links()
                == old(self).links().push((monitor_id, notification_id))),
            !r ==> final(self).links() == old(self).links(),
            final(self).monitors() == old(self).monitors(),
            final(self).heartbeats() == old(self).heartbeats(),
            final(self).notifications() == old(self).notifications(),
            final(self).monitor_counter() == old(self).monitor_counter(),
            final(self).notification_counter() == old(self).notification_counter(),
            final(self).users() == old(self).users(),
            final(self).user_counter() == old(self).user_counter(),
    {
        if self.monitor_index(monitor_id, user_id).is_none() || self.notification_index(
            notification_id,
            user_id,
        ).is_none() {
            return false;
        }
        if !self.is_linked(monitor_id, notification_id) {
            self.links.push((monitor_id, notification_id));
            proof {
                assert(self.links@[self.links@.len() - 1] == (monitor_id, notification_id));
            }
        }
        true
    }

    /// The heartbeats of monitor `monitor_id`, oldest first.
    pub fn heartbeats_of(&self, monitor_id: i64) -> (r: Vec<Heartbeat>)
        ensures
            r@ == self.heartbeats().filter(beat_of(monitor_id)),
    {
        let ghost keep = beat_of(monitor_id);
        let mut out: Vec<Heartbeat> = Vec::new();
        let mut i: usize = 0;
        while i < self.heartbeats.len()
            invariant
                keep == beat_of(monitor_id),
                i <= self.heartbeats@.len(),
                out@ == self.heartbeats@.take(i as int).filter(keep),
            decreases self.heartbeats.len() - i,
        {
            let ghost c = self.heartbeats@[i as int];
            proof {
                assert(self.heartbeats@.take(i + 1) == self.heartbeats@.take(i as int).push(c));
                self.heartbeats@.take(i as int).lemma_filter_push(c, keep);
            }
            if self.heartbeats[i].monitor_id == monitor_id {
                out.push(self.heartbeats[i].duplicate());
            }
            i = i + 1;
        }
        proof {
            assert(self.heartbeats@.take(i as int) == self.heartbeats@);
        }
        out
    }

    /// Monitor ids never repeat.
    pub proof fn lemma_monitor_ids_unique(&self)
        requires
            self.wf(),
        ensures
            unique_ids(self.monitors()),
    {
        assert forall|i: int, j: int|
            0 <= i < self.monitors@.len() && 0 <= j < self.monitors@.len() && i != j implies self.monitors@[i].id
                != self.monitors@[j].id by {
            if i < j {
                assert(self.monitors@[i].id < self.monitors@[j].id);
            } else {
                assert(self.monitors@[j].id < self.monitors@[i].id);
            }
        }
    }
}

impl Monitor {
    /// Stores a new monitor of `user_id` with the defaults for what
    /// `input` leaves out, status `Unknown`, and a fresh id.
    pub fn create(store: &mut MonitorStore, user_id: i64, input: CreateMonitor, now: i64) -> (r:
        Result<Monitor, AppError>)
        requires
            old(store).wf(),
        ensures
            final(store).wf(),
            old(store).can_add_monitor() ==> (r matches Ok(m) && m == new_monitor(
                m.id,
                user_id,
                input,
                creation_stamp(old(store).monitors(), now),
            ) && m.id == old(store).monitor_counter() && final(store).monitor_counter() == old(
                store).monitor_counter() + 1 && final(store).monitors() == old(store).monitors().push(m)
                && forall|i: int|
                0 <= i < old(store).monitors().len() ==> old(store).monitors()[i].id != m.id),
            !old(store).can_add_monitor() ==> (r matches Err(AppError::DatabaseError) && final(store).monitors()
                == old(store).monitors() && final(store).monitor_counter() == old(store).monitor_counter()),
            final(store).heartbeats() == old(store).heartbeats(),
            final(store).notifications() == old(store).notifications(),
            final(store).links() == old(store).links(),
            final(store).users() == old(store).users(),
            final(store).user_counter() == old(store).user_counter(),
            final(store).notification_counter() == old(store).notification_counter(),
    {
        if store.next_monitor_id == i64::MAX {
            return Err(AppError::DatabaseError);
        }
        let id = store.next_monitor_id;
        let n = store.monitors.len();
        let stamp = if n > 0 && store.monitors[n - 1].created_at > now {
            store.monitors[n - 1].created_at
        } else {
            now
        };
        let m = Monitor {
            id,
            user_id,
            name: input.name,
            url: input.url,
            type_: input.type_,
            interval: match input.interval {
                Some(v) => v,
                None => DEFAULT_INTERVAL,
            },
            timeout: match input.timeout {
                Some(v) => v,
                None => DEFAULT_TIMEOUT,
            },
            status: MonitorStatus::Unknown,
            last_check: None,
            created_at: stamp,
            updated_at: stamp,
        };
        let out = m.duplicate();
        store.monitors.push(m);
        store.next_monitor_id = id + 1;
        Ok(out)
    }

    /// The monitor `id` if `user_id` owns it.
    pub fn find_by_id(store: &MonitorStore, id: i64, user_id: i64) -> (r: Option<Monitor>)
        requires
            store.wf(),
        ensures
            r == find_monitor(store.monitors(), id, user_id),
    {
        match store.monitor_index(id, user_id) {
            Some(i) => Some(store.monitors[i].duplicate()),
            None => None,
        }
    }

    /// The monitors of `user_id`, newest first.
    pub fn list_by_user(store: &MonitorStore, user_id: i64) -> (r: Vec<Monitor>)
        requires
            store.wf(),
        ensures
            r@ == store.monitors().filter(monitor_of(user_id)).reverse(),
            forall|i: int, j: int|
                0 <= i < j < r@.len() ==> #[trigger] r@[i].created_at >= #[trigger] r@[j].created_at,
    {
        let ghost keep = monitor_of(user_id);
        let mut fwd: Vec<Monitor> = Vec::new();
        let mut i: usize = 0;
        while i < store.monitors.len()
            invariant
                keep == monitor_of(user_id),
                i <= store.monitors@.len(),
                fwd@ == store.monitors@.take(i as int).filter(keep),
            decreases store.monitors.len() - i,
        {
            let ghost c = store.monitors@[i as int];
            proof {
                assert(store.monitors@.take(i + 1) == store.monitors@.take(i as int).push(c));
                store.monitors@.take(i as int).lemma_filter_push(c, keep);
            }
            if store.monitors[i].user_id == user_id {
                fwd.push(store.monitors[i].duplicate());
            }
            i = i + 1;
        }
        proof {
            assert(store.monitors@.take(i as int) == store.monitors@);
            lemma_filter_created_in_order(store.monitors@, keep);
        }
        let mut out: Vec<Monitor> = Vec::new();
        let mut j: usize = fwd.len();
        while j > 0
            invariant
                j <= fwd@.len(),
                out@.len() == fwd@.len() - j,
                forall|k: int| 0 <= k < out@.len() ==> out@[k] == fwd@[fwd@.len() - 1 - k],
            decreases j,
        {
            j = j - 1;
            out.push(fwd[j].duplicate());
        }
        proof {
            assert(out@ =~= fwd@.reverse());
        }
        out
    }

    /// Replaces the fields that `changes` gives on monitor `id` of
    /// `user_id`; `None` when there is no such monitor.
    pub fn update(store: &mut MonitorStore, id: i64, user_id: i64, changes: UpdateMonitor) -> (r:
        Option<Monitor>)
        requires
            old(store).wf(),
        ensures
            final(store).wf(),
            match find_monitor(old(store).monitors(), id, user_id) {
                Some(m) => r == Some(apply_changes(m, changes)) && final(store).monitors()
                    == old(store).monitors().map_values(
                    |x: Monitor|
                        if x.id == id && x.user_id == user_id {
                            apply_changes(x, changes)
                        } else {
                            x
                        },
                ),
                None => r.is_none() && final(store).monitors() == old(store).monitors(),
            },
            final(store).heartbeats() == old(store).heartbeats(),
            final(store).notifications() == old(store).notifications(),
            final(store).links() == old(store).links(),
            final(store).users() == old(store).users(),
            final(store).user_counter() == old(store).user_counter(),
            final(store).monitor_counter() == old(store).monitor_counter(),
            final(store).notification_counter() == old(store).notification_counter(),
    {
        match store.monitor_index(id, user_id) {
            None => None,
            Some(i) => {
                let old_m = store.monitors[i].duplicate();
                let m = Monitor {
                    name: match changes.name {
                        Some(v) => v,
                        None => old_m.name,
                    },
                    url: match changes.url {
                        Some(v) => v,
                        None => old_m.url,
                    },
                    type_: match changes.type_ {
                        Some(v) => v,
                        None => old_m.type_,
                    },
                    interval: match changes.interval {
                        Some(v) => v,
                        None => old_m.interval,
                    },
                    timeout: match changes.timeout {
                        Some(v) => v,
                        None => old_m.timeout,
                    },
                    ..old_m
                };
                let out = m.duplicate();
                store.monitors.set(i, m);
                proof {
                    store.lemma_monitor_ids_unique();
                    assert forall|a: int| 0 <= a < store.monitors@.len() && a != i implies !(
                    old(store).monitors@[a].id == id && old(store).monitors@[a].user_id == user_id) by {
                        assert(old(store).monitors@[a].id != old(store).monitors@[i as int].id);
                    }
                    assert(store.monitors@ =~= old(store).monitors().map_values(
                        |x: Monitor|
                            if x.id == id && x.user_id == user_id {
                                apply_changes(x, changes)
                            } else {
                                x
                            },
                    ));
                }
                Some(out)
            },
        }
    }

    /// Removes monitor `id` of `user_id`; whether there was one.
    pub fn delete(store: &mut MonitorStore, id: i64, user_id: i64) -> (r: bool)
        requires
            old(store).wf(),
        ensures
            final(store).wf(),
            r == find_monitor(old(store).monitors(), id, user_id).is_some(),
            r ==> final(store).monitors() == old(store).monitors().filter(monitor_other_than(id)),
            !r ==> final(store).monitors() == old(store).monitors(),
            final(store).heartbeats() == old(store).heartbeats(),
            final(store).notifications() == old(store).notifications(),
            final(store).links() == old(store).links(),
            final(store).users() == old(store).users(),
            final(store).user_counter() == old(store).user_counter(),
            final(store).monitor_counter() == old(store).monitor_counter(),
            final(store).notification_counter() == old(store).notification_counter(),
    {
        match store.monitor_index(id, user_id) {
            None => false,
            Some(i) => {
                let ghost keep = monitor_other_than(id);
                let ghost before = store.monitors@;
                let _removed = store.monitors.remove(i);
                proof {
                    old(store).lemma_monitor_ids_unique();
                    lemma_filter_drops_one(before, i as int, id);
                }
                true
            },
        }
    }

    /// Records a check of monitor `id` at `now`: sets its status and check
    /// time and appends one heartbeat, in one step. An unknown monitor
    /// gets neither.
    pub fn update_status(
        store: &mut MonitorStore,
        id: i64,
        status: MonitorStatus,
        ping: Option<i32>,
        message: Option<String>,
        now: i64,
    ) -> (r: Result<(), AppError>)
        requires
            old(store).wf(),
        ensures
            final(store).wf(),
            r is Ok == exists|i: int|
                0 <= i < old(store).monitors().len() && old(store).monitors()[i].id == id,
            r is Ok ==> final(store).monitors() == record_status(old(store).monitors(), id, status, now)
                && final(store).heartbeats() == old(store).heartbeats().push(
                Heartbeat { monitor_id: id, status, ping, message, time: now },
            ),
            r is Err ==> r == Err::<(), AppError>(AppError::NotFound) && final(store).monitors()
                == old(store).monitors() && final(store).heartbeats() == old(store).heartbeats(),
            final(store).notifications() == old(store).notifications(),
            final(store).links() == old(store).links(),
            final(store).users() == old(store).users(),
            final(store).user_counter() == old(store).user_counter(),
            final(store).monitor_counter() == old(store).monitor_counter(),
            final(store).notification_counter() == old(store).notification_counter(),
    {
        match store.position_of(id) {
            None => Err(AppError::NotFound),
            Some(i) => {
                let old_m = store.monitors[i].duplicate();
                let m = Monitor { status, last_check: Some(now), ..old_m };
                store.monitors.set(i, m);
                store.heartbeats.push(Heartbeat { monitor_id: id, status, ping, message, time: now });
                proof {
                    old(store).lemma_monitor_ids_unique();
                    assert(store.monitors@ =~= record_status(old(store).monitors(), id, status, now));
                }
                Ok(())
            },
        }
    }
}

impl Notification {
    /// Stores a new alert channel of `user_id` with a fresh id.
    pub fn create(store: &mut MonitorStore, user_id: i64, config: NotificationConfig, now: i64) -> (r:
        Result<Notification, AppError>)
        requires
            old(store).wf(),
        ensures
            final(store).wf(),
            old(store).can_add_notification() ==> (r matches Ok(n) && n == configured(
                n.id,
                user_id,
                config,
                now,
                now,
            ) && n.id == old(store).notification_counter() && final(store).notification_counter()
                == old(store).notification_counter() + 1 && final(store).notifications() == old(
                store).notifications().push(n) && forall|
                i: int,
            |
                0 <= i < old(store).notifications().len() ==> old(store).notifications()[i].id
                    != n.id),
            !old(store).can_add_notification() ==> (r matches Err(AppError::DatabaseError)
                && final(store).notifications() == old(store).notifications()
                && final(store).notification_counter() == old(store).notification_counter()),
            final(store).monitors() == old(store).monitors(),
            final(store).heartbeats() == old(store).heartbeats(),
            final(store).links() == old(store).links(),
            final(store).users() == old(store).users(),
            final(store).user_counter() == old(store).user_counter(),
            final(store).monitor_counter() == old(store).monitor_counter(),
    {
        if store.next_notification_id == i64::MAX {
            return Err(AppError::DatabaseError);
        }
        let id = store.next_notification_id;
        let n = Notification {
            id,
            user_id,
            name: config.name,
            type_: config.type_,
            config: config.provider_config,
            is_default: config.is_default,
            created_at: now,
            updated_at: now,
        };
        let out = n.duplicate();
        store.notifications.push(n);
        store.next_notification_id = id + 1;
        Ok(out)
    }

    /// The alert channel `id` if `user_id` owns it.
    pub fn get_by_id(store: &MonitorStore, id: i64, user_id: i64) -> (r: Option<Notification>)
        requires
            store.wf(),
        ensures
            r == find_notification(store.notifications(), id, user_id),
    {
        match store.notification_index(id, user_id) {
            Some(i) => Some(store.notifications[i].duplicate()),
            None => None,
        }
    }

    /// The alert channels of `user_id`, in name order.
    pub fn get_by_user(store: &MonitorStore, user_id: i64) -> (r: Vec<Notification>)
        ensures
            r@.to_multiset() == store.notifications().filter(notification_of(user_id)).to_multiset(),
            by_name(r@),
            forall|q: int| 0 <= q < r@.len() ==> (#[trigger] r@[q]).user_id == user_id,
    {
        broadcast use vstd::seq_lib::group_to_multiset_ensures;

        let ghost keep = notification_of(user_id);
        let mut fwd: Vec<Notification> = Vec::new();
        let mut i: usize = 0;
        while i < store.notifications.len()
            invariant
                keep == notification_of(user_id),
                i <= store.notifications@.len(),
                fwd@ == store.notifications@.take(i as int).filter(keep),
                forall|q: int| 0 <= q < fwd@.len() ==> (#[trigger] fwd@[q]).user_id == user_id,
            decreases store.notifications.len() - i,
        {
            let ghost c = store.notifications@[i as int];
            proof {
                assert(store.notifications@.take(i + 1) == store.notifications@.take(i as int).push(c));
                store.notifications@.take(i as int).lemma_filter_push(c, keep);
            }
            if store.notifications[i].user_id == user_id {
                fwd.push(store.notifications[i].duplicate());
            }
            i = i + 1;
        }
        proof {
            assert(store.notifications@.take(i as int) == store.notifications@);
        }
        let mut out: Vec<Notification> = Vec::new();
        let mut k: usize = 0;
        while k < fwd.len()
            invariant
                k <= fwd@.len(),
                out@.to_multiset() == fwd@.take(k as int).to_multiset(),
                by_name(out@),
                forall|q: int| 0 <= q < fwd@.len() ==> (#[trigger] fwd@[q]).user_id == user_id,
                forall|q: int| 0 <= q < out@.len() ==> (#[trigger] out@[q]).user_id == user_id,
            decreases fwd.len() - k,
        {
            let x = fwd[k].duplicate();
            let mut p: usize = 0;
            while p < out.len() && names_in_order(out[p].name.as_str(), x.name.as_str())
                invariant
                    p <= out@.len(),
                    forall|q: int| 0 <= q < p ==> name_le(#[trigger] out@[q].name@, x.name@),
                decreases out.len() - p,
            {
                p = p + 1;
            }
            let ghost before = out@;
            proof {
                if p < out@.len() {
                    lemma_name_le_total(out@[p as int].name@, x.name@);
                }
                assert(fwd@.take(k + 1) == fwd@.take(k as int).push(fwd@[k as int]));
            }
            out.insert(p, x);
            proof {
                assert(out@ == before.insert(p as int, x));
                assert forall|q: int| 0 <= q < out@.len() implies (#[trigger] out@[q]).user_id
                    == user_id by {
                    if q < p {
                        assert(out@[q] == before[q]);
                    } else if q > p {
                        assert(out@[q] == before[q - 1]);
                    }
                }
                vstd::seq_lib::to_multiset_insert(before, p as int, x);
                vstd::seq_lib::to_multiset_build(fwd@.take(k as int), fwd@[k as int]);
                assert(out@.to_multiset() == before.to_multiset().insert(x));
                assert(fwd@.take(k + 1).to_multiset() == fwd@.take(k as int).to_multiset().insert(
                    fwd@[k as int],
                ));
                assert forall|q: int| 0 <= q < out@.len() - 1 implies name_le(
                    #[trigger] out@[q].name@,
                    out@[q + 1].name@,
                ) by {
                    if q + 1 < p {
                        assert(out@[q] == before[q] && out@[q + 1] == before[q + 1]);
                    } else if q + 1 == p {
                        assert(out@[q] == before[q]);
                    } else if q == p {
                        assert(out@[q + 1] == before[q]);
                    } else {
                        assert(out@[q] == before[q - 1] && out@[q + 1] == before[q]);
                    }
                }
            }
            k = k + 1;
        }
        proof {
            assert(fwd@.take(k as int) == fwd@);
        }
        out
    }

    /// Replaces alert channel `id` of `user_id` with what `config` says;
    /// `NotFound` when there is no such channel.
    pub fn update(
        store: &mut MonitorStore,
        id: i64,
        user_id: i64,
        config: NotificationConfig,
        now: i64,
    ) -> (r: Result<Notification, AppError>)
        requires
            old(store).wf(),
        ensures
            final(store).wf(),
            match find_notification(old(store).notifications(), id, user_id) {
                Some(n) => r matches Ok(u) && u == configured(id, user_id, config, n.created_at, now)
                    && final(store).notifications() == old(store).notifications().map_values(
                    |x: Notification|
                        if x.id == id && x.user_id == user_id {
                            configured(id, user_id, config, x.created_at, now)
                        } else {
                            x
                        },
                ),
                None => r matches Err(AppError::NotFound) && final(store).notifications() == old(store).notifications(),
            },
            final(store).monitors() == old(store).monitors(),
            final(store).heartbeats() == old(store).heartbeats(),
            final(store).links() == old(store).links(),
            final(store).users() == old(store).users(),
            final(store).user_counter() == old(store).user_counter(),
            final(store).monitor_counter() == old(store).monitor_counter(),
            final(store).notification_counter() == old(store).notification_counter(),
    {
        match store.notification_index(id, user_id) {
            None => Err(AppError::NotFound),
            Some(i) => {
                let created_at = store.notifications[i].created_at;
                let n = Notification {
                    id,
                    user_id,
                    name: config.name,
                    type_: config.type_,
                    config: config.provider_config,
                    is_default: config.is_default,
                    created_at,
                    updated_at: now,
                };
                let out = n.duplicate();
                store.notifications.set(i, n);
                proof {
                    assert forall|a: int|
                        0 <= a < store.notifications@.len() && a != i implies !(old(store).notifications@[a].id == id && old(store).notifications@[a].user_id
                            == user_id) by {
                        if a < i {
                            assert(old(store).notifications@[a].id < old(store).notifications@[i as int].id);
                        } else {
                            assert(old(store).notifications@[i as int].id < old(store).notifications@[a].id);
                        }
                    }
                    assert(store.notifications@ =~= old(store).notifications().map_values(
                        |x: Notification|
                            if x.id == id && x.user_id == user_id {
                                configured(id, user_id, config, x.created_at, now)
                            } else {
                                x
                            },
                    ));
                }
                Ok(out)
            },
        }
    }

    /// Removes alert channel `id` of `user_id`; removing one that is not
    /// there changes nothing.
    pub fn delete(store: &mut MonitorStore, id: i64, user_id: i64) -> (r: bool)
        requires
            old(store).wf(),
        ensures
            final(store).wf(),
            r == find_notification(old(store).notifications(), id, user_id).is_some(),
            !r ==> final(store).notifications() == old(store).notifications(),
            r ==> exists|i: int|
                0 <= i < old(store).notifications().len() && old(store).notifications()[i].id == id
                    && final(store).notifications() == old(store).notifications().remove(i),
            final(store).monitors() == old(store).monitors(),
            final(store).heartbeats() == old(store).heartbeats(),
            final(store).links() == old(store).links(),
            final(store).users() == old(store).users(),
            final(store).user_counter() == old(store).user_counter(),
            final(store).monitor_counter() == old(store).monitor_counter(),
            final(store).notification_counter() == old(store).notification_counter(),
    {
        match store.notification_index(id, user_id) {
            None => false,
            Some(i) => {
                let _removed = store.notifications.remove(i);
                proof {
                    assert(store.notifications@ == old(store).notifications().remove(i as int));
                }
                true
            },
        }
    }

    /// The alert channels subscribed to monitor `monitor_id`, oldest first.
    pub fn get_monitor_notifications(store: &MonitorStore, monitor_id: i64) -> (r: Vec<
        Notification,
    >)
        ensures
            r@ == store.notifications().filter(linked_to(store.links(), monitor_id)),
    {
        let ghost keep = linked_to(store.links(), monitor_id);
        let mut out: Vec<Notification> = Vec::new();
        let mut i: usize = 0;
        while i < store.notifications.len()
            invariant
                keep == linked_to(store.links(), monitor_id),
                i <= store.notifications@.len(),
                out@ == store.notifications@.take(i as int).filter(keep),
            decreases store.notifications.len() - i,
        {
            let ghost c = store.notifications@[i as int];
            proof {
                assert(store.notifications@.take(i + 1) == store.notifications@.take(i as int).push(c));
                store.notifications@.take(i as int).lemma_filter_push(c, keep);
            }
            if store.is_linked(monitor_id, store.notifications[i].id) {
                out.push(store.notifications[i].duplicate());
            }
            i = i + 1;
        }
        proof {
            assert(store.notifications@.take(i as int) == store.notifications@);
        }
        out
    }
}

/// `a` comes no later than `b` by name: characters compare by code point,
/// and a prefix comes first.
pub open spec fn name_le(a: Seq<char>, b: Seq<char>) -> bool
    decreases a.len(),
{
    if a.len() == 0 {
        true
    } else if b.len() == 0 {
        false
    } else if (a[0] as u32) != (b[0] as u32) {
        (a[0] as u32) < (b[0] as u32)
    } else {
        name_le(a.drop_first(), b.drop_first())
    }
}

/// Channels stand in name order.
pub open spec fn by_name(ns: Seq<Notification>) -> bool {
    forall|q: int| 0 <= q < ns.len() - 1 ==> name_le(#[trigger] ns[q].name@, ns[q + 1].name@)
}

/// Of two names, one comes no later than the other.
pub proof fn lemma_name_le_total(a: Seq<char>, b: Seq<char>)
    ensures
        name_le(a, b) || name_le(b, a),
    decreases a.len(),
{
    if a.len() > 0 && b.len() > 0 && (a[0] as u32) == (b[0] as u32) {
        lemma_name_le_total(a.drop_first(), b.drop_first());
    }
}

/// Whether `a` comes no later than `b` by name.
fn names_in_order(a: &str, b: &str) -> (r: bool)
    ensures
        r == name_le(a@, b@),
{
    let na = a.unicode_len();
    let nb = b.unicode_len();
    let mut i: usize = 0;
    proof {
        assert(a@.skip(0) =~= a@);
        assert(b@.skip(0) =~= b@);
    }
    loop
        invariant
            na == a@.len(),
            nb == b@.len(),
            i <= na,
            i <= nb,
            name_le(a@, b@) == name_le(a@.skip(i as int), b@.skip(i as int)),
        decreases na - i,
    {
        if i == na {
            return true;
        }
        if i == nb {
            return false;
        }
        let ca = a.get_char(i);
        let cb = b.get_char(i);
        proof {
            assert(a@.skip(i as int)[0] == ca);
            assert(b@.skip(i as int)[0] == cb);
            assert(a@.skip(i as int).drop_first() =~= a@.skip(i + 1));
            assert(b@.skip(i as int).drop_first() =~= b@.skip(i + 1));
        }
        if (ca as u32) != (cb as u32) {
            return (ca as u32) < (cb as u32);
        }
        i = i + 1;
    }
}

/// The account named `name`, if there is one.
pub open spec fn find_user(us: Seq<User>, name: Seq<char>) -> Option<User> {
    if exists|i: int| 0 <= i < us.len() && us[i].username@ == name {
        Some(us[choose|i: int| 0 <= i < us.len() && us[i].username@ == name])
    } else {
        None
    }
}

/// Relies on `bcrypt::hash` at `bcrypt::DEFAULT_COST`: the salt is drawn
/// from the system's randomness, so the hash is not determined, but
/// `bcrypt::verify` accepts the password against it (both hash the
/// password with the salt and cost the hash records). The call fails only
/// when the randomness is unavailable.
#[verifier::external_body]
fn hash_password(password: &str) -> (r: Option<String>)
    ensures
        r matches Some(h) ==> crate::auth::bcrypt_accepts(password@, h@),
{
    bcrypt::hash(password.as_bytes(), bcrypt::DEFAULT_COST).ok()
}

impl User {
    /// The account named `name`, if there is one.
    pub fn find_by_username(store: &MonitorStore, name: &str) -> (r: Option<User>)
        requires
            store.wf(),
        ensures
            r == find_user(store.users(), name@),
    {
        let mut i: usize = 0;
        while i < store.users.len()
            invariant
                store.wf(),
                i <= store.users@.len(),
                forall|a: int| 0 <= a < i ==> store.users@[a].username@ != name@,
            decreases store.users.len() - i,
        {
            if str_eq(store.users[i].username.as_str(), name) {
                proof {
                    let k = choose|k: int|
                        0 <= k < store.users@.len() && store.users@[k].username@ == name@;
                    if k != i {
                        assert(store.users@[k].username@ != store.users@[i as int].username@);
                    }
                }
                return Some(store.users[i].duplicate());
            }
            i = i + 1;
        }
        None
    }

    /// Stores a new account with a fresh id and the bcrypt hash of its
    /// password. A name that is taken is `UsernameTaken`; when no id or no
    /// hash can be had, `DatabaseError`. Either way nothing is stored.
    pub fn create(store: &mut MonitorStore, input: CreateUser, now: i64) -> (r: Result<User, AppError>)
        requires
            old(store).wf(),
        ensures
            final(store).wf(),
            find_user(old(store).users(), input.username@).is_some() ==> (r matches Err(
                AppError::UsernameTaken,
            )),
            find_user(old(store).users(), input.username@).is_none() ==> (r is Ok || r matches Err(
                AppError::DatabaseError,
            )),
            match r {
                Ok(u) => u.username == input.username && u.email == input.email
                    && crate::auth::bcrypt_accepts(input.password@, u.password_hash@) && u.created_at
                    == now && u.updated_at == now && final(store).users() == old(store).users().push(
                    u,
                ) && u.id == old(store).user_counter() && final(store).user_counter() == old(
                    store).user_counter() + 1 && forall|i: int|
                    0 <= i < old(store).users().len() ==> old(store).users()[i].id != u.id,
                Err(_) => final(store).users() == old(store).users() && final(store).user_counter()
                    == old(store).user_counter(),
            },
            final(store).monitors() == old(store).monitors(),
            final(store).heartbeats() == old(store).heartbeats(),
            final(store).notifications() == old(store).notifications(),
            final(store).links() == old(store).links(),
            final(store).monitor_counter() == old(store).monitor_counter(),
            final(store).notification_counter() == old(store).notification_counter(),
    {
        if User::find_by_username(store, input.username.as_str()).is_some() {
            return Err(AppError::UsernameTaken);
        }
        if store.next_user_id == i64::MAX {
            return Err(AppError::DatabaseError);
        }
        let hash = match hash_password(input.password.as_str()) {
            Some(h) => h,
            None => return Err(AppError::DatabaseError),
        };
        let id = store.next_user_id;
        let u = User {
            id,
            username: input.username,
            password_hash: hash,
            email: input.email,
            created_at: now,
            updated_at: now,
        };
        let out = u.duplicate();
        proof {
            assert forall|i: int| 0 <= i < old(store).users@.len() implies old(store).users@[i].username@
                != u.username@ by {}
        }
        store.users.push(u);
        store.next_user_id = id + 1;
        Ok(out)
    }
}

/// Holds of the heartbeats of monitor `id`.
pub open spec fn beat_of(id: i64) -> spec_fn(Heartbeat) -> bool {
    |h: Heartbeat| h.monitor_id == id
}

/// A monitor that was created and is then fetched by its id and owner comes
/// back with the name, url, kind, interval and timeout it was created with
/// (the defaults where none was given) and status `Unknown`.
pub proof fn lemma_create_then_find(
    ms: Seq<Monitor>,
    id: i64,
    user_id: i64,
    input: CreateMonitor,
    now: i64,
)
    requires
        forall|i: int| 0 <= i < ms.len() ==> ms[i].id != id,
    ensures
        find_monitor(ms.push(new_monitor(id, user_id, input, now)), id, user_id) matches Some(f)
            && f == new_monitor(id, user_id, input, now) && f.name == input.name && f.url
            == input.url && f.type_ == input.type_ && f.interval == (match input.interval {
            Some(v) => v,
            None => DEFAULT_INTERVAL,
        }) && f.timeout == (match input.timeout {
            Some(v) => v,
            None => DEFAULT_TIMEOUT,
        }) && f.status == MonitorStatus::Unknown,
{
    let m = new_monitor(id, user_id, input, now);
    let s = ms.push(m);
    assert(s[ms.len() as int].id == id && s[ms.len() as int].user_id == user_id);
    let k = choose|k: int| 0 <= k < s.len() && s[k].id == id && s[k].user_id == user_id;
    if k < ms.len() {
        assert(s[k] == ms[k]);
    }
}

/// Two checks of one monitor, recorded in sequence, leave exactly two more
/// heartbeats for it, the second one last, and the monitor's status is the
/// second outcome, never the first.
pub proof fn lemma_latest_outcome_wins(
    ms: Seq<Monitor>,
    hs: Seq<Heartbeat>,
    id: i64,
    user_id: i64,
    first: Heartbeat,
    second: Heartbeat,
)
    requires
        unique_ids(ms),
        find_monitor(ms, id, user_id).is_some(),
        first.monitor_id == id,
        second.monitor_id == id,
    ensures
        ({
            let ms2 = record_status(
                record_status(ms, id, first.status, first.time),
                id,
                second.status,
                second.time,
            );
            let hs2 = hs.push(first).push(second);
            &&& hs2.len() == hs.len() + 2
            &&& hs2.filter(beat_of(id)).len() == hs.filter(beat_of(id)).len() + 2
            &&& hs2.last() == second
            &&& find_monitor(ms2, id, user_id) matches Some(f) && f == checked(
                find_monitor(ms, id, user_id)->0,
                second.status,
                second.time,
            ) && f.status == second.status
        }),
{
    let ms1 = record_status(ms, id, first.status, first.time);
    let ms2 = record_status(ms1, id, second.status, second.time);
    hs.lemma_filter_push(first, beat_of(id));
    hs.push(first).lemma_filter_push(second, beat_of(id));
    let k = choose|k: int| 0 <= k < ms.len() && ms[k].id == id && ms[k].user_id == user_id;
    assert(ms2[k].id == id && ms2[k].user_id == user_id);
    let k2 = choose|k2: int| 0 <= k2 < ms2.len() && ms2[k2].id == id && ms2[k2].user_id == user_id;
    assert(k2 == k) by {
        if k2 != k {
            assert(ms[k2].id == id);
        }
    }
    assert(ms2[k] == checked(ms[k], second.status, second.time));
}

/// Filtering keeps creation times in order.
proof fn lemma_filter_created_in_order(ms: Seq<Monitor>, p: spec_fn(Monitor) -> bool)
    requires
        created_in_order(ms),
    ensures
        created_in_order(ms.filter(p)),
    decreases ms.len(),
{
    reveal(Seq::filter);
    if ms.len() > 0 {
        let init = ms.drop_last();
        assert(created_in_order(init));
        lemma_filter_created_in_order(init, p);
        let f = init.filter(p);
        if p(ms.last()) {
            assert forall|i: int| 0 <= i < f.len() implies f[i].created_at <= ms.last().created_at by {
                assert(f.contains(f[i]));
                init.lemma_filter_contains_rev(p, f[i]);
                let k = choose|k: int| 0 <= k < init.len() && init[k] == f[i];
                assert(ms[k].created_at <= ms[ms.len() - 1].created_at);
            }
            assert forall|i: int, j: int|
                0 <= i < j < f.push(ms.last()).len() implies #[trigger] f.push(ms.last())[i].created_at
                    <= #[trigger] f.push(ms.last())[j].created_at by {
                if j < f.len() {
                } else {
                    assert(f.push(ms.last())[i] == f[i]);
                }
            }
        }
    }
}

/// Filtering out the one monitor with id `id` removes exactly its position.
proof fn lemma_filter_drops_one(ms: Seq<Monitor>, i: int, id: i64)
    requires
        unique_ids(ms),
        0 <= i < ms.len(),
        ms[i].id == id,
    ensures
        ms.filter(monitor_other_than(id)) == ms.remove(i),
    decreases ms.len(),
{
    reveal(Seq::filter);
    let p = monitor_other_than(id);
    let init = ms.drop_last();
    if i == ms.len() - 1 {
        assert forall|a: int| 0 <= a < init.len() implies p(init[a]) by {
            assert(ms[a].id != ms[i].id);
        }
        lemma_filter_all(init, p);
        assert(ms.remove(i) =~= init);
    } else {
        assert(unique_ids(init));
        lemma_filter_drops_one(init, i, id);
        assert(ms.last().id != id) by {
            assert(ms[ms.len() - 1].id != ms[i].id);
        }
        assert(ms.remove(i) =~= init.remove(i).push(ms.last()));
    }
}

/// Filtering by a predicate that holds throughout keeps everything.
proof fn lemma_filter_all(ms: Seq<Monitor>, p: spec_fn(Monitor) -> bool)
    requires
        forall|a: int| 0 <= a < ms.len() ==> p(ms[a]),
    ensures
        ms.filter(p) == ms,
    decreases ms.len(),
{
    reveal(Seq::filter);
    if ms.len() > 0 {
        lemma_filter_all(ms.drop_last(), p);
        assert(ms.drop_last().push(ms.last()) =~= ms);
    }
}

} // verus!
