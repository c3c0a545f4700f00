//! The connection registry: the set of live sessions, keyed by owner and
//! session id. The transport of each session is held by the caller under
//! the same key; the registry decides who a message goes to and drops a
//! session whose write failed.
use vstd::prelude::*;
use crate::message::WebSocketMessage;
use vstd::seq_lib::group_filter_ensures;

verus! {

/// The key of one live session.
#[derive(Clone, Copy, Debug, PartialEq, Eq, Structural)]
pub struct WebSocketClient {
    pub user_id: i64,
    pub client_id: i64,
}

/// Holds of the sessions of `owner`.
pub open spec fn owned_by(owner: i64) -> spec_fn(WebSocketClient) -> bool {
    |c: WebSocketClient| c.user_id == owner
}

/// Holds of every session but `key`.
pub open spec fn other_than(key: WebSocketClient) -> spec_fn(WebSocketClient) -> bool {
    |c: WebSocketClient| c != key
}

/// The write to `c` was attempted as one of `targets` and failed.
pub open spec fn write_failed(
    targets: Seq<WebSocketClient>,
    delivered: Seq<bool>,
    c: WebSocketClient,
) -> bool {
    exists|j: int| 0 <= j < targets.len() && targets[j] == c && !delivered[j]
}

/// Holds of every session whose write did not fail.
pub open spec fn survives(
    targets: Seq<WebSocketClient>,
    delivered: Seq<bool>,
) -> spec_fn(WebSocketClient) -> bool {
    |c: WebSocketClient| !write_failed(targets, delivered, c)
}

/// One message and the sessions it is to be written to, in order.
pub struct Broadcast {
    pub message: WebSocketMessage,
    pub targets: Vec<WebSocketClient>,
}

/// Whether the write to `c` failed, as `write_failed` states.
fn failed_write(targets: &Vec<WebSocketClient>, delivered: &Vec<bool>, c: WebSocketClient) -> (r:
    bool)
    requires
        targets@.len() == delivered@.len(),
    ensures
        r == write_failed(targets@, delivered@, c),
{
    let mut j: usize = 0;
    while j < targets.len()
        invariant
            targets@.len() == delivered@.len(),
            j <= targets@.len(),
            forall|a: int| 0 <= a < j ==> !(targets@[a] == c && !delivered@[a]),
        decreases targets.len() - j,
    {
        if targets[j] == c && !delivered[j] {
            return true;
        }
        j = j + 1;
    }
    false
}

/// Filtering never brings in an element twice.
proof fn lemma_filter_unique(s: Seq<WebSocketClient>, p: spec_fn(WebSocketClient) -> bool)
    requires
        s.no_duplicates(),
    ensures
        s.filter(p).no_duplicates(),
    decreases s.len(),
{
    reveal(Seq::filter);
    if s.len() > 0 {
        let init = s.drop_last();
        assert(init.no_duplicates());
        lemma_filter_unique(init, p);
        if p(s.last()) {
            let f = init.filter(p);
            if f.contains(s.last()) {
                init.lemma_filter_contains_rev(p, s.last());
                let k = choose|k: int| 0 <= k < init.len() && init[k] == s.last();
                assert(s[k] == s[s.len() - 1]);
            }
            assert forall|i: int, j: int|
                0 <= i < f.push(s.last()).len() && 0 <= j < f.push(s.last()).len() && i != j
                    implies f.push(s.last())[i] != f.push(s.last())[j] by {
                if i < f.len() && j < f.len() {
                } else if i < f.len() {
                    assert(f.contains(f[i]));
                } else {
                    assert(f.contains(f[j]));
                }
            }
        }
    }
}

/// Removing a key that is not there changes nothing.
proof fn lemma_remove_absent(s: Seq<WebSocketClient>, key: WebSocketClient)
    requires
        !s.contains(key),
    ensures
        s.filter(other_than(key)) == s,
    decreases s.len(),
{
    reveal(Seq::filter);
    if s.len() > 0 {
        let init = s.drop_last();
        assert(!init.contains(key)) by {
            if init.contains(key) {
                let k = choose|k: int| 0 <= k < init.len() && init[k] == key;
                assert(s[k] == key);
            }
        }
        lemma_remove_absent(init, key);
        assert(s.last() != key) by {
            assert(s[s.len() - 1] == s.last());
        }
        assert(init.push(s.last()) == s);
    }
}

/// A broadcast to one owner reaches every live session of that owner and
/// no session of any other owner.
pub proof fn lemma_broadcast_isolates_owners(
    sessions: Seq<WebSocketClient>,
    owner: i64,
    other: i64,
)
    requires
        owner != other,
    ensures
        forall|c: WebSocketClient|
            sessions.contains(c) && c.user_id == owner ==> #[trigger] sessions.filter(
                owned_by(owner),
            ).contains(c),
        forall|c: WebSocketClient|
            #[trigger] sessions.filter(owned_by(owner)).contains(c) ==> sessions.contains(c)
                && c.user_id == owner,
        forall|c: WebSocketClient|
            c.user_id == other ==> !#[trigger] sessions.filter(owned_by(owner)).contains(c),
{
    broadcast use group_filter_ensures;

    assert forall|c: WebSocketClient|
        sessions.contains(c) && c.user_id == owner implies #[trigger] sessions.filter(
            owned_by(owner),
        ).contains(c) by {
        let k = choose|k: int| 0 <= k < sessions.len() && sessions[k] == c;
        sessions.lemma_filter_contains(owned_by(owner), k);
    }
    assert forall|c: WebSocketClient|
        #[trigger] sessions.filter(owned_by(owner)).contains(c) implies sessions.contains(c)
            && c.user_id == owner by {
        sessions.lemma_filter_contains_rev(owned_by(owner), c);
    }
}

/// Registering a session and removing it again leaves the registry as it
/// was, its session count included; removing a key that is not live
/// changes nothing.
pub proof fn lemma_register_then_deregister(sessions: Seq<WebSocketClient>, key: WebSocketClient)
    requires
        !sessions.contains(key),
    ensures
        sessions.push(key).filter(other_than(key)) == sessions,
        sessions.push(key).filter(other_than(key)).len() == sessions.len(),
        sessions.filter(other_than(key)) == sessions,
{
    lemma_remove_absent(sessions, key);
    sessions.lemma_filter_push(key, other_than(key));
}

/// After a broadcast to `owner` whose writes went as `delivered` says, a
/// session whose write failed is gone, a session of `owner` whose write
/// went through stays, and the sessions of other owners stay. Every session
/// of `owner` was written to, whichever writes failed.
pub proof fn lemma_failed_write_evicts_only_that_session(
    sessions: Seq<WebSocketClient>,
    owner: i64,
    delivered: Seq<bool>,
)
    requires
        sessions.no_duplicates(),
        delivered.len() == sessions.filter(owned_by(owner)).len(),
    ensures
        ({
            let targets = sessions.filter(owned_by(owner));
            let after = sessions.filter(survives(targets, delivered));
            &&& forall|c: WebSocketClient|
                sessions.contains(c) && c.user_id == owner ==> #[trigger] targets.contains(c)
            &&& forall|j: int|
                0 <= j < targets.len() && !delivered[j] ==> !#[trigger] after.contains(targets[j])
            &&& forall|j: int|
                0 <= j < targets.len() && #[trigger] delivered[j] ==> after.contains(targets[j])
            &&& forall|c: WebSocketClient|
                #[trigger] sessions.contains(c) && c.user_id != owner ==> after.contains(c)
        }),
{
    broadcast use group_filter_ensures;

    let targets = sessions.filter(owned_by(owner));
    let keep = survives(targets, delivered);
    let after = sessions.filter(keep);
    lemma_filter_unique(sessions, owned_by(owner));
    lemma_broadcast_isolates_owners(sessions, owner, if owner == 0 { 1i64 } else { 0i64 });
    assert forall|j: int| 0 <= j < targets.len() && !delivered[j] implies !#[trigger] after.contains(
        targets[j],
    ) by {
        if after.contains(targets[j]) {
            sessions.lemma_filter_contains_rev(keep, targets[j]);
            assert(write_failed(targets, delivered, targets[j]));
        }
    }
    assert forall|j: int| 0 <= j < targets.len() && #[trigger] delivered[j] implies after.contains(
        targets[j],
    ) by {
        assert(targets.contains(targets[j]));
        assert(!write_failed(targets, delivered, targets[j]));
        let k = choose|k: int| 0 <= k < sessions.len() && sessions[k] == targets[j];
        sessions.lemma_filter_contains(keep, k);
    }
    assert forall|c: WebSocketClient| #[trigger] sessions.contains(c) && c.user_id != owner implies after.contains(c) by {
        if write_failed(targets, delivered, c) {
            let j = choose|j: int| 0 <= j < targets.len() && targets[j] == c && !delivered[j];
            assert(targets.contains(c));
        }
        let k = choose|k: int| 0 <= k < sessions.len() && sessions[k] == c;
        sessions.lemma_filter_contains(keep, k);
    }
}

pub struct WebSocketManager {
    clients: Vec<WebSocketClient>,
    next_id: i64,
}

impl WebSocketManager {
    /// The live sessions, in order of registration.
    pub closed spec fn view(&self) -> Seq<WebSocketClient> {
        self.clients@
    }

    /// Session ids are handed out from a counter: they grow along the
    /// registry and stay below the counter, so no key occurs twice.
    pub closed spec fn wf(&self) -> bool {
        &&& 0 <= self.next_id
        &&& forall|i: int|
            0 <= i < self.clients@.len() ==> 0 <= #[trigger] self.clients@[i].client_id
                < self.next_id
        &&& forall|i: int, j: int|
            0 <= i < j < self.clients@.len() ==> #[trigger] self.clients@[i].client_id
                < #[trigger] self.clients@[j].client_id
    }

    /// The next session id to hand out; every id handed out so far is
    /// below it.
    pub closed spec fn next_id(&self) -> i64 {
        self.next_id
    }

    /// Another session id can be handed out.
    pub open spec fn can_add(&self) -> bool {
        self.next_id() < i64::MAX
    }

    /// Every live session id is below the counter.
    pub proof fn lemma_ids_below_counter(&self)
        requires
            self.wf(),
        ensures
            forall|i: int| 0 <= i < self@.len() ==> 0 <= #[trigger] self@[i].client_id < self.next_id(),
    {
    }

    pub fn new() -> (r: Self)
        ensures
            r.wf(),
            r@ == Seq::<WebSocketClient>::empty(),
            r.next_id() == 0,
    {
        WebSocketManager { clients: Vec::new(), next_id: 0 }
    }

    /// Whether another session can be registered.
    pub fn has_capacity(&self) -> (r: bool)
        ensures
            r == self.can_add(),
    {
        self.next_id < i64::MAX
    }

    /// The number of live sessions.
    pub fn session_count(&self) -> (r: usize)
        ensures
            r == self@.len(),
    {
        self.clients.len()
    }

    /// Registers a session of `user_id` and returns its fresh id; the
    /// session is reachable by broadcasts from now on.
    pub fn add_client(&mut self, user_id: i64) -> (client_id: i64)
        requires
            old(self).wf(),
            old(self).can_add(),
        ensures
            final(self).wf(),
            client_id == old(self).next_id(),
            final(self).next_id() == old(self).next_id() + 1,
            !old(self)@.contains(WebSocketClient { user_id, client_id }),
            final(self)@ == old(self)@.push(WebSocketClient { user_id, client_id }),
    {
        let client_id = self.next_id;
        let key = WebSocketClient { user_id, client_id };
        proof {
            if old(self)@.contains(key) {
                let i = choose|i: int| 0 <= i < old(self)@.len() && old(self)@[i] == key;
                assert(old(self).clients@[i].client_id < old(self).next_id);
            }
        }
        self.clients.push(key);
        self.next_id = self.next_id + 1;
        client_id
    }

    /// Removes the session `(user_id, client_id)`; an unknown key leaves
    /// the registry as it is.
    pub fn remove_client(&mut self, user_id: i64, client_id: i64)
        requires
            old(self).wf(),
        ensures
            final(self).wf(),
            final(self)@ == old(self)@.filter(other_than(WebSocketClient { user_id, client_id })),
            final(self).next_id() == old(self).next_id(),
    {
        let key = WebSocketClient { user_id, client_id };
        let ghost keep = other_than(key);
        let mut kept: Vec<WebSocketClient> = Vec::new();
        let mut i: usize = 0;
        while i < self.clients.len()
            invariant
                self.wf(),
                self@ == old(self)@,
                keep == other_than(key),
                i <= self.clients@.len(),
                kept@ == self.clients@.take(i as int).filter(keep),
                forall|a: int, b: int|
                    0 <= a < b < kept@.len() ==> #[trigger] kept@[a].client_id
                        < #[trigger] kept@[b].client_id,
                forall|a: int|
                    0 <= a < kept@.len() ==> 0 <= #[trigger] kept@[a].client_id < self.next_id,
                forall|a: int, b: int|
                    0 <= a < kept@.len() && i <= b < self.clients@.len() ==> #[trigger] kept@[a].client_id
                        < #[trigger] self.clients@[b].client_id,
            decreases self.clients.len() - i,
        {
            let c = self.clients[i];
            proof {
                assert(self.clients@.take(i + 1) == self.clients@.take(i as int).push(c));
                self.clients@.take(i as int).lemma_filter_push(c, keep);
            }
            if c != key {
                kept.push(c);
            }
            i = i + 1;
        }
        proof {
            assert(self.clients@.take(i as int) == self.clients@);
        }
        self.clients = kept;
    }

    /// The key `(user_id, client_id)`, when that session is live.
    pub fn get_client(&self, user_id: i64, client_id: i64) -> (r: Option<WebSocketClient>)
        ensures
            r.is_some() == self@.contains(WebSocketClient { user_id, client_id }),
            r.is_some() ==> r == Some(WebSocketClient { user_id, client_id }),
    {
        let key = WebSocketClient { user_id, client_id };
        let mut i: usize = 0;
        while i < self.clients.len()
            invariant
                key == (WebSocketClient { user_id, client_id }),
                i <= self.clients@.len(),
                forall|a: int| 0 <= a < i ==> self.clients@[a] != key,
            decreases self.clients.len() - i,
        {
            if self.clients[i] == key {
                proof {
                    assert(self@[i as int] == key);
                }
                return Some(key);
            }
            i = i + 1;
        }
        None
    }

    /// Every live session of `user_id`, in order of registration.
    fn sessions_of(&self, user_id: i64) -> (r: Vec<WebSocketClient>)
        ensures
            r@ == self@.filter(owned_by(user_id)),
    {
        let ghost keep = owned_by(user_id);
        let mut out: Vec<WebSocketClient> = Vec::new();
        let mut i: usize = 0;
        while i < self.clients.len()
            invariant
                keep == owned_by(user_id),
                i <= self.clients@.len(),
                out@ == self.clients@.take(i as int).filter(keep),
            decreases self.clients.len() - i,
        {
            let c = self.clients[i];
            proof {
                assert(self.clients@.take(i + 1) == self.clients@.take(i as int).push(c));
                self.clients@.take(i as int).lemma_filter_push(c, keep);
            }
            if c.user_id == user_id {
                out.push(c);
            }
            i = i + 1;
        }
        proof {
            assert(self.clients@.take(i as int) == self.clients@);
        }
        out
    }

    /// Addresses `message` to every live session of `user_id` and to no
    /// other session.
    pub fn broadcast_to_user(&self, user_id: i64, message: WebSocketMessage) -> (b: Broadcast)
        ensures
            b.message == message,
            b.targets@ == self@.filter(owned_by(user_id)),
    {
        Broadcast { message, targets: self.sessions_of(user_id) }
    }

    /// Addresses `message` to the one session `(user_id, client_id)`, when
    /// it is live, and to no other.
    pub fn send_to_client(&self, user_id: i64, client_id: i64, message: WebSocketMessage) -> (b:
        Broadcast)
        ensures
            b.message == message,
            self@.contains(WebSocketClient { user_id, client_id }) ==> b.targets@ == seq![
                WebSocketClient { user_id, client_id },
            ],
            !self@.contains(WebSocketClient { user_id, client_id }) ==> b.targets@.len() == 0,
    {
        let mut targets: Vec<WebSocketClient> = Vec::new();
        match self.get_client(user_id, client_id) {
            Some(key) => targets.push(key),
            None => {},
        }
        Broadcast { message, targets }
    }

    /// Addresses `message` to every live session.
    pub fn broadcast_to_all(&self, message: WebSocketMessage) -> (b: Broadcast)
        ensures
            b.message == message,
            b.targets@ == self@,
    {
        Broadcast { message, targets: self.clients.clone() }
    }

    /// Removes every session whose write failed: `delivered[j]` tells
    /// whether the write to `targets[j]` went through.
    pub fn drop_failed(&mut self, targets: &Vec<WebSocketClient>, delivered: &Vec<bool>)
        requires
            old(self).wf(),
            targets@.len() == delivered@.len(),
        ensures
            final(self).wf(),
            final(self)@ == old(self)@.filter(survives(targets@, delivered@)),
            final(self).next_id() == old(self).next_id(),
    {
        let ghost keep = survives(targets@, delivered@);
        let mut kept: Vec<WebSocketClient> = Vec::new();
        let mut i: usize = 0;
        while i < self.clients.len()
            invariant
                self.wf(),
                self@ == old(self)@,
                keep == survives(targets@, delivered@),
                targets@.len() == delivered@.len(),
                i <= self.clients@.len(),
                kept@ == self.clients@.take(i as int).filter(keep),
                forall|a: int, b: int|
                    0 <= a < b < kept@.len() ==> #[trigger] kept@[a].client_id
                        < #[trigger] kept@[b].client_id,
                forall|a: int|
                    0 <= a < kept@.len() ==> 0 <= #[trigger] kept@[a].client_id < self.next_id,
                forall|a: int, b: int|
                    0 <= a < kept@.len() && i <= b < self.clients@.len() ==> #[trigger] kept@[a].client_id
                        < #[trigger] self.clients@[b].client_id,
            decreases self.clients.len() - i,
        {
            let c = self.clients[i];
            proof {
                assert(self.clients@.take(i + 1) == self.clients@.take(i as int).push(c));
                self.clients@.take(i as int).lemma_filter_push(c, keep);
            }
            if !failed_write(targets, delivered, c) {
                kept.push(c);
            }
            i = i + 1;
        }
        proof {
            assert(self.clients@.take(i as int) == self.clients@);
        }
        self.clients = kept;
    }

    /// No session key occurs twice.
    pub proof fn lemma_keys_unique(&self)
        requires
            self.wf(),
        ensures
            self@.no_duplicates(),
    {
        assert forall|i: int, j: int|
            0 <= i < self@.len() && 0 <= j < self@.len() && i != j implies self@[i] != self@[j] by {
            if i < j {
                assert(self.clients@[i].client_id < self.clients@[j].client_id);
            } else {
                assert(self.clients@[j].client_id < self.clients@[i].client_id);
            }
        }
    }
}

} // verus!
