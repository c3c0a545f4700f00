//! Owner-scoped tables of records: status pages, maintenance windows, API
//! keys, docker hosts and remote browsers each live in one. Ids are handed
//! out from a counter; every read is scoped by owner.
use vstd::prelude::*;
use crate::model::{
    AppError, ApiKey, DockerHost, Maintenance, Monitor, Notification, RemoteBrowser, StatusPage,
};

verus! {

/// A record that belongs to one owner and has an id.
pub trait Owned: Sized {
    spec fn owner(&self) -> i64;

    spec fn key(&self) -> i64;

    /// The record with its id replaced by `id`.
    spec fn with_key(self, id: i64) -> Self;

    fn owner_id(&self) -> (r: i64)
        ensures
            r == self.owner(),
    ;

    fn record_id(&self) -> (r: i64)
        ensures
            r == self.key(),
    ;

    /// An equal copy.
    fn copy(&self) -> (r: Self)
        ensures
            r == *self,
    ;

    /// The record with its id replaced by `id`.
    fn keyed(self, id: i64) -> (r: Self)
        ensures
            r == self.with_key(id),
            r.key() == id,
            r.owner() == self.owner(),
    ;
}

impl Owned for Monitor {
    open spec fn owner(&self) -> i64 {
        self.user_id
    }

    open spec fn key(&self) -> i64 {
        self.id
    }

    open spec fn with_key(self, id: i64) -> Self {
        Monitor { id, ..self }
    }

    fn owner_id(&self) -> (r: i64) {
        self.user_id
    }

    fn record_id(&self) -> (r: i64) {
        self.id
    }

    fn copy(&self) -> (r: Self) {
        self.duplicate()
    }

    fn keyed(self, id: i64) -> (r: Self) {
        Monitor { id, ..self }
    }
}

impl Owned for Notification {
    open spec fn owner(&self) -> i64 {
        self.user_id
    }

    open spec fn key(&self) -> i64 {
        self.id
    }

    open spec fn with_key(self, id: i64) -> Self {
        Notification { id, ..self }
    }

    fn owner_id(&self) -> (r: i64) {
        self.user_id
    }

    fn record_id(&self) -> (r: i64) {
        self.id
    }

    fn copy(&self) -> (r: Self) {
        self.duplicate()
    }

    fn keyed(self, id: i64) -> (r: Self) {
        Notification { id, ..self }
    }
}

impl Owned for StatusPage {
    open spec fn owner(&self) -> i64 {
        self.user_id
    }

    open spec fn key(&self) -> i64 {
        self.id
    }

    open spec fn with_key(self, id: i64) -> Self {
        StatusPage { id, ..self }
    }

    fn owner_id(&self) -> (r: i64) {
        self.user_id
    }

    fn record_id(&self) -> (r: i64) {
        self.id
    }

    fn copy(&self) -> (r: Self) {
        StatusPage {
            id: self.id,
            user_id: self.user_id,
            name: self.name.clone(),
            slug: self.slug.clone(),
            config: self.config.clone(),
        }
    }

    fn keyed(self, id: i64) -> (r: Self) {
        StatusPage { id, ..self }
    }
}

impl Owned for Maintenance {
    open spec fn owner(&self) -> i64 {
        self.user_id
    }

    open spec fn key(&self) -> i64 {
        self.id
    }

    open spec fn with_key(self, id: i64) -> Self {
        Maintenance { id, ..self }
    }

    fn owner_id(&self) -> (r: i64) {
        self.user_id
    }

    fn record_id(&self) -> (r: i64) {
        self.id
    }

    fn copy(&self) -> (r: Self) {
        Maintenance {
            id: self.id,
            user_id: self.user_id,
            name: self.name.clone(),
            status: self.status.clone(),
            start_time: self.start_time,
            end_time: self.end_time,
        }
    }

    fn keyed(self, id: i64) -> (r: Self) {
        Maintenance { id, ..self }
    }
}

impl Owned for ApiKey {
    open spec fn owner(&self) -> i64 {
        self.user_id
    }

    open spec fn key(&self) -> i64 {
        self.id
    }

    open spec fn with_key(self, id: i64) -> Self {
        ApiKey { id, ..self }
    }

    fn owner_id(&self) -> (r: i64) {
        self.user_id
    }

    fn record_id(&self) -> (r: i64) {
        self.id
    }

    fn copy(&self) -> (r: Self) {
        ApiKey {
            id: self.id,
            user_id: self.user_id,
            name: self.name.clone(),
            key: self.key.clone(),
            created_at: self.created_at,
        }
    }

    fn keyed(self, id: i64) -> (r: Self) {
        ApiKey { id, ..self }
    }
}

impl Owned for DockerHost {
    open spec fn owner(&self) -> i64 {
        self.user_id
    }

    open spec fn key(&self) -> i64 {
        self.id
    }

    open spec fn with_key(self, id: i64) -> Self {
        DockerHost { id, ..self }
    }

    fn owner_id(&self) -> (r: i64) {
        self.user_id
    }

    fn record_id(&self) -> (r: i64) {
        self.id
    }

    fn copy(&self) -> (r: Self) {
        DockerHost {
            id: self.id,
            user_id: self.user_id,
            name: self.name.clone(),
            url: self.url.clone(),
            status: self.status.clone(),
        }
    }

    fn keyed(self, id: i64) -> (r: Self) {
        DockerHost { id, ..self }
    }
}

impl Owned for RemoteBrowser {
    open spec fn owner(&self) -> i64 {
        self.user_id
    }

    open spec fn key(&self) -> i64 {
        self.id
    }

    open spec fn with_key(self, id: i64) -> Self {
        RemoteBrowser { id, ..self }
    }

    fn owner_id(&self) -> (r: i64) {
        self.user_id
    }

    fn record_id(&self) -> (r: i64) {
        self.id
    }

    fn copy(&self) -> (r: Self) {
        RemoteBrowser {
            id: self.id,
            user_id: self.user_id,
            name: self.name.clone(),
            url: self.url.clone(),
            status: self.status.clone(),
        }
    }

    fn keyed(self, id: i64) -> (r: Self) {
        RemoteBrowser { id, ..self }
    }
}

/// The record `id` of owner `user_id`, if there is one.
pub open spec fn find_row<T: Owned>(rows: Seq<T>, id: i64, user_id: i64) -> Option<T> {
    if exists|i: int| 0 <= i < rows.len() && rows[i].key() == id && rows[i].owner() == user_id {
        Some(rows[choose|i: int| 0 <= i < rows.len() && rows[i].key() == id && rows[i].owner() == user_id])
    } else {
        None
    }
}

/// Holds of the records of `user_id`.
pub open spec fn row_of<T: Owned>(user_id: i64) -> spec_fn(T) -> bool {
    |x: T| x.owner() == user_id
}

pub struct Table<T> {
    rows: Vec<T>,
    next_id: i64,
}

impl<T: Owned> Table<T> {
    /// The records, oldest first.
    pub closed spec fn rows(&self) -> Seq<T> {
        self.rows@
    }

    /// The next id to hand out; every id is below it.
    pub closed spec fn counter(&self) -> i64 {
        self.next_id
    }

    /// Ids grow along the table and stay below the counter.
    pub closed spec fn wf(&self) -> bool {
        &&& 1 <= self.next_id
        &&& forall|i: int|
            0 <= i < self.rows@.len() ==> 1 <= #[trigger] self.rows@[i].key() < self.next_id
        &&& forall|i: int, j: int|
            0 <= i < j < self.rows@.len() ==> #[trigger] self.rows@[i].key()
                < #[trigger] self.rows@[j].key()
    }

    /// Another id can be handed out.
    pub open spec fn can_add(&self) -> bool {
        self.counter() < i64::MAX
    }

    pub fn new() -> (r: Self)
        ensures
            r.wf(),
            r.rows() == Seq::<T>::empty(),
            r.counter() == 1,
    {
        Table { rows: Vec::new(), next_id: 1 }
    }

    fn index_of(&self, id: i64, user_id: i64) -> (r: Option<usize>)
        requires
            self.wf(),
        ensures
            match r {
                Some(i) => i < self.rows@.len() && self.rows@[i as int].key() == id
                    && find_row(self.rows@, id, user_id) == Some(self.rows@[i as int]),
                None => find_row(self.rows@, id, user_id).is_none(),
            },
    {
        let mut i: usize = 0;
        while i < self.rows.len()
            invariant
                self.wf(),
                i <= self.rows@.len(),
                forall|a: int|
                    0 <= a < i ==> !(self.rows@[a].key() == id && self.rows@[a].owner() == user_id),
            decreases self.rows.len() - i,
        {
            if self.rows[i].record_id() == id && self.rows[i].owner_id() == user_id {
                proof {
                    let k = choose|k: int|
                        0 <= k < self.rows@.len() && self.rows@[k].key() == id
                            && self.rows@[k].owner() == user_id;
                    if k != i {
                        if k < i {
                            assert(self.rows@[k].key() < self.rows@[i as int].key());
                        } else {
                            assert(self.rows@[i as int].key() < self.rows@[k].key());
                        }
                    }
                }
                return Some(i);
            }
            i = i + 1;
        }
        None
    }

    /// Stores `row` under a fresh id; `DatabaseError` when ids have run
    /// out.
    pub fn insert(&mut self, row: T) -> (r: Result<T, AppError>)
        requires
            old(self).wf(),
        ensures
            final(self).wf(),
            old(self).can_add() ==> (r matches Ok(x) && x == row.with_key(old(self).counter())
                && final(self).rows() == old(self).rows().push(x) && final(self).counter() == old(
                self).counter() + 1),
            !old(self).can_add() ==> (r matches Err(AppError::DatabaseError) && final(self).rows()
                == old(self).rows() && final(self).counter() == old(self).counter()),
    {
        if self.next_id == i64::MAX {
            return Err(AppError::DatabaseError);
        }
        let id = self.next_id;
        let x = row.keyed(id);
        let out = x.copy();
        self.rows.push(x);
        self.next_id = id + 1;
        Ok(out)
    }

    /// The record `id` if `user_id` owns it.
    pub fn get(&self, id: i64, user_id: i64) -> (r: Option<T>)
        requires
            self.wf(),
        ensures
            r == find_row(self.rows(), id, user_id),
    {
        match self.index_of(id, user_id) {
            Some(i) => Some(self.rows[i].copy()),
            None => None,
        }
    }

    /// The records of `user_id`, oldest first.
    pub fn list(&self, user_id: i64) -> (r: Vec<T>)
        ensures
            r@ == self.rows().filter(row_of(user_id)),
    {
        let ghost keep = row_of::<T>(user_id);
        let mut out: Vec<T> = Vec::new();
        let mut i: usize = 0;
        while i < self.rows.len()
            invariant
                keep == row_of::<T>(user_id),
                i <= self.rows@.len(),
                out@ == self.rows@.take(i as int).filter(keep),
            decreases self.rows.len() - i,
        {
            let ghost c = self.rows@[i as int];
            proof {
                assert(self.rows@.take(i + 1) == self.rows@.take(i as int).push(c));
                self.rows@.take(i as int).lemma_filter_push(c, keep);
            }
            if self.rows[i].owner_id() == user_id {
                out.push(self.rows[i].copy());
            }
            i = i + 1;
        }
        proof {
            assert(self.rows@.take(i as int) == self.rows@);
        }
        out
    }

    /// Removes record `id` of `user_id`; whether there was one.
    pub fn remove(&mut self, id: i64, user_id: i64) -> (r: bool)
        requires
            old(self).wf(),
        ensures
            final(self).wf(),
            final(self).counter() == old(self).counter(),
            r == find_row(old(self).rows(), id, user_id).is_some(),
            r ==> exists|i: int|
                0 <= i < old(self).rows().len() && old(self).rows()[i].key() == id && final(self).rows()
                    == old(self).rows().remove(i),
            !r ==> final(self).rows() == old(self).rows(),
    {
        match self.index_of(id, user_id) {
            None => false,
            Some(i) => {
                let _gone = self.rows.remove(i);
                proof {
                    assert(self.rows@ == old(self).rows().remove(i as int));
                }
                true
            },
        }
    }
}

/// The tables of the entity kinds that have no logic of their own.
pub struct EntityTables {
    pub status_pages: Table<StatusPage>,
    pub maintenances: Table<Maintenance>,
    pub api_keys: Table<ApiKey>,
    pub docker_hosts: Table<DockerHost>,
    pub remote_browsers: Table<RemoteBrowser>,
}

impl EntityTables {
    pub open spec fn wf(&self) -> bool {
        &&& self.status_pages.wf()
        &&& self.maintenances.wf()
        &&& self.api_keys.wf()
        &&& self.docker_hosts.wf()
        &&& self.remote_browsers.wf()
    }

    /// Empty tables.
    pub fn new() -> (r: Self)
        ensures
            r.wf(),
            r.status_pages.rows().len() == 0,
            r.maintenances.rows().len() == 0,
            r.api_keys.rows().len() == 0,
            r.docker_hosts.rows().len() == 0,
            r.remote_browsers.rows().len() == 0,
    {
        EntityTables {
            status_pages: Table::new(),
            maintenances: Table::new(),
            api_keys: Table::new(),
            docker_hosts: Table::new(),
            remote_browsers: Table::new(),
        }
    }
}

} // verus!
