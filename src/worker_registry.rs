use dashmap::DashMap;
use vstd::prelude::*;

verus! {

/// A connected worker: its identity, its network address and the number of
/// execution slots it last reported free.
#[derive(Clone, Debug)]
pub struct Worker {
    pub id: String,
    pub address: String,
    pub available_slots: i32,
}

impl Worker {
    /// A field-by-field copy.
    pub fn duplicate(&self) -> (r: Worker)
        ensures
            r == *self,
    {
        Worker {
            id: self.id.clone(),
            address: self.address.clone(),
            available_slots: self.available_slots,
        }
    }
}

/// The worker `w` with its slot count replaced by `slots`.
pub open spec fn with_slots(w: Worker, slots: i32) -> Worker {
    Worker { id: w.id, address: w.address, available_slots: slots }
}

/// The table `m` after the slot count of `id` is overwritten with `slots`:
/// unchanged when `id` is unknown.
pub open spec fn updated_slots(m: Map<Seq<char>, Worker>, id: Seq<char>, slots: i32) -> Map<Seq<char>, Worker> {
    if m.contains_key(id) {
        m.insert(id, with_slots(m[id], slots))
    } else {
        m
    }
}

/// What a worker table holds: identity to worker.
pub uninterp spec fn worker_entries(m: DashMap<String, Worker>) -> Map<Seq<char>, Worker>;

/// Relies on DashMap::new: a new map holds no entries.
#[verifier::external_body]
fn worker_map_new() -> (r: DashMap<String, Worker>)
    ensures
        worker_entries(r).dom() == Set::<Seq<char>>::empty(),
{
    DashMap::new()
}

/// Relies on DashMap::insert: the key is bound to the value, replacing any
/// earlier binding.
#[verifier::external_body]
fn worker_map_insert(m: &mut DashMap<String, Worker>, k: String, v: Worker)
    ensures
        worker_entries(*final(m)) == worker_entries(*old(m)).insert(k@, v),
{
    m.insert(k, v);
}

/// Relies on DashMap::remove: the key's binding, if any, is gone afterwards.
#[verifier::external_body]
fn worker_map_remove(m: &mut DashMap<String, Worker>, k: &str)
    ensures
        worker_entries(*final(m)) == worker_entries(*old(m)).remove(k@),
{
    m.remove(k);
}

/// Relies on DashMap::get: the value bound to the key, if any, cloned out of
/// the read guard.
#[verifier::external_body]
fn worker_map_get(m: &DashMap<String, Worker>, k: &str) -> (r: Option<Worker>)
    ensures
        r == (if worker_entries(*m).contains_key(k@) {
            Some(worker_entries(*m)[k@])
        } else {
            None::<Worker>
        }),
{
    m.get(k).map(|e| e.value().clone())
}

/// Relies on DashMap::len: the number of entries.
#[verifier::external_body]
fn worker_map_len(m: &DashMap<String, Worker>) -> (r: usize)
    ensures
        r as int == worker_entries(*m).len(),
{
    m.len()
}

/// Relies on DashMap::contains_key.
#[verifier::external_body]
fn worker_map_contains(m: &DashMap<String, Worker>, k: &str) -> (r: bool)
    ensures
        r == worker_entries(*m).contains_key(k@),
{
    m.contains_key(k)
}

/// Relies on DashMap::iter: every entry is visited exactly once, in an order
/// that the map's hasher decides; each is cloned out of its guard.
#[verifier::external_body]
fn worker_map_snapshot(m: &DashMap<String, Worker>) -> (r: Vec<(String, Worker)>)
    ensures
        forall|i: int|
            0 <= i < r@.len() ==> worker_entries(*m).contains_key(#[trigger] r@[i].0@)
                && worker_entries(*m)[r@[i].0@] == r@[i].1,
        forall|i: int, j: int| 0 <= i < j < r@.len() ==> r@[i].0@ != r@[j].0@,
        forall|k: Seq<char>|
            #[trigger] worker_entries(*m).contains_key(k) ==> exists|i: int|
                0 <= i < r@.len() && r@[i].0@ == k,
{
    m.iter().map(|e| (e.key().clone(), e.value().clone())).collect()
}

/// The table of known workers, keyed by worker identity.
pub struct WorkerRegistry {
    workers: DashMap<String, Worker>,
}

impl View for WorkerRegistry {
    type V = Map<Seq<char>, Worker>;

    closed spec fn view(&self) -> Map<Seq<char>, Worker> {
        worker_entries(self.workers)
    }
}

impl WorkerRegistry {
    /// Every entry is keyed by the identity of the worker it holds.
    pub open spec fn wf(&self) -> bool {
        forall|k: Seq<char>| #[trigger] self@.contains_key(k) ==> self@[k].id@ == k
    }

    pub fn new() -> (r: WorkerRegistry)
        ensures
            r@.dom() == Set::<Seq<char>>::empty(),
            r.wf(),
    {
        WorkerRegistry { workers: worker_map_new() }
    }

    /// Inserts the worker under its identity, replacing any earlier entry.
    pub fn register_worker(&mut self, worker: Worker)
        requires
            old(self).wf(),
        ensures
            final(self).wf(),
            final(self)@ == old(self)@.insert(worker.id@, worker),
    {
        let ghost w = worker;
        let id = worker.id.clone();
        worker_map_insert(&mut self.workers, id, worker);
        proof {
            assert forall|k: Seq<char>| #[trigger] self@.contains_key(k) implies self@[k].id@ == k by {
                if k != w.id@ {
                    assert(old(self)@.contains_key(k));
                }
            }
        }
    }

    /// Overwrites the slot count of a known worker; an unknown identity
    /// leaves the registry as it is.
    pub fn update_worker_slots(&mut self, worker_id: &str, available_slots: i32)
        requires
            old(self).wf(),
        ensures
            final(self).wf(),
            final(self)@ == updated_slots(old(self)@, worker_id@, available_slots),
    {
        match worker_map_get(&self.workers, worker_id) {
            Some(mut worker) => {
                worker.available_slots = available_slots;
                let key = worker_id.to_owned();
                proof {
                    assert(old(self)@[worker_id@].id@ == worker_id@);
                }
                worker_map_insert(&mut self.workers, key, worker);
                proof {
                    assert forall|k: Seq<char>| #[trigger] self@.contains_key(k) implies self@[k].id@ == k by {
                        if k != worker_id@ {
                            assert(old(self)@.contains_key(k));
                        }
                    }
                }
            },
            None => {},
        }
    }

    /// The first worker met with a free slot, or `None` when no worker has one.
    pub fn get_available_worker(&self) -> (r: Option<Worker>)
        requires
            self.wf(),
        ensures
            match r {
                Some(w) => self@.contains_key(w.id@) && self@[w.id@] == w && w.available_slots > 0,
                None => forall|k: Seq<char>|
                    #[trigger] self@.contains_key(k) ==> self@[k].available_slots <= 0,
            },
    {
        let entries = worker_map_snapshot(&self.workers);
        let n = entries.len();
        let mut i: usize = 0;
        while i < n
            invariant
                n == entries@.len(),
                0 <= i <= n,
                self.wf(),
                forall|j: int| 0 <= j < i ==> (#[trigger] entries@[j]).1.available_slots <= 0,
                forall|j: int|
                    0 <= j < entries@.len() ==> self@.contains_key(#[trigger] entries@[j].0@)
                        && self@[entries@[j].0@] == entries@[j].1,
                forall|k: Seq<char>|
                    #[trigger] self@.contains_key(k) ==> exists|j: int|
                        0 <= j < entries@.len() && entries@[j].0@ == k,
            decreases n - i,
        {
            if entries[i].1.available_slots > 0 {
                let w = entries[i].1.duplicate();
                proof {
                    assert(self@.contains_key(entries@[i as int].0@));
                    assert(self@[entries@[i as int].0@].id@ == entries@[i as int].0@);
                }
                return Some(w);
            }
            i = i + 1;
        }
        proof {
            assert forall|k: Seq<char>| #[trigger] self@.contains_key(k) implies self@[k].available_slots <= 0 by {
                let j = choose|j: int| 0 <= j < entries@.len() && entries@[j].0@ == k;
                assert(entries@[j].1.available_slots <= 0);
            }
        }
        None
    }

    /// The worker registered under `worker_id`, if any.
    pub fn get_worker(&self, worker_id: &str) -> (r: Option<Worker>)
        ensures
            r == (if self@.contains_key(worker_id@) {
                Some(self@[worker_id@])
            } else {
                None::<Worker>
            }),
    {
        worker_map_get(&self.workers, worker_id)
    }

    /// Every registered worker, once each, in no meaningful order.
    pub fn list_workers(&self) -> (r: Vec<Worker>)
        requires
            self.wf(),
        ensures
            forall|i: int|
                0 <= i < r@.len() ==> self@.contains_key(#[trigger] r@[i].id@) && self@[r@[i].id@]
                    == r@[i],
            forall|i: int, j: int| 0 <= i < j < r@.len() ==> r@[i].id@ != r@[j].id@,
            forall|k: Seq<char>|
                #[trigger] self@.contains_key(k) ==> exists|i: int| 0 <= i < r@.len() && r@[i].id@ == k,
    {
        let entries = worker_map_snapshot(&self.workers);
        let n = entries.len();
        let mut out: Vec<Worker> = Vec::new();
        let mut i: usize = 0;
        while i < n
            invariant
                n == entries@.len(),
                0 <= i <= n,
                out@.len() == i,
                self.wf(),
                forall|j: int|
                    0 <= j < entries@.len() ==> self@.contains_key(#[trigger] entries@[j].0@)
                        && self@[entries@[j].0@] == entries@[j].1,
                forall|j: int, l: int| 0 <= j < l < entries@.len() ==> entries@[j].0@ != entries@[l].0@,
                forall|j: int| 0 <= j < i ==> #[trigger] out@[j] == entries@[j].1,
            decreases n - i,
        {
            let w = entries[i].1.duplicate();
            out.push(w);
            i = i + 1;
        }
        proof {
            assert forall|j: int| 0 <= j < out@.len() implies self@.contains_key(#[trigger] out@[j].id@)
                && self@[out@[j].id@] == out@[j] by {
                assert(out@[j] == entries@[j].1);
                assert(self@[entries@[j].0@].id@ == entries@[j].0@);
            }
            assert forall|j: int, l: int| 0 <= j < l < out@.len() implies out@[j].id@ != out@[l].id@ by {
                assert(out@[j] == entries@[j].1);
                assert(out@[l] == entries@[l].1);
                assert(self@[entries@[j].0@].id@ == entries@[j].0@);
                assert(self@[entries@[l].0@].id@ == entries@[l].0@);
            }
            assert forall|k: Seq<char>| #[trigger] self@.contains_key(k) implies exists|j: int|
                0 <= j < out@.len() && out@[j].id@ == k by {
                let j = choose|j: int| 0 <= j < entries@.len() && entries@[j].0@ == k;
                assert(out@[j] == entries@[j].1);
                assert(self@[entries@[j].0@].id@ == entries@[j].0@);
            }
        }
        out
    }

    pub fn worker_exists(&self, worker_id: &str) -> (r: bool)
        ensures
            r == self@.contains_key(worker_id@),
    {
        worker_map_contains(&self.workers, worker_id)
    }

    /// Deletes the worker's entry; removing an unknown identity changes nothing.
    pub fn remove_worker(&mut self, worker_id: &str)
        requires
            old(self).wf(),
        ensures
            final(self).wf(),
            final(self)@ == old(self)@.remove(worker_id@),
    {
        worker_map_remove(&mut self.workers, worker_id);
        proof {
            assert forall|k: Seq<char>| #[trigger] self@.contains_key(k) implies self@[k].id@ == k by {
                assert(old(self)@.contains_key(k));
            }
        }
    }

    /// How many workers are registered.
    pub fn worker_count(&self) -> (r: usize)
        ensures
            r as int == self@.len(),
    {
        worker_map_len(&self.workers)
    }
}

impl Default for WorkerRegistry {
    fn default() -> (r: WorkerRegistry)
        ensures
            r@.dom() == Set::<Seq<char>>::empty(),
            r.wf(),
    {
        WorkerRegistry::new()
    }
}

} // verus!
