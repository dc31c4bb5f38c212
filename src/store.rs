use crate::ids::fresh_uuid;
use crate::task::TaskProgress;
use dashmap::DashMap;
use vstd::prelude::*;

verus! {

/// What a progress table holds: task identity to its recorded events, in
/// order of receipt.
pub uninterp spec fn progress_entries(m: DashMap<String, Vec<TaskProgress>>) -> Map<
    Seq<char>,
    Seq<TaskProgress>,
>;

/// Relies on DashMap::new: a new map holds no entries.
#[verifier::external_body]
fn progress_map_new() -> (r: DashMap<String, Vec<TaskProgress>>)
    ensures
        progress_entries(r).dom() == Set::<Seq<char>>::empty(),
{
    DashMap::new()
}

/// Relies on DashMap::insert: the key is bound to the value, replacing any
/// earlier binding.
#[verifier::external_body]
fn progress_map_insert(m: &mut DashMap<String, Vec<TaskProgress>>, k: String, v: Vec<TaskProgress>)
    ensures
        progress_entries(*final(m)) == progress_entries(*old(m)).insert(k@, v@),
{
    m.insert(k, v);
}

/// Relies on DashMap::remove: takes the key's binding out of the map and
/// hands back the stored key and value.
#[verifier::external_body]
fn progress_map_remove(m: &mut DashMap<String, Vec<TaskProgress>>, k: &str) -> (r: Option<
    (String, Vec<TaskProgress>),
>)
    ensures
        progress_entries(*final(m)) == progress_entries(*old(m)).remove(k@),
        match r {
            Some(p) => progress_entries(*old(m)).contains_key(k@) && p.0@ == k@ && p.1@
                == progress_entries(*old(m))[k@],
            None => !progress_entries(*old(m)).contains_key(k@),
        },
{
    m.remove(k)
}

/// Relies on DashMap::get: the events bound to the key, if any, cloned out
/// of the read guard.
#[verifier::external_body]
fn progress_map_get(m: &DashMap<String, Vec<TaskProgress>>, k: &str) -> (r: Option<
    Vec<TaskProgress>,
>)
    ensures
        match r {
            Some(v) => progress_entries(*m).contains_key(k@) && v@ == progress_entries(*m)[k@],
            None => !progress_entries(*m).contains_key(k@),
        },
{
    m.get(k).map(|e| e.value().clone())
}

/// Relies on DashMap::contains_key.
#[verifier::external_body]
fn progress_map_contains(m: &DashMap<String, Vec<TaskProgress>>, k: &str) -> (r: bool)
    ensures
        r == progress_entries(*m).contains_key(k@),
{
    m.contains_key(k)
}

/// The events recorded for `t` in `m`: none when `t` is unknown.
pub open spec fn history_in(m: Map<Seq<char>, Seq<TaskProgress>>, t: Seq<char>) -> Seq<TaskProgress> {
    if m.contains_key(t) {
        m[t]
    } else {
        Seq::empty()
    }
}

/// Known tasks and the progress events recorded for each.
pub struct TaskStore {
    task_progress: DashMap<String, Vec<TaskProgress>>,
}

impl View for TaskStore {
    type V = Map<Seq<char>, Seq<TaskProgress>>;

    closed spec fn view(&self) -> Map<Seq<char>, Seq<TaskProgress>> {
        progress_entries(self.task_progress)
    }
}

impl TaskStore {
    pub fn new() -> (r: TaskStore)
        ensures
            r@.dom() == Set::<Seq<char>>::empty(),
    {
        TaskStore { task_progress: progress_map_new() }
    }

    /// A fresh random task identity in the 36-character UUID form.
    pub fn create_task_id() -> (r: String)
        ensures
            r@.len() == 36,
    {
        fresh_uuid()
    }

    /// Appends an event to the task's history, creating the history if absent.
    pub fn add_progress(&mut self, task_id: String, progress: TaskProgress)
        ensures
            final(self)@ == old(self)@.insert(task_id@, history_in(old(self)@, task_id@).push(progress)),
    {
        match progress_map_remove(&mut self.task_progress, task_id.as_str()) {
            Some((key, mut events)) => {
                events.push(progress);
                progress_map_insert(&mut self.task_progress, key, events);
            },
            None => {
                let mut events: Vec<TaskProgress> = Vec::new();
                events.push(progress);
                proof {
                    assert(events@ =~= Seq::<TaskProgress>::empty().push(progress));
                }
                progress_map_insert(&mut self.task_progress, task_id, events);
            },
        }
        proof {
            assert(self@ =~= old(self)@.insert(task_id@, history_in(old(self)@, task_id@).push(progress)));
        }
    }

    /// The task's recorded events in order of receipt, or `None` for an
    /// unknown task.
    pub fn get_progress(&self, task_id: &str) -> (r: Option<Vec<TaskProgress>>)
        ensures
            match r {
                Some(v) => self@.contains_key(task_id@) && v@ == self@[task_id@],
                None => !self@.contains_key(task_id@),
            },
    {
        progress_map_get(&self.task_progress, task_id)
    }

    pub fn task_exists(&self, task_id: &str) -> (r: bool)
        ensures
            r == self@.contains_key(task_id@),
    {
        progress_map_contains(&self.task_progress, task_id)
    }

    /// Makes the task known with an empty history, replacing any earlier one.
    pub fn initialize_task(&mut self, task_id: String)
        ensures
            final(self)@ == old(self)@.insert(task_id@, Seq::<TaskProgress>::empty()),
    {
        let events: Vec<TaskProgress> = Vec::new();
        progress_map_insert(&mut self.task_progress, task_id, events);
    }
}

impl Default for TaskStore {
    fn default() -> (r: TaskStore)
        ensures
            r@.dom() == Set::<Seq<char>>::empty(),
    {
        TaskStore::new()
    }
}

} // verus!
