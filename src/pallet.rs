use std::collections::HashMap;
use vstd::prelude::*;
use vstd::std_specs::iter::IteratorSpec;

verus! {

broadcast use vstd::std_specs::hash::group_hash_axioms;

/// Caller-chosen handle of a task.
pub type TaskId = u32;

/// A validated account identity; equality is exact.
pub type AccountId = u64;

/// A block height, as supplied by the host clock.
pub type BlockNumber = u64;

/// What is stored for one task.
#[derive(Clone, Copy, Debug, PartialEq, Eq, Structural)]
pub struct Task {
    pub owner: AccountId,
    pub created_at: BlockNumber,
}

/// Notifications deposited by successful operations.
#[derive(Clone, Debug, PartialEq, Eq)]
pub enum Event {
    /// A task was created. [who, task-id]
    NewTask(AccountId, TaskId),
    /// A task was removed. [who, task-id]
    RemoveTask(AccountId, TaskId),
    /// The identifiers of all tasks. [task-ids]
    GetTask(Vec<TaskId>),
}

/// Why an operation was refused.
#[derive(Clone, Copy, Debug, PartialEq, Eq, Structural)]
pub enum Error {
    /// Duplicate tasks cannot exist.
    TaskAlreadyExists,
    /// The task does not exist.
    TaskDoesNotExist,
    /// The caller does not own the task.
    WrongOwner,
}

/// The abstract state of a registry: the tasks by identifier, and the
/// notifications deposited so far, oldest first.
pub struct PalletState {
    pub tasks: Map<TaskId, Task>,
    pub events: Seq<Event>,
}

/// The task stored under `id` when `who` creates it at height `height`.
pub open spec fn new_task(who: AccountId, height: BlockNumber) -> Task {
    Task { owner: who, created_at: height }
}

/// The state and result of `who` creating task `id` at height `height`:
/// refused when `id` is already present, else the task is inserted and a
/// `NewTask` notification is deposited.
pub open spec fn create_spec(s: PalletState, who: AccountId, id: TaskId, height: BlockNumber) -> (
    PalletState,
    Result<(), Error>,
) {
    if s.tasks.contains_key(id) {
        (s, Err(Error::TaskAlreadyExists))
    } else {
        (
            PalletState {
                tasks: s.tasks.insert(id, new_task(who, height)),
                events: s.events.push(Event::NewTask(who, id)),
            },
            Ok(()),
        )
    }
}

/// The state and result of `who` removing task `id`: refused when `id` is
/// absent, then when its owner is not `who`; else the task is deleted and a
/// `RemoveTask` notification is deposited.
pub open spec fn remove_spec(s: PalletState, who: AccountId, id: TaskId) -> (
    PalletState,
    Result<(), Error>,
) {
    if !s.tasks.contains_key(id) {
        (s, Err(Error::TaskDoesNotExist))
    } else if s.tasks[id].owner != who {
        (s, Err(Error::WrongOwner))
    } else {
        (
            PalletState {
                tasks: s.tasks.remove(id),
                events: s.events.push(Event::RemoveTask(who, id)),
            },
            Ok(()),
        )
    }
}

/// `ids` enumerates the identifiers of `tasks`: each exactly once, in some order.
pub open spec fn lists(ids: Seq<TaskId>, tasks: Map<TaskId, Task>) -> bool {
    &&& ids.no_duplicates()
    &&& ids.to_set() == tasks.dom()
}

/// `e` is a `GetTask` notification carrying exactly `ids`.
pub open spec fn is_listing(e: Event, ids: Seq<TaskId>) -> bool {
    e matches Event::GetTask(v) && v@ == ids
}

/// The task registry.
pub struct Pallet {
    tasks: HashMap<TaskId, Task>,
    events: Vec<Event>,
}

impl View for Pallet {
    type V = PalletState;

    closed spec fn view(&self) -> PalletState {
        PalletState { tasks: self.tasks@, events: self.events@ }
    }
}

impl Pallet {
    /// An empty registry with no notifications.
    pub fn new() -> (r: Pallet)
        ensures
            r@.tasks == Map::<TaskId, Task>::empty(),
            r@.events == Seq::<Event>::empty(),
    {
        Pallet { tasks: HashMap::new(), events: Vec::new() }
    }

    /// Creates task `task` owned by `sender`, stamped with `current_block`.
    /// Fails with `TaskAlreadyExists`, changing nothing, when `task` exists.
    pub fn create_task(&mut self, sender: AccountId, task: TaskId, current_block: BlockNumber) -> (r:
        Result<(), Error>)
        ensures
            (final(self)@, r) == create_spec(old(self)@, sender, task, current_block),
    {
        if self.tasks.contains_key(&task) {
            return Err(Error::TaskAlreadyExists);
        }
        self.tasks.insert(task, Task { owner: sender, created_at: current_block });
        self.events.push(Event::NewTask(sender, task));
        Ok(())
    }

    /// Removes task `task` on behalf of `sender`. Fails, changing nothing,
    /// with `TaskDoesNotExist` when it is absent, else with `WrongOwner` when
    /// `sender` does not own it.
    pub fn remove_task(&mut self, sender: AccountId, task: TaskId) -> (r: Result<(), Error>)
        ensures
            (final(self)@, r) == remove_spec(old(self)@, sender, task),
    {
        let owner = match self.tasks.get(&task) {
            None => {
                return Err(Error::TaskDoesNotExist);
            },
            Some(t) => t.owner,
        };
        if owner != sender {
            return Err(Error::WrongOwner);
        }
        self.tasks.remove(&task);
        self.events.push(Event::RemoveTask(sender, task));
        Ok(())
    }

    /// The identifiers of all tasks, each once, in the map's iteration order.
    /// Deposits a `GetTask` notification carrying the same identifiers.
    pub fn get_task(&mut self) -> (r: Vec<TaskId>)
        ensures
            lists(r@, old(self)@.tasks),
            final(self)@.tasks == old(self)@.tasks,
            final(self)@.events.len() == old(self)@.events.len() + 1,
            final(self)@.events.drop_last() == old(self)@.events,
            is_listing(final(self)@.events.last(), r@),
    {
        let mut ids: Vec<TaskId> = Vec::new();
        let mut carried: Vec<TaskId> = Vec::new();
        for k in it: self.tasks.keys()
            invariant
                ids@ == it.seq().unref().take(it.index()),
                carried@ == ids@,
                it.seq() == IteratorSpec::remaining(&self.tasks.keys()),
            ensures
                ids@ == IteratorSpec::remaining(&self.tasks.keys()).unref(),
                carried@ == ids@,
        {
            ids.push(*k);
            carried.push(*k);
        }
        self.events.push(Event::GetTask(carried));
        ids
    }

    /// The task stored under `id`, if any.
    pub fn task(&self, id: TaskId) -> (r: Option<Task>)
        ensures
            r == (if self@.tasks.contains_key(id) {
                Some(self@.tasks[id])
            } else {
                None::<Task>
            }),
    {
        match self.tasks.get(&id) {
            Some(t) => Some(*t),
            None => None,
        }
    }

    /// The notifications deposited so far, oldest first.
    pub fn events(&self) -> (r: &Vec<Event>)
        ensures
            r@ == self@.events,
    {
        &self.events
    }
}

} // verus!
