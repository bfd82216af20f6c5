use vstd::prelude::*;

use crate::pallet::{
    create_spec, lists, remove_spec, AccountId, BlockNumber, Error, PalletState, TaskId,
};

verus! {

/// The state reached from `s` by `n` consecutive creates of `id` by `who` at `height`.
pub open spec fn create_repeated(
    s: PalletState,
    who: AccountId,
    id: TaskId,
    height: BlockNumber,
    n: nat,
) -> PalletState
    decreases n,
{
    if n == 0 {
        s
    } else {
        create_spec(create_repeated(s, who, id, height, (n - 1) as nat), who, id, height).0
    }
}

/// The state reached from `s` by `n` consecutive removes of `id` by `who`.
pub open spec fn remove_repeated(s: PalletState, who: AccountId, id: TaskId, n: nat) -> PalletState
    decreases n,
{
    if n == 0 {
        s
    } else {
        remove_spec(remove_repeated(s, who, id, (n - 1) as nat), who, id).0
    }
}

/// After a successful create of `id` by `who`, a listing of the tasks holds
/// `id`, and the task stored under `id` is owned by `who`.
pub proof fn lemma_create_then_list(
    s: PalletState,
    who: AccountId,
    id: TaskId,
    height: BlockNumber,
    ids: Seq<TaskId>,
)
    requires
        create_spec(s, who, id, height).1 is Ok,
        lists(ids, create_spec(s, who, id, height).0.tasks),
    ensures
        ids.contains(id),
        create_spec(s, who, id, height).0.tasks[id].owner == who,
{
    let after = create_spec(s, who, id, height).0;
    assert(after.tasks.dom().contains(id));
    assert(ids.to_set().contains(id));
}

/// Creating the same task twice in a row: the second create fails with
/// `TaskAlreadyExists` and leaves the state as the first one left it.
pub proof fn lemma_create_twice(
    s: PalletState,
    who: AccountId,
    id: TaskId,
    first_height: BlockNumber,
    second_height: BlockNumber,
)
    ensures
        ({
            let once = create_spec(s, who, id, first_height).0;
            create_spec(once, who, id, second_height) == (once, Err::<(), Error>(Error::TaskAlreadyExists))
        }),
{
}

/// Removing a task that is absent fails with `TaskDoesNotExist`, whoever
/// asks, and changes nothing.
pub proof fn lemma_remove_absent(s: PalletState, who: AccountId, id: TaskId)
    requires
        !s.tasks.contains_key(id),
    ensures
        remove_spec(s, who, id) == (s, Err::<(), Error>(Error::TaskDoesNotExist)),
{
}

/// Removing a present task on behalf of anyone but its owner fails with
/// `WrongOwner` and leaves the task, and everything else, unchanged.
pub proof fn lemma_remove_not_owner(s: PalletState, who: AccountId, id: TaskId)
    requires
        s.tasks.contains_key(id),
        s.tasks[id].owner != who,
    ensures
        remove_spec(s, who, id) == (s, Err::<(), Error>(Error::WrongOwner)),
        remove_spec(s, who, id).0.tasks[id] == s.tasks[id],
{
}

/// A create that fails keeps failing when repeated, any number of times, and
/// neither changes the tasks nor deposits a notification.
pub proof fn lemma_failed_create_repeats(
    s: PalletState,
    who: AccountId,
    id: TaskId,
    height: BlockNumber,
    n: nat,
)
    requires
        create_spec(s, who, id, height).1 is Err,
    ensures
        create_repeated(s, who, id, height, n) == s,
        create_spec(create_repeated(s, who, id, height, n), who, id, height) == create_spec(
            s,
            who,
            id,
            height,
        ),
    decreases n,
{
    if n > 0 {
        lemma_failed_create_repeats(s, who, id, height, (n - 1) as nat);
    }
}

/// A remove that fails keeps failing when repeated, any number of times, and
/// neither changes the tasks nor deposits a notification.
pub proof fn lemma_failed_remove_repeats(s: PalletState, who: AccountId, id: TaskId, n: nat)
    requires
        remove_spec(s, who, id).1 is Err,
    ensures
        remove_repeated(s, who, id, n) == s,
        remove_spec(remove_repeated(s, who, id, n), who, id) == remove_spec(s, who, id),
    decreases n,
{
    if n > 0 {
        lemma_failed_remove_repeats(s, who, id, (n - 1) as nat);
    }
}

/// Creating an absent task and then removing it as the same caller both
/// succeed, and a listing taken afterwards does not hold the task.
pub proof fn lemma_create_remove_round_trip(
    s: PalletState,
    who: AccountId,
    id: TaskId,
    height: BlockNumber,
    ids: Seq<TaskId>,
)
    requires
        !s.tasks.contains_key(id),
        lists(ids, remove_spec(create_spec(s, who, id, height).0, who, id).0.tasks),
    ensures
        create_spec(s, who, id, height).1 is Ok,
        remove_spec(create_spec(s, who, id, height).0, who, id).1 is Ok,
        !ids.contains(id),
{
    let after = remove_spec(create_spec(s, who, id, height).0, who, id).0;
    assert(!after.tasks.dom().contains(id));
    if ids.contains(id) {
        assert(ids.to_set().contains(id));
    }
}

} // verus!
