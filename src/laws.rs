use vstd::prelude::*;

use crate::store::{created, delete_post, has_id, ids_unique, update_post, StoreError};
use crate::todo::{apply_update, TodoView, UpdateView};

verus! {

/// Two successful creates, one after the other, never hand out equal
/// identifiers.
pub proof fn lemma_two_creates_distinct_ids(
    s0: Seq<TodoView>,
    title1: Seq<char>,
    t1: TodoView,
    s1: Seq<TodoView>,
    title2: Seq<char>,
    t2: TodoView,
    s2: Seq<TodoView>,
)
    requires
        created(s0, title1, t1, s1),
        created(s1, title2, t2, s2),
    ensures
        t1.id != t2.id,
{
    assert(s1[s0.len() as int] == t1);
}

/// Right after a successful create, the records hold exactly one with the
/// new identifier, and it is the created record.
pub proof fn lemma_created_listed(
    before: Seq<TodoView>,
    title: Seq<char>,
    t: TodoView,
    after: Seq<TodoView>,
)
    requires
        created(before, title, t, after),
    ensures
        after.len() == before.len() + 1,
        after[before.len() as int] == t,
        forall|j: int| 0 <= j < after.len() && #[trigger] after[j].id == t.id ==> j == before.len(),
{
    assert forall|j: int| 0 <= j < after.len() && #[trigger] after[j].id == t.id implies j
        == before.len() by {
        if j < before.len() {
            assert(before[j] == after[j]);
        }
    }
}

/// Updating a known record with only `completed: true` marks it completed
/// and leaves its identifier, its title and every other record unchanged.
pub proof fn lemma_complete_keeps_title(
    before: Seq<TodoView>,
    id: Seq<char>,
    r: Result<TodoView, StoreError>,
    after: Seq<TodoView>,
)
    requires
        has_id(before, id),
        update_post(before, id, UpdateView { title: None, completed: Some(true) }, r, after),
    ensures
        after.len() == before.len(),
        exists|i: int|
            0 <= i < before.len() && #[trigger] before[i].id == id && r == Ok::<TodoView, StoreError>(
                after[i],
            ) && after[i] == (TodoView {
                id: before[i].id,
                title: before[i].title,
                completed: true,
            }) && forall|j: int| 0 <= j < before.len() && j != i ==> after[j] == before[j],
{
}

/// Updating an unknown identifier fails with `NotFound` and leaves the
/// records as they were.
pub proof fn lemma_update_unknown_changes_nothing(
    before: Seq<TodoView>,
    id: Seq<char>,
    u: UpdateView,
    r: Result<TodoView, StoreError>,
    after: Seq<TodoView>,
)
    requires
        !has_id(before, id),
        update_post(before, id, u, r, after),
    ensures
        r == Err::<TodoView, StoreError>(StoreError::NotFound),
        after == before,
{
}

/// A successful delete leaves no record with the deleted identifier.
pub proof fn lemma_deleted_absent(s0: Seq<TodoView>, id: Seq<char>, s1: Seq<TodoView>)
    requires
        ids_unique(s0),
        delete_post(s0, id, Ok(()), s1),
    ensures
        !has_id(s1, id),
{
    let i = choose|i: int| 0 <= i < s0.len() && #[trigger] s0[i].id == id && s1 == s0.remove(i);
    assert forall|k: int| 0 <= k < s1.len() implies #[trigger] s1[k].id != id by {
        let ok = if k < i { k } else { k + 1 };
        assert(s1[k] == s0[ok]);
        assert(s0[ok].id != s0[i].id);
    }
}

/// After a successful delete the identifier is gone, and deleting it again
/// fails with `NotFound` and changes nothing.
pub proof fn lemma_delete_twice(
    s0: Seq<TodoView>,
    id: Seq<char>,
    s1: Seq<TodoView>,
    r2: Result<(), StoreError>,
    s2: Seq<TodoView>,
)
    requires
        ids_unique(s0),
        delete_post(s0, id, Ok(()), s1),
        delete_post(s1, id, r2, s2),
    ensures
        !has_id(s1, id),
        r2 == Err::<(), StoreError>(StoreError::NotFound),
        s2 == s1,
{
    lemma_deleted_absent(s0, id, s1);
}

/// One store operation together with its outcome: a successful create, or
/// an update or a delete whatever its result. A failed create leaves the
/// records as they were and needs no step.
pub enum StoreStep {
    Create { title: Seq<char>, t: TodoView },
    Update { id: Seq<char>, u: UpdateView, r: Result<TodoView, StoreError> },
    Delete { id: Seq<char>, r: Result<(), StoreError> },
}

/// `after` is what `step` leaves of `before`, by the operation's contract.
pub open spec fn step_post(before: Seq<TodoView>, step: StoreStep, after: Seq<TodoView>) -> bool {
    match step {
        StoreStep::Create { title, t } => created(before, title, t, after),
        StoreStep::Update { id, u, r } => update_post(before, id, u, r, after),
        StoreStep::Delete { id, r } => delete_post(before, id, r, after),
    }
}

/// `step` is a create that handed out identifier `id`.
pub open spec fn creates_id(step: StoreStep, id: Seq<char>) -> bool {
    match step {
        StoreStep::Create { t, .. } => t.id == id,
        _ => false,
    }
}

/// A step other than a create of `id` never brings `id` back.
pub proof fn lemma_step_keeps_absent(
    before: Seq<TodoView>,
    step: StoreStep,
    after: Seq<TodoView>,
    id: Seq<char>,
)
    requires
        !has_id(before, id),
        step_post(before, step, after),
        !creates_id(step, id),
    ensures
        !has_id(after, id),
{
    match step {
        StoreStep::Create { t, .. } => {
            assert forall|k: int| 0 <= k < after.len() implies #[trigger] after[k].id != id by {
                if k < before.len() {
                    assert(after[k] == before[k]);
                }
            }
        },
        StoreStep::Update { id: key, u, r } => {
            if has_id(before, key) {
                let i = choose|i: int|
                    0 <= i < before.len() && #[trigger] before[i].id == key && r == Ok::<
                        TodoView,
                        StoreError,
                    >(apply_update(before[i], u)) && after == before.update(
                        i,
                        apply_update(before[i], u),
                    );
                assert forall|k: int| 0 <= k < after.len() implies #[trigger] after[k].id != id by {
                    assert(after[k].id == before[k].id);
                }
            }
        },
        StoreStep::Delete { id: key, r } => {
            if has_id(before, key) {
                let i = choose|i: int|
                    0 <= i < before.len() && #[trigger] before[i].id == key && after == before.remove(
                        i,
                    );
                assert forall|k: int| 0 <= k < after.len() implies #[trigger] after[k].id != id by {
                    let ok = if k < i { k } else { k + 1 };
                    assert(after[k] == before[ok]);
                }
            }
        },
    }
}

/// A run of steps, none of which creates `id`, keeps `id` absent.
proof fn lemma_steps_keep_absent(
    stores: Seq<Seq<TodoView>>,
    steps: Seq<StoreStep>,
    id: Seq<char>,
    k: int,
)
    requires
        stores.len() == steps.len() + 1,
        !has_id(stores[0], id),
        forall|j: int| 0 <= j < steps.len() ==> step_post(#[trigger] stores[j], steps[j], stores[j + 1]),
        forall|j: int| 0 <= j < steps.len() ==> !creates_id(#[trigger] steps[j], id),
        0 <= k <= steps.len(),
    ensures
        !has_id(stores[k], id),
    decreases k,
{
    if k > 0 {
        lemma_steps_keep_absent(stores, steps, id, k - 1);
        assert(step_post(stores[k - 1], steps[k - 1], stores[k]));
        assert(!creates_id(steps[k - 1], id));
        lemma_step_keeps_absent(stores[k - 1], steps[k - 1], stores[k], id);
    }
}

/// A deletion is permanent: after a successful delete of `id`, followed by
/// any run of updates, deletes and creates that hand out other identifiers,
/// `id` is still absent, and a delete or an update of it fails with
/// `NotFound` and changes nothing.
pub proof fn lemma_deleted_stays_gone(
    s0: Seq<TodoView>,
    id: Seq<char>,
    stores: Seq<Seq<TodoView>>,
    steps: Seq<StoreStep>,
)
    requires
        ids_unique(s0),
        delete_post(s0, id, Ok(()), stores[0]),
        stores.len() == steps.len() + 1,
        forall|j: int| 0 <= j < steps.len() ==> step_post(#[trigger] stores[j], steps[j], stores[j + 1]),
        forall|j: int| 0 <= j < steps.len() ==> !creates_id(#[trigger] steps[j], id),
    ensures
        !has_id(stores[steps.len() as int], id),
        forall|r: Result<(), StoreError>, after: Seq<TodoView>|
            #[trigger] delete_post(stores[steps.len() as int], id, r, after) ==> r == Err::<
                (),
                StoreError,
            >(StoreError::NotFound) && after == stores[steps.len() as int],
        forall|u: UpdateView, r: Result<TodoView, StoreError>, after: Seq<TodoView>|
            #[trigger] update_post(stores[steps.len() as int], id, u, r, after) ==> r == Err::<
                TodoView,
                StoreError,
            >(StoreError::NotFound) && after == stores[steps.len() as int],
{
    lemma_deleted_absent(s0, id, stores[0]);
    lemma_steps_keep_absent(stores, steps, id, steps.len() as int);
}

/// Any run of successful creates on an empty store, in whatever order a lock
/// serialises them, leaves exactly the created records, all under distinct
/// identifiers: `n` creates give a listing of `n` records.
pub proof fn lemma_creates_accumulate(
    stores: Seq<Seq<TodoView>>,
    titles: Seq<Seq<char>>,
    made: Seq<TodoView>,
)
    requires
        stores.len() == made.len() + 1,
        titles.len() == made.len(),
        stores[0].len() == 0,
        forall|k: int|
            0 <= k < made.len() ==> created(#[trigger] stores[k], titles[k], made[k], stores[k + 1]),
    ensures
        stores[made.len() as int] == made,
        stores[made.len() as int].len() == made.len(),
        ids_unique(made),
    decreases made.len(),
{
    let n = made.len() as int;
    if n == 0 {
        assert(stores[0] =~= made);
    } else {
        let m = n - 1;
        lemma_creates_accumulate(stores.take(n), titles.take(m), made.take(m));
        assert(stores.take(n)[m] == stores[m]);
        assert(created(stores[m], titles[m], made[m], stores[n]));
        assert(stores[n] =~= made);
        assert forall|a: int, b: int|
            0 <= a < made.len() && 0 <= b < made.len() && a != b implies #[trigger] made[a].id
            != #[trigger] made[b].id by {
            if a < m && b < m {
                assert(made.take(m)[a] == made[a]);
                assert(made.take(m)[b] == made[b]);
            } else if a == m {
                assert(stores[m][b] == made[b]);
            } else {
                assert(stores[m][a] == made[a]);
            }
        }
    }
}

} // verus!
