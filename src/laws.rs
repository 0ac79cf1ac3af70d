use vstd::prelude::*;
use crate::db::{TaskStore, has_task, ids_unique, lookup, position_of, tasks_of};
use crate::models::{Task, TaskStatus, UpdateTask, User, updated};

verus! {

/// Users created one after another get pairwise distinct identifiers: when
/// each creation adds a user whose identifier the store did not hold, no
/// identifier comes out twice.
pub proof fn law_user_ids_distinct(stores: Seq<Map<u128, User>>, users: Seq<User>)
    requires
        stores.len() == users.len() + 1,
        forall|k: int|
            0 <= k < users.len() ==> {
                &&& !stores[k].contains_key(#[trigger] users[k].id)
                &&& stores[k + 1] == stores[k].insert(users[k].id, users[k])
            },
    ensures
        forall|i: int, j: int|
            0 <= i < j < users.len() ==> (#[trigger] users[i]).id != (#[trigger] users[j]).id,
{
    assert forall|i: int, j: int| 0 <= i < j < users.len() implies (#[trigger] users[i]).id
        != (#[trigger] users[j]).id by {
        lemma_user_kept(stores, users, i, j);
    }
}

/// A user added at step `i` is still held at every later step `j`.
proof fn lemma_user_kept(stores: Seq<Map<u128, User>>, users: Seq<User>, i: int, j: int)
    requires
        stores.len() == users.len() + 1,
        forall|k: int|
            0 <= k < users.len() ==> {
                &&& !stores[k].contains_key(#[trigger] users[k].id)
                &&& stores[k + 1] == stores[k].insert(users[k].id, users[k])
            },
        0 <= i < j <= users.len(),
    ensures
        stores[j].contains_key(users[i].id),
    decreases j - i,
{
    if j > i + 1 {
        lemma_user_kept(stores, users, i, j - 1);
        assert(stores[j] == stores[j - 1].insert(users[j - 1].id, users[j - 1]));
    } else {
        assert(stores[i + 1] == stores[i].insert(users[i].id, users[i]));
    }
}

/// Tasks created one after another for the same user, each with an
/// identifier never issued before, all land in that user's list, in the
/// order of creation and with pairwise distinct identifiers: `n` creations
/// make the list `n` tasks longer.
pub proof fn law_creates_accumulate(
    stores: Seq<Map<u128, Seq<Task>>>,
    issued: Seq<Set<u128>>,
    created: Seq<Task>,
    user_id: u128,
)
    requires
        stores.len() == created.len() + 1,
        issued.len() == created.len() + 1,
        forall|k: int|
            0 <= k < created.len() ==> {
                &&& !issued[k].contains(#[trigger] created[k].id)
                &&& issued[k + 1] == issued[k].insert(created[k].id)
                &&& stores[k + 1] == stores[k].insert(
                    user_id,
                    tasks_of(stores[k], user_id).push(created[k]),
                )
            },
    ensures
        tasks_of(stores[created.len() as int], user_id) == tasks_of(stores[0], user_id)
            + created,
        tasks_of(stores[created.len() as int], user_id).len() == tasks_of(stores[0], user_id).len()
            + created.len(),
        forall|i: int, j: int|
            0 <= i < j < created.len() ==> (#[trigger] created[i]).id != (#[trigger] created[j]).id,
    decreases created.len(),
{
    let n = created.len() as int;
    if n > 0 {
        let k = n - 1;
        law_creates_accumulate(
            stores.take(n),
            issued.take(n),
            created.take(k),
            user_id,
        );
        assert(stores.take(n)[k] == stores[k]);
        assert(created.take(k) + seq![created[k]] =~= created);
        assert(!issued[k].contains(created[k].id));
        assert(tasks_of(stores[n], user_id) =~= tasks_of(stores[0], user_id) + created);
        assert forall|i: int, j: int| 0 <= i < j < created.len() implies (#[trigger] created[i]).id
            != (#[trigger] created[j]).id by {
            if j < k {
                assert(created.take(k)[i] == created[i] && created.take(k)[j] == created[j]);
            } else {
                lemma_issued_kept(issued, created, i, k);
            }
        }
    } else {
        assert(created =~= Seq::<Task>::empty());
        assert(tasks_of(stores[0], user_id) + created =~= tasks_of(stores[0], user_id));
    }
}

/// An identifier issued at step `i` still counts as issued at every later
/// step `j`.
proof fn lemma_issued_kept(issued: Seq<Set<u128>>, created: Seq<Task>, i: int, j: int)
    requires
        issued.len() == created.len() + 1,
        forall|k: int|
            0 <= k < created.len() ==> issued[k + 1] == issued[k].insert(
                #[trigger] created[k].id,
            ),
        0 <= i < j <= created.len(),
    ensures
        issued[j].contains(created[i].id),
    decreases j - i,
{
    if j > i + 1 {
        lemma_issued_kept(issued, created, i, j - 1);
        assert(issued[j] == issued[j - 1].insert(created[j - 1].id));
    } else {
        assert(issued[i + 1] == issued[i].insert(created[i].id));
    }
}

/// An update that carries only a status changes the status and keeps the
/// identifier, title and description.
pub proof fn law_status_update_keeps_text(t: Task, status: TaskStatus)
    ensures
        updated(t, UpdateTask { title: None, description: None, status: Some(status) }) == (Task {
            status,
            ..t
        }),
{
}

/// A deleted task is gone for good: after the deletion the user's list is
/// still there, and looking the task up in it finds nothing.
pub proof fn law_deleted_task_is_gone(before: TaskStore, after: Map<u128, Seq<Task>>, user_id: u128, task_id: u128)
    requires
        before.wf(),
        lookup(before@, user_id, task_id) is Some,
        after == before@.insert(
            user_id,
            before@[user_id].remove(position_of(before@[user_id], task_id)),
        ),
    ensures
        after.contains_key(user_id),
        lookup(after, user_id, task_id) is None,
{
    let s = before@[user_id];
    let p = position_of(s, task_id);
    before.lemma_wf();
    assert(ids_unique(s)) by {
        assert forall|i: int, j: int|
            0 <= i < s.len() && 0 <= j < s.len() && (#[trigger] s[i]).id == (#[trigger] s[j]).id
            implies i == j by {}
    }
    if has_task(after[user_id], task_id) {
        let q = choose|q: int| 0 <= q < after[user_id].len() && (#[trigger] after[user_id][q]).id == task_id;
        if q < p {
            assert(after[user_id][q] == s[q]);
        } else {
            assert(after[user_id][q] == s[q + 1]);
        }
    }
}

} // verus!
