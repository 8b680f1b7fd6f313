//! What tenants and workflows can rely on in a database, as long as those who
//! submit tasks and ask for leases keep to the rules that are theirs to keep:
//! the store itself grants every lease that is asked for.

use vstd::prelude::*;

use super::postgres::TaskState;
use super::tables;
use super::tables::{Change, Tables};

verus! {

/// Whether the task `id` belongs to the tenant `tenant_id`, by its workflow.
pub open spec fn is_of_tenant(tables: Tables, id: Seq<char>, tenant_id: Seq<char>) -> bool {
    &&& tables.tasks.contains_key(id)
    &&& tables.workflows.contains_key(tables.tasks[id].workflow_id)
    &&& tables.workflows[tables.tasks[id].workflow_id] == tenant_id
}

/// The leased tasks of the tenant `tenant_id`.
pub open spec fn leased_of(tables: Tables, tenant_id: Seq<char>) -> Set<Seq<char>> {
    Set::new(
        |id: Seq<char>|
            is_of_tenant(tables, id, tenant_id) && tables.tasks[id].state == TaskState::Leased,
    )
}

/// Whether `change` leases a task of the tenant `tenant_id`.
pub open spec fn leases_for(before: Tables, change: Change, tenant_id: Seq<char>) -> bool {
    change matches Change::Lease { row, .. } && is_of_tenant(before, row.id@, tenant_id)
}

/// No change but a lease adds to the leased tasks of a tenant, and a lease adds
/// the one task that it is for.
pub proof fn only_a_lease_adds_a_leased_task(
    before: Tables,
    change: Change,
    after: Tables,
    tenant_id: Seq<char>,
)
    requires
        before.is_valid(),
        tables::step(before, change, after),
    ensures
        leases_for(before, change, tenant_id) ==> leased_of(after, tenant_id).subset_of(
            leased_of(before, tenant_id).insert(change->row.id@),
        ),
        !leases_for(before, change, tenant_id) ==> leased_of(after, tenant_id).subset_of(
            leased_of(before, tenant_id),
        ),
{
    assert forall|id: Seq<char>| leased_of(after, tenant_id).contains(id) && !leased_of(
        before,
        tenant_id,
    ).contains(id) implies leases_for(before, change, tenant_id) && id == change->row.id@ by {
        if before.tasks.contains_key(id) {
            tables::step_moves_tasks_on(before, change, after, id);
            if change is Recover {
                tables::recovery_changes_what_has_expired(before, change, after, id);
            } else if change is Retry {
                tables::retried_task_is_leased_no_more(before, change, after, id);
            }
        }
    }
}

/// A tenant never has more tasks leased than it may, as long as nobody asks for
/// a lease on a task of a tenant that has as many as it may.
pub proof fn tenant_stays_within_its_limit(
    states: Seq<Tables>,
    changes: Seq<Change>,
    tenant_id: Seq<char>,
    limit: nat,
    n: int,
)
    requires
        tables::is_history(states, changes),
        states[0].is_valid(),
        leased_of(states[0], tenant_id).finite(),
        leased_of(states[0], tenant_id).len() <= limit,
        forall|i: int|
            0 <= i < changes.len() && leases_for(states[i], #[trigger] changes[i], tenant_id)
                ==> leased_of(states[i], tenant_id).len() < limit,
        0 <= n < states.len(),
    ensures
        leased_of(states[n], tenant_id).finite(),
        leased_of(states[n], tenant_id).len() <= limit,
    decreases n,
{
    if n > 0 {
        tenant_stays_within_its_limit(states, changes, tenant_id, limit, n - 1);
        tables::history_keeps_database_valid(states, changes, n - 1);
        let change = changes[n - 1];
        assert(tables::step(states[n - 1], change, states[n]));
        only_a_lease_adds_a_leased_task(states[n - 1], change, states[n], tenant_id);
        let before = leased_of(states[n - 1], tenant_id);
        let bound = if leases_for(states[n - 1], change, tenant_id) {
            before.insert(change->row.id@)
        } else {
            before
        };
        vstd::set_lib::lemma_len_subset(leased_of(states[n], tenant_id), bound);
    }
}

/// The tasks of a sequential workflow start only after those before them were
/// completed, as long as each is submitted only then: whenever the task `second`
/// is there, waiting, leased or ended, the task `first` before it is completed.
pub proof fn task_starts_after_the_one_before_it(
    states: Seq<Tables>,
    changes: Seq<Change>,
    first: Seq<char>,
    second: Seq<char>,
    n: int,
)
    requires
        tables::is_history(states, changes),
        states[0].is_valid(),
        !states[0].tasks.contains_key(second),
        forall|i: int|
            0 <= i < changes.len() ==> ((#[trigger] changes[i]) matches Change::Submit { task, .. }
                ==> (task.id == second ==> states[i].tasks.contains_key(first)
                && states[i].tasks[first].state == TaskState::Completed)),
        0 <= n < states.len(),
        states[n].tasks.contains_key(second),
    ensures
        states[n].tasks.contains_key(first),
        states[n].tasks[first].state == TaskState::Completed,
    decreases n,
{
    assert(n > 0);
    assert(tables::step(states[n - 1], changes[n - 1], states[n]));
    tables::history_keeps_database_valid(states, changes, n - 1);
    if states[n - 1].tasks.contains_key(second) {
        task_starts_after_the_one_before_it(states, changes, first, second, n - 1);
    }
    tables::step_moves_tasks_on(states[n - 1], changes[n - 1], states[n], first);
}

/// Whether all tasks of the tenant `tenant_id` are in the pool `pool_id`, and all
/// attempts at them were granted under the epoch `epoch`.
pub open spec fn has_one_pool_and_epoch(
    tables: Tables,
    tenant_id: Seq<char>,
    pool_id: Seq<char>,
    epoch: u64,
) -> bool {
    &&& forall|id: Seq<char>| #[trigger]
        is_of_tenant(tables, id, tenant_id) ==> tables.tasks[id].pool_id == pool_id
    &&& forall|a: Seq<char>| #[trigger]
        tables.attempts.contains_key(a) && is_of_tenant(
            tables,
            tables.attempts[a].task_id,
            tenant_id,
        ) ==> tables.attempts[a].epoch() == epoch
}

/// A tenant has one pool and one ownership epoch, as long as its tasks are
/// submitted to that pool and leases on them are asked for under that epoch.
pub proof fn tenant_has_one_pool_and_epoch(
    states: Seq<Tables>,
    changes: Seq<Change>,
    tenant_id: Seq<char>,
    pool_id: Seq<char>,
    epoch: u64,
    n: int,
)
    requires
        tables::is_history(states, changes),
        states[0].is_valid(),
        has_one_pool_and_epoch(states[0], tenant_id, pool_id, epoch),
        forall|i: int|
            0 <= i < changes.len() ==> match #[trigger] changes[i] {
                Change::Submit { task, .. } => is_of_tenant(states[i + 1], task.id, tenant_id)
                    ==> task.pool_id == pool_id,
                Change::Lease { row, ownership_epoch, .. } => is_of_tenant(
                    states[i],
                    row.id@,
                    tenant_id,
                ) ==> ownership_epoch == epoch,
                _ => true,
            },
        0 <= n < states.len(),
    ensures
        has_one_pool_and_epoch(states[n], tenant_id, pool_id, epoch),
    decreases n,
{
    if n > 0 {
        tenant_has_one_pool_and_epoch(states, changes, tenant_id, pool_id, epoch, n - 1);
        tables::history_keeps_database_valid(states, changes, n - 1);
        let (before, change, after) = (states[n - 1], changes[n - 1], states[n]);
        assert(tables::step(before, change, after));
        assert forall|id: Seq<char>| #[trigger] is_of_tenant(
            after,
            id,
            tenant_id,
        ) implies after.tasks[id].pool_id == pool_id by {
            if before.tasks.contains_key(id) {
                tables::step_moves_tasks_on(before, change, after, id);
                assert(is_of_tenant(before, id, tenant_id));
            }
        }
        assert forall|a: Seq<char>| #[trigger]
            after.attempts.contains_key(a) && is_of_tenant(
                after,
                after.attempts[a].task_id,
                tenant_id,
            ) implies after.attempts[a].epoch() == epoch by {
            let id = after.attempts[a].task_id;
            if before.attempts.contains_key(a) {
                tables::attempt_keeps_its_owner(states, changes, a, n - 1, n);
                assert(before.tasks.contains_key(id));
            }
            if before.tasks.contains_key(id) {
                tables::step_moves_tasks_on(before, change, after, id);
                assert(is_of_tenant(before, id, tenant_id));
            }
        }
    }
}

/// The tasks of the pool of the task `id` that wait and are handed out before it.
pub open spec fn ahead_of(tables: Tables, id: Seq<char>) -> Set<Seq<char>> {
    Set::new(
        |other: Seq<char>|
            {
                &&& tables.tasks.contains_key(other)
                &&& other != id
                &&& tables.tasks[other].state == TaskState::Ready
                &&& tables.tasks[other].pool_id == tables.tasks[id].pool_id
                &&& tables.goes_before(other, id)
            },
    )
}

/// How many of the first `n` changes are leases to workers of the pool `pool_id`.
pub open spec fn leases_in(changes: Seq<Change>, pool_id: Seq<char>, n: int) -> nat
    decreases n,
{
    if n <= 0 {
        0
    } else {
        let counted: nat = if changes[n - 1] matches Change::Lease { pool_id: asked, .. } && asked
            == pool_id {
            1
        } else {
            0
        };
        leases_in(changes, pool_id, n - 1) + counted
    }
}

/// A task that waits is not starved, as long as none comes ahead of it anew and
/// nobody has it locked: its pool hands out no more tasks without handing it out
/// than there were ahead of it, and so its tenant gets its turn.
pub proof fn waiting_task_is_not_starved(
    states: Seq<Tables>,
    changes: Seq<Change>,
    id: Seq<char>,
    n: int,
)
    requires
        tables::is_history(states, changes),
        states[0].is_valid(),
        states[0].tasks.contains_key(id),
        ahead_of(states[0], id).finite(),
        forall|i: int|
            0 <= i < changes.len() ==> {
                &&& ahead_of(states[i + 1], id).subset_of(ahead_of(states[i], id))
                &&& (#[trigger] changes[i]) matches Change::Lease {
                    pool_id,
                    asked_at,
                    locked,
                    row,
                    ..
                } ==> (pool_id == states[0].tasks[id].pool_id ==> {
                    &&& states[i].is_waiting(id, pool_id, asked_at)
                    &&& !locked.contains(id)
                    &&& row.id@ != id
                })
            },
        0 <= n < states.len(),
    ensures
        ahead_of(states[n], id).finite(),
        leases_in(changes, states[0].tasks[id].pool_id, n) + ahead_of(states[n], id).len()
            <= ahead_of(states[0], id).len(),
    decreases n,
{
    if n > 0 {
        let pool_id = states[0].tasks[id].pool_id;
        waiting_task_is_not_starved(states, changes, id, n - 1);
        let (before, change, after) = (states[n - 1], changes[n - 1], states[n]);
        assert(tables::step(before, change, after));
        tables::submitted_task_is_never_lost(states, changes, id, 0, n - 1);
        vstd::set_lib::lemma_len_subset(ahead_of(after, id), ahead_of(before, id));
        if let Change::Lease { pool_id: asked, row, asked_at, .. } = change {
            if asked == pool_id {
                assert(before.is_waiting(id, pool_id, asked_at));
                assert(ahead_of(before, id).contains(row.id@));
                assert(!ahead_of(after, id).contains(row.id@));
                assert(ahead_of(after, id).subset_of(ahead_of(before, id).remove(row.id@)));
                vstd::set_lib::lemma_len_subset(
                    ahead_of(after, id),
                    ahead_of(before, id).remove(row.id@),
                );
            }
        }
    }
}

} // verus!
