use vstd::prelude::*;
use crate::error::CFMMError;
use crate::pool::{Pool, ReserveSnapshot};

verus! {

/// What one pool's refresh attempt came back with. The caller performs the
/// actual calls and hands the outcomes in pool order; the functions here are
/// the failure policy.
#[derive(Debug, Clone, Copy, PartialEq, Eq, Structural)]
pub enum SyncOutcome {
    /// The call succeeded and returned this dynamic state.
    Synced(ReserveSnapshot),
    /// The call itself failed (revert, bad data): recoverable.
    CallFailed,
    /// The transport failed: the node is unreachable, so going on is
    /// pointless.
    TransportFailed,
}

/// One pool after its outcome is applied under the best-effort policy: fresh
/// state on success, the previous state on a call failure or on a snapshot
/// of the wrong variant.
pub open spec fn pool_after_outcome(p: Pool, o: SyncOutcome) -> Pool {
    match o {
        SyncOutcome::Synced(s) => match p.with_snapshot(s) {
            Some(q) => q,
            None => p,
        },
        _ => p,
    }
}

/// Whether some outcome in the first `n` is a transport failure.
pub open spec fn any_transport_failed(outcomes: Seq<SyncOutcome>, n: int) -> bool {
    exists|k: int| 0 <= k < n && outcomes[k] is TransportFailed
}

/// The best-effort warm-resync policy over a whole pool list: every pool
/// whose call succeeded is refreshed, every pool whose call failed keeps its
/// previous (stale) values, and only a transport failure aborts — in which
/// case nothing is changed and `TransportFailure` is returned, since the
/// caller discards the run.
pub fn sync_pools_with_outcomes(pools: &mut Vec<Pool>, outcomes: &Vec<SyncOutcome>) -> (r: Result<
    (),
    CFMMError,
>)
    requires
        old(pools)@.len() == outcomes@.len(),
    ensures
        final(pools)@.len() == old(pools)@.len(),
        r is Ok <==> !any_transport_failed(outcomes@, outcomes@.len() as int),
        r is Ok ==> forall|i: int| 0 <= i < outcomes@.len() ==> final(pools)@[i]
            == pool_after_outcome(old(pools)@[i], #[trigger] outcomes@[i]),
        r is Err ==> *final(pools) == *old(pools) && r->Err_0 == CFMMError::TransportFailure,
{
    let mut i: usize = 0;
    while i < outcomes.len()
        invariant
            i <= outcomes@.len(),
            forall|k: int| 0 <= k < i ==> !((#[trigger] outcomes@[k]) is TransportFailed),
            *pools == *old(pools),
        decreases outcomes@.len() - i,
    {
        if let SyncOutcome::TransportFailed = &outcomes[i] {
            proof {
                assert(outcomes@[i as int] is TransportFailed);
            }
            return Err(CFMMError::TransportFailure);
        }
        i = i + 1;
    }
    let mut j: usize = 0;
    while j < outcomes.len()
        invariant
            j <= outcomes@.len(),
            outcomes@.len() == old(pools)@.len(),
            pools@.len() == old(pools)@.len(),
            forall|k: int| 0 <= k < j ==> pools@[k] == pool_after_outcome(
                old(pools)@[k],
                #[trigger] outcomes@[k],
            ),
            forall|k: int| j <= k < pools@.len() ==> pools@[k] == old(pools)@[k],
        decreases outcomes@.len() - j,
    {
        match &outcomes[j] {
            SyncOutcome::Synced(s) => {
                pools[j].apply_snapshot(s);
            },
            _ => {},
        }
        j = j + 1;
    }
    Ok(())
}

/// The outcome of one parallel dex task in a cold generation run: either the
/// pools it discovered and populated, or the error it returned. (A task that
/// terminated abnormally never reaches this point: the caller re-raises the
/// abnormal termination instead.)
#[derive(Debug)]
pub enum TaskOutcome {
    Completed(Vec<Pool>),
    Failed(CFMMError),
}

/// The pools of a completed task; empty for a failed one.
pub open spec fn task_pools(o: TaskOutcome) -> Seq<Pool> {
    match o {
        TaskOutcome::Completed(ps) => ps@,
        TaskOutcome::Failed(_) => Seq::empty(),
    }
}

/// All pools of a run of task outcomes, concatenated in task order.
pub open spec fn flatten_task_pools(results: Seq<TaskOutcome>) -> Seq<Pool>
    decreases results.len(),
{
    if results.len() == 0 {
        Seq::empty()
    } else {
        task_pools(results[0]) + flatten_task_pools(results.skip(1))
    }
}

proof fn lemma_flatten_take_step(results: Seq<TaskOutcome>, i: int)
    requires
        0 <= i < results.len(),
    ensures
        flatten_task_pools(results.take(i + 1)) == flatten_task_pools(results.take(i))
            + task_pools(results[i]),
    decreases i,
{
    if i == 0 {
        let u = results.take(1);
        assert(u.len() == 1);
        assert(u[0] == results[0]);
        assert(u.skip(1) =~= Seq::<TaskOutcome>::empty());
        assert(results.take(0) =~= Seq::<TaskOutcome>::empty());
        assert(flatten_task_pools(Seq::<TaskOutcome>::empty()) == Seq::<Pool>::empty());
        assert(flatten_task_pools(u) == task_pools(u[0]) + flatten_task_pools(u.skip(1)));
        assert(flatten_task_pools(results.take(1)) =~= flatten_task_pools(results.take(0))
            + task_pools(results[0]));
    } else {
        let rest = results.skip(1);
        lemma_flatten_take_step(rest, i - 1);
        assert(results.take(i + 1).skip(1) =~= rest.take(i));
        assert(results.take(i).skip(1) =~= rest.take(i - 1));
        assert(flatten_task_pools(results.take(i + 1)) == task_pools(results[0])
            + flatten_task_pools(rest.take(i)));
        assert(flatten_task_pools(results.take(i)) == task_pools(results[0])
            + flatten_task_pools(rest.take(i - 1)));
        assert(flatten_task_pools(results.take(i)) + task_pools(results[i]) == task_pools(
            results[0],
        ) + (flatten_task_pools(rest.take(i - 1)) + task_pools(rest[i - 1])));
    }
}

/// A failed task at position `k`, every task before it completed, and its
/// error is `e`.
pub open spec fn first_failure_at(results: Seq<TaskOutcome>, k: int, e: CFMMError) -> bool {
    &&& 0 <= k < results.len()
    &&& results[k] is Failed
    &&& results[k]->Failed_0 == e
    &&& forall|j: int| 0 <= j < k ==> (#[trigger] results[j]) is Completed
}

/// The all-or-nothing aggregation of a cold generation run: if every task
/// completed, the pools are concatenated in task order; if any task returned
/// an error, the first such error is the run's result and no pool list comes
/// back — the caller writes no checkpoint.
pub fn aggregate_pool_results(results: Vec<TaskOutcome>) -> (r: Result<Vec<Pool>, CFMMError>)
    ensures
        r is Ok <==> (forall|i: int| 0 <= i < results@.len() ==> (#[trigger] results@[i])
            is Completed),
        r is Ok ==> r->Ok_0@ == flatten_task_pools(results@),
        r is Err ==> exists|k: int| #[trigger] first_failure_at(results@, k, r->Err_0),
{
    let ghost orig = results@;
    let mut remaining = results;
    let mut aggregated: Vec<Pool> = Vec::new();
    let mut i: usize = 0;
    let n = remaining.len();
    proof {
        assert(n == remaining@.len());
        assert(remaining@ =~= orig.skip(0));
        assert(orig.take(0) =~= Seq::<TaskOutcome>::empty());
    }
    while remaining.len() > 0
        invariant
            orig == results@,
            orig.len() <= usize::MAX,
            0 <= i <= orig.len(),
            remaining@ =~= orig.skip(i as int),
            aggregated@ == flatten_task_pools(orig.take(i as int)),
            forall|j: int| 0 <= j < i ==> (#[trigger] orig[j]) is Completed,
        decreases remaining.len(),
    {
        let head = remaining.remove(0);
        proof {
            assert(orig.skip(i as int)[0] == orig[i as int]);
            assert(remaining@ =~= orig.skip(i as int).skip(1));
            assert(orig.skip(i as int).skip(1) =~= orig.skip(i as int + 1));
        }
        match head {
            TaskOutcome::Completed(mut ps) => {
                aggregated.append(&mut ps);
                proof {
                    lemma_flatten_take_step(orig, i as int);
                }
            },
            TaskOutcome::Failed(e) => {
                proof {
                    assert(first_failure_at(orig, i as int, e));
                }
                let out: Result<Vec<Pool>, CFMMError> = Err(e);
                proof {
                    assert(out->Err_0 == e);
                    assert(exists|k: int| #[trigger] first_failure_at(results@, k, out->Err_0));
                }
                return out;
            },
        }
        i = i + 1;
    }
    proof {
        assert(orig.take(orig.len() as int) =~= orig);
    }
    Ok(aggregated)
}

} // verus!
