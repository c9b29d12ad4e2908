//! How the scheduler picks the worker for the next task.

use crate::utils::shared::GrpcWorkerChannels;
use crate::utils::shared::WorkerRecordView;
use vstd::prelude::*;

verus! {

/// A policy that picks one of the connected workers.
pub trait LoadBalancer: Send + Sync {
    /// The place in `channels` of the worker that the policy picks next.
    spec fn choice(&self, channels: Seq<WorkerRecordView>) -> nat;

    /// Whether this is the policy that `before` becomes by picking from
    /// `channels`.
    spec fn follows(&self, before: &Self, channels: Seq<WorkerRecordView>) -> bool;

    /// Picks a worker from `channels` and returns its name; `None` when
    /// there is no worker to pick, and only then.
    fn select_worker(&mut self, channels: &GrpcWorkerChannels) -> (r: Option<String>)
        ensures
            r is None <==> channels@.len() == 0,
            r matches Some(id) ==> old(self).choice(channels@) < channels@.len() && id@
                == channels@[old(self).choice(channels@) as int].worker_id,
            final(self).follows(old(self), channels@),
    ;
}

/// The place that round robin picks among `n` workers when its cursor stands
/// at `cursor`: the cursor itself, or the first place where the cursor has
/// run past the end.
pub open spec fn rr_pick(cursor: nat, n: nat) -> nat {
    if cursor >= n {
        0
    } else {
        cursor
    }
}

/// Where the cursor stands after a pick among `n` workers.
pub open spec fn rr_next(cursor: nat, n: nat) -> nat {
    rr_pick(cursor, n) + 1
}

/// The places picked by `k` successive selections among `n` workers, from a
/// cursor at `cursor`.
pub open spec fn rr_picks(cursor: nat, n: nat, k: nat) -> Seq<nat>
    decreases k,
{
    if k == 0 {
        Seq::empty()
    } else {
        seq![rr_pick(cursor, n)] + rr_picks(rr_next(cursor, n), n, (k - 1) as nat)
    }
}

/// Where the cursor stands after `k` successive selections.
pub open spec fn rr_cursor_after(cursor: nat, n: nat, k: nat) -> nat
    decreases k,
{
    if k == 0 {
        cursor
    } else {
        rr_cursor_after(rr_next(cursor, n), n, (k - 1) as nat)
    }
}

/// How often `x` occurs in `s`.
pub open spec fn occurrences(s: Seq<nat>, x: nat) -> nat
    decreases s.len(),
{
    if s.len() == 0 {
        0
    } else {
        (if s[0] == x {
            1nat
        } else {
            0nat
        }) + occurrences(s.drop_first(), x)
    }
}

proof fn lemma_occurrences_concat(a: Seq<nat>, b: Seq<nat>, x: nat)
    ensures
        occurrences(a + b, x) == occurrences(a, x) + occurrences(b, x),
    decreases a.len(),
{
    if a.len() == 0 {
        assert(a + b =~= b);
    } else {
        assert((a + b).drop_first() =~= a.drop_first() + b);
        lemma_occurrences_concat(a.drop_first(), b, x);
    }
}

proof fn lemma_picks_concat(cursor: nat, n: nat, k1: nat, k2: nat)
    ensures
        rr_picks(cursor, n, k1 + k2) == rr_picks(cursor, n, k1) + rr_picks(
            rr_cursor_after(cursor, n, k1),
            n,
            k2,
        ),
    decreases k1,
{
    if k1 == 0 {
        assert(rr_picks(cursor, n, k1) + rr_picks(cursor, n, k2) =~= rr_picks(cursor, n, k2));
    } else {
        lemma_picks_concat(rr_next(cursor, n), n, (k1 - 1) as nat, k2);
        assert(rr_picks(cursor, n, k1 + k2) =~= rr_picks(cursor, n, k1) + rr_picks(
            rr_cursor_after(cursor, n, k1),
            n,
            k2,
        ));
    }
}

/// A run that does not wrap: from a cursor inside the registry, `k` picks
/// that stay inside it are the places `cursor`, `cursor + 1`, and so on.
proof fn lemma_run(cursor: nat, n: nat, k: nat, x: nat)
    requires
        cursor + k <= n,
        k > 0 ==> cursor < n,
    ensures
        occurrences(rr_picks(cursor, n, k), x) == (if cursor <= x < cursor + k {
            1nat
        } else {
            0nat
        }),
        rr_cursor_after(cursor, n, k) == cursor + k,
    decreases k,
{
    if k > 0 {
        let rest = rr_picks(rr_next(cursor, n), n, (k - 1) as nat);
        let all = rr_picks(cursor, n, k);
        assert(all[0] == cursor);
        assert(all.drop_first() =~= rest);
        lemma_run(cursor + 1, n, (k - 1) as nat, x);
    }
}

/// Over twice as many successive selections as there are workers, against a
/// registry that does not change, round robin picks every place exactly
/// twice, wherever its cursor stood before.
pub proof fn lemma_round_robin_is_fair(cursor: nat, n: nat, worker: nat)
    requires
        n >= 1,
        worker < n,
    ensures
        occurrences(rr_picks(cursor, n, 2 * n), worker) == 2,
        rr_picks(cursor, n, 2 * n).len() == 2 * n,
{
    let c0 = rr_pick(cursor, n);
    let first = (n - c0) as nat;
    // The first pick brings the cursor inside the registry.
    assert(rr_picks(cursor, n, 2 * n) == rr_picks(c0, n, 2 * n)) by {
        assert(rr_pick(c0, n) == c0);
        assert(rr_next(c0, n) == rr_next(cursor, n));
    }
    // To the end of the registry, then once round, then up to the start.
    lemma_picks_concat(c0, n, first, n + c0);
    lemma_run(c0, n, first, worker);
    let wrapped = rr_cursor_after(c0, n, first);
    assert(wrapped == n);
    assert(rr_picks(n, n, n + c0) == rr_picks(0, n, n + c0)) by {
        assert(rr_pick(n, n) == rr_pick(0, n));
        assert(rr_next(n, n) == rr_next(0, n));
    }
    lemma_picks_concat(0, n, n, c0);
    lemma_run(0, n, n, worker);
    assert(rr_picks(n, n, c0) == rr_picks(0, n, c0)) by {
        if c0 > 0 {
            assert(rr_pick(n, n) == rr_pick(0, n));
            assert(rr_next(n, n) == rr_next(0, n));
        }
    }
    lemma_run(0, n, c0, worker);
    lemma_occurrences_concat(rr_picks(c0, n, first), rr_picks(n, n, n + c0), worker);
    lemma_occurrences_concat(rr_picks(0, n, n), rr_picks(n, n, c0), worker);
    lemma_picks_len(cursor, n, 2 * n);
}

/// `k` selections pick `k` places, each of them inside the registry.
pub proof fn lemma_picks_len(cursor: nat, n: nat, k: nat)
    ensures
        rr_picks(cursor, n, k).len() == k,
        n >= 1 ==> forall|i: int| 0 <= i < k ==> #[trigger] rr_picks(cursor, n, k)[i] < n,
    decreases k,
{
    if k > 0 {
        lemma_picks_len(rr_next(cursor, n), n, (k - 1) as nat);
        let all = rr_picks(cursor, n, k);
        let rest = rr_picks(rr_next(cursor, n), n, (k - 1) as nat);
        if n >= 1 {
            assert forall|i: int| 0 <= i < k implies #[trigger] all[i] < n by {
                if i > 0 {
                    assert(all[i] == rest[i - 1]);
                }
            }
        }
    }
}

/// Round robin: the workers take turns in the order of the registry.
pub struct RoundRobinBalancer {
    current_worker: usize,
}

impl RoundRobinBalancer {
    /// Where the cursor stands.
    pub closed spec fn cursor(&self) -> nat {
        self.current_worker as nat
    }

    /// A balancer whose cursor stands at the first place.
    pub fn new() -> (r: Self)
        ensures
            r.cursor() == 0,
    {
        RoundRobinBalancer { current_worker: 0 }
    }
}

impl LoadBalancer for RoundRobinBalancer {
    open spec fn choice(&self, channels: Seq<WorkerRecordView>) -> nat {
        rr_pick(self.cursor(), channels.len())
    }

    open spec fn follows(&self, before: &Self, channels: Seq<WorkerRecordView>) -> bool {
        self.cursor() == (if channels.len() == 0 {
            before.cursor()
        } else {
            rr_next(before.cursor(), channels.len())
        })
    }

    /// Picks the next worker in turn and moves the cursor past it; with no
    /// worker connected the cursor stays.
    fn select_worker(&mut self, channels: &GrpcWorkerChannels) -> (r: Option<String>) {
        let n = channels.len();
        if n == 0 {
            return None;
        }
        if self.current_worker >= n {
            self.current_worker = 0;
        }
        let key = channels.get(self.current_worker).worker_id.clone();
        self.current_worker = self.current_worker + 1;
        Some(key)
    }
}

} // verus!
