//! Best-effort removal of a project's branches: resources are cleaned and
//! rows deleted branch by branch, failed deletions are retried once, and
//! remote workspaces are swept once more so that shared workspaces converge.
use vstd::prelude::*;
use crate::models::{Branch, BranchType};

verus! {

/// One call made during the cleanup, by branch index.
#[derive(Clone, Copy, Debug, PartialEq, Eq, Structural)]
pub enum CleanupCall {
    /// `cleanup_branch_resources` on branch `i`.
    Resources(usize),
    /// `delete_branch_row` on branch `i`, and whether it succeeded.
    DeleteRow(usize, bool),
}

/// The branch types, in order.
pub open spec fn kinds(branches: Seq<Branch>) -> Seq<BranchType> {
    branches.map_values(|b: Branch| b.branch_type)
}

/// The first pass over branches `0..n`: clean, then delete the row.
pub open spec fn first_pass(n: nat, ok: Seq<bool>) -> Seq<CleanupCall>
    decreases n,
{
    if n == 0 {
        Seq::empty()
    } else {
        first_pass((n - 1) as nat, ok) + seq![
            CleanupCall::Resources((n - 1) as usize),
            CleanupCall::DeleteRow((n - 1) as usize, ok[n - 1]),
        ]
    }
}

/// The indices among `0..n` whose first deletion failed, in order.
pub open spec fn failed(ok: Seq<bool>, n: nat) -> Seq<usize>
    decreases n,
{
    if n == 0 {
        Seq::empty()
    } else if !ok[n - 1] {
        failed(ok, (n - 1) as nat).push((n - 1) as usize)
    } else {
        failed(ok, (n - 1) as nat)
    }
}

/// The retried deletions, with their outcomes.
pub open spec fn retries(failed: Seq<usize>, retry_ok: Seq<bool>) -> Seq<CleanupCall> {
    Seq::new(failed.len(), |k: int| CleanupCall::DeleteRow(failed[k], retry_ok[k]))
}

/// The second cleaning of the remote branches among `0..n`, in order.
pub open spec fn remote_sweep(kinds: Seq<BranchType>, n: nat) -> Seq<CleanupCall>
    decreases n,
{
    if n == 0 {
        Seq::empty()
    } else if kinds[n - 1] == BranchType::Remote {
        remote_sweep(kinds, (n - 1) as nat).push(CleanupCall::Resources((n - 1) as usize))
    } else {
        remote_sweep(kinds, (n - 1) as nat)
    }
}

/// All calls of a cleanup, given how the first deletions (`ok`) and the
/// retries (`retry_ok`) turned out.
pub open spec fn cleanup_trace(kinds: Seq<BranchType>, ok: Seq<bool>, retry_ok: Seq<bool>) -> Seq<
    CleanupCall,
> {
    let f = failed(ok, kinds.len());
    first_pass(kinds.len(), ok) + if f.len() == 0 {
        Seq::empty()
    } else {
        retries(f, retry_ok) + remote_sweep(kinds, kinds.len())
    }
}

proof fn lemma_first_pass_len(n: nat, ok: Seq<bool>)
    ensures
        first_pass(n, ok).len() == 2 * n,
    decreases n,
{
    if n > 0 {
        lemma_first_pass_len((n - 1) as nat, ok);
    }
}

/// Whether `d` is an outcome that `delete_branch_row` can give for branch
/// `b`: some call of a closure of type `G` on `b` may return a result whose
/// success is `d`.
pub open spec fn delete_outcome_possible<G: FnMut(&Branch) -> Result<(), String>>(b: Branch, d: bool) -> bool {
    exists|g: G, r: Result<(), String>| #[trigger] call_ensures(g, (&b,), r) && (r is Ok) == d
}

/// What follows the first pass, given how each branch's first deletion
/// went (`first_ok[i]` for `branches[i]`): the branches whose row is
/// deleted once more (those whose first deletion failed, in order), and the
/// branches cleaned a second time (every remote branch, in order, when some
/// deletion failed; none otherwise).
pub fn cleanup_followup(branches: &[Branch], first_ok: &[bool]) -> (res: (Vec<usize>, Vec<usize>))
    requires
        branches@.len() == first_ok@.len(),
    ensures
        res.0@ == failed(first_ok@, branches@.len()),
        forall|k: int| 0 <= k < res.1@.len() ==> #[trigger] res.1@[k] < branches@.len(),
        res.1@.map_values(|j: usize| CleanupCall::Resources(j)) == if res.0@.len() == 0 {
            Seq::<CleanupCall>::empty()
        } else {
            remote_sweep(kinds(branches@), branches@.len())
        },
{
    let n = branches.len();
    let mut retry: Vec<usize> = Vec::new();
    for i in 0..n
        invariant
            n == branches@.len() == first_ok@.len(),
            retry@ == failed(first_ok@, i as nat),
    {
        if !first_ok[i] {
            retry.push(i);
        }
    }
    let mut sweep: Vec<usize> = Vec::new();
    if retry.len() == 0 {
        assert(sweep@.map_values(|j: usize| CleanupCall::Resources(j)) =~= Seq::<CleanupCall>::empty());
        return (retry, sweep);
    }
    for i in 0..n
        invariant
            n == branches@.len(),
            forall|k: int| 0 <= k < sweep@.len() ==> #[trigger] sweep@[k] < i,
            sweep@.map_values(|j: usize| CleanupCall::Resources(j)) == remote_sweep(kinds(branches@), i as nat),
    {
        if branches[i].branch_type == BranchType::Remote {
            let ghost before = sweep@;
            sweep.push(i);
            assert(sweep@.map_values(|j: usize| CleanupCall::Resources(j)) =~= before.map_values(
                |j: usize| CleanupCall::Resources(j),
            ).push(CleanupCall::Resources(i)));
        }
    }
    (retry, sweep)
}

/// Whether every deletion recorded in `trace` has an outcome that the
/// deletion callback can give for its branch.
pub open spec fn outcomes_tied<G: FnMut(&Branch) -> Result<(), String>>(trace: Seq<CleanupCall>, branches: Seq<Branch>) -> bool {
    forall|k: int|
        0 <= k < trace.len() ==> (#[trigger] trace[k] matches CleanupCall::DeleteRow(i, d) ==> i < branches.len()
            && delete_outcome_possible::<G>(branches[i as int], d))
}

/// Cleans up the branches of a project being deleted. Each branch's
/// resources are cleaned and its row deleted, in order; rows whose deletion
/// failed are retried once; and when any deletion failed, the remote
/// branches are cleaned once more (`cleanup_followup` decides both). Returns
/// the calls made, in order, each deletion with the outcome its call gave.
pub fn cleanup_project_branches_best_effort<F, G>(
    branches: &[Branch],
    mut cleanup_branch_resources: F,
    mut delete_branch_row: G,
) -> (trace: Vec<CleanupCall>) where F: FnMut(&Branch), G: FnMut(&Branch) -> Result<(), String>
    requires
        forall|f: F, b: &Branch| call_requires(f, (b,)),
        forall|g: G, b: &Branch| call_requires(g, (b,)),
    ensures
        exists|ok: Seq<bool>, retry_ok: Seq<bool>|
            ok.len() == branches@.len() && retry_ok.len() == failed(ok, branches@.len()).len()
                && trace@ == cleanup_trace(kinds(branches@), ok, retry_ok),
        outcomes_tied::<G>(trace@, branches@),
{
    let n = branches.len();
    let mut trace: Vec<CleanupCall> = Vec::new();
    let mut first_ok: Vec<bool> = Vec::new();
    for i in 0..n
        invariant
            n == branches@.len(),
            forall|f: F, b: &Branch| call_requires(f, (b,)),
            forall|g: G, b: &Branch| call_requires(g, (b,)),
            first_ok@.len() == i,
            trace@ == first_pass(i as nat, first_ok@),
            outcomes_tied::<G>(trace@, branches@),
    {
        cleanup_branch_resources(&branches[i]);
        trace.push(CleanupCall::Resources(i));
        let r = delete_branch_row(&branches[i]);
        let deleted = r.is_ok();
        assert(delete_outcome_possible::<G>(branches@[i as int], deleted));
        let ghost before_ok = first_ok@;
        let ghost before_trace = trace@;
        trace.push(CleanupCall::DeleteRow(i, deleted));
        first_ok.push(deleted);
        proof {
            let ok1 = first_ok@;
            lemma_first_pass_prefix(i as nat, before_ok, ok1);
            assert(ok1[i as int] == deleted);
            assert(first_pass((i + 1) as nat, ok1) == first_pass(i as nat, ok1) + seq![
                CleanupCall::Resources(i),
                CleanupCall::DeleteRow(i, deleted),
            ]);
            assert(trace@ =~= first_pass((i + 1) as nat, ok1));
            assert forall|k: int| 0 <= k < trace@.len() implies (#[trigger] trace@[k] matches CleanupCall::DeleteRow(j, d)
                ==> j < branches@.len() && delete_outcome_possible::<G>(branches@[j as int], d)) by {
                if k < before_trace.len() {
                    assert(trace@[k] == before_trace[k]);
                }
            }
        }
    }
    let ghost ok = first_ok@;
    assert(kinds(branches@).len() == n);
    let (retry, sweep) = cleanup_followup(branches, first_ok.as_slice());
    proof {
        lemma_failed_members(ok, n as nat);
    }
    if retry.len() == 0 {
        assert(trace@ =~= cleanup_trace(kinds(branches@), ok, Seq::<bool>::empty()));
        return trace;
    }
    let ghost mut retry_ok: Seq<bool> = Seq::empty();
    let ghost pass = trace@;
    let m = retry.len();
    for k in 0..m
        invariant
            m == retry@.len(),
            n == branches@.len(),
            forall|j: int| 0 <= j < m ==> #[trigger] retry@[j] < n,
            forall|g: G, b: &Branch| call_requires(g, (b,)),
            retry_ok.len() == k,
            trace@ == pass + retries(retry@.take(k as int), retry_ok),
            outcomes_tied::<G>(trace@, branches@),
    {
        let idx = retry[k];
        let r = delete_branch_row(&branches[idx]);
        let retried = r.is_ok();
        assert(delete_outcome_possible::<G>(branches@[idx as int], retried));
        let ghost before_trace = trace@;
        trace.push(CleanupCall::DeleteRow(idx, retried));
        proof {
            retry_ok = retry_ok.push(retried);
            assert(retries(retry@.take(k + 1), retry_ok) =~= retries(
                retry@.take(k as int),
                retry_ok.take(k as int),
            ).push(CleanupCall::DeleteRow(idx, retried)));
            assert(retries(retry@.take(k as int), retry_ok.take(k as int)) =~= retries(
                retry@.take(k as int),
                retry_ok.drop_last(),
            ));
            assert forall|q: int| 0 <= q < trace@.len() implies (#[trigger] trace@[q] matches CleanupCall::DeleteRow(j, d)
                ==> j < branches@.len() && delete_outcome_possible::<G>(branches@[j as int], d)) by {
                if q < before_trace.len() {
                    assert(trace@[q] == before_trace[q]);
                }
            }
        }
    }
    let ghost swept = trace@;
    assert(retry@.take(m as int) =~= retry@);
    let s = sweep.len();
    for k in 0..s
        invariant
            s == sweep@.len(),
            n == branches@.len(),
            forall|q: int| 0 <= q < s ==> #[trigger] sweep@[q] < n,
            forall|f: F, b: &Branch| call_requires(f, (b,)),
            trace@ == swept + sweep@.take(k as int).map_values(|j: usize| CleanupCall::Resources(j)),
            outcomes_tied::<G>(swept, branches@),
    {
        let idx = sweep[k];
        cleanup_branch_resources(&branches[idx]);
        trace.push(CleanupCall::Resources(idx));
        assert(sweep@.take(k + 1).map_values(|j: usize| CleanupCall::Resources(j)) =~= sweep@.take(k as int).map_values(
            |j: usize| CleanupCall::Resources(j),
        ).push(CleanupCall::Resources(idx)));
    }
    assert(sweep@.take(s as int) =~= sweep@);
    assert(trace@ =~= cleanup_trace(kinds(branches@), ok, retry_ok));
    assert forall|q: int| 0 <= q < trace@.len() implies (#[trigger] trace@[q] matches CleanupCall::DeleteRow(j, d)
        ==> j < branches@.len() && delete_outcome_possible::<G>(branches@[j as int], d)) by {
        if q < swept.len() {
            assert(trace@[q] == swept[q]);
        } else {
            assert(trace@[q] == sweep@.map_values(|j: usize| CleanupCall::Resources(j))[q - swept.len()]);
        }
    }
    trace
}

proof fn lemma_first_pass_prefix(m: nat, ok: Seq<bool>, ok1: Seq<bool>)
    requires
        m <= ok.len() <= ok1.len(),
        forall|j: int| 0 <= j < ok.len() ==> ok[j] == ok1[j],
    ensures
        first_pass(m, ok1) == first_pass(m, ok),
    decreases m,
{
    if m > 0 {
        lemma_first_pass_prefix((m - 1) as nat, ok, ok1);
    }
}

proof fn lemma_first_pass_index(n: nat, ok: Seq<bool>)
    requires
        n <= usize::MAX,
    ensures
        first_pass(n, ok).len() == 2 * n,
        forall|i: int|
            0 <= i < n ==> #[trigger] first_pass(n, ok)[2 * i] == CleanupCall::Resources(i as usize)
                && first_pass(n, ok)[2 * i + 1] == CleanupCall::DeleteRow(i as usize, ok[i]),
    decreases n,
{
    if n > 0 {
        lemma_first_pass_index((n - 1) as nat, ok);
        let p = first_pass((n - 1) as nat, ok);
        assert forall|i: int| 0 <= i < n implies #[trigger] first_pass(n, ok)[2 * i]
            == CleanupCall::Resources(i as usize) && first_pass(n, ok)[2 * i + 1]
            == CleanupCall::DeleteRow(i as usize, ok[i]) by {
            if i < n - 1 {
                assert(first_pass(n, ok)[2 * i] == p[2 * i]);
                assert(first_pass(n, ok)[2 * i + 1] == p[2 * i + 1]);
            }
        }
    }
}

proof fn lemma_failed_members(ok: Seq<bool>, n: nat)
    requires
        n <= ok.len(),
        n <= usize::MAX,
    ensures
        forall|k: int|
            0 <= k < failed(ok, n).len() ==> #[trigger] failed(ok, n)[k] < n && !ok[failed(ok, n)[k] as int],
        forall|i: int|
            0 <= i < n && !ok[i] ==> exists|k: int| 0 <= k < failed(ok, n).len() && #[trigger] failed(ok, n)[k] == i,
        failed(ok, n).len() == 0 <==> forall|i: int| 0 <= i < n ==> ok[i],
    decreases n,
{
    if n > 0 {
        lemma_failed_members(ok, (n - 1) as nat);
        let f = failed(ok, (n - 1) as nat);
        let g = failed(ok, n);
        assert forall|i: int| 0 <= i < n && !ok[i] implies exists|k: int| 0 <= k < g.len() && #[trigger] g[k] == i by {
            if i < n - 1 {
                let k = choose|k: int| 0 <= k < f.len() && #[trigger] f[k] == i;
                assert(g[k] == f[k]);
            } else {
                assert(g == f.push((n - 1) as usize));
                assert(g[g.len() - 1] == i);
            }
        }
        if g.len() == 0 {
            assert forall|i: int| 0 <= i < n implies ok[i] by {
                if !ok[i] {
                    let k = choose|k: int| 0 <= k < g.len() && #[trigger] g[k] == i;
                }
            }
        }
        if forall|i: int| 0 <= i < n ==> ok[i] {
            assert(ok[n - 1]);
        }
    }
}

proof fn lemma_remote_sweep_members(kinds: Seq<BranchType>, n: nat)
    requires
        n <= kinds.len(),
        n <= usize::MAX,
    ensures
        forall|k: int|
            0 <= k < remote_sweep(kinds, n).len() ==> exists|j: int|
                0 <= j < n && kinds[j] == BranchType::Remote && #[trigger] remote_sweep(kinds, n)[k]
                    == CleanupCall::Resources(j as usize),
        forall|i: int|
            0 <= i < n && kinds[i] == BranchType::Remote ==> exists|k: int|
                0 <= k < remote_sweep(kinds, n).len() && #[trigger] remote_sweep(kinds, n)[k]
                    == CleanupCall::Resources(i as usize),
    decreases n,
{
    if n > 0 {
        lemma_remote_sweep_members(kinds, (n - 1) as nat);
        let s0 = remote_sweep(kinds, (n - 1) as nat);
        let s1 = remote_sweep(kinds, n);
        assert forall|k: int| 0 <= k < s1.len() implies exists|j: int|
            0 <= j < n && kinds[j] == BranchType::Remote && #[trigger] s1[k] == CleanupCall::Resources(
                j as usize,
            ) by {
            if k < s0.len() {
                assert(s1[k] == s0[k]);
                let j = choose|j: int|
                    0 <= j < n - 1 && kinds[j] == BranchType::Remote && #[trigger] s0[k]
                        == CleanupCall::Resources(j as usize);
            } else {
                assert(s1[k] == CleanupCall::Resources((n - 1) as usize));
            }
        }
        assert forall|i: int| 0 <= i < n && kinds[i] == BranchType::Remote implies exists|k: int|
            0 <= k < s1.len() && #[trigger] s1[k] == CleanupCall::Resources(i as usize) by {
            if i < n - 1 {
                let k = choose|k: int|
                    0 <= k < s0.len() && #[trigger] s0[k] == CleanupCall::Resources(i as usize);
                assert(s1[k] == s0[k]);
            } else {
                assert(s1[s1.len() - 1] == CleanupCall::Resources(i as usize));
            }
        }
    }
}

/// The cleanup's order, as a law over every outcome of the deletions:
/// each branch is cleaned and then its row deleted, in order; when every
/// deletion succeeded nothing more happens; otherwise each failed deletion
/// is retried once, and every remote branch (and no local one) is cleaned a
/// second time.
pub proof fn lemma_cleanup_trace_shape(kinds: Seq<BranchType>, ok: Seq<bool>, retry_ok: Seq<bool>)
    requires
        ok.len() == kinds.len(),
        kinds.len() <= usize::MAX,
        retry_ok.len() == failed(ok, kinds.len()).len(),
    ensures
        cleanup_trace(kinds, ok, retry_ok).len() >= 2 * kinds.len(),
        forall|i: int|
            0 <= i < kinds.len() ==> #[trigger] cleanup_trace(kinds, ok, retry_ok)[2 * i]
                == CleanupCall::Resources(i as usize) && cleanup_trace(kinds, ok, retry_ok)[2 * i + 1]
                == CleanupCall::DeleteRow(i as usize, ok[i]),
        (forall|i: int| 0 <= i < kinds.len() ==> ok[i]) ==> cleanup_trace(kinds, ok, retry_ok).len()
            == 2 * kinds.len(),
        forall|k: int|
            2 * kinds.len() <= k < cleanup_trace(kinds, ok, retry_ok).len() ==> (#[trigger] cleanup_trace(
                kinds,
                ok,
                retry_ok,
            )[k] matches CleanupCall::DeleteRow(j, _) ==> !ok[j as int]),
        forall|k: int|
            2 * kinds.len() <= k < cleanup_trace(kinds, ok, retry_ok).len() ==> (#[trigger] cleanup_trace(
                kinds,
                ok,
                retry_ok,
            )[k] matches CleanupCall::Resources(j) ==> kinds[j as int] == BranchType::Remote),
        forall|i: int|
            0 <= i < kinds.len() && !ok[i] ==> exists|k: int|
                2 * kinds.len() <= k < cleanup_trace(kinds, ok, retry_ok).len() && (#[trigger] cleanup_trace(
                    kinds,
                    ok,
                    retry_ok,
                )[k] matches CleanupCall::DeleteRow(j, _) && j == i),
        (exists|i: int| 0 <= i < kinds.len() && !ok[i]) ==> forall|i: int|
            0 <= i < kinds.len() && kinds[i] == BranchType::Remote ==> exists|k: int|
                2 * kinds.len() <= k < cleanup_trace(kinds, ok, retry_ok).len() && #[trigger] cleanup_trace(
                    kinds,
                    ok,
                    retry_ok,
                )[k] == CleanupCall::Resources(i as usize),
{
    let n = kinds.len();
    let t = cleanup_trace(kinds, ok, retry_ok);
    let f = failed(ok, n);
    lemma_first_pass_index(n, ok);
    lemma_failed_members(ok, n);
    lemma_remote_sweep_members(kinds, n);
    let fp = first_pass(n, ok);
    assert forall|i: int| 0 <= i < n implies #[trigger] t[2 * i] == CleanupCall::Resources(i as usize)
        && t[2 * i + 1] == CleanupCall::DeleteRow(i as usize, ok[i]) by {
        assert(t[2 * i] == fp[2 * i]);
        assert(t[2 * i + 1] == fp[2 * i + 1]);
    }
    if f.len() > 0 {
        let rs = retries(f, retry_ok);
        let sw = remote_sweep(kinds, n);
        assert(t == fp + (rs + sw));
        assert forall|k: int| 2 * n <= k < t.len() implies (#[trigger] t[k] matches CleanupCall::DeleteRow(
            j,
            _,
        ) ==> !ok[j as int]) by {
            let q = k - 2 * n;
            if q < rs.len() {
                assert(t[k] == rs[q]);
            } else {
                assert(t[k] == sw[q - rs.len()]);
                let jj = choose|jj: int|
                    0 <= jj < n && kinds[jj] == BranchType::Remote && #[trigger] sw[q - rs.len()]
                        == CleanupCall::Resources(jj as usize);
            }
        }
        assert forall|k: int| 2 * n <= k < t.len() implies (#[trigger] t[k] matches CleanupCall::Resources(
            j,
        ) ==> kinds[j as int] == BranchType::Remote) by {
            let q = k - 2 * n;
            if q < rs.len() {
                assert(t[k] == rs[q]);
            } else {
                assert(t[k] == sw[q - rs.len()]);
                let jj = choose|jj: int|
                    0 <= jj < n && kinds[jj] == BranchType::Remote && #[trigger] sw[q - rs.len()]
                        == CleanupCall::Resources(jj as usize);
                if let CleanupCall::Resources(j) = t[k] {
                    assert(j as int == jj);
                }
            }
        }
        assert forall|i: int| 0 <= i < n && !ok[i] implies exists|k: int|
            2 * n <= k < t.len() && (#[trigger] t[k] matches CleanupCall::DeleteRow(j, _) && j == i) by {
            let q = choose|q: int| 0 <= q < f.len() && #[trigger] f[q] == i;
            assert(t[2 * n + q] == rs[q]);
        }
        assert forall|i: int| 0 <= i < n && kinds[i] == BranchType::Remote implies exists|k: int|
            2 * n <= k < t.len() && #[trigger] t[k] == CleanupCall::Resources(i as usize) by {
            let q = choose|q: int|
                0 <= q < sw.len() && #[trigger] sw[q] == CleanupCall::Resources(i as usize);
            assert(t[2 * n + rs.len() + q] == sw[q]);
        }
    } else {
        assert(t =~= fp);
    }
}

} // verus!
