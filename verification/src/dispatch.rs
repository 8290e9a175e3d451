use vstd::prelude::*;

verus! {

/// One dispatch of the entry function: a run of workgroups and the argument sets they serve.
#[derive(Debug, Clone, Copy, PartialEq, Eq, Structural)]
pub struct Dispatch {
    /// The first workgroup of this dispatch, counted over the whole run.
    pub i_invocation: u32,
    /// The number of workgroups dispatched.
    pub dispatch_count: u32,
    /// The argument sets of this dispatch are `args_start..args_end`.
    pub args_start: usize,
    pub args_end: usize,
}

/// The first workgroup of dispatch `k`, each dispatch taking at most `max` workgroups.
pub open spec fn chunk_first(k: int, max: int) -> int {
    k * max
}

/// The workgroups of dispatch `k`.
pub open spec fn chunk_count(k: int, total: int, max: int) -> int {
    if total - k * max < max {
        total - k * max
    } else {
        max
    }
}

/// The first argument set of dispatch `k`.
pub open spec fn chunk_args_start(k: int, max: int, wg: int) -> int {
    k * max * wg
}

/// One past the last argument set of dispatch `k`.
pub open spec fn chunk_args_end(k: int, total: int, max: int, wg: int, args_len: int) -> int {
    let end = (k * max + chunk_count(k, total, max)) * wg;
    if end < args_len {
        end
    } else {
        args_len
    }
}

/// Whether `d` is dispatch `k` of a run of `total` workgroups over `args_len` argument sets.
pub open spec fn is_chunk(
    d: Dispatch,
    k: int,
    total: int,
    max: int,
    wg: int,
    args_len: int,
) -> bool {
    &&& 0 <= chunk_first(k, max) < total
    &&& d.i_invocation == chunk_first(k, max)
    &&& d.dispatch_count == chunk_count(k, total, max)
    &&& d.args_start == chunk_args_start(k, max, wg)
    &&& d.args_end == chunk_args_end(k, total, max, wg, args_len)
}

/// Splits a run of `total_workgroups` workgroups of `workgroup_size` invocations over
/// `args_len` argument sets into dispatches of at most `max_workgroups` workgroups each.
pub fn plan_dispatches(
    total_workgroups: u32,
    max_workgroups: u32,
    workgroup_size: u32,
    args_len: usize,
) -> (r: Vec<Dispatch>)
    requires
        max_workgroups > 0,
        total_workgroups * workgroup_size <= usize::MAX,
        forall|k: int|
            0 <= k && #[trigger] chunk_first(k, max_workgroups as int) < total_workgroups
                ==> chunk_args_start(k, max_workgroups as int, workgroup_size as int) <= args_len,
    ensures
        r@.len() * max_workgroups >= total_workgroups,
        forall|k: int|
            0 <= k < r@.len() ==> is_chunk(
                #[trigger] r@[k],
                k,
                total_workgroups as int,
                max_workgroups as int,
                workgroup_size as int,
                args_len as int,
            ),
{
    let ghost total = total_workgroups as int;
    let ghost max = max_workgroups as int;
    let ghost wg = workgroup_size as int;
    let mut r: Vec<Dispatch> = Vec::new();
    let mut i: u32 = 0;
    assert(r@.len() * max == 0) by (nonlinear_arith)
        requires
            r@.len() == 0,
    ;
    while i < total_workgroups
        invariant
            max_workgroups > 0,
            total == total_workgroups,
            max == max_workgroups,
            wg == workgroup_size,
            total_workgroups * workgroup_size <= usize::MAX,
            forall|k: int|
                0 <= k && #[trigger] chunk_first(k, max) < total ==> chunk_args_start(k, max, wg)
                    <= args_len,
            i <= total_workgroups,
            i == r@.len() * max || i == total,
            i < total ==> i == r@.len() * max,
            r@.len() * max >= i,
            forall|k: int|
                0 <= k < r@.len() ==> is_chunk(
                    #[trigger] r@[k],
                    k,
                    total,
                    max,
                    wg,
                    args_len as int,
                ),
        decreases total_workgroups - i,
    {
        let ghost k = r@.len() as int;
        assert(chunk_first(k, max) == i);
        let dispatch_count = if total_workgroups - i < max_workgroups {
            total_workgroups - i
        } else {
            max_workgroups
        };
        assert(i * wg <= total * wg) by (nonlinear_arith)
            requires
                i <= total,
                wg >= 0,
        ;
        assert((i + dispatch_count) * wg <= total * wg) by (nonlinear_arith)
            requires
                i + dispatch_count <= total,
                wg >= 0,
        ;
        assert(i * wg + dispatch_count * wg == (i + dispatch_count) * wg) by (nonlinear_arith);
        assert(k * max * wg == i * wg) by (nonlinear_arith)
            requires
                i == k * max,
        ;
        let args_start = i as usize * workgroup_size as usize;
        let args_count = dispatch_count as usize * workgroup_size as usize;
        let args_end = args_start + args_count;
        let args_end = if args_end < args_len {
            args_end
        } else {
            args_len
        };
        let ghost before = r@;
        r.push(Dispatch { i_invocation: i, dispatch_count, args_start, args_end });
        assert(is_chunk(r@[k], k, total, max, wg, args_len as int));
        assert forall|j: int| 0 <= j < r@.len() implies is_chunk(
            #[trigger] r@[j],
            j,
            total,
            max,
            wg,
            args_len as int,
        ) by {
            if j < k {
                assert(r@[j] == before[j]);
            }
        }
        assert((k + 1) * max == k * max + max) by (nonlinear_arith);
        i = i + dispatch_count;
    }
    r
}

/// The number of workgroups that cover `args_len` argument sets, `wg` to a workgroup.
pub open spec fn workgroups_for(args_len: int, wg: int) -> int {
    (args_len + wg - 1) / wg
}

/// When the run has just enough workgroups for its argument sets, its dispatches hand out the
/// argument sets in order, each exactly once: the first dispatch starts at the first set, each
/// next one where the one before it ended, and the last one ends at the last set. No dispatch
/// has more argument sets than invocations, and no dispatch starts beyond the argument sets,
/// so planning them is safe.
pub proof fn law_dispatches_partition_args(total: int, max: int, wg: int, args_len: int, k: int)
    requires
        max > 0,
        wg > 0,
        args_len >= 0,
        total == workgroups_for(args_len, wg),
        0 <= k,
        chunk_first(k, max) < total,
    ensures
        chunk_args_start(k, max, wg) < args_len,
        chunk_args_end(k, total, max, wg, args_len) - chunk_args_start(k, max, wg) <= chunk_count(
            k,
            total,
            max,
        ) * wg,
        chunk_args_start(k, max, wg) <= chunk_args_end(k, total, max, wg, args_len),
        chunk_first(k + 1, max) < total ==> chunk_args_end(k, total, max, wg, args_len)
            == chunk_args_start(k + 1, max, wg),
        chunk_first(k + 1, max) >= total ==> chunk_args_end(k, total, max, wg, args_len)
            == args_len,
{
    let n = args_len + wg - 1;
    let q = n / wg;
    vstd::arithmetic::div_mod::lemma_fundamental_div_mod(n, wg);
    assert(0 <= n % wg < wg);
    // `total` is the least number of workgroups that covers the argument sets.
    assert((total - 1) * wg < args_len && args_len <= total * wg) by (nonlinear_arith)
        requires
            n == wg * q + n % wg,
            0 <= n % wg < wg,
            n == args_len + wg - 1,
            total == q,
            wg > 0,
    ;
    let f = k * max;
    assert(f * wg <= (total - 1) * wg) by (nonlinear_arith)
        requires
            f <= total - 1,
            wg > 0,
    ;
    assert(k * max * wg == f * wg);
    let c = chunk_count(k, total, max);
    assert((f + c) * wg == f * wg + c * wg) by (nonlinear_arith);
    assert(c > 0);
    assert(c * wg > 0) by (nonlinear_arith)
        requires
            c > 0,
            wg > 0,
    ;
    assert((k + 1) * max == f + max) by (nonlinear_arith)
        requires
            f == k * max,
    ;
    if f + max < total {
        assert((f + max) * wg <= (total - 1) * wg) by (nonlinear_arith)
            requires
                f + max <= total - 1,
                wg > 0,
        ;
        assert((k + 1) * max * wg == (f + max) * wg);
    }
}

/// The results of dispatches joined in order: the first failure, if any, or all the results
/// one after another.
pub open spec fn spec_join_outputs<T, E>(parts: Seq<Result<Vec<T>, E>>) -> Result<Seq<T>, E>
    decreases parts.len(),
{
    if parts.len() == 0 {
        Ok(Seq::empty())
    } else {
        match spec_join_outputs(parts.drop_last()) {
            Err(e) => Err(e),
            Ok(acc) => match parts.last() {
                Err(e) => Err(e),
                Ok(v) => Ok(acc + v@),
            },
        }
    }
}

/// Joins the results of dispatches in order, keeping the first failure.
pub fn join_outputs<T, E>(parts: Vec<Result<Vec<T>, E>>) -> (r: Result<Vec<T>, E>)
    ensures
        match (r, spec_join_outputs(parts@)) {
            (Ok(v), Ok(s)) => v@ == s,
            (Err(e), Err(f)) => e == f,
            _ => false,
        },
{
    let mut acc: Result<Vec<T>, E> = Ok(Vec::new());
    let mut parts = parts;
    let ghost all = parts@;
    let mut i: usize = 0;
    let n = parts.len();
    while i < n
        invariant
            n == all.len(),
            parts@.len() == n - i,
            parts@ == all.skip(i as int),
            match (acc, spec_join_outputs(all.take(i as int))) {
                (Ok(v), Ok(s)) => v@ == s,
                (Err(e), Err(f)) => e == f,
                _ => false,
            },
        decreases n - i,
    {
        let part = parts.remove(0);
        proof {
            assert(all.take(i + 1).drop_last() =~= all.take(i as int));
            assert(all.take(i + 1).last() == all[i as int]);
        }
        acc = match acc {
            Err(e) => Err(e),
            Ok(mut res) => match part {
                Err(e) => Err(e),
                Ok(mut vals) => {
                    res.append(&mut vals);
                    Ok(res)
                },
            },
        };
        i = i + 1;
    }
    proof {
        assert(all.take(n as int) =~= all);
    }
    acc
}

/// Joining the first `m` dispatches' results, each with one result per argument set it was
/// handed, gives one result per argument set up to where dispatch `m - 1` ended.
proof fn lemma_join_prefix<T, E>(
    parts: Seq<Result<Vec<T>, E>>,
    total: int,
    max: int,
    wg: int,
    args_len: int,
    m: int,
)
    requires
        max > 0,
        wg > 0,
        args_len >= 0,
        total == workgroups_for(args_len, wg),
        0 < m <= parts.len(),
        forall|k: int| 0 <= k < parts.len() ==> chunk_first(k, max) < total,
        forall|k: int|
            0 <= k < parts.len() ==> (#[trigger] parts[k] matches Ok(v) && v@.len()
                == chunk_args_end(k, total, max, wg, args_len) - chunk_args_start(k, max, wg)),
    ensures
        spec_join_outputs(parts.take(m)) matches Ok(s) && s.len() == chunk_args_end(
            m - 1,
            total,
            max,
            wg,
            args_len,
        ),
    decreases m,
{
    let front = parts.take(m);
    assert(front.drop_last() =~= parts.take(m - 1));
    assert(front.last() == parts[m - 1]);
    assert(parts[m - 1] is Ok);
    law_dispatches_partition_args(total, max, wg, args_len, m - 1);
    if m == 1 {
        assert(parts.take(0) =~= Seq::<Result<Vec<T>, E>>::empty());
        assert(chunk_args_start(0, max, wg) == 0) by (nonlinear_arith)
            requires
                chunk_args_start(0, max, wg) == 0 * max * wg,
        ;
    } else {
        lemma_join_prefix(parts, total, max, wg, args_len, m - 1);
        law_dispatches_partition_args(total, max, wg, args_len, m - 2);
        assert(m - 2 + 1 == m - 1);
    }
}

/// A run whose workgroups just cover its argument sets gives one result per argument set: when
/// each of its dispatches returns one result per argument set that it was handed, joining them
/// gives as many results as there are argument sets.
pub proof fn law_joined_results_cover_args<T, E>(
    parts: Seq<Result<Vec<T>, E>>,
    total: int,
    max: int,
    wg: int,
    args_len: int,
)
    requires
        max > 0,
        wg > 0,
        args_len >= 0,
        total == workgroups_for(args_len, wg),
        parts.len() * max >= total,
        forall|k: int| 0 <= k < parts.len() ==> chunk_first(k, max) < total,
        forall|k: int|
            0 <= k < parts.len() ==> (#[trigger] parts[k] matches Ok(v) && v@.len()
                == chunk_args_end(k, total, max, wg, args_len) - chunk_args_start(k, max, wg)),
    ensures
        spec_join_outputs(parts) matches Ok(s) && s.len() == args_len,
{
    if parts.len() == 0 {
        // No dispatch: there are no workgroups, so no argument sets.
        let n = args_len + wg - 1;
        vstd::arithmetic::div_mod::lemma_fundamental_div_mod(n, wg);
        assert(args_len == 0) by (nonlinear_arith)
            requires
                n == wg * (n / wg) + n % wg,
                0 <= n % wg < wg,
                n == args_len + wg - 1,
                total == n / wg,
                total <= 0,
                args_len >= 0,
                wg > 0,
        ;
    } else {
        let m = parts.len() as int;
        lemma_join_prefix(parts, total, max, wg, args_len, m);
        assert(parts.take(m) =~= parts);
        assert(chunk_first(m, max) >= total) by (nonlinear_arith)
            requires
                chunk_first(m, max) == m * max,
                m * max >= total,
        ;
        law_dispatches_partition_args(total, max, wg, args_len, m - 1);
        assert(m - 1 + 1 == m);
    }
}

} // verus!
