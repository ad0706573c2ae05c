use vstd::prelude::*;

verus! {

/// The pairs `(i, j)` with `i < j < end`, in ascending `j`.
pub open spec fn pair_row(i: int, end: int) -> Seq<(usize, usize)> {
    Seq::new(
        if end > i + 1 { (end - i - 1) as nat } else { 0 },
        |k: int| (i as usize, (i + 1 + k) as usize),
    )
}

/// The rows of pairs `(i, j)` with `i < m` and `i < j < n`, row after row.
pub open spec fn pair_rows(m: nat, n: int) -> Seq<(usize, usize)>
    decreases m,
{
    if m == 0 {
        Seq::empty()
    } else {
        pair_rows((m - 1) as nat, n) + pair_row(m - 1, n)
    }
}

/// The order of the pairwise collision sweep over `n` balls: every pair of
/// indices `(i, j)` with `i < j < n`, by ascending `i`, then ascending `j`.
pub open spec fn sweep_order(n: nat) -> Seq<(usize, usize)> {
    pair_rows(n, n as int)
}

/// The index pairs that one collision pass over `n` balls visits, in the
/// order it visits them.
pub fn sweep_pairs(n: usize) -> (r: Vec<(usize, usize)>)
    ensures
        r@ == sweep_order(n as nat),
{
    let mut r: Vec<(usize, usize)> = Vec::new();
    let mut i: usize = 0;
    while i < n
        invariant
            i <= n,
            r@ == pair_rows(i as nat, n as int),
        decreases n - i,
    {
        let mut j: usize = i + 1;
        while j < n
            invariant
                i < n,
                i + 1 <= j <= n,
                r@ == pair_rows(i as nat, n as int) + pair_row(i as int, j as int),
            decreases n - j,
        {
            proof {
                assert(pair_row(i as int, j as int).push((i, j)) =~= pair_row(
                    i as int,
                    j + 1,
                ));
            }
            r.push((i, j));
            j += 1;
        }
        i += 1;
    }
    r
}

/// `a` comes strictly before `b` in the order of the sweep.
pub open spec fn visited_before(a: (usize, usize), b: (usize, usize)) -> bool {
    a.0 < b.0 || (a.0 == b.0 && a.1 < b.1)
}

proof fn lemma_pair_rows(m: nat, n: usize)
    requires
        m <= n,
    ensures
        2 * pair_rows(m, n as int).len() == m * (2 * n - m - 1),
        forall|k: int|
            0 <= k < pair_rows(m, n as int).len() ==> {
                let p = #[trigger] pair_rows(m, n as int)[k];
                p.0 < m && p.0 < p.1 < n
            },
        forall|i: usize, j: usize|
            i < m && i < j < n ==> #[trigger] pair_rows(m, n as int).contains((i, j)),
        forall|k1: int, k2: int|
            0 <= k1 < k2 < pair_rows(m, n as int).len() ==> visited_before(
                #[trigger] pair_rows(m, n as int)[k1],
                #[trigger] pair_rows(m, n as int)[k2],
            ),
    decreases m,
{
    if m > 0 {
        let m1 = (m - 1) as nat;
        lemma_pair_rows(m1, n);
        let prev = pair_rows(m1, n as int);
        let row = pair_row(m1 as int, n as int);
        let all = pair_rows(m, n as int);
        assert(all == prev + row);
        assert(row.len() == n - m1 - 1);
        assert(2 * all.len() == m * (2 * n - m - 1)) by (nonlinear_arith)
            requires
                all.len() == prev.len() + row.len(),
                2 * prev.len() == m1 * (2 * n - m1 - 1),
                row.len() == n - m1 - 1,
                m == m1 + 1,
        ;
        assert forall|i: usize, j: usize| i < m && i < j < n implies #[trigger] all.contains(
            (i, j),
        ) by {
            if i < m1 {
                assert(prev.contains((i, j)));
                let k = choose|k: int| 0 <= k < prev.len() && prev[k] == (i, j);
                assert(all[k] == (i, j));
            } else {
                let k = prev.len() + (j - m1 - 1);
                assert(all[k] == (i, j));
            }
        }
    }
}

/// One collision pass over `n` balls visits every pair of distinct indices
/// below `n` exactly once, as `(i, j)` with `i < j` and never in the reverse
/// orientation, in ascending order of `i` and then of `j`; there are
/// `n * (n - 1) / 2` of them.
pub proof fn lemma_sweep_visits_each_pair_once(n: usize)
    ensures
        2 * sweep_order(n as nat).len() == n * (n - 1),
        forall|i: usize, j: usize|
            i < j < n ==> #[trigger] sweep_order(n as nat).contains((i, j)),
        forall|k: int|
            0 <= k < sweep_order(n as nat).len() ==> {
                let p = #[trigger] sweep_order(n as nat)[k];
                p.0 < p.1 < n
            },
        forall|k1: int, k2: int|
            0 <= k1 < k2 < sweep_order(n as nat).len() ==> visited_before(
                #[trigger] sweep_order(n as nat)[k1],
                #[trigger] sweep_order(n as nat)[k2],
            ),
        sweep_order(n as nat).no_duplicates(),
{
    lemma_pair_rows(n as nat, n);
    let s = sweep_order(n as nat);
    assert(2 * s.len() == n * (n - 1)) by (nonlinear_arith)
        requires
            2 * s.len() == n * (2 * n - n - 1),
    ;
    assert forall|k1: int, k2: int| 0 <= k1 < s.len() && 0 <= k2 < s.len() && k1 != k2 implies s[k1]
        != s[k2] by {
        if k1 < k2 {
            assert(visited_before(s[k1], s[k2]));
        } else {
            assert(visited_before(s[k2], s[k1]));
        }
    }
}

} // verus!
