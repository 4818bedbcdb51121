//! The weighted transition selector: raw `(weight, outcome)` pairs and a skew
//! coefficient become a table of cumulative thresholds, and a draw picks one
//! outcome from that table.
use itertools::Itertools;
use vstd::prelude::*;

use crate::automaton::Transition;
use crate::configuration::{Config, Configurable};

verus! {

/// An edge of a weighted automaton: a weight and the node it leads to
/// (`None` leads nowhere: the walk ends).
pub type WeightedTransition = (u32, Option<usize>);

/// The largest number of edges a selector accepts, so that every threshold
/// fits in a `u64`.
pub const MAX_TRANSITIONS: usize = 0x100_0000;

/// Outcomes ordered as `None < Some(0) < Some(1) < ...`.
pub open spec fn outcome_code(o: Option<usize>) -> int {
    match o {
        Some(i) => i + 1,
        None => 0,
    }
}

/// The order in which edges are laid out: by weight, then by outcome.
pub open spec fn precedes(a: WeightedTransition, b: WeightedTransition) -> bool {
    a.0 < b.0 || (a.0 == b.0 && outcome_code(a.1) <= outcome_code(b.1))
}

pub open spec fn is_sorted(s: Seq<WeightedTransition>) -> bool {
    forall|i: int, j: int| 0 <= i < j < s.len() ==> precedes(s[i], s[j])
}

/// `s` with `x` placed before the first element that it precedes.
pub open spec fn insert_sorted(s: Seq<WeightedTransition>, x: WeightedTransition) -> Seq<
    WeightedTransition,
>
    decreases s.len(),
{
    if s.len() == 0 {
        seq![x]
    } else if precedes(x, s[0]) {
        seq![x] + s
    } else {
        seq![s[0]] + insert_sorted(s.drop_first(), x)
    }
}

/// The edges in ascending order of weight (ties by outcome).
pub open spec fn sort_transitions(s: Seq<WeightedTransition>) -> Seq<WeightedTransition>
    decreases s.len(),
{
    if s.len() == 0 {
        s
    } else {
        insert_sorted(sort_transitions(s.drop_last()), s.last())
    }
}

pub open spec fn weights_of(s: Seq<WeightedTransition>) -> Seq<u32> {
    s.map_values(|p: WeightedTransition| p.0)
}

/// Maximal runs of equal consecutive weights, as `(weight, run length)`.
pub open spec fn runs_of(ws: Seq<u32>) -> Seq<(u32, nat)>
    decreases ws.len(),
{
    if ws.len() == 0 {
        Seq::empty()
    } else {
        let rest = runs_of(ws.drop_first());
        if rest.len() > 0 && rest[0].0 == ws[0] {
            seq![(ws[0], rest[0].1 + 1)] + rest.drop_first()
        } else {
            seq![(ws[0], 1nat)] + rest
        }
    }
}

/// The share of one edge of weight `w` when the next smaller weight is `prev`.
pub open spec fn rebalanced(w: nat, prev: nat, skew: nat) -> nat {
    (w * skew + prev * (100 - skew)) as nat
}

/// Cumulative thresholds of the runs, starting from `base`, when the weight
/// of the run before them was `prev`.
pub open spec fn run_thresholds(runs: Seq<(u32, nat)>, skew: nat, prev: nat, base: nat) -> Seq<
    nat,
>
    decreases runs.len(),
{
    if runs.len() == 0 {
        Seq::empty()
    } else {
        let r = rebalanced(runs[0].0 as nat, prev, skew);
        Seq::new(runs[0].1, |k: int| (base + (k + 1) * r) as nat) + run_thresholds(
            runs.drop_first(),
            skew,
            runs[0].0 as nat,
            base + runs[0].1 * r,
        )
    }
}

pub open spec fn run_total(runs: Seq<(u32, nat)>) -> nat
    decreases runs.len(),
{
    if runs.len() == 0 {
        0
    } else {
        runs[0].1 + run_total(runs.drop_first())
    }
}

/// The threshold of every edge, in sorted order.
pub open spec fn thresholds_of(sorted: Seq<WeightedTransition>, skew: nat) -> Seq<nat> {
    run_thresholds(runs_of(weights_of(sorted)), skew, 0, 0)
}

/// The selection table built from `weights` with the given skew.
pub open spec fn table_of(weights: Seq<WeightedTransition>, skew: nat) -> Seq<(u64, Option<usize>)> {
    let sorted = sort_transitions(weights);
    let t = thresholds_of(sorted, skew);
    Seq::new(sorted.len(), |i: int| (t[i] as u64, sorted[i].1))
}

/// The outcome of the first threshold at or above `rem`, scanning from `i`;
/// the last outcome if there is none.
pub open spec fn pick_from(table: Seq<(u64, Option<usize>)>, rem: u64, i: int) -> Option<usize>
    decreases table.len() - i,
{
    if i >= table.len() {
        table.last().1
    } else if table[i].0 >= rem {
        table[i].1
    } else {
        pick_from(table, rem, i + 1)
    }
}

/// The draw reduced modulo the last threshold (0 when that threshold is 0).
pub open spec fn remainder_of(table: Seq<(u64, Option<usize>)>, seed: u64) -> u64 {
    if table.last().0 == 0 {
        0
    } else {
        (seed % table.last().0) as u64
    }
}

/// What a table selects for a draw.
pub open spec fn choice_spec(table: Seq<(u64, Option<usize>)>, seed: u64) -> Option<usize> {
    if table.len() == 0 {
        None
    } else {
        pick_from(table, remainder_of(table, seed), 0)
    }
}

proof fn lemma_insert_sorted_at(s: Seq<WeightedTransition>, x: WeightedTransition, j: int)
    requires
        0 <= j <= s.len(),
        forall|k: int| 0 <= k < j ==> !precedes(x, #[trigger] s[k]),
        j < s.len() ==> precedes(x, s[j]),
    ensures
        insert_sorted(s, x) == s.insert(j, x),
    decreases s.len(),
{
    if s.len() == 0 {
        assert(s.insert(j, x) =~= seq![x]);
    } else if j == 0 {
        assert(s.insert(j, x) =~= seq![x] + s);
    } else {
        let t = s.drop_first();
        assert forall|k: int| 0 <= k < j - 1 implies !precedes(x, #[trigger] t[k]) by {
            assert(t[k] == s[k + 1]);
        }
        lemma_insert_sorted_at(t, x, j - 1);
        assert(s.insert(j, x) =~= seq![s[0]] + t.insert(j - 1, x));
    }
}

/// Exec comparison matching `precedes`.
fn precedes_exec(a: WeightedTransition, b: WeightedTransition) -> (r: bool)
    ensures
        r == precedes(a, b),
{
    if a.0 != b.0 {
        a.0 < b.0
    } else {
        match (a.1, b.1) {
            (None, _) => true,
            (Some(_), None) => false,
            (Some(x), Some(y)) => x <= y,
        }
    }
}

/// Insertion sort of the edges, by weight and then by outcome.
fn sort_edges(v: &Vec<WeightedTransition>) -> (r: Vec<WeightedTransition>)
    ensures
        r@ == sort_transitions(v@),
{
    let mut r: Vec<WeightedTransition> = Vec::new();
    let mut i: usize = 0;
    while i < v.len()
        invariant
            i <= v.len(),
            r@ == sort_transitions(v@.subrange(0, i as int)),
        decreases v.len() - i,
    {
        let x = v[i];
        let mut j: usize = 0;
        while j < r.len() && !precedes_exec(x, r[j])
            invariant
                j <= r.len(),
                forall|k: int| 0 <= k < j ==> !precedes(x, #[trigger] r@[k]),
            decreases r.len() - j,
        {
            j = j + 1;
        }
        proof {
            lemma_insert_sorted_at(r@, x, j as int);
            let s = v@.subrange(0, i + 1);
            assert(s.drop_last() =~= v@.subrange(0, i as int));
            assert(s.last() == x);
        }
        r.insert(j, x);
        i = i + 1;
    }
    assert(v@.subrange(0, v@.len() as int) =~= v@);
    r
}

/// Relies on `itertools::Itertools::group_by`: consecutive equal weights are
/// grouped, and each group is reported with its length.
#[verifier::external_body]
fn group_weights(ws: &Vec<u32>) -> (r: Vec<(u32, usize)>)
    ensures
        r@.len() == runs_of(ws@).len(),
        forall|i: int|
            0 <= i < r@.len() ==> (#[trigger] r@[i]).0 == runs_of(ws@)[i].0 && r@[i].1
                == runs_of(ws@)[i].1,
{
    let groups = ws.iter().group_by(|w| **w);
    let runs: Vec<(u32, usize)> = (&groups).into_iter().map(|(w, g)| (w, g.count())).collect();
    runs
}

proof fn lemma_runs_total(ws: Seq<u32>)
    ensures
        run_total(runs_of(ws)) == ws.len(),
    decreases ws.len(),
{
    if ws.len() > 0 {
        lemma_runs_total(ws.drop_first());
        let rest = runs_of(ws.drop_first());
        if rest.len() > 0 && rest[0].0 == ws[0] {
            let r = runs_of(ws);
            assert(r.drop_first() =~= rest.drop_first());
            assert(run_total(rest) == rest[0].1 + run_total(rest.drop_first()));
        } else {
            assert(runs_of(ws).drop_first() =~= rest);
        }
    }
}

proof fn lemma_run_thresholds_len(runs: Seq<(u32, nat)>, skew: nat, prev: nat, base: nat)
    ensures
        run_thresholds(runs, skew, prev, base).len() == run_total(runs),
    decreases runs.len(),
{
    if runs.len() > 0 {
        let r = rebalanced(runs[0].0 as nat, prev, skew);
        lemma_run_thresholds_len(runs.drop_first(), skew, runs[0].0 as nat, base + runs[0].1 * r);
    }
}

pub open spec fn share_bound() -> nat {
    100 * 0xFFFF_FFFF
}

proof fn lemma_rebalanced_bound(w: nat, prev: nat, skew: nat)
    requires
        w <= 0xFFFF_FFFF,
        prev <= 0xFFFF_FFFF,
        skew <= 100,
    ensures
        rebalanced(w, prev, skew) <= share_bound(),
{
    assert(w * skew <= 0xFFFF_FFFF * skew) by (nonlinear_arith)
        requires
            w <= 0xFFFF_FFFF,
    ;
    assert(prev * (100 - skew) <= 0xFFFF_FFFF * (100 - skew)) by (nonlinear_arith)
        requires
            prev <= 0xFFFF_FFFF,
            skew <= 100,
    ;
}

#[verifier::spinoff_prover]
proof fn lemma_run_thresholds_bound(runs: Seq<(u32, nat)>, skew: nat, prev: nat, base: nat)
    requires
        prev <= 0xFFFF_FFFF,
        skew <= 100,
    ensures
        forall|i: int|
            0 <= i < run_thresholds(runs, skew, prev, base).len() ==> #[trigger] run_thresholds(
                runs,
                skew,
                prev,
                base,
            )[i] <= base + (i + 1) * share_bound(),
    decreases runs.len(),
{
    if runs.len() > 0 {
        let r = rebalanced(runs[0].0 as nat, prev, skew);
        lemma_rebalanced_bound(runs[0].0 as nat, prev, skew);
        let c = runs[0].1;
        let nb = base + c * r;
        lemma_run_thresholds_bound(runs.drop_first(), skew, runs[0].0 as nat, nb);
        let t = run_thresholds(runs, skew, prev, base);
        let rest = run_thresholds(runs.drop_first(), skew, runs[0].0 as nat, nb);
        assert forall|i: int| 0 <= i < t.len() implies #[trigger] t[i] <= base + (i + 1)
            * share_bound() by {
            if i < c {
                assert(t[i] == base + (i + 1) * r);
                assert((i + 1) * r <= (i + 1) * share_bound()) by (nonlinear_arith)
                    requires
                        r <= share_bound(),
                        i >= 0,
                ;
            } else {
                assert(t[i] == rest[i - c]);
                assert(c * r <= c * share_bound()) by (nonlinear_arith)
                    requires
                        r <= share_bound(),
                ;
                assert((i - c + 1) * share_bound() + c * share_bound() == (i + 1) * share_bound())
                    by (nonlinear_arith);
            }
        }
    }
}

/// The transition function of a node: the table of cumulative thresholds
/// derived from the raw weights and the skew (vertical randomness) coefficient.
pub struct TransitionChoice {
    weights: Vec<(u64, Option<usize>)>,
}

impl View for TransitionChoice {
    type V = Seq<(u64, Option<usize>)>;

    closed spec fn view(&self) -> Seq<(u64, Option<usize>)> {
        self.weights@
    }
}

impl TransitionChoice {
    /// Builds the table: the edges are sorted by weight, each run of equal
    /// weights `w` (after a run of weight `prev`, 0 for the first) gets the
    /// share `w * v_coef + prev * (100 - v_coef)` per edge, and every edge
    /// receives the running total of the shares as its threshold.
    #[verifier::spinoff_prover]
    pub fn new(weights: Vec<WeightedTransition>, v_coef: u32) -> (r: Self)
        requires
            v_coef <= 100,
            weights@.len() <= MAX_TRANSITIONS,
        ensures
            r@ == table_of(weights@, v_coef as nat),
    {
        let sorted = sort_edges(&weights);
        let ghost skew = v_coef as nat;
        let ghost n = sorted@.len();
        proof {
            lemma_sort_len(weights@);
        }
        let mut keys: Vec<u32> = Vec::new();
        let mut i: usize = 0;
        while i < sorted.len()
            invariant
                i <= sorted.len(),
                keys@ =~= weights_of(sorted@).subrange(0, i as int),
            decreases sorted.len() - i,
        {
            keys.push(sorted[i].0);
            i = i + 1;
        }
        assert(keys@ =~= weights_of(sorted@));
        let runs = group_weights(&keys);
        let ghost runs_s = runs_of(keys@);
        let ghost t = run_thresholds(runs_s, skew, 0, 0);
        proof {
            lemma_runs_total(keys@);
            lemma_run_thresholds_len(runs_s, skew, 0, 0);
            lemma_run_thresholds_bound(runs_s, skew, 0, 0);
        }
        let mut out: Vec<(u64, Option<usize>)> = Vec::new();
        proof {
            assert(runs_s.skip(0) =~= runs_s);
            assert(t.subrange(0, n as int) =~= t);
        }
        let mut prev: u32 = 0;
        let mut top: u64 = 0;
        let mut g: usize = 0;
        while g < runs.len()
            invariant
                g <= runs@.len(),
                runs@.len() == runs_s.len(),
                forall|k: int|
                    0 <= k < runs@.len() ==> (#[trigger] runs@[k]).0 == runs_s[k].0 && runs@[k].1
                        == runs_s[k].1,
                t.len() == n,
                n == sorted@.len(),
                n <= MAX_TRANSITIONS,
                skew == v_coef,
                skew <= 100,
                forall|k: int| 0 <= k < n ==> #[trigger] t[k] <= (k + 1) * share_bound(),
                out@.len() + run_total(runs_s.skip(g as int)) == n,
                t.subrange(out@.len() as int, n as int) == run_thresholds(
                    runs_s.skip(g as int),
                    skew,
                    prev as nat,
                    top as nat,
                ),
                forall|k: int|
                    0 <= k < out@.len() ==> #[trigger] out@[k] == (t[k] as u64, sorted@[k].1),
            decreases runs@.len() - g,
        {
            let (w, cnt) = runs[g];
            proof {
                lemma_rebalanced_bound(w as nat, prev as nat, skew);
                assert(w as nat * skew <= 0xFFFF_FFFF * 100) by (nonlinear_arith)
                    requires
                        w as nat <= 0xFFFF_FFFF,
                        skew <= 100,
                ;
                assert(prev as nat * (100 - skew) <= 0xFFFF_FFFF * 100) by (nonlinear_arith)
                    requires
                        prev as nat <= 0xFFFF_FFFF,
                        skew <= 100,
                ;
            }
            let share: u64 = w as u64 * v_coef as u64 + prev as u64 * (100 - v_coef) as u64;
            let ghost rest = runs_s.skip(g as int);
            proof {
                assert(rest.drop_first() =~= runs_s.skip(g + 1));
                assert(share == rebalanced(w as nat, prev as nat, skew));
            }
            let ghost top0 = top as nat;
            let mut k: usize = 0;
            while k < cnt
                invariant
                    k <= cnt,
                    cnt == rest[0].1,
                    rest.len() > 0,
                    t.len() == n,
                    n == sorted@.len(),
                    n <= MAX_TRANSITIONS,
                    forall|j: int| 0 <= j < n ==> #[trigger] t[j] <= (j + 1) * share_bound(),
                    out@.len() + (cnt - k) + run_total(runs_s.skip(g + 1)) == n,
                    top == top0 + k * share,
                    t.subrange(out@.len() as int, n as int) == Seq::new(
                        (cnt - k) as nat,
                        |j: int| (top + (j + 1) * share) as nat,
                    ) + run_thresholds(
                        runs_s.skip(g + 1),
                        skew,
                        w as nat,
                        (top0 + cnt * share) as nat,
                    ),
                    forall|j: int|
                        0 <= j < out@.len() ==> #[trigger] out@[j] == (t[j] as u64, sorted@[j].1),
                decreases cnt - k,
            {
                let ghost pos = out@.len() as int;
                let ghost top_before = top as nat;
                let ghost tail = run_thresholds(runs_s.skip(g + 1), skew, w as nat, (top0 + cnt * share) as nat);
                proof {
                    assert(t.subrange(pos, n as int)[0] == t[pos]);
                    assert(t[pos] == top + share);
                    assert(t[pos] <= (pos + 1) * share_bound());
                    assert((pos + 1) * share_bound() <= MAX_TRANSITIONS * share_bound())
                        by (nonlinear_arith)
                        requires
                            pos + 1 <= MAX_TRANSITIONS,
                    ;
                }
                top = top + share;
                out.push((top, sorted[out.len()].1));
                proof {
                    assert(t.subrange(pos + 1, n as int) =~= t.subrange(pos, n as int).drop_first());
                    let a = Seq::new((cnt - k) as nat, |j: int| (top_before + (j + 1) * share) as nat);
                    let b = Seq::new((cnt - k - 1) as nat, |j: int| (top + (j + 1) * share) as nat);
                    assert forall|j: int| 0 <= j < b.len() implies b[j] == a.drop_first()[j] by {
                        assert(top + (j + 1) * share == top_before + (j + 2) * share) by (nonlinear_arith)
                            requires top == top_before + share;
                    }
                    assert(b =~= a.drop_first());
                    assert((a + tail).drop_first() =~= a.drop_first() + tail);
                    assert(top0 + (k + 1) * share == top0 + k * share + share) by (nonlinear_arith);
                }
                k = k + 1;
            }
            proof {
                assert(top0 + cnt * share == top);
                assert(Seq::new(0nat, |j: int| (top + (j + 1) * share) as nat) + run_thresholds(
                    runs_s.skip(g + 1),
                    skew,
                    w as nat,
                    top as nat,
                ) =~= run_thresholds(runs_s.skip(g + 1), skew, w as nat, top as nat));
            }
            prev = w;
            g = g + 1;
        }
        proof {
            assert(out@.len() == n);
        }
        let r = TransitionChoice { weights: out };
        assert(r@ =~= table_of(weights@, v_coef as nat));
        r
    }

    /// Chooses the next state for the draw `seed`: `None` if there are no
    /// edges, else the outcome of the first threshold at or above `seed`
    /// modulo the last threshold (the last outcome if none is).
    pub fn choice_func(&self, seed: u64) -> (r: Option<usize>)
        ensures
            r == choice_spec(self@, seed),
    {
        let n = self.weights.len();
        if n == 0 {
            return None;
        }
        let last = self.weights[n - 1].0;
        let rem: u64 = if last == 0 {
            0
        } else {
            seed % last
        };
        let mut i: usize = 0;
        while i < n
            invariant
                i <= n,
                n == self@.len(),
                n > 0,
                rem == remainder_of(self@, seed),
                pick_from(self@, rem, 0) == pick_from(self@, rem, i as int),
            decreases n - i,
        {
            if self.weights[i].0 >= rem {
                return self.weights[i].1;
            }
            i = i + 1;
        }
        self.weights[n - 1].1
    }

    /// The transition function that selects with this table.
    pub fn into_transition(self) -> (r: Transition)
        ensures
            r == Transition::Weighted(self),
    {
        Transition::Weighted(self)
    }

    /// The thresholds of the table, in ascending order of weight.
    pub fn thresholds(&self) -> (r: Vec<u64>)
        ensures
            r@.len() == self@.len(),
            forall|i: int| 0 <= i < r@.len() ==> #[trigger] r@[i] == self@[i].0,
    {
        let mut r: Vec<u64> = Vec::new();
        let mut i: usize = 0;
        while i < self.weights.len()
            invariant
                i <= self@.len(),
                r@.len() == i,
                forall|k: int| 0 <= k < i ==> #[trigger] r@[k] == self@[k].0,
            decreases self@.len() - i,
        {
            r.push(self.weights[i].0);
            i = i + 1;
        }
        r
    }

    /// The outcomes of the table, in the order of its thresholds.
    pub fn outcomes(&self) -> (r: Vec<Option<usize>>)
        ensures
            r@.len() == self@.len(),
            forall|i: int| 0 <= i < r@.len() ==> #[trigger] r@[i] == self@[i].1,
    {
        let mut r: Vec<Option<usize>> = Vec::new();
        let mut i: usize = 0;
        while i < self.weights.len()
            invariant
                i <= self@.len(),
                r@.len() == i,
                forall|k: int| 0 <= k < i ==> #[trigger] r@[k] == self@[k].1,
            decreases self@.len() - i,
        {
            r.push(self.weights[i].1);
            i = i + 1;
        }
        r
    }
}

proof fn lemma_insert_sorted_len(s: Seq<WeightedTransition>, x: WeightedTransition)
    ensures
        insert_sorted(s, x).len() == s.len() + 1,
    decreases s.len(),
{
    if s.len() > 0 && !precedes(x, s[0]) {
        lemma_insert_sorted_len(s.drop_first(), x);
    }
}

pub proof fn lemma_sort_len(s: Seq<WeightedTransition>)
    ensures
        sort_transitions(s).len() == s.len(),
    decreases s.len(),
{
    if s.len() > 0 {
        lemma_sort_len(s.drop_last());
        lemma_insert_sorted_len(sort_transitions(s.drop_last()), s.last());
    }
}

#[verifier::spinoff_prover]
proof fn lemma_insert_sorted_props(s: Seq<WeightedTransition>, x: WeightedTransition)
    requires
        is_sorted(s),
    ensures
        is_sorted(insert_sorted(s, x)),
        insert_sorted(s, x).to_multiset() == s.to_multiset().insert(x),
    decreases s.len(),
{
    broadcast use vstd::seq_lib::group_to_multiset_ensures;

    if s.len() == 0 {
        assert(insert_sorted(s, x) == seq![x]);
        assert(seq![x] =~= s.push(x));
    } else if precedes(x, s[0]) {
        let r = seq![x] + s;
        assert(r =~= s.insert(0, x));
        assert forall|i: int, j: int| 0 <= i < j < r.len() implies precedes(r[i], r[j]) by {
            if i > 0 {
                assert(r[i] == s[i - 1] && r[j] == s[j - 1]);
            } else {
                assert(r[j] == s[j - 1]);
                if j - 1 > 0 {
                    assert(precedes(s[0], s[j - 1]));
                }
            }
        }
    } else {
        let t = s.drop_first();
        assert forall|i: int, j: int| 0 <= i < j < t.len() implies precedes(t[i], t[j]) by {
            assert(t[i] == s[i + 1] && t[j] == s[j + 1]);
        }
        lemma_insert_sorted_props(t, x);
        let it = insert_sorted(t, x);
        let r = seq![s[0]] + it;
        assert(r =~= it.insert(0, s[0]));
        assert(s =~= t.insert(0, s[0]));
        assert forall|i: int, j: int| 0 <= i < j < r.len() implies precedes(r[i], r[j]) by {
            if i > 0 {
                assert(r[i] == it[i - 1] && r[j] == it[j - 1]);
            } else {
                let e = it[j - 1];
                assert(r[j] == e);
                assert(it.to_multiset().count(e) > 0);
                if e != x {
                    assert(t.to_multiset().count(e) > 0);
                    assert(t.contains(e));
                    let k = choose|k: int| 0 <= k < t.len() && t[k] == e;
                    assert(s[k + 1] == e);
                }
            }
        }
    }
}

proof fn lemma_sort_props(s: Seq<WeightedTransition>)
    ensures
        is_sorted(sort_transitions(s)),
        sort_transitions(s).to_multiset() == s.to_multiset(),
    decreases s.len(),
{
    broadcast use vstd::seq_lib::group_to_multiset_ensures;

    if s.len() == 0 {
    } else {
        lemma_sort_props(s.drop_last());
        lemma_insert_sorted_props(sort_transitions(s.drop_last()), s.last());
        assert(s =~= s.drop_last().push(s.last()));
    }
}

#[verifier::spinoff_prover]
proof fn lemma_sorted_unique(a: Seq<WeightedTransition>, b: Seq<WeightedTransition>)
    requires
        is_sorted(a),
        is_sorted(b),
        a.to_multiset() == b.to_multiset(),
    ensures
        a == b,
    decreases a.len(),
{
    broadcast use vstd::seq_lib::group_to_multiset_ensures;

    assert(a.to_multiset().len() == a.len());
    assert(b.to_multiset().len() == b.len());
    if a.len() == 0 {
        assert(b.len() == 0);
        assert(a =~= b);
    } else {
        assert(b.len() == a.len());
        assert(a.to_multiset().count(a[0]) > 0);
        assert(b.contains(a[0]));
        let j = choose|j: int| 0 <= j < b.len() && b[j] == a[0];
        assert(j == 0 || precedes(b[0], b[j]));
        assert(b.to_multiset().count(b[0]) > 0);
        assert(a.contains(b[0]));
        let i = choose|i: int| 0 <= i < a.len() && a[i] == b[0];
        assert(i == 0 || precedes(a[0], a[i]));
        assert(a[0] == b[0]);
        let a1 = a.drop_first();
        let b1 = b.drop_first();
        assert(a1 =~= a.remove(0));
        assert(b1 =~= b.remove(0));
        assert forall|x: int, y: int| 0 <= x < y < a1.len() implies precedes(a1[x], a1[y]) by {
            assert(a1[x] == a[x + 1] && a1[y] == a[y + 1]);
        }
        assert forall|x: int, y: int| 0 <= x < y < b1.len() implies precedes(b1[x], b1[y]) by {
            assert(b1[x] == b[x + 1] && b1[y] == b[y + 1]);
        }
        lemma_sorted_unique(a1, b1);
        assert forall|k: int| 0 <= k < a.len() implies a[k] == b[k] by {
            if k > 0 {
                assert(a[k] == a1[k - 1] && b[k] == b1[k - 1]);
            }
        }
        assert(a =~= b);
    }
}

/// Permuting the edges before building the table changes nothing: the same
/// thresholds with the same outcomes, hence the same choice for every draw.
pub proof fn law_order_independence(a: Seq<WeightedTransition>, b: Seq<WeightedTransition>, skew: nat, seed: u64)
    requires
        a.to_multiset() == b.to_multiset(),
    ensures
        table_of(a, skew) == table_of(b, skew),
        choice_spec(table_of(a, skew), seed) == choice_spec(table_of(b, skew), seed),
{
    lemma_sort_props(a);
    lemma_sort_props(b);
    lemma_sorted_unique(sort_transitions(a), sort_transitions(b));
}

/// The running sum of the first `i + 1` weights.
pub open spec fn weight_prefix(ws: Seq<u32>, i: int) -> nat
    decreases i,
{
    if i <= 0 {
        ws[0] as nat
    } else {
        ws[0] as nat + weight_prefix(ws.drop_first(), i - 1)
    }
}

#[verifier::spinoff_prover]
proof fn lemma_full_skew_thresholds(ws: Seq<u32>, prev: nat, base: nat)
    ensures
        run_thresholds(runs_of(ws), 100, prev, base).len() == ws.len(),
        forall|i: int|
            0 <= i < ws.len() ==> #[trigger] run_thresholds(runs_of(ws), 100, prev, base)[i] == base
                + 100 * weight_prefix(ws, i),
    decreases ws.len(),
{
    lemma_runs_total(ws);
    lemma_run_thresholds_len(runs_of(ws), 100, prev, base);
    if ws.len() > 0 {
        let w0 = ws[0] as nat;
        let rest = ws.drop_first();
        let nb = base + 100 * w0;
        lemma_full_skew_thresholds(rest, prev, nb);
        let r1 = runs_of(rest);
        let t = run_thresholds(runs_of(ws), 100, prev, base);
        let t1 = run_thresholds(r1, 100, prev, nb);
        assert(rebalanced(w0, prev, 100) == 100 * w0);
        if r1.len() > 0 && r1[0].0 == ws[0] {
            let c = r1[0].1;
            let step = 100 * w0;
            let tail = run_thresholds(r1.drop_first(), 100, w0, base + (c + 1) * step);
            assert(rebalanced(r1[0].0 as nat, prev, 100) == step);
            assert(runs_of(ws) =~= seq![(ws[0], c + 1)] + r1.drop_first());
            assert(nb + c * step == base + (c + 1) * step) by (nonlinear_arith)
                requires
                    nb == base + step,
            ;
            let big = runs_of(ws);
            let r = rebalanced(w0, prev, 100);
            assert(r == step);
            assert(big[0] == (ws[0], (c + 1) as nat));
            assert(big.drop_first() =~= r1.drop_first());
            assert(t == Seq::new(big[0].1, |k: int| (base + (k + 1) * r) as nat) + run_thresholds(
                big.drop_first(),
                100,
                big[0].0 as nat,
                base + big[0].1 * r,
            ));
            assert(t == Seq::new(c + 1, |k: int| (base + (k + 1) * r) as nat) + tail);
            assert(t1 == Seq::new(c, |k: int| (nb + (k + 1) * r) as nat) + run_thresholds(
                r1.drop_first(),
                100,
                w0,
                nb + c * r,
            ));
            let u = seq![nb] + t1;
            assert(t.len() == u.len());
            assert forall|k: int| 0 <= k < t.len() implies #[trigger] t[k] == u[k] by {
                if k == 0 {
                    assert(t[0] == base + step);
                } else if k <= c {
                    assert(t[k] == base + (k + 1) * step);
                    assert(u[k] == t1[k - 1]);
                    assert(t1[k - 1] == nb + k * step);
                    assert(nb + k * step == base + (k + 1) * step) by (nonlinear_arith)
                        requires
                            nb == base + step,
                    ;
                } else {
                    assert(u[k] == t1[k - 1]);
                    assert(t[k] == tail[k - (c + 1)]);
                    assert(t1[k - 1] == tail[k - 1 - c]);
                }
            }
            assert(t =~= u);
        } else {
            assert(runs_of(ws) =~= seq![(ws[0], 1nat)] + r1);
            assert(runs_of(ws).drop_first() =~= r1);
            let big = runs_of(ws);
            let r = rebalanced(w0, prev, 100);
            assert(r == 100 * w0);
            assert(big[0] == (ws[0], 1nat));
            assert(t == Seq::new(big[0].1, |k: int| (base + (k + 1) * r) as nat) + run_thresholds(
                big.drop_first(),
                100,
                big[0].0 as nat,
                base + big[0].1 * r,
            ));
            let head = Seq::new(1nat, |k: int| (base + (k + 1) * r) as nat);
            assert((0 + 1) * r == r) by (nonlinear_arith);
            assert(head[0] == (base + (0 + 1) * r) as nat);
            assert(t[0] == head[0]);
            assert(t[0] == nb);
            assert(t.len() == 1 + t1.len());
            assert forall|k: int| 1 <= k < t.len() implies #[trigger] t[k] == t1[k - 1] by {}
            assert(t =~= seq![nb] + t1);
        }
        assert forall|i: int| 0 <= i < ws.len() implies #[trigger] t[i] == base + 100 * weight_prefix(
            ws,
            i,
        ) by {
            if i > 0 {
                assert(t[i] == t1[i - 1]);
                assert(weight_prefix(ws, i) == w0 + weight_prefix(rest, i - 1));
            }
        }
    }
}

/// With the skew at 100 the proportions of the weights are kept exactly: each
/// threshold is 100 times the running sum of the sorted weights up to it.
#[verifier::spinoff_prover]
pub proof fn law_full_skew_keeps_proportions(weights: Seq<WeightedTransition>)
    requires
        weights.len() <= MAX_TRANSITIONS,
    ensures
        table_of(weights, 100).len() == weights.len(),
        forall|i: int|
            0 <= i < weights.len() ==> #[trigger] table_of(weights, 100)[i].0 == 100 * weight_prefix(
                weights_of(sort_transitions(weights)),
                i,
            ),
{
    let sorted = sort_transitions(weights);
    lemma_sort_len(weights);
    let ws = weights_of(sorted);
    lemma_full_skew_thresholds(ws, 0, 0);
    lemma_runs_total(ws);
    lemma_run_thresholds_bound(runs_of(ws), 100, 0, 0);
    assert forall|i: int| 0 <= i < weights.len() implies #[trigger] table_of(weights, 100)[i].0 == 100
        * weight_prefix(ws, i) by {
        let t = thresholds_of(sorted, 100);
        assert(t[i] <= (i + 1) * share_bound());
        assert((i + 1) * share_bound() <= MAX_TRANSITIONS * share_bound()) by (nonlinear_arith)
            requires
                i + 1 <= MAX_TRANSITIONS,
        ;
    }
}

/// The table of two edges of weights `w1 < w2` at skew `s`: the first share
/// is `w1 * s`, the second `w2 * s + w1 * (100 - s)`.
#[verifier::spinoff_prover]
pub proof fn lemma_two_edges(w1: u32, w2: u32, a: Option<usize>, b: Option<usize>, s: nat)
    requires
        w1 < w2,
        s <= 100,
    ensures
        table_of(seq![(w1, a), (w2, b)], s).len() == 2,
        table_of(seq![(w1, a), (w2, b)], s)[0].0 == w1 * s,
        table_of(seq![(w1, a), (w2, b)], s)[1].0 - table_of(seq![(w1, a), (w2, b)], s)[0].0 == w2 * s
            + w1 * (100 - s),
{
    let x = (w1, a);
    let y = (w2, b);
    let input = seq![x, y];
    assert(input.drop_last() =~= seq![x]);
    assert(seq![x].drop_last() =~= Seq::<WeightedTransition>::empty());
    assert(sort_transitions(Seq::<WeightedTransition>::empty()) == Seq::<WeightedTransition>::empty());
    assert(seq![x].last() == x);
    assert(input.last() == y);
    assert(sort_transitions(seq![x]) == insert_sorted(Seq::empty(), x));
    assert(insert_sorted(Seq::empty(), x) == seq![x]);
    assert(seq![x].drop_first() =~= Seq::<WeightedTransition>::empty());
    assert(insert_sorted(seq![x], y) == seq![x] + insert_sorted(Seq::empty(), y));
    let sorted = sort_transitions(input);
    assert(sorted =~= seq![x, y]);
    let ws = weights_of(sorted);
    assert(ws =~= seq![w1, w2]);
    assert(ws.drop_first() =~= seq![w2]);
    assert(seq![w2].drop_first() =~= Seq::<u32>::empty());
    assert(runs_of(Seq::<u32>::empty()) == Seq::<(u32, nat)>::empty());
    assert(seq![(w2, 1nat)] + Seq::<(u32, nat)>::empty() =~= seq![(w2, 1nat)]);
    assert(runs_of(seq![w2]) =~= seq![(w2, 1nat)]);
    let runs = runs_of(ws);
    assert(runs =~= seq![(w1, 1nat), (w2, 1nat)]);
    assert(runs.drop_first() =~= seq![(w2, 1nat)]);
    assert(seq![(w2, 1nat)].drop_first() =~= Seq::<(u32, nat)>::empty());
    let r1 = rebalanced(w1 as nat, 0, s);
    let r2 = rebalanced(w2 as nat, w1 as nat, s);
    let t = run_thresholds(runs, s, 0, 0);
    let one = seq![(w2, 1nat)];
    let t2 = run_thresholds(one, s, w1 as nat, r1);
    assert(one[0] == (w2, 1nat));
    assert(run_thresholds(Seq::<(u32, nat)>::empty(), s, w2 as nat, r1 + r2) == Seq::<nat>::empty());
    assert(t2 == Seq::new(1, |k: int| (r1 + (k + 1) * r2) as nat) + run_thresholds(
        one.drop_first(),
        s,
        w2 as nat,
        r1 + 1 * r2,
    ));
    assert(t2.len() == 1);
    assert(t2[0] == r1 + r2);
    assert(runs[0] == (w1, 1nat));
    assert(t == Seq::new(1, |k: int| (0 + (k + 1) * r1) as nat) + run_thresholds(
        runs.drop_first(),
        s,
        w1 as nat,
        0 + 1 * r1,
    ));
    assert(t.len() == 2);
    assert(t[0] == r1);
    assert(t[1] == r1 + r2);
    assert(w1 * s <= 0xFFFF_FFFF * 100) by (nonlinear_arith)
        requires
            w1 <= 0xFFFF_FFFF,
            s <= 100,
    ;
    lemma_rebalanced_bound(w2 as nat, w1 as nat, s);
}

/// Lowering the skew raises the second share of two edges relative to the
/// first: for `1 <= s1 < s2 <= 100`, `(t2 - t1) / t1` is strictly larger at
/// `s1` than at `s2` (stated with the divisions multiplied out).
#[verifier::spinoff_prover]
pub proof fn law_skew_ratio_monotone(
    w1: u32,
    w2: u32,
    a: Option<usize>,
    b: Option<usize>,
    s1: nat,
    s2: nat,
)
    requires
        0 < w1 < w2,
        1 <= s1 < s2 <= 100,
    ensures
        ({
            let lo = table_of(seq![(w1, a), (w2, b)], s1);
            let hi = table_of(seq![(w1, a), (w2, b)], s2);
            (lo[1].0 - lo[0].0) * hi[0].0 > (hi[1].0 - hi[0].0) * lo[0].0
        }),
{
    lemma_two_edges(w1, w2, a, b, s1);
    lemma_two_edges(w1, w2, a, b, s2);
    let p = w1 as int;
    let q = w2 as int;
    let a = s1 as int;
    let b = s2 as int;
    let x = q * a + p * (100 - a);
    let y = q * b + p * (100 - b);
    assert(x * b - y * a == 100 * p * (b - a)) by (nonlinear_arith)
        requires
            x == q * a + p * (100 - a),
            y == q * b + p * (100 - b),
    ;
    let d = x * b - y * a;
    assert(x * (p * b) - y * (p * a) == p * d) by (nonlinear_arith)
        requires
            d == x * b - y * a,
    ;
    assert(100 * p * (b - a) > 0) by (nonlinear_arith)
        requires
            p > 0,
            b > a,
    ;
    assert(p * d > 0) by (nonlinear_arith)
        requires
            p > 0,
            d > 0,
    ;
}

/// Builds the transition function of `weights` with the vertical randomness
/// coefficient of `config`.
pub fn choose_transition(weights: Vec<WeightedTransition>, config: &Config) -> (r: Transition)
    requires
        weights@.len() <= MAX_TRANSITIONS,
    ensures
        r matches Transition::Weighted(c) && c@ == table_of(
            weights@,
            config.vertical() as nat,
        ),
{
    TransitionChoice::new(weights, config.get_vertical_randomness_coef()).into_transition()
}

} // verus!
