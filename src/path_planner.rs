//! Discretisation of a closed waypoint loop into reference points.
//!
//! A loop over `n` waypoints has `n` segments: one from each waypoint to the
//! next, and a closing one from the last back to the first. A segment whose
//! length is `L` contributes one reference point for each whole number `k`
//! with `1 <= k < L`, at `start + (end - start) * k / L`; its endpoint is the
//! start of the next segment and is not emitted again.

use vstd::prelude::*;

verus! {

/// Why a waypoint list cannot be discretised.
#[derive(Debug, Clone, Copy, PartialEq, Eq, Structural)]
pub enum PathError {
    /// A closed loop needs at least two waypoints.
    TooFewWaypoints,
}

/// The `i`-th segment of a closed loop over `n` waypoints, as the indices of
/// its start and end waypoints.
pub open spec fn loop_segment(n: nat, i: nat) -> (nat, nat) {
    if i + 1 < n {
        (i, i + 1)
    } else {
        (i, 0)
    }
}

/// Lists the segments of the closed loop over `n_waypoints` waypoints, in
/// order, each as (start index, end index).
pub fn closed_loop_segments(n_waypoints: usize) -> (r: Result<Vec<(usize, usize)>, PathError>)
    ensures
        n_waypoints < 2 <==> r is Err,
        r matches Err(e) ==> e == PathError::TooFewWaypoints,
        r matches Ok(segs) ==> {
            &&& segs@.len() == n_waypoints
            &&& forall|i: int|
                0 <= i < n_waypoints ==> (segs@[i].0 as nat, segs@[i].1 as nat) == loop_segment(
                    n_waypoints as nat,
                    i as nat,
                )
        },
{
    if n_waypoints < 2 {
        return Err(PathError::TooFewWaypoints);
    }
    let mut segs: Vec<(usize, usize)> = Vec::new();
    let mut i: usize = 0;
    while i < n_waypoints
        invariant
            i <= n_waypoints,
            n_waypoints >= 2,
            segs@.len() == i,
            forall|j: int|
                0 <= j < i ==> (segs@[j].0 as nat, segs@[j].1 as nat) == loop_segment(
                    n_waypoints as nat,
                    j as nat,
                ),
        decreases n_waypoints - i,
    {
        let end: usize = if i + 1 < n_waypoints {
            i + 1
        } else {
            0
        };
        segs.push((i, end));
        i = i + 1;
    }
    Ok(segs)
}

/// One reference point of a discretised loop: the `k`-th whole step along
/// segment `segment`.
#[derive(Debug, Clone, Copy, PartialEq, Eq, Structural)]
pub struct PathStep {
    pub segment: usize,
    pub k: u64,
}

impl PathStep {
    pub open spec fn view(self) -> (nat, nat) {
        (self.segment as nat, self.k as nat)
    }
}

/// The steps that segment `s` contributes when its length rounded up is
/// `span`: `k = 1, 2, ...` while `k < span`.
pub open spec fn segment_steps(s: nat, span: nat) -> Seq<(nat, nat)> {
    Seq::new(if span >= 1 { (span - 1) as nat } else { 0 }, |j: int| (s, (j + 1) as nat))
}

/// The steps of all segments, segment by segment in order.
pub open spec fn plan_of(spans: Seq<u64>) -> Seq<(nat, nat)>
    decreases spans.len(),
{
    if spans.len() == 0 {
        Seq::empty()
    } else {
        plan_of(spans.drop_last()) + segment_steps((spans.len() - 1) as nat, spans.last() as nat)
    }
}

/// How many reference points the segments produce in all.
pub open spec fn point_count(spans: Seq<u64>) -> nat
    decreases spans.len(),
{
    if spans.len() == 0 {
        0
    } else {
        point_count(spans.drop_last()) + if spans.last() >= 1 {
            (spans.last() - 1) as nat
        } else {
            0
        }
    }
}

pub open spec fn steps_view(v: Seq<PathStep>) -> Seq<(nat, nat)> {
    v.map_values(|p: PathStep| p@)
}

/// The number of reference points is the sum, over the segments, of the
/// whole steps strictly inside each.
pub proof fn lemma_plan_len(spans: Seq<u64>)
    ensures
        plan_of(spans).len() == point_count(spans),
    decreases spans.len(),
{
    if spans.len() > 0 {
        lemma_plan_len(spans.drop_last());
    }
}

/// Lays out the reference points of a loop whose segment `s` has length
/// `L_s`, given `spans[s] == ceil(L_s)`: for each segment in order, the whole
/// steps `k` with `1 <= k < L_s`.
pub fn discretization_plan(spans: &Vec<u64>) -> (r: Vec<PathStep>)
    ensures
        steps_view(r@) == plan_of(spans@),
        r@.len() == point_count(spans@),
{
    let mut out: Vec<PathStep> = Vec::new();
    let mut s: usize = 0;
    while s < spans.len()
        invariant
            s <= spans@.len(),
            steps_view(out@) == plan_of(spans@.subrange(0, s as int)),
        decreases spans@.len() - s,
    {
        let span: u64 = spans[s];
        let mut k: u64 = 1;
        while k < span
            invariant
                1 <= k,
                k == 1 || k <= span,
                s < spans@.len(),
                span == spans@[s as int],
                steps_view(out@) == plan_of(spans@.subrange(0, s as int)) + Seq::new(
                    (k - 1) as nat,
                    |j: int| (s as nat, (j + 1) as nat),
                ),
            decreases span - k,
        {
            let ghost before = out@;
            out.push(PathStep { segment: s, k });
            assert(steps_view(out@) =~= steps_view(before).push((s as nat, k as nat)));
            assert(steps_view(out@) =~= plan_of(spans@.subrange(0, s as int)) + Seq::new(
                k as nat,
                |j: int| (s as nat, (j + 1) as nat),
            ));
            k = k + 1;
        }
        let ghost next = spans@.subrange(0, s + 1);
        assert(next.drop_last() =~= spans@.subrange(0, s as int));
        assert(next.last() == span && next.len() == s + 1);
        assert(plan_of(next) == plan_of(next.drop_last()) + segment_steps(s as nat, span as nat));
        assert(segment_steps(s as nat, span as nat) =~= Seq::new(
            (k - 1) as nat,
            |j: int| (s as nat, (j + 1) as nat),
        ));
        assert(steps_view(out@) =~= plan_of(next));
        s = s + 1;
    }
    assert(spans@.subrange(0, spans@.len() as int) =~= spans@);
    proof {
        lemma_plan_len(spans@);
    }
    out
}

} // verus!
