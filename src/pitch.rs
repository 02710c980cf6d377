//! The choices that pitch detection and spectrum refinement make over ordered values:
//! which dip of the cumulative-mean-normalized difference function gives the period,
//! and which bin of a magnitude spectrum is the peak of a search window.
use vstd::prelude::*;

verus! {

/// Lag `t` of the normalized difference values `d` is a clear dip: it lies below the
/// clarity threshold and below the value at the lag before it.
pub open spec fn is_clear_dip(d: Seq<u32>, threshold: u32, t: int) -> bool {
    &&& 2 <= t < d.len()
    &&& d[t] < threshold
    &&& d[t] < d[t - 1]
}

/// Lag `t` is the first clear dip of `d`.
pub open spec fn is_first_clear_dip(d: Seq<u32>, threshold: u32, t: int) -> bool {
    &&& is_clear_dip(d, threshold, t)
    &&& forall|u: int| 2 <= u < t ==> !is_clear_dip(d, threshold, u)
}

/// Lag `t` is a strict local minimum of `d` with neighbours on both sides.
pub open spec fn is_local_min(d: Seq<u32>, t: int) -> bool {
    &&& 2 <= t
    &&& t + 1 < d.len()
    &&& d[t] < d[t - 1]
    &&& d[t] < d[t + 1]
}

/// Lag `t` is the lowest local minimum of `d`, the first of them if several are lowest.
pub open spec fn is_lowest_local_min(d: Seq<u32>, t: int) -> bool {
    &&& is_local_min(d, t)
    &&& forall|u: int| #[trigger] is_local_min(d, u) ==> d[t] <= d[u]
    &&& forall|u: int| 0 <= u < t && #[trigger] is_local_min(d, u) ==> d[u] > d[t]
}

/// The period chosen by YIN: the first lag whose normalized difference is below the
/// clarity threshold and below that of the lag before it. The first such dip is taken,
/// not the deepest, since multiples of the true period dip as well. No period is given
/// when there is no such dip, or when the dip has no neighbour after it to interpolate
/// with.
pub fn first_clear_dip(d: &Vec<u32>, threshold: u32) -> (r: Option<usize>)
    ensures
        match r {
            Some(t) => is_first_clear_dip(d@, threshold, t as int) && t + 1 < d@.len(),
            None => forall|t: int|
                #[trigger] is_first_clear_dip(d@, threshold, t) ==> t + 1 >= d@.len(),
        },
{
    let n = d.len();
    let mut t: usize = 2;
    while t < n
        invariant
            2 <= t,
            n == d@.len(),
            forall|u: int| 2 <= u < t ==> !is_clear_dip(d@, threshold, u),
        decreases n - t,
    {
        if d[t] < threshold && d[t] < d[t - 1] {
            if t + 1 >= n {
                return None;
            }
            return Some(t);
        }
        t = t + 1;
    }
    None
}

/// The period chosen by the probabilistic variant: the lowest strict local minimum of
/// the normalized difference values over the whole range, the first of equal lowest
/// ones, provided it does not exceed the clarity threshold.
pub fn lowest_local_min(d: &Vec<u32>, threshold: u32) -> (r: Option<usize>)
    ensures
        match r {
            Some(t) => is_lowest_local_min(d@, t as int) && d@[t as int] <= threshold,
            None => forall|t: int| #[trigger] is_lowest_local_min(d@, t) ==> d@[t] > threshold,
        },
{
    let n = d.len();
    if n < 3 {
        return None;
    }
    let mut best: Option<usize> = None;
    let mut t: usize = 2;
    while t + 1 < n
        invariant
            2 <= t <= n - 1,
            n == d@.len(),
            match best {
                Some(b) => {
                    &&& b < t
                    &&& is_local_min(d@, b as int)
                    &&& forall|u: int| 0 <= u < t && #[trigger] is_local_min(d@, u) ==> d@[b as int] <= d@[u]
                    &&& forall|u: int| 0 <= u < b && #[trigger] is_local_min(d@, u) ==> d@[u] > d@[b as int]
                },
                None => forall|u: int| 0 <= u < t ==> !#[trigger] is_local_min(d@, u),
            },
        decreases n - t,
    {
        if d[t] < d[t - 1] && d[t] < d[t + 1] {
            match best {
                Some(b) => {
                    if d[t] < d[b] {
                        best = Some(t);
                    }
                },
                None => {
                    best = Some(t);
                },
            }
        }
        t = t + 1;
    }
    match best {
        Some(b) => {
            assert forall|u: int| #[trigger] is_local_min(d@, u) implies d@[b as int] <= d@[u] by {
                assert(0 <= u < t);
            }
            if d[b] <= threshold {
                Some(b)
            } else {
                None
            }
        },
        None => {
            assert forall|u: int| #[trigger] is_lowest_local_min(d@, u) implies d@[u] > threshold by {
                assert(0 <= u < t);
            }
            None
        },
    }
}

/// Normalized difference values that nowhere fall below the clarity threshold, as
/// those of a silent frame (all 1), give YIN no period.
pub proof fn lemma_no_value_below_threshold_no_dip(d: Seq<u32>, threshold: u32)
    requires
        forall|t: int| 0 <= t < d.len() ==> d[t] >= threshold,
    ensures
        forall|t: int| !#[trigger] is_first_clear_dip(d, threshold, t),
{
}

/// Normalized difference values that are all equal, as those of a silent frame, have no
/// strict local minimum, so the probabilistic variant finds no period either.
pub proof fn lemma_flat_values_no_local_min(d: Seq<u32>)
    requires
        forall|t: int| 0 <= t < d.len() ==> #[trigger] d[t] == d[0],
    ensures
        forall|t: int| !#[trigger] is_local_min(d, t),
{
    assert forall|t: int| !#[trigger] is_local_min(d, t) by {
        if is_local_min(d, t) {
            assert(d[t] == d[0] && d[t - 1] == d[0]);
        }
    }
}

/// The peak bin of the window `start..=end` of a magnitude spectrum: a bin of greatest
/// magnitude, the last of them where several share it.
pub fn peak_in_window(magnitudes: &Vec<u32>, start: usize, end: usize) -> (r: usize)
    requires
        start <= end < magnitudes@.len(),
    ensures
        start <= r <= end,
        forall|i: int| start <= i <= end ==> magnitudes@[i] <= magnitudes@[r as int],
        forall|i: int| r < i <= end ==> magnitudes@[i] < magnitudes@[r as int],
{
    let mut best: usize = start;
    let mut i: usize = start;
    while i < end
        invariant
            start <= best <= i <= end,
            end < magnitudes@.len(),
            forall|j: int| start <= j <= i ==> magnitudes@[j] <= magnitudes@[best as int],
            forall|j: int| best < j <= i ==> magnitudes@[j] < magnitudes@[best as int],
        decreases end - i,
    {
        i = i + 1;
        if magnitudes[i] >= magnitudes[best] {
            best = i;
        }
    }
    best
}

} // verus!
