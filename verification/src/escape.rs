//! The escape-time evaluator: how many steps an orbit stays bounded, up to a cap.
//!
//! The arithmetic of the orbit is the caller's. `bounded` says whether a point
//! still counts as bounded, `step` takes a point to the next one; the functions
//! here decide when to ask, and count.

use vstd::prelude::*;

verus! {

/// `orbit` is a run of the iteration from `start`: every point but the last was
/// found bounded and stepped to the one after it.
pub open spec fn is_orbit<Z, B: Fn(&Z) -> bool, S: Fn(&Z) -> Z>(
    orbit: Seq<Z>,
    start: Z,
    bounded: B,
    step: S,
) -> bool {
    &&& orbit.len() > 0
    &&& orbit[0] == start
    &&& forall|k: int|
        #![trigger orbit[k]]
        0 <= k < orbit.len() - 1 ==> call_ensures(bounded, (&orbit[k],), true) && call_ensures(
            step,
            (&orbit[k],),
            orbit[k + 1],
        )
}

/// `count` is an escape count of `start` under the cap `max_iter`: an orbit of
/// `count` steps exists, and it stopped short of the cap only because its last
/// point was found not bounded.
pub open spec fn is_escape_count<Z, B: Fn(&Z) -> bool, S: Fn(&Z) -> Z>(
    start: Z,
    bounded: B,
    step: S,
    max_iter: usize,
    count: usize,
) -> bool {
    &&& count <= max_iter
    &&& exists|orbit: Seq<Z>|
        #![trigger is_orbit(orbit, start, bounded, step)]
        {
            &&& is_orbit(orbit, start, bounded, step)
            &&& orbit.len() == count + 1
            &&& count < max_iter ==> call_ensures(bounded, (&orbit[count as int],), false)
        }
}

/// `bounded` and `step` answer the same question the same way every time.
pub open spec fn is_deterministic<Z, B: Fn(&Z) -> bool, S: Fn(&Z) -> Z>(bounded: B, step: S) -> bool {
    &&& forall|z: Z, a: bool, b: bool|
        call_ensures(bounded, (&z,), a) && call_ensures(bounded, (&z,), b) ==> a == b
    &&& forall|z: Z, a: Z, b: Z|
        call_ensures(step, (&z,), a) && call_ensures(step, (&z,), b) ==> a == b
}

/// Iterates `step` from `start` while fewer than `max_iter` steps were taken and
/// the point reached is `bounded`, and returns the number of steps taken. A result
/// equal to `max_iter` means that the orbit did not escape within the cap.
///
/// With a cap of zero neither closure is called.
pub fn escape_count<Z, B: Fn(&Z) -> bool, S: Fn(&Z) -> Z>(
    start: Z,
    max_iter: usize,
    bounded: &B,
    step: &S,
) -> (count: usize)
    requires
        forall|z: Z| call_requires(*bounded, (&z,)),
        forall|z: Z| call_requires(*step, (&z,)),
    ensures
        count <= max_iter,
        max_iter == 0 ==> count == 0,
        is_escape_count(start, *bounded, *step, max_iter, count),
{
    let ghost mut orbit: Seq<Z> = seq![start];
    let mut z = start;
    let mut count: usize = 0;
    let mut escaped = false;
    while count < max_iter && !escaped
        invariant
            forall|z: Z| call_requires(*bounded, (&z,)),
            forall|z: Z| call_requires(*step, (&z,)),
            count <= max_iter,
            is_orbit(orbit, start, *bounded, *step),
            orbit.len() == count + 1,
            orbit[count as int] == z,
            escaped ==> count < max_iter && call_ensures(*bounded, (&z,), false),
        decreases max_iter - count + if escaped { 0int } else { 1int },
    {
        if bounded(&z) {
            let next = step(&z);
            proof {
                orbit = orbit.push(next);
            }
            z = next;
            count = count + 1;
        } else {
            escaped = true;
        }
    }
    count
}

/// Whether an escape count stands for a point that did not escape within the cap.
/// Such a point is treated as a member of the set and drawn black.
pub fn is_interior(count: usize, max_iter: usize) -> (interior: bool)
    ensures
        interior == (count >= max_iter),
{
    count >= max_iter
}

/// Two orbits from the same start under deterministic closures agree wherever both
/// are defined.
proof fn lemma_orbits_agree<Z, B: Fn(&Z) -> bool, S: Fn(&Z) -> Z>(
    first: Seq<Z>,
    second: Seq<Z>,
    start: Z,
    bounded: B,
    step: S,
    k: int,
)
    requires
        is_deterministic(bounded, step),
        is_orbit(first, start, bounded, step),
        is_orbit(second, start, bounded, step),
        0 <= k < first.len(),
        k < second.len(),
    ensures
        first[k] == second[k],
    decreases k,
{
    if k > 0 {
        lemma_orbits_agree(first, second, start, bounded, step, k - 1);
        assert(call_ensures(step, (&first[k - 1],), first[k - 1 + 1]));
        assert(call_ensures(step, (&second[k - 1],), second[k - 1 + 1]));
    }
}

/// An orbit that stopped short of its cap is no longer than any other orbit's count
/// allows: the point it stopped at is not bounded, so no orbit passes it.
proof fn lemma_stopped_orbit_is_longest<Z, B: Fn(&Z) -> bool, S: Fn(&Z) -> Z>(
    stopped: Seq<Z>,
    other: Seq<Z>,
    start: Z,
    bounded: B,
    step: S,
)
    requires
        is_deterministic(bounded, step),
        is_orbit(stopped, start, bounded, step),
        is_orbit(other, start, bounded, step),
        call_ensures(bounded, (&stopped[stopped.len() - 1],), false),
    ensures
        other.len() <= stopped.len(),
{
    if other.len() > stopped.len() {
        let last = stopped.len() - 1;
        lemma_orbits_agree(stopped, other, start, bounded, step, last);
        assert(call_ensures(bounded, (&other[last],), true));
    }
}

/// The escape count does not decrease when the cap grows, and a count below its
/// cap is final: every larger cap gives the same count.
pub proof fn lemma_escape_count_stable<Z, B: Fn(&Z) -> bool, S: Fn(&Z) -> Z>(
    start: Z,
    bounded: B,
    step: S,
    small_cap: usize,
    small_count: usize,
    large_cap: usize,
    large_count: usize,
)
    requires
        is_deterministic(bounded, step),
        small_cap <= large_cap,
        is_escape_count(start, bounded, step, small_cap, small_count),
        is_escape_count(start, bounded, step, large_cap, large_count),
    ensures
        small_count <= large_count,
        small_count < small_cap ==> large_count == small_count,
{
    let small = choose|orbit: Seq<Z>|
        #![trigger is_orbit(orbit, start, bounded, step)]
        {
            &&& is_orbit(orbit, start, bounded, step)
            &&& orbit.len() == small_count + 1
            &&& small_count < small_cap ==> call_ensures(bounded, (&orbit[small_count as int],), false)
        };
    let large = choose|orbit: Seq<Z>|
        #![trigger is_orbit(orbit, start, bounded, step)]
        {
            &&& is_orbit(orbit, start, bounded, step)
            &&& orbit.len() == large_count + 1
            &&& large_count < large_cap ==> call_ensures(bounded, (&orbit[large_count as int],), false)
        };
    if large_count < small_count {
        lemma_stopped_orbit_is_longest(large, small, start, bounded, step);
    }
    if small_count < small_cap {
        lemma_stopped_orbit_is_longest(small, large, start, bounded, step);
    }
}

/// Under deterministic closures a start and a cap have one escape count.
pub proof fn lemma_escape_count_unique<Z, B: Fn(&Z) -> bool, S: Fn(&Z) -> Z>(
    start: Z,
    bounded: B,
    step: S,
    max_iter: usize,
    first: usize,
    second: usize,
)
    requires
        is_deterministic(bounded, step),
        is_escape_count(start, bounded, step, max_iter, first),
        is_escape_count(start, bounded, step, max_iter, second),
    ensures
        first == second,
{
    lemma_escape_count_stable(start, bounded, step, max_iter, first, max_iter, second);
    lemma_escape_count_stable(start, bounded, step, max_iter, second, max_iter, first);
}

/// Every point of an orbit from a fixed point of `step` is that fixed point.
proof fn lemma_orbit_of_fixed_point<Z, B: Fn(&Z) -> bool, S: Fn(&Z) -> Z>(
    orbit: Seq<Z>,
    start: Z,
    bounded: B,
    step: S,
    k: int,
)
    requires
        is_orbit(orbit, start, bounded, step),
        forall|next: Z| call_ensures(step, (&start,), next) ==> next == start,
        0 <= k < orbit.len(),
    ensures
        orbit[k] == start,
    decreases k,
{
    if k > 0 {
        lemma_orbit_of_fixed_point(orbit, start, bounded, step, k - 1);
        assert(call_ensures(step, (&orbit[k - 1],), orbit[k - 1 + 1]));
    }
}

/// A start that `step` leaves in place and that `bounded` never rejects does not
/// escape: its count is the cap, whatever the cap.
pub proof fn lemma_bounded_fixed_point_never_escapes<Z, B: Fn(&Z) -> bool, S: Fn(&Z) -> Z>(
    start: Z,
    bounded: B,
    step: S,
    max_iter: usize,
    count: usize,
)
    requires
        forall|next: Z| call_ensures(step, (&start,), next) ==> next == start,
        !call_ensures(bounded, (&start,), false),
        is_escape_count(start, bounded, step, max_iter, count),
    ensures
        count == max_iter,
{
    let orbit = choose|orbit: Seq<Z>|
        #![trigger is_orbit(orbit, start, bounded, step)]
        {
            &&& is_orbit(orbit, start, bounded, step)
            &&& orbit.len() == count + 1
            &&& count < max_iter ==> call_ensures(bounded, (&orbit[count as int],), false)
        };
    lemma_orbit_of_fixed_point(orbit, start, bounded, step, count as int);
}

} // verus!
