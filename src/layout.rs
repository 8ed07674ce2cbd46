//! The initial layout: a blue-noise candidate set, regenerated at smaller
//! radii until it is large enough, then trimmed at random to the requested
//! number of biscuits.
use vstd::prelude::*;
use rand::rngs::SmallRng;
use crate::error::Error;
use crate::random::index_below;

verus! {

broadcast use vstd::seq_lib::group_to_multiset_ensures;

/// How many times the candidate radius may be shrunk after the first
/// attempt before the sampler gives up.
pub const MAX_SHRINKS: u32 = 8;

/// Removing the item at `i` by moving the last item into its place leaves the
/// other items, as a multiset.
proof fn lemma_swap_remove_multiset<T>(s: Seq<T>, i: int)
    requires
        0 <= i < s.len(),
    ensures
        s.update(i, s.last()).drop_last().to_multiset() =~= s.to_multiset().remove(s[i]),
{
    let t = s.update(i, s.last());
    let last = s.len() - 1;
    assert(t.drop_last() =~= t.remove(last));
    if i != last {
        assert(t.remove(i) =~= s.remove(i));
        assert(t.remove(last).to_multiset() =~= t.to_multiset().remove(t[last]));
        assert(t.remove(i).to_multiset() =~= t.to_multiset().remove(t[i]));
    } else {
        assert(t =~= s);
    }
}

/// Removes items chosen uniformly at random, one at a time and without
/// replacement, until `n` remain. A vector of at most `n` items is left as
/// it is.
pub fn trim_to<T>(samples: &mut Vec<T>, n: usize, rng: &mut SmallRng)
    ensures
        old(samples).len() <= n ==> final(samples)@ == old(samples)@,
        old(samples).len() > n ==> final(samples).len() == n,
        final(samples)@.to_multiset().subset_of(old(samples)@.to_multiset()),
        forall|i: int|
            0 <= i < final(samples).len() ==> old(samples)@.contains(#[trigger] final(samples)@[i]),
{
    while samples.len() > n
        invariant
            old(samples).len() <= n ==> samples@ == old(samples)@,
            old(samples).len() > n ==> samples.len() >= n,
            samples@.to_multiset().subset_of(old(samples)@.to_multiset()),
        decreases samples.len(),
    {
        let ghost before = samples@;
        let i = index_below(rng, samples.len());
        samples.swap_remove(i);
        proof {
            lemma_swap_remove_multiset(before, i as int);
        }
    }
    proof {
        assert forall|i: int| 0 <= i < samples.len() implies old(samples)@.contains(
            #[trigger] samples@[i],
        ) by {
            assert(samples@.to_multiset().count(samples@[i]) > 0);
        }
    }
}

/// The candidate generator may return fewer than `n` items on attempt `k`.
pub open spec fn under_produces<T, F: Fn(u32) -> Vec<T>>(generate: F, k: u32, n: usize) -> bool {
    exists|w: Vec<T>| #[trigger] generate.ensures((k,), w) && w.len() < n
}

/// Every output the candidate generator may return on attempt `k` holds at
/// least `n` items.
pub open spec fn surely_enough<T, F: Fn(u32) -> Vec<T>>(generate: F, k: u32, n: usize) -> bool {
    forall|w: Vec<T>| #[trigger] generate.ensures((k,), w) ==> w.len() >= n
}

/// The starting placement of `n` biscuits. `generate(k)` yields the
/// blue-noise candidates of the `k`-th attempt, whose radius the caller
/// shrinks as `k` grows. Attempts are made in order from zero until one
/// yields at least `n` candidates; those are then trimmed at random to
/// exactly `n`, so each point of the layout is one of those candidates and
/// keeps any bound they meet. No biscuits at all is an error, and so is a generator that
/// never yields enough candidates within `MAX_SHRINKS` shrinks.
pub fn initial_layout<T, F: Fn(u32) -> Vec<T>>(n: usize, generate: F, rng: &mut SmallRng) -> (r:
    Result<Vec<T>, Error>)
    requires
        forall|k: u32| k <= MAX_SHRINKS ==> #[trigger] generate.requires((k,)),
    ensures
        n == 0 <==> r == Err::<Vec<T>, Error>(Error::BiscuitsBelowOne),
        r == Err::<Vec<T>, Error>(Error::UnderSampled) ==> n > 0 && forall|k: u32|
            k <= MAX_SHRINKS ==> #[trigger] under_produces(generate, k, n),
        n > 0 && (exists|k: u32| k <= MAX_SHRINKS && #[trigger] surely_enough(generate, k, n))
            ==> r is Ok,
        r matches Ok(v) ==> v.len() == n && exists|k: u32, w: Vec<T>|
            k <= MAX_SHRINKS && #[trigger] generate.ensures((k,), w) && w.len() >= n
                && v@.to_multiset().subset_of(w@.to_multiset()) && (forall|i: int|
                0 <= i < v.len() ==> w@.contains(#[trigger] v@[i])) && forall|j: u32|
                j < k ==> #[trigger] under_produces(generate, j, n),
{
    if n == 0 {
        return Err(Error::BiscuitsBelowOne);
    }
    let mut k: u32 = 0;
    loop
        invariant
            n > 0,
            k <= MAX_SHRINKS,
            forall|k: u32| k <= MAX_SHRINKS ==> #[trigger] generate.requires((k,)),
            forall|j: u32| j < k ==> #[trigger] under_produces(generate, j, n),
        decreases MAX_SHRINKS - k,
    {
        let mut candidates = generate(k);
        if candidates.len() >= n {
            let ghost all = candidates;
            trim_to(&mut candidates, n, rng);
            assert(generate.ensures((k,), all));
            return Ok(candidates);
        }
        assert(under_produces(generate, k, n));
        if k == MAX_SHRINKS {
            assert forall|j: u32| j <= MAX_SHRINKS implies #[trigger] under_produces(
                generate,
                j,
                n,
            ) by {
                if j < k {
                }
            }
            assert forall|j: u32| j <= MAX_SHRINKS implies !#[trigger] surely_enough(
                generate,
                j,
                n,
            ) by {
                assert(under_produces(generate, j, n));
                let w = choose|w: Vec<T>| #[trigger] generate.ensures((j,), w) && w.len() < n;
                assert(generate.ensures((j,), w));
            }
            return Err(Error::UnderSampled);
        }
        k = k + 1;
    }
}

} // verus!
