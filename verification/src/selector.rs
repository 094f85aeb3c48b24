//! Random selection of a file path, biased away from recent repeats.
//!
//! A draw is a uniformly random index into the candidate list. Up to
//! `retries + 1` draws are attempted: a draw outside the recency buffer is
//! accepted at once, and the final permitted draw is accepted even when it
//! repeats, so selection always terminates. The accepted path is pushed
//! into the buffer.

use vstd::prelude::*;
use crate::recency::RecencyBuffer;
use crate::recency::ring_push;

verus! {

/// Relies on rand::random_range: a value drawn uniformly from the given
/// range; it panics only when the range is empty.
#[verifier::external_body]
fn random_index(len: usize) -> (r: usize)
    requires
        len > 0,
    ensures
        r < len,
{
    rand::random_range(0..len)
}

/// The position, at or after `i`, of the draw the selection policy accepts:
/// the first whose path is not in `recent`, or the last draw once the
/// retry budget is exhausted.
pub open spec fn accepted_draw_from(
    files: Seq<Seq<char>>,
    recent: Seq<Seq<char>>,
    draws: Seq<usize>,
    i: int,
) -> int
    decreases draws.len() - i,
{
    if i >= draws.len() - 1 {
        i
    } else if !recent.contains(files[draws[i] as int]) {
        i
    } else {
        accepted_draw_from(files, recent, draws, i + 1)
    }
}

/// The position of the draw the selection policy accepts.
pub open spec fn accepted_draw(
    files: Seq<Seq<char>>,
    recent: Seq<Seq<char>>,
    draws: Seq<usize>,
) -> int {
    accepted_draw_from(files, recent, draws, 0)
}

/// However long the retry budget and whatever the buffer holds, selection
/// accepts one of the permitted draws: the policy cannot run out of
/// candidates to accept.
pub proof fn lemma_accepted_draw_in_range(
    files: Seq<Seq<char>>,
    recent: Seq<Seq<char>>,
    draws: Seq<usize>,
    i: int,
)
    requires
        0 <= i < draws.len(),
    ensures
        i <= accepted_draw_from(files, recent, draws, i) < draws.len(),
    decreases draws.len() - i,
{
    if i < draws.len() - 1 && recent.contains(files[draws[i] as int]) {
        lemma_accepted_draw_in_range(files, recent, draws, i + 1);
    }
}

/// A retry budget of zero admits a single draw, and that draw is accepted
/// whatever the recency buffer holds: the buffer is never consulted for
/// rejection.
pub proof fn lemma_budget_zero_ignores_recency(
    files: Seq<Seq<char>>,
    recent_a: Seq<Seq<char>>,
    recent_b: Seq<Seq<char>>,
    draws: Seq<usize>,
)
    requires
        draws.len() == 1,
    ensures
        accepted_draw(files, recent_a, draws) == 0,
        accepted_draw(files, recent_b, draws) == 0,
{
}

/// Which of the permitted draws selection accepts, given the draws
/// themselves: the deterministic core of the policy.
pub fn select_from_draws(
    files: &Vec<String>,
    recent: &RecencyBuffer,
    draws: &Vec<usize>,
) -> (r: usize)
    requires
        draws@.len() >= 1,
        forall|i: int| 0 <= i < draws@.len() ==> #[trigger] draws@[i] < files@.len(),
    ensures
        r == draws@[accepted_draw(files.deep_view(), recent.contents(), draws@)],
        r < files@.len(),
{
    let ghost fv = files.deep_view();
    let mut i: usize = 0;
    while i < draws.len() - 1
        invariant
            0 <= i < draws@.len(),
            draws@.len() >= 1,
            forall|k: int| 0 <= k < draws@.len() ==> #[trigger] draws@[k] < files@.len(),
            fv == files.deep_view(),
            accepted_draw(fv, recent.contents(), draws@) == accepted_draw_from(
                fv,
                recent.contents(),
                draws@,
                i as int,
            ),
        decreases draws@.len() - i,
    {
        let d = draws[i];
        assert(files.deep_view()[d as int] == files@[d as int]@);
        if !recent.contains(&files[d]) {
            assert(accepted_draw_from(fv, recent.contents(), draws@, i as int) == i);
            return draws[i];
        }
        i += 1;
    }
    assert(accepted_draw_from(fv, recent.contents(), draws@, i as int) == i);
    draws[i]
}

/// Select one path at random from `files`, rejecting paths in the recency
/// buffer for up to `retries` extra draws, and remember the accepted path.
/// An empty candidate list yields nothing and leaves the buffer untouched.
pub fn select_random_image(
    files: &Vec<String>,
    recent: &mut RecencyBuffer,
    retries: u32,
) -> (r: Option<String>)
    requires
        old(recent).wf(),
    ensures
        r is Some <==> files@.len() > 0,
        files@.len() == 0 ==> *final(recent) == *old(recent),
        r matches Some(p) ==> files.deep_view().contains(p@) && final(recent).contents()
            == ring_push(old(recent).contents(), old(recent).cap(), p@),
        final(recent).cap() == old(recent).cap(),
        final(recent).wf(),
{
    if files.len() == 0 {
        return None;
    }

    let n = files.len();
    let mut tries_left = retries;
    let mut choice = random_index(n);
    while tries_left > 0 && recent.contains(&files[choice])
        invariant
            choice < n,
            n == files@.len(),
            n > 0,
            *recent == *old(recent),
        decreases tries_left,
    {
        tries_left -= 1;
        choice = random_index(n);
    }

    let p = files[choice].clone();
    assert(files.deep_view()[choice as int] == files@[choice as int]@);
    recent.push(p.clone());
    Some(p)
}

} // verus!
