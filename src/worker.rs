//! The hot loop of one worker: derive, match, and stop on a match or on a
//! shutdown request.
use crate::address::{
    address_matches, all_zeros, lemma_empty_mask_matches_all, test_address, Address,
};
use crate::strategy::{derives, generate, Output, Strategy};
use rand::rngs::ThreadRng;
use std::sync::atomic::{AtomicBool, Ordering};
use vstd::prelude::*;

verus! {

/// The result of a successful search: the matched address and what recreates
/// it.
#[derive(Clone, Copy, Debug, PartialEq, Eq)]
pub struct Match {
    pub address: Address,
    pub output: Output,
}

/// How a run of the worker loop ended.
#[derive(Clone, Copy, Debug, PartialEq, Eq)]
pub enum Outcome {
    /// This worker found a match and was the one to raise the shutdown flag.
    Found(Match),
    /// The shutdown flag was seen raised, or another worker raised it first.
    Stopped,
    /// The iteration budget ran out with no match and no shutdown.
    Exhausted,
}

/// A match for `target` under `mask` that `strategy` derives.
pub open spec fn valid_match(strategy: Strategy, target: Address, mask: Address, m: Match) -> bool {
    &&& derives(strategy, m.address, m.output)
    &&& address_matches(m.address@, target@, mask@)
}

/// The worker's decision once it has read the shutdown flag, before it
/// derives a candidate: a raised flag stops it, otherwise it goes on.
pub fn on_flag_read(raised: bool) -> (r: Option<Outcome>)
    ensures
        raised ==> r == Some(Outcome::Stopped),
        !raised ==> r is None,
{
    if raised {
        Some(Outcome::Stopped)
    } else {
        None
    }
}

/// The worker's decision on the candidate `m`: `matched` tells whether it
/// matched the target, and `won` whether this worker's write then raised the
/// shutdown flag. Only the winner of that write reports its match; a match
/// found after another worker raised the flag is dropped; no match goes on.
pub fn on_candidate(matched: bool, won: bool, m: Match) -> (r: Option<Outcome>)
    ensures
        matched && won ==> r == Some(Outcome::Found(m)),
        matched && !won ==> r == Some(Outcome::Stopped),
        !matched ==> r is None,
{
    if !matched {
        None
    } else if won {
        Some(Outcome::Found(m))
    } else {
        Some(Outcome::Stopped)
    }
}

/// Runs at most `budget` iterations of the worker loop. Each iteration first
/// reads `shutdown` and acts as `on_flag_read` decides; otherwise it derives
/// one candidate with `rng`, tests it, tries to raise `shutdown` on a match,
/// and acts as `on_candidate` decides. Returns the outcome and the number of
/// candidates derived.
pub fn search(
    shutdown: &AtomicBool,
    rng: &mut ThreadRng,
    strategy: &Strategy,
    target: &Address,
    mask: &Address,
    budget: u64,
) -> (r: (Outcome, u64))
    ensures
        r.1 <= budget,
        r.0 is Exhausted ==> r.1 == budget,
        r.0 matches Outcome::Found(m) ==> r.1 >= 1 && valid_match(*strategy, *target, *mask, m),
        all_zeros(mask@) && budget >= 1 ==> r.0 !is Exhausted && r.1 <= 1,
        budget == 0 ==> r == (Outcome::Exhausted, 0u64),
{
    let mut n: u64 = 0;
    while n < budget
        invariant
            n <= budget,
            all_zeros(mask@) ==> n == 0,
        decreases budget - n,
    {
        let raised = shutdown.load(Ordering::Acquire);
        if let Some(outcome) = on_flag_read(raised) {
            return (outcome, n);
        }
        let (address, output) = generate(rng, strategy);
        n = n + 1;
        proof {
            if all_zeros(mask@) {
                lemma_empty_mask_matches_all(address@, target@, mask@);
            }
        }
        let matched = test_address(&address, target, mask);
        let mut won = false;
        if matched {
            let raise = shutdown.compare_exchange(false, true, Ordering::AcqRel, Ordering::Acquire);
            won = raise.is_ok();
        }
        if let Some(outcome) = on_candidate(matched, won, Match { address, output }) {
            return (outcome, n);
        }
    }
    (Outcome::Exhausted, n)
}

} // verus!
