//! The condition under which a single hardfork becomes active.

use vstd::prelude::*;

verus! {

/// Describes how a hardfork becomes active: at a block number, at a block
/// timestamp, at a terminal-total-difficulty threshold, or never.
#[derive(Debug, Clone, Copy, PartialEq, Eq)]
pub enum ForkCondition {
    /// The fork is active for every block whose number is at least the given one.
    Block(u64),
    /// The fork is active for every block whose timestamp is at least the given one.
    Timestamp(u64),
    /// The fork activates once the chain's accumulated proof-of-work difficulty
    /// reaches `total_difficulty`.  Once the chain has permanently moved past
    /// proof-of-work bookkeeping, difficulty comparison is impossible for later
    /// blocks, so a block-number fallback is authoritative instead: the fork is
    /// active for block numbers at or past `fork_block` when that is known, and
    /// at or past `activation_block_number` otherwise.
    TTD {
        /// The block number the fork is known to have activated at.
        activation_block_number: u64,
        /// An optional block number settled after the difficulty transition.
        fork_block: Option<u64>,
        /// The terminal total difficulty threshold.
        total_difficulty: u128,
    },
    /// The fork is not scheduled on this chain; every activation query is false.
    Never,
}

/// True when `c` makes a fork active at block number `block_number`.
///
/// Only block-number-space conditions can hold: a `Timestamp` condition is not
/// block-comparable and `Never` never holds.  A `TTD` condition holds through
/// its block-number fallback, `fork_block` when present and
/// `activation_block_number` otherwise.
pub open spec fn spec_active_at_block(c: ForkCondition, block_number: u64) -> bool {
    match c {
        ForkCondition::Block(n) => block_number >= n,
        ForkCondition::TTD { activation_block_number, fork_block, .. } => match fork_block {
            Some(b) => block_number >= b,
            None => block_number >= activation_block_number,
        },
        _ => false,
    }
}

/// True when `c` makes a fork active at block timestamp `timestamp`.
///
/// Only a `Timestamp` condition can hold: `Block` and `TTD` conditions are
/// defined in block-number space and are not timestamp-comparable.
pub open spec fn spec_active_at_timestamp(c: ForkCondition, timestamp: u64) -> bool {
    match c {
        ForkCondition::Timestamp(t) => timestamp >= t,
        _ => false,
    }
}

impl ForkCondition {
    /// Returns whether the fork is active at the given block number.
    pub fn active_at_block(&self, block_number: u64) -> (r: bool)
        ensures
            r == spec_active_at_block(*self, block_number),
    {
        match self {
            ForkCondition::Block(n) => block_number >= *n,
            ForkCondition::TTD { activation_block_number, fork_block, .. } => match fork_block {
                Some(b) => block_number >= *b,
                None => block_number >= *activation_block_number,
            },
            _ => false,
        }
    }

    /// Returns whether the fork is active at the given block timestamp.
    pub fn active_at_timestamp(&self, timestamp: u64) -> (r: bool)
        ensures
            r == spec_active_at_timestamp(*self, timestamp),
    {
        match self {
            ForkCondition::Timestamp(t) => timestamp >= *t,
            _ => false,
        }
    }
}

/// The point in block-number space at which `c` activates: the block bound of
/// a `Block` condition, the block-number fallback of a `TTD` condition, and
/// nothing for the others.
pub open spec fn spec_block_point(c: ForkCondition) -> Option<u64> {
    match c {
        ForkCondition::Block(n) => Some(n),
        ForkCondition::TTD { activation_block_number, fork_block, .. } => match fork_block {
            Some(b) => Some(b),
            None => Some(activation_block_number),
        },
        _ => None,
    }
}

/// The point in timestamp space at which `c` activates, if it is defined
/// there.
pub open spec fn spec_timestamp_point(c: ForkCondition) -> Option<u64> {
    match c {
        ForkCondition::Timestamp(t) => Some(t),
        _ => None,
    }
}

/// True when condition `a` activates no later than condition `b`, in
/// whichever space both are defined.  Conditions defined in different spaces
/// are not comparable and the relation holds vacuously.
pub open spec fn spec_no_later_than(a: ForkCondition, b: ForkCondition) -> bool {
    &&& (spec_block_point(a) is Some && spec_block_point(b) is Some
        ==> spec_block_point(a)->0 <= spec_block_point(b)->0)
    &&& (spec_timestamp_point(a) is Some && spec_timestamp_point(b) is Some
        ==> spec_timestamp_point(a)->0 <= spec_timestamp_point(b)->0)
}

/// A timestamp boundary is inclusive going forward: a `Timestamp(t)` condition
/// holds exactly at `t` and not one second earlier.
///
/// The statement leaves out `t == 0`, where there is no earlier second.
pub proof fn lemma_timestamp_boundary_inclusive(t: u64)
    requires
        t >= 1,
    ensures
        spec_active_at_timestamp(ForkCondition::Timestamp(t), t),
        !spec_active_at_timestamp(ForkCondition::Timestamp(t), (t - 1) as u64),
{
}

/// A `TTD` condition with a settled `fork_block` is active exactly from that
/// block on, whatever the difficulty threshold; without one it falls back to
/// `activation_block_number`.
pub proof fn lemma_ttd_block_fallback(
    activation_block_number: u64,
    fork_block: u64,
    total_difficulty: u128,
    n: u64,
)
    ensures
        spec_active_at_block(
            ForkCondition::TTD {
                activation_block_number,
                fork_block: Some(fork_block),
                total_difficulty,
            },
            n,
        ) == (n >= fork_block),
        spec_active_at_block(
            ForkCondition::TTD { activation_block_number, fork_block: None, total_difficulty },
            n,
        ) == (n >= activation_block_number),
{
}

} // verus!
