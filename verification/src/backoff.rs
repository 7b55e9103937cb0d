//! The rule that makes block authoring pause while too many blocks are waiting
//! for finality.
use vstd::prelude::*;
use sp_arithmetic::traits::Saturating;
use sp_arithmetic::traits::UniqueSaturatedInto;

verus! {

/// `a - b`, or `0` where `b` exceeds `a`.
pub open spec fn saturating_difference(a: int, b: int) -> int {
    if a >= b {
        a - b
    } else {
        0
    }
}

/// `x`, capped at the largest `u32`.
pub open spec fn saturate_to_u32(x: int) -> int {
    if x <= u32::MAX {
        x
    } else {
        u32::MAX as int
    }
}

/// The number of blocks above the finalized one, as counted in a `u32`.
pub open spec fn nonfinalized_count(chain_head: int, finalized: int) -> int {
    saturate_to_u32(saturating_difference(chain_head, finalized))
}

/// Whether authoring pauses, given the limit on non-finalized blocks.
pub open spec fn backs_off(limit: u32, chain_head: int, finalized: int) -> bool {
    nonfinalized_count(chain_head, finalized) >= limit
}

/// `sp_arithmetic::traits::Saturating::saturating_sub` on `u128`: the
/// difference, or zero where it would be negative.
#[verifier::external_body]
fn saturating_sub_u128(a: u128, b: u128) -> (r: u128)
    ensures
        r == saturating_difference(a as int, b as int),
{
    Saturating::saturating_sub(a, b)
}

/// `sp_arithmetic::traits::UniqueSaturatedInto::<u32>::unique_saturated_into`
/// on `u128`: the value where it fits in a `u32`, else `u32::MAX`.
#[verifier::external_body]
fn unique_saturated_into_u32(x: u128) -> (r: u32)
    ensures
        r == saturate_to_u32(x as int),
{
    UniqueSaturatedInto::<u32>::unique_saturated_into(x)
}

/// Backoff strategy: pause authoring once the given number of blocks await
/// finality.
pub struct LimitNonfinalized(pub u32);

impl LimitNonfinalized {
    /// How many blocks the chain head is ahead of the finalized block,
    /// saturated at `u32::MAX`.
    pub fn nonfinalized_blocks(chain_head_number: u128, finalized_number: u128) -> (r: u32)
        ensures
            r == nonfinalized_count(chain_head_number as int, finalized_number as int),
            chain_head_number >= finalized_number && chain_head_number - finalized_number
                <= u32::MAX ==> r == chain_head_number - finalized_number,
            chain_head_number < finalized_number ==> r == 0,
            chain_head_number >= finalized_number && chain_head_number - finalized_number
                > u32::MAX ==> r == u32::MAX,
    {
        proof {
            lemma_nonfinalized_count_exact(chain_head_number as int, finalized_number as int);
        }
        let difference = saturating_sub_u128(chain_head_number, finalized_number);
        unique_saturated_into_u32(difference)
    }

    /// Whether block production should be delayed: exactly when at least
    /// `self.0` blocks are not finalized. The slots and the logging target
    /// take no part in the decision.
    pub fn should_backoff(
        &self,
        chain_head_number: u128,
        _chain_head_slot: u64,
        finalized_number: u128,
        _slot_now: u64,
        _logging_target: &str,
    ) -> (r: bool)
        ensures
            r == backs_off(self.0, chain_head_number as int, finalized_number as int),
            r == (if chain_head_number >= finalized_number {
                chain_head_number - finalized_number >= self.0
            } else {
                self.0 == 0
            }),
    {
        proof {
            lemma_backoff_iff_gap_reaches_limit(
                self.0,
                chain_head_number as int,
                finalized_number as int,
            );
        }
        let nonfinalized_blocks = Self::nonfinalized_blocks(chain_head_number, finalized_number);
        nonfinalized_blocks >= self.0
    }
}

/// The count of non-finalized blocks is the plain difference of head and
/// finalized block whenever that difference fits in a `u32`; it is zero when
/// the finalized block is ahead, and `u32::MAX` when the difference is larger.
pub proof fn lemma_nonfinalized_count_exact(chain_head: int, finalized: int)
    ensures
        chain_head >= finalized && chain_head - finalized <= u32::MAX ==> nonfinalized_count(
            chain_head,
            finalized,
        ) == chain_head - finalized,
        chain_head < finalized ==> nonfinalized_count(chain_head, finalized) == 0,
        chain_head >= finalized && chain_head - finalized > u32::MAX ==> nonfinalized_count(
            chain_head,
            finalized,
        ) == u32::MAX,
{
}

/// Saturating the count at `u32::MAX` never changes the decision: authoring
/// pauses exactly when the head is at least `limit` blocks ahead of the
/// finalized block.
pub proof fn lemma_backoff_iff_gap_reaches_limit(limit: u32, chain_head: int, finalized: int)
    ensures
        backs_off(limit, chain_head, finalized) <==> saturating_difference(chain_head, finalized)
            >= limit,
        backs_off(limit, chain_head, finalized) <==> (if chain_head >= finalized {
            chain_head - finalized >= limit
        } else {
            limit == 0
        }),
{
}

/// A longer unfinalized stretch never lifts a backoff: if authoring pauses at
/// one head, it pauses at every later head with the same finalized block.
pub proof fn lemma_backoff_monotone_in_head(
    limit: u32,
    chain_head: int,
    later_head: int,
    finalized: int,
)
    requires
        chain_head <= later_head,
        backs_off(limit, chain_head, finalized),
    ensures
        backs_off(limit, later_head, finalized),
{
}

/// Finalizing more blocks never starts a backoff: if authoring goes on with
/// one finalized block, it goes on with every later one.
pub proof fn lemma_finalizing_never_starts_backoff(
    limit: u32,
    chain_head: int,
    finalized: int,
    later_finalized: int,
)
    requires
        finalized <= later_finalized,
        !backs_off(limit, chain_head, finalized),
    ensures
        !backs_off(limit, chain_head, later_finalized),
{
}

/// With everything up to the head finalized, authoring pauses only under a
/// limit of zero; a limit of zero pauses authoring always.
pub proof fn lemma_finalized_head(limit: u32, chain_head: int, finalized: int)
    ensures
        chain_head <= finalized ==> (backs_off(limit, chain_head, finalized) <==> limit == 0),
        limit == 0 ==> backs_off(limit, chain_head, finalized),
{
}

} // verus!
