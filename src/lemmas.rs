//! What holds of a ledger over any number of mint attempts.
use vstd::prelude::*;

use crate::address::Pubkey;
use crate::ledger::{mint_step, new_ledger, CollectionConfig, ErrorCode};

verus! {

/// The ledger after mint attempts with the given collaborator outcomes, taken one
/// after another, and what each attempt returned.
pub open spec fn mint_run(c: CollectionConfig, outcomes: Seq<bool>) -> (
    CollectionConfig,
    Seq<Result<u64, ErrorCode>>,
)
    decreases outcomes.len(),
{
    if outcomes.len() == 0 {
        (c, Seq::empty())
    } else {
        let before = mint_run(c, outcomes.drop_last());
        let after = mint_step(before.0, outcomes.last());
        (after.0, before.1.push(after.1))
    }
}

/// Every outcome in `outcomes` is a certificate that the collaborator created.
pub open spec fn all_succeed(outcomes: Seq<bool>) -> bool {
    forall|i: int| 0 <= i < outcomes.len() ==> #[trigger] outcomes[i]
}

/// However mint attempts turn out, a well-formed ledger stays well formed and
/// keeps its capacity, its keys and its bump seed: the counter never passes the
/// capacity.
pub proof fn lemma_run_preserves_capacity(c: CollectionConfig, outcomes: Seq<bool>)
    requires
        c.wf(),
    ensures
        mint_run(c, outcomes).0.wf(),
        mint_run(c, outcomes).1.len() == outcomes.len(),
        mint_run(c, outcomes).0 == (CollectionConfig {
            total_minted: mint_run(c, outcomes).0.total_minted,
            ..c
        }),
        mint_run(c, outcomes).0.total_minted >= c.total_minted,
    decreases outcomes.len(),
{
    if outcomes.len() > 0 {
        lemma_run_preserves_capacity(c, outcomes.drop_last());
    }
}

/// A run of `k` successful mints on a ledger with room for them advances the
/// counter by `k`, and the `i`-th of them (from zero) gets the leaf index
/// `total_minted + i`.
pub proof fn lemma_successful_mints_are_numbered(c: CollectionConfig, outcomes: Seq<bool>)
    requires
        c.wf(),
        all_succeed(outcomes),
        c.total_minted + outcomes.len() <= c.max_capacity,
    ensures
        mint_run(c, outcomes).0.total_minted == c.total_minted + outcomes.len(),
        mint_run(c, outcomes).1.len() == outcomes.len(),
        forall|i: int|
            0 <= i < outcomes.len() ==> #[trigger] mint_run(c, outcomes).1[i] == Ok::<
                u64,
                ErrorCode,
            >((c.total_minted + i) as u64),
    decreases outcomes.len(),
{
    if outcomes.len() > 0 {
        let prefix = outcomes.drop_last();
        assert forall|i: int| 0 <= i < prefix.len() implies #[trigger] prefix[i] by {
            assert(prefix[i] == outcomes[i]);
        }
        lemma_successful_mints_are_numbered(c, prefix);
        lemma_run_preserves_capacity(c, prefix);
        assert(outcomes.last() == outcomes[outcomes.len() - 1]);
        let before = mint_run(c, prefix);
        let run = mint_run(c, outcomes);
        assert(run.1 == before.1.push(Ok::<u64, ErrorCode>(before.0.total_minted)));
        assert forall|i: int| 0 <= i < outcomes.len() implies #[trigger] run.1[i] == Ok::<
            u64,
            ErrorCode,
        >((c.total_minted + i) as u64) by {
            if i < prefix.len() {
                assert(run.1[i] == before.1[i]);
            }
        }
    }
}

/// On a freshly initialized ledger of capacity `max_capacity`, `k <= max_capacity`
/// successful mints leave `total_minted == k`, and the `i`-th successful mint
/// (counting from one) gets the leaf index `i - 1`.
pub proof fn lemma_fresh_ledger_numbers_from_zero(
    authority: Pubkey,
    collection_mint: Pubkey,
    bump: u8,
    max_capacity: u64,
    outcomes: Seq<bool>,
)
    requires
        all_succeed(outcomes),
        outcomes.len() <= max_capacity,
    ensures
        ({
            let run = mint_run(new_ledger(authority, collection_mint, bump, max_capacity), outcomes);
            &&& run.0.total_minted == outcomes.len()
            &&& forall|i: int|
                1 <= i <= outcomes.len() ==> #[trigger] run.1[i - 1] == Ok::<u64, ErrorCode>(
                    (i - 1) as u64,
                )
        }),
{
    let c = new_ledger(authority, collection_mint, bump, max_capacity);
    lemma_successful_mints_are_numbered(c, outcomes);
    let run = mint_run(c, outcomes);
    assert forall|i: int| 1 <= i <= outcomes.len() implies #[trigger] run.1[i - 1] == Ok::<
        u64,
        ErrorCode,
    >((i - 1) as u64) by {
        assert(run.1[(i - 1)] == Ok::<u64, ErrorCode>((c.total_minted + (i - 1)) as u64));
    }
}

/// Once the counter has reached the capacity, every further mint attempt fails
/// with `CollectionFull`, whatever the collaborator would do, and the ledger does
/// not change.
pub proof fn lemma_full_ledger_refuses(c: CollectionConfig, outcomes: Seq<bool>)
    requires
        c.total_minted == c.max_capacity,
    ensures
        mint_run(c, outcomes).0 == c,
        mint_run(c, outcomes).1.len() == outcomes.len(),
        forall|i: int|
            0 <= i < outcomes.len() ==> #[trigger] mint_run(c, outcomes).1[i] == Err::<
                u64,
                ErrorCode,
            >(ErrorCode::CollectionFull),
    decreases outcomes.len(),
{
    if outcomes.len() > 0 {
        lemma_full_ledger_refuses(c, outcomes.drop_last());
    }
}

/// A ledger initialized with capacity zero refuses every mint attempt with
/// `CollectionFull` and stays as it was created.
pub proof fn lemma_zero_capacity_refuses(
    authority: Pubkey,
    collection_mint: Pubkey,
    bump: u8,
    outcomes: Seq<bool>,
)
    ensures
        ({
            let c = new_ledger(authority, collection_mint, bump, 0);
            let run = mint_run(c, outcomes);
            &&& run.0 == c
            &&& forall|i: int|
                0 <= i < outcomes.len() ==> #[trigger] run.1[i] == Err::<u64, ErrorCode>(
                    ErrorCode::CollectionFull,
                )
        }),
{
    lemma_full_ledger_refuses(new_ledger(authority, collection_mint, bump, 0), outcomes);
}

/// With one badge left, two mint attempts whose certificates the collaborator
/// would both create, taken in either order since they are the same operation,
/// give exactly one success, with the leaf index `max_capacity - 1`, and one
/// `CollectionFull`; the counter ends at the capacity.
pub proof fn lemma_last_badge_goes_once(c: CollectionConfig)
    requires
        c.total_minted + 1 == c.max_capacity,
    ensures
        ({
            let run = mint_run(c, seq![true, true]);
            &&& run.1 == seq![
                Ok::<u64, ErrorCode>((c.max_capacity - 1) as u64),
                Err::<u64, ErrorCode>(ErrorCode::CollectionFull),
            ]
            &&& run.0.total_minted == c.max_capacity
        }),
{
    let two = seq![true, true];
    assert(two.drop_last() =~= seq![true]);
    assert(seq![true].drop_last() =~= Seq::<bool>::empty());
    let zero = mint_run(c, seq![true].drop_last());
    assert(zero.0 == c && zero.1 =~= Seq::<Result<u64, ErrorCode>>::empty());
    assert(seq![true].last());
    assert(two.last());
    let first = mint_run(c, seq![true]);
    assert(first.1 =~= seq![Ok::<u64, ErrorCode>(c.total_minted)]);
    assert(first.0.total_minted == c.max_capacity);
    let run = mint_run(c, two);
    assert(run.0 == first.0);
    assert(run.1 =~= seq![
        Ok::<u64, ErrorCode>((c.max_capacity - 1) as u64),
        Err::<u64, ErrorCode>(ErrorCode::CollectionFull),
    ]);
}

} // verus!
