use vstd::prelude::*;

use crate::account::{all_set, unset_count, EscrowAccount};
use crate::error::EscrowError;
use crate::program::{
    complete_rejection, completed, deposit_rejection, Complete, Deposit,
};

verus! {

/// Only the first `count` slots of a party can be addressed: once the checks
/// before it pass, `deposit` rejects an index with `InvalidNftIndex` exactly
/// when it is at least the party's declared count.
pub proof fn lemma_deposit_index_bound(ctx: Deposit, is_initializer: bool, nft_index: u8)
    requires
        ctx.escrow_account.wf(),
    ensures
        (deposit_rejection(ctx, is_initializer, nft_index) == Some(EscrowError::InvalidNftIndex))
            <==> {
            &&& ctx.escrow_account.is_initialized
            &&& ctx.depositor@ == ctx.escrow_account.party(is_initializer)@
            &&& !ctx.escrow_account.fully_deposited(is_initializer)
            &&& nft_index >= ctx.escrow_account.count(is_initializer)
        },
{
}

/// Only the first `count` slots of a party can be released: once the checks
/// before it pass, `complete` rejects an index with `InvalidNftIndex` exactly
/// when it is at least the source party's declared count.
pub proof fn lemma_complete_index_bound(ctx: Complete, is_initializer: bool, nft_index: u8)
    requires
        ctx.escrow_account.wf(),
    ensures
        (complete_rejection(ctx, is_initializer, nft_index) == Some(EscrowError::InvalidNftIndex))
            <==> {
            &&& ctx.escrow_account.is_initialized
            &&& ctx.escrow_account.ready()
            &&& ctx.caller@ == ctx.escrow_account.initializer@ || ctx.caller@
                == ctx.escrow_account.taker@
            &&& nft_index >= ctx.escrow_account.count(is_initializer)
        },
{
}

/// Flags only ever go from unset to set, so over any run of instructions a
/// deposited or collected slot stays so.
pub proof fn lemma_flags_kept_transitive(a: EscrowAccount, b: EscrowAccount, c: EscrowAccount)
    requires
        a.flags_kept_in(b),
        b.flags_kept_in(c),
    ensures
        a.flags_kept_in(c),
{
}

/// An accepted `complete` never comes before both parties have deposited everything.
pub proof fn lemma_no_release_before_commitment(
    ctx: Complete,
    is_initializer: bool,
    nft_index: u8,
)
    ensures
        complete_rejection(ctx, is_initializer, nft_index) is None ==> ctx.escrow_account.ready(),
{
}

/// A live record has no slot left to release exactly when every slot is collected.
pub proof fn lemma_uncollected_zero(e: EscrowAccount)
    requires
        e.wf(),
        e.is_initialized,
    ensures
        e.uncollected() == 0 <==> e.all_collected(),
{
    assert(e.uncollected() == 0 ==> e.all_collected()) by {
        if e.uncollected() == 0 {
            assert forall|i: int| 0 <= i < e.initializer_nft_count implies e.initializer_nft_collected@[i] by {
                assert(i == 0 || i == 1 || i == 2);
            }
            assert forall|i: int| 0 <= i < e.taker_nft_count implies e.taker_nft_collected@[i] by {
                assert(i == 0 || i == 1 || i == 2);
            }
        }
    }
    assert(e.all_collected() ==> e.uncollected() == 0) by {
        if e.all_collected() {
            assert(all_set(e.initializer_nft_collected, e.initializer_nft_count));
            assert(unset_count(e.initializer_nft_collected, e.initializer_nft_count) == 0) by {
                if e.initializer_nft_count > 0 { assert(e.initializer_nft_collected@[0]); }
                if e.initializer_nft_count > 1 { assert(e.initializer_nft_collected@[1]); }
                if e.initializer_nft_count > 2 { assert(e.initializer_nft_collected@[2]); }
            }
            assert(unset_count(e.taker_nft_collected, e.taker_nft_count) == 0) by {
                if e.taker_nft_count > 0 { assert(e.taker_nft_collected@[0]); }
                if e.taker_nft_count > 1 { assert(e.taker_nft_collected@[1]); }
                if e.taker_nft_count > 2 { assert(e.taker_nft_collected@[2]); }
            }
        }
    }
}

/// Every slot not yet released can be released by a call that names it with
/// matching holdings, whoever of the two parties makes it and in whatever order;
/// each such call leaves one slot fewer, and the record is dissolved by the call
/// that releases the last one.
pub proof fn lemma_complete_progress(ctx: Complete, is_initializer: bool, nft_index: u8)
    requires
        ctx.escrow_account.wf(),
        ctx.escrow_account.is_initialized,
        ctx.escrow_account.ready(),
        ctx.caller@ == ctx.escrow_account.initializer@ || ctx.caller@ == ctx.escrow_account.taker@,
        nft_index < ctx.escrow_account.count(is_initializer),
        !ctx.escrow_account.collected(is_initializer)@[nft_index as int],
        ctx.mint == ctx.escrow_account.mints(is_initializer)@[nft_index as int],
        ctx.vault_account.mint == ctx.mint,
        ctx.recipient_token_account.mint == ctx.mint,
        ctx.recipient_token_account.owner == ctx.escrow_account.party(!is_initializer),
    ensures
        complete_rejection(ctx, is_initializer, nft_index) is None,
        completed(ctx, is_initializer, nft_index).escrow_account.uncollected() + 1
            == ctx.escrow_account.uncollected(),
        !completed(ctx, is_initializer, nft_index).escrow_account.is_initialized
            <==> ctx.escrow_account.uncollected() == 1,
{
    let after = ctx.escrow_account.mark_collected(is_initializer, nft_index as int);
    assert(after.wf());
    lemma_uncollected_zero(after);
}

} // verus!
