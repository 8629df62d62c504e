use vstd::prelude::*;

use crate::account::{
    all_set, all_slots_set, no_slot_set, none_set, EscrowAccount,
    DEFAULT_TIMEOUT_SECONDS, MAX_NFTS,
};
use crate::error::EscrowError;
use crate::identity::Identity;

verus! {

/// A holding of one asset kind (`mint`) by one owner.
#[derive(Clone, Copy, Debug, PartialEq, Eq)]
pub struct TokenAccount {
    pub mint: Identity,
    pub owner: Identity,
    pub amount: u64,
}

/// Who signs a transfer of custody.
#[derive(Clone, Copy, Debug, PartialEq, Eq)]
pub enum TransferAuthority {
    /// The depositing participant, by its own signature.
    Signer(Identity),
    /// The escrow itself, by the address derived from both parties and the bump.
    Escrow { initializer: Identity, taker: Identity, bump: u8 },
}

/// A move of `amount` units of `mint` that the caller must carry out for an
/// accepted instruction to take effect.
#[derive(Clone, Copy, Debug, PartialEq, Eq)]
pub struct TokenTransfer {
    pub mint: Identity,
    pub amount: u64,
    pub authority: TransferAuthority,
}

/// `flags` with slot `i` set.
pub open spec fn with_slot(flags: [bool; 3], i: int) -> [bool; 3] {
    [i == 0 || flags@[0], i == 1 || flags@[1], i == 2 || flags@[2]]
}

pub open spec fn is_blank(id: Identity) -> bool {
    id@ == Seq::new(32, |i: int| 0u8)
}

impl EscrowAccount {
    /// The record after slot `i` of one party is deposited.
    pub open spec fn mark_deposited(self, is_initializer: bool, i: int) -> EscrowAccount {
        if is_initializer {
            let f = with_slot(self.initializer_nft_deposited, i);
            EscrowAccount {
                initializer_nft_deposited: f,
                initializer_deposited: all_set(f, self.initializer_nft_count),
                ..self
            }
        } else {
            let f = with_slot(self.taker_nft_deposited, i);
            EscrowAccount {
                taker_nft_deposited: f,
                taker_deposited: all_set(f, self.taker_nft_count),
                ..self
            }
        }
    }

    /// The record after slot `i` of one party is released to the other party.
    pub open spec fn mark_collected(self, is_initializer: bool, i: int) -> EscrowAccount {
        if is_initializer {
            let f = with_slot(self.initializer_nft_collected, i);
            EscrowAccount {
                initializer_nft_collected: f,
                initializer_collected: all_set(f, self.initializer_nft_count),
                ..self
            }
        } else {
            let f = with_slot(self.taker_nft_collected, i);
            EscrowAccount {
                taker_nft_collected: f,
                taker_collected: all_set(f, self.taker_nft_count),
                ..self
            }
        }
    }

    /// The record after it is torn down: every later instruction on it is rejected.
    pub open spec fn dissolved(self) -> EscrowAccount {
        EscrowAccount { is_initialized: false, ..self }
    }
}

/// What `initialize` needs: both parties and the assets they declare, those of
/// the initializer first and then those of the taker.
#[derive(Debug)]
pub struct Initialize {
    pub initializer: Identity,
    pub taker: Identity,
    pub nft_mints: Vec<Identity>,
}

/// What `deposit` reads and writes.
#[derive(Clone, Copy, Debug, PartialEq, Eq)]
pub struct Deposit {
    pub depositor: Identity,
    pub escrow_account: EscrowAccount,
    /// The depositor's holding of the asset.
    pub token_account: TokenAccount,
    /// The escrow's holding that receives it.
    pub vault_account: TokenAccount,
}

/// What `complete` reads and writes, with the balances of reclaimable value of
/// the record and of the initializer.
#[derive(Clone, Copy, Debug, PartialEq, Eq)]
pub struct Complete {
    pub caller: Identity,
    pub escrow_account: EscrowAccount,
    pub initializer_lamports: u64,
    pub escrow_lamports: u64,
    pub mint: Identity,
    /// The escrow's holding that releases the asset.
    pub vault_account: TokenAccount,
    /// The holding of the counterparty that receives it.
    pub recipient_token_account: TokenAccount,
}

/// What `cancel` reads and writes.
#[derive(Clone, Copy, Debug, PartialEq, Eq)]
pub struct Cancel {
    pub initializer: Identity,
    pub escrow_account: EscrowAccount,
    pub initializer_lamports: u64,
    pub escrow_lamports: u64,
}

/// Both counts lie in 1..=3.
pub open spec fn valid_counts(initializer_nft_count: u8, taker_nft_count: u8) -> bool {
    1 <= initializer_nft_count <= 3 && 1 <= taker_nft_count <= 3
}

/// The record that `initialize` creates.
pub open spec fn fresh_record(
    ctx: Initialize,
    initializer_nft_count: u8,
    taker_nft_count: u8,
    escrow_bump: u8,
    now: i64,
    e: EscrowAccount,
) -> bool {
    &&& e.initializer == ctx.initializer
    &&& e.taker == ctx.taker
    &&& e.initializer_nft_count == initializer_nft_count
    &&& e.taker_nft_count == taker_nft_count
    &&& forall|i: int|
        0 <= i < initializer_nft_count ==> #[trigger] e.initializer_nft_mints@[i] == ctx.nft_mints@[i]
    &&& forall|i: int|
        0 <= i < taker_nft_count ==> #[trigger] e.taker_nft_mints@[i] == ctx.nft_mints@[initializer_nft_count + i]
    &&& forall|i: int| initializer_nft_count <= i < 3 ==> is_blank(#[trigger] e.initializer_nft_mints@[i])
    &&& forall|i: int| taker_nft_count <= i < 3 ==> is_blank(#[trigger] e.taker_nft_mints@[i])
    &&& none_set(e.initializer_nft_deposited, 3)
    &&& none_set(e.taker_nft_deposited, 3)
    &&& none_set(e.initializer_nft_collected, 3)
    &&& none_set(e.taker_nft_collected, 3)
    &&& !e.initializer_deposited && !e.taker_deposited
    &&& !e.initializer_collected && !e.taker_collected
    &&& e.is_initialized
    &&& e.bump == escrow_bump
    &&& e.created_at == now
    &&& e.timeout_in_seconds == DEFAULT_TIMEOUT_SECONDS
}

/// Creates the record of a swap in which the initializer puts in
/// `initializer_nft_count` assets and the taker `taker_nft_count`, at time `now`.
pub fn initialize(
    ctx: &Initialize,
    initializer_nft_count: u8,
    taker_nft_count: u8,
    escrow_bump: u8,
    now: i64,
) -> (r: Result<EscrowAccount, EscrowError>)
    requires
        valid_counts(initializer_nft_count, taker_nft_count) ==> ctx.nft_mints@.len()
            >= initializer_nft_count + taker_nft_count,
    ensures
        r is Err <==> !valid_counts(initializer_nft_count, taker_nft_count),
        r is Err ==> r == Err::<EscrowAccount, EscrowError>(EscrowError::InvalidNftCount),
        r matches Ok(e) ==> fresh_record(
            *ctx,
            initializer_nft_count,
            taker_nft_count,
            escrow_bump,
            now,
            e,
        ) && e.wf(),
{
    if !(initializer_nft_count > 0 && initializer_nft_count <= MAX_NFTS) {
        return Err(EscrowError::InvalidNftCount);
    }
    if !(taker_nft_count > 0 && taker_nft_count <= MAX_NFTS) {
        return Err(EscrowError::InvalidNftCount);
    }
    let empty = EscrowAccount::empty();
    let mut initializer_nft_mints = empty.initializer_nft_mints;
    let mut taker_nft_mints = empty.taker_nft_mints;
    let a = initializer_nft_count as usize;
    let b = taker_nft_count as usize;
    let mut i: usize = 0;
    while i < a
        invariant
            i <= a <= 3,
            ctx.nft_mints@.len() >= a + b,
            forall|j: int| 0 <= j < 3 ==> is_blank(#[trigger] taker_nft_mints@[j]),
            forall|j: int| 0 <= j < i ==> initializer_nft_mints@[j] == ctx.nft_mints@[j],
            forall|j: int| i <= j < 3 ==> is_blank(#[trigger] initializer_nft_mints@[j]),
        decreases a - i,
    {
        initializer_nft_mints[i] = ctx.nft_mints[i];
        i = i + 1;
    }
    let mut i: usize = 0;
    while i < b
        invariant
            i <= b <= 3,
            a <= 3,
            ctx.nft_mints@.len() >= a + b,
            forall|j: int| 0 <= j < a ==> initializer_nft_mints@[j] == ctx.nft_mints@[j],
            forall|j: int| a <= j < 3 ==> is_blank(#[trigger] initializer_nft_mints@[j]),
            forall|j: int| 0 <= j < i ==> taker_nft_mints@[j] == ctx.nft_mints@[a + j],
            forall|j: int| i <= j < 3 ==> is_blank(#[trigger] taker_nft_mints@[j]),
        decreases b - i,
    {
        taker_nft_mints[i] = ctx.nft_mints[a + i];
        i = i + 1;
    }
    let escrow = EscrowAccount {
        initializer: ctx.initializer,
        taker: ctx.taker,
        initializer_nft_count,
        taker_nft_count,
        initializer_nft_mints,
        taker_nft_mints,
        is_initialized: true,
        bump: escrow_bump,
        created_at: now,
        timeout_in_seconds: DEFAULT_TIMEOUT_SECONDS,
        ..empty
    };
    assert(!escrow.initializer_nft_deposited@[0] && !escrow.taker_nft_deposited@[0]);
    assert(!escrow.initializer_nft_collected@[0] && !escrow.taker_nft_collected@[0]);
    Ok(escrow)
}

/// The first check that `deposit` fails, or `None` when it is accepted.
pub open spec fn deposit_rejection(ctx: Deposit, is_initializer: bool, nft_index: u8) -> Option<
    EscrowError,
> {
    let e = ctx.escrow_account;
    let expected = e.mints(is_initializer)@[nft_index as int];
    if !e.is_initialized {
        Some(EscrowError::EscrowNotInitialized)
    } else if ctx.depositor@ != e.party(is_initializer)@ {
        Some(EscrowError::InvalidDepositor)
    } else if e.fully_deposited(is_initializer) {
        Some(EscrowError::AlreadyDeposited)
    } else if nft_index >= e.count(is_initializer) {
        Some(EscrowError::InvalidNftIndex)
    } else if ctx.token_account.owner@ != ctx.depositor@ {
        Some(EscrowError::InvalidTokenAccount)
    } else if ctx.token_account.mint@ != expected@ {
        Some(EscrowError::InvalidNftMint)
    } else if ctx.token_account.amount != 1 {
        Some(EscrowError::InvalidTokenAmount)
    } else if ctx.vault_account.mint@ != expected@ {
        Some(EscrowError::InvalidNftMint)
    } else if e.deposited(is_initializer)@[nft_index as int] {
        Some(EscrowError::NftAlreadyDeposited)
    } else {
        None
    }
}

/// Puts slot `nft_index` of the initializer (`is_initializer`) or of the taker
/// into escrow custody. On success the returned transfer, signed by the
/// depositor, moves the single unit from `token_account` to `vault_account`.
pub fn deposit(ctx: &mut Deposit, is_initializer: bool, nft_index: u8) -> (r: Result<
    TokenTransfer,
    EscrowError,
>)
    requires
        old(ctx).escrow_account.wf(),
    ensures
        final(ctx).escrow_account.wf(),
        old(ctx).escrow_account.flags_kept_in(final(ctx).escrow_account),
        match r {
            Ok(t) => {
                &&& deposit_rejection(*old(ctx), is_initializer, nft_index) is None
                &&& *final(ctx) == (Deposit {
                    escrow_account: old(ctx).escrow_account.mark_deposited(
                        is_initializer,
                        nft_index as int,
                    ),
                    ..*old(ctx)
                })
                &&& t == (TokenTransfer {
                    mint: old(ctx).escrow_account.mints(is_initializer)@[nft_index as int],
                    amount: 1,
                    authority: TransferAuthority::Signer(old(ctx).depositor),
                })
            },
            Err(err) => {
                &&& deposit_rejection(*old(ctx), is_initializer, nft_index) == Some(err)
                &&& *final(ctx) == *old(ctx)
            },
        },
{
    let e = ctx.escrow_account;
    if !e.is_initialized {
        return Err(EscrowError::EscrowNotInitialized);
    }
    let party = if is_initializer {
        e.initializer
    } else {
        e.taker
    };
    if !ctx.depositor.same_as(&party) {
        return Err(EscrowError::InvalidDepositor);
    }
    let (count, fully) = if is_initializer {
        (e.initializer_nft_count, e.initializer_deposited)
    } else {
        (e.taker_nft_count, e.taker_deposited)
    };
    if fully {
        return Err(EscrowError::AlreadyDeposited);
    }
    if nft_index >= count {
        return Err(EscrowError::InvalidNftIndex);
    }
    let idx = nft_index as usize;
    let expected = if is_initializer {
        e.initializer_nft_mints[idx]
    } else {
        e.taker_nft_mints[idx]
    };
    if !ctx.token_account.owner.same_as(&ctx.depositor) {
        return Err(EscrowError::InvalidTokenAccount);
    }
    if !ctx.token_account.mint.same_as(&expected) {
        return Err(EscrowError::InvalidNftMint);
    }
    if ctx.token_account.amount != 1 {
        return Err(EscrowError::InvalidTokenAmount);
    }
    if !ctx.vault_account.mint.same_as(&expected) {
        return Err(EscrowError::InvalidNftMint);
    }
    let already = if is_initializer {
        e.initializer_nft_deposited[idx]
    } else {
        e.taker_nft_deposited[idx]
    };
    if already {
        return Err(EscrowError::NftAlreadyDeposited);
    }
    if is_initializer {
        let mut flags = e.initializer_nft_deposited;
        flags[idx] = true;
        assert(flags =~= with_slot(e.initializer_nft_deposited, idx as int));
        ctx.escrow_account.initializer_nft_deposited = flags;
        ctx.escrow_account.initializer_deposited = all_slots_set(&flags, count);
    } else {
        let mut flags = e.taker_nft_deposited;
        flags[idx] = true;
        assert(flags =~= with_slot(e.taker_nft_deposited, idx as int));
        ctx.escrow_account.taker_nft_deposited = flags;
        ctx.escrow_account.taker_deposited = all_slots_set(&flags, count);
    }
    Ok(TokenTransfer { mint: expected, amount: 1, authority: TransferAuthority::Signer(ctx.depositor) })
}

/// The first check that `complete` fails, or `None` when it is accepted.
pub open spec fn complete_rejection(ctx: Complete, is_initializer: bool, nft_index: u8) -> Option<
    EscrowError,
> {
    let e = ctx.escrow_account;
    let expected = e.mints(is_initializer)@[nft_index as int];
    if !e.is_initialized {
        Some(EscrowError::EscrowNotInitialized)
    } else if !e.ready() {
        Some(EscrowError::DepositsIncomplete)
    } else if ctx.caller@ != e.initializer@ && ctx.caller@ != e.taker@ {
        Some(EscrowError::InvalidCaller)
    } else if nft_index >= e.count(is_initializer) {
        Some(EscrowError::InvalidNftIndex)
    } else if ctx.mint@ != expected@ || ctx.vault_account.mint@ != expected@
        || ctx.recipient_token_account.mint@ != expected@ {
        Some(EscrowError::InvalidNftMint)
    } else if e.collected(is_initializer)@[nft_index as int] {
        Some(EscrowError::NftAlreadyCollected)
    } else if ctx.recipient_token_account.owner@ != e.party(!is_initializer)@ {
        Some(EscrowError::InvalidRecipient)
    } else {
        None
    }
}

/// The context after an accepted `complete`: the slot is marked collected, and
/// once every slot of both sides is, the record is dissolved and its
/// reclaimable value goes to the initializer.
pub open spec fn completed(ctx: Complete, is_initializer: bool, nft_index: u8) -> Complete {
    let after = ctx.escrow_account.mark_collected(is_initializer, nft_index as int);
    if after.all_collected() {
        Complete {
            escrow_account: after.dissolved(),
            escrow_lamports: 0,
            initializer_lamports: (ctx.initializer_lamports + ctx.escrow_lamports) as u64,
            ..ctx
        }
    } else {
        Complete { escrow_account: after, ..ctx }
    }
}

impl Complete {
    /// Tears the record down and hands its reclaimable value to the initializer.
    pub fn close_escrow(&mut self)
        requires
            old(self).initializer_lamports + old(self).escrow_lamports <= u64::MAX,
        ensures
            *final(self) == (Complete {
                escrow_account: old(self).escrow_account.dissolved(),
                escrow_lamports: 0,
                initializer_lamports: (old(self).initializer_lamports
                    + old(self).escrow_lamports) as u64,
                ..*old(self)
            }),
    {
        let escrow_starting_lamports = self.escrow_lamports;
        self.escrow_lamports = 0;
        self.initializer_lamports = self.initializer_lamports + escrow_starting_lamports;
        self.escrow_account.is_initialized = false;
    }
}

/// Releases slot `nft_index` of the initializer (`is_initializer`) or of the
/// taker to the other party. Either party may drive it, once both have
/// deposited everything. On success the returned transfer, signed by the
/// escrow itself, moves the unit from `vault_account` to
/// `recipient_token_account`.
pub fn complete(ctx: &mut Complete, is_initializer: bool, nft_index: u8) -> (r: Result<
    TokenTransfer,
    EscrowError,
>)
    requires
        old(ctx).escrow_account.wf(),
        old(ctx).initializer_lamports + old(ctx).escrow_lamports <= u64::MAX,
    ensures
        final(ctx).escrow_account.wf(),
        old(ctx).escrow_account.flags_kept_in(final(ctx).escrow_account),
        match r {
            Ok(t) => {
                &&& complete_rejection(*old(ctx), is_initializer, nft_index) is None
                &&& *final(ctx) == completed(*old(ctx), is_initializer, nft_index)
                &&& t == (TokenTransfer {
                    mint: old(ctx).escrow_account.mints(is_initializer)@[nft_index as int],
                    amount: 1,
                    authority: TransferAuthority::Escrow {
                        initializer: old(ctx).escrow_account.initializer,
                        taker: old(ctx).escrow_account.taker,
                        bump: old(ctx).escrow_account.bump,
                    },
                })
            },
            Err(err) => {
                &&& complete_rejection(*old(ctx), is_initializer, nft_index) == Some(err)
                &&& *final(ctx) == *old(ctx)
            },
        },
        r is Ok ==> old(ctx).escrow_account.ready(),
        r is Ok ==> (!final(ctx).escrow_account.is_initialized
            <==> final(ctx).escrow_account.all_collected()),
        r is Ok ==> final(ctx).escrow_account.uncollected() + 1 == old(
            ctx,
        ).escrow_account.uncollected(),
{
    let e = ctx.escrow_account;
    if !e.is_initialized {
        return Err(EscrowError::EscrowNotInitialized);
    }
    if !(e.initializer_deposited && e.taker_deposited) {
        return Err(EscrowError::DepositsIncomplete);
    }
    if !(ctx.caller.same_as(&e.initializer) || ctx.caller.same_as(&e.taker)) {
        return Err(EscrowError::InvalidCaller);
    }
    let count = if is_initializer {
        e.initializer_nft_count
    } else {
        e.taker_nft_count
    };
    if nft_index >= count {
        return Err(EscrowError::InvalidNftIndex);
    }
    let idx = nft_index as usize;
    let expected = if is_initializer {
        e.initializer_nft_mints[idx]
    } else {
        e.taker_nft_mints[idx]
    };
    if !ctx.mint.same_as(&expected) {
        return Err(EscrowError::InvalidNftMint);
    }
    if !ctx.vault_account.mint.same_as(&expected) {
        return Err(EscrowError::InvalidNftMint);
    }
    if !ctx.recipient_token_account.mint.same_as(&expected) {
        return Err(EscrowError::InvalidNftMint);
    }
    let already = if is_initializer {
        e.initializer_nft_collected[idx]
    } else {
        e.taker_nft_collected[idx]
    };
    if already {
        return Err(EscrowError::NftAlreadyCollected);
    }
    // Assets always flow to the counterparty.
    let recipient_expected_owner = if is_initializer {
        e.taker
    } else {
        e.initializer
    };
    if !ctx.recipient_token_account.owner.same_as(&recipient_expected_owner) {
        return Err(EscrowError::InvalidRecipient);
    }
    if is_initializer {
        let mut flags = e.initializer_nft_collected;
        flags[idx] = true;
        assert(flags =~= with_slot(e.initializer_nft_collected, idx as int));
        ctx.escrow_account.initializer_nft_collected = flags;
        ctx.escrow_account.initializer_collected = all_slots_set(&flags, count);
    } else {
        let mut flags = e.taker_nft_collected;
        flags[idx] = true;
        assert(flags =~= with_slot(e.taker_nft_collected, idx as int));
        ctx.escrow_account.taker_nft_collected = flags;
        ctx.escrow_account.taker_collected = all_slots_set(&flags, count);
    }
    if ctx.escrow_account.initializer_collected && ctx.escrow_account.taker_collected {
        ctx.close_escrow();
    }
    Ok(
        TokenTransfer {
            mint: expected,
            amount: 1,
            authority: TransferAuthority::Escrow {
                initializer: e.initializer,
                taker: e.taker,
                bump: e.bump,
            },
        },
    )
}

/// The first check that `cancel` at time `now` fails, or `None` when it is accepted.
pub open spec fn cancel_rejection(ctx: Cancel, now: i64) -> Option<EscrowError> {
    let e = ctx.escrow_account;
    if !e.is_initialized {
        Some(EscrowError::EscrowNotInitialized)
    } else if ctx.initializer@ != e.initializer@ {
        Some(EscrowError::InvalidCanceller)
    } else if !(e.nothing_deposited() || e.timed_out(now)) {
        Some(EscrowError::CannotCancelAfterDeposit)
    } else {
        None
    }
}

/// Dissolves the record at time `now`, on behalf of the initializer: allowed
/// while nothing is deposited, or once the timeout has passed. The record's
/// reclaimable value goes to the initializer; no asset moves.
pub fn cancel(ctx: &mut Cancel, now: i64) -> (r: Result<(), EscrowError>)
    requires
        old(ctx).escrow_account.wf(),
        old(ctx).initializer_lamports + old(ctx).escrow_lamports <= u64::MAX,
    ensures
        final(ctx).escrow_account.wf(),
        old(ctx).escrow_account.flags_kept_in(final(ctx).escrow_account),
        r is Ok <==> {
            &&& old(ctx).escrow_account.is_initialized
            &&& old(ctx).initializer@ == old(ctx).escrow_account.initializer@
            &&& old(ctx).escrow_account.nothing_deposited() || old(ctx).escrow_account.timed_out(
                now,
            )
        },
        match r {
            Ok(_) => {
                &&& cancel_rejection(*old(ctx), now) is None
                &&& *final(ctx) == (Cancel {
                    escrow_account: old(ctx).escrow_account.dissolved(),
                    escrow_lamports: 0,
                    initializer_lamports: (old(ctx).initializer_lamports
                        + old(ctx).escrow_lamports) as u64,
                    ..*old(ctx)
                })
            },
            Err(err) => {
                &&& cancel_rejection(*old(ctx), now) == Some(err)
                &&& *final(ctx) == *old(ctx)
            },
        },
{
    let e = ctx.escrow_account;
    if !e.is_initialized {
        return Err(EscrowError::EscrowNotInitialized);
    }
    if !ctx.initializer.same_as(&e.initializer) {
        return Err(EscrowError::InvalidCanceller);
    }
    let nothing_deposited = no_slot_set(&e.initializer_nft_deposited, e.initializer_nft_count)
        && no_slot_set(&e.taker_nft_deposited, e.taker_nft_count);
    let timeout_expired = (now as i128) > (e.created_at as i128) + (e.timeout_in_seconds as i128);
    if !(nothing_deposited || timeout_expired) {
        return Err(EscrowError::CannotCancelAfterDeposit);
    }
    let escrow_starting_lamports = ctx.escrow_lamports;
    ctx.escrow_lamports = 0;
    ctx.initializer_lamports = ctx.initializer_lamports + escrow_starting_lamports;
    ctx.escrow_account.is_initialized = false;
    Ok(())
}

} // verus!
