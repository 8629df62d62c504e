use swap_escrow::account::EscrowAccount;
use swap_escrow::error::EscrowError;
use swap_escrow::identity::Identity;
use swap_escrow::program::{
    cancel, complete, deposit, initialize, Cancel, Complete, Deposit, Initialize, TokenAccount,
    TokenTransfer, TransferAuthority,
};

const NOW: i64 = 1_700_000_000;
const DAY: i64 = 86400;

fn id(b: u8) -> Identity {
    Identity::new([b; 32])
}

fn alice() -> Identity {
    id(1)
}

fn bob() -> Identity {
    id(2)
}

fn mallory() -> Identity {
    id(9)
}

// Alice's assets are 11, 12, 13; Bob's are 21, 22, 23.
fn a_mint(i: u8) -> Identity {
    id(11 + i)
}

fn b_mint(i: u8) -> Identity {
    id(21 + i)
}

fn setup(a: u8, b: u8) -> EscrowAccount {
    let mut mints = Vec::new();
    for i in 0..a {
        mints.push(a_mint(i));
    }
    for i in 0..b {
        mints.push(b_mint(i));
    }
    let ctx = Initialize { initializer: alice(), taker: bob(), nft_mints: mints };
    initialize(&ctx, a, b, 254, NOW).unwrap()
}

fn holding(mint: Identity, owner: Identity, amount: u64) -> TokenAccount {
    TokenAccount { mint, owner, amount }
}

fn deposit_ctx(escrow: EscrowAccount, is_initializer: bool, idx: u8) -> Deposit {
    let (who, mint) = if is_initializer { (alice(), a_mint(idx)) } else { (bob(), b_mint(idx)) };
    Deposit {
        depositor: who,
        escrow_account: escrow,
        token_account: holding(mint, who, 1),
        vault_account: holding(mint, id(100), 0),
    }
}

fn do_deposit(escrow: EscrowAccount, is_initializer: bool, idx: u8) -> EscrowAccount {
    let mut ctx = deposit_ctx(escrow, is_initializer, idx);
    deposit(&mut ctx, is_initializer, idx).unwrap();
    ctx.escrow_account
}

fn complete_ctx(escrow: EscrowAccount, caller: Identity, is_initializer: bool, idx: u8) -> Complete {
    let (mint, recipient) = if is_initializer { (a_mint(idx), bob()) } else { (b_mint(idx), alice()) };
    Complete {
        caller,
        escrow_account: escrow,
        initializer_lamports: 1000,
        escrow_lamports: 50,
        mint,
        vault_account: holding(mint, id(100), 1),
        recipient_token_account: holding(mint, recipient, 0),
    }
}

fn fully_deposited(a: u8, b: u8) -> EscrowAccount {
    let mut e = setup(a, b);
    for i in 0..a {
        e = do_deposit(e, true, i);
    }
    for i in 0..b {
        e = do_deposit(e, false, i);
    }
    e
}

fn cancel_ctx(escrow: EscrowAccount) -> Cancel {
    Cancel { initializer: alice(), escrow_account: escrow, initializer_lamports: 1000, escrow_lamports: 50 }
}

#[test]
fn initialize_stores_terms() {
    let e = setup(2, 1);
    assert!(e.is_initialized);
    assert_eq!(e.initializer, alice());
    assert_eq!(e.taker, bob());
    assert_eq!(e.initializer_nft_count, 2);
    assert_eq!(e.taker_nft_count, 1);
    assert_eq!(e.initializer_nft_mints[0], a_mint(0));
    assert_eq!(e.initializer_nft_mints[1], a_mint(1));
    assert_eq!(e.initializer_nft_mints[2], Identity::zero());
    assert_eq!(e.taker_nft_mints[0], b_mint(0));
    assert_eq!(e.taker_nft_mints[1], Identity::zero());
    assert_eq!(e.initializer_nft_deposited, [false; 3]);
    assert_eq!(e.taker_nft_collected, [false; 3]);
    assert!(!e.initializer_deposited && !e.taker_deposited);
    assert_eq!(e.bump, 254);
    assert_eq!(e.created_at, NOW);
    assert_eq!(e.timeout_in_seconds, DAY);
}

#[test]
fn initialize_rejects_bad_counts() {
    let ctx = Initialize { initializer: alice(), taker: bob(), nft_mints: vec![a_mint(0); 8] };
    assert_eq!(initialize(&ctx, 0, 1, 1, NOW), Err(EscrowError::InvalidNftCount));
    assert_eq!(initialize(&ctx, 1, 0, 1, NOW), Err(EscrowError::InvalidNftCount));
    assert_eq!(initialize(&ctx, 4, 1, 1, NOW), Err(EscrowError::InvalidNftCount));
    assert_eq!(initialize(&ctx, 3, 4, 1, NOW), Err(EscrowError::InvalidNftCount));
    assert!(initialize(&ctx, 3, 3, 1, NOW).is_ok());
    assert!(initialize(&ctx, 1, 1, 1, NOW).is_ok());
}

#[test]
fn slots_beyond_count_are_not_addressable() {
    for a in 1..=3u8 {
        for b in 1..=3u8 {
            let e = setup(a, b);
            for idx in 0..5u8 {
                let mut ctx = deposit_ctx(e, true, idx);
                let r = deposit(&mut ctx, true, idx);
                assert_eq!(r.is_err(), idx >= a);
                if idx >= a {
                    assert_eq!(r, Err(EscrowError::InvalidNftIndex));
                }
                let mut ctx = deposit_ctx(e, false, idx);
                let r = deposit(&mut ctx, false, idx);
                assert_eq!(r.is_err(), idx >= b);
                if idx >= b {
                    assert_eq!(r, Err(EscrowError::InvalidNftIndex));
                }
            }
            let full = fully_deposited(a, b);
            let mut ctx = complete_ctx(full, alice(), true, a);
            assert_eq!(complete(&mut ctx, true, a), Err(EscrowError::InvalidNftIndex));
            let mut ctx = complete_ctx(full, bob(), false, b);
            assert_eq!(complete(&mut ctx, false, b), Err(EscrowError::InvalidNftIndex));
        }
    }
}

#[test]
fn deposit_marks_slot_and_returns_transfer() {
    let e = setup(2, 1);
    let mut ctx = deposit_ctx(e, true, 1);
    let t = deposit(&mut ctx, true, 1).unwrap();
    assert_eq!(t, TokenTransfer { mint: a_mint(1), amount: 1, authority: TransferAuthority::Signer(alice()) });
    assert_eq!(ctx.escrow_account.initializer_nft_deposited, [false, true, false]);
    assert!(!ctx.escrow_account.initializer_deposited);
    let t = deposit(&mut deposit_ctx(ctx.escrow_account, true, 0), true, 0);
    assert!(t.is_ok());
    let e = do_deposit(do_deposit(e, true, 1), true, 0);
    assert!(e.initializer_deposited);
    assert!(!e.taker_deposited);
}

#[test]
fn deposit_errors() {
    let e = setup(2, 1);

    let mut ctx = deposit_ctx(EscrowAccount::empty(), true, 0);
    assert_eq!(deposit(&mut ctx, true, 0), Err(EscrowError::EscrowNotInitialized));

    let mut ctx = deposit_ctx(e, true, 0);
    ctx.depositor = bob();
    assert_eq!(deposit(&mut ctx, true, 0), Err(EscrowError::InvalidDepositor));

    let done = do_deposit(do_deposit(e, true, 0), true, 1);
    let mut ctx = deposit_ctx(done, true, 0);
    assert_eq!(deposit(&mut ctx, true, 0), Err(EscrowError::AlreadyDeposited));

    let mut ctx = deposit_ctx(e, true, 0);
    ctx.token_account.owner = mallory();
    assert_eq!(deposit(&mut ctx, true, 0), Err(EscrowError::InvalidTokenAccount));

    let mut ctx = deposit_ctx(e, true, 0);
    ctx.token_account.mint = a_mint(1);
    assert_eq!(deposit(&mut ctx, true, 0), Err(EscrowError::InvalidNftMint));

    let mut ctx = deposit_ctx(e, true, 0);
    ctx.token_account.amount = 2;
    assert_eq!(deposit(&mut ctx, true, 0), Err(EscrowError::InvalidTokenAmount));

    let mut ctx = deposit_ctx(e, true, 0);
    ctx.vault_account.mint = b_mint(0);
    let before = ctx;
    assert_eq!(deposit(&mut ctx, true, 0), Err(EscrowError::InvalidNftMint));
    assert_eq!(ctx, before);
}

#[test]
fn double_deposit_is_rejected_and_flag_stays() {
    let e = do_deposit(setup(2, 1), true, 0);
    let mut ctx = deposit_ctx(e, true, 0);
    assert_eq!(deposit(&mut ctx, true, 0), Err(EscrowError::NftAlreadyDeposited));
    assert!(ctx.escrow_account.initializer_nft_deposited[0]);
    assert_eq!(ctx.escrow_account, e);
}

#[test]
fn complete_before_full_deposit_is_rejected() {
    let mut e = setup(2, 1);
    e = do_deposit(e, true, 0);
    e = do_deposit(e, true, 1);
    let mut ctx = complete_ctx(e, alice(), true, 0);
    assert_eq!(complete(&mut ctx, true, 0), Err(EscrowError::DepositsIncomplete));
    assert_eq!(ctx.escrow_account, e);
}

#[test]
fn three_completions_dissolve_the_record() {
    let e = fully_deposited(2, 1);
    assert!(e.initializer_deposited && e.taker_deposited);

    let mut ctx = complete_ctx(e, bob(), false, 0);
    let t = complete(&mut ctx, false, 0).unwrap();
    assert_eq!(
        t,
        TokenTransfer {
            mint: b_mint(0),
            amount: 1,
            authority: TransferAuthority::Escrow { initializer: alice(), taker: bob(), bump: 254 },
        }
    );
    assert!(ctx.escrow_account.is_initialized);
    assert!(ctx.escrow_account.taker_collected);
    assert_eq!(ctx.escrow_lamports, 50);

    let mut ctx = complete_ctx(ctx.escrow_account, alice(), true, 1);
    complete(&mut ctx, true, 1).unwrap();
    assert!(ctx.escrow_account.is_initialized);
    assert!(!ctx.escrow_account.initializer_collected);

    let mut ctx = complete_ctx(ctx.escrow_account, bob(), true, 0);
    complete(&mut ctx, true, 0).unwrap();
    assert!(!ctx.escrow_account.is_initialized);
    assert_eq!(ctx.escrow_lamports, 0);
    assert_eq!(ctx.initializer_lamports, 1050);

    let mut again = complete_ctx(ctx.escrow_account, alice(), true, 0);
    assert_eq!(complete(&mut again, true, 0), Err(EscrowError::EscrowNotInitialized));
}

#[test]
fn complete_errors() {
    let e = fully_deposited(2, 1);

    let mut ctx = complete_ctx(e, mallory(), true, 0);
    assert_eq!(complete(&mut ctx, true, 0), Err(EscrowError::InvalidCaller));

    let mut ctx = complete_ctx(e, alice(), true, 0);
    ctx.mint = a_mint(1);
    assert_eq!(complete(&mut ctx, true, 0), Err(EscrowError::InvalidNftMint));

    let mut ctx = complete_ctx(e, alice(), true, 0);
    ctx.vault_account.mint = a_mint(1);
    assert_eq!(complete(&mut ctx, true, 0), Err(EscrowError::InvalidNftMint));

    let mut ctx = complete_ctx(e, alice(), true, 0);
    ctx.recipient_token_account.mint = a_mint(1);
    assert_eq!(complete(&mut ctx, true, 0), Err(EscrowError::InvalidNftMint));

    let mut ctx = complete_ctx(e, alice(), true, 0);
    complete(&mut ctx, true, 0).unwrap();
    let mut ctx = complete_ctx(ctx.escrow_account, bob(), true, 0);
    assert_eq!(complete(&mut ctx, true, 0), Err(EscrowError::NftAlreadyCollected));
    assert!(ctx.escrow_account.initializer_nft_collected[0]);
}

#[test]
fn wrong_recipient_is_rejected() {
    let e = fully_deposited(2, 1);
    let mut ctx = complete_ctx(e, alice(), true, 0);
    ctx.recipient_token_account.owner = alice();
    let before = ctx;
    assert_eq!(complete(&mut ctx, true, 0), Err(EscrowError::InvalidRecipient));
    assert_eq!(ctx, before);
    assert!(!ctx.escrow_account.initializer_nft_collected[0]);
}

#[test]
fn cancel_before_any_deposit() {
    let e = setup(2, 1);
    let mut ctx = cancel_ctx(e);
    assert_eq!(cancel(&mut ctx, NOW + 10), Ok(()));
    assert!(!ctx.escrow_account.is_initialized);
    assert_eq!(ctx.escrow_lamports, 0);
    assert_eq!(ctx.initializer_lamports, 1050);
    let mut again = cancel_ctx(ctx.escrow_account);
    assert_eq!(cancel(&mut again, NOW + 10), Err(EscrowError::EscrowNotInitialized));
}

#[test]
fn partial_deposit_blocks_cancel_until_timeout() {
    let e = do_deposit(setup(2, 1), true, 0);
    let mut ctx = cancel_ctx(e);
    assert_eq!(cancel(&mut ctx, NOW + 10), Err(EscrowError::CannotCancelAfterDeposit));
    assert_eq!(cancel(&mut ctx, NOW + DAY), Err(EscrowError::CannotCancelAfterDeposit));
    assert!(ctx.escrow_account.is_initialized);
    assert_eq!(cancel(&mut ctx, NOW + DAY + 1), Ok(()));
    assert!(!ctx.escrow_account.is_initialized);
    assert!(ctx.escrow_account.initializer_nft_deposited[0]);
}

#[test]
fn taker_deposit_alone_blocks_cancel() {
    let e = do_deposit(setup(1, 2), false, 1);
    let mut ctx = cancel_ctx(e);
    assert_eq!(cancel(&mut ctx, NOW), Err(EscrowError::CannotCancelAfterDeposit));
}

#[test]
fn only_initializer_cancels() {
    let mut ctx = cancel_ctx(setup(1, 1));
    ctx.initializer = bob();
    assert_eq!(cancel(&mut ctx, NOW), Err(EscrowError::InvalidCanceller));
}

#[test]
fn close_escrow_returns_lamports() {
    let e = fully_deposited(1, 1);
    let mut ctx = complete_ctx(e, alice(), true, 0);
    ctx.close_escrow();
    assert!(!ctx.escrow_account.is_initialized);
    assert_eq!(ctx.escrow_lamports, 0);
    assert_eq!(ctx.initializer_lamports, 1050);
}

#[test]
fn account_space() {
    assert_eq!(EscrowAccount::space(), 300);
}

#[test]
fn identities_compare_by_bytes() {
    let mut bytes = [7u8; 32];
    assert!(Identity::new(bytes).same_as(&Identity::new(bytes)));
    bytes[31] = 8;
    assert!(!Identity::new(bytes).same_as(&Identity::new([7u8; 32])));
}

#[test]
fn error_messages() {
    assert_eq!(EscrowError::InvalidNftCount.message(), "NFT count must be between 1 and 3.");
    assert_eq!(EscrowError::InvalidRecipient.message(), "Invalid recipient for the NFT.");
}
