use vstd::prelude::*;

verus! {

/// Why an escrow instruction was rejected. A rejected instruction changes nothing.
#[derive(Clone, Copy, Debug, PartialEq, Eq, Structural)]
pub enum EscrowError {
    InvalidNftCount,
    EscrowNotInitialized,
    InvalidDepositor,
    InvalidTokenAccount,
    InvalidNftMint,
    InvalidTokenAmount,
    AlreadyDeposited,
    NotAllDeposited,
    OnlyInitializerCanCancel,
    CannotCancelAfterDeposit,
    EscrowTimedOut,
    InvalidNftIndex,
    NftAlreadyDeposited,
    NftAlreadyCollected,
    DepositsIncomplete,
    InvalidCaller,
    InvalidRecipient,
    InvalidCanceller,
}

impl EscrowError {
    /// The human-readable message of each error.
    pub fn message(&self) -> (r: &'static str) {
        match self {
            EscrowError::InvalidNftCount => "NFT count must be between 1 and 3.",
            EscrowError::EscrowNotInitialized => "Escrow not initialized.",
            EscrowError::InvalidDepositor => "Invalid depositor.",
            EscrowError::InvalidTokenAccount => "Invalid token account.",
            EscrowError::InvalidNftMint => "Invalid NFT mint.",
            EscrowError::InvalidTokenAmount => "Invalid token amount. Expected 1 for NFT.",
            EscrowError::AlreadyDeposited => "All NFTs have already been deposited.",
            EscrowError::NotAllDeposited => "Escrow can only be completed when all NFTs have been deposited.",
            EscrowError::OnlyInitializerCanCancel => "Only the initializer can cancel the escrow.",
            EscrowError::CannotCancelAfterDeposit => "Cannot cancel after deposits have been made.",
            EscrowError::EscrowTimedOut => "Escrow has timed out.",
            EscrowError::InvalidNftIndex => "Invalid NFT index.",
            EscrowError::NftAlreadyDeposited => "This NFT has already been deposited.",
            EscrowError::NftAlreadyCollected => "This NFT has already been collected.",
            EscrowError::DepositsIncomplete => "Both parties must deposit their NFTs before completion.",
            EscrowError::InvalidCaller => "Only the initializer or taker can complete the escrow.",
            EscrowError::InvalidRecipient => "Invalid recipient for the NFT.",
            EscrowError::InvalidCanceller => "Escrow can only be canceled by the initializer.",
        }
    }
}

} // verus!
