//! The tagged errors every engine operation can fail with.

use vstd::prelude::*;

verus! {

/// One error per rejected precondition.  Every operation either succeeds or
/// returns exactly one of these with no state change.
#[derive(Clone, Copy, Debug, PartialEq, Eq, Structural)]
pub enum Errors {
    /// Not a collection NFT (its metadata still names a parent collection).
    NotCollectionNft,
    /// The signer is not the collection's update authority.
    NotUpdateAuthority,
    /// The trade window has elapsed.
    TradeTimeExpired,
    /// The trade window has not yet elapsed.
    TradeTimeNotExpired,
    /// The module is already added to the collection.
    ModuleAlreadyAdded,
    /// The module is not active on the collection.
    ModuleNotActive,
    /// The holder must be holding exactly one token.
    TokenNotOne,
    /// The metadata's collection reference is not verified.
    CollectionNotVerified,
    /// The metadata's collection key does not match the expected collection.
    CollectionNotSame,
    /// A used trade leg carries a zero amount.
    TokenAmountZero,
    /// An unused trade leg carries a non-zero amount.
    AmountNotZero,
    /// The paying account's balance does not cover the amount due.
    InsufficientBalance,
    /// A token account required by the declared funding mode is missing.
    AccountNotProvided,
    /// An escrow account was supplied although the funding mode needs none.
    AccountNotRequired,
    /// The signer is not a party to the trade.
    NotTradeParty,
    /// The trade is already accepted by party two.
    TradeAlreadyAccepted,
    /// The trade is not yet accepted by party two.
    TradeNotAccepted,
    /// The supplied mint does not match the mint recorded in the trade.
    MintNotExist,
    /// The supplied token account does not match the one recorded in the trade.
    IncorrectTokenAccount,
    /// The number of proposal options must be between 2 and 5.
    IncorrectOptionCount,
    /// A text exceeds its maximum permissible length.
    StringLengthExceeds,
    /// A text that must be non-empty is empty.
    BlankStringFound,
    /// The voting window for this proposal is closed.
    VotingIsClosed,
    /// The voting window for this proposal is still open.
    VotingIsActive,
    /// The referenced ledger account is not initialized.
    AccountNotInitialized,
    /// The metadata carries no collection reference at all.
    CollectionNotSet,
    /// The asset presented for voting has already voted on this proposal.
    AlreadyVoted,
    /// The selected option does not exist.
    OptionNotExists,
    /// A numeric parameter that must be positive is zero.
    ZeroValue,
    /// The quorum cannot exceed the collection's member count.
    InvalidQuorum,
    /// The proposal is already executed.
    ProposalAlreadyExecuted,
    /// The metadata account does not belong to the token mint.
    WrongMetadata,
    /// No reward token is attached to the collection yet.
    TokenNotFound,
    /// A reward token is already attached to the collection.
    TokenAlreadyExists,
}

} // verus!
