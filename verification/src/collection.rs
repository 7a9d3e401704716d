//! The collection registry: one record per registered collection, holding the
//! module-enable flags and module configuration that all three engines read.
//!
//! Enabling a module is one-shot; numeric parameters stay editable afterwards
//! through the dedicated edit operations.  Every operation here is gated by
//! the collection's update authority (see [`crate::validate`]).

use vstd::prelude::*;

use crate::account::{CustodyOp, Pubkey};
use crate::errors::Errors;
use crate::validate::{check_collection_authority, collection_authority_error, CollectionNftInfo};

verus! {

/// Configuration record of one registered collection.
#[derive(Clone, Copy, Debug, PartialEq, Eq, Structural)]
pub struct Collection {
    /// The verified key of the collection.
    pub verified_collection_key: Pubkey,
    /// The treasury address (receives trade fees).
    pub treasury_address: Pubkey,
    /// The mint of the reward token attached to the collection, once one is.
    pub token_mint: Option<Pubkey>,
    /// Whether the staking module is active.
    pub is_staking: bool,
    /// Whether the voting module is active.
    pub is_voting: bool,
    /// Whether the trading module is active.
    pub is_trade: bool,
    /// Whether the community module is active (reserved, never enabled here).
    pub is_community: bool,
    /// The number of member assets in the collection.
    pub count: u64,
    /// The duration of a voting window, in seconds.
    pub vote_duration: i64,
    /// The minimum total votes for a proposal to pass.
    pub quorum: u64,
    /// The lifetime of an unconfirmed trade, in seconds.
    pub trade_duration: i64,
    /// The flat per-trade fee owed to the treasury.
    pub trade_fees: u64,
    /// Reward units accrued per staked asset per hour.
    pub emission: u64,
}

impl Collection {
    /// A fresh record: no reward token, every module disabled, every numeric
    /// parameter zero until its module is added.
    pub fn new(verified_collection_key: Pubkey, treasury_address: Pubkey) -> (c: Collection)
        ensures
            c == (Collection {
                verified_collection_key,
                treasury_address,
                token_mint: None,
                is_staking: false,
                is_voting: false,
                is_trade: false,
                is_community: false,
                count: 0,
                vote_duration: 0,
                quorum: 0,
                trade_duration: 0,
                trade_fees: 0,
                emission: 0,
            }),
    {
        Collection {
            verified_collection_key,
            treasury_address,
            token_mint: None,
            is_staking: false,
            is_voting: false,
            is_trade: false,
            is_community: false,
            count: 0,
            vote_duration: 0,
            quorum: 0,
            trade_duration: 0,
            trade_fees: 0,
            emission: 0,
        }
    }
}

/// Registers a collection: the caller must control the update authority of a
/// true collection NFT; the new record is keyed by the collection's mint.
pub fn create_collection_handler(
    authority: &CollectionNftInfo,
    owner: Pubkey,
    collection_mint: Pubkey,
    treasury: Pubkey,
) -> (r: Result<Collection, Errors>)
    ensures
        r == (match collection_authority_error(*authority, owner) {
            Some(e) => Err::<Collection, Errors>(e),
            None => Ok::<Collection, Errors>(
                Collection {
                    verified_collection_key: collection_mint,
                    treasury_address: treasury,
                    token_mint: None,
                    is_staking: false,
                    is_voting: false,
                    is_trade: false,
                    is_community: false,
                    count: 0,
                    vote_duration: 0,
                    quorum: 0,
                    trade_duration: 0,
                    trade_fees: 0,
                    emission: 0,
                },
            ),
        }),
{
    match check_collection_authority(authority, owner) {
        Some(e) => Err(e),
        None => Ok(Collection::new(collection_mint, treasury)),
    }
}

/// Attaches a fresh reward token to the collection, at most once.  The mint's
/// authority is handed to the protocol's derived token authority, so only the
/// stake engine can ever mint rewards.
pub fn add_token_handler(
    collection: &mut Collection,
    authority: &CollectionNftInfo,
    owner: Pubkey,
    token: Pubkey,
    token_authority: Pubkey,
) -> (r: Result<Vec<CustodyOp>, Errors>)
    ensures
        match collection_authority_error(*authority, owner) {
            Some(e) => r == Err::<Vec<CustodyOp>, Errors>(e) && *final(collection) == *old(
                collection,
            ),
            None => if old(collection).token_mint is Some {
                r == Err::<Vec<CustodyOp>, Errors>(Errors::TokenAlreadyExists) && *final(collection)
                    == *old(collection)
            } else {
                r is Ok && r.unwrap()@ == seq![
                    CustodyOp::SetOwner { account: token, new_owner: token_authority },
                ] && *final(collection) == (Collection { token_mint: Some(token), ..*old(collection) })
            },
        },
{
    match check_collection_authority(authority, owner) {
        Some(e) => { return Err(e) },
        None => {},
    }
    match collection.token_mint {
        Some(_key) => Err(Errors::TokenAlreadyExists),
        None => {
            collection.token_mint = Some(token);
            let mut ops: Vec<CustodyOp> = Vec::new();
            ops.push(CustodyOp::SetOwner { account: token, new_owner: token_authority });
            assert(ops@ =~= seq![
                CustodyOp::SetOwner { account: token, new_owner: token_authority },
            ]);
            Ok(ops)
        },
    }
}

/// Enables the staking module, at most once.  Requires a reward token to be
/// attached already and a positive emission rate.
pub fn add_stake_handler(
    collection: &mut Collection,
    authority: &CollectionNftInfo,
    owner: Pubkey,
    emission: u64,
) -> (r: Result<(), Errors>)
    ensures
        match collection_authority_error(*authority, owner) {
            Some(e) => r == Err::<(), Errors>(e) && *final(collection) == *old(collection),
            None => if old(collection).is_staking {
                r == Err::<(), Errors>(Errors::ModuleAlreadyAdded) && *final(collection) == *old(
                    collection,
                )
            } else if old(collection).token_mint is None {
                r == Err::<(), Errors>(Errors::TokenNotFound) && *final(collection) == *old(
                    collection,
                )
            } else if emission == 0 {
                r == Err::<(), Errors>(Errors::ZeroValue) && *final(collection) == *old(collection)
            } else {
                r == Ok::<(), Errors>(()) && *final(collection) == (Collection {
                    is_staking: true,
                    emission,
                    ..*old(collection)
                })
            },
        },
{
    match check_collection_authority(authority, owner) {
        Some(e) => { return Err(e) },
        None => {},
    }
    if collection.is_staking {
        return Err(Errors::ModuleAlreadyAdded);
    }
    match collection.token_mint {
        None => { return Err(Errors::TokenNotFound) },
        _ => {},
    }
    if emission == 0 {
        return Err(Errors::ZeroValue);
    }
    collection.is_staking = true;
    collection.emission = emission;
    Ok(())
}

/// Updates the staking emission rate, which must stay positive.
pub fn edit_stake_handler(
    collection: &mut Collection,
    authority: &CollectionNftInfo,
    owner: Pubkey,
    emission: u64,
) -> (r: Result<(), Errors>)
    ensures
        match collection_authority_error(*authority, owner) {
            Some(e) => r == Err::<(), Errors>(e) && *final(collection) == *old(collection),
            None => if emission == 0 {
                r == Err::<(), Errors>(Errors::ZeroValue) && *final(collection) == *old(collection)
            } else {
                r == Ok::<(), Errors>(()) && *final(collection) == (Collection {
                    emission,
                    ..*old(collection)
                })
            },
        },
{
    match check_collection_authority(authority, owner) {
        Some(e) => { return Err(e) },
        None => {},
    }
    if emission == 0 {
        return Err(Errors::ZeroValue);
    }
    collection.emission = emission;
    Ok(())
}

/// Enables the voting module, at most once.  Member count, window duration
/// and quorum must be positive, and the quorum cannot exceed the count.
pub fn add_voting_handler(
    collection: &mut Collection,
    authority: &CollectionNftInfo,
    owner: Pubkey,
    count: u64,
    duration: i64,
    quorum: u64,
) -> (r: Result<(), Errors>)
    ensures
        match collection_authority_error(*authority, owner) {
            Some(e) => r == Err::<(), Errors>(e) && *final(collection) == *old(collection),
            None => if old(collection).is_voting {
                r == Err::<(), Errors>(Errors::ModuleAlreadyAdded) && *final(collection) == *old(
                    collection,
                )
            } else if count == 0 || duration <= 0 || quorum == 0 {
                r == Err::<(), Errors>(Errors::ZeroValue) && *final(collection) == *old(collection)
            } else if quorum > count {
                r == Err::<(), Errors>(Errors::InvalidQuorum) && *final(collection) == *old(
                    collection,
                )
            } else {
                r == Ok::<(), Errors>(()) && *final(collection) == (Collection {
                    is_voting: true,
                    quorum,
                    count,
                    vote_duration: duration,
                    ..*old(collection)
                })
            },
        },
{
    match check_collection_authority(authority, owner) {
        Some(e) => { return Err(e) },
        None => {},
    }
    if collection.is_voting {
        return Err(Errors::ModuleAlreadyAdded);
    }
    if count == 0 || duration <= 0 || quorum == 0 {
        return Err(Errors::ZeroValue);
    }
    if quorum > count {
        return Err(Errors::InvalidQuorum);
    }
    collection.is_voting = true;
    collection.quorum = quorum;
    collection.count = count;
    collection.vote_duration = duration;
    Ok(())
}

/// Selects which voting parameter an edit operation updates.
#[derive(Clone, Copy, Debug, PartialEq, Eq, Structural)]
pub enum VotingEditType {
    /// The collection's member count.
    Count,
    /// The voting window duration, in seconds.
    Duration,
    /// The minimum total votes for a proposal to pass.
    Quorum,
}

/// Updates one voting parameter, which must stay positive.
pub fn edit_voting_handler(
    collection: &mut Collection,
    authority: &CollectionNftInfo,
    owner: Pubkey,
    new_num: u64,
    edit_type: VotingEditType,
) -> (r: Result<(), Errors>)
    requires
        new_num <= i64::MAX as u64,
    ensures
        match collection_authority_error(*authority, owner) {
            Some(e) => r == Err::<(), Errors>(e) && *final(collection) == *old(collection),
            None => if new_num == 0 {
                r == Err::<(), Errors>(Errors::ZeroValue) && *final(collection) == *old(collection)
            } else {
                r == Ok::<(), Errors>(()) && *final(collection) == (match edit_type {
                    VotingEditType::Count => Collection { count: new_num, ..*old(collection) },
                    VotingEditType::Duration => Collection {
                        vote_duration: new_num as i64,
                        ..*old(collection)
                    },
                    VotingEditType::Quorum => Collection { quorum: new_num, ..*old(collection) },
                })
            },
        },
{
    match check_collection_authority(authority, owner) {
        Some(e) => { return Err(e) },
        None => {},
    }
    if new_num == 0 {
        return Err(Errors::ZeroValue);
    }
    match edit_type {
        VotingEditType::Count => {
            collection.count = new_num;
        },
        VotingEditType::Duration => {
            collection.vote_duration = new_num as i64;
        },
        VotingEditType::Quorum => {
            collection.quorum = new_num;
        },
    }
    Ok(())
}

/// The state and error, if any, that adding the trading module yields: the
/// authority gate, then the one-shot guard, then the new configuration.
pub open spec fn add_trade_outcome(
    c: Collection,
    authority: CollectionNftInfo,
    owner: Pubkey,
    trade_fee: u64,
    duration: i64,
) -> (Collection, Option<Errors>) {
    match collection_authority_error(authority, owner) {
        Some(e) => (c, Some(e)),
        None => if c.is_trade {
            (c, Some(Errors::ModuleAlreadyAdded))
        } else {
            (
                Collection { is_trade: true, trade_duration: duration, trade_fees: trade_fee, ..c },
                None,
            )
        },
    }
}

/// Enables the trading module, at most once, recording the flat trade fee and
/// the unconfirmed-trade expiry window.
pub fn add_trade_handler(
    collection: &mut Collection,
    authority: &CollectionNftInfo,
    owner: Pubkey,
    trade_fee: u64,
    duration: i64,
) -> (r: Result<(), Errors>)
    ensures
        ({
            let (c2, e) = add_trade_outcome(*old(collection), *authority, owner, trade_fee, duration);
            *final(collection) == c2 && (match e {
                Some(er) => r == Err::<(), Errors>(er),
                None => r == Ok::<(), Errors>(()),
            })
        }),
{
    match check_collection_authority(authority, owner) {
        Some(e) => { return Err(e) },
        None => {},
    }
    if collection.is_trade {
        return Err(Errors::ModuleAlreadyAdded);
    }
    collection.is_trade = true;
    collection.trade_duration = duration;
    collection.trade_fees = trade_fee;
    Ok(())
}

/// Selects which trading parameter an edit operation updates.
#[derive(Clone, Copy, Debug, PartialEq, Eq, Structural)]
pub enum TradeEditType {
    /// The flat per-trade fee.
    Fee,
    /// The unconfirmed-trade expiry window, in seconds.
    Duration,
}

/// The state and error, if any, that editing a trading parameter yields.
pub open spec fn edit_trade_outcome(
    c: Collection,
    authority: CollectionNftInfo,
    owner: Pubkey,
    new_num: u64,
    edit_type: TradeEditType,
) -> (Collection, Option<Errors>) {
    match collection_authority_error(authority, owner) {
        Some(e) => (c, Some(e)),
        None => match edit_type {
            TradeEditType::Fee => (Collection { trade_fees: new_num, ..c }, None),
            TradeEditType::Duration => if new_num == 0 {
                (c, Some(Errors::ZeroValue))
            } else {
                (Collection { trade_duration: new_num as i64, ..c }, None)
            },
        },
    }
}

/// Updates one trading parameter.  The fee may be any value, including zero;
/// the expiry duration must stay positive.
pub fn edit_trade_handler(
    collection: &mut Collection,
    authority: &CollectionNftInfo,
    owner: Pubkey,
    new_num: u64,
    edit_type: TradeEditType,
) -> (r: Result<(), Errors>)
    requires
        new_num <= i64::MAX as u64,
    ensures
        ({
            let (c2, e) = edit_trade_outcome(*old(collection), *authority, owner, new_num, edit_type);
            *final(collection) == c2 && (match e {
                Some(er) => r == Err::<(), Errors>(er),
                None => r == Ok::<(), Errors>(()),
            })
        }),
{
    match check_collection_authority(authority, owner) {
        Some(e) => { return Err(e) },
        None => {},
    }
    match edit_type {
        TradeEditType::Fee => {
            collection.trade_fees = new_num;
        },
        TradeEditType::Duration => {
            if new_num == 0 {
                return Err(Errors::ZeroValue);
            }
            collection.trade_duration = new_num as i64;
        },
    }
    Ok(())
}


/// Enabling the trading module is one-shot: after one successful add, a
/// second add by the rightful authority fails as already-added and changes
/// no parameter, whatever values it carries — while editing the fee after
/// the one successful add still succeeds.
pub proof fn lemma_add_trade_once(
    c0: Collection,
    authority: CollectionNftInfo,
    owner: Pubkey,
    fee1: u64,
    dur1: i64,
    fee2: u64,
    dur2: i64,
    fee3: u64,
)
    requires
        collection_authority_error(authority, owner) is None,
        !c0.is_trade,
    ensures
        ({
            let (c1, e1) = add_trade_outcome(c0, authority, owner, fee1, dur1);
            let (c2, e2) = add_trade_outcome(c1, authority, owner, fee2, dur2);
            let (c3, e3) = edit_trade_outcome(c1, authority, owner, fee3, TradeEditType::Fee);
            &&& e1 is None
            &&& e2 == Some(Errors::ModuleAlreadyAdded) && c2 == c1
            &&& e3 is None && c3 == (Collection { trade_fees: fee3, ..c1 })
        }),
{
}

} // verus!
