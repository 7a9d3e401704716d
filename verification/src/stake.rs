//! The stake engine: custody of one staked asset per record, with continuous
//! time-based reward accrual.
//!
//! A stake record exists exactly while the protocol's derived authority holds
//! the asset.  Rewards accrue linearly per second at an hourly emission rate;
//! every payout resets the stake clock, so rewards never compound.

use vstd::prelude::*;

use vstd::arithmetic::div_mod::{lemma_div_is_ordered, lemma_div_pos_is_pos};
use vstd::arithmetic::mul::{lemma_mul_inequality, lemma_mul_nonnegative};

use crate::account::{CustodyOp, Pubkey};
use crate::collection::Collection;
use crate::errors::Errors;
use crate::validate::{check_membership, membership_error, MemberCheck};

verus! {

/// The record of one currently staked asset.
#[derive(Clone, Copy, Debug, PartialEq, Eq, Structural)]
pub struct Stake {
    /// The owner of the staked asset.
    pub owner: Pubkey,
    /// When the current accrual period started (reset on every payout).
    pub time: i64,
    /// The token account the asset came from, to return custody on unstake.
    pub nft_send_address: Pubkey,
    /// The collection record this stake belongs to.
    pub collection: Pubkey,
}

impl Stake {
    /// A fresh record for an asset staked at `time`.
    pub fn new(owner: Pubkey, nft_send_address: Pubkey, collection: Pubkey, time: i64) -> (s: Stake)
        ensures
            s == (Stake { owner, time, nft_send_address, collection }),
    {
        Stake { owner, time, nft_send_address, collection }
    }
}

/// Reward owed for holding one asset for `duration` seconds at `rate` units
/// per hour: `duration * rate / 3600`, truncated toward zero.
pub open spec fn emission_of(duration: int, rate: int) -> int {
    duration * rate / 3600
}

/// [`emission_of`] clamped to what a reward amount can carry.
pub open spec fn emission_clamped(duration: int, rate: int) -> int {
    if emission_of(duration, rate) > u64::MAX as int {
        u64::MAX as int
    } else {
        emission_of(duration, rate)
    }
}

/// Reward accrued since `stake_time` at `emission` units per asset per hour,
/// evaluated at `now`.
///
/// The product is taken in wide arithmetic and the result saturates at
/// `u64::MAX`; the division truncates toward zero, so a call within the same
/// second of an accrual period yields zero.
pub fn calc_emission(stake_time: i64, emission: u64, now: i64) -> (reward: u64)
    requires
        0 <= stake_time <= now,
    ensures
        reward as int == emission_clamped(now - stake_time, emission as int),
{
    let duration: u64 = (now - stake_time) as u64;
    proof {
        assert(duration as int * emission as int <= i64::MAX as int * u64::MAX as int) by {
            lemma_mul_inequality(duration as int, i64::MAX as int, emission as int);
            lemma_mul_inequality(emission as int, u64::MAX as int, i64::MAX as int);
        }
    }
    let product: u128 = duration as u128 * emission as u128;
    let reward_wide: u128 = product / 3600;
    if reward_wide > u64::MAX as u128 {
        u64::MAX
    } else {
        reward_wide as u64
    }
}

/// Cumulative minted reward never decreases: every payout is nonnegative,
/// and a longer accrual period never yields a smaller payout than a shorter
/// one at the same rate.
pub proof fn lemma_emission_monotonic(d1: int, d2: int, rate: int)
    requires
        0 <= d1 <= d2,
        0 <= rate,
    ensures
        0 <= emission_of(d1, rate),
        emission_of(d1, rate) <= emission_of(d2, rate),
        0 <= emission_clamped(d1, rate) <= emission_clamped(d2, rate),
{
    lemma_mul_nonnegative(d1, rate);
    lemma_mul_inequality(d1, d2, rate);
    lemma_div_pos_is_pos(d1 * rate, 3600);
    lemma_div_is_ordered(d1 * rate, d2 * rate, 3600);
}

/// The resolved accounts a staking operation acts on.
#[derive(Clone, Copy, Debug, PartialEq, Eq, Structural)]
pub struct StakeNft {
    /// The token account currently holding the asset to stake.
    pub nft_send_address: Pubkey,
    /// Membership evidence for the asset: balance of `nft_send_address` and
    /// the asset's metadata collection reference.
    pub member: MemberCheck,
    /// The staking holder.
    pub signer: Pubkey,
    /// The derived escrow account that will hold the asset while staked.
    pub nft_escrow: Pubkey,
    /// The protocol's derived authority that owns stake escrows.
    pub nft_authority: Pubkey,
    /// The address of the collection record.
    pub collection_key: Pubkey,
}

/// Stakes one asset: the holder must present exactly one unit of a verified
/// member asset and the collection must have staking enabled.  Custody moves
/// into the derived escrow, whose ownership is handed to the protocol
/// authority, and the stake clock starts at `now`.
pub fn stake_nft_handler(accounts: &StakeNft, collection: &Collection, now: i64) -> (r: Result<
    (Stake, Vec<CustodyOp>),
    Errors,
>)
    requires
        accounts.member.collection is Some,
    ensures
        match membership_error(accounts.member, collection.verified_collection_key) {
            Some(e) => r == Err::<(Stake, Vec<CustodyOp>), Errors>(e),
            None => if !collection.is_staking {
                r == Err::<(Stake, Vec<CustodyOp>), Errors>(Errors::ModuleNotActive)
            } else {
                r is Ok && r.unwrap().0 == (Stake {
                    owner: accounts.signer,
                    time: now,
                    nft_send_address: accounts.nft_send_address,
                    collection: accounts.collection_key,
                }) && r.unwrap().1@ == seq![
                    CustodyOp::Transfer {
                        from: accounts.nft_send_address,
                        to: accounts.nft_escrow,
                        amount: 1u64,
                    },
                    CustodyOp::SetOwner {
                        account: accounts.nft_escrow,
                        new_owner: accounts.nft_authority,
                    },
                ]
            },
        },
{
    match check_membership(&accounts.member, collection.verified_collection_key) {
        Some(e) => { return Err(e) },
        None => {},
    }
    if !collection.is_staking {
        return Err(Errors::ModuleNotActive);
    }
    let mut ops: Vec<CustodyOp> = Vec::new();
    ops.push(
        CustodyOp::Transfer {
            from: accounts.nft_send_address,
            to: accounts.nft_escrow,
            amount: 1u64,
        },
    );
    ops.push(
        CustodyOp::SetOwner { account: accounts.nft_escrow, new_owner: accounts.nft_authority },
    );
    let stake = Stake::new(accounts.signer, accounts.nft_send_address, accounts.collection_key, now);
    proof {
        assert(ops@ =~= seq![
            CustodyOp::Transfer {
                from: accounts.nft_send_address,
                to: accounts.nft_escrow,
                amount: 1u64,
            },
            CustodyOp::SetOwner {
                account: accounts.nft_escrow,
                new_owner: accounts.nft_authority,
            },
        ]);
    }
    Ok((stake, ops))
}

/// The resolved accounts a reward withdrawal acts on.
#[derive(Clone, Copy, Debug, PartialEq, Eq, Structural)]
pub struct WithdrawTokens {
    /// The owner's account for the collection's reward token.
    pub token_receive_address: Pubkey,
    /// The staking holder.
    pub owner: Pubkey,
    /// The address of the collection record.
    pub collection_key: Pubkey,
}

/// Pays out the reward accrued so far without unstaking: mints the reward to
/// the owner and resets the stake clock to `now`, so rewards never compound.
pub fn withdraw_tokens_handler(
    stake: &mut Stake,
    collection: &Collection,
    accounts: &WithdrawTokens,
    now: i64,
) -> (r: (u64, Vec<CustodyOp>))
    requires
        old(stake).collection == accounts.collection_key,
        old(stake).owner == accounts.owner,
        0 <= old(stake).time <= now,
    ensures
        r.0 as int == emission_clamped(now - old(stake).time, collection.emission as int),
        r.1@ == seq![
            CustodyOp::Mint { to: accounts.token_receive_address, amount: r.0 },
        ],
        *final(stake) == (Stake { time: now, ..*old(stake) }),
{
    let reward = calc_emission(stake.time, collection.emission, now);
    let mut ops: Vec<CustodyOp> = Vec::new();
    ops.push(CustodyOp::Mint { to: accounts.token_receive_address, amount: reward });
    stake.time = now;
    proof {
        assert(ops@ =~= seq![
            CustodyOp::Mint { to: accounts.token_receive_address, amount: reward },
        ]);
    }
    (reward, ops)
}

/// The resolved accounts an unstake acts on.
#[derive(Clone, Copy, Debug, PartialEq, Eq, Structural)]
pub struct UnstakeNft {
    /// The derived escrow account holding the staked asset.
    pub nft_escrow: Pubkey,
    /// The token account the asset is returned to.
    pub nft_send_address: Pubkey,
    /// The owner's account for the collection's reward token.
    pub token_receive_address: Pubkey,
    /// The staking holder.
    pub owner: Pubkey,
    /// The address of the collection record.
    pub collection_key: Pubkey,
}

/// Unstakes the asset: returns custody to the original send address, mints
/// the final reward, and closes the escrow.  The asset return comes before
/// the escrow close, and the caller destroys the stake record only after the
/// whole operation commits, so the record never outlives custody nor custody
/// the record.
pub fn unstake_nft_handler(
    stake: &Stake,
    collection: &Collection,
    accounts: &UnstakeNft,
    now: i64,
) -> (r: (u64, Vec<CustodyOp>))
    requires
        stake.collection == accounts.collection_key,
        stake.owner == accounts.owner,
        stake.nft_send_address == accounts.nft_send_address,
        0 <= stake.time <= now,
    ensures
        r.0 as int == emission_clamped(now - stake.time, collection.emission as int),
        r.1@ == seq![
            CustodyOp::Transfer {
                from: accounts.nft_escrow,
                to: accounts.nft_send_address,
                amount: 1u64,
            },
            CustodyOp::Mint { to: accounts.token_receive_address, amount: r.0 },
            CustodyOp::Close { account: accounts.nft_escrow, refund_to: accounts.owner },
        ],
{
    let reward = calc_emission(stake.time, collection.emission, now);
    let mut ops: Vec<CustodyOp> = Vec::new();
    ops.push(
        CustodyOp::Transfer {
            from: accounts.nft_escrow,
            to: accounts.nft_send_address,
            amount: 1u64,
        },
    );
    ops.push(CustodyOp::Mint { to: accounts.token_receive_address, amount: reward });
    ops.push(CustodyOp::Close { account: accounts.nft_escrow, refund_to: accounts.owner });
    proof {
        assert(ops@ =~= seq![
            CustodyOp::Transfer {
                from: accounts.nft_escrow,
                to: accounts.nft_send_address,
                amount: 1u64,
            },
            CustodyOp::Mint { to: accounts.token_receive_address, amount: reward },
            CustodyOp::Close { account: accounts.nft_escrow, refund_to: accounts.owner },
        ]);
    }
    (reward, ops)
}

} // verus!
