//! Plain-value views of the ledger accounts that gate the engines, and the
//! validation rules applied to them.
//!
//! The real ledger stores this evidence in externally owned metadata and
//! token accounts.  Resolving those accounts (deserialization, address
//! derivation, ordinal lookup) is the job of the external membership oracle
//! and authority service; the engine receives the resolved fields and applies
//! the acceptance rules below.

use vstd::prelude::*;

use crate::account::Pubkey;
use crate::errors::Errors;

verus! {

/// The fields of a collection NFT's metadata that gate every
/// collection-administration operation.
#[derive(Clone, Copy, Debug, PartialEq, Eq, Structural)]
pub struct CollectionNftInfo {
    /// Whether the metadata itself names a parent collection.  A true
    /// collection NFT has none; an ordinary member asset does.
    pub has_parent_collection: bool,
    /// The update authority recorded in the metadata.
    pub update_authority: Pubkey,
}

/// First failure, if any, of the authority gate shared by all
/// collection-administration operations: the gating NFT must be a collection
/// NFT and the caller must be its update authority.
pub open spec fn collection_authority_error(info: CollectionNftInfo, owner: Pubkey) -> Option<
    Errors,
> {
    if info.has_parent_collection {
        Some(Errors::NotCollectionNft)
    } else if info.update_authority != owner {
        Some(Errors::NotUpdateAuthority)
    } else {
        None
    }
}

/// Applies the collection-administration authority gate.
pub fn check_collection_authority(info: &CollectionNftInfo, owner: Pubkey) -> (r: Option<Errors>)
    ensures
        r == collection_authority_error(*info, owner),
{
    if info.has_parent_collection {
        Some(Errors::NotCollectionNft)
    } else if info.update_authority != owner {
        Some(Errors::NotUpdateAuthority)
    } else {
        None
    }
}

/// The collection reference inside a member asset's metadata.
#[derive(Clone, Copy, Debug, PartialEq, Eq, Structural)]
pub struct MetadataCollection {
    /// Whether the reference is certified by the collection authority.
    pub verified: bool,
    /// The collection the asset claims to belong to.
    pub key: Pubkey,
}

/// Membership evidence for one asset: how many units the presenting account
/// holds, and the collection reference found in the asset's metadata.
#[derive(Clone, Copy, Debug, PartialEq, Eq, Structural)]
pub struct MemberCheck {
    /// Balance of the holder's token account for the asset.
    pub token_amount: u64,
    /// The metadata's collection reference.
    pub collection: Option<MetadataCollection>,
}

/// First failure, if any, of the membership gate: the presenter must hold
/// exactly one unit of an asset whose metadata carries a verified reference
/// to the expected collection.
pub open spec fn membership_error(m: MemberCheck, expected: Pubkey) -> Option<Errors>
    recommends
        m.collection is Some,
{
    if m.token_amount != 1 {
        Some(Errors::TokenNotOne)
    } else {
        match m.collection {
            Some(c) => if !c.verified {
                Some(Errors::CollectionNotVerified)
            } else if c.key != expected {
                Some(Errors::CollectionNotSame)
            } else {
                None
            },
            None => None,
        }
    }
}

/// Applies the membership gate for one asset.
pub fn check_membership(m: &MemberCheck, expected: Pubkey) -> (r: Option<Errors>)
    requires
        m.collection is Some,
    ensures
        r == membership_error(*m, expected),
{
    if m.token_amount != 1 {
        Some(Errors::TokenNotOne)
    } else {
        match m.collection {
            Some(c) => if !c.verified {
                Some(Errors::CollectionNotVerified)
            } else if c.key != expected {
                Some(Errors::CollectionNotSame)
            } else {
                None
            },
            None => None,
        }
    }
}

/// A token account as resolved for the voting engine: whether the account
/// exists at all, and the owner, balance and mint it records.
#[derive(Clone, Copy, Debug, PartialEq, Eq, Structural)]
pub struct TokenAccountInfo {
    /// Whether the account is initialized on the ledger.
    pub initialized: bool,
    /// The authority that owns the token account.
    pub owner: Pubkey,
    /// The number of token units held.
    pub amount: u64,
    /// The mint of the held token.
    pub mint: Pubkey,
}

/// A member asset's metadata as resolved by the membership oracle for the
/// voting engine.
#[derive(Clone, Copy, Debug, PartialEq, Eq, Structural)]
pub struct MetadataInfo {
    /// Whether the metadata account is initialized on the ledger.
    pub initialized: bool,
    /// The mint this metadata account was derived for.
    pub mint: Pubkey,
    /// The metadata's collection reference, if it has one.
    pub collection: Option<MetadataCollection>,
    /// The asset's ordinal index within its collection.
    pub ordinal: u64,
}

/// First failure, if any, when vetting a voter's token account.
pub open spec fn token_account_error(token: TokenAccountInfo) -> Option<Errors> {
    if !token.initialized {
        Some(Errors::AccountNotInitialized)
    } else if token.amount != 1 {
        Some(Errors::TokenNotOne)
    } else {
        None
    }
}

/// Vets a voter's token account and hands back the mint it holds.
///
/// The account must be initialized and hold exactly one unit.  The caller
/// must already have established that the account belongs to the signer; the
/// ownership check is an assertion, not a recoverable error.
pub fn validate_token_account(token: &TokenAccountInfo, signer: &Pubkey) -> (r: Result<
    Pubkey,
    Errors,
>)
    requires
        token.initialized ==> token.owner == *signer,
    ensures
        r == (match token_account_error(*token) {
            Some(e) => Err::<Pubkey, Errors>(e),
            None => Ok::<Pubkey, Errors>(token.mint),
        }),
{
    if !token.initialized {
        Err(Errors::AccountNotInitialized)
    } else if token.amount != 1 {
        Err(Errors::TokenNotOne)
    } else {
        Ok(token.mint)
    }
}

/// First failure, if any, when vetting a voter's metadata account against the
/// mint it must describe and the collection it must belong to.
pub open spec fn metadata_error(mint: Pubkey, metadata: MetadataInfo, verified_key: Pubkey) -> Option<
    Errors,
> {
    if !metadata.initialized {
        Some(Errors::AccountNotInitialized)
    } else if metadata.mint != mint {
        Some(Errors::WrongMetadata)
    } else {
        match metadata.collection {
            None => Some(Errors::CollectionNotSet),
            Some(c) => if !c.verified {
                Some(Errors::CollectionNotVerified)
            } else if c.key != verified_key {
                Some(Errors::CollectionNotSame)
            } else {
                None
            },
        }
    }
}

/// Vets a member asset's metadata and hands back the asset's ordinal index
/// within the collection.
///
/// The metadata must be initialized, belong to `mint`, and carry a verified
/// collection reference equal to `verified_key`.
pub fn validate_metadata_account(mint: &Pubkey, metadata: &MetadataInfo, verified_key: &Pubkey) -> (
    r: Result<u64, Errors>)
    ensures
        r == (match metadata_error(*mint, *metadata, *verified_key) {
            Some(e) => Err::<u64, Errors>(e),
            None => Ok::<u64, Errors>(metadata.ordinal),
        }),
{
    if !metadata.initialized {
        return Err(Errors::AccountNotInitialized);
    }
    if metadata.mint != *mint {
        return Err(Errors::WrongMetadata);
    }
    match metadata.collection {
        None => Err(Errors::CollectionNotSet),
        Some(c) => {
            if !c.verified {
                Err(Errors::CollectionNotVerified)
            } else if c.key != *verified_key {
                Err(Errors::CollectionNotSame)
            } else {
                Ok(metadata.ordinal)
            }
        },
    }
}

} // verus!
