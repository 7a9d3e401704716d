//! Username registration: a pure key-value pair of records, one mapping the
//! holder to a username and one reserving the username for the holder's key.

use vstd::prelude::*;

use crate::account::Pubkey;
use crate::collection::Collection;
use crate::errors::Errors;
use crate::validate::{check_membership, membership_error, MemberCheck};

verus! {

/// The identity record of one holder within a collection.
#[derive(Debug, PartialEq, Eq)]
pub struct Identity {
    /// The holder's username (at most 15 characters).
    pub username: String,
}

/// The reverse record reserving a username for one holder.
#[derive(Clone, Copy, Debug, PartialEq, Eq, Structural)]
pub struct Username {
    /// The public key of the holder.
    pub key: Pubkey,
}

impl Identity {
    /// Wraps a username into its record.
    pub fn new(username: String) -> (i: Identity)
        ensures
            i.username == username,
    {
        Identity { username }
    }
}

impl Username {
    /// Wraps a holder's key into its record.
    pub fn new(key: Pubkey) -> (u: Username)
        ensures
            u.key == key,
    {
        Username { key }
    }
}

/// Registers an identity: the caller must hold a verified member asset of the
/// collection, and the username may be at most 15 characters long.
pub fn create_identity_handler(
    collection: &Collection,
    member: &MemberCheck,
    signer: Pubkey,
    username: String,
) -> (r: Result<(Identity, Username), Errors>)
    requires
        member.collection is Some,
    ensures
        match membership_error(*member, collection.verified_collection_key) {
            Some(e) => r == Err::<(Identity, Username), Errors>(e),
            None => if username@.len() > 15 {
                r == Err::<(Identity, Username), Errors>(Errors::StringLengthExceeds)
            } else {
                r is Ok && r.unwrap().0.username == username && r.unwrap().1.key == signer
            },
        },
{
    match check_membership(member, collection.verified_collection_key) {
        Some(e) => { return Err(e) },
        None => {},
    }
    if username.as_str().unicode_len() > 15 {
        return Err(Errors::StringLengthExceeds);
    }
    let key = Username::new(signer);
    Ok((Identity::new(username), key))
}

} // verus!
