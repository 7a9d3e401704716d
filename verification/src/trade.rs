//! The trade escrow protocol: two-party conditional exchange of native value
//! and token legs, with cancellation and timeout.
//!
//! A trade moves through `Created` (party one funded), `Accepted` (party two
//! funded, `is_confirmed` set once and forever) and ends by `execute` (legs
//! swap to the counterparties, fee to the treasury) or `cancel` (legs unwind
//! to their original owners).  Every leg sits in custody of a
//! protocol-derived authority while the trade is open: the operations here
//! only emit the custody calls, and no party key can move escrowed value
//! outside them.

use vstd::prelude::*;

use crate::account::{
    lemma_transferred_concat, lemma_transferred_one, lemma_transferred_two, transferred_from,
    transferred_to, AccountBalance, CustodyOp, Pubkey,
};
use crate::collection::Collection;
use crate::errors::Errors;
use crate::validate::{check_membership, membership_error, MemberCheck};

verus! {

/// The funding mode of one leg of a trade: native value only, token only, or
/// both at once.  The mode is declared by the caller, never inferred.
#[derive(Clone, Copy, Debug, PartialEq, Eq, Structural)]
pub enum TradeType {
    /// A native-value transfer, no token leg.
    Sol,
    /// A token transfer into escrow, no value leg.
    Spl,
    /// A value leg plus a token leg.
    Both,
}

/// The record of one trade negotiation between two parties.  Slot 0 of each
/// amount pair is party one's contribution, slot 1 party two's; slot 1 stays
/// zero until the trade is accepted.
#[derive(Clone, Copy, Debug, PartialEq, Eq)]
pub struct Trade {
    /// The first party (initiator) of the trade.
    pub party_one: Pubkey,
    /// The second party of the trade.
    pub party_two: Pubkey,
    /// Native value contributed, by party slot.
    pub sol_amount: (u64, u64),
    /// Token units contributed, by party slot.
    pub spl_amount: (u64, u64),
    /// Party one's token send account, if one was presented.
    pub one_send_address: Option<Pubkey>,
    /// Mint of the token sent by party one, if it funded a token leg.
    pub one_mint: Option<Pubkey>,
    /// Party two's token send account, if one was presented.
    pub two_send_address: Option<Pubkey>,
    /// Party two's receive account for party one's token leg.
    pub two_receive_address: Option<Pubkey>,
    /// Mint of the token sent by party two, if it funded a token leg.
    pub two_mint: Option<Pubkey>,
    /// When the trade was created; the expiry window starts here.
    pub time: i64,
    /// Set once when party two accepts; never cleared.
    pub is_confirmed: bool,
    /// The collection record this trade belongs to.
    pub collection: Pubkey,
}

impl Trade {
    /// A fresh record for a trade created at `time`: party one's
    /// contribution fills slot 0, slot 1 stays zero until acceptance.
    pub fn new(
        party_one: Pubkey,
        party_two: Pubkey,
        sol_amount: u64,
        spl_amount: u64,
        one_send_address: Option<Pubkey>,
        time: i64,
        collection: Pubkey,
        one_mint: Option<Pubkey>,
    ) -> (t: Trade)
        ensures
            t == (Trade {
                party_one,
                party_two,
                sol_amount: (sol_amount, 0u64),
                spl_amount: (spl_amount, 0u64),
                one_send_address,
                one_mint,
                two_send_address: None,
                two_receive_address: None,
                two_mint: None,
                time,
                is_confirmed: false,
                collection,
            }),
    {
        Trade {
            party_one,
            party_two,
            sol_amount: (sol_amount, 0u64),
            spl_amount: (spl_amount, 0u64),
            one_send_address,
            one_mint,
            two_send_address: None,
            two_receive_address: None,
            two_mint: None,
            time,
            is_confirmed: false,
            collection,
        }
    }
}

/// First failure, if any, of a declared funding mode against its amounts and
/// accounts: the used legs must be positive, the unused legs exactly zero,
/// an escrow account must come exactly when a token leg does, and a token
/// leg needs a send account.
pub open spec fn leg_error(
    trade_type: TradeType,
    sol_amount: u64,
    spl_amount: u64,
    send_provided: bool,
    escrow_provided: bool,
) -> Option<Errors> {
    match trade_type {
        TradeType::Sol => if sol_amount == 0 {
            Some(Errors::TokenAmountZero)
        } else if spl_amount != 0 {
            Some(Errors::AmountNotZero)
        } else if escrow_provided {
            Some(Errors::AccountNotRequired)
        } else {
            None
        },
        TradeType::Spl => if sol_amount != 0 {
            Some(Errors::AmountNotZero)
        } else if spl_amount == 0 {
            Some(Errors::TokenAmountZero)
        } else if !send_provided {
            Some(Errors::AccountNotProvided)
        } else if !escrow_provided {
            Some(Errors::AccountNotProvided)
        } else {
            None
        },
        TradeType::Both => if sol_amount == 0 {
            Some(Errors::TokenAmountZero)
        } else if spl_amount == 0 {
            Some(Errors::TokenAmountZero)
        } else if !send_provided {
            Some(Errors::AccountNotProvided)
        } else if !escrow_provided {
            Some(Errors::AccountNotProvided)
        } else {
            None
        },
    }
}

/// Applies the funding-mode gate on plain values.
fn check_leg(
    trade_type: TradeType,
    sol_amount: u64,
    spl_amount: u64,
    send_provided: bool,
    escrow_provided: bool,
) -> (r: Option<Errors>)
    ensures
        r == leg_error(trade_type, sol_amount, spl_amount, send_provided, escrow_provided),
{
    match trade_type {
        TradeType::Sol => {
            if sol_amount == 0 {
                Some(Errors::TokenAmountZero)
            } else if spl_amount != 0 {
                Some(Errors::AmountNotZero)
            } else if escrow_provided {
                Some(Errors::AccountNotRequired)
            } else {
                None
            }
        },
        TradeType::Spl => {
            if sol_amount != 0 {
                Some(Errors::AmountNotZero)
            } else if spl_amount == 0 {
                Some(Errors::TokenAmountZero)
            } else if !send_provided {
                Some(Errors::AccountNotProvided)
            } else if !escrow_provided {
                Some(Errors::AccountNotProvided)
            } else {
                None
            }
        },
        TradeType::Both => {
            if sol_amount == 0 {
                Some(Errors::TokenAmountZero)
            } else if spl_amount == 0 {
                Some(Errors::TokenAmountZero)
            } else if !send_provided {
                Some(Errors::AccountNotProvided)
            } else if !escrow_provided {
                Some(Errors::AccountNotProvided)
            } else {
                None
            }
        },
    }
}

// ----------------------------------------------------------------------
// Creating a trade.
// ----------------------------------------------------------------------
/// The resolved accounts a trade creation acts on.
#[derive(Clone, Copy, Debug, PartialEq, Eq, Structural)]
pub struct CreateTrade {
    /// The initiating party.
    pub party_one: Pubkey,
    /// The counterparty.
    pub party_two: Pubkey,
    /// Party one's native balance, which must cover its value leg.
    pub party_one_lamports: u64,
    /// Party one's token send account, if a token leg is declared.
    pub one_send_address: Option<AccountBalance>,
    /// The derived escrow for party one's token leg, if one was presented.
    pub escrow_party_one: Option<Pubkey>,
    /// The mint of party one's token leg, if one was presented.
    pub mint: Option<Pubkey>,
    /// Membership evidence for party one's collection asset.
    pub one_member: MemberCheck,
    /// Membership evidence for party two's collection asset.
    pub two_member: MemberCheck,
    /// The address of the trade record (it holds the value legs).
    pub trade_address: Pubkey,
    /// The protocol's derived authority that owns trade escrows.
    pub escrow_authority: Pubkey,
    /// The address of the collection record.
    pub collection_key: Pubkey,
}

/// First failure, if any, when creating a trade: balances, both parties'
/// membership, the trading-module gate, then the funding-mode gate.
pub open spec fn create_trade_error(
    accounts: CreateTrade,
    collection: Collection,
    sol_amount: u64,
    spl_amount: u64,
    trade_type: TradeType,
) -> Option<Errors> {
    if (match accounts.one_send_address {
        Some(a) => a.amount < spl_amount,
        None => false,
    }) {
        Some(Errors::InsufficientBalance)
    } else if accounts.party_one_lamports < sol_amount {
        Some(Errors::InsufficientBalance)
    } else {
        match membership_error(accounts.one_member, collection.verified_collection_key) {
            Some(e) => Some(e),
            None => match membership_error(
                accounts.two_member,
                collection.verified_collection_key,
            ) {
                Some(e) => Some(e),
                None => if !collection.is_trade {
                    Some(Errors::ModuleNotActive)
                } else {
                    leg_error(
                        trade_type,
                        sol_amount,
                        spl_amount,
                        accounts.one_send_address is Some,
                        accounts.escrow_party_one is Some,
                    )
                },
            },
        }
    }
}

/// The custody calls that fund party one's legs: the token leg into escrow
/// (whose ownership passes to the protocol authority), the value leg into
/// the trade record.
pub open spec fn create_trade_ops(
    accounts: CreateTrade,
    sol_amount: u64,
    spl_amount: u64,
    trade_type: TradeType,
) -> Seq<CustodyOp> {
    let spl_ops = seq![
        CustodyOp::Transfer {
            from: (match accounts.one_send_address {
                Some(a) => a.key,
                None => accounts.party_one,
            }),
            to: (match accounts.escrow_party_one {
                Some(k) => k,
                None => accounts.party_one,
            }),
            amount: spl_amount,
        },
        CustodyOp::SetOwner {
            account: (match accounts.escrow_party_one {
                Some(k) => k,
                None => accounts.party_one,
            }),
            new_owner: accounts.escrow_authority,
        },
    ];
    let sol_ops = seq![
        CustodyOp::Transfer {
            from: accounts.party_one,
            to: accounts.trade_address,
            amount: sol_amount,
        },
    ];
    match trade_type {
        TradeType::Sol => sol_ops,
        TradeType::Spl => spl_ops,
        TradeType::Both => spl_ops + sol_ops,
    }
}

/// The record a successful creation writes: slot-0 amounts, party one's send
/// account as presented, and its mint exactly when a token leg was funded.
pub open spec fn create_trade_record(
    accounts: CreateTrade,
    sol_amount: u64,
    spl_amount: u64,
    now: i64,
) -> Trade {
    Trade {
        party_one: accounts.party_one,
        party_two: accounts.party_two,
        sol_amount: (sol_amount, 0u64),
        spl_amount: (spl_amount, 0u64),
        one_send_address: (match accounts.one_send_address {
            Some(a) => Some(a.key),
            None => None,
        }),
        one_mint: if spl_amount > 0 {
            accounts.mint
        } else {
            None
        },
        two_send_address: None,
        two_receive_address: None,
        two_mint: None,
        time: now,
        is_confirmed: false,
        collection: accounts.collection_key,
    }
}

/// Opens a trade: both parties must hold a verified member asset of a
/// collection with trading enabled; party one's legs are validated against
/// the declared mode and funded into custody; the record is created
/// unconfirmed with the clock started at `now`.
pub fn create_trade_handler(
    accounts: &CreateTrade,
    collection: &Collection,
    sol_amount: u64,
    spl_amount: u64,
    trade_type: TradeType,
    now: i64,
) -> (r: Result<(Trade, Vec<CustodyOp>), Errors>)
    requires
        accounts.one_member.collection is Some,
        accounts.two_member.collection is Some,
    ensures
        match create_trade_error(*accounts, *collection, sol_amount, spl_amount, trade_type) {
            Some(e) => r == Err::<(Trade, Vec<CustodyOp>), Errors>(e),
            None => r is Ok && r.unwrap().0 == create_trade_record(
                *accounts,
                sol_amount,
                spl_amount,
                now,
            ) && r.unwrap().1@ == create_trade_ops(*accounts, sol_amount, spl_amount, trade_type),
        },
{
    match &accounts.one_send_address {
        Some(a) => if a.amount < spl_amount {
            return Err(Errors::InsufficientBalance);
        },
        None => {},
    }
    if accounts.party_one_lamports < sol_amount {
        return Err(Errors::InsufficientBalance);
    }
    match check_membership(&accounts.one_member, collection.verified_collection_key) {
        Some(e) => { return Err(e) },
        None => {},
    }
    match check_membership(&accounts.two_member, collection.verified_collection_key) {
        Some(e) => { return Err(e) },
        None => {},
    }
    if !collection.is_trade {
        return Err(Errors::ModuleNotActive);
    }
    let send_provided = accounts.one_send_address.is_some();
    let escrow_provided = accounts.escrow_party_one.is_some();
    match check_leg(trade_type, sol_amount, spl_amount, send_provided, escrow_provided) {
        Some(e) => { return Err(e) },
        None => {},
    }
    let mut ops: Vec<CustodyOp> = Vec::new();
    let has_spl_leg = match trade_type {
        TradeType::Sol => false,
        TradeType::Spl => true,
        TradeType::Both => true,
    };
    let has_sol_leg = match trade_type {
        TradeType::Sol => true,
        TradeType::Spl => false,
        TradeType::Both => true,
    };
    if has_spl_leg {
        let send_key = match &accounts.one_send_address {
            Some(a) => a.key,
            None => accounts.party_one,
        };
        let escrow_key = match &accounts.escrow_party_one {
            Some(k) => *k,
            None => accounts.party_one,
        };
        ops.push(CustodyOp::Transfer { from: send_key, to: escrow_key, amount: spl_amount });
        ops.push(CustodyOp::SetOwner { account: escrow_key, new_owner: accounts.escrow_authority });
    }
    if has_sol_leg {
        ops.push(
            CustodyOp::Transfer {
                from: accounts.party_one,
                to: accounts.trade_address,
                amount: sol_amount,
            },
        );
    }
    proof {
        assert(ops@ =~= create_trade_ops(*accounts, sol_amount, spl_amount, trade_type));
    }
    let one_send_key = match &accounts.one_send_address {
        Some(a) => Some(a.key),
        None => None,
    };
    let one_mint = match &accounts.mint {
        Some(k) => if spl_amount > 0 {
            Some(*k)
        } else {
            None
        },
        None => None,
    };
    let trade = Trade::new(
        accounts.party_one,
        accounts.party_two,
        sol_amount,
        spl_amount,
        one_send_key,
        now,
        accounts.collection_key,
        one_mint,
    );
    Ok((trade, ops))
}

/// What party one's funding deposits where: the value leg lands on the trade
/// record and the token leg in the escrow, each for exactly the recorded
/// slot-0 amount — value neither appears nor vanishes on the way in.
pub proof fn lemma_create_trade_conservation(
    accounts: CreateTrade,
    collection: Collection,
    sol_amount: u64,
    spl_amount: u64,
    trade_type: TradeType,
    now: i64,
)
    requires
        create_trade_error(accounts, collection, sol_amount, spl_amount, trade_type) is None,
        accounts.escrow_party_one matches Some(e) ==> e != accounts.trade_address,
    ensures
        ({
            let ops = create_trade_ops(accounts, sol_amount, spl_amount, trade_type);
            let record = create_trade_record(accounts, sol_amount, spl_amount, now);
            &&& transferred_to(ops, accounts.trade_address) == (match trade_type {
                TradeType::Spl => 0,
                _ => record.sol_amount.0 as int,
            })
            &&& (match accounts.escrow_party_one {
                Some(e) => transferred_to(ops, e) == (match trade_type {
                    TradeType::Sol => 0,
                    _ => record.spl_amount.0 as int,
                }),
                None => true,
            })
        }),
{
    let a_tr = accounts.trade_address;
    let send_key = match accounts.one_send_address {
        Some(a) => a.key,
        None => accounts.party_one,
    };
    let esc = match accounts.escrow_party_one {
        Some(k) => k,
        None => accounts.party_one,
    };
    let t_op = CustodyOp::Transfer { from: send_key, to: esc, amount: spl_amount };
    let s_op = CustodyOp::SetOwner { account: esc, new_owner: accounts.escrow_authority };
    let sol_op = CustodyOp::Transfer {
        from: accounts.party_one,
        to: a_tr,
        amount: sol_amount,
    };
    lemma_transferred_one(sol_op, a_tr);
    lemma_transferred_one(t_op, a_tr);
    lemma_transferred_one(s_op, a_tr);
    lemma_transferred_two(t_op, s_op, a_tr);
    lemma_transferred_concat(seq![t_op, s_op], seq![sol_op], a_tr);
    match accounts.escrow_party_one {
        Some(e) => {
            lemma_transferred_one(sol_op, e);
            lemma_transferred_one(t_op, e);
            lemma_transferred_one(s_op, e);
            lemma_transferred_two(t_op, s_op, e);
            lemma_transferred_concat(seq![t_op, s_op], seq![sol_op], e);
        },
        None => {},
    }
    let ops = create_trade_ops(accounts, sol_amount, spl_amount, trade_type);
    match trade_type {
        TradeType::Sol => {
            assert(ops =~= seq![sol_op]);
        },
        TradeType::Spl => {
            assert(ops =~= seq![t_op, s_op]);
        },
        TradeType::Both => {
            assert(ops =~= seq![t_op, s_op] + seq![sol_op]);
        },
    }
}

// ----------------------------------------------------------------------
// Accepting a trade.
// ----------------------------------------------------------------------
/// The resolved accounts a trade acceptance acts on.
#[derive(Clone, Copy, Debug, PartialEq, Eq, Structural)]
pub struct AcceptTrade {
    /// Party two's native balance, which must cover its value leg.
    pub party_two_lamports: u64,
    /// Party two's token send account, if a token leg is declared.
    pub two_send_address: Option<AccountBalance>,
    /// The derived escrow for party two's token leg, if one was presented.
    pub escrow_party_two: Option<Pubkey>,
    /// Party two's receive account for party one's token leg.
    pub two_receive_address: Option<Pubkey>,
    /// The mint recorded for party one's token leg, if presented for the
    /// receive account; it must match the trade record.
    pub one_mint: Option<Pubkey>,
    /// The mint of party two's token leg, if one was presented.
    pub two_mint: Option<Pubkey>,
    /// The address of the trade record.
    pub trade_address: Pubkey,
    /// The protocol's derived authority that owns trade escrows.
    pub escrow_authority: Pubkey,
}

/// First failure, if any, when accepting a trade: balance and mint
/// constraints, the one-shot confirmation guard, the funding-mode gate, and
/// — when party one's leg is a token with a recorded mint — the mandatory
/// receive account, without which that token could never be claimed.
pub open spec fn accept_trade_error(
    accounts: AcceptTrade,
    trade: Trade,
    sol_amount: u64,
    spl_amount: u64,
    trade_type: TradeType,
) -> Option<Errors> {
    if (match accounts.two_send_address {
        Some(a) => a.amount < spl_amount,
        None => false,
    }) {
        Some(Errors::InsufficientBalance)
    } else if (match (accounts.one_mint, trade.one_mint) {
        (Some(k), Some(m)) => k != m,
        _ => false,
    }) {
        Some(Errors::MintNotExist)
    } else if accounts.party_two_lamports < sol_amount {
        Some(Errors::InsufficientBalance)
    } else if trade.is_confirmed {
        Some(Errors::TradeAlreadyAccepted)
    } else {
        match leg_error(
            trade_type,
            sol_amount,
            spl_amount,
            accounts.two_send_address is Some,
            accounts.escrow_party_two is Some,
        ) {
            Some(e) => Some(e),
            None => if trade.one_mint is Some && accounts.two_receive_address is None {
                Some(Errors::AccountNotProvided)
            } else {
                None
            },
        }
    }
}

/// The custody calls that fund party two's legs, mirroring creation.
pub open spec fn accept_trade_ops(
    accounts: AcceptTrade,
    trade: Trade,
    sol_amount: u64,
    spl_amount: u64,
    trade_type: TradeType,
) -> Seq<CustodyOp> {
    let spl_ops = seq![
        CustodyOp::Transfer {
            from: (match accounts.two_send_address {
                Some(a) => a.key,
                None => accounts.trade_address,
            }),
            to: (match accounts.escrow_party_two {
                Some(k) => k,
                None => accounts.trade_address,
            }),
            amount: spl_amount,
        },
        CustodyOp::SetOwner {
            account: (match accounts.escrow_party_two {
                Some(k) => k,
                None => accounts.trade_address,
            }),
            new_owner: accounts.escrow_authority,
        },
    ];
    let sol_ops = seq![
        CustodyOp::Transfer {
            from: trade.party_two,
            to: accounts.trade_address,
            amount: sol_amount,
        },
    ];
    match trade_type {
        TradeType::Sol => sol_ops,
        TradeType::Spl => spl_ops,
        TradeType::Both => spl_ops + sol_ops,
    }
}

/// The record state after a successful acceptance: slot-1 amounts recorded,
/// party two's accounts filled in, and the confirmation flag set forever.
pub open spec fn accept_trade_record(
    accounts: AcceptTrade,
    trade: Trade,
    sol_amount: u64,
    spl_amount: u64,
) -> Trade {
    Trade {
        sol_amount: (trade.sol_amount.0, sol_amount),
        spl_amount: (trade.spl_amount.0, spl_amount),
        two_send_address: (match accounts.two_send_address {
            Some(a) => Some(a.key),
            None => None,
        }),
        two_receive_address: accounts.two_receive_address,
        two_mint: if spl_amount > 0 {
            accounts.two_mint
        } else {
            None
        },
        is_confirmed: true,
        ..trade
    }
}

/// Party two accepts an unconfirmed trade: its legs are validated against
/// the declared mode and funded into custody, slot-1 amounts are recorded,
/// and the trade is confirmed — a strict one-way transition; a second
/// acceptance finds `is_confirmed` set and fails with no effect.
pub fn accept_trade_handler(
    trade: &mut Trade,
    accounts: &AcceptTrade,
    sol_amount: u64,
    spl_amount: u64,
    trade_type: TradeType,
) -> (r: Result<Vec<CustodyOp>, Errors>)
    requires
        accounts.one_mint is Some ==> old(trade).one_mint is Some,
    ensures
        match accept_trade_error(*accounts, *old(trade), sol_amount, spl_amount, trade_type) {
            Some(e) => r == Err::<Vec<CustodyOp>, Errors>(e) && *final(trade) == *old(trade),
            None => r is Ok && r.unwrap()@ == accept_trade_ops(
                *accounts,
                *old(trade),
                sol_amount,
                spl_amount,
                trade_type,
            ) && *final(trade) == accept_trade_record(
                *accounts,
                *old(trade),
                sol_amount,
                spl_amount,
            ),
        },
{
    match &accounts.two_send_address {
        Some(a) => if a.amount < spl_amount {
            return Err(Errors::InsufficientBalance);
        },
        None => {},
    }
    match &accounts.one_mint {
        Some(k) => {
            let recorded = match &trade.one_mint {
                Some(m) => *m,
                None => *k,
            };
            if *k != recorded {
                return Err(Errors::MintNotExist);
            }
        },
        None => {},
    }
    if accounts.party_two_lamports < sol_amount {
        return Err(Errors::InsufficientBalance);
    }
    if trade.is_confirmed {
        return Err(Errors::TradeAlreadyAccepted);
    }
    let send_provided = accounts.two_send_address.is_some();
    let escrow_provided = accounts.escrow_party_two.is_some();
    match check_leg(trade_type, sol_amount, spl_amount, send_provided, escrow_provided) {
        Some(e) => { return Err(e) },
        None => {},
    }
    if trade.one_mint.is_some() && accounts.two_receive_address.is_none() {
        return Err(Errors::AccountNotProvided);
    }
    let mut ops: Vec<CustodyOp> = Vec::new();
    let has_spl_leg = match trade_type {
        TradeType::Sol => false,
        TradeType::Spl => true,
        TradeType::Both => true,
    };
    let has_sol_leg = match trade_type {
        TradeType::Sol => true,
        TradeType::Spl => false,
        TradeType::Both => true,
    };
    if has_spl_leg {
        let send_key = match &accounts.two_send_address {
            Some(a) => a.key,
            None => accounts.trade_address,
        };
        let escrow_key = match &accounts.escrow_party_two {
            Some(k) => *k,
            None => accounts.trade_address,
        };
        ops.push(CustodyOp::Transfer { from: send_key, to: escrow_key, amount: spl_amount });
        ops.push(CustodyOp::SetOwner { account: escrow_key, new_owner: accounts.escrow_authority });
    }
    if has_sol_leg {
        ops.push(
            CustodyOp::Transfer {
                from: trade.party_two,
                to: accounts.trade_address,
                amount: sol_amount,
            },
        );
    }
    proof {
        assert(ops@ =~= accept_trade_ops(*accounts, *trade, sol_amount, spl_amount, trade_type));
    }
    let two_send_key = match &accounts.two_send_address {
        Some(a) => Some(a.key),
        None => None,
    };
    let two_mint = match &accounts.two_mint {
        Some(k) => if spl_amount > 0 {
            Some(*k)
        } else {
            None
        },
        None => None,
    };
    trade.is_confirmed = true;
    trade.two_receive_address = accounts.two_receive_address;
    trade.two_send_address = two_send_key;
    trade.two_mint = two_mint;
    trade.sol_amount.1 = sol_amount;
    trade.spl_amount.1 = spl_amount;
    Ok(ops)
}

/// A trade is accepted at most once: whatever accounts, amounts and mode a
/// second acceptance presents, it finds the trade confirmed and fails — the
/// only question is whether a balance or mint constraint rejects it even
/// earlier.  In particular it can never succeed and never alters the record.
pub proof fn lemma_accept_once(
    trade: Trade,
    accounts: AcceptTrade,
    sol_amount: u64,
    spl_amount: u64,
    trade_type: TradeType,
)
    requires
        trade.is_confirmed,
    ensures
        accept_trade_error(accounts, trade, sol_amount, spl_amount, trade_type) is Some,
        (match accept_trade_error(accounts, trade, sol_amount, spl_amount, trade_type) {
            Some(e) => e == Errors::TradeAlreadyAccepted || e == Errors::InsufficientBalance || e
                == Errors::MintNotExist,
            None => false,
        }),
{
}

/// What party two's funding deposits where: the value leg lands on the
/// trade record and the token leg in its escrow, each for exactly the
/// recorded slot-1 amount — value neither appears nor vanishes on the way
/// in.
pub proof fn lemma_accept_trade_conservation(
    accounts: AcceptTrade,
    trade: Trade,
    sol_amount: u64,
    spl_amount: u64,
    trade_type: TradeType,
)
    requires
        accept_trade_error(accounts, trade, sol_amount, spl_amount, trade_type) is None,
        accounts.escrow_party_two matches Some(e) ==> e != accounts.trade_address,
    ensures
        ({
            let ops = accept_trade_ops(accounts, trade, sol_amount, spl_amount, trade_type);
            let record = accept_trade_record(accounts, trade, sol_amount, spl_amount);
            &&& transferred_to(ops, accounts.trade_address) == (match trade_type {
                TradeType::Spl => 0,
                _ => record.sol_amount.1 as int,
            })
            &&& (match accounts.escrow_party_two {
                Some(e) => transferred_to(ops, e) == (match trade_type {
                    TradeType::Sol => 0,
                    _ => record.spl_amount.1 as int,
                }),
                None => true,
            })
        }),
{
    let a_tr = accounts.trade_address;
    let send_key = match accounts.two_send_address {
        Some(a) => a.key,
        None => a_tr,
    };
    let esc = match accounts.escrow_party_two {
        Some(k) => k,
        None => a_tr,
    };
    let t_op = CustodyOp::Transfer { from: send_key, to: esc, amount: spl_amount };
    let s_op = CustodyOp::SetOwner { account: esc, new_owner: accounts.escrow_authority };
    let sol_op = CustodyOp::Transfer { from: trade.party_two, to: a_tr, amount: sol_amount };
    lemma_transferred_one(sol_op, a_tr);
    lemma_transferred_one(t_op, a_tr);
    lemma_transferred_one(s_op, a_tr);
    lemma_transferred_two(t_op, s_op, a_tr);
    lemma_transferred_concat(seq![t_op, s_op], seq![sol_op], a_tr);
    match accounts.escrow_party_two {
        Some(e) => {
            lemma_transferred_one(sol_op, e);
            lemma_transferred_one(t_op, e);
            lemma_transferred_one(s_op, e);
            lemma_transferred_two(t_op, s_op, e);
            lemma_transferred_concat(seq![t_op, s_op], seq![sol_op], e);
        },
        None => {},
    }
    let ops = accept_trade_ops(accounts, trade, sol_amount, spl_amount, trade_type);
    match trade_type {
        TradeType::Sol => {
            assert(ops =~= seq![sol_op]);
        },
        TradeType::Spl => {
            assert(ops =~= seq![t_op, s_op]);
        },
        TradeType::Both => {
            assert(ops =~= seq![t_op, s_op] + seq![sol_op]);
        },
    }
}

// ----------------------------------------------------------------------
// Executing a trade.
// ----------------------------------------------------------------------
/// The resolved accounts a trade execution acts on.
#[derive(Clone, Copy, Debug, PartialEq, Eq, Structural)]
pub struct ExecuteTrade {
    /// Party one's native balance, which must cover the trade fee.
    pub party_one_lamports: u64,
    /// The derived escrow holding party one's token leg, if that leg exists.
    pub escrow_party_one: Option<Pubkey>,
    /// The derived escrow holding party two's token leg, if that leg exists.
    pub escrow_party_two: Option<Pubkey>,
    /// Party one's receive account for party two's token leg.
    pub one_receive_address: Option<Pubkey>,
    /// Party two's receive account, which must match the one recorded.
    pub two_receive_address: Option<Pubkey>,
    /// The mint of party two's leg, which must match the one recorded.
    pub two_mint: Option<Pubkey>,
    /// The address of the trade record (it holds the value legs).
    pub trade_address: Pubkey,
    /// The collection's treasury, which collects the flat trade fee.
    pub treasury_address: Pubkey,
}

/// First failure, if any, when executing a trade: the presented receive
/// account and mint must match the record, party one must cover the fee,
/// the trade must be confirmed, and party two's token leg needs a receive
/// account for party one.
pub open spec fn execute_trade_error(
    accounts: ExecuteTrade,
    trade: Trade,
    collection: Collection,
) -> Option<Errors> {
    if (match (accounts.two_receive_address, trade.two_receive_address) {
        (Some(k), Some(m)) => k != m,
        _ => false,
    }) {
        Some(Errors::IncorrectTokenAccount)
    } else if accounts.party_one_lamports < collection.trade_fees {
        Some(Errors::InsufficientBalance)
    } else if (match (accounts.two_mint, trade.two_mint) {
        (Some(k), Some(m)) => k != m,
        _ => false,
    }) {
        Some(Errors::MintNotExist)
    } else if !trade.is_confirmed {
        Some(Errors::TradeNotAccepted)
    } else if trade.two_mint is Some && accounts.one_receive_address is None {
        Some(Errors::AccountNotProvided)
    } else {
        None
    }
}

/// The custody calls of a successful execution: the fee to the treasury,
/// each token leg from its escrow to the opposite party's receive account
/// (closing the escrow), and each value leg from the trade record to the
/// opposite party.
pub open spec fn execute_trade_ops(
    accounts: ExecuteTrade,
    trade: Trade,
    collection: Collection,
) -> Seq<CustodyOp> {
    let fee_ops: Seq<CustodyOp> = if collection.trade_fees > 0 {
        seq![
            CustodyOp::Transfer {
                from: trade.party_one,
                to: accounts.treasury_address,
                amount: collection.trade_fees,
            },
        ]
    } else {
        Seq::empty()
    };
    let spl0_ops: Seq<CustodyOp> = if trade.spl_amount.0 > 0 {
        seq![
            CustodyOp::Transfer {
                from: (match accounts.escrow_party_one {
                    Some(k) => k,
                    None => trade.party_one,
                }),
                to: (match trade.two_receive_address {
                    Some(k) => k,
                    None => trade.party_two,
                }),
                amount: trade.spl_amount.0,
            },
            CustodyOp::Close {
                account: (match accounts.escrow_party_one {
                    Some(k) => k,
                    None => trade.party_one,
                }),
                refund_to: trade.party_one,
            },
        ]
    } else {
        Seq::empty()
    };
    let spl1_ops: Seq<CustodyOp> = if trade.spl_amount.1 > 0 {
        seq![
            CustodyOp::Transfer {
                from: (match accounts.escrow_party_two {
                    Some(k) => k,
                    None => trade.party_two,
                }),
                to: (match accounts.one_receive_address {
                    Some(k) => k,
                    None => trade.party_one,
                }),
                amount: trade.spl_amount.1,
            },
            CustodyOp::Close {
                account: (match accounts.escrow_party_two {
                    Some(k) => k,
                    None => trade.party_two,
                }),
                refund_to: trade.party_two,
            },
        ]
    } else {
        Seq::empty()
    };
    let sol0_ops: Seq<CustodyOp> = if trade.sol_amount.0 > 0 {
        seq![
            CustodyOp::Transfer {
                from: accounts.trade_address,
                to: trade.party_two,
                amount: trade.sol_amount.0,
            },
        ]
    } else {
        Seq::empty()
    };
    let sol1_ops: Seq<CustodyOp> = if trade.sol_amount.1 > 0 {
        seq![
            CustodyOp::Transfer {
                from: accounts.trade_address,
                to: trade.party_one,
                amount: trade.sol_amount.1,
            },
        ]
    } else {
        Seq::empty()
    };
    fee_ops + spl0_ops + spl1_ops + sol0_ops + sol1_ops
}

/// Executes a confirmed trade: emits the fee, swaps both token legs to the
/// counterparties' receive accounts, releases both value legs, and the
/// caller then closes the trade record.  All custody moves are signed by
/// the protocol's derived escrow authority, never by a party.
pub fn execute_trade_handler(
    trade: &Trade,
    collection: &Collection,
    accounts: &ExecuteTrade,
) -> (r: Result<Vec<CustodyOp>, Errors>)
    requires
        accounts.two_receive_address is Some ==> trade.two_receive_address is Some,
        accounts.two_mint is Some ==> trade.two_mint is Some,
        trade.spl_amount.0 > 0 ==> accounts.escrow_party_one is Some
            && accounts.two_receive_address is Some,
        trade.spl_amount.1 > 0 ==> accounts.escrow_party_two is Some,
        trade.spl_amount.1 > 0 && trade.two_mint is None ==> accounts.one_receive_address is Some,
        accounts.treasury_address == collection.treasury_address,
    ensures
        match execute_trade_error(*accounts, *trade, *collection) {
            Some(e) => r == Err::<Vec<CustodyOp>, Errors>(e),
            None => r is Ok && r.unwrap()@ == execute_trade_ops(*accounts, *trade, *collection),
        },
{
    match (&accounts.two_receive_address, &trade.two_receive_address) {
        (Some(k), Some(m)) => if *k != *m {
            return Err(Errors::IncorrectTokenAccount);
        },
        _ => {},
    }
    if accounts.party_one_lamports < collection.trade_fees {
        return Err(Errors::InsufficientBalance);
    }
    match (&accounts.two_mint, &trade.two_mint) {
        (Some(k), Some(m)) => if *k != *m {
            return Err(Errors::MintNotExist);
        },
        _ => {},
    }
    if !trade.is_confirmed {
        return Err(Errors::TradeNotAccepted);
    }
    if trade.two_mint.is_some() && accounts.one_receive_address.is_none() {
        return Err(Errors::AccountNotProvided);
    }
    let mut ops: Vec<CustodyOp> = Vec::new();
    if collection.trade_fees > 0 {
        ops.push(
            CustodyOp::Transfer {
                from: trade.party_one,
                to: accounts.treasury_address,
                amount: collection.trade_fees,
            },
        );
    }
    if trade.spl_amount.0 > 0 {
        let escrow = match &accounts.escrow_party_one {
            Some(k) => *k,
            None => trade.party_one,
        };
        let receive = match &trade.two_receive_address {
            Some(k) => *k,
            None => trade.party_two,
        };
        ops.push(CustodyOp::Transfer { from: escrow, to: receive, amount: trade.spl_amount.0 });
        ops.push(CustodyOp::Close { account: escrow, refund_to: trade.party_one });
    }
    if trade.spl_amount.1 > 0 {
        let escrow = match &accounts.escrow_party_two {
            Some(k) => *k,
            None => trade.party_two,
        };
        let receive = match &accounts.one_receive_address {
            Some(k) => *k,
            None => trade.party_one,
        };
        ops.push(CustodyOp::Transfer { from: escrow, to: receive, amount: trade.spl_amount.1 });
        ops.push(CustodyOp::Close { account: escrow, refund_to: trade.party_two });
    }
    if trade.sol_amount.0 > 0 {
        ops.push(
            CustodyOp::Transfer {
                from: accounts.trade_address,
                to: trade.party_two,
                amount: trade.sol_amount.0,
            },
        );
    }
    if trade.sol_amount.1 > 0 {
        ops.push(
            CustodyOp::Transfer {
                from: accounts.trade_address,
                to: trade.party_one,
                amount: trade.sol_amount.1,
            },
        );
    }
    proof {
        assert(ops@ =~= execute_trade_ops(*accounts, *trade, *collection));
    }
    Ok(ops)
}


proof fn lemma_transferred_segments(
    fee: Seq<CustodyOp>,
    s0: Seq<CustodyOp>,
    s1: Seq<CustodyOp>,
    v0: Seq<CustodyOp>,
    v1: Seq<CustodyOp>,
    a: Pubkey,
)
    ensures
        transferred_from(fee + s0 + s1 + v0 + v1, a) == transferred_from(fee, a)
            + transferred_from(s0, a) + transferred_from(s1, a) + transferred_from(v0, a)
            + transferred_from(v1, a),
        transferred_to(fee + s0 + s1 + v0 + v1, a) == transferred_to(fee, a) + transferred_to(
            s0,
            a,
        ) + transferred_to(s1, a) + transferred_to(v0, a) + transferred_to(v1, a),
{
    lemma_transferred_concat(fee, s0, a);
    lemma_transferred_concat(fee + s0, s1, a);
    lemma_transferred_concat(fee + s0 + s1, v0, a);
    lemma_transferred_concat(fee + s0 + s1 + v0, v1, a);
}

/// Trade conservation on the way out of an execution: whatever leaves the
/// trade record is exactly the two recorded value legs, and whatever leaves
/// each escrow is exactly its recorded token leg — value neither appears
/// nor vanishes between escrow and the receiving parties.
pub proof fn lemma_execute_trade_conservation(
    accounts: ExecuteTrade,
    trade: Trade,
    collection: Collection,
)
    requires
        execute_trade_error(accounts, trade, collection) is None,
        trade.spl_amount.0 > 0 ==> accounts.escrow_party_one is Some,
        trade.spl_amount.1 > 0 ==> accounts.escrow_party_two is Some,
        trade.party_one != accounts.trade_address,
        accounts.escrow_party_one matches Some(e) ==> e != accounts.trade_address && e
            != trade.party_one,
        accounts.escrow_party_two matches Some(e) ==> e != accounts.trade_address && e
            != trade.party_one,
        (match (accounts.escrow_party_one, accounts.escrow_party_two) {
            (Some(e1), Some(e2)) => e1 != e2,
            _ => true,
        }),
    ensures
        ({
            let ops = execute_trade_ops(accounts, trade, collection);
            &&& transferred_from(ops, accounts.trade_address) == trade.sol_amount.0
                + trade.sol_amount.1
            &&& (match accounts.escrow_party_one {
                Some(e) => transferred_from(ops, e) == trade.spl_amount.0 as int,
                None => true,
            })
            &&& (match accounts.escrow_party_two {
                Some(e) => transferred_from(ops, e) == trade.spl_amount.1 as int,
                None => true,
            })
        }),
{
    let a_tr = accounts.trade_address;
    let e1k = match accounts.escrow_party_one {
        Some(k) => k,
        None => trade.party_one,
    };
    let e2k = match accounts.escrow_party_two {
        Some(k) => k,
        None => trade.party_two,
    };
    let r0 = match trade.two_receive_address {
        Some(k) => k,
        None => trade.party_two,
    };
    let r1 = match accounts.one_receive_address {
        Some(k) => k,
        None => trade.party_one,
    };
    let fee_op = CustodyOp::Transfer {
        from: trade.party_one,
        to: accounts.treasury_address,
        amount: collection.trade_fees,
    };
    let t0 = CustodyOp::Transfer { from: e1k, to: r0, amount: trade.spl_amount.0 };
    let c0 = CustodyOp::Close { account: e1k, refund_to: trade.party_one };
    let t1 = CustodyOp::Transfer { from: e2k, to: r1, amount: trade.spl_amount.1 };
    let c1 = CustodyOp::Close { account: e2k, refund_to: trade.party_two };
    let v0 = CustodyOp::Transfer { from: a_tr, to: trade.party_two, amount: trade.sol_amount.0 };
    let v1 = CustodyOp::Transfer { from: a_tr, to: trade.party_one, amount: trade.sol_amount.1 };
    let fee_ops: Seq<CustodyOp> = if collection.trade_fees > 0 {
        seq![fee_op]
    } else {
        Seq::empty()
    };
    let s0: Seq<CustodyOp> = if trade.spl_amount.0 > 0 {
        seq![t0, c0]
    } else {
        Seq::empty()
    };
    let s1: Seq<CustodyOp> = if trade.spl_amount.1 > 0 {
        seq![t1, c1]
    } else {
        Seq::empty()
    };
    let so0: Seq<CustodyOp> = if trade.sol_amount.0 > 0 {
        seq![v0]
    } else {
        Seq::empty()
    };
    let so1: Seq<CustodyOp> = if trade.sol_amount.1 > 0 {
        seq![v1]
    } else {
        Seq::empty()
    };
    assert(execute_trade_ops(accounts, trade, collection) =~= fee_ops + s0 + s1 + so0 + so1);
    lemma_transferred_segments(fee_ops, s0, s1, so0, so1, a_tr);
    lemma_transferred_one(fee_op, a_tr);
    lemma_transferred_two(t0, c0, a_tr);
    lemma_transferred_one(t0, a_tr);
    lemma_transferred_one(c0, a_tr);
    lemma_transferred_two(t1, c1, a_tr);
    lemma_transferred_one(t1, a_tr);
    lemma_transferred_one(c1, a_tr);
    lemma_transferred_one(v0, a_tr);
    lemma_transferred_one(v1, a_tr);
    match accounts.escrow_party_one {
        Some(e) => {
            lemma_transferred_segments(fee_ops, s0, s1, so0, so1, e);
            lemma_transferred_one(fee_op, e);
            lemma_transferred_two(t0, c0, e);
            lemma_transferred_one(t0, e);
            lemma_transferred_one(c0, e);
            lemma_transferred_two(t1, c1, e);
            lemma_transferred_one(t1, e);
            lemma_transferred_one(c1, e);
            lemma_transferred_one(v0, e);
            lemma_transferred_one(v1, e);
        },
        None => {},
    }
    match accounts.escrow_party_two {
        Some(e) => {
            lemma_transferred_segments(fee_ops, s0, s1, so0, so1, e);
            lemma_transferred_one(fee_op, e);
            lemma_transferred_two(t0, c0, e);
            lemma_transferred_one(t0, e);
            lemma_transferred_one(c0, e);
            lemma_transferred_two(t1, c1, e);
            lemma_transferred_one(t1, e);
            lemma_transferred_one(c1, e);
            lemma_transferred_one(v0, e);
            lemma_transferred_one(v1, e);
        },
        None => {},
    }
}

// ----------------------------------------------------------------------
// Cancelling a trade.
// ----------------------------------------------------------------------
/// The resolved accounts a trade cancellation acts on.
#[derive(Clone, Copy, Debug, PartialEq, Eq, Structural)]
pub struct CancelTrade {
    /// The derived escrow holding party one's token leg, if that leg exists.
    pub escrow_party_one: Option<Pubkey>,
    /// The derived escrow holding party two's token leg, if that leg exists.
    pub escrow_party_two: Option<Pubkey>,
    /// Party one's send account, which must match the one recorded.
    pub one_send_address: Option<Pubkey>,
    /// Party two's send account, which must match the one recorded.
    pub two_send_address: Option<Pubkey>,
    /// The address of the collection record, which must match the trade.
    pub collection_key: Pubkey,
    /// The address of the trade record (it holds the value legs).
    pub trade_address: Pubkey,
}

/// First failure, if any, when cancelling a trade: the presented send
/// accounts and collection must match the record, and an unconfirmed trade
/// can only be cancelled after its expiry window has elapsed; a confirmed
/// one can be unwound at any time.
pub open spec fn cancel_trade_error(
    accounts: CancelTrade,
    trade: Trade,
    collection: Collection,
    now: i64,
) -> Option<Errors> {
    if (match (accounts.one_send_address, trade.one_send_address) {
        (Some(k), Some(m)) => k != m,
        _ => false,
    }) {
        Some(Errors::IncorrectTokenAccount)
    } else if (match (accounts.two_send_address, trade.two_send_address) {
        (Some(k), Some(m)) => k != m,
        _ => false,
    }) {
        Some(Errors::IncorrectTokenAccount)
    } else if accounts.collection_key != trade.collection {
        Some(Errors::CollectionNotSame)
    } else if !trade.is_confirmed && now <= trade.time + collection.trade_duration {
        Some(Errors::TradeTimeNotExpired)
    } else {
        None
    }
}

/// The custody calls of a successful cancellation: every funded leg returns
/// to its original owner — both parties' legs when the trade was confirmed,
/// party one's alone when it expired unconfirmed (party two never funded).
pub open spec fn cancel_trade_ops(
    accounts: CancelTrade,
    trade: Trade,
    collection: Collection,
) -> Seq<CustodyOp> {
    let spl0_ops: Seq<CustodyOp> = if trade.spl_amount.0 > 0 {
        seq![
            CustodyOp::Transfer {
                from: (match accounts.escrow_party_one {
                    Some(k) => k,
                    None => trade.party_one,
                }),
                to: (match trade.one_send_address {
                    Some(k) => k,
                    None => trade.party_one,
                }),
                amount: trade.spl_amount.0,
            },
            CustodyOp::Close {
                account: (match accounts.escrow_party_one {
                    Some(k) => k,
                    None => trade.party_one,
                }),
                refund_to: trade.party_one,
            },
        ]
    } else {
        Seq::empty()
    };
    let spl1_ops: Seq<CustodyOp> = if trade.is_confirmed && trade.spl_amount.1 > 0 {
        seq![
            CustodyOp::Transfer {
                from: (match accounts.escrow_party_two {
                    Some(k) => k,
                    None => trade.party_two,
                }),
                to: (match trade.two_send_address {
                    Some(k) => k,
                    None => trade.party_two,
                }),
                amount: trade.spl_amount.1,
            },
            CustodyOp::Close {
                account: (match accounts.escrow_party_two {
                    Some(k) => k,
                    None => trade.party_two,
                }),
                refund_to: trade.party_two,
            },
        ]
    } else {
        Seq::empty()
    };
    let sol0_ops: Seq<CustodyOp> = if trade.sol_amount.0 > 0 {
        seq![
            CustodyOp::Transfer {
                from: accounts.trade_address,
                to: trade.party_one,
                amount: trade.sol_amount.0,
            },
        ]
    } else {
        Seq::empty()
    };
    let sol1_ops: Seq<CustodyOp> = if trade.is_confirmed && trade.sol_amount.1 > 0 {
        seq![
            CustodyOp::Transfer {
                from: accounts.trade_address,
                to: trade.party_two,
                amount: trade.sol_amount.1,
            },
        ]
    } else {
        Seq::empty()
    };
    spl0_ops + spl1_ops + sol0_ops + sol1_ops
}

/// Cancels a trade: a confirmed trade unwinds both parties' legs to their
/// original owners at any time; an unconfirmed trade unwinds party one's
/// legs only, and only strictly after `create_time + trade_duration` — at
/// the boundary instant it still fails.  The caller then closes the trade
/// record.
pub fn cancel_trade_handler(
    trade: &Trade,
    collection: &Collection,
    accounts: &CancelTrade,
    now: i64,
) -> (r: Result<Vec<CustodyOp>, Errors>)
    requires
        i64::MIN <= trade.time + collection.trade_duration <= i64::MAX,
        accounts.one_send_address is Some ==> trade.one_send_address is Some,
        accounts.two_send_address is Some ==> trade.two_send_address is Some,
        trade.spl_amount.0 > 0 ==> accounts.escrow_party_one is Some
            && accounts.one_send_address is Some,
        trade.is_confirmed && trade.spl_amount.1 > 0 ==> accounts.escrow_party_two is Some
            && accounts.two_send_address is Some,
    ensures
        match cancel_trade_error(*accounts, *trade, *collection, now) {
            Some(e) => r == Err::<Vec<CustodyOp>, Errors>(e),
            None => r is Ok && r.unwrap()@ == cancel_trade_ops(*accounts, *trade, *collection),
        },
{
    match (&accounts.one_send_address, &trade.one_send_address) {
        (Some(k), Some(m)) => if *k != *m {
            return Err(Errors::IncorrectTokenAccount);
        },
        _ => {},
    }
    match (&accounts.two_send_address, &trade.two_send_address) {
        (Some(k), Some(m)) => if *k != *m {
            return Err(Errors::IncorrectTokenAccount);
        },
        _ => {},
    }
    if accounts.collection_key != trade.collection {
        return Err(Errors::CollectionNotSame);
    }
    if !trade.is_confirmed {
        let deadline: i64 = trade.time + collection.trade_duration;
        if now <= deadline {
            return Err(Errors::TradeTimeNotExpired);
        }
    }
    let mut ops: Vec<CustodyOp> = Vec::new();
    if trade.spl_amount.0 > 0 {
        let escrow = match &accounts.escrow_party_one {
            Some(k) => *k,
            None => trade.party_one,
        };
        let send = match &trade.one_send_address {
            Some(k) => *k,
            None => trade.party_one,
        };
        ops.push(CustodyOp::Transfer { from: escrow, to: send, amount: trade.spl_amount.0 });
        ops.push(CustodyOp::Close { account: escrow, refund_to: trade.party_one });
    }
    if trade.is_confirmed && trade.spl_amount.1 > 0 {
        let escrow = match &accounts.escrow_party_two {
            Some(k) => *k,
            None => trade.party_two,
        };
        let send = match &trade.two_send_address {
            Some(k) => *k,
            None => trade.party_two,
        };
        ops.push(CustodyOp::Transfer { from: escrow, to: send, amount: trade.spl_amount.1 });
        ops.push(CustodyOp::Close { account: escrow, refund_to: trade.party_two });
    }
    if trade.sol_amount.0 > 0 {
        ops.push(
            CustodyOp::Transfer {
                from: accounts.trade_address,
                to: trade.party_one,
                amount: trade.sol_amount.0,
            },
        );
    }
    if trade.is_confirmed && trade.sol_amount.1 > 0 {
        ops.push(
            CustodyOp::Transfer {
                from: accounts.trade_address,
                to: trade.party_two,
                amount: trade.sol_amount.1,
            },
        );
    }
    proof {
        assert(ops@ =~= cancel_trade_ops(*accounts, *trade, *collection));
    }
    Ok(ops)
}


/// Trade conservation on the way out of a cancellation: a confirmed trade
/// returns both recorded value legs from the trade record and each recorded
/// token leg from its escrow; an expired unconfirmed trade returns party
/// one's legs alone — in either case exactly what entered leaves, to the
/// original owners.
pub proof fn lemma_cancel_trade_conservation(
    accounts: CancelTrade,
    trade: Trade,
    collection: Collection,
    now: i64,
)
    requires
        cancel_trade_error(accounts, trade, collection, now) is None,
        trade.spl_amount.0 > 0 ==> accounts.escrow_party_one is Some,
        trade.is_confirmed && trade.spl_amount.1 > 0 ==> accounts.escrow_party_two is Some,
        accounts.escrow_party_one matches Some(e) ==> e != accounts.trade_address,
        accounts.escrow_party_two matches Some(e) ==> e != accounts.trade_address,
        (match (accounts.escrow_party_one, accounts.escrow_party_two) {
            (Some(e1), Some(e2)) => e1 != e2,
            _ => true,
        }),
    ensures
        ({
            let ops = cancel_trade_ops(accounts, trade, collection);
            &&& transferred_from(ops, accounts.trade_address) == trade.sol_amount.0 as int + (
            if trade.is_confirmed {
                trade.sol_amount.1 as int
            } else {
                0
            })
            &&& (match accounts.escrow_party_one {
                Some(e) => transferred_from(ops, e) == trade.spl_amount.0 as int,
                None => true,
            })
            &&& (match accounts.escrow_party_two {
                Some(e) => transferred_from(ops, e) == (if trade.is_confirmed {
                    trade.spl_amount.1 as int
                } else {
                    0
                }),
                None => true,
            })
        }),
{
    let a_tr = accounts.trade_address;
    let e1k = match accounts.escrow_party_one {
        Some(k) => k,
        None => trade.party_one,
    };
    let e2k = match accounts.escrow_party_two {
        Some(k) => k,
        None => trade.party_two,
    };
    let b0 = match trade.one_send_address {
        Some(k) => k,
        None => trade.party_one,
    };
    let b1 = match trade.two_send_address {
        Some(k) => k,
        None => trade.party_two,
    };
    let t0 = CustodyOp::Transfer { from: e1k, to: b0, amount: trade.spl_amount.0 };
    let c0 = CustodyOp::Close { account: e1k, refund_to: trade.party_one };
    let t1 = CustodyOp::Transfer { from: e2k, to: b1, amount: trade.spl_amount.1 };
    let c1 = CustodyOp::Close { account: e2k, refund_to: trade.party_two };
    let v0 = CustodyOp::Transfer { from: a_tr, to: trade.party_one, amount: trade.sol_amount.0 };
    let v1 = CustodyOp::Transfer { from: a_tr, to: trade.party_two, amount: trade.sol_amount.1 };
    let s0: Seq<CustodyOp> = if trade.spl_amount.0 > 0 {
        seq![t0, c0]
    } else {
        Seq::empty()
    };
    let s1: Seq<CustodyOp> = if trade.is_confirmed && trade.spl_amount.1 > 0 {
        seq![t1, c1]
    } else {
        Seq::empty()
    };
    let so0: Seq<CustodyOp> = if trade.sol_amount.0 > 0 {
        seq![v0]
    } else {
        Seq::empty()
    };
    let so1: Seq<CustodyOp> = if trade.is_confirmed && trade.sol_amount.1 > 0 {
        seq![v1]
    } else {
        Seq::empty()
    };
    assert(cancel_trade_ops(accounts, trade, collection) =~= Seq::empty() + s0 + s1 + so0 + so1);
    lemma_transferred_segments(Seq::empty(), s0, s1, so0, so1, a_tr);
    lemma_transferred_two(t0, c0, a_tr);
    lemma_transferred_one(t0, a_tr);
    lemma_transferred_one(c0, a_tr);
    lemma_transferred_two(t1, c1, a_tr);
    lemma_transferred_one(t1, a_tr);
    lemma_transferred_one(c1, a_tr);
    lemma_transferred_one(v0, a_tr);
    lemma_transferred_one(v1, a_tr);
    match accounts.escrow_party_one {
        Some(e) => {
            lemma_transferred_segments(Seq::empty(), s0, s1, so0, so1, e);
            lemma_transferred_two(t0, c0, e);
            lemma_transferred_one(t0, e);
            lemma_transferred_one(c0, e);
            lemma_transferred_two(t1, c1, e);
            lemma_transferred_one(t1, e);
            lemma_transferred_one(c1, e);
            lemma_transferred_one(v0, e);
            lemma_transferred_one(v1, e);
        },
        None => {},
    }
    match accounts.escrow_party_two {
        Some(e) => {
            lemma_transferred_segments(Seq::empty(), s0, s1, so0, so1, e);
            lemma_transferred_two(t0, c0, e);
            lemma_transferred_one(t0, e);
            lemma_transferred_one(c0, e);
            lemma_transferred_two(t1, c1, e);
            lemma_transferred_one(t1, e);
            lemma_transferred_one(c1, e);
            lemma_transferred_one(v0, e);
            lemma_transferred_one(v1, e);
        },
        None => {},
    }
}

} // verus!
