//! Plain-value stand-ins for ledger accounts and the custody operations the
//! engines request from the external custody service.

use vstd::prelude::*;

verus! {

/// The address of a ledger account or record.  The real ledger uses opaque
/// 32-byte keys whose only role in the engine logic is identity; a numeric
/// identifier carries exactly that.
#[derive(Clone, Copy, Debug, PartialEq, Eq, Hash, Structural)]
pub struct Pubkey(pub u64);

/// A token account as the engine sees it: its address and current balance.
#[derive(Clone, Copy, Debug, PartialEq, Eq, Structural)]
pub struct AccountBalance {
    /// The address of the token account.
    pub key: Pubkey,
    /// The number of token units it currently holds.
    pub amount: u64,
}

/// One custody-service call that an operation asks its caller to perform.
/// An operation returns the full ordered list of calls it is owed; the whole
/// operation commits only if every call succeeds (single-transaction
/// atomicity), so the engine never observes a partially applied list.
#[derive(Clone, Copy, Debug, PartialEq, Eq, Structural)]
pub enum CustodyOp {
    /// Move `amount` units from account `from` to account `to`.
    Transfer { from: Pubkey, to: Pubkey, amount: u64 },
    /// Mint `amount` fresh reward units to account `to` under the protocol's
    /// token authority.
    Mint { to: Pubkey, amount: u64 },
    /// Hand ownership of `account` to `new_owner` (a protocol-derived signing
    /// authority, so no party can move the funds unilaterally afterwards).
    SetOwner { account: Pubkey, new_owner: Pubkey },
    /// Close `account`, refunding its remaining balance to `refund_to`.
    Close { account: Pubkey, refund_to: Pubkey },
}

/// Total amount moved out of account `a` by the transfers in `ops`.
pub open spec fn transferred_from(ops: Seq<CustodyOp>, a: Pubkey) -> int
    decreases ops.len(),
{
    if ops.len() == 0 {
        0
    } else {
        (match ops.first() {
            CustodyOp::Transfer { from, to, amount } => if from == a { amount as int } else { 0 },
            _ => 0,
        }) + transferred_from(ops.drop_first(), a)
    }
}

/// Total amount moved into account `a` by the transfers in `ops`.
pub open spec fn transferred_to(ops: Seq<CustodyOp>, a: Pubkey) -> int
    decreases ops.len(),
{
    if ops.len() == 0 {
        0
    } else {
        (match ops.first() {
            CustodyOp::Transfer { from, to, amount } => if to == a { amount as int } else { 0 },
            _ => 0,
        }) + transferred_to(ops.drop_first(), a)
    }
}

/// What a single custody call moves out of and into account `a`.
pub proof fn lemma_transferred_one(op: CustodyOp, a: Pubkey)
    ensures
        transferred_from(seq![op], a) == (match op {
            CustodyOp::Transfer { from, to, amount } => if from == a {
                amount as int
            } else {
                0
            },
            _ => 0,
        }),
        transferred_to(seq![op], a) == (match op {
            CustodyOp::Transfer { from, to, amount } => if to == a {
                amount as int
            } else {
                0
            },
            _ => 0,
        }),
{
    assert(seq![op].drop_first() =~= Seq::<CustodyOp>::empty());
    assert(transferred_from(Seq::<CustodyOp>::empty(), a) == 0);
    assert(transferred_to(Seq::<CustodyOp>::empty(), a) == 0);
    assert(seq![op].first() == op);
}

/// Transfer totals split over concatenated call lists.
pub proof fn lemma_transferred_concat(s1: Seq<CustodyOp>, s2: Seq<CustodyOp>, a: Pubkey)
    ensures
        transferred_from(s1 + s2, a) == transferred_from(s1, a) + transferred_from(s2, a),
        transferred_to(s1 + s2, a) == transferred_to(s1, a) + transferred_to(s2, a),
    decreases s1.len(),
{
    if s1.len() == 0 {
        assert(s1 + s2 =~= s2);
    } else {
        assert((s1 + s2).first() == s1.first());
        assert((s1 + s2).drop_first() =~= s1.drop_first() + s2);
        lemma_transferred_concat(s1.drop_first(), s2, a);
    }
}

/// Transfer totals of a two-call list.
pub proof fn lemma_transferred_two(op1: CustodyOp, op2: CustodyOp, a: Pubkey)
    ensures
        transferred_from(seq![op1, op2], a) == transferred_from(seq![op1], a) + transferred_from(
            seq![op2],
            a,
        ),
        transferred_to(seq![op1, op2], a) == transferred_to(seq![op1], a) + transferred_to(
            seq![op2],
            a,
        ),
{
    assert(seq![op1, op2] =~= seq![op1] + seq![op2]);
    lemma_transferred_concat(seq![op1], seq![op2], a);
}

} // verus!
