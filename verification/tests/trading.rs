use sol::account::{AccountBalance, CustodyOp, Pubkey};
use sol::collection::Collection;
use sol::errors::Errors;
use sol::trade::{
    accept_trade_handler, cancel_trade_handler, create_trade_handler, execute_trade_handler,
    AcceptTrade, CancelTrade, CreateTrade, ExecuteTrade, Trade, TradeType,
};
use sol::validate::{MemberCheck, MetadataCollection};

fn trading_collection() -> Collection {
    let mut c = Collection::new(Pubkey(10), Pubkey(11));
    c.is_trade = true;
    c.trade_fees = 500;
    c.trade_duration = 3600;
    c
}

fn valid_member() -> MemberCheck {
    MemberCheck {
        token_amount: 1,
        collection: Some(MetadataCollection { verified: true, key: Pubkey(10) }),
    }
}

fn create_accounts() -> CreateTrade {
    CreateTrade {
        party_one: Pubkey(1),
        party_two: Pubkey(2),
        party_one_lamports: 1_000_000,
        one_send_address: Some(AccountBalance { key: Pubkey(60), amount: 50 }),
        escrow_party_one: Some(Pubkey(61)),
        mint: Some(Pubkey(62)),
        one_member: valid_member(),
        two_member: valid_member(),
        trade_address: Pubkey(50),
        escrow_authority: Pubkey(51),
        collection_key: Pubkey(52),
    }
}

fn sol_only_accounts() -> CreateTrade {
    let mut a = create_accounts();
    a.one_send_address = None;
    a.escrow_party_one = None;
    a.mint = None;
    a
}

fn accept_accounts() -> AcceptTrade {
    AcceptTrade {
        party_two_lamports: 1_000_000,
        two_send_address: Some(AccountBalance { key: Pubkey(70), amount: 50 }),
        escrow_party_two: Some(Pubkey(71)),
        two_receive_address: Some(Pubkey(72)),
        one_mint: Some(Pubkey(62)),
        two_mint: Some(Pubkey(73)),
        trade_address: Pubkey(50),
        escrow_authority: Pubkey(51),
    }
}

fn execute_accounts() -> ExecuteTrade {
    ExecuteTrade {
        party_one_lamports: 1_000_000,
        escrow_party_one: Some(Pubkey(61)),
        escrow_party_two: Some(Pubkey(71)),
        one_receive_address: Some(Pubkey(74)),
        two_receive_address: Some(Pubkey(72)),
        two_mint: Some(Pubkey(73)),
        trade_address: Pubkey(50),
        treasury_address: Pubkey(11),
    }
}

fn cancel_accounts() -> CancelTrade {
    CancelTrade {
        escrow_party_one: Some(Pubkey(61)),
        escrow_party_two: Some(Pubkey(71)),
        one_send_address: Some(Pubkey(60)),
        two_send_address: Some(Pubkey(70)),
        collection_key: Pubkey(52),
        trade_address: Pubkey(50),
    }
}

fn total_from(ops: &[CustodyOp], a: Pubkey) -> u128 {
    let mut sum: u128 = 0;
    for op in ops {
        if let CustodyOp::Transfer { from, amount, .. } = op {
            if *from == a {
                sum += *amount as u128;
            }
        }
    }
    sum
}

fn total_to(ops: &[CustodyOp], a: Pubkey) -> u128 {
    let mut sum: u128 = 0;
    for op in ops {
        if let CustodyOp::Transfer { to, amount, .. } = op {
            if *to == a {
                sum += *amount as u128;
            }
        }
    }
    sum
}

#[test]
fn create_trade_requires_active_module() {
    let mut c = trading_collection();
    c.is_trade = false;
    let r = create_trade_handler(&sol_only_accounts(), &c, 1000, 0, TradeType::Sol, 100);
    assert_eq!(r, Err(Errors::ModuleNotActive));
}

#[test]
fn create_trade_requires_membership_of_both_parties() {
    let mut a = create_accounts();
    a.two_member.token_amount = 0;
    let r = create_trade_handler(&a, &trading_collection(), 1000, 0, TradeType::Sol, 100);
    assert_eq!(r, Err(Errors::TokenNotOne));
}

#[test]
fn create_trade_checks_balances_first() {
    let mut a = sol_only_accounts();
    a.party_one_lamports = 999;
    let r = create_trade_handler(&a, &trading_collection(), 1000, 0, TradeType::Sol, 100);
    assert_eq!(r, Err(Errors::InsufficientBalance));
    let mut b = create_accounts();
    b.one_send_address = Some(AccountBalance { key: Pubkey(60), amount: 4 });
    let r2 = create_trade_handler(&b, &trading_collection(), 0, 5, TradeType::Spl, 100);
    assert_eq!(r2, Err(Errors::InsufficientBalance));
}

#[test]
fn create_value_only_trade() {
    let (trade, ops) =
        create_trade_handler(&sol_only_accounts(), &trading_collection(), 1000, 0, TradeType::Sol, 100)
            .unwrap();
    assert_eq!(trade.sol_amount, (1000, 0));
    assert_eq!(trade.spl_amount, (0, 0));
    assert_eq!(trade.one_send_address, None);
    assert_eq!(trade.one_mint, None);
    assert!(!trade.is_confirmed);
    assert_eq!(trade.time, 100);
    assert_eq!(trade.collection, Pubkey(52));
    assert_eq!(
        ops,
        vec![CustodyOp::Transfer { from: Pubkey(1), to: Pubkey(50), amount: 1000 }]
    );
}

#[test]
fn create_value_only_trade_rejects_zero_and_extras() {
    let c = trading_collection();
    assert_eq!(
        create_trade_handler(&sol_only_accounts(), &c, 0, 0, TradeType::Sol, 100),
        Err(Errors::TokenAmountZero)
    );
    assert_eq!(
        create_trade_handler(&sol_only_accounts(), &c, 1000, 5, TradeType::Sol, 100),
        Err(Errors::AmountNotZero)
    );
    // An escrow account presented for a pure value trade is refused.
    let mut a = create_accounts();
    a.one_send_address = None;
    a.mint = None;
    assert_eq!(
        create_trade_handler(&a, &c, 1000, 0, TradeType::Sol, 100),
        Err(Errors::AccountNotRequired)
    );
}

#[test]
fn create_asset_only_trade() {
    let (trade, ops) =
        create_trade_handler(&create_accounts(), &trading_collection(), 0, 5, TradeType::Spl, 100)
            .unwrap();
    assert_eq!(trade.sol_amount, (0, 0));
    assert_eq!(trade.spl_amount, (5, 0));
    assert_eq!(trade.one_send_address, Some(Pubkey(60)));
    assert_eq!(trade.one_mint, Some(Pubkey(62)));
    assert_eq!(
        ops,
        vec![
            CustodyOp::Transfer { from: Pubkey(60), to: Pubkey(61), amount: 5 },
            CustodyOp::SetOwner { account: Pubkey(61), new_owner: Pubkey(51) },
        ]
    );
}

#[test]
fn create_asset_only_trade_rejects_value_leg_and_missing_accounts() {
    let c = trading_collection();
    assert_eq!(
        create_trade_handler(&create_accounts(), &c, 7, 5, TradeType::Spl, 100),
        Err(Errors::AmountNotZero)
    );
    assert_eq!(
        create_trade_handler(&create_accounts(), &c, 0, 0, TradeType::Spl, 100),
        Err(Errors::TokenAmountZero)
    );
    let mut a = create_accounts();
    a.one_send_address = None;
    assert_eq!(
        create_trade_handler(&a, &c, 0, 5, TradeType::Spl, 100),
        Err(Errors::AccountNotProvided)
    );
    let mut b = create_accounts();
    b.escrow_party_one = None;
    assert_eq!(
        create_trade_handler(&b, &c, 0, 5, TradeType::Spl, 100),
        Err(Errors::AccountNotProvided)
    );
}

#[test]
fn create_both_legs_trade() {
    let (trade, ops) =
        create_trade_handler(&create_accounts(), &trading_collection(), 1000, 5, TradeType::Both, 100)
            .unwrap();
    assert_eq!(trade.sol_amount, (1000, 0));
    assert_eq!(trade.spl_amount, (5, 0));
    assert_eq!(
        ops,
        vec![
            CustodyOp::Transfer { from: Pubkey(60), to: Pubkey(61), amount: 5 },
            CustodyOp::SetOwner { account: Pubkey(61), new_owner: Pubkey(51) },
            CustodyOp::Transfer { from: Pubkey(1), to: Pubkey(50), amount: 1000 },
        ]
    );
}

#[test]
fn accept_trade_funds_party_two_and_confirms() {
    let c = trading_collection();
    let (mut trade, _) =
        create_trade_handler(&create_accounts(), &c, 1000, 5, TradeType::Both, 100).unwrap();
    let ops = accept_trade_handler(&mut trade, &accept_accounts(), 2000, 7, TradeType::Both).unwrap();
    assert!(trade.is_confirmed);
    assert_eq!(trade.sol_amount, (1000, 2000));
    assert_eq!(trade.spl_amount, (5, 7));
    assert_eq!(trade.two_send_address, Some(Pubkey(70)));
    assert_eq!(trade.two_receive_address, Some(Pubkey(72)));
    assert_eq!(trade.two_mint, Some(Pubkey(73)));
    assert_eq!(
        ops,
        vec![
            CustodyOp::Transfer { from: Pubkey(70), to: Pubkey(71), amount: 7 },
            CustodyOp::SetOwner { account: Pubkey(71), new_owner: Pubkey(51) },
            CustodyOp::Transfer { from: Pubkey(2), to: Pubkey(50), amount: 2000 },
        ]
    );
}

#[test]
fn accept_trade_succeeds_at_most_once() {
    let c = trading_collection();
    let (mut trade, _) =
        create_trade_handler(&create_accounts(), &c, 1000, 5, TradeType::Both, 100).unwrap();
    accept_trade_handler(&mut trade, &accept_accounts(), 2000, 7, TradeType::Both).unwrap();
    let before = trade;
    let r = accept_trade_handler(&mut trade, &accept_accounts(), 9000, 9, TradeType::Both);
    assert_eq!(r, Err(Errors::TradeAlreadyAccepted));
    assert_eq!(trade, before);
}

#[test]
fn accept_trade_rejects_wrong_mint() {
    let c = trading_collection();
    let (mut trade, _) =
        create_trade_handler(&create_accounts(), &c, 1000, 5, TradeType::Both, 100).unwrap();
    let mut a = accept_accounts();
    a.one_mint = Some(Pubkey(99));
    let r = accept_trade_handler(&mut trade, &a, 2000, 7, TradeType::Both);
    assert_eq!(r, Err(Errors::MintNotExist));
    assert!(!trade.is_confirmed);
}

#[test]
fn accept_trade_demands_receive_account_for_recorded_mint() {
    let c = trading_collection();
    let (mut trade, _) =
        create_trade_handler(&create_accounts(), &c, 1000, 5, TradeType::Both, 100).unwrap();
    let mut a = accept_accounts();
    a.two_receive_address = None;
    let r = accept_trade_handler(&mut trade, &a, 2000, 7, TradeType::Both);
    assert_eq!(r, Err(Errors::AccountNotProvided));
    assert!(!trade.is_confirmed);
}

#[test]
fn execute_trade_requires_confirmation() {
    let c = trading_collection();
    let (trade, _) =
        create_trade_handler(&create_accounts(), &c, 1000, 5, TradeType::Both, 100).unwrap();
    let mut accounts = execute_accounts();
    accounts.two_receive_address = None;
    accounts.two_mint = None;
    accounts.escrow_party_two = None;
    // Party one's token leg still needs its escrow and has no recorded
    // receive account yet, so reduce to the value leg for this check.
    let mut value_trade = trade;
    value_trade.spl_amount = (0, 0);
    let r = execute_trade_handler(&value_trade, &c, &accounts);
    assert_eq!(r, Err(Errors::TradeNotAccepted));
}

#[test]
fn execute_trade_swaps_legs_and_pays_fee() {
    let c = trading_collection();
    let (mut trade, create_ops) =
        create_trade_handler(&create_accounts(), &c, 1000, 5, TradeType::Both, 100).unwrap();
    let accept_ops =
        accept_trade_handler(&mut trade, &accept_accounts(), 2000, 7, TradeType::Both).unwrap();
    let ops = execute_trade_handler(&trade, &c, &execute_accounts()).unwrap();
    assert_eq!(
        ops,
        vec![
            CustodyOp::Transfer { from: Pubkey(1), to: Pubkey(11), amount: 500 },
            CustodyOp::Transfer { from: Pubkey(61), to: Pubkey(72), amount: 5 },
            CustodyOp::Close { account: Pubkey(61), refund_to: Pubkey(1) },
            CustodyOp::Transfer { from: Pubkey(71), to: Pubkey(74), amount: 7 },
            CustodyOp::Close { account: Pubkey(71), refund_to: Pubkey(2) },
            CustodyOp::Transfer { from: Pubkey(50), to: Pubkey(2), amount: 1000 },
            CustodyOp::Transfer { from: Pubkey(50), to: Pubkey(1), amount: 2000 },
        ]
    );
    // Conservation: everything that entered each custody account leaves it.
    let deposits: Vec<CustodyOp> =
        create_ops.iter().chain(accept_ops.iter()).copied().collect();
    for escrow in [Pubkey(50), Pubkey(61), Pubkey(71)] {
        assert_eq!(total_to(&deposits, escrow), total_from(&ops, escrow));
    }
}

#[test]
fn execute_trade_conserves_value_only_mode() {
    let c = trading_collection();
    let (mut trade, create_ops) =
        create_trade_handler(&sol_only_accounts(), &c, 1000, 0, TradeType::Sol, 100).unwrap();
    let mut acc = accept_accounts();
    acc.two_send_address = None;
    acc.escrow_party_two = None;
    acc.one_mint = None;
    acc.two_mint = None;
    let accept_ops = accept_trade_handler(&mut trade, &acc, 2000, 0, TradeType::Sol).unwrap();
    let mut exec = execute_accounts();
    exec.escrow_party_one = None;
    exec.escrow_party_two = None;
    exec.one_receive_address = None;
    exec.two_mint = None;
    let ops = execute_trade_handler(&trade, &c, &exec).unwrap();
    let deposits: Vec<CustodyOp> =
        create_ops.iter().chain(accept_ops.iter()).copied().collect();
    assert_eq!(total_to(&deposits, Pubkey(50)), 3000);
    assert_eq!(total_from(&ops, Pubkey(50)), 3000);
}

#[test]
fn execute_trade_rejects_mismatched_receive_account() {
    let c = trading_collection();
    let (mut trade, _) =
        create_trade_handler(&create_accounts(), &c, 1000, 5, TradeType::Both, 100).unwrap();
    accept_trade_handler(&mut trade, &accept_accounts(), 2000, 7, TradeType::Both).unwrap();
    let mut exec = execute_accounts();
    exec.two_receive_address = Some(Pubkey(99));
    assert_eq!(execute_trade_handler(&trade, &c, &exec), Err(Errors::IncorrectTokenAccount));
    let mut exec2 = execute_accounts();
    exec2.two_mint = Some(Pubkey(98));
    assert_eq!(execute_trade_handler(&trade, &c, &exec2), Err(Errors::MintNotExist));
    let mut exec3 = execute_accounts();
    exec3.party_one_lamports = 499;
    assert_eq!(execute_trade_handler(&trade, &c, &exec3), Err(Errors::InsufficientBalance));
}

#[test]
fn cancel_unconfirmed_trade_fails_at_expiry_boundary() {
    let c = trading_collection();
    let (trade, _) =
        create_trade_handler(&create_accounts(), &c, 1000, 5, TradeType::Both, 1000).unwrap();
    let mut a = cancel_accounts();
    a.two_send_address = None;
    a.escrow_party_two = None;
    // Expiry window is 3600 seconds from creation at 1000.
    let r = cancel_trade_handler(&trade, &c, &a, 1000 + 3600);
    assert_eq!(r, Err(Errors::TradeTimeNotExpired));
}

#[test]
fn cancel_unconfirmed_trade_succeeds_one_second_past_expiry() {
    let c = trading_collection();
    let (trade, create_ops) =
        create_trade_handler(&create_accounts(), &c, 1000, 5, TradeType::Both, 1000).unwrap();
    let mut a = cancel_accounts();
    a.two_send_address = None;
    a.escrow_party_two = None;
    let ops = cancel_trade_handler(&trade, &c, &a, 1000 + 3600 + 1).unwrap();
    assert_eq!(
        ops,
        vec![
            CustodyOp::Transfer { from: Pubkey(61), to: Pubkey(60), amount: 5 },
            CustodyOp::Close { account: Pubkey(61), refund_to: Pubkey(1) },
            CustodyOp::Transfer { from: Pubkey(50), to: Pubkey(1), amount: 1000 },
        ]
    );
    // Conservation: party one's whole deposit unwinds, and nothing else.
    for escrow in [Pubkey(50), Pubkey(61)] {
        assert_eq!(total_to(&create_ops, escrow), total_from(&ops, escrow));
    }
}

#[test]
fn cancel_confirmed_trade_unwinds_both_legs_any_time() {
    let c = trading_collection();
    let (mut trade, create_ops) =
        create_trade_handler(&create_accounts(), &c, 1000, 5, TradeType::Both, 1000).unwrap();
    let accept_ops =
        accept_trade_handler(&mut trade, &accept_accounts(), 2000, 7, TradeType::Both).unwrap();
    // Well before expiry: a confirmed trade may always unwind.
    let ops = cancel_trade_handler(&trade, &c, &cancel_accounts(), 1001).unwrap();
    assert_eq!(
        ops,
        vec![
            CustodyOp::Transfer { from: Pubkey(61), to: Pubkey(60), amount: 5 },
            CustodyOp::Close { account: Pubkey(61), refund_to: Pubkey(1) },
            CustodyOp::Transfer { from: Pubkey(71), to: Pubkey(70), amount: 7 },
            CustodyOp::Close { account: Pubkey(71), refund_to: Pubkey(2) },
            CustodyOp::Transfer { from: Pubkey(50), to: Pubkey(1), amount: 1000 },
            CustodyOp::Transfer { from: Pubkey(50), to: Pubkey(2), amount: 2000 },
        ]
    );
    let deposits: Vec<CustodyOp> =
        create_ops.iter().chain(accept_ops.iter()).copied().collect();
    for escrow in [Pubkey(50), Pubkey(61), Pubkey(71)] {
        assert_eq!(total_to(&deposits, escrow), total_from(&ops, escrow));
    }
}

#[test]
fn cancel_rejects_mismatched_accounts() {
    let c = trading_collection();
    let (trade, _) =
        create_trade_handler(&create_accounts(), &c, 1000, 5, TradeType::Both, 1000).unwrap();
    let mut a = cancel_accounts();
    a.two_send_address = None;
    a.escrow_party_two = None;
    a.one_send_address = Some(Pubkey(99));
    assert_eq!(
        cancel_trade_handler(&trade, &c, &a, 5000),
        Err(Errors::IncorrectTokenAccount)
    );
    let mut b = cancel_accounts();
    b.two_send_address = None;
    b.escrow_party_two = None;
    b.collection_key = Pubkey(99);
    assert_eq!(cancel_trade_handler(&trade, &c, &b, 5000), Err(Errors::CollectionNotSame));
}

#[test]
fn trade_record_constructor_fills_slot_zero() {
    let t = Trade::new(
        Pubkey(1),
        Pubkey(2),
        1000,
        5,
        Some(Pubkey(60)),
        100,
        Pubkey(52),
        Some(Pubkey(62)),
    );
    assert_eq!(t.sol_amount, (1000, 0));
    assert_eq!(t.spl_amount, (5, 0));
    assert!(!t.is_confirmed);
    assert_eq!(t.two_send_address, None);
    assert_eq!(t.two_receive_address, None);
    assert_eq!(t.two_mint, None);
}
