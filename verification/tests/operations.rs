use escrow::{
    derive_escrow_address, derive_holding_address, make, refund, take, AccountData, AccountId,
    EscrowError, Holding, Ledger,
};

fn id(n: u8) -> AccountId {
    AccountId { bytes: [n; 32] }
}

fn balance(l: &Ledger, a: &AccountId) -> u64 {
    match l.account(a) {
        Some(AccountData::Holding(h)) => h.balance,
        _ => panic!("no holding at the given address"),
    }
}

struct World {
    ledger: Ledger,
    maker: AccountId,
    taker: AccountId,
    mint_a: AccountId,
    mint_b: AccountId,
    maker_ata_a: AccountId,
    maker_ata_b: AccountId,
    taker_ata_a: AccountId,
    taker_ata_b: AccountId,
}

/// A ledger with funded holdings: the maker holds 100 A, the taker 50 B.
fn world() -> World {
    let maker = id(1);
    let taker = id(2);
    let mint_a = id(3);
    let mint_b = id(4);
    let maker_ata_a = derive_holding_address(&maker, &mint_a);
    let maker_ata_b = derive_holding_address(&maker, &mint_b);
    let taker_ata_a = derive_holding_address(&taker, &mint_a);
    let taker_ata_b = derive_holding_address(&taker, &mint_b);
    let mut ledger = Ledger::new();
    ledger.create_holding(maker_ata_a, mint_a, maker, 100).unwrap();
    ledger.create_holding(maker_ata_b, mint_b, maker, 0).unwrap();
    ledger.create_holding(taker_ata_a, mint_a, taker, 0).unwrap();
    ledger.create_holding(taker_ata_b, mint_b, taker, 50).unwrap();
    World { ledger, maker, taker, mint_a, mint_b, maker_ata_a, maker_ata_b, taker_ata_a, taker_ata_b }
}

#[test]
fn scenario_make_then_take() {
    let mut w = world();
    assert_eq!(
        make(&mut w.ledger, w.maker, w.mint_a, w.mint_b, w.maker_ata_a, 42, 50, 100),
        Ok(()),
    );
    let (escrow_addr, bump) = derive_escrow_address(&w.maker, 42).unwrap();
    let vault = derive_holding_address(&escrow_addr, &w.mint_a);
    match w.ledger.account(&vault) {
        Some(AccountData::Holding(h)) => {
            assert_eq!(h.balance, 100);
            assert_eq!(h.mint, w.mint_a);
            assert_eq!(h.owner, escrow_addr);
        },
        _ => panic!("vault not created"),
    }
    match w.ledger.account(&escrow_addr) {
        Some(AccountData::Record(e)) => {
            assert_eq!(e.seed, 42);
            assert_eq!(e.maker, w.maker);
            assert_eq!(e.mint_a, w.mint_a);
            assert_eq!(e.mint_b, w.mint_b);
            assert_eq!(e.receive, 50);
            assert_eq!(e.bump, bump);
        },
        _ => panic!("record not created"),
    }
    assert_eq!(balance(&w.ledger, &w.maker_ata_a), 0);

    assert_eq!(
        take(&mut w.ledger, w.taker, escrow_addr, vault, w.taker_ata_b, w.taker_ata_a, w.maker_ata_b),
        Ok(()),
    );
    assert_eq!(balance(&w.ledger, &w.taker_ata_b), 0);
    assert_eq!(balance(&w.ledger, &w.maker_ata_b), 50);
    assert_eq!(balance(&w.ledger, &w.taker_ata_a), 100);
    assert!(w.ledger.account(&vault).is_none());
    assert!(w.ledger.account(&escrow_addr).is_none());
}

#[test]
fn scenario_refund_then_take_fails() {
    let mut w = world();
    assert_eq!(
        make(&mut w.ledger, w.maker, w.mint_a, w.mint_b, w.maker_ata_a, 42, 50, 100),
        Ok(()),
    );
    let (escrow_addr, _) = derive_escrow_address(&w.maker, 42).unwrap();
    let vault = derive_holding_address(&escrow_addr, &w.mint_a);
    assert_eq!(refund(&mut w.ledger, w.maker, escrow_addr, vault, w.maker_ata_a), Ok(()));
    assert_eq!(balance(&w.ledger, &w.maker_ata_a), 100);
    assert_eq!(balance(&w.ledger, &w.maker_ata_b), 0);
    assert!(w.ledger.account(&vault).is_none());
    assert!(w.ledger.account(&escrow_addr).is_none());
    assert_eq!(
        take(&mut w.ledger, w.taker, escrow_addr, vault, w.taker_ata_b, w.taker_ata_a, w.maker_ata_b),
        Err(EscrowError::NotFound),
    );
}

#[test]
fn make_twice_fails_with_already_exists() {
    let mut w = world();
    assert_eq!(
        make(&mut w.ledger, w.maker, w.mint_a, w.mint_b, w.maker_ata_a, 7, 50, 60),
        Ok(()),
    );
    assert_eq!(
        make(&mut w.ledger, w.maker, w.mint_a, w.mint_b, w.maker_ata_a, 7, 1, 2),
        Err(EscrowError::AlreadyExists),
    );
    // A different seed derives a fresh address and is accepted.
    assert_eq!(
        make(&mut w.ledger, w.maker, w.mint_a, w.mint_b, w.maker_ata_a, 8, 1, 2),
        Ok(()),
    );
}

#[test]
fn take_after_take_fails_with_not_found() {
    let mut w = world();
    make(&mut w.ledger, w.maker, w.mint_a, w.mint_b, w.maker_ata_a, 42, 50, 100).unwrap();
    let (escrow_addr, _) = derive_escrow_address(&w.maker, 42).unwrap();
    let vault = derive_holding_address(&escrow_addr, &w.mint_a);
    take(&mut w.ledger, w.taker, escrow_addr, vault, w.taker_ata_b, w.taker_ata_a, w.maker_ata_b)
        .unwrap();
    assert_eq!(
        take(&mut w.ledger, w.taker, escrow_addr, vault, w.taker_ata_b, w.taker_ata_a, w.maker_ata_b),
        Err(EscrowError::NotFound),
    );
    assert_eq!(
        refund(&mut w.ledger, w.maker, escrow_addr, vault, w.maker_ata_a),
        Err(EscrowError::NotFound),
    );
}

#[test]
fn refund_by_non_maker_fails_and_leaves_vault_untouched() {
    let mut w = world();
    make(&mut w.ledger, w.maker, w.mint_a, w.mint_b, w.maker_ata_a, 42, 50, 100).unwrap();
    let (escrow_addr, _) = derive_escrow_address(&w.maker, 42).unwrap();
    let vault = derive_holding_address(&escrow_addr, &w.mint_a);
    assert_eq!(
        refund(&mut w.ledger, w.taker, escrow_addr, vault, w.maker_ata_a),
        Err(EscrowError::Unauthorized),
    );
    assert_eq!(balance(&w.ledger, &vault), 100);
    assert!(w.ledger.account(&escrow_addr).is_some());
    // The rightful maker still can refund afterwards.
    assert_eq!(refund(&mut w.ledger, w.maker, escrow_addr, vault, w.maker_ata_a), Ok(()));
}

#[test]
fn make_with_insufficient_funds_changes_nothing() {
    let mut w = world();
    assert_eq!(
        make(&mut w.ledger, w.maker, w.mint_a, w.mint_b, w.maker_ata_a, 42, 50, 101),
        Err(EscrowError::InsufficientFunds),
    );
    let (escrow_addr, _) = derive_escrow_address(&w.maker, 42).unwrap();
    let vault = derive_holding_address(&escrow_addr, &w.mint_a);
    assert!(w.ledger.account(&escrow_addr).is_none());
    assert!(w.ledger.account(&vault).is_none());
    assert_eq!(balance(&w.ledger, &w.maker_ata_a), 100);
}

#[test]
fn make_with_wrong_asset_fails() {
    let maker = id(1);
    let mint_a = id(3);
    let mint_b = id(4);
    let maker_ata_a = derive_holding_address(&maker, &mint_a);
    let mut ledger = Ledger::new();
    // A holding at the right address but tracking the wrong asset.
    ledger.create_holding(maker_ata_a, mint_b, maker, 100).unwrap();
    assert_eq!(
        make(&mut ledger, maker, mint_a, mint_b, maker_ata_a, 42, 50, 100),
        Err(EscrowError::AssetMismatch),
    );
}

#[test]
fn make_with_wrong_funding_address_fails() {
    let mut w = world();
    assert_eq!(
        make(&mut w.ledger, w.maker, w.mint_a, w.mint_b, w.taker_ata_a, 42, 50, 100),
        Err(EscrowError::DerivationMismatch),
    );
}

#[test]
fn take_with_insufficient_payment_changes_nothing() {
    let mut w = world();
    make(&mut w.ledger, w.maker, w.mint_a, w.mint_b, w.maker_ata_a, 42, 51, 100).unwrap();
    let (escrow_addr, _) = derive_escrow_address(&w.maker, 42).unwrap();
    let vault = derive_holding_address(&escrow_addr, &w.mint_a);
    assert_eq!(
        take(&mut w.ledger, w.taker, escrow_addr, vault, w.taker_ata_b, w.taker_ata_a, w.maker_ata_b),
        Err(EscrowError::InsufficientFunds),
    );
    assert_eq!(balance(&w.ledger, &vault), 100);
    assert_eq!(balance(&w.ledger, &w.taker_ata_b), 50);
    assert!(w.ledger.account(&escrow_addr).is_some());
}

#[test]
fn take_with_wrong_vault_fails_with_derivation_mismatch() {
    let mut w = world();
    make(&mut w.ledger, w.maker, w.mint_a, w.mint_b, w.maker_ata_a, 42, 50, 100).unwrap();
    let (escrow_addr, _) = derive_escrow_address(&w.maker, 42).unwrap();
    assert_eq!(
        take(
            &mut w.ledger,
            w.taker,
            escrow_addr,
            w.taker_ata_a,
            w.taker_ata_b,
            w.taker_ata_a,
            w.maker_ata_b,
        ),
        Err(EscrowError::DerivationMismatch),
    );
}

#[test]
fn forged_record_fails_recomputation() {
    let mut w = world();
    // A record planted at an address that does not recompute from its own
    // maker and seed is rejected by both take and refund.
    let forged_addr = id(9);
    let (_, bump) = derive_escrow_address(&w.maker, 42).unwrap();
    w.ledger
        .create_record(
            forged_addr,
            escrow::Escrow {
                seed: 42,
                maker: w.maker,
                mint_a: w.mint_a,
                mint_b: w.mint_b,
                receive: 50,
                bump,
            },
        )
        .unwrap();
    let vault = derive_holding_address(&forged_addr, &w.mint_a);
    assert_eq!(
        take(&mut w.ledger, w.taker, forged_addr, vault, w.taker_ata_b, w.taker_ata_a, w.maker_ata_b),
        Err(EscrowError::DerivationMismatch),
    );
    assert_eq!(
        refund(&mut w.ledger, w.maker, forged_addr, vault, w.maker_ata_a),
        Err(EscrowError::DerivationMismatch),
    );
}

#[test]
fn refund_of_never_made_escrow_fails_with_not_found() {
    let mut w = world();
    let (escrow_addr, _) = derive_escrow_address(&w.maker, 42).unwrap();
    let vault = derive_holding_address(&escrow_addr, &w.mint_a);
    assert_eq!(
        refund(&mut w.ledger, w.maker, escrow_addr, vault, w.maker_ata_a),
        Err(EscrowError::NotFound),
    );
}

#[test]
fn zero_amount_escrow_is_constructible() {
    // The source does not enforce receive > 0 or deposit > 0; a
    // zero-amount escrow can be made and refunded.
    let mut w = world();
    assert_eq!(
        make(&mut w.ledger, w.maker, w.mint_a, w.mint_b, w.maker_ata_a, 42, 0, 0),
        Ok(()),
    );
    let (escrow_addr, _) = derive_escrow_address(&w.maker, 42).unwrap();
    let vault = derive_holding_address(&escrow_addr, &w.mint_a);
    assert_eq!(balance(&w.ledger, &vault), 0);
    assert_eq!(refund(&mut w.ledger, w.maker, escrow_addr, vault, w.maker_ata_a), Ok(()));
    assert_eq!(balance(&w.ledger, &w.maker_ata_a), 100);
}

#[test]
fn maker_can_take_their_own_escrow() {
    // With taker == maker, the payment leg pays the maker's holding from
    // itself — a self-transfer that needs the balance but moves nothing —
    // and the drain leg still returns the deposit.
    let mut w = world();
    make(&mut w.ledger, w.maker, w.mint_a, w.mint_b, w.maker_ata_a, 42, 50, 100).unwrap();
    let (escrow_addr, _) = derive_escrow_address(&w.maker, 42).unwrap();
    let vault = derive_holding_address(&escrow_addr, &w.mint_a);
    // The maker holds no B yet, and even a self-payment needs the balance.
    assert_eq!(
        take(&mut w.ledger, w.maker, escrow_addr, vault, w.maker_ata_b, w.maker_ata_a, w.maker_ata_b),
        Err(EscrowError::InsufficientFunds),
    );
    // Funded, the self-payment moves nothing and the deposit comes back.
    let funded = world();
    let mut ledger = funded.ledger;
    ledger
        .transfer_checked(&funded.taker_ata_b, &w.maker_ata_b, &funded.taker, 50, &w.mint_b)
        .unwrap();
    make(&mut ledger, w.maker, w.mint_a, w.mint_b, w.maker_ata_a, 42, 50, 100).unwrap();
    assert_eq!(
        take(&mut ledger, w.maker, escrow_addr, vault, w.maker_ata_b, w.maker_ata_a, w.maker_ata_b),
        Ok(()),
    );
    assert_eq!(balance(&ledger, &w.maker_ata_b), 50);
    assert_eq!(balance(&ledger, &w.maker_ata_a), 100);
    assert!(ledger.account(&vault).is_none());
    assert!(ledger.account(&escrow_addr).is_none());
}
