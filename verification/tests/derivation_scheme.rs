use escrow::{
    derive_escrow_address, derive_holding_address, make, take, AccountId, Escrow, EscrowError,
    Ledger,
};

fn id(n: u8) -> AccountId {
    AccountId { bytes: [n; 32] }
}

#[test]
fn derivation_is_deterministic() {
    let maker = id(1);
    let first = derive_escrow_address(&maker, 42).unwrap();
    let second = derive_escrow_address(&maker, 42).unwrap();
    assert_eq!(first.0, second.0);
    assert_eq!(first.1, second.1);
    let mint = id(3);
    assert_eq!(derive_holding_address(&maker, &mint), derive_holding_address(&maker, &mint));
}

#[test]
fn derived_addresses_differ_from_their_inputs() {
    let maker = id(1);
    let mint = id(3);
    let (escrow_addr, _) = derive_escrow_address(&maker, 42).unwrap();
    assert_ne!(escrow_addr, maker);
    let holding = derive_holding_address(&maker, &mint);
    assert_ne!(holding, maker);
    assert_ne!(holding, mint);
}

#[test]
fn distinct_inputs_derive_distinct_addresses() {
    let maker = id(1);
    let other = id(2);
    let a = derive_escrow_address(&maker, 42).unwrap().0;
    let b = derive_escrow_address(&maker, 43).unwrap().0;
    let c = derive_escrow_address(&other, 42).unwrap().0;
    assert_ne!(a, b);
    assert_ne!(a, c);
    let mint_a = id(3);
    let mint_b = id(4);
    assert_ne!(derive_holding_address(&maker, &mint_a), derive_holding_address(&maker, &mint_b));
    assert_ne!(derive_holding_address(&maker, &mint_a), derive_holding_address(&other, &mint_a));
}

#[test]
fn record_with_wrong_bump_fails_recomputation() {
    let maker = id(1);
    let taker = id(2);
    let mint_a = id(3);
    let mint_b = id(4);
    let mut ledger = Ledger::new();
    let maker_ata_a = derive_holding_address(&maker, &mint_a);
    let maker_ata_b = derive_holding_address(&maker, &mint_b);
    let taker_ata_a = derive_holding_address(&taker, &mint_a);
    let taker_ata_b = derive_holding_address(&taker, &mint_b);
    ledger.create_holding(maker_ata_a, mint_a, maker, 100).unwrap();
    ledger.create_holding(maker_ata_b, mint_b, maker, 0).unwrap();
    ledger.create_holding(taker_ata_a, mint_a, taker, 0).unwrap();
    ledger.create_holding(taker_ata_b, mint_b, taker, 50).unwrap();
    let (escrow_addr, bump) = derive_escrow_address(&maker, 42).unwrap();
    let vault = derive_holding_address(&escrow_addr, &mint_a);
    ledger.create_holding(vault, mint_a, escrow_addr, 100).unwrap();
    // A record at the right address whose stored proof byte is wrong does
    // not recompute.
    ledger
        .create_record(
            escrow_addr,
            Escrow { seed: 42, maker, mint_a, mint_b, receive: 50, bump: bump.wrapping_add(1) },
        )
        .unwrap();
    assert_eq!(
        take(&mut ledger, taker, escrow_addr, vault, taker_ata_b, taker_ata_a, maker_ata_b),
        Err(EscrowError::DerivationMismatch),
    );
}

#[test]
fn make_reports_where_it_created_the_escrow() {
    let maker = id(1);
    let mint_a = id(3);
    let mint_b = id(4);
    let mut ledger = Ledger::new();
    let maker_ata_a = derive_holding_address(&maker, &mint_a);
    ledger.create_holding(maker_ata_a, mint_a, maker, 100).unwrap();
    assert_eq!(make(&mut ledger, maker, mint_a, mint_b, maker_ata_a, 5, 50, 100), Ok(()));
    let (escrow_addr, _) = derive_escrow_address(&maker, 5).unwrap();
    assert!(ledger.account(&escrow_addr).is_some());
}
