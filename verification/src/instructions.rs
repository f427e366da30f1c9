//! The three operations of the exchange: `make` creates the escrow record
//! and vault and moves the deposit in; `take` pays the requested asset B
//! to the maker and drains the vault to the taker; `refund` drains the
//! vault back to the maker. Each is all-or-nothing: on any error the
//! ledger is unchanged. Each operation's behaviour is pinned by a spec
//! function over the ledger view, and the executable code is verified
//! against it.

use crate::derivation::{
    associated_holding_address, derive_escrow_address, derive_holding_address, escrow_derivation,
};
use crate::error::EscrowError;
use crate::ledger::{
    holding_at, record_at, spec_transfer, transfer_fits, Ledger,
};
use crate::state::{AccountData, AccountId, Escrow, Holding};
use vstd::prelude::*;

verus! {

/// What `make` does to ledger contents `m`: create the record at the
/// derived escrow address, create the empty vault at its associated
/// holding address, and transfer `deposit` units of `mint_a` from the
/// maker's funding holding into the vault — or the first error met, in
/// this order: no viable derivation or a funding holding that does not
/// recompute (`DerivationMismatch`); a derived address already in use
/// (`AlreadyExists`, also when a derived address collides with the funding
/// holding); then the transfer's own errors.
pub open spec fn spec_make(
    m: Map<AccountId, AccountData>,
    maker: AccountId,
    mint_a: AccountId,
    mint_b: AccountId,
    maker_ata_a: AccountId,
    seed: u64,
    receive: u64,
    deposit: u64,
) -> Result<Map<AccountId, AccountData>, EscrowError> {
    match escrow_derivation(maker, seed) {
        None => Err(EscrowError::DerivationMismatch),
        Some((escrow, bump)) => {
            let vault = associated_holding_address(escrow, mint_a);
            if m.contains_key(escrow) {
                Err(EscrowError::AlreadyExists)
            } else if m.contains_key(vault) || vault == escrow {
                Err(EscrowError::AlreadyExists)
            } else if maker_ata_a != associated_holding_address(maker, mint_a) {
                Err(EscrowError::DerivationMismatch)
            } else if maker_ata_a == escrow || maker_ata_a == vault {
                Err(EscrowError::AlreadyExists)
            } else {
                let record = Escrow { seed, maker, mint_a, mint_b, receive, bump };
                let opened = m.insert(escrow, AccountData::Record(record)).insert(
                    vault,
                    AccountData::Holding(Holding { mint: mint_a, owner: escrow, balance: 0u64 }),
                );
                spec_transfer(opened, maker_ata_a, vault, maker, deposit, mint_a)
            }
        },
    }
}

/// What `take` does to ledger contents `m`: after recomputing every
/// supplied address from the record, pay `receive` units of asset B from
/// the taker to the maker, drain the vault's whole balance of asset A to
/// the taker, and close the vault and the record — or the first error met:
/// a missing record (`NotFound`); a supplied account that does not
/// recompute, or a vault aliased to a destination (`DerivationMismatch`);
/// a missing vault (`NotFound`); a vault of the wrong asset
/// (`AssetMismatch`) or not owned by the record (`Unauthorized`); then the
/// two transfers' own errors, first leg first.
pub open spec fn spec_take(
    m: Map<AccountId, AccountData>,
    taker: AccountId,
    escrow_addr: AccountId,
    vault_addr: AccountId,
    taker_ata_b: AccountId,
    taker_ata_a: AccountId,
    maker_ata_b: AccountId,
) -> Result<Map<AccountId, AccountData>, EscrowError> {
    match record_at(m, escrow_addr) {
        None => Err(EscrowError::NotFound),
        Some(e) => {
            if escrow_derivation(e.maker, e.seed) != Some((escrow_addr, e.bump)) {
                Err(EscrowError::DerivationMismatch)
            } else if vault_addr != associated_holding_address(escrow_addr, e.mint_a) {
                Err(EscrowError::DerivationMismatch)
            } else if taker_ata_b != associated_holding_address(taker, e.mint_b) || taker_ata_a
                != associated_holding_address(taker, e.mint_a) || maker_ata_b
                != associated_holding_address(e.maker, e.mint_b) {
                Err(EscrowError::DerivationMismatch)
            } else if vault_addr == taker_ata_a || vault_addr == taker_ata_b || vault_addr
                == maker_ata_b {
                Err(EscrowError::DerivationMismatch)
            } else {
                match holding_at(m, vault_addr) {
                    None => Err(EscrowError::NotFound),
                    Some(v) => {
                        if v.mint != e.mint_a {
                            Err(EscrowError::AssetMismatch)
                        } else if v.owner != escrow_addr {
                            Err(EscrowError::Unauthorized)
                        } else {
                            match spec_transfer(m, taker_ata_b, maker_ata_b, taker, e.receive, e.mint_b) {
                                Err(err) => Err(err),
                                Ok(mid) => match spec_transfer(
                                    mid,
                                    vault_addr,
                                    taker_ata_a,
                                    escrow_addr,
                                    v.balance,
                                    e.mint_a,
                                ) {
                                    Err(err) => Err(err),
                                    Ok(fin) => Ok(fin.remove(vault_addr).remove(escrow_addr)),
                                },
                            }
                        }
                    },
                }
            }
        },
    }
}

/// What `refund` does to ledger contents `m`: drain the vault's whole
/// balance back to the maker's holding of asset A and close the vault and
/// the record — or the first error met: a missing record (`NotFound`); a
/// signer other than the recorded maker (`Unauthorized`); a supplied
/// account that does not recompute (`DerivationMismatch`); a missing vault
/// (`NotFound`); a bad vault (`AssetMismatch`/`Unauthorized`); then the
/// transfer's own errors.
pub open spec fn spec_refund(
    m: Map<AccountId, AccountData>,
    signer: AccountId,
    escrow_addr: AccountId,
    vault_addr: AccountId,
    maker_ata_a: AccountId,
) -> Result<Map<AccountId, AccountData>, EscrowError> {
    match record_at(m, escrow_addr) {
        None => Err(EscrowError::NotFound),
        Some(e) => {
            if signer != e.maker {
                Err(EscrowError::Unauthorized)
            } else if escrow_derivation(e.maker, e.seed) != Some((escrow_addr, e.bump)) {
                Err(EscrowError::DerivationMismatch)
            } else if vault_addr != associated_holding_address(escrow_addr, e.mint_a) {
                Err(EscrowError::DerivationMismatch)
            } else if maker_ata_a != associated_holding_address(e.maker, e.mint_a) {
                Err(EscrowError::DerivationMismatch)
            } else if vault_addr == maker_ata_a {
                Err(EscrowError::DerivationMismatch)
            } else {
                match holding_at(m, vault_addr) {
                    None => Err(EscrowError::NotFound),
                    Some(v) => {
                        if v.mint != e.mint_a {
                            Err(EscrowError::AssetMismatch)
                        } else if v.owner != escrow_addr {
                            Err(EscrowError::Unauthorized)
                        } else {
                            match spec_transfer(m, vault_addr, maker_ata_a, escrow_addr, v.balance, e.mint_a) {
                                Err(err) => Err(err),
                                Ok(fin) => Ok(fin.remove(vault_addr).remove(escrow_addr)),
                            }
                        }
                    },
                }
            }
        },
    }
}

/// The machine limit on `take`: each leg's destination balance must have
/// room for what it receives.
pub open spec fn take_fits(
    m: Map<AccountId, AccountData>,
    taker: AccountId,
    escrow_addr: AccountId,
    vault_addr: AccountId,
    taker_ata_b: AccountId,
    taker_ata_a: AccountId,
    maker_ata_b: AccountId,
) -> bool {
    match record_at(m, escrow_addr) {
        None => true,
        Some(e) => transfer_fits(m, taker_ata_b, maker_ata_b, taker, e.receive, e.mint_b)
            && match spec_transfer(m, taker_ata_b, maker_ata_b, taker, e.receive, e.mint_b) {
            Ok(mid) => match holding_at(m, vault_addr) {
                Some(v) => transfer_fits(mid, vault_addr, taker_ata_a, escrow_addr, v.balance, e.mint_a),
                None => true,
            },
            Err(_) => true,
        },
    }
}

/// The machine limit on `refund`: the maker's holding must have room for
/// the vault's balance.
pub open spec fn refund_fits(
    m: Map<AccountId, AccountData>,
    signer: AccountId,
    escrow_addr: AccountId,
    vault_addr: AccountId,
    maker_ata_a: AccountId,
) -> bool {
    match record_at(m, escrow_addr) {
        None => true,
        Some(e) => match holding_at(m, vault_addr) {
            Some(v) => transfer_fits(m, vault_addr, maker_ata_a, escrow_addr, v.balance, e.mint_a),
            None => true,
        },
    }
}

/// The validated account context of one `make`: the maker, the two
/// assets, the maker's funding holding, and the two derived addresses the
/// operation will create.
pub struct Make {
    pub maker: AccountId,
    pub mint_a: AccountId,
    pub mint_b: AccountId,
    pub maker_ata_a: AccountId,
    pub escrow: AccountId,
    pub vault: AccountId,
    pub bump: u8,
}

impl Make {
    /// Creates the escrow record at the derived address, populated with
    /// `{seed, maker, mint_a, mint_b, receive, bump}`; fails with
    /// `AlreadyExists` if the address is in use, and then changes nothing.
    pub fn init_escrow(&self, ledger: &mut Ledger, seed: u64, receive: u64) -> (r: Result<
        (),
        EscrowError,
    >)
        requires
            old(ledger).wf(),
        ensures
            final(ledger).wf(),
            match r {
                Ok(_) => !old(ledger)@.contains_key(self.escrow) && final(ledger)@ == old(
                    ledger,
                )@.insert(
                    self.escrow,
                    AccountData::Record(
                        Escrow {
                            seed,
                            maker: self.maker,
                            mint_a: self.mint_a,
                            mint_b: self.mint_b,
                            receive,
                            bump: self.bump,
                        },
                    ),
                ),
                Err(e) => e == EscrowError::AlreadyExists && old(ledger)@.contains_key(self.escrow)
                    && final(ledger)@ == old(ledger)@,
            },
    {
        ledger.create_record(
            self.escrow,
            Escrow {
                seed,
                maker: self.maker,
                mint_a: self.mint_a,
                mint_b: self.mint_b,
                receive,
                bump: self.bump,
            },
        )
    }

    /// Moves the deposit from the maker's funding holding into the vault,
    /// through the token service's checked transfer, with the maker as
    /// authority.
    pub fn deposit(&self, ledger: &mut Ledger, amount: u64) -> (r: Result<(), EscrowError>)
        requires
            old(ledger).wf(),
            transfer_fits(old(ledger)@, self.maker_ata_a, self.vault, self.maker, amount, self.mint_a),
        ensures
            final(ledger).wf(),
            match spec_transfer(old(ledger)@, self.maker_ata_a, self.vault, self.maker, amount, self.mint_a) {
                Ok(m) => r == Ok::<(), EscrowError>(()) && final(ledger)@ == m,
                Err(e) => r == Err::<(), EscrowError>(e) && final(ledger)@ == old(ledger)@,
            },
    {
        ledger.transfer_checked(&self.maker_ata_a, &self.vault, &self.maker, amount, &self.mint_a)
    }
}

/// Opens an escrow: derives the record and vault addresses for
/// `(maker, seed)`, creates both, and deposits `deposit` units of asset A
/// from the maker's funding holding. All-or-nothing; the result and the
/// new ledger contents are exactly `spec_make`'s.
pub fn make(
    ledger: &mut Ledger,
    maker: AccountId,
    mint_a: AccountId,
    mint_b: AccountId,
    maker_ata_a: AccountId,
    seed: u64,
    receive: u64,
    deposit: u64,
) -> (r: Result<(), EscrowError>)
    requires
        old(ledger).wf(),
    ensures
        final(ledger).wf(),
        match spec_make(old(ledger)@, maker, mint_a, mint_b, maker_ata_a, seed, receive, deposit) {
            Ok(m) => r == Ok::<(), EscrowError>(()) && final(ledger)@ == m,
            Err(e) => r == Err::<(), EscrowError>(e) && final(ledger)@ == old(ledger)@,
        },
{
    let (escrow, bump) = match derive_escrow_address(&maker, seed) {
        Some(p) => p,
        None => {
            return Err(EscrowError::DerivationMismatch);
        },
    };
    let vault = derive_holding_address(&escrow, &mint_a);
    if ledger.contains(&escrow) {
        return Err(EscrowError::AlreadyExists);
    }
    if ledger.contains(&vault) || vault == escrow {
        return Err(EscrowError::AlreadyExists);
    }
    let ata_expect = derive_holding_address(&maker, &mint_a);
    if !(maker_ata_a == ata_expect) {
        return Err(EscrowError::DerivationMismatch);
    }
    if maker_ata_a == escrow || maker_ata_a == vault {
        return Err(EscrowError::AlreadyExists);
    }
    // Every way the deposit transfer could fail is ruled out before any
    // account is created, so failure leaves no partial state behind.
    let funding = match ledger.account(&maker_ata_a) {
        Some(AccountData::Holding(h)) => h,
        _ => {
            return Err(EscrowError::NotFound);
        },
    };
    if funding.mint != mint_a {
        return Err(EscrowError::AssetMismatch);
    }
    if funding.owner != maker {
        return Err(EscrowError::Unauthorized);
    }
    if funding.balance < deposit {
        return Err(EscrowError::InsufficientFunds);
    }
    let ctx = Make { maker, mint_a, mint_b, maker_ata_a, escrow, vault, bump };
    match ctx.init_escrow(ledger, seed, receive) {
        Ok(_) => (),
        Err(er) => {
            return Err(er);
        },
    }
    match ledger.create_holding(vault, mint_a, escrow, 0) {
        Ok(_) => (),
        Err(er) => {
            return Err(er);
        },
    }
    match ctx.deposit(ledger, deposit) {
        Ok(_) => Ok(()),
        Err(er) => Err(er),
    }
}

/// Settles an escrow: the taker pays `receive` units of asset B to the
/// maker's holding and receives the vault's whole balance of asset A;
/// vault and record are closed. Every supplied address is recomputed from
/// the record before anything moves. All-or-nothing; the result and the
/// new ledger contents are exactly `spec_take`'s.
pub fn take(
    ledger: &mut Ledger,
    taker: AccountId,
    escrow_addr: AccountId,
    vault_addr: AccountId,
    taker_ata_b: AccountId,
    taker_ata_a: AccountId,
    maker_ata_b: AccountId,
) -> (r: Result<(), EscrowError>)
    requires
        old(ledger).wf(),
        take_fits(old(ledger)@, taker, escrow_addr, vault_addr, taker_ata_b, taker_ata_a, maker_ata_b),
    ensures
        final(ledger).wf(),
        match spec_take(old(ledger)@, taker, escrow_addr, vault_addr, taker_ata_b, taker_ata_a, maker_ata_b) {
            Ok(m) => r == Ok::<(), EscrowError>(()) && final(ledger)@ == m,
            Err(e) => r == Err::<(), EscrowError>(e) && final(ledger)@ == old(ledger)@,
        },
{
    let e = match ledger.account(&escrow_addr) {
        Some(AccountData::Record(e)) => e,
        _ => {
            return Err(EscrowError::NotFound);
        },
    };
    let derivation_ok = match derive_escrow_address(&e.maker, e.seed) {
        Some((a, b)) => a == escrow_addr && b == e.bump,
        None => false,
    };
    if !derivation_ok {
        return Err(EscrowError::DerivationMismatch);
    }
    let vault_expect = derive_holding_address(&escrow_addr, &e.mint_a);
    if !(vault_addr == vault_expect) {
        return Err(EscrowError::DerivationMismatch);
    }
    let tb_expect = derive_holding_address(&taker, &e.mint_b);
    let ta_expect = derive_holding_address(&taker, &e.mint_a);
    let mb_expect = derive_holding_address(&e.maker, &e.mint_b);
    if !(taker_ata_b == tb_expect) || !(taker_ata_a == ta_expect) || !(maker_ata_b == mb_expect) {
        return Err(EscrowError::DerivationMismatch);
    }
    if vault_addr == taker_ata_a || vault_addr == taker_ata_b || vault_addr == maker_ata_b {
        return Err(EscrowError::DerivationMismatch);
    }
    let v = match ledger.account(&vault_addr) {
        Some(AccountData::Holding(h)) => h,
        _ => {
            return Err(EscrowError::NotFound);
        },
    };
    if v.mint != e.mint_a {
        return Err(EscrowError::AssetMismatch);
    }
    if v.owner != escrow_addr {
        return Err(EscrowError::Unauthorized);
    }
    // Both legs' failure conditions are ruled out up front, so the two
    // transfers below cannot commit one leg without the other.
    let pay_from = match ledger.account(&taker_ata_b) {
        Some(AccountData::Holding(h)) => h,
        _ => {
            return Err(EscrowError::NotFound);
        },
    };
    let pay_to = match ledger.account(&maker_ata_b) {
        Some(AccountData::Holding(h)) => h,
        _ => {
            return Err(EscrowError::NotFound);
        },
    };
    if pay_from.mint != e.mint_b || pay_to.mint != e.mint_b {
        return Err(EscrowError::AssetMismatch);
    }
    if pay_from.owner != taker {
        return Err(EscrowError::Unauthorized);
    }
    if pay_from.balance < e.receive {
        return Err(EscrowError::InsufficientFunds);
    }
    let drain_to = match ledger.account(&taker_ata_a) {
        Some(AccountData::Holding(h)) => h,
        _ => {
            return Err(EscrowError::NotFound);
        },
    };
    if drain_to.mint != e.mint_a {
        return Err(EscrowError::AssetMismatch);
    }
    match ledger.transfer_checked(&taker_ata_b, &maker_ata_b, &taker, e.receive, &e.mint_b) {
        Ok(_) => (),
        Err(er) => {
            return Err(er);
        },
    }
    match ledger.transfer_checked(&vault_addr, &taker_ata_a, &escrow_addr, v.balance, &e.mint_a) {
        Ok(_) => (),
        Err(er) => {
            return Err(er);
        },
    }
    ledger.close_account(&vault_addr);
    ledger.close_account(&escrow_addr);
    Ok(())
}

/// Reclaims an escrow: only the recorded maker may call it; the vault's
/// whole balance of asset A returns to the maker's holding, and the vault
/// and record are closed. All-or-nothing; the result and the new ledger
/// contents are exactly `spec_refund`'s.
pub fn refund(
    ledger: &mut Ledger,
    signer: AccountId,
    escrow_addr: AccountId,
    vault_addr: AccountId,
    maker_ata_a: AccountId,
) -> (r: Result<(), EscrowError>)
    requires
        old(ledger).wf(),
        refund_fits(old(ledger)@, signer, escrow_addr, vault_addr, maker_ata_a),
    ensures
        final(ledger).wf(),
        match spec_refund(old(ledger)@, signer, escrow_addr, vault_addr, maker_ata_a) {
            Ok(m) => r == Ok::<(), EscrowError>(()) && final(ledger)@ == m,
            Err(e) => r == Err::<(), EscrowError>(e) && final(ledger)@ == old(ledger)@,
        },
{
    let e = match ledger.account(&escrow_addr) {
        Some(AccountData::Record(e)) => e,
        _ => {
            return Err(EscrowError::NotFound);
        },
    };
    if !(signer == e.maker) {
        return Err(EscrowError::Unauthorized);
    }
    let derivation_ok = match derive_escrow_address(&e.maker, e.seed) {
        Some((a, b)) => a == escrow_addr && b == e.bump,
        None => false,
    };
    if !derivation_ok {
        return Err(EscrowError::DerivationMismatch);
    }
    let vault_expect = derive_holding_address(&escrow_addr, &e.mint_a);
    if !(vault_addr == vault_expect) {
        return Err(EscrowError::DerivationMismatch);
    }
    let ata_expect = derive_holding_address(&e.maker, &e.mint_a);
    if !(maker_ata_a == ata_expect) {
        return Err(EscrowError::DerivationMismatch);
    }
    if vault_addr == maker_ata_a {
        return Err(EscrowError::DerivationMismatch);
    }
    let v = match ledger.account(&vault_addr) {
        Some(AccountData::Holding(h)) => h,
        _ => {
            return Err(EscrowError::NotFound);
        },
    };
    if v.mint != e.mint_a {
        return Err(EscrowError::AssetMismatch);
    }
    if v.owner != escrow_addr {
        return Err(EscrowError::Unauthorized);
    }
    match ledger.transfer_checked(&vault_addr, &maker_ata_a, &escrow_addr, v.balance, &e.mint_a) {
        Ok(_) => (),
        Err(er) => {
            return Err(er);
        },
    }
    ledger.close_account(&vault_addr);
    ledger.close_account(&escrow_addr);
    Ok(())
}

} // verus!
