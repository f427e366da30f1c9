//! The data entities of the exchange: account identities, the escrow
//! record, and token holdings.

use vstd::prelude::*;

verus! {

broadcast use vstd::array::group_array_axioms;

/// A 32-byte ledger address. It identifies a signer, an asset (a mint),
/// or a derived account such as the escrow record or its vault.
#[derive(Clone, Copy, Debug)]
#[verifier::ext_equal]
pub struct AccountId {
    pub bytes: [u8; 32],
}

impl PartialEq for AccountId {
    fn eq(&self, other: &AccountId) -> (r: bool) {
        let mut i: usize = 0;
        while i < 32
            invariant
                0 <= i <= 32,
                forall|j: int| 0 <= j < i ==> self.bytes@[j] == other.bytes@[j],
            decreases 32 - i,
        {
            if self.bytes[i] != other.bytes[i] {
                return false;
            }
            i = i + 1;
        }
        proof {
            assert(self.bytes =~= other.bytes);
            assert(*self =~= *other);
        }
        true
    }
}

impl vstd::std_specs::cmp::PartialEqSpecImpl for AccountId {
    open spec fn obeys_eq_spec() -> bool {
        true
    }

    open spec fn eq_spec(&self, other: &AccountId) -> bool {
        *self == *other
    }
}

impl Eq for AccountId {
}

/// The persistent record of one pending exchange. It lives at the address
/// derived from `("escrow", maker, seed)` and owns the vault that holds
/// the deposited asset A.
#[derive(Clone, Copy, Debug)]
pub struct Escrow {
    /// Maker-chosen nonce disambiguating several escrows by one maker.
    pub seed: u64,
    /// The identity of the depositor; only it may refund.
    pub maker: AccountId,
    /// The asset offered (deposited into the vault).
    pub mint_a: AccountId,
    /// The asset requested in return.
    pub mint_b: AccountId,
    /// The exact quantity of asset B required to take the escrow.
    pub receive: u64,
    /// The derivation proof byte for the record's address.
    pub bump: u8,
}

/// A holding of one asset for one owner: the model of a token account.
/// The vault is a holding whose owner is the escrow record's address.
#[derive(Clone, Copy, Debug)]
pub struct Holding {
    /// The asset this holding tracks.
    pub mint: AccountId,
    /// The authority allowed to move funds out of this holding.
    pub owner: AccountId,
    /// The current balance.
    pub balance: u64,
}

/// What a ledger address can hold: an escrow record or a token holding.
#[derive(Clone, Copy, Debug)]
pub enum AccountData {
    Record(Escrow),
    Holding(Holding),
}

} // verus!
