//! The derivation scheme: the deterministic, collision-resistant mapping
//! from an owner identity and a seed to a derived address. It is the sole
//! authorization mechanism for "is this the right record / vault": every
//! operation recomputes the derivation instead of trusting a supplied
//! address. The computation itself belongs to the ledger runtime and is
//! reached through trusted wrappers; its results are named by
//! uninterpreted spec functions, so a contract can say "the address of
//! this escrow" without restating the hash underneath.

use crate::state::AccountId;
use vstd::prelude::*;

verus! {

/// What the runtime's derivation yields for the escrow record of
/// `(maker, seed)` under this program's fixed identity: the record's
/// address and its proof byte, or `None` in the statistically improbable
/// case that no proof byte is viable.
pub uninterp spec fn escrow_derivation(maker: AccountId, seed: u64) -> Option<(AccountId, u8)>;

/// Where the associated holding of asset `mint` for `owner` lives. The
/// vault is the associated holding of the offered asset whose owner is the
/// escrow record's address.
pub uninterp spec fn associated_holding_address(owner: AccountId, mint: AccountId) -> AccountId;

/// Relies on `Pubkey::try_find_program_address` (solana-address, re-exported
/// by anchor-lang): a pure function of the seed slices and the program id.
/// The seeds are the literal `"escrow"`, the maker's 32 bytes, and the
/// little-endian seed; the program id is this program's fixed identity
/// (base58 `AFsE5ZUWMy2rNDa6rvaYjBVwM93hdpcxKiamgi5dUt8b`), a static
/// configuration constant. Returns `None` only if no bump byte is viable.
#[verifier::external_body]
fn find_escrow_address(maker: &AccountId, seed: u64) -> (r: Option<(AccountId, u8)>)
    ensures
        r == escrow_derivation(*maker, seed),
{
    let program = anchor_lang::prelude::Pubkey::new_from_array([
        137, 136, 26, 147, 86, 111, 145, 178, 46, 197, 150, 75, 20, 21, 250, 194, 228, 121, 159,
        201, 51, 205, 17, 109, 247, 57, 128, 58, 238, 240, 210, 156,
    ]);
    let seed_bytes = seed.to_le_bytes();
    let seeds: [&[u8]; 3] = [b"escrow", &maker.bytes, &seed_bytes];
    match anchor_lang::prelude::Pubkey::try_find_program_address(&seeds, &program) {
        Some((pk, bump)) => Some((AccountId { bytes: pk.to_bytes() }, bump)),
        None => None,
    }
}

/// Relies on `get_associated_token_address` (spl-associated-token-account
/// -interface, re-exported by anchor-spl): a pure function of the wallet
/// and mint addresses. It aborts only in the statistically improbable case
/// that no bump byte is viable for the pair.
#[verifier::external_body]
fn find_holding_address(owner: &AccountId, mint: &AccountId) -> (r: AccountId)
    ensures
        r == associated_holding_address(*owner, *mint),
{
    let owner_pk = anchor_lang::prelude::Pubkey::new_from_array(owner.bytes);
    let mint_pk = anchor_lang::prelude::Pubkey::new_from_array(mint.bytes);
    let ata = anchor_spl::associated_token::get_associated_token_address(&owner_pk, &mint_pk);
    AccountId { bytes: ata.to_bytes() }
}

/// The address and proof byte of the escrow record for `(maker, seed)`.
/// Deterministic: any party recomputes this to verify a claimed address.
pub fn derive_escrow_address(maker: &AccountId, seed: u64) -> (r: Option<(AccountId, u8)>)
    ensures
        r == escrow_derivation(*maker, seed),
{
    find_escrow_address(maker, seed)
}

/// The address of the associated holding of `mint` for `owner`; with the
/// escrow record's address as owner and the offered asset as mint, the
/// address of the vault.
pub fn derive_holding_address(owner: &AccountId, mint: &AccountId) -> (r: AccountId)
    ensures
        r == associated_holding_address(*owner, *mint),
{
    find_holding_address(owner, mint)
}

} // verus!
