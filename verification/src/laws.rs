//! The laws of the exchange, proved over the operations' spec functions.
//! Each executable operation is verified to behave exactly as its spec
//! function says, so these laws carry over to the executable code.

use crate::derivation::{associated_holding_address, escrow_derivation};
use crate::error::EscrowError;
use crate::instructions::{refund_fits, spec_make, spec_refund, spec_take, take_fits};
use crate::ledger::{account_at, balance_of, holding_at, record_at};
use crate::state::{AccountData, AccountId, Escrow, Holding};
use vstd::prelude::*;

verus! {

/// An escrow can be made at most once: while an escrow for
/// `(maker, seed)` is open, a second `make` for the same pair — with any
/// assets, amounts, or funding holding — fails with `AlreadyExists`.
pub proof fn law_make_at_most_once(
    m: Map<AccountId, AccountData>,
    maker: AccountId,
    mint_a: AccountId,
    mint_b: AccountId,
    maker_ata_a: AccountId,
    seed: u64,
    receive: u64,
    deposit: u64,
    post: Map<AccountId, AccountData>,
    mint_a2: AccountId,
    mint_b2: AccountId,
    maker_ata_a2: AccountId,
    receive2: u64,
    deposit2: u64,
)
    requires
        spec_make(m, maker, mint_a, mint_b, maker_ata_a, seed, receive, deposit) == Ok::<
            Map<AccountId, AccountData>,
            EscrowError,
        >(post),
    ensures
        spec_make(post, maker, mint_a2, mint_b2, maker_ata_a2, seed, receive2, deposit2) == Err::<
            Map<AccountId, AccountData>,
            EscrowError,
        >(EscrowError::AlreadyExists),
{
    match escrow_derivation(maker, seed) {
        Some((escrow, bump)) => {
            assert(post.contains_key(escrow));
        },
        None => {
            assert(false);
        },
    }
}

/// `make` populates the new record with exactly the requested fields and
/// the new vault with exactly the deposit, and debits the funding holding
/// by exactly the deposit; both derived addresses were previously free.
pub proof fn law_make_creates(
    m: Map<AccountId, AccountData>,
    maker: AccountId,
    mint_a: AccountId,
    mint_b: AccountId,
    maker_ata_a: AccountId,
    seed: u64,
    receive: u64,
    deposit: u64,
    post: Map<AccountId, AccountData>,
    escrow: AccountId,
    bump: u8,
    vault: AccountId,
)
    requires
        spec_make(m, maker, mint_a, mint_b, maker_ata_a, seed, receive, deposit) == Ok::<
            Map<AccountId, AccountData>,
            EscrowError,
        >(post),
        escrow_derivation(maker, seed) == Some((escrow, bump)),
        vault == associated_holding_address(escrow, mint_a),
    ensures
        !m.contains_key(escrow),
        !m.contains_key(vault),
        record_at(post, escrow) == Some(Escrow { seed, maker, mint_a, mint_b, receive, bump }),
        holding_at(post, vault) == Some(Holding { mint: mint_a, owner: escrow, balance: deposit }),
        balance_of(post, maker_ata_a) == balance_of(m, maker_ata_a) - deposit,
{
}

/// No operation rewrites an escrow record in place: a record that is
/// still present after `make` is exactly what it was before.
pub proof fn law_make_preserves_records(
    m: Map<AccountId, AccountData>,
    maker: AccountId,
    mint_a: AccountId,
    mint_b: AccountId,
    maker_ata_a: AccountId,
    seed: u64,
    receive: u64,
    deposit: u64,
    post: Map<AccountId, AccountData>,
    a: AccountId,
)
    requires
        spec_make(m, maker, mint_a, mint_b, maker_ata_a, seed, receive, deposit) == Ok::<
            Map<AccountId, AccountData>,
            EscrowError,
        >(post),
        record_at(m, a) is Some,
    ensures
        record_at(post, a) == record_at(m, a),
{
}

/// No `take` rewrites an escrow record: a record other than the consumed
/// one is exactly what it was before.
pub proof fn law_take_preserves_records(
    m: Map<AccountId, AccountData>,
    taker: AccountId,
    escrow_addr: AccountId,
    vault_addr: AccountId,
    taker_ata_b: AccountId,
    taker_ata_a: AccountId,
    maker_ata_b: AccountId,
    post: Map<AccountId, AccountData>,
    a: AccountId,
)
    requires
        spec_take(m, taker, escrow_addr, vault_addr, taker_ata_b, taker_ata_a, maker_ata_b) == Ok::<
            Map<AccountId, AccountData>,
            EscrowError,
        >(post),
        record_at(m, a) is Some,
        a != escrow_addr,
    ensures
        record_at(post, a) == record_at(m, a),
{
}

/// No `refund` rewrites an escrow record: a record other than the
/// consumed one is exactly what it was before.
pub proof fn law_refund_preserves_records(
    m: Map<AccountId, AccountData>,
    signer: AccountId,
    escrow_addr: AccountId,
    vault_addr: AccountId,
    maker_ata_a: AccountId,
    post: Map<AccountId, AccountData>,
    a: AccountId,
)
    requires
        spec_refund(m, signer, escrow_addr, vault_addr, maker_ata_a) == Ok::<
            Map<AccountId, AccountData>,
            EscrowError,
        >(post),
        record_at(m, a) is Some,
        a != escrow_addr,
    ensures
        record_at(post, a) == record_at(m, a),
{
}

/// After a successful `take`, the record and the vault no longer exist,
/// the maker's asset-B holding grew by exactly `receive`, and the taker's
/// asset-A holding grew by exactly the vault's balance (the original
/// deposit). Stated for distinct holdings: where the taker is the maker,
/// or asset A is asset B, a holding pays itself and its balance cannot
/// grow.
pub proof fn law_take_effects(
    m: Map<AccountId, AccountData>,
    taker: AccountId,
    escrow_addr: AccountId,
    vault_addr: AccountId,
    taker_ata_b: AccountId,
    taker_ata_a: AccountId,
    maker_ata_b: AccountId,
    post: Map<AccountId, AccountData>,
    e: Escrow,
)
    requires
        spec_take(m, taker, escrow_addr, vault_addr, taker_ata_b, taker_ata_a, maker_ata_b) == Ok::<
            Map<AccountId, AccountData>,
            EscrowError,
        >(post),
        take_fits(m, taker, escrow_addr, vault_addr, taker_ata_b, taker_ata_a, maker_ata_b),
        record_at(m, escrow_addr) == Some(e),
        taker_ata_b != maker_ata_b,
        taker_ata_a != taker_ata_b,
        taker_ata_a != maker_ata_b,
    ensures
        !post.contains_key(escrow_addr),
        !post.contains_key(vault_addr),
        holding_at(post, maker_ata_b) is Some,
        balance_of(post, maker_ata_b) == balance_of(m, maker_ata_b) + e.receive,
        holding_at(post, taker_ata_a) is Some,
        balance_of(post, taker_ata_a) == balance_of(m, taker_ata_a) + balance_of(m, vault_addr),
{
}

/// After a successful `refund`, the record and the vault no longer exist
/// and the maker's asset-A holding grew by exactly the vault's balance
/// (the original deposit); only the maker may have signed.
pub proof fn law_refund_effects(
    m: Map<AccountId, AccountData>,
    signer: AccountId,
    escrow_addr: AccountId,
    vault_addr: AccountId,
    maker_ata_a: AccountId,
    post: Map<AccountId, AccountData>,
    e: Escrow,
)
    requires
        spec_refund(m, signer, escrow_addr, vault_addr, maker_ata_a) == Ok::<
            Map<AccountId, AccountData>,
            EscrowError,
        >(post),
        refund_fits(m, signer, escrow_addr, vault_addr, maker_ata_a),
        record_at(m, escrow_addr) == Some(e),
    ensures
        !post.contains_key(escrow_addr),
        !post.contains_key(vault_addr),
        signer == e.maker,
        holding_at(post, maker_ata_a) is Some,
        balance_of(post, maker_ata_a) == balance_of(m, maker_ata_a) + balance_of(m, vault_addr),
{
}

/// A successful `refund` touches nothing but the record, the vault, and
/// the maker's asset-A holding; in particular the maker's asset-B balance
/// is unchanged.
pub proof fn law_refund_frame(
    m: Map<AccountId, AccountData>,
    signer: AccountId,
    escrow_addr: AccountId,
    vault_addr: AccountId,
    maker_ata_a: AccountId,
    post: Map<AccountId, AccountData>,
    a: AccountId,
)
    requires
        spec_refund(m, signer, escrow_addr, vault_addr, maker_ata_a) == Ok::<
            Map<AccountId, AccountData>,
            EscrowError,
        >(post),
        a != escrow_addr,
        a != vault_addr,
        a != maker_ata_a,
    ensures
        account_at(post, a) == account_at(m, a),
{
}

/// A successful `take` touches nothing but the record, the vault, and the
/// three named holdings.
pub proof fn law_take_frame(
    m: Map<AccountId, AccountData>,
    taker: AccountId,
    escrow_addr: AccountId,
    vault_addr: AccountId,
    taker_ata_b: AccountId,
    taker_ata_a: AccountId,
    maker_ata_b: AccountId,
    post: Map<AccountId, AccountData>,
    a: AccountId,
)
    requires
        spec_take(m, taker, escrow_addr, vault_addr, taker_ata_b, taker_ata_a, maker_ata_b) == Ok::<
            Map<AccountId, AccountData>,
            EscrowError,
        >(post),
        a != escrow_addr,
        a != vault_addr,
        a != taker_ata_b,
        a != taker_ata_a,
        a != maker_ata_b,
    ensures
        account_at(post, a) == account_at(m, a),
{
}

/// A successful `make` touches nothing but the new record, the new vault,
/// and the maker's funding holding.
pub proof fn law_make_frame(
    m: Map<AccountId, AccountData>,
    maker: AccountId,
    mint_a: AccountId,
    mint_b: AccountId,
    maker_ata_a: AccountId,
    seed: u64,
    receive: u64,
    deposit: u64,
    post: Map<AccountId, AccountData>,
    escrow: AccountId,
    bump: u8,
    a: AccountId,
)
    requires
        spec_make(m, maker, mint_a, mint_b, maker_ata_a, seed, receive, deposit) == Ok::<
            Map<AccountId, AccountData>,
            EscrowError,
        >(post),
        escrow_derivation(maker, seed) == Some((escrow, bump)),
        a != escrow,
        a != associated_holding_address(escrow, mint_a),
        a != maker_ata_a,
    ensures
        account_at(post, a) == account_at(m, a),
{
}

/// `take` and `refund` are mutually exclusive: once a `take` commits, any
/// `refund` of the same escrow fails with `NotFound`.
pub proof fn law_take_excludes_refund(
    m: Map<AccountId, AccountData>,
    taker: AccountId,
    escrow_addr: AccountId,
    vault_addr: AccountId,
    taker_ata_b: AccountId,
    taker_ata_a: AccountId,
    maker_ata_b: AccountId,
    post: Map<AccountId, AccountData>,
    signer: AccountId,
    vault_addr2: AccountId,
    maker_ata_a2: AccountId,
)
    requires
        spec_take(m, taker, escrow_addr, vault_addr, taker_ata_b, taker_ata_a, maker_ata_b) == Ok::<
            Map<AccountId, AccountData>,
            EscrowError,
        >(post),
    ensures
        spec_refund(post, signer, escrow_addr, vault_addr2, maker_ata_a2) == Err::<
            Map<AccountId, AccountData>,
            EscrowError,
        >(EscrowError::NotFound),
{
}

/// `take` and `refund` are mutually exclusive: once a `refund` commits,
/// any `take` of the same escrow fails with `NotFound`.
pub proof fn law_refund_excludes_take(
    m: Map<AccountId, AccountData>,
    signer: AccountId,
    escrow_addr: AccountId,
    vault_addr: AccountId,
    maker_ata_a: AccountId,
    post: Map<AccountId, AccountData>,
    taker: AccountId,
    vault_addr2: AccountId,
    taker_ata_b2: AccountId,
    taker_ata_a2: AccountId,
    maker_ata_b2: AccountId,
)
    requires
        spec_refund(m, signer, escrow_addr, vault_addr, maker_ata_a) == Ok::<
            Map<AccountId, AccountData>,
            EscrowError,
        >(post),
    ensures
        spec_take(post, taker, escrow_addr, vault_addr2, taker_ata_b2, taker_ata_a2, maker_ata_b2)
            == Err::<Map<AccountId, AccountData>, EscrowError>(EscrowError::NotFound),
{
}

/// Only the recorded maker can refund: any other signer gets
/// `Unauthorized` (and, by the operation's contract, the ledger — the
/// vault included — is untouched on every error).
pub proof fn law_refund_requires_maker(
    m: Map<AccountId, AccountData>,
    signer: AccountId,
    escrow_addr: AccountId,
    vault_addr: AccountId,
    maker_ata_a: AccountId,
    e: Escrow,
)
    requires
        record_at(m, escrow_addr) == Some(e),
        signer != e.maker,
    ensures
        spec_refund(m, signer, escrow_addr, vault_addr, maker_ata_a) == Err::<
            Map<AccountId, AccountData>,
            EscrowError,
        >(EscrowError::Unauthorized),
{
}


/// One live record's standing obligations: it sits at its own derivation,
/// and its vault exists, tracks the offered asset, and is owned by the
/// record's address.
pub open spec fn escrow_ok(m: Map<AccountId, AccountData>, a: AccountId) -> bool {
    match record_at(m, a) {
        None => true,
        Some(e) => escrow_derivation(e.maker, e.seed) == Some((a, e.bump)) && match holding_at(
            m,
            associated_holding_address(a, e.mint_a),
        ) {
            Some(h) => h.mint == e.mint_a && h.owner == a,
            None => false,
        },
    }
}

/// Where the record at `a` keeps its vault (`a` itself if no record).
pub open spec fn vault_address_of(m: Map<AccountId, AccountData>, a: AccountId) -> AccountId {
    match record_at(m, a) {
        Some(e) => associated_holding_address(a, e.mint_a),
        None => a,
    }
}

/// A well-formed world: every record and its vault live together, and no
/// two records share a vault.
pub open spec fn escrows_consistent(m: Map<AccountId, AccountData>) -> bool {
    &&& forall|a: AccountId| #[trigger] escrow_ok(m, a)
    &&& forall|a1: AccountId, a2: AccountId|
        #![trigger vault_address_of(m, a1), vault_address_of(m, a2)]
        a1 != a2 && record_at(m, a1) is Some && record_at(m, a2) is Some ==> vault_address_of(
            m,
            a1,
        ) != vault_address_of(m, a2)
}

/// `make` keeps the world well-formed: the record and vault it creates
/// are born together, correctly derived and owned, and touch no other
/// escrow's pair.
pub proof fn law_make_preserves_consistency(
    m: Map<AccountId, AccountData>,
    maker: AccountId,
    mint_a: AccountId,
    mint_b: AccountId,
    maker_ata_a: AccountId,
    seed: u64,
    receive: u64,
    deposit: u64,
    post: Map<AccountId, AccountData>,
)
    requires
        spec_make(m, maker, mint_a, mint_b, maker_ata_a, seed, receive, deposit) == Ok::<
            Map<AccountId, AccountData>,
            EscrowError,
        >(post),
        escrows_consistent(m),
    ensures
        escrows_consistent(post),
{
    assert forall|a: AccountId| #[trigger] escrow_ok(post, a) by {
        assert(escrow_ok(m, a));
    }
    assert forall|a1: AccountId, a2: AccountId|
        a1 != a2 && record_at(post, a1) is Some && record_at(post, a2) is Some implies (
    #[trigger] vault_address_of(post, a1)) != (#[trigger] vault_address_of(post, a2)) by {
        assert(escrow_ok(m, a1));
        assert(escrow_ok(m, a2));
        match escrow_derivation(maker, seed) {
            Some((escrow, bump)) => {
                // A pre-existing record keeps its vault; the new record's
                // vault address was free, so it differs from every live
                // vault.
                if a1 != escrow {
                    assert(vault_address_of(post, a1) == vault_address_of(m, a1));
                }
                if a2 != escrow {
                    assert(vault_address_of(post, a2) == vault_address_of(m, a2));
                }
            },
            None => {
                assert(false);
            },
        }
    }
}

/// `take` keeps the world well-formed: it destroys exactly one record
/// together with exactly that record's vault.
pub proof fn law_take_preserves_consistency(
    m: Map<AccountId, AccountData>,
    taker: AccountId,
    escrow_addr: AccountId,
    vault_addr: AccountId,
    taker_ata_b: AccountId,
    taker_ata_a: AccountId,
    maker_ata_b: AccountId,
    post: Map<AccountId, AccountData>,
)
    requires
        spec_take(m, taker, escrow_addr, vault_addr, taker_ata_b, taker_ata_a, maker_ata_b) == Ok::<
            Map<AccountId, AccountData>,
            EscrowError,
        >(post),
        escrows_consistent(m),
    ensures
        escrows_consistent(post),
{
    assert forall|a: AccountId| #[trigger] escrow_ok(post, a) by {
        assert(escrow_ok(m, a));
        if a != escrow_addr && record_at(post, a) is Some {
            assert(vault_address_of(m, a) != vault_address_of(m, escrow_addr));
        }
    }
    assert forall|a1: AccountId, a2: AccountId|
        a1 != a2 && record_at(post, a1) is Some && record_at(post, a2) is Some implies (
    #[trigger] vault_address_of(post, a1)) != (#[trigger] vault_address_of(post, a2)) by {
        assert(escrow_ok(m, a1));
        assert(escrow_ok(m, a2));
        assert(record_at(m, a1) is Some && record_at(m, a2) is Some);
    }
}

/// `refund` keeps the world well-formed: it destroys exactly one record
/// together with exactly that record's vault.
pub proof fn law_refund_preserves_consistency(
    m: Map<AccountId, AccountData>,
    signer: AccountId,
    escrow_addr: AccountId,
    vault_addr: AccountId,
    maker_ata_a: AccountId,
    post: Map<AccountId, AccountData>,
)
    requires
        spec_refund(m, signer, escrow_addr, vault_addr, maker_ata_a) == Ok::<
            Map<AccountId, AccountData>,
            EscrowError,
        >(post),
        escrows_consistent(m),
    ensures
        escrows_consistent(post),
{
    assert forall|a: AccountId| #[trigger] escrow_ok(post, a) by {
        assert(escrow_ok(m, a));
        if a != escrow_addr && record_at(post, a) is Some {
            assert(vault_address_of(m, a) != vault_address_of(m, escrow_addr));
        }
    }
    assert forall|a1: AccountId, a2: AccountId|
        a1 != a2 && record_at(post, a1) is Some && record_at(post, a2) is Some implies (
    #[trigger] vault_address_of(post, a1)) != (#[trigger] vault_address_of(post, a2)) by {
        assert(escrow_ok(m, a1));
        assert(escrow_ok(m, a2));
        assert(record_at(m, a1) is Some && record_at(m, a2) is Some);
    }
}

/// Across a whole round: what a `take` pays the taker is exactly the
/// deposit that the `make` put into the vault.
pub proof fn law_make_then_take_pays_deposit(
    m: Map<AccountId, AccountData>,
    maker: AccountId,
    mint_a: AccountId,
    mint_b: AccountId,
    maker_ata_a: AccountId,
    seed: u64,
    receive: u64,
    deposit: u64,
    mid: Map<AccountId, AccountData>,
    escrow: AccountId,
    bump: u8,
    vault: AccountId,
    taker: AccountId,
    taker_ata_b: AccountId,
    taker_ata_a: AccountId,
    maker_ata_b: AccountId,
    post: Map<AccountId, AccountData>,
    e: Escrow,
)
    requires
        spec_make(m, maker, mint_a, mint_b, maker_ata_a, seed, receive, deposit) == Ok::<
            Map<AccountId, AccountData>,
            EscrowError,
        >(mid),
        escrow_derivation(maker, seed) == Some((escrow, bump)),
        vault == associated_holding_address(escrow, mint_a),
        spec_take(mid, taker, escrow, vault, taker_ata_b, taker_ata_a, maker_ata_b) == Ok::<
            Map<AccountId, AccountData>,
            EscrowError,
        >(post),
        take_fits(mid, taker, escrow, vault, taker_ata_b, taker_ata_a, maker_ata_b),
        record_at(mid, escrow) == Some(e),
        taker_ata_b != maker_ata_b,
        taker_ata_a != taker_ata_b,
        taker_ata_a != maker_ata_b,
    ensures
        balance_of(post, taker_ata_a) == balance_of(mid, taker_ata_a) + deposit,
        balance_of(post, maker_ata_b) == balance_of(mid, maker_ata_b) + receive,
{
    law_make_creates(
        m,
        maker,
        mint_a,
        mint_b,
        maker_ata_a,
        seed,
        receive,
        deposit,
        mid,
        escrow,
        bump,
        vault,
    );
    law_take_effects(
        mid,
        taker,
        escrow,
        vault,
        taker_ata_b,
        taker_ata_a,
        maker_ata_b,
        post,
        e,
    );
}

/// Across a whole round: what a `refund` returns to the maker is exactly
/// the deposit that the `make` put into the vault.
pub proof fn law_make_then_refund_restores_deposit(
    m: Map<AccountId, AccountData>,
    maker: AccountId,
    mint_a: AccountId,
    mint_b: AccountId,
    maker_ata_a: AccountId,
    seed: u64,
    receive: u64,
    deposit: u64,
    mid: Map<AccountId, AccountData>,
    escrow: AccountId,
    bump: u8,
    vault: AccountId,
    signer: AccountId,
    post: Map<AccountId, AccountData>,
    e: Escrow,
)
    requires
        spec_make(m, maker, mint_a, mint_b, maker_ata_a, seed, receive, deposit) == Ok::<
            Map<AccountId, AccountData>,
            EscrowError,
        >(mid),
        escrow_derivation(maker, seed) == Some((escrow, bump)),
        vault == associated_holding_address(escrow, mint_a),
        spec_refund(mid, signer, escrow, vault, maker_ata_a) == Ok::<
            Map<AccountId, AccountData>,
            EscrowError,
        >(post),
        refund_fits(mid, signer, escrow, vault, maker_ata_a),
        record_at(mid, escrow) == Some(e),
    ensures
        balance_of(post, maker_ata_a) == balance_of(mid, maker_ata_a) + deposit,
        balance_of(post, maker_ata_a) == balance_of(m, maker_ata_a),
{
    law_make_creates(
        m,
        maker,
        mint_a,
        mint_b,
        maker_ata_a,
        seed,
        receive,
        deposit,
        mid,
        escrow,
        bump,
        vault,
    );
    law_refund_effects(mid, signer, escrow, vault, maker_ata_a, post, e);
}

} // verus!
