//! The ledger model: a finite association of addresses to live accounts,
//! together with the checked-transfer primitive of the token service.
//!
//! The ledger runtime and token transfer service are external
//! collaborators of the exchange; this module states their contracts
//! (account creation and closing, `transfer_checked`) over a mathematical
//! view, `Map<AccountId, AccountData>`, and implements them as verified
//! code so the three operations can be proved against them.

use crate::error::EscrowError;
use crate::state::{AccountData, AccountId, Escrow, Holding};
use vstd::prelude::*;

verus! {

/// One live account: an address and what it holds.
pub struct AccountEntry {
    pub addr: AccountId,
    pub data: AccountData,
}

/// The ledger of live accounts. At most one account lives at an address.
pub struct Ledger {
    accounts: Vec<AccountEntry>,
}

/// The mathematical contents of an account sequence: the map from each
/// address to the data stored there (the rightmost entry wins, and
/// well-formed ledgers never hold an address twice).
pub open spec fn map_of(s: Seq<AccountEntry>) -> Map<AccountId, AccountData>
    decreases s.len(),
{
    if s.len() == 0 {
        Map::empty()
    } else {
        map_of(s.drop_last()).insert(s.last().addr, s.last().data)
    }
}

/// No two entries share an address.
pub open spec fn distinct_addrs(s: Seq<AccountEntry>) -> bool {
    forall|i: int, j: int| 0 <= i < j < s.len() ==> s[i].addr != s[j].addr
}

/// The data at `a`, if an account lives there.
pub open spec fn account_at(m: Map<AccountId, AccountData>, a: AccountId) -> Option<AccountData> {
    if m.contains_key(a) {
        Some(m[a])
    } else {
        None
    }
}

/// The holding at `a`, if the account there is a holding.
pub open spec fn holding_at(m: Map<AccountId, AccountData>, a: AccountId) -> Option<Holding> {
    if m.contains_key(a) {
        match m[a] {
            AccountData::Holding(h) => Some(h),
            AccountData::Record(_) => None,
        }
    } else {
        None
    }
}

/// The escrow record at `a`, if the account there is a record.
pub open spec fn record_at(m: Map<AccountId, AccountData>, a: AccountId) -> Option<Escrow> {
    if m.contains_key(a) {
        match m[a] {
            AccountData::Record(e) => Some(e),
            AccountData::Holding(_) => None,
        }
    } else {
        None
    }
}

/// The balance of the holding at `a`, or zero if none lives there.
pub open spec fn balance_of(m: Map<AccountId, AccountData>, a: AccountId) -> u64 {
    match holding_at(m, a) {
        Some(h) => h.balance,
        None => 0u64,
    }
}

proof fn lemma_map_of_absent(s: Seq<AccountEntry>, a: AccountId)
    requires
        forall|i: int| 0 <= i < s.len() ==> s[i].addr != a,
    ensures
        !map_of(s).contains_key(a),
    decreases s.len(),
{
    if s.len() > 0 {
        assert(forall|i: int| 0 <= i < s.drop_last().len() ==> s.drop_last()[i] == s[i]);
        lemma_map_of_absent(s.drop_last(), a);
        assert(s.last() == s[s.len() - 1]);
    }
}

proof fn lemma_map_of_present(s: Seq<AccountEntry>, i: int)
    requires
        distinct_addrs(s),
        0 <= i < s.len(),
    ensures
        map_of(s).contains_key(s[i].addr),
        map_of(s)[s[i].addr] == s[i].data,
    decreases s.len(),
{
    if i < s.len() - 1 {
        assert(forall|k: int| 0 <= k < s.drop_last().len() ==> s.drop_last()[k] == s[k]);
        lemma_map_of_present(s.drop_last(), i);
        assert(s[i].addr != s[s.len() - 1].addr);
    }
}

proof fn lemma_map_of_push(s: Seq<AccountEntry>, e: AccountEntry)
    ensures
        map_of(s.push(e)) == map_of(s).insert(e.addr, e.data),
{
    assert(s.push(e).drop_last() =~= s);
    assert(s.push(e).last() == e);
}

proof fn lemma_map_of_remove(s: Seq<AccountEntry>, i: int)
    requires
        distinct_addrs(s),
        0 <= i < s.len(),
    ensures
        distinct_addrs(s.remove(i)),
        map_of(s.remove(i)) == map_of(s).remove(s[i].addr),
    decreases s.len(),
{
    let t = s.remove(i);
    if i == s.len() - 1 {
        assert(t =~= s.drop_last());
        assert(forall|k: int| 0 <= k < t.len() ==> t[k] == s[k]);
        lemma_map_of_absent(s.drop_last(), s[i].addr);
        assert(map_of(s.drop_last()).insert(s[i].addr, s[i].data).remove(s[i].addr)
            =~= map_of(s.drop_last()));
    } else {
        assert(t.drop_last() =~= s.drop_last().remove(i));
        assert(t.last() == s.last());
        assert(forall|k: int| 0 <= k < s.drop_last().len() ==> s.drop_last()[k] == s[k]);
        lemma_map_of_remove(s.drop_last(), i);
        assert(s[i].addr != s.last().addr);
        assert(map_of(s.drop_last()).remove(s[i].addr).insert(s.last().addr, s.last().data)
            =~= map_of(s.drop_last()).insert(s.last().addr, s.last().data).remove(s[i].addr));
    }
}

impl View for Ledger {
    type V = Map<AccountId, AccountData>;

    closed spec fn view(&self) -> Map<AccountId, AccountData> {
        map_of(self.accounts@)
    }
}

impl Ledger {
    /// Well-formed: one account per address.
    pub closed spec fn wf(&self) -> bool {
        distinct_addrs(self.accounts@)
    }

    /// An empty ledger.
    pub fn new() -> (l: Ledger)
        ensures
            l.wf(),
            l@ == Map::<AccountId, AccountData>::empty(),
    {
        let l = Ledger { accounts: Vec::new() };
        proof {
            assert(l@ =~= Map::<AccountId, AccountData>::empty());
        }
        l
    }

    fn find_index(&self, a: &AccountId) -> (r: Option<usize>)
        requires
            self.wf(),
        ensures
            match r {
                Some(i) => i < self.accounts@.len() && self.accounts@[i as int].addr == *a
                    && self@.contains_key(*a) && self@[*a] == self.accounts@[i as int].data,
                None => !self@.contains_key(*a),
            },
    {
        let n = self.accounts.len();
        let mut i: usize = 0;
        while i < n
            invariant
                self.wf(),
                n == self.accounts@.len(),
                0 <= i <= n,
                forall|j: int| 0 <= j < i ==> self.accounts@[j].addr != *a,
            decreases n - i,
        {
            if self.accounts[i].addr == *a {
                proof {
                    lemma_map_of_present(self.accounts@, i as int);
                }
                return Some(i);
            }
            i = i + 1;
        }
        proof {
            lemma_map_of_absent(self.accounts@, *a);
        }
        None
    }

    /// Whether an account lives at `a`.
    pub fn contains(&self, a: &AccountId) -> (r: bool)
        requires
            self.wf(),
        ensures
            r == self@.contains_key(*a),
    {
        match self.find_index(a) {
            Some(_) => true,
            None => false,
        }
    }

    /// The account at `a`, if any.
    pub fn account(&self, a: &AccountId) -> (r: Option<AccountData>)
        requires
            self.wf(),
        ensures
            r == account_at(self@, *a),
    {
        match self.find_index(a) {
            Some(i) => Some(self.accounts[i].data),
            None => None,
        }
    }

    fn push_entry(&mut self, e: AccountEntry)
        requires
            old(self).wf(),
            !old(self)@.contains_key(e.addr),
        ensures
            final(self).wf(),
            final(self)@ == old(self)@.insert(e.addr, e.data),
    {
        proof {
            assert forall|i: int| 0 <= i < self.accounts@.len() implies self.accounts@[i].addr
                != e.addr by {
                if self.accounts@[i].addr == e.addr {
                    lemma_map_of_present(self.accounts@, i);
                }
            }
            lemma_map_of_push(self.accounts@, e);
        }
        let ghost s = self.accounts@;
        self.accounts.push(e);
        proof {
            assert(self.accounts@ == s.push(e));
            assert(distinct_addrs(self.accounts@));
        }
    }

    fn remove_at(&mut self, i: usize)
        requires
            old(self).wf(),
            i < old(self).accounts@.len(),
        ensures
            final(self).wf(),
            final(self)@ == old(self)@.remove(old(self).accounts@[i as int].addr),
    {
        proof {
            lemma_map_of_remove(self.accounts@, i as int);
        }
        let _ = self.accounts.remove(i);
    }

    /// Creates a holding of `mint` for `owner` at `addr`, as the runtime
    /// does when a token account is opened. Fails if the address is in use.
    pub fn create_holding(
        &mut self,
        addr: AccountId,
        mint: AccountId,
        owner: AccountId,
        balance: u64,
    ) -> (r: Result<(), EscrowError>)
        requires
            old(self).wf(),
        ensures
            final(self).wf(),
            match r {
                Ok(_) => !old(self)@.contains_key(addr) && final(self)@ == old(self)@.insert(
                    addr,
                    AccountData::Holding(Holding { mint, owner, balance }),
                ),
                Err(e) => e == EscrowError::AlreadyExists && old(self)@.contains_key(addr)
                    && final(self)@ == old(self)@,
            },
    {
        match self.find_index(&addr) {
            Some(_) => Err(EscrowError::AlreadyExists),
            None => {
                self.push_entry(
                    AccountEntry { addr, data: AccountData::Holding(Holding { mint, owner, balance }) },
                );
                Ok(())
            },
        }
    }

    /// Creates an escrow record at `addr`, as the runtime does when
    /// storage is allocated. The address is not constrained here: the
    /// operations never trust a record without recomputing its derivation,
    /// and that check is what rejects a record planted elsewhere.
    pub fn create_record(&mut self, addr: AccountId, record: Escrow) -> (r: Result<
        (),
        EscrowError,
    >)
        requires
            old(self).wf(),
        ensures
            final(self).wf(),
            match r {
                Ok(_) => !old(self)@.contains_key(addr) && final(self)@ == old(self)@.insert(
                    addr,
                    AccountData::Record(record),
                ),
                Err(e) => e == EscrowError::AlreadyExists && old(self)@.contains_key(addr)
                    && final(self)@ == old(self)@,
            },
    {
        match self.find_index(&addr) {
            Some(_) => Err(EscrowError::AlreadyExists),
            None => {
                self.push_entry(AccountEntry { addr, data: AccountData::Record(record) });
                Ok(())
            },
        }
    }

    /// Closes the account at `a`, as the runtime does when an account's
    /// storage is reclaimed.
    pub(crate) fn close_account(&mut self, a: &AccountId)
        requires
            old(self).wf(),
            old(self)@.contains_key(*a),
        ensures
            final(self).wf(),
            final(self)@ == old(self)@.remove(*a),
    {
        let i: usize = match self.find_index(a) {
            Some(i) => i,
            None => 0,
        };
        self.remove_at(i);
    }
}

/// What the token transfer service returns for a checked transfer of
/// `amount` units of `mint` out of `from` into `to` on behalf of
/// `authority`: the new ledger contents on success, or the reason it was
/// rejected. A transfer of a holding to itself moves nothing.
pub open spec fn spec_transfer(
    m: Map<AccountId, AccountData>,
    from: AccountId,
    to: AccountId,
    authority: AccountId,
    amount: u64,
    mint: AccountId,
) -> Result<Map<AccountId, AccountData>, EscrowError> {
    match (holding_at(m, from), holding_at(m, to)) {
        (Some(f), Some(t)) => if f.mint != mint || t.mint != mint {
            Err(EscrowError::AssetMismatch)
        } else if f.owner != authority {
            Err(EscrowError::Unauthorized)
        } else if f.balance < amount {
            Err(EscrowError::InsufficientFunds)
        } else if from == to {
            Ok(m)
        } else {
            Ok(
                m.insert(
                    from,
                    AccountData::Holding(
                        Holding { mint: f.mint, owner: f.owner, balance: (f.balance - amount) as u64 },
                    ),
                ).insert(
                    to,
                    AccountData::Holding(
                        Holding { mint: t.mint, owner: t.owner, balance: (t.balance + amount) as u64 },
                    ),
                ),
            )
        },
        _ => Err(EscrowError::NotFound),
    }
}

/// The machine limit on a checked transfer: where it would succeed, the
/// destination balance must have room for the amount. The real token
/// service rejects such a transfer; the model requires it outright.
pub open spec fn transfer_fits(
    m: Map<AccountId, AccountData>,
    from: AccountId,
    to: AccountId,
    authority: AccountId,
    amount: u64,
    mint: AccountId,
) -> bool {
    match (holding_at(m, from), holding_at(m, to)) {
        (Some(f), Some(t)) => (f.mint == mint && t.mint == mint && f.owner == authority
            && f.balance >= amount && from != to) ==> t.balance + amount <= u64::MAX,
        _ => true,
    }
}

impl Ledger {
    /// The model of the token transfer service's `transfer_checked`: moves
    /// `amount` units of `mint` from `from` to `to`. Rejected if either
    /// holding is missing, either tracks an asset other than `mint`, the
    /// authority does not own `from`, or the balance falls short; on any
    /// rejection the ledger is unchanged.
    pub fn transfer_checked(
        &mut self,
        from: &AccountId,
        to: &AccountId,
        authority: &AccountId,
        amount: u64,
        mint: &AccountId,
    ) -> (r: Result<(), EscrowError>)
        requires
            old(self).wf(),
            transfer_fits(old(self)@, *from, *to, *authority, amount, *mint),
        ensures
            final(self).wf(),
            match spec_transfer(old(self)@, *from, *to, *authority, amount, *mint) {
                Ok(m) => r == Ok::<(), EscrowError>(()) && final(self)@ == m,
                Err(e) => r == Err::<(), EscrowError>(e) && final(self)@ == old(self)@,
            },
    {
        let fi = match self.find_index(from) {
            Some(i) => i,
            None => return Err(EscrowError::NotFound),
        };
        let f = match self.accounts[fi].data {
            AccountData::Holding(h) => h,
            AccountData::Record(_) => return Err(EscrowError::NotFound),
        };
        let ti = match self.find_index(to) {
            Some(i) => i,
            None => return Err(EscrowError::NotFound),
        };
        let t = match self.accounts[ti].data {
            AccountData::Holding(h) => h,
            AccountData::Record(_) => return Err(EscrowError::NotFound),
        };
        if f.mint != *mint || t.mint != *mint {
            return Err(EscrowError::AssetMismatch);
        }
        if f.owner != *authority {
            return Err(EscrowError::Unauthorized);
        }
        if f.balance < amount {
            return Err(EscrowError::InsufficientFunds);
        }
        if *from == *to {
            return Ok(());
        }
        self.set_data(
            fi,
            AccountData::Holding(Holding { mint: f.mint, owner: f.owner, balance: f.balance - amount }),
        );
        let ti2: usize = match self.find_index(to) {
            Some(i) => i,
            None => 0,
        };
        self.set_data(
            ti2,
            AccountData::Holding(Holding { mint: t.mint, owner: t.owner, balance: t.balance + amount }),
        );
        Ok(())
    }

    fn set_data(&mut self, i: usize, d: AccountData)
        requires
            old(self).wf(),
            i < old(self).accounts@.len(),
        ensures
            final(self).wf(),
            final(self)@ == old(self)@.insert(old(self).accounts@[i as int].addr, d),
    {
        let a = self.accounts[i].addr;
        proof {
            lemma_map_of_present(self.accounts@, i as int);
        }
        self.remove_at(i);
        self.push_entry(AccountEntry { addr: a, data: d });
        proof {
            assert(old(self)@.remove(a).insert(a, d) =~= old(self)@.insert(a, d));
        }
    }
}

} // verus!
