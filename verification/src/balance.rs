//! The balance ledger: what every account holds, and the two ways to move it.

use crate::account::{Account, AccountView};
use crate::account_balance::{balance_of_bytes, Balance as AccountBalance};
use crate::amount::{be_len, lemma_be_len_monotone, Amount};
use crate::codec::same_bytes;
use crate::errors::{BalanceError, CanisterError, CanisterResult};
use crate::supply::{
    amount_at, lemma_amount_at_most_total, lemma_total_empty, lemma_total_insert,
    lemma_total_split, total,
};
use crate::table::{
    key_at, lists_entries, no_entries, table_entries, table_get, table_insert, table_list, Table,
};
use vstd::prelude::*;

verus! {

/// The ledger of balances, one record for each account that was ever named in
/// a transfer or a grant.
pub struct Balance {
    table: Table,
    canister_account: Account,
}

/// The table after the account under `k` was named: it holds a record, of zero
/// if it held none.
pub open spec fn touched(m: Map<Seq<u8>, nat>, k: Seq<u8>) -> Map<Seq<u8>, nat> {
    m.insert(k, amount_at(m, k))
}

/// The table after `v` was taken from the account under `k`.
pub open spec fn debited(m: Map<Seq<u8>, nat>, k: Seq<u8>, v: nat) -> Map<Seq<u8>, nat> {
    m.insert(k, (amount_at(m, k) - v) as nat)
}

/// The table after `v` was given to the account under `k`.
pub open spec fn credited(m: Map<Seq<u8>, nat>, k: Seq<u8>, v: nat) -> Map<Seq<u8>, nat> {
    m.insert(k, amount_at(m, k) + v)
}

/// The table after `v` was moved from the account under `from` to the one
/// under `to`.
pub open spec fn moved(m: Map<Seq<u8>, nat>, from: Seq<u8>, to: Seq<u8>, v: nat) -> Map<
    Seq<u8>,
    nat,
> {
    credited(debited(m, from, v), to, v)
}

/// The table after `v` was moved from `from` to `to` and then, if the fee is
/// not zero, the fee from `from` to the minting account.
pub open spec fn transferred(
    m: Map<Seq<u8>, nat>,
    from: Seq<u8>,
    to: Seq<u8>,
    minting: Seq<u8>,
    v: nat,
    fee: nat,
) -> Map<Seq<u8>, nat> {
    if fee > 0 {
        moved(moved(m, from, to, v), from, minting, fee)
    } else {
        moved(m, from, to, v)
    }
}

/// The amounts in circulation: the sum of all balances but the minting
/// account's.
pub open spec fn circulating(m: Map<Seq<u8>, nat>, minting: Seq<u8>) -> nat {
    total(m.remove(minting))
}

/// The table that the first `i` grants leave, a later grant to an account
/// replacing an earlier one.
pub open spec fn granted(list: Seq<(Account, Amount)>, i: int) -> Map<Seq<u8>, nat>
    decreases i,
{
    if i <= 0 {
        Map::empty()
    } else {
        granted(list, i - 1).insert(list[i - 1].0@.key(), list[i - 1].1@)
    }
}

/// The sum of the first `i` grants.
pub open spec fn granted_sum(list: Seq<(Account, Amount)>, i: int) -> nat
    decreases i,
{
    if i <= 0 {
        0
    } else {
        granted_sum(list, i - 1) + list[i - 1].1@
    }
}

/// Every grant names an account and an amount in its shortest form.
pub open spec fn grants_wf(list: Seq<(Account, Amount)>) -> bool {
    forall|i: int| 0 <= i < list.len() ==> (#[trigger] list[i]).0.wf() && list[i].1.wf()
}

/// `m` without the keys of the first `i` listed entries.
pub open spec fn unlisted(m: Map<Seq<u8>, nat>, list: Seq<(Vec<u8>, Vec<u8>)>, i: int) -> Map<
    Seq<u8>,
    nat,
>
    decreases i,
{
    if i <= 0 {
        m
    } else {
        unlisted(m, list, i - 1).remove(key_at(list, i - 1))
    }
}

proof fn lemma_unlisted(m: Map<Seq<u8>, nat>, list: Seq<(Vec<u8>, Vec<u8>)>, i: int)
    requires
        m.dom().finite(),
        0 <= i <= list.len(),
    ensures
        unlisted(m, list, i).dom().finite(),
        forall|k: Seq<u8>| #[trigger]
            unlisted(m, list, i).dom().contains(k) <==> m.dom().contains(k) && forall|j: int|
                0 <= j < i ==> key_at(list, j) != k,
        forall|k: Seq<u8>| #[trigger]
            unlisted(m, list, i).dom().contains(k) ==> unlisted(m, list, i)[k] == m[k],
    decreases i,
{
    if i > 0 {
        lemma_unlisted(m, list, i - 1);
        let prev = unlisted(m, list, i - 1);
        let cur = unlisted(m, list, i);
        assert forall|k: Seq<u8>| #[trigger]
            cur.dom().contains(k) <==> m.dom().contains(k) && forall|j: int|
                0 <= j < i ==> key_at(list, j) != k by {
            if cur.dom().contains(k) {
                assert(prev.dom().contains(k));
                assert forall|j: int| 0 <= j < i implies key_at(list, j) != k by {
                    if j < i - 1 {
                    }
                }
            }
            if m.dom().contains(k) && (forall|j: int| 0 <= j < i ==> key_at(list, j) != k) {
                assert(key_at(list, i - 1) != k);
                assert(prev.dom().contains(k));
            }
        }
    }
}

impl View for Balance {
    type V = Map<Seq<u8>, nat>;

    /// The balance that the ledger holds under each account's stored bytes.
    closed spec fn view(&self) -> Map<Seq<u8>, nat> {
        Map::new(
            |k: Seq<u8>| table_entries(self.table).dom().contains(k),
            |k: Seq<u8>| balance_of_bytes(table_entries(self.table)[k]).unwrap(),
        )
    }
}

impl Balance {
    /// Every stored record is the stored form of a balance.
    pub closed spec fn stored(&self) -> bool {
        forall|k: Seq<u8>| #[trigger]
            table_entries(self.table).dom().contains(k) ==> balance_of_bytes(
                table_entries(self.table)[k],
            ).is_some()
    }

    /// The ledger holds finitely many records, each the stored form of a
    /// balance, and their sum is short enough to be stored as one balance.
    pub open spec fn wf(&self) -> bool {
        &&& self.stored()
        &&& self@.dom().finite()
        &&& be_len(total(self@)) < AccountBalance::MAX_SIZE
    }

    /// The account that holds what was not granted at the start.
    pub closed spec fn wallet(&self) -> AccountView {
        self.canister_account@
    }

    /// What the account holds: zero for one that the ledger has never seen.
    pub open spec fn balance(&self, account: AccountView) -> nat {
        amount_at(self@, account.key())
    }

    /// The amounts in circulation: the sum of all balances but the minting
    /// account's.
    pub open spec fn supply(&self, minting: AccountView) -> nat {
        circulating(self@, minting.key())
    }

    /// A ledger without records over an empty table. Its wallet is the
    /// anonymous identity until the balances are set up.
    pub fn new(table: Table) -> (r: Balance)
        requires
            table_entries(table) == no_entries(),
        ensures
            r.wf(),
            r@ == Map::<Seq<u8>, nat>::empty(),
    {
        let mut owner: Vec<u8> = Vec::new();
        owner.push(4u8);
        let r = Balance { table, canister_account: Account { owner, subaccount: None } };
        proof {
            assert(r@ =~= Map::<Seq<u8>, nat>::empty());
            lemma_total_empty(r@);
        }
        r
    }

    /// The account that holds what was not granted at the start.
    pub fn canister_account(&self) -> (r: Account)
        ensures
            r@ == self.wallet(),
    {
        self.canister_account.clone()
    }

    fn load(&self, key: &Vec<u8>) -> (r: Option<Amount>)
        requires
            self.wf(),
        ensures
            r.is_some() == self@.dom().contains(key@),
            r.is_some() ==> r.unwrap()@ == self@[key@] && r.unwrap().wf() && r.unwrap().size()
                < AccountBalance::MAX_SIZE,
    {
        match table_get(&self.table, key) {
            Some(bytes) => match AccountBalance::from_bytes(bytes.as_slice()) {
                Some(b) => {
                    proof {
                        lemma_amount_at_most_total(self@, key@);
                        lemma_be_len_monotone(b@, total(self@));
                    }
                    Some(b.amount)
                },
                None => None,
            },
            None => None,
        }
    }

    fn store(&mut self, key: Vec<u8>, amount: Amount)
        requires
            old(self).stored(),
            old(self)@.dom().finite(),
            amount.wf(),
            amount.size() < AccountBalance::MAX_SIZE,
        ensures
            final(self).stored(),
            final(self)@.dom().finite(),
            final(self)@ == old(self)@.insert(key@, amount@),
            final(self).wallet() == old(self).wallet(),
    {
        let record = AccountBalance::from(amount);
        let bytes = record.to_bytes();
        let _ = table_insert(&mut self.table, key, bytes);
        proof {
            assert(self@ =~= old(self)@.insert(key@, amount@));
        }
    }

    /// The balance under the key, after storing a zero record where there was
    /// none.
    fn materialize(&mut self, key: &Vec<u8>) -> (r: Amount)
        requires
            old(self).wf(),
        ensures
            final(self).wf(),
            final(self)@ == touched(old(self)@, key@),
            final(self).wallet() == old(self).wallet(),
            total(final(self)@) == total(old(self)@),
            r@ == amount_at(old(self)@, key@),
            r.wf(),
            r.size() < AccountBalance::MAX_SIZE,
    {
        proof {
            lemma_total_insert(self@, key@, amount_at(self@, key@));
        }
        match self.load(key) {
            Some(a) => {
                proof {
                    assert(self@ =~= touched(self@, key@));
                }
                a
            },
            None => {
                self.store(key.clone(), Amount::zero());
                Amount::zero()
            },
        }
    }

    /// Sets the balances up: every grant is stored in turn, and the wallet
    /// account gets what the grants leave of the total supply.
    pub fn init_balances(
        &mut self,
        canister_account: Account,
        total_supply: Amount,
        initial_balances: Vec<(Account, Amount)>,
    )
        requires
            old(self).wf(),
            old(self)@.dom().len() == 0,
            canister_account.wf(),
            total_supply.wf(),
            total_supply.size() < AccountBalance::MAX_SIZE,
            grants_wf(initial_balances@),
            granted_sum(initial_balances@, initial_balances@.len() as int) <= total_supply@,
        ensures
            final(self).wf(),
            final(self).wallet() == canister_account@,
            final(self)@ == granted(initial_balances@, initial_balances@.len() as int).insert(
                canister_account@.key(),
                (total_supply@ - granted_sum(initial_balances@, initial_balances@.len() as int)) as nat,
            ),
            total(final(self)@) <= total_supply@,
    {
        let ghost list = initial_balances@;
        let n: usize = initial_balances.len();
        proof {
            assert(self@ =~= granted(list, 0));
            lemma_total_empty(self@);
        }
        let mut sum = Amount::zero();
        let mut i: usize = 0;
        while i < n
            invariant
                0 <= i <= n,
                n == list.len(),
                list == initial_balances@,
                grants_wf(list),
                granted_sum(list, n as int) <= total_supply@,
                total_supply.wf(),
                total_supply.size() < AccountBalance::MAX_SIZE,
                self.stored(),
                self@.dom().finite(),
                self@ == granted(list, i as int),
                self.wallet() == old(self).wallet(),
                total(self@) <= granted_sum(list, i as int),
                sum.wf(),
                sum@ == granted_sum(list, i as int),
                granted_sum(list, i as int) <= granted_sum(list, n as int),
            decreases n - i,
        {
            proof {
                lemma_granted_sum_monotone(list, i as int + 1, n as int);
                lemma_total_insert(self@, list[i as int].0@.key(), list[i as int].1@);
                lemma_be_len_monotone(list[i as int].1@, total_supply@);
            }
            let key = initial_balances[i].0.key();
            let amount = initial_balances[i].1.clone();
            sum = sum.plus(&amount);
            self.store(key, amount);
            i = i + 1;
        }
        let rest = total_supply.minus(&sum);
        proof {
            lemma_total_insert(self@, canister_account@.key(), rest@);
            lemma_be_len_monotone(rest@, total_supply@);
        }
        let key = canister_account.key();
        self.store(key, rest);
        self.canister_account = canister_account;
        proof {
            lemma_be_len_monotone(total(self@), total_supply@);
        }
    }

    /// The amounts in circulation: the sum of every balance but the minting
    /// account's.
    pub fn total_supply(&self, minting_account: &Account) -> (r: Amount)
        requires
            self.wf(),
            minting_account.wf(),
        ensures
            r.wf(),
            r@ == self.supply(minting_account@),
    {
        let minting_key = minting_account.key();
        let list = table_list(&self.table);
        let ghost m = self@.remove(minting_key@);
        let mut supply = Amount::zero();
        let mut i: usize = 0;
        proof {
            lemma_unlisted(m, list@, 0);
        }
        while i < list.len()
            invariant
                0 <= i <= list.len(),
                self.wf(),
                lists_entries(list@, table_entries(self.table)),
                m == self@.remove(minting_key@),
                m.dom().finite(),
                supply.wf(),
                supply@ + total(unlisted(m, list@, i as int)) == total(m),
            decreases list.len() - i,
        {
            let ghost k = key_at(list@, i as int);
            proof {
                lemma_unlisted(m, list@, i as int);
                lemma_total_split(unlisted(m, list@, i as int), k);
                assert(table_entries(self.table).dom().contains(k));
                assert(self@.dom().contains(k));
            }
            if !same_bytes(list[i].0.as_slice(), minting_key.as_slice()) {
                match AccountBalance::from_bytes(list[i].1.as_slice()) {
                    Some(b) => {
                        proof {
                            assert(m.dom().contains(k));
                            assert(unlisted(m, list@, i as int).dom().contains(k));
                        }
                        supply = supply.plus(&b.amount);
                    },
                    None => {},
                }
            } else {
                proof {
                    assert(!m.dom().contains(k));
                    assert(!unlisted(m, list@, i as int).dom().contains(k));
                }
            }
            i = i + 1;
        }
        proof {
            let rest = unlisted(m, list@, list@.len() as int);
            lemma_unlisted(m, list@, list@.len() as int);
            assert forall|k: Seq<u8>| !rest.dom().contains(k) by {
                if m.dom().contains(k) {
                    assert(table_entries(self.table).dom().contains(k));
                    let j = choose|j: int| 0 <= j < list@.len() && key_at(list@, j) == k;
                    assert(key_at(list@, j) == k);
                }
            }
            assert(rest.dom() =~= Set::<Seq<u8>>::empty());
            lemma_total_empty(rest);
        }
        supply
    }

    /// What the account holds: zero for one that the ledger has never seen.
    /// Asking stores nothing.
    pub fn balance_of(&self, account: &Account) -> (r: Amount)
        requires
            self.wf(),
            account.wf(),
        ensures
            r.wf(),
            r@ == self.balance(account@),
    {
        let key = account.key();
        match self.load(&key) {
            Some(a) => a,
            None => Amount::zero(),
        }
    }

    /// Moves `value` from `from` to `to` and then the fee from `from` to the
    /// minting account, or nothing at all where `from` holds less than both
    /// together.
    pub fn transfer(
        &mut self,
        from: &Account,
        to: &Account,
        value: &Amount,
        fee: &Amount,
        minting_account: &Account,
    ) -> (r: CanisterResult<()>)
        requires
            old(self).wf(),
            from.wf(),
            to.wf(),
            minting_account.wf(),
            value.wf(),
            fee.wf(),
        ensures
            final(self).wf(),
            final(self).wallet() == old(self).wallet(),
            total(final(self)@) == total(old(self)@),
            old(self).balance(from@) < value@ + fee@ ==> r == Err::<(), CanisterError>(
                CanisterError::Balance(BalanceError::InsufficientBalance),
            ) && final(self)@ == old(self)@,
            old(self).balance(from@) >= value@ + fee@ ==> r == Ok::<(), CanisterError>(())
                && final(self)@ == transferred(
                old(self)@,
                from@.key(),
                to@.key(),
                minting_account@.key(),
                value@,
                fee@,
            ),
    {
        let to_spend = value.plus(fee);
        if self.balance_of(from).less_than(&to_spend) {
            return Err(CanisterError::Balance(BalanceError::InsufficientBalance));
        }
        let first = self.transfer_wno_fees(from, to, value);
        if fee.is_zero() {
            first
        } else {
            self.transfer_wno_fees(from, minting_account, fee)
        }
    }

    /// Moves `value` from `from` to `to` with no fee. Both accounts get a
    /// record if they had none; where `from` holds too little, nothing else
    /// changes.
    pub fn transfer_wno_fees(&mut self, from: &Account, to: &Account, value: &Amount) -> (r:
        CanisterResult<()>)
        requires
            old(self).wf(),
            from.wf(),
            to.wf(),
            value.wf(),
        ensures
            final(self).wf(),
            final(self).wallet() == old(self).wallet(),
            total(final(self)@) == total(old(self)@),
            old(self).balance(from@) < value@ ==> r == Err::<(), CanisterError>(
                CanisterError::Balance(BalanceError::InsufficientBalance),
            ) && final(self)@ == touched(old(self)@, from@.key()),
            old(self).balance(from@) >= value@ ==> r == Ok::<(), CanisterError>(())
                && final(self)@ == moved(old(self)@, from@.key(), to@.key(), value@),
    {
        let from_key = from.key();
        let held = self.materialize(&from_key);
        if held.less_than(value) {
            return Err(CanisterError::Balance(BalanceError::InsufficientBalance));
        }
        let left = held.minus(value);
        proof {
            lemma_total_insert(self@, from_key@, left@);
            lemma_be_len_monotone(left@, held@);
            lemma_be_len_monotone(total(self@.insert(from_key@, left@)), total(self@));
        }
        self.store(from_key, left);
        proof {
            assert(self@ =~= debited(old(self)@, from@.key(), value@));
        }
        let to_key = to.key();
        let had = self.materialize(&to_key);
        let sum = had.plus(value);
        proof {
            lemma_total_insert(self@, to_key@, sum@);
            lemma_amount_at_most_total(self@, to_key@);
            lemma_be_len_monotone(sum@, total(old(self)@));
        }
        self.store(to_key, sum);
        proof {
            assert(self@ =~= moved(old(self)@, from@.key(), to@.key(), value@));
        }
        Ok(())
    }
}

/// The sum of the first grants is at most the sum of more of them.
pub proof fn lemma_granted_sum_monotone(list: Seq<(Account, Amount)>, i: int, n: int)
    requires
        0 <= i <= n,
    ensures
        granted_sum(list, i) <= granted_sum(list, n),
    decreases n - i,
{
    if i < n {
        lemma_granted_sum_monotone(list, i, n - 1);
    }
}

} // verus!
