//! The allowance store: what each spender may still move out of each owner's
//! account.

use crate::account::{Account, AccountView};
use crate::amount::{lemma_be_len_monotone, Amount};
use crate::codec::same_bytes;
use crate::errors::{AllowanceError, CanisterError, CanisterResult};
use crate::key::{allowance_key, AllowanceKey};
use crate::requests::{copy_bytes, subaccount_view, ApproveArgs};
use crate::spend::{record_size, request_record, spend_of_bytes, Spend, SpendView};
use crate::table::{
    key_at, lists_entries, no_entries, table_entries, table_get, table_insert, table_len,
    table_list, table_remove, Table,
};
use vstd::prelude::*;

verus! {

/// The store of allowances, one record for each pair of owner and spender
/// that has one.
pub struct SpendAllowance {
    table: Table,
}

/// The record that an approval leaves: the request's terms, with the amount
/// added to what a record already there allows. Nothing where the request
/// expects another amount than the record allows, or expects one where there
/// is no record.
pub open spec fn approved_record(existing: Option<SpendView>, request: SpendView) -> Option<
    SpendView,
> {
    match existing {
        Some(e) => if request.expected_allowance.is_some() && request.expected_allowance.unwrap()
            != e.amount {
            None
        } else {
            Some(SpendView { amount: request.amount + e.amount, ..request })
        },
        None => if request.expected_allowance.is_some() {
            None
        } else {
            Some(request)
        },
    }
}

/// The record under `k`, if `m` holds one.
pub open spec fn record_at(m: Map<Seq<u8>, SpendView>, k: Seq<u8>) -> Option<SpendView> {
    if m.dom().contains(k) {
        Some(m[k])
    } else {
        None
    }
}

/// The account of the caller with the given subaccount.
pub open spec fn account_of(owner: Seq<u8>, subaccount: Option<Vec<u8>>) -> AccountView {
    AccountView { owner, subaccount: subaccount_view(subaccount) }
}

/// What an approval comes to: the record that is stored, or why none is.
pub open spec fn approve_outcome(
    m: Map<Seq<u8>, SpendView>,
    caller: Seq<u8>,
    a: ApproveArgs,
    now: u64,
) -> Result<SpendView, CanisterError> {
    let key = allowance_key(account_of(caller, a.from_subaccount), a.spender@);
    if a.spender@.owner == caller {
        Err(CanisterError::Allowance(AllowanceError::BadSpender))
    } else if a.expires_at.is_some() && a.expires_at.unwrap() < now {
        Err(CanisterError::Allowance(AllowanceError::BadExpiration))
    } else {
        match approved_record(record_at(m, key), request_record(a, now)) {
            None => Err(CanisterError::Allowance(AllowanceError::AllowanceChanged)),
            Some(rec) => if record_size(rec) > Spend::MAX_SIZE {
                Err(CanisterError::StorageError)
            } else {
                Ok(rec)
            },
        }
    }
}

/// What spending comes to: the record that is left, or why nothing is spent.
/// An expired record allows nothing, whatever its amount.
pub open spec fn spend_outcome(existing: Option<SpendView>, amount: nat, now: u64) -> Result<
    SpendView,
    CanisterError,
> {
    match existing {
        None => Err(CanisterError::Allowance(AllowanceError::AllowanceNotFound)),
        Some(e) => if e.expires_at.is_some() && e.expires_at.unwrap() < now {
            Err(CanisterError::Allowance(AllowanceError::AllowanceExpired))
        } else if e.amount < amount {
            Err(CanisterError::Allowance(AllowanceError::InsufficientFunds))
        } else {
            Ok(SpendView { amount: (e.amount - amount) as nat, ..e })
        },
    }
}

/// A record is dead once its expiry has passed or nothing is left of it.
pub open spec fn dead(v: SpendView, now: u64) -> bool {
    (v.expires_at.is_some() && v.expires_at.unwrap() < now) || v.amount == 0
}

/// The store without its dead records.
pub open spec fn swept(m: Map<Seq<u8>, SpendView>, now: u64) -> Map<Seq<u8>, SpendView> {
    Map::new(|k: Seq<u8>| m.dom().contains(k) && !dead(m[k], now), |k: Seq<u8>| m[k])
}

/// The store without the dead records among the first `i` listed entries.
pub open spec fn swept_listed(
    m: Map<Seq<u8>, SpendView>,
    list: Seq<(Vec<u8>, Vec<u8>)>,
    i: int,
    now: u64,
) -> Map<Seq<u8>, SpendView>
    decreases i,
{
    if i <= 0 {
        m
    } else if dead(m[key_at(list, i - 1)], now) {
        swept_listed(m, list, i - 1, now).remove(key_at(list, i - 1))
    } else {
        swept_listed(m, list, i - 1, now)
    }
}

proof fn lemma_swept_listed(
    m: Map<Seq<u8>, SpendView>,
    list: Seq<(Vec<u8>, Vec<u8>)>,
    i: int,
    now: u64,
)
    requires
        m.dom().finite(),
        0 <= i <= list.len(),
    ensures
        swept_listed(m, list, i, now).dom().finite(),
        forall|k: Seq<u8>| #[trigger]
            swept_listed(m, list, i, now).dom().contains(k) <==> m.dom().contains(k) && forall|
                j: int,
            |
                0 <= j < i && key_at(list, j) == k ==> !dead(m[k], now),
        forall|k: Seq<u8>| #[trigger]
            swept_listed(m, list, i, now).dom().contains(k) ==> swept_listed(m, list, i, now)[k]
                == m[k],
    decreases i,
{
    if i > 0 {
        lemma_swept_listed(m, list, i - 1, now);
        let prev = swept_listed(m, list, i - 1, now);
        let cur = swept_listed(m, list, i, now);
        assert forall|k: Seq<u8>| #[trigger]
            cur.dom().contains(k) <==> m.dom().contains(k) && forall|j: int|
                0 <= j < i && key_at(list, j) == k ==> !dead(m[k], now) by {
            if cur.dom().contains(k) {
                assert(prev.dom().contains(k));
                assert forall|j: int| 0 <= j < i && key_at(list, j) == k implies !dead(
                    m[k],
                    now,
                ) by {
                    if j < i - 1 {
                    }
                }
            }
            if m.dom().contains(k) && (forall|j: int|
                0 <= j < i && key_at(list, j) == k ==> !dead(m[k], now)) {
                assert(prev.dom().contains(k));
                if key_at(list, i - 1) == k {
                    assert(!dead(m[k], now));
                }
            }
        }
    }
}

impl View for SpendAllowance {
    type V = Map<Seq<u8>, SpendView>;

    /// The record that the store holds under each key's stored bytes.
    closed spec fn view(&self) -> Map<Seq<u8>, SpendView> {
        Map::new(
            |k: Seq<u8>| table_entries(self.table).dom().contains(k),
            |k: Seq<u8>| spend_of_bytes(table_entries(self.table)[k]).unwrap().value(),
        )
    }
}

impl SpendAllowance {
    /// Every stored record is the stored form of an allowance that fits.
    pub closed spec fn stored(&self) -> bool {
        forall|k: Seq<u8>| #[trigger]
            table_entries(self.table).dom().contains(k) ==> spend_of_bytes(
                table_entries(self.table)[k],
            ).is_some() && record_size(
                spend_of_bytes(table_entries(self.table)[k]).unwrap().value(),
            ) <= Spend::MAX_SIZE
    }

    /// The store holds finitely many records, each the stored form of an
    /// allowance.
    pub open spec fn wf(&self) -> bool {
        self.stored() && self@.dom().finite()
    }

    /// What the spender may still move out of the owner's account, and until
    /// when: nothing, with no expiry, where the store holds no record.
    pub open spec fn allowance(&self, owner: AccountView, spender: AccountView) -> (nat, Option<u64>) {
        match record_at(self@, allowance_key(owner, spender)) {
            Some(v) => (v.amount, v.expires_at),
            None => (0, None),
        }
    }

    /// A store without records over an empty table.
    pub fn new(table: Table) -> (r: SpendAllowance)
        requires
            table_entries(table) == no_entries(),
        ensures
            r.wf(),
            r@ == Map::<Seq<u8>, SpendView>::empty(),
    {
        let r = SpendAllowance { table };
        proof {
            assert(r@ =~= Map::<Seq<u8>, SpendView>::empty());
        }
        r
    }

    /// The number of records in the store.
    pub fn len(&self) -> (r: u64)
        ensures
            r == self@.dom().len(),
    {
        proof {
            assert(self@.dom() =~= table_entries(self.table).dom());
        }
        table_len(&self.table)
    }

    fn load(&self, key: &Vec<u8>) -> (r: Option<Spend>)
        requires
            self.wf(),
        ensures
            r.is_some() == self@.dom().contains(key@),
            r.is_some() ==> r.unwrap()@ == self@[key@] && r.unwrap().wf() && r.unwrap().fits(),
    {
        match table_get(&self.table, key) {
            Some(bytes) => match Spend::from_bytes(bytes.as_slice()) {
                Some(s) => {
                    proof {
                        s.lemma_size();
                    }
                    Some(s)
                },
                None => None,
            },
            None => None,
        }
    }

    fn store(&mut self, key: Vec<u8>, record: Spend)
        requires
            old(self).wf(),
            record.wf(),
            record.fits(),
        ensures
            final(self).wf(),
            final(self)@ == old(self)@.insert(key@, record@),
    {
        proof {
            record.lemma_size();
        }
        let bytes = record.to_bytes();
        let _ = table_insert(&mut self.table, key, bytes);
        proof {
            assert(self@ =~= old(self)@.insert(key@, record@));
        }
    }

    /// Grants the spender an allowance out of the caller's account. The
    /// amount is added to what the spender may already spend, and the other
    /// terms replace the earlier ones. Returns what the spender may spend
    /// afterwards.
    pub fn approve_spend(&mut self, caller: &Vec<u8>, approve: ApproveArgs, now: u64) -> (r:
        CanisterResult<Amount>)
        requires
            old(self).wf(),
            caller@.len() <= 29,
            approve.wf(),
        ensures
            final(self).wf(),
            match approve_outcome(old(self)@, caller@, approve, now) {
                Ok(rec) => r.is_ok() && r.unwrap()@ == rec.amount && r.unwrap().wf() && final(self)@
                    == old(self)@.insert(
                    allowance_key(account_of(caller@, approve.from_subaccount), approve.spender@),
                    rec,
                ),
                Err(e) => r == Err::<Amount, CanisterError>(e) && final(self)@ == old(self)@,
            },
    {
        if same_bytes(approve.spender.owner.as_slice(), caller.as_slice()) {
            return Err(CanisterError::Allowance(AllowanceError::BadSpender));
        }
        match approve.expires_at {
            Some(exp) => {
                if exp < now {
                    return Err(CanisterError::Allowance(AllowanceError::BadExpiration));
                }
            },
            None => {},
        }
        let owner = Account {
            owner: caller.clone(),
            subaccount: copy_bytes(&approve.from_subaccount),
        };
        let key = AllowanceKey::new(owner, approve.spender.clone());
        let key_bytes = key.to_bytes();
        let ghost request = request_record(approve, now);
        let mut spend = Spend::from(approve, now);
        let empty_memo = match &spend.memo {
            Some(m) => m.len() == 0,
            None => false,
        };
        if empty_memo {
            spend.memo = None;
        }
        assert(spend@ == request);
        match self.load(&key_bytes) {
            Some(existing) => {
                let changed = match &spend.expected_allowance {
                    Some(e) => !existing.amount.same(e),
                    None => false,
                };
                if changed {
                    return Err(CanisterError::Allowance(AllowanceError::AllowanceChanged));
                }
                spend.amount = spend.amount.plus(&existing.amount);
            },
            None => {
                if spend.expected_allowance.is_some() {
                    return Err(CanisterError::Allowance(AllowanceError::AllowanceChanged));
                }
            },
        }
        proof {
            spend.lemma_size();
        }
        if !spend.check_fits() {
            return Err(CanisterError::StorageError);
        }
        let amount = spend.amount.clone();
        self.store(key_bytes, spend);
        Ok(amount)
    }

    /// Takes `amount` out of what the caller, as spender, may move out of
    /// `from`. The record stays, also when nothing is left of it.
    pub fn spend_allowance(
        &mut self,
        caller: &Vec<u8>,
        from: &Account,
        amount: &Amount,
        spender_subaccount: Option<Vec<u8>>,
        now: u64,
    ) -> (r: CanisterResult<()>)
        requires
            old(self).wf(),
            caller@.len() <= 29,
            from.wf(),
            amount.wf(),
            spender_subaccount matches Some(s) ==> s@.len() == 32,
        ensures
            final(self).wf(),
            match spend_outcome(
                record_at(
                    old(self)@,
                    allowance_key(from@, account_of(caller@, spender_subaccount)),
                ),
                amount@,
                now,
            ) {
                Ok(rec) => r == Ok::<(), CanisterError>(()) && final(self)@ == old(self)@.insert(
                    allowance_key(from@, account_of(caller@, spender_subaccount)),
                    rec,
                ),
                Err(e) => r == Err::<(), CanisterError>(e) && final(self)@ == old(self)@,
            },
    {
        let spender = Account { owner: caller.clone(), subaccount: spender_subaccount };
        let key = AllowanceKey::new(from.clone(), spender);
        let key_bytes = key.to_bytes();
        let mut spend = match self.load(&key_bytes) {
            Some(s) => s,
            None => {
                return Err(CanisterError::Allowance(AllowanceError::AllowanceNotFound));
            },
        };
        let expired = match spend.expires_at {
            Some(exp) => exp < now,
            None => false,
        };
        if expired {
            return Err(CanisterError::Allowance(AllowanceError::AllowanceExpired));
        }
        if spend.amount.less_than(amount) {
            return Err(CanisterError::Allowance(AllowanceError::InsufficientFunds));
        }
        proof {
            spend.lemma_size();
            lemma_be_len_monotone((spend.amount@ - amount@) as nat, spend.amount@);
        }
        spend.amount = spend.amount.minus(amount);
        proof {
            spend.lemma_size();
        }
        self.store(key_bytes, spend);
        Ok(())
    }

    /// What the spender may still move out of the owner's account, and until
    /// when: nothing, with no expiry, where the store holds no record.
    pub fn get_allowance(&self, owner: &Account, spender: &Account) -> (r: (Amount, Option<u64>))
        requires
            self.wf(),
            owner.wf(),
            spender.wf(),
        ensures
            r.0.wf(),
            (r.0@, r.1) == self.allowance(owner@, spender@),
    {
        let key = AllowanceKey::new(owner.clone(), spender.clone());
        let key_bytes = key.to_bytes();
        match self.load(&key_bytes) {
            Some(s) => (s.amount, s.expires_at),
            None => (Amount::zero(), None),
        }
    }

    /// Removes every record whose expiry has passed or of which nothing is
    /// left; every other record stays as it is.
    pub fn remove_expired_allowance(&mut self, now: u64)
        requires
            old(self).wf(),
        ensures
            final(self).wf(),
            final(self)@ == swept(old(self)@, now),
    {
        let list = table_list(&self.table);
        let ghost m = self@;
        let mut i: usize = 0;
        proof {
            lemma_swept_listed(m, list@, 0, now);
            assert(self@ =~= swept_listed(m, list@, 0, now));
        }
        while i < list.len()
            invariant
                0 <= i <= list.len(),
                m == old(self)@,
                old(self).wf(),
                lists_entries(list@, table_entries(old(self).table)),
                self.wf(),
                self@ == swept_listed(m, list@, i as int, now),
            decreases list.len() - i,
        {
            let ghost k = key_at(list@, i as int);
            proof {
                assert(table_entries(old(self).table).dom().contains(k));
                assert(m.dom().contains(k));
            }
            match Spend::from_bytes(list[i].1.as_slice()) {
                Some(s) => {
                    let expired = match s.expires_at {
                        Some(exp) => exp < now,
                        None => false,
                    };
                    if expired || s.amount.is_zero() {
                        let ghost before = self@;
                        let _ = table_remove(&mut self.table, &list[i].0);
                        proof {
                            assert(self@ =~= before.remove(k));
                        }
                    }
                },
                None => {},
            }
            i = i + 1;
        }
        proof {
            lemma_swept_listed(m, list@, list@.len() as int, now);
            let done = swept_listed(m, list@, list@.len() as int, now);
            assert forall|k: Seq<u8>| done.dom().contains(k) <==> swept(m, now).dom().contains(
                k,
            ) by {
                if m.dom().contains(k) {
                    assert(table_entries(old(self).table).dom().contains(k));
                    let j = choose|j: int| 0 <= j < list@.len() && key_at(list@, j) == k;
                    assert(key_at(list@, j) == k);
                }
            }
            assert(done =~= swept(m, now));
        }
    }
}

/// Two approvals in a row that expect no particular allowance add up.
pub proof fn lemma_approvals_accumulate(first: SpendView, second: SpendView)
    requires
        first.expected_allowance.is_none(),
        second.expected_allowance.is_none(),
    ensures
        approved_record(None, first) == Some(first),
        approved_record(approved_record(None, first), second).is_some(),
        approved_record(approved_record(None, first), second).unwrap().amount == first.amount
            + second.amount,
{
}

/// An approval that expects another amount than the record allows leaves no
/// new record, and one that expects the right amount adds to it.
pub proof fn lemma_approval_expectation(existing: SpendView, request: SpendView)
    requires
        request.expected_allowance.is_some(),
    ensures
        request.expected_allowance.unwrap() != existing.amount ==> approved_record(
            Some(existing),
            request,
        ).is_none(),
        request.expected_allowance.unwrap() == existing.amount ==> approved_record(
            Some(existing),
            request,
        ).is_some() && approved_record(Some(existing), request).unwrap().amount
            == existing.amount + request.amount,
        approved_record(None, request).is_none(),
{
}

/// Spending takes exactly the amount off a live record that allows it, and
/// nothing can be spent from an expired record or beyond what is left.
pub proof fn lemma_spend_effect(existing: SpendView, amount: nat, now: u64)
    ensures
        (existing.expires_at.is_some() && existing.expires_at.unwrap() < now) ==> spend_outcome(
            Some(existing),
            amount,
            now,
        ).is_err(),
        existing.amount < amount ==> spend_outcome(Some(existing), amount, now).is_err(),
        spend_outcome(Some(existing), amount, now).is_ok() ==> spend_outcome(
            Some(existing),
            amount,
            now,
        ).unwrap().amount + amount == existing.amount,
{
}

/// After a sweep no dead record is left and every live record is as it was.
pub proof fn lemma_swept_effect(m: Map<Seq<u8>, SpendView>, now: u64, k: Seq<u8>)
    requires
        m.dom().contains(k),
    ensures
        dead(m[k], now) ==> !swept(m, now).dom().contains(k),
        !dead(m[k], now) ==> swept(m, now).dom().contains(k) && swept(m, now)[k] == m[k],
{
}

} // verus!
