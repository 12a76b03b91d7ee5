//! What transfers keep: the sum of all balances, and the books of the fees.

use crate::account::{lemma_key_injective, AccountView};
use crate::balance::{circulating, debited, moved, touched, transferred};
use crate::supply::{amount_at, lemma_total_insert, lemma_total_split, total};
use vstd::prelude::*;

verus! {

/// Moving an amount that the source holds keeps the sum of all balances.
pub proof fn lemma_moved_keeps_total(m: Map<Seq<u8>, nat>, from: Seq<u8>, to: Seq<u8>, v: nat)
    requires
        m.dom().finite(),
        amount_at(m, from) >= v,
    ensures
        moved(m, from, to, v).dom().finite(),
        total(moved(m, from, to, v)) == total(m),
{
    lemma_total_insert(m, from, (amount_at(m, from) - v) as nat);
    lemma_total_insert(debited(m, from, v), to, amount_at(debited(m, from, v), to) + v);
}

/// A transfer between two accounts, neither of them the minting account, with
/// a fee: the source loses the amount and the fee, the destination gains the
/// amount, the minting account gains the fee, every other balance stays, and
/// so does the sum of all balances.
pub proof fn lemma_transfer_effect(
    m: Map<Seq<u8>, nat>,
    from: Seq<u8>,
    to: Seq<u8>,
    minting: Seq<u8>,
    v: nat,
    fee: nat,
)
    requires
        m.dom().finite(),
        amount_at(m, from) >= v + fee,
        from != to,
        from != minting,
        to != minting,
    ensures
        amount_at(transferred(m, from, to, minting, v, fee), from) == amount_at(m, from) - v - fee,
        amount_at(transferred(m, from, to, minting, v, fee), to) == amount_at(m, to) + v,
        amount_at(transferred(m, from, to, minting, v, fee), minting) == amount_at(m, minting)
            + fee,
        forall|k: Seq<u8>|
            k != from && k != to && k != minting ==> amount_at(
                transferred(m, from, to, minting, v, fee),
                k,
            ) == #[trigger] amount_at(m, k),
        total(transferred(m, from, to, minting, v, fee)) == total(m),
        circulating(transferred(m, from, to, minting, v, fee), minting) + fee == circulating(
            m,
            minting,
        ),
{
    let r = transferred(m, from, to, minting, v, fee);
    lemma_moved_keeps_total(m, from, to, v);
    if fee > 0 {
        lemma_moved_keeps_total(moved(m, from, to, v), from, minting, fee);
    }
    lemma_total_split(m, minting);
    lemma_total_split(r, minting);
}

/// The same of accounts: a transfer between two different accounts, neither
/// of them the minting account, takes the amount and the fee from the source,
/// gives the amount to the destination and the fee to the minting account,
/// and leaves every other account's balance as it was.
pub proof fn lemma_transfer_between_accounts(
    m: Map<Seq<u8>, nat>,
    from: AccountView,
    to: AccountView,
    minting: AccountView,
    v: nat,
    fee: nat,
)
    requires
        m.dom().finite(),
        from.wf(),
        to.wf(),
        minting.wf(),
        amount_at(m, from.key()) >= v + fee,
        from != to,
        from != minting,
        to != minting,
    ensures
        amount_at(transferred(m, from.key(), to.key(), minting.key(), v, fee), from.key())
            == amount_at(m, from.key()) - v - fee,
        amount_at(transferred(m, from.key(), to.key(), minting.key(), v, fee), to.key())
            == amount_at(m, to.key()) + v,
        amount_at(transferred(m, from.key(), to.key(), minting.key(), v, fee), minting.key())
            == amount_at(m, minting.key()) + fee,
        forall|other: AccountView|
            other.wf() && other != from && other != to && other != minting ==> amount_at(
                transferred(m, from.key(), to.key(), minting.key(), v, fee),
                #[trigger] other.key(),
            ) == amount_at(m, other.key()),
        total(transferred(m, from.key(), to.key(), minting.key(), v, fee)) == total(m),
{
    if from.key() == to.key() {
        lemma_key_injective(from, to);
    }
    if from.key() == minting.key() {
        lemma_key_injective(from, minting);
    }
    if to.key() == minting.key() {
        lemma_key_injective(to, minting);
    }
    lemma_transfer_effect(m, from.key(), to.key(), minting.key(), v, fee);
    assert forall|other: AccountView|
        other.wf() && other != from && other != to && other != minting implies amount_at(
        transferred(m, from.key(), to.key(), minting.key(), v, fee),
        #[trigger] other.key(),
    ) == amount_at(m, other.key()) by {
        if other.key() == from.key() {
            lemma_key_injective(other, from);
        }
        if other.key() == to.key() {
            lemma_key_injective(other, to);
        }
        if other.key() == minting.key() {
            lemma_key_injective(other, minting);
        }
    }
}

/// A transfer with itself as destination changes no balance but by the fee.
pub proof fn lemma_transfer_to_self(
    m: Map<Seq<u8>, nat>,
    from: Seq<u8>,
    minting: Seq<u8>,
    v: nat,
    fee: nat,
)
    requires
        m.dom().finite(),
        amount_at(m, from) >= v + fee,
        from != minting,
    ensures
        amount_at(transferred(m, from, from, minting, v, fee), from) == amount_at(m, from) - fee,
        amount_at(transferred(m, from, from, minting, v, fee), minting) == amount_at(m, minting)
            + fee,
{
}

/// A burn, a move to the minting account, takes the amount out of
/// circulation: the sum of all balances stays and the circulating part
/// shrinks by the amount.
pub proof fn lemma_burn_effect(m: Map<Seq<u8>, nat>, from: Seq<u8>, minting: Seq<u8>, v: nat)
    requires
        m.dom().finite(),
        amount_at(m, from) >= v,
        from != minting,
    ensures
        total(moved(m, from, minting, v)) == total(m),
        circulating(moved(m, from, minting, v), minting) + v == circulating(m, minting),
        amount_at(moved(m, from, minting, v), from) == amount_at(m, from) - v,
{
    lemma_moved_keeps_total(m, from, minting, v);
    lemma_total_split(m, minting);
    lemma_total_split(moved(m, from, minting, v), minting);
}

/// One request of a run: a transfer, with who pays, who receives, how much
/// and the fee; or an approval, with who pays the fee.
pub ghost enum Step {
    Transfer { from: Seq<u8>, to: Seq<u8>, value: nat, fee: nat },
    Approval { from: Seq<u8>, fee: nat },
}

impl Step {
    /// The account that pays.
    pub open spec fn payer(self) -> Seq<u8> {
        match self {
            Step::Transfer { from, .. } => from,
            Step::Approval { from, .. } => from,
        }
    }

    /// What the payer has to hold.
    pub open spec fn cost(self) -> nat {
        match self {
            Step::Transfer { value, fee, .. } => value + fee,
            Step::Approval { fee, .. } => fee,
        }
    }

    /// The fee that goes to the minting account.
    pub open spec fn fee(self) -> nat {
        match self {
            Step::Transfer { fee, .. } => fee,
            Step::Approval { fee, .. } => fee,
        }
    }

    /// The step neither takes from the minting account nor gives to it but
    /// for the fee.
    pub open spec fn spares(self, minting: Seq<u8>) -> bool {
        match self {
            Step::Transfer { from, to, .. } => from != minting && to != minting,
            Step::Approval { from, .. } => from != minting,
        }
    }
}

/// Whether the payer can pay for the step.
pub open spec fn step_pays(m: Map<Seq<u8>, nat>, s: Step) -> bool {
    amount_at(m, s.payer()) >= s.cost()
}

/// The table after one step. A transfer that is paid for moves the amount and
/// the fee, and one that is not changes nothing. An approval that is paid for
/// moves the fee to the minting account, and one that is not leaves the payer
/// with a record and changes no balance.
pub open spec fn step(m: Map<Seq<u8>, nat>, s: Step, minting: Seq<u8>) -> Map<Seq<u8>, nat> {
    match s {
        Step::Transfer { from, to, value, fee } => if step_pays(m, s) {
            transferred(m, from, to, minting, value, fee)
        } else {
            m
        },
        Step::Approval { from, fee } => if step_pays(m, s) {
            moved(m, from, minting, fee)
        } else {
            touched(m, from)
        },
    }
}

/// The table after the steps, taken in turn.
pub open spec fn run(m: Map<Seq<u8>, nat>, steps: Seq<Step>, minting: Seq<u8>) -> Map<Seq<u8>, nat>
    decreases steps.len(),
{
    if steps.len() == 0 {
        m
    } else {
        step(run(m, steps.drop_last(), minting), steps.last(), minting)
    }
}

/// The fees of the steps that were paid for.
pub open spec fn fees_charged(m: Map<Seq<u8>, nat>, steps: Seq<Step>, minting: Seq<u8>) -> nat
    decreases steps.len(),
{
    if steps.len() == 0 {
        0
    } else {
        fees_charged(m, steps.drop_last(), minting) + if step_pays(
            run(m, steps.drop_last(), minting),
            steps.last(),
        ) {
            steps.last().fee()
        } else {
            0
        }
    }
}

/// No step takes from the minting account or gives to it but for the fee.
pub open spec fn no_burns(steps: Seq<Step>, minting: Seq<u8>) -> bool {
    forall|i: int| 0 <= i < steps.len() ==> (#[trigger] steps[i]).spares(minting)
}

/// One step keeps the sum of all balances and gives the minting account the
/// fee, if the step is paid for, and nothing else.
pub proof fn lemma_step_conserves(m: Map<Seq<u8>, nat>, s: Step, minting: Seq<u8>)
    requires
        m.dom().finite(),
        s.spares(minting),
    ensures
        step(m, s, minting).dom().finite(),
        total(step(m, s, minting)) == total(m),
        amount_at(step(m, s, minting), minting) == amount_at(m, minting) + if step_pays(m, s) {
            s.fee()
        } else {
            0
        },
{
    match s {
        Step::Transfer { from, to, value, fee } => {
            if step_pays(m, s) {
                lemma_moved_keeps_total(m, from, to, value);
                if fee > 0 {
                    lemma_moved_keeps_total(moved(m, from, to, value), from, minting, fee);
                }
            }
        },
        Step::Approval { from, fee } => {
            if step_pays(m, s) {
                lemma_moved_keeps_total(m, from, minting, fee);
            } else {
                lemma_total_insert(m, from, amount_at(m, from));
            }
        },
    }
}

/// Whatever transfers and approvals are made, none of them a burn or paid by
/// the minting account, the sum of all balances stays, the minting account
/// gains exactly the fees that were charged, and the circulating supply
/// shrinks by exactly those fees.
pub proof fn lemma_run_conserves(m: Map<Seq<u8>, nat>, steps: Seq<Step>, minting: Seq<u8>)
    requires
        m.dom().finite(),
        no_burns(steps, minting),
    ensures
        run(m, steps, minting).dom().finite(),
        total(run(m, steps, minting)) == total(m),
        amount_at(run(m, steps, minting), minting) == amount_at(m, minting) + fees_charged(
            m,
            steps,
            minting,
        ),
        circulating(run(m, steps, minting), minting) + fees_charged(m, steps, minting)
            == circulating(m, minting),
    decreases steps.len(),
{
    if steps.len() > 0 {
        let before = steps.drop_last();
        assert(no_burns(before, minting)) by {
            assert forall|i: int| 0 <= i < before.len() implies (#[trigger] before[i]).spares(
                minting,
            ) by {
                assert(before[i] == steps[i]);
            }
        }
        lemma_run_conserves(m, before, minting);
        assert(steps.last() == steps[steps.len() - 1]);
        lemma_step_conserves(run(m, before, minting), steps.last(), minting);
    }
    lemma_total_split(m, minting);
    lemma_total_split(run(m, steps, minting), minting);
}

} // verus!
