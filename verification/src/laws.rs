//! The ledger's cross-command laws, proved once and for all from the
//! command contracts in `contract`: a freshly created rally starts empty and
//! active, and over any chain of successful fundings of one rally the raised
//! total grows by exactly the sum of the accepted amounts.

use vstd::prelude::*;
use crate::contract::{create_rally_ok, fund_ok, withdraw_ok};
use crate::state::{records_total, Coin, Denom, Store, TransferInstruction};

verus! {

/// The sum of a sequence of amounts.
pub open spec fn sum_of(amounts: Seq<u128>) -> int
    decreases amounts.len(),
{
    if amounts.len() == 0 {
        0
    } else {
        amounts[0] + sum_of(amounts.skip(1))
    }
}

/// Law: immediately after a valid creation the new rally has nothing
/// raised, is active, and carries empty contribution and feedback tables.
pub proof fn lemma_created_rally_fresh(
    pre: Store,
    post: Store,
    sender: String,
    title: String,
    description: String,
    goal: u128,
    deadline: u64,
    token_denom: Denom,
    now: u64,
    id: u64,
)
    requires
        pre.wf(),
        create_rally_ok(pre, post, sender, title, description, goal, deadline, token_denom, now, id),
    ensures
        post.has_rally(id),
        post.spec_rally(id).raised == 0,
        post.spec_rally(id).is_active,
        post.spec_rally_total(id) == 0,
        post.spec_feedback_count(id) == 0,
{
    assert(post.rallies@[id - 1] == pre.rallies@.push(post.spec_rally(id))[id - 1]);
    assert(post.contributions_view().len() == id);
    assert(post.contributions@.len() == id);
    assert(post.feedbacks_view().len() == id);
    assert(post.feedbacks@.len() == id);
    assert(post.contributions_view()[id - 1] =~= Seq::<crate::state::ContributionRecord>::empty());
    assert(records_total(Seq::<crate::state::ContributionRecord>::empty()) == 0);
    assert(post.contributions@[id - 1]@ == post.contributions_view()[id - 1]);
    assert(post.feedbacks@[id - 1]@ == post.feedbacks_view()[id - 1]);
}

/// One successful funding of a fixed rally, as observed on the rally record
/// and on the rally's contribution table.
pub open spec fn contribution_step(pre: Store, post: Store, rally_id: u64, amount: u128) -> bool {
    &&& pre.has_rally(rally_id)
    &&& post.has_rally(rally_id)
    &&& post.spec_rally(rally_id).raised == pre.spec_rally(rally_id).raised + amount
    &&& post.spec_rally_total(rally_id) == pre.spec_rally_total(rally_id) + amount
}

/// A successful `execute_fund_rally` is a contribution step on its rally.
pub proof fn lemma_fund_is_contribution_step(
    pre: Store,
    post: Store,
    now: u64,
    contract_address: String,
    sender: String,
    funds: Seq<Coin>,
    rally_id: u64,
    amount: u128,
    ins: TransferInstruction,
)
    requires
        fund_ok(pre, post, now, contract_address, sender, funds, rally_id, amount, ins),
        pre.spec_rally(rally_id).raised + amount <= u128::MAX,
    ensures
        contribution_step(pre, post, rally_id, amount),
{
    assert(post.rallies@[rally_id - 1] == pre.rallies@.update(
        rally_id - 1,
        post.spec_rally(rally_id),
    )[rally_id - 1]);
}

/// Law: over any chain of successful fundings of one rally, the raised
/// total and the recorded contribution total both grow by exactly the sum
/// of the accepted amounts.
pub proof fn lemma_contributions_accumulate(stores: Seq<Store>, amounts: Seq<u128>, rally_id: u64)
    requires
        stores.len() == amounts.len() + 1,
        forall|k: int|
            0 <= k < amounts.len() ==> contribution_step(
                #[trigger] stores[k],
                stores[k + 1],
                rally_id,
                amounts[k],
            ),
    ensures
        stores.last().spec_rally(rally_id).raised == stores[0].spec_rally(rally_id).raised
            + sum_of(amounts),
        stores.last().spec_rally_total(rally_id) == stores[0].spec_rally_total(rally_id) + sum_of(
            amounts,
        ),
    decreases amounts.len(),
{
    if amounts.len() == 0 {
        assert(stores.last() == stores[0]);
        assert(sum_of(amounts) == 0);
    } else {
        let st = stores.skip(1);
        let at = amounts.skip(1);
        assert(contribution_step(stores[0], stores[1], rally_id, amounts[0]));
        assert forall|k: int|
            0 <= k < at.len() implies contribution_step(
                #[trigger] st[k],
                st[k + 1],
                rally_id,
                at[k],
            ) by {
            assert(st[k] == stores[k + 1]);
            assert(st[k + 1] == stores[k + 2]);
            assert(at[k] == amounts[k + 1]);
            assert(contribution_step(stores[k + 1], stores[k + 2], rally_id, amounts[k + 1]));
        }
        lemma_contributions_accumulate(st, at, rally_id);
        assert(st[0] == stores[1]);
        assert(st.last() == stores.last());
        assert(sum_of(amounts) == amounts[0] + sum_of(at));
    }
}

/// Law: starting from a fresh rally, after any chain of successful fundings
/// the raised total equals the sum of all accepted contribution amounts —
/// which is exactly the total recorded in the contribution ledger.
pub proof fn lemma_raised_is_contribution_sum(stores: Seq<Store>, amounts: Seq<u128>, rally_id: u64)
    requires
        stores.len() == amounts.len() + 1,
        stores[0].spec_rally(rally_id).raised == 0,
        stores[0].spec_rally_total(rally_id) == 0,
        forall|k: int|
            0 <= k < amounts.len() ==> contribution_step(
                #[trigger] stores[k],
                stores[k + 1],
                rally_id,
                amounts[k],
            ),
    ensures
        stores.last().spec_rally(rally_id).raised == sum_of(amounts),
        stores.last().spec_rally(rally_id).raised == stores.last().spec_rally_total(rally_id),
{
    lemma_contributions_accumulate(stores, amounts, rally_id);
}

/// Law: a successful withdrawal pays out exactly the pre-withdrawal raised
/// total, resets the rally's raised total to exactly zero, and leaves the
/// contribution ledger untouched.
pub proof fn lemma_withdraw_resets(
    pre: Store,
    post: Store,
    sender: String,
    rally_id: u64,
    ins: TransferInstruction,
)
    requires
        pre.wf(),
        withdraw_ok(pre, post, sender, rally_id, ins),
    ensures
        post.spec_rally(rally_id).raised == 0,
        match ins {
            TransferInstruction::NativeSend { amount, .. } => amount == pre.spec_rally(
                rally_id,
            ).raised,
            TransferInstruction::Cw20Transfer { amount, .. } => amount == pre.spec_rally(
                rally_id,
            ).raised,
            TransferInstruction::Cw20TransferFrom { .. } => false,
        },
        post.spec_rally_total(rally_id) == pre.spec_rally_total(rally_id),
{
    assert(post.rallies@[rally_id - 1] == pre.rallies@.update(
        rally_id - 1,
        post.spec_rally(rally_id),
    )[rally_id - 1]);
    assert(pre.contributions@.len() == pre.rallies@.len());
    assert(post.contributions_view().len() == pre.contributions_view().len());
    assert(post.contributions@.len() == pre.contributions@.len());
    assert(post.contributions_view()[rally_id - 1] == pre.contributions_view()[rally_id - 1]);
    assert(post.contributions@[rally_id - 1]@ == post.contributions_view()[rally_id - 1]);
    assert(pre.contributions@[rally_id - 1]@ == pre.contributions_view()[rally_id - 1]);
}

} // verus!
