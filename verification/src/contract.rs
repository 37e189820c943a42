//! The command and query functions: the only writers and readers of the
//! store. Every command is a total function from the current store, the
//! caller, and the block time to either a new store (plus a transfer
//! instruction where funds move) or an error; on an error the store is left
//! exactly as it was.

use vstd::prelude::*;
use crate::error::ContractError;
use crate::lemmas::{
    lemma_find_aggregate_first, lemma_find_aggregate_insert, lemma_find_aggregate_none,
    lemma_find_aggregate_update, lemma_find_record_first, lemma_find_record_none,
    lemma_find_record_push, lemma_find_record_update, lemma_records_total_push,
    lemma_records_total_update, lemma_sorted_insert, lemma_sorted_update, lemma_sum_push,
};
use crate::lex::{lex_lt, lex_lt_total, lex_lt_trans, str_lt};
use crate::msg::{
    ExecuteMsg, ExecuteReply, GetConfigResponse, GetContributorResponse, GetFeedbackResponse,
    GetListRalliesResponse, GetRallyResponse, GetTopContributorsResponse, QueryMsg, QueryReply,
};
use crate::state::{
    aggs_counts_ok, aggs_sorted, dup_contribution, dup_contributions, dup_denom, dup_feedback,
    dup_rally, find_aggregate, find_record, records_total, sum_amounts, table_record, Coin, Config,
    Contribution, ContributionRecord, Contributor, Denom, Feedback, Rally, Store, TopContributor,
    TransferInstruction,
};

verus! {

/// Sets up a fresh store: the caller becomes the admin and every table
/// starts empty.
pub fn instantiate(sender: String) -> (s: Store)
    ensures
        s.wf(),
        s.config == (Config { admin: sender }),
        s.rallies@ == Seq::<Rally>::empty(),
        s.contributions@.len() == 0,
        s.feedbacks@.len() == 0,
        s.aggregates@.len() == 0,
{
    Store {
        config: Config { admin: sender },
        rallies: Vec::new(),
        contributions: Vec::new(),
        feedbacks: Vec::new(),
        aggregates: Vec::new(),
    }
}

/// A successful creation: the new rally is appended under the next
/// sequential id with nothing raised and active, empty contribution and
/// feedback tables are opened for it, and nothing else moves.
pub open spec fn create_rally_ok(
    pre: Store,
    post: Store,
    sender: String,
    title: String,
    description: String,
    goal: u128,
    deadline: u64,
    token_denom: Denom,
    now: u64,
    id: u64,
) -> bool {
    &&& now < deadline
    &&& goal > 0
    &&& id == pre.rallies@.len() + 1
    &&& post.rallies@ == pre.rallies@.push(
        (Rally {
            id,
            creator: sender,
            title,
            description,
            goal,
            deadline,
            raised: 0,
            token_denom,
            is_active: true,
        }),
    )
    &&& post.contributions_view() == pre.contributions_view().push(
        Seq::<ContributionRecord>::empty(),
    )
    &&& post.feedbacks_view() == pre.feedbacks_view().push(Seq::<Feedback>::empty())
    &&& post.aggregates@ == pre.aggregates@
    &&& post.config == pre.config
}

/// Which error a creation raises: a deadline at or before `now` wins over a
/// zero goal.
pub open spec fn create_rally_err(now: u64, goal: u128, deadline: u64, e: ContractError) -> bool {
    if deadline <= now {
        e == ContractError::InvalidDeadline
    } else {
        goal == 0 && e == ContractError::InvalidGoal
    }
}

/// Creates a rally. Fails when the deadline is not strictly in the future
/// or the goal is zero; otherwise allocates the next sequential id (starting
/// at 1) and stores the new rally with nothing raised and `is_active` true.
pub fn execute_create_rally(
    store: &mut Store,
    now: u64,
    sender: String,
    title: String,
    description: String,
    goal: u128,
    deadline: u64,
    token_denom: Denom,
) -> (r: Result<u64, ContractError>)
    requires
        old(store).wf(),
        old(store).rallies@.len() < u64::MAX,
    ensures
        final(store).wf(),
        match r {
            Ok(id) => create_rally_ok(
                *old(store),
                *final(store),
                sender,
                title,
                description,
                goal,
                deadline,
                token_denom,
                now,
                id,
            ),
            Err(e) => *final(store) == *old(store) && create_rally_err(now, goal, deadline, e),
        },
        r is Ok <==> now < deadline && goal > 0,
{
    if now >= deadline {
        return Err(ContractError::InvalidDeadline);
    }
    if goal == 0 {
        return Err(ContractError::InvalidGoal);
    }
    let count: usize = store.rallies.len();
    let id: u64 = (count as u64) + 1;
    let rally = Rally {
        id,
        creator: sender,
        title,
        description,
        goal,
        deadline,
        raised: 0,
        token_denom,
        is_active: true,
    };
    store.rallies.push(rally);
    store.contributions.push(Vec::new());
    store.feedbacks.push(Vec::new());
    proof {
        assert(store.contributions_view() =~~= old(store).contributions_view().push(
            Seq::<ContributionRecord>::empty(),
        ));
        assert(store.feedbacks_view() =~~= old(store).feedbacks_view().push(
            Seq::<Feedback>::empty(),
        ));
    }
    Ok(id)
}

/// A successful close: only `is_active` of the addressed rally moves, to
/// false; everything else is untouched. Closing an already-closed rally
/// succeeds silently.
pub open spec fn close_rally_ok(
    pre: Store,
    post: Store,
    sender: String,
    rally_id: u64,
) -> bool {
    &&& pre.has_rally(rally_id)
    &&& sender@ == pre.spec_rally(rally_id).creator@
    &&& post.rallies@ == pre.rallies@.update(
        rally_id - 1,
        (Rally { is_active: false, ..pre.spec_rally(rally_id) }),
    )
    &&& post.contributions_view() == pre.contributions_view()
    &&& post.feedbacks_view() == pre.feedbacks_view()
    &&& post.aggregates@ == pre.aggregates@
    &&& post.config == pre.config
}

/// Which error a close raises: a missing rally wins over a foreign caller.
pub open spec fn close_rally_err(
    pre: Store,
    sender: String,
    rally_id: u64,
    e: ContractError,
) -> bool {
    if !pre.has_rally(rally_id) {
        e == ContractError::NotFound
    } else {
        sender@ != pre.spec_rally(rally_id).creator@ && e == ContractError::Unauthorized
    }
}

/// Closes a rally for good. Only the creator may close; closing again is
/// allowed and changes nothing further. A close never touches the raised
/// total: the creator can still withdraw afterwards.
pub fn execute_close_rally(store: &mut Store, sender: String, rally_id: u64) -> (r: Result<
    (),
    ContractError,
>)
    requires
        old(store).wf(),
    ensures
        final(store).wf(),
        match r {
            Ok(_) => close_rally_ok(*old(store), *final(store), sender, rally_id),
            Err(e) => *final(store) == *old(store) && close_rally_err(
                *old(store),
                sender,
                rally_id,
                e,
            ),
        },
        r is Ok <==> old(store).has_rally(rally_id) && sender@ == old(store).spec_rally(
            rally_id,
        ).creator@,
{
    if rally_id == 0 || rally_id > store.rallies.len() as u64 {
        return Err(ContractError::NotFound);
    }
    let idx: usize = (rally_id - 1) as usize;
    if !(sender == store.rallies[idx].creator) {
        return Err(ContractError::Unauthorized);
    }
    store.rallies[idx].is_active = false;
    proof {
        assert(store.contributions_view() =~~= old(store).contributions_view());
        assert(store.feedbacks_view() =~~= old(store).feedbacks_view());
        assert(store.rallies@ =~= old(store).rallies@.update(
            rally_id - 1,
            (Rally { is_active: false, ..old(store).spec_rally(rally_id) }),
        ));
    }
    Ok(())
}

/// The native value attached to a call for one denomination: the amount of
/// the first matching coin, or zero when none matches.
pub open spec fn spec_sent_amount(funds: Seq<Coin>, denom: Seq<char>) -> u128
    decreases funds.len(),
{
    if funds.len() == 0 {
        0
    } else if funds[0].denom@ == denom {
        funds[0].amount
    } else {
        spec_sent_amount(funds.skip(1), denom)
    }
}

/// Reads the attached value for `denom` out of the funds list.
fn sent_amount(funds: &Vec<Coin>, denom: &String) -> (r: u128)
    ensures
        r == spec_sent_amount(funds@, denom@),
{
    let mut i: usize = 0;
    proof {
        assert(funds@.skip(0) =~= funds@);
    }
    while i < funds.len()
        invariant
            i <= funds@.len(),
            spec_sent_amount(funds@, denom@) == spec_sent_amount(funds@.skip(i as int), denom@),
        decreases funds@.len() - i,
    {
        proof {
            assert(funds@.skip(i as int)[0] == funds@[i as int]);
        }
        if funds[i].denom == *denom {
            return funds[i].amount;
        }
        proof {
            assert(funds@.skip(i as int).skip(1) =~= funds@.skip(i as int + 1));
        }
        i = i + 1;
    }
    0
}

/// Appends one contribution to the first record of `sender`, opening a new
/// record at the end of the table when there is none. Only the sender's
/// record moves, and the table's total grows by exactly the amount.
pub(crate) fn append_record(recs: &mut Vec<ContributionRecord>, sender: &String, c: Contribution)
    ensures
        table_record(final(recs)@, sender@) == table_record(old(recs)@, sender@).push(c),
        forall|a: Seq<char>|
            a != sender@ ==> #[trigger] table_record(final(recs)@, a) == table_record(
                old(recs)@,
                a,
            ),
        records_total(final(recs)@) == records_total(old(recs)@) + c.amount,
        final(recs)@.len() == old(recs)@.len() + (
        if find_record(old(recs)@, sender@) is Some {
            0int
        } else {
            1int
        }),
{
    let n: usize = recs.len();
    let mut k: usize = 0;
    while k < n
        invariant
            k <= n == recs@.len(),
            recs@ == old(recs)@,
            forall|j: int| 0 <= j < k ==> (#[trigger] recs@[j]).address@ != sender@,
        decreases n - k,
    {
        if recs[k].address == *sender {
            proof {
                lemma_find_record_first(recs@, k as int, sender@);
            }
            recs[k].contributions.push(c);
            proof {
                let r2 = recs@[k as int];
                assert(recs@ == old(recs)@.update(k as int, r2));
                lemma_find_record_update(old(recs)@, k as int, r2, sender@);
                assert forall|a: Seq<char>| a != sender@ implies #[trigger] table_record(
                    recs@,
                    a,
                ) == table_record(old(recs)@, a) by {
                    lemma_find_record_update(old(recs)@, k as int, r2, a);
                }
                lemma_records_total_update(old(recs)@, k as int, r2, c);
            }
            return ;
        }
        k = k + 1;
    }
    let mut cv: Vec<Contribution> = Vec::new();
    cv.push(c);
    let rec = ContributionRecord { address: sender.clone(), contributions: cv };
    proof {
        lemma_find_record_none(recs@, sender@);
        assert(table_record(recs@, sender@) == Seq::<Contribution>::empty());
    }
    recs.push(rec);
    proof {
        assert(recs@ == old(recs)@.push(rec));
        lemma_find_record_push(old(recs)@, rec, sender@);
        assert forall|a: Seq<char>| a != sender@ implies #[trigger] table_record(recs@, a)
            == table_record(old(recs)@, a) by {
            lemma_find_record_push(old(recs)@, rec, a);
        }
        lemma_records_total_push(old(recs)@, rec);
        lemma_sum_push(Seq::<Contribution>::empty(), c);
        assert(sum_amounts(Seq::<Contribution>::empty()) == 0);
        assert(rec.contributions@ =~= Seq::<Contribution>::empty().push(c));
    }
}

/// How one accepted contribution moves the sender's aggregate: appended to
/// an existing record with the count stepped, or recorded under a fresh
/// aggregate with count one.
pub open spec fn aggregate_updated(
    pre: Option<TopContributor>,
    post: Option<TopContributor>,
    sender: String,
    c: Contribution,
) -> bool {
    match pre {
        Some(a) => post matches Some(n) && n.address == a.address && n.contributions@
            == a.contributions@.push(c) && n.contribution_count == a.contribution_count + 1,
        None => post matches Some(n) && n.address == sender && n.contributions@ == Seq::<
            Contribution,
        >::empty().push(c) && n.contribution_count == 1,
    }
}

/// Folds one accepted contribution into the sender's aggregate, keeping the
/// aggregates strictly sorted by address and every running count equal to
/// its record's length. No other account's aggregate moves.
pub(crate) fn upsert_aggregate(aggs: &mut Vec<TopContributor>, sender: &String, c: Contribution)
    requires
        aggs_sorted(old(aggs)@),
        aggs_counts_ok(old(aggs)@),
        match find_aggregate(old(aggs)@, sender@) {
            Some(a) => a.contribution_count < u64::MAX,
            None => true,
        },
    ensures
        aggs_sorted(final(aggs)@),
        aggs_counts_ok(final(aggs)@),
        aggregate_updated(
            find_aggregate(old(aggs)@, sender@),
            find_aggregate(final(aggs)@, sender@),
            *sender,
            c,
        ),
        forall|a: Seq<char>|
            a != sender@ ==> #[trigger] find_aggregate(final(aggs)@, a) == find_aggregate(
                old(aggs)@,
                a,
            ),
        final(aggs)@.len() == old(aggs)@.len() + (
        if find_aggregate(old(aggs)@, sender@) is Some {
            0int
        } else {
            1int
        }),
{
    let n: usize = aggs.len();
    let mut k: usize = 0;
    while k < n
        invariant
            k <= n == aggs@.len(),
            aggs@ == old(aggs)@,
            aggs_sorted(old(aggs)@),
            aggs_counts_ok(old(aggs)@),
            match find_aggregate(old(aggs)@, sender@) {
                Some(a) => a.contribution_count < u64::MAX,
                None => true,
            },
            forall|j: int| 0 <= j < k ==> (#[trigger] aggs@[j]).address@ != sender@,
        decreases n - k,
    {
        if aggs[k].address == *sender {
            proof {
                lemma_find_aggregate_first(aggs@, k as int, sender@);
            }
            let nc: u64 = aggs[k].contribution_count;
            aggs[k].contributions.push(c);
            aggs[k].contribution_count = nc + 1;
            proof {
                let a2 = aggs@[k as int];
                assert(aggs@ =~= old(aggs)@.update(k as int, a2));
                lemma_find_aggregate_update(old(aggs)@, k as int, a2, sender@);
                assert forall|a: Seq<char>| a != sender@ implies #[trigger] find_aggregate(
                    aggs@,
                    a,
                ) == find_aggregate(old(aggs)@, a) by {
                    lemma_find_aggregate_update(old(aggs)@, k as int, a2, a);
                }
                lemma_sorted_update(old(aggs)@, k as int, a2);
                assert forall|i: int| 0 <= i < aggs@.len() implies (#[trigger] aggs@[
                    i
                ]).contribution_count == aggs@[i].contributions@.len() by {
                    if i != k {
                        assert(aggs@[i] == old(aggs)@[i]);
                    }
                }
            }
            return ;
        }
        k = k + 1;
    }
    let mut pos: usize = 0;
    while pos < aggs.len() && str_lt(aggs[pos].address.as_str(), sender.as_str())
        invariant
            pos <= aggs@.len(),
            aggs@ == old(aggs)@,
            aggs_sorted(old(aggs)@),
            aggs_counts_ok(old(aggs)@),
            forall|j: int| 0 <= j < aggs@.len() ==> (#[trigger] aggs@[j]).address@ != sender@,
            forall|i: int| 0 <= i < pos ==> lex_lt((#[trigger] aggs@[i]).address@, sender@),
        decreases aggs@.len() - pos,
    {
        pos = pos + 1;
    }
    let mut cv: Vec<Contribution> = Vec::new();
    cv.push(c);
    let agg = TopContributor {
        address: sender.clone(),
        contributions: cv,
        contribution_count: 1,
    };
    proof {
        assert forall|i: int| pos <= i < aggs@.len() implies lex_lt(
            sender@,
            (#[trigger] aggs@[i]).address@,
        ) by {
            lex_lt_total(sender@, aggs@[pos as int].address@);
            if i > pos {
                lex_lt_trans(sender@, aggs@[pos as int].address@, aggs@[i].address@);
            }
        }
        lemma_sorted_insert(aggs@, pos as int, agg);
        lemma_find_aggregate_none(aggs@, sender@);
        lemma_find_aggregate_insert(aggs@, pos as int, agg, sender@);
        assert forall|a: Seq<char>| a != sender@ implies #[trigger] find_aggregate(
            aggs@.insert(pos as int, agg),
            a,
        ) == find_aggregate(aggs@, a) by {
            lemma_find_aggregate_insert(aggs@, pos as int, agg, a);
        }
        aggs@.insert_ensures(pos as int, agg);
    }
    aggs.insert(pos, agg);
    proof {
        assert forall|i: int| 0 <= i < aggs@.len() implies (#[trigger] aggs@[
            i
        ]).contribution_count == aggs@[i].contributions@.len() by {
            old(aggs)@.insert_ensures(pos as int, agg);
            if i < pos {
                assert(aggs@[i] == old(aggs)@[i]);
            } else if i > pos {
                assert(aggs@[i] == old(aggs)@[i - 1]);
            }
        }
    }
}

/// The acceptance condition for funding: the rally exists, is active and not
/// past its deadline, the amount is positive, and for a native asset the
/// attached value for its denomination equals the amount exactly.
pub open spec fn fund_accepted(
    pre: Store,
    now: u64,
    funds: Seq<Coin>,
    rally_id: u64,
    amount: u128,
) -> bool {
    &&& pre.has_rally(rally_id)
    &&& pre.spec_rally(rally_id).is_active
    &&& now <= pre.spec_rally(rally_id).deadline
    &&& amount > 0
    &&& match pre.spec_rally(rally_id).token_denom {
        Denom::Native(d) => spec_sent_amount(funds, d@) == amount,
        Denom::Cw20(_) => true,
    }
}

/// The contribution a successful funding records: the amount, under the
/// rally's asset at the time of the contribution.
pub open spec fn fund_contribution(rally: Rally, amount: u128) -> Contribution {
    Contribution { amount, token_denom: rally.token_denom }
}

/// The instruction a funding emits: attached native coins move into contract
/// custody, or the token contract is told to pull the pre-authorized amount
/// from the contributor.
pub open spec fn fund_instruction(
    rally: Rally,
    contract_address: String,
    sender: String,
    amount: u128,
) -> TransferInstruction {
    match rally.token_denom {
        Denom::Native(d) => TransferInstruction::NativeSend {
            to_address: contract_address,
            denom: d,
            amount,
        },
        Denom::Cw20(tok) => TransferInstruction::Cw20TransferFrom {
            contract_addr: tok,
            owner: sender,
            recipient: contract_address,
            amount,
        },
    }
}

/// A successful funding: the rally's raised total grows by the amount, the
/// contribution is appended to the sender's record for this rally and to the
/// sender's global aggregate, the matching transfer instruction comes back,
/// and nothing else moves.
pub open spec fn fund_ok(
    pre: Store,
    post: Store,
    now: u64,
    contract_address: String,
    sender: String,
    funds: Seq<Coin>,
    rally_id: u64,
    amount: u128,
    ins: TransferInstruction,
) -> bool {
    &&& fund_accepted(pre, now, funds, rally_id, amount)
    &&& ins == fund_instruction(pre.spec_rally(rally_id), contract_address, sender, amount)
    &&& post.rallies@ == pre.rallies@.update(
        rally_id - 1,
        (Rally {
            raised: (pre.spec_rally(rally_id).raised + amount) as u128,
            ..pre.spec_rally(rally_id)
        }),
    )
    &&& post.spec_record(rally_id, sender@) == pre.spec_record(rally_id, sender@).push(
        fund_contribution(pre.spec_rally(rally_id), amount),
    )
    &&& forall|a: Seq<char>|
        a != sender@ ==> #[trigger] post.spec_record(rally_id, a) == pre.spec_record(rally_id, a)
    &&& forall|rid: u64|
        #[trigger] pre.has_rally(rid) && rid != rally_id ==> post.contributions_view()[rid - 1]
            == pre.contributions_view()[rid - 1]
    &&& post.contributions_view().len() == pre.contributions_view().len()
    &&& post.contributions_view()[rally_id - 1].len() == pre.contributions_view()[rally_id
        - 1].len() + (
    if find_record(pre.contributions_view()[rally_id - 1], sender@) is Some {
        0int
    } else {
        1int
    })
    &&& post.spec_rally_total(rally_id) == pre.spec_rally_total(rally_id) + amount
    &&& aggregate_updated(
        pre.spec_aggregate(sender@),
        post.spec_aggregate(sender@),
        sender,
        fund_contribution(pre.spec_rally(rally_id), amount),
    )
    &&& forall|a: Seq<char>|
        a != sender@ ==> #[trigger] post.spec_aggregate(a) == pre.spec_aggregate(a)
    &&& post.aggregates@.len() == pre.aggregates@.len() + (
    if pre.spec_aggregate(sender@) is Some {
        0int
    } else {
        1int
    })
    &&& post.feedbacks_view() == pre.feedbacks_view()
    &&& post.config == pre.config
}

/// Which error a funding raises, in the order the checks run: missing rally,
/// closed rally, expired rally (strictly past the deadline), zero amount,
/// then a native-value mismatch.
pub open spec fn fund_err(
    pre: Store,
    now: u64,
    funds: Seq<Coin>,
    rally_id: u64,
    amount: u128,
    e: ContractError,
) -> bool {
    if !pre.has_rally(rally_id) {
        e == ContractError::NotFound
    } else if !pre.spec_rally(rally_id).is_active {
        e == ContractError::RallyInactive
    } else if now > pre.spec_rally(rally_id).deadline {
        e == ContractError::RallyExpired
    } else if amount == 0 {
        e == ContractError::ZeroAmount
    } else {
        &&& pre.spec_rally(rally_id).token_denom matches Denom::Native(d) && spec_sent_amount(
            funds,
            d@,
        ) != amount
        &&& e == ContractError::AmountMismatch
    }
}

/// Funds a rally. On success the raised total grows by the amount, the
/// contribution lands in the sender's per-rally record and global aggregate
/// (all as one atomic step), and the returned instruction moves the value:
/// attached native coins into contract custody, or a pre-authorized token
/// pull from the contributor. Funding exactly at the deadline succeeds;
/// strictly after it fails.
pub fn execute_fund_rally(
    store: &mut Store,
    now: u64,
    contract_address: String,
    sender: String,
    funds: Vec<Coin>,
    rally_id: u64,
    amount: u128,
) -> (r: Result<TransferInstruction, ContractError>)
    requires
        old(store).wf(),
        old(store).has_rally(rally_id) ==> old(store).spec_rally(rally_id).raised + amount
            <= u128::MAX,
        match old(store).spec_aggregate(sender@) {
            Some(a) => a.contribution_count < u64::MAX,
            None => true,
        },
    ensures
        final(store).wf(),
        match r {
            Ok(ins) => fund_ok(
                *old(store),
                *final(store),
                now,
                contract_address,
                sender,
                funds@,
                rally_id,
                amount,
                ins,
            ),
            Err(e) => *final(store) == *old(store) && fund_err(
                *old(store),
                now,
                funds@,
                rally_id,
                amount,
                e,
            ),
        },
        r is Ok <==> fund_accepted(*old(store), now, funds@, rally_id, amount),
{
    if rally_id == 0 || rally_id > store.rallies.len() as u64 {
        return Err(ContractError::NotFound);
    }
    let idx: usize = (rally_id - 1) as usize;
    if !store.rallies[idx].is_active {
        return Err(ContractError::RallyInactive);
    }
    if now > store.rallies[idx].deadline {
        return Err(ContractError::RallyExpired);
    }
    if amount == 0 {
        return Err(ContractError::ZeroAmount);
    }
    let denom = dup_denom(&store.rallies[idx].token_denom);
    let ins: TransferInstruction = match denom {
        Denom::Native(d) => {
            let sent = sent_amount(&funds, &d);
            if sent != amount {
                return Err(ContractError::AmountMismatch);
            }
            TransferInstruction::NativeSend { to_address: contract_address, denom: d, amount }
        },
        Denom::Cw20(tok) => TransferInstruction::Cw20TransferFrom {
            contract_addr: tok,
            owner: sender.clone(),
            recipient: contract_address,
            amount,
        },
    };
    let new_raised: u128 = store.rallies[idx].raised + amount;
    store.rallies[idx].raised = new_raised;
    let c = Contribution { amount, token_denom: dup_denom(&store.rallies[idx].token_denom) };
    let c2 = dup_contribution(&c);
    proof {
        assert(store.rallies@ =~= old(store).rallies@.update(
            rally_id - 1,
            (Rally {
                raised: (old(store).spec_rally(rally_id).raised + amount) as u128,
                ..old(store).spec_rally(rally_id)
            }),
        ));
    }
    append_record(&mut store.contributions[idx], &sender, c);
    upsert_aggregate(&mut store.aggregates, &sender, c2);
    proof {
        assert(store.feedbacks_view() =~~= old(store).feedbacks_view());
        assert(store.contributions_view()[rally_id - 1] == store.contributions@[rally_id - 1]@);
        assert forall|rid: u64|
            #[trigger] old(store).has_rally(rid) && rid != rally_id implies
            store.contributions_view()[rid - 1] == old(store).contributions_view()[rid - 1] by {
            assert(store.contributions@[rid - 1] == old(store).contributions@[rid - 1]);
        }
    }
    Ok(ins)
}

/// A successful feedback: the message is appended to the rally's log under
/// the next per-rally sequence number (starting at 1), stamped with the
/// block time, and nothing else moves.
pub open spec fn feedback_ok(
    pre: Store,
    post: Store,
    now: u64,
    sender: String,
    rally_id: u64,
    message: String,
    fid: u64,
) -> bool {
    &&& pre.has_rally(rally_id)
    &&& pre.spec_rally(rally_id).is_active
    &&& pre.spec_record(rally_id, sender@).len() > 0
    &&& fid == pre.spec_feedback_count(rally_id) + 1
    &&& post.feedbacks_view() == pre.feedbacks_view().update(
        rally_id - 1,
        pre.feedbacks_view()[rally_id - 1].push(
            (Feedback { rally_id, sender, message, timestamp: now }),
        ),
    )
    &&& post.rallies@ == pre.rallies@
    &&& post.contributions_view() == pre.contributions_view()
    &&& post.aggregates@ == pre.aggregates@
    &&& post.config == pre.config
}

/// Which error a feedback raises, in the order the checks run: missing
/// rally, closed rally, then a sender with an empty contribution record for
/// this rally — the creator included, if they never contributed.
pub open spec fn feedback_err(
    pre: Store,
    sender: String,
    rally_id: u64,
    e: ContractError,
) -> bool {
    if !pre.has_rally(rally_id) {
        e == ContractError::NotFound
    } else if !pre.spec_rally(rally_id).is_active {
        e == ContractError::RallyInactive
    } else {
        pre.spec_record(rally_id, sender@).len() == 0 && e == ContractError::NotAContributor
    }
}

/// Whether the sender's record for one rally's table is empty.
pub(crate) fn record_is_empty(recs: &Vec<ContributionRecord>, sender: &String) -> (r: bool)
    ensures
        r == (table_record(recs@, sender@).len() == 0),
{
    let n: usize = recs.len();
    let mut k: usize = 0;
    while k < n
        invariant
            k <= n == recs@.len(),
            forall|j: int| 0 <= j < k ==> (#[trigger] recs@[j]).address@ != sender@,
        decreases n - k,
    {
        if recs[k].address == *sender {
            proof {
                lemma_find_record_first(recs@, k as int, sender@);
            }
            return recs[k].contributions.len() == 0;
        }
        k = k + 1;
    }
    proof {
        lemma_find_record_none(recs@, sender@);
    }
    true
}

/// Adds feedback to a rally. Only accounts with a non-empty contribution
/// record for the rally may comment; sequence numbers per rally start at 1
/// and increase by one with each accepted message.
pub fn execute_add_feedback(
    store: &mut Store,
    now: u64,
    sender: String,
    rally_id: u64,
    message: String,
) -> (r: Result<u64, ContractError>)
    requires
        old(store).wf(),
        old(store).has_rally(rally_id) ==> old(store).spec_feedback_count(rally_id) < u64::MAX,
    ensures
        final(store).wf(),
        match r {
            Ok(fid) => feedback_ok(
                *old(store),
                *final(store),
                now,
                sender,
                rally_id,
                message,
                fid,
            ),
            Err(e) => *final(store) == *old(store) && feedback_err(
                *old(store),
                sender,
                rally_id,
                e,
            ),
        },
        r is Ok <==> old(store).has_rally(rally_id) && old(store).spec_rally(rally_id).is_active
            && old(store).spec_record(rally_id, sender@).len() > 0,
{
    if rally_id == 0 || rally_id > store.rallies.len() as u64 {
        return Err(ContractError::NotFound);
    }
    let idx: usize = (rally_id - 1) as usize;
    if !store.rallies[idx].is_active {
        return Err(ContractError::RallyInactive);
    }
    if record_is_empty(&store.contributions[idx], &sender) {
        return Err(ContractError::NotAContributor);
    }
    let count: u64 = store.feedbacks[idx].len() as u64;
    let feedback_id: u64 = count + 1;
    store.feedbacks[idx].push(Feedback { rally_id, sender, message, timestamp: now });
    proof {
        assert(store.contributions_view() =~~= old(store).contributions_view());
        assert(store.feedbacks_view() =~~= old(store).feedbacks_view().update(
            rally_id - 1,
            old(store).feedbacks_view()[rally_id - 1].push(
                (Feedback { rally_id, sender, message, timestamp: now }),
            ),
        ));
    }
    Ok(feedback_id)
}

/// The instruction a withdrawal emits: the whole raised total moves to the
/// creator, as native coins or as a token transfer out of contract custody.
pub open spec fn withdraw_instruction(rally: Rally) -> TransferInstruction {
    match rally.token_denom {
        Denom::Native(d) => TransferInstruction::NativeSend {
            to_address: rally.creator,
            denom: d,
            amount: rally.raised,
        },
        Denom::Cw20(a) => TransferInstruction::Cw20Transfer {
            contract_addr: a,
            recipient: rally.creator,
            amount: rally.raised,
        },
    }
}

/// A successful withdrawal: the raised total of the addressed rally is
/// zeroed, the instruction returns exactly the pre-withdrawal total, and
/// nothing else moves. Neither the deadline nor `is_active` is consulted.
pub open spec fn withdraw_ok(
    pre: Store,
    post: Store,
    sender: String,
    rally_id: u64,
    ins: TransferInstruction,
) -> bool {
    &&& pre.has_rally(rally_id)
    &&& sender@ == pre.spec_rally(rally_id).creator@
    &&& pre.spec_rally(rally_id).raised > 0
    &&& ins == withdraw_instruction(pre.spec_rally(rally_id))
    &&& post.rallies@ == pre.rallies@.update(
        rally_id - 1,
        (Rally { raised: 0, ..pre.spec_rally(rally_id) }),
    )
    &&& post.contributions_view() == pre.contributions_view()
    &&& post.feedbacks_view() == pre.feedbacks_view()
    &&& post.aggregates@ == pre.aggregates@
    &&& post.config == pre.config
}

/// Which error a withdrawal raises: a missing rally wins over a foreign
/// caller, which wins over an empty raised total.
pub open spec fn withdraw_err(pre: Store, sender: String, rally_id: u64, e: ContractError) -> bool {
    if !pre.has_rally(rally_id) {
        e == ContractError::NotFound
    } else if sender@ != pre.spec_rally(rally_id).creator@ {
        e == ContractError::Unauthorized
    } else {
        pre.spec_rally(rally_id).raised == 0 && e == ContractError::NothingToWithdraw
    }
}

/// Withdraws the accumulated funds of a rally to its creator. Permitted
/// regardless of the deadline and of `is_active`; the raised total is reset
/// to zero rather than subtracted from history.
pub fn execute_withdraw_funds(store: &mut Store, sender: String, rally_id: u64) -> (r: Result<
    TransferInstruction,
    ContractError,
>)
    requires
        old(store).wf(),
    ensures
        final(store).wf(),
        match r {
            Ok(ins) => withdraw_ok(*old(store), *final(store), sender, rally_id, ins),
            Err(e) => *final(store) == *old(store) && withdraw_err(
                *old(store),
                sender,
                rally_id,
                e,
            ),
        },
        r is Ok <==> old(store).has_rally(rally_id) && sender@ == old(store).spec_rally(
            rally_id,
        ).creator@ && old(store).spec_rally(rally_id).raised > 0,
{
    if rally_id == 0 || rally_id > store.rallies.len() as u64 {
        return Err(ContractError::NotFound);
    }
    let idx: usize = (rally_id - 1) as usize;
    if !(sender == store.rallies[idx].creator) {
        return Err(ContractError::Unauthorized);
    }
    if store.rallies[idx].raised == 0 {
        return Err(ContractError::NothingToWithdraw);
    }
    let amount: u128 = store.rallies[idx].raised;
    let creator: String = store.rallies[idx].creator.clone();
    let denom: Denom = dup_denom(&store.rallies[idx].token_denom);
    store.rallies[idx].raised = 0;
    let ins = match denom {
        Denom::Native(d) => TransferInstruction::NativeSend {
            to_address: creator,
            denom: d,
            amount,
        },
        Denom::Cw20(a) => TransferInstruction::Cw20Transfer {
            contract_addr: a,
            recipient: creator,
            amount,
        },
    };
    proof {
        assert(store.contributions_view() =~~= old(store).contributions_view());
        assert(store.feedbacks_view() =~~= old(store).feedbacks_view());
        assert(store.rallies@ =~= old(store).rallies@.update(
            rally_id - 1,
            (Rally { raised: 0, ..old(store).spec_rally(rally_id) }),
        ));
    }
    Ok(ins)
}

/// Returns the configuration recorded at initialization.
pub fn get_config(store: &Store) -> (r: GetConfigResponse)
    ensures
        r.config == store.config,
{
    GetConfigResponse { config: Config { admin: store.config.admin.clone() } }
}

/// Returns the rally record with the given id, or `NotFound`.
pub fn get_rally(store: &Store, rally_id: u64) -> (r: Result<GetRallyResponse, ContractError>)
    ensures
        match r {
            Ok(resp) => store.has_rally(rally_id) && resp.rally == store.spec_rally(rally_id),
            Err(e) => !store.has_rally(rally_id) && e == ContractError::NotFound,
        },
{
    if rally_id == 0 || rally_id > store.rallies.len() as u64 {
        return Err(ContractError::NotFound);
    }
    let idx: usize = (rally_id - 1) as usize;
    Ok(GetRallyResponse { rally: dup_rally(&store.rallies[idx]) })
}

/// Returns the feedback record under `(rally_id, feedback_id)`, or
/// `NotFound`.
pub fn get_feedback(store: &Store, rally_id: u64, feedback_id: u64) -> (r: Result<
    GetFeedbackResponse,
    ContractError,
>)
    requires
        store.wf(),
    ensures
        match r {
            Ok(resp) => store.has_feedback(rally_id, feedback_id) && resp.feedback
                == store.spec_feedback(rally_id, feedback_id),
            Err(e) => !store.has_feedback(rally_id, feedback_id) && e == ContractError::NotFound,
        },
{
    if rally_id == 0 || rally_id > store.rallies.len() as u64 {
        return Err(ContractError::NotFound);
    }
    let idx: usize = (rally_id - 1) as usize;
    if feedback_id == 0 || feedback_id > store.feedbacks[idx].len() as u64 {
        return Err(ContractError::NotFound);
    }
    let fidx: usize = (feedback_id - 1) as usize;
    Ok(GetFeedbackResponse { feedback: dup_feedback(&store.feedbacks[idx][fidx]) })
}

/// How many items a listing returns at most: 10 when no limit is given or
/// the limit is zero, and never more than 100.
pub open spec fn spec_list_limit(limit: Option<u32>) -> int {
    match limit {
        Option::None => 10,
        Option::Some(l) => if l == 0 {
            10
        } else if l > 100 {
            100
        } else {
            l as int
        },
    }
}

/// The index of the first rally listed: the one strictly after the cursor.
pub open spec fn spec_list_start(pre: Store, start_after: Option<u64>) -> int {
    match start_after {
        Option::None => 0,
        Option::Some(c) => if c as int <= pre.rallies@.len() {
            c as int
        } else {
            pre.rallies@.len() as int
        },
    }
}

/// Lists rally records in ascending id order, starting strictly after the
/// cursor, capped at the (clamped) limit.
pub fn list_rallies(store: &Store, start_after: Option<u64>, limit: Option<u32>) -> (r:
    GetListRalliesResponse)
    ensures
        r.rallies@ == store.rallies@.subrange(
            spec_list_start(*store, start_after),
            spec_list_start(*store, start_after) + vstd::math::min(
                spec_list_limit(limit),
                store.rallies@.len() - spec_list_start(*store, start_after),
            ),
        ),
{
    let n: usize = store.rallies.len();
    let lim: usize = match limit {
        Option::None => 10,
        Option::Some(l) => if l == 0 {
            10
        } else if l > 100 {
            100
        } else {
            l as usize
        },
    };
    let start: usize = match start_after {
        Option::None => 0,
        Option::Some(c) => if c > n as u64 {
            n
        } else {
            c as usize
        },
    };
    let end: usize = if n - start < lim {
        n
    } else {
        start + lim
    };
    let mut out: Vec<Rally> = Vec::new();
    let mut i: usize = start;
    while i < end
        invariant
            start <= i <= end <= store.rallies@.len(),
            out@ =~= store.rallies@.subrange(start as int, i as int),
        decreases end - i,
    {
        out.push(dup_rally(&store.rallies[i]));
        i = i + 1;
    }
    GetListRalliesResponse { rallies: out }
}

/// Returns the contribution record of `contributor` for `rally_id`: the
/// recorded sequence, or an empty one when there is no rally or no record.
/// Never an error.
pub fn get_contributor(store: &Store, rally_id: u64, contributor: String) -> (r:
    GetContributorResponse)
    requires
        store.wf(),
    ensures
        r.contributor.address == contributor,
        r.contributor.contributions@ == store.spec_record(rally_id, contributor@),
{
    if rally_id == 0 || rally_id > store.rallies.len() as u64 {
        return GetContributorResponse {
            contributor: Contributor { address: contributor, contributions: Vec::new() },
        };
    }
    let idx: usize = (rally_id - 1) as usize;
    let recs = &store.contributions[idx];
    let mut j: usize = 0;
    proof {
        assert(recs@.skip(0) =~= recs@);
    }
    while j < recs.len()
        invariant
            j <= recs@.len(),
            store.wf(),
            store.has_rally(rally_id),
            recs@ == store.contributions@[rally_id - 1]@,
            find_record(recs@, contributor@) == find_record(recs@.skip(j as int), contributor@),
        decreases recs@.len() - j,
    {
        proof {
            assert(recs@.skip(j as int)[0] == recs@[j as int]);
        }
        if recs[j].address == contributor {
            proof {
                assert(find_record(recs@.skip(j as int), contributor@) == Some(
                    recs@[j as int],
                ));
            }
            return GetContributorResponse {
                contributor: Contributor {
                    address: contributor,
                    contributions: dup_contributions(&recs[j].contributions),
                },
            };
        }
        proof {
            assert(recs@.skip(j as int).skip(1) =~= recs@.skip(j as int + 1));
        }
        j = j + 1;
    }
    GetContributorResponse {
        contributor: Contributor { address: contributor, contributions: Vec::new() },
    }
}

/// How many aggregates the top-contributors listing returns at most: 10 when
/// no limit is given, and never more than 10.
pub open spec fn spec_top_limit(limit: Option<u32>) -> int {
    match limit {
        Option::None => 10,
        Option::Some(l) => if l > 10 {
            10
        } else {
            l as int
        },
    }
}

/// Lists contributor aggregates in descending order of the contributor
/// identifier — the store's native key order, not the contribution totals —
/// capped at the (clamped) limit.
pub fn get_top_contributors(store: &Store, limit: Option<u32>) -> (r: GetTopContributorsResponse)
    ensures
        r.contributors@.len() == vstd::math::min(
            spec_top_limit(limit),
            store.aggregates@.len() as int,
        ),
        forall|k: int|
            0 <= k < r.contributors@.len() ==> crate::state::top_eq(
                #[trigger] r.contributors@[k],
                store.aggregates@[store.aggregates@.len() - 1 - k],
            ),
{
    let n: usize = store.aggregates.len();
    let lim: usize = match limit {
        Option::None => 10,
        Option::Some(l) => if l > 10 {
            10
        } else {
            l as usize
        },
    };
    let count: usize = if lim < n {
        lim
    } else {
        n
    };
    let mut out: Vec<TopContributor> = Vec::new();
    let mut k: usize = 0;
    while k < count
        invariant
            k <= count <= n == store.aggregates@.len(),
            out@.len() == k,
            forall|m: int|
                0 <= m < k ==> crate::state::top_eq(
                    #[trigger] out@[m],
                    store.aggregates@[n - 1 - m],
                ),
        decreases count - k,
    {
        let idx: usize = n - 1 - k;
        out.push(
            TopContributor {
                address: store.aggregates[idx].address.clone(),
                contributions: dup_contributions(&store.aggregates[idx].contributions),
                contribution_count: store.aggregates[idx].contribution_count,
            },
        );
        k = k + 1;
    }
    GetTopContributorsResponse { contributors: out }
}

/// Routes one validated command to its operation and packages the outcome.
/// The host supplies the authenticated `sender`, the attached `funds`, the
/// block time `now` and the contract's own custody address.
pub fn execute(
    store: &mut Store,
    now: u64,
    contract_address: String,
    sender: String,
    funds: Vec<Coin>,
    msg: ExecuteMsg,
) -> (r: Result<ExecuteReply, ContractError>)
    requires
        old(store).wf(),
        msg matches ExecuteMsg::CreateRally { .. } ==> old(store).rallies@.len() < u64::MAX,
        msg matches ExecuteMsg::FundRally { rally_id, amount } ==> (old(store).has_rally(rally_id)
            ==> old(store).spec_rally(rally_id).raised + amount <= u128::MAX) && (match old(
            store,
        ).spec_aggregate(sender@) {
            Some(a) => a.contribution_count < u64::MAX,
            None => true,
        }),
        msg matches ExecuteMsg::AddFeedback { rally_id, .. } ==> (old(store).has_rally(rally_id)
            ==> old(store).spec_feedback_count(rally_id) < u64::MAX),
    ensures
        final(store).wf(),
        match msg {
            ExecuteMsg::CreateRally { title, description, goal, deadline, token_denom } => match r {
                Ok(reply) => reply matches ExecuteReply::Created { rally_id } && create_rally_ok(
                    *old(store),
                    *final(store),
                    sender,
                    title,
                    description,
                    goal,
                    deadline,
                    token_denom,
                    now,
                    rally_id,
                ),
                Err(e) => *final(store) == *old(store) && create_rally_err(now, goal, deadline, e),
            },
            ExecuteMsg::FundRally { rally_id, amount } => match r {
                Ok(reply) => reply matches ExecuteReply::Funded {
                    rally_id: rid,
                    amount: amt,
                    contributor,
                    instruction,
                } && rid == rally_id && amt == amount && contributor == sender && fund_ok(
                    *old(store),
                    *final(store),
                    now,
                    contract_address,
                    sender,
                    funds@,
                    rally_id,
                    amount,
                    instruction,
                ),
                Err(e) => *final(store) == *old(store) && fund_err(
                    *old(store),
                    now,
                    funds@,
                    rally_id,
                    amount,
                    e,
                ),
            },
            ExecuteMsg::WithdrawFunds { rally_id } => match r {
                Ok(reply) => reply matches ExecuteReply::Withdrawn {
                    rally_id: rid,
                    amount: amt,
                    instruction,
                } && rid == rally_id && amt == old(store).spec_rally(rally_id).raised
                    && withdraw_ok(
                    *old(store),
                    *final(store),
                    sender,
                    rally_id,
                    instruction,
                ),
                Err(e) => *final(store) == *old(store) && withdraw_err(
                    *old(store),
                    sender,
                    rally_id,
                    e,
                ),
            },
            ExecuteMsg::AddFeedback { rally_id, message } => match r {
                Ok(reply) => reply matches ExecuteReply::FeedbackAdded {
                    rally_id: rid,
                    feedback_id,
                } && rid == rally_id && feedback_ok(
                    *old(store),
                    *final(store),
                    now,
                    sender,
                    rally_id,
                    message,
                    feedback_id,
                ),
                Err(e) => *final(store) == *old(store) && feedback_err(
                    *old(store),
                    sender,
                    rally_id,
                    e,
                ),
            },
            ExecuteMsg::CloseRally { rally_id } => match r {
                Ok(reply) => reply == (ExecuteReply::Closed { rally_id }) && close_rally_ok(
                    *old(store),
                    *final(store),
                    sender,
                    rally_id,
                ),
                Err(e) => *final(store) == *old(store) && close_rally_err(
                    *old(store),
                    sender,
                    rally_id,
                    e,
                ),
            },
        },
{
    match msg {
        ExecuteMsg::CreateRally { title, description, goal, deadline, token_denom } => {
            match execute_create_rally(
                store,
                now,
                sender,
                title,
                description,
                goal,
                deadline,
                token_denom,
            ) {
                Ok(id) => Ok(ExecuteReply::Created { rally_id: id }),
                Err(e) => Err(e),
            }
        },
        ExecuteMsg::FundRally { rally_id, amount } => {
            let contributor = sender.clone();
            match execute_fund_rally(store, now, contract_address, sender, funds, rally_id, amount)
            {
                Ok(ins) => Ok(
                    ExecuteReply::Funded { rally_id, amount, contributor, instruction: ins },
                ),
                Err(e) => Err(e),
            }
        },
        ExecuteMsg::WithdrawFunds { rally_id } => {
            match execute_withdraw_funds(store, sender, rally_id) {
                Ok(ins) => {
                    let amount: u128 = match &ins {
                        TransferInstruction::NativeSend { amount, .. } => *amount,
                        TransferInstruction::Cw20TransferFrom { amount, .. } => *amount,
                        TransferInstruction::Cw20Transfer { amount, .. } => *amount,
                    };
                    Ok(ExecuteReply::Withdrawn { rally_id, amount, instruction: ins })
                },
                Err(e) => Err(e),
            }
        },
        ExecuteMsg::AddFeedback { rally_id, message } => {
            match execute_add_feedback(store, now, sender, rally_id, message) {
                Ok(fid) => Ok(ExecuteReply::FeedbackAdded { rally_id, feedback_id: fid }),
                Err(e) => Err(e),
            }
        },
        ExecuteMsg::CloseRally { rally_id } => {
            match execute_close_rally(store, sender, rally_id) {
                Ok(_) => Ok(ExecuteReply::Closed { rally_id }),
                Err(e) => Err(e),
            }
        },
    }
}

/// Routes one query to its reader and packages the typed response. Queries
/// never change the store.
pub fn query(store: &Store, msg: QueryMsg) -> (r: Result<QueryReply, ContractError>)
    requires
        store.wf(),
    ensures
        match msg {
            QueryMsg::GetConfig {  } => r matches Ok(QueryReply::Config(resp)) && resp.config
                == store.config,
            QueryMsg::GetRally { rally_id } => match r {
                Ok(reply) => reply matches QueryReply::Rally(resp) && store.has_rally(rally_id)
                    && resp.rally == store.spec_rally(rally_id),
                Err(e) => !store.has_rally(rally_id) && e == ContractError::NotFound,
            },
            QueryMsg::GetFeedback { rally_id, feedback_id } => match r {
                Ok(reply) => reply matches QueryReply::Feedback(resp) && store.has_feedback(
                    rally_id,
                    feedback_id,
                ) && resp.feedback == store.spec_feedback(rally_id, feedback_id),
                Err(e) => !store.has_feedback(rally_id, feedback_id) && e
                    == ContractError::NotFound,
            },
            QueryMsg::ListRallies { start_after, limit } => r matches Ok(
                QueryReply::Rallies(resp),
            ) && resp.rallies@ == store.rallies@.subrange(
                spec_list_start(*store, start_after),
                spec_list_start(*store, start_after) + vstd::math::min(
                    spec_list_limit(limit),
                    store.rallies@.len() - spec_list_start(*store, start_after),
                ),
            ),
            QueryMsg::GetContributor { rally_id, contributor } => r matches Ok(
                QueryReply::Contributor(resp),
            ) && resp.contributor.address == contributor && resp.contributor.contributions@
                == store.spec_record(rally_id, contributor@),
            QueryMsg::GetTopContributors { limit } => r matches Ok(
                QueryReply::TopContributors(resp),
            ) && resp.contributors@.len() == vstd::math::min(
                spec_top_limit(limit),
                store.aggregates@.len() as int,
            ) && (forall|k: int|
                0 <= k < resp.contributors@.len() ==> crate::state::top_eq(
                    #[trigger] resp.contributors@[k],
                    store.aggregates@[store.aggregates@.len() - 1 - k],
                )),
        },
{
    match msg {
        QueryMsg::GetConfig {  } => Ok(QueryReply::Config(get_config(store))),
        QueryMsg::GetRally { rally_id } => match get_rally(store, rally_id) {
            Ok(resp) => Ok(QueryReply::Rally(resp)),
            Err(e) => Err(e),
        },
        QueryMsg::GetFeedback { rally_id, feedback_id } => match get_feedback(
            store,
            rally_id,
            feedback_id,
        ) {
            Ok(resp) => Ok(QueryReply::Feedback(resp)),
            Err(e) => Err(e),
        },
        QueryMsg::ListRallies { start_after, limit } => Ok(
            QueryReply::Rallies(list_rallies(store, start_after, limit)),
        ),
        QueryMsg::GetContributor { rally_id, contributor } => Ok(
            QueryReply::Contributor(get_contributor(store, rally_id, contributor)),
        ),
        QueryMsg::GetTopContributors { limit } => Ok(
            QueryReply::TopContributors(get_top_contributors(store, limit)),
        ),
    }
}

} // verus!
