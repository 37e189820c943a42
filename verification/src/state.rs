//! The data model and the persistent store. The store is the exclusive owner
//! of every record; the command functions in `contract` are its only writers.

use vstd::prelude::*;
use crate::lex::lex_lt;

verus! {

/// The asset a rally is denominated in: either the chain's native currency,
/// named by its denomination string, or a fungible-token contract, named by
/// its contract address. Immutable once attached to a rally.
#[derive(Debug, PartialEq, Eq)]
pub enum Denom {
    Native(String),
    Cw20(String),
}

/// System configuration: the admin account recorded at initialization. No
/// command in the current command set consults it; it is kept, and returned
/// by its query, for compatibility.
#[derive(Debug, PartialEq, Eq)]
pub struct Config {
    pub admin: String,
}

/// One fundraising campaign. `raised` holds the sum of the amounts accepted
/// since the last withdrawal; `is_active` starts true and only ever moves to
/// false, by an explicit close from the creator.
#[derive(Debug, PartialEq, Eq)]
pub struct Rally {
    pub id: u64,
    pub creator: String,
    pub title: String,
    pub description: String,
    pub goal: u128,
    pub deadline: u64,
    pub raised: u128,
    pub token_denom: Denom,
    pub is_active: bool,
}

/// One accepted funding event: the amount, and the rally's asset at the time
/// of the contribution.
#[derive(Debug, PartialEq, Eq)]
pub struct Contribution {
    pub amount: u128,
    pub token_denom: Denom,
}

/// The ordered contributions of one account to one rally. The rally is given
/// by the record's position in the store.
#[derive(Debug, PartialEq, Eq)]
pub struct ContributionRecord {
    pub address: String,
    pub contributions: Vec<Contribution>,
}

/// One feedback message on a rally. Its per-rally sequence number is the key
/// under which the store holds it, not a field.
#[derive(Debug, PartialEq, Eq)]
pub struct Feedback {
    pub rally_id: u64,
    pub sender: String,
    pub message: String,
    pub timestamp: u64,
}

/// A `(rally, contributor)` contribution record as returned by its query.
#[derive(Debug, PartialEq, Eq)]
pub struct Contributor {
    pub address: String,
    pub contributions: Vec<Contribution>,
}

/// One account's contributions across all rallies, with a running count.
#[derive(Debug, PartialEq, Eq)]
pub struct TopContributor {
    pub address: String,
    pub contributions: Vec<Contribution>,
    pub contribution_count: u64,
}

/// Native funds attached to a command call.
#[derive(Debug, PartialEq, Eq)]
pub struct Coin {
    pub denom: String,
    pub amount: u128,
}

/// An outbound directive for the host: move value between accounts. The core
/// only builds these; the host executes them after the command commits.
#[derive(Debug, PartialEq, Eq)]
pub enum TransferInstruction {
    /// Send native coins from the contract's custody address.
    NativeSend { to_address: String, denom: String, amount: u128 },
    /// Instruct the token contract to pull pre-authorized funds from `owner`.
    Cw20TransferFrom { contract_addr: String, owner: String, recipient: String, amount: u128 },
    /// Instruct the token contract to send funds held by the contract.
    Cw20Transfer { contract_addr: String, recipient: String, amount: u128 },
}

/// The first record for `addr` in a sequence of contribution records.
pub open spec fn find_record(
    recs: Seq<ContributionRecord>,
    addr: Seq<char>,
) -> Option<ContributionRecord>
    decreases recs.len(),
{
    if recs.len() == 0 {
        None
    } else if recs[0].address@ == addr {
        Some(recs[0])
    } else {
        find_record(recs.skip(1), addr)
    }
}

/// The first aggregate for `addr` in a sequence of contributor aggregates.
pub open spec fn find_aggregate(
    aggs: Seq<TopContributor>,
    addr: Seq<char>,
) -> Option<TopContributor>
    decreases aggs.len(),
{
    if aggs.len() == 0 {
        None
    } else if aggs[0].address@ == addr {
        Some(aggs[0])
    } else {
        find_aggregate(aggs.skip(1), addr)
    }
}

/// The contributions recorded for `addr` in one rally's table: the first
/// matching record's sequence, or empty when there is none.
pub open spec fn table_record(recs: Seq<ContributionRecord>, addr: Seq<char>) -> Seq<Contribution> {
    match find_record(recs, addr) {
        Some(r) => r.contributions@,
        None => Seq::empty(),
    }
}

/// The aggregates are strictly ascending by address: the store's native key
/// order, which also makes every address unique.
pub open spec fn aggs_sorted(aggs: Seq<TopContributor>) -> bool {
    forall|i: int, j: int|
        #![trigger aggs[i], aggs[j]]
        0 <= i < j < aggs.len() ==> lex_lt(aggs[i].address@, aggs[j].address@)
}

/// Every aggregate's running count equals the length of its sequence.
pub open spec fn aggs_counts_ok(aggs: Seq<TopContributor>) -> bool {
    forall|i: int|
        0 <= i < aggs.len() ==> (#[trigger] aggs[i]).contribution_count
            == aggs[i].contributions@.len()
}

/// The sum of the amounts in a sequence of contributions.
pub open spec fn sum_amounts(s: Seq<Contribution>) -> int
    decreases s.len(),
{
    if s.len() == 0 {
        0
    } else {
        s[0].amount + sum_amounts(s.skip(1))
    }
}

/// The sum of all amounts across a sequence of contribution records.
pub open spec fn records_total(recs: Seq<ContributionRecord>) -> int
    decreases recs.len(),
{
    if recs.len() == 0 {
        0
    } else {
        sum_amounts(recs[0].contributions@) + records_total(recs.skip(1))
    }
}

/// The persistent store: rally records, per-rally contribution and feedback
/// tables, and the global per-account aggregates. Rally ids are assigned
/// sequentially from 1, so the rally with id `i` sits at index `i - 1` and
/// the two per-rally tables are kept in parallel with `rallies`.
pub struct Store {
    pub config: Config,
    pub rallies: Vec<Rally>,
    /// `contributions[i]` holds the records for rally `i + 1`.
    pub contributions: Vec<Vec<ContributionRecord>>,
    /// `feedbacks[i][j]` is the feedback numbered `j + 1` on rally `i + 1`.
    pub feedbacks: Vec<Vec<Feedback>>,
    /// Per-account aggregates, strictly ascending by address.
    pub aggregates: Vec<TopContributor>,
}

impl Store {
    /// Well-formedness: the invariants every command preserves.
    pub open spec fn wf(self) -> bool {
        &&& self.contributions@.len() == self.rallies@.len()
        &&& self.feedbacks@.len() == self.rallies@.len()
        &&& forall|i: int|
            0 <= i < self.rallies@.len() ==> (#[trigger] self.rallies@[i]).id == i + 1
        &&& forall|i: int| 0 <= i < self.rallies@.len() ==> (#[trigger] self.rallies@[i]).goal > 0
        &&& forall|i: int, j: int|
            #![trigger self.feedbacks@[i]@[j]]
            0 <= i < self.feedbacks@.len() && 0 <= j < self.feedbacks@[i]@.len()
                ==> self.feedbacks@[i]@[j].rally_id == i + 1
        &&& aggs_sorted(self.aggregates@)
        &&& aggs_counts_ok(self.aggregates@)
    }

    /// The contribution tables, one sequence of records per rally.
    pub open spec fn contributions_view(self) -> Seq<Seq<ContributionRecord>> {
        Seq::new(self.contributions@.len(), |i: int| self.contributions@[i]@)
    }

    /// The feedback tables, one sequence of messages per rally.
    pub open spec fn feedbacks_view(self) -> Seq<Seq<Feedback>> {
        Seq::new(self.feedbacks@.len(), |i: int| self.feedbacks@[i]@)
    }

    /// A rally with this id exists.
    pub open spec fn has_rally(self, rally_id: u64) -> bool {
        1 <= rally_id && rally_id <= self.rallies@.len()
    }

    /// The rally record with this id (meaningful when `has_rally`).
    pub open spec fn spec_rally(self, rally_id: u64) -> Rally {
        self.rallies@[rally_id - 1]
    }

    /// How many feedback messages rally `rally_id` holds.
    pub open spec fn spec_feedback_count(self, rally_id: u64) -> int {
        self.feedbacks@[rally_id - 1]@.len() as int
    }

    /// A feedback record with this key exists.
    pub open spec fn has_feedback(self, rally_id: u64, feedback_id: u64) -> bool {
        self.has_rally(rally_id) && 1 <= feedback_id
            && feedback_id <= self.spec_feedback_count(rally_id)
    }

    /// The feedback record under `(rally_id, feedback_id)`.
    pub open spec fn spec_feedback(self, rally_id: u64, feedback_id: u64) -> Feedback {
        self.feedbacks@[rally_id - 1]@[feedback_id - 1]
    }

    /// The contributions of `addr` to rally `rally_id`; empty when there is
    /// no rally or no record.
    pub open spec fn spec_record(self, rally_id: u64, addr: Seq<char>) -> Seq<Contribution> {
        if !self.has_rally(rally_id) {
            Seq::empty()
        } else {
            table_record(self.contributions@[rally_id - 1]@, addr)
        }
    }

    /// The aggregate record of `addr`, if the account ever contributed.
    pub open spec fn spec_aggregate(self, addr: Seq<char>) -> Option<TopContributor> {
        find_aggregate(self.aggregates@, addr)
    }

    /// The sum of every recorded contribution amount for rally `rally_id`.
    pub open spec fn spec_rally_total(self, rally_id: u64) -> int {
        records_total(self.contributions@[rally_id - 1]@)
    }
}

/// Two aggregate records carry the same data (their contribution vectors may
/// be distinct allocations with equal contents).
pub open spec fn top_eq(a: TopContributor, b: TopContributor) -> bool {
    &&& a.address == b.address
    &&& a.contributions@ == b.contributions@
    &&& a.contribution_count == b.contribution_count
}

/// Copies a denomination; the copy is equal to the original.
pub(crate) fn dup_denom(d: &Denom) -> (r: Denom)
    ensures
        r == *d,
{
    match d {
        Denom::Native(s) => Denom::Native(s.clone()),
        Denom::Cw20(s) => Denom::Cw20(s.clone()),
    }
}

/// Copies a contribution; the copy is equal to the original.
pub(crate) fn dup_contribution(c: &Contribution) -> (r: Contribution)
    ensures
        r == *c,
{
    Contribution { amount: c.amount, token_denom: dup_denom(&c.token_denom) }
}

/// Copies a contribution sequence; the copy is element-for-element equal.
pub(crate) fn dup_contributions(v: &Vec<Contribution>) -> (r: Vec<Contribution>)
    ensures
        r@ == v@,
{
    let mut r: Vec<Contribution> = Vec::new();
    let mut i: usize = 0;
    while i < v.len()
        invariant
            i <= v.len(),
            r@ =~= v@.subrange(0, i as int),
        decreases v.len() - i,
    {
        r.push(dup_contribution(&v[i]));
        i = i + 1;
    }
    proof {
        assert(r@ =~= v@);
    }
    r
}

/// Copies a rally record; the copy is field-for-field equal.
pub(crate) fn dup_rally(x: &Rally) -> (r: Rally)
    ensures
        r == *x,
{
    Rally {
        id: x.id,
        creator: x.creator.clone(),
        title: x.title.clone(),
        description: x.description.clone(),
        goal: x.goal,
        deadline: x.deadline,
        raised: x.raised,
        token_denom: dup_denom(&x.token_denom),
        is_active: x.is_active,
    }
}

/// Copies a feedback record; the copy is field-for-field equal.
pub(crate) fn dup_feedback(x: &Feedback) -> (r: Feedback)
    ensures
        r == *x,
{
    Feedback {
        rally_id: x.rally_id,
        sender: x.sender.clone(),
        message: x.message.clone(),
        timestamp: x.timestamp,
    }
}

} // verus!
