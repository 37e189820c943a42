//! The commands and queries the dispatcher accepts, and the typed responses
//! it returns. The transport envelope that decodes requests into these shapes
//! and serializes the responses lives outside this crate.

use vstd::prelude::*;
use crate::state::{
    Coin, Config, Contributor, Denom, Feedback, Rally, TopContributor, TransferInstruction,
};

verus! {

/// Initialization carries no parameters; the admin is the caller.
#[derive(Debug, PartialEq, Eq)]
pub struct InstantiateMsg {}

/// A state-changing command.
#[derive(Debug, PartialEq, Eq)]
pub enum ExecuteMsg {
    CreateRally {
        title: String,
        description: String,
        goal: u128,
        deadline: u64,
        token_denom: Denom,
    },
    FundRally { rally_id: u64, amount: u128 },
    WithdrawFunds { rally_id: u64 },
    AddFeedback { rally_id: u64, message: String },
    CloseRally { rally_id: u64 },
}

/// A read-only query.
#[derive(Debug, PartialEq, Eq)]
pub enum QueryMsg {
    GetConfig {},
    GetRally { rally_id: u64 },
    GetFeedback { rally_id: u64, feedback_id: u64 },
    ListRallies { start_after: Option<u64>, limit: Option<u32> },
    GetContributor { rally_id: u64, contributor: String },
    GetTopContributors { limit: Option<u32> },
}

/// What a successful command returns: the affected ids, and the transfer
/// instruction the host must execute where funds move.
#[derive(Debug, PartialEq, Eq)]
pub enum ExecuteReply {
    Created { rally_id: u64 },
    Funded { rally_id: u64, amount: u128, contributor: String, instruction: TransferInstruction },
    Withdrawn { rally_id: u64, amount: u128, instruction: TransferInstruction },
    FeedbackAdded { rally_id: u64, feedback_id: u64 },
    Closed { rally_id: u64 },
}

#[derive(Debug, PartialEq, Eq)]
pub struct GetConfigResponse {
    pub config: Config,
}

#[derive(Debug, PartialEq, Eq)]
pub struct GetRallyResponse {
    pub rally: Rally,
}

#[derive(Debug, PartialEq, Eq)]
pub struct GetFeedbackResponse {
    pub feedback: Feedback,
}

#[derive(Debug, PartialEq, Eq)]
pub struct GetListRalliesResponse {
    pub rallies: Vec<Rally>,
}

#[derive(Debug, PartialEq, Eq)]
pub struct GetContributorResponse {
    pub contributor: Contributor,
}

#[derive(Debug, PartialEq, Eq)]
pub struct GetTopContributorsResponse {
    pub contributors: Vec<TopContributor>,
}

/// The typed answer to a query, one variant per query.
#[derive(Debug, PartialEq, Eq)]
pub enum QueryReply {
    Config(GetConfigResponse),
    Rally(GetRallyResponse),
    Feedback(GetFeedbackResponse),
    Rallies(GetListRalliesResponse),
    Contributor(GetContributorResponse),
    TopContributors(GetTopContributorsResponse),
}

} // verus!
