use padi_contract::contract::{execute, instantiate, query};
use padi_contract::error::ContractError;
use padi_contract::msg::{ExecuteMsg, ExecuteReply, QueryMsg, QueryReply};
use padi_contract::state::{Coin, Denom, TransferInstruction};

fn s(x: &str) -> String {
    x.to_string()
}

#[test]
fn execute_routes_whole_command_flow() {
    let mut store = instantiate(s("admin"));
    let r = execute(
        &mut store,
        0,
        s("contract"),
        s("creator"),
        vec![],
        ExecuteMsg::CreateRally {
            title: s("t"),
            description: s("d"),
            goal: 1000,
            deadline: 100,
            token_denom: Denom::Native(s("upadi")),
        },
    )
    .unwrap();
    assert_eq!(r, ExecuteReply::Created { rally_id: 1 });

    let r = execute(
        &mut store,
        10,
        s("contract"),
        s("alice"),
        vec![Coin { denom: s("upadi"), amount: 400 }],
        ExecuteMsg::FundRally { rally_id: 1, amount: 400 },
    )
    .unwrap();
    assert_eq!(
        r,
        ExecuteReply::Funded {
            rally_id: 1,
            amount: 400,
            contributor: s("alice"),
            instruction: TransferInstruction::NativeSend {
                to_address: s("contract"),
                denom: s("upadi"),
                amount: 400,
            },
        }
    );

    let r = execute(
        &mut store,
        11,
        s("contract"),
        s("alice"),
        vec![],
        ExecuteMsg::AddFeedback { rally_id: 1, message: s("go") },
    )
    .unwrap();
    assert_eq!(r, ExecuteReply::FeedbackAdded { rally_id: 1, feedback_id: 1 });

    let r = execute(
        &mut store,
        12,
        s("contract"),
        s("creator"),
        vec![],
        ExecuteMsg::WithdrawFunds { rally_id: 1 },
    )
    .unwrap();
    assert_eq!(
        r,
        ExecuteReply::Withdrawn {
            rally_id: 1,
            amount: 400,
            instruction: TransferInstruction::NativeSend {
                to_address: s("creator"),
                denom: s("upadi"),
                amount: 400,
            },
        }
    );

    let r = execute(
        &mut store,
        13,
        s("contract"),
        s("creator"),
        vec![],
        ExecuteMsg::CloseRally { rally_id: 1 },
    )
    .unwrap();
    assert_eq!(r, ExecuteReply::Closed { rally_id: 1 });

    let r = execute(
        &mut store,
        14,
        s("contract"),
        s("bob"),
        vec![Coin { denom: s("upadi"), amount: 5 }],
        ExecuteMsg::FundRally { rally_id: 1, amount: 5 },
    );
    assert_eq!(r, Err(ContractError::RallyInactive));
}

#[test]
fn query_routes_each_reader() {
    let mut store = instantiate(s("admin"));
    execute(
        &mut store,
        0,
        s("contract"),
        s("creator"),
        vec![],
        ExecuteMsg::CreateRally {
            title: s("t"),
            description: s("d"),
            goal: 7,
            deadline: 100,
            token_denom: Denom::Native(s("u")),
        },
    )
    .unwrap();
    execute(
        &mut store,
        1,
        s("contract"),
        s("alice"),
        vec![Coin { denom: s("u"), amount: 3 }],
        ExecuteMsg::FundRally { rally_id: 1, amount: 3 },
    )
    .unwrap();
    execute(
        &mut store,
        2,
        s("contract"),
        s("alice"),
        vec![],
        ExecuteMsg::AddFeedback { rally_id: 1, message: s("m") },
    )
    .unwrap();

    match query(&store, QueryMsg::GetConfig {}).unwrap() {
        QueryReply::Config(resp) => assert_eq!(resp.config.admin, s("admin")),
        other => panic!("unexpected reply: {:?}", other),
    }
    match query(&store, QueryMsg::GetRally { rally_id: 1 }).unwrap() {
        QueryReply::Rally(resp) => assert_eq!(resp.rally.raised, 3),
        other => panic!("unexpected reply: {:?}", other),
    }
    match query(&store, QueryMsg::GetFeedback { rally_id: 1, feedback_id: 1 }).unwrap() {
        QueryReply::Feedback(resp) => assert_eq!(resp.feedback.message, s("m")),
        other => panic!("unexpected reply: {:?}", other),
    }
    match query(&store, QueryMsg::ListRallies { start_after: None, limit: None }).unwrap() {
        QueryReply::Rallies(resp) => assert_eq!(resp.rallies.len(), 1),
        other => panic!("unexpected reply: {:?}", other),
    }
    match query(&store, QueryMsg::GetContributor { rally_id: 1, contributor: s("alice") }).unwrap()
    {
        QueryReply::Contributor(resp) => {
            assert_eq!(resp.contributor.contributions.len(), 1);
            assert_eq!(resp.contributor.contributions[0].amount, 3);
        },
        other => panic!("unexpected reply: {:?}", other),
    }
    match query(&store, QueryMsg::GetTopContributors { limit: None }).unwrap() {
        QueryReply::TopContributors(resp) => {
            assert_eq!(resp.contributors.len(), 1);
            assert_eq!(resp.contributors[0].address, s("alice"));
        },
        other => panic!("unexpected reply: {:?}", other),
    }

    let r = query(&store, QueryMsg::GetRally { rally_id: 9 });
    assert_eq!(r, Err(ContractError::NotFound));
}
