use padi_contract::contract::{
    execute_add_feedback, execute_close_rally, execute_create_rally, execute_fund_rally,
    execute_withdraw_funds, get_config, get_contributor, get_feedback, get_rally,
    get_top_contributors, instantiate, list_rallies,
};
use padi_contract::error::ContractError;
use padi_contract::state::{Coin, Denom, Store, TransferInstruction};

fn s(x: &str) -> String {
    x.to_string()
}

fn native(denom: &str) -> Denom {
    Denom::Native(s(denom))
}

fn coins(denom: &str, amount: u128) -> Vec<Coin> {
    vec![Coin { denom: s(denom), amount }]
}

/// A store with one open rally (goal 1000, deadline 100) in a native asset.
fn store_with_rally() -> Store {
    let mut store = instantiate(s("admin"));
    let id = execute_create_rally(
        &mut store,
        0,
        s("creator"),
        s("Rally one"),
        s("First rally"),
        1000,
        100,
        native("upadi"),
    )
    .unwrap();
    assert_eq!(id, 1);
    store
}

#[test]
fn create_assigns_sequential_ids_from_one() {
    let mut store = instantiate(s("admin"));
    for want in 1u64..=3 {
        let id = execute_create_rally(
            &mut store,
            0,
            s("creator"),
            s("t"),
            s("d"),
            5,
            100,
            native("upadi"),
        )
        .unwrap();
        assert_eq!(id, want);
    }
}

#[test]
fn created_rally_starts_empty_and_active() {
    let store = store_with_rally();
    let rally = get_rally(&store, 1).unwrap().rally;
    assert_eq!(rally.id, 1);
    assert_eq!(rally.creator, s("creator"));
    assert_eq!(rally.title, s("Rally one"));
    assert_eq!(rally.description, s("First rally"));
    assert_eq!(rally.goal, 1000);
    assert_eq!(rally.deadline, 100);
    assert_eq!(rally.raised, 0);
    assert_eq!(rally.token_denom, native("upadi"));
    assert!(rally.is_active);
}

#[test]
fn create_rejects_past_or_present_deadline() {
    let mut store = instantiate(s("admin"));
    let r = execute_create_rally(&mut store, 50, s("c"), s("t"), s("d"), 5, 50, native("u"));
    assert_eq!(r, Err(ContractError::InvalidDeadline));
    let r = execute_create_rally(&mut store, 50, s("c"), s("t"), s("d"), 5, 49, native("u"));
    assert_eq!(r, Err(ContractError::InvalidDeadline));
    // deadline strictly in the future is accepted
    let r = execute_create_rally(&mut store, 50, s("c"), s("t"), s("d"), 5, 51, native("u"));
    assert!(r.is_ok());
}

#[test]
fn create_rejects_zero_goal() {
    let mut store = instantiate(s("admin"));
    let r = execute_create_rally(&mut store, 0, s("c"), s("t"), s("d"), 0, 100, native("u"));
    assert_eq!(r, Err(ContractError::InvalidGoal));
}

#[test]
fn fund_native_happy_path_builds_custody_transfer() {
    let mut store = store_with_rally();
    let ins = execute_fund_rally(
        &mut store,
        10,
        s("contract"),
        s("alice"),
        coins("upadi", 400),
        1,
        400,
    )
    .unwrap();
    assert_eq!(
        ins,
        TransferInstruction::NativeSend {
            to_address: s("contract"),
            denom: s("upadi"),
            amount: 400,
        }
    );
    assert_eq!(get_rally(&store, 1).unwrap().rally.raised, 400);
}

#[test]
fn fund_cw20_builds_pull_transfer() {
    let mut store = instantiate(s("admin"));
    execute_create_rally(
        &mut store,
        0,
        s("creator"),
        s("t"),
        s("d"),
        1000,
        100,
        Denom::Cw20(s("tokenaddr")),
    )
    .unwrap();
    // no native value need be attached for a managed token
    let ins = execute_fund_rally(&mut store, 10, s("contract"), s("bob"), vec![], 1, 250).unwrap();
    assert_eq!(
        ins,
        TransferInstruction::Cw20TransferFrom {
            contract_addr: s("tokenaddr"),
            owner: s("bob"),
            recipient: s("contract"),
            amount: 250,
        }
    );
    assert_eq!(get_rally(&store, 1).unwrap().rally.raised, 250);
}

#[test]
fn fund_missing_rally_fails_not_found() {
    let mut store = store_with_rally();
    let r = execute_fund_rally(&mut store, 10, s("x"), s("a"), coins("upadi", 5), 2, 5);
    assert_eq!(r, Err(ContractError::NotFound));
}

#[test]
fn fund_zero_amount_fails() {
    let mut store = store_with_rally();
    let r = execute_fund_rally(&mut store, 10, s("x"), s("a"), coins("upadi", 0), 1, 0);
    assert_eq!(r, Err(ContractError::ZeroAmount));
}

#[test]
fn fund_native_amount_mismatch_fails() {
    let mut store = store_with_rally();
    // attached 300, declared 400
    let r = execute_fund_rally(&mut store, 10, s("x"), s("a"), coins("upadi", 300), 1, 400);
    assert_eq!(r, Err(ContractError::AmountMismatch));
    // nothing attached at all counts as zero
    let r = execute_fund_rally(&mut store, 10, s("x"), s("a"), vec![], 1, 400);
    assert_eq!(r, Err(ContractError::AmountMismatch));
    // a coin of another denomination does not count
    let r = execute_fund_rally(&mut store, 10, s("x"), s("a"), coins("other", 400), 1, 400);
    assert_eq!(r, Err(ContractError::AmountMismatch));
}

#[test]
fn fund_takes_first_coin_of_matching_denom() {
    let mut store = store_with_rally();
    let funds = vec![
        Coin { denom: s("other"), amount: 7 },
        Coin { denom: s("upadi"), amount: 400 },
        Coin { denom: s("upadi"), amount: 9 },
    ];
    let r = execute_fund_rally(&mut store, 10, s("x"), s("a"), funds, 1, 400);
    assert!(r.is_ok());
}

#[test]
fn fund_exactly_at_deadline_succeeds_after_it_fails() {
    let mut store = store_with_rally();
    // now == deadline: accepted
    let r = execute_fund_rally(&mut store, 100, s("x"), s("a"), coins("upadi", 5), 1, 5);
    assert!(r.is_ok());
    // now == deadline + 1: expired
    let r = execute_fund_rally(&mut store, 101, s("x"), s("a"), coins("upadi", 5), 1, 5);
    assert_eq!(r, Err(ContractError::RallyExpired));
}

#[test]
fn goal_scenario_two_contributors_then_withdraw() {
    let mut store = instantiate(s("admin"));
    let t = 1000u64;
    let id = execute_create_rally(
        &mut store,
        t,
        s("creator"),
        s("t"),
        s("d"),
        1000,
        t + 100,
        native("upadi"),
    )
    .unwrap();
    execute_fund_rally(&mut store, t + 10, s("x"), s("A"), coins("upadi", 400), id, 400).unwrap();
    assert_eq!(get_rally(&store, id).unwrap().rally.raised, 400);
    execute_fund_rally(&mut store, t + 20, s("x"), s("B"), coins("upadi", 600), id, 600).unwrap();
    assert_eq!(get_rally(&store, id).unwrap().rally.raised, 1000);
    let ins = execute_withdraw_funds(&mut store, s("creator"), id).unwrap();
    assert_eq!(
        ins,
        TransferInstruction::NativeSend {
            to_address: s("creator"),
            denom: s("upadi"),
            amount: 1000,
        }
    );
    assert_eq!(get_rally(&store, id).unwrap().rally.raised, 0);
    let r = execute_withdraw_funds(&mut store, s("creator"), id);
    assert_eq!(r, Err(ContractError::NothingToWithdraw));
}

#[test]
fn withdraw_requires_creator() {
    let mut store = store_with_rally();
    execute_fund_rally(&mut store, 10, s("x"), s("a"), coins("upadi", 5), 1, 5).unwrap();
    let r = execute_withdraw_funds(&mut store, s("mallory"), 1);
    assert_eq!(r, Err(ContractError::Unauthorized));
    let r = execute_withdraw_funds(&mut store, s("creator"), 2);
    assert_eq!(r, Err(ContractError::NotFound));
}

#[test]
fn withdraw_cw20_pays_creator() {
    let mut store = instantiate(s("admin"));
    execute_create_rally(
        &mut store,
        0,
        s("creator"),
        s("t"),
        s("d"),
        50,
        100,
        Denom::Cw20(s("tok")),
    )
    .unwrap();
    execute_fund_rally(&mut store, 1, s("contract"), s("a"), vec![], 1, 30).unwrap();
    let ins = execute_withdraw_funds(&mut store, s("creator"), 1).unwrap();
    assert_eq!(
        ins,
        TransferInstruction::Cw20Transfer {
            contract_addr: s("tok"),
            recipient: s("creator"),
            amount: 30,
        }
    );
}

#[test]
fn close_requires_creator_and_blocks_funding_and_feedback() {
    let mut store = store_with_rally();
    execute_fund_rally(&mut store, 10, s("x"), s("a"), coins("upadi", 40), 1, 40).unwrap();
    let r = execute_close_rally(&mut store, s("mallory"), 1);
    assert_eq!(r, Err(ContractError::Unauthorized));
    assert!(get_rally(&store, 1).unwrap().rally.is_active);
    execute_close_rally(&mut store, s("creator"), 1).unwrap();
    assert!(!get_rally(&store, 1).unwrap().rally.is_active);
    // closing again succeeds silently
    execute_close_rally(&mut store, s("creator"), 1).unwrap();
    // no further contributions or feedback
    let r = execute_fund_rally(&mut store, 11, s("x"), s("a"), coins("upadi", 5), 1, 5);
    assert_eq!(r, Err(ContractError::RallyInactive));
    let r = execute_add_feedback(&mut store, 11, s("a"), 1, s("hi"));
    assert_eq!(r, Err(ContractError::RallyInactive));
    // but withdrawal of the accumulated 40 still works
    let ins = execute_withdraw_funds(&mut store, s("creator"), 1).unwrap();
    assert_eq!(
        ins,
        TransferInstruction::NativeSend {
            to_address: s("creator"),
            denom: s("upadi"),
            amount: 40,
        }
    );
}

#[test]
fn close_missing_rally_fails_not_found() {
    let mut store = store_with_rally();
    let r = execute_close_rally(&mut store, s("creator"), 7);
    assert_eq!(r, Err(ContractError::NotFound));
}

#[test]
fn feedback_requires_prior_contribution_even_for_creator() {
    let mut store = store_with_rally();
    let r = execute_add_feedback(&mut store, 5, s("creator"), 1, s("own rally"));
    assert_eq!(r, Err(ContractError::NotAContributor));
    execute_fund_rally(&mut store, 10, s("x"), s("alice"), coins("upadi", 5), 1, 5).unwrap();
    let r = execute_add_feedback(&mut store, 11, s("bob"), 1, s("nice"));
    assert_eq!(r, Err(ContractError::NotAContributor));
    let fid = execute_add_feedback(&mut store, 11, s("alice"), 1, s("nice")).unwrap();
    assert_eq!(fid, 1);
    let fid = execute_add_feedback(&mut store, 12, s("alice"), 1, s("again")).unwrap();
    assert_eq!(fid, 2);
}

#[test]
fn feedback_round_trip_and_not_found() {
    let mut store = store_with_rally();
    execute_fund_rally(&mut store, 10, s("x"), s("alice"), coins("upadi", 5), 1, 5).unwrap();
    execute_add_feedback(&mut store, 42, s("alice"), 1, s("hello")).unwrap();
    let fb = get_feedback(&store, 1, 1).unwrap().feedback;
    assert_eq!(fb.rally_id, 1);
    assert_eq!(fb.sender, s("alice"));
    assert_eq!(fb.message, s("hello"));
    assert_eq!(fb.timestamp, 42);
    assert_eq!(get_feedback(&store, 1, 2), Err(ContractError::NotFound));
    assert_eq!(get_feedback(&store, 2, 1), Err(ContractError::NotFound));
    assert_eq!(get_feedback(&store, 1, 0), Err(ContractError::NotFound));
}

#[test]
fn feedback_on_missing_rally_fails_not_found() {
    let mut store = store_with_rally();
    let r = execute_add_feedback(&mut store, 5, s("a"), 9, s("m"));
    assert_eq!(r, Err(ContractError::NotFound));
}

#[test]
fn contributor_record_round_trip() {
    let mut store = store_with_rally();
    execute_fund_rally(&mut store, 10, s("x"), s("alice"), coins("upadi", 5), 1, 5).unwrap();
    execute_fund_rally(&mut store, 11, s("x"), s("alice"), coins("upadi", 7), 1, 7).unwrap();
    let c = get_contributor(&store, 1, s("alice")).contributor;
    assert_eq!(c.address, s("alice"));
    assert_eq!(c.contributions.len(), 2);
    assert_eq!(c.contributions[0].amount, 5);
    assert_eq!(c.contributions[1].amount, 7);
    assert_eq!(c.contributions[0].token_denom, native("upadi"));
    // an account that never contributed gets an empty record, not an error
    let c = get_contributor(&store, 1, s("bob")).contributor;
    assert_eq!(c.address, s("bob"));
    assert!(c.contributions.is_empty());
    // so does a missing rally
    let c = get_contributor(&store, 9, s("alice")).contributor;
    assert!(c.contributions.is_empty());
}

#[test]
fn config_round_trip() {
    let store = instantiate(s("the-admin"));
    assert_eq!(get_config(&store).config.admin, s("the-admin"));
}

#[test]
fn list_rallies_pages_and_clamps() {
    let mut store = instantiate(s("admin"));
    for i in 0..105u64 {
        execute_create_rally(
            &mut store,
            0,
            s("creator"),
            format!("rally {}", i),
            s("d"),
            10,
            100,
            native("u"),
        )
        .unwrap();
    }
    // default page size is 10
    let r = list_rallies(&store, None, None).rallies;
    assert_eq!(r.len(), 10);
    assert_eq!(r[0].id, 1);
    assert_eq!(r[9].id, 10);
    // an explicit zero limit is treated as the default, never as zero
    let r = list_rallies(&store, None, Some(0)).rallies;
    assert_eq!(r.len(), 10);
    // an oversized limit is clamped to 100
    let r = list_rallies(&store, None, Some(500)).rallies;
    assert_eq!(r.len(), 100);
    assert_eq!(r[99].id, 100);
    // the cursor is exclusive
    let r = list_rallies(&store, Some(100), Some(20)).rallies;
    assert_eq!(r.len(), 5);
    assert_eq!(r[0].id, 101);
    assert_eq!(r[4].id, 105);
    let r = list_rallies(&store, Some(105), None).rallies;
    assert!(r.is_empty());
    let r = list_rallies(&store, Some(400), None).rallies;
    assert!(r.is_empty());
}

#[test]
fn top_contributors_ordered_by_descending_address() {
    let mut store = store_with_rally();
    execute_fund_rally(&mut store, 1, s("x"), s("bob"), coins("upadi", 1), 1, 1).unwrap();
    execute_fund_rally(&mut store, 2, s("x"), s("alice"), coins("upadi", 100), 1, 100).unwrap();
    execute_fund_rally(&mut store, 3, s("x"), s("carol"), coins("upadi", 50), 1, 50).unwrap();
    execute_fund_rally(&mut store, 4, s("x"), s("alice"), coins("upadi", 2), 1, 2).unwrap();
    let tops = get_top_contributors(&store, None).contributors;
    // descending by identifier, not by value contributed
    assert_eq!(tops.len(), 3);
    assert_eq!(tops[0].address, s("carol"));
    assert_eq!(tops[1].address, s("bob"));
    assert_eq!(tops[2].address, s("alice"));
    assert_eq!(tops[0].contribution_count, 1);
    assert_eq!(tops[1].contribution_count, 1);
    assert_eq!(tops[2].contribution_count, 2);
    assert_eq!(tops[2].contributions[0].amount, 100);
    assert_eq!(tops[2].contributions[1].amount, 2);
    // the limit caps the answer
    let tops = get_top_contributors(&store, Some(2)).contributors;
    assert_eq!(tops.len(), 2);
    assert_eq!(tops[0].address, s("carol"));
    assert_eq!(tops[1].address, s("bob"));
    // an explicit zero limit yields nothing; anything above 10 is clamped
    assert!(get_top_contributors(&store, Some(0)).contributors.is_empty());
    assert_eq!(get_top_contributors(&store, Some(200)).contributors.len(), 3);
}

#[test]
fn aggregates_span_rallies() {
    let mut store = store_with_rally();
    execute_create_rally(&mut store, 0, s("c2"), s("t2"), s("d2"), 9, 100, native("u2")).unwrap();
    execute_fund_rally(&mut store, 1, s("x"), s("alice"), coins("upadi", 5), 1, 5).unwrap();
    execute_fund_rally(&mut store, 2, s("x"), s("alice"), coins("u2", 3), 2, 3).unwrap();
    let tops = get_top_contributors(&store, None).contributors;
    assert_eq!(tops.len(), 1);
    assert_eq!(tops[0].contribution_count, 2);
    assert_eq!(tops[0].contributions[0].token_denom, native("upadi"));
    assert_eq!(tops[0].contributions[1].token_denom, native("u2"));
    // per-rally records stay separate
    assert_eq!(get_contributor(&store, 1, s("alice")).contributor.contributions.len(), 1);
    assert_eq!(get_contributor(&store, 2, s("alice")).contributor.contributions.len(), 1);
}

#[test]
fn get_rally_missing_fails_not_found() {
    let store = store_with_rally();
    assert_eq!(get_rally(&store, 0), Err(ContractError::NotFound));
    assert_eq!(get_rally(&store, 2), Err(ContractError::NotFound));
}
