use cosm_vending::contract::{
    decrement_count, execute, get_item, increment_count, instantiate, items_count, query, refill,
    Response,
};
use cosm_vending::errors::Error;
use cosm_vending::msg::{ExecuteMsg, InstantiateMsg, QueryMsg, Snack};
use cosm_vending::state::Ledger;

fn ledger_with(initial_amount: Vec<(Snack, u64)>) -> Ledger {
    instantiate(InstantiateMsg { owner: "owner".to_string(), initial_amount }, Ok(()))
        .unwrap()
        .0
}

#[test]
fn round_trip_reports_every_kind_once() {
    let ledger =
        ledger_with(vec![(Snack::Chocolate, 1), (Snack::Chips, 2), (Snack::Water, 3)]);
    let resp = query(&ledger, QueryMsg::ItemsCount);
    assert_eq!(resp.items, vec![(Snack::Chocolate, 1), (Snack::Water, 3), (Snack::Chips, 2)]);
}

#[test]
fn empty_init_reports_zeros() {
    let ledger = ledger_with(vec![]);
    let resp = items_count(&ledger);
    assert_eq!(resp.items, vec![(Snack::Chocolate, 0), (Snack::Water, 0), (Snack::Chips, 0)]);
}

#[test]
fn query_twice_gives_same_answer() {
    let mut ledger = ledger_with(vec![(Snack::Water, 5)]);
    get_item(&mut ledger, Snack::Water).unwrap();
    let first = query(&ledger, QueryMsg::ItemsCount);
    let second = query(&ledger, QueryMsg::ItemsCount);
    assert_eq!(first, second);
    assert_eq!(first.items[1], (Snack::Water, 4));
}

#[test]
fn duplicate_initial_entries_last_one_wins() {
    let ledger = ledger_with(vec![(Snack::Chips, 7), (Snack::Water, 1), (Snack::Chips, 2)]);
    assert_eq!(ledger.count(Snack::Chips), 2);
    assert_eq!(ledger.count(Snack::Water), 1);
    assert_eq!(ledger.count(Snack::Chocolate), 0);
}

#[test]
fn rejected_owner_fails_instantiate() {
    let msg = InstantiateMsg { owner: "Bad Address".to_string(), initial_amount: vec![] };
    let err = instantiate(msg, Err("invalid address".to_string())).unwrap_err();
    assert_eq!(err, Error::StdError("invalid address".to_string()));
}

#[test]
fn instantiate_keeps_owner() {
    let ledger = ledger_with(vec![]);
    assert_eq!(ledger.owner(), "owner");
}

#[test]
fn overflow_leaves_counter() {
    let mut ledger = ledger_with(vec![(Snack::Chocolate, 1)]);
    let err = refill(&mut ledger, "owner".to_string(), Snack::Chocolate, u64::MAX).unwrap_err();
    assert_eq!(err, Error::ItemOverflow { item: Snack::Chocolate, amount: u64::MAX });
    assert_eq!(items_count(&ledger).items[0], (Snack::Chocolate, 1));
}

#[test]
fn refill_up_to_the_maximum_succeeds() {
    let mut ledger = ledger_with(vec![(Snack::Water, 1)]);
    let resp = refill(&mut ledger, "owner".to_string(), Snack::Water, u64::MAX - 1).unwrap();
    assert_eq!(
        resp,
        Response::ItemRefilled { item: Snack::Water, amount: u64::MAX - 1, total_amount: u64::MAX }
    );
    assert_eq!(ledger.count(Snack::Water), u64::MAX);
}

#[test]
fn three_withdrawals_from_one() {
    let mut ledger = ledger_with(vec![(Snack::Chocolate, 1)]);
    let first = execute(&mut ledger, "user".to_string(), ExecuteMsg::GetItem(Snack::Chocolate));
    assert_eq!(
        first,
        Ok(Response::ItemRetrieved { item: Snack::Chocolate, total_amount: 0 })
    );
    assert_eq!(ledger.count(Snack::Chocolate), 0);
    for _ in 0..2 {
        let again =
            execute(&mut ledger, "user".to_string(), ExecuteMsg::GetItem(Snack::Chocolate));
        assert_eq!(again, Err(Error::OutOfStock(Snack::Chocolate)));
        assert_eq!(ledger.count(Snack::Chocolate), 0);
    }
}

#[test]
fn stranger_cannot_refill() {
    let mut ledger = ledger_with(vec![(Snack::Chocolate, 1)]);
    let err = execute(
        &mut ledger,
        "user".to_string(),
        ExecuteMsg::Refill { item: Snack::Chocolate, amount: 1 },
    )
    .unwrap_err();
    assert_eq!(err, Error::Unauthorized { sender: "user".to_string() });
    assert_eq!(ledger.count(Snack::Chocolate), 1);
}

#[test]
fn withdraw_from_untouched_kind_is_out_of_stock() {
    let mut ledger = ledger_with(vec![(Snack::Chocolate, 3)]);
    assert_eq!(get_item(&mut ledger, Snack::Chips), Err(Error::OutOfStock(Snack::Chips)));
    assert_eq!(items_count(&ledger).items, vec![
        (Snack::Chocolate, 3),
        (Snack::Water, 0),
        (Snack::Chips, 0)
    ]);
}

#[test]
fn owner_refills_untouched_kind() {
    let mut ledger = ledger_with(vec![]);
    let resp = refill(&mut ledger, "owner".to_string(), Snack::Chips, 5).unwrap();
    assert_eq!(resp, Response::ItemRefilled { item: Snack::Chips, amount: 5, total_amount: 5 });
    assert_eq!(resp.action(), "refill");
}

#[test]
fn counter_steps() {
    assert_eq!(decrement_count(Snack::Water, Some(10)), Ok(9));
    assert_eq!(decrement_count(Snack::Water, Some(0)), Err(Error::OutOfStock(Snack::Water)));
    assert_eq!(decrement_count(Snack::Water, None), Err(Error::OutOfStock(Snack::Water)));
    assert_eq!(increment_count(Snack::Chips, 4, None), Ok(4));
    assert_eq!(increment_count(Snack::Chips, 4, Some(6)), Ok(10));
    assert_eq!(
        increment_count(Snack::Chips, 2, Some(u64::MAX - 1)),
        Err(Error::ItemOverflow { item: Snack::Chips, amount: 2 })
    );
}

#[test]
fn actions_are_named() {
    let (_, resp) =
        instantiate(InstantiateMsg { owner: "o".to_string(), initial_amount: vec![] }, Ok(()))
            .unwrap();
    assert_eq!(resp.action(), "instantiate");
    let got = Response::ItemRetrieved { item: Snack::Water, total_amount: 1 };
    assert_eq!(got.action(), "get_item");
}
