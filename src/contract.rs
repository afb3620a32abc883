use vstd::prelude::*;

use crate::errors::Error;
use crate::msg::{all_snacks, key_of, ExecuteMsg, InstantiateMsg, ItemsCountResp, QueryMsg, Snack};
use crate::state::{count_of, Ledger, LedgerModel};

verus! {

/// What a successful state-changing call reports to the host.
#[derive(Debug, Clone, PartialEq)]
pub enum Response {
    /// The inventory was set up for `owner`.
    Instantiated { owner: String },
    /// One unit of `item` was handed out; `total_amount` units remain.
    ItemRetrieved { item: Snack, total_amount: u64 },
    /// `amount` units of `item` were added; `total_amount` units are now stored.
    ItemRefilled { item: Snack, amount: u64, total_amount: u64 },
}

/// The audit tag of a response.
pub open spec fn action_of(r: Response) -> Seq<char> {
    match r {
        Response::Instantiated { .. } => "instantiate"@,
        Response::ItemRetrieved { .. } => "get_item"@,
        Response::ItemRefilled { .. } => "refill"@,
    }
}

impl Response {
    /// The audit tag that names the action taken.
    pub fn action(&self) -> (r: &'static str)
        ensures
            r@ == action_of(*self),
    {
        match self {
            Response::Instantiated { .. } => "instantiate",
            Response::ItemRetrieved { .. } => "get_item",
            Response::ItemRefilled { .. } => "refill",
        }
    }
}

/// A stored counter read back, absence counting as 0.
pub open spec fn stored(count: Option<u64>) -> u64 {
    match count {
        Some(c) => c,
        None => 0,
    }
}

/// The counters after applying the initial amounts in order; a later entry
/// for a kind overwrites an earlier one.
pub open spec fn initial_snacks(items: Seq<(Snack, u64)>) -> Map<u64, u64>
    decreases items.len(),
{
    if items.len() == 0 {
        Map::empty()
    } else {
        initial_snacks(items.drop_last()).insert(key_of(items.last().0), items.last().1)
    }
}

/// Every kind with its count, in report order.
pub open spec fn snapshot(snacks: Map<u64, u64>) -> Seq<(Snack, u64)> {
    all_snacks().map_values(|k: Snack| (k, count_of(snacks, k)))
}

/// The outcome of taking one `item` from the ledger `pre`, giving `post`.
pub open spec fn get_item_post(
    pre: LedgerModel,
    post: LedgerModel,
    item: Snack,
    r: Result<Response, Error>,
) -> bool {
    let c = count_of(pre.snacks, item);
    if c == 0 {
        &&& r == Err::<Response, Error>(Error::OutOfStock(item))
        &&& post == pre
    } else {
        &&& r == Ok::<Response, Error>(Response::ItemRetrieved { item, total_amount: (c - 1) as u64 })
        &&& post.owner == pre.owner
        &&& post.snacks == pre.snacks.insert(key_of(item), (c - 1) as u64)
    }
}

/// The outcome of `sender` adding `amount` units of `item` to the ledger
/// `pre`, giving `post`.
pub open spec fn refill_post(
    pre: LedgerModel,
    post: LedgerModel,
    sender: String,
    item: Snack,
    amount: u64,
    r: Result<Response, Error>,
) -> bool {
    let c = count_of(pre.snacks, item);
    if sender@ != pre.owner {
        &&& r == Err::<Response, Error>(Error::Unauthorized { sender })
        &&& post == pre
    } else if c + amount > u64::MAX {
        &&& r == Err::<Response, Error>(Error::ItemOverflow { item, amount })
        &&& post == pre
    } else {
        &&& r == Ok::<Response, Error>(
            Response::ItemRefilled { item, amount, total_amount: (c + amount) as u64 },
        )
        &&& post.owner == pre.owner
        &&& post.snacks == pre.snacks.insert(key_of(item), (c + amount) as u64)
    }
}

/// The outcome of the request `msg` from `sender` on the ledger `pre`.
pub open spec fn execute_post(
    pre: LedgerModel,
    post: LedgerModel,
    sender: String,
    msg: ExecuteMsg,
    r: Result<Response, Error>,
) -> bool {
    match msg {
        ExecuteMsg::GetItem(item) => get_item_post(pre, post, item, r),
        ExecuteMsg::Refill { item, amount } => refill_post(pre, post, sender, item, amount, r),
    }
}

/// Sets up a ledger owned by `msg.owner` with the initial amounts stored in
/// order. `owner_check` is the host's verdict on the owner's address; its
/// error fails the call.
pub fn instantiate(msg: InstantiateMsg, owner_check: Result<(), String>) -> (r: Result<
    (Ledger, Response),
    Error,
>)
    ensures
        match owner_check {
            Err(e) => r == Err::<(Ledger, Response), Error>(Error::StdError(e)),
            Ok(_) => r matches Ok((l, resp)) && l@.owner == msg.owner@ && l@.snacks
                == initial_snacks(msg.initial_amount@) && resp == (Response::Instantiated {
                owner: msg.owner,
            }),
        },
{
    if let Err(e) = owner_check {
        return Err(Error::StdError(e));
    }
    let mut ledger = Ledger::new(msg.owner.clone());
    let items = &msg.initial_amount;
    let mut i: usize = 0;
    while i < items.len()
        invariant
            i <= items@.len(),
            ledger@.owner == msg.owner@,
            ledger@.snacks == initial_snacks(items@.take(i as int)),
        decreases items@.len() - i,
    {
        let (snack, amount) = items[i];
        ledger.save(snack.key(), amount);
        assert(items@.take(i + 1).drop_last() =~= items@.take(i as int));
        i += 1;
    }
    assert(items@.take(i as int) =~= items@);
    Ok((ledger, Response::Instantiated { owner: msg.owner }))
}

/// Answers a read-only request.
pub fn query(ledger: &Ledger, msg: QueryMsg) -> (r: ItemsCountResp)
    ensures
        r.items@ == snapshot(ledger@.snacks),
{
    match msg {
        QueryMsg::ItemsCount => items_count(ledger),
    }
}

/// The count of every kind, in report order; 0 for a kind with nothing stored.
pub fn items_count(ledger: &Ledger) -> (r: ItemsCountResp)
    ensures
        r.items@ == snapshot(ledger@.snacks),
{
    let all = Snack::all();
    let mut items: Vec<(Snack, u64)> = Vec::new();
    let mut i: usize = 0;
    while i < all.len()
        invariant
            i <= all@.len(),
            all@ == all_snacks(),
            items@ == snapshot(ledger@.snacks).take(i as int),
        decreases all@.len() - i,
    {
        let k = all[i];
        items.push((k, ledger.count(k)));
        assert(items@ =~= snapshot(ledger@.snacks).take(i + 1));
        i += 1;
    }
    assert(items@ =~= snapshot(ledger@.snacks));
    ItemsCountResp { items }
}

/// The counter after handing out one unit, or `OutOfStock` when it is 0.
pub fn decrement_count(item: Snack, count: Option<u64>) -> (r: Result<u64, Error>)
    ensures
        stored(count) == 0 ==> r == Err::<u64, Error>(Error::OutOfStock(item)),
        stored(count) > 0 ==> r == Ok::<u64, Error>((stored(count) - 1) as u64),
{
    let c = match count {
        Some(c) => c,
        None => 0,
    };
    if c == 0 {
        Err(Error::OutOfStock(item))
    } else {
        Ok(c - 1)
    }
}

/// The counter after adding `amount`, or `ItemOverflow` when the sum does
/// not fit in a `u64`.
pub fn increment_count(item: Snack, amount: u64, count: Option<u64>) -> (r: Result<u64, Error>)
    ensures
        stored(count) + amount > u64::MAX ==> r == Err::<u64, Error>(
            Error::ItemOverflow { item, amount },
        ),
        stored(count) + amount <= u64::MAX ==> r == Ok::<u64, Error>(
            (stored(count) + amount) as u64,
        ),
{
    let c = match count {
        Some(c) => c,
        None => 0,
    };
    match c.checked_add(amount) {
        Some(total) => Ok(total),
        None => Err(Error::ItemOverflow { item, amount }),
    }
}

/// Applies a state-changing request from `sender`.
pub fn execute(ledger: &mut Ledger, sender: String, msg: ExecuteMsg) -> (r: Result<
    Response,
    Error,
>)
    ensures
        execute_post(old(ledger)@, final(ledger)@, sender, msg, r),
{
    match msg {
        ExecuteMsg::GetItem(item) => get_item(ledger, item),
        ExecuteMsg::Refill { item, amount } => refill(ledger, sender, item, amount),
    }
}

/// Takes one unit of `item`; open to any caller.
pub fn get_item(ledger: &mut Ledger, item: Snack) -> (r: Result<Response, Error>)
    ensures
        get_item_post(old(ledger)@, final(ledger)@, item, r),
{
    let key = item.key();
    match decrement_count(item, ledger.load(key)) {
        Ok(total_amount) => {
            ledger.save(key, total_amount);
            Ok(Response::ItemRetrieved { item, total_amount })
        },
        Err(e) => Err(e),
    }
}

/// Adds `amount` units of `item`; only the owner may do so.
pub fn refill(ledger: &mut Ledger, sender: String, item: Snack, amount: u64) -> (r: Result<
    Response,
    Error,
>)
    ensures
        refill_post(old(ledger)@, final(ledger)@, sender, item, amount, r),
{
    if *ledger.owner() != sender {
        return Err(Error::Unauthorized { sender });
    }
    let key = item.key();
    match increment_count(item, amount, ledger.load(key)) {
        Ok(total_amount) => {
            ledger.save(key, total_amount);
            Ok(Response::ItemRefilled { item, amount, total_amount })
        },
        Err(e) => Err(e),
    }
}

} // verus!
