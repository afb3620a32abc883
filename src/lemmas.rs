use vstd::prelude::*;

use crate::contract::{execute_post, initial_snacks, snapshot, Response};
use crate::errors::Error;
use crate::msg::{ExecuteMsg, Snack};
use crate::state::{count_of, LedgerModel};

verus! {

/// Taking an item whose counter is 0 fails with `OutOfStock` naming that
/// item, and leaves every counter as it was.
pub proof fn lemma_empty_item_cannot_be_taken(
    pre: LedgerModel,
    post: LedgerModel,
    sender: String,
    item: Snack,
    r: Result<Response, Error>,
)
    requires
        count_of(pre.snacks, item) == 0,
        execute_post(pre, post, sender, ExecuteMsg::GetItem(item), r),
    ensures
        r == Err::<Response, Error>(Error::OutOfStock(item)),
        forall|k: Snack| count_of(post.snacks, k) == count_of(pre.snacks, k),
{
}

/// A refill sent by anyone but the owner fails with `Unauthorized` naming the
/// sender, and leaves every counter as it was.
pub proof fn lemma_only_owner_refills(
    pre: LedgerModel,
    post: LedgerModel,
    sender: String,
    item: Snack,
    amount: u64,
    r: Result<Response, Error>,
)
    requires
        sender@ != pre.owner,
        execute_post(pre, post, sender, ExecuteMsg::Refill { item, amount }, r),
    ensures
        r == Err::<Response, Error>(Error::Unauthorized { sender }),
        forall|k: Snack| count_of(post.snacks, k) == count_of(pre.snacks, k),
{
}

/// A refill by the owner that would push a counter past `u64::MAX` fails
/// with `ItemOverflow` naming the item and amount, and leaves the counter as
/// it was.
pub proof fn lemma_refill_never_wraps(
    pre: LedgerModel,
    post: LedgerModel,
    sender: String,
    item: Snack,
    amount: u64,
    r: Result<Response, Error>,
)
    requires
        sender@ == pre.owner,
        count_of(pre.snacks, item) + amount > u64::MAX,
        execute_post(pre, post, sender, ExecuteMsg::Refill { item, amount }, r),
    ensures
        r == Err::<Response, Error>(Error::ItemOverflow { item, amount }),
        count_of(post.snacks, item) == count_of(pre.snacks, item),
{
}

/// Two queries of a ledger with no state-changing call between them give
/// the same answer.
pub proof fn lemma_query_is_idempotent(
    ledger: LedgerModel,
    first: Seq<(Snack, u64)>,
    second: Seq<(Snack, u64)>,
)
    requires
        first == snapshot(ledger.snacks),
        second == snapshot(ledger.snacks),
    ensures
        first == second,
{
}

/// A query lists every kind exactly once, each with its current count.
pub proof fn lemma_query_lists_every_kind_once(snacks: Map<u64, u64>, k: Snack)
    ensures
        snapshot(snacks).len() == 3,
        exists|i: int|
            0 <= i < 3 && #[trigger] snapshot(snacks)[i] == (k, count_of(snacks, k)),
        forall|i: int, j: int|
            0 <= i < j < 3 ==> (#[trigger] snapshot(snacks)[i]).0 != (#[trigger] snapshot(
                snacks,
            )[j]).0,
{
    let s = snapshot(snacks);
    match k {
        Snack::Chocolate => assert(s[0] == (k, count_of(snacks, k))),
        Snack::Water => assert(s[1] == (k, count_of(snacks, k))),
        Snack::Chips => assert(s[2] == (k, count_of(snacks, k))),
    }
}

/// No state-changing request, successful or not, changes the owner.
pub proof fn lemma_owner_is_fixed(
    pre: LedgerModel,
    post: LedgerModel,
    sender: String,
    msg: ExecuteMsg,
    r: Result<Response, Error>,
)
    requires
        execute_post(pre, post, sender, msg, r),
    ensures
        post.owner == pre.owner,
{
}

/// At setup, the last entry for a kind decides its count; earlier entries
/// for the same kind are overwritten, not summed.
pub proof fn lemma_last_initial_entry_wins(items: Seq<(Snack, u64)>, k: Snack, amount: u64)
    ensures
        count_of(initial_snacks(items.push((k, amount))), k) == amount,
{
    assert(items.push((k, amount)).drop_last() =~= items);
}

} // verus!
