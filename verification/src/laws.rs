//! What holds of the ledger whatever is recorded in it and whichever
//! operation is invoked on it.

use vstd::prelude::*;
use crate::error::Error;
use crate::event::{Notification, Settlement};
use crate::ledger::{Call, DataKey, Ledger};

verus! {

/// Joining a recorded queue mints the ticket that the queue's counter named
/// to the one who joined and moves that counter on by exactly one: it leaves
/// no gap and uses no identifier twice. The counters of the other queues
/// stay as they were.
pub proof fn law_join_mints_next_ticket(
    pre: Ledger,
    queue_id: u32,
    user: Seq<char>,
    signers: Set<Seq<char>>,
)
    requires
        pre.queues.contains_key(queue_id),
        signers.contains(user),
        pre.next_token_id(queue_id) < u32::MAX,
    ensures
        ({
            let post = pre.after(Call::JoinQueue { queue_id, user }, signers);
            let token_id = pre.next_token_id(queue_id);
            &&& pre.join_queue_result(queue_id, user, signers) is Ok
            &&& pre.join_queue_result(queue_id, user, signers)->Ok_0.0 == token_id
            &&& post.next_token_id(queue_id) == token_id + 1
            &&& post.owner(queue_id, token_id) == Ok::<_, Error>(user)
            &&& forall|q: u32| q != queue_id ==> post.next_token_id(q) == pre.next_token_id(q)
            &&& forall|t: u32|
                t != token_id ==> post.owner(queue_id, t) == pre.owner(queue_id, t)
        }),
{
}

/// No operation lowers the counter of a queue, as long as every recorded
/// queue has an identifier below the number of queues.
pub proof fn law_next_token_id_never_decreases(
    pre: Ledger,
    call: Call,
    signers: Set<Seq<char>>,
    queue_id: u32,
)
    requires
        pre.queues_counted(),
        pre.has_room_for(call),
    ensures
        pre.after(call, signers).next_token_id(queue_id) >= pre.next_token_id(queue_id),
{
}

/// Once an administrator is recorded, every recorded queue keeps an
/// identifier below the number of queues, and the administrator stays.
pub proof fn law_queues_stay_counted(pre: Ledger, call: Call, signers: Set<Seq<char>>)
    requires
        pre.admin is Some,
        pre.queues_counted(),
        pre.has_room_for(call),
    ensures
        pre.after(call, signers).queues_counted(),
        pre.after(call, signers).admin == pre.admin,
{
}

/// Initialising the empty ledger records an administrator and leaves every
/// recorded queue, of which there is none, below the number of queues.
pub proof fn law_first_initialization(admin: Seq<char>, signers: Set<Seq<char>>)
    ensures
        Ledger::empty().accepts(Call::InitContract { admin }, signers),
        Ledger::empty().after(Call::InitContract { admin }, signers).admin == Some(admin),
        Ledger::empty().after(Call::InitContract { admin }, signers).count() == 0,
        Ledger::empty().after(Call::InitContract { admin }, signers).queues_counted(),
        Ledger::empty().prices_positive(),
{
}

/// No operation records a price of zero: where every recorded price is
/// positive before an operation, every recorded price is positive after it,
/// and the price read of a ticket is zero exactly where it carries none.
pub proof fn law_prices_stay_positive(pre: Ledger, call: Call, signers: Set<Seq<char>>)
    requires
        pre.prices_positive(),
    ensures
        pre.after(call, signers).prices_positive(),
        forall|q: u32, t: u32|
            pre.after(call, signers).has(DataKey::Price(q, t)) <==> #[trigger] pre.after(
                call,
                signers,
            ).price(q, t) > 0,
{
    let post = pre.after(call, signers);
    assert forall|k: (u32, u32)| #[trigger] post.tickets.contains_key(k) implies post.tickets[k].price
        != Some(0u128) by {
        if pre.tickets.contains_key(k) {
            assert(pre.tickets[k].price != Some(0u128));
        }
    }
    assert forall|q: u32, t: u32|
        post.has(DataKey::Price(q, t)) <==> #[trigger] post.price(q, t) > 0 by {
        if post.tickets.contains_key((q, t)) {
            assert(post.tickets[(q, t)].price != Some(0u128));
        }
    }
}

/// A second initialisation fails with `AlreadyInitialized` and leaves the
/// administrator, the counters and everything else as the first one left
/// them.
pub proof fn law_second_initialization_fails(
    pre: Ledger,
    first: Seq<char>,
    second: Seq<char>,
    signers: Set<Seq<char>>,
)
    requires
        pre.init_contract_result() is Ok,
    ensures
        ({
            let once = pre.after(Call::InitContract { admin: first }, signers);
            let twice = once.after(Call::InitContract { admin: second }, signers);
            &&& once.init_contract_result() == Err::<(), _>(Error::AlreadyInitialized)
            &&& twice == once
            &&& twice.admin == Some(first)
            &&& twice.count() == 0
        }),
{
}

/// A purchase hands over the ticket and takes it off the market, or does
/// nothing at all: where it succeeds, the buyer owns the ticket and its price
/// reads zero; where the payment failed, or the purchase is refused for any
/// other reason, everything is as before.
pub proof fn law_purchase_is_atomic(
    pre: Ledger,
    queue_id: u32,
    token_id: u32,
    buyer: Seq<char>,
    payment_asset: Seq<char>,
    signers: Set<Seq<char>>,
    settlement: Settlement,
)
    ensures
        ({
            let call = Call::BuyToken { queue_id, token_id, buyer, payment_asset, settlement };
            let post = pre.after(call, signers);
            &&& pre.accepts(call, signers) ==> {
                &&& settlement == Settlement::Settled
                &&& post.owner(queue_id, token_id) == Ok::<_, Error>(buyer)
                &&& post.price(queue_id, token_id) == 0
            }
            &&& !pre.accepts(call, signers) ==> post == pre
            &&& settlement == Settlement::Failed ==> {
                &&& !pre.accepts(call, signers)
                &&& post.owner(queue_id, token_id) == pre.owner(queue_id, token_id)
                &&& post.price(queue_id, token_id) == pre.price(queue_id, token_id)
            }
        }),
{
}

/// Nobody buys a ticket from themselves: where the buyer owns the ticket,
/// the purchase fails and changes nothing, however the payment ended; and
/// where the buyer has authorized the invocation and the ticket is for sale,
/// it fails with `SelfTrade`.
pub proof fn law_self_trade_is_rejected(
    pre: Ledger,
    queue_id: u32,
    token_id: u32,
    buyer: Seq<char>,
    payment_asset: Seq<char>,
    signers: Set<Seq<char>>,
    settlement: Settlement,
)
    requires
        pre.owner(queue_id, token_id) == Ok::<_, Error>(buyer),
    ensures
        ({
            let call = Call::BuyToken { queue_id, token_id, buyer, payment_asset, settlement };
            let answer = pre.buy_token_result(
                queue_id,
                token_id,
                buyer,
                payment_asset,
                signers,
                settlement,
            );
            &&& answer is Err
            &&& pre.after(call, signers) == pre
            &&& signers.contains(buyer) && pre.has(DataKey::Price(queue_id, token_id)) ==> answer
                == Err::<Notification, _>(Error::SelfTrade)
        }),
{
}

} // verus!
