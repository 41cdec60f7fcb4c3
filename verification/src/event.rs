//! What an operation hands back for the world outside the ledger: the
//! notification to publish, and the payment a purchase calls for.

use vstd::prelude::*;
use crate::address::Address;

verus! {

/// A notification, as the model of the ledger speaks of it.
pub enum Notification {
    QueueCreated { queue_id: u32, name: Seq<char>, creator: Seq<char> },
    Joined { queue_id: u32, token_id: u32, user: Seq<char> },
    Listed { queue_id: u32, token_id: u32, price: u128 },
    Cancelled { queue_id: u32, token_id: u32, owner: Seq<char> },
    Sold { queue_id: u32, token_id: u32, seller: Seq<char>, buyer: Seq<char>, price: u128 },
}

impl Notification {
    /// The topic under which a notification is published.
    pub open spec fn topic(self) -> Seq<char> {
        match self {
            Notification::QueueCreated { .. } => "queue_created"@,
            Notification::Joined { .. } => "joined"@,
            Notification::Listed { .. } => "listed"@,
            Notification::Cancelled { .. } => "cancelled"@,
            Notification::Sold { .. } => "sold"@,
        }
    }
}

/// The notification that a successful operation asks its caller to publish.
#[derive(Debug)]
pub enum Event {
    /// A queue was created.
    QueueCreated { queue_id: u32, name: String, creator: Address },
    /// A ticket was minted to `user`.
    Joined { queue_id: u32, token_id: u32, user: Address },
    /// A ticket was offered at `price`.
    Listed { queue_id: u32, token_id: u32, price: u128 },
    /// The offer of a ticket was withdrawn by its owner.
    Cancelled { queue_id: u32, token_id: u32, owner: Address },
    /// A ticket went from `seller` to `buyer` for `price`.
    Sold { queue_id: u32, token_id: u32, seller: Address, buyer: Address, price: u128 },
}

impl View for Event {
    type V = Notification;

    open spec fn view(&self) -> Notification {
        match *self {
            Event::QueueCreated { queue_id, name, creator } => Notification::QueueCreated {
                queue_id,
                name: name@,
                creator: creator@,
            },
            Event::Joined { queue_id, token_id, user } => Notification::Joined {
                queue_id,
                token_id,
                user: user@,
            },
            Event::Listed { queue_id, token_id, price } => Notification::Listed {
                queue_id,
                token_id,
                price,
            },
            Event::Cancelled { queue_id, token_id, owner } => Notification::Cancelled {
                queue_id,
                token_id,
                owner: owner@,
            },
            Event::Sold { queue_id, token_id, seller, buyer, price } => Notification::Sold {
                queue_id,
                token_id,
                seller: seller@,
                buyer: buyer@,
                price,
            },
        }
    }
}

impl Event {
    /// The topic under which this notification is published.
    pub fn topic(&self) -> (name: &'static str)
        ensures
            name@ == self@.topic(),
    {
        match self {
            Event::QueueCreated { .. } => "queue_created",
            Event::Joined { .. } => "joined",
            Event::Listed { .. } => "listed",
            Event::Cancelled { .. } => "cancelled",
            Event::Sold { .. } => "sold",
        }
    }
}

/// A payment, as the model of the ledger speaks of it.
pub struct Transfer {
    pub from: Seq<char>,
    pub to: Seq<char>,
    pub amount: u128,
    pub asset: Seq<char>,
}

/// The payment that a purchase calls for: `amount` units of `asset`, in its
/// smallest unit, from the buyer to the seller.
#[derive(Debug)]
pub struct Payment {
    pub from: Address,
    pub to: Address,
    pub amount: u128,
    pub asset: Address,
}

impl View for Payment {
    type V = Transfer;

    open spec fn view(&self) -> Transfer {
        Transfer { from: self.from@, to: self.to@, amount: self.amount, asset: self.asset@ }
    }
}

/// How the payment for a purchase ended.
#[derive(Clone, Copy, Debug, PartialEq, Eq, Structural)]
pub enum Settlement {
    /// The amount due has moved from the buyer to the seller.
    Settled,
    /// Nothing has moved.
    Failed,
}

} // verus!
