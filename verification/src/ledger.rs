//! The mathematical model of the ledger: what is recorded, and what each
//! operation answers and records.

use vstd::prelude::*;
use crate::error::Error;
use crate::event::{Notification, Settlement, Transfer};

verus! {

/// The name of one record of the ledger.
#[derive(Clone, Copy, Debug, PartialEq, Eq, Structural)]
pub enum DataKey {
    /// The administrator.
    Admin,
    /// The number of queues created.
    QueueCount,
    /// The name of a queue.
    QueueName(u32),
    /// The creator of a queue.
    QueueCreator(u32),
    /// The identifier of the next ticket of a queue.
    QueueNextToken(u32),
    /// The owner of the ticket `(queue_id, token_id)`.
    Owner(u32, u32),
    /// The price at which the ticket `(queue_id, token_id)` is offered.
    Price(u32, u32),
}

/// What is recorded of a queue.
pub struct QueueInfo {
    pub name: Seq<char>,
    pub creator: Seq<char>,
    pub next_token_id: u32,
}

/// What is recorded of a ticket. A price means that the ticket is for sale.
pub struct TicketInfo {
    pub owner: Seq<char>,
    pub price: Option<u128>,
}

/// Everything the ledger records.
pub struct Ledger {
    pub admin: Option<Seq<char>>,
    pub queue_count: Option<u32>,
    pub queues: Map<u32, QueueInfo>,
    pub tickets: Map<(u32, u32), TicketInfo>,
}

impl Ledger {
    /// The ledger in which nothing is recorded.
    pub open spec fn empty() -> Ledger {
        Ledger { admin: None, queue_count: None, queues: Map::empty(), tickets: Map::empty() }
    }

    /// Whether a record exists under `key`.
    pub open spec fn has(self, key: DataKey) -> bool {
        match key {
            DataKey::Admin => self.admin is Some,
            DataKey::QueueCount => self.queue_count is Some,
            DataKey::QueueName(q) => self.queues.contains_key(q),
            DataKey::QueueCreator(q) => self.queues.contains_key(q),
            DataKey::QueueNextToken(q) => self.queues.contains_key(q),
            DataKey::Owner(q, t) => self.tickets.contains_key((q, t)),
            DataKey::Price(q, t) => self.tickets.contains_key((q, t)) && self.tickets[(
                q,
                t,
            )].price is Some,
        }
    }

    /// The number of queues created: zero while no count is recorded.
    pub open spec fn count(self) -> u32 {
        match self.queue_count {
            Some(n) => n,
            None => 0,
        }
    }

    /// The identifier that the next ticket of a queue gets: zero for a queue
    /// that is not recorded.
    pub open spec fn next_token_id(self, queue_id: u32) -> u32 {
        if self.queues.contains_key(queue_id) {
            self.queues[queue_id].next_token_id
        } else {
            0
        }
    }

    /// The name of a queue.
    pub open spec fn queue_name(self, queue_id: u32) -> Result<Seq<char>, Error> {
        if self.queues.contains_key(queue_id) {
            Ok(self.queues[queue_id].name)
        } else {
            Err(Error::QueueNotFound)
        }
    }

    /// The creator of a queue.
    pub open spec fn queue_creator(self, queue_id: u32) -> Result<Seq<char>, Error> {
        if self.queues.contains_key(queue_id) {
            Ok(self.queues[queue_id].creator)
        } else {
            Err(Error::QueueNotFound)
        }
    }

    /// The owner of a ticket.
    pub open spec fn owner(self, queue_id: u32, token_id: u32) -> Result<Seq<char>, Error> {
        if self.tickets.contains_key((queue_id, token_id)) {
            Ok(self.tickets[(queue_id, token_id)].owner)
        } else {
            Err(Error::TokenNotFound)
        }
    }

    /// The price of a ticket: zero for one that is not for sale, or not recorded.
    pub open spec fn price(self, queue_id: u32, token_id: u32) -> u128 {
        if self.has(DataKey::Price(queue_id, token_id)) {
            self.tickets[(queue_id, token_id)].price->0
        } else {
            0
        }
    }

    /// No ticket is offered at a price of zero.
    pub open spec fn prices_positive(self) -> bool {
        forall|k: (u32, u32)| #[trigger]
            self.tickets.contains_key(k) ==> self.tickets[k].price != Some(0u128)
    }

    /// Every recorded queue has an identifier below the number of queues.
    pub open spec fn queues_counted(self) -> bool {
        forall|q: u32| #[trigger] self.queues.contains_key(q) ==> q < self.count()
    }

    /// What `init_contract` answers.
    pub open spec fn init_contract_result(self) -> Result<(), Error> {
        if self.admin is Some {
            Err(Error::AlreadyInitialized)
        } else {
            Ok(())
        }
    }

    /// What is recorded after a successful `init_contract`.
    pub open spec fn after_init_contract(self, admin: Seq<char>) -> Ledger {
        Ledger { admin: Some(admin), queue_count: Some(0), ..self }
    }

    /// What `create_queue` answers.
    pub open spec fn create_queue_result(
        self,
        name: Seq<char>,
        creator: Seq<char>,
        signers: Set<Seq<char>>,
    ) -> Result<(u32, Notification), Error> {
        if !signers.contains(creator) {
            Err(Error::AuthorizationFailed)
        } else {
            Ok((self.count(), Notification::QueueCreated { queue_id: self.count(), name, creator }))
        }
    }

    /// What is recorded after a successful `create_queue`.
    pub open spec fn after_create_queue(self, name: Seq<char>, creator: Seq<char>) -> Ledger {
        Ledger {
            queue_count: Some((self.count() + 1) as u32),
            queues: self.queues.insert(
                self.count(),
                QueueInfo { name, creator, next_token_id: 0 },
            ),
            ..self
        }
    }

    /// What `join_queue` answers.
    pub open spec fn join_queue_result(
        self,
        queue_id: u32,
        user: Seq<char>,
        signers: Set<Seq<char>>,
    ) -> Result<(u32, Notification), Error> {
        if !signers.contains(user) {
            Err(Error::AuthorizationFailed)
        } else if !self.queues.contains_key(queue_id) {
            Err(Error::QueueNotFound)
        } else {
            Ok(
                (
                    self.next_token_id(queue_id),
                    Notification::Joined {
                        queue_id,
                        token_id: self.next_token_id(queue_id),
                        user,
                    },
                ),
            )
        }
    }

    /// What is recorded after a successful `join_queue`: `user` owns the
    /// ticket that the counter named, and the counter has moved on by one.
    pub open spec fn after_join_queue(self, queue_id: u32, user: Seq<char>) -> Ledger {
        let token_id = self.next_token_id(queue_id);
        let price = if self.tickets.contains_key((queue_id, token_id)) {
            self.tickets[(queue_id, token_id)].price
        } else {
            None
        };
        Ledger {
            queues: self.queues.insert(
                queue_id,
                QueueInfo { next_token_id: (token_id + 1) as u32, ..self.queues[queue_id] },
            ),
            tickets: self.tickets.insert((queue_id, token_id), TicketInfo { owner: user, price }),
            ..self
        }
    }

    /// What `list_for_sale` answers.
    pub open spec fn list_for_sale_result(
        self,
        queue_id: u32,
        token_id: u32,
        price: u128,
        signers: Set<Seq<char>>,
    ) -> Result<Notification, Error> {
        if !self.tickets.contains_key((queue_id, token_id)) {
            Err(Error::TokenNotFound)
        } else if !signers.contains(self.tickets[(queue_id, token_id)].owner) {
            Err(Error::AuthorizationFailed)
        } else if price == 0 {
            Err(Error::InvalidPrice)
        } else {
            Ok(Notification::Listed { queue_id, token_id, price })
        }
    }

    /// What is recorded after a successful `list_for_sale`.
    pub open spec fn after_list_for_sale(self, queue_id: u32, token_id: u32, price: u128) -> Ledger {
        Ledger {
            tickets: self.tickets.insert(
                (queue_id, token_id),
                TicketInfo { price: Some(price), ..self.tickets[(queue_id, token_id)] },
            ),
            ..self
        }
    }

    /// What `cancel_sale` answers.
    pub open spec fn cancel_sale_result(
        self,
        queue_id: u32,
        token_id: u32,
        signers: Set<Seq<char>>,
    ) -> Result<Notification, Error> {
        if !self.tickets.contains_key((queue_id, token_id)) {
            Err(Error::TokenNotFound)
        } else if !signers.contains(self.tickets[(queue_id, token_id)].owner) {
            Err(Error::AuthorizationFailed)
        } else if self.tickets[(queue_id, token_id)].price is None {
            Err(Error::NotListed)
        } else {
            Ok(
                Notification::Cancelled {
                    queue_id,
                    token_id,
                    owner: self.tickets[(queue_id, token_id)].owner,
                },
            )
        }
    }

    /// What is recorded after a successful `cancel_sale`.
    pub open spec fn after_cancel_sale(self, queue_id: u32, token_id: u32) -> Ledger {
        Ledger {
            tickets: self.tickets.insert(
                (queue_id, token_id),
                TicketInfo { price: None, ..self.tickets[(queue_id, token_id)] },
            ),
            ..self
        }
    }

    /// The payment that a purchase calls for, or why there can be no purchase.
    pub open spec fn payment_due(
        self,
        queue_id: u32,
        token_id: u32,
        buyer: Seq<char>,
        payment_asset: Seq<char>,
        signers: Set<Seq<char>>,
    ) -> Result<Transfer, Error> {
        if !signers.contains(buyer) {
            Err(Error::AuthorizationFailed)
        } else if !self.tickets.contains_key((queue_id, token_id)) {
            Err(Error::TokenNotFound)
        } else if self.tickets[(queue_id, token_id)].price is None {
            Err(Error::NotListed)
        } else if buyer == self.tickets[(queue_id, token_id)].owner {
            Err(Error::SelfTrade)
        } else {
            Ok(
                Transfer {
                    from: buyer,
                    to: self.tickets[(queue_id, token_id)].owner,
                    amount: self.tickets[(queue_id, token_id)].price->0,
                    asset: payment_asset,
                },
            )
        }
    }

    /// What `buy_token` answers.
    pub open spec fn buy_token_result(
        self,
        queue_id: u32,
        token_id: u32,
        buyer: Seq<char>,
        payment_asset: Seq<char>,
        signers: Set<Seq<char>>,
        settlement: Settlement,
    ) -> Result<Notification, Error> {
        match self.payment_due(queue_id, token_id, buyer, payment_asset, signers) {
            Err(e) => Err(e),
            Ok(due) => if settlement == Settlement::Failed {
                Err(Error::SettlementFailed)
            } else {
                Ok(
                    Notification::Sold {
                        queue_id,
                        token_id,
                        seller: due.to,
                        buyer,
                        price: due.amount,
                    },
                )
            },
        }
    }

    /// What is recorded after a successful `buy_token`.
    pub open spec fn after_buy_token(self, queue_id: u32, token_id: u32, buyer: Seq<char>) -> Ledger {
        Ledger {
            tickets: self.tickets.insert(
                (queue_id, token_id),
                TicketInfo { owner: buyer, price: None },
            ),
            ..self
        }
    }

    /// Whether `call` succeeds on this ledger.
    pub open spec fn accepts(self, call: Call, signers: Set<Seq<char>>) -> bool {
        match call {
            Call::InitContract { admin } => self.init_contract_result() is Ok,
            Call::CreateQueue { name, creator } => self.create_queue_result(
                name,
                creator,
                signers,
            ) is Ok,
            Call::JoinQueue { queue_id, user } => self.join_queue_result(
                queue_id,
                user,
                signers,
            ) is Ok,
            Call::ListForSale { queue_id, token_id, price } => self.list_for_sale_result(
                queue_id,
                token_id,
                price,
                signers,
            ) is Ok,
            Call::CancelSale { queue_id, token_id } => self.cancel_sale_result(
                queue_id,
                token_id,
                signers,
            ) is Ok,
            Call::BuyToken {
                queue_id,
                token_id,
                buyer,
                payment_asset,
                settlement,
            } => self.buy_token_result(
                queue_id,
                token_id,
                buyer,
                payment_asset,
                signers,
                settlement,
            ) is Ok,
        }
    }

    /// What is recorded after `call`: what the operation records where it
    /// succeeds, and what was recorded before where it fails.
    pub open spec fn after(self, call: Call, signers: Set<Seq<char>>) -> Ledger {
        if !self.accepts(call, signers) {
            self
        } else {
            match call {
                Call::InitContract { admin } => self.after_init_contract(admin),
                Call::CreateQueue { name, creator } => self.after_create_queue(name, creator),
                Call::JoinQueue { queue_id, user } => self.after_join_queue(queue_id, user),
                Call::ListForSale { queue_id, token_id, price } => self.after_list_for_sale(
                    queue_id,
                    token_id,
                    price,
                ),
                Call::CancelSale { queue_id, token_id } => self.after_cancel_sale(
                    queue_id,
                    token_id,
                ),
                Call::BuyToken { queue_id, token_id, buyer, .. } => self.after_buy_token(
                    queue_id,
                    token_id,
                    buyer,
                ),
            }
        }
    }

    /// Whether the counter that `call` moves has room to move: the one
    /// demand that the operations make of their callers.
    pub open spec fn has_room_for(self, call: Call) -> bool {
        match call {
            Call::CreateQueue { .. } => self.count() < u32::MAX,
            Call::JoinQueue { queue_id, .. } => self.next_token_id(queue_id) < u32::MAX,
            _ => true,
        }
    }
}

/// One invocation of an operation that can change the ledger, with its
/// arguments.
pub enum Call {
    InitContract { admin: Seq<char> },
    CreateQueue { name: Seq<char>, creator: Seq<char> },
    JoinQueue { queue_id: u32, user: Seq<char> },
    ListForSale { queue_id: u32, token_id: u32, price: u128 },
    CancelSale { queue_id: u32, token_id: u32 },
    BuyToken {
        queue_id: u32,
        token_id: u32,
        buyer: Seq<char>,
        payment_asset: Seq<char>,
        settlement: Settlement,
    },
}

} // verus!
