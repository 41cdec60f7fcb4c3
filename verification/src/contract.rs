//! The ledger itself: queues, their tickets, and the operations on them.

use vstd::prelude::*;
use crate::address::{Address, Authorizations};
use crate::error::Error;
use crate::event::{Event, Notification, Payment, Settlement, Transfer};
use crate::ledger::{DataKey, Ledger, QueueInfo, TicketInfo};

verus! {

/// A ticket of a queue: who owns it, and the price it is offered at, if any.
#[derive(Debug)]
pub struct Ticket {
    pub owner: Address,
    pub price: Option<u128>,
}

impl View for Ticket {
    type V = TicketInfo;

    open spec fn view(&self) -> TicketInfo {
        TicketInfo { owner: self.owner@, price: self.price }
    }
}

/// A queue and the tickets recorded under it, the ticket `t` at index `t`.
#[derive(Debug)]
pub struct QueueRecord {
    pub name: String,
    pub creator: Address,
    pub next_token_id: u32,
    pub tickets: Vec<Ticket>,
}

impl View for QueueRecord {
    type V = QueueInfo;

    open spec fn view(&self) -> QueueInfo {
        QueueInfo { name: self.name@, creator: self.creator@, next_token_id: self.next_token_id }
    }
}

impl QueueRecord {
    /// The counter does not run ahead of the tickets, and no ticket is
    /// offered at a price of zero.
    pub open spec fn valid(&self) -> bool {
        &&& self.next_token_id <= self.tickets@.len()
        &&& forall|t: int|
            0 <= t < self.tickets@.len() ==> (#[trigger] self.tickets@[t]).price != Some(0u128)
    }
}

impl QueueRecord {
    /// Whether the record can stand in a ledger.
    pub fn is_valid(&self) -> (valid: bool)
        ensures
            valid == self.valid(),
    {
        if (self.next_token_id as usize) > self.tickets.len() {
            return false;
        }
        let mut t: usize = 0;
        while t < self.tickets.len()
            invariant
                t <= self.tickets@.len(),
                forall|i: int| 0 <= i < t ==> (#[trigger] self.tickets@[i]).price != Some(0u128),
            decreases self.tickets@.len() - t,
        {
            match self.tickets[t].price {
                Some(p) => {
                    if p == 0 {
                        return false;
                    }
                },
                None => {},
            }
            t += 1;
        }
        true
    }
}

/// Whether a count and a list of queues, the queue `q` at index `q`, can be
/// the records of a ledger.
pub open spec fn records_valid(queue_count: Option<u32>, queues: Seq<QueueRecord>) -> bool {
    &&& match queue_count {
        Some(n) => n <= queues.len(),
        None => queues.len() == 0,
    }
    &&& forall|q: int| 0 <= q < queues.len() ==> (#[trigger] queues[q]).valid()
}

/// The ledger that a list of records stands for.
pub open spec fn records_ledger(
    admin: Option<Address>,
    queue_count: Option<u32>,
    queues: Seq<QueueRecord>,
) -> Ledger {
    Ledger {
        admin: match admin {
            Some(a) => Some(a@),
            None => None,
        },
        queue_count,
        queues: Map::new(|q: u32| q < queues.len(), |q: u32| queues[q as int]@),
        tickets: Map::new(
            |k: (u32, u32)| k.0 < queues.len() && k.1 < queues[k.0 as int].tickets@.len(),
            |k: (u32, u32)| queues[k.0 as int].tickets@[k.1 as int]@,
        ),
    }
}

/// The ledger of queue tickets.
///
/// Queue identifiers and, within a queue, ticket identifiers are handed out
/// in order from zero, so the records lie in vectors indexed by identifier.
pub struct QueueContract {
    admin: Option<Address>,
    queue_count: Option<u32>,
    queues: Vec<QueueRecord>,
}

impl View for QueueContract {
    type V = Ledger;

    closed spec fn view(&self) -> Ledger {
        records_ledger(self.admin, self.queue_count, self.queues@)
    }
}

impl QueueContract {
    #[verifier::type_invariant]
    spec fn well_formed(&self) -> bool {
        records_valid(self.queue_count, self.queues@)
    }

    /// A ledger in which nothing is recorded.
    pub fn new() -> (contract: QueueContract)
        ensures
            contract@ == Ledger::empty(),
    {
        let contract = QueueContract { admin: None, queue_count: None, queues: Vec::new() };
        assert(contract@.queues =~= Map::empty());
        assert(contract@.tickets =~= Map::empty());
        contract
    }

    /// The ledger that holds the given records, the queue `q` at index `q`
    /// and its ticket `t` at index `t`; `None` where they are not the records
    /// of any ledger.
    pub fn from_records(
        admin: Option<Address>,
        queue_count: Option<u32>,
        queues: Vec<QueueRecord>,
    ) -> (restored: Option<QueueContract>)
        ensures
            restored is Some <==> records_valid(queue_count, queues@),
            restored is Some ==> restored->0@ == records_ledger(admin, queue_count, queues@),
    {
        let counted = match queue_count {
            Some(n) => (n as usize) <= queues.len(),
            None => queues.len() == 0,
        };
        if !counted {
            return None;
        }
        let mut q: usize = 0;
        while q < queues.len()
            invariant
                q <= queues@.len(),
                forall|i: int| 0 <= i < q ==> (#[trigger] queues@[i]).valid(),
            decreases queues@.len() - q,
        {
            if !queues[q].is_valid() {
                return None;
            }
            q += 1;
        }
        Some(QueueContract { admin, queue_count, queues })
    }

    /// The records of this ledger, from which `from_records` makes it again.
    pub fn into_records(self) -> (records: (Option<Address>, Option<u32>, Vec<QueueRecord>))
        ensures
            records_valid(records.1, records.2@),
            records_ledger(records.0, records.1, records.2@) == self@,
    {
        proof {
            use_type_invariant(&self);
        }
        let QueueContract { admin, queue_count, queues } = self;
        (admin, queue_count, queues)
    }

    /// Moves the records out and leaves an empty ledger in their place, so
    /// that an operation can work on them and put the outcome back.
    fn take(&mut self) -> (taken: QueueContract)
        ensures
            taken == *old(self),
            final(self)@ == Ledger::empty(),
    {
        let mut taken = QueueContract::new();
        std::mem::swap(self, &mut taken);
        taken
    }

    /// Whether a record exists under `key`.
    pub fn has(&self, key: &DataKey) -> (present: bool)
        ensures
            present == self@.has(*key),
    {
        match *key {
            DataKey::Admin => self.admin.is_some(),
            DataKey::QueueCount => self.queue_count.is_some(),
            DataKey::QueueName(q) => (q as usize) < self.queues.len(),
            DataKey::QueueCreator(q) => (q as usize) < self.queues.len(),
            DataKey::QueueNextToken(q) => (q as usize) < self.queues.len(),
            DataKey::Owner(q, t) => (q as usize) < self.queues.len() && (t as usize)
                < self.queues[q as usize].tickets.len(),
            DataKey::Price(q, t) => (q as usize) < self.queues.len() && (t as usize)
                < self.queues[q as usize].tickets.len()
                && self.queues[q as usize].tickets[t as usize].price.is_some(),
        }
    }

    /// The owner of a ticket, or `TokenNotFound` where none is recorded.
    pub fn owner_of(&self, queue_id: u32, token_id: u32) -> (owner: Result<Address, Error>)
        ensures
            match owner {
                Ok(a) => self@.owner(queue_id, token_id) == Ok::<Seq<char>, Error>(a@),
                Err(e) => self@.owner(queue_id, token_id) == Err::<Seq<char>, Error>(e),
            },
    {
        if self.has(&DataKey::Owner(queue_id, token_id)) {
            Ok(self.queues[queue_id as usize].tickets[token_id as usize].owner.clone())
        } else {
            Err(Error::TokenNotFound)
        }
    }

    /// The price of a ticket: zero where it is not for sale or not recorded.
    pub fn get_price(&self, queue_id: u32, token_id: u32) -> (price: u128)
        ensures
            price == self@.price(queue_id, token_id),
            self@.has(DataKey::Price(queue_id, token_id)) <==> price > 0,
            self@.prices_positive(),
    {
        proof {
            use_type_invariant(self);
        }
        if self.has(&DataKey::Owner(queue_id, token_id)) {
            match self.queues[queue_id as usize].tickets[token_id as usize].price {
                Some(p) => p,
                None => 0,
            }
        } else {
            0
        }
    }

    /// The identifier that the next ticket of a queue gets, which is the
    /// number of tickets minted in it: zero for a queue that is not recorded.
    pub fn get_next_token_id(&self, queue_id: u32) -> (next: u32)
        ensures
            next == self@.next_token_id(queue_id),
    {
        if (queue_id as usize) < self.queues.len() {
            self.queues[queue_id as usize].next_token_id
        } else {
            0
        }
    }

    /// The number of queues created.
    pub fn get_queue_count(&self) -> (count: u32)
        ensures
            count == self@.count(),
    {
        match self.queue_count {
            Some(n) => n,
            None => 0,
        }
    }

    /// The name of a queue, or `QueueNotFound` where none is recorded.
    pub fn get_queue_name(&self, queue_id: u32) -> (name: Result<String, Error>)
        ensures
            match name {
                Ok(s) => self@.queue_name(queue_id) == Ok::<Seq<char>, Error>(s@),
                Err(e) => self@.queue_name(queue_id) == Err::<Seq<char>, Error>(e),
            },
    {
        if (queue_id as usize) < self.queues.len() {
            Ok(self.queues[queue_id as usize].name.clone())
        } else {
            Err(Error::QueueNotFound)
        }
    }

    /// The creator of a queue, or `QueueNotFound` where none is recorded.
    pub fn get_queue_creator(&self, queue_id: u32) -> (creator: Result<Address, Error>)
        ensures
            match creator {
                Ok(a) => self@.queue_creator(queue_id) == Ok::<Seq<char>, Error>(a@),
                Err(e) => self@.queue_creator(queue_id) == Err::<Seq<char>, Error>(e),
            },
    {
        if (queue_id as usize) < self.queues.len() {
            Ok(self.queues[queue_id as usize].creator.clone())
        } else {
            Err(Error::QueueNotFound)
        }
    }

    /// The administrator, once one is recorded.
    pub fn admin(&self) -> (admin: Option<Address>)
        ensures
            match admin {
                Some(a) => self@.admin == Some(a@),
                None => self@.admin is None,
            },
    {
        match &self.admin {
            Some(a) => Some(a.clone()),
            None => None,
        }
    }

    /// Records the administrator and sets the number of queues to zero.
    ///
    /// Fails with `AlreadyInitialized`, and changes nothing, where an
    /// administrator is already recorded.
    pub fn init_contract(&mut self, admin: Address) -> (done: Result<(), Error>)
        ensures
            done == old(self)@.init_contract_result(),
            final(self)@ == if done is Ok {
                old(self)@.after_init_contract(admin@)
            } else {
                old(self)@
            },
    {
        proof {
            use_type_invariant(&*self);
        }
        if self.has(&DataKey::Admin) {
            return Err(Error::AlreadyInitialized);
        }
        self.admin = Some(admin);
        self.queue_count = Some(0);
        Ok(())
    }

    /// Creates a queue for `creator` and answers with its identifier, which
    /// is the number of queues created before.
    ///
    /// The queue starts with no tickets, and the number of queues grows by
    /// one. Fails with `AuthorizationFailed`, and changes nothing, where
    /// `creator` has not authorized the invocation.
    pub fn create_queue(&mut self, name: String, creator: Address, auth: &Authorizations) -> (created:
        Result<(u32, Event), Error>)
        requires
            old(self)@.count() < u32::MAX,
        ensures
            match created {
                Ok((id, event)) => old(self)@.create_queue_result(
                    name@,
                    creator@,
                    auth.principals(),
                ) == Ok::<_, Error>((id, event@)),
                Err(e) => old(self)@.create_queue_result(name@, creator@, auth.principals())
                    == Err::<(u32, Notification), _>(e),
            },
            final(self)@ == if created is Ok {
                old(self)@.after_create_queue(name@, creator@)
            } else {
                old(self)@
            },
    {
        proof {
            use_type_invariant(&*self);
        }
        if !auth.is_authorized(&creator) {
            return Err(Error::AuthorizationFailed);
        }
        let queue_id = self.get_queue_count();
        let event = Event::QueueCreated { queue_id, name: name.clone(), creator: creator.clone() };
        let QueueContract { admin, queue_count: _, mut queues } = self.take();
        if (queue_id as usize) < queues.len() {
            let record = &mut queues[queue_id as usize];
            record.name = name;
            record.creator = creator;
            record.next_token_id = 0;
        } else {
            queues.push(QueueRecord { name, creator, next_token_id: 0, tickets: Vec::new() });
        }
        *self = QueueContract { admin, queue_count: Some(queue_id + 1), queues };
        proof {
            let after = old(self)@.after_create_queue(name@, creator@);
            assert(self@.queues =~= after.queues);
            assert(self@.tickets =~= after.tickets);
        }
        Ok((queue_id, event))
    }

    /// Mints the next ticket of a queue to `user` and answers with its
    /// identifier, which is the number of tickets minted in the queue before.
    ///
    /// Fails, and changes nothing, with `AuthorizationFailed` where `user`
    /// has not authorized the invocation, else with `QueueNotFound` where no
    /// queue is recorded under `queue_id`.
    pub fn join_queue(&mut self, queue_id: u32, user: Address, auth: &Authorizations) -> (joined:
        Result<(u32, Event), Error>)
        requires
            old(self)@.next_token_id(queue_id) < u32::MAX,
        ensures
            match joined {
                Ok((id, event)) => old(self)@.join_queue_result(queue_id, user@, auth.principals())
                    == Ok::<_, Error>((id, event@)),
                Err(e) => old(self)@.join_queue_result(queue_id, user@, auth.principals())
                    == Err::<(u32, Notification), _>(e),
            },
            final(self)@ == if joined is Ok {
                old(self)@.after_join_queue(queue_id, user@)
            } else {
                old(self)@
            },
    {
        proof {
            use_type_invariant(&*self);
        }
        if !auth.is_authorized(&user) {
            return Err(Error::AuthorizationFailed);
        }
        if !self.has(&DataKey::QueueName(queue_id)) {
            return Err(Error::QueueNotFound);
        }
        let token_id = self.get_next_token_id(queue_id);
        let event = Event::Joined { queue_id, token_id, user: user.clone() };
        let QueueContract { admin, queue_count, mut queues } = self.take();
        let record = &mut queues[queue_id as usize];
        if (token_id as usize) < record.tickets.len() {
            record.tickets[token_id as usize].owner = user;
        } else {
            record.tickets.push(Ticket { owner: user, price: None });
        }
        record.next_token_id = token_id + 1;
        *self = QueueContract { admin, queue_count, queues };
        proof {
            let after = old(self)@.after_join_queue(queue_id, user@);
            assert(self@.queues =~= after.queues);
            assert(self@.tickets =~= after.tickets);
        }
        Ok((token_id, event))
    }

    /// Offers a ticket for sale at `price`, in place of any earlier price.
    ///
    /// Fails, and changes nothing, with `TokenNotFound` where no ticket is
    /// recorded, else with `AuthorizationFailed` where its owner has not
    /// authorized the invocation, else with `InvalidPrice` where `price` is
    /// zero.
    pub fn list_for_sale(
        &mut self,
        queue_id: u32,
        token_id: u32,
        price: u128,
        auth: &Authorizations,
    ) -> (listed: Result<Event, Error>)
        ensures
            match listed {
                Ok(event) => old(self)@.list_for_sale_result(
                    queue_id,
                    token_id,
                    price,
                    auth.principals(),
                ) == Ok::<_, Error>(event@),
                Err(e) => old(self)@.list_for_sale_result(
                    queue_id,
                    token_id,
                    price,
                    auth.principals(),
                ) == Err::<Notification, _>(e),
            },
            final(self)@ == if listed is Ok {
                old(self)@.after_list_for_sale(queue_id, token_id, price)
            } else {
                old(self)@
            },
    {
        proof {
            use_type_invariant(&*self);
        }
        if !self.has(&DataKey::Owner(queue_id, token_id)) {
            return Err(Error::TokenNotFound);
        }
        if !auth.is_authorized(&self.queues[queue_id as usize].tickets[token_id as usize].owner) {
            return Err(Error::AuthorizationFailed);
        }
        if price == 0 {
            return Err(Error::InvalidPrice);
        }
        let QueueContract { admin, queue_count, mut queues } = self.take();
        queues[queue_id as usize].tickets[token_id as usize].price = Some(price);
        *self = QueueContract { admin, queue_count, queues };
        proof {
            let after = old(self)@.after_list_for_sale(queue_id, token_id, price);
            assert(self@.queues =~= after.queues);
            assert(self@.tickets =~= after.tickets);
        }
        Ok(Event::Listed { queue_id, token_id, price })
    }

    /// Withdraws the offer of a ticket: afterwards it carries no price.
    ///
    /// Fails, and changes nothing, with `TokenNotFound` where no ticket is
    /// recorded, else with `AuthorizationFailed` where its owner has not
    /// authorized the invocation, else with `NotListed` where it carries no
    /// price.
    pub fn cancel_sale(&mut self, queue_id: u32, token_id: u32, auth: &Authorizations) -> (cancelled:
        Result<Event, Error>)
        ensures
            match cancelled {
                Ok(event) => old(self)@.cancel_sale_result(queue_id, token_id, auth.principals())
                    == Ok::<_, Error>(event@),
                Err(e) => old(self)@.cancel_sale_result(queue_id, token_id, auth.principals())
                    == Err::<Notification, _>(e),
            },
            final(self)@ == if cancelled is Ok {
                old(self)@.after_cancel_sale(queue_id, token_id)
            } else {
                old(self)@
            },
    {
        proof {
            use_type_invariant(&*self);
        }
        if !self.has(&DataKey::Owner(queue_id, token_id)) {
            return Err(Error::TokenNotFound);
        }
        let owner = self.queues[queue_id as usize].tickets[token_id as usize].owner.clone();
        if !auth.is_authorized(&owner) {
            return Err(Error::AuthorizationFailed);
        }
        if !self.has(&DataKey::Price(queue_id, token_id)) {
            return Err(Error::NotListed);
        }
        let QueueContract { admin, queue_count, mut queues } = self.take();
        queues[queue_id as usize].tickets[token_id as usize].price = None;
        *self = QueueContract { admin, queue_count, queues };
        proof {
            let after = old(self)@.after_cancel_sale(queue_id, token_id);
            assert(self@.queues =~= after.queues);
            assert(self@.tickets =~= after.tickets);
        }
        Ok(Event::Cancelled { queue_id, token_id, owner })
    }

    /// The payment that the purchase of a ticket by `buyer` calls for: its
    /// price, in `payment_asset`, from `buyer` to the ticket's owner.
    ///
    /// Fails with `AuthorizationFailed` where `buyer` has not authorized the
    /// invocation, else with `TokenNotFound` where no ticket is recorded, else
    /// with `NotListed` where it carries no price, else with `SelfTrade` where
    /// `buyer` owns it.
    pub fn payment_due(
        &self,
        queue_id: u32,
        token_id: u32,
        buyer: &Address,
        payment_asset: &Address,
        auth: &Authorizations,
    ) -> (due: Result<Payment, Error>)
        ensures
            match due {
                Ok(payment) => self@.payment_due(
                    queue_id,
                    token_id,
                    buyer@,
                    payment_asset@,
                    auth.principals(),
                ) == Ok::<_, Error>(payment@),
                Err(e) => self@.payment_due(
                    queue_id,
                    token_id,
                    buyer@,
                    payment_asset@,
                    auth.principals(),
                ) == Err::<Transfer, _>(e),
            },
    {
        if !auth.is_authorized(buyer) {
            return Err(Error::AuthorizationFailed);
        }
        if !self.has(&DataKey::Owner(queue_id, token_id)) {
            return Err(Error::TokenNotFound);
        }
        let ticket = &self.queues[queue_id as usize].tickets[token_id as usize];
        let amount = match ticket.price {
            Some(p) => p,
            None => {
                return Err(Error::NotListed);
            },
        };
        if buyer.same_as(&ticket.owner) {
            return Err(Error::SelfTrade);
        }
        Ok(
            Payment {
                from: buyer.clone(),
                to: ticket.owner.clone(),
                amount,
                asset: payment_asset.clone(),
            },
        )
    }

    /// Hands a ticket that is for sale to `buyer`, once the payment for it
    /// is settled: `buyer` then owns the ticket, and it carries no price.
    ///
    /// The payment is the one that `payment_due` names, and `settlement`
    /// says how it ended. Fails, and changes nothing, wherever `payment_due`
    /// fails, with the same error and whatever `settlement` says, else with
    /// `SettlementFailed` where the payment failed.
    pub fn buy_token(
        &mut self,
        queue_id: u32,
        token_id: u32,
        buyer: Address,
        payment_asset: Address,
        auth: &Authorizations,
        settlement: Settlement,
    ) -> (bought: Result<Event, Error>)
        ensures
            match bought {
                Ok(event) => old(self)@.buy_token_result(
                    queue_id,
                    token_id,
                    buyer@,
                    payment_asset@,
                    auth.principals(),
                    settlement,
                ) == Ok::<_, Error>(event@),
                Err(e) => old(self)@.buy_token_result(
                    queue_id,
                    token_id,
                    buyer@,
                    payment_asset@,
                    auth.principals(),
                    settlement,
                ) == Err::<Notification, _>(e),
            },
            final(self)@ == if bought is Ok {
                old(self)@.after_buy_token(queue_id, token_id, buyer@)
            } else {
                old(self)@
            },
    {
        proof {
            use_type_invariant(&*self);
        }
        let due = match self.payment_due(queue_id, token_id, &buyer, &payment_asset, auth) {
            Ok(payment) => payment,
            Err(e) => {
                return Err(e);
            },
        };
        match settlement {
            Settlement::Failed => {
                return Err(Error::SettlementFailed);
            },
            Settlement::Settled => {},
        }
        let event = Event::Sold {
            queue_id,
            token_id,
            seller: due.to,
            buyer: buyer.clone(),
            price: due.amount,
        };
        let QueueContract { admin, queue_count, mut queues } = self.take();
        let ticket = &mut queues[queue_id as usize].tickets[token_id as usize];
        ticket.owner = buyer;
        ticket.price = None;
        *self = QueueContract { admin, queue_count, queues };
        proof {
            let after = old(self)@.after_buy_token(queue_id, token_id, buyer@);
            assert(self@.queues =~= after.queues);
            assert(self@.tickets =~= after.tickets);
        }
        Ok(event)
    }
}

} // verus!
