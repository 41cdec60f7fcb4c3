use queue_contract::{
    Address, Authorizations, DataKey, Error, Event, QueueContract, QueueRecord, Settlement, Ticket,
};

fn address(key: &str) -> Address {
    Address::new(String::from(key))
}

fn signed_by(signers: &[&Address]) -> Authorizations {
    let mut auth = Authorizations::none();
    for who in signers {
        auth.approve((*who).clone());
    }
    auth
}

/// An initialised ledger with queue 0, in which `seller` holds ticket 0 and
/// offers it at `price`.
fn market(seller: &Address, price: u128) -> QueueContract {
    let auth = signed_by(&[seller]);
    let mut contract = QueueContract::new();
    contract.init_contract(address("GADMIN")).unwrap();
    contract.create_queue(String::from("alpha"), seller.clone(), &auth).unwrap();
    contract.join_queue(0, seller.clone(), &auth).unwrap();
    contract.list_for_sale(0, 0, price, &auth).unwrap();
    contract
}

#[test]
fn empty_ledger_reads_defaults() {
    let contract = QueueContract::new();
    assert!(contract.admin().is_none());
    assert_eq!(contract.get_queue_count(), 0);
    assert_eq!(contract.get_next_token_id(0), 0);
    assert_eq!(contract.get_price(0, 0), 0);
    assert_eq!(contract.owner_of(0, 0), Err(Error::TokenNotFound));
    assert_eq!(contract.get_queue_name(0), Err(Error::QueueNotFound));
    assert_eq!(contract.get_queue_creator(0), Err(Error::QueueNotFound));
    for key in [
        DataKey::Admin,
        DataKey::QueueCount,
        DataKey::QueueName(0),
        DataKey::QueueCreator(0),
        DataKey::QueueNextToken(0),
        DataKey::Owner(0, 0),
        DataKey::Price(0, 0),
    ] {
        assert!(!contract.has(&key));
    }
}

#[test]
fn records_appear_under_their_keys() {
    let u1 = address("GUSER1");
    let mut contract = QueueContract::new();
    contract.init_contract(address("GADMIN")).unwrap();
    assert!(contract.has(&DataKey::Admin));
    assert!(contract.has(&DataKey::QueueCount));
    assert_eq!(contract.admin(), Some(address("GADMIN")));

    let auth = signed_by(&[&u1]);
    contract.create_queue(String::from("alpha"), u1.clone(), &auth).unwrap();
    assert!(contract.has(&DataKey::QueueName(0)));
    assert!(contract.has(&DataKey::QueueCreator(0)));
    assert!(contract.has(&DataKey::QueueNextToken(0)));
    assert!(!contract.has(&DataKey::QueueName(1)));
    assert!(!contract.has(&DataKey::Owner(0, 0)));

    contract.join_queue(0, u1.clone(), &auth).unwrap();
    assert!(contract.has(&DataKey::Owner(0, 0)));
    assert!(!contract.has(&DataKey::Owner(0, 1)));
    assert!(!contract.has(&DataKey::Owner(1, 0)));
    assert!(!contract.has(&DataKey::Price(0, 0)));

    contract.list_for_sale(0, 0, 1, &auth).unwrap();
    assert!(contract.has(&DataKey::Price(0, 0)));
    assert_eq!(contract.get_price(0, 0), 1);
}

#[test]
fn second_initialization_changes_nothing() {
    let admin = address("GADMIN");
    let other = address("GOTHER");
    let auth = signed_by(&[&admin]);
    let mut contract = QueueContract::new();
    assert_eq!(contract.init_contract(admin.clone()), Ok(()));
    contract.create_queue(String::from("alpha"), admin.clone(), &auth).unwrap();
    contract.join_queue(0, admin.clone(), &auth).unwrap();

    assert_eq!(contract.init_contract(other), Err(Error::AlreadyInitialized));

    assert_eq!(contract.admin(), Some(admin));
    assert_eq!(contract.get_queue_count(), 1);
    assert_eq!(contract.get_next_token_id(0), 1);
}

#[test]
fn queue_can_be_created_before_initialization() {
    let creator = address("GCREATOR");
    let auth = signed_by(&[&creator]);
    let mut contract = QueueContract::new();

    let (queue_id, _) =
        contract.create_queue(String::from("early"), creator.clone(), &auth).unwrap();
    assert_eq!(queue_id, 0);
    assert_eq!(contract.get_queue_count(), 1);
    assert!(contract.admin().is_none());
    contract.join_queue(0, creator.clone(), &auth).unwrap();
    contract.list_for_sale(0, 0, 70, &auth).unwrap();

    // Initialising sets the number of queues to zero and erases nothing.
    assert_eq!(contract.init_contract(address("GADMIN")), Ok(()));
    assert_eq!(contract.get_queue_count(), 0);
    assert_eq!(contract.get_queue_name(0), Ok(String::from("early")));
    assert_eq!(contract.get_next_token_id(0), 1);

    // The next queue takes identifier 0 again, with a counter of zero; the
    // ticket recorded before stays, and the next one to join takes it over.
    let late = address("GLATE");
    let (again, _) =
        contract.create_queue(String::from("late"), late.clone(), &signed_by(&[&late])).unwrap();
    assert_eq!(again, 0);
    assert_eq!(contract.get_queue_count(), 1);
    assert_eq!(contract.get_queue_name(0), Ok(String::from("late")));
    assert_eq!(contract.get_queue_creator(0), Ok(late.clone()));
    assert_eq!(contract.get_next_token_id(0), 0);
    assert_eq!(contract.owner_of(0, 0), Ok(creator));
    assert_eq!(contract.get_price(0, 0), 70);

    let (token_id, _) = contract.join_queue(0, late.clone(), &signed_by(&[&late])).unwrap();
    assert_eq!(token_id, 0);
    assert_eq!(contract.owner_of(0, 0), Ok(late));
    assert_eq!(contract.get_price(0, 0), 70);
    assert_eq!(contract.get_next_token_id(0), 1);
}

#[test]
fn create_queue_needs_the_creator() {
    let creator = address("GCREATOR");
    let stranger = address("GSTRANGER");
    let mut contract = QueueContract::new();
    contract.init_contract(address("GADMIN")).unwrap();

    let refused = contract.create_queue(String::from("alpha"), creator, &signed_by(&[&stranger]));
    assert_eq!(refused.unwrap_err(), Error::AuthorizationFailed);
    assert_eq!(contract.get_queue_count(), 0);
    assert!(!contract.has(&DataKey::QueueName(0)));
}

#[test]
fn join_queue_failures_change_nothing() {
    let u1 = address("GUSER1");
    let mut contract = QueueContract::new();
    contract.init_contract(address("GADMIN")).unwrap();
    contract.create_queue(String::from("alpha"), u1.clone(), &signed_by(&[&u1])).unwrap();

    let unsigned = contract.join_queue(0, u1.clone(), &Authorizations::none());
    assert_eq!(unsigned.unwrap_err(), Error::AuthorizationFailed);
    let missing = contract.join_queue(7, u1.clone(), &signed_by(&[&u1]));
    assert_eq!(missing.unwrap_err(), Error::QueueNotFound);
    // Authorization is asked for before the queue is looked up.
    let both = contract.join_queue(7, u1.clone(), &Authorizations::none());
    assert_eq!(both.unwrap_err(), Error::AuthorizationFailed);

    assert_eq!(contract.get_next_token_id(0), 0);
    assert_eq!(contract.owner_of(0, 0), Err(Error::TokenNotFound));
}

#[test]
fn counters_of_queues_are_independent() {
    let u1 = address("GUSER1");
    let auth = signed_by(&[&u1]);
    let mut contract = QueueContract::new();
    contract.init_contract(address("GADMIN")).unwrap();
    contract.create_queue(String::from("alpha"), u1.clone(), &auth).unwrap();
    contract.create_queue(String::from("beta"), u1.clone(), &auth).unwrap();

    for expected in 0..5u32 {
        assert_eq!(contract.get_next_token_id(1), expected);
        let (token_id, _) = contract.join_queue(1, u1.clone(), &auth).unwrap();
        assert_eq!(token_id, expected);
        assert_eq!(contract.get_next_token_id(1), expected + 1);
        assert_eq!(contract.get_next_token_id(0), 0);
    }
    assert_eq!(contract.owner_of(1, 4), Ok(u1));
    assert_eq!(contract.owner_of(0, 0), Err(Error::TokenNotFound));
}

#[test]
fn list_for_sale_failures_in_order() {
    let u1 = address("GUSER1");
    let u2 = address("GUSER2");
    let mut contract = QueueContract::new();
    contract.init_contract(address("GADMIN")).unwrap();
    contract.create_queue(String::from("alpha"), u1.clone(), &signed_by(&[&u1])).unwrap();
    contract.join_queue(0, u1.clone(), &signed_by(&[&u1])).unwrap();

    // A missing ticket is reported before anything else.
    let missing = contract.list_for_sale(0, 1, 0, &Authorizations::none());
    assert_eq!(missing.unwrap_err(), Error::TokenNotFound);
    // Only the owner can list, and that is asked before the price is looked at.
    let stranger = contract.list_for_sale(0, 0, 0, &signed_by(&[&u2]));
    assert_eq!(stranger.unwrap_err(), Error::AuthorizationFailed);
    let free = contract.list_for_sale(0, 0, 0, &signed_by(&[&u1]));
    assert_eq!(free.unwrap_err(), Error::InvalidPrice);

    assert_eq!(contract.get_price(0, 0), 0);
    assert!(!contract.has(&DataKey::Price(0, 0)));
}

#[test]
fn listing_again_replaces_the_price() {
    let u1 = address("GUSER1");
    let mut contract = market(&u1, 1000);
    contract.list_for_sale(0, 0, 250, &signed_by(&[&u1])).unwrap();
    assert_eq!(contract.get_price(0, 0), 250);
    contract.list_for_sale(0, 0, u128::MAX, &signed_by(&[&u1])).unwrap();
    assert_eq!(contract.get_price(0, 0), u128::MAX);
}

#[test]
fn cancel_sale_failures_in_order() {
    let u1 = address("GUSER1");
    let u2 = address("GUSER2");
    let mut contract = market(&u1, 1000);

    let missing = contract.cancel_sale(0, 9, &signed_by(&[&u1]));
    assert_eq!(missing.unwrap_err(), Error::TokenNotFound);
    let stranger = contract.cancel_sale(0, 0, &signed_by(&[&u2]));
    assert_eq!(stranger.unwrap_err(), Error::AuthorizationFailed);
    assert_eq!(contract.get_price(0, 0), 1000);

    contract.cancel_sale(0, 0, &signed_by(&[&u1])).unwrap();
    let unlisted = contract.cancel_sale(0, 0, &signed_by(&[&u1]));
    assert_eq!(unlisted.unwrap_err(), Error::NotListed);
    // Authorization is asked for before the listing is looked at.
    let unlisted_stranger = contract.cancel_sale(0, 0, &signed_by(&[&u2]));
    assert_eq!(unlisted_stranger.unwrap_err(), Error::AuthorizationFailed);
}

#[test]
fn failed_settlement_changes_nothing() {
    let u1 = address("GUSER1");
    let u2 = address("GUSER2");
    let mut contract = market(&u1, 500);

    let refused =
        contract.buy_token(0, 0, u2.clone(), address("CASSET"), &signed_by(&[&u2]), Settlement::Failed);
    assert_eq!(refused.unwrap_err(), Error::SettlementFailed);

    assert_eq!(contract.owner_of(0, 0), Ok(u1));
    assert_eq!(contract.get_price(0, 0), 500);
}

#[test]
fn self_trade_is_rejected() {
    let u1 = address("GUSER1");
    let asset = address("CASSET");
    let mut contract = market(&u1, 500);
    let auth = signed_by(&[&u1]);

    assert_eq!(contract.payment_due(0, 0, &u1, &asset, &auth).unwrap_err(), Error::SelfTrade);
    for settlement in [Settlement::Settled, Settlement::Failed] {
        let refused = contract.buy_token(0, 0, u1.clone(), asset.clone(), &auth, settlement);
        assert_eq!(refused.unwrap_err(), Error::SelfTrade);
        assert_eq!(contract.owner_of(0, 0), Ok(u1.clone()));
        assert_eq!(contract.get_price(0, 0), 500);
    }
}

#[test]
fn buy_token_failures_in_order() {
    let u1 = address("GUSER1");
    let u2 = address("GUSER2");
    let asset = address("CASSET");
    let mut contract = market(&u1, 500);
    contract.join_queue(0, u1.clone(), &signed_by(&[&u1])).unwrap();

    let unsigned =
        contract.buy_token(0, 9, u2.clone(), asset.clone(), &signed_by(&[&u1]), Settlement::Settled);
    assert_eq!(unsigned.unwrap_err(), Error::AuthorizationFailed);
    let missing =
        contract.buy_token(0, 9, u2.clone(), asset.clone(), &signed_by(&[&u2]), Settlement::Settled);
    assert_eq!(missing.unwrap_err(), Error::TokenNotFound);
    let unlisted =
        contract.buy_token(0, 1, u2.clone(), asset.clone(), &signed_by(&[&u2]), Settlement::Settled);
    assert_eq!(unlisted.unwrap_err(), Error::NotListed);
    // An unlisted ticket is reported before a trade with oneself.
    let own_unlisted =
        contract.buy_token(0, 1, u1.clone(), asset.clone(), &signed_by(&[&u1]), Settlement::Settled);
    assert_eq!(own_unlisted.unwrap_err(), Error::NotListed);
    assert_eq!(
        contract.payment_due(0, 1, &u2, &asset, &signed_by(&[&u2])).unwrap_err(),
        Error::NotListed
    );

    assert_eq!(contract.owner_of(0, 0), Ok(u1.clone()));
    assert_eq!(contract.owner_of(0, 1), Ok(u1));
    assert_eq!(contract.get_price(0, 0), 500);
    assert_eq!(contract.get_price(0, 1), 0);
}

#[test]
fn bought_ticket_can_be_sold_on() {
    let u1 = address("GUSER1");
    let u2 = address("GUSER2");
    let asset = address("CASSET");
    let mut contract = market(&u1, 500);
    contract
        .buy_token(0, 0, u2.clone(), asset.clone(), &signed_by(&[&u2]), Settlement::Settled)
        .unwrap();

    // The former owner has no say any more.
    let former = contract.list_for_sale(0, 0, 900, &signed_by(&[&u1]));
    assert_eq!(former.unwrap_err(), Error::AuthorizationFailed);
    contract.list_for_sale(0, 0, 900, &signed_by(&[&u2])).unwrap();
    let due = contract.payment_due(0, 0, &u1, &asset, &signed_by(&[&u1])).unwrap();
    assert_eq!(due.from, u1);
    assert_eq!(due.to, u2);
    assert_eq!(due.amount, 900);
    contract.buy_token(0, 0, u1.clone(), asset, &signed_by(&[&u1]), Settlement::Settled).unwrap();
    assert_eq!(contract.owner_of(0, 0), Ok(u1));
    assert_eq!(contract.get_price(0, 0), 0);
    assert_eq!(contract.get_next_token_id(0), 1);
}

#[test]
fn price_is_never_read_as_zero_while_listed() {
    let u1 = address("GUSER1");
    let u2 = address("GUSER2");
    let mut contract = market(&u1, 1);
    assert_eq!(contract.has(&DataKey::Price(0, 0)), contract.get_price(0, 0) > 0);
    contract.cancel_sale(0, 0, &signed_by(&[&u1])).unwrap();
    assert_eq!(contract.has(&DataKey::Price(0, 0)), contract.get_price(0, 0) > 0);
    contract.list_for_sale(0, 0, 3, &signed_by(&[&u1])).unwrap();
    assert_eq!(contract.has(&DataKey::Price(0, 0)), contract.get_price(0, 0) > 0);
    contract
        .buy_token(0, 0, u2.clone(), address("CASSET"), &signed_by(&[&u2]), Settlement::Settled)
        .unwrap();
    assert_eq!(contract.has(&DataKey::Price(0, 0)), contract.get_price(0, 0) > 0);
    assert!(!contract.has(&DataKey::Price(0, 0)));
}

#[test]
fn authorizations_hold_who_was_approved() {
    let u1 = address("GUSER1");
    let u2 = address("GUSER2");
    let mut auth = Authorizations::none();
    assert!(!auth.is_authorized(&u1));
    auth.approve(u1.clone());
    assert!(auth.is_authorized(&u1));
    assert!(auth.is_authorized(&address("GUSER1")));
    assert!(!auth.is_authorized(&u2));
    auth.approve(u2.clone());
    assert!(auth.is_authorized(&u1));
    assert!(auth.is_authorized(&u2));
}

#[test]
fn addresses_compare_by_their_text() {
    let a = address("GAAA");
    assert_eq!(a.as_str(), "GAAA");
    assert!(a.same_as(&address("GAAA")));
    assert!(!a.same_as(&address("GAAB")));
    assert!(!a.same_as(&address("GAA")));
    assert_eq!(a.clone(), a);
    assert_ne!(a, address(""));
}

#[test]
fn notifications_have_their_topics() {
    let u1 = address("GUSER1");
    let u2 = address("GUSER2");
    let mut contract = QueueContract::new();
    contract.init_contract(address("GADMIN")).unwrap();
    let auth = signed_by(&[&u1, &u2]);
    let (_, created) = contract.create_queue(String::from("alpha"), u1.clone(), &auth).unwrap();
    assert_eq!(created.topic(), "queue_created");
    let (_, joined) = contract.join_queue(0, u1.clone(), &auth).unwrap();
    assert_eq!(joined.topic(), "joined");
    let listed = contract.list_for_sale(0, 0, 10, &auth).unwrap();
    assert_eq!(listed.topic(), "listed");
    let cancelled = contract.cancel_sale(0, 0, &auth).unwrap();
    assert_eq!(cancelled.topic(), "cancelled");
    contract.list_for_sale(0, 0, 10, &auth).unwrap();
    let sold =
        contract.buy_token(0, 0, u2, address("CASSET"), &auth, Settlement::Settled).unwrap();
    assert_eq!(sold.topic(), "sold");
    assert!(matches!(sold, Event::Sold { price: 10, .. }));
}

#[test]
fn errors_have_their_messages() {
    assert_eq!(Error::AlreadyInitialized.message(), "Contract already initialized");
    assert_eq!(Error::AuthorizationFailed.message(), "Authorization failed");
    assert_eq!(Error::QueueNotFound.message(), "Queue does not exist");
    assert_eq!(Error::TokenNotFound.message(), "Token does not exist");
    assert_eq!(Error::InvalidPrice.message(), "Price must be greater than 0");
    assert_eq!(Error::NotListed.message(), "Token is not for sale");
    assert_eq!(Error::SelfTrade.message(), "Cannot buy your own token");
    assert_eq!(Error::SettlementFailed.message(), "Payment settlement failed");
}

#[test]
fn records_round_trip() {
    let u1 = address("GUSER1");
    let u2 = address("GUSER2");
    let mut contract = market(&u1, 500);
    contract.join_queue(0, u2.clone(), &signed_by(&[&u2])).unwrap();

    let (admin, queue_count, queues) = contract.into_records();
    assert_eq!(admin, Some(address("GADMIN")));
    assert_eq!(queue_count, Some(1));
    assert_eq!(queues.len(), 1);
    assert_eq!(queues[0].name, "alpha");
    assert_eq!(queues[0].creator, u1);
    assert_eq!(queues[0].next_token_id, 2);
    assert_eq!(queues[0].tickets.len(), 2);
    assert_eq!(queues[0].tickets[0].owner, u1);
    assert_eq!(queues[0].tickets[0].price, Some(500));
    assert_eq!(queues[0].tickets[1].owner, u2);
    assert_eq!(queues[0].tickets[1].price, None);

    let restored = QueueContract::from_records(admin, queue_count, queues).unwrap();
    assert_eq!(restored.admin(), Some(address("GADMIN")));
    assert_eq!(restored.get_queue_count(), 1);
    assert_eq!(restored.get_next_token_id(0), 2);
    assert_eq!(restored.owner_of(0, 0), Ok(u1));
    assert_eq!(restored.owner_of(0, 1), Ok(u2));
    assert_eq!(restored.get_price(0, 0), 500);
    assert_eq!(restored.get_price(0, 1), 0);
}

#[test]
fn records_that_are_no_ledger_are_refused() {
    let u1 = address("GUSER1");
    let queue = |next_token_id: u32, prices: &[Option<u128>]| QueueRecord {
        name: String::from("alpha"),
        creator: u1.clone(),
        next_token_id,
        tickets: prices.iter().map(|p| Ticket { owner: u1.clone(), price: *p }).collect(),
    };

    assert!(QueueContract::from_records(None, None, vec![]).is_some());
    assert!(QueueContract::from_records(None, Some(0), vec![]).is_some());
    assert!(QueueContract::from_records(None, Some(1), vec![queue(1, &[Some(5)])]).is_some());
    assert!(QueueContract::from_records(None, Some(0), vec![queue(0, &[None])]).is_some());
    // More queues counted than recorded.
    assert!(QueueContract::from_records(None, Some(1), vec![]).is_none());
    // Queues recorded and no count.
    assert!(QueueContract::from_records(None, None, vec![queue(0, &[])]).is_none());
    // A counter ahead of the tickets.
    assert!(QueueContract::from_records(None, Some(1), vec![queue(2, &[None])]).is_none());
    // A price of zero.
    assert!(
        QueueContract::from_records(None, Some(1), vec![queue(2, &[Some(1), Some(0)])]).is_none()
    );
    assert!(queue(2, &[Some(1), None]).is_valid());
    assert!(!queue(2, &[Some(1), Some(0)]).is_valid());
    assert!(!queue(3, &[Some(1), None]).is_valid());
}
