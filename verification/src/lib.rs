//! A ledger of queue tickets and the marketplace in which they change hands.
//!
//! Principals create named queues, join them to receive sequentially numbered
//! tickets, and resell those tickets against a payment asset. The ledger is a
//! plain value: authorization and payment settlement are decided outside and
//! handed to each operation, which answers with the notification to publish.

pub mod address;
pub mod contract;
pub mod error;
pub mod event;
pub mod laws;
pub mod ledger;

pub use address::{Address, Authorizations};
pub use contract::{QueueContract, QueueRecord, Ticket};
pub use error::Error;
pub use event::{Event, Notification, Payment, Settlement, Transfer};
pub use ledger::{Call, DataKey, Ledger, QueueInfo, TicketInfo};
