//! A receiver for non-fungible-token approval notifications.
//!
//! The receiver trusts exactly one account, the token contract it was set up
//! with. A notification from that account is answered at once when its message
//! is the word `return-now`, and otherwise by one further call that the
//! receiver addresses to itself and that hands the message back. The receiver
//! reads who is calling and who it is from an [`environment::Environment`] and
//! writes its diagnostics there, so its whole behaviour is a function of plain
//! values.
pub mod account;
pub mod environment;
pub mod laws;
pub mod promise;
pub mod receiver;
pub use account::AccountId;
pub use environment::Environment;
pub use promise::{Promise, PromiseOrValue};
pub use receiver::{ApprovalReceiver, ReceiverError, ValueReturnTrait};
