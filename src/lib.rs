//! Bridge between an SMS/WhatsApp upstream and IRC: the per-correspondent
//! contact state machine and the row logic of the message store.

pub mod contact;
pub mod laws;
pub mod model;
pub mod pdu;

pub use contact::{Action, ContactCommand, ContactError, ContactManager, IrcEvent};
pub use model::{GroupMembership, Message, Recipient, StoreError};
