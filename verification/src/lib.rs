//! Who may act on a tokenized asset, and in what state the asset may be.
//!
//! An operation (burn, delegate, revoke, transfer, update) binds its accounts
//! by position, reads what the token ledger and the runtime say of them,
//! places the requester in an authority category, checks the state of the
//! token, and returns the changes to make. It makes none itself: whoever
//! calls it carries them out, all or none.

pub mod account;
pub mod assertions;
pub mod authority;
pub mod edition;
pub mod error;
pub mod ids;
pub mod instruction;
pub mod laws;
pub mod ledger;
pub mod pda;
pub mod processor;
pub mod pubkey;
pub mod state;
