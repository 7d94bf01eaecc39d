//! A number per account, with a log of every change.
//!
//! A [`Pallet`] keeps one `u32` for each account that has stored one. An
//! account stores its number with [`Pallet::put_number`], which overwrites,
//! and takes it back with [`Pallet::remove_number`], which fails with
//! [`Error::NoneKey`] where there is nothing to take. Every successful change
//! is recorded as an [`Event`] in a log that only grows.
//!
//! The pallet takes the caller's account as given. Telling who signed a call
//! is the host's business, and so is carrying the events anywhere: the host
//! reads them from [`Pallet::events`].
//!
//! The contracts speak of a pallet through its view, a [`State`]: the ledger
//! as a map and the log as a sequence. `laws` holds what follows for calls
//! taken together.

pub mod config;
pub mod error;
pub mod event;
pub mod laws;
pub mod pallet;
pub mod state;

pub use crate::config::Config;
pub use crate::error::Error;
pub use crate::event::Event;
pub use crate::pallet::Pallet;
pub use crate::state::State;
