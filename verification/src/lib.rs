//! Sponsored transaction fees: a registry of sponsored calls with one
//! designated payer, and the protocol that charges a transaction's fee to
//! that payer, refunds what was charged too much and splits the remainder
//! into fee and tip.

pub mod conservation;
pub mod names;
pub mod payment;
pub mod registry;

pub use crate::names::{CallMetadata, PalletCallName, PalletName, RuntimeCallName};
pub use crate::payment::{Balance, Credit, SponsoredFungibleAdapter, Step};
pub use crate::registry::{
    Config, Dispatched, Error, Event, Pallet, Pays, RawOrigin, Sponsorship,
};
