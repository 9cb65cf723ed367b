//! Resolution of human-readable payment names into BOLT12 offers.
//!
//! The library validates a `user@domain` name, interprets what a resolver
//! returned for it, and extracts the offer carried in the resulting
//! payment URI. Network lookups are performed by the caller.
pub mod error;
pub mod handler;
pub mod name;
pub mod uri;

pub use error::OfferError;
pub use handler::{LndkDNSResolverMessageHandler, ResolutionOutcome};
