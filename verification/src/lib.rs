//! Vote tally certificates for governance vote plans.
//!
//! A vote plan is closed by a tally certificate. For a public vote the
//! certificate names the vote plan and nothing else. For a private vote it
//! also carries, proposal by proposal, the decryption shares of the committee
//! and the decrypted results.

pub mod certificate;
pub mod error;
pub mod loader;
pub mod pairing;
pub mod registration;
pub mod share;
pub mod vote_plan;
