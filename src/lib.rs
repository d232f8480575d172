pub mod registry;
pub mod text;
pub mod scheduler;
pub mod engine;
pub mod ledger;
pub mod attestation;
pub mod verification;
pub mod persist;
pub mod control;
pub mod aleo;
