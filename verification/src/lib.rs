//! Carbon credit ledger: project registry, credit issuance and retirement,
//! a marketplace for listed credits and an oracle for monitoring data and
//! benchmark prices, each as a verified state machine over its storage.
pub mod table;
pub mod error;
pub mod host;
pub mod carbon_credit;
pub mod carbon_registry;
pub mod carbon_oracle;
pub mod carbon_marketplace;
