//! Engine for migrating a wallet's funds from the Orchard pool to the Ironwood pool.
//!
//! The engine is synchronous, does no networking and opens no database. It plans, signs and records
//! migration transactions and decides which one is due next. The application reads the engine's
//! tables and the wallet's balances and heights, hands them in, writes the tables back, and leaves
//! the broadcast to the platform.

pub mod attention;
pub mod context;
pub mod context_laws;
pub mod denominations;
pub mod error;
pub mod execution;
pub mod handout_laws;
pub mod hex;
pub mod json;
pub mod pipeline;
pub mod pipeline_laws;
pub mod plan_laws;
pub mod reading_laws;
pub mod result_laws;
pub mod row_laws;
pub mod rows;
pub mod schedule_laws;
pub mod scheduling;
pub mod signing;
pub mod signing_laws;
pub mod split;
pub mod split_laws;
pub mod state;
pub mod state_laws;
pub mod store;
pub mod store_laws;
pub mod table;
pub mod text;
pub mod text_laws;
pub mod types;
pub mod wallet;

pub use context::MigrationContext;
