//! In-memory collaborators and ready-made aggregates for exercising the
//! scheduler.

pub mod mocks;
pub mod factories;
