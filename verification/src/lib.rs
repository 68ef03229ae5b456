//! Decision logic of a ban-list service: who may ban whom, when a ban expires,
//! which stored records a listing keeps or purges, how counters evolve and are
//! stored, and how account requests are answered.

pub mod model;
pub mod error;
pub mod text;
pub mod policy;
pub mod ban;
pub mod listing;
pub mod metrics;
pub mod account;
pub mod report;
pub mod info;
