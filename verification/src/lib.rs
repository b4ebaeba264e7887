//! Seasonal replenishment planning with a slow base supplier and a fast surge
//! supplier: the period-by-period inventory ledger, the option to revise the
//! surge order in mid-season, capacity checks and order splitting, the search
//! for order quantities, and profit statistics.
//!
//! Quantities are whole units. Money is a whole number of minor currency units
//! (for example cents), so every sum in the ledger is exact. Randomness and
//! real arithmetic stay with the caller: simulations take the raw demand
//! samples as arguments, and the option lattice takes the powers of its up
//! factor.

pub mod models;
pub mod capacity;
pub mod demand;
pub mod ledger;
pub mod revision;
pub mod season;
pub mod simulation;
pub mod statistics;
pub mod monte_carlo;
pub mod optimizer;
pub mod options;
pub mod pairing;
pub mod pairing_utils;
