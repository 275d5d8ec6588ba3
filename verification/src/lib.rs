//! Team governance library: a capacity-bounded roster with a single captain,
//! single-round yes/no proposals resolved by majority once every member has
//! voted, and an exact, claim-once prize ledger over an accepted percentage
//! table.

pub mod error;
pub mod percent;
pub mod prize;
pub mod proposal;
pub mod store;
pub mod team;
pub mod voting;
