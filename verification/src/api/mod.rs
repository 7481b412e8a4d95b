pub mod account;
pub mod positions;
pub mod search;
