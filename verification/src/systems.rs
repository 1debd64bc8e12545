//! The systems of the competition mode. Each takes the components it
//! works on and gives them back changed, or rejects the request.

pub mod close_position;
pub mod join_competition;
pub mod open_position;
pub mod settle_competition;
