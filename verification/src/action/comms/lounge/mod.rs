pub mod create_lounge;
pub mod remove_from_lounge;
pub mod leave_lounge;
