pub mod add_state;
pub mod remove_state;
pub mod player;
pub mod org;
pub mod purge_volatiles;
