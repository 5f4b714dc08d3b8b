pub mod kill;
pub mod revive;
pub mod schedule_revive;
pub mod notebook_scheduled_kill;
pub mod schedule_kill;
