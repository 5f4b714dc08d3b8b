pub mod null;
pub mod schedule_job;
