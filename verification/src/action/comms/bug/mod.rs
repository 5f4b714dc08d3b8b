pub mod update_bug_visibilities;
pub mod create_bug;
pub mod archive_bug;
pub mod destroy_bug;
pub mod try_update_bug_visibility;
