pub mod create_channel;
pub mod set_loggable;
pub mod delete_channel;
pub mod destroy_channel;
pub mod set_member;
pub mod send_message;
