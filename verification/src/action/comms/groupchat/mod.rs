pub mod set_groupchat_owner;
pub mod add_to_groupchat;
pub mod create_groupchat;
pub mod remove_from_groupchat;
