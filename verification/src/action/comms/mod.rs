pub mod bug;
pub mod update_contact_channels;
pub mod channel;
pub mod lounge;
pub mod groupchat;
