pub mod common;
pub mod store;
pub mod ownership;
pub mod chargepool;
pub mod idset;
pub mod seqmap;
pub mod indexset;
pub mod ability;
pub mod config;
pub mod actor;
pub mod passive;
pub mod notebook;
pub mod bug;
pub mod channel;
pub mod groupchat;
pub mod lounge;
pub mod engine;
pub mod poll;
pub mod helpers;
pub mod action;
pub mod smallbuf;
pub mod text;
pub mod laws;
pub mod action_laws;
