//! Game-server logic of an Endless Online server: character inventories,
//! quest progression, map interactions (bank, shop, inn, trade, guild),
//! packet headers and the login and account flows.
pub mod codec;
pub mod data;
pub mod character;
pub mod map;
pub mod guild;
pub mod bank;
pub mod session;
pub mod packets;
pub mod login;
pub mod account;
pub mod packet;
pub mod chat;
pub mod create;
pub mod laws;
