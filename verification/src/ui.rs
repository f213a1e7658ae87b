//! The decisions of the terminal interface: how each screen answers keys and what it shows.

pub mod input;
pub mod list;
pub mod styled;
pub mod connection;
pub mod messenger;
pub mod channels;
pub mod nodes;
pub mod logs;
pub mod layout;
pub mod message;
pub mod chat;
pub mod settings;
pub mod links;
