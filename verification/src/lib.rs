use vstd::prelude::*;

pub mod order;
pub mod types;
pub mod device;
pub mod node_sort;
pub mod device_sort;
pub mod chat;
pub mod settings;
pub mod forms;
pub mod state;
pub mod store;
pub mod change;
pub mod laws;
pub mod node_laws;
pub mod action_laws;
pub mod packet_laws;
pub mod ui_laws;
pub mod form_laws;
pub mod radio;
pub mod text;
pub mod events;
pub mod service;
pub mod ui;

verus! {

} // verus!
