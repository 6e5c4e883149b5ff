//! Battle tracking for a turn-based game client: the model of the game's managed
//! objects, lookups over il2cpp runtime metadata, the decisions the game hooks take,
//! and the battle context that turns battle events into packets for clients.
#![allow(non_camel_case_types)]
#![allow(non_snake_case)]

pub mod il2cpp;
pub mod native;
pub mod types;
pub mod models;
pub mod events;
pub mod packets;
pub mod text;
pub mod battle;
pub mod helpers;
pub mod dispatch;
pub mod scan;
