//! Packet structures, wire codes and data mappings of the shroom game server,
//! with their contracts.
use vstd::prelude::*;

pub mod drop;
pub mod effect;
pub mod error;
pub mod field;
pub mod friend;
pub mod game;
pub mod ids;
pub mod inventory;
pub mod item;
pub mod key_map;
pub mod life;
pub mod login;
pub mod login_char;
pub mod mob;
pub mod movement;
pub mod npc;
pub mod poll_state;
pub mod quest;
pub mod schemas;
pub mod script;
pub mod secondary_stats;
pub mod send_opcodes;
pub mod shared;
pub mod shop;
pub mod summon;

verus! {

} // verus!
