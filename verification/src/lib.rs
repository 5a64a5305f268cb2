//! Game-client logic of a Minecraft client: inventory bookkeeping, creative
//! tabs, menu state, block classification, the player list overlay layout and
//! chunk border geometry, each with its contract.

pub mod block_entity;
pub mod chunk_borders;
pub mod creative;
pub mod entity_parts;
pub mod inventory;
pub mod inventory_screen;
pub mod menu;
pub mod player_tab;
pub mod registry;
pub mod sprites;
pub mod state_slot;
pub mod text;
pub mod tooltip;
pub mod user;
