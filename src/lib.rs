//! Item-check synchronisation for a Devil May Cry 1 multiworld randomizer client.
//!
//! The library holds the logic of the client: the static item tables, the
//! resolution of in-game pickups to logical locations, the inventory derived
//! from the server's item stream, goal evaluation, the per-seed sync ledger
//! with its offline check buffer, and the connection lifecycle.
pub mod bank;
pub mod checks;
pub mod codec;
pub mod connection;
pub mod datapackage;
pub mod debug_input;
pub mod effects;
pub mod goal;
pub mod inventory;
pub mod items;
pub mod ledger;
pub mod location;
pub mod mapping;
pub mod names;
pub mod session;
pub mod skills;
pub mod sync;
pub mod text;
pub mod weapons;
