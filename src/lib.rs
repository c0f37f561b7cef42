//! An in-memory order repository for a restaurant floor: one order per
//! table, each order a set of menu-item lines, with create, find, update,
//! delete and delete-line operations whose outcomes are stated exactly.

pub mod api;
pub mod client_params;
pub mod decimal;
pub mod laws;
pub mod memory_persistence;
pub mod menu;
pub mod orders;
pub mod persistence;
pub mod state;
pub mod view_models;
