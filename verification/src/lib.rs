use vstd::prelude::*;

pub mod accounts;
pub mod auth;
pub mod chat;
pub mod chunk_builder;
pub mod console;
pub mod direction;
pub mod entity;
pub mod inventory;
pub mod key;
pub mod player_like;
pub mod render;
pub mod resources;
pub mod version;

verus! {

} // verus!
