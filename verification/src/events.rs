use vstd::prelude::*;
use crate::gameinfo::map::Content;

verus! {

/// The tile an event takes place on.
#[derive(Debug, Clone)]
pub struct EventMap {
    pub name: String,
    pub x: u32,
    pub y: u32,
    pub content: Content,
}

/// An event of the game and the tile it takes place on.
#[derive(Debug, Clone)]
pub struct EventMapItem {
    pub name: String,
    pub map: EventMap,
    pub duration: u32,
    pub expiration: String,
    pub created_at: String,
}

} // verus!
