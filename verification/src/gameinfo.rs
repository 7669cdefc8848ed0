use vstd::prelude::*;

pub mod items;
pub mod map;
pub mod monster;
pub mod resources;

verus! {

/// What the bot knows of the game world once it has been loaded from the server.
pub struct GameInfo {
    pub monsters: Vec<monster::Monster>,
    pub items: Vec<items::ItemInfo>,
    pub resources: Vec<resources::Resource>,
    pub map: map::GameMap,
    pub max_level: u32,
}

impl GameInfo {
    /// Gathers the loaded collections into one value.
    pub fn new(
        monsters: Vec<monster::Monster>,
        items: Vec<items::ItemInfo>,
        resources: Vec<resources::Resource>,
        map: map::GameMap,
        max_level: u32,
    ) -> (info: GameInfo)
        ensures
            info.monsters == monsters,
            info.items == items,
            info.resources == resources,
            info.map == map,
            info.max_level == max_level,
    {
        GameInfo { monsters, items, resources, map, max_level }
    }
}

} // verus!
