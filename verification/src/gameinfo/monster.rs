use vstd::prelude::*;
use crate::action::fight::AttackStats;

verus! {

/// Something a monster or a resource may leave: the item code, the drop rate as the bits of
/// the server's `f32` (`f32::to_bits`), and the range of quantities.
#[derive(Debug, Clone)]
pub struct Drop {
    pub code: String,
    pub rate_bits: u32,
    pub min_quantity: u32,
    pub max_quantity: u32,
}

/// A monster of the game, with what the bot reads of it.
#[derive(Debug, Clone)]
pub struct Monster {
    pub name: String,
    pub code: String,
    pub level: u32,
    pub hp: u32,
    pub attack_fire: u32,
    pub attack_earth: u32,
    pub attack_water: u32,
    pub attack_air: u32,
    pub res_fire: i32,
    pub res_earth: i32,
    pub res_water: i32,
    pub res_air: i32,
    pub min_gold: u32,
    pub max_gold: u32,
    pub drops: Vec<Drop>,
}

/// One page of the monster listing of the server.
#[derive(Debug, Clone)]
pub struct MonsterPage {
    pub data: Vec<Monster>,
    pub pages: usize,
}

impl Monster {
    /// The fighting statistics of the monster; monsters deal no extra damage.
    pub fn get_attack_stats(&self) -> (stats: AttackStats)
        ensures
            stats.hp == self.hp,
            stats.attack_fire == self.attack_fire,
            stats.attack_earth == self.attack_earth,
            stats.attack_water == self.attack_water,
            stats.attack_air == self.attack_air,
            stats.res_fire == self.res_fire,
            stats.res_earth == self.res_earth,
            stats.res_water == self.res_water,
            stats.res_air == self.res_air,
            stats.dmg_fire is None,
            stats.dmg_earth is None,
            stats.dmg_water is None,
            stats.dmg_air is None,
    {
        AttackStats {
            hp: self.hp,
            attack_fire: self.attack_fire,
            attack_earth: self.attack_earth,
            attack_water: self.attack_water,
            attack_air: self.attack_air,
            res_fire: self.res_fire,
            res_earth: self.res_earth,
            res_water: self.res_water,
            res_air: self.res_air,
            dmg_fire: None,
            dmg_earth: None,
            dmg_water: None,
            dmg_air: None,
        }
    }
}

} // verus!
