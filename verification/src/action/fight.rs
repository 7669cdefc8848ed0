use vstd::prelude::*;
use crate::gameinfo::monster::Monster;
use crate::gameinfo::GameInfo;

verus! {

/// The fighting statistics of a character or a monster.
#[derive(Debug, Clone, Copy)]
pub struct AttackStats {
    pub hp: u32,
    pub attack_fire: u32,
    pub attack_earth: u32,
    pub attack_water: u32,
    pub attack_air: u32,
    pub res_fire: i32,
    pub res_earth: i32,
    pub res_water: i32,
    pub res_air: i32,
    pub dmg_fire: Option<u32>,
    pub dmg_earth: Option<u32>,
    pub dmg_water: Option<u32>,
    pub dmg_air: Option<u32>,
}

/// The fire damage `by` adds to its extra fire damage, as an integer.
pub open spec fn fire_power(by: AttackStats) -> int {
    by.attack_fire + match by.dmg_fire {
        Some(d) => d as int,
        None => 0,
    }
}

/// The resistance of `to` as the damage computation reads it: the `i32` taken as a `u32`.
pub open spec fn fire_resistance(to: AttackStats) -> int {
    (to.res_fire as u32) as int
}

/// Whether computing the damage of `by` on `to` neither overflows nor goes below zero.
pub open spec fn damage_defined(by: AttackStats, to: AttackStats) -> bool {
    fire_power(by) <= u32::MAX && fire_power(by) >= fire_resistance(to)
}

/// The damage one hit of `by` deals to `to`.
pub open spec fn damage(by: AttackStats, to: AttackStats) -> int {
    fire_power(by) - fire_resistance(to)
}

/// The damage one hit of `by` deals to `to`: its fire attack plus its extra fire damage, less
/// the fire resistance of `to`.
pub fn damage_given(by: AttackStats, to: AttackStats) -> (d: u32)
    requires
        damage_defined(by, to),
    ensures
        d == damage(by, to),
{
    let mut damage: u32 = 0;
    let extra: u32 = match by.dmg_fire {
        Some(d) => d,
        None => 0,
    };
    damage += by.attack_fire + extra - to.res_fire as u32;
    damage
}

/// The number of whole hits of `can_win` that `against`'s hit points amount to.
pub fn calculate_hits_to_kill(can_win: AttackStats, against: AttackStats) -> (hits: u32)
    requires
        damage_defined(can_win, against),
        damage(can_win, against) > 0,
    ensures
        hits == against.hp as int / damage(can_win, against),
{
    against.hp / damage_given(can_win, against)
}

/// Whether `i` is the index of the first monster with the code.
pub open spec fn is_first_monster(monsters: Seq<Monster>, code: Seq<char>, i: int) -> bool {
    &&& 0 <= i < monsters.len()
    &&& monsters[i].code@ == code
    &&& forall|j: int| 0 <= j < i ==> (#[trigger] monsters[j]).code@ != code
}

/// The fighting statistics of a monster: its own, with no extra damage.
pub open spec fn monster_stats(m: Monster) -> AttackStats {
    AttackStats {
        hp: m.hp,
        attack_fire: m.attack_fire,
        attack_earth: m.attack_earth,
        attack_water: m.attack_water,
        attack_air: m.attack_air,
        res_fire: m.res_fire,
        res_earth: m.res_earth,
        res_water: m.res_water,
        res_air: m.res_air,
        dmg_fire: None,
        dmg_earth: None,
        dmg_water: None,
        dmg_air: None,
    }
}

/// The fighting statistics of the first monster of the game with the code `enemy_id`; `None`
/// where the game knows no such monster.
pub fn enemy_attack_stats(game_info: &GameInfo, enemy_id: &String) -> (stats: Option<AttackStats>)
    ensures
        stats is None <==> forall|j: int|
            0 <= j < game_info.monsters@.len() ==> (#[trigger] game_info.monsters@[j]).code@
                != enemy_id@,
        stats matches Some(s) ==> exists|i: int|
            is_first_monster(game_info.monsters@, enemy_id@, i) && s == monster_stats(
                #[trigger] game_info.monsters@[i],
            ),
{
    let monsters = &game_info.monsters;
    let mut i: usize = 0;
    while i < monsters.len()
        invariant
            i <= monsters.len(),
            monsters@ == game_info.monsters@,
            forall|j: int| 0 <= j < i ==> (#[trigger] monsters@[j]).code@ != enemy_id@,
        decreases monsters.len() - i,
    {
        if monsters[i].code == *enemy_id {
            let stats = monsters[i].get_attack_stats();
            proof {
                assert(monsters@[i as int].code@ == enemy_id@);
                assert(is_first_monster(game_info.monsters@, enemy_id@, i as int));
                assert(stats == monster_stats(game_info.monsters@[i as int]));
            }
            return Some(stats);
        }
        i = i + 1;
    }
    None
}

} // verus!
