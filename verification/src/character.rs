use vstd::prelude::*;
use crate::action::equipment::SlotType;
use crate::action::fight::AttackStats;
use crate::gameinfo::items::{total_quantity, Item};
use crate::gameinfo::map::Position;

verus! {

/// A character of the player, as the server describes it.
#[derive(Debug, Clone)]
pub struct CharacterData {
    pub name: String,
    pub level: u32,
    pub xp: u32,
    pub max_xp: u32,
    pub achievements_points: u32,
    pub gold: u32,
    pub speed: u32,
    pub mining_level: u32,
    pub woodcutting_level: u32,
    pub fishing_level: u32,
    pub weaponcrafting_level: u32,
    pub gearcrafting_level: u32,
    pub jewelrycrafting_level: u32,
    pub cooking_level: u32,
    pub hp: u32,
    pub haste: u32,
    pub critical_strike: u32,
    pub stamina: u32,
    pub attack_fire: u32,
    pub attack_earth: u32,
    pub attack_water: u32,
    pub attack_air: u32,
    pub dmg_fire: u32,
    pub dmg_earth: u32,
    pub dmg_water: u32,
    pub dmg_air: u32,
    pub res_fire: i32,
    pub res_earth: i32,
    pub res_water: i32,
    pub res_air: i32,
    pub x: i32,
    pub y: i32,
    pub cooldown: u32,
    pub cooldown_expiration: String,
    pub weapon_slot: String,
    pub shield_slot: String,
    pub helmet_slot: String,
    pub body_armor_slot: String,
    pub leg_armor_slot: String,
    pub boots_slot: String,
    pub ring1_slot: String,
    pub ring2_slot: String,
    pub amulet_slot: String,
    pub artifact1_slot: String,
    pub artifact2_slot: String,
    pub artifact3_slot: String,
    pub consumable1_slot: String,
    pub consumable1_slot_quantity: u32,
    pub consumable2_slot: String,
    pub consumable2_slot_quantity: u32,
    pub task: String,
    pub task_type: String,
    pub task_progress: u32,
    pub task_total: u32,
    pub inventory_max_items: u32,
    pub inventory: Vec<Item>,
}

impl CharacterData {
    /// The code of what the character wears in a slot; empty where the slot is empty.
    pub open spec fn equipment_in(&self, slot: SlotType) -> String {
        match slot {
            SlotType::Weapon => self.weapon_slot,
            SlotType::Shield => self.shield_slot,
            SlotType::Helmet => self.helmet_slot,
            SlotType::BodyArmor => self.body_armor_slot,
            SlotType::LegArmor => self.leg_armor_slot,
            SlotType::Boots => self.boots_slot,
            SlotType::Ring1 => self.ring1_slot,
            SlotType::Ring2 => self.ring2_slot,
            SlotType::Amulet => self.amulet_slot,
            SlotType::Artifact1 => self.artifact1_slot,
            SlotType::Artifact2 => self.artifact2_slot,
            SlotType::Artifact3 => self.artifact3_slot,
            SlotType::Consumable1 => self.consumable1_slot,
            SlotType::Consumable2 => self.consumable2_slot,
        }
    }

    /// The number of items the character carries, all stacks together.
    pub open spec fn inventory_count(&self) -> int {
        total_quantity(self.inventory@)
    }

    /// Where the character stands.
    pub open spec fn position(&self) -> Position {
        Position { x: self.x, y: self.y }
    }

    /// The fighting statistics of the character, with its extra damage.
    pub fn get_attack_stats(&self) -> (stats: AttackStats)
        ensures
            stats.hp == self.hp,
            stats.attack_fire == self.attack_fire,
            stats.attack_earth == self.attack_earth,
            stats.attack_water == self.attack_water,
            stats.attack_air == self.attack_air,
            stats.res_fire == self.res_fire,
            stats.res_earth == self.res_earth,
            stats.res_water == self.res_water,
            stats.res_air == self.res_air,
            stats.dmg_fire == Some(self.dmg_fire),
            stats.dmg_earth == Some(self.dmg_earth),
            stats.dmg_water == Some(self.dmg_water),
            stats.dmg_air == Some(self.dmg_air),
    {
        AttackStats {
            hp: self.hp,
            attack_fire: self.attack_fire,
            attack_earth: self.attack_earth,
            attack_water: self.attack_water,
            attack_air: self.attack_air,
            res_fire: self.res_fire,
            res_earth: self.res_earth,
            res_water: self.res_water,
            res_air: self.res_air,
            dmg_fire: Some(self.dmg_fire),
            dmg_earth: Some(self.dmg_earth),
            dmg_water: Some(self.dmg_water),
            dmg_air: Some(self.dmg_air),
        }
    }

    /// The number of items the character carries, all stacks together.
    pub fn get_inventory_count(&self) -> (count: u32)
        requires
            self.inventory_count() <= u32::MAX,
        ensures
            count == self.inventory_count(),
    {
        let mut count: u32 = 0;
        let mut i: usize = 0;
        while i < self.inventory.len()
            invariant
                i <= self.inventory.len(),
                total_quantity(self.inventory@) <= u32::MAX,
                count == total_quantity(self.inventory@.take(i as int)),
            decreases self.inventory.len() - i,
        {
            proof {
                assert(self.inventory@.take(i as int + 1).drop_last() =~= self.inventory@.take(
                    i as int,
                ));
                lemma_total_quantity_prefix(self.inventory@, i as int + 1);
            }
            count = count + self.inventory[i].quantity;
            i = i + 1;
        }
        proof {
            assert(self.inventory@.take(self.inventory.len() as int) =~= self.inventory@);
        }
        count
    }

    /// Where the character stands.
    pub fn get_current_position(&self) -> (position: Position)
        ensures
            position == self.position(),
    {
        Position { x: self.x, y: self.y }
    }

    /// The code of what the character wears in a slot; empty where the slot is empty.
    pub fn get_equipment(&self, slot_type: &SlotType) -> (code: String)
        ensures
            code == self.equipment_in(*slot_type),
            *slot_type == SlotType::Weapon ==> code == self.weapon_slot,
            *slot_type == SlotType::Shield ==> code == self.shield_slot,
            *slot_type == SlotType::Helmet ==> code == self.helmet_slot,
            *slot_type == SlotType::BodyArmor ==> code == self.body_armor_slot,
            *slot_type == SlotType::LegArmor ==> code == self.leg_armor_slot,
            *slot_type == SlotType::Boots ==> code == self.boots_slot,
            *slot_type == SlotType::Ring1 ==> code == self.ring1_slot,
            *slot_type == SlotType::Ring2 ==> code == self.ring2_slot,
            *slot_type == SlotType::Amulet ==> code == self.amulet_slot,
            *slot_type == SlotType::Artifact1 ==> code == self.artifact1_slot,
            *slot_type == SlotType::Artifact2 ==> code == self.artifact2_slot,
            *slot_type == SlotType::Artifact3 ==> code == self.artifact3_slot,
            *slot_type == SlotType::Consumable1 ==> code == self.consumable1_slot,
            *slot_type == SlotType::Consumable2 ==> code == self.consumable2_slot,
    {
        match slot_type {
            SlotType::Weapon => self.weapon_slot.clone(),
            SlotType::Shield => self.shield_slot.clone(),
            SlotType::Helmet => self.helmet_slot.clone(),
            SlotType::BodyArmor => self.body_armor_slot.clone(),
            SlotType::LegArmor => self.leg_armor_slot.clone(),
            SlotType::Boots => self.boots_slot.clone(),
            SlotType::Ring1 => self.ring1_slot.clone(),
            SlotType::Ring2 => self.ring2_slot.clone(),
            SlotType::Amulet => self.amulet_slot.clone(),
            SlotType::Artifact1 => self.artifact1_slot.clone(),
            SlotType::Artifact2 => self.artifact2_slot.clone(),
            SlotType::Artifact3 => self.artifact3_slot.clone(),
            SlotType::Consumable1 => self.consumable1_slot.clone(),
            SlotType::Consumable2 => self.consumable2_slot.clone(),
        }
    }
}

/// The quantities of a prefix never exceed those of the whole sequence.
pub proof fn lemma_total_quantity_prefix(items: Seq<Item>, n: int)
    requires
        0 <= n <= items.len(),
    ensures
        0 <= total_quantity(items.take(n)) <= total_quantity(items),
    decreases items.len() - n,
{
    if n < items.len() {
        lemma_total_quantity_prefix(items, n + 1);
        assert(items.take(n + 1).drop_last() =~= items.take(n));
        lemma_total_quantity_nonnegative(items.take(n));
    } else {
        assert(items.take(n) =~= items);
        lemma_total_quantity_nonnegative(items);
    }
}

/// No sequence of stacks holds a negative number of items.
pub proof fn lemma_total_quantity_nonnegative(items: Seq<Item>)
    ensures
        total_quantity(items) >= 0,
    decreases items.len(),
{
    if items.len() > 0 {
        lemma_total_quantity_nonnegative(items.drop_last());
    }
}

/// Law: each equipment slot holds what the character's field of that very slot holds.
pub proof fn law_equipment_slots(character: CharacterData)
    ensures
        character.equipment_in(SlotType::Weapon) == character.weapon_slot,
        character.equipment_in(SlotType::Shield) == character.shield_slot,
        character.equipment_in(SlotType::Helmet) == character.helmet_slot,
        character.equipment_in(SlotType::BodyArmor) == character.body_armor_slot,
        character.equipment_in(SlotType::LegArmor) == character.leg_armor_slot,
        character.equipment_in(SlotType::Boots) == character.boots_slot,
        character.equipment_in(SlotType::Ring1) == character.ring1_slot,
        character.equipment_in(SlotType::Ring2) == character.ring2_slot,
        character.equipment_in(SlotType::Amulet) == character.amulet_slot,
        character.equipment_in(SlotType::Artifact1) == character.artifact1_slot,
        character.equipment_in(SlotType::Artifact2) == character.artifact2_slot,
        character.equipment_in(SlotType::Artifact3) == character.artifact3_slot,
        character.equipment_in(SlotType::Consumable1) == character.consumable1_slot,
        character.equipment_in(SlotType::Consumable2) == character.consumable2_slot,
{
}

} // verus!
