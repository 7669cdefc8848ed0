use artifacts_bot::action::bank::{Bank, BankInfo, BankStep};
use artifacts_bot::action::equipment::{equip, un_equip, InventoryItemToEquip, InventoryItemToUnEquip, SlotType};
use artifacts_bot::action::{Action, ActionBody, ActionRequest};
use artifacts_bot::character::CharacterData;
use artifacts_bot::errors::{ErrorBank, ErrorEquipment};
use artifacts_bot::gameinfo::items::Item;

fn item(code: &str, quantity: u32) -> Item {
    Item { slot: None, code: code.to_string(), quantity }
}

fn character(gold: u32, inventory: Vec<Item>) -> CharacterData {
    CharacterData {
        name: "dim".to_string(),
        level: 1,
        xp: 0,
        max_xp: 100,
        achievements_points: 0,
        gold,
        speed: 0,
        mining_level: 1,
        woodcutting_level: 1,
        fishing_level: 1,
        weaponcrafting_level: 1,
        gearcrafting_level: 1,
        jewelrycrafting_level: 1,
        cooking_level: 1,
        hp: 100,
        haste: 0,
        critical_strike: 0,
        stamina: 0,
        attack_fire: 0,
        attack_earth: 0,
        attack_water: 0,
        attack_air: 0,
        dmg_fire: 0,
        dmg_earth: 0,
        dmg_water: 0,
        dmg_air: 0,
        res_fire: 0,
        res_earth: 0,
        res_water: 0,
        res_air: 0,
        x: 0,
        y: 0,
        cooldown: 0,
        cooldown_expiration: String::new(),
        weapon_slot: "wooden_stick".to_string(),
        shield_slot: String::new(),
        helmet_slot: String::new(),
        body_armor_slot: String::new(),
        leg_armor_slot: String::new(),
        boots_slot: String::new(),
        ring1_slot: String::new(),
        ring2_slot: String::new(),
        amulet_slot: String::new(),
        artifact1_slot: String::new(),
        artifact2_slot: String::new(),
        artifact3_slot: String::new(),
        consumable1_slot: String::new(),
        consumable1_slot_quantity: 0,
        consumable2_slot: String::new(),
        consumable2_slot_quantity: 0,
        task: String::new(),
        task_type: String::new(),
        task_progress: 0,
        task_total: 0,
        inventory_max_items: 10,
        inventory,
    }
}

fn bank(slots: u32, gold: u32, content: Vec<Item>) -> Bank {
    Bank::new(BankInfo { slots, expansions: 0, next_expansion_cost: 4500, gold }, content)
}

/// What a plan sends, written compactly: (action, code, quantity).
fn requests(steps: &[BankStep]) -> Vec<(Action, String, u32)> {
    steps
        .iter()
        .filter_map(|s| match s {
            BankStep::MoveToBank => None,
            BankStep::Request(ActionRequest { action, body }) => Some(match body {
                ActionBody::Quantity(q) => (*action, String::new(), *q),
                ActionBody::Item(i) => (*action, i.code.clone(), i.quantity),
                _ => panic!("bank requests carry gold or items"),
            }),
        })
        .collect()
}

fn moves(steps: &[BankStep]) -> usize {
    steps.iter().filter(|s| matches!(s, BankStep::MoveToBank)).count()
}

#[test]
fn free_slots_and_storage() {
    let b = bank(3, 0, vec![item("ash_wood", 5), item("copper_ore", 1)]);
    assert_eq!(b.get_free_slots(), 1);
    assert!(b.can_store_item(&"gold_ore".to_string()));
    let full = bank(2, 0, vec![item("ash_wood", 5), item("copper_ore", 1)]);
    assert_eq!(full.get_free_slots(), 0);
    assert!(full.can_store_item(&"ash_wood".to_string()));
    assert!(!full.can_store_item(&"gold_ore".to_string()));
}

#[test]
fn gold_deposit_takes_what_is_there() {
    let b = bank(5, 0, vec![]);
    let c = character(30, vec![]);
    let plan = b.deposit_gold(&c, Some(10));
    assert_eq!(requests(&plan.steps), vec![(Action::BankDepositGold, String::new(), 10)]);
    assert_eq!(moves(&plan.steps), 1);
    let plan = b.deposit_gold(&c, Some(50));
    assert_eq!(requests(&plan.steps), vec![(Action::BankDepositGold, String::new(), 30)]);
    let plan = b.deposit_gold(&character(0, vec![]), None);
    assert!(plan.steps.is_empty());
    assert_eq!(plan.outcome, Ok(()));
}

#[test]
fn item_deposit_refusals() {
    let full = bank(1, 0, vec![item("ash_wood", 5)]);
    let c = character(0, vec![item("copper_ore", 4), item("ash_wood", 2)]);
    let plan = full.deposit_item(&c, &"copper_ore".to_string(), None);
    assert_eq!(plan.outcome, Err(ErrorBank::NotEnoughPlaceInBank));
    assert!(plan.steps.is_empty());
    let plan = full.deposit_item(&c, &"ash_wood".to_string(), Some(1));
    assert_eq!(plan.outcome, Ok(()));
    assert_eq!(requests(&plan.steps), vec![(Action::BankDeposit, "ash_wood".to_string(), 1)]);
    let roomy = bank(5, 0, vec![]);
    let plan = roomy.deposit_item(&c, &"gold_ore".to_string(), None);
    assert_eq!(plan.outcome, Err(ErrorBank::NotInInventory));
}

#[test]
fn deposit_everything() {
    let b = bank(10, 0, vec![]);
    let c = character(25, vec![item("ash_wood", 3), item("", 0), item("copper_ore", 7)]);
    let plan = b.deposit_all_items_and_gold(&c);
    assert_eq!(plan.outcome, Ok(()));
    assert_eq!(
        requests(&plan.steps),
        vec![
            (Action::BankDepositGold, String::new(), 25),
            (Action::BankDeposit, "ash_wood".to_string(), 3),
            (Action::BankDeposit, "copper_ore".to_string(), 7),
        ]
    );
    assert_eq!(moves(&plan.steps), 4);
}

#[test]
fn deposit_everything_with_nothing_to_deposit() {
    let b = bank(10, 0, vec![]);
    let plan = b.deposit_all_items_and_gold(&character(0, vec![item("", 0)]));
    assert!(plan.steps.is_empty());
    assert_eq!(plan.outcome, Ok(()));
}

#[test]
fn deposit_everything_stops_at_the_first_refused_stack() {
    let b = bank(1, 0, vec![item("ash_wood", 1)]);
    let c = character(0, vec![item("ash_wood", 3), item("copper_ore", 7), item("ash_wood", 1)]);
    let plan = b.deposit_all_items_and_gold(&c);
    assert_eq!(plan.outcome, Err(ErrorBank::NotEnoughPlaceInBank));
    assert_eq!(requests(&plan.steps), vec![(Action::BankDeposit, "ash_wood".to_string(), 3)]);
}

#[test]
fn withdrawals() {
    let b = bank(5, 100, vec![item("ash_wood", 5)]);
    let plan = b.withdraw_item(&"ash_wood".to_string(), 5);
    assert_eq!(plan.outcome, Ok(()));
    assert_eq!(requests(&plan.steps), vec![(Action::BankWithdraw, "ash_wood".to_string(), 5)]);
    assert_eq!(b.withdraw_item(&"ash_wood".to_string(), 6).outcome, Err(ErrorBank::NotEnoughItemInBank));
    assert_eq!(b.withdraw_item(&"birch_wood".to_string(), 1).outcome, Err(ErrorBank::ItemNotFoundInBank));
    let plan = b.withdraw_gold(100);
    assert_eq!(requests(&plan.steps), vec![(Action::BankWithdrawGold, String::new(), 100)]);
    assert_eq!(b.withdraw_gold(101).outcome, Err(ErrorBank::NotEnoughGoldInBank));
    assert!(b.withdraw_gold(101).steps.is_empty());
}

#[test]
fn unequip_refusals_and_request() {
    let c = character(0, vec![item("ash_wood", 8)]);
    let shield = InventoryItemToUnEquip { slot: SlotType::Shield, quantity: 1 };
    assert_eq!(un_equip(&c, shield).err(), Some(ErrorEquipment::EmptySlot));
    let too_many = InventoryItemToUnEquip { slot: SlotType::Weapon, quantity: 3 };
    assert_eq!(un_equip(&c, too_many).err(), Some(ErrorEquipment::NotEnoughPlaceInInventory));
    let weapon = InventoryItemToUnEquip { slot: SlotType::Weapon, quantity: 2 };
    let request = un_equip(&c, weapon).ok().unwrap();
    assert_eq!(request.action, Action::UnEquip);
}

#[test]
fn equip_frees_the_slot_then_equips() {
    let c = character(0, vec![item("copper_dagger", 1)]);
    let dagger = InventoryItemToEquip { slot: SlotType::Weapon, code: "copper_dagger".to_string(), quantity: 1 };
    assert_eq!(dagger.to_unequip().quantity, 1);
    assert_eq!(dagger.to_unequip().slot, SlotType::Weapon);
    let requests = equip(&c, dagger).ok().unwrap();
    assert_eq!(requests.len(), 2);
    assert_eq!(requests[0].action, Action::UnEquip);
    assert_eq!(requests[1].action, Action::Equip);
    let missing = InventoryItemToEquip { slot: SlotType::Weapon, code: "iron_sword".to_string(), quantity: 1 };
    assert_eq!(equip(&c, missing).err(), Some(ErrorEquipment::ItemNotInInventory));
}

#[test]
fn equip_into_an_empty_slot_only_equips() {
    let c = character(0, vec![item("wooden_shield", 1)]);
    let shield = InventoryItemToEquip { slot: SlotType::Shield, code: "wooden_shield".to_string(), quantity: 1 };
    let requests = equip(&c, shield).ok().unwrap();
    assert_eq!(requests.len(), 1);
    assert_eq!(requests[0].action, Action::Equip);
}

#[test]
fn equip_is_refused_when_the_worn_item_does_not_fit() {
    let mut c = character(0, vec![item("copper_dagger", 1), item("ash_wood", 9)]);
    c.inventory_max_items = 10;
    let dagger = InventoryItemToEquip { slot: SlotType::Weapon, code: "copper_dagger".to_string(), quantity: 1 };
    assert_eq!(equip(&c, dagger).err(), Some(ErrorEquipment::NotEnoughPlaceInInventory));
}
