use artifacts_bot::action::equipment::SlotType;
use artifacts_bot::action::fight::{calculate_hits_to_kill, damage_given, enemy_attack_stats, AttackStats};
use artifacts_bot::action::movement::{
    find_closest_position, get_target_position, handle_bank, handle_crafting, handle_fight,
    handle_resource, move_to, GatherType, Place,
};
use artifacts_bot::action::{Action, ActionBody};
use artifacts_bot::character::CharacterData;
use artifacts_bot::gameinfo::items::Item;
use artifacts_bot::gameinfo::map::{generate_map, Category, Content, GameMap, MapEntry, Position, PositionGroup};
use artifacts_bot::gameinfo::monster::{Drop, Monster};
use artifacts_bot::gameinfo::resources::Resource;
use artifacts_bot::gameinfo::GameInfo;

fn item(code: &str, quantity: u32) -> Item {
    Item { slot: None, code: code.to_string(), quantity }
}

fn character(x: i32, y: i32) -> CharacterData {
    CharacterData {
        name: "dim".to_string(),
        level: 5,
        xp: 0,
        max_xp: 100,
        achievements_points: 0,
        gold: 0,
        speed: 0,
        mining_level: 1,
        woodcutting_level: 10,
        fishing_level: 3,
        weaponcrafting_level: 1,
        gearcrafting_level: 1,
        jewelrycrafting_level: 1,
        cooking_level: 1,
        hp: 120,
        haste: 0,
        critical_strike: 0,
        stamina: 0,
        attack_fire: 4,
        attack_earth: 5,
        attack_water: 6,
        attack_air: 7,
        dmg_fire: 2,
        dmg_earth: 0,
        dmg_water: 0,
        dmg_air: 0,
        res_fire: 1,
        res_earth: 2,
        res_water: 3,
        res_air: 4,
        x,
        y,
        cooldown: 0,
        cooldown_expiration: String::new(),
        weapon_slot: "wooden_stick".to_string(),
        shield_slot: String::new(),
        helmet_slot: String::new(),
        body_armor_slot: String::new(),
        leg_armor_slot: String::new(),
        boots_slot: String::new(),
        ring1_slot: "copper_ring".to_string(),
        ring2_slot: String::new(),
        amulet_slot: String::new(),
        artifact1_slot: String::new(),
        artifact2_slot: String::new(),
        artifact3_slot: String::new(),
        consumable1_slot: String::new(),
        consumable1_slot_quantity: 0,
        consumable2_slot: String::new(),
        consumable2_slot_quantity: 0,
        task: String::new(),
        task_type: String::new(),
        task_progress: 0,
        task_total: 0,
        inventory_max_items: 100,
        inventory: vec![item("ash_wood", 3), item("copper_ore", 4), item("", 0)],
    }
}

fn entry(x: i32, y: i32, kind: &str, code: &str) -> MapEntry {
    MapEntry {
        x,
        y,
        content: Some(Content { content_type: kind.to_string(), code: code.to_string() }),
    }
}

fn p(x: i32, y: i32) -> Position {
    Position { x, y }
}

fn resource(code: &str, skill: &str, level: u32) -> Resource {
    Resource { name: code.to_string(), code: code.to_string(), skill: skill.to_string(), level, drops: Vec::new() }
}

fn monster(code: &str, level: u32) -> Monster {
    Monster {
        name: code.to_string(),
        code: code.to_string(),
        level,
        hp: 60,
        attack_fire: 1,
        attack_earth: 2,
        attack_water: 3,
        attack_air: 4,
        res_fire: 5,
        res_earth: 6,
        res_water: 7,
        res_air: 8,
        min_gold: 0,
        max_gold: 3,
        drops: vec![Drop { code: "feather".to_string(), rate_bits: 0.5f32.to_bits(), min_quantity: 1, max_quantity: 2 }],
    }
}

fn world() -> GameInfo {
    let entries = vec![
        entry(4, 1, "bank", "bank"),
        entry(0, 0, "monster", "chicken"),
        MapEntry { x: 9, y: 9, content: None },
        entry(-2, 0, "resource", "ash_tree"),
        entry(3, 3, "resource", "spruce_tree"),
        entry(-3, -3, "resource", "spruce_tree"),
        entry(1, 5, "workshop", "woodcutting"),
        entry(0, 2, "monster", "cow"),
        entry(-1, 1, "bank", "bank"),
        entry(2, 2, "monster", "chicken"),
        entry(5, 5, "grand_exchange", "grand_exchange"),
        entry(6, 6, "tasks_master", "monsters"),
    ];
    let map = generate_map(&entries);
    GameInfo::new(
        vec![monster("cow", 3), monster("chicken", 1), monster("yellow_slime", 1), monster("wolf", 9)],
        Vec::new(),
        vec![
            resource("ash_tree", "woodcutting", 1),
            resource("spruce_tree", "woodcutting", 10),
            resource("copper_rocks", "mining", 1),
            resource("birch_tree", "woodcutting", 20),
        ],
        map,
        40,
    )
}

fn positions_of(groups: &[PositionGroup], code: &str) -> Option<Vec<Position>> {
    groups.iter().find(|g| g.code == code).map(|g| g.positions.clone())
}

#[test]
fn map_groups_tiles_by_kind_and_code_in_order() {
    let map = world().map;
    let monsters = map.groups_of(Category::Monster);
    assert_eq!(monsters.len(), 2);
    assert_eq!(positions_of(monsters, "chicken"), Some(vec![p(0, 0), p(2, 2)]));
    assert_eq!(positions_of(monsters, "cow"), Some(vec![p(0, 2)]));
    let resources = map.groups_of(Category::Resource);
    assert_eq!(positions_of(resources, "spruce_tree"), Some(vec![p(3, 3), p(-3, -3)]));
    assert_eq!(positions_of(resources, "ash_tree"), Some(vec![p(-2, 0)]));
    assert_eq!(positions_of(map.groups_of(Category::Bank), "bank"), Some(vec![p(4, 1), p(-1, 1)]));
    assert_eq!(positions_of(map.groups_of(Category::Workshop), "woodcutting"), Some(vec![p(1, 5)]));
    assert_eq!(
        positions_of(map.groups_of(Category::GrandExchange), "grand_exchange"),
        Some(vec![p(5, 5)])
    );
    assert_eq!(positions_of(map.groups_of(Category::TasksMaster), "monsters"), Some(vec![p(6, 6)]));
    assert_eq!(positions_of(monsters, "wolf"), None);
}

#[test]
fn empty_listing_gives_empty_map() {
    let map: GameMap = generate_map(&Vec::new());
    for category in [
        Category::Monster,
        Category::Resource,
        Category::Workshop,
        Category::Bank,
        Category::GrandExchange,
        Category::TasksMaster,
    ] {
        assert!(map.groups_of(category).is_empty());
    }
}

#[test]
fn squared_distances() {
    assert_eq!(p(1, 2).distance_squared(&p(4, 6)), Some(25));
    assert_eq!(p(0, 0).distance_squared(&p(0, 0)), Some(0));
    assert_eq!(p(0, 0).distance_squared(&p(46341, 0)), None);
    assert_eq!(p(i32::MIN, 0).distance_squared(&p(i32::MAX, 0)), None);
}

#[test]
fn closest_position_is_the_first_of_the_nearest() {
    let here = p(0, 0);
    assert_eq!(find_closest_position(&vec![], &here), None);
    assert_eq!(find_closest_position(&vec![p(3, 0), p(0, 2), p(2, 0), p(0, -2)], &here), Some(p(0, 2)));
    assert_eq!(find_closest_position(&vec![p(5, 5)], &here), Some(p(5, 5)));
}

#[test]
fn nearest_bank() {
    let game = world();
    assert_eq!(handle_bank(&game, &character(5, 1)), Some(p(4, 1)));
    assert_eq!(handle_bank(&game, &character(-3, 0)), Some(p(-1, 1)));
}

#[test]
fn best_resource_for_the_level() {
    let game = world();
    // woodcutting level 10: spruce (level 10) beats ash (level 1); birch is too high.
    assert_eq!(handle_resource(&game, &character(-2, -2), GatherType::Wood), Some(p(-3, -3)));
    assert_eq!(handle_resource(&game, &character(2, 2), GatherType::Wood), Some(p(3, 3)));
    // mining level 1: copper rocks, which the map does not show.
    assert_eq!(handle_resource(&game, &character(0, 0), GatherType::Mine), None);
    // no fishing resource at all.
    assert_eq!(handle_resource(&game, &character(0, 0), GatherType::Fish), None);
}

#[test]
fn weakest_monster_is_the_first_of_the_lowest_level() {
    let game = world();
    // chicken and yellow slime are both level 1; chicken comes first.
    assert_eq!(handle_fight(&game, &character(3, 3)), Some(p(2, 2)));
    let mut weak = character(0, 0);
    weak.level = 0;
    assert_eq!(handle_fight(&game, &weak), None);
}

#[test]
fn nearest_workshop() {
    let game = world();
    assert_eq!(handle_crafting(&game, &character(0, 0), GatherType::Wood), Some(p(1, 5)));
    assert_eq!(handle_crafting(&game, &character(0, 0), GatherType::Mine), None);
}

#[test]
fn targets_and_moves() {
    let game = world();
    let here = character(0, 0);
    assert_eq!(get_target_position(&game, &here, Place::Exact(p(1, -1))), Some(p(1, -1)));
    assert_eq!(get_target_position(&game, &here, Place::Bank), Some(p(-1, 1)));
    let request = move_to(&game, &here, Place::Bank).unwrap();
    assert_eq!(request.action, Action::Move);
    match request.body {
        ActionBody::Position(target) => assert_eq!(target, p(-1, 1)),
        _ => panic!("a move carries its destination"),
    }
    assert!(move_to(&game, &character(-1, 1), Place::Bank).is_none());
}

#[test]
fn far_candidates_give_no_target() {
    let entries = vec![entry(60000, 0, "bank", "bank"), entry(1, 1, "bank", "bank")];
    let game = GameInfo::new(Vec::new(), Vec::new(), Vec::new(), generate_map(&entries), 40);
    assert_eq!(get_target_position(&game, &character(0, 0), Place::Bank), None);
    // a single candidate is taken without measuring any distance.
    let lone = vec![entry(60000, 0, "bank", "bank")];
    let game = GameInfo::new(Vec::new(), Vec::new(), Vec::new(), generate_map(&lone), 40);
    assert_eq!(get_target_position(&game, &character(0, 0), Place::Bank), Some(p(60000, 0)));
    assert_eq!(find_closest_position(&vec![p(60000, 0)], &p(0, 0)), Some(p(60000, 0)));
}

#[test]
fn gather_skill_names() {
    assert_eq!(GatherType::Wood.to_string(), "woodcutting");
    assert_eq!(GatherType::Fish.to_string(), "fishing");
    assert_eq!(GatherType::Mine.to_string(), "mining");
}

#[test]
fn character_readings() {
    let c = character(3, -4);
    assert_eq!(c.get_inventory_count(), 7);
    assert_eq!(c.get_current_position(), p(3, -4));
    assert_eq!(c.get_equipment(&SlotType::Weapon), "wooden_stick");
    assert_eq!(c.get_equipment(&SlotType::Ring1), "copper_ring");
    assert_eq!(c.get_equipment(&SlotType::Shield), "");
    let stats = c.get_attack_stats();
    assert_eq!((stats.hp, stats.attack_fire, stats.res_air), (120, 4, 4));
    assert_eq!(stats.dmg_fire, Some(2));
}

#[test]
fn monster_stats_have_no_extra_damage() {
    let stats = monster("cow", 3).get_attack_stats();
    assert_eq!((stats.hp, stats.attack_water, stats.res_fire), (60, 3, 5));
    assert_eq!(stats.dmg_fire, None);
    assert_eq!(stats.dmg_air, None);
}

#[test]
fn fire_damage_and_hits() {
    let me = character(0, 0).get_attack_stats();
    let cow = monster("cow", 3).get_attack_stats();
    // 4 fire + 2 extra against the character's own resistance of 1.
    assert_eq!(damage_given(me, me), 5);
    // monsters deal their fire attack only: 1 against resistance 1.
    let strong = AttackStats { attack_fire: 10, ..cow };
    assert_eq!(damage_given(strong, me), 9);
    // 120 hit points at 9 a hit: 13 whole hits.
    assert_eq!(calculate_hits_to_kill(strong, me), 13);
}

#[test]
fn a_second_move_to_the_same_place_is_not_sent() {
    let game = world();
    for place in [Place::Bank, Place::Fight, Place::Resource(GatherType::Wood), Place::Crafting(GatherType::Wood)] {
        let mut c = character(7, -8);
        let target = get_target_position(&game, &c, place).unwrap();
        assert!(move_to(&game, &c, place).is_some());
        c.x = target.x;
        c.y = target.y;
        assert!(move_to(&game, &c, place).is_none());
        assert_eq!(get_target_position(&game, &c, place), Some(target));
    }
}

#[test]
fn ties_between_resources_pick_the_last() {
    let entries = vec![
        entry(1, 0, "resource", "spruce_tree"),
        entry(2, 0, "resource", "dead_tree"),
    ];
    let game = GameInfo::new(
        Vec::new(),
        Vec::new(),
        vec![
            resource("spruce_tree", "woodcutting", 10),
            resource("dead_tree", "woodcutting", 10),
            resource("ash_tree", "woodcutting", 1),
        ],
        generate_map(&entries),
        40,
    );
    assert_eq!(handle_resource(&game, &character(0, 0), GatherType::Wood), Some(p(2, 0)));
}

#[test]
fn enemy_stats_are_those_of_the_first_monster_with_the_code() {
    let mut game = world();
    let mut second = monster("cow", 3);
    second.hp = 999;
    game.monsters.push(second);
    let stats = enemy_attack_stats(&game, &"cow".to_string()).unwrap();
    assert_eq!(stats.hp, 60);
    assert_eq!(stats.dmg_fire, None);
    assert!(enemy_attack_stats(&game, &"dragon".to_string()).is_none());
}

#[test]
fn drops_keep_their_rate() {
    let m = monster("chicken", 1);
    assert_eq!(f32::from_bits(m.drops[0].rate_bits), 0.5);
}
