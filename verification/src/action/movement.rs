use vstd::prelude::*;
use crate::action::{Action, ActionBody, ActionRequest};
use crate::character::CharacterData;
use crate::gameinfo::map::{
    all_positions, collect_positions, distance_fits, entry_holds, find_group, group_positions, groups_describe,
    lemma_all_positions_origin, lemma_group_positions, lemma_positions_of_origin, lookup,
    positions_of, squared_distance, Category, MapEntry, Position,
};
use crate::gameinfo::monster::Monster;
use crate::gameinfo::resources::Resource;
use crate::gameinfo::GameInfo;

verus! {

/// Where a character can be sent.
#[derive(Debug, Clone, Copy, PartialEq, Eq, Structural)]
pub enum Place {
    /// A given tile.
    Exact(Position),
    /// The nearest bank.
    Bank,
    /// The nearest spot of the best resource the character can gather with that skill.
    Resource(GatherType),
    /// The nearest spot of the weakest monster the character can fight.
    Fight,
    /// The nearest workshop of that skill.
    Crafting(GatherType),
}

/// The gathering skills.
#[derive(Debug, Clone, Copy, PartialEq, Eq, Structural)]
pub enum GatherType {
    Wood,
    Fish,
    Mine,
}

/// The name of a gathering skill, as resources and workshops name it.
pub open spec fn gather_skill(gather: GatherType) -> Seq<char> {
    match gather {
        GatherType::Wood => "woodcutting"@,
        GatherType::Fish => "fishing"@,
        GatherType::Mine => "mining"@,
    }
}

/// The level of a character in a gathering skill.
pub open spec fn gather_level(character: CharacterData, gather: GatherType) -> u32 {
    match gather {
        GatherType::Wood => character.woodcutting_level,
        GatherType::Fish => character.fishing_level,
        GatherType::Mine => character.mining_level,
    }
}

impl GatherType {
    /// The name of the skill.
    pub fn to_string(&self) -> (name: String)
        ensures
            name@ == gather_skill(*self),
    {
        match self {
            GatherType::Wood => String::from_str("woodcutting"),
            GatherType::Fish => String::from_str("fishing"),
            GatherType::Mine => String::from_str("mining"),
        }
    }
}

/// The index of the first of the nearest positions to `current`.
pub open spec fn closest_index(positions: Seq<Position>, current: Position) -> int
    decreases positions.len(),
{
    if positions.len() <= 1 {
        0
    } else {
        let k = closest_index(positions.drop_last(), current);
        if squared_distance(positions.last(), current) < squared_distance(positions[k], current) {
            positions.len() - 1
        } else {
            k
        }
    }
}

/// The first of the nearest positions to `current`; `None` for no position.
pub open spec fn closest_position(positions: Seq<Position>, current: Position) -> Option<Position> {
    if positions.len() == 0 {
        None
    } else {
        Some(positions[closest_index(positions, current)])
    }
}

/// Whether the distance from `current` to every position fits in an `i32`.
pub open spec fn all_fit(positions: Seq<Position>, current: Position) -> bool {
    forall|i: int| 0 <= i < positions.len() ==> distance_fits(#[trigger] positions[i], current)
}

/// Law: the position chosen is a nearest one, and no position before it is as near.
pub proof fn law_closest_is_first_nearest(positions: Seq<Position>, current: Position)
    requires
        positions.len() > 0,
    ensures
        0 <= closest_index(positions, current) < positions.len(),
        forall|j: int|
            0 <= j < positions.len() ==> squared_distance(
                positions[closest_index(positions, current)],
                current,
            ) <= squared_distance(#[trigger] positions[j], current),
        forall|j: int|
            0 <= j < closest_index(positions, current) ==> squared_distance(
                #[trigger] positions[j],
                current,
            ) > squared_distance(positions[closest_index(positions, current)], current),
    decreases positions.len(),
{
    if positions.len() > 1 {
        let prefix = positions.drop_last();
        law_closest_is_first_nearest(prefix, current);
        assert forall|j: int| 0 <= j < prefix.len() implies prefix[j] == positions[j] by {}
    }
}

/// Whether a resource can be gathered with the skill at the level.
pub open spec fn gatherable(resource: Resource, skill: Seq<char>, level: u32) -> bool {
    resource.skill@ == skill && resource.level <= level
}

/// The index of the last of the highest-level resources gatherable with the skill at the level.
pub open spec fn best_resource_index(resources: Seq<Resource>, skill: Seq<char>, level: u32) -> Option<
    int,
>
    decreases resources.len(),
{
    if resources.len() == 0 {
        None
    } else {
        let before = best_resource_index(resources.drop_last(), skill, level);
        let last = resources.last();
        if gatherable(last, skill, level) {
            match before {
                Some(k) => if last.level >= resources[k].level {
                    Some(resources.len() - 1)
                } else {
                    Some(k)
                },
                None => Some(resources.len() - 1),
            }
        } else {
            before
        }
    }
}

/// Law: the resource chosen is gatherable, of the highest level among the gatherable ones,
/// and the last of those; none is chosen exactly when none is gatherable.
pub proof fn law_best_resource(resources: Seq<Resource>, skill: Seq<char>, level: u32)
    ensures
        best_resource_index(resources, skill, level) is None <==> forall|j: int|
            0 <= j < resources.len() ==> !gatherable(#[trigger] resources[j], skill, level),
        best_resource_index(resources, skill, level) matches Some(k) ==> {
            &&& 0 <= k < resources.len()
            &&& gatherable(resources[k], skill, level)
            &&& forall|j: int|
                0 <= j < resources.len() && gatherable(#[trigger] resources[j], skill, level)
                    ==> resources[j].level <= resources[k].level
            &&& forall|j: int|
                k < j < resources.len() && gatherable(#[trigger] resources[j], skill, level)
                    ==> resources[j].level < resources[k].level
        },
    decreases resources.len(),
{
    if resources.len() > 0 {
        let prefix = resources.drop_last();
        law_best_resource(prefix, skill, level);
        assert forall|j: int| 0 <= j < prefix.len() implies prefix[j] == resources[j] by {}
    }
}

/// Whether a character of the level can fight the monster.
pub open spec fn fightable(monster: Monster, level: u32) -> bool {
    monster.level <= level
}

/// The index of the first of the lowest-level monsters a character of the level can fight.
pub open spec fn weakest_monster_index(monsters: Seq<Monster>, level: u32) -> Option<int>
    decreases monsters.len(),
{
    if monsters.len() == 0 {
        None
    } else {
        let before = weakest_monster_index(monsters.drop_last(), level);
        let last = monsters.last();
        if fightable(last, level) {
            match before {
                Some(k) => if last.level < monsters[k].level {
                    Some(monsters.len() - 1)
                } else {
                    Some(k)
                },
                None => Some(monsters.len() - 1),
            }
        } else {
            before
        }
    }
}

/// Law: the monster chosen can be fought, is of the lowest level among those, and the first of
/// them; none is chosen exactly when none can be fought.
pub proof fn law_weakest_monster(monsters: Seq<Monster>, level: u32)
    ensures
        weakest_monster_index(monsters, level) is None <==> forall|j: int|
            0 <= j < monsters.len() ==> !fightable(#[trigger] monsters[j], level),
        weakest_monster_index(monsters, level) matches Some(k) ==> {
            &&& 0 <= k < monsters.len()
            &&& fightable(monsters[k], level)
            &&& forall|j: int|
                0 <= j < monsters.len() && fightable(#[trigger] monsters[j], level)
                    ==> monsters[k].level <= monsters[j].level
            &&& forall|j: int|
                0 <= j < k && fightable(#[trigger] monsters[j], level) ==> monsters[k].level
                    < monsters[j].level
        },
    decreases monsters.len(),
{
    if monsters.len() > 0 {
        let prefix = monsters.drop_last();
        law_weakest_monster(prefix, level);
        assert forall|j: int| 0 <= j < prefix.len() implies prefix[j] == monsters[j] by {}
    }
}

/// The tiles among which the target of a place is chosen, or `None` where the place names
/// nothing on the map (no resource or monster fits the character, or its code is unknown).
pub open spec fn candidates(game_info: GameInfo, character: CharacterData, place: Place) -> Option<
    Seq<Position>,
> {
    match place {
        Place::Exact(_) => None,
        Place::Bank => Some(all_positions(game_info.map.groups(Category::Bank))),
        Place::Resource(gather) => match best_resource_index(
            game_info.resources@,
            gather_skill(gather),
            gather_level(character, gather),
        ) {
            Some(k) => lookup(game_info.map.groups(Category::Resource), game_info.resources@[k].code@),
            None => None,
        },
        Place::Fight => match weakest_monster_index(game_info.monsters@, character.level) {
            Some(k) => lookup(game_info.map.groups(Category::Monster), game_info.monsters@[k].code@),
            None => None,
        },
        Place::Crafting(gather) => lookup(game_info.map.groups(Category::Workshop), gather_skill(gather)),
    }
}

/// The tile a character is sent to: the given tile, or the first nearest candidate. `None`
/// where there is no candidate, or there are several and a distance to one does not fit in
/// an `i32`.
pub open spec fn target_position(game_info: GameInfo, character: CharacterData, place: Place) -> Option<
    Position,
> {
    match place {
        Place::Exact(p) => Some(p),
        _ => match candidates(game_info, character, place) {
            Some(s) => if s.len() <= 1 || all_fit(s, character.position()) {
                closest_position(s, character.position())
            } else {
                None
            },
            None => None,
        },
    }
}

/// The first of the nearest positions to `current`; `None` for no position. Distances are
/// compared as soon as there are two positions, so all of them must then fit in an `i32`.
pub fn find_closest_position(positions_map: &Vec<Position>, current_position: &Position) -> (closest: Option<Position>)
    requires
        positions_map@.len() <= 1 || all_fit(positions_map@, *current_position),
    ensures
        closest == closest_position(positions_map@, *current_position),
{
    if positions_map.len() == 0 {
        return None;
    }
    if positions_map.len() == 1 {
        return Some(positions_map[0]);
    }
    let ghost s = positions_map@;
    let ghost cur = *current_position;
    let mut best: usize = 0;
    let mut best_distance: i32 = match positions_map[0].distance_squared(current_position) {
        Some(d) => d,
        None => {
            proof {
                assert(distance_fits(s[0], cur));
            }
            0
        },
    };
    let mut i: usize = 1;
    proof {
        assert(s.take(1).len() == 1);
    }
    while i < positions_map.len()
        invariant
            1 <= i <= positions_map.len(),
            s == positions_map@,
            cur == *current_position,
            all_fit(s, cur),
            best < i,
            best as int == closest_index(s.take(i as int), cur),
            best_distance == squared_distance(s[best as int], cur),
        decreases positions_map.len() - i,
    {
        let d = match positions_map[i].distance_squared(current_position) {
            Some(d) => d,
            None => {
                proof {
                    assert(distance_fits(s[i as int], cur));
                }
                0
            },
        };
        proof {
            let t = s.take(i as int + 1);
            assert(t.drop_last() =~= s.take(i as int));
            assert(t.last() == s[i as int]);
            assert(t[best as int] == s[best as int]);
        }
        if d < best_distance {
            best = i;
            best_distance = d;
        }
        i = i + 1;
    }
    proof {
        assert(s.take(positions_map.len() as int) =~= s);
    }
    Some(positions_map[best])
}

/// Whether the distance from `current` to every position fits in an `i32`.
fn distances_fit(positions: &Vec<Position>, current: &Position) -> (fit: bool)
    ensures
        fit == all_fit(positions@, *current),
{
    let mut i: usize = 0;
    while i < positions.len()
        invariant
            i <= positions.len(),
            forall|j: int| 0 <= j < i ==> distance_fits(#[trigger] positions@[j], *current),
        decreases positions.len() - i,
    {
        if positions[i].distance_squared(current).is_none() {
            return false;
        }
        i = i + 1;
    }
    true
}

/// The first nearest position, or `None` for no position or, among several, a distance that
/// does not fit.
fn closest_if_fits(positions: &Vec<Position>, current: &Position) -> (closest: Option<Position>)
    ensures
        closest == if positions@.len() <= 1 || all_fit(positions@, *current) {
            closest_position(positions@, *current)
        } else {
            None
        },
{
    if positions.len() <= 1 || distances_fit(positions, current) {
        find_closest_position(positions, current)
    } else {
        None
    }
}

/// The nearest bank to the character.
pub fn handle_bank(game_info: &GameInfo, character: &CharacterData) -> (target: Option<Position>)
    ensures
        target == target_position(*game_info, *character, Place::Bank),
{
    let all_banks = collect_positions(game_info.map.groups_of(Category::Bank));
    let current = character.get_current_position();
    closest_if_fits(&all_banks, &current)
}

/// The nearest spot of the highest-level resource the character can gather with the skill.
pub fn handle_resource(game_info: &GameInfo, character: &CharacterData, type_resource: GatherType) -> (target: Option<Position>)
    ensures
        target == target_position(*game_info, *character, Place::Resource(type_resource)),
{
    let char_lvl = match type_resource {
        GatherType::Wood => character.woodcutting_level,
        GatherType::Fish => character.fishing_level,
        GatherType::Mine => character.mining_level,
    };
    let skill = type_resource.to_string();
    let resources = &game_info.resources;
    let mut best: Option<usize> = None;
    let mut i: usize = 0;
    while i < resources.len()
        invariant
            i <= resources.len(),
            best is None <==> best_resource_index(resources@.take(i as int), skill@, char_lvl) is None,
            best matches Some(k) ==> best_resource_index(resources@.take(i as int), skill@, char_lvl)
                == Some(k as int),
            best matches Some(k) ==> k < i,
        decreases resources.len() - i,
    {
        proof {
            let t = resources@.take(i as int + 1);
            assert(t.drop_last() =~= resources@.take(i as int));
            assert(t.last() == resources@[i as int]);
            if let Some(k) = best {
                assert(t[k as int] == resources@[k as int]);
            }
        }
        let resource = &resources[i];
        if resource.skill == skill && resource.level <= char_lvl {
            match best {
                Some(k) => {
                    if resource.level >= resources[k].level {
                        best = Some(i);
                    }
                },
                None => {
                    best = Some(i);
                },
            }
        }
        i = i + 1;
    }
    proof {
        assert(resources@.take(resources.len() as int) =~= resources@);
    }
    let spots = game_info.map.groups_of(Category::Resource);
    match best {
        None => None,
        Some(k) => {
            match find_group(spots, &resources[k].code) {
                None => None,
                Some(g) => {
                    proof {
                        lemma_group_positions(game_info.map.groups(Category::Resource), resources@[k as int].code@);
                    }
                    let current = character.get_current_position();
                    closest_if_fits(&spots[g].positions, &current)
                },
            }
        },
    }
}

/// The nearest workshop of the skill.
pub fn handle_crafting(game_info: &GameInfo, character: &CharacterData, type_resource: GatherType) -> (target: Option<Position>)
    ensures
        target == target_position(*game_info, *character, Place::Crafting(type_resource)),
{
    let skill = type_resource.to_string();
    let workshops = game_info.map.groups_of(Category::Workshop);
    match find_group(workshops, &skill) {
        None => None,
        Some(g) => {
            proof {
                lemma_group_positions(game_info.map.groups(Category::Workshop), skill@);
            }
            let current = character.get_current_position();
            closest_if_fits(&workshops[g].positions, &current)
        },
    }
}

/// The nearest spot of the first lowest-level monster the character can fight.
pub fn handle_fight(game_info: &GameInfo, character: &CharacterData) -> (target: Option<Position>)
    ensures
        target == target_position(*game_info, *character, Place::Fight),
{
    let monsters = &game_info.monsters;
    let mut best: Option<usize> = None;
    let mut i: usize = 0;
    while i < monsters.len()
        invariant
            i <= monsters.len(),
            best is None <==> weakest_monster_index(monsters@.take(i as int), character.level) is None,
            best matches Some(k) ==> weakest_monster_index(monsters@.take(i as int), character.level)
                == Some(k as int),
            best matches Some(k) ==> k < i,
        decreases monsters.len() - i,
    {
        proof {
            let t = monsters@.take(i as int + 1);
            assert(t.drop_last() =~= monsters@.take(i as int));
            assert(t.last() == monsters@[i as int]);
            if let Some(k) = best {
                assert(t[k as int] == monsters@[k as int]);
            }
        }
        let monster = &monsters[i];
        if monster.level <= character.level {
            match best {
                Some(k) => {
                    if monster.level < monsters[k].level {
                        best = Some(i);
                    }
                },
                None => {
                    best = Some(i);
                },
            }
        }
        i = i + 1;
    }
    proof {
        assert(monsters@.take(monsters.len() as int) =~= monsters@);
    }
    let spots = game_info.map.groups_of(Category::Monster);
    match best {
        None => None,
        Some(k) => {
            match find_group(spots, &monsters[k].code) {
                None => None,
                Some(g) => {
                    proof {
                        lemma_group_positions(game_info.map.groups(Category::Monster), monsters@[k as int].code@);
                    }
                    let current = character.get_current_position();
                    closest_if_fits(&spots[g].positions, &current)
                },
            }
        },
    }
}

/// The tile a character is sent to for a place; `None` where the place names no reachable
/// tile (see `target_position`).
pub fn get_target_position(game_info: &GameInfo, character: &CharacterData, place: Place) -> (target: Option<Position>)
    ensures
        target == target_position(*game_info, *character, place),
{
    match place {
        Place::Exact(position) => Some(position),
        Place::Bank => handle_bank(game_info, character),
        Place::Resource(type_resource) => handle_resource(game_info, character, type_resource),
        Place::Fight => handle_fight(game_info, character),
        Place::Crafting(type_resource) => handle_crafting(game_info, character, type_resource),
    }
}

/// The move to send to bring the character to a place; `None` where it already stands there.
pub fn move_to(game_info: &GameInfo, character: &CharacterData, place: Place) -> (request: Option<ActionRequest>)
    requires
        target_position(*game_info, *character, place) is Some,
    ensures
        match target_position(*game_info, *character, place) {
            Some(target) => if target == character.position() {
                request is None
            } else {
                request == Some(ActionRequest { action: Action::Move, body: ActionBody::Position(target) })
            },
            None => false,
        },
{
    let target_position = get_target_position(game_info, character, place);
    let target = match target_position {
        Some(t) => t,
        None => {
            return None;
        },
    };
    if character.get_current_position() == target {
        None
    } else {
        Some(ActionRequest { action: Action::Move, body: ActionBody::Position(target) })
    }
}

/// Only the distance from a position to itself is zero.
proof fn lemma_zero_distance(a: Position, b: Position)
    requires
        squared_distance(a, b) <= 0,
    ensures
        a == b,
{
    let dx = a.x - b.x;
    let dy = a.y - b.y;
    assert(dx * dx >= 0 && dy * dy >= 0) by (nonlinear_arith);
    assert(dx * dx == 0 ==> dx == 0) by (nonlinear_arith);
    assert(dy * dy == 0 ==> dy == 0) by (nonlinear_arith);
}

/// Law: once a character stands on the tile chosen for a place, that same tile is chosen
/// again, so sending it to the same place again sends no move.
pub proof fn law_target_is_stable(
    game_info: GameInfo,
    character: CharacterData,
    moved: CharacterData,
    place: Place,
    target: Position,
)
    requires
        target_position(game_info, character, place) == Some(target),
        moved == (CharacterData { x: target.x, y: target.y, ..character }),
        candidates(game_info, character, place) matches Some(s) ==> s.len() <= 1 || all_fit(
            s,
            target,
        ),
    ensures
        target_position(game_info, moved, place) == Some(target),
        moved.position() == target,
{
    if !(place is Exact) {
        let s = candidates(game_info, character, place).unwrap();
        assert(candidates(game_info, moved, place) == candidates(game_info, character, place));
        let k0 = closest_index(s, character.position());
        law_closest_is_first_nearest(s, character.position());
        assert(s[k0] == target);
        law_closest_is_first_nearest(s, target);
        let k = closest_index(s, target);
        assert(squared_distance(s[k0], target) == 0);
        assert(squared_distance(s[k], target) <= squared_distance(s[k0], target));
        lemma_zero_distance(s[k], target);
    }
}

/// Law: a character fights the monsters of its own level or below. When no monster is of the
/// character's level or below there is nowhere to fight; otherwise the monster fought is the
/// first of the lowest-level ones among those, and its spots are the candidates.
pub proof fn law_fight_target(game_info: GameInfo, character: CharacterData)
    ensures
        (forall|j: int|
            0 <= j < game_info.monsters@.len() ==> (#[trigger] game_info.monsters@[j]).level
                > character.level) ==> candidates(game_info, character, Place::Fight) is None,
        forall|k: int|
            0 <= k < game_info.monsters@.len() && (#[trigger] game_info.monsters@[k]).level
                <= character.level && (forall|j: int|
                0 <= j < game_info.monsters@.len() && game_info.monsters@[j].level
                    <= character.level ==> game_info.monsters@[k].level
                    <= game_info.monsters@[j].level) && (forall|j: int|
                0 <= j < k && game_info.monsters@[j].level <= character.level
                    ==> game_info.monsters@[k].level < game_info.monsters@[j].level)
                ==> candidates(game_info, character, Place::Fight) == lookup(
                game_info.map.groups(Category::Monster),
                game_info.monsters@[k].code@,
            ),
{
    let ms = game_info.monsters@;
    law_weakest_monster(ms, character.level);
    if forall|j: int| 0 <= j < ms.len() ==> (#[trigger] ms[j]).level > character.level {
        assert forall|j: int| 0 <= j < ms.len() implies !fightable(#[trigger] ms[j], character.level) by {}
    }
    assert forall|k: int|
        0 <= k < ms.len() && (#[trigger] ms[k]).level <= character.level && (forall|j: int|
            0 <= j < ms.len() && ms[j].level <= character.level ==> ms[k].level <= ms[j].level)
            && (forall|j: int| 0 <= j < k && ms[j].level <= character.level ==> ms[k].level < ms[j].level)
        implies candidates(game_info, character, Place::Fight) == lookup(
        game_info.map.groups(Category::Monster),
        ms[k].code@,
    ) by {
        assert(fightable(ms[k], character.level));
        let k0 = weakest_monster_index(ms, character.level).unwrap();
        assert(ms[k0].level <= ms[k].level);
        assert(ms[k].level <= ms[k0].level);
        if k0 < k {
            assert(ms[k].level < ms[k0].level);
        }
        if k < k0 {
            assert(ms[k0].level < ms[k].level);
        }
    }
}

/// What choosing a resource to gather means for a gathering kind whose resources carry the
/// skill name `skill` and which the character practises at `level`: nothing to gather when no
/// resource of that skill is of that level or below; otherwise the last of the highest-level
/// resources of that skill at that level or below, whose spots are the candidates.
#[verifier::opaque]
pub open spec fn gathers(
    game_info: GameInfo,
    character: CharacterData,
    gather: GatherType,
    skill: Seq<char>,
    level: u32,
) -> bool {
    let rs = game_info.resources@;
    &&& (forall|j: int|
        0 <= j < rs.len() ==> !((#[trigger] rs[j]).skill@ == skill && rs[j].level <= level))
        ==> candidates(game_info, character, Place::Resource(gather)) is None
    &&& forall|k: int|
        0 <= k < rs.len() && (#[trigger] rs[k]).skill@ == skill && rs[k].level <= level && (
        forall|j: int|
            0 <= j < rs.len() && rs[j].skill@ == skill && rs[j].level <= level ==> rs[j].level
                <= rs[k].level) && (forall|j: int|
            k < j < rs.len() && rs[j].skill@ == skill && rs[j].level <= level ==> rs[j].level
                < rs[k].level) ==> candidates(game_info, character, Place::Resource(gather))
            == lookup(game_info.map.groups(Category::Resource), rs[k].code@)
}

proof fn lemma_gathers(game_info: GameInfo, character: CharacterData, gather: GatherType)
    ensures
        gathers(game_info, character, gather, gather_skill(gather), gather_level(character, gather)),
{
    reveal(gathers);
    let rs = game_info.resources@;
    let skill = gather_skill(gather);
    let level = gather_level(character, gather);
    law_best_resource(rs, skill, level);
    assert forall|k: int|
        0 <= k < rs.len() && (#[trigger] rs[k]).skill@ == skill && rs[k].level <= level && (
        forall|j: int|
            0 <= j < rs.len() && rs[j].skill@ == skill && rs[j].level <= level ==> rs[j].level
                <= rs[k].level) && (forall|j: int|
            k < j < rs.len() && rs[j].skill@ == skill && rs[j].level <= level ==> rs[j].level
                < rs[k].level) implies candidates(game_info, character, Place::Resource(gather))
        == lookup(game_info.map.groups(Category::Resource), rs[k].code@) by {
        assert(gatherable(rs[k], skill, level));
        let k0 = best_resource_index(rs, skill, level).unwrap();
        assert(rs[k0].level <= rs[k].level);
        assert(rs[k].level <= rs[k0].level);
        if k0 < k {
            assert(rs[k].level < rs[k0].level);
        }
        if k < k0 {
            assert(rs[k0].level < rs[k].level);
        }
    }
}

/// Law: each gathering kind gathers the resources of its own skill, compared with the
/// character's level in that same skill: woodcutting with `woodcutting_level`, fishing with
/// `fishing_level`, mining with `mining_level`.
pub proof fn law_gather_target(game_info: GameInfo, character: CharacterData)
    ensures
        gathers(game_info, character, GatherType::Wood, "woodcutting"@, character.woodcutting_level),
        gathers(game_info, character, GatherType::Fish, "fishing"@, character.fishing_level),
        gathers(game_info, character, GatherType::Mine, "mining"@, character.mining_level),
{
    lemma_gathers(game_info, character, GatherType::Wood);
    lemma_gathers(game_info, character, GatherType::Fish);
    lemma_gathers(game_info, character, GatherType::Mine);
    assert(gather_skill(GatherType::Wood) == "woodcutting"@);
    assert(gather_level(character, GatherType::Wood) == character.woodcutting_level);
    assert(gather_skill(GatherType::Fish) == "fishing"@);
    assert(gather_level(character, GatherType::Fish) == character.fishing_level);
    assert(gather_skill(GatherType::Mine) == "mining"@);
    assert(gather_level(character, GatherType::Mine) == character.mining_level);
}

/// Whether `positions[i]` is at the least squared distance from `here`, with no position
/// before it as near.
pub open spec fn first_nearest_at(positions: Seq<Position>, here: Position, i: int) -> bool {
    &&& 0 <= i < positions.len()
    &&& forall|j: int|
        0 <= j < positions.len() ==> squared_distance(positions[i], here) <= squared_distance(
            #[trigger] positions[j],
            here,
        )
    &&& forall|j: int|
        0 <= j < i ==> squared_distance(#[trigger] positions[j], here) > squared_distance(
            positions[i],
            here,
        )
}

/// Law: a given tile is the target as it is; for any other place the target is one of the
/// candidates, at the least squared distance from the character, and before it comes no
/// candidate as near; and there is a target whenever there are candidates whose distances
/// can be compared.
pub proof fn law_target_is_nearest_candidate(
    game_info: GameInfo,
    character: CharacterData,
    place: Place,
)
    ensures
        place matches Place::Exact(p) ==> target_position(game_info, character, place) == Some(p),
        !(place is Exact) ==> (target_position(game_info, character, place) matches Some(t) ==> {
            &&& candidates(game_info, character, place) is Some
            &&& exists|i: int|
                #[trigger] first_nearest_at(
                    candidates(game_info, character, place).unwrap(),
                    Position { x: character.x, y: character.y },
                    i,
                ) && candidates(game_info, character, place).unwrap()[i] == t
        }),
        !(place is Exact) ==> (candidates(game_info, character, place) matches Some(s) ==> (s.len()
            == 1 || (s.len() > 1 && all_fit(s, Position { x: character.x, y: character.y })))
            ==> target_position(game_info, character, place) is Some),
{
    if !(place is Exact) {
        if let Some(s) = candidates(game_info, character, place) {
            if s.len() > 0 {
                let here = Position { x: character.x, y: character.y };
                law_closest_is_first_nearest(s, here);
                let i = closest_index(s, here);
                assert(first_nearest_at(s, here, i));
            }
        }
    }
}

/// Whether some tile of `entries` stands at `p` and holds content of the given type.
pub open spec fn tile_of_type_at(entries: Seq<MapEntry>, p: Position, content_type: Seq<char>) -> bool {
    exists|k: int|
        0 <= k < entries.len() && (#[trigger] entries[k]).x == p.x && entries[k].y == p.y
            && (entries[k].content matches Some(c) && c.content_type@ == content_type)
}

/// The kind of tile a place sends a character to.
pub open spec fn tile_type_of(place: Place) -> Seq<char> {
    match place {
        Place::Exact(_) => Seq::empty(),
        Place::Bank => "bank"@,
        Place::Resource(_) => "resource"@,
        Place::Fight => "monster"@,
        Place::Crafting(_) => "workshop"@,
    }
}

/// Every candidate of a place is a tile of the kind the place names.
proof fn lemma_candidates_origin(
    game_info: GameInfo,
    character: CharacterData,
    place: Place,
    entries: Seq<MapEntry>,
    n: int,
)
    requires
        game_info.map.describes(entries),
        !(place is Exact),
        candidates(game_info, character, place) matches Some(s) && 0 <= n < s.len(),
    ensures
        tile_of_type_at(entries, candidates(game_info, character, place).unwrap()[n], tile_type_of(place)),
{
    let s = candidates(game_info, character, place).unwrap();
    let cat = match place {
        Place::Bank => Category::Bank,
        Place::Resource(_) => Category::Resource,
        Place::Fight => Category::Monster,
        _ => Category::Workshop,
    };
    let groups = game_info.map.groups(cat);
    assert(groups_describe(groups, entries, cat));
    let (code, m) = if place is Bank {
        lemma_all_positions_origin(groups, n);
        let (i, m) = choose|i: int, m: int|
            0 <= i < groups.len() && 0 <= m < groups[i].positions@.len()
                && #[trigger] groups[i].positions@[m] == all_positions(groups)[n];
        lemma_group_positions(groups, groups[i].code@);
        (groups[i].code@, m)
    } else {
        let code = choose|code: Seq<char>| lookup(groups, code) == Some(s);
        (code, n)
    };
    assert(group_positions(groups, code) == positions_of(entries, cat, code));
    assert(group_positions(groups, code)[m] == s[n]);
    lemma_positions_of_origin(entries, cat, code, m);
    let k = choose|k: int|
        0 <= k < entries.len() && entry_holds(#[trigger] entries[k], cat, code)
            && positions_of(entries, cat, code)[m] == Position { x: entries[k].x, y: entries[k].y };
    assert(entries[k].x == s[n].x);
}

/// Law: on a map read from a listing of tiles, the target of a bank, a resource, a fight or a
/// workshop is a tile listed as a bank, a resource, a monster or a workshop respectively.
pub proof fn law_target_tile_kind(
    game_info: GameInfo,
    character: CharacterData,
    place: Place,
    entries: Seq<MapEntry>,
)
    requires
        game_info.map.describes(entries),
    ensures
        place is Bank ==> (target_position(game_info, character, place) matches Some(t)
            ==> tile_of_type_at(entries, t, "bank"@)),
        place is Resource ==> (target_position(game_info, character, place) matches Some(t)
            ==> tile_of_type_at(entries, t, "resource"@)),
        place is Fight ==> (target_position(game_info, character, place) matches Some(t)
            ==> tile_of_type_at(entries, t, "monster"@)),
        place is Crafting ==> (target_position(game_info, character, place) matches Some(t)
            ==> tile_of_type_at(entries, t, "workshop"@)),
{
    if !(place is Exact) {
        if let Some(t) = target_position(game_info, character, place) {
            let s = candidates(game_info, character, place).unwrap();
            let here = character.position();
            law_closest_is_first_nearest(s, here);
            lemma_candidates_origin(game_info, character, place, entries, closest_index(s, here));
        }
    }
}

} // verus!
