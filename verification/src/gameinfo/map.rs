use vstd::prelude::*;

verus! {

/// What stands on a map tile: its kind (`monster`, `resource`, ...) and its code.
#[derive(Debug, Clone)]
pub struct Content {
    pub content_type: String,
    pub code: String,
}

/// A tile of the map as the server lists it.
#[derive(Debug, Clone)]
pub struct MapEntry {
    pub x: i32,
    pub y: i32,
    pub content: Option<Content>,
}

/// Coordinates of a tile.
#[derive(Debug, Clone, Copy, PartialEq, Eq, Structural)]
pub struct Position {
    pub x: i32,
    pub y: i32,
}

/// The square of the euclidean distance between two positions.
pub open spec fn squared_distance(a: Position, b: Position) -> int {
    (a.x - b.x) * (a.x - b.x) + (a.y - b.y) * (a.y - b.y)
}

/// Whether the squared distance between two positions fits in an `i32`.
pub open spec fn distance_fits(a: Position, b: Position) -> bool {
    squared_distance(a, b) <= i32::MAX
}

impl Position {
    /// The square of the distance to `other`, or `None` where it does not fit in an `i32`.
    /// Comparing squared distances orders positions as comparing distances does.
    pub fn distance_squared(&self, other: &Position) -> (d: Option<i32>)
        ensures
            d matches Some(v) ==> v == squared_distance(*self, *other),
            d is None <==> !distance_fits(*self, *other),
    {
        let dx: i128 = self.x as i128 - other.x as i128;
        let dy: i128 = self.y as i128 - other.y as i128;
        assert(dx * dx <= 0x1_0000_0000_0000_0000) by (nonlinear_arith)
            requires
                -0x1_0000_0000 <= dx <= 0x1_0000_0000,
        ;
        assert(dy * dy <= 0x1_0000_0000_0000_0000) by (nonlinear_arith)
            requires
                -0x1_0000_0000 <= dy <= 0x1_0000_0000,
        ;
        assert(dx * dx >= 0) by (nonlinear_arith);
        assert(dy * dy >= 0) by (nonlinear_arith);
        let sum: i128 = dx * dx + dy * dy;
        if sum <= i32::MAX as i128 {
            Some(sum as i32)
        } else {
            None
        }
    }
}

/// The tiles of one kind that hold the same code, in the order the server listed them.
#[derive(Debug, Clone)]
pub struct PositionGroup {
    pub code: String,
    pub positions: Vec<Position>,
}

/// The kinds of content a tile can hold.
#[derive(Debug, Clone, Copy, PartialEq, Eq, Structural)]
pub enum Category {
    Monster,
    Resource,
    Workshop,
    Bank,
    GrandExchange,
    TasksMaster,
}

/// The category that a content type names, if it names one.
pub open spec fn category_of(content_type: Seq<char>) -> Option<Category> {
    if content_type == "monster"@ {
        Some(Category::Monster)
    } else if content_type == "resource"@ {
        Some(Category::Resource)
    } else if content_type == "workshop"@ {
        Some(Category::Workshop)
    } else if content_type == "bank"@ {
        Some(Category::Bank)
    } else if content_type == "grand_exchange"@ {
        Some(Category::GrandExchange)
    } else if content_type == "tasks_master"@ {
        Some(Category::TasksMaster)
    } else {
        None
    }
}

/// Whether the tile holds content of the given category and code.
pub open spec fn entry_holds(entry: MapEntry, category: Category, code: Seq<char>) -> bool {
    &&& entry.content matches Some(c)
    &&& category_of(c.content_type@) == Some(category)
    &&& c.code@ == code
}

/// Whether every tile with content names one of the known categories.
pub open spec fn known_contents(entries: Seq<MapEntry>) -> bool {
    forall|k: int|
        0 <= k < entries.len() ==> ((#[trigger] entries[k]).content matches Some(c)
            ==> category_of(c.content_type@) is Some)
}

/// The positions of the tiles holding the given category and code, in listing order.
pub open spec fn positions_of(entries: Seq<MapEntry>, category: Category, code: Seq<char>) -> Seq<
    Position,
>
    decreases entries.len(),
{
    if entries.len() == 0 {
        Seq::empty()
    } else {
        let before = positions_of(entries.drop_last(), category, code);
        let e = entries.last();
        if entry_holds(e, category, code) {
            before.push(Position { x: e.x, y: e.y })
        } else {
            before
        }
    }
}

/// Whether some group has the code `code`.
pub open spec fn has_group(groups: Seq<PositionGroup>, code: Seq<char>) -> bool {
    exists|i: int| 0 <= i < groups.len() && (#[trigger] groups[i]).code@ == code
}

/// Whether no two groups share a code.
pub open spec fn distinct_codes(groups: Seq<PositionGroup>) -> bool {
    forall|i: int, j: int|
        0 <= i < groups.len() && 0 <= j < groups.len() && i != j ==> (#[trigger] groups[i]).code@
            != (#[trigger] groups[j]).code@
}

/// The positions recorded under `code`; empty where no group has that code.
pub open spec fn group_positions(groups: Seq<PositionGroup>, code: Seq<char>) -> Seq<Position>
    decreases groups.len(),
{
    if groups.len() == 0 {
        Seq::empty()
    } else if groups.last().code@ == code {
        groups.last().positions@
    } else {
        group_positions(groups.drop_last(), code)
    }
}

/// What looking up `code` gives: the positions under it, or `None` where no group has it.
pub open spec fn lookup(groups: Seq<PositionGroup>, code: Seq<char>) -> Option<Seq<Position>> {
    if has_group(groups, code) {
        Some(group_positions(groups, code))
    } else {
        None
    }
}

/// All positions of all groups, group after group.
pub open spec fn all_positions(groups: Seq<PositionGroup>) -> Seq<Position>
    decreases groups.len(),
{
    if groups.len() == 0 {
        Seq::empty()
    } else {
        all_positions(groups.drop_last()) + groups.last().positions@
    }
}

/// With distinct codes, the positions recorded under a group's code are that group's.
pub proof fn lemma_group_positions(groups: Seq<PositionGroup>, code: Seq<char>)
    requires
        distinct_codes(groups),
    ensures
        forall|i: int|
            0 <= i < groups.len() && (#[trigger] groups[i]).code@ == code ==> group_positions(
                groups,
                code,
            ) == groups[i].positions@,
        !has_group(groups, code) ==> group_positions(groups, code) == Seq::<Position>::empty(),
    decreases groups.len(),
{
    if groups.len() > 0 {
        let prefix = groups.drop_last();
        assert(distinct_codes(prefix)) by {
            assert forall|i: int, j: int|
                0 <= i < prefix.len() && 0 <= j < prefix.len() && i != j implies (
                #[trigger] prefix[i]).code@ != (#[trigger] prefix[j]).code@ by {
                assert(prefix[i] == groups[i] && prefix[j] == groups[j]);
            }
        }
        lemma_group_positions(prefix, code);
        if !has_group(groups, code) {
            assert(!has_group(prefix, code)) by {
                if has_group(prefix, code) {
                    let k = choose|k: int|
                        0 <= k < prefix.len() && (#[trigger] prefix[k]).code@ == code;
                    assert(groups[k] == prefix[k]);
                }
            }
            assert(groups[groups.len() - 1].code@ != code);
        }
        assert forall|i: int|
            0 <= i < groups.len() && (#[trigger] groups[i]).code@ == code implies group_positions(
            groups,
            code,
        ) == groups[i].positions@ by {
            if i < groups.len() - 1 {
                assert(prefix[i] == groups[i]);
                assert(groups.last().code@ != code);
            }
        }
    }
}

/// The tiles of the map sorted by category, each category grouped by code. Within a
/// category no code is recorded twice and no group is empty.
#[derive(Debug)]
pub struct GameMap {
    monster: Vec<PositionGroup>,
    resource: Vec<PositionGroup>,
    workshop: Vec<PositionGroup>,
    bank: Vec<PositionGroup>,
    grand_exchange: Vec<PositionGroup>,
    tasks_master: Vec<PositionGroup>,
}

/// Whether no two groups share a code and none is empty.
pub open spec fn well_grouped(groups: Seq<PositionGroup>) -> bool {
    &&& distinct_codes(groups)
    &&& forall|i: int| 0 <= i < groups.len() ==> (#[trigger] groups[i]).positions@.len() > 0
}

/// Whether the groups record, under each code, the positions of the tiles of the category
/// holding that code, in listing order.
pub open spec fn groups_describe(
    groups: Seq<PositionGroup>,
    entries: Seq<MapEntry>,
    category: Category,
) -> bool {
    &&& well_grouped(groups)
    &&& forall|code: Seq<char>|
        #[trigger] group_positions(groups, code) == positions_of(entries, category, code)
}

impl GameMap {
    /// The groups of one category.
    pub closed spec fn groups(&self, category: Category) -> Seq<PositionGroup> {
        match category {
            Category::Monster => self.monster@,
            Category::Resource => self.resource@,
            Category::Workshop => self.workshop@,
            Category::Bank => self.bank@,
            Category::GrandExchange => self.grand_exchange@,
            Category::TasksMaster => self.tasks_master@,
        }
    }

    #[verifier::type_invariant]
    closed spec fn inv(self) -> bool {
        forall|c: Category| well_grouped(#[trigger] self.groups(c))
    }

    /// The map describes exactly the given tiles: in every category, under each code, the
    /// positions of the tiles holding it, in listing order, and no group without a tile.
    pub open spec fn describes(&self, entries: Seq<MapEntry>) -> bool {
        forall|c: Category| groups_describe(#[trigger] self.groups(c), entries, c)
    }

    /// The groups of one category.
    pub fn groups_of(&self, category: Category) -> (groups: &Vec<PositionGroup>)
        ensures
            groups@ == self.groups(category),
            well_grouped(groups@),
    {
        proof {
            use_type_invariant(self);
            assert(well_grouped(self.groups(category)));
        }
        match category {
            Category::Monster => &self.monster,
            Category::Resource => &self.resource,
            Category::Workshop => &self.workshop,
            Category::Bank => &self.bank,
            Category::GrandExchange => &self.grand_exchange,
            Category::TasksMaster => &self.tasks_master,
        }
    }
}

/// Appending a position to the group of `code` appends it to what is recorded under `code`
/// and leaves every other code as it was.
proof fn lemma_extend_group(
    before: Seq<PositionGroup>,
    after: Seq<PositionGroup>,
    i: int,
    code: Seq<char>,
    position: Position,
)
    requires
        distinct_codes(before),
        0 <= i < before.len(),
        before[i].code@ == code,
        after.len() == before.len(),
        after[i].code == before[i].code,
        after[i].positions@ == before[i].positions@.push(position),
        forall|j: int| 0 <= j < before.len() && j != i ==> after[j] == before[j],
    ensures
        distinct_codes(after),
        forall|c: Seq<char>|
            #[trigger] group_positions(after, c) == if c == code {
                group_positions(before, c).push(position)
            } else {
                group_positions(before, c)
            },
{
    assert forall|a: int, b: int|
        0 <= a < after.len() && 0 <= b < after.len() && a != b implies (#[trigger] after[a]).code@
            != (#[trigger] after[b]).code@ by {
        assert(before[a].code@ != before[b].code@);
        if a != i {
            assert(after[a] == before[a]);
        }
        if b != i {
            assert(after[b] == before[b]);
        }
    }
    assert forall|c: Seq<char>|
        #[trigger] group_positions(after, c) == if c == code {
            group_positions(before, c).push(position)
        } else {
            group_positions(before, c)
        } by {
        lemma_group_positions(after, c);
        lemma_group_positions(before, c);
        if c == code {
            assert(after[i].code@ == c);
        } else {
            if has_group(before, c) {
                let k = choose|k: int| 0 <= k < before.len() && (#[trigger] before[k]).code@ == c;
                assert(after[k] == before[k]);
            } else {
                assert(!has_group(after, c)) by {
                    if has_group(after, c) {
                        let k = choose|k: int| 0 <= k < after.len() && (#[trigger] after[k]).code@ == c;
                        if k != i {
                            assert(after[k] == before[k]);
                        }
                    }
                }
            }
        }
    }
}

/// Records `position` under `code`, opening a group for the code where there is none.
fn add_position(groups: &mut Vec<PositionGroup>, code: &String, position: Position)
    requires
        distinct_codes(old(groups)@),
        forall|i: int|
            0 <= i < old(groups)@.len() ==> (#[trigger] old(groups)@[i]).positions@.len() > 0,
    ensures
        distinct_codes(final(groups)@),
        forall|i: int|
            0 <= i < final(groups)@.len() ==> (#[trigger] final(groups)@[i]).positions@.len() > 0,
        forall|c: Seq<char>|
            #[trigger] group_positions(final(groups)@, c) == if c == code@ {
                group_positions(old(groups)@, c).push(position)
            } else {
                group_positions(old(groups)@, c)
            },
{
    let ghost before = groups@;
    proof {
        lemma_group_positions(before, code@);
    }
    let mut i: usize = 0;
    let mut found: Option<usize> = None;
    while i < groups.len()
        invariant
            i <= groups.len(),
            groups@ == before,
            found matches Some(f) ==> f < groups.len() && groups@[f as int].code@ == code@,
            found is None ==> forall|j: int| 0 <= j < i ==> (#[trigger] groups@[j]).code@ != code@,
        ensures
            groups@ == before,
            found matches Some(f) ==> f < groups.len() && groups@[f as int].code@ == code@,
            found is None ==> !has_group(before, code@),
        decreases groups.len() - i,
    {
        if groups[i].code == *code {
            found = Some(i);
            break;
        }
        i = i + 1;
    }
    if let Some(f) = found {
        groups[f].positions.push(position);
        proof {
            assert(groups@ =~= before.update(f as int, groups@[f as int]));
            lemma_extend_group(before, groups@, f as int, code@, position);
        }
        return ;
    }
    let mut positions: Vec<Position> = Vec::new();
    positions.push(position);
    groups.push(PositionGroup { code: code.clone(), positions });
    proof {
        let after = groups@;
        assert(!has_group(before, code@));
        assert forall|a: int, b: int|
            0 <= a < after.len() && 0 <= b < after.len() && a != b implies (
            #[trigger] after[a]).code@ != (#[trigger] after[b]).code@ by {
            if a < before.len() && b < before.len() {
                assert(after[a] == before[a] && after[b] == before[b]);
            } else if a < before.len() {
                assert(after[a] == before[a]);
            } else {
                assert(after[b] == before[b]);
            }
        }
        assert forall|c: Seq<char>|
            #[trigger] group_positions(after, c) == if c == code@ {
                group_positions(before, c).push(position)
            } else {
                group_positions(before, c)
            } by {
            assert(after.drop_last() =~= before);
            if c == code@ {
                assert(group_positions(before, c) =~= Seq::<Position>::empty());
                assert(after.last().positions@ =~= seq![position]);
            }
        }
    }
}

} // verus!

verus! {

/// Records the tile `entry` in `groups` when it holds content of `category`.
fn record_entry(
    groups: &mut Vec<PositionGroup>,
    entry: &MapEntry,
    category: Category,
    holds: bool,
    prefix: Ghost<Seq<MapEntry>>,
)
    requires
        groups_describe(old(groups)@, prefix@, category),
        holds <==> (entry.content matches Some(c) && category_of(c.content_type@) == Some(
            category,
        )),
    ensures
        groups_describe(final(groups)@, prefix@.push(*entry), category),
{
    let ghost next = prefix@.push(*entry);
    proof {
        assert(next.drop_last() =~= prefix@);
    }
    if holds {
        match &entry.content {
            Some(content) => {
                let position = Position { x: entry.x, y: entry.y };
                add_position(groups, &content.code, position);
            },
            None => {},
        }
    }
}

/// Sorts the tiles of the map by category and code. Tiles without content are skipped;
/// under each code the positions keep the order in which the server listed the tiles.
pub fn generate_map(all_data: &Vec<MapEntry>) -> (map: GameMap)
    requires
        known_contents(all_data@),
    ensures
        map.describes(all_data@),
{
    let monster_type = String::from_str("monster");
    let resource_type = String::from_str("resource");
    let workshop_type = String::from_str("workshop");
    let bank_type = String::from_str("bank");
    let grand_exchange_type = String::from_str("grand_exchange");
    let tasks_master_type = String::from_str("tasks_master");

    let mut monster: Vec<PositionGroup> = Vec::new();
    let mut resource: Vec<PositionGroup> = Vec::new();
    let mut workshop: Vec<PositionGroup> = Vec::new();
    let mut bank: Vec<PositionGroup> = Vec::new();
    let mut grand_exchange: Vec<PositionGroup> = Vec::new();
    let mut tasks_master: Vec<PositionGroup> = Vec::new();
    proof {
        assert(all_data@.take(0) =~= Seq::<MapEntry>::empty());
    }
    let mut k: usize = 0;
    while k < all_data.len()
        invariant
            k <= all_data.len(),
            known_contents(all_data@),
            monster_type@ == "monster"@,
            resource_type@ == "resource"@,
            workshop_type@ == "workshop"@,
            bank_type@ == "bank"@,
            grand_exchange_type@ == "grand_exchange"@,
            tasks_master_type@ == "tasks_master"@,
            groups_describe(monster@, all_data@.take(k as int), Category::Monster),
            groups_describe(resource@, all_data@.take(k as int), Category::Resource),
            groups_describe(workshop@, all_data@.take(k as int), Category::Workshop),
            groups_describe(bank@, all_data@.take(k as int), Category::Bank),
            groups_describe(grand_exchange@, all_data@.take(k as int), Category::GrandExchange),
            groups_describe(tasks_master@, all_data@.take(k as int), Category::TasksMaster),
        decreases all_data.len() - k,
    {
        let ghost prefix = all_data@.take(k as int);
        proof {
            assert(all_data@.take(k as int + 1) =~= prefix.push(all_data@[k as int]));
        }
        let entry = &all_data[k];
        let (is_monster, is_resource, is_workshop, is_bank, is_grand_exchange, is_tasks_master) =
            match &entry.content {
            Some(content) => (
                content.content_type == monster_type,
                content.content_type == resource_type,
                content.content_type == workshop_type,
                content.content_type == bank_type,
                content.content_type == grand_exchange_type,
                content.content_type == tasks_master_type,
            ),
            None => (false, false, false, false, false, false),
        };
        record_entry(&mut monster, entry, Category::Monster, is_monster, Ghost(prefix));
        record_entry(
            &mut resource,
            entry,
            Category::Resource,
            is_resource && !is_monster,
            Ghost(prefix),
        );
        record_entry(
            &mut workshop,
            entry,
            Category::Workshop,
            is_workshop && !is_monster && !is_resource,
            Ghost(prefix),
        );
        record_entry(
            &mut bank,
            entry,
            Category::Bank,
            is_bank && !is_monster && !is_resource && !is_workshop,
            Ghost(prefix),
        );
        record_entry(
            &mut grand_exchange,
            entry,
            Category::GrandExchange,
            is_grand_exchange && !is_monster && !is_resource && !is_workshop && !is_bank,
            Ghost(prefix),
        );
        record_entry(
            &mut tasks_master,
            entry,
            Category::TasksMaster,
            is_tasks_master && !is_monster && !is_resource && !is_workshop && !is_bank
                && !is_grand_exchange,
            Ghost(prefix),
        );
        k = k + 1;
    }
    proof {
        assert(all_data@.take(all_data.len() as int) =~= all_data@);
    }
    let map = GameMap { monster, resource, workshop, bank, grand_exchange, tasks_master };
    proof {
        assert forall|c: Category| groups_describe(#[trigger] map.groups(c), all_data@, c) by {
            match c {
                Category::Monster => {},
                Category::Resource => {},
                Category::Workshop => {},
                Category::Bank => {},
                Category::GrandExchange => {},
                Category::TasksMaster => {},
            }
        }
    }
    map
}

} // verus!

verus! {

/// Finds the group recording `code`.
pub fn find_group(groups: &Vec<PositionGroup>, code: &String) -> (found: Option<usize>)
    ensures
        found matches Some(i) ==> i < groups.len() && groups@[i as int].code@ == code@,
        found is None ==> !has_group(groups@, code@),
{
    let mut i: usize = 0;
    while i < groups.len()
        invariant
            i <= groups.len(),
            forall|j: int| 0 <= j < i ==> (#[trigger] groups@[j]).code@ != code@,
        decreases groups.len() - i,
    {
        if groups[i].code == *code {
            return Some(i);
        }
        i = i + 1;
    }
    None
}

/// All positions of all groups, group after group.
pub fn collect_positions(groups: &Vec<PositionGroup>) -> (positions: Vec<Position>)
    ensures
        positions@ == all_positions(groups@),
{
    let mut positions: Vec<Position> = Vec::new();
    let mut i: usize = 0;
    while i < groups.len()
        invariant
            i <= groups.len(),
            positions@ == all_positions(groups@.take(i as int)),
        decreases groups.len() - i,
    {
        let group = &groups[i];
        let mut j: usize = 0;
        while j < group.positions.len()
            invariant
                j <= group.positions.len(),
                positions@ == all_positions(groups@.take(i as int)) + group.positions@.take(
                    j as int,
                ),
            decreases group.positions.len() - j,
        {
            proof {
                assert(group.positions@.take(j as int + 1) =~= group.positions@.take(j as int).push(
                    group.positions@[j as int],
                ));
            }
            positions.push(group.positions[j]);
            j = j + 1;
        }
        proof {
            assert(groups@.take(i as int + 1).drop_last() =~= groups@.take(i as int));
            assert(group.positions@.take(j as int) =~= group.positions@);
            assert(all_positions(groups@.take(i as int + 1)) =~= all_positions(groups@.take(i as int))
                + group.positions@);
        }
        i = i + 1;
    }
    proof {
        assert(groups@.take(groups.len() as int) =~= groups@);
    }
    positions
}

} // verus!

verus! {

/// Every position recorded for a category and code is that of a tile holding them.
pub proof fn lemma_positions_of_origin(
    entries: Seq<MapEntry>,
    category: Category,
    code: Seq<char>,
    n: int,
)
    requires
        0 <= n < positions_of(entries, category, code).len(),
    ensures
        (exists|k: int|
            0 <= k < entries.len() && entry_holds(#[trigger] entries[k], category, code)
                && positions_of(entries, category, code)[n] == (Position {
                x: entries[k].x,
                y: entries[k].y,
            })),
    decreases entries.len(),
{
    let prefix = entries.drop_last();
    let before = positions_of(prefix, category, code);
    if n < before.len() {
        lemma_positions_of_origin(prefix, category, code, n);
        let k = choose|k: int|
            0 <= k < prefix.len() && entry_holds(#[trigger] prefix[k], category, code)
                && before[n] == Position { x: prefix[k].x, y: prefix[k].y };
        assert(entries[k] == prefix[k]);
    } else {
        let k = entries.len() - 1;
        assert(entry_holds(entries[k], category, code));
    }
}

/// Every position of all the groups is a position of one of the groups.
pub proof fn lemma_all_positions_origin(groups: Seq<PositionGroup>, n: int)
    requires
        0 <= n < all_positions(groups).len(),
    ensures
        (exists|i: int, m: int|
            0 <= i < groups.len() && 0 <= m < groups[i].positions@.len() && #[trigger] groups[i].positions@[m]
                == all_positions(groups)[n]),
    decreases groups.len(),
{
    let prefix = groups.drop_last();
    let before = all_positions(prefix);
    if n < before.len() {
        lemma_all_positions_origin(prefix, n);
        let (i, m) = choose|i: int, m: int|
            0 <= i < prefix.len() && 0 <= m < prefix[i].positions@.len()
                && #[trigger] prefix[i].positions@[m] == before[n];
        assert(groups[i] == prefix[i]);
        assert(groups[i].positions@[m] == all_positions(groups)[n]);
    } else {
        let i = groups.len() - 1;
        let m = n - before.len();
        assert(groups[i].positions@[m] == all_positions(groups)[n]);
    }
}

} // verus!
