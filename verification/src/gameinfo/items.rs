use vstd::prelude::*;

verus! {

/// An effect that an item grants.
#[derive(Debug, Clone)]
pub struct Effect {
    pub name: String,
    pub value: i32,
}

/// A stack of items, in an inventory, a bank or a recipe.
#[derive(Debug, Clone)]
pub struct Item {
    pub slot: Option<u8>,
    pub code: String,
    pub quantity: u32,
}

/// The recipe of a craftable item.
#[derive(Debug, Clone)]
pub struct Craft {
    pub skill: String,
    pub level: u32,
    pub items: Vec<Item>,
    pub quantity: u32,
}

/// The description of an item of the game.
#[derive(Debug, Clone)]
pub struct ItemInfo {
    pub name: String,
    pub code: String,
    pub level: u32,
    pub item_type: String,
    pub subtype: String,
    pub description: String,
    pub effects: Vec<Effect>,
    pub craft: Option<Craft>,
}

/// One page of the item listing of the server.
#[derive(Debug, Clone)]
pub struct ItemPage {
    pub data: Vec<ItemInfo>,
    pub pages: usize,
}

/// Whether some stack of `items` has the code `code`.
pub open spec fn has_code(items: Seq<Item>, code: Seq<char>) -> bool {
    exists|i: int| 0 <= i < items.len() && (#[trigger] items[i]).code@ == code
}

/// The index of the first stack of `items` with the code `code`, if there is one.
pub open spec fn first_with_code(items: Seq<Item>, code: Seq<char>) -> Option<int>
    decreases items.len(),
{
    if items.len() == 0 {
        None
    } else {
        match first_with_code(items.drop_last(), code) {
            Some(i) => Some(i),
            None => if items.last().code@ == code {
                Some(items.len() - 1)
            } else {
                None
            },
        }
    }
}

/// The total number of items held in `items`, all stacks together.
pub open spec fn total_quantity(items: Seq<Item>) -> int
    decreases items.len(),
{
    if items.len() == 0 {
        0
    } else {
        total_quantity(items.drop_last()) + items.last().quantity
    }
}

/// `first_with_code` finds the first stack with the code, and finds one exactly when there is one.
pub proof fn lemma_first_with_code(items: Seq<Item>, code: Seq<char>)
    ensures
        first_with_code(items, code) is Some <==> has_code(items, code),
        first_with_code(items, code) matches Some(i) ==> {
            &&& 0 <= i < items.len()
            &&& items[i].code@ == code
            &&& forall|j: int| 0 <= j < i ==> items[j].code@ != code
        },
    decreases items.len(),
{
    if items.len() > 0 {
        let prefix = items.drop_last();
        lemma_first_with_code(prefix, code);
        assert forall|j: int| 0 <= j < prefix.len() implies prefix[j] == items[j] by {}
        if has_code(items, code) && !has_code(prefix, code) {
            let k = choose|k: int| 0 <= k < items.len() && (#[trigger] items[k]).code@ == code;
            if k < items.len() - 1 {
                assert(prefix[k] == items[k]);
            }
        }
        if has_code(prefix, code) {
            let k = choose|k: int| 0 <= k < prefix.len() && (#[trigger] prefix[k]).code@ == code;
            assert(items[k] == prefix[k]);
        }
    }
}

/// Finds the first stack of `items` with the given code.
pub fn find_item(items: &Vec<Item>, code: &String) -> (found: Option<usize>)
    ensures
        found matches Some(i) ==> Some(i as int) == first_with_code(items@, code@),
        found is None ==> first_with_code(items@, code@) is None,
{
    let mut i: usize = 0;
    while i < items.len()
        invariant
            i <= items.len(),
            first_with_code(items@.take(i as int), code@) is None,
        decreases items.len() - i,
    {
        proof {
            assert(items@.take(i as int + 1).drop_last() =~= items@.take(i as int));
        }
        if items[i].code == *code {
            proof {
                lemma_first_with_code_prefix(items@, code@, i as int + 1);
            }
            return Some(i);
        }
        i = i + 1;
    }
    proof {
        assert(items@.take(items.len() as int) =~= items@);
    }
    None
}

/// Once found in a prefix, the first stack with a code is the first stack of the whole sequence.
pub proof fn lemma_first_with_code_prefix(items: Seq<Item>, code: Seq<char>, n: int)
    requires
        0 <= n <= items.len(),
        first_with_code(items.take(n), code) is Some,
    ensures
        first_with_code(items, code) == first_with_code(items.take(n), code),
    decreases items.len() - n,
{
    if n < items.len() {
        assert(items.take(n + 1).drop_last() =~= items.take(n));
        lemma_first_with_code_prefix(items, code, n + 1);
    } else {
        assert(items.take(n) =~= items);
    }
}

} // verus!
