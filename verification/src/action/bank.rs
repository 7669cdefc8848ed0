use vstd::prelude::*;
use crate::action::{Action, ActionBody, ActionRequest};
use crate::character::CharacterData;
use crate::errors::{ErrorAction, ErrorBank};
use crate::gameinfo::items::{first_with_code, find_item, has_code, lemma_first_with_code, Item};

verus! {

/// The bank's capacity and gold.
#[derive(Debug, Clone, Copy)]
pub struct BankInfo {
    pub slots: u32,
    pub expansions: u32,
    pub next_expansion_cost: u32,
    pub gold: u32,
}

/// The bank of the account: its capacity, its gold and the stacks it holds.
#[derive(Debug, Clone)]
pub struct Bank {
    pub info: BankInfo,
    pub content: Vec<Item>,
}

/// One step of a bank operation, performed in order by whoever talks to the server.
#[derive(Debug, Clone)]
pub enum BankStep {
    /// Move the character to the nearest bank; a failed move is not an error.
    MoveToBank,
    /// Send an action; a failed action ends the operation with its error.
    Request(ActionRequest),
}

/// A bank operation: the steps to perform, then the result to give once all succeeded.
#[derive(Debug)]
pub struct BankPlan {
    pub steps: Vec<BankStep>,
    pub outcome: Result<(), ErrorBank>,
}

/// Whether a bank operation stops after a step, given how that step failed (`None` when it
/// succeeded): a failed move is passed over, the first failed request ends the operation with
/// its error.
pub open spec fn stop_after_step(step: BankStep, failure: Option<ErrorAction>) -> Option<ErrorBank> {
    match (step, failure) {
        (BankStep::Request(_), Some(e)) => Some(ErrorBank::ErrorAction(e)),
        _ => None,
    }
}

/// Decides, once a step of a bank operation has been performed, whether the operation stops
/// and with which error.
pub fn after_bank_step(step: &BankStep, failure: Option<ErrorAction>) -> (stop: Option<ErrorBank>)
    ensures
        stop == stop_after_step(*step, failure),
{
    match step {
        BankStep::MoveToBank => None,
        BankStep::Request(_) => match failure {
            Some(e) => Some(ErrorBank::ErrorAction(e)),
            None => None,
        },
    }
}

/// How much to take out of `held`: the requested quantity when there is that much, else all.
pub open spec fn quantity_to_move(held: u32, quantity: Option<u32>) -> u32 {
    match quantity {
        Some(q) => if held >= q {
            q
        } else {
            held
        },
        None => held,
    }
}

/// The request that deposits a stack in the bank.
pub open spec fn deposit_request(code: String, quantity: u32) -> BankStep {
    BankStep::Request(
        ActionRequest {
            action: Action::BankDeposit,
            body: ActionBody::Item(Item { slot: None, code, quantity }),
        },
    )
}

/// The steps that deposit gold: nothing when there is none to deposit.
pub open spec fn deposit_gold_steps(gold: u32, quantity: Option<u32>) -> Seq<BankStep> {
    let q = quantity_to_move(gold, quantity);
    if q == 0 {
        Seq::empty()
    } else {
        seq![
            BankStep::MoveToBank,
            BankStep::Request(
                ActionRequest { action: Action::BankDepositGold, body: ActionBody::Quantity(q) },
            ),
        ]
    }
}

impl Bank {
    /// The number of slots of the bank, expansions included.
    pub open spec fn total_slots(&self) -> int {
        self.info.slots + self.info.expansions
    }

    /// Whether the slot count fits in a `u32` and the bank holds no more stacks than slots.
    pub open spec fn slots_fit(&self) -> bool {
        self.total_slots() <= u32::MAX && self.content@.len() <= self.total_slots()
    }

    /// The number of unused slots.
    pub open spec fn free_slots(&self) -> int {
        self.total_slots() - self.content@.len()
    }

    /// Whether a stack of the code can be stored: it joins a stack already there, or takes a
    /// free slot.
    pub open spec fn can_store(&self, code: Seq<char>) -> bool {
        has_code(self.content@, code) || self.free_slots() > 0
    }

    /// Whether the bank already holds a stack of the code of every non-empty stack of `items`.
    pub open spec fn holds_all_codes(&self, items: Seq<Item>) -> bool {
        forall|j: int|
            0 <= j < items.len() && (#[trigger] items[j]).quantity > 0 ==> has_code(
                self.content@,
                items[j].code@,
            )
    }

    /// The plan that deposits some of the stack `code` of the inventory.
    pub open spec fn deposit_item_plan(
        &self,
        inventory: Seq<Item>,
        code: String,
        quantity: Option<u32>,
    ) -> (Seq<BankStep>, Result<(), ErrorBank>) {
        if !self.can_store(code@) {
            (Seq::empty(), Err(ErrorBank::NotEnoughPlaceInBank))
        } else {
            match first_with_code(inventory, code@) {
                None => (Seq::empty(), Err(ErrorBank::NotInInventory)),
                Some(i) => {
                    let q = quantity_to_move(inventory[i].quantity, quantity);
                    if q == 0 {
                        (Seq::empty(), Ok(()))
                    } else {
                        (seq![BankStep::MoveToBank, deposit_request(code, q)], Ok(()))
                    }
                },
            }
        }
    }

    /// The plan that deposits every non-empty stack of the inventory from index `i` on, one
    /// after the other, stopping at the first refused one.
    pub open spec fn deposit_items_plan(&self, inventory: Seq<Item>, i: int) -> (
        Seq<BankStep>,
        Result<(), ErrorBank>,
    )
        decreases inventory.len() - i,
    {
        if i < 0 || i >= inventory.len() {
            (Seq::empty(), Ok(()))
        } else if inventory[i].quantity > 0 {
            let p = self.deposit_item_plan(inventory, inventory[i].code, None);
            if p.1 is Err {
                p
            } else {
                let rest = self.deposit_items_plan(inventory, i + 1);
                (p.0 + rest.0, rest.1)
            }
        } else {
            self.deposit_items_plan(inventory, i + 1)
        }
    }

    /// The plan that deposits all the gold, then every non-empty stack of the inventory.
    pub open spec fn deposit_all_plan(&self, character: CharacterData) -> (
        Seq<BankStep>,
        Result<(), ErrorBank>,
    ) {
        let gold = deposit_gold_steps(character.gold, None);
        if character.inventory_count() == 0 {
            (gold, Ok(()))
        } else {
            let items = self.deposit_items_plan(character.inventory@, 0);
            (gold + seq![BankStep::MoveToBank] + items.0, items.1)
        }
    }

    /// Gathers the bank's details and content.
    pub fn new(info: BankInfo, content: Vec<Item>) -> (bank: Bank)
        ensures
            bank.info == info,
            bank.content == content,
    {
        Bank { info, content }
    }

    /// The number of unused slots.
    pub fn get_free_slots(&self) -> (free: usize)
        requires
            self.slots_fit(),
        ensures
            free == self.free_slots(),
    {
        let total_slots = (self.info.slots + self.info.expansions) as usize;
        let used_slots = self.content.len();
        total_slots - used_slots
    }

    /// Whether a stack of the code can be stored in the bank.
    pub fn can_store_item(&self, item_code: &String) -> (can: bool)
        requires
            has_code(self.content@, item_code@) || self.slots_fit(),
        ensures
            can == self.can_store(item_code@),
    {
        proof {
            lemma_first_with_code(self.content@, item_code@);
        }
        if find_item(&self.content, item_code).is_some() {
            return true;
        }
        let free_slots = self.get_free_slots();
        free_slots > 0
    }

    /// Deposits the requested gold, or all of it when the character holds less or no quantity
    /// is given; nothing to do when that is none.
    pub fn deposit_gold(&self, character: &CharacterData, quantity: Option<u32>) -> (plan: BankPlan)
        ensures
            plan.steps@ == deposit_gold_steps(character.gold, quantity),
            plan.outcome == Ok::<(), ErrorBank>(()),
    {
        let amount = match quantity {
            Some(q) => if character.gold >= q {
                q
            } else {
                character.gold
            },
            None => character.gold,
        };
        let mut steps: Vec<BankStep> = Vec::new();
        if amount != 0 {
            steps.push(BankStep::MoveToBank);
            steps.push(
                BankStep::Request(
                    ActionRequest {
                        action: Action::BankDepositGold,
                        body: ActionBody::Quantity(amount),
                    },
                ),
            );
        }
        proof {
            assert(steps@ =~= deposit_gold_steps(character.gold, quantity));
        }
        BankPlan { steps, outcome: Ok(()) }
    }

    /// Deposits the requested number of items of a stack of the inventory, or the whole stack
    /// when it holds less or no quantity is given. Refused when the bank has no room for the
    /// code or the inventory holds none of it.
    pub fn deposit_item(&self, character: &CharacterData, item_code: &String, quantity: Option<u32>) -> (plan: BankPlan)
        requires
            has_code(self.content@, item_code@) || self.slots_fit(),
        ensures
            (plan.steps@, plan.outcome) == self.deposit_item_plan(
                character.inventory@,
                *item_code,
                quantity,
            ),
    {
        if !self.can_store_item(item_code) {
            return BankPlan { steps: Vec::new(), outcome: Err(ErrorBank::NotEnoughPlaceInBank) };
        }
        let found = find_item(&character.inventory, item_code);
        proof {
            lemma_first_with_code(character.inventory@, item_code@);
        }
        let index = match found {
            None => {
                return BankPlan { steps: Vec::new(), outcome: Err(ErrorBank::NotInInventory) };
            },
            Some(i) => i,
        };
        let held = character.inventory[index].quantity;
        let amount = match quantity {
            Some(q) => if held >= q {
                q
            } else {
                held
            },
            None => held,
        };
        let mut steps: Vec<BankStep> = Vec::new();
        if amount != 0 {
            steps.push(BankStep::MoveToBank);
            let item = Item { slot: None, code: item_code.clone(), quantity: amount };
            steps.push(
                BankStep::Request(
                    ActionRequest { action: Action::BankDeposit, body: ActionBody::Item(item) },
                ),
            );
        }
        proof {
            assert(steps@ =~= self.deposit_item_plan(character.inventory@, *item_code, quantity).0);
        }
        BankPlan { steps, outcome: Ok(()) }
    }

    /// Deposits all the gold, then, when the inventory holds anything, moves to the bank and
    /// deposits every non-empty stack in inventory order; the first stack refused ends the
    /// operation with its error, after the deposits before it.
    pub fn deposit_all_items_and_gold(&self, character: &CharacterData) -> (plan: BankPlan)
        requires
            self.slots_fit() || self.holds_all_codes(character.inventory@),
            character.inventory_count() <= u32::MAX,
        ensures
            (plan.steps@, plan.outcome) == self.deposit_all_plan(*character),
    {
        let gold_plan = self.deposit_gold(character, None);
        let mut steps = gold_plan.steps;
        if character.get_inventory_count() == 0 {
            return BankPlan { steps, outcome: Ok(()) };
        }
        steps.push(BankStep::MoveToBank);
        let ghost head = steps@;
        let ghost acc: Seq<BankStep> = Seq::empty();
        let ghost inventory = character.inventory@;
        let mut i: usize = 0;
        while i < character.inventory.len()
            invariant
                i <= character.inventory.len(),
                inventory == character.inventory@,
                character.inventory_count() != 0,
                self.slots_fit() || self.holds_all_codes(inventory),
                head == deposit_gold_steps(character.gold, None) + seq![BankStep::MoveToBank],
                steps@ == head + acc,
                self.deposit_items_plan(inventory, 0).0 == acc + self.deposit_items_plan(
                    inventory,
                    i as int,
                ).0,
                self.deposit_items_plan(inventory, 0).1 == self.deposit_items_plan(
                    inventory,
                    i as int,
                ).1,
            decreases character.inventory.len() - i,
        {
            if character.inventory[i].quantity > 0 {
                let p = self.deposit_item(character, &character.inventory[i].code, None);
                let mut more = p.steps;
                let ghost added = more@;
                steps.append(&mut more);
                if p.outcome.is_err() {
                    proof {
                        assert(steps@ =~= head + (acc + added));
                        assert(self.deposit_items_plan(inventory, 0).0 =~= acc + added);
                        assert(self.deposit_items_plan(inventory, 0).1 == p.outcome);
                    }
                    return BankPlan { steps, outcome: p.outcome };
                }
                proof {
                    assert(self.deposit_items_plan(inventory, 0).0 =~= (acc + added)
                        + self.deposit_items_plan(inventory, i as int + 1).0);
                    acc = acc + added;
                    assert(steps@ =~= head + acc);
                }
            }
            i = i + 1;
        }
        proof {
            assert(acc + Seq::<BankStep>::empty() =~= acc);
            assert(steps@ =~= deposit_gold_steps(character.gold, None) + seq![BankStep::MoveToBank]
                + acc);
        }
        BankPlan { steps, outcome: Ok(()) }
    }

    /// Withdraws `qtt` items of the code. Refused when the bank holds no stack of it, or its
    /// first stack of it holds fewer than `qtt`.
    pub fn withdraw_item(&self, item_code: &String, qtt: u32) -> (plan: BankPlan)
        ensures
            first_with_code(self.content@, item_code@) is None ==> plan.steps@.len() == 0
                && plan.outcome == Err::<(), ErrorBank>(ErrorBank::ItemNotFoundInBank),
            first_with_code(self.content@, item_code@) matches Some(i) ==> if self.content@[i].quantity
                < qtt {
                plan.steps@.len() == 0 && plan.outcome == Err::<(), ErrorBank>(
                    ErrorBank::NotEnoughItemInBank,
                )
            } else {
                &&& plan.steps@ == seq![
                    BankStep::MoveToBank,
                    BankStep::Request(
                        ActionRequest {
                            action: Action::BankWithdraw,
                            body: ActionBody::Item(Item { slot: None, code: *item_code, quantity: qtt }),
                        },
                    ),
                ]
                &&& plan.outcome == Ok::<(), ErrorBank>(())
            },
    {
        proof {
            lemma_first_with_code(self.content@, item_code@);
        }
        let index = match find_item(&self.content, item_code) {
            None => {
                return BankPlan { steps: Vec::new(), outcome: Err(ErrorBank::ItemNotFoundInBank) };
            },
            Some(i) => i,
        };
        if self.content[index].quantity < qtt {
            return BankPlan { steps: Vec::new(), outcome: Err(ErrorBank::NotEnoughItemInBank) };
        }
        let mut steps: Vec<BankStep> = Vec::new();
        steps.push(BankStep::MoveToBank);
        let item = Item { slot: None, code: item_code.clone(), quantity: qtt };
        steps.push(
            BankStep::Request(
                ActionRequest { action: Action::BankWithdraw, body: ActionBody::Item(item) },
            ),
        );
        proof {
            assert(steps@ =~= seq![
                BankStep::MoveToBank,
                BankStep::Request(
                    ActionRequest {
                        action: Action::BankWithdraw,
                        body: ActionBody::Item(Item { slot: None, code: *item_code, quantity: qtt }),
                    },
                ),
            ]);
        }
        BankPlan { steps, outcome: Ok(()) }
    }

    /// Withdraws `quantity` gold; refused when the bank holds less.
    pub fn withdraw_gold(&self, quantity: u32) -> (plan: BankPlan)
        ensures
            self.info.gold < quantity ==> plan.steps@.len() == 0 && plan.outcome == Err::<
                (),
                ErrorBank,
            >(ErrorBank::NotEnoughGoldInBank),
            self.info.gold >= quantity ==> {
                &&& plan.steps@ == seq![
                    BankStep::MoveToBank,
                    BankStep::Request(
                        ActionRequest {
                            action: Action::BankWithdrawGold,
                            body: ActionBody::Quantity(quantity),
                        },
                    ),
                ]
                &&& plan.outcome == Ok::<(), ErrorBank>(())
            },
    {
        if self.info.gold < quantity {
            return BankPlan { steps: Vec::new(), outcome: Err(ErrorBank::NotEnoughGoldInBank) };
        }
        let mut steps: Vec<BankStep> = Vec::new();
        steps.push(BankStep::MoveToBank);
        steps.push(
            BankStep::Request(
                ActionRequest {
                    action: Action::BankWithdrawGold,
                    body: ActionBody::Quantity(quantity),
                },
            ),
        );
        proof {
            assert(steps@ =~= seq![
                BankStep::MoveToBank,
                BankStep::Request(
                    ActionRequest {
                        action: Action::BankWithdrawGold,
                        body: ActionBody::Quantity(quantity),
                    },
                ),
            ]);
        }
        BankPlan { steps, outcome: Ok(()) }
    }
}

} // verus!

verus! {

/// The steps that deposit, in inventory order, every non-empty stack from index `i` on, each
/// stack in full.
pub open spec fn full_deposits(inventory: Seq<Item>, i: int) -> Seq<BankStep>
    decreases inventory.len() - i,
{
    if i < 0 || i >= inventory.len() {
        Seq::empty()
    } else if inventory[i].quantity > 0 {
        seq![BankStep::MoveToBank, deposit_request(inventory[i].code, inventory[i].quantity)]
            + full_deposits(inventory, i + 1)
    } else {
        full_deposits(inventory, i + 1)
    }
}

/// Whether no two stacks share a code.
pub open spec fn distinct_item_codes(items: Seq<Item>) -> bool {
    forall|i: int, j: int|
        0 <= i < items.len() && 0 <= j < items.len() && i != j ==> (#[trigger] items[i]).code@
            != (#[trigger] items[j]).code@
}

/// When the bank has room for every stack, depositing the stacks from `i` on deposits each
/// non-empty one in full, in order, and succeeds.
pub proof fn lemma_deposit_items(bank: Bank, inventory: Seq<Item>, i: int)
    requires
        0 <= i,
        distinct_item_codes(inventory),
        forall|j: int| 0 <= j < inventory.len() ==> bank.can_store((#[trigger] inventory[j]).code@),
    ensures
        bank.deposit_items_plan(inventory, i) == (full_deposits(inventory, i), Ok::<(), ErrorBank>(())),
    decreases inventory.len() - i,
{
    if i < inventory.len() {
        lemma_deposit_items(bank, inventory, i + 1);
        if inventory[i].quantity > 0 {
            lemma_first_with_code(inventory, inventory[i].code@);
            let k = first_with_code(inventory, inventory[i].code@).unwrap();
            if k != i {
                assert(inventory[k].code@ != inventory[i].code@);
            }
        }
    }
}

/// Law: when the bank has room for every stack of an inventory whose codes are distinct,
/// depositing everything deposits all the gold (if any), then moves to the bank and deposits
/// every non-empty stack in full, in inventory order, and succeeds.
pub proof fn law_deposit_all_items_and_gold(bank: Bank, character: CharacterData)
    requires
        distinct_item_codes(character.inventory@),
        forall|j: int|
            0 <= j < character.inventory@.len() ==> bank.can_store(
                (#[trigger] character.inventory@[j]).code@,
            ),
    ensures
        bank.deposit_all_plan(character).1 == Ok::<(), ErrorBank>(()),
        bank.deposit_all_plan(character).0 == (if character.gold == 0 {
            Seq::<BankStep>::empty()
        } else {
            seq![
                BankStep::MoveToBank,
                BankStep::Request(
                    ActionRequest {
                        action: Action::BankDepositGold,
                        body: ActionBody::Quantity(character.gold),
                    },
                ),
            ]
        }) + (if character.inventory_count() == 0 {
            Seq::<BankStep>::empty()
        } else {
            seq![BankStep::MoveToBank] + full_deposits(character.inventory@, 0)
        }),
{
    lemma_deposit_items(bank, character.inventory@, 0);
    if character.inventory_count() == 0 {
        assert(bank.deposit_all_plan(character).0 =~= deposit_gold_steps(character.gold, None)
            + Seq::<BankStep>::empty());
    } else {
        assert(bank.deposit_all_plan(character).0 =~= deposit_gold_steps(character.gold, None) + (
        seq![BankStep::MoveToBank] + full_deposits(character.inventory@, 0)));
    }
}

} // verus!

verus! {

/// Law: a deposit of a stack takes the quantity asked for when the character holds that many,
/// and the whole stack otherwise (all of it when no quantity is asked): never more than it
/// holds, nor more than was asked. Nothing is sent when that comes to nothing.
pub proof fn law_deposit_item_quantity(
    bank: Bank,
    inventory: Seq<Item>,
    code: String,
    quantity: Option<u32>,
    i: int,
)
    requires
        bank.can_store(code@),
        0 <= i < inventory.len(),
        inventory[i].code@ == code@,
        forall|j: int| 0 <= j < i ==> inventory[j].code@ != code@,
    ensures
        ({
            let held = inventory[i].quantity;
            let asked = match quantity {
                Some(q) => q,
                None => held,
            };
            let moved = if asked <= held {
                asked
            } else {
                held
            };
            let plan = bank.deposit_item_plan(inventory, code, quantity);
            &&& plan.1 == Ok::<(), ErrorBank>(())
            &&& moved == 0 ==> plan.0.len() == 0
            &&& moved > 0 ==> plan.0 == seq![
                BankStep::MoveToBank,
                BankStep::Request(
                    ActionRequest {
                        action: Action::BankDeposit,
                        body: ActionBody::Item(Item { slot: None, code, quantity: moved }),
                    },
                ),
            ]
        }),
{
    lemma_first_with_code(inventory, code@);
    let k = first_with_code(inventory, code@).unwrap();
    if k < i {
        assert(inventory[k].code@ != code@);
    }
    if i < k {
        assert(inventory[i].code@ != code@);
    }
}

/// Law: a deposit is refused for want of room exactly when the bank holds no stack of the code
/// and has no free slot, and for want of items when the inventory holds no stack of the code.
pub proof fn law_deposit_item_refusals(
    bank: Bank,
    inventory: Seq<Item>,
    code: String,
    quantity: Option<u32>,
)
    ensures
        (forall|j: int| 0 <= j < bank.content@.len() ==> (#[trigger] bank.content@[j]).code@ != code@)
            && bank.info.slots + bank.info.expansions <= bank.content@.len() ==> bank.deposit_item_plan(
            inventory,
            code,
            quantity,
        ) == (Seq::<BankStep>::empty(), Err::<(), ErrorBank>(ErrorBank::NotEnoughPlaceInBank)),
        bank.can_store(code@) && (forall|j: int|
            0 <= j < inventory.len() ==> (#[trigger] inventory[j]).code@ != code@) ==> bank.deposit_item_plan(
            inventory,
            code,
            quantity,
        ) == (Seq::<BankStep>::empty(), Err::<(), ErrorBank>(ErrorBank::NotInInventory)),
        ((exists|j: int| 0 <= j < bank.content@.len() && (#[trigger] bank.content@[j]).code@ == code@)
            || bank.info.slots + bank.info.expansions > bank.content@.len()) ==> bank.can_store(code@),
{
    lemma_first_with_code(inventory, code@);
    lemma_first_with_code(bank.content@, code@);
}

/// Law: a deposit of gold takes the amount asked for when the character holds that much, and
/// all its gold otherwise (all of it when no amount is asked); nothing is sent when that comes
/// to nothing.
pub proof fn law_deposit_gold_quantity(gold: u32, quantity: Option<u32>)
    ensures
        ({
            let asked = match quantity {
                Some(q) => q,
                None => gold,
            };
            let moved = if asked <= gold {
                asked
            } else {
                gold
            };
            &&& moved == 0 ==> deposit_gold_steps(gold, quantity).len() == 0
            &&& moved > 0 ==> deposit_gold_steps(gold, quantity) == seq![
                BankStep::MoveToBank,
                BankStep::Request(
                    ActionRequest {
                        action: Action::BankDepositGold,
                        body: ActionBody::Quantity(moved),
                    },
                ),
            ]
        }),
{
}

} // verus!
