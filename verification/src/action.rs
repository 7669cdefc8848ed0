use vstd::prelude::*;
use crate::action::equipment::{InventoryItemToEquip, InventoryItemToUnEquip};
use crate::gameinfo::items::Item;
use crate::gameinfo::map::Position;
use crate::responsecode::{code_of, ResponseCode};

pub mod bank;
pub mod equipment;
pub mod fight;
pub mod movement;

verus! {

/// The actions a character can ask the server to perform.
#[derive(Clone, Copy, Debug, PartialEq, Eq, Structural)]
pub enum Action {
    Move,
    Fight,
    Gathering,
    UnEquip,
    Equip,
    Craft,
    BankDeposit,
    BankDepositGold,
    BankWithdraw,
    BankWithdrawGold,
}

/// The name under which the server knows an action.
pub open spec fn action_name(action: Action) -> Seq<char> {
    match action {
        Action::Move => "move"@,
        Action::Fight => "fight"@,
        Action::Gathering => "gathering"@,
        Action::UnEquip => "unequip"@,
        Action::Equip => "equip"@,
        Action::Craft => "crafting"@,
        Action::BankDeposit => "bank/deposit"@,
        Action::BankWithdraw => "bank/withdraw"@,
        Action::BankDepositGold => "bank/deposit/gold"@,
        Action::BankWithdrawGold => "bank/withdraw/gold"@,
    }
}

/// The statuses on which an action is sent again: a cooldown always, and for deposits of
/// items also a transaction already in progress.
pub open spec fn retry_codes(action: Action) -> Seq<u16> {
    if action == Action::BankDeposit {
        seq![code_of(ResponseCode::TransactionInProgress461), code_of(ResponseCode::Cooldown499)]
    } else {
        seq![code_of(ResponseCode::Cooldown499)]
    }
}

impl Action {
    /// The name under which the server knows the action.
    pub fn to_string(&self) -> (name: String)
        ensures
            name@ == action_name(*self),
    {
        match self {
            Action::Move => String::from_str("move"),
            Action::Fight => String::from_str("fight"),
            Action::Gathering => String::from_str("gathering"),
            Action::UnEquip => String::from_str("unequip"),
            Action::Equip => String::from_str("equip"),
            Action::Craft => String::from_str("crafting"),
            Action::BankDeposit => String::from_str("bank/deposit"),
            Action::BankWithdraw => String::from_str("bank/withdraw"),
            Action::BankDepositGold => String::from_str("bank/deposit/gold"),
            Action::BankWithdrawGold => String::from_str("bank/withdraw/gold"),
        }
    }

    /// The statuses on which the action is sent again.
    pub fn get_retry_codes(&self) -> (codes: Vec<u16>)
        ensures
            codes@ == retry_codes(*self),
    {
        let mut responses: Vec<ResponseCode> = match self {
            Action::BankDeposit => {
                let mut v: Vec<ResponseCode> = Vec::new();
                v.push(ResponseCode::TransactionInProgress461);
                v
            },
            _ => Vec::new(),
        };
        responses.push(ResponseCode::Cooldown499);
        let mut codes: Vec<u16> = Vec::new();
        let mut i: usize = 0;
        while i < responses.len()
            invariant
                i <= responses.len(),
                codes@.len() == i,
                forall|j: int| 0 <= j < i ==> codes@[j] == code_of(#[trigger] responses@[j]),
            decreases responses.len() - i,
        {
            codes.push(responses[i].get_code());
            i = i + 1;
        }
        proof {
            if *self == Action::BankDeposit {
                assert(responses@ =~= seq![ResponseCode::TransactionInProgress461, ResponseCode::Cooldown499]);
                assert(codes@[0] == code_of(responses@[0]));
                assert(codes@[1] == code_of(responses@[1]));
            } else {
                assert(responses@ =~= seq![ResponseCode::Cooldown499]);
                assert(codes@[0] == code_of(responses@[0]));
            }
            assert(codes@ =~= retry_codes(*self));
        }
        codes
    }
}

impl Action {
    /// Whether an answer with this status is met by sending the action again.
    pub fn should_retry(&self, status: u16) -> (retry: bool)
        ensures
            retry == retry_codes(*self).contains(status),
    {
        let codes = self.get_retry_codes();
        let mut i: usize = 0;
        while i < codes.len()
            invariant
                i <= codes.len(),
                codes@ == retry_codes(*self),
                forall|j: int| 0 <= j < i ==> codes@[j] != status,
            decreases codes.len() - i,
        {
            if codes[i] == status {
                proof {
                    assert(codes@[i as int] == status);
                }
                return true;
            }
            i = i + 1;
        }
        false
    }
}

/// The path of the action endpoint of a character: `my/{name}/action/{action}`.
pub open spec fn action_path_of(character_name: Seq<char>, action: Action) -> Seq<char> {
    "my/"@ + character_name + "/action/"@ + action_name(action)
}

/// The path under which the server performs `action` for the named character.
pub fn action_path(character_name: &String, action: Action) -> (path: String)
    ensures
        path@ == action_path_of(character_name@, action),
{
    let mut path = String::from_str("my/");
    path.append(character_name.as_str());
    path.append("/action/");
    let name = action.to_string();
    path.append(name.as_str());
    path
}

/// The body sent with an action.
#[derive(Debug, Clone)]
pub enum ActionBody {
    /// An amount of gold.
    Quantity(u32),
    /// A stack of items.
    Item(Item),
    /// A destination.
    Position(Position),
    /// An item to equip.
    Equip(InventoryItemToEquip),
    /// A slot to free.
    UnEquip(InventoryItemToUnEquip),
}

/// One action to send to the server, with its body.
#[derive(Debug, Clone)]
pub struct ActionRequest {
    pub action: Action,
    pub body: ActionBody,
}

/// What to do once an action has been performed.
#[derive(Debug, Clone, Copy, PartialEq, Eq, Structural)]
pub enum LoopControl {
    /// Send the action again, with the number of calls left (or `None` to go on until the
    /// inventory is full).
    Continue(Option<u32>),
    /// The calls are done.
    Stop,
}

/// After a call: with a number of calls, one fewer is left and the calls stop when none is;
/// without one, the calls stop once the inventory is full.
pub open spec fn control_after_call(
    how_many: Option<u32>,
    inventory_count: u32,
    inventory_max_items: u32,
) -> LoopControl {
    match how_many {
        Some(n) => if n - 1 == 0 {
            LoopControl::Stop
        } else {
            LoopControl::Continue(Some((n - 1) as u32))
        },
        None => if inventory_count == inventory_max_items {
            LoopControl::Stop
        } else {
            LoopControl::Continue(None)
        },
    }
}

/// Decides, after one call of an action, whether to send it again. A count of zero calls
/// left is refused: the count is decremented before it is tested.
pub fn after_action_call(how_many: Option<u32>, inventory_count: u32, inventory_max_items: u32) -> (control: LoopControl)
    requires
        how_many != Some(0u32),
    ensures
        control == control_after_call(how_many, inventory_count, inventory_max_items),
{
    match how_many {
        Some(n) => {
            let left = n - 1;
            if left == 0 {
                LoopControl::Stop
            } else {
                LoopControl::Continue(Some(left))
            }
        },
        None => {
            if inventory_count == inventory_max_items {
                LoopControl::Stop
            } else {
                LoopControl::Continue(None)
            }
        },
    }
}

/// The number of calls made when an action is sent with `n` calls to go.
pub open spec fn calls_made(n: u32) -> nat
    decreases n,
{
    match control_after_call(Some(n), 0, 0) {
        LoopControl::Stop => 1,
        LoopControl::Continue(Some(m)) => if 0 < m < n {
            1 + calls_made(m)
        } else {
            1
        },
        LoopControl::Continue(None) => 1,
    }
}

/// Sending an action with a count of `n` calls performs it exactly `n` times.
pub proof fn law_count_of_calls(n: u32)
    requires
        n >= 1,
    ensures
        calls_made(n) == n,
    decreases n,
{
    if n > 1 {
        law_count_of_calls((n - 1) as u32);
    }
}

} // verus!

verus! {

/// Law: every action is sent again on a cooldown (499); only a deposit of items is also sent
/// again on a transaction in progress (461); no other status is retried.
pub proof fn law_retry_statuses(action: Action, status: u16)
    ensures
        retry_codes(action).contains(499),
        retry_codes(action).contains(461) <==> action == Action::BankDeposit,
        retry_codes(action).contains(status) ==> status == 499 || status == 461,
{
    let codes = retry_codes(action);
    if action == Action::BankDeposit {
        assert(codes[1] == 499u16);
        assert(codes[0] == 461u16);
    } else {
        assert(codes[0] == 499u16);
    }
}

/// Law: without a count, an action is sent again until the inventory holds exactly its
/// maximum, and then no more.
pub proof fn law_fill_until_full(inventory_count: u32, inventory_max_items: u32)
    ensures
        control_after_call(None, inventory_count, inventory_max_items) == LoopControl::Stop
            <==> inventory_count == inventory_max_items,
        inventory_count != inventory_max_items ==> control_after_call(
            None,
            inventory_count,
            inventory_max_items,
        ) == LoopControl::Continue(None),
{
}

} // verus!
