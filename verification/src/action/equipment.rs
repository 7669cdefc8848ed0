use vstd::prelude::*;
use crate::action::{Action, ActionBody, ActionRequest};
use crate::character::CharacterData;
use crate::errors::ErrorEquipment;
use crate::gameinfo::items::{has_code, lemma_first_with_code, find_item, total_quantity};

verus! {

/// The equipment slots of a character.
#[derive(Clone, Copy, Debug, PartialEq, Eq, Structural)]
pub enum SlotType {
    Weapon,
    Shield,
    Helmet,
    BodyArmor,
    LegArmor,
    Boots,
    Ring1,
    Ring2,
    Amulet,
    Artifact1,
    Artifact2,
    Artifact3,
    Consumable1,
    Consumable2,
}

/// An item of the inventory to put into a slot.
#[derive(Debug, Clone)]
pub struct InventoryItemToEquip {
    pub slot: SlotType,
    pub code: String,
    pub quantity: u32,
}

/// What to take off a slot.
#[derive(Debug, Clone, Copy)]
pub struct InventoryItemToUnEquip {
    pub slot: SlotType,
    pub quantity: u32,
}

impl InventoryItemToEquip {
    /// The request that frees the slot this item goes into.
    pub fn to_unequip(&self) -> (item: InventoryItemToUnEquip)
        ensures
            item.slot == self.slot,
            item.quantity == self.quantity,
    {
        InventoryItemToUnEquip { slot: self.slot, quantity: self.quantity }
    }
}

/// Freeing a slot: refused when the slot is empty, or when the inventory has no room for
/// what comes off it.
pub open spec fn unequip_result(character: CharacterData, item: InventoryItemToUnEquip) -> Result<
    ActionRequest,
    ErrorEquipment,
> {
    if character.equipment_in(item.slot)@.len() == 0 {
        Err(ErrorEquipment::EmptySlot)
    } else if character.inventory_count() + item.quantity > character.inventory_max_items {
        Err(ErrorEquipment::NotEnoughPlaceInInventory)
    } else {
        Ok(ActionRequest { action: Action::UnEquip, body: ActionBody::UnEquip(item) })
    }
}

/// Whether the item count after freeing a slot fits in a `u32` (it is only computed when the
/// slot holds something).
pub open spec fn unequip_count_fits(character: CharacterData, item: InventoryItemToUnEquip) -> bool {
    character.equipment_in(item.slot)@.len() != 0 ==> character.inventory_count() + item.quantity
        <= u32::MAX
}

/// The request that frees a slot.
pub fn un_equip(character: &CharacterData, item: InventoryItemToUnEquip) -> (result: Result<
    ActionRequest,
    ErrorEquipment,
>)
    requires
        unequip_count_fits(*character, item),
    ensures
        result == unequip_result(*character, item),
{
    let worn = character.get_equipment(&item.slot);
    if worn.as_str().is_empty() {
        return Err(ErrorEquipment::EmptySlot);
    }
    if character.get_inventory_count() + item.quantity > character.inventory_max_items {
        return Err(ErrorEquipment::NotEnoughPlaceInInventory);
    }
    Ok(ActionRequest { action: Action::UnEquip, body: ActionBody::UnEquip(item) })
}

/// Equipping an item: refused when the inventory holds none of it. When the slot is empty
/// the item is put on at once; otherwise the slot is freed first (with the refusals of
/// `unequip_result`), then the item is put on.
pub open spec fn equip_result(character: CharacterData, item: InventoryItemToEquip) -> Result<
    Seq<ActionRequest>,
    ErrorEquipment,
> {
    let put_on = ActionRequest { action: Action::Equip, body: ActionBody::Equip(item) };
    if !has_code(character.inventory@, item.code@) {
        Err(ErrorEquipment::ItemNotInInventory)
    } else if character.equipment_in(item.slot)@.len() == 0 {
        Ok(seq![put_on])
    } else {
        let free = InventoryItemToUnEquip { slot: item.slot, quantity: item.quantity };
        match unequip_result(character, free) {
            Err(e) => Err(e),
            Ok(r) => Ok(seq![r, put_on]),
        }
    }
}

/// The requests that put an item of the inventory on: free its slot if something is in it,
/// then equip the item.
pub fn equip(character: &CharacterData, item: InventoryItemToEquip) -> (result: Result<
    Vec<ActionRequest>,
    ErrorEquipment,
>)
    requires
        has_code(character.inventory@, item.code@) ==> unequip_count_fits(
            *character,
            InventoryItemToUnEquip { slot: item.slot, quantity: item.quantity },
        ),
    ensures
        match equip_result(*character, item) {
            Ok(requests) => result matches Ok(r) && r@ == requests,
            Err(e) => result == Err::<Vec<ActionRequest>, ErrorEquipment>(e),
        },
{
    proof {
        lemma_first_with_code(character.inventory@, item.code@);
    }
    if find_item(&character.inventory, &item.code).is_none() {
        return Err(ErrorEquipment::ItemNotInInventory);
    }
    let mut requests: Vec<ActionRequest> = Vec::new();
    let worn = character.get_equipment(&item.slot);
    if !worn.as_str().is_empty() {
        let unequip_request = match un_equip(character, item.to_unequip()) {
            Ok(r) => r,
            Err(e) => {
                return Err(e);
            },
        };
        requests.push(unequip_request);
    }
    let ghost before = requests@;
    let ghost equip_item = item;
    requests.push(ActionRequest { action: Action::Equip, body: ActionBody::Equip(item) });
    proof {
        assert(requests@ =~= before + seq![
            ActionRequest { action: Action::Equip, body: ActionBody::Equip(equip_item) },
        ]);
    }
    Ok(requests)
}

/// Law: freeing a slot is refused when the slot's own field is empty; otherwise it is refused
/// exactly when the items carried plus those coming off would exceed the inventory's maximum,
/// and else it is the one request that frees that slot.
pub proof fn law_unequip(character: CharacterData, item: InventoryItemToUnEquip)
    ensures
        item.slot == SlotType::Ring2 && character.ring2_slot@.len() == 0 ==> unequip_result(
            character,
            item,
        ) == Err::<ActionRequest, ErrorEquipment>(ErrorEquipment::EmptySlot),
        item.slot == SlotType::Ring1 && character.ring1_slot@.len() == 0 ==> unequip_result(
            character,
            item,
        ) == Err::<ActionRequest, ErrorEquipment>(ErrorEquipment::EmptySlot),
        item.slot == SlotType::Weapon && character.weapon_slot@.len() == 0 ==> unequip_result(
            character,
            item,
        ) == Err::<ActionRequest, ErrorEquipment>(ErrorEquipment::EmptySlot),
        character.equipment_in(item.slot)@.len() != 0 ==> (unequip_result(character, item)
            == Err::<ActionRequest, ErrorEquipment>(ErrorEquipment::NotEnoughPlaceInInventory)
            <==> total_quantity(character.inventory@) + item.quantity
            > character.inventory_max_items),
        character.equipment_in(item.slot)@.len() != 0 && total_quantity(character.inventory@)
            + item.quantity <= character.inventory_max_items ==> unequip_result(character, item)
            == Ok::<ActionRequest, ErrorEquipment>(
            ActionRequest { action: Action::UnEquip, body: ActionBody::UnEquip(item) },
        ),
{
}

/// Law: equipping into a slot whose own field is empty sends the equip request alone.
pub proof fn law_equip_into_empty_slot(character: CharacterData, item: InventoryItemToEquip)
    requires
        has_code(character.inventory@, item.code@),
        character.equipment_in(item.slot)@.len() == 0,
    ensures
        equip_result(character, item) == Ok::<Seq<ActionRequest>, ErrorEquipment>(
            seq![ActionRequest { action: Action::Equip, body: ActionBody::Equip(item) }],
        ),
{
}

} // verus!
