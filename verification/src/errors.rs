use vstd::prelude::*;

verus! {

/// Why an action could not be performed.
#[derive(Debug, Clone, Copy, PartialEq, Eq, Structural)]
pub enum ErrorAction {
    /// The server answered with something that is not an action result.
    ErrorParsingResponse,
    /// The request could not be sent.
    ErrorRequest(ErrorRequest),
}

/// Why a request could not be sent.
#[derive(Debug, Clone, Copy, PartialEq, Eq, Structural)]
pub enum ErrorRequest {
    /// Every attempt to send it failed.
    ErrorSendingRequest,
}

/// Why a bank operation was refused or failed.
#[derive(Debug, Clone, Copy, PartialEq, Eq, Structural)]
pub enum ErrorBank {
    NotEnoughGoldInBank,
    NotEnoughPlaceInBank,
    NotEnoughPlaceInInventory,
    NotInInventory,
    NotEnoughItemInBank,
    ItemNotFoundInBank,
    ErrorAction(ErrorAction),
}

/// Why an equipment change was refused or failed.
#[derive(Debug, Clone, Copy, PartialEq, Eq, Structural)]
pub enum ErrorEquipment {
    ErrorAction(ErrorAction),
    NotEnoughPlaceInInventory,
    ItemNotInInventory,
    EmptySlot,
}

/// Why a move failed.
#[derive(Debug, Clone, Copy, PartialEq, Eq, Structural)]
pub enum ErrorMovement {
    NoPositionFound,
    Action(ErrorAction),
}

} // verus!
