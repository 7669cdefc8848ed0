use vstd::prelude::*;

verus! {

/// Status codes of the game server that the bot reacts to.
#[derive(Clone, Copy, Debug, PartialEq, Eq, Structural)]
pub enum ResponseCode {
    /// 200: successful operation.
    Ok200,
    /// 486: an action is already in progress for the user.
    ActionInProgress486,
    /// 498: character not found.
    CharacterNotFound498,
    /// 499: cooldown in progress.
    Cooldown499,
    /// 598: map incorrect.
    MapIncorrect598,
    /// 404: item not found in the inventory.
    ItemNotFound404,
    /// 461: a transaction is already in progress with this item or the gold in the bank.
    TransactionInProgress461,
    /// 462: the bank is full.
    BankFull462,
    /// 478: insufficient quantity of this item in the inventory.
    InsufficientQuantity478,
}

/// The numeric HTTP status of each response code.
pub open spec fn code_of(code: ResponseCode) -> u16 {
    match code {
        ResponseCode::Ok200 => 200,
        ResponseCode::ActionInProgress486 => 486,
        ResponseCode::CharacterNotFound498 => 498,
        ResponseCode::Cooldown499 => 499,
        ResponseCode::MapIncorrect598 => 598,
        ResponseCode::ItemNotFound404 => 404,
        ResponseCode::TransactionInProgress461 => 461,
        ResponseCode::BankFull462 => 462,
        ResponseCode::InsufficientQuantity478 => 478,
    }
}

impl ResponseCode {
    /// The HTTP status that the server sends for this response.
    pub fn get_code(&self) -> (code: u16)
        ensures
            code == code_of(*self),
    {
        match self {
            ResponseCode::Ok200 => 200,
            ResponseCode::ActionInProgress486 => 486,
            ResponseCode::CharacterNotFound498 => 498,
            ResponseCode::Cooldown499 => 499,
            ResponseCode::MapIncorrect598 => 598,
            ResponseCode::ItemNotFound404 => 404,
            ResponseCode::TransactionInProgress461 => 461,
            ResponseCode::BankFull462 => 462,
            ResponseCode::InsufficientQuantity478 => 478,
        }
    }
}

} // verus!
