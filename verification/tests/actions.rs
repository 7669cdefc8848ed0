use artifacts_bot::action::{action_path, after_action_call, Action, LoopControl};
use artifacts_bot::responsecode::ResponseCode;
use artifacts_bot::task::{get_task_name, task_path, Task};

#[test]
fn response_codes_are_the_http_statuses() {
    assert_eq!(ResponseCode::Ok200.get_code(), 200);
    assert_eq!(ResponseCode::ActionInProgress486.get_code(), 486);
    assert_eq!(ResponseCode::CharacterNotFound498.get_code(), 498);
    assert_eq!(ResponseCode::Cooldown499.get_code(), 499);
    assert_eq!(ResponseCode::MapIncorrect598.get_code(), 598);
    assert_eq!(ResponseCode::ItemNotFound404.get_code(), 404);
    assert_eq!(ResponseCode::TransactionInProgress461.get_code(), 461);
    assert_eq!(ResponseCode::BankFull462.get_code(), 462);
    assert_eq!(ResponseCode::InsufficientQuantity478.get_code(), 478);
}

#[test]
fn action_names() {
    assert_eq!(Action::Move.to_string(), "move");
    assert_eq!(Action::Fight.to_string(), "fight");
    assert_eq!(Action::Gathering.to_string(), "gathering");
    assert_eq!(Action::UnEquip.to_string(), "unequip");
    assert_eq!(Action::Equip.to_string(), "equip");
    assert_eq!(Action::Craft.to_string(), "crafting");
    assert_eq!(Action::BankDeposit.to_string(), "bank/deposit");
    assert_eq!(Action::BankDepositGold.to_string(), "bank/deposit/gold");
    assert_eq!(Action::BankWithdraw.to_string(), "bank/withdraw");
    assert_eq!(Action::BankWithdrawGold.to_string(), "bank/withdraw/gold");
}

#[test]
fn deposits_retry_on_transactions_and_cooldowns() {
    assert_eq!(Action::BankDeposit.get_retry_codes(), vec![461, 499]);
}

#[test]
fn other_actions_retry_on_cooldowns_only() {
    for action in [
        Action::Move,
        Action::Fight,
        Action::Gathering,
        Action::UnEquip,
        Action::Equip,
        Action::Craft,
        Action::BankDepositGold,
        Action::BankWithdraw,
        Action::BankWithdrawGold,
    ] {
        assert_eq!(action.get_retry_codes(), vec![499]);
    }
}

#[test]
fn action_paths() {
    assert_eq!(action_path(&"dim".to_string(), Action::Move), "my/dim/action/move");
    assert_eq!(
        action_path(&"bob".to_string(), Action::BankDepositGold),
        "my/bob/action/bank/deposit/gold"
    );
}

#[test]
fn counted_calls_stop_when_none_is_left() {
    assert_eq!(after_action_call(Some(3), 0, 10), LoopControl::Continue(Some(2)));
    assert_eq!(after_action_call(Some(1), 0, 10), LoopControl::Stop);
}

#[test]
fn uncounted_calls_stop_when_inventory_is_full() {
    assert_eq!(after_action_call(None, 9, 10), LoopControl::Continue(None));
    assert_eq!(after_action_call(None, 10, 10), LoopControl::Stop);
}

#[test]
fn a_count_of_n_makes_n_calls() {
    for n in 1u32..20 {
        let mut left = Some(n);
        let mut calls = 0;
        loop {
            calls += 1;
            match after_action_call(left, 0, 0) {
                LoopControl::Stop => break,
                LoopControl::Continue(next) => left = next,
            }
        }
        assert_eq!(calls, n);
    }
}

#[test]
fn task_names_and_paths() {
    assert_eq!(get_task_name(Task::Complete), "complete");
    assert_eq!(get_task_name(Task::New), "new");
    assert_eq!(get_task_name(Task::Cancel), "cancel");
    assert_eq!(get_task_name(Task::Exchange), "exchange");
    assert_eq!(task_path(&"dim".to_string(), Task::New), "my/dim/action/task/new");
}
