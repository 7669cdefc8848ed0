use artifacts_bot::action::bank::{after_bank_step, BankStep};
use artifacts_bot::action::{Action, ActionBody, ActionRequest};
use artifacts_bot::char_info::{inventory_in_response, max_items_in_response, max_items_of};
use artifacts_bot::errors::{ErrorAction, ErrorBank, ErrorRequest};
use artifacts_bot::server::PagedListing;

#[test]
fn inventory_size_is_read_from_the_answer() {
    let text = r#"{"data": {"name": "dim", "inventory_max_items": 120}}"#;
    assert_eq!(max_items_in_response(text), Some(Some(120)));
}

#[test]
fn inventory_size_missing_or_not_json() {
    assert_eq!(max_items_in_response(r#"{"data": {"name": "dim"}}"#), Some(None));
    assert_eq!(max_items_in_response(r#"{"data": {"inventory_max_items": -3}}"#), Some(None));
    assert_eq!(max_items_in_response("not json"), None);
}

#[test]
fn inventory_size_keeps_the_low_bits() {
    assert_eq!(max_items_of(Some(7)), Some(7));
    assert_eq!(max_items_of(Some((1u64 << 32) + 5)), Some(5));
    assert_eq!(max_items_of(None), None);
}

#[test]
fn inventory_is_read_from_the_answer() {
    let text = r#"{"data": {"inventory": [{"slot": 1, "code": "ash_wood", "quantity": 3}, {"slot": 2, "code": "", "quantity": 0}]}}"#;
    let inventory = inventory_in_response(text).unwrap().unwrap();
    assert_eq!(inventory.len(), 2);
    assert_eq!(inventory[0], r#"{"code":"ash_wood","quantity":3,"slot":1}"#);
    assert_eq!(inventory[1], r#"{"code":"","quantity":0,"slot":2}"#);
}

#[test]
fn inventory_missing_or_not_json() {
    assert_eq!(inventory_in_response(r#"{"data": {"inventory": 4}}"#), Some(None));
    assert_eq!(inventory_in_response("[1, 2"), None);
}

#[test]
fn retry_statuses() {
    assert!(Action::BankDeposit.should_retry(461));
    assert!(Action::BankDeposit.should_retry(499));
    assert!(!Action::BankDeposit.should_retry(200));
    assert!(Action::Move.should_retry(499));
    assert!(!Action::Move.should_retry(461));
}

#[test]
fn bank_operations_pass_over_failed_moves_only() {
    let failure = ErrorAction::ErrorRequest(ErrorRequest::ErrorSendingRequest);
    assert_eq!(after_bank_step(&BankStep::MoveToBank, Some(failure)), None);
    assert_eq!(after_bank_step(&BankStep::MoveToBank, None), None);
    let request = BankStep::Request(ActionRequest { action: Action::BankDepositGold, body: ActionBody::Quantity(3) });
    assert_eq!(after_bank_step(&request, None), None);
    assert_eq!(after_bank_step(&request, Some(failure)), Some(ErrorBank::ErrorAction(failure)));
    assert_eq!(
        after_bank_step(&request, Some(ErrorAction::ErrorParsingResponse)),
        Some(ErrorBank::ErrorAction(ErrorAction::ErrorParsingResponse))
    );
}

#[test]
fn a_listing_concatenates_its_pages() {
    let mut listing: PagedListing<u32> = PagedListing::new();
    assert_eq!(listing.page, 1);
    let pages = vec![vec![1, 2], vec![], vec![3]];
    let mut requested = Vec::new();
    for entries in pages {
        assert!(!listing.done);
        requested.push(listing.page);
        listing.receive(entries, 3);
    }
    assert!(listing.done);
    assert_eq!(requested, vec![1, 2, 3]);
    assert_eq!(listing.data, vec![1, 2, 3]);
}
