use hypermarket::ledger::Ledger;
use hypermarket::types::Address;

fn account(tag: u8) -> Address {
    Address::from_bytes([tag; 20])
}

#[test]
fn new_ledger_is_empty() {
    let ledger = Ledger::new();
    assert_eq!(ledger.total(), 0);
    assert_eq!(ledger.balance_of(&account(1)), 0);
    assert!(!ledger.has_entry(&account(1)));
}

#[test]
fn credit_adds_to_balance_and_total() {
    let ledger = Ledger::new();
    let ledger = ledger.credit(account(1), 40);
    let ledger = ledger.credit(account(2), 2);
    let ledger = ledger.credit(account(1), 60);
    assert_eq!(ledger.balance_of(&account(1)), 100);
    assert_eq!(ledger.balance_of(&account(2)), 2);
    assert_eq!(ledger.balance_of(&account(3)), 0);
    assert_eq!(ledger.total(), 102);
}

#[test]
fn debit_takes_from_balance_and_total() {
    let ledger = Ledger::new().credit(account(1), 100).credit(account(2), 5);
    let ledger = ledger.debit(account(1), 30);
    assert_eq!(ledger.balance_of(&account(1)), 70);
    assert_eq!(ledger.balance_of(&account(2)), 5);
    assert_eq!(ledger.total(), 75);
    let ledger = ledger.debit(account(1), 70);
    assert_eq!(ledger.balance_of(&account(1)), 0);
    assert!(ledger.has_entry(&account(1)));
    assert_eq!(ledger.total(), 5);
}

#[test]
fn debit_of_nothing_from_a_stranger_changes_nothing() {
    let ledger = Ledger::new().credit(account(1), 100);
    let ledger = ledger.debit(account(9), 0);
    assert!(!ledger.has_entry(&account(9)));
    assert_eq!(ledger.total(), 100);
}

#[test]
fn clear_removes_the_entry_and_returns_what_it_held() {
    let ledger = Ledger::new().credit(account(1), 100).credit(account(2), 5).credit(account(3), 1);
    let (ledger, held) = ledger.clear(account(2));
    assert_eq!(held, 5);
    assert!(!ledger.has_entry(&account(2)));
    assert_eq!(ledger.balance_of(&account(1)), 100);
    assert_eq!(ledger.balance_of(&account(3)), 1);
    assert_eq!(ledger.total(), 101);
    let (ledger, held) = ledger.clear(account(2));
    assert_eq!(held, 0);
    assert_eq!(ledger.total(), 101);
}

#[test]
fn total_is_the_sum_of_the_balances() {
    let mut ledger = Ledger::new();
    let mut tag: u8 = 1;
    while tag <= 20 {
        ledger = ledger.credit(account(tag), tag as u64 * 10);
        tag += 1;
    }
    ledger = ledger.debit(account(5), 50);
    let (cleared, _) = ledger.clear(account(7));
    ledger = cleared;
    let mut sum: u64 = 0;
    let mut tag: u8 = 1;
    while tag <= 20 {
        sum += ledger.balance_of(&account(tag));
        tag += 1;
    }
    assert_eq!(sum, ledger.total());
    assert_eq!(sum, 2100 - 50 - 70);
}
