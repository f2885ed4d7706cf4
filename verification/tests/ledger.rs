use shared_display::ledger::{ClientAddr, ViewLedger};

#[test]
fn ledger_records_each_pair_once() {
    let mut ledger = ViewLedger::new();
    let a = ClientAddr::V4(1);
    let b = ClientAddr::V6(1);
    assert!(!ledger.contains("f", a));
    assert!(ledger.insert("f", a));
    assert!(!ledger.insert("f", a));
    assert!(ledger.insert("f", b));
    assert!(ledger.insert("g", a));
    assert!(ledger.contains("f", a));
    assert!(ledger.contains("f", b));
    assert!(ledger.contains("g", a));
    assert!(!ledger.contains("g", b));
}

#[test]
fn ledger_forgets_one_file_only() {
    let mut ledger = ViewLedger::new();
    let a = ClientAddr::V4(1);
    let b = ClientAddr::V4(2);
    ledger.insert("f", a);
    ledger.insert("g", a);
    ledger.insert("f", b);
    ledger.remove_file("f");
    assert!(!ledger.contains("f", a));
    assert!(!ledger.contains("f", b));
    assert!(ledger.contains("g", a));
    ledger.remove_file("absent");
    assert!(ledger.contains("g", a));
    assert!(ledger.insert("f", a));
}

#[test]
fn addresses_of_different_families_differ() {
    let mut ledger = ViewLedger::new();
    ledger.insert("f", ClientAddr::V4(1));
    assert!(!ledger.contains("f", ClientAddr::V6(1)));
}
