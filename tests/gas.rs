use evm_gasometer::tracing::Event as MeteringEvent;
use evm_tracing_events::gasometer::{GasometerEvent, Snapshot};

fn snap(gas_limit: u64, used_gas: u64, memory_gas: u64, refunded_gas: i64) -> Snapshot {
    Snapshot { gas_limit, memory_gas, used_gas, refunded_gas }
}

#[test]
fn available_gas_is_limit_less_used_and_memory() {
    assert_eq!(snap(100_000, 30_000, 5_000, 0).gas(), 65_000);
    assert_eq!(snap(100_000, 0, 0, 0).gas(), 100_000);
    assert_eq!(snap(21_000, 0, 21_000, 0).gas(), 0);
}

#[test]
fn available_gas_is_zero_when_fully_spent() {
    assert_eq!(snap(100_000, 60_000, 40_000, -7).gas(), 0);
    assert_eq!(snap(u64::MAX, u64::MAX, 0, 0).gas(), 0);
}

#[test]
fn ledger_snapshot_is_copied_field_by_field() {
    let ledger = evm_gasometer::Snapshot { gas_limit: 9, memory_gas: 2, used_gas: 3, refunded_gas: -4 };
    let s = Snapshot::from(Some(ledger));
    assert_eq!(s, snap(9, 3, 2, -4));
}

#[test]
fn missing_ledger_snapshot_becomes_all_zero() {
    let s = Snapshot::from(None);
    assert_eq!(s, snap(0, 0, 0, 0));
    assert_eq!(s, Snapshot::default());
}

#[test]
fn gasometer_events_keep_variant_and_amounts() {
    let ledger = evm_gasometer::Snapshot { gas_limit: 100, memory_gas: 1, used_gas: 10, refunded_gas: 0 };
    let s = snap(100, 10, 1, 0);
    let cases = vec![
        (
            MeteringEvent::RecordCost { cost: 5, snapshot: Some(ledger) },
            GasometerEvent::RecordCost { cost: 5, snapshot: s },
        ),
        (
            MeteringEvent::RecordRefund { refund: -4800, snapshot: Some(ledger) },
            GasometerEvent::RecordRefund { refund: -4800, snapshot: s },
        ),
        (
            MeteringEvent::RecordStipend { stipend: 2300, snapshot: None },
            GasometerEvent::RecordStipend { stipend: 2300, snapshot: Snapshot::default() },
        ),
        (
            MeteringEvent::RecordDynamicCost { gas_cost: 7, memory_gas: 3, gas_refund: -2, snapshot: Some(ledger) },
            GasometerEvent::RecordDynamicCost { gas_cost: 7, memory_gas: 3, gas_refund: -2, snapshot: s },
        ),
        (
            MeteringEvent::RecordTransaction { cost: 21000, snapshot: Some(ledger) },
            GasometerEvent::RecordTransaction { cost: 21000, snapshot: s },
        ),
    ];
    for (input, expected) in cases {
        let got = GasometerEvent::from(input);
        assert_eq!(got, expected);
    }
}

#[test]
fn gasometer_event_snapshot_accessor() {
    let s = snap(50, 20, 5, 3);
    assert_eq!(GasometerEvent::RecordStipend { stipend: 1, snapshot: s }.snapshot(), s);
    assert_eq!(GasometerEvent::RecordDynamicCost { gas_cost: 1, memory_gas: 2, gas_refund: 3, snapshot: s }.snapshot(), s);
}
