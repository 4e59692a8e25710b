//! Gas ledger snapshots and the metering events that carry them.

use vstd::prelude::*;
use evm_gasometer::tracing::Event as MeteringEvent;
use evm_gasometer::Snapshot as LedgerSnapshot;

verus! {

/// The state of the gas ledger at one instant.
#[derive(Debug, Default, Copy, Clone, PartialEq, Eq, Structural)]
pub struct Snapshot {
    pub gas_limit: u64,
    pub memory_gas: u64,
    pub used_gas: u64,
    pub refunded_gas: i64,
}

impl Snapshot {
    /// The ledger's own invariant: what was used and what memory costs fit
    /// within the limit.
    pub open spec fn well_formed(&self) -> bool {
        self.used_gas + self.memory_gas <= self.gas_limit
    }

    /// Gas still available: the limit less used gas and memory gas.
    pub open spec fn available_gas(&self) -> int {
        self.gas_limit - self.used_gas - self.memory_gas
    }

    /// Gas still available at this snapshot.
    pub fn gas(&self) -> (r: u64)
        requires
            self.well_formed(),
        ensures
            r == self.available_gas(),
    {
        self.gas_limit - self.used_gas - self.memory_gas
    }
}

/// The snapshot that a ledger snapshot becomes: its four fields, or the
/// all-zero snapshot where the gasometer had none to give.
pub open spec fn snapshot_of(i: Option<LedgerSnapshot>) -> Snapshot {
    match i {
        Some(s) => Snapshot {
            gas_limit: s.gas_limit,
            memory_gas: s.memory_gas,
            used_gas: s.used_gas,
            refunded_gas: s.refunded_gas,
        },
        None => Snapshot { gas_limit: 0, memory_gas: 0, used_gas: 0, refunded_gas: 0 },
    }
}

impl From<Option<LedgerSnapshot>> for Snapshot {
    fn from(i: Option<LedgerSnapshot>) -> (r: Snapshot)
        ensures
            r == snapshot_of(i),
    {
        match i {
            Some(i) => Snapshot {
                gas_limit: i.gas_limit,
                memory_gas: i.memory_gas,
                used_gas: i.used_gas,
                refunded_gas: i.refunded_gas,
            },
            None => Snapshot { gas_limit: 0, memory_gas: 0, used_gas: 0, refunded_gas: 0 },
        }
    }
}

impl vstd::std_specs::convert::FromSpecImpl<Option<LedgerSnapshot>> for Snapshot {
    open spec fn obeys_from_spec() -> bool {
        true
    }

    open spec fn from_spec(i: Option<LedgerSnapshot>) -> Snapshot {
        snapshot_of(i)
    }
}

/// A metering event: at this snapshot, this adjustment of the ledger occurred.
#[derive(Debug, Copy, Clone, PartialEq, Eq, Structural)]
pub enum GasometerEvent {
    RecordCost { cost: u64, snapshot: Snapshot },
    RecordRefund { refund: i64, snapshot: Snapshot },
    RecordStipend { stipend: u64, snapshot: Snapshot },
    RecordDynamicCost { gas_cost: u64, memory_gas: u64, gas_refund: i64, snapshot: Snapshot },
    RecordTransaction { cost: u64, snapshot: Snapshot },
}

impl GasometerEvent {
    /// The snapshot that the event carries.
    pub open spec fn snapshot_spec(&self) -> Snapshot {
        match *self {
            GasometerEvent::RecordCost { snapshot, .. } => snapshot,
            GasometerEvent::RecordRefund { snapshot, .. } => snapshot,
            GasometerEvent::RecordStipend { snapshot, .. } => snapshot,
            GasometerEvent::RecordDynamicCost { snapshot, .. } => snapshot,
            GasometerEvent::RecordTransaction { snapshot, .. } => snapshot,
        }
    }

    /// The snapshot that the event carries.
    pub fn snapshot(&self) -> (r: Snapshot)
        ensures
            r == self.snapshot_spec(),
    {
        match *self {
            GasometerEvent::RecordCost { snapshot, .. } => snapshot,
            GasometerEvent::RecordRefund { snapshot, .. } => snapshot,
            GasometerEvent::RecordStipend { snapshot, .. } => snapshot,
            GasometerEvent::RecordDynamicCost { snapshot, .. } => snapshot,
            GasometerEvent::RecordTransaction { snapshot, .. } => snapshot,
        }
    }
}

/// The event that a gasometer event becomes: the same variant with the same
/// amounts, and its snapshot taken over by `snapshot_of`.
pub open spec fn gasometer_event_of(i: MeteringEvent) -> GasometerEvent {
    match i {
        MeteringEvent::RecordCost { cost, snapshot } => GasometerEvent::RecordCost {
            cost,
            snapshot: snapshot_of(snapshot),
        },
        MeteringEvent::RecordRefund { refund, snapshot } => GasometerEvent::RecordRefund {
            refund,
            snapshot: snapshot_of(snapshot),
        },
        MeteringEvent::RecordStipend { stipend, snapshot } => GasometerEvent::RecordStipend {
            stipend,
            snapshot: snapshot_of(snapshot),
        },
        MeteringEvent::RecordDynamicCost { gas_cost, memory_gas, gas_refund, snapshot } =>
            GasometerEvent::RecordDynamicCost {
                gas_cost,
                memory_gas,
                gas_refund,
                snapshot: snapshot_of(snapshot),
            },
        MeteringEvent::RecordTransaction { cost, snapshot } => GasometerEvent::RecordTransaction {
            cost,
            snapshot: snapshot_of(snapshot),
        },
    }
}

impl From<MeteringEvent> for GasometerEvent {
    fn from(i: MeteringEvent) -> (r: GasometerEvent)
        ensures
            r == gasometer_event_of(i),
    {
        match i {
            MeteringEvent::RecordCost { cost, snapshot } => GasometerEvent::RecordCost {
                cost,
                snapshot: Snapshot::from(snapshot),
            },
            MeteringEvent::RecordRefund { refund, snapshot } => GasometerEvent::RecordRefund {
                refund,
                snapshot: Snapshot::from(snapshot),
            },
            MeteringEvent::RecordStipend { stipend, snapshot } => GasometerEvent::RecordStipend {
                stipend,
                snapshot: Snapshot::from(snapshot),
            },
            MeteringEvent::RecordDynamicCost { gas_cost, memory_gas, gas_refund, snapshot } =>
                GasometerEvent::RecordDynamicCost {
                    gas_cost,
                    memory_gas,
                    gas_refund,
                    snapshot: Snapshot::from(snapshot),
                },
            MeteringEvent::RecordTransaction { cost, snapshot } =>
                GasometerEvent::RecordTransaction { cost, snapshot: Snapshot::from(snapshot) },
        }
    }
}

impl vstd::std_specs::convert::FromSpecImpl<MeteringEvent> for GasometerEvent {
    open spec fn obeys_from_spec() -> bool {
        true
    }

    open spec fn from_spec(i: MeteringEvent) -> GasometerEvent {
        gasometer_event_of(i)
    }
}

} // verus!
