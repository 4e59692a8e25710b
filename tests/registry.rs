use evm_runtime::{ExitReason, ExitSucceed};
use evm_tracing_events::events::{EvmEvent, EvmEventRef};
use evm_tracing_events::gasometer::{GasometerEvent, Snapshot};
use evm_tracing_events::listener::{
    step_event_filter, using, Event, EventLog, Listener, ListenerRegistry, StepEventFilter,
};

fn log(enable_stack: bool, enable_memory: bool) -> EventLog {
    EventLog::new(StepEventFilter { enable_stack, enable_memory })
}

fn cost(c: u64) -> Event {
    Event::Gasometer(GasometerEvent::RecordCost {
        cost: c,
        snapshot: Snapshot { gas_limit: 100_000, memory_gas: 0, used_gas: c, refunded_gas: 0 },
    })
}

#[test]
fn event_log_keeps_events_and_filter() {
    let mut l = log(true, false);
    assert_eq!(l.step_event_filter(), StepEventFilter { enable_stack: true, enable_memory: false });
    l.event(cost(1));
    l.event(Event::CallListNew());
    assert_eq!(l.events, vec![cost(1), Event::CallListNew()]);
}

#[test]
fn emit_without_listener_changes_nothing() {
    let mut reg: ListenerRegistry<EventLog> = ListenerRegistry::new();
    assert!(!reg.is_listening());
    cost(1).emit(&mut reg);
    reg.emit(Event::CallListNew());
    assert!(!reg.is_listening());
    assert_eq!(step_event_filter(&reg), None);
    assert!(reg.uninstall().is_none());
}

#[test]
fn filter_is_the_answer_given_at_install() {
    let mut reg = ListenerRegistry::new();
    let f = reg.install(log(true, false));
    assert_eq!(f, StepEventFilter { enable_stack: true, enable_memory: false });
    assert_eq!(reg.current_step_filter(), Some(f));
    cost(5).emit(&mut reg);
    assert_eq!(step_event_filter(&reg), Some(f));
    let l = reg.uninstall().unwrap();
    assert_eq!(l.events, vec![cost(5)]);
    assert_eq!(reg.current_step_filter(), None);
}

#[test]
fn inner_listener_shadows_outer_one() {
    let mut reg = ListenerRegistry::new();
    reg.install(log(false, false));
    cost(1).emit(&mut reg);
    let ((), inner) = using(&mut reg, log(true, true), |r| {
        assert_eq!(r.current_step_filter(), Some(StepEventFilter { enable_stack: true, enable_memory: true }));
        cost(2).emit(r);
    });
    cost(3).emit(&mut reg);
    assert_eq!(inner.events, vec![cost(2)]);
    assert_eq!(reg.current_step_filter(), Some(StepEventFilter { enable_stack: false, enable_memory: false }));
    let outer = reg.uninstall().unwrap();
    assert_eq!(outer.events, vec![cost(1), cost(3)]);
}

#[test]
fn nested_scopes_restore_the_observer_at_every_depth() {
    let mut reg: ListenerRegistry<EventLog> = ListenerRegistry::new();
    let (depth, first) = using(&mut reg, log(false, false), |r1| {
        let (d, second) = using(r1, log(true, false), |r2| {
            let (d, third) = using(r2, log(false, true), |r3| {
                let (d, fourth) = using(r3, log(true, true), |r4| {
                    assert_eq!(
                        step_event_filter(r4),
                        Some(StepEventFilter { enable_stack: true, enable_memory: true })
                    );
                    cost(4).emit(r4);
                    4u32
                });
                assert_eq!(fourth.events, vec![cost(4)]);
                assert_eq!(r3.current_step_filter(), Some(StepEventFilter { enable_stack: false, enable_memory: true }));
                cost(3).emit(r3);
                d
            });
            assert_eq!(third.events, vec![cost(3)]);
            assert_eq!(r2.current_step_filter(), Some(StepEventFilter { enable_stack: true, enable_memory: false }));
            d
        });
        assert_eq!(second.events, Vec::<Event>::new());
        assert_eq!(r1.current_step_filter(), Some(StepEventFilter { enable_stack: false, enable_memory: false }));
        cost(1).emit(r1);
        d
    });
    assert_eq!(depth, 4);
    assert_eq!(first.events, vec![cost(1)]);
    assert!(!reg.is_listening());
    assert_eq!(step_event_filter(&reg), None);
}

#[test]
fn listener_receives_cost_refund_and_exit_in_order() {
    let start = Snapshot { gas_limit: 100_000, used_gas: 0, memory_gas: 0, refunded_gas: 0 };
    let after_cost = Snapshot { gas_limit: 100_000, used_gas: 21_000, memory_gas: 0, refunded_gas: 0 };
    let after_refund = Snapshot { gas_limit: 100_000, used_gas: 16_200, memory_gas: 0, refunded_gas: -4800 };
    let first = Event::Gasometer(GasometerEvent::RecordCost { cost: 21_000, snapshot: start });
    let second = Event::Gasometer(GasometerEvent::RecordRefund { refund: -4800, snapshot: after_cost });
    let reason = ExitReason::Succeed(ExitSucceed::Stopped);
    let third = Event::Evm(EvmEvent::from(EvmEventRef::Exit { reason: &reason, return_value: &[] }));

    let mut reg = ListenerRegistry::new();
    let ((), l) = using(&mut reg, log(false, false), |r| {
        first.clone().emit(r);
        second.clone().emit(r);
        third.clone().emit(r);
    });
    let got = l.events;
    assert_eq!(got, vec![first, second, third.clone()]);
    assert_eq!(
        third,
        Event::Evm(EvmEvent::Exit { reason: ExitReason::Succeed(ExitSucceed::Stopped), return_value: vec![] })
    );

    let mut last = u64::MAX;
    for e in &got {
        if let Event::Gasometer(g) = e {
            let avail = g.snapshot().gas();
            match g {
                GasometerEvent::RecordRefund { .. } => {}
                _ => assert!(avail <= last),
            }
            last = avail;
        }
    }
    assert_eq!(start.gas(), 100_000);
    assert_eq!(after_cost.gas(), 79_000);
    assert_eq!(after_refund.gas(), 83_800);
}
