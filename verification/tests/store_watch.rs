//! The observable store and the watch scheduler.

use reactive_inputs::observable::{CellId, Store};
use reactive_inputs::watch::Scheduler;

#[test]
fn set_then_get_returns_the_value() {
    let mut store: Store<String> = Store::new();
    let cell = store.create(String::from("start"));
    assert_eq!(store.get(cell), "start");
    store.set(cell, String::from("changed"));
    assert_eq!(store.get(cell), "changed");
    // A write of an equal value is a real write too.
    store.set(cell, String::from("changed"));
    assert_eq!(store.get(cell), "changed");
}

#[test]
fn set_then_get_on_integers() {
    let mut store: Store<u64> = Store::new();
    let a = store.create(1);
    let b = store.create(2);
    store.set(a, 99);
    assert_eq!(*store.get(a), 99);
    assert_eq!(*store.get(b), 2);
}

#[test]
fn watch_returns_immediate_firing_flag() {
    let mut sched = Scheduler::new();
    let (_, fire_now) = sched.watch(vec![CellId { index: 0 }], true);
    assert!(fire_now);
    let (_, fire_later) = sched.watch(vec![CellId { index: 0 }], false);
    assert!(!fire_later);
}

#[test]
fn fire_plan_is_in_registration_order_once_each() {
    let mut sched = Scheduler::new();
    let cell = CellId { index: 7 };
    let other = CellId { index: 8 };
    let (s0, _) = sched.watch(vec![cell], false);
    let (_s1, _) = sched.watch(vec![other], false);
    let (s2, _) = sched.watch(vec![other, cell], false);
    let plan = sched.fire_plan(cell);
    let indices: Vec<usize> = plan.iter().map(|s| s.index).collect();
    assert_eq!(indices, vec![s0.index, s2.index]);
}

#[test]
fn cancelled_subscription_is_never_planned() {
    let mut sched = Scheduler::new();
    let cell = CellId { index: 0 };
    let (s0, _) = sched.watch(vec![cell], false);
    let (s1, _) = sched.watch(vec![cell], false);
    sched.cancel(s0);
    let plan = sched.fire_plan(cell);
    let indices: Vec<usize> = plan.iter().map(|s| s.index).collect();
    assert_eq!(indices, vec![s1.index]);
}

#[test]
fn retrack_replaces_the_dependency_set() {
    let mut sched = Scheduler::new();
    let before = CellId { index: 0 };
    let after = CellId { index: 1 };
    let (sub, _) = sched.watch(vec![before], false);
    sched.retrack(sub, vec![after]);
    assert!(sched.fire_plan(before).is_empty());
    let plan = sched.fire_plan(after);
    assert_eq!(plan.len(), 1);
    assert_eq!(plan[0].index, sub.index);
}

#[test]
fn update_applies_the_function_to_the_current_value() {
    let mut store: Store<u64> = Store::new();
    let cell = store.create(10);
    store.update(cell, |v| v + 5);
    assert_eq!(*store.get(cell), 15);
    store.update(cell, |v| *v);
    assert_eq!(*store.get(cell), 15);
}
