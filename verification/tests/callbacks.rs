//! Tests of the callback registries: registration, firing, and removal
//! when handles are dropped or forgotten.

use std::cell::Cell;
use std::rc::Rc;

use glsl_gen::callback::{CallbackMut1Fn, CallbackMutFn, CallbackRegistry, CallbackRegistry1};

struct Counter {
    hits: Rc<Cell<u32>>,
}

impl CallbackMutFn for Counter {
    fn run(&mut self) {
        self.hits.set(self.hits.get() + 1);
    }
}

struct Accumulator {
    total: Rc<Cell<i64>>,
}

impl CallbackMut1Fn<i64> for Accumulator {
    fn run(&mut self, t: i64) {
        self.total.set(self.total.get() + t);
    }
}

#[test]
fn registered_callbacks_fire_each_run() {
    let hits = Rc::new(Cell::new(0));
    let mut registry: CallbackRegistry<Counter> = CallbackRegistry::new();
    let _one = registry.add(Counter { hits: hits.clone() });
    let _two = registry.add(Counter { hits: hits.clone() });
    registry.run_all();
    assert_eq!(hits.get(), 2);
    registry.run_all();
    assert_eq!(hits.get(), 4);
}

#[test]
fn dropping_the_handle_removes_the_callback() {
    let hits = Rc::new(Cell::new(0));
    let mut registry: CallbackRegistry<Counter> = CallbackRegistry::new();
    let keep = registry.add(Counter { hits: hits.clone() });
    let gone = registry.add(Counter { hits: hits.clone() });
    drop(gone);
    registry.run_all();
    assert_eq!(hits.get(), 1);
    assert_eq!(registry.len(), 1);
    drop(keep);
    registry.run_all();
    assert_eq!(hits.get(), 1);
    assert_eq!(registry.len(), 0);
}

#[test]
fn forgetting_the_handle_keeps_the_callback_forever() {
    let hits = Rc::new(Cell::new(0));
    let mut registry: CallbackRegistry<Counter> = CallbackRegistry::new();
    let handle = registry.add(Counter { hits: hits.clone() });
    handle.forget();
    registry.run_all();
    registry.run_all();
    assert_eq!(hits.get(), 2);
    assert_eq!(registry.len(), 1);
}

#[test]
fn guard_tracks_handle_liveness() {
    let handle = glsl_gen::callback::CallbackHandle::new();
    let guard = handle.guard();
    assert!(guard.alive());
    drop(handle);
    assert!(!guard.alive());
}

#[test]
fn default_handle_is_live() {
    let handle = glsl_gen::callback::CallbackHandle::default();
    let guard = handle.guard();
    assert!(guard.alive());
}

#[test]
fn registry_with_argument_passes_it_to_each_callback() {
    let total = Rc::new(Cell::new(0));
    let other = Rc::new(Cell::new(0));
    let mut registry: CallbackRegistry1<i64, Accumulator> = CallbackRegistry1::new();
    let _one = registry.add(Accumulator { total: total.clone() });
    let two = registry.add(Accumulator { total: other.clone() });
    registry.run_all(5);
    assert_eq!(total.get(), 5);
    assert_eq!(other.get(), 5);
    drop(two);
    registry.run_all(7);
    assert_eq!(total.get(), 12);
    assert_eq!(other.get(), 5);
}

#[test]
fn default_registries_start_empty() {
    let registry: CallbackRegistry<Counter> = CallbackRegistry::default();
    assert_eq!(registry.len(), 0);
    let mut registry1: CallbackRegistry1<i64, Accumulator> = CallbackRegistry1::default();
    registry1.run_all(3);
}
