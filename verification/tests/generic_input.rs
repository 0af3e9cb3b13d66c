use std::cell::Cell;
use std::rc::Rc;

use state_bridge::bridge::Bridge;
use state_bridge::deferred::Deferred;
use state_bridge::error::diagnostics;
use state_bridge::generic_input::attach_generic_input;
use state_bridge::generic_input::get_generic_input_value;
use state_bridge::generic_input::subscribe_generic_input;
use state_bridge::generic_input::update_generic_input;
use state_bridge::observer::Callback;

type Listener = Callback<f64, Box<dyn Fn(&f64) -> Result<(), String>>>;
type Inputs = Bridge<f64, &'static str, fn(&f64) -> String, Listener>;

fn show_count(value: &f64) -> String {
    format!("Count: {}", value)
}

fn inputs() -> Inputs {
    Bridge::new(show_count as fn(&f64) -> String)
}

fn input_counting(count: &Rc<Cell<u32>>) -> Listener {
    let count = Rc::clone(count);
    Callback::new(Box::new(move |_current: &f64| {
        count.set(count.get() + 1);
        Ok(())
    }))
}

fn input_recording(seen: &Rc<Cell<f64>>) -> Listener {
    let seen = Rc::clone(seen);
    Callback::new(Box::new(move |current: &f64| {
        seen.set(*current);
        Ok(())
    }))
}

fn input_failing(count: &Rc<Cell<u32>>, message: &'static str) -> Listener {
    let count = Rc::clone(count);
    Callback::new(Box::new(move |_current: &f64| {
        count.set(count.get() + 1);
        Err(message.to_string())
    }))
}

#[test]
fn attach_subscribe_update_scenario() {
    let mut bridge = inputs();
    let count = Rc::new(Cell::new(0));
    let h = attach_generic_input(&mut bridge, "#counter", Some(5.0));
    assert_eq!(get_generic_input_value(&bridge, &h), 5.0);
    subscribe_generic_input(&mut bridge, &h, input_counting(&count));
    update_generic_input(&mut bridge, &h, 7.0);
    assert_eq!(count.get(), 1);
    assert_eq!(get_generic_input_value(&bridge, &h), 7.0);
    update_generic_input(&mut bridge, &h, 7.0);
    assert_eq!(count.get(), 2);
    assert_eq!(get_generic_input_value(&bridge, &h), 7.0);
}

#[test]
fn attach_without_a_value_starts_at_zero() {
    let mut bridge = inputs();
    let h = attach_generic_input(&mut bridge, "#counter", None);
    assert_eq!(get_generic_input_value(&bridge, &h), 0.0);
    assert_eq!(bridge.rendering(h.handle), "Count: 0");
}

#[test]
fn attach_renders_the_initial_value_at_the_mount_point() {
    let mut bridge = inputs();
    let h = attach_generic_input(&mut bridge, "#counter", Some(2.5));
    assert!(bridge.is_attached(h.handle));
    assert_eq!(*bridge.mount_point(h.handle), "#counter");
    assert_eq!(bridge.rendering(h.handle), "Count: 2.5");
}

#[test]
fn update_after_attach_is_read_back() {
    for (v1, v2) in [(1.0, 2.0), (2.0, 1.0), (3.5, 3.5), (0.0, -0.0), (-8.25, 1e300)] {
        let mut bridge = inputs();
        let count = Rc::new(Cell::new(0));
        let h = attach_generic_input(&mut bridge, "#counter", Some(v1));
        subscribe_generic_input(&mut bridge, &h, input_counting(&count));
        let outcomes = update_generic_input(&mut bridge, &h, v2);
        assert_eq!(get_generic_input_value(&bridge, &h), v2);
        assert_eq!(outcomes, vec![Some(Ok(()))]);
        assert_eq!(count.get(), 1);
    }
}

#[test]
fn update_renders_again() {
    let mut bridge = inputs();
    let h = attach_generic_input(&mut bridge, "#counter", Some(5.0));
    assert_eq!(bridge.rendering(h.handle), "Count: 5");
    update_generic_input(&mut bridge, &h, 6.0);
    assert_eq!(bridge.rendering(h.handle), "Count: 6");
}

#[test]
fn subscribe_does_not_fire() {
    let mut bridge = inputs();
    let count = Rc::new(Cell::new(0));
    let h = attach_generic_input(&mut bridge, "#counter", Some(5.0));
    subscribe_generic_input(&mut bridge, &h, input_counting(&count));
    assert_eq!(get_generic_input_value(&bridge, &h), 5.0);
    assert_eq!(count.get(), 0);
}

#[test]
fn a_callback_subscribed_after_an_update_misses_it() {
    let mut bridge = inputs();
    let early = Rc::new(Cell::new(0));
    let late = Rc::new(Cell::new(0));
    let h = attach_generic_input(&mut bridge, "#counter", Some(5.0));
    subscribe_generic_input(&mut bridge, &h, input_counting(&early));
    update_generic_input(&mut bridge, &h, 6.0);
    subscribe_generic_input(&mut bridge, &h, input_counting(&late));
    assert_eq!((early.get(), late.get()), (1, 0));
    update_generic_input(&mut bridge, &h, 7.0);
    assert_eq!((early.get(), late.get()), (2, 1));
}

#[test]
fn two_attaches_are_independent() {
    let mut bridge = inputs();
    let left_count = Rc::new(Cell::new(0));
    let right_count = Rc::new(Cell::new(0));
    let left = attach_generic_input(&mut bridge, "#left", Some(1.0));
    let right = attach_generic_input(&mut bridge, "#right", Some(2.0));
    assert_ne!(left.handle, right.handle);
    subscribe_generic_input(&mut bridge, &left, input_counting(&left_count));
    subscribe_generic_input(&mut bridge, &right, input_counting(&right_count));
    update_generic_input(&mut bridge, &left, 10.0);
    assert_eq!(get_generic_input_value(&bridge, &left), 10.0);
    assert_eq!(get_generic_input_value(&bridge, &right), 2.0);
    assert_eq!(bridge.rendering(right.handle), "Count: 2");
    assert_eq!((left_count.get(), right_count.get()), (1, 0));
    update_generic_input(&mut bridge, &right, 20.0);
    assert_eq!(get_generic_input_value(&bridge, &left), 10.0);
    assert_eq!(get_generic_input_value(&bridge, &right), 20.0);
    assert_eq!((left_count.get(), right_count.get()), (1, 1));
}

#[test]
fn a_copy_of_the_state_is_an_alias() {
    let mut bridge = inputs();
    let h = attach_generic_input(&mut bridge, "#counter", Some(1.0));
    let alias = h;
    update_generic_input(&mut bridge, &alias, 4.0);
    assert_eq!(get_generic_input_value(&bridge, &h), 4.0);
    assert_eq!(h.handle, alias.handle);
}

#[test]
fn a_failing_callback_does_not_stop_a_later_one() {
    let mut bridge = inputs();
    let broken = Rc::new(Cell::new(0));
    let later = Rc::new(Cell::new(0));
    let h = attach_generic_input(&mut bridge, "#counter", Some(5.0));
    subscribe_generic_input(&mut bridge, &h, input_failing(&broken, "callback threw"));
    subscribe_generic_input(&mut bridge, &h, input_counting(&later));
    let outcomes = update_generic_input(&mut bridge, &h, 6.0);
    assert_eq!((broken.get(), later.get()), (1, 1));
    assert_eq!(outcomes, vec![Some(Err("callback threw".to_string())), Some(Ok(()))]);
    assert_eq!(diagnostics(&outcomes), vec!["Error calling callback: callback threw".to_string()]);
    assert_eq!(get_generic_input_value(&bridge, &h), 6.0);
}

#[test]
fn unsubscribe_stops_the_notifications() {
    let mut bridge = inputs();
    let count = Rc::new(Cell::new(0));
    let h = attach_generic_input(&mut bridge, "#counter", Some(5.0));
    let subscription = subscribe_generic_input(&mut bridge, &h, input_counting(&count));
    update_generic_input(&mut bridge, &h, 6.0);
    assert!(bridge.unsubscribe(h.handle, subscription));
    let outcomes = update_generic_input(&mut bridge, &h, 7.0);
    assert_eq!(outcomes, vec![None]);
    assert_eq!(count.get(), 1);
    assert_eq!(get_generic_input_value(&bridge, &h), 7.0);
    assert!(!bridge.unsubscribe(h.handle, subscription));
}

#[test]
fn detach_ends_the_handle_and_releases_the_observers() {
    let mut bridge = inputs();
    let count = Rc::new(Cell::new(0));
    let gone = attach_generic_input(&mut bridge, "#gone", Some(1.0));
    let kept = attach_generic_input(&mut bridge, "#kept", Some(2.0));
    subscribe_generic_input(&mut bridge, &gone, input_counting(&count));
    assert_eq!(Rc::strong_count(&count), 2);
    bridge.detach(gone.handle);
    assert!(!bridge.is_attached(gone.handle));
    assert!(bridge.is_attached(kept.handle));
    assert_eq!(Rc::strong_count(&count), 1);
    assert_eq!(get_generic_input_value(&bridge, &kept), 2.0);
    let next = attach_generic_input(&mut bridge, "#gone", Some(3.0));
    assert_ne!(next.handle, gone.handle);
    assert!(!bridge.is_attached(gone.handle));
    assert_eq!(get_generic_input_value(&bridge, &next), 3.0);
}

#[test]
fn a_handle_of_a_larger_bridge_is_not_attached_to_a_smaller_one() {
    let mut large = inputs();
    attach_generic_input(&mut large, "#a", None);
    let second = attach_generic_input(&mut large, "#b", None);
    let small = inputs();
    assert!(!small.is_attached(second.handle));
}

#[test]
fn a_callback_reads_the_new_value_during_its_notification() {
    let mut bridge = inputs();
    let seen = Rc::new(Cell::new(f64::NAN));
    let h = attach_generic_input(&mut bridge, "#counter", Some(5.0));
    subscribe_generic_input(&mut bridge, &h, input_recording(&seen));
    assert!(seen.get().is_nan());
    update_generic_input(&mut bridge, &h, 7.0);
    assert_eq!(seen.get(), 7.0);
}

#[test]
fn attach_notifies_nobody() {
    let mut bridge = inputs();
    let count = Rc::new(Cell::new(0));
    let first = attach_generic_input(&mut bridge, "#first", Some(1.0));
    subscribe_generic_input(&mut bridge, &first, input_counting(&count));
    let second = attach_generic_input(&mut bridge, "#second", Some(2.0));
    assert_eq!(count.get(), 0);
    let outcomes = update_generic_input(&mut bridge, &second, 3.0);
    assert_eq!(outcomes, vec![]);
    assert_eq!(count.get(), 0);
}

#[test]
fn a_callback_is_notified_once_for_each_later_update() {
    let mut bridge = inputs();
    let count = Rc::new(Cell::new(0));
    let h = attach_generic_input(&mut bridge, "#counter", Some(0.0));
    update_generic_input(&mut bridge, &h, 1.0);
    subscribe_generic_input(&mut bridge, &h, input_counting(&count));
    for (k, value) in [1.0, 1.0, 2.0, 2.0, 3.0].into_iter().enumerate() {
        assert_eq!(count.get(), k as u32);
        update_generic_input(&mut bridge, &h, value);
    }
    assert_eq!(count.get(), 5);
}

#[test]
fn deferred_updates_are_served_in_their_order() {
    let mut bridge = inputs();
    let count = Rc::new(Cell::new(0));
    let h = attach_generic_input(&mut bridge, "#counter", Some(0.0));
    let gone = attach_generic_input(&mut bridge, "#gone", Some(0.0));
    subscribe_generic_input(&mut bridge, &h, input_counting(&count));
    let mut deferred: Deferred<f64> = Deferred::new();
    assert_eq!(deferred.take_next(), None);
    deferred.defer(h.handle, 1.0);
    deferred.defer(gone.handle, 2.0);
    deferred.defer(h.handle, 3.0);
    bridge.detach(gone.handle);
    let first = deferred.take_next().unwrap();
    assert_eq!(first, (h.handle, 1.0));
    assert_eq!(bridge.serve(first.0, first.1), Some(vec![Some(Ok(()))]));
    assert_eq!(get_generic_input_value(&bridge, &h), 1.0);
    let second = deferred.take_next().unwrap();
    assert_eq!(second, (gone.handle, 2.0));
    assert_eq!(bridge.serve(second.0, second.1), None);
    let third = deferred.take_next().unwrap();
    assert_eq!(third, (h.handle, 3.0));
    assert_eq!(bridge.serve(third.0, third.1), Some(vec![Some(Ok(()))]));
    assert_eq!(deferred.take_next(), None);
    assert_eq!(get_generic_input_value(&bridge, &h), 3.0);
    assert_eq!(count.get(), 2);
}
