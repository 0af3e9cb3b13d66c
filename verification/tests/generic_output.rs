use std::cell::Cell;
use std::rc::Rc;

use state_bridge::bridge::Bridge;
use state_bridge::generic_output::attach_generic_output;
use state_bridge::generic_output::update_generic_output;
use state_bridge::observer::Callback;

type Watcher = Callback<String, Box<dyn Fn(&String) -> Result<(), String>>>;
type Outputs = Bridge<String, u32, fn(&String) -> String, Watcher>;

fn paragraph(data: &String) -> String {
    format!("<p>{}</p>", data)
}

fn outputs() -> Outputs {
    Bridge::new(paragraph as fn(&String) -> String)
}

fn output_counting(count: &Rc<Cell<u32>>) -> Watcher {
    let count = Rc::clone(count);
    Callback::new(Box::new(move |_current: &String| {
        count.set(count.get() + 1);
        Ok(())
    }))
}

#[test]
fn attach_output_mounts_decoded_data() {
    let mut bridge = outputs();
    let state = attach_generic_output(&mut bridge, 1, Some(Ok("hello".to_string()))).unwrap();
    assert!(bridge.is_attached(state.handle));
    assert_eq!(bridge.read(state.handle), "hello");
    assert_eq!(bridge.rendering(state.handle), "<p>hello</p>");
    assert_eq!(*bridge.mount_point(state.handle), 1);
}

#[test]
fn attach_output_rejects_malformed_data() {
    let mut bridge = outputs();
    let kept = attach_generic_output(&mut bridge, 1, Some(Ok("kept".to_string()))).unwrap();
    let refused = attach_generic_output(
        &mut bridge,
        2,
        Some(Err("invalid type: floating point `3.0`, expected a string".to_string())),
    );
    let error = refused.unwrap_err();
    assert_eq!(
        error.message(),
        "Failed to deserialize initial data: invalid type: floating point `3.0`, expected a string"
    );
    assert_eq!(bridge.read(kept.handle), "kept");
    let next = attach_generic_output(&mut bridge, 2, Some(Ok("next".to_string()))).unwrap();
    assert_ne!(next.handle, kept.handle);
    assert_eq!(bridge.read(next.handle), "next");
    assert_eq!(bridge.read(kept.handle), "kept");
}

#[test]
fn update_output_installs_decoded_data() {
    let mut bridge = outputs();
    let count = Rc::new(Cell::new(0));
    let state = attach_generic_output(&mut bridge, 1, Some(Ok("old".to_string()))).unwrap();
    bridge.subscribe(state.handle, output_counting(&count));
    let outcomes = update_generic_output(&mut bridge, &state, Ok("new".to_string())).unwrap();
    assert_eq!(outcomes, vec![Some(Ok(()))]);
    assert_eq!(count.get(), 1);
    assert_eq!(bridge.read(state.handle), "new");
    assert_eq!(bridge.rendering(state.handle), "<p>new</p>");
}

#[test]
fn update_output_with_malformed_data_changes_nothing() {
    let mut bridge = outputs();
    let count = Rc::new(Cell::new(0));
    let state = attach_generic_output(&mut bridge, 1, Some(Ok("old".to_string()))).unwrap();
    bridge.subscribe(state.handle, output_counting(&count));
    let refused = update_generic_output(
        &mut bridge,
        &state,
        Err("invalid type: boolean `true`, expected a string".to_string()),
    );
    let error = refused.unwrap_err();
    assert_eq!(
        error.message(),
        "Failed to deserialize updated data: invalid type: boolean `true`, expected a string"
    );
    assert_eq!(bridge.read(state.handle), "old");
    assert_eq!(bridge.rendering(state.handle), "<p>old</p>");
    assert_eq!(count.get(), 0);
}

#[test]
fn update_output_can_be_retried_after_a_failure() {
    let mut bridge = outputs();
    let state = attach_generic_output(&mut bridge, 1, Some(Ok("old".to_string()))).unwrap();
    assert!(update_generic_output(&mut bridge, &state, Err("unexpected null".to_string())).is_err());
    assert!(update_generic_output(&mut bridge, &state, Ok("fixed".to_string())).is_ok());
    assert_eq!(bridge.read(state.handle), "fixed");
}

#[test]
fn update_output_with_the_same_data_notifies_again() {
    let mut bridge = outputs();
    let count = Rc::new(Cell::new(0));
    let state = attach_generic_output(&mut bridge, 1, Some(Ok("same".to_string()))).unwrap();
    bridge.subscribe(state.handle, output_counting(&count));
    update_generic_output(&mut bridge, &state, Ok("same".to_string())).unwrap();
    update_generic_output(&mut bridge, &state, Ok("same".to_string())).unwrap();
    assert_eq!(count.get(), 2);
    assert_eq!(bridge.read(state.handle), "same");
}

#[test]
fn update_output_leaves_other_components_alone() {
    let mut bridge = outputs();
    let one = attach_generic_output(&mut bridge, 1, Some(Ok("one".to_string()))).unwrap();
    let two = attach_generic_output(&mut bridge, 2, Some(Ok("two".to_string()))).unwrap();
    update_generic_output(&mut bridge, &one, Ok("changed".to_string())).unwrap();
    assert_eq!(bridge.read(one.handle), "changed");
    assert_eq!(bridge.read(two.handle), "two");
    assert_eq!(bridge.rendering(two.handle), "<p>two</p>");
}

#[test]
fn attach_output_without_a_value_starts_with_the_default() {
    let mut bridge = outputs();
    let state = attach_generic_output(&mut bridge, 1, None).unwrap();
    assert!(bridge.is_attached(state.handle));
    assert_eq!(bridge.read(state.handle), "");
    assert_eq!(bridge.rendering(state.handle), "<p></p>");
}

#[test]
fn a_refused_attach_notifies_nobody() {
    let mut bridge = outputs();
    let count = Rc::new(Cell::new(0));
    let state = attach_generic_output(&mut bridge, 1, Some(Ok("kept".to_string()))).unwrap();
    bridge.subscribe(state.handle, output_counting(&count));
    assert!(attach_generic_output(&mut bridge, 2, Some(Err("unexpected null".to_string()))).is_err());
    assert_eq!(count.get(), 0);
}
