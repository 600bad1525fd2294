//! Unit tests for the small building blocks: error texts, failure
//! strategies, the help-text cell, and the plain wrapper types.

use metrics_prometheus::failure::{
    Action, NoOp, Panic, PanicInDebugNoOpInRelease, RegistryError, Strategy,
};
use metrics_prometheus::metric::{Describable, DescriptionCell, Metric};
use metrics_prometheus::recorder::Stack;

#[test]
fn cardinality_message_is_exact() {
    let e = RegistryError::InconsistentCardinality { expect: 12, got: 345 };
    assert_eq!(
        e.message(),
        "Inconsistent label cardinality, expect 12 label values, but got 345"
    );
    let zero = RegistryError::InconsistentCardinality { expect: 0, got: 7 };
    assert_eq!(
        zero.message(),
        "Inconsistent label cardinality, expect 0 label values, but got 7"
    );
}

#[test]
fn missing_label_message_is_exact() {
    let e = RegistryError::MissingLabel { name: "rank".to_owned() };
    assert_eq!(e.message(), "Error: label name rank missing in label map");
}

#[test]
fn strategies_decide_their_action() {
    let e = RegistryError::InconsistentCardinality { expect: 1, got: 2 };
    assert_eq!(NoOp.decide(&e), Action::NoOp);
    assert_eq!(Panic.decide(&e), Action::Panic);
    assert_eq!(PanicInDebugNoOpInRelease::new(true).decide(&e), Action::Panic);
    assert_eq!(PanicInDebugNoOpInRelease::new(false).decide(&e), Action::NoOp);
    let default_strategy = PanicInDebugNoOpInRelease::default();
    assert_eq!(default_strategy.decide(&e), Action::NoOp);
}

#[test]
fn metric_wrap_round_trip() {
    let m = Metric::wrap(5u32);
    assert_eq!(m.into_inner(), 5u32);
}

#[test]
fn layer_stack_nests() {
    let stack = Stack::identity().push(7u8);
    assert_eq!(stack.0, 7u8);
    let deeper = stack.push("outer");
    assert_eq!(deeper.0, "outer");
    assert_eq!(deeper.1.0, 7u8);
}

#[test]
fn describable_wrap_has_no_description() {
    let d = Describable::wrap(3u32);
    assert_eq!(d.description, "");
    assert_eq!(d.metric, 3u32);
}

#[test]
fn describable_only_description_has_no_metric() {
    let d = Describable::<Option<u32>>::only_description("pending".to_owned());
    assert_eq!(d.description, "pending");
    assert!(d.metric.is_none());
    assert_eq!(d.cell.load(), "pending");
}

#[test]
fn description_cell_is_shared_between_clones() {
    let cell = DescriptionCell::new("first".to_owned());
    assert_eq!(cell.load(), "first");
    let other = cell.clone();
    cell.store("second".to_owned());
    assert_eq!(other.load(), "second");
}
