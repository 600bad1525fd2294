//! End-to-end tests driving the registration engine against a real client
//! registry, the way an embedding application would: the read path first,
//! then the prepare/register/commit protocol under one logical lock.

use metrics_prometheus::failure::RegistryError;
use metrics_prometheus::metric::{
    CounterFamily, DescriptionCell, Either, Key, Label, external_counter_entry,
};
use metrics_prometheus::metric::{Describable, PrometheusIntCounter};
use metrics_prometheus::recorder::{Outcome, Recorder};
use metrics_prometheus::storage::mutable::Prepared;
use metrics_prometheus::storage::{Collection, Get, Mutable};

/// Registers a prepared entry's collector: the raw metric plus the shared
/// help cell, whose text replaces the collected help when set.
struct EntryCollector<C: prometheus::core::Collector> {
    cell: DescriptionCell,
    metric: C,
}

impl<C: prometheus::core::Collector> prometheus::core::Collector for EntryCollector<C> {
    fn desc(&self) -> Vec<&prometheus::core::Desc> {
        self.metric.desc()
    }

    fn collect(&self) -> Vec<prometheus::proto::MetricFamily> {
        let mut out = self.metric.collect();
        let help = self.cell.load();
        if !help.is_empty() {
            for mf in &mut out {
                mf.set_help(help.clone());
            }
        }
        out
    }
}

fn key(name: &str, labels: &[(&str, &str)]) -> Key {
    Key {
        name: name.to_owned(),
        labels: labels
            .iter()
            .map(|(n, v)| Label { name: (*n).to_owned(), value: (*v).to_owned() })
            .collect(),
    }
}

fn register_counter_key(
    storage: &mut Mutable,
    k: &Key,
) -> Result<metrics_prometheus::metric::IntCounter, RegistryError> {
    if let Some(res) = storage.lookup_counter(k) {
        return res;
    }
    match storage.prepare_counter(k) {
        Prepared::Resolved(res) => res,
        Prepared::MustRegister(d) => {
            let collector: Box<dyn prometheus::core::Collector> = match &d.metric.metric {
                Either::Single(c) => {
                    Box::new(EntryCollector { cell: d.cell.clone(), metric: c.metric.clone() })
                }
                Either::Vec(f) => {
                    Box::new(EntryCollector { cell: d.cell.clone(), metric: f.vec.clone() })
                }
            };
            let outcome = storage.registry().register(collector);
            storage.commit_counter(k, d, outcome)
        }
    }
}

fn register_gauge_key(
    storage: &mut Mutable,
    k: &Key,
) -> Result<metrics_prometheus::metric::Gauge, RegistryError> {
    if let Some(res) = storage.lookup_gauge(k) {
        return res;
    }
    match storage.prepare_gauge(k) {
        Prepared::Resolved(res) => res,
        Prepared::MustRegister(d) => {
            let collector: Box<dyn prometheus::core::Collector> = match &d.metric.metric {
                Either::Single(c) => {
                    Box::new(EntryCollector { cell: d.cell.clone(), metric: c.metric.clone() })
                }
                Either::Vec(f) => {
                    Box::new(EntryCollector { cell: d.cell.clone(), metric: f.vec.clone() })
                }
            };
            let outcome = storage.registry().register(collector);
            storage.commit_gauge(k, d, outcome)
        }
    }
}

fn register_histogram_key(
    storage: &mut Mutable,
    k: &Key,
) -> Result<metrics_prometheus::metric::Histogram, RegistryError> {
    if let Some(res) = storage.lookup_histogram(k) {
        return res;
    }
    match storage.prepare_histogram(k) {
        Prepared::Resolved(res) => res,
        Prepared::MustRegister(d) => {
            let collector: Box<dyn prometheus::core::Collector> = match &d.metric.metric {
                Either::Single(c) => {
                    Box::new(EntryCollector { cell: d.cell.clone(), metric: c.metric.clone() })
                }
                Either::Vec(f) => {
                    Box::new(EntryCollector { cell: d.cell.clone(), metric: f.vec.clone() })
                }
            };
            let outcome = storage.registry().register(collector);
            storage.commit_histogram(k, d, outcome)
        }
    }
}

fn gather_text(registry: &prometheus::Registry) -> String {
    prometheus::TextEncoder::new()
        .encode_to_string(&registry.gather())
        .unwrap()
}

fn fresh_storage() -> Mutable {
    Mutable::new(prometheus::Registry::new())
}

#[test]
fn repeated_registration_shares_state() {
    let mut storage = fresh_storage();
    let k = key("count", &[("a", "1")]);
    let m1 = register_counter_key(&mut storage, &k).unwrap();
    let m2 = register_counter_key(&mut storage, &k).unwrap();
    m1.metric.inc();
    m2.metric.inc();
    let report = gather_text(storage.registry());
    assert!(report.contains("count{a=\"1\"} 2"), "report was: {report}");
}

#[test]
fn registration_registers_once() {
    let mut storage = fresh_storage();
    let k = key("z", &[]);
    for _ in 0..5 {
        let m = register_counter_key(&mut storage, &k).unwrap();
        m.metric.inc();
    }
    let report = gather_text(storage.registry());
    assert_eq!(report.matches("# TYPE z counter").count(), 1);
    assert!(report.contains("z 5"), "report was: {report}");
}

#[test]
fn cardinality_enforcement_on_families() {
    let mut storage = fresh_storage();
    let first = key("family", &[("a", "1"), ("b", "2")]);
    register_counter_key(&mut storage, &first).unwrap();

    let none = register_counter_key(&mut storage, &key("family", &[]));
    assert!(
        matches!(
            none,
            Err(RegistryError::InconsistentCardinality { expect: 2, got: 0 })
        ),
        "zero labels must be a cardinality error"
    );

    let fewer = register_counter_key(&mut storage, &key("family", &[("a", "1")]));
    assert!(matches!(
        fewer,
        Err(RegistryError::InconsistentCardinality { expect: 2, got: 1 })
    ));

    let wrong = register_counter_key(&mut storage, &key("family", &[("a", "1"), ("c", "3")]));
    match wrong {
        Err(RegistryError::MissingLabel { name }) => assert_eq!(name, "b"),
        Err(other) => panic!("expected a missing-label error, got {other:?}"),
        Ok(_) => panic!("a wrong label name must not resolve"),
    }
}

#[test]
fn single_metric_rejects_labels() {
    let mut storage = fresh_storage();
    register_counter_key(&mut storage, &key("plain", &[])).unwrap();
    let labelled = register_counter_key(&mut storage, &key("plain", &[("a", "1")]));
    assert!(matches!(
        labelled,
        Err(RegistryError::InconsistentCardinality { expect: 0, got: 1 })
    ));
}

#[test]
fn name_isolation_across_kinds() {
    let mut storage = fresh_storage();
    let k = key("x", &[]);
    register_counter_key(&mut storage, &k).unwrap();

    // The same name as a gauge collides in the client registry itself: the
    // gauge table stays without a bundle, the counter keeps working.
    let as_gauge = register_gauge_key(&mut storage, &k);
    match &as_gauge {
        Err(e @ RegistryError::Prometheus(_)) => {
            let message = e.message();
            assert!(
                message.contains("Duplicate metrics collector"),
                "message was: {message}"
            );
        }
        _ => panic!("the second kind under one name must be refused by the registry"),
    }
    assert!(storage.lookup_gauge(&k).is_none());
    register_counter_key(&mut storage, &k).unwrap().metric.inc();

    // With no registry collision the tables are fully independent.
    let mut other = fresh_storage();
    register_gauge_key(&mut other, &k).unwrap();
    register_counter_key(&mut other, &key("y", &[])).unwrap();
    let report = gather_text(other.registry());
    assert!(report.contains("# TYPE x gauge"));
    assert!(report.contains("# TYPE y counter"));
}

#[test]
fn help_text_precedence() {
    let mut storage = fresh_storage();
    storage.describe_counter("described", "Pre-set help.".to_owned());
    register_counter_key(&mut storage, &key("described", &[])).unwrap();
    let report = gather_text(storage.registry());
    assert!(
        report.contains("# HELP described Pre-set help."),
        "report was: {report}"
    );

    // The table itself records the same precedence: the entry keeps the
    // pre-set description and the bundle was created with it as help.
    let table: &Collection<Describable<Option<PrometheusIntCounter>>> = storage.collection();
    assert_eq!(table.len(), 1);
    let entry = table.get("described").unwrap();
    assert_eq!(entry.description, "Pre-set help.");
    let bundle = entry.metric.as_ref().unwrap();
    assert_eq!(bundle.help, "Pre-set help.");
    assert!(bundle.schema.is_empty());
}

#[test]
fn help_defaults_to_name() {
    let mut storage = fresh_storage();
    register_counter_key(&mut storage, &key("bare", &[])).unwrap();
    let report = gather_text(storage.registry());
    assert!(report.contains("# HELP bare bare"), "report was: {report}");
}

#[test]
fn invalid_name_rejected_by_client() {
    let mut storage = fresh_storage();
    let res = register_counter_key(&mut storage, &key("invalid.name", &[]));
    assert!(matches!(res, Err(RegistryError::Prometheus(_))));
    assert!(storage.lookup_counter(&key("invalid.name", &[])).is_none());
}

#[test]
fn description_changes_after_registration() {
    let mut storage = fresh_storage();
    register_counter_key(&mut storage, &key("mut_help", &[])).unwrap();
    storage.describe_counter("mut_help", "Changed later.".to_owned());
    let report = gather_text(storage.registry());
    assert!(
        report.contains("# HELP mut_help Changed later."),
        "report was: {report}"
    );
}

#[test]
fn label_order_is_irrelevant() {
    let mut storage = fresh_storage();
    let m1 = register_counter_key(&mut storage, &key("pair", &[("a", "1"), ("b", "2")])).unwrap();
    let m2 = register_counter_key(&mut storage, &key("pair", &[("b", "2"), ("a", "1")])).unwrap();
    m1.metric.inc();
    m2.metric.inc();
    let report = gather_text(storage.registry());
    assert!(
        report.contains("pair{a=\"1\",b=\"2\"} 2"),
        "report was: {report}"
    );
}

#[test]
fn last_occurrence_of_label_wins() {
    let mut storage = fresh_storage();
    register_counter_key(&mut storage, &key("dup", &[("a", "1")])).unwrap();
    let m = register_counter_key(&mut storage, &key("dup", &[("a", "1"), ("a", "2")])).unwrap();
    m.metric.inc();
    let report = gather_text(storage.registry());
    assert!(report.contains("dup{a=\"2\"} 1"), "report was: {report}");
}

#[test]
fn duplicate_label_names_rejected_at_creation() {
    let mut storage = fresh_storage();
    let res = register_counter_key(&mut storage, &key("dupschema", &[("a", "1"), ("a", "2")]));
    assert!(matches!(res, Err(RegistryError::Prometheus(_))));
    // The failed attempt left no bundle behind, so the read path still
    // reports nothing for the name.
    assert!(storage.lookup_counter(&key("dupschema", &[])).is_none());
}

#[test]
fn empty_metric_name_rejected() {
    let mut storage = fresh_storage();
    let res = register_counter_key(&mut storage, &key("", &[]));
    assert!(matches!(res, Err(RegistryError::Prometheus(_))));
}

#[test]
fn histogram_le_label_fails_at_child_build() {
    // A histogram family whose schema carries the reserved label name `le`
    // is created and registered without complaint, but every child build
    // is refused by the client library.
    let mut storage = fresh_storage();
    let k = key("le_hist", &[("le", "1")]);
    let res = register_histogram_key(&mut storage, &k);
    match res {
        Err(RegistryError::Prometheus(e)) => {
            let text = e.to_string();
            assert!(text.contains("`le` is not allowed"), "error was: {text}");
        }
        _ => panic!("a histogram child with an `le` label must be refused"),
    }
    // The family itself was registered, so the entry keeps its bundle and
    // a later attempt fails the same way instead of re-registering.
    let again = register_histogram_key(&mut storage, &k);
    assert!(matches!(again, Err(RegistryError::Prometheus(_))));
}

#[test]
fn gauge_and_histogram_paths() {
    let mut storage = fresh_storage();
    let g = register_gauge_key(&mut storage, &key("level", &[])).unwrap();
    g.metric.set(3.5);
    let h = register_histogram_key(&mut storage, &key("lat", &[("op", "get")])).unwrap();
    h.metric.observe(0.25);
    let report = gather_text(storage.registry());
    assert!(report.contains("level 3.5"), "report was: {report}");
    assert!(report.contains("lat_count{op=\"get\"} 1"), "report was: {report}");
}

#[test]
fn external_metric_usable_through_the_facade() {
    let mut storage = fresh_storage();
    let raw = prometheus::IntCounterVec::new(
        prometheus::Opts::new("value", "help"),
        &["whose", "kind"],
    )
    .unwrap();

    let (name, d) = external_counter_entry(Either::Vec(CounterFamily { vec: raw.clone() }));
    assert_eq!(name, "value");
    let collector: Box<dyn prometheus::core::Collector> = match &d.metric.metric {
        Either::Vec(f) => Box::new(EntryCollector { cell: d.cell.clone(), metric: f.vec.clone() }),
        Either::Single(_) => unreachable!(),
    };
    storage.registry().register(collector).unwrap();
    storage.insert_external_counter(name, d);

    raw.with_label_values(&["mine", "owned"]).inc();
    let m = register_counter_key(
        &mut storage,
        &key("value", &[("whose", "mine"), ("kind", "owned")]),
    )
    .unwrap();
    m.metric.inc();
    let report = gather_text(storage.registry());
    assert!(
        report.contains("value{kind=\"owned\",whose=\"mine\"} 2"),
        "report was: {report}"
    );
}

#[test]
fn failure_policy_dispatch() {
    let registry = prometheus::Registry::new();
    let (mut recorder, _layers) = Recorder::builder()
        .with_registry(registry.clone())
        .with_failure_strategy(metrics_prometheus::failure::Panic)
        .build();
    let good = key("x", &[("a", "1")]);
    register_counter_key(&mut recorder.storage, &good)
        .unwrap()
        .metric
        .inc();

    // The second schema does not fit; with the panic policy the outcome
    // carries the message the caller must abort with, naming the metric
    // kind and the failure.
    let bad = key("x", &[("a", "1"), ("b", "2")]);
    let res = register_counter_key(&mut recorder.storage, &bad);
    assert!(res.is_err());
    let res = register_counter_key(&mut recorder.storage, &bad);
    match recorder.resolve_counter(res) {
        Outcome::Panic(message) => {
            assert!(message.contains("IntCounter"), "message was: {message}");
            assert!(message.contains("failed"), "message was: {message}");
            assert_eq!(
                message,
                "failed to register `prometheus::IntCounter` metric: \
                 Inconsistent label cardinality, expect 1 label values, but got 2"
            );
        }
        Outcome::Metric(_) => panic!("a misfitting key must not resolve"),
        Outcome::NoOp => panic!("the panic policy must not hand out a no-op"),
    }

    // Under the no-op policy the identical misuse yields an inert handle
    // and the gathered output never moves for that key.
    let (recorder, _layers) = metrics_prometheus::recorder::Builder {
        storage: recorder.storage,
        failure_strategy: metrics_prometheus::failure::NoOp,
        layers: metrics_prometheus::recorder::Stack::identity(),
    }
    .build();
    let mut storage = recorder.storage;
    let res = register_counter_key(&mut storage, &bad);
    let recorder = metrics_prometheus::recorder::Recorder {
        storage,
        failure_strategy: metrics_prometheus::failure::NoOp,
    };
    assert!(matches!(recorder.resolve_counter(res), Outcome::NoOp));
    let report = gather_text(recorder.registry());
    assert!(report.contains("x{a=\"1\"} 1"), "report was: {report}");
}

#[test]
fn freeze_snapshot_completeness_and_isolation() {
    let registry = prometheus::Registry::new();
    let (mut freezable, _layers) = Recorder::builder()
        .with_registry(registry.clone())
        .build_freezable();

    let k = key("kept", &[]);
    let m = register_counter_key(&mut freezable.usual.storage, &k).unwrap();
    m.metric.inc();
    let gauge_key = key("kept_gauge", &[]);
    register_gauge_key(&mut freezable.usual.storage, &gauge_key).unwrap();
    let histogram_key = key("kept_hist", &[("op", "put")]);
    register_histogram_key(&mut freezable.usual.storage, &histogram_key).unwrap();
    // A name described but never registered carries no metric and is
    // dropped by the freeze.
    freezable
        .usual
        .storage
        .describe_counter("text_only", "never registered".to_owned());

    freezable.freeze();
    assert!(freezable.is_frozen());

    let frozen = freezable.frozen_recorder().unwrap();
    match frozen.register_counter(&k) {
        Outcome::Metric(w) => w.into_inner().metric.inc(),
        _ => panic!("expected the stored metric for a name registered before the freeze"),
    }
    let report = gather_text(&registry);
    assert!(report.contains("kept 2"), "report was: {report}");

    // The other kinds resolve from the snapshot the same way.
    assert!(matches!(frozen.register_gauge(&gauge_key), Outcome::Metric(_)));
    assert!(matches!(frozen.register_histogram(&histogram_key), Outcome::Metric(_)));
    assert!(matches!(frozen.register_gauge(&key("late_gauge", &[])), Outcome::NoOp));
    assert!(matches!(
        frozen.register_histogram(&key("late_hist", &[])),
        Outcome::NoOp
    ));

    // A brand-new name after freezing is silently a no-op: no entry, no
    // error, nothing in the gathered output.
    assert!(matches!(frozen.register_counter(&key("late", &[])), Outcome::NoOp));
    assert!(matches!(
        frozen.register_counter(&key("text_only", &[])),
        Outcome::NoOp
    ));
    let report = gather_text(&registry);
    assert!(!report.contains("late"));
}

#[test]
fn freeze_is_idempotent() {
    let registry = prometheus::Registry::new();
    let (mut freezable, _layers) = Recorder::builder()
        .with_registry(registry.clone())
        .build_freezable();
    let k = key("once", &[]);
    register_counter_key(&mut freezable.usual.storage, &k)
        .unwrap()
        .metric
        .inc();

    freezable.freeze();
    freezable.freeze();
    assert!(freezable.is_frozen());

    let frozen = freezable.frozen_recorder().unwrap();
    assert!(matches!(frozen.register_counter(&k), Outcome::Metric(_)));
    let report = gather_text(&registry);
    assert!(report.contains("once 1"), "report was: {report}");
}

#[test]
fn describe_through_frozen_recorder() {
    let registry = prometheus::Registry::new();
    let (mut freezable, _layers) = Recorder::builder()
        .with_registry(registry.clone())
        .build_freezable();
    register_counter_key(&mut freezable.usual.storage, &key("froze", &[])).unwrap();
    freezable.freeze();

    // Help text stays mutable even after the freeze, through the shared
    // cells; a never-registered name is a silent no-op.
    freezable.describe_counter("froze", "After the freeze.".to_owned());
    freezable.describe_counter("absent", "Nothing there.".to_owned());
    let report = gather_text(&registry);
    assert!(
        report.contains("# HELP froze After the freeze."),
        "report was: {report}"
    );
    assert!(!report.contains("absent"));
}

#[test]
fn build_frozen_from_builder() {
    let registry = prometheus::Registry::new();
    let mut builder = Recorder::builder().with_registry(registry.clone());
    register_counter_key(&mut builder.storage, &key("pre", &[])).unwrap();
    let (frozen, _layers) = builder.build_frozen();
    assert!(matches!(frozen.register_counter(&key("pre", &[])), Outcome::Metric(_)));
    assert!(matches!(frozen.register_counter(&key("new", &[])), Outcome::NoOp));
}
