//! Recorder front-ends: the live recorder over a growable storage, its
//! freezable variant, the read-only frozen variant, and the builder that
//! configures any of them.

pub mod freezable;
pub mod frozen;
pub mod layer;

use vstd::prelude::*;
use vstd::string::StringExecFns;

use crate::failure::{message_of, Action, PanicInDebugNoOpInRelease, RegistryError, Strategy};
use crate::metric::{
    Describable, Gauge, Histogram, IntCounter, Metric, PrometheusGauge, PrometheusHistogram,
    PrometheusIntCounter,
};
use crate::storage;

pub use self::{freezable::Recorder as Freezable, frozen::Recorder as Frozen};
pub use self::layer::{Identity, Stack};

verus! {

/// What a facade call should receive: a real metric handle to wrap, an
/// inert no-op handle, or an abort carrying the message to abort with.
///
/// The abort is deferred: the decision is taken where the error shows up,
/// but the caller performs it only once no client-registry lock is held.
pub enum Outcome<M> {
    /// Hand out this metric.
    Metric(Metric<M>),
    /// Hand out an inert no-op handle; the bad key silently drops all
    /// writes from now on.
    NoOp,
    /// Abort the operation with this message, outside every lock.
    Panic(String),
}

/// The text a failed counter registration aborts with: the kind, the word
/// "failed", and the underlying cause.
pub open spec fn counter_failure_text(e: RegistryError) -> Seq<char> {
    "failed to register `prometheus::IntCounter` metric: "@ + message_of(e)
}

/// See [`counter_failure_text`].
pub open spec fn gauge_failure_text(e: RegistryError) -> Seq<char> {
    "failed to register `prometheus::Gauge` metric: "@ + message_of(e)
}

/// See [`counter_failure_text`].
pub open spec fn histogram_failure_text(e: RegistryError) -> Seq<char> {
    "failed to register `prometheus::Histogram` metric: "@ + message_of(e)
}

/// The message a failed counter registration aborts with.
pub(crate) fn counter_failure_message(e: &RegistryError) -> (s: String)
    ensures
        s@ == counter_failure_text(*e),
{
    let mut s = String::from_str("failed to register `prometheus::IntCounter` metric: ");
    s.append(e.message().as_str());
    s
}

/// The message a failed gauge registration aborts with.
pub(crate) fn gauge_failure_message(e: &RegistryError) -> (s: String)
    ensures
        s@ == gauge_failure_text(*e),
{
    let mut s = String::from_str("failed to register `prometheus::Gauge` metric: ");
    s.append(e.message().as_str());
    s
}

/// The message a failed histogram registration aborts with.
pub(crate) fn histogram_failure_message(e: &RegistryError) -> (s: String)
    ensures
        s@ == histogram_failure_text(*e),
{
    let mut s = String::from_str("failed to register `prometheus::Histogram` metric: ");
    s.append(e.message().as_str());
    s
}

/// The live recorder: a growable storage plus the failure strategy its
/// registration outcomes are decided by.
///
/// Registration follows the storage's prepare/commit protocol; the
/// embedding code drives it under its own locking and turns the resulting
/// [`Outcome`]s into facade handles.
pub struct Recorder<FailureStrategy = PanicInDebugNoOpInRelease> {
    /// The storage registering metrics with its client registry.
    pub storage: storage::Mutable,
    /// The strategy applied when the client registry refuses a request.
    pub failure_strategy: FailureStrategy,
}

impl Recorder {
    /// Starts building a recorder over the process-wide default registry.
    ///
    /// The default failure strategy never panics; an application wanting
    /// the panic-in-debug behaviour states its build profile through
    /// [`crate::failure::PanicInDebugNoOpInRelease::new`].
    pub fn builder() -> (b: Builder)
        ensures
            b.storage.wf(),
            b.storage.counters_map() == Map::<
                Seq<char>,
                Describable<Option<PrometheusIntCounter>>,
            >::empty(),
            b.storage.gauges_map() == Map::<
                Seq<char>,
                Describable<Option<PrometheusGauge>>,
            >::empty(),
            b.storage.histograms_map() == Map::<
                Seq<char>,
                Describable<Option<PrometheusHistogram>>,
            >::empty(),
            !b.failure_strategy.debug,
            b.layers == Identity,
    {
        Builder {
            storage: storage::Mutable::default(),
            failure_strategy: PanicInDebugNoOpInRelease { debug: false },
            layers: Identity,
        }
    }
}

impl<S> Recorder<S> {
    /// The storage is usable.
    pub open spec fn wf(self) -> bool {
        self.storage.wf()
    }

    /// The client registry backing this recorder.
    ///
    /// Metrics registered directly with it bypass this recorder's tables
    /// and will error if later accessed through the facade.
    pub fn registry(&self) -> (r: &prometheus::Registry)
        ensures
            *r == self.storage.spec_registry(),
    {
        self.storage.registry()
    }
}

impl<S: Strategy> Recorder<S> {
    /// Turns a storage resolution into what the facade call should get:
    /// wraps a resolved metric, and otherwise applies the failure strategy,
    /// deferring any panic to the caller.
    pub fn resolve_counter(&self, res: Result<IntCounter, RegistryError>) -> (o: Outcome<
        IntCounter,
    >)
        ensures
            res matches Ok(m) ==> (o matches Outcome::Metric(w) && w.spec_inner() == m),
            res matches Err(e) ==> {
                &&& self.failure_strategy.decide_spec(&e) is NoOp <==> o is NoOp
                &&& self.failure_strategy.decide_spec(&e) is Panic <==> o is Panic
                &&& (o matches Outcome::Panic(m) ==> m@ == counter_failure_text(e))
            },
    {
        match res {
            Ok(m) => Outcome::Metric(Metric::wrap(m)),
            Err(e) => match self.failure_strategy.decide(&e) {
                Action::NoOp => Outcome::NoOp,
                Action::Panic => Outcome::Panic(counter_failure_message(&e)),
            },
        }
    }

    /// See [`Self::resolve_counter`].
    pub fn resolve_gauge(&self, res: Result<Gauge, RegistryError>) -> (o: Outcome<Gauge>)
        ensures
            res matches Ok(m) ==> (o matches Outcome::Metric(w) && w.spec_inner() == m),
            res matches Err(e) ==> {
                &&& self.failure_strategy.decide_spec(&e) is NoOp <==> o is NoOp
                &&& self.failure_strategy.decide_spec(&e) is Panic <==> o is Panic
                &&& (o matches Outcome::Panic(m) ==> m@ == gauge_failure_text(e))
            },
    {
        match res {
            Ok(m) => Outcome::Metric(Metric::wrap(m)),
            Err(e) => match self.failure_strategy.decide(&e) {
                Action::NoOp => Outcome::NoOp,
                Action::Panic => Outcome::Panic(gauge_failure_message(&e)),
            },
        }
    }

    /// See [`Self::resolve_counter`].
    pub fn resolve_histogram(&self, res: Result<Histogram, RegistryError>) -> (o: Outcome<
        Histogram,
    >)
        ensures
            res matches Ok(m) ==> (o matches Outcome::Metric(w) && w.spec_inner() == m),
            res matches Err(e) ==> {
                &&& self.failure_strategy.decide_spec(&e) is NoOp <==> o is NoOp
                &&& self.failure_strategy.decide_spec(&e) is Panic <==> o is Panic
                &&& (o matches Outcome::Panic(m) ==> m@ == histogram_failure_text(e))
            },
    {
        match res {
            Ok(m) => Outcome::Metric(Metric::wrap(m)),
            Err(e) => match self.failure_strategy.decide(&e) {
                Action::NoOp => Outcome::NoOp,
                Action::Panic => Outcome::Panic(histogram_failure_message(&e)),
            },
        }
    }
}

/// Builder for a [`Recorder`] in any of its variants.
#[must_use]
pub struct Builder<FailureStrategy = PanicInDebugNoOpInRelease, Layers = Identity> {
    /// The storage the built recorder will own.
    pub storage: storage::Mutable,
    /// The failure strategy of the built recorder.
    pub failure_strategy: FailureStrategy,
    /// The layers the embedding code wraps the recorder with at
    /// installation.
    pub layers: Layers,
}

impl<S, L> Builder<S, L> {
    /// Uses the given client registry instead of the process-wide default.
    pub fn with_registry(self, registry: prometheus::Registry) -> (b: Builder<S, L>)
        requires
            self.storage.wf(),
        ensures
            b.storage.wf(),
            b.storage.spec_registry() == registry,
            b.storage.counters_map() == self.storage.counters_map(),
            b.storage.gauges_map() == self.storage.gauges_map(),
            b.storage.histograms_map() == self.storage.histograms_map(),
            b.failure_strategy == self.failure_strategy,
            b.layers == self.layers,
    {
        let Builder { storage, failure_strategy, layers } = self;
        let mut storage = storage;
        storage.set_registry(registry);
        Builder { storage, failure_strategy, layers }
    }

    /// Uses the given failure strategy in the built recorder.
    pub fn with_failure_strategy<F: Strategy>(self, strategy: F) -> (b: Builder<F, L>)
        ensures
            b.storage == self.storage,
            b.failure_strategy == strategy,
            b.layers == self.layers,
    {
        Builder { storage: self.storage, failure_strategy: strategy, layers: self.layers }
    }

    /// Adds a layer for the embedding code to wrap the built recorder with
    /// upon installation, outermost last.
    pub fn with_layer<L2>(self, layer: L2) -> (b: Builder<S, Stack<L2, L>>)
        ensures
            b.storage == self.storage,
            b.failure_strategy == self.failure_strategy,
            b.layers == (Stack(layer, self.layers)),
    {
        Builder {
            storage: self.storage,
            failure_strategy: self.failure_strategy,
            layers: Stack(layer, self.layers),
        }
    }

    /// Builds the live recorder, handing back the collected layers for the
    /// embedding code to apply.
    pub fn build(self) -> (r: (Recorder<S>, L))
        ensures
            r.0.storage == self.storage,
            r.0.failure_strategy == self.failure_strategy,
            r.1 == self.layers,
    {
        let Builder { storage, failure_strategy, layers } = self;
        (Recorder { storage, failure_strategy }, layers)
    }

    /// Builds the freezable recorder, handing back the collected layers
    /// for the embedding code to apply.
    pub fn build_freezable(self) -> (r: (freezable::Recorder<S>, L))
        ensures
            r.0.usual.storage == self.storage,
            r.0.usual.failure_strategy == self.failure_strategy,
            r.0.frozen is None,
            r.1 == self.layers,
    {
        let Builder { storage, failure_strategy, layers } = self;
        (freezable::Recorder::wrap(Recorder { storage, failure_strategy }), layers)
    }

    /// Builds the frozen recorder by draining this builder's storage into
    /// a snapshot: exactly the metrics registered so far stay available,
    /// and nothing can ever be added.
    pub fn build_frozen(self) -> (r: (frozen::Recorder<S>, L))
        requires
            self.storage.wf(),
        ensures
            r.0.storage.wf(),
            r.0.storage.counters_map() == storage::immutable::snapshot_of(
                self.storage.counters_map(),
            ),
            r.0.storage.gauges_map() == storage::immutable::snapshot_of(
                self.storage.gauges_map(),
            ),
            r.0.storage.histograms_map() == storage::immutable::snapshot_of(
                self.storage.histograms_map(),
            ),
            r.0.failure_strategy == self.failure_strategy,
            r.1 == self.layers,
    {
        let Builder { storage, failure_strategy, layers } = self;
        let mut storage = storage;
        let snapshot = storage::Immutable::from(&mut storage);
        (frozen::Recorder { storage: snapshot, failure_strategy }, layers)
    }
}

} // verus!
