//! The fast, read-only recorder variant: registered metrics resolve with a
//! plain table lookup, and no registration path exists at all.

use vstd::prelude::*;

use crate::failure::{Action, RegistryError, Strategy};
use crate::metric::{Either, Gauge, Histogram, IntCounter, Key, Metric};
use crate::storage;
use crate::metric::{counter_resolution, gauge_resolution, histogram_resolution};

use super::Outcome;

verus! {

/// Recorder over an immutable storage snapshot: resolves already
/// registered metrics and hands back an inert handle for everything else.
///
/// A key that misuses an existing name's schema is decided by the failure
/// strategy; panicking here is safe, since no client-registry lock is held
/// on this path.
pub struct Recorder<FailureStrategy = crate::failure::PanicInDebugNoOpInRelease> {
    /// The snapshot metrics are resolved against.
    pub storage: storage::Immutable,
    /// The strategy applied when a key does not fit a stored schema.
    pub failure_strategy: FailureStrategy,
}

impl<S: Strategy> Recorder<S> {
    /// The snapshot is usable.
    pub open spec fn wf(self) -> bool {
        self.storage.wf()
    }

    /// Updates the help text of the counter registered under `name`; a
    /// no-op for any other name, since nothing can be registered after
    /// freezing.
    pub fn describe_counter(&self, name: &str, description: String)
        requires
            self.wf(),
    {
        self.storage.describe_counter(name, description);
    }

    /// See [`Self::describe_counter`].
    pub fn describe_gauge(&self, name: &str, description: String)
        requires
            self.wf(),
    {
        self.storage.describe_gauge(name, description);
    }

    /// See [`Self::describe_counter`].
    pub fn describe_histogram(&self, name: &str, description: String)
        requires
            self.wf(),
    {
        self.storage.describe_histogram(name, description);
    }

    /// Resolves `key` against the frozen counter table: an inert handle for
    /// a name never registered, the stored metric when the key fits its
    /// schema, and otherwise whatever the failure strategy decides on the
    /// resolution error.
    pub fn register_counter(&self, key: &Key) -> (o: Outcome<IntCounter>)
        requires
            self.wf(),
        ensures
            ({
                let m = self.storage.counters_map();
                &&& (!m.dom().contains(key.name@)) ==> o is NoOp
                &&& m.dom().contains(key.name@) ==> ({
                    let b = m[key.name@].metric;
                    &&& (o matches Outcome::Metric(w) ==> b.key_fits(*key) && (
                    b.metric matches Either::Single(c) ==> w.spec_inner() == c))
                    &&& b.key_fits(*key) ==> o is Metric
                    &&& ((o is NoOp || o is Panic) ==> exists|e: RegistryError|
                        {
                            &&& counter_resolution(b, *key, Err(e))
                            &&& (o is Panic <==> #[trigger] self.failure_strategy.decide_spec(&e)
                                is Panic)
                            &&& (o matches Outcome::Panic(m) ==> m@ == super::counter_failure_text(
                                e,
                            ))
                        })
                })
            }),
    {
        match self.storage.get_metric_counter(key) {
            None => Outcome::NoOp,
            Some(res) => match res {
                Ok(m) => Outcome::Metric(Metric::wrap(m)),
                Err(e) => match self.failure_strategy.decide(&e) {
                    Action::NoOp => Outcome::NoOp,
                    Action::Panic => Outcome::Panic(super::counter_failure_message(&e)),
                },
            },
        }
    }

    /// See [`Self::register_counter`].
    pub fn register_gauge(&self, key: &Key) -> (o: Outcome<Gauge>)
        requires
            self.wf(),
        ensures
            ({
                let m = self.storage.gauges_map();
                &&& (!m.dom().contains(key.name@)) ==> o is NoOp
                &&& m.dom().contains(key.name@) ==> ({
                    let b = m[key.name@].metric;
                    &&& (o matches Outcome::Metric(w) ==> b.key_fits(*key) && (
                    b.metric matches Either::Single(c) ==> w.spec_inner() == c))
                    &&& b.key_fits(*key) ==> o is Metric
                    &&& ((o is NoOp || o is Panic) ==> exists|e: RegistryError|
                        {
                            &&& gauge_resolution(b, *key, Err(e))
                            &&& (o is Panic <==> #[trigger] self.failure_strategy.decide_spec(&e)
                                is Panic)
                            &&& (o matches Outcome::Panic(m) ==> m@ == super::gauge_failure_text(
                                e,
                            ))
                        })
                })
            }),
    {
        match self.storage.get_metric_gauge(key) {
            None => Outcome::NoOp,
            Some(res) => match res {
                Ok(m) => Outcome::Metric(Metric::wrap(m)),
                Err(e) => match self.failure_strategy.decide(&e) {
                    Action::NoOp => Outcome::NoOp,
                    Action::Panic => Outcome::Panic(super::gauge_failure_message(&e)),
                },
            },
        }
    }

    /// See [`Self::register_counter`]; the stored metric is only owed when
    /// a stored family's buckets are known good.
    pub fn register_histogram(&self, key: &Key) -> (o: Outcome<Histogram>)
        requires
            self.wf(),
        ensures
            ({
                let m = self.storage.histograms_map();
                &&& (!m.dom().contains(key.name@)) ==> o is NoOp
                &&& m.dom().contains(key.name@) ==> ({
                    let b = m[key.name@].metric;
                    &&& (o matches Outcome::Metric(w) ==> b.key_fits(*key) && (
                    b.metric matches Either::Single(c) ==> w.spec_inner() == c))
                    &&& (b.children_ok() && b.key_fits(*key)) ==> o is Metric
                    &&& ((o is NoOp || o is Panic) ==> exists|e: RegistryError|
                        {
                            &&& histogram_resolution(b, *key, Err(e))
                            &&& (o is Panic <==> #[trigger] self.failure_strategy.decide_spec(&e)
                                is Panic)
                            &&& (o matches Outcome::Panic(m) ==> m@ == super::histogram_failure_text(
                                e,
                            ))
                        })
                })
            }),
    {
        match self.storage.get_metric_histogram(key) {
            None => Outcome::NoOp,
            Some(res) => match res {
                Ok(m) => Outcome::Metric(Metric::wrap(m)),
                Err(e) => match self.failure_strategy.decide(&e) {
                    Action::NoOp => Outcome::NoOp,
                    Action::Panic => Outcome::Panic(super::histogram_failure_message(&e)),
                },
            },
        }
    }
}

} // verus!
