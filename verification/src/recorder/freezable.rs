//! The freezable recorder: a live recorder that can transition once,
//! irreversibly, into a frozen one.

use vstd::prelude::*;

use crate::failure::{PanicInDebugNoOpInRelease, Strategy};
use crate::storage;

use super::frozen;

verus! {

/// A live recorder that can be frozen: before the transition every call
/// reaches the growable storage; after it, everything is served from a
/// read-only snapshot, and registration becomes a silent no-op.
///
/// Freezing is one-way and idempotent: the first call drains the live
/// storage into the snapshot, every later call leaves the recorder exactly
/// as it is.
pub struct Recorder<FailureStrategy = PanicInDebugNoOpInRelease> {
    /// The live recorder serving calls before the freeze.
    pub usual: super::Recorder<FailureStrategy>,
    /// The frozen recorder serving calls after the freeze, once built.
    pub frozen: Option<frozen::Recorder<FailureStrategy>>,
}

impl<S> Recorder<S> {
    /// Both sides are usable.
    pub open spec fn wf(self) -> bool {
        &&& self.usual.wf()
        &&& (self.frozen matches Some(f) ==> f.storage.wf())
    }

    /// Wraps a live recorder into a freezable one, not yet frozen.
    pub fn wrap(usual: super::Recorder<S>) -> (r: Self)
        ensures
            r.usual == usual,
            r.frozen is None,
    {
        Recorder { usual, frozen: None }
    }

    /// Whether this recorder has been frozen.
    pub fn is_frozen(&self) -> (b: bool)
        ensures
            b == self.frozen is Some,
    {
        match &self.frozen {
            Some(_) => true,
            None => false,
        }
    }

    /// The frozen recorder, once the transition has happened.
    pub fn frozen_recorder(&self) -> (r: Option<&frozen::Recorder<S>>)
        ensures
            match r {
                Some(f) => self.frozen matches Some(g) && *f == g,
                None => self.frozen is None,
            },
    {
        match &self.frozen {
            Some(f) => Some(f),
            None => None,
        }
    }

    /// The client registry backing this recorder.
    pub fn registry(&self) -> (r: &prometheus::Registry)
        ensures
            *r == self.usual.storage.spec_registry(),
    {
        self.usual.registry()
    }
}

impl<S: Strategy + Copy> Recorder<S> {
    /// Freezes this recorder: drains the live storage into a read-only
    /// snapshot that keeps exactly the metrics registered so far, carrying
    /// the failure strategy over.  A second freeze is a no-op.
    pub fn freeze(&mut self)
        requires
            old(self).wf(),
        ensures
            final(self).wf(),
            old(self).frozen is Some ==> *final(self) == *old(self),
            old(self).frozen is None ==> ({
                &&& final(self).frozen matches Some(f)
                &&& f.storage.counters_map() == storage::immutable::snapshot_of(
                    old(self).usual.storage.counters_map(),
                )
                &&& f.storage.gauges_map() == storage::immutable::snapshot_of(
                    old(self).usual.storage.gauges_map(),
                )
                &&& f.storage.histograms_map() == storage::immutable::snapshot_of(
                    old(self).usual.storage.histograms_map(),
                )
                &&& f.failure_strategy == old(self).usual.failure_strategy
                &&& final(self).usual.failure_strategy == old(self).usual.failure_strategy
                &&& final(self).usual.storage.spec_registry() == old(
                    self,
                ).usual.storage.spec_registry()
            }),
    {
        match &self.frozen {
            Some(_) => (),
            None => {
                let snapshot = storage::Immutable::from(&mut self.usual.storage);
                let failure_strategy = self.usual.failure_strategy;
                self.frozen = Some(frozen::Recorder { storage: snapshot, failure_strategy });
            },
        }
    }

    /// Updates a counter's help text: through the snapshot once frozen,
    /// else through the live storage.
    pub fn describe_counter(&mut self, name: &str, description: String)
        requires
            old(self).wf(),
        ensures
            final(self).wf(),
            old(self).frozen is Some ==> *final(self) == *old(self),
            old(self).frozen is None ==> ({
                &&& final(self).frozen is None
                &&& final(self).usual.failure_strategy == old(self).usual.failure_strategy
                &&& final(self).usual.storage.counters_map().dom() == old(
                    self,
                ).usual.storage.counters_map().dom().insert(name@)
                &&& final(self).usual.storage.counters_map()[name@].description@ == description@
                &&& final(self).usual.storage.gauges_map() == old(self).usual.storage.gauges_map()
                &&& final(self).usual.storage.histograms_map() == old(
                    self,
                ).usual.storage.histograms_map()
            }),
    {
        match &self.frozen {
            Some(f) => f.storage.describe_counter(name, description),
            None => self.usual.storage.describe_counter(name, description),
        }
    }

    /// See [`Self::describe_counter`].
    pub fn describe_gauge(&mut self, name: &str, description: String)
        requires
            old(self).wf(),
        ensures
            final(self).wf(),
            old(self).frozen is Some ==> *final(self) == *old(self),
            old(self).frozen is None ==> ({
                &&& final(self).frozen is None
                &&& final(self).usual.failure_strategy == old(self).usual.failure_strategy
                &&& final(self).usual.storage.gauges_map().dom() == old(
                    self,
                ).usual.storage.gauges_map().dom().insert(name@)
                &&& final(self).usual.storage.gauges_map()[name@].description@ == description@
                &&& final(self).usual.storage.counters_map() == old(
                    self,
                ).usual.storage.counters_map()
                &&& final(self).usual.storage.histograms_map() == old(
                    self,
                ).usual.storage.histograms_map()
            }),
    {
        match &self.frozen {
            Some(f) => f.storage.describe_gauge(name, description),
            None => self.usual.storage.describe_gauge(name, description),
        }
    }

    /// See [`Self::describe_counter`].
    pub fn describe_histogram(&mut self, name: &str, description: String)
        requires
            old(self).wf(),
        ensures
            final(self).wf(),
            old(self).frozen is Some ==> *final(self) == *old(self),
            old(self).frozen is None ==> ({
                &&& final(self).frozen is None
                &&& final(self).usual.failure_strategy == old(self).usual.failure_strategy
                &&& final(self).usual.storage.histograms_map().dom() == old(
                    self,
                ).usual.storage.histograms_map().dom().insert(name@)
                &&& final(self).usual.storage.histograms_map()[name@].description@ == description@
                &&& final(self).usual.storage.counters_map() == old(
                    self,
                ).usual.storage.counters_map()
                &&& final(self).usual.storage.gauges_map() == old(self).usual.storage.gauges_map()
            }),
    {
        match &self.frozen {
            Some(f) => f.storage.describe_histogram(name, description),
            None => self.usual.storage.describe_histogram(name, description),
        }
    }
}

} // verus!
