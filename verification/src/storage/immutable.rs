//! The read-only snapshot of a mutable storage: the same name-to-bundle
//! lookup, with no way to register anything new.
//!
//! Built exactly once by draining a mutable storage; thereafter no name can
//! ever appear or disappear, though the help text of existing entries may
//! still change through their shared cells.

use vstd::prelude::*;

use crate::failure::RegistryError;
use crate::metric::{
    Describable, Gauge, Histogram, IntCounter, Key, PrometheusGauge, PrometheusHistogram,
    PrometheusIntCounter,
};

use crate::metric::{counter_resolution, gauge_resolution, histogram_resolution};

use super::mutable::{counter_entry_wf, gauge_entry_wf, histogram_entry_wf};
use super::Collection;

verus! {

/// The read-only image of a mutable table: exactly the entries whose bundle
/// was present, text-only entries dropped.
pub open spec fn snapshot_of<B>(m: Map<Seq<char>, Describable<Option<B>>>) -> Map<
    Seq<char>,
    Describable<B>,
> {
    Map::new(
        |n: Seq<char>| m.dom().contains(n) && m[n].metric is Some,
        |n: Seq<char>|
            Describable {
                description: m[n].description,
                cell: m[n].cell,
                metric: m[n].metric->0,
            },
    )
}

/// Turns a drained mutable table into its read-only image, keeping exactly
/// the entries that hold a bundle.
fn freeze_table<B>(src: Collection<Describable<Option<B>>>) -> (t: Collection<Describable<B>>)
    requires
        src.wf(),
    ensures
        t.wf(),
        t@ == snapshot_of(src@),
{
    let ghost m0 = src@;
    let mut drained = src;
    let mut kept: Collection<Describable<B>> = Collection::new();
    loop
        invariant
            drained.wf(),
            kept.wf(),
            snapshot_of(m0) =~= kept@.union_prefer_right(snapshot_of(drained@)),
        ensures
            kept@ == snapshot_of(m0),
        decreases drained@.dom().len(),
    {
        proof {
            drained.lemma_finite();
        }
        let ghost pre = drained@;
        let ghost kept0 = kept@;
        match drained.pop() {
            None => {
                proof {
                    assert(snapshot_of(drained@) =~= Map::<Seq<char>, Describable<B>>::empty());
                    assert(kept@.union_prefer_right(snapshot_of(drained@)) =~= kept@);
                }
                break ;
            },
            Some((name, e)) => {
                let ghost post = drained@;
                let Describable { description, cell, metric } = e;
                match metric {
                    Some(bundle) => {
                        kept.insert(name, Describable { description, cell, metric: bundle });
                        proof {
                            let v = snapshot_of(pre)[name@];
                            assert(kept@ =~= kept0.insert(name@, v));
                            assert(snapshot_of(pre) =~= snapshot_of(post).insert(name@, v));
                            assert(kept@.union_prefer_right(snapshot_of(post))
                                =~= kept0.union_prefer_right(snapshot_of(pre)));
                        }
                    },
                    None => {
                        proof {
                            assert(snapshot_of(post) =~= snapshot_of(pre));
                        }
                    },
                }
            },
        }
    }
    kept
}

/// The snapshot is complete and no larger than it should be: it holds
/// exactly the names whose entry had received a bundle, and each kept entry
/// carries the bundle and description that entry had at freeze time.
pub proof fn lemma_snapshot_completeness<B>(m: Map<Seq<char>, Describable<Option<B>>>, n: Seq<char>)
    ensures
        snapshot_of(m).dom().contains(n) <==> (m.dom().contains(n) && m[n].metric is Some),
        snapshot_of(m).dom().contains(n) ==> snapshot_of(m)[n].metric == m[n].metric->0
            && snapshot_of(m)[n].description == m[n].description && snapshot_of(m)[n].cell
            == m[n].cell,
{
}

/// Snapshot of a mutable storage: per-kind read-only tables offering the
/// same name-to-bundle lookup at a plain table access, without any
/// registration path.
pub struct Storage {
    /// Counters fixed at freeze time.
    counters: Collection<Describable<PrometheusIntCounter>>,
    /// Gauges fixed at freeze time.
    gauges: Collection<Describable<PrometheusGauge>>,
    /// Histograms fixed at freeze time.
    histograms: Collection<Describable<PrometheusHistogram>>,
}

impl Storage {
    /// The counter table, as the map it denotes.
    pub closed spec fn counters_map(self) -> Map<Seq<char>, Describable<PrometheusIntCounter>> {
        self.counters@
    }

    /// The gauge table, as the map it denotes.
    pub closed spec fn gauges_map(self) -> Map<Seq<char>, Describable<PrometheusGauge>> {
        self.gauges@
    }

    /// The histogram table, as the map it denotes.
    pub closed spec fn histograms_map(self) -> Map<Seq<char>, Describable<PrometheusHistogram>> {
        self.histograms@
    }

    /// Every table holds one entry per name and every entry is usable.
    pub closed spec fn wf(self) -> bool {
        &&& self.counters.wf()
        &&& self.gauges.wf()
        &&& self.histograms.wf()
        &&& forall|n: Seq<char>| #[trigger]
            self.counters@.dom().contains(n) ==> self.counters@[n].wf()
                && self.counters@[n].metric.wf()
        &&& forall|n: Seq<char>| #[trigger]
            self.gauges@.dom().contains(n) ==> self.gauges@[n].wf() && self.gauges@[n].metric.wf()
        &&& forall|n: Seq<char>| #[trigger]
            self.histograms@.dom().contains(n) ==> self.histograms@[n].wf()
                && self.histograms@[n].metric.wf()
    }

    /// Builds the snapshot by draining `source`, leaving it empty: each
    /// kind's table keeps exactly the names that had received a bundle,
    /// with their description, cell and bundle unchanged; text-only entries
    /// are dropped.
    pub fn from(source: &mut super::mutable::Storage) -> (s: Self)
        requires
            old(source).wf(),
        ensures
            final(source).wf(),
            final(source).spec_registry() == old(source).spec_registry(),
            final(source).counters_map() == Map::<
                Seq<char>,
                Describable<Option<PrometheusIntCounter>>,
            >::empty(),
            final(source).gauges_map() == Map::<
                Seq<char>,
                Describable<Option<PrometheusGauge>>,
            >::empty(),
            final(source).histograms_map() == Map::<
                Seq<char>,
                Describable<Option<PrometheusHistogram>>,
            >::empty(),
            s.wf(),
            s.counters_map() == snapshot_of(old(source).counters_map()),
            s.gauges_map() == snapshot_of(old(source).gauges_map()),
            s.histograms_map() == snapshot_of(old(source).histograms_map()),
    {
        let ghost c0 = old(source).counters_map();
        let ghost g0 = old(source).gauges_map();
        let ghost h0 = old(source).histograms_map();
        let counters = freeze_table(source.drain_counters());
        let gauges = freeze_table(source.drain_gauges());
        let histograms = freeze_table(source.drain_histograms());
        let s = Storage { counters, gauges, histograms };
        proof {
            assert forall|n: Seq<char>| #[trigger]
                s.counters@.dom().contains(n) implies s.counters@[n].wf()
                && s.counters@[n].metric.wf() by {
                assert(c0.dom().contains(n) && c0[n].metric is Some);
                assert(counter_entry_wf(c0[n]));
            }
            assert forall|n: Seq<char>| #[trigger]
                s.gauges@.dom().contains(n) implies s.gauges@[n].wf()
                && s.gauges@[n].metric.wf() by {
                assert(g0.dom().contains(n) && g0[n].metric is Some);
                assert(gauge_entry_wf(g0[n]));
            }
            assert forall|n: Seq<char>| #[trigger]
                s.histograms@.dom().contains(n) implies s.histograms@[n].wf()
                && s.histograms@[n].metric.wf() by {
                assert(h0.dom().contains(n) && h0[n].metric is Some);
                assert(histogram_entry_wf(h0[n]));
            }
        }
        s
    }

    /// Stores `description` into the cell of the entry under `name`, where
    /// the collector registered at registration time reads it at gather
    /// time; a name this snapshot does not hold is a no-op, since nothing
    /// new can appear after freezing.
    ///
    /// The snapshot itself is untouched: only the shared cell's contents
    /// change.
    pub fn describe_counter(&self, name: &str, description: String)
        requires
            self.wf(),
    {
        match self.counters.get(name) {
            Some(e) => e.cell.store(description),
            None => (),
        }
    }

    /// See [`Self::describe_counter`].
    pub fn describe_gauge(&self, name: &str, description: String)
        requires
            self.wf(),
    {
        match self.gauges.get(name) {
            Some(e) => e.cell.store(description),
            None => (),
        }
    }

    /// See [`Self::describe_counter`].
    pub fn describe_histogram(&self, name: &str, description: String)
        requires
            self.wf(),
    {
        match self.histograms.get(name) {
            Some(e) => e.cell.store(description),
            None => (),
        }
    }

    /// Resolves `key` against the counter table: `None` for a name never
    /// registered before the freeze — the caller falls back to an inert
    /// handle — and otherwise the resolution against the stored bundle.
    pub fn get_metric_counter(&self, key: &Key) -> (r: Option<Result<IntCounter, RegistryError>>)
        requires
            self.wf(),
        ensures
            ({
                let m = self.counters_map();
                match r {
                    Some(res) => m.dom().contains(key.name@) && counter_resolution(
                        m[key.name@].metric,
                        *key,
                        res,
                    ),
                    None => !m.dom().contains(key.name@),
                }
            }),
    {
        match self.counters.get(key.name.as_str()) {
            Some(e) => Some(e.metric.get_single_metric(key)),
            None => None,
        }
    }

    /// See [`Self::get_metric_counter`].
    pub fn get_metric_gauge(&self, key: &Key) -> (r: Option<Result<Gauge, RegistryError>>)
        requires
            self.wf(),
        ensures
            ({
                let m = self.gauges_map();
                match r {
                    Some(res) => m.dom().contains(key.name@) && gauge_resolution(
                        m[key.name@].metric,
                        *key,
                        res,
                    ),
                    None => !m.dom().contains(key.name@),
                }
            }),
    {
        match self.gauges.get(key.name.as_str()) {
            Some(e) => Some(e.metric.get_single_metric(key)),
            None => None,
        }
    }

    /// See [`Self::get_metric_counter`]; success is only owed when the
    /// family's buckets are known good.
    pub fn get_metric_histogram(&self, key: &Key) -> (r: Option<
        Result<Histogram, RegistryError>,
    >)
        requires
            self.wf(),
        ensures
            ({
                let m = self.histograms_map();
                match r {
                    Some(res) => m.dom().contains(key.name@) && histogram_resolution(
                        m[key.name@].metric,
                        *key,
                        res,
                    ),
                    None => !m.dom().contains(key.name@),
                }
            }),
    {
        match self.histograms.get(key.name.as_str()) {
            Some(e) => Some(e.metric.get_single_metric(key)),
            None => None,
        }
    }
}

impl super::Get<Collection<Describable<PrometheusIntCounter>>> for Storage {
    closed spec fn collection_spec(&self) -> Collection<Describable<PrometheusIntCounter>> {
        self.counters
    }

    fn collection(&self) -> (c: &Collection<Describable<PrometheusIntCounter>>) {
        &self.counters
    }
}

impl super::Get<Collection<Describable<PrometheusGauge>>> for Storage {
    closed spec fn collection_spec(&self) -> Collection<Describable<PrometheusGauge>> {
        self.gauges
    }

    fn collection(&self) -> (c: &Collection<Describable<PrometheusGauge>>) {
        &self.gauges
    }
}

impl super::Get<Collection<Describable<PrometheusHistogram>>> for Storage {
    closed spec fn collection_spec(&self) -> Collection<Describable<PrometheusHistogram>> {
        self.histograms
    }

    fn collection(&self) -> (c: &Collection<Describable<PrometheusHistogram>>) {
        &self.histograms
    }
}

} // verus!
