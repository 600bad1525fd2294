//! The growable storage backing a live recorder: per-kind tables from
//! metric name to bundle, lazily populated and registered with the client
//! registry exactly once per name.

use vstd::prelude::*;

use crate::failure::RegistryError;
use crate::metric::{
    bundle_creatable, counter_child_of, counter_resolution, gauge_child_of, gauge_resolution,
    histogram_child_of, histogram_resolution, label_map, label_names, lemma_label_map_empty,
    names_of, no_reserved_histogram_label, schema_values_of, Bundle, CounterFamily, Describable,
    Either, Gauge, GaugeFamily, Histogram, HistogramFamily, IntCounter, Key, PrometheusGauge,
    PrometheusHistogram, PrometheusIntCounter,
};

use super::{Collection, KeyName};

verus! {

#[verifier::external_type_specification]
#[verifier::external_body]
pub struct ExPrometheusRegistry(prometheus::Registry);

/// Relies on `prometheus::default_registry`: a handle to the process-wide
/// default registry.
#[verifier::external_body]
fn default_registry() -> prometheus::Registry {
    prometheus::default_registry().clone()
}

/// The help text a metric for `name` is created with: the description set
/// beforehand, or the name itself when none was set, since the client
/// library refuses empty help.
pub open spec fn help_of(description: Seq<char>, name: Seq<char>) -> Seq<char> {
    if description.len() > 0 {
        description
    } else {
        name
    }
}

/// A per-kind table entry is usable: its cell works and its bundle, if
/// present, is well-formed.
pub open spec fn counter_entry_wf(e: Describable<Option<PrometheusIntCounter>>) -> bool {
    e.wf() && (e.metric matches Some(b) ==> b.wf())
}

/// See [`counter_entry_wf`].
pub open spec fn gauge_entry_wf(e: Describable<Option<PrometheusGauge>>) -> bool {
    e.wf() && (e.metric matches Some(b) ==> b.wf())
}

/// See [`counter_entry_wf`].
pub open spec fn histogram_entry_wf(e: Describable<Option<PrometheusHistogram>>) -> bool {
    e.wf() && (e.metric matches Some(b) ==> b.wf())
}

/// The outcome of preparing a registration: either resolved from the table
/// alone, or a freshly built bundle that the caller must register with the
/// client registry before committing it.
pub enum Prepared<S, V> {
    /// Resolved without touching the client registry.
    Resolved(Result<S, RegistryError>),
    /// A fresh entry, built but not yet registered: register its collector
    /// with the client registry, then hand it to the matching `commit`
    /// function on success.
    MustRegister(Describable<Bundle<S, V>>),
}

/// The growable storage: three independent name-to-bundle tables, one per
/// metric kind, and the client registry new bundles are registered with.
///
/// Registration follows a prepare/commit protocol: `prepare_*` resolves
/// against the table or builds a fresh bundle, the caller registers the
/// fresh bundle's collector with the client registry, and `commit_*` makes
/// the bundle visible in the table only after that registration succeeded,
/// so a concurrent lookup never observes a bundle the registry does not
/// know.
pub struct Storage {
    /// The client registry backing this storage.
    registry: prometheus::Registry,
    /// Counters registered in this storage.
    counters: Collection<Describable<Option<PrometheusIntCounter>>>,
    /// Gauges registered in this storage.
    gauges: Collection<Describable<Option<PrometheusGauge>>>,
    /// Histograms registered in this storage.
    histograms: Collection<Describable<Option<PrometheusHistogram>>>,
}

impl Storage {
    /// The counter table, as the map it denotes.
    pub closed spec fn counters_map(self) -> Map<
        Seq<char>,
        Describable<Option<PrometheusIntCounter>>,
    > {
        self.counters@
    }

    /// The gauge table, as the map it denotes.
    pub closed spec fn gauges_map(self) -> Map<Seq<char>, Describable<Option<PrometheusGauge>>> {
        self.gauges@
    }

    /// The histogram table, as the map it denotes.
    pub closed spec fn histograms_map(self) -> Map<
        Seq<char>,
        Describable<Option<PrometheusHistogram>>,
    > {
        self.histograms@
    }

    /// The client registry backing this storage.
    pub closed spec fn spec_registry(self) -> prometheus::Registry {
        self.registry
    }

    /// Every table holds one entry per name and every entry is usable.
    pub closed spec fn wf(self) -> bool {
        &&& self.counters.wf()
        &&& self.gauges.wf()
        &&& self.histograms.wf()
        &&& forall|n: Seq<char>| #[trigger]
            self.counters@.dom().contains(n) ==> counter_entry_wf(self.counters@[n])
        &&& forall|n: Seq<char>| #[trigger]
            self.gauges@.dom().contains(n) ==> gauge_entry_wf(self.gauges@[n])
        &&& forall|n: Seq<char>| #[trigger]
            self.histograms@.dom().contains(n) ==> histogram_entry_wf(self.histograms@[n])
    }

    /// An empty storage over the given client registry.
    pub fn new(registry: prometheus::Registry) -> (s: Self)
        ensures
            s.wf(),
            s.spec_registry() == registry,
            s.counters_map() == Map::<Seq<char>, Describable<Option<PrometheusIntCounter>>>::empty(),
            s.gauges_map() == Map::<Seq<char>, Describable<Option<PrometheusGauge>>>::empty(),
            s.histograms_map() == Map::<
                Seq<char>,
                Describable<Option<PrometheusHistogram>>,
            >::empty(),
    {
        Storage {
            registry,
            counters: Collection::new(),
            gauges: Collection::new(),
            histograms: Collection::new(),
        }
    }

    /// Replaces the client registry; meant for a storage no bundle was
    /// registered in yet.
    pub fn set_registry(&mut self, registry: prometheus::Registry)
        requires
            old(self).wf(),
        ensures
            final(self).wf(),
            final(self).spec_registry() == registry,
            final(self).counters_map() == old(self).counters_map(),
            final(self).gauges_map() == old(self).gauges_map(),
            final(self).histograms_map() == old(self).histograms_map(),
    {
        self.registry = registry;
    }

    /// The client registry backing this storage.
    pub fn registry(&self) -> (r: &prometheus::Registry)
        ensures
            *r == self.spec_registry(),
    {
        &self.registry
    }
}

impl Storage {
    /// Idempotent upsert of the help text for `name` in the counter table:
    /// an existing entry keeps its metric and its cell and only the text
    /// changes; an absent name gets a text-only entry.
    pub fn describe_counter(&mut self, name: &str, description: String)
        requires
            old(self).wf(),
        ensures
            final(self).wf(),
            final(self).spec_registry() == old(self).spec_registry(),
            final(self).gauges_map() == old(self).gauges_map(),
            final(self).histograms_map() == old(self).histograms_map(),
            ({
                let m0 = old(self).counters_map();
                let m1 = final(self).counters_map();
                &&& m1.dom() == m0.dom().insert(name@)
                &&& m1[name@].description@ == description@
                &&& m1[name@].metric == (if m0.dom().contains(name@) {
                    m0[name@].metric
                } else {
                    Option::<PrometheusIntCounter>::None
                })
                &&& (m0.dom().contains(name@) ==> m1[name@].cell == m0[name@].cell)
                &&& forall|n: Seq<char>| #![auto]
                    m0.dom().contains(n) && n != name@ ==> m1[n] == m0[n]
            }),
    {
        match self.counters.remove(name) {
            Some(mut e) => {
                e.cell.store(description.clone());
                e.description = description;
                self.counters.insert(name.to_owned(), e);
                proof {
                    assert(final(self).counters_map() =~= old(self).counters_map().insert(
                        name@,
                        final(self).counters_map()[name@],
                    ));
                    assert(final(self).counters_map().dom() =~= old(
                        self,
                    ).counters_map().dom().insert(name@));
                }
            },
            None => {
                let e = Describable::only_description(description);
                self.counters.insert(name.to_owned(), e);
                proof {
                    assert(final(self).counters_map().dom() =~= old(
                        self,
                    ).counters_map().dom().insert(name@));
                }
            },
        }
    }

    /// The fast read path of register-or-get: resolves `key` against the
    /// counter table without constructing or registering anything.
    ///
    /// `None` asks the caller to take the write path ([`Self::prepare_counter`]).
    pub fn lookup_counter(&self, key: &Key) -> (r: Option<Result<IntCounter, RegistryError>>)
        requires
            self.wf(),
        ensures
            ({
                let m = self.counters_map();
                match r {
                    Some(res) => m.dom().contains(key.name@) && (m[key.name@].metric matches Some(
                        b,
                    ) && counter_resolution(b, *key, res)),
                    None => !m.dom().contains(key.name@) || m[key.name@].metric is None,
                }
            }),
    {
        match self.counters.get(key.name.as_str()) {
            Some(e) => match &e.metric {
                Some(b) => Some(b.get_single_metric(key)),
                None => None,
            },
            None => None,
        }
    }

    /// The write path of register-or-get, first half: re-checks the table
    /// (the caller may have raced another writer), and either resolves from
    /// the present bundle, or builds a fresh one for the caller to register
    /// with the client registry before committing it.
    ///
    /// A fresh bundle's help text is the entry's description when one was
    /// set before registration, else the metric name; its schema is the
    /// key's label names.  On a fresh name a bundle comes back exactly when
    /// the client library accepts that name, help and those label names;
    /// otherwise the client's rejection is resolved as a stored error.
    pub fn prepare_counter(&self, key: &Key) -> (r: Prepared<IntCounter, CounterFamily>)
        requires
            self.wf(),
        ensures
            ({
                let m = self.counters_map();
                let has = m.dom().contains(key.name@) && m[key.name@].metric is Some;
                &&& has ==> (r matches Prepared::Resolved(res) && counter_resolution(
                    m[key.name@].metric->0,
                    *key,
                    res,
                ))
                &&& (!has) ==> ({
                    let help = help_of(
                        if m.dom().contains(key.name@) {
                            m[key.name@].description@
                        } else {
                            Seq::<char>::empty()
                        },
                        key.name@,
                    );
                    r is MustRegister <==> bundle_creatable(*key, help)
                })
                &&& (!has) ==> match r {
                    Prepared::Resolved(res) => res matches Err(RegistryError::Prometheus(_)),
                    Prepared::MustRegister(d) => {
                        &&& d.wf()
                        &&& d.metric.wf()
                        &&& names_of(d.metric.schema@) == label_names(key.labels@)
                        &&& (d.metric.metric is Vec <==> key.labels@.len() > 0)
                        &&& d.metric.help@ == help_of(
                            if m.dom().contains(key.name@) {
                                m[key.name@].description@
                            } else {
                                Seq::<char>::empty()
                            },
                            key.name@,
                        )
                        &&& (m.dom().contains(key.name@) ==> d.description@
                            == m[key.name@].description@ && d.cell == m[key.name@].cell)
                        &&& (!m.dom().contains(key.name@) ==> d.description@.len() == 0)
                    },
                }
            }),
    {
        match self.counters.get(key.name.as_str()) {
            Some(e) => match &e.metric {
                Some(b) => Prepared::Resolved(b.get_single_metric(key)),
                None => {
                    let help = if e.description.as_str().is_empty() {
                        key.name.clone()
                    } else {
                        e.description.clone()
                    };
                    match Bundle::<IntCounter, CounterFamily>::from_key(key, help.as_str()) {
                        Ok(b) => Prepared::MustRegister(
                            Describable {
                                description: e.description.clone(),
                                cell: e.cell.clone(),
                                metric: b,
                            },
                        ),
                        Err(pe) => Prepared::Resolved(Err(RegistryError::Prometheus(pe))),
                    }
                },
            },
            None => {
                match Bundle::<IntCounter, CounterFamily>::from_key(key, key.name.as_str()) {
                    Ok(b) => Prepared::MustRegister(Describable::wrap(b)),
                    Err(pe) => Prepared::Resolved(Err(RegistryError::Prometheus(pe))),
                }
            },
        }
    }

    /// The write path of register-or-get, second half: after the caller
    /// tried to register the prepared entry's collector with the client
    /// registry, stores the bundle on success — only then does it become
    /// visible to lookups — and resolves the key against it; on failure the
    /// table is left exactly as it was.
    ///
    /// An entry already holding only a description keeps its text and its
    /// cell; the prepared entry's own cell is used only for a brand-new
    /// name.
    pub fn commit_counter(
        &mut self,
        key: &Key,
        d: Describable<PrometheusIntCounter>,
        outcome: Result<(), prometheus::Error>,
    ) -> (r: Result<IntCounter, RegistryError>)
        requires
            old(self).wf(),
            d.wf(),
            d.metric.wf(),
            !(old(self).counters_map().dom().contains(key.name@)
                && old(self).counters_map()[key.name@].metric is Some),
        ensures
            final(self).wf(),
            final(self).spec_registry() == old(self).spec_registry(),
            final(self).gauges_map() == old(self).gauges_map(),
            final(self).histograms_map() == old(self).histograms_map(),
            outcome matches Err(e) ==> ((*final(self) == *old(self)) && (r matches Err(
                RegistryError::Prometheus(pe),
            ) && pe == e)),
            outcome is Ok ==> ({
                let m0 = old(self).counters_map();
                let m1 = final(self).counters_map();
                &&& m1.dom() == m0.dom().insert(key.name@)
                &&& m1[key.name@].metric == Some(d.metric)
                &&& m1[key.name@].description@ == (if m0.dom().contains(key.name@) {
                    m0[key.name@].description@
                } else {
                    d.description@
                })
                &&& (m0.dom().contains(key.name@) ==> m1[key.name@].cell == m0[key.name@].cell)
                &&& (!m0.dom().contains(key.name@) ==> m1[key.name@].cell == d.cell)
                &&& forall|n: Seq<char>| #![auto]
                    m0.dom().contains(n) && n != key.name@ ==> m1[n] == m0[n]
                &&& counter_resolution(d.metric, *key, r)
            }),
    {
        match outcome {
            Err(e) => Err(RegistryError::Prometheus(e)),
            Ok(_) => {
                let res = d.metric.get_single_metric(key);
                let Describable { description, cell, metric } = d;
                let entry = match self.counters.remove(key.name.as_str()) {
                    Some(mut e) => {
                        e.metric = Some(metric);
                        e
                    },
                    None => Describable { description, cell, metric: Some(metric) },
                };
                self.counters.insert(key.name.clone(), entry);
                proof {
                    assert(final(self).counters_map().dom() =~= old(
                        self,
                    ).counters_map().dom().insert(key.name@));
                }
                res
            },
        }
    }

    /// Puts a user-supplied, already-registered counter bundle into the
    /// table under `name`, replacing any entry already there.
    ///
    /// As with the prepare/commit protocol, the caller registers the
    /// entry's collector with the client registry first and inserts only on
    /// success.
    pub fn insert_external_counter(&mut self, name: KeyName, d: Describable<PrometheusIntCounter>)
        requires
            old(self).wf(),
            d.wf(),
            d.metric.wf(),
        ensures
            final(self).wf(),
            final(self).spec_registry() == old(self).spec_registry(),
            final(self).gauges_map() == old(self).gauges_map(),
            final(self).histograms_map() == old(self).histograms_map(),
            final(self).counters_map() == old(self).counters_map().insert(
                name@,
                (Describable { description: d.description, cell: d.cell, metric: Some(d.metric) }),
            ),
    {
        let Describable { description, cell, metric } = d;
        self.counters.insert(name, Describable { description, cell, metric: Some(metric) });
    }
}

impl Storage {
    /// Idempotent upsert of the help text for `name` in the gauge table:
    /// an existing entry keeps its metric and its cell and only the text
    /// changes; an absent name gets a text-only entry.
    pub fn describe_gauge(&mut self, name: &str, description: String)
        requires
            old(self).wf(),
        ensures
            final(self).wf(),
            final(self).spec_registry() == old(self).spec_registry(),
            final(self).counters_map() == old(self).counters_map(),
            final(self).histograms_map() == old(self).histograms_map(),
            ({
                let m0 = old(self).gauges_map();
                let m1 = final(self).gauges_map();
                &&& m1.dom() == m0.dom().insert(name@)
                &&& m1[name@].description@ == description@
                &&& m1[name@].metric == (if m0.dom().contains(name@) {
                    m0[name@].metric
                } else {
                    Option::<PrometheusGauge>::None
                })
                &&& (m0.dom().contains(name@) ==> m1[name@].cell == m0[name@].cell)
                &&& forall|n: Seq<char>| #![auto]
                    m0.dom().contains(n) && n != name@ ==> m1[n] == m0[n]
            }),
    {
        match self.gauges.remove(name) {
            Some(mut e) => {
                e.cell.store(description.clone());
                e.description = description;
                self.gauges.insert(name.to_owned(), e);
                proof {
                    assert(final(self).gauges_map() =~= old(self).gauges_map().insert(
                        name@,
                        final(self).gauges_map()[name@],
                    ));
                    assert(final(self).gauges_map().dom() =~= old(
                        self,
                    ).gauges_map().dom().insert(name@));
                }
            },
            None => {
                let e = Describable::only_description(description);
                self.gauges.insert(name.to_owned(), e);
                proof {
                    assert(final(self).gauges_map().dom() =~= old(
                        self,
                    ).gauges_map().dom().insert(name@));
                }
            },
        }
    }

    /// The fast read path of register-or-get: resolves `key` against the
    /// gauge table without constructing or registering anything.
    ///
    /// `None` asks the caller to take the write path ([`Self::prepare_gauge`]).
    pub fn lookup_gauge(&self, key: &Key) -> (r: Option<Result<Gauge, RegistryError>>)
        requires
            self.wf(),
        ensures
            ({
                let m = self.gauges_map();
                match r {
                    Some(res) => m.dom().contains(key.name@) && (m[key.name@].metric matches Some(
                        b,
                    ) && gauge_resolution(b, *key, res)),
                    None => !m.dom().contains(key.name@) || m[key.name@].metric is None,
                }
            }),
    {
        match self.gauges.get(key.name.as_str()) {
            Some(e) => match &e.metric {
                Some(b) => Some(b.get_single_metric(key)),
                None => None,
            },
            None => None,
        }
    }

    /// The write path of register-or-get, first half: re-checks the table
    /// (the caller may have raced another writer), and either resolves from
    /// the present bundle, or builds a fresh one for the caller to register
    /// with the client registry before committing it.
    ///
    /// A fresh bundle's help text is the entry's description when one was
    /// set before registration, else the metric name; its schema is the
    /// key's label names.  On a fresh name a bundle comes back exactly when
    /// the client library accepts that name, help and those label names;
    /// otherwise the client's rejection is resolved as a stored error.
    pub fn prepare_gauge(&self, key: &Key) -> (r: Prepared<Gauge, GaugeFamily>)
        requires
            self.wf(),
        ensures
            ({
                let m = self.gauges_map();
                let has = m.dom().contains(key.name@) && m[key.name@].metric is Some;
                &&& has ==> (r matches Prepared::Resolved(res) && gauge_resolution(
                    m[key.name@].metric->0,
                    *key,
                    res,
                ))
                &&& (!has) ==> ({
                    let help = help_of(
                        if m.dom().contains(key.name@) {
                            m[key.name@].description@
                        } else {
                            Seq::<char>::empty()
                        },
                        key.name@,
                    );
                    r is MustRegister <==> bundle_creatable(*key, help)
                })
                &&& (!has) ==> match r {
                    Prepared::Resolved(res) => res matches Err(RegistryError::Prometheus(_)),
                    Prepared::MustRegister(d) => {
                        &&& d.wf()
                        &&& d.metric.wf()
                        &&& names_of(d.metric.schema@) == label_names(key.labels@)
                        &&& (d.metric.metric is Vec <==> key.labels@.len() > 0)
                        &&& d.metric.help@ == help_of(
                            if m.dom().contains(key.name@) {
                                m[key.name@].description@
                            } else {
                                Seq::<char>::empty()
                            },
                            key.name@,
                        )
                        &&& (m.dom().contains(key.name@) ==> d.description@
                            == m[key.name@].description@ && d.cell == m[key.name@].cell)
                        &&& (!m.dom().contains(key.name@) ==> d.description@.len() == 0)
                    },
                }
            }),
    {
        match self.gauges.get(key.name.as_str()) {
            Some(e) => match &e.metric {
                Some(b) => Prepared::Resolved(b.get_single_metric(key)),
                None => {
                    let help = if e.description.as_str().is_empty() {
                        key.name.clone()
                    } else {
                        e.description.clone()
                    };
                    match Bundle::<Gauge, GaugeFamily>::from_key(key, help.as_str()) {
                        Ok(b) => Prepared::MustRegister(
                            Describable {
                                description: e.description.clone(),
                                cell: e.cell.clone(),
                                metric: b,
                            },
                        ),
                        Err(pe) => Prepared::Resolved(Err(RegistryError::Prometheus(pe))),
                    }
                },
            },
            None => {
                match Bundle::<Gauge, GaugeFamily>::from_key(key, key.name.as_str()) {
                    Ok(b) => Prepared::MustRegister(Describable::wrap(b)),
                    Err(pe) => Prepared::Resolved(Err(RegistryError::Prometheus(pe))),
                }
            },
        }
    }

    /// The write path of register-or-get, second half: after the caller
    /// tried to register the prepared entry's collector with the client
    /// registry, stores the bundle on success — only then does it become
    /// visible to lookups — and resolves the key against it; on failure the
    /// table is left exactly as it was.
    ///
    /// An entry already holding only a description keeps its text and its
    /// cell; the prepared entry's own cell is used only for a brand-new
    /// name.
    pub fn commit_gauge(
        &mut self,
        key: &Key,
        d: Describable<PrometheusGauge>,
        outcome: Result<(), prometheus::Error>,
    ) -> (r: Result<Gauge, RegistryError>)
        requires
            old(self).wf(),
            d.wf(),
            d.metric.wf(),
            !(old(self).gauges_map().dom().contains(key.name@)
                && old(self).gauges_map()[key.name@].metric is Some),
        ensures
            final(self).wf(),
            final(self).spec_registry() == old(self).spec_registry(),
            final(self).counters_map() == old(self).counters_map(),
            final(self).histograms_map() == old(self).histograms_map(),
            outcome matches Err(e) ==> ((*final(self) == *old(self)) && (r matches Err(
                RegistryError::Prometheus(pe),
            ) && pe == e)),
            outcome is Ok ==> ({
                let m0 = old(self).gauges_map();
                let m1 = final(self).gauges_map();
                &&& m1.dom() == m0.dom().insert(key.name@)
                &&& m1[key.name@].metric == Some(d.metric)
                &&& m1[key.name@].description@ == (if m0.dom().contains(key.name@) {
                    m0[key.name@].description@
                } else {
                    d.description@
                })
                &&& (m0.dom().contains(key.name@) ==> m1[key.name@].cell == m0[key.name@].cell)
                &&& (!m0.dom().contains(key.name@) ==> m1[key.name@].cell == d.cell)
                &&& forall|n: Seq<char>| #![auto]
                    m0.dom().contains(n) && n != key.name@ ==> m1[n] == m0[n]
                &&& gauge_resolution(d.metric, *key, r)
            }),
    {
        match outcome {
            Err(e) => Err(RegistryError::Prometheus(e)),
            Ok(_) => {
                let res = d.metric.get_single_metric(key);
                let Describable { description, cell, metric } = d;
                let entry = match self.gauges.remove(key.name.as_str()) {
                    Some(mut e) => {
                        e.metric = Some(metric);
                        e
                    },
                    None => Describable { description, cell, metric: Some(metric) },
                };
                self.gauges.insert(key.name.clone(), entry);
                proof {
                    assert(final(self).gauges_map().dom() =~= old(
                        self,
                    ).gauges_map().dom().insert(key.name@));
                }
                res
            },
        }
    }

    /// Puts a user-supplied, already-registered gauge bundle into the
    /// table under `name`, replacing any entry already there.
    ///
    /// As with the prepare/commit protocol, the caller registers the
    /// entry's collector with the client registry first and inserts only on
    /// success.
    pub fn insert_external_gauge(&mut self, name: KeyName, d: Describable<PrometheusGauge>)
        requires
            old(self).wf(),
            d.wf(),
            d.metric.wf(),
        ensures
            final(self).wf(),
            final(self).spec_registry() == old(self).spec_registry(),
            final(self).counters_map() == old(self).counters_map(),
            final(self).histograms_map() == old(self).histograms_map(),
            final(self).gauges_map() == old(self).gauges_map().insert(
                name@,
                (Describable { description: d.description, cell: d.cell, metric: Some(d.metric) }),
            ),
    {
        let Describable { description, cell, metric } = d;
        self.gauges.insert(name, Describable { description, cell, metric: Some(metric) });
    }
}

impl Storage {
    /// Idempotent upsert of the help text for `name` in the histogram table:
    /// an existing entry keeps its metric and its cell and only the text
    /// changes; an absent name gets a text-only entry.
    pub fn describe_histogram(&mut self, name: &str, description: String)
        requires
            old(self).wf(),
        ensures
            final(self).wf(),
            final(self).spec_registry() == old(self).spec_registry(),
            final(self).counters_map() == old(self).counters_map(),
            final(self).gauges_map() == old(self).gauges_map(),
            ({
                let m0 = old(self).histograms_map();
                let m1 = final(self).histograms_map();
                &&& m1.dom() == m0.dom().insert(name@)
                &&& m1[name@].description@ == description@
                &&& m1[name@].metric == (if m0.dom().contains(name@) {
                    m0[name@].metric
                } else {
                    Option::<PrometheusHistogram>::None
                })
                &&& (m0.dom().contains(name@) ==> m1[name@].cell == m0[name@].cell)
                &&& forall|n: Seq<char>| #![auto]
                    m0.dom().contains(n) && n != name@ ==> m1[n] == m0[n]
            }),
    {
        match self.histograms.remove(name) {
            Some(mut e) => {
                e.cell.store(description.clone());
                e.description = description;
                self.histograms.insert(name.to_owned(), e);
                proof {
                    assert(final(self).histograms_map() =~= old(self).histograms_map().insert(
                        name@,
                        final(self).histograms_map()[name@],
                    ));
                    assert(final(self).histograms_map().dom() =~= old(
                        self,
                    ).histograms_map().dom().insert(name@));
                }
            },
            None => {
                let e = Describable::only_description(description);
                self.histograms.insert(name.to_owned(), e);
                proof {
                    assert(final(self).histograms_map().dom() =~= old(
                        self,
                    ).histograms_map().dom().insert(name@));
                }
            },
        }
    }

    /// The fast read path of register-or-get: resolves `key` against the
    /// histogram table without constructing or registering anything.
    ///
    /// `None` asks the caller to take the write path ([`Self::prepare_histogram`]).
    pub fn lookup_histogram(&self, key: &Key) -> (r: Option<Result<Histogram, RegistryError>>)
        requires
            self.wf(),
        ensures
            ({
                let m = self.histograms_map();
                match r {
                    Some(res) => m.dom().contains(key.name@) && (m[key.name@].metric matches Some(
                        b,
                    ) && histogram_resolution(b, *key, res)),
                    None => !m.dom().contains(key.name@) || m[key.name@].metric is None,
                }
            }),
    {
        match self.histograms.get(key.name.as_str()) {
            Some(e) => match &e.metric {
                Some(b) => Some(b.get_single_metric(key)),
                None => None,
            },
            None => None,
        }
    }

    /// The write path of register-or-get, first half: re-checks the table
    /// (the caller may have raced another writer), and either resolves from
    /// the present bundle, or builds a fresh one for the caller to register
    /// with the client registry before committing it.
    ///
    /// A fresh bundle's help text is the entry's description when one was
    /// set before registration, else the metric name; its schema is the
    /// key's label names.  On a fresh name a bundle comes back exactly when
    /// the client library accepts that name, help and those label names;
    /// otherwise the client's rejection is resolved as a stored error.
    pub fn prepare_histogram(&self, key: &Key) -> (r: Prepared<Histogram, HistogramFamily>)
        requires
            self.wf(),
        ensures
            ({
                let m = self.histograms_map();
                let has = m.dom().contains(key.name@) && m[key.name@].metric is Some;
                &&& has ==> (r matches Prepared::Resolved(res) && histogram_resolution(
                    m[key.name@].metric->0,
                    *key,
                    res,
                ))
                &&& (!has) ==> ({
                    let help = help_of(
                        if m.dom().contains(key.name@) {
                            m[key.name@].description@
                        } else {
                            Seq::<char>::empty()
                        },
                        key.name@,
                    );
                    r is MustRegister <==> bundle_creatable(*key, help)
                })
                &&& (!has) ==> match r {
                    Prepared::Resolved(res) => res matches Err(RegistryError::Prometheus(_)),
                    Prepared::MustRegister(d) => {
                        &&& d.wf()
                        &&& d.metric.wf()
                        &&& (no_reserved_histogram_label(key.labels@) ==> d.metric.children_ok())
                        &&& names_of(d.metric.schema@) == label_names(key.labels@)
                        &&& (d.metric.metric is Vec <==> key.labels@.len() > 0)
                        &&& d.metric.help@ == help_of(
                            if m.dom().contains(key.name@) {
                                m[key.name@].description@
                            } else {
                                Seq::<char>::empty()
                            },
                            key.name@,
                        )
                        &&& (m.dom().contains(key.name@) ==> d.description@
                            == m[key.name@].description@ && d.cell == m[key.name@].cell)
                        &&& (!m.dom().contains(key.name@) ==> d.description@.len() == 0)
                    },
                }
            }),
    {
        match self.histograms.get(key.name.as_str()) {
            Some(e) => match &e.metric {
                Some(b) => Prepared::Resolved(b.get_single_metric(key)),
                None => {
                    let help = if e.description.as_str().is_empty() {
                        key.name.clone()
                    } else {
                        e.description.clone()
                    };
                    match Bundle::<Histogram, HistogramFamily>::from_key(key, help.as_str()) {
                        Ok(b) => Prepared::MustRegister(
                            Describable {
                                description: e.description.clone(),
                                cell: e.cell.clone(),
                                metric: b,
                            },
                        ),
                        Err(pe) => Prepared::Resolved(Err(RegistryError::Prometheus(pe))),
                    }
                },
            },
            None => {
                match Bundle::<Histogram, HistogramFamily>::from_key(key, key.name.as_str()) {
                    Ok(b) => Prepared::MustRegister(Describable::wrap(b)),
                    Err(pe) => Prepared::Resolved(Err(RegistryError::Prometheus(pe))),
                }
            },
        }
    }

    /// The write path of register-or-get, second half: after the caller
    /// tried to register the prepared entry's collector with the client
    /// registry, stores the bundle on success — only then does it become
    /// visible to lookups — and resolves the key against it; on failure the
    /// table is left exactly as it was.
    ///
    /// An entry already holding only a description keeps its text and its
    /// cell; the prepared entry's own cell is used only for a brand-new
    /// name.
    pub fn commit_histogram(
        &mut self,
        key: &Key,
        d: Describable<PrometheusHistogram>,
        outcome: Result<(), prometheus::Error>,
    ) -> (r: Result<Histogram, RegistryError>)
        requires
            old(self).wf(),
            d.wf(),
            d.metric.wf(),
            !(old(self).histograms_map().dom().contains(key.name@)
                && old(self).histograms_map()[key.name@].metric is Some),
        ensures
            final(self).wf(),
            final(self).spec_registry() == old(self).spec_registry(),
            final(self).counters_map() == old(self).counters_map(),
            final(self).gauges_map() == old(self).gauges_map(),
            outcome matches Err(e) ==> ((*final(self) == *old(self)) && (r matches Err(
                RegistryError::Prometheus(pe),
            ) && pe == e)),
            outcome is Ok ==> ({
                let m0 = old(self).histograms_map();
                let m1 = final(self).histograms_map();
                &&& m1.dom() == m0.dom().insert(key.name@)
                &&& m1[key.name@].metric == Some(d.metric)
                &&& m1[key.name@].description@ == (if m0.dom().contains(key.name@) {
                    m0[key.name@].description@
                } else {
                    d.description@
                })
                &&& (m0.dom().contains(key.name@) ==> m1[key.name@].cell == m0[key.name@].cell)
                &&& (!m0.dom().contains(key.name@) ==> m1[key.name@].cell == d.cell)
                &&& forall|n: Seq<char>| #![auto]
                    m0.dom().contains(n) && n != key.name@ ==> m1[n] == m0[n]
                &&& histogram_resolution(d.metric, *key, r)
            }),
    {
        match outcome {
            Err(e) => Err(RegistryError::Prometheus(e)),
            Ok(_) => {
                let res = d.metric.get_single_metric(key);
                let Describable { description, cell, metric } = d;
                let entry = match self.histograms.remove(key.name.as_str()) {
                    Some(mut e) => {
                        e.metric = Some(metric);
                        e
                    },
                    None => Describable { description, cell, metric: Some(metric) },
                };
                self.histograms.insert(key.name.clone(), entry);
                proof {
                    assert(final(self).histograms_map().dom() =~= old(
                        self,
                    ).histograms_map().dom().insert(key.name@));
                }
                res
            },
        }
    }

    /// Puts a user-supplied, already-registered histogram bundle into the
    /// table under `name`, replacing any entry already there.
    ///
    /// As with the prepare/commit protocol, the caller registers the
    /// entry's collector with the client registry first and inserts only on
    /// success.
    pub fn insert_external_histogram(&mut self, name: KeyName, d: Describable<PrometheusHistogram>)
        requires
            old(self).wf(),
            d.wf(),
            d.metric.wf(),
        ensures
            final(self).wf(),
            final(self).spec_registry() == old(self).spec_registry(),
            final(self).counters_map() == old(self).counters_map(),
            final(self).gauges_map() == old(self).gauges_map(),
            final(self).histograms_map() == old(self).histograms_map().insert(
                name@,
                (Describable { description: d.description, cell: d.cell, metric: Some(d.metric) }),
            ),
    {
        let Describable { description, cell, metric } = d;
        self.histograms.insert(name, Describable { description, cell, metric: Some(metric) });
    }
}

impl Storage {
    /// Removes and returns the whole counter table, leaving it empty; the
    /// entries keep the shape the storage maintained.
    pub fn drain_counters(&mut self) -> (t: Collection<Describable<Option<PrometheusIntCounter>>>)
        requires
            old(self).wf(),
        ensures
            final(self).wf(),
            final(self).spec_registry() == old(self).spec_registry(),
            final(self).counters_map() == Map::<Seq<char>, Describable<Option<PrometheusIntCounter>>>::empty(),
            final(self).gauges_map() == old(self).gauges_map(),
            final(self).histograms_map() == old(self).histograms_map(),
            t.wf(),
            t@ == old(self).counters_map(),
            forall|n: Seq<char>| #[trigger] t@.dom().contains(n) ==> counter_entry_wf(t@[n]),
    {
        self.counters.take()
    }

    /// Removes and returns the whole gauge table, leaving it empty; the
    /// entries keep the shape the storage maintained.
    pub fn drain_gauges(&mut self) -> (t: Collection<Describable<Option<PrometheusGauge>>>)
        requires
            old(self).wf(),
        ensures
            final(self).wf(),
            final(self).spec_registry() == old(self).spec_registry(),
            final(self).gauges_map() == Map::<Seq<char>, Describable<Option<PrometheusGauge>>>::empty(),
            final(self).counters_map() == old(self).counters_map(),
            final(self).histograms_map() == old(self).histograms_map(),
            t.wf(),
            t@ == old(self).gauges_map(),
            forall|n: Seq<char>| #[trigger] t@.dom().contains(n) ==> gauge_entry_wf(t@[n]),
    {
        self.gauges.take()
    }

    /// Removes and returns the whole histogram table, leaving it empty; the
    /// entries keep the shape the storage maintained.
    pub fn drain_histograms(&mut self) -> (t: Collection<Describable<Option<PrometheusHistogram>>>)
        requires
            old(self).wf(),
        ensures
            final(self).wf(),
            final(self).spec_registry() == old(self).spec_registry(),
            final(self).histograms_map() == Map::<Seq<char>, Describable<Option<PrometheusHistogram>>>::empty(),
            final(self).counters_map() == old(self).counters_map(),
            final(self).gauges_map() == old(self).gauges_map(),
            t.wf(),
            t@ == old(self).histograms_map(),
            forall|n: Seq<char>| #[trigger] t@.dom().contains(n) ==> histogram_entry_wf(t@[n]),
    {
        self.histograms.take()
    }
}

/// Resolution is a function of the stored bundle and the key alone, so
/// repeated register-or-get calls for one name and key agree: they succeed
/// together and hand out the same handle every time — the stored single,
/// or the same family child.
pub proof fn lemma_repeated_resolution_agrees(
    b: PrometheusIntCounter,
    key: Key,
    res1: Result<IntCounter, RegistryError>,
    res2: Result<IntCounter, RegistryError>,
)
    requires
        counter_resolution(b, key, res1),
        counter_resolution(b, key, res2),
    ensures
        res1 is Ok <==> res2 is Ok,
        res1 matches Ok(m1) ==> (res2 matches Ok(m2) ==> m1 == m2),
{
    match b.metric {
        Either::Single(c) => {
            assert(res1 matches Ok(m1) ==> m1 == c);
            assert(res2 matches Ok(m2) ==> m2 == c);
        },
        Either::Vec(v) => {
            let values = schema_values_of(names_of(b.schema@), key.labels@);
            assert(res1 matches Ok(m1) ==> m1 == counter_child_of(v, values));
            assert(res2 matches Ok(m2) ==> m2 == counter_child_of(v, values));
        },
    }
}

/// Two keys carrying the same label assignment — the same name-to-value
/// map, whatever the order and repetition of their labels — resolve alike
/// against one counter bundle: they succeed together, and a success hands
/// both the same stored single or the same family child.
pub proof fn lemma_label_order_irrelevant_counter(
    b: PrometheusIntCounter,
    key1: Key,
    key2: Key,
    res1: Result<IntCounter, RegistryError>,
    res2: Result<IntCounter, RegistryError>,
)
    requires
        counter_resolution(b, key1, res1),
        counter_resolution(b, key2, res2),
        label_map(key1.labels@) == label_map(key2.labels@),
    ensures
        res1 is Ok <==> res2 is Ok,
        res1 matches Ok(m1) ==> (res2 matches Ok(m2) ==> m1 == m2),
{
    lemma_label_map_empty(key1.labels@);
    lemma_label_map_empty(key2.labels@);
    match b.metric {
        Either::Single(c) => {
            assert(res1 matches Ok(m1) ==> m1 == c);
            assert(res2 matches Ok(m2) ==> m2 == c);
        },
        Either::Vec(v) => {
            let values1 = schema_values_of(names_of(b.schema@), key1.labels@);
            let values2 = schema_values_of(names_of(b.schema@), key2.labels@);
            assert(values1 =~= values2);
            assert(res1 matches Ok(m1) ==> m1 == counter_child_of(v, values1));
            assert(res2 matches Ok(m2) ==> m2 == counter_child_of(v, values2));
        },
    }
}

/// See [`lemma_label_order_irrelevant_counter`].
pub proof fn lemma_label_order_irrelevant_gauge(
    b: PrometheusGauge,
    key1: Key,
    key2: Key,
    res1: Result<Gauge, RegistryError>,
    res2: Result<Gauge, RegistryError>,
)
    requires
        gauge_resolution(b, key1, res1),
        gauge_resolution(b, key2, res2),
        label_map(key1.labels@) == label_map(key2.labels@),
    ensures
        res1 is Ok <==> res2 is Ok,
        res1 matches Ok(m1) ==> (res2 matches Ok(m2) ==> m1 == m2),
{
    lemma_label_map_empty(key1.labels@);
    lemma_label_map_empty(key2.labels@);
    match b.metric {
        Either::Single(c) => {
            assert(res1 matches Ok(m1) ==> m1 == c);
            assert(res2 matches Ok(m2) ==> m2 == c);
        },
        Either::Vec(v) => {
            let values1 = schema_values_of(names_of(b.schema@), key1.labels@);
            let values2 = schema_values_of(names_of(b.schema@), key2.labels@);
            assert(values1 =~= values2);
            assert(res1 matches Ok(m1) ==> m1 == gauge_child_of(v, values1));
            assert(res2 matches Ok(m2) ==> m2 == gauge_child_of(v, values2));
        },
    }
}

/// See [`lemma_label_order_irrelevant_counter`]; two successes still share
/// the instance, but success itself is only owed together when the
/// family's child-build validation is known to pass.
pub proof fn lemma_label_order_irrelevant_histogram(
    b: PrometheusHistogram,
    key1: Key,
    key2: Key,
    res1: Result<Histogram, RegistryError>,
    res2: Result<Histogram, RegistryError>,
)
    requires
        histogram_resolution(b, key1, res1),
        histogram_resolution(b, key2, res2),
        label_map(key1.labels@) == label_map(key2.labels@),
    ensures
        b.children_ok() ==> (res1 is Ok <==> res2 is Ok),
        res1 matches Ok(m1) ==> (res2 matches Ok(m2) ==> m1 == m2),
{
    lemma_label_map_empty(key1.labels@);
    lemma_label_map_empty(key2.labels@);
    match b.metric {
        Either::Single(c) => {
            assert(res1 matches Ok(m1) ==> m1 == c);
            assert(res2 matches Ok(m2) ==> m2 == c);
        },
        Either::Vec(v) => {
            let values1 = schema_values_of(names_of(b.schema@), key1.labels@);
            let values2 = schema_values_of(names_of(b.schema@), key2.labels@);
            assert(values1 =~= values2);
            assert(res1 matches Ok(m1) ==> m1 == histogram_child_of(v, values1));
            assert(res2 matches Ok(m2) ==> m2 == histogram_child_of(v, values2));
        },
    }
}

/// A description set before any registration takes precedence over the
/// name-as-help fallback: the first registration for the name is created
/// with it.
pub proof fn lemma_help_text_precedence(description: Seq<char>, name: Seq<char>)
    requires
        description.len() > 0,
    ensures
        help_of(description, name) == description,
{
}

impl super::Get<Collection<Describable<Option<PrometheusIntCounter>>>> for Storage {
    closed spec fn collection_spec(&self) -> Collection<Describable<Option<PrometheusIntCounter>>> {
        self.counters
    }

    fn collection(&self) -> (c: &Collection<Describable<Option<PrometheusIntCounter>>>) {
        &self.counters
    }
}

impl super::Get<Collection<Describable<Option<PrometheusGauge>>>> for Storage {
    closed spec fn collection_spec(&self) -> Collection<Describable<Option<PrometheusGauge>>> {
        self.gauges
    }

    fn collection(&self) -> (c: &Collection<Describable<Option<PrometheusGauge>>>) {
        &self.gauges
    }
}

impl super::Get<Collection<Describable<Option<PrometheusHistogram>>>> for Storage {
    closed spec fn collection_spec(&self) -> Collection<Describable<Option<PrometheusHistogram>>> {
        self.histograms
    }

    fn collection(&self) -> (c: &Collection<Describable<Option<PrometheusHistogram>>>) {
        &self.histograms
    }
}

impl Default for Storage {
    /// An empty storage over the process-wide default registry.
    fn default() -> (s: Self)
        ensures
            s.wf(),
            s.counters_map() == Map::<Seq<char>, Describable<Option<PrometheusIntCounter>>>::empty(),
            s.gauges_map() == Map::<Seq<char>, Describable<Option<PrometheusGauge>>>::empty(),
            s.histograms_map() == Map::<
                Seq<char>,
                Describable<Option<PrometheusHistogram>>,
            >::empty(),
    {
        Storage::new(default_registry())
    }
}

} // verus!
