//! Machinery around the client library's metrics: keys and labels as this
//! crate models them, bundles of a single metric or a label-parameterized
//! family, and the shared help-text cell.

use vstd::prelude::*;
use vstd::seq_lib::*;
use vstd::set_lib::lemma_subset_equality;

use crate::failure::RegistryError;

verus! {

/// A single counter of the client library.
///
/// The client library's metric types are generic over atomics and builder
/// types bounded by its own traits, which cannot be mirrored in a type
/// declaration here, so each of the six metric shapes is held opaquely in a
/// struct of this crate.  The fields stay public so that unverified
/// embedding code can wrap and unwrap the raw metrics.
#[verifier::external_body]
pub struct IntCounter {
    /// The client library's counter.
    pub metric: prometheus::IntCounter,
}

impl Clone for IntCounter {
    /// Relies on the metric's `Clone`: the clone is a handle to the same
    /// underlying counter value.
    #[verifier::external_body]
    fn clone(&self) -> (r: Self)
        ensures
            r == *self,
    {
        IntCounter { metric: self.metric.clone() }
    }
}

/// A single gauge of the client library; see [`IntCounter`].
#[verifier::external_body]
pub struct Gauge {
    /// The client library's gauge.
    pub metric: prometheus::Gauge,
}

impl Clone for Gauge {
    /// Relies on the metric's `Clone`: the clone is a handle to the same
    /// underlying gauge value.
    #[verifier::external_body]
    fn clone(&self) -> (r: Self)
        ensures
            r == *self,
    {
        Gauge { metric: self.metric.clone() }
    }
}

/// A single histogram of the client library; see [`IntCounter`].
#[verifier::external_body]
pub struct Histogram {
    /// The client library's histogram.
    pub metric: prometheus::Histogram,
}

impl Clone for Histogram {
    /// Relies on the metric's `Clone`: the clone is a handle to the same
    /// underlying histogram value.
    #[verifier::external_body]
    fn clone(&self) -> (r: Self)
        ensures
            r == *self,
    {
        Histogram { metric: self.metric.clone() }
    }
}

/// A family of counters partitioned by label values; see [`IntCounter`].
#[verifier::external_body]
pub struct CounterFamily {
    /// The client library's counter family.
    pub vec: prometheus::IntCounterVec,
}

impl Clone for CounterFamily {
    /// Relies on the family's `Clone`: the clone is a handle to the same
    /// underlying family.
    #[verifier::external_body]
    fn clone(&self) -> (r: Self)
        ensures
            r == *self,
    {
        CounterFamily { vec: self.vec.clone() }
    }
}

/// A family of gauges partitioned by label values; see [`IntCounter`].
#[verifier::external_body]
pub struct GaugeFamily {
    /// The client library's gauge family.
    pub vec: prometheus::GaugeVec,
}

impl Clone for GaugeFamily {
    /// Relies on the family's `Clone`: the clone is a handle to the same
    /// underlying family.
    #[verifier::external_body]
    fn clone(&self) -> (r: Self)
        ensures
            r == *self,
    {
        GaugeFamily { vec: self.vec.clone() }
    }
}

/// A family of histograms partitioned by label values; see
/// [`IntCounter`].
#[verifier::external_body]
pub struct HistogramFamily {
    /// The client library's histogram family.
    pub vec: prometheus::HistogramVec,
}

impl Clone for HistogramFamily {
    /// Relies on the family's `Clone`: the clone is a handle to the same
    /// underlying family.
    #[verifier::external_body]
    fn clone(&self) -> (r: Self)
        ensures
            r == *self,
    {
        HistogramFamily { vec: self.vec.clone() }
    }
}

/// Wrapper tying a client-library metric to the facade's mutation
/// interface.
#[derive(Clone, Copy, Debug)]
pub struct Metric<M>(M);

impl<M> Metric<M> {
    /// The wrapped metric.
    pub closed spec fn spec_inner(self) -> M {
        self.0
    }

    /// Wraps the provided client-library `metric`.
    pub fn wrap(metric: M) -> (r: Self)
        ensures
            r.spec_inner() == metric,
    {
        Metric(metric)
    }

    /// Unwraps this [`Metric`], returning the inner client-library metric.
    pub fn into_inner(self) -> (r: M)
        ensures
            r == self.spec_inner(),
    {
        self.0
    }
}

/// Either a single metric or a family of them, forming a bundle's payload.
#[derive(Clone, Debug)]
pub enum Either<Single, Vec> {
    /// A single metric.
    Single(Single),
    /// A family of metrics partitioned by label values.
    Vec(Vec),
}

/// One label of a metric key: a name paired with a value.
#[derive(Clone, Debug)]
pub struct Label {
    /// The label's name.
    pub name: String,
    /// The label's value.
    pub value: String,
}

/// A metric key as presented by one facade call: a metric name and a full
/// label assignment.
///
/// Two keys with the same name and the same set of (name, value) pairs
/// denote the same concrete metric instance, whatever the order of the
/// pairs.
#[derive(Clone, Debug)]
pub struct Key {
    /// The metric name.
    pub name: String,
    /// The labels, in the order the facade presented them.
    pub labels: Vec<Label>,
}

/// The finite map described by a sequence of (name, value) pairs, where a
/// later pair with the same name wins.
pub open spec fn pair_map<V>(s: Seq<(Seq<char>, V)>) -> Map<Seq<char>, V>
    decreases s.len(),
{
    if s.len() == 0 {
        Map::empty()
    } else {
        pair_map(s.drop_last()).insert(s.last().0, s.last().1)
    }
}

/// No two pairs share a name.
pub open spec fn distinct_keys<V>(s: Seq<(Seq<char>, V)>) -> bool {
    forall|i: int, j: int| 0 <= i < j < s.len() ==> s[i].0 != s[j].0
}

/// A name is in the map exactly when some pair carries it.
pub proof fn lemma_pair_map_contains<V>(s: Seq<(Seq<char>, V)>, k: Seq<char>)
    ensures
        pair_map(s).dom().contains(k) <==> exists|i: int| 0 <= i < s.len() && s[i].0 == k,
    decreases s.len(),
{
    if s.len() > 0 {
        lemma_pair_map_contains(s.drop_last(), k);
        if s.last().0 == k {
            assert(s[s.len() - 1].0 == k);
        } else {
            if pair_map(s).dom().contains(k) {
                let i = choose|i: int| 0 <= i < s.drop_last().len() && s.drop_last()[i].0 == k;
                assert(s[i].0 == k);
            }
            if exists|i: int| 0 <= i < s.len() && s[i].0 == k {
                let i = choose|i: int| 0 <= i < s.len() && s[i].0 == k;
                assert(s.drop_last()[i].0 == k);
            }
        }
    }
}

/// The map is finite.
pub proof fn lemma_pair_map_finite<V>(s: Seq<(Seq<char>, V)>)
    ensures
        pair_map(s).dom().finite(),
    decreases s.len(),
{
    if s.len() > 0 {
        lemma_pair_map_finite(s.drop_last());
    }
}

/// The pair whose name no later pair repeats gives the map's value at that
/// name.
pub proof fn lemma_pair_map_get<V>(s: Seq<(Seq<char>, V)>, i: int)
    requires
        0 <= i < s.len(),
        forall|j: int| i < j < s.len() ==> s[j].0 != s[i].0,
    ensures
        pair_map(s).dom().contains(s[i].0),
        pair_map(s)[s[i].0] == s[i].1,
    decreases s.len(),
{
    if i == s.len() - 1 {
    } else {
        lemma_pair_map_get(s.drop_last(), i);
        assert(s.drop_last()[i] == s[i]);
    }
}

/// With distinct names, the map has exactly one entry per pair.
pub proof fn lemma_pair_map_len<V>(s: Seq<(Seq<char>, V)>)
    requires
        distinct_keys(s),
    ensures
        pair_map(s).dom().finite(),
        pair_map(s).dom().len() == s.len(),
    decreases s.len(),
{
    lemma_pair_map_finite(s);
    if s.len() > 0 {
        assert(distinct_keys(s.drop_last()));
        lemma_pair_map_len(s.drop_last());
        lemma_pair_map_contains(s.drop_last(), s.last().0);
        assert(!pair_map(s.drop_last()).dom().contains(s.last().0));
    }
}

/// Appending a pair inserts its name.
pub proof fn lemma_pair_map_push<V>(s: Seq<(Seq<char>, V)>, p: (Seq<char>, V))
    ensures
        pair_map(s.push(p)) == pair_map(s).insert(p.0, p.1),
{
    assert(s.push(p).drop_last() =~= s);
    assert(s.push(p).last() == p);
}

/// Replacing the value of the pair at `i`, under distinct names, updates
/// the map at that name.
pub proof fn lemma_pair_map_update<V>(s: Seq<(Seq<char>, V)>, i: int, v: V)
    requires
        distinct_keys(s),
        0 <= i < s.len(),
    ensures
        pair_map(s.update(i, (s[i].0, v))) =~= pair_map(s).insert(s[i].0, v),
    decreases s.len(),
{
    let t = s.update(i, (s[i].0, v));
    if i == s.len() - 1 {
        assert(t.drop_last() =~= s.drop_last());
        assert(t.last() == (s[i].0, v));
    } else {
        assert(distinct_keys(s.drop_last()));
        lemma_pair_map_update(s.drop_last(), i, v);
        assert(t.drop_last() =~= s.drop_last().update(i, (s[i].0, v)));
        assert(t.last() == s.last());
        assert(s.last().0 != s[i].0);
    }
}

/// The names of a label sequence, in presentation order.
pub open spec fn label_names(s: Seq<Label>) -> Seq<Seq<char>> {
    s.map_values(|l: Label| l.name@)
}

/// The (name, value) view of a label sequence.
pub open spec fn labels_view(s: Seq<Label>) -> Seq<(Seq<char>, Seq<char>)> {
    s.map_values(|l: Label| (l.name@, l.value@))
}

/// The name-to-value map a label sequence denotes; a later label with the
/// same name wins, as in the facade's own label handling.
pub open spec fn label_map(s: Seq<Label>) -> Map<Seq<char>, Seq<char>> {
    pair_map(labels_view(s))
}

/// A key's label map is empty exactly when the key carries no labels.
pub proof fn lemma_label_map_empty(labels: Seq<Label>)
    ensures
        labels.len() == 0 <==> label_map(labels).dom() =~= Set::<Seq<char>>::empty(),
{
    if labels.len() == 0 {
        assert(labels_view(labels) =~= Seq::empty());
    } else {
        lemma_pair_map_contains(labels_view(labels), labels[0].name@);
        assert(labels_view(labels)[0].0 == labels[0].name@);
        assert(label_map(labels).dom().contains(labels[0].name@));
    }
}

/// The (name, value) view of a sequence of owned string pairs.
pub open spec fn pairs_view(s: Seq<(String, String)>) -> Seq<(Seq<char>, Seq<char>)> {
    s.map_values(|p: (String, String)| (p.0@, p.1@))
}

/// The names of a schema, by view.
pub open spec fn names_of(s: Seq<String>) -> Seq<Seq<char>> {
    s.map_values(|n: String| n@)
}

/// The views of a sequence of owned strings, such as a family's label
/// values.
pub open spec fn string_views(s: Seq<String>) -> Seq<Seq<char>> {
    s.map_values(|n: String| n@)
}

/// A character the client library accepts anywhere in a label name: an
/// ASCII letter or the underscore.
pub open spec fn label_name_char(c: char) -> bool {
    ||| ('a' as int) <= (c as int) <= ('z' as int)
    ||| ('A' as int) <= (c as int) <= ('Z' as int)
    ||| c == '_'
}

/// A character the client library accepts anywhere in a metric name: the
/// label-name characters and the colon.
pub open spec fn metric_name_char(c: char) -> bool {
    label_name_char(c) || c == ':'
}

/// An ASCII digit, allowed after the first character of either kind of
/// name.
pub open spec fn ascii_digit(c: char) -> bool {
    ('0' as int) <= (c as int) <= ('9' as int)
}

/// A name the client library accepts as a metric name: nonempty, opening
/// with a letter, underscore or colon, with digits also allowed afterwards.
pub open spec fn valid_metric_name(s: Seq<char>) -> bool {
    &&& s.len() > 0
    &&& metric_name_char(s[0])
    &&& forall|i: int| 0 < i < s.len() ==> metric_name_char(#[trigger] s[i]) || ascii_digit(s[i])
}

/// A name the client library accepts as a label name: nonempty, opening
/// with a letter or underscore, with digits also allowed afterwards.
pub open spec fn valid_label_name(s: Seq<char>) -> bool {
    &&& s.len() > 0
    &&& label_name_char(s[0])
    &&& forall|i: int| 0 < i < s.len() ==> label_name_char(#[trigger] s[i]) || ascii_digit(s[i])
}

/// Whether the client library accepts creating a metric for this key with
/// this help text: a valid metric name, nonempty help, and label names
/// that are valid and distinct.
pub open spec fn bundle_creatable(key: Key, help: Seq<char>) -> bool {
    &&& valid_metric_name(key.name@)
    &&& help.len() > 0
    &&& forall|i: int|
        0 <= i < label_names(key.labels@).len() ==> valid_label_name(
            #[trigger] label_names(key.labels@)[i],
        )
    &&& label_names(key.labels@).no_duplicates()
}

/// No label of the key carries the name `le`, which histograms reserve
/// for their bucket bound; the client library refuses it at child build.
pub open spec fn no_reserved_histogram_label(labels: Seq<Label>) -> bool {
    forall|i: int|
        0 <= i < label_names(labels).len() ==> (#[trigger] label_names(labels)[i]) != "le"@
}

/// The label values a key assigns to a schema, in schema order, by the
/// key's name-to-value map.
pub open spec fn schema_values_of(schema: Seq<Seq<char>>, labels: Seq<Label>) -> Seq<Seq<char>> {
    Seq::new(schema.len(), |j: int| label_map(labels)[schema[j]])
}

/// Finds the position of `name` among the pairs' names.
pub(crate) fn find_pair_index<V>(pairs: &Vec<(String, V)>, name: &String) -> (r: Option<usize>)
    ensures
        match r {
            Some(i) => i < pairs@.len() && pairs@[i as int].0@ == name@,
            None => forall|i: int| 0 <= i < pairs@.len() ==> pairs@[i].0@ != name@,
        },
{
    let n = pairs.len();
    let mut i: usize = 0;
    while i < n
        invariant
            n == pairs@.len(),
            i <= n,
            forall|j: int| 0 <= j < i ==> pairs@[j].0@ != name@,
        decreases n - i,
    {
        if pairs[i].0 == *name {
            return Some(i);
        }
        i = i + 1;
    }
    None
}

/// Collapses a label sequence to one (name, value) pair per name, a later
/// occurrence of a name replacing an earlier one.
fn dedup_labels(labels: &Vec<Label>) -> (pairs: Vec<(String, String)>)
    ensures
        pair_map(pairs_view(pairs@)) == label_map(labels@),
        distinct_keys(pairs_view(pairs@)),
{
    let n = labels.len();
    let mut pairs: Vec<(String, String)> = Vec::new();
    proof {
        assert(labels_view(labels@.subrange(0, 0)) =~= Seq::empty());
        assert(pairs_view(pairs@) =~= Seq::empty());
    }
    let mut i: usize = 0;
    while i < n
        invariant
            n == labels@.len(),
            i <= n,
            pair_map(pairs_view(pairs@)) == pair_map(labels_view(labels@.subrange(0, i as int))),
            distinct_keys(pairs_view(pairs@)),
        decreases n - i,
    {
        let l = &labels[i];
        let ghost prefix = labels_view(labels@.subrange(0, i as int));
        let ghost full = labels_view(labels@.subrange(0, i + 1 as int));
        proof {
            assert(labels@.subrange(0, i + 1 as int).drop_last() =~= labels@.subrange(0, i as int));
            assert(full.drop_last() =~= prefix);
            assert(full.last() == (l.name@, l.value@));
            assert(pair_map(full) == pair_map(prefix).insert(l.name@, l.value@));
        }
        match find_pair_index(&pairs, &l.name) {
            Some(j) => {
                let ghost old_pairs = pairs_view(pairs@);
                let value = l.value.clone();
                let entry = &mut pairs[j];
                entry.1 = value;
                proof {
                    assert(pairs_view(pairs@) =~= old_pairs.update(j as int, (old_pairs[j as int].0, l.value@)));
                    lemma_pair_map_update(old_pairs, j as int, l.value@);
                    assert(old_pairs[j as int].0 == l.name@);
                }
            },
            None => {
                let ghost old_pairs = pairs_view(pairs@);
                pairs.push((l.name.clone(), l.value.clone()));
                proof {
                    assert(pairs_view(pairs@) =~= old_pairs.push((l.name@, l.value@)));
                    lemma_pair_map_push(old_pairs, (l.name@, l.value@));
                }
            },
        }
        i = i + 1;
    }
    proof {
        assert(labels@.subrange(0, n as int) =~= labels@);
    }
    pairs
}

/// Whether a key's labels carry exactly the label names of a schema:
/// collapsed to one pair per name, the key's label names are the schema's
/// names and no others.
pub open spec fn key_matches(schema: Seq<Seq<char>>, labels: Seq<Label>) -> bool {
    label_map(labels).dom() == schema.to_set()
}

/// Checks a key's labels against a schema and, when they fit, hands back
/// the label values in schema order, the latest occurrence of a repeated
/// name winning.
///
/// A wrong count of distinct names is a cardinality error; with the count
/// right, the first schema name the key misses is reported.
fn schema_values(schema: &Vec<String>, labels: &Vec<Label>) -> (r: Result<
    Vec<String>,
    RegistryError,
>)
    requires
        names_of(schema@).no_duplicates(),
    ensures
        r is Ok <==> key_matches(names_of(schema@), labels@),
        r matches Ok(values) ==> values@.len() == schema@.len() && forall|j: int|
            0 <= j < schema@.len() ==> values@[j]@ == label_map(labels@)[names_of(schema@)[j]],
        r matches Err(RegistryError::InconsistentCardinality { expect, got }) ==> expect
            == schema@.len() && got == label_map(labels@).dom().len(),
        r matches Err(e) ==> (e matches RegistryError::InconsistentCardinality { expect, got }
            || (e matches RegistryError::MissingLabel { name } && names_of(schema@).contains(name@)
            && !label_map(labels@).dom().contains(name@))),
        label_map(labels@).dom().len() != schema@.len() ==> r matches Err(
            RegistryError::InconsistentCardinality { .. },
        ),
        label_map(labels@).dom().len() == schema@.len() && !key_matches(names_of(schema@), labels@)
            ==> r matches Err(RegistryError::MissingLabel { .. }),
{
    broadcast use vstd::seq_lib::group_seq_properties;

    let pairs = dedup_labels(labels);
    proof {
        lemma_pair_map_len(pairs_view(pairs@));
        names_of(schema@).unique_seq_to_set();
    }
    let n = schema.len();
    if pairs.len() != n {
        proof {
            assert(label_map(labels@).dom().len() != names_of(schema@).to_set().len());
        }
        return Err(
            RegistryError::InconsistentCardinality { expect: n, got: pairs.len() },
        );
    }
    let mut values: Vec<String> = Vec::new();
    let mut i: usize = 0;
    while i < n
        invariant
            n == schema@.len(),
            i <= n,
            values@.len() == i,
            names_of(schema@).no_duplicates(),
            pair_map(pairs_view(pairs@)) == label_map(labels@),
            distinct_keys(pairs_view(pairs@)),
            pairs@.len() == n,
            forall|j: int|
                0 <= j < i ==> label_map(labels@).dom().contains(names_of(schema@)[j]),
            forall|j: int|
                0 <= j < i ==> values@[j]@ == label_map(labels@)[names_of(schema@)[j]],
        decreases n - i,
    {
        match find_pair_index(&pairs, &schema[i]) {
            Some(j) => {
                values.push(pairs[j].1.clone());
                proof {
                    lemma_pair_map_contains(pairs_view(pairs@), schema@[i as int]@);
                    assert(pairs_view(pairs@)[j as int].0 == schema@[i as int]@);
                    lemma_pair_map_get(pairs_view(pairs@), j as int);
                    assert(values@[i as int]@ == pair_map(pairs_view(pairs@))[schema@[i as int]@]);
                }
            },
            None => {
                proof {
                    lemma_pair_map_contains(pairs_view(pairs@), schema@[i as int]@);
                    lemma_pair_map_len(pairs_view(pairs@));
                    assert(forall|k: int|
                        0 <= k < pairs_view(pairs@).len() ==> pairs_view(pairs@)[k].0 != schema@[i as int]@);
                    assert(!label_map(labels@).dom().contains(names_of(schema@)[i as int]));
                    assert(names_of(schema@).to_set().contains(names_of(schema@)[i as int]));
                }
                return Err(RegistryError::MissingLabel { name: schema[i].clone() });
            },
        }
        i = i + 1;
    }
    proof {
        let dom = label_map(labels@).dom();
        let want = names_of(schema@).to_set();
        assert forall|k: Seq<char>| want.contains(k) implies dom.contains(k) by {
            let j = choose|j: int| 0 <= j < names_of(schema@).len() && names_of(schema@)[j] == k;
            assert(dom.contains(names_of(schema@)[j]));
        }
        lemma_pair_map_finite(labels_view(labels@));
        lemma_subset_equality(want, dom);
        assert(key_matches(names_of(schema@), labels@));
    }
    Ok(values)
}

/// The always-true predicate of a help-text cell's lock.
pub struct AnyText;

impl vstd::rwlock::RwLockPredicate<String> for AnyText {
    open spec fn inv(self, v: String) -> bool {
        true
    }
}

/// A shared, independently synchronized help-text cell.
///
/// Every clone is a handle to the same cell, so a text stored through one
/// handle is seen by all of them; the collector registered with the client
/// registry reads the cell at gather time, which is how a description set
/// after registration still reaches the exported output.
pub struct DescriptionCell {
    /// The shared lock holding the current text.
    cell: std::sync::Arc<vstd::rwlock::RwLock<String, AnyText>>,
}

impl DescriptionCell {
    /// The cell's lock admits every text.
    pub closed spec fn wf(self) -> bool {
        (*self.cell).pred() == AnyText
    }

    /// A fresh cell holding `text`.
    pub fn new(text: String) -> (c: Self)
        ensures
            c.wf(),
    {
        DescriptionCell {
            cell: std::sync::Arc::new(vstd::rwlock::RwLock::new(text, Ghost(AnyText))),
        }
    }

    /// Replaces the cell's text, last write winning.
    pub fn store(&self, text: String)
        requires
            self.wf(),
    {
        let lock = cell_lock(self);
        let (_old_text, handle) = lock.acquire_write();
        handle.release_write(text);
    }

    /// The cell's current text.
    pub fn load(&self) -> String
        requires
            self.wf(),
    {
        let lock = cell_lock(self);
        let handle = lock.acquire_read();
        let text = handle.borrow().clone();
        handle.release_read();
        text
    }
}

impl Clone for DescriptionCell {
    /// Relies on `Arc::clone`: the clone is a handle to the same shared
    /// cell.
    #[verifier::external_body]
    fn clone(&self) -> (r: Self)
        ensures
            r == *self,
    {
        DescriptionCell { cell: std::sync::Arc::clone(&self.cell) }
    }
}

/// Relies on `Arc::as_ref`: a borrow of the shared cell's lock.
#[verifier::external_body]
fn cell_lock(c: &DescriptionCell) -> (r: &vstd::rwlock::RwLock<String, AnyText>)
    ensures
        *r == *c.cell,
{
    c.cell.as_ref()
}

/// A client-library metric paired with the swappable help text under which
/// it is collected.
///
/// The `description` field is the value this crate's contracts speak of;
/// `cell` is the shared handle mirroring it that the registered collector
/// reads at gather time.  An empty description means none was ever set, and
/// the help text fixed at construction stays.
#[derive(Clone)]
pub struct Describable<M> {
    /// The current help-text override; empty when none was set.
    pub description: String,
    /// The shared cell mirroring `description` for the collector.
    pub cell: DescriptionCell,
    /// The metric itself.
    pub metric: M,
}

impl<M> Describable<M> {
    /// The cell is usable.
    pub open spec fn wf(self) -> bool {
        self.cell.wf()
    }

    /// Wraps the provided `metric` with no description override.
    pub fn wrap(metric: M) -> (r: Self)
        ensures
            r.wf(),
            r.description@.len() == 0,
            r.metric == metric,
    {
        Describable { description: String::new(), cell: DescriptionCell::new(String::new()), metric }
    }
}

impl<B> Describable<Option<B>> {
    /// An entry holding only a description, with no metric yet.
    pub fn only_description(help: String) -> (r: Self)
        ensures
            r.wf(),
            r.description@ == help@,
            r.metric is None,
    {
        let cell = DescriptionCell::new(help.clone());
        Describable { description: help, cell, metric: None }
    }
}

/// The variable label names a counter family was created with, in order.
pub uninterp spec fn counter_family_labels(v: CounterFamily) -> Seq<Seq<char>>;

/// The variable label names a gauge family was created with, in order.
pub uninterp spec fn gauge_family_labels(v: GaugeFamily) -> Seq<Seq<char>>;

/// The variable label names a histogram family was created with, in order.
pub uninterp spec fn histogram_family_labels(v: HistogramFamily) -> Seq<Seq<char>>;

/// Whether the client library's child-build validation accepts a histogram
/// family: its buckets are in increasing order and no label of the family
/// is named `le`, which histograms reserve for the bucket bound.  The
/// client checks both only when a child is built, never when the family is
/// created.
pub uninterp spec fn histogram_family_children_ok(v: HistogramFamily) -> bool;

/// The child a counter family serves for the given label values, created
/// on first use and cached by value thereafter.
pub uninterp spec fn counter_child_of(v: CounterFamily, values: Seq<Seq<char>>) -> IntCounter;

/// The child a gauge family serves for the given label values; see
/// [`counter_child_of`].
pub uninterp spec fn gauge_child_of(v: GaugeFamily, values: Seq<Seq<char>>) -> Gauge;

/// The child a histogram family serves for the given label values; see
/// [`counter_child_of`].
pub uninterp spec fn histogram_child_of(v: HistogramFamily, values: Seq<Seq<char>>) -> Histogram;

/// The (name, help) pair of a single counter's descriptor, fixed at
/// creation.
pub uninterp spec fn counter_desc_of(c: IntCounter) -> (Seq<char>, Seq<char>);

/// The (name, help) pair of a single gauge's descriptor, fixed at creation.
pub uninterp spec fn gauge_desc_of(c: Gauge) -> (Seq<char>, Seq<char>);

/// The (name, help) pair of a single histogram's descriptor, fixed at
/// creation.
pub uninterp spec fn histogram_desc_of(c: Histogram) -> (Seq<char>, Seq<char>);

/// The (name, help) pair of a counter family's descriptor, fixed at
/// creation.
pub uninterp spec fn counter_family_desc_of(v: CounterFamily) -> (Seq<char>, Seq<char>);

/// The (name, help) pair of a gauge family's descriptor, fixed at creation.
pub uninterp spec fn gauge_family_desc_of(v: GaugeFamily) -> (Seq<char>, Seq<char>);

/// The (name, help) pair of a histogram family's descriptor, fixed at
/// creation.
pub uninterp spec fn histogram_family_desc_of(v: HistogramFamily) -> (Seq<char>, Seq<char>);

/// Relies on `prometheus::IntCounter::with_opts`: builds a single counter,
/// succeeding exactly when `Desc::new` accepts the name and the help is
/// nonempty; there are no labels to check.
#[verifier::external_body]
fn new_int_counter(name: &str, help: &str) -> (r: Result<IntCounter, prometheus::Error>)
    ensures
        valid_metric_name(name@) && help@.len() > 0 ==> r is Ok,
        r is Ok ==> valid_metric_name(name@) && help@.len() > 0,
{
    prometheus::IntCounter::with_opts(prometheus::Opts::new(name, help)).map(
        |metric| IntCounter { metric },
    )
}

/// Relies on `prometheus::Gauge::with_opts`: builds a single gauge,
/// succeeding exactly when `Desc::new` accepts the name and the help is
/// nonempty.
#[verifier::external_body]
fn new_gauge(name: &str, help: &str) -> (r: Result<Gauge, prometheus::Error>)
    ensures
        valid_metric_name(name@) && help@.len() > 0 ==> r is Ok,
        r is Ok ==> valid_metric_name(name@) && help@.len() > 0,
{
    prometheus::Gauge::with_opts(prometheus::Opts::new(name, help)).map(|metric| Gauge { metric })
}

/// Relies on `prometheus::Histogram::with_opts`: builds a single histogram
/// with the library's default buckets, which its bucket check accepts, so
/// it succeeds exactly when `Desc::new` accepts the name and the help is
/// nonempty.
#[verifier::external_body]
fn new_histogram(name: &str, help: &str) -> (r: Result<Histogram, prometheus::Error>)
    ensures
        valid_metric_name(name@) && help@.len() > 0 ==> r is Ok,
        r is Ok ==> valid_metric_name(name@) && help@.len() > 0,
{
    prometheus::Histogram::with_opts(prometheus::HistogramOpts::new(name, help)).map(
        |metric| Histogram { metric },
    )
}

/// Relies on `prometheus::IntCounterVec::new`: succeeds exactly when
/// `Desc::new` accepts the name, help and labels; on success the family's
/// variable label names are exactly `labels`, in order and distinct.
#[verifier::external_body]
fn new_counter_family(name: &str, help: &str, labels: &Vec<String>) -> (r: Result<
    CounterFamily,
    prometheus::Error,
>)
    ensures
        valid_metric_name(name@) && help@.len() > 0 && (forall|i: int|
            0 <= i < names_of(labels@).len() ==> valid_label_name(
                #[trigger] names_of(labels@)[i],
            )) && names_of(labels@).no_duplicates() ==> r is Ok,
        r is Ok ==> valid_metric_name(name@) && help@.len() > 0 && (forall|i: int|
            0 <= i < names_of(labels@).len() ==> valid_label_name(
                #[trigger] names_of(labels@)[i],
            )) && names_of(labels@).no_duplicates(),
        r matches Ok(v) ==> counter_family_labels(v) == names_of(labels@),
{
    let refs: Vec<&str> = labels.iter().map(|l| l.as_str()).collect();
    prometheus::IntCounterVec::new(prometheus::Opts::new(name, help), &refs).map(
        |vec| CounterFamily { vec },
    )
}

/// Relies on `prometheus::GaugeVec::new`: succeeds exactly when `Desc::new`
/// accepts the name, help and labels; on success the family's variable
/// label names are exactly `labels`, in order and distinct.
#[verifier::external_body]
fn new_gauge_family(name: &str, help: &str, labels: &Vec<String>) -> (r: Result<
    GaugeFamily,
    prometheus::Error,
>)
    ensures
        valid_metric_name(name@) && help@.len() > 0 && (forall|i: int|
            0 <= i < names_of(labels@).len() ==> valid_label_name(
                #[trigger] names_of(labels@)[i],
            )) && names_of(labels@).no_duplicates() ==> r is Ok,
        r is Ok ==> valid_metric_name(name@) && help@.len() > 0 && (forall|i: int|
            0 <= i < names_of(labels@).len() ==> valid_label_name(
                #[trigger] names_of(labels@)[i],
            )) && names_of(labels@).no_duplicates(),
        r matches Ok(v) ==> gauge_family_labels(v) == names_of(labels@),
{
    let refs: Vec<&str> = labels.iter().map(|l| l.as_str()).collect();
    prometheus::GaugeVec::new(prometheus::Opts::new(name, help), &refs).map(
        |vec| GaugeFamily { vec },
    )
}

/// Relies on `prometheus::HistogramVec::new`: creation validates only
/// through `Desc::new`, so it succeeds exactly as for the other families —
/// a label named `le` is accepted here and refused only at child build.
/// On success the labels are exactly `labels`, in order and distinct, the
/// buckets are the library's defaults, and when no label is named `le` the
/// child-build validation accepts the family.
#[verifier::external_body]
fn new_histogram_family(name: &str, help: &str, labels: &Vec<String>) -> (r: Result<
    HistogramFamily,
    prometheus::Error,
>)
    ensures
        valid_metric_name(name@) && help@.len() > 0 && (forall|i: int|
            0 <= i < names_of(labels@).len() ==> valid_label_name(
                #[trigger] names_of(labels@)[i],
            )) && names_of(labels@).no_duplicates() ==> r is Ok,
        r is Ok ==> valid_metric_name(name@) && help@.len() > 0 && (forall|i: int|
            0 <= i < names_of(labels@).len() ==> valid_label_name(
                #[trigger] names_of(labels@)[i],
            )) && names_of(labels@).no_duplicates(),
        r matches Ok(v) ==> histogram_family_labels(v) == names_of(labels@) && ((forall|i: int|
            0 <= i < names_of(labels@).len() ==> (#[trigger] names_of(labels@)[i]) != "le"@)
            ==> histogram_family_children_ok(v)),
{
    let refs: Vec<&str> = labels.iter().map(|l| l.as_str()).collect();
    prometheus::HistogramVec::new(prometheus::HistogramOpts::new(name, help), &refs).map(
        |vec| HistogramFamily { vec },
    )
}

/// Relies on `MetricVec::get_metric_with_label_values`: a value count equal
/// to the family's label count returns the family's child for those values
/// — created on first use, cached by value thereafter — and any other
/// count is rejected.
#[verifier::external_body]
fn counter_family_child(v: &CounterFamily, values: &Vec<String>) -> (r: Result<
    IntCounter,
    prometheus::Error,
>)
    ensures
        values@.len() == counter_family_labels(*v).len() ==> r is Ok,
        values@.len() != counter_family_labels(*v).len() ==> r is Err,
        r matches Ok(c) ==> c == counter_child_of(*v, string_views(values@)),
{
    let refs: Vec<&str> = values.iter().map(|s| s.as_str()).collect();
    v.vec.get_metric_with_label_values(&refs).map(|metric| IntCounter { metric })
}

/// Relies on `MetricVec::get_metric_with_label_values`; see
/// [`counter_family_child`].
#[verifier::external_body]
fn gauge_family_child(v: &GaugeFamily, values: &Vec<String>) -> (r: Result<
    Gauge,
    prometheus::Error,
>)
    ensures
        values@.len() == gauge_family_labels(*v).len() ==> r is Ok,
        values@.len() != gauge_family_labels(*v).len() ==> r is Err,
        r matches Ok(c) ==> c == gauge_child_of(*v, string_views(values@)),
{
    let refs: Vec<&str> = values.iter().map(|s| s.as_str()).collect();
    v.vec.get_metric_with_label_values(&refs).map(|metric| Gauge { metric })
}

/// Relies on `MetricVec::get_metric_with_label_values`: a wrong value count
/// is rejected; with the count right, the child build re-runs the bucket
/// check and the `le` label ban, so it succeeds exactly when the family
/// passes them.
#[verifier::external_body]
fn histogram_family_child(v: &HistogramFamily, values: &Vec<String>) -> (r: Result<
    Histogram,
    prometheus::Error,
>)
    ensures
        values@.len() == histogram_family_labels(*v).len() && histogram_family_children_ok(*v)
            ==> r is Ok,
        values@.len() != histogram_family_labels(*v).len() ==> r is Err,
        r matches Ok(c) ==> c == histogram_child_of(*v, string_views(values@)),
{
    let refs: Vec<&str> = values.iter().map(|s| s.as_str()).collect();
    v.vec.get_metric_with_label_values(&refs).map(|metric| Histogram { metric })
}

/// Relies on `Collector::desc`: the name and help a single counter was
/// created with.
#[verifier::external_body]
fn counter_desc(c: &IntCounter) -> (r: (String, String))
    ensures
        r.0@ == counter_desc_of(*c).0,
        r.1@ == counter_desc_of(*c).1,
{
    match prometheus::core::Collector::desc(&c.metric).first() {
        Some(d) => ((d.fq_name.clone(), d.help.clone())),
        None => ((String::new(), String::new())),
    }
}

/// Relies on `Collector::desc`: the name and help a single gauge was
/// created with.
#[verifier::external_body]
fn gauge_desc(c: &Gauge) -> (r: (String, String))
    ensures
        r.0@ == gauge_desc_of(*c).0,
        r.1@ == gauge_desc_of(*c).1,
{
    match prometheus::core::Collector::desc(&c.metric).first() {
        Some(d) => ((d.fq_name.clone(), d.help.clone())),
        None => ((String::new(), String::new())),
    }
}

/// Relies on `Collector::desc`: the name and help a single histogram was
/// created with.
#[verifier::external_body]
fn histogram_desc(c: &Histogram) -> (r: (String, String))
    ensures
        r.0@ == histogram_desc_of(*c).0,
        r.1@ == histogram_desc_of(*c).1,
{
    match prometheus::core::Collector::desc(&c.metric).first() {
        Some(d) => ((d.fq_name.clone(), d.help.clone())),
        None => ((String::new(), String::new())),
    }
}

/// Relies on `Collector::desc`: the name and help a counter family was
/// created with, and its variable label names, exactly as created and
/// validated distinct by `Desc::new`.
#[verifier::external_body]
fn counter_family_desc(v: &CounterFamily) -> (r: (String, String, Vec<String>))
    ensures
        r.0@ == counter_family_desc_of(*v).0,
        r.1@ == counter_family_desc_of(*v).1,
        names_of(r.2@) == counter_family_labels(*v),
        names_of(r.2@).no_duplicates(),
{
    match prometheus::core::Collector::desc(&v.vec).first() {
        Some(d) => ((d.fq_name.clone(), d.help.clone(), d.variable_labels.clone())),
        None => ((String::new(), String::new(), Vec::new())),
    }
}

/// Relies on `Collector::desc`: the name and help a gauge family was
/// created with, and its variable label names, exactly as created and
/// validated distinct by `Desc::new`.
#[verifier::external_body]
fn gauge_family_desc(v: &GaugeFamily) -> (r: (String, String, Vec<String>))
    ensures
        r.0@ == gauge_family_desc_of(*v).0,
        r.1@ == gauge_family_desc_of(*v).1,
        names_of(r.2@) == gauge_family_labels(*v),
        names_of(r.2@).no_duplicates(),
{
    match prometheus::core::Collector::desc(&v.vec).first() {
        Some(d) => ((d.fq_name.clone(), d.help.clone(), d.variable_labels.clone())),
        None => ((String::new(), String::new(), Vec::new())),
    }
}

/// Relies on `Collector::desc`: the name and help a histogram family was
/// created with, and its variable label names, exactly as created and
/// validated distinct by `Desc::new`.
#[verifier::external_body]
fn histogram_family_desc(v: &HistogramFamily) -> (r: (String, String, Vec<String>))
    ensures
        r.0@ == histogram_family_desc_of(*v).0,
        r.1@ == histogram_family_desc_of(*v).1,
        names_of(r.2@) == histogram_family_labels(*v),
        names_of(r.2@).no_duplicates(),
{
    match prometheus::core::Collector::desc(&v.vec).first() {
        Some(d) => ((d.fq_name.clone(), d.help.clone(), d.variable_labels.clone())),
        None => ((String::new(), String::new(), Vec::new())),
    }
}

/// A bundle: one metric, or a family of them, together with the label-name
/// schema it was created with.
///
/// A bundle is made once per metric name; the first key seen for the name
/// fixes whether it is a single metric (no labels) or a family, and fixes
/// the family's schema.  Every later key for the name must carry exactly
/// that schema.
#[derive(Clone)]
pub struct Bundle<S, V> {
    /// The metric or family.
    pub metric: Either<S, V>,
    /// The label names the metric was created with; empty for a single.
    pub schema: Vec<String>,
    /// The help text the metric was created with.
    pub help: String,
}

/// Collects the label names of a key, in presentation order.
fn collect_label_names(labels: &Vec<Label>) -> (names: Vec<String>)
    ensures
        names_of(names@) == label_names(labels@),
{
    let n = labels.len();
    let mut names: Vec<String> = Vec::new();
    let mut i: usize = 0;
    while i < n
        invariant
            n == labels@.len(),
            i <= n,
            names@.len() == i,
            forall|j: int| 0 <= j < i ==> names@[j]@ == labels@[j].name@,
        decreases n - i,
    {
        names.push(labels[i].name.clone());
        i = i + 1;
    }
    proof {
        assert(names_of(names@) =~= label_names(labels@));
    }
    names
}

/// [`Bundle`] of counters.
pub type PrometheusIntCounter = Bundle<IntCounter, CounterFamily>;

/// [`Bundle`] of gauges.
pub type PrometheusGauge = Bundle<Gauge, GaugeFamily>;

/// [`Bundle`] of histograms.
pub type PrometheusHistogram = Bundle<Histogram, HistogramFamily>;

/// What a resolution result must look like for a counter bundle and
/// key: success exactly when the key fits the bundle's schema; the stored
/// metric itself for a single and the family's child for the key's values
/// for a family; and each misfit forced to its exact error — labels on a
/// single or a wrong distinct-name count to a cardinality error with exact
/// counts, a right count with a schema name absent to a missing-label
/// error naming an absent one.
pub open spec fn counter_resolution(
    b: Bundle<IntCounter, CounterFamily>,
    key: Key,
    res: Result<IntCounter, RegistryError>,
) -> bool {
    &&& res is Ok <==> b.key_fits(key)
    &&& (b.metric matches Either::Single(c) ==> (res matches Ok(m) ==> m == c))
    &&& (b.metric matches Either::Vec(v) ==> (res matches Ok(m) ==> m == counter_child_of(
        v,
        schema_values_of(names_of(b.schema@), key.labels@),
    )))
    &&& (b.metric is Single && key.labels@.len() > 0 ==> (res matches Err(
        RegistryError::InconsistentCardinality { expect, got },
    ) && expect == 0 && got == key.labels@.len()))
    &&& (b.metric is Vec && label_map(key.labels@).dom().len() != b.schema@.len() ==> (
    res matches Err(RegistryError::InconsistentCardinality { expect, got }) && expect
        == b.schema@.len() && got == label_map(key.labels@).dom().len()))
    &&& (b.metric is Vec && label_map(key.labels@).dom().len() == b.schema@.len() && !b.key_fits(
        key,
    ) ==> (res matches Err(RegistryError::MissingLabel { name }) && names_of(
        b.schema@,
    ).contains(name@) && !label_map(key.labels@).dom().contains(name@)))
}

/// What a resolution result must look like for a gauge bundle and
/// key: success exactly when the key fits the bundle's schema; the stored
/// metric itself for a single and the family's child for the key's values
/// for a family; and each misfit forced to its exact error — labels on a
/// single or a wrong distinct-name count to a cardinality error with exact
/// counts, a right count with a schema name absent to a missing-label
/// error naming an absent one.
pub open spec fn gauge_resolution(
    b: Bundle<Gauge, GaugeFamily>,
    key: Key,
    res: Result<Gauge, RegistryError>,
) -> bool {
    &&& res is Ok <==> b.key_fits(key)
    &&& (b.metric matches Either::Single(c) ==> (res matches Ok(m) ==> m == c))
    &&& (b.metric matches Either::Vec(v) ==> (res matches Ok(m) ==> m == gauge_child_of(
        v,
        schema_values_of(names_of(b.schema@), key.labels@),
    )))
    &&& (b.metric is Single && key.labels@.len() > 0 ==> (res matches Err(
        RegistryError::InconsistentCardinality { expect, got },
    ) && expect == 0 && got == key.labels@.len()))
    &&& (b.metric is Vec && label_map(key.labels@).dom().len() != b.schema@.len() ==> (
    res matches Err(RegistryError::InconsistentCardinality { expect, got }) && expect
        == b.schema@.len() && got == label_map(key.labels@).dom().len()))
    &&& (b.metric is Vec && label_map(key.labels@).dom().len() == b.schema@.len() && !b.key_fits(
        key,
    ) ==> (res matches Err(RegistryError::MissingLabel { name }) && names_of(
        b.schema@,
    ).contains(name@) && !label_map(key.labels@).dom().contains(name@)))
}

/// See [`counter_resolution`]; for a histogram family the client library
/// may additionally refuse the child build when the family fails its
/// child-build validation — unacceptable buckets or a label named `le` —
/// so success is only owed when that validation is known to pass, and a
/// fitting key can fail only with the client's own error.
pub open spec fn histogram_resolution(
    b: Bundle<Histogram, HistogramFamily>,
    key: Key,
    res: Result<Histogram, RegistryError>,
) -> bool {
    &&& (b.children_ok() ==> (res is Ok <==> b.key_fits(key)))
    &&& (res is Ok ==> b.key_fits(key))
    &&& (b.key_fits(key) ==> (res matches Err(e) ==> e is Prometheus))
    &&& (b.metric matches Either::Single(c) ==> (res matches Ok(m) ==> m == c))
    &&& (b.metric matches Either::Vec(v) ==> (res matches Ok(m) ==> m == histogram_child_of(
        v,
        schema_values_of(names_of(b.schema@), key.labels@),
    )))
    &&& (b.metric is Single && key.labels@.len() > 0 ==> (res matches Err(
        RegistryError::InconsistentCardinality { expect, got },
    ) && expect == 0 && got == key.labels@.len()))
    &&& (b.metric is Vec && label_map(key.labels@).dom().len() != b.schema@.len() ==> (
    res matches Err(RegistryError::InconsistentCardinality { expect, got }) && expect
        == b.schema@.len() && got == label_map(key.labels@).dom().len()))
    &&& (b.metric is Vec && label_map(key.labels@).dom().len() == b.schema@.len() && !b.key_fits(
        key,
    ) ==> (res matches Err(RegistryError::MissingLabel { name }) && names_of(
        b.schema@,
    ).contains(name@) && !label_map(key.labels@).dom().contains(name@)))
}

impl Bundle<IntCounter, CounterFamily> {
    /// The schema is the family's own label-name list, distinct, and empty
    /// for a single metric.
    pub open spec fn wf(self) -> bool {
        &&& match self.metric {
            Either::Single(_) => self.schema@.len() == 0,
            Either::Vec(v) => names_of(self.schema@) == counter_family_labels(v),
        }
        &&& names_of(self.schema@).no_duplicates()
    }

    /// Whether a key's labels fit this bundle's schema.
    pub open spec fn key_fits(self, key: Key) -> bool {
        match self.metric {
            Either::Single(_) => key.labels@.len() == 0,
            Either::Vec(_) => key_matches(names_of(self.schema@), key.labels@),
        }
    }

    /// Builds a bundle from the first key seen for a name: a single
    /// counter for a label-less key, else a family over the key's label
    /// names.
    ///
    /// Succeeds exactly when the client library accepts the name, the
    /// help text and the label names.
    pub fn from_key(key: &Key, help: &str) -> (r: Result<Self, prometheus::Error>)
        ensures
            r is Ok <==> bundle_creatable(*key, help@),
            r matches Ok(b) ==> b.wf() && b.help@ == help@ && names_of(b.schema@) == label_names(
                key.labels@,
            ) && (b.metric is Vec <==> key.labels@.len() > 0),
    {
        broadcast use vstd::seq_lib::group_seq_properties;

        if key.labels.len() == 0 {
            proof {
                assert(label_names(key.labels@) =~= Seq::<Seq<char>>::empty());
            }
            match new_int_counter(key.name.as_str(), help) {
                Ok(c) => Ok(
                    Bundle {
                        metric: Either::Single(c),
                        schema: Vec::new(),
                        help: help.to_owned(),
                    },
                ),
                Err(e) => Err(e),
            }
        } else {
            let names = collect_label_names(&key.labels);
            match new_counter_family(key.name.as_str(), help, &names) {
                Ok(v) => Ok(Bundle { metric: Either::Vec(v), schema: names, help: help.to_owned() }),
                Err(e) => Err(e),
            }
        }
    }

    /// Returns the single counter of this bundle identified by `key`: the
    /// metric itself for a single, the family's child for the key's label
    /// values for a family.
    ///
    /// The whole resolution contract is [`counter_resolution`]: success exactly when
    /// the key fits the schema, the resolved handle pinned, and each
    /// misfit forced to its exact error.
    pub fn get_single_metric(&self, key: &Key) -> (r: Result<IntCounter, RegistryError>)
        requires
            self.wf(),
        ensures
            counter_resolution(*self, *key, r),
    {
        match &self.metric {
            Either::Single(c) => {
                if key.labels.len() > 0 {
                    Err(
                        RegistryError::InconsistentCardinality {
                            expect: 0,
                            got: key.labels.len(),
                        },
                    )
                } else {
                    Ok(c.clone())
                }
            },
            Either::Vec(v) => {
                match schema_values(&self.schema, &key.labels) {
                    Ok(values) => {
                        proof {
                            assert(string_views(values@) =~= schema_values_of(
                                names_of(self.schema@),
                                key.labels@,
                            ));
                        }
                        match counter_family_child(v, &values) {
                            Ok(m) => Ok(m),
                            Err(e) => Err(RegistryError::Prometheus(e)),
                        }
                    },
                    Err(e) => Err(e),
                }
            },
        }
    }
}

impl Bundle<Gauge, GaugeFamily> {
    /// The schema is the family's own label-name list, distinct, and empty
    /// for a single metric.
    pub open spec fn wf(self) -> bool {
        &&& match self.metric {
            Either::Single(_) => self.schema@.len() == 0,
            Either::Vec(v) => names_of(self.schema@) == gauge_family_labels(v),
        }
        &&& names_of(self.schema@).no_duplicates()
    }

    /// Whether a key's labels fit this bundle's schema.
    pub open spec fn key_fits(self, key: Key) -> bool {
        match self.metric {
            Either::Single(_) => key.labels@.len() == 0,
            Either::Vec(_) => key_matches(names_of(self.schema@), key.labels@),
        }
    }

    /// Builds a bundle from the first key seen for a name: a single
    /// gauge for a label-less key, else a family over the key's label
    /// names.
    ///
    /// Succeeds exactly when the client library accepts the name, the
    /// help text and the label names.
    pub fn from_key(key: &Key, help: &str) -> (r: Result<Self, prometheus::Error>)
        ensures
            r is Ok <==> bundle_creatable(*key, help@),
            r matches Ok(b) ==> b.wf() && b.help@ == help@ && names_of(b.schema@) == label_names(
                key.labels@,
            ) && (b.metric is Vec <==> key.labels@.len() > 0),
    {
        broadcast use vstd::seq_lib::group_seq_properties;

        if key.labels.len() == 0 {
            proof {
                assert(label_names(key.labels@) =~= Seq::<Seq<char>>::empty());
            }
            match new_gauge(key.name.as_str(), help) {
                Ok(c) => Ok(
                    Bundle {
                        metric: Either::Single(c),
                        schema: Vec::new(),
                        help: help.to_owned(),
                    },
                ),
                Err(e) => Err(e),
            }
        } else {
            let names = collect_label_names(&key.labels);
            match new_gauge_family(key.name.as_str(), help, &names) {
                Ok(v) => Ok(Bundle { metric: Either::Vec(v), schema: names, help: help.to_owned() }),
                Err(e) => Err(e),
            }
        }
    }

    /// Returns the single gauge of this bundle identified by `key`: the
    /// metric itself for a single, the family's child for the key's label
    /// values for a family.
    ///
    /// The whole resolution contract is [`gauge_resolution`]: success exactly when
    /// the key fits the schema, the resolved handle pinned, and each
    /// misfit forced to its exact error.
    pub fn get_single_metric(&self, key: &Key) -> (r: Result<Gauge, RegistryError>)
        requires
            self.wf(),
        ensures
            gauge_resolution(*self, *key, r),
    {
        match &self.metric {
            Either::Single(c) => {
                if key.labels.len() > 0 {
                    Err(
                        RegistryError::InconsistentCardinality {
                            expect: 0,
                            got: key.labels.len(),
                        },
                    )
                } else {
                    Ok(c.clone())
                }
            },
            Either::Vec(v) => {
                match schema_values(&self.schema, &key.labels) {
                    Ok(values) => {
                        proof {
                            assert(string_views(values@) =~= schema_values_of(
                                names_of(self.schema@),
                                key.labels@,
                            ));
                        }
                        match gauge_family_child(v, &values) {
                            Ok(m) => Ok(m),
                            Err(e) => Err(RegistryError::Prometheus(e)),
                        }
                    },
                    Err(e) => Err(e),
                }
            },
        }
    }
}

impl Bundle<Histogram, HistogramFamily> {
    /// The schema is the family's own label-name list, distinct, and empty
    /// for a single metric.
    pub open spec fn wf(self) -> bool {
        &&& match self.metric {
            Either::Single(_) => self.schema@.len() == 0,
            Either::Vec(v) => names_of(self.schema@) == histogram_family_labels(v),
        }
        &&& names_of(self.schema@).no_duplicates()
    }

    /// Whether a key's labels fit this bundle's schema.
    pub open spec fn key_fits(self, key: Key) -> bool {
        match self.metric {
            Either::Single(_) => key.labels@.len() == 0,
            Either::Vec(_) => key_matches(names_of(self.schema@), key.labels@),
        }
    }

    /// Whether the client library's child-build validation accepts the
    /// bundle's family, if any; families built by `from_key` from a key
    /// with no label named `le` always pass it.
    pub open spec fn children_ok(self) -> bool {
        match self.metric {
            Either::Single(_) => true,
            Either::Vec(v) => histogram_family_children_ok(v),
        }
    }

    /// Builds a bundle from the first key seen for a name: a single
    /// histogram for a label-less key, else a family over the key's label
    /// names.
    ///
    /// Succeeds exactly when the client library accepts the name, the
    /// help text and the label names; a histogram family is created even
    /// with a label named `le`, which the client refuses only at child
    /// build.
    pub fn from_key(key: &Key, help: &str) -> (r: Result<Self, prometheus::Error>)
        ensures
            r is Ok <==> bundle_creatable(*key, help@),
            r matches Ok(b) ==> b.wf() && b.help@ == help@ && names_of(b.schema@) == label_names(
                key.labels@,
            ) && (b.metric is Vec <==> key.labels@.len() > 0),
            r matches Ok(b) ==> (no_reserved_histogram_label(key.labels@)
                ==> b.children_ok()),
    {
        broadcast use vstd::seq_lib::group_seq_properties;

        if key.labels.len() == 0 {
            proof {
                assert(label_names(key.labels@) =~= Seq::<Seq<char>>::empty());
            }
            match new_histogram(key.name.as_str(), help) {
                Ok(c) => Ok(
                    Bundle {
                        metric: Either::Single(c),
                        schema: Vec::new(),
                        help: help.to_owned(),
                    },
                ),
                Err(e) => Err(e),
            }
        } else {
            let names = collect_label_names(&key.labels);
            match new_histogram_family(key.name.as_str(), help, &names) {
                Ok(v) => Ok(Bundle { metric: Either::Vec(v), schema: names, help: help.to_owned() }),
                Err(e) => Err(e),
            }
        }
    }

    /// Returns the single histogram of this bundle identified by `key`;
    /// see the counter bundle's `get_single_metric`.
    ///
    /// A key that does not fit the schema is always rejected; when it
    /// fits, the child build can still be refused by the client library
    /// for a family that fails its child-build validation — unacceptable
    /// buckets or a label named `le` — never for one this crate built
    /// from an ordinary key.
    pub fn get_single_metric(&self, key: &Key) -> (r: Result<Histogram, RegistryError>)
        requires
            self.wf(),
        ensures
            histogram_resolution(*self, *key, r),
    {
        match &self.metric {
            Either::Single(c) => {
                if key.labels.len() > 0 {
                    Err(
                        RegistryError::InconsistentCardinality {
                            expect: 0,
                            got: key.labels.len(),
                        },
                    )
                } else {
                    Ok(c.clone())
                }
            },
            Either::Vec(v) => {
                match schema_values(&self.schema, &key.labels) {
                    Ok(values) => {
                        proof {
                            assert(string_views(values@) =~= schema_values_of(
                                names_of(self.schema@),
                                key.labels@,
                            ));
                        }
                        match histogram_family_child(v, &values) {
                            Ok(m) => Ok(m),
                            Err(e) => Err(RegistryError::Prometheus(e)),
                        }
                    },
                    Err(e) => Err(e),
                }
            },
        }
    }
}

/// Builds the name and table entry for a user-supplied, pre-built
/// counter or counter family: the table key and the bundle's help
/// are the metric's own descriptor name and help, and a family's schema is
/// its own label names.
pub fn external_counter_entry(metric: Either<IntCounter, CounterFamily>) -> (r: (
    String,
    Describable<Bundle<IntCounter, CounterFamily>>,
))
    ensures
        r.1.wf(),
        r.1.metric.wf(),
        r.1.description@.len() == 0,
        r.1.metric.metric == metric,
        metric matches Either::Single(c) ==> r.0@ == counter_desc_of(c).0 && r.1.metric.help@
            == counter_desc_of(c).1,
        metric matches Either::Vec(v) ==> r.0@ == counter_family_desc_of(v).0 && r.1.metric.help@
            == counter_family_desc_of(v).1,
{
    match metric {
        Either::Single(c) => {
            let (name, help) = counter_desc(&c);
            let bundle = Bundle { metric: Either::Single(c), schema: Vec::new(), help };
            (name, Describable::wrap(bundle))
        },
        Either::Vec(v) => {
            let (name, help, labels) = counter_family_desc(&v);
            let bundle = Bundle { metric: Either::Vec(v), schema: labels, help };
            (name, Describable::wrap(bundle))
        },
    }
}

/// Builds the name and table entry for a user-supplied, pre-built
/// gauge or gauge family; see [`external_counter_entry`].
pub fn external_gauge_entry(metric: Either<Gauge, GaugeFamily>) -> (r: (
    String,
    Describable<Bundle<Gauge, GaugeFamily>>,
))
    ensures
        r.1.wf(),
        r.1.metric.wf(),
        r.1.description@.len() == 0,
        r.1.metric.metric == metric,
        metric matches Either::Single(c) ==> r.0@ == gauge_desc_of(c).0 && r.1.metric.help@
            == gauge_desc_of(c).1,
        metric matches Either::Vec(v) ==> r.0@ == gauge_family_desc_of(v).0 && r.1.metric.help@
            == gauge_family_desc_of(v).1,
{
    match metric {
        Either::Single(c) => {
            let (name, help) = gauge_desc(&c);
            let bundle = Bundle { metric: Either::Single(c), schema: Vec::new(), help };
            (name, Describable::wrap(bundle))
        },
        Either::Vec(v) => {
            let (name, help, labels) = gauge_family_desc(&v);
            let bundle = Bundle { metric: Either::Vec(v), schema: labels, help };
            (name, Describable::wrap(bundle))
        },
    }
}

/// Builds the name and table entry for a user-supplied, pre-built
/// histogram or histogram family; see [`external_counter_entry`].
pub fn external_histogram_entry(metric: Either<Histogram, HistogramFamily>) -> (r: (
    String,
    Describable<Bundle<Histogram, HistogramFamily>>,
))
    ensures
        r.1.wf(),
        r.1.metric.wf(),
        r.1.description@.len() == 0,
        r.1.metric.metric == metric,
        metric matches Either::Single(c) ==> r.0@ == histogram_desc_of(c).0 && r.1.metric.help@
            == histogram_desc_of(c).1,
        metric matches Either::Vec(v) ==> r.0@ == histogram_family_desc_of(v).0 && r.1.metric.help@
            == histogram_family_desc_of(v).1,
{
    match metric {
        Either::Single(c) => {
            let (name, help) = histogram_desc(&c);
            let bundle = Bundle { metric: Either::Single(c), schema: Vec::new(), help };
            (name, Describable::wrap(bundle))
        },
        Either::Vec(v) => {
            let (name, help, labels) = histogram_family_desc(&v);
            let bundle = Bundle { metric: Either::Vec(v), schema: labels, help };
            (name, Describable::wrap(bundle))
        },
    }
}

} // verus!
