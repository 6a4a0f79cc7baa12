//! The gauges the measurements are projected onto.
//!
//! A gauge is a named metric split into time series by a tuple of label
//! values (server name, server id, ISP). Setting a value for a label tuple
//! replaces that series' value or creates the series; series are never
//! removed, so a later probe against another server leaves the old series in
//! place with its last value.

use vstd::prelude::*;

use crate::speedtest::SpeedtestResult;

verus! {

/// The label values that distinguish one time series from another: the
/// measured server's name and id, and the ISP the probe saw.
pub struct Labels {
    pub server_name: String,
    pub server_id: u64,
    pub isp: String,
}

impl View for Labels {
    type V = (Seq<char>, u64, Seq<char>);

    open spec fn view(&self) -> (Seq<char>, u64, Seq<char>) {
        (self.server_name@, self.server_id, self.isp@)
    }
}

impl Labels {
    /// Whether two label tuples name the same time series.
    pub fn same_as(&self, other: &Labels) -> (r: bool)
        ensures
            r == (self@ == other@),
    {
        self.server_name == other.server_name && self.server_id == other.server_id && self.isp
            == other.isp
    }
}

/// The label tuple a measurement's series carry.
pub open spec fn labels_of(r: SpeedtestResult) -> (Seq<char>, u64, Seq<char>) {
    (r.server.name@, r.server.id, r.isp@)
}

/// Builds the label values for a measurement.
fn labels_for(r: &SpeedtestResult) -> (l: Labels)
    ensures
        l@ == labels_of(*r),
{
    Labels { server_name: r.server.name.clone(), server_id: r.server.id, isp: r.isp.clone() }
}

/// One time series of a gauge: a label tuple and its last-set value.
pub struct SeriesEntry {
    pub labels: Labels,
    pub value: i64,
}

/// The value of the series under label tuple `l`, if such a series exists.
pub open spec fn series_lookup(s: Seq<SeriesEntry>, l: (Seq<char>, u64, Seq<char>)) -> Option<i64>
    decreases s.len(),
{
    if s.len() == 0 {
        None
    } else if s.last().labels@ == l {
        Some(s.last().value)
    } else {
        series_lookup(s.drop_last(), l)
    }
}

/// No two series of one gauge carry the same label tuple.
pub open spec fn labels_unique(s: Seq<SeriesEntry>) -> bool {
    forall|i: int, j: int| 0 <= i < j < s.len() ==> s[i].labels@ != s[j].labels@
}

/// A named gauge and all the time series it has ever observed.
pub struct Gauge {
    pub name: String,
    pub help: String,
    /// True where the stored values are microsecond counts (fixed-point
    /// seconds); false where they are plain integers such as byte counts.
    pub micro_scaled: bool,
    pub entries: Vec<SeriesEntry>,
}

impl Gauge {
    pub open spec fn wf(self) -> bool {
        labels_unique(self.entries@)
    }

    /// The current value of the series under `l`.
    pub open spec fn series(self, l: (Seq<char>, u64, Seq<char>)) -> Option<i64> {
        series_lookup(self.entries@, l)
    }
}

/// What one `set` call does to a gauge: the series under `l` now holds `v`,
/// every other series is untouched, and name, help and scale are kept.
pub open spec fn gauge_updated(g0: Gauge, g1: Gauge, l: (Seq<char>, u64, Seq<char>), v: i64) -> bool {
    &&& g1.wf()
    &&& g1.name@ == g0.name@
    &&& g1.help@ == g0.help@
    &&& g1.micro_scaled == g0.micro_scaled
    &&& g1.series(l) == Some(v)
    &&& forall|k: (Seq<char>, u64, Seq<char>)| k != l ==> g1.series(k) == g0.series(k)
}

/// A fresh gauge with no series yet.
fn fresh(name: &str, help: &str, micro_scaled: bool) -> (g: Gauge)
    ensures
        g.wf(),
        g.name@ == name@,
        g.help@ == help@,
        g.micro_scaled == micro_scaled,
        g.entries@.len() == 0,
        forall|l: (Seq<char>, u64, Seq<char>)| g.series(l) is None,
{
    let g = Gauge { name: name.to_owned(), help: help.to_owned(), micro_scaled, entries: Vec::new() };
    proof {
        assert forall|l: (Seq<char>, u64, Seq<char>)| g.series(l) is None by {
            assert(series_lookup(g.entries@, l) is None);
        }
    }
    g
}

/// Registers a gauge whose values are fixed-point seconds (microsecond
/// counts).
pub fn register(name: &str, help: &str) -> (g: Gauge)
    ensures
        g.wf(),
        g.name@ == name@,
        g.help@ == help@,
        g.micro_scaled == true,
        g.entries@.len() == 0,
        forall|l: (Seq<char>, u64, Seq<char>)| g.series(l) is None,
{
    fresh(name, help, true)
}

/// Registers a gauge whose values are plain integers.
pub fn register_int(name: &str, help: &str) -> (g: Gauge)
    ensures
        g.wf(),
        g.name@ == name@,
        g.help@ == help@,
        g.micro_scaled == false,
        g.entries@.len() == 0,
        forall|l: (Seq<char>, u64, Seq<char>)| g.series(l) is None,
{
    fresh(name, help, false)
}

/// Replacing the entry under `l` (labels kept, value swapped) updates that
/// series and no other.
proof fn lemma_lookup_update(s: Seq<SeriesEntry>, i: int, e: SeriesEntry)
    requires
        labels_unique(s),
        0 <= i < s.len(),
        e.labels@ == s[i].labels@,
    ensures
        labels_unique(s.update(i, e)),
        series_lookup(s.update(i, e), e.labels@) == Some(e.value),
        forall|k: (Seq<char>, u64, Seq<char>)|
            k != e.labels@ ==> series_lookup(s.update(i, e), k) == series_lookup(s, k),
    decreases s.len(),
{
    let t = s.update(i, e);
    assert forall|a: int, b: int| 0 <= a < b < t.len() implies t[a].labels@ != t[b].labels@ by {
        assert(s[a].labels@ != s[b].labels@);
    }
    if i == s.len() - 1 {
        assert(t.last() == e);
        assert(t.drop_last() =~= s.drop_last());
        assert(s.last().labels@ == e.labels@);
        assert forall|k: (Seq<char>, u64, Seq<char>)| k != e.labels@ implies series_lookup(
            t,
            k,
        ) == series_lookup(s, k) by {
            assert(series_lookup(t, k) == series_lookup(t.drop_last(), k));
            assert(series_lookup(s, k) == series_lookup(s.drop_last(), k));
        }
    } else {
        assert(t.last() == s.last());
        assert(t.drop_last() =~= s.drop_last().update(i, e));
        assert(s.last().labels@ != s[i].labels@);
        lemma_lookup_update(s.drop_last(), i, e);
        assert(series_lookup(t, e.labels@) == Some(e.value));
        assert forall|k: (Seq<char>, u64, Seq<char>)| k != e.labels@ implies series_lookup(
            t,
            k,
        ) == series_lookup(s, k) by {
            if t.last().labels@ != k {
                assert(series_lookup(t, k) == series_lookup(t.drop_last(), k));
                assert(series_lookup(s, k) == series_lookup(s.drop_last(), k));
                assert(series_lookup(s.drop_last().update(i, e), k) == series_lookup(
                    s.drop_last(),
                    k,
                ));
            }
        }
    }
}

/// Appending an entry whose labels no existing series carries creates that
/// series and leaves every other untouched.
proof fn lemma_lookup_push(s: Seq<SeriesEntry>, e: SeriesEntry)
    requires
        labels_unique(s),
        forall|j: int| 0 <= j < s.len() ==> s[j].labels@ != e.labels@,
    ensures
        labels_unique(s.push(e)),
        series_lookup(s.push(e), e.labels@) == Some(e.value),
        forall|k: (Seq<char>, u64, Seq<char>)|
            k != e.labels@ ==> series_lookup(s.push(e), k) == series_lookup(s, k),
{
    let t = s.push(e);
    assert(t.last() == e);
    assert(t.drop_last() =~= s);
    assert forall|a: int, b: int| 0 <= a < b < t.len() implies t[a].labels@ != t[b].labels@ by {
        if b < s.len() {
            assert(s[a].labels@ != s[b].labels@);
        } else {
            assert(t[b] == e);
            assert(s[a].labels@ != e.labels@);
        }
    }
}

impl Gauge {
    /// Reads the current value of the series under the given label tuple:
    /// exactly what the last `set` for those labels stored, or `None` where
    /// no probe ever reported them.
    pub fn value_of(&self, labels: &Labels) -> (r: Option<i64>)
        ensures
            r == self.series(labels@),
    {
        let mut i: usize = self.entries.len();
        proof {
            assert(self.entries@.take(i as int) =~= self.entries@);
        }
        while i > 0
            invariant
                0 <= i <= self.entries@.len(),
                series_lookup(self.entries@, labels@) == series_lookup(
                    self.entries@.take(i as int),
                    labels@,
                ),
            decreases i,
        {
            i = i - 1;
            proof {
                assert(self.entries@.take(i + 1).drop_last() =~= self.entries@.take(i as int));
                assert(self.entries@.take(i + 1).last() == self.entries@[i as int]);
            }
            if self.entries[i].labels.same_as(labels) {
                return Some(self.entries[i].value);
            }
        }
        None
    }

    /// Sets the gauge's value for the measurement's label tuple: the series
    /// under those labels now holds `value` (created if it never existed),
    /// and no other series changes.
    pub fn set(&mut self, value: i64, result: &SpeedtestResult)
        requires
            old(self).wf(),
        ensures
            gauge_updated(*old(self), *final(self), labels_of(*result), value),
    {
        let labels = labels_for(result);
        let n = self.entries.len();
        let mut i: usize = 0;
        while i < n
            invariant
                0 <= i <= n,
                n == self.entries@.len(),
                *self == *old(self),
                self.wf(),
                labels@ == labels_of(*result),
                forall|j: int| 0 <= j < i ==> self.entries@[j].labels@ != labels@,
            decreases n - i,
        {
            if self.entries[i].labels.same_as(&labels) {
                let entry = SeriesEntry { labels, value };
                proof {
                    lemma_lookup_update(self.entries@, i as int, entry);
                }
                self.entries[i] = entry;
                return
            }
            i = i + 1;
        }
        let entry = SeriesEntry { labels, value };
        proof {
            lemma_lookup_push(self.entries@, entry);
        }
        self.entries.push(entry);
    }
}

} // verus!
