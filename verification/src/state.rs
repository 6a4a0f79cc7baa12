//! The registry the scheduler writes and the scrape endpoint reads: one
//! gauge per tracked quantity, all updated together from one measurement.

use vstd::prelude::*;

use crate::metrics::{register, register_int, Gauge, gauge_updated, labels_of, series_lookup};
use crate::speedtest::{ProbeError, SpeedtestResult};

verus! {

/// Every registered gauge. Constructed once at startup; the scheduler
/// applies each completed measurement to all gauges in one call, so a reader
/// holding the state between calls sees either no gauge or every gauge
/// reflecting a given probe.
pub struct AppState {
    pub ping_latency_gauge: Gauge,
    pub ping_low_gauge: Gauge,
    pub ping_high_gauge: Gauge,
    pub download_bytes_gauge: Gauge,
    pub download_bandwidth_bytes_gauge: Gauge,
    pub download_elapsed_seconds_gauge: Gauge,
    pub upload_bytes_gauge: Gauge,
    pub upload_bandwidth_bytes_gauge: Gauge,
    pub upload_elapsed_seconds_gauge: Gauge,
}

impl AppState {
    /// Every gauge keeps series with pairwise distinct label tuples.
    pub open spec fn wf(self) -> bool {
        &&& self.ping_latency_gauge.wf()
        &&& self.ping_low_gauge.wf()
        &&& self.ping_high_gauge.wf()
        &&& self.download_bytes_gauge.wf()
        &&& self.download_bandwidth_bytes_gauge.wf()
        &&& self.download_elapsed_seconds_gauge.wf()
        &&& self.upload_bytes_gauge.wf()
        &&& self.upload_bandwidth_bytes_gauge.wf()
        &&& self.upload_elapsed_seconds_gauge.wf()
    }

    /// Registers the full gauge set, each with its fixed name and help text
    /// and no series yet.
    pub fn new() -> (r: AppState)
        ensures
            r.wf(),
            r.ping_latency_gauge.entries@.len() == 0,
            r.ping_low_gauge.entries@.len() == 0,
            r.ping_high_gauge.entries@.len() == 0,
            r.download_bytes_gauge.entries@.len() == 0,
            r.download_bandwidth_bytes_gauge.entries@.len() == 0,
            r.download_elapsed_seconds_gauge.entries@.len() == 0,
            r.upload_bytes_gauge.entries@.len() == 0,
            r.upload_bandwidth_bytes_gauge.entries@.len() == 0,
            r.upload_elapsed_seconds_gauge.entries@.len() == 0,
            r.ping_latency_gauge.name@ == "speedtest_ping_latency_seconds"@,
            r.ping_low_gauge.name@ == "speedtest_ping_low_seconds"@,
            r.ping_high_gauge.name@ == "speedtest_ping_high_seconds"@,
            r.download_bytes_gauge.name@ == "speedtest_download_bytes"@,
            r.download_bandwidth_bytes_gauge.name@ == "speedtest_download_bandwidth_bytes"@,
            r.download_elapsed_seconds_gauge.name@ == "speedtest_download_elapsed_seconds"@,
            r.upload_bytes_gauge.name@ == "speedtest_upload_bytes"@,
            r.upload_bandwidth_bytes_gauge.name@ == "speedtest_upload_bandwidth_bytes"@,
            r.upload_elapsed_seconds_gauge.name@ == "speedtest_upload_elapsed_seconds"@,
            r.ping_latency_gauge.help@ == "Speedtest ping latency in seconds"@,
            r.ping_low_gauge.help@ == "Speedtest ping low in seconds"@,
            r.ping_high_gauge.help@ == "Speedtest ping high in seconds"@,
            r.download_bytes_gauge.help@ == "Number of bytes downloaded during speedtest"@,
            r.download_bandwidth_bytes_gauge.help@
                == "Speedtest download bandwidth in bytes per second"@,
            r.download_elapsed_seconds_gauge.help@
                == "Speedtest download elapsed time in seconds"@,
            r.upload_bytes_gauge.help@ == "Number of bytes uploaded during speedtest"@,
            r.upload_bandwidth_bytes_gauge.help@
                == "Speedtest upload bandwidth in bytes per second"@,
            r.upload_elapsed_seconds_gauge.help@ == "Speedtest upload elapsed time in seconds"@,
            r.ping_latency_gauge.micro_scaled,
            r.ping_low_gauge.micro_scaled,
            r.ping_high_gauge.micro_scaled,
            !r.download_bytes_gauge.micro_scaled,
            !r.download_bandwidth_bytes_gauge.micro_scaled,
            r.download_elapsed_seconds_gauge.micro_scaled,
            !r.upload_bytes_gauge.micro_scaled,
            !r.upload_bandwidth_bytes_gauge.micro_scaled,
            r.upload_elapsed_seconds_gauge.micro_scaled,
    {
        AppState {
            ping_latency_gauge: register(
                "speedtest_ping_latency_seconds",
                "Speedtest ping latency in seconds",
            ),
            ping_low_gauge: register("speedtest_ping_low_seconds", "Speedtest ping low in seconds"),
            ping_high_gauge: register(
                "speedtest_ping_high_seconds",
                "Speedtest ping high in seconds",
            ),
            download_bytes_gauge: register_int(
                "speedtest_download_bytes",
                "Number of bytes downloaded during speedtest",
            ),
            download_bandwidth_bytes_gauge: register_int(
                "speedtest_download_bandwidth_bytes",
                "Speedtest download bandwidth in bytes per second",
            ),
            download_elapsed_seconds_gauge: register(
                "speedtest_download_elapsed_seconds",
                "Speedtest download elapsed time in seconds",
            ),
            upload_bytes_gauge: register_int(
                "speedtest_upload_bytes",
                "Number of bytes uploaded during speedtest",
            ),
            upload_bandwidth_bytes_gauge: register_int(
                "speedtest_upload_bandwidth_bytes",
                "Speedtest upload bandwidth in bytes per second",
            ),
            upload_elapsed_seconds_gauge: register(
                "speedtest_upload_elapsed_seconds",
                "Speedtest upload elapsed time in seconds",
            ),
        }
    }
}

/// What applying one measurement does to the whole registry: under the
/// measurement's label tuple every gauge now holds that measurement's value
/// — latencies and elapsed times as microsecond counts, byte and bandwidth
/// figures as plain integers — and no other series of any gauge changes.
pub open spec fn state_updated(s0: AppState, s1: AppState, r: SpeedtestResult) -> bool {
    let l = labels_of(r);
    &&& gauge_updated(s0.ping_latency_gauge, s1.ping_latency_gauge, l, r.ping.latency_micros)
    &&& gauge_updated(s0.ping_low_gauge, s1.ping_low_gauge, l, r.ping.low_micros)
    &&& gauge_updated(s0.ping_high_gauge, s1.ping_high_gauge, l, r.ping.high_micros)
    &&& gauge_updated(s0.download_bytes_gauge, s1.download_bytes_gauge, l, r.download.bytes)
    &&& gauge_updated(
        s0.download_bandwidth_bytes_gauge,
        s1.download_bandwidth_bytes_gauge,
        l,
        r.download.bandwidth,
    )
    &&& gauge_updated(
        s0.download_elapsed_seconds_gauge,
        s1.download_elapsed_seconds_gauge,
        l,
        (1000 * r.download.elapsed) as i64,
    )
    &&& gauge_updated(s0.upload_bytes_gauge, s1.upload_bytes_gauge, l, r.upload.bytes)
    &&& gauge_updated(
        s0.upload_bandwidth_bytes_gauge,
        s1.upload_bandwidth_bytes_gauge,
        l,
        r.upload.bandwidth,
    )
    &&& gauge_updated(
        s0.upload_elapsed_seconds_gauge,
        s1.upload_elapsed_seconds_gauge,
        l,
        (1000 * r.upload.elapsed) as i64,
    )
}

impl AppState {
    /// Applies one completed measurement to every gauge. All nine series
    /// values under the measurement's label tuple are replaced together;
    /// nothing else changes.
    pub fn apply(&mut self, result: &SpeedtestResult)
        requires
            old(self).wf(),
            result.wf(),
        ensures
            final(self).wf(),
            state_updated(*old(self), *final(self), *result),
    {
        self.ping_latency_gauge.set(result.ping.latency_seconds().micros, result);
        self.ping_low_gauge.set(result.ping.low_seconds().micros, result);
        self.ping_high_gauge.set(result.ping.high_seconds().micros, result);
        self.download_bytes_gauge.set(result.download.bytes, result);
        self.download_bandwidth_bytes_gauge.set(result.download.bandwidth, result);
        self.download_elapsed_seconds_gauge.set(result.download.elapsed_seconds().micros, result);
        self.upload_bytes_gauge.set(result.upload.bytes, result);
        self.upload_bandwidth_bytes_gauge.set(result.upload.bandwidth, result);
        self.upload_elapsed_seconds_gauge.set(result.upload.elapsed_seconds().micros, result);
    }

    /// One scheduler tick's handling of a probe outcome. A completed
    /// measurement is applied to every gauge together; a failed probe leaves
    /// every gauge exactly as it was — no value changes, no series appears.
    pub fn probe_cycle(&mut self, outcome: Result<SpeedtestResult, ProbeError>)
        requires
            old(self).wf(),
            outcome matches Ok(r) ==> r.wf(),
        ensures
            final(self).wf(),
            outcome matches Ok(r) ==> state_updated(*old(self), *final(self), r),
            outcome is Err ==> *final(self) == *old(self),
    {
        match outcome {
            Ok(result) => self.apply(&result),
            Err(_) => (),
        }
    }
}

/// Two successive measurements against different label tuples leave one
/// gauge with both time series, each holding its own last-set value: series
/// are never evicted.
pub proof fn lemma_gauge_retains_series(
    g0: Gauge,
    g1: Gauge,
    g2: Gauge,
    l1: (Seq<char>, u64, Seq<char>),
    l2: (Seq<char>, u64, Seq<char>),
    v1: i64,
    v2: i64,
)
    requires
        l1 != l2,
        gauge_updated(g0, g1, l1, v1),
        gauge_updated(g1, g2, l2, v2),
    ensures
        g2.series(l1) == Some(v1),
        g2.series(l2) == Some(v2),
{
}

/// Two successive probe cycles that saw different server dimensions leave
/// the whole registry with both label tuples' series, each gauge holding,
/// under each tuple, the value of the measurement that set it last.
pub proof fn lemma_registry_retains_series(
    s0: AppState,
    s1: AppState,
    s2: AppState,
    r1: SpeedtestResult,
    r2: SpeedtestResult,
)
    requires
        labels_of(r1) != labels_of(r2),
        state_updated(s0, s1, r1),
        state_updated(s1, s2, r2),
    ensures
        s2.ping_latency_gauge.series(labels_of(r1)) == Some(r1.ping.latency_micros),
        s2.ping_latency_gauge.series(labels_of(r2)) == Some(r2.ping.latency_micros),
        s2.ping_low_gauge.series(labels_of(r1)) == Some(r1.ping.low_micros),
        s2.ping_low_gauge.series(labels_of(r2)) == Some(r2.ping.low_micros),
        s2.ping_high_gauge.series(labels_of(r1)) == Some(r1.ping.high_micros),
        s2.ping_high_gauge.series(labels_of(r2)) == Some(r2.ping.high_micros),
        s2.download_bytes_gauge.series(labels_of(r1)) == Some(r1.download.bytes),
        s2.download_bytes_gauge.series(labels_of(r2)) == Some(r2.download.bytes),
        s2.download_bandwidth_bytes_gauge.series(labels_of(r1)) == Some(r1.download.bandwidth),
        s2.download_bandwidth_bytes_gauge.series(labels_of(r2)) == Some(r2.download.bandwidth),
        s2.download_elapsed_seconds_gauge.series(labels_of(r1)) == Some(
            (1000 * r1.download.elapsed) as i64,
        ),
        s2.download_elapsed_seconds_gauge.series(labels_of(r2)) == Some(
            (1000 * r2.download.elapsed) as i64,
        ),
        s2.upload_bytes_gauge.series(labels_of(r1)) == Some(r1.upload.bytes),
        s2.upload_bytes_gauge.series(labels_of(r2)) == Some(r2.upload.bytes),
        s2.upload_bandwidth_bytes_gauge.series(labels_of(r1)) == Some(r1.upload.bandwidth),
        s2.upload_bandwidth_bytes_gauge.series(labels_of(r2)) == Some(r2.upload.bandwidth),
        s2.upload_elapsed_seconds_gauge.series(labels_of(r1)) == Some(
            (1000 * r1.upload.elapsed) as i64,
        ),
        s2.upload_elapsed_seconds_gauge.series(labels_of(r2)) == Some(
            (1000 * r2.upload.elapsed) as i64,
        ),
{
}

} // verus!
