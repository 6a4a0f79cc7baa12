//! The probe's measurement: its typed result, the decoding of the probe's
//! JSON output into it, and the exact millisecond-to-second conversions.
//!
//! Every duration is held as a whole number of microseconds, so the
//! conversions are exact integer arithmetic. Decoding is an exact function
//! of the input text: `from_json` returns `spec_from_json` of it, member by
//! member. A measurement either decodes completely or not at all: any
//! missing member, wrong type or out-of-range number yields an error and no
//! result.

use vstd::prelude::*;

use crate::json;
use crate::json::{doc_member, json_doc_of, JsonDoc};
use crate::numbers;

verus! {

/// Largest microsecond count a decoded millisecond figure can carry
/// (the digit parser accepts at most twelve integer digits).
pub const MAX_MS_MICROS: i64 = 1_000_000_000_000_999;

/// Largest accepted elapsed time in milliseconds; keeps the microsecond
/// count of the converted value inside `i64`.
pub const MAX_ELAPSED_MILLIS: i64 = 1_000_000_000_000;

/// A duration in seconds, held as an exact count of microseconds
/// (millionths of a second). No floating point is involved; readers that
/// want a fractional figure divide by one million themselves.
#[derive(PartialEq, Eq, Structural, Clone, Copy, Debug)]
pub struct Seconds {
    /// Millionths of a second.
    pub micros: i64,
}

/// The latency detail nested under a transfer result: interquartile mean,
/// low, high and jitter, all in microseconds. Parsed for completeness of the
/// schema; not exported as metrics.
pub struct LatencyResult {
    pub iqm_micros: i64,
    pub low_micros: i64,
    pub high_micros: i64,
    pub jitter_micros: i64,
}

impl LatencyResult {
    /// Every figure came through the digit parser, so it is a bounded,
    /// non-negative microsecond count.
    pub open spec fn wf(self) -> bool {
        &&& 0 <= self.iqm_micros <= MAX_MS_MICROS
        &&& 0 <= self.low_micros <= MAX_MS_MICROS
        &&& 0 <= self.high_micros <= MAX_MS_MICROS
        &&& 0 <= self.jitter_micros <= MAX_MS_MICROS
    }
}

/// The ping section of a measurement: latency, low, high and jitter,
/// reported by the probe in milliseconds and held in microseconds.
pub struct PingResult {
    pub jitter_micros: i64,
    pub latency_micros: i64,
    pub low_micros: i64,
    pub high_micros: i64,
}

/// The second count `latency_seconds` returns: the stored microsecond count
/// unchanged, since a microsecond is a millionth of a second.
pub open spec fn spec_latency_seconds(p: PingResult) -> Seconds {
    Seconds { micros: p.latency_micros }
}

pub open spec fn spec_low_seconds(p: PingResult) -> Seconds {
    Seconds { micros: p.low_micros }
}

pub open spec fn spec_high_seconds(p: PingResult) -> Seconds {
    Seconds { micros: p.high_micros }
}

impl PingResult {
    pub open spec fn wf(self) -> bool {
        &&& 0 <= self.jitter_micros <= MAX_MS_MICROS
        &&& 0 <= self.latency_micros <= MAX_MS_MICROS
        &&& 0 <= self.low_micros <= MAX_MS_MICROS
        &&& 0 <= self.high_micros <= MAX_MS_MICROS
    }

    /// The ping latency as seconds.
    pub fn latency_seconds(&self) -> (r: Seconds)
        ensures
            r == spec_latency_seconds(*self),
    {
        Seconds { micros: self.latency_micros }
    }

    /// The lowest ping round trip as seconds.
    pub fn low_seconds(&self) -> (r: Seconds)
        ensures
            r == spec_low_seconds(*self),
    {
        Seconds { micros: self.low_micros }
    }

    /// The highest ping round trip as seconds.
    pub fn high_seconds(&self) -> (r: Seconds)
        ensures
            r == spec_high_seconds(*self),
    {
        Seconds { micros: self.high_micros }
    }
}

/// One transfer direction (download or upload): bandwidth in bytes per
/// second, bytes moved, elapsed time in whole milliseconds, and the latency
/// detail under load.
pub struct TestResult {
    pub bandwidth: i64,
    pub bytes: i64,
    pub elapsed: i64,
    pub latency: LatencyResult,
}

/// The second count `elapsed_seconds` returns: a millisecond is a thousand
/// microseconds.
pub open spec fn spec_elapsed_seconds(t: TestResult) -> Seconds {
    Seconds { micros: (1000 * t.elapsed) as i64 }
}

impl TestResult {
    pub open spec fn wf(self) -> bool {
        &&& 0 <= self.elapsed <= MAX_ELAPSED_MILLIS
        &&& self.latency.wf()
    }

    /// The elapsed time as seconds.
    pub fn elapsed_seconds(&self) -> (r: Seconds)
        requires
            0 <= self.elapsed <= MAX_ELAPSED_MILLIS,
        ensures
            r == spec_elapsed_seconds(*self),
            r.micros == 1000 * self.elapsed,
    {
        Seconds { micros: 1000 * self.elapsed }
    }
}

/// The server the probe measured against. Only id and name become metric
/// dimensions; the rest is parsed and kept for completeness.
pub struct Server {
    pub id: u64,
    pub name: String,
    pub location: String,
    pub country: String,
    pub host: String,
    pub port: u16,
    pub ip: String,
}

/// One complete, successfully decoded measurement.
pub struct SpeedtestResult {
    pub ping: PingResult,
    pub download: TestResult,
    pub upload: TestResult,
    pub server: Server,
    pub isp: String,
}

impl SpeedtestResult {
    pub open spec fn wf(self) -> bool {
        &&& self.ping.wf()
        &&& self.download.wf()
        &&& self.upload.wf()
    }
}

/// Why a probe's output did not decode.
#[derive(PartialEq, Eq, Structural, Clone, Copy, Debug)]
pub enum ParseError {
    /// The output is not a complete JSON document.
    Syntax,
    /// A member of the measurement schema is missing or has the wrong type.
    Schema,
    /// A number lies outside what the library accepts (negative, exponent
    /// form, or too large for its microsecond fixed point).
    Range,
}

/// Why a probe cycle yielded no measurement.
#[derive(PartialEq, Eq, Structural, Clone, Copy, Debug)]
pub enum ProbeError {
    /// The probe subprocess could not be started at all.
    LaunchFailure,
    /// The probe ran and exited with this non-zero status code.
    ProcessFailure(i32),
    /// The probe's output did not decode as a measurement.
    ParseFailure(ParseError),
}

/// A millisecond figure under `key`: its exact microsecond count, `Schema`
/// where the member is missing or no number, `Range` where the number is no
/// acceptable millisecond text.
pub open spec fn spec_ms_member(d: JsonDoc, key: Seq<char>) -> Result<i64, ParseError> {
    match doc_member(d, key) {
        None => Err(ParseError::Schema),
        Some(f) => match f {
            JsonDoc::Number(t) => if numbers::valid_ms_text(t@) {
                Ok(numbers::ms_text_micros(t@) as i64)
            } else {
                Err(ParseError::Range)
            },
            _ => Err(ParseError::Schema),
        },
    }
}

fn ms_field(d: &JsonDoc, key: &str) -> (r: Result<i64, ParseError>)
    ensures
        r == spec_ms_member(*d, key@),
        r matches Ok(m) ==> 0 <= m <= MAX_MS_MICROS,
{
    match json::member(d, key) {
        None => Err(ParseError::Schema),
        Some(f) => match f {
            JsonDoc::Number(t) => match numbers::parse_millis_to_micros(t.as_slice()) {
                None => Err(ParseError::Range),
                Some(m) => Ok(m),
            },
            _ => Err(ParseError::Schema),
        },
    }
}

/// A whole-number figure under `key`: its exact value, `Schema` where the
/// member is missing, no number, or no acceptable whole-number text.
pub open spec fn spec_int_member(d: JsonDoc, key: Seq<char>) -> Result<i64, ParseError> {
    match doc_member(d, key) {
        None => Err(ParseError::Schema),
        Some(f) => match f {
            JsonDoc::Number(t) => if numbers::valid_int_text(t@) {
                Ok(numbers::int_text_val(t@) as i64)
            } else {
                Err(ParseError::Schema)
            },
            _ => Err(ParseError::Schema),
        },
    }
}

fn i64_field(d: &JsonDoc, key: &str) -> (r: Result<i64, ParseError>)
    ensures
        r == spec_int_member(*d, key@),
{
    match json::member(d, key) {
        None => Err(ParseError::Schema),
        Some(f) => match f {
            JsonDoc::Number(t) => match numbers::parse_int_text(t.as_slice()) {
                None => Err(ParseError::Schema),
                Some(v) => Ok(v),
            },
            _ => Err(ParseError::Schema),
        },
    }
}

/// A non-negative whole-number figure under `key`.
pub open spec fn spec_u64_member(d: JsonDoc, key: Seq<char>) -> Result<u64, ParseError> {
    match spec_int_member(d, key) {
        Err(e) => Err(e),
        Ok(v) => if v < 0 {
            Err(ParseError::Schema)
        } else {
            Ok(v as u64)
        },
    }
}

fn u64_field(d: &JsonDoc, key: &str) -> (r: Result<u64, ParseError>)
    ensures
        r == spec_u64_member(*d, key@),
{
    match i64_field(d, key) {
        Err(e) => Err(e),
        Ok(v) => if v < 0 {
            Err(ParseError::Schema)
        } else {
            Ok(v as u64)
        },
    }
}

/// A string under `key`.
pub open spec fn spec_string_member(d: JsonDoc, key: Seq<char>) -> Result<String, ParseError> {
    match doc_member(d, key) {
        None => Err(ParseError::Schema),
        Some(f) => match f {
            JsonDoc::Str(s) => Ok(s),
            _ => Err(ParseError::Schema),
        },
    }
}

fn string_field(d: &JsonDoc, key: &str) -> (r: Result<String, ParseError>)
    ensures
        r == spec_string_member(*d, key@),
{
    match json::member(d, key) {
        None => Err(ParseError::Schema),
        Some(f) => match f {
            JsonDoc::Str(s) => Ok(s.clone()),
            _ => Err(ParseError::Schema),
        },
    }
}

/// The latency detail a document decodes to.
pub open spec fn spec_decode_latency(d: JsonDoc) -> Result<LatencyResult, ParseError> {
    match spec_ms_member(d, "iqm"@) {
        Err(e) => Err(e),
        Ok(iqm) => match spec_ms_member(d, "low"@) {
            Err(e) => Err(e),
            Ok(low) => match spec_ms_member(d, "high"@) {
                Err(e) => Err(e),
                Ok(high) => match spec_ms_member(d, "jitter"@) {
                    Err(e) => Err(e),
                    Ok(jitter) => Ok(
                        LatencyResult {
                            iqm_micros: iqm,
                            low_micros: low,
                            high_micros: high,
                            jitter_micros: jitter,
                        },
                    ),
                },
            },
        },
    }
}

fn decode_latency(d: &JsonDoc) -> (r: Result<LatencyResult, ParseError>)
    ensures
        r == spec_decode_latency(*d),
        r matches Ok(l) ==> l.wf(),
{
    let iqm_micros = match ms_field(d, "iqm") {
        Ok(m) => m,
        Err(e) => return Err(e),
    };
    let low_micros = match ms_field(d, "low") {
        Ok(m) => m,
        Err(e) => return Err(e),
    };
    let high_micros = match ms_field(d, "high") {
        Ok(m) => m,
        Err(e) => return Err(e),
    };
    let jitter_micros = match ms_field(d, "jitter") {
        Ok(m) => m,
        Err(e) => return Err(e),
    };
    Ok(LatencyResult { iqm_micros, low_micros, high_micros, jitter_micros })
}

/// The ping section a document decodes to.
pub open spec fn spec_decode_ping(d: JsonDoc) -> Result<PingResult, ParseError> {
    match spec_ms_member(d, "jitter"@) {
        Err(e) => Err(e),
        Ok(jitter) => match spec_ms_member(d, "latency"@) {
            Err(e) => Err(e),
            Ok(latency) => match spec_ms_member(d, "low"@) {
                Err(e) => Err(e),
                Ok(low) => match spec_ms_member(d, "high"@) {
                    Err(e) => Err(e),
                    Ok(high) => Ok(
                        PingResult {
                            jitter_micros: jitter,
                            latency_micros: latency,
                            low_micros: low,
                            high_micros: high,
                        },
                    ),
                },
            },
        },
    }
}

fn decode_ping(d: &JsonDoc) -> (r: Result<PingResult, ParseError>)
    ensures
        r == spec_decode_ping(*d),
        r matches Ok(p) ==> p.wf(),
{
    let jitter_micros = match ms_field(d, "jitter") {
        Ok(m) => m,
        Err(e) => return Err(e),
    };
    let latency_micros = match ms_field(d, "latency") {
        Ok(m) => m,
        Err(e) => return Err(e),
    };
    let low_micros = match ms_field(d, "low") {
        Ok(m) => m,
        Err(e) => return Err(e),
    };
    let high_micros = match ms_field(d, "high") {
        Ok(m) => m,
        Err(e) => return Err(e),
    };
    Ok(PingResult { jitter_micros, latency_micros, low_micros, high_micros })
}

/// The transfer section a document decodes to.
pub open spec fn spec_decode_test(d: JsonDoc) -> Result<TestResult, ParseError> {
    match spec_int_member(d, "bandwidth"@) {
        Err(e) => Err(e),
        Ok(bandwidth) => match spec_int_member(d, "bytes"@) {
            Err(e) => Err(e),
            Ok(bytes) => match spec_int_member(d, "elapsed"@) {
                Err(e) => Err(e),
                Ok(elapsed) => if elapsed < 0 || elapsed > MAX_ELAPSED_MILLIS {
                    Err(ParseError::Range)
                } else {
                    match doc_member(d, "latency"@) {
                        None => Err(ParseError::Schema),
                        Some(ld) => match spec_decode_latency(ld) {
                            Err(e) => Err(e),
                            Ok(latency) => Ok(TestResult { bandwidth, bytes, elapsed, latency }),
                        },
                    }
                },
            },
        },
    }
}

fn decode_test(d: &JsonDoc) -> (r: Result<TestResult, ParseError>)
    ensures
        r == spec_decode_test(*d),
        r matches Ok(t) ==> t.wf(),
{
    let bandwidth = match i64_field(d, "bandwidth") {
        Ok(v) => v,
        Err(e) => return Err(e),
    };
    let bytes = match i64_field(d, "bytes") {
        Ok(v) => v,
        Err(e) => return Err(e),
    };
    let elapsed = match i64_field(d, "elapsed") {
        Ok(v) => v,
        Err(e) => return Err(e),
    };
    if elapsed < 0 || elapsed > MAX_ELAPSED_MILLIS {
        return Err(ParseError::Range);
    }
    let latency_doc = match json::member(d, "latency") {
        Some(f) => f,
        None => return Err(ParseError::Schema),
    };
    let latency = match decode_latency(latency_doc) {
        Ok(l) => l,
        Err(e) => return Err(e),
    };
    Ok(TestResult { bandwidth, bytes, elapsed, latency })
}

/// The server section a document decodes to.
pub open spec fn spec_decode_server(d: JsonDoc) -> Result<Server, ParseError> {
    match spec_u64_member(d, "id"@) {
        Err(e) => Err(e),
        Ok(id) => match spec_string_member(d, "name"@) {
            Err(e) => Err(e),
            Ok(name) => match spec_string_member(d, "location"@) {
                Err(e) => Err(e),
                Ok(location) => match spec_string_member(d, "country"@) {
                    Err(e) => Err(e),
                    Ok(country) => match spec_string_member(d, "host"@) {
                        Err(e) => Err(e),
                        Ok(host) => match spec_u64_member(d, "port"@) {
                            Err(e) => Err(e),
                            Ok(port_wide) => if port_wide > 65535 {
                                Err(ParseError::Range)
                            } else {
                                match spec_string_member(d, "ip"@) {
                                    Err(e) => Err(e),
                                    Ok(ip) => Ok(
                                        Server {
                                            id,
                                            name,
                                            location,
                                            country,
                                            host,
                                            port: port_wide as u16,
                                            ip,
                                        },
                                    ),
                                }
                            },
                        },
                    },
                },
            },
        },
    }
}

fn decode_server(d: &JsonDoc) -> (r: Result<Server, ParseError>)
    ensures
        r == spec_decode_server(*d),
{
    let id = match u64_field(d, "id") {
        Ok(v) => v,
        Err(e) => return Err(e),
    };
    let name = match string_field(d, "name") {
        Ok(s) => s,
        Err(e) => return Err(e),
    };
    let location = match string_field(d, "location") {
        Ok(s) => s,
        Err(e) => return Err(e),
    };
    let country = match string_field(d, "country") {
        Ok(s) => s,
        Err(e) => return Err(e),
    };
    let host = match string_field(d, "host") {
        Ok(s) => s,
        Err(e) => return Err(e),
    };
    let port_wide = match u64_field(d, "port") {
        Ok(v) => v,
        Err(e) => return Err(e),
    };
    if port_wide > 65535 {
        return Err(ParseError::Range);
    }
    let ip = match string_field(d, "ip") {
        Ok(s) => s,
        Err(e) => return Err(e),
    };
    Ok(Server { id, name, location, country, host, port: port_wide as u16, ip })
}

/// The measurement a document decodes to, section by section.
pub open spec fn spec_decode_measurement(d: JsonDoc) -> Result<SpeedtestResult, ParseError> {
    match doc_member(d, "ping"@) {
        None => Err(ParseError::Schema),
        Some(pd) => match spec_decode_ping(pd) {
            Err(e) => Err(e),
            Ok(ping) => match doc_member(d, "download"@) {
                None => Err(ParseError::Schema),
                Some(dd) => match spec_decode_test(dd) {
                    Err(e) => Err(e),
                    Ok(download) => match doc_member(d, "upload"@) {
                        None => Err(ParseError::Schema),
                        Some(ud) => match spec_decode_test(ud) {
                            Err(e) => Err(e),
                            Ok(upload) => match doc_member(d, "server"@) {
                                None => Err(ParseError::Schema),
                                Some(sd) => match spec_decode_server(sd) {
                                    Err(e) => Err(e),
                                    Ok(server) => match spec_string_member(d, "isp"@) {
                                        Err(e) => Err(e),
                                        Ok(isp) => Ok(
                                            SpeedtestResult { ping, download, upload, server, isp },
                                        ),
                                    },
                                },
                            },
                        },
                    },
                },
            },
        },
    }
}

/// The measurement a JSON text denotes: `Syntax` where serde_json accepts
/// no document, otherwise the member-by-member decode of that document.
pub open spec fn spec_from_json(text: Seq<char>) -> Result<SpeedtestResult, ParseError> {
    match json_doc_of(text) {
        None => Err(ParseError::Syntax),
        Some(d) => spec_decode_measurement(d),
    }
}

impl SpeedtestResult {
    /// Decodes one probe output: exactly `spec_from_json` of the text, so
    /// equal texts decode to equal outcomes. Either every member of the
    /// schema is present, well typed and in range — then a complete,
    /// well-formed measurement is returned — or an error is, and no
    /// measurement exists.
    pub fn from_json(text: &str) -> (r: Result<SpeedtestResult, ParseError>)
        ensures
            r == spec_from_json(text@),
            r matches Ok(m) ==> m.wf(),
    {
        match json::parse_json_text(text) {
            None => Err(ParseError::Syntax),
            Some(d) => Self::decode_value(&d),
        }
    }

    /// Decodes the document model of one probe output.
    fn decode_value(d: &JsonDoc) -> (r: Result<SpeedtestResult, ParseError>)
        ensures
            r == spec_decode_measurement(*d),
            r matches Ok(m) ==> m.wf(),
    {
        let ping_doc = match json::member(d, "ping") {
            Some(f) => f,
            None => return Err(ParseError::Schema),
        };
        let ping = match decode_ping(ping_doc) {
            Ok(p) => p,
            Err(e) => return Err(e),
        };
        let download_doc = match json::member(d, "download") {
            Some(f) => f,
            None => return Err(ParseError::Schema),
        };
        let download = match decode_test(download_doc) {
            Ok(t) => t,
            Err(e) => return Err(e),
        };
        let upload_doc = match json::member(d, "upload") {
            Some(f) => f,
            None => return Err(ParseError::Schema),
        };
        let upload = match decode_test(upload_doc) {
            Ok(t) => t,
            Err(e) => return Err(e),
        };
        let server_doc = match json::member(d, "server") {
            Some(f) => f,
            None => return Err(ParseError::Schema),
        };
        let server = match decode_server(server_doc) {
            Ok(s) => s,
            Err(e) => return Err(e),
        };
        let isp = match string_field(d, "isp") {
            Ok(s) => s,
            Err(e) => return Err(e),
        };
        Ok(SpeedtestResult { ping, download, upload, server, isp })
    }
}

/// Unit law: the elapsed time exports as exactly its millisecond count
/// divided by a thousand. In the microsecond fixed point that reads: the
/// exported second count carries a thousand microseconds per millisecond.
pub proof fn lemma_elapsed_seconds_unit(t: TestResult)
    requires
        0 <= t.elapsed <= MAX_ELAPSED_MILLIS,
    ensures
        spec_elapsed_seconds(t).micros == 1000 * t.elapsed,
{
}

/// Unit law: a ping figure of some milliseconds, read exactly by the digit
/// parser, exports as exactly that figure divided by a thousand: the second
/// count in microseconds equals the millisecond text's microsecond reading.
pub proof fn lemma_ping_seconds_unit(p: PingResult, text: Seq<u8>)
    requires
        numbers::valid_ms_text(text),
        p.latency_micros == numbers::ms_text_micros(text),
    ensures
        spec_latency_seconds(p).micros == numbers::ms_text_micros(text),
{
}

} // verus!
