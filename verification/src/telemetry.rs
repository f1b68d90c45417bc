//! Telemetry configuration: which exporter each signal uses, the
//! collector endpoint and protocol, and the service name, all read from
//! dedicated namespace entries with fixed defaults. Only the decisions
//! live here; wiring the exporters up is the embedding program's.
use crate::sensitive::opt_text;
use crate::strutil::{lower_seq, lower_str, str_eq};
use vstd::prelude::*;
use vstd::string::*;

verus! {

/// The transport protocol for the collector endpoint.
#[derive(Debug, Clone, Copy, PartialEq, Eq, Structural)]
pub enum OtelProtocol {
    Grpc,
    Http,
}

/// The exporter selected for one signal.
#[derive(Debug, Clone, Copy, PartialEq, Eq, Structural)]
pub enum ExporterType {
    Otlp,
    Console,
    Disabled,
}

/// Telemetry configuration read from the namespace.
#[derive(Debug, Clone)]
pub struct OtelConfig {
    /// Whether the telemetry SDK is disabled outright.
    pub disabled: bool,
    /// Traces exporter.
    pub traces_exporter: ExporterType,
    /// Metrics exporter.
    pub metrics_exporter: ExporterType,
    /// Logs exporter.
    pub logs_exporter: ExporterType,
    /// Collector endpoint URL.
    pub endpoint: String,
    /// Transport protocol.
    pub protocol: OtelProtocol,
    /// Service name reported to the collector.
    pub service_name: String,
}

/// How an exporter entry reads: `otlp`, `console` and `none` are the
/// recognized values, case-folded; anything else falls back to the
/// signal's default.
pub open spec fn exporter_of(v: Option<Seq<char>>, default: ExporterType) -> ExporterType {
    match v {
        None => default,
        Some(s) => {
            let l = lower_seq(s);
            if l == "otlp"@ {
                ExporterType::Otlp
            } else if l == "console"@ {
                ExporterType::Console
            } else if l == "none"@ {
                ExporterType::Disabled
            } else {
                default
            }
        },
    }
}

pub fn parse_exporter_type(v: Option<&str>, default: ExporterType) -> (r: ExporterType)
    ensures
        r == exporter_of(opt_text(v), default),
{
    match v {
        None => default,
        Some(s) => {
            let l = lower_str(s);
            if str_eq(l.as_str(), "otlp") {
                ExporterType::Otlp
            } else if str_eq(l.as_str(), "console") {
                ExporterType::Console
            } else if str_eq(l.as_str(), "none") {
                ExporterType::Disabled
            } else {
                default
            }
        },
    }
}

/// How the protocol entry reads: `http` and `http/protobuf` select HTTP,
/// anything else (or no entry) selects gRPC.
pub open spec fn protocol_of(v: Option<Seq<char>>) -> OtelProtocol {
    match v {
        None => OtelProtocol::Grpc,
        Some(s) => {
            let l = lower_seq(s);
            if l == "http"@ || l == "http/protobuf"@ {
                OtelProtocol::Http
            } else {
                OtelProtocol::Grpc
            }
        },
    }
}

pub fn parse_protocol(v: Option<&str>) -> (r: OtelProtocol)
    ensures
        r == protocol_of(opt_text(v)),
{
    match v {
        None => OtelProtocol::Grpc,
        Some(s) => {
            let l = lower_str(s);
            if str_eq(l.as_str(), "http") || str_eq(l.as_str(), "http/protobuf") {
                OtelProtocol::Http
            } else {
                OtelProtocol::Grpc
            }
        },
    }
}

/// How a boolean entry reads: only the case-folded text `true` is true;
/// no entry takes the default.
pub open spec fn bool_of(v: Option<Seq<char>>, default: bool) -> bool {
    match v {
        None => default,
        Some(s) => lower_seq(s) == "true"@,
    }
}

pub fn parse_bool_value(v: Option<&str>, default: bool) -> (r: bool)
    ensures
        r == bool_of(opt_text(v), default),
{
    match v {
        None => default,
        Some(s) => {
            let l = lower_str(s);
            str_eq(l.as_str(), "true")
        },
    }
}

impl OtelConfig {
    /// Builds the configuration from the seven dedicated entries:
    /// traces default to OTLP, metrics and logs to none, the endpoint to
    /// the local collector, the protocol to gRPC.
    pub fn from_values(
        disabled: Option<&str>,
        traces: Option<&str>,
        metrics: Option<&str>,
        logs: Option<&str>,
        endpoint: Option<&str>,
        protocol: Option<&str>,
        service_name: Option<&str>,
    ) -> (r: OtelConfig)
        ensures
            r.disabled == bool_of(opt_text(disabled), false),
            r.traces_exporter == exporter_of(opt_text(traces), ExporterType::Otlp),
            r.metrics_exporter == exporter_of(opt_text(metrics), ExporterType::Disabled),
            r.logs_exporter == exporter_of(opt_text(logs), ExporterType::Disabled),
            r.endpoint@ == (match opt_text(endpoint) {
                Some(e) => e,
                None => "http://localhost:4317"@,
            }),
            r.protocol == protocol_of(opt_text(protocol)),
            r.service_name@ == (match opt_text(service_name) {
                Some(s) => s,
                None => "pmp-test-api"@,
            }),
    {
        OtelConfig {
            disabled: parse_bool_value(disabled, false),
            traces_exporter: parse_exporter_type(traces, ExporterType::Otlp),
            metrics_exporter: parse_exporter_type(metrics, ExporterType::Disabled),
            logs_exporter: parse_exporter_type(logs, ExporterType::Disabled),
            endpoint: match endpoint {
                Some(e) => String::from_str(e),
                None => String::from_str("http://localhost:4317"),
            },
            protocol: parse_protocol(protocol),
            service_name: match service_name {
                Some(s) => String::from_str(s),
                None => String::from_str("pmp-test-api"),
            },
        }
    }

    /// Whether any signal has an exporter enabled.
    pub fn is_any_enabled(&self) -> (r: bool)
        ensures
            r == (self.traces_exporter != ExporterType::Disabled || self.metrics_exporter
                != ExporterType::Disabled || self.logs_exporter != ExporterType::Disabled),
    {
        self.traces_exporter != ExporterType::Disabled || self.metrics_exporter != ExporterType::Disabled
            || self.logs_exporter != ExporterType::Disabled
    }
}

/// The short status word for one exporter selection.
pub fn format_exporter_status(exporter: &ExporterType) -> (r: &'static str)
    ensures
        match exporter {
            ExporterType::Otlp => r@ == "otlp"@,
            ExporterType::Console => r@ == "console"@,
            ExporterType::Disabled => r@ == "none"@,
        },
{
    match exporter {
        ExporterType::Otlp => "otlp",
        ExporterType::Console => "console",
        ExporterType::Disabled => "none",
    }
}

} // verus!
