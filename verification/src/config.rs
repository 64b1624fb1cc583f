//! Process-wide configuration: loaded once when the interceptor is
//! constructed, immutable afterwards.
//!
//! A configuration value here is a partial mapping: every field may be
//! absent.  Resolution layers two optional partial overrides — one from a
//! named file, one from the environment — over the defaults, field by
//! field, with the environment winning over the file and the file over
//! the defaults.  Reading the file and the environment is I/O and happens
//! outside this crate; malformed sources simply arrive here as `None`.

use vstd::prelude::*;
use vstd::string::*;

verus! {

/// How finished spans leave the process.
#[derive(Clone, Copy, Debug, PartialEq, Eq, Structural)]
pub enum TraceReporterType {
    /// Network export to the configured endpoint.
    Otlp,
    /// Structured write to a local sink.
    Logging,
}

/// Exporter settings.
#[derive(Clone, Debug)]
pub struct Exporter {
    pub endpoint: Option<String>,
    pub trace_reporter_type: Option<TraceReporterType>,
}

/// The interceptor's configuration.  `None` in a field of an override
/// means "not set here"; a resolved configuration has every field set.
#[derive(Clone, Debug)]
pub struct Config {
    pub service_name: Option<String>,
    pub exporter: Option<Exporter>,
    pub allowed_content_types: Option<Vec<String>>,
}

/// The service name an override carries, if any.
pub open spec fn spec_service_name(c: Config) -> Option<Seq<char>> {
    match c.service_name {
        Some(s) => Some(s@),
        None => None,
    }
}

/// The endpoint an override carries, if any.
pub open spec fn spec_endpoint(c: Config) -> Option<Seq<char>> {
    match c.exporter {
        Some(e) => match e.endpoint {
            Some(p) => Some(p@),
            None => None,
        },
        None => None,
    }
}

/// The reporter kind an override carries, if any.
pub open spec fn spec_reporter(c: Config) -> Option<TraceReporterType> {
    match c.exporter {
        Some(e) => e.trace_reporter_type,
        None => None,
    }
}

/// The allow-list an override carries, if any.
pub open spec fn spec_allowed(c: Config) -> Option<Seq<Seq<char>>> {
    match c.allowed_content_types {
        Some(v) => Some(v.deep_view()),
        None => None,
    }
}

/// Lifts a field accessor over an absent override.
pub open spec fn field_of<A>(c: Option<Config>, f: spec_fn(Config) -> Option<A>) -> Option<A> {
    match c {
        Some(cfg) => f(cfg),
        None => None,
    }
}

/// One field's precedence: the environment wins, then the file, then the
/// default.
pub open spec fn pick<A>(env: Option<A>, file: Option<A>, default: A) -> A {
    match env {
        Some(v) => v,
        None => match file {
            Some(v) => v,
            None => default,
        },
    }
}

/// Whether a configuration is fully resolved: every field set.
pub open spec fn resolved(c: Config) -> bool {
    &&& spec_service_name(c) is Some
    &&& spec_endpoint(c) is Some
    &&& spec_reporter(c) is Some
    &&& spec_allowed(c) is Some
}

/// Whether a configuration holds exactly the default values.
pub open spec fn is_default_config(c: Config) -> bool {
    &&& spec_service_name(c) == Some("rustagent"@)
    &&& spec_endpoint(c) == Some("localhost:4317"@)
    &&& spec_reporter(c) == Some(TraceReporterType::Otlp)
    &&& spec_allowed(c) == Some(seq!["json"@])
}

impl Default for Config {
    /// The default configuration.
    fn default() -> (r: Self)
        ensures
            is_default_config(r),
            resolved(r),
    {
        let mut allowed: Vec<String> = Vec::new();
        allowed.push(String::from_str("json"));
        let r = Config {
            service_name: Some(String::from_str("rustagent")),
            exporter: Some(
                Exporter {
                    endpoint: Some(String::from_str("localhost:4317")),
                    trace_reporter_type: Some(TraceReporterType::Otlp),
                },
            ),
            allowed_content_types: Some(allowed),
        };
        proof {
            assert(spec_allowed(r) == Some(r.allowed_content_types.unwrap().deep_view()));
            assert(r.allowed_content_types.unwrap().deep_view() =~= seq!["json"@]);
        }
        r
    }
}

/// Resolves the configuration from the defaults, an optional partial
/// file override and an optional partial environment override, field by
/// field: the environment wins, then the file, then the default.
pub fn resolve(file: Option<Config>, env: Option<Config>) -> (r: Config)
    ensures
        resolved(r),
        spec_service_name(r) == Some(
            pick(
                field_of(env, |c: Config| spec_service_name(c)),
                field_of(file, |c: Config| spec_service_name(c)),
                "rustagent"@,
            ),
        ),
        spec_endpoint(r) == Some(
            pick(
                field_of(env, |c: Config| spec_endpoint(c)),
                field_of(file, |c: Config| spec_endpoint(c)),
                "localhost:4317"@,
            ),
        ),
        spec_reporter(r) == Some(
            pick(
                field_of(env, |c: Config| spec_reporter(c)),
                field_of(file, |c: Config| spec_reporter(c)),
                TraceReporterType::Otlp,
            ),
        ),
        spec_allowed(r) == Some(
            pick(
                field_of(env, |c: Config| spec_allowed(c)),
                field_of(file, |c: Config| spec_allowed(c)),
                seq!["json"@],
            ),
        ),
{
    let base = Config::default();
    let with_file = match file {
        Some(f) => overlay(base, f),
        None => base,
    };
    match env {
        Some(e) => overlay(with_file, e),
        None => with_file,
    }
}

/// Layers a partial override over a base configuration: a field set in
/// the override replaces the base's, an absent one leaves it.
pub fn overlay(base: Config, over: Config) -> (r: Config)
    ensures
        spec_service_name(over) is Some ==> spec_service_name(r) == spec_service_name(over),
        spec_service_name(over) is None ==> spec_service_name(r) == spec_service_name(base),
        spec_endpoint(over) is Some ==> spec_endpoint(r) == spec_endpoint(over),
        spec_endpoint(over) is None ==> spec_endpoint(r) == spec_endpoint(base),
        spec_reporter(over) is Some ==> spec_reporter(r) == spec_reporter(over),
        spec_reporter(over) is None ==> spec_reporter(r) == spec_reporter(base),
        spec_allowed(over) is Some ==> spec_allowed(r) == spec_allowed(over),
        spec_allowed(over) is None ==> spec_allowed(r) == spec_allowed(base),
{
    let service_name = match over.service_name {
        Some(s) => Some(s),
        None => base.service_name,
    };
    let exporter = match (base.exporter, over.exporter) {
        (Some(b), Some(o)) => Some(
            Exporter {
                endpoint: match o.endpoint {
                    Some(p) => Some(p),
                    None => b.endpoint,
                },
                trace_reporter_type: match o.trace_reporter_type {
                    Some(t) => Some(t),
                    None => b.trace_reporter_type,
                },
            },
        ),
        (None, Some(o)) => Some(o),
        (Some(b), None) => Some(b),
        (None, None) => None,
    };
    let allowed_content_types = match over.allowed_content_types {
        Some(v) => Some(v),
        None => base.allowed_content_types,
    };
    Config { service_name, exporter, allowed_content_types }
}

} // verus!
