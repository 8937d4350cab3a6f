//! Probe construction and attempt-outcome classification.
//!
//! The factory turns a resolved configuration into one probe descriptor per
//! worker — each bound to its own worker index and holding its own copy of
//! the target, so that no two workers share client state — and refuses a
//! configuration whose target cannot be resolved, before any worker exists.

use vstd::prelude::*;

verus! {

use crate::config::DbOptions;
use crate::config::HttpOptions;

/// A configuration the factory refuses, and why. Such a refusal is fatal:
/// it happens before any worker or probe exists.
#[derive(Clone, Debug, PartialEq, Eq)]
pub enum ConfigurationError {
    /// The worker count is zero; at least one worker is required.
    ZeroWorkers,
    /// No connection descriptor was supplied in any configuration layer.
    MissingTarget,
    /// The target could not be parsed into a usable descriptor; the field
    /// holds the parser's message.
    MalformedTarget(String),
}

/// A single attempt's failure. Never fatal: the worker logs it and waits
/// for its next tick.
#[derive(Clone, Debug, PartialEq, Eq)]
pub struct ProbeError {
    /// The client's error message.
    pub detail: String,
}

/// What one worker's probe is aimed at, with every parameter its client
/// needs. Each worker holds its own copy: nothing in it is shared.
#[derive(Clone, Debug, PartialEq, Eq)]
pub enum Target {
    Http {
        url: String,
        connect_timeout_ms: u64,
        timeout_ms: u64,
        pool_idle_timeout_us: u64,
        pool_max_idle_per_host: usize,
    },
    Db { url: String, connect_timeout_ms: u64, insecure: bool },
}

/// One worker's probe descriptor: the index of the worker it is bound to,
/// and that worker's own target copy.
#[derive(Clone, Debug, PartialEq, Eq)]
pub struct ProbeSpec {
    pub worker_id: usize,
    pub target: Target,
}

/// Whether `t` is the target an HTTP configuration prescribes: its own copy
/// of the URL, and the configuration's timeout and pooling parameters.
pub open spec fn is_http_target_of(t: Target, o: HttpOptions) -> bool {
    match t {
        Target::Http {
            url,
            connect_timeout_ms,
            timeout_ms,
            pool_idle_timeout_us,
            pool_max_idle_per_host,
        } => {
            &&& url@ == o.url@
            &&& connect_timeout_ms == o.connect_timeout_ms
            &&& timeout_ms == o.timeout_ms
            &&& pool_idle_timeout_us == o.pool_idle_timeout_us
            &&& pool_max_idle_per_host == o.pool_max_idle_per_host
        },
        Target::Db { .. } => false,
    }
}

/// Whether `t` is the target a database configuration prescribes.
pub open spec fn is_db_target_of(t: Target, o: DbOptions) -> bool
    recommends
        o.database_url is Some,
{
    match t {
        Target::Db { url, connect_timeout_ms, insecure } => {
            &&& url@ == o.database_url.unwrap()@
            &&& connect_timeout_ms == o.connect_timeout_ms
            &&& insecure == o.insecure
        },
        Target::Http { .. } => false,
    }
}

/// Whether a string is an absolute URL, exactly as the HTTP client's URL
/// parser decides it.
pub uninterp spec fn http_url_ok(s: Seq<char>) -> bool;

/// Relies on `url::Url::parse` (re-exported by reqwest): whether it accepts
/// a string depends on the string alone. The error value is its message,
/// of which nothing is claimed.
#[verifier::external_body]
fn check_http_url(url: &str) -> (r: Result<(), String>)
    ensures
        r is Ok <==> http_url_ok(url@),
{
    match reqwest::Url::parse(url) {
        Ok(_) => Ok(()),
        Err(e) => Err(format!("{}", e)),
    }
}

/// Whether a string is a usable database connection descriptor, exactly as
/// `mysql::Opts::from_url` decides it.
pub uninterp spec fn db_url_ok(s: Seq<char>) -> bool;

/// Relies on `mysql::Opts::from_url`: whether it accepts a string depends
/// on the string alone. The error value is its message, of which nothing is
/// claimed.
#[verifier::external_body]
fn check_db_url(url: &str) -> (r: Result<(), String>)
    ensures
        r is Ok <==> db_url_ok(url@),
{
    match mysql::Opts::from_url(url) {
        Ok(_) => Ok(()),
        Err(e) => Err(format!("{}", e)),
    }
}

/// Builds the probes for the HTTP mode: exactly one per configured worker,
/// each bound to its own worker index and holding its own copy of the
/// target. A worker count of zero and a URL the client's parser refuses are
/// rejected, and then no probe exists at all.
pub fn build_http_probes(opts: &HttpOptions) -> (r: Result<Vec<ProbeSpec>, ConfigurationError>)
    ensures
        r is Ok <==> opts.parallel >= 1 && http_url_ok(opts.url@),
        opts.parallel == 0 ==> r == Result::<Vec<ProbeSpec>, ConfigurationError>::Err(
            ConfigurationError::ZeroWorkers,
        ),
        opts.parallel >= 1 && !http_url_ok(opts.url@) ==> (r matches Err(e) && e is MalformedTarget),
        r matches Ok(ps) ==> {
            &&& ps@.len() == opts.parallel
            &&& forall|i: int| 0 <= i < ps@.len() ==> (#[trigger] ps@[i]).worker_id == i
            &&& forall|i: int|
                0 <= i < ps@.len() ==> is_http_target_of((#[trigger] ps@[i]).target, *opts)
            &&& forall|i: int, j: int|
                0 <= i < ps@.len() && 0 <= j < ps@.len() && i != j ==> (#[trigger] ps@[i]).worker_id
                    != (#[trigger] ps@[j]).worker_id
        },
{
    if opts.parallel == 0 {
        return Err(ConfigurationError::ZeroWorkers);
    }
    match check_http_url(opts.url.as_str()) {
        Err(detail) => Err(ConfigurationError::MalformedTarget(detail)),
        Ok(_) => {
            let n = opts.parallel;
            let mut ps: Vec<ProbeSpec> = Vec::new();
            let mut k: usize = 0;
            while k < n
                invariant
                    k <= n,
                    ps@.len() == k,
                    forall|i: int| 0 <= i < k ==> (#[trigger] ps@[i]).worker_id == i,
                    forall|i: int|
                        0 <= i < k ==> is_http_target_of((#[trigger] ps@[i]).target, *opts),
                decreases n - k,
            {
                ps.push(
                    ProbeSpec {
                        worker_id: k,
                        target: Target::Http {
                            url: opts.url.as_str().to_owned(),
                            connect_timeout_ms: opts.connect_timeout_ms,
                            timeout_ms: opts.timeout_ms,
                            pool_idle_timeout_us: opts.pool_idle_timeout_us,
                            pool_max_idle_per_host: opts.pool_max_idle_per_host,
                        },
                    },
                );
                k = k + 1;
            }
            Ok(ps)
        },
    }
}

/// Builds the probes for the database mode, exactly as the HTTP builder
/// does; a configuration without a connection descriptor is rejected before
/// the descriptor is ever parsed.
pub fn build_db_probes(opts: &DbOptions) -> (r: Result<Vec<ProbeSpec>, ConfigurationError>)
    ensures
        r is Ok <==> (opts.parallel >= 1 && (opts.database_url matches Some(u) && db_url_ok(u@))),
        opts.parallel == 0 ==> r == Result::<Vec<ProbeSpec>, ConfigurationError>::Err(
            ConfigurationError::ZeroWorkers,
        ),
        opts.parallel >= 1 && opts.database_url is None ==> r == Result::<
            Vec<ProbeSpec>,
            ConfigurationError,
        >::Err(ConfigurationError::MissingTarget),
        opts.parallel >= 1 && (opts.database_url matches Some(u) && !db_url_ok(u@)) ==> (r matches Err(
            e,
        ) && e is MalformedTarget),
        r matches Ok(ps) ==> {
            &&& ps@.len() == opts.parallel
            &&& forall|i: int| 0 <= i < ps@.len() ==> (#[trigger] ps@[i]).worker_id == i
            &&& forall|i: int|
                0 <= i < ps@.len() ==> is_db_target_of((#[trigger] ps@[i]).target, *opts)
            &&& forall|i: int, j: int|
                0 <= i < ps@.len() && 0 <= j < ps@.len() && i != j ==> (#[trigger] ps@[i]).worker_id
                    != (#[trigger] ps@[j]).worker_id
        },
{
    if opts.parallel == 0 {
        return Err(ConfigurationError::ZeroWorkers);
    }
    let url: &String = match &opts.database_url {
        Some(u) => u,
        None => {
            return Err(ConfigurationError::MissingTarget);
        },
    };
    match check_db_url(url.as_str()) {
        Err(detail) => Err(ConfigurationError::MalformedTarget(detail)),
        Ok(_) => {
            let n = opts.parallel;
            let mut ps: Vec<ProbeSpec> = Vec::new();
            let mut k: usize = 0;
            while k < n
                invariant
                    k <= n,
                    ps@.len() == k,
                    opts.database_url matches Some(u) && u == url,
                    forall|i: int| 0 <= i < k ==> (#[trigger] ps@[i]).worker_id == i,
                    forall|i: int|
                        0 <= i < k ==> is_db_target_of((#[trigger] ps@[i]).target, *opts),
                decreases n - k,
            {
                ps.push(
                    ProbeSpec {
                        worker_id: k,
                        target: Target::Db {
                            url: url.as_str().to_owned(),
                            connect_timeout_ms: opts.connect_timeout_ms,
                            insecure: opts.insecure,
                        },
                    },
                );
                k = k + 1;
            }
            Ok(ps)
        },
    }
}

/// What one HTTP attempt yielded, as the driving loop hands it back from
/// the client: either a response was exchanged, or the attempt failed at
/// the transport level.
#[derive(Clone, Debug, PartialEq, Eq)]
pub enum HttpOutcome {
    /// A full request/response cycle completed, with this status code.
    Response { status: u16 },
    /// Connect failure, timeout or protocol failure; the client's message.
    TransportError { detail: String },
}

/// An HTTP attempt succeeds exactly when a response was exchanged at all:
/// any status code counts, a server error as much as a success code. Only a
/// transport-level failure is a probe error.
pub fn classify_http_outcome(outcome: HttpOutcome) -> (r: Result<(), ProbeError>)
    ensures
        r is Ok <==> outcome is Response,
        outcome matches HttpOutcome::TransportError { detail } ==> r matches Err(e) && e.detail
            == detail,
{
    match outcome {
        HttpOutcome::Response { status: _ } => Ok(()),
        HttpOutcome::TransportError { detail } => Err(ProbeError { detail }),
    }
}

/// What one database attempt yielded: the connection could not be created,
/// or it was created and the liveness ping came back with this answer.
#[derive(Clone, Debug, PartialEq, Eq)]
pub enum DbOutcome {
    /// The connection could not be created; the client's message.
    ConnectError { detail: String },
    /// A connection was created; `true` exactly when the ping succeeded.
    Pinged { ok: bool },
}

/// A database attempt succeeds exactly when both the connect and the
/// liveness ping succeeded.
pub fn classify_db_outcome(outcome: DbOutcome) -> (r: Result<(), ProbeError>)
    ensures
        r is Ok <==> outcome matches DbOutcome::Pinged { ok: true },
        outcome matches DbOutcome::ConnectError { detail } ==> r matches Err(e) && e.detail
            == detail,
{
    match outcome {
        DbOutcome::Pinged { ok: true } => Ok(()),
        DbOutcome::Pinged { ok: false } => Err(
            ProbeError { detail: "liveness ping failed".to_owned() },
        ),
        DbOutcome::ConnectError { detail } => Err(ProbeError { detail }),
    }
}

/// The structured record a worker logs for a failed attempt: the error
/// detail beside the configured timeouts, for diagnostic correlation.
#[derive(Clone, Debug, PartialEq, Eq)]
pub struct ErrorRecord {
    pub detail: String,
    pub connect_timeout_ms: u64,
    /// The total-request timeout; the database mode has none.
    pub timeout_ms: Option<u64>,
}

/// The record logged for a failed HTTP attempt.
pub fn http_error_record(e: ProbeError, opts: &HttpOptions) -> (r: ErrorRecord)
    ensures
        r.detail == e.detail,
        r.connect_timeout_ms == opts.connect_timeout_ms,
        r.timeout_ms == Some(opts.timeout_ms),
{
    ErrorRecord {
        detail: e.detail,
        connect_timeout_ms: opts.connect_timeout_ms,
        timeout_ms: Some(opts.timeout_ms),
    }
}

/// The record logged for a failed database attempt.
pub fn db_error_record(e: ProbeError, opts: &DbOptions) -> (r: ErrorRecord)
    ensures
        r.detail == e.detail,
        r.connect_timeout_ms == opts.connect_timeout_ms,
        r.timeout_ms is None,
{
    ErrorRecord { detail: e.detail, connect_timeout_ms: opts.connect_timeout_ms, timeout_ms: None }
}

} // verus!
