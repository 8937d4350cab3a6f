//! Configuration records for the two probe modes, their documented default
//! values, and the layered merge that lets environment overrides take
//! precedence over command-line values.

use vstd::prelude::*;

verus! {

/// Default connect-phase timeout, in milliseconds.
pub const DEFAULT_CONNECT_TIMEOUT_MS: u64 = 15;
/// Default total-request timeout (HTTP mode), in milliseconds.
pub const DEFAULT_TIMEOUT_MS: u64 = 20;
/// Default idle-socket keep-alive timeout, in microseconds; chosen so that
/// the pool effectively keeps no idle connections.
pub const DEFAULT_POOL_IDLE_TIMEOUT_US: u64 = 1;
/// Default maximum number of idle connections per host; chosen so that the
/// pool effectively keeps no idle connections.
pub const DEFAULT_POOL_MAX_IDLE_PER_HOST: usize = 1;
/// Default tick interval, in milliseconds.
pub const DEFAULT_INTERVAL_MS: u64 = 100;
/// Default worker count.
pub const DEFAULT_PARALLEL: usize = 1;

/// The value a field resolves to when an optional override is layered over a
/// base value: the override wins wherever it is present.
pub open spec fn overlay<T>(base: T, over: Option<T>) -> T {
    match over {
        Option::Some(v) => v,
        Option::None => base,
    }
}

/// Fully resolved options for the HTTP probe mode. Every field has a value;
/// whether it came from a default, the command line or the environment is
/// settled before this record exists.
#[derive(Clone, Debug)]
pub struct HttpOptions {
    pub connect_timeout_ms: u64,
    pub timeout_ms: u64,
    pub pool_idle_timeout_us: u64,
    pub pool_max_idle_per_host: usize,
    pub url: String,
    pub interval_ms: u64,
    pub parallel: usize,
}

/// Optional per-field overrides for the HTTP probe mode, as read from the
/// environment. An absent field leaves the underlying value untouched.
pub struct HttpOverrides {
    pub connect_timeout_ms: Option<u64>,
    pub timeout_ms: Option<u64>,
    pub pool_idle_timeout_us: Option<u64>,
    pub pool_max_idle_per_host: Option<usize>,
    pub url: Option<String>,
    pub interval_ms: Option<u64>,
    pub parallel: Option<usize>,
}

impl HttpOptions {
    /// The documented defaults for every field but the target URL, which has
    /// none and must be supplied.
    pub fn with_defaults(url: String) -> (r: HttpOptions)
        ensures
            r.connect_timeout_ms == DEFAULT_CONNECT_TIMEOUT_MS,
            r.timeout_ms == DEFAULT_TIMEOUT_MS,
            r.pool_idle_timeout_us == DEFAULT_POOL_IDLE_TIMEOUT_US,
            r.pool_max_idle_per_host == DEFAULT_POOL_MAX_IDLE_PER_HOST,
            r.url == url,
            r.interval_ms == DEFAULT_INTERVAL_MS,
            r.parallel == DEFAULT_PARALLEL,
    {
        HttpOptions {
            connect_timeout_ms: DEFAULT_CONNECT_TIMEOUT_MS,
            timeout_ms: DEFAULT_TIMEOUT_MS,
            pool_idle_timeout_us: DEFAULT_POOL_IDLE_TIMEOUT_US,
            pool_max_idle_per_host: DEFAULT_POOL_MAX_IDLE_PER_HOST,
            url,
            interval_ms: DEFAULT_INTERVAL_MS,
            parallel: DEFAULT_PARALLEL,
        }
    }
}

/// Layers environment overrides over command-line options for the HTTP mode:
/// each field of the result is the override where one is present, the base
/// value otherwise.
pub fn merge_http(base: HttpOptions, over: HttpOverrides) -> (r: HttpOptions)
    ensures
        r.connect_timeout_ms == overlay(base.connect_timeout_ms, over.connect_timeout_ms),
        r.timeout_ms == overlay(base.timeout_ms, over.timeout_ms),
        r.pool_idle_timeout_us == overlay(base.pool_idle_timeout_us, over.pool_idle_timeout_us),
        r.pool_max_idle_per_host == overlay(
            base.pool_max_idle_per_host,
            over.pool_max_idle_per_host,
        ),
        r.url == overlay(base.url, over.url),
        r.interval_ms == overlay(base.interval_ms, over.interval_ms),
        r.parallel == overlay(base.parallel, over.parallel),
{
    HttpOptions {
        connect_timeout_ms: match over.connect_timeout_ms {
            Some(v) => v,
            None => base.connect_timeout_ms,
        },
        timeout_ms: match over.timeout_ms {
            Some(v) => v,
            None => base.timeout_ms,
        },
        pool_idle_timeout_us: match over.pool_idle_timeout_us {
            Some(v) => v,
            None => base.pool_idle_timeout_us,
        },
        pool_max_idle_per_host: match over.pool_max_idle_per_host {
            Some(v) => v,
            None => base.pool_max_idle_per_host,
        },
        url: match over.url {
            Some(v) => v,
            None => base.url,
        },
        interval_ms: match over.interval_ms {
            Some(v) => v,
            None => base.interval_ms,
        },
        parallel: match over.parallel {
            Some(v) => v,
            None => base.parallel,
        },
    }
}

/// Fully resolved options for the database probe mode. The connection
/// descriptor stays optional here: whether one is present is a question for
/// probe construction, which rejects a configuration without one.
#[derive(Clone, Debug)]
pub struct DbOptions {
    pub connect_timeout_ms: u64,
    pub interval_ms: u64,
    pub parallel: usize,
    pub database_url: Option<String>,
    pub insecure: bool,
}

/// Optional per-field overrides for the database probe mode, as read from
/// the environment.
pub struct DbOverrides {
    pub connect_timeout_ms: Option<u64>,
    pub interval_ms: Option<u64>,
    pub parallel: Option<usize>,
    pub database_url: Option<String>,
    pub insecure: Option<bool>,
}

impl DbOptions {
    /// The documented defaults: no connection descriptor, TLS verification
    /// left on.
    pub fn with_defaults() -> (r: DbOptions)
        ensures
            r.connect_timeout_ms == DEFAULT_CONNECT_TIMEOUT_MS,
            r.interval_ms == DEFAULT_INTERVAL_MS,
            r.parallel == DEFAULT_PARALLEL,
            r.database_url is None,
            !r.insecure,
    {
        DbOptions {
            connect_timeout_ms: DEFAULT_CONNECT_TIMEOUT_MS,
            interval_ms: DEFAULT_INTERVAL_MS,
            parallel: DEFAULT_PARALLEL,
            database_url: None,
            insecure: false,
        }
    }
}

/// Layers environment overrides over command-line options for the database
/// mode. An override can supply a connection descriptor where the command
/// line had none, but cannot take one away.
pub fn merge_db(base: DbOptions, over: DbOverrides) -> (r: DbOptions)
    ensures
        r.connect_timeout_ms == overlay(base.connect_timeout_ms, over.connect_timeout_ms),
        r.interval_ms == overlay(base.interval_ms, over.interval_ms),
        r.parallel == overlay(base.parallel, over.parallel),
        over.database_url is Some ==> r.database_url == over.database_url,
        over.database_url is None ==> r.database_url == base.database_url,
        r.insecure == overlay(base.insecure, over.insecure),
{
    DbOptions {
        connect_timeout_ms: match over.connect_timeout_ms {
            Some(v) => v,
            None => base.connect_timeout_ms,
        },
        interval_ms: match over.interval_ms {
            Some(v) => v,
            None => base.interval_ms,
        },
        parallel: match over.parallel {
            Some(v) => v,
            None => base.parallel,
        },
        database_url: match over.database_url {
            Some(v) => Some(v),
            None => base.database_url,
        },
        insecure: match over.insecure {
            Some(v) => v,
            None => base.insecure,
        },
    }
}

} // verus!
