use vstd::prelude::*;

use crate::backend::{config_from_url, pool_from_config, pool_size, url_accepted};

verus! {

/// The number of backend clients the gateway keeps; fixed for the process's life.
pub const POOL_SIZE: usize = 2;

/// Why the gateway could not start. Each one ends the process.
#[derive(PartialEq, Eq, Structural, Clone, Copy, Debug)]
pub enum StartupError {
    /// No backend connection string was configured.
    MissingUrl,
    /// The backend connection string could not be parsed.
    InvalidUrl,
    /// The backend client refused to build the pool.
    PoolRejected,
    /// The backend could not be reached while the pool connected.
    BackendUnreachable,
}

impl StartupError {
    /// A sentence that tells an operator what went wrong.
    pub fn message(&self) -> (r: &'static str)
        ensures
            *self == StartupError::MissingUrl ==> r@ == "REDIS_URL must be set"@,
            *self == StartupError::InvalidUrl ==> r@ == "could not create the backend configuration"@,
            *self == StartupError::PoolRejected ==> r@ == "could not create the pool"@,
            *self == StartupError::BackendUnreachable ==> r@ == "could not initialise the pool"@,
    {
        match self {
            StartupError::MissingUrl => {
                proof {
                    reveal_strlit("REDIS_URL must be set");
                }
                "REDIS_URL must be set"
            },
            StartupError::InvalidUrl => {
                proof {
                    reveal_strlit("could not create the backend configuration");
                }
                "could not create the backend configuration"
            },
            StartupError::PoolRejected => {
                proof {
                    reveal_strlit("could not create the pool");
                }
                "could not create the pool"
            },
            StartupError::BackendUnreachable => {
                proof {
                    reveal_strlit("could not initialise the pool");
                }
                "could not initialise the pool"
            },
        }
    }
}

/// The state that every request handler shares: one handle to the backend pool,
/// never changed once built.
#[derive(Clone)]
pub struct AppState {
    pub materia_kv_pool: fred::clients::Pool,
}

impl AppState {
    /// Wraps an initialised pool.
    pub fn new(pool: fred::clients::Pool) -> (r: AppState)
        ensures
            r.materia_kv_pool == pool,
    {
        AppState { materia_kv_pool: pool }
    }
}

/// The port to listen on: the configured one as given, else `8080`.
pub fn port_or_default(configured: Option<String>) -> (r: String)
    ensures
        match configured {
            Some(p) => r@ == p@,
            None => r@ == seq!['8', '0', '8', '0'],
        },
{
    match configured {
        Some(p) => p,
        None => {
            proof {
                reveal_strlit("8080");
            }
            "8080".to_owned()
        },
    }
}

/// The address to bind: every interface, on `port`.
pub fn bind_address(port: &str) -> (r: String)
    ensures
        r@ == seq!['0', '.', '0', '.', '0', '.', '0', ':'] + port@,
{
    proof {
        reveal_strlit("0.0.0.0:");
    }
    let host = "0.0.0.0:".to_owned();
    host.concat(port)
}

/// The backend connection string, which must be configured.
pub fn require_kv_url(configured: Option<String>) -> (r: Result<String, StartupError>)
    ensures
        match configured {
            Some(u) => r matches Ok(v) && v@ == u@,
            None => r == Err::<String, StartupError>(StartupError::MissingUrl),
        },
{
    match configured {
        Some(u) => Ok(u),
        None => Err(StartupError::MissingUrl),
    }
}

/// Builds the fixed-size pool from a connection string, without connecting it.
pub fn build_pool(url: &str) -> (r: Result<fred::clients::Pool, StartupError>)
    ensures
        r is Ok <==> url_accepted(url@),
        r is Ok ==> pool_size(r->Ok_0) == POOL_SIZE,
        !url_accepted(url@) ==> r == Err::<fred::clients::Pool, StartupError>(StartupError::InvalidUrl),
{
    match config_from_url(url) {
        Err(_) => Err(StartupError::InvalidUrl),
        Ok(config) => match pool_from_config(config, POOL_SIZE) {
            Ok(pool) => Ok(pool),
            Err(_) => Err(StartupError::PoolRejected),
        },
    }
}

/// What the configuration steps owe for a connection string that may be
/// absent: `MissingUrl` without one; else a pool of the fixed size exactly when
/// the string is accepted, and `InvalidUrl` when it is not.
pub open spec fn pool_configured(kv_url: Option<Seq<char>>, r: Result<fred::clients::Pool, StartupError>) -> bool {
    match kv_url {
        None => r == Err::<fred::clients::Pool, StartupError>(StartupError::MissingUrl),
        Some(u) => {
            &&& (r is Ok <==> url_accepted(u))
            &&& (r is Ok ==> pool_size(r->Ok_0) == POOL_SIZE)
            &&& (!url_accepted(u) ==> r == Err::<fred::clients::Pool, StartupError>(StartupError::InvalidUrl))
        },
    }
}

/// The configuration steps of startup: the connection string must be present
/// and accepted, and yields a pool of the fixed size.
pub fn configure_pool(kv_url: Option<String>) -> (r: Result<fred::clients::Pool, StartupError>)
    ensures
        pool_configured(
            match kv_url {
                Some(u) => Some(u@),
                None => None,
            },
            r,
        ),
{
    match require_kv_url(kv_url) {
        Err(e) => Err(e),
        Ok(url) => build_pool(url.as_str()),
    }
}

/// What the process does next while it starts.
#[derive(PartialEq, Eq, Structural, Clone, Copy, Debug)]
pub enum StartupAction {
    /// Connect the pool that was built.
    Connect,
    /// Bind the listener and begin serving.
    Listen,
    /// Stop with a non-zero exit status, bound to nothing.
    Abort(StartupError),
}

/// The exit status of a process whose startup was aborted.
pub const STARTUP_FAILURE_EXIT: i32 = 1;

/// The action after the configuration steps: connect a pool that was built,
/// else abort for the reason the steps gave.
pub open spec fn configure_action(built: Result<fred::clients::Pool, StartupError>) -> StartupAction {
    match built {
        Ok(_) => StartupAction::Connect,
        Err(e) => StartupAction::Abort(e),
    }
}

/// The action after the pool tried to connect: listen only when it connected.
pub open spec fn connect_action(connected: bool) -> StartupAction {
    if connected {
        StartupAction::Listen
    } else {
        StartupAction::Abort(StartupError::BackendUnreachable)
    }
}

/// Decides the step after configuration.
pub fn after_configure(built: &Result<fred::clients::Pool, StartupError>) -> (r: StartupAction)
    ensures
        r == configure_action(*built),
{
    match built {
        Ok(_) => StartupAction::Connect,
        Err(e) => StartupAction::Abort(*e),
    }
}

/// Decides the step after the pool tried to connect; a backend that cannot be
/// reached leaves the gateway unable to serve.
pub fn after_connect(connected: Result<(), fred::error::Error>) -> (r: StartupAction)
    ensures
        r == connect_action(connected is Ok),
{
    match connected {
        Ok(()) => StartupAction::Listen,
        Err(_) => StartupAction::Abort(StartupError::BackendUnreachable),
    }
}

/// Startup reaches the listener only when the connection string is set and
/// accepted and the pool connected: an unset string aborts it before a pool
/// is built, and a backend that cannot be reached aborts it before anything
/// is bound.
pub proof fn lemma_listen_needs_url_and_backend(
    kv_url: Option<Seq<char>>,
    built: Result<fred::clients::Pool, StartupError>,
    connected: bool,
)
    requires
        pool_configured(kv_url, built),
    ensures
        kv_url is None ==> configure_action(built) == StartupAction::Abort(StartupError::MissingUrl),
        configure_action(built) == StartupAction::Connect && !connected
            ==> connect_action(connected) == StartupAction::Abort(StartupError::BackendUnreachable),
        (configure_action(built) == StartupAction::Connect && connect_action(connected) == StartupAction::Listen)
            <==> (kv_url is Some && url_accepted(kv_url->Some_0) && connected),
{
}

} // verus!
