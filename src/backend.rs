use vstd::prelude::*;

verus! {

/// fred's error type, carried through opaque.
#[verifier::external_type_specification]
#[verifier::external_body]
pub struct ExBackendError(fred::error::Error);

/// fred's client configuration, carried through opaque.
#[verifier::external_type_specification]
#[verifier::external_body]
pub struct ExBackendConfig(fred::types::config::Config);

/// fred's round-robin pool of clients, carried through opaque.
#[verifier::external_type_specification]
#[verifier::external_body]
pub struct ExPool(fred::clients::Pool);

/// Relies on fred's `Clone` for `Pool`: a clone is one more handle to the
/// same shared clients.
pub assume_specification[ <fred::clients::Pool as Clone>::clone ](p: &fred::clients::Pool) -> (r: fred::clients::Pool)
    ensures
        pool_size(r) == pool_size(*p),
;

/// The two classes of backend failure that the routes tell apart.
#[derive(PartialEq, Eq, Structural, Clone, Copy, Debug)]
pub enum KvError {
    /// The backend reports that the key holds no value.
    NotFound,
    /// Any other failure: a timeout, a broken connection, a protocol error.
    Upstream,
}

/// Whether the backend client accepts `url` as a connection string.
pub uninterp spec fn url_accepted(url: Seq<char>) -> bool;

/// Whether an error's kind is the backend client's `NotFound`.
pub uninterp spec fn kind_is_not_found(e: fred::error::Error) -> bool;

/// The number of clients that a pool holds.
pub uninterp spec fn pool_size(p: fred::clients::Pool) -> nat;

/// Relies on fred's `Error::is_not_found`: whether the error's kind is `NotFound`.
#[verifier::external_body]
fn backend_not_found(err: &fred::error::Error) -> (r: bool)
    ensures
        r == kind_is_not_found(*err),
{
    err.is_not_found()
}

/// Relies on fred's `Config::from_url`, which parses a connection string and
/// reads nothing but its argument.
#[verifier::external_body]
pub(crate) fn config_from_url(url: &str) -> (r: Result<fred::types::config::Config, fred::error::Error>)
    ensures
        r is Ok <==> url_accepted(url@),
{
    fred::types::config::Config::from_url(url)
}

/// Relies on fred's `Builder::from_config` and `Builder::build_pool`: with a
/// configuration present, the pool is refused only when `size` is zero, and
/// otherwise holds `size` clients.
#[verifier::external_body]
pub(crate) fn pool_from_config(config: fred::types::config::Config, size: usize) -> (r: Result<fred::clients::Pool, fred::error::Error>)
    ensures
        r is Ok <==> size > 0,
        r is Ok ==> pool_size(r->Ok_0) == size,
{
    fred::types::Builder::from_config(config).build_pool(size)
}

/// Sorts a backend failure into one of the two classes the routes tell apart:
/// the client's `NotFound` kind, or anything else.
pub fn classify_error(err: &fred::error::Error) -> (r: KvError)
    ensures
        r == (if kind_is_not_found(*err) { KvError::NotFound } else { KvError::Upstream }),
{
    if backend_not_found(err) {
        KvError::NotFound
    } else {
        KvError::Upstream
    }
}

} // verus!
