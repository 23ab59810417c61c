//! What the service is started with: the log filter and the address to
//! listen on.

use vstd::prelude::*;

verus! {

/// The host to listen on: every interface.
pub const LISTEN_HOST: &'static str = "0.0.0.0";

/// The port to listen on.
pub const LISTEN_PORT: u16 = 3000;

/// The log filter that applies when none is configured: debug level for
/// the service's own events and for those of the HTTP tracing middleware.
pub const DEFAULT_LOG_FILTER: &'static str = "example_hello_world=debug,tower_http=debug";

/// The filter that [`log_filter`] chooses.
pub open spec fn chosen_filter(configured: Option<String>) -> Seq<char> {
    match configured {
        Some(text) => text@,
        None => DEFAULT_LOG_FILTER@,
    }
}

/// Chooses the log filter.
///
/// `configured` is what the environment holds for the filter, if it holds
/// anything. A configured filter is taken as it is, an empty one too;
/// without one the default applies.
pub fn log_filter(configured: Option<String>) -> (filter: String)
    ensures
        filter@ == chosen_filter(configured),
{
    match configured {
        Some(text) => text,
        None => DEFAULT_LOG_FILTER.to_owned(),
    }
}

} // verus!
