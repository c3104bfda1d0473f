//! Fixed settings of the service that publishes the catalogue.

use vstd::prelude::*;

verus! {

/// Address on which the service listens: the loopback interface.
pub const BIND_HOST: &'static str = "127.0.0.1";

/// Port on which the service listens.
pub const BIND_PORT: u16 = 8000;

/// The one origin from which browsers may call the service.
pub const ALLOWED_ORIGIN: &'static str = "http://localhost:9002";

/// Methods that a caller from another origin may use.
pub const ALLOWED_METHODS: [&'static str; 4] = ["GET", "POST", "PUT", "DELETE"];

/// Request headers that a caller from another origin may send.
pub const ALLOWED_HEADERS: [&'static str; 3] = ["Authorization", "Accept", "Content-Type"];

/// For how many seconds a browser may remember the answer to a preflight
/// request.
pub const PREFLIGHT_MAX_AGE_SECS: usize = 3600;

/// What is logged: the HTTP layer, from the informational level up.
pub const LOG_FILTER: &'static str = "actix_web=info";

} // verus!
