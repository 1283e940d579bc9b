//! Verified core of an HTTP load-testing harness for an SBOM management
//! service: an OIDC bearer-token cache with refresh-before-expiry and
//! double-checked staleness handling, plus the pure string logic behind the
//! harness's request paths, scenario wiring and test-fixture replication.
//!
//! Network and file transports live outside this crate; the functions here
//! take the transport's answers as arguments and are verified for every
//! possible answer.

pub mod oidc;
pub mod purl;
pub mod replicate;
pub mod replicator;
pub mod restapi;
pub mod scenario;
pub mod text;
pub mod utils;
