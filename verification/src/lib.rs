//! A per-request authorization gate for network services.
//!
//! Given an inbound request, it decides whether to forward the request to a
//! protected handler untouched, forward it with an authenticated identity
//! attached, or reject it with a specific status and error envelope. The
//! decision pipeline and the capability interfaces it depends on live here;
//! the web-framework plumbing that feeds a concrete request into the
//! pipeline is an external collaborator.

mod chimes;
mod memory;
mod middleware;
mod utils;

pub use chimes::{BypassMode, ChimesAuthService, ChimesAuthUser, ChimesResource};
pub use chimes::{PermitOutcome, expected_permit, permit_policy};
pub use memory::{AccessRule, MemoryAuthService, MemoryAuthUser, find_rule, lookup_token};
pub use middleware::{ChimesAuthenticationMiddleware, ChimesAuthorization, GateDecision, GateOutcome};
pub use middleware::{
    lemma_allow_list_bypass, lemma_anonymous_route_forwards, lemma_outcome_deterministic,
    lemma_permit_route_checks_grant, lemma_user_route_requires_identity,
};
pub use utils::{ApiResult, get_local_timestamp};
