use vstd::prelude::*;

use crate::chimes::{BypassMode, ChimesAuthService, ChimesAuthUser, PermitOutcome, expected_permit};
use crate::utils::ApiResult;

verus! {

/// What the pipeline decided for one request: forward it to the protected
/// handler (attaching the resolved identity, if one was resolved), or
/// short-circuit with the given rejection envelope.
pub enum GateDecision<T> {
    Forward(Option<T>),
    Reject(ApiResult<String>),
}

/// The outcome class of one request, as the contracts speak of it:
/// forwarded (with the identity to attach, if any), rejected with the
/// 401 envelope, or rejected with the 403 envelope.
pub enum GateOutcome<T> {
    Forwarded(Option<T>),
    Unauthorized,
    Forbidden,
}

/// The pipeline's configuration, assembled once before it begins serving
/// traffic: the provider, an allow-list of bypass URL patterns, and the
/// header keys the token is read from.
pub struct ChimesAuthorization<T, P> where T: Clone + ChimesAuthUser<T>, P: ChimesAuthService<T> {
    #[allow(unused)]
    auth_info: Option<T>,
    auth_service: P,
    allow_urls: Vec<String>,
    header_key: Option<String>,
    nojwt_header_key: Option<String>,
    session_key: Option<String>,
}

impl<T, P> ChimesAuthorization<T, P> where T: Clone + ChimesAuthUser<T>, P: ChimesAuthService<T> {
    pub closed spec fn auth_service_spec(&self) -> P {
        self.auth_service
    }

    pub closed spec fn allow_urls_spec(&self) -> Seq<String> {
        self.allow_urls@
    }

    pub closed spec fn header_key_spec(&self) -> Option<String> {
        self.header_key
    }

    pub closed spec fn nojwt_header_key_spec(&self) -> Option<String> {
        self.nojwt_header_key
    }

    pub closed spec fn session_key_spec(&self) -> Option<String> {
        self.session_key
    }

    /// A fresh configuration around a provider: empty allow-list, no
    /// header key overrides.
    pub fn new(auth_service: P) -> (r: Self)
        ensures
            r.auth_service_spec() == auth_service,
            r.allow_urls_spec() == Seq::<String>::empty(),
            r.header_key_spec() is None,
            r.nojwt_header_key_spec() is None,
            r.session_key_spec() is None,
    {
        let allow_urls: Vec<String> = Vec::new();
        proof {
            assert(allow_urls@ =~= Seq::<String>::empty());
        }
        ChimesAuthorization {
            auth_info: Option::None,
            auth_service,
            allow_urls,
            header_key: Option::None,
            nojwt_header_key: Option::None,
            session_key: Option::None,
        }
    }

    /// Append one URL pattern to the allow-list.
    pub fn allow(self, url: &String) -> (r: Self)
        ensures
            r.allow_urls_spec() == self.allow_urls_spec().push(*url),
            r.auth_service_spec() == self.auth_service_spec(),
            r.header_key_spec() == self.header_key_spec(),
            r.nojwt_header_key_spec() == self.nojwt_header_key_spec(),
            r.session_key_spec() == self.session_key_spec(),
    {
        let ChimesAuthorization {
            auth_info,
            auth_service,
            mut allow_urls,
            header_key,
            nojwt_header_key,
            session_key,
        } = self;
        allow_urls.push(url.clone());
        ChimesAuthorization {
            auth_info,
            auth_service,
            allow_urls,
            header_key,
            nojwt_header_key,
            session_key,
        }
    }

    /// Override the primary header key the token is read from.
    pub fn header_key(self, new_key: &String) -> (r: Self)
        ensures
            r.header_key_spec() == Option::Some(*new_key),
            r.auth_service_spec() == self.auth_service_spec(),
            r.allow_urls_spec() == self.allow_urls_spec(),
            r.nojwt_header_key_spec() == self.nojwt_header_key_spec(),
            r.session_key_spec() == self.session_key_spec(),
    {
        let ChimesAuthorization {
            auth_info,
            auth_service,
            allow_urls,
            header_key: _,
            nojwt_header_key,
            session_key,
        } = self;
        ChimesAuthorization {
            auth_info,
            auth_service,
            allow_urls,
            header_key: Option::Some(new_key.clone()),
            nojwt_header_key,
            session_key,
        }
    }

    /// Configure the secondary header key; a configured key routes the
    /// token to the provider's non-JWT authentication path.
    pub fn nojwt_header_key(self, new_key: &String) -> (r: Self)
        ensures
            r.nojwt_header_key_spec() == Option::Some(*new_key),
            r.auth_service_spec() == self.auth_service_spec(),
            r.allow_urls_spec() == self.allow_urls_spec(),
            r.header_key_spec() == self.header_key_spec(),
            r.session_key_spec() == self.session_key_spec(),
    {
        let ChimesAuthorization {
            auth_info,
            auth_service,
            allow_urls,
            header_key,
            nojwt_header_key: _,
            session_key,
        } = self;
        ChimesAuthorization {
            auth_info,
            auth_service,
            allow_urls,
            header_key,
            nojwt_header_key: Option::Some(new_key.clone()),
            session_key,
        }
    }

    /// Configure the key of a session-borne identity. The session path
    /// itself is an alternate identity-resolution strategy of the host;
    /// this middleware only carries the key for it.
    pub fn session_key(self, new_key: &String) -> (r: Self)
        ensures
            r.session_key_spec() == Option::Some(*new_key),
            r.auth_service_spec() == self.auth_service_spec(),
            r.allow_urls_spec() == self.allow_urls_spec(),
            r.header_key_spec() == self.header_key_spec(),
            r.nojwt_header_key_spec() == self.nojwt_header_key_spec(),
    {
        let ChimesAuthorization {
            auth_info,
            auth_service,
            allow_urls,
            header_key,
            nojwt_header_key,
            session_key: _,
        } = self;
        ChimesAuthorization {
            auth_info,
            auth_service,
            allow_urls,
            header_key,
            nojwt_header_key,
            session_key: Option::Some(new_key.clone()),
        }
    }

    /// Seal the configuration into the per-request middleware.
    pub fn new_transform(self) -> (r: ChimesAuthenticationMiddleware<T, P>)
        ensures
            r.auth_service_spec() == self.auth_service_spec(),
            r.allow_urls_spec() == self.allow_urls_spec(),
            r.header_key_spec() == self.header_key_spec(),
            r.nojwt_header_key_spec() == self.nojwt_header_key_spec(),
            r.session_key_spec() == self.session_key_spec(),
    {
        let ChimesAuthorization {
            auth_info,
            auth_service,
            allow_urls,
            header_key,
            nojwt_header_key,
            session_key,
        } = self;
        ChimesAuthenticationMiddleware {
            auth_info,
            auth_service,
            allow_urls,
            header_key,
            nojwt_header_key,
            session_key,
        }
    }
}

/// The per-request authorization gate: for each inbound request it runs
/// the decision pipeline — allow-list, token extraction, authentication
/// delegation, permission evaluation — and shapes the outcome.
pub struct ChimesAuthenticationMiddleware<T, P> where
    T: Clone + ChimesAuthUser<T>,
    P: ChimesAuthService<T>,
{
    #[allow(unused)]
    auth_info: Option<T>,
    auth_service: P,
    allow_urls: Vec<String>,
    header_key: Option<String>,
    nojwt_header_key: Option<String>,
    session_key: Option<String>,
}

impl<T, P> ChimesAuthenticationMiddleware<T, P> where
    T: Clone + ChimesAuthUser<T>,
    P: ChimesAuthService<T>,
{
    pub closed spec fn auth_service_spec(&self) -> P {
        self.auth_service
    }

    pub closed spec fn allow_urls_spec(&self) -> Seq<String> {
        self.allow_urls@
    }

    pub closed spec fn header_key_spec(&self) -> Option<String> {
        self.header_key
    }

    pub closed spec fn nojwt_header_key_spec(&self) -> Option<String> {
        self.nojwt_header_key
    }

    pub closed spec fn session_key_spec(&self) -> Option<String> {
        self.session_key
    }

    /// Whether `pattern` is a member of the configured allow-list.
    pub open spec fn allowed_spec(&self, pattern: Seq<char>) -> bool {
        exists|i: int|
            0 <= i < self.allow_urls_spec().len() && self.allow_urls_spec()[i]@ == pattern
    }

    /// The header key the token is read from: the no-JWT key when one is
    /// configured, else the primary key, else "Authentication".
    pub open spec fn effective_header_key_spec(&self) -> Seq<char> {
        match self.nojwt_header_key_spec() {
            Option::Some(k) => k@,
            Option::None => match self.header_key_spec() {
                Option::Some(k) => k@,
                Option::None => "Authentication"@,
            },
        }
    }

    /// The identity the configured authentication path resolves the
    /// extracted token to. A missing or undecodable header value is no
    /// token, and resolves to no identity.
    pub open spec fn identity_spec(&self, token: Option<Seq<char>>) -> Option<T> {
        match token {
            Option::None => Option::None,
            Option::Some(t) => if self.nojwt_header_key_spec() is Some {
                self.auth_service_spec().nojwt_authenticate_spec(t)
            } else {
                self.auth_service_spec().authenticate_spec(t)
            },
        }
    }

    /// The outcome class `handle` is bound to produce for a request: the
    /// allow-list forwards unconditionally with no identity attached;
    /// otherwise the resolved identity runs through the permit policy
    /// table, and the two denied states map to 401 and 403.
    pub open spec fn outcome_spec(
        &self,
        method: Seq<char>,
        pattern: Seq<char>,
        token: Option<Seq<char>>,
    ) -> GateOutcome<T> {
        if self.allowed_spec(pattern) {
            GateOutcome::Forwarded(Option::None)
        } else {
            let ust = self.identity_spec(token);
            match expected_permit(self.auth_service_spec(), ust, method, pattern) {
                PermitOutcome::Permitted => GateOutcome::Forwarded(ust),
                PermitOutcome::DeniedWithoutIdentity => GateOutcome::Unauthorized,
                PermitOutcome::DeniedWithIdentity => GateOutcome::Forbidden,
            }
        }
    }

    /// Whether the matched route pattern is on the allow-list.
    pub fn is_allowed(&self, url_pattern: &String) -> (r: bool)
        ensures
            r == self.allowed_spec(url_pattern@),
    {
        let n = self.allow_urls.len();
        let mut i: usize = 0;
        while i < n
            invariant
                i <= n,
                n == self.allow_urls_spec().len(),
                forall|j: int| 0 <= j < i ==> self.allow_urls_spec()[j]@ != url_pattern@,
            decreases n - i,
        {
            if self.allow_urls[i] == *url_pattern {
                proof {
                    assert(self.allow_urls_spec()[i as int]@ == url_pattern@);
                }
                return true;
            }
            i += 1;
        }
        false
    }

    /// The header key to read the token from, as an owned string.
    pub fn effective_header_key(&self) -> (r: String)
        ensures
            r@ == self.effective_header_key_spec(),
    {
        match &self.nojwt_header_key {
            Option::Some(k) => k.clone(),
            Option::None => match &self.header_key {
                Option::Some(k) => k.clone(),
                Option::None => "Authentication".to_owned(),
            },
        }
    }

    /// Resolve an identity from the extracted token, through the
    /// configured authentication path of the provider.
    pub fn resolve_identity(&self, token: &Option<String>) -> (r: Option<T>)
        ensures
            r == self.identity_spec(token.deep_view()),
    {
        match token {
            Option::None => Option::None,
            Option::Some(t) => if self.nojwt_header_key.is_some() {
                self.auth_service.nojwt_authenticate(t)
            } else {
                self.auth_service.authenticate(t)
            },
        }
    }

    /// The decision pipeline, run once per inbound request.
    ///
    /// `req_method` is the request's verb, `url_pattern` the matched
    /// route template, and `token` the value of the effective header —
    /// `None` where the header was missing or not decodable. The result
    /// is pinned to [`Self::outcome_spec`]: forward (with the resolved
    /// identity to attach), or reject with the 401 `"Not-Authorized"` or
    /// 403 `"Forbidden"` envelope.
    pub fn handle(&self, req_method: &String, url_pattern: &String, token: &Option<String>) -> (r: GateDecision<T>)
        ensures
            match self.outcome_spec(req_method@, url_pattern@, token.deep_view()) {
                GateOutcome::Forwarded(u) => r == GateDecision::Forward(u),
                GateOutcome::Unauthorized => r matches GateDecision::Reject(resp)
                    && resp.status == 401 && resp.message@ == "Not-Authorized"@
                    && resp.data is None && resp.timestamp is Some,
                GateOutcome::Forbidden => r matches GateDecision::Reject(resp)
                    && resp.status == 403 && resp.message@ == "Forbidden"@
                    && resp.data is None && resp.timestamp is Some,
            },
    {
        if self.is_allowed(url_pattern) {
            GateDecision::Forward(Option::None)
        } else {
            let ust = self.resolve_identity(token);
            let outcome = self.auth_service.permit(&ust, req_method, url_pattern);
            match outcome {
                PermitOutcome::Permitted => GateDecision::Forward(ust),
                PermitOutcome::DeniedWithoutIdentity => {
                    let msg = "Not-Authorized".to_owned();
                    GateDecision::Reject(ApiResult::error(401, &msg))
                },
                PermitOutcome::DeniedWithIdentity => {
                    let msg = "Forbidden".to_owned();
                    GateDecision::Reject(ApiResult::error(403, &msg))
                },
            }
        }
    }
}

/// An allow-listed pattern is forwarded with no identity attached, and
/// the outcome does not depend on what token, if any, came with the
/// request: no authentication or permission result can change it.
pub proof fn lemma_allow_list_bypass<T: Clone + ChimesAuthUser<T>, P: ChimesAuthService<T>>(
    gate: ChimesAuthenticationMiddleware<T, P>,
    method: Seq<char>,
    pattern: Seq<char>,
    token: Option<Seq<char>>,
    other_token: Option<Seq<char>>,
)
    requires
        gate.allowed_spec(pattern),
    ensures
        gate.outcome_spec(method, pattern, token) == GateOutcome::<T>::Forwarded(
            Option::<T>::None,
        ),
        gate.outcome_spec(method, pattern, token) == gate.outcome_spec(
            method,
            pattern,
            other_token,
        ),
{
}

/// On a route configured `anonymous`, the request is forwarded whether
/// or not the token resolves to an identity.
pub proof fn lemma_anonymous_route_forwards<
    T: Clone + ChimesAuthUser<T>,
    P: ChimesAuthService<T>,
>(
    gate: ChimesAuthenticationMiddleware<T, P>,
    method: Seq<char>,
    pattern: Seq<char>,
    token: Option<Seq<char>>,
)
    requires
        !gate.allowed_spec(pattern),
        gate.auth_service_spec().bypass_mode_spec(method, pattern) == BypassMode::Anonymous,
    ensures
        gate.outcome_spec(method, pattern, token) == GateOutcome::<T>::Forwarded(
            gate.identity_spec(token),
        ),
{
}

/// On a route configured `user`, the request is forwarded iff the token
/// resolves to an identity — regardless of roles — and otherwise the
/// outcome is the 401 class.
pub proof fn lemma_user_route_requires_identity<
    T: Clone + ChimesAuthUser<T>,
    P: ChimesAuthService<T>,
>(
    gate: ChimesAuthenticationMiddleware<T, P>,
    method: Seq<char>,
    pattern: Seq<char>,
    token: Option<Seq<char>>,
)
    requires
        !gate.allowed_spec(pattern),
        gate.auth_service_spec().bypass_mode_spec(method, pattern) == BypassMode::User,
    ensures
        gate.identity_spec(token) is Some ==> gate.outcome_spec(method, pattern, token)
            == GateOutcome::<T>::Forwarded(gate.identity_spec(token)),
        gate.identity_spec(token) is None ==> gate.outcome_spec(method, pattern, token)
            == GateOutcome::<T>::Unauthorized,
{
}

/// On a route configured `permit`: an absent identity always yields the
/// 401 class (never 403); a resolved identity without the required grant
/// always yields the 403 class (never 401); a resolved identity with it
/// is forwarded.
pub proof fn lemma_permit_route_checks_grant<
    T: Clone + ChimesAuthUser<T>,
    P: ChimesAuthService<T>,
>(
    gate: ChimesAuthenticationMiddleware<T, P>,
    method: Seq<char>,
    pattern: Seq<char>,
    token: Option<Seq<char>>,
)
    requires
        !gate.allowed_spec(pattern),
        gate.auth_service_spec().bypass_mode_spec(method, pattern) == BypassMode::Permit,
    ensures
        match gate.identity_spec(token) {
            Option::None => gate.outcome_spec(method, pattern, token)
                == GateOutcome::<T>::Unauthorized,
            Option::Some(u) => gate.outcome_spec(method, pattern, token) == (
            if gate.auth_service_spec().grants_spec(u, method, pattern) {
                GateOutcome::<T>::Forwarded(Option::Some(u))
            } else {
                GateOutcome::<T>::Forbidden
            }),
        },
{
}

/// Repeated identical requests — same method, pattern and token — against
/// an unchanged gate and provider resolve to the same outcome class.
pub proof fn lemma_outcome_deterministic<T: Clone + ChimesAuthUser<T>, P: ChimesAuthService<T>>(
    first: ChimesAuthenticationMiddleware<T, P>,
    second: ChimesAuthenticationMiddleware<T, P>,
    method: Seq<char>,
    pattern: Seq<char>,
    token: Option<Seq<char>>,
)
    requires
        first == second,
    ensures
        first.outcome_spec(method, pattern, token) == second.outcome_spec(method, pattern, token),
{
}

} // verus!
