use vstd::prelude::*;

verus! {

/// Per-route configuration governing who may pass: anyone, any
/// authenticated identity, or only identities that satisfy the route's
/// resource/role requirement.
#[derive(Clone, Copy, Debug, PartialEq, Eq, Structural)]
pub enum BypassMode {
    Anonymous,
    User,
    Permit,
}

/// The result of a permission evaluation. The two denied states are
/// distinct on purpose: they determine whether the pipeline answers with
/// 401 (no identity was resolved) or 403 (an identity was resolved but
/// lacks the required grant).
#[derive(Clone, Copy, Debug, PartialEq, Eq, Structural)]
pub enum PermitOutcome {
    Permitted,
    DeniedWithoutIdentity,
    DeniedWithIdentity,
}

/// A registry of protected resources, keyed by code. Used by permission
/// implementations to translate a URL pattern into a resource when
/// deciding a `Permit`-mode route; the pipeline itself only reads it.
pub trait ChimesResource<T>: Sized {
    /// The registry's own discriminator, for when several registries coexist.
    spec fn code_spec(&self) -> Seq<char>;

    /// The full snapshot of registered (code, detail) entries.
    spec fn resources_spec(&self) -> Seq<(String, T)>;

    fn get_code(&self) -> (r: String)
        ensures
            r@ == self.code_spec(),
    ;

    fn load_all_resources(&self) -> (r: Vec<(String, T)>)
        ensures
            r@ == self.resources_spec(),
    ;
}

/// A resolved, authenticated caller: a snapshot taken at authentication
/// time, exposing a name, a credential value, and caller-defined detail.
pub trait ChimesAuthUser<T>: Sized {
    spec fn user_name_spec(&self) -> Seq<char>;

    spec fn creditial_spec(&self) -> Seq<char>;

    spec fn detail_spec(&self) -> T;

    fn get_user_name(&self) -> (r: String)
        ensures
            r@ == self.user_name_spec(),
    ;

    fn get_creditial(&self) -> (r: String)
        ensures
            r@ == self.creditial_spec(),
    ;

    fn to_detail(&self) -> (r: &T)
        ensures
            *r == self.detail_spec(),
    ;
}

/// The authentication/authorization capability the pipeline delegates to.
///
/// `authenticate` resolves a bearer token, `nojwt_authenticate` an
/// alternate header value such as an API key; both return an absent
/// identity (not an error) for invalid, expired, or unknown tokens.
/// `permit` must implement exactly the policy table written down in
/// [`expected_permit`].
pub trait ChimesAuthService<T>: Sized {
    /// The identity a bearer token resolves to, if any.
    spec fn authenticate_spec(&self, token: Seq<char>) -> Option<T>;

    /// The identity an alternate (non-JWT) header value resolves to, if any.
    spec fn nojwt_authenticate_spec(&self, token: Seq<char>) -> Option<T>;

    /// The bypass mode configured for a (method, URL pattern) pair.
    spec fn bypass_mode_spec(&self, method: Seq<char>, pattern: Seq<char>) -> BypassMode;

    /// Whether an identity's roles or resource grants satisfy the
    /// resource mapped to a (method, URL pattern) pair.
    spec fn grants_spec(&self, user: T, method: Seq<char>, pattern: Seq<char>) -> bool;

    fn authenticate(&self, token: &String) -> (r: Option<T>)
        ensures
            r == self.authenticate_spec(token@),
    ;

    fn nojwt_authenticate(&self, token: &String) -> (r: Option<T>)
        ensures
            r == self.nojwt_authenticate_spec(token@),
    ;

    fn permit(&self, ust: &Option<T>, req_method: &String, url_pattern: &String) -> (r: PermitOutcome)
        ensures
            r == permit_policy(
                self.bypass_mode_spec(req_method@, url_pattern@),
                *ust,
                match *ust {
                    Option::Some(u) => self.grants_spec(u, req_method@, url_pattern@),
                    Option::None => false,
                },
            ),
    ;
}

/// The authoritative policy table for `permit`, over the route's bypass
/// mode, the resolved identity, and whether that identity's roles or
/// resource grants satisfy the route:
///
/// | identity | mode      | outcome                                      |
/// |----------|-----------|----------------------------------------------|
/// | absent   | anonymous | permitted                                    |
/// | absent   | user      | denied without identity                      |
/// | absent   | permit    | denied without identity                      |
/// | present  | anonymous | permitted                                    |
/// | present  | user      | permitted (regardless of roles)              |
/// | present  | permit    | permitted iff the grant check holds, else denied with identity |
pub open spec fn permit_policy<T>(mode: BypassMode, ust: Option<T>, granted: bool) -> PermitOutcome {
    match mode {
        BypassMode::Anonymous => PermitOutcome::Permitted,
        BypassMode::User => match ust {
            Option::Some(_) => PermitOutcome::Permitted,
            Option::None => PermitOutcome::DeniedWithoutIdentity,
        },
        BypassMode::Permit => match ust {
            Option::None => PermitOutcome::DeniedWithoutIdentity,
            Option::Some(_) => if granted {
                PermitOutcome::Permitted
            } else {
                PermitOutcome::DeniedWithIdentity
            },
        },
    }
}

/// What [`ChimesAuthService::permit`] is bound to return for a given
/// provider, identity, method and pattern: the policy table applied to
/// the provider's configured mode and grant evaluation.
pub open spec fn expected_permit<T, P: ChimesAuthService<T>>(
    svc: P,
    ust: Option<T>,
    method: Seq<char>,
    pattern: Seq<char>,
) -> PermitOutcome {
    permit_policy(
        svc.bypass_mode_spec(method, pattern),
        ust,
        match ust {
            Option::Some(u) => svc.grants_spec(u, method, pattern),
            Option::None => false,
        },
    )
}

} // verus!
