use vstd::prelude::*;

use crate::chimes::{BypassMode, ChimesAuthService, ChimesAuthUser, ChimesResource, PermitOutcome};

verus! {

/// An identity resolved by the in-memory provider: a name, a credential,
/// and the single role the holder acts under.
pub struct MemoryAuthUser {
    pub user_name: String,
    pub creditial: String,
    pub role: String,
}

impl Clone for MemoryAuthUser {
    fn clone(&self) -> (r: Self)
        ensures
            r == *self,
    {
        MemoryAuthUser {
            user_name: self.user_name.clone(),
            creditial: self.creditial.clone(),
            role: self.role.clone(),
        }
    }
}

impl ChimesAuthUser<MemoryAuthUser> for MemoryAuthUser {
    open spec fn user_name_spec(&self) -> Seq<char> {
        self.user_name@
    }

    open spec fn creditial_spec(&self) -> Seq<char> {
        self.creditial@
    }

    open spec fn detail_spec(&self) -> MemoryAuthUser {
        *self
    }

    fn get_user_name(&self) -> String {
        self.user_name.clone()
    }

    fn get_creditial(&self) -> String {
        self.creditial.clone()
    }

    fn to_detail(&self) -> &MemoryAuthUser {
        self
    }
}

/// One configured route: its verb, its URL pattern, the bypass mode that
/// governs it, and — for `Permit` mode — the role the route requires.
pub struct AccessRule {
    pub method: String,
    pub pattern: String,
    pub mode: BypassMode,
    pub required_role: String,
}

/// The identity the first entry with a matching token resolves to.
pub open spec fn lookup_token(
    tokens: Seq<(String, MemoryAuthUser)>,
    token: Seq<char>,
) -> Option<MemoryAuthUser>
    decreases tokens.len(),
{
    if tokens.len() == 0 {
        Option::None
    } else if tokens[0].0@ == token {
        Option::Some(tokens[0].1)
    } else {
        lookup_token(tokens.drop_first(), token)
    }
}

/// The first rule configured for a (method, URL pattern) pair.
pub open spec fn find_rule(
    rules: Seq<AccessRule>,
    method: Seq<char>,
    pattern: Seq<char>,
) -> Option<AccessRule>
    decreases rules.len(),
{
    if rules.len() == 0 {
        Option::None
    } else if rules[0].method@ == method && rules[0].pattern@ == pattern {
        Option::Some(rules[0])
    } else {
        find_rule(rules.drop_first(), method, pattern)
    }
}

/// An in-memory authentication/authorization provider: a token table
/// resolving tokens to identities, a rule list deciding each route's
/// bypass mode and required role, and a resource snapshot. A route with
/// no rule defaults to `User` mode, so an unconfigured route is reachable
/// only with an authenticated identity.
pub struct MemoryAuthService {
    pub tokens: Vec<(String, MemoryAuthUser)>,
    pub rules: Vec<AccessRule>,
    pub resource_code: String,
    pub resources: Vec<(String, String)>,
}

impl MemoryAuthService {
    /// The identity the token table resolves `token` to, if any.
    fn lookup(&self, token: &String) -> (r: Option<MemoryAuthUser>)
        ensures
            r == lookup_token(self.tokens@, token@),
    {
        let n = self.tokens.len();
        let mut i: usize = 0;
        proof {
            assert(self.tokens@.skip(0) =~= self.tokens@);
        }
        while i < n
            invariant
                i <= n,
                n == self.tokens.len(),
                lookup_token(self.tokens@, token@) == lookup_token(
                    self.tokens@.skip(i as int),
                    token@,
                ),
            decreases n - i,
        {
            if self.tokens[i].0 == *token {
                proof {
                    assert(self.tokens@.skip(i as int)[0] == self.tokens@[i as int]);
                }
                return Option::Some(self.tokens[i].1.clone());
            }
            proof {
                assert(self.tokens@.skip(i as int).drop_first() =~= self.tokens@.skip(
                    i as int + 1,
                ));
                assert(self.tokens@.skip(i as int)[0] == self.tokens@[i as int]);
            }
            i += 1;
        }
        proof {
            assert(self.tokens@.skip(n as int) =~= Seq::<(String, MemoryAuthUser)>::empty());
        }
        Option::None
    }

    /// The position of the first rule matching (method, pattern), if any.
    fn matching_rule_index(&self, method: &String, pattern: &String) -> (r: Option<usize>)
        ensures
            match r {
                Option::Some(i) => i < self.rules.len() && find_rule(self.rules@, method@, pattern@)
                    == Option::Some(self.rules@[i as int]),
                Option::None => find_rule(self.rules@, method@, pattern@) is None,
            },
    {
        let n = self.rules.len();
        let mut i: usize = 0;
        proof {
            assert(self.rules@.skip(0) =~= self.rules@);
        }
        while i < n
            invariant
                i <= n,
                n == self.rules.len(),
                find_rule(self.rules@, method@, pattern@) == find_rule(
                    self.rules@.skip(i as int),
                    method@,
                    pattern@,
                ),
            decreases n - i,
        {
            if self.rules[i].method == *method && self.rules[i].pattern == *pattern {
                proof {
                    assert(self.rules@.skip(i as int)[0] == self.rules@[i as int]);
                }
                return Option::Some(i);
            }
            proof {
                assert(self.rules@.skip(i as int).drop_first() =~= self.rules@.skip(i as int + 1));
                assert(self.rules@.skip(i as int)[0] == self.rules@[i as int]);
            }
            i += 1;
        }
        proof {
            assert(self.rules@.skip(n as int) =~= Seq::<AccessRule>::empty());
        }
        Option::None
    }
}

impl ChimesAuthService<MemoryAuthUser> for MemoryAuthService {
    open spec fn authenticate_spec(&self, token: Seq<char>) -> Option<MemoryAuthUser> {
        lookup_token(self.tokens@, token)
    }

    open spec fn nojwt_authenticate_spec(&self, token: Seq<char>) -> Option<MemoryAuthUser> {
        lookup_token(self.tokens@, token)
    }

    open spec fn bypass_mode_spec(&self, method: Seq<char>, pattern: Seq<char>) -> BypassMode {
        match find_rule(self.rules@, method, pattern) {
            Option::Some(rule) => rule.mode,
            Option::None => BypassMode::User,
        }
    }

    open spec fn grants_spec(
        &self,
        user: MemoryAuthUser,
        method: Seq<char>,
        pattern: Seq<char>,
    ) -> bool {
        match find_rule(self.rules@, method, pattern) {
            Option::Some(rule) => user.role@ == rule.required_role@,
            Option::None => false,
        }
    }

    fn authenticate(&self, token: &String) -> Option<MemoryAuthUser> {
        self.lookup(token)
    }

    fn nojwt_authenticate(&self, token: &String) -> Option<MemoryAuthUser> {
        self.lookup(token)
    }

    fn permit(
        &self,
        ust: &Option<MemoryAuthUser>,
        req_method: &String,
        url_pattern: &String,
    ) -> PermitOutcome {
        match self.matching_rule_index(req_method, url_pattern) {
            Option::None => match ust {
                Option::Some(_) => PermitOutcome::Permitted,
                Option::None => PermitOutcome::DeniedWithoutIdentity,
            },
            Option::Some(i) => match self.rules[i].mode {
                BypassMode::Anonymous => PermitOutcome::Permitted,
                BypassMode::User => match ust {
                    Option::Some(_) => PermitOutcome::Permitted,
                    Option::None => PermitOutcome::DeniedWithoutIdentity,
                },
                BypassMode::Permit => match ust {
                    Option::None => PermitOutcome::DeniedWithoutIdentity,
                    Option::Some(u) => if u.role == self.rules[i].required_role {
                        PermitOutcome::Permitted
                    } else {
                        PermitOutcome::DeniedWithIdentity
                    },
                },
            },
        }
    }
}

impl ChimesResource<String> for MemoryAuthService {
    open spec fn code_spec(&self) -> Seq<char> {
        self.resource_code@
    }

    open spec fn resources_spec(&self) -> Seq<(String, String)> {
        self.resources@
    }

    fn get_code(&self) -> String {
        self.resource_code.clone()
    }

    fn load_all_resources(&self) -> Vec<(String, String)> {
        let n = self.resources.len();
        let mut out: Vec<(String, String)> = Vec::new();
        let mut i: usize = 0;
        while i < n
            invariant
                i <= n,
                n == self.resources.len(),
                out@ == self.resources@.subrange(0, i as int),
            decreases n - i,
        {
            let code = self.resources[i].0.clone();
            let detail = self.resources[i].1.clone();
            out.push((code, detail));
            proof {
                assert(out@ =~= self.resources@.subrange(0, i as int + 1));
            }
            i += 1;
        }
        proof {
            assert(out@ =~= self.resources@);
        }
        out
    }
}

} // verus!
