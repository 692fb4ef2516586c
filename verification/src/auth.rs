use vstd::prelude::*;

use crate::strutil::{spec_starts_with, str_eq_str, str_starts_with};

verus! {

/// Why a request was rejected by the authentication gate.
#[derive(Clone, Copy, PartialEq, Eq, Structural, Debug)]
pub enum AuthError {
    /// No `Authorization` header was present.
    MissingCredential,
    /// The header was present but did not use the bearer scheme.
    MalformedCredential,
    /// The bearer token did not equal the configured secret.
    InvalidCredential,
}

/// What the authentication gate decided for one request.
#[derive(Clone, Copy, PartialEq, Eq, Structural, Debug)]
pub enum AuthDecision {
    /// The request may reach its handler.
    Allow,
    /// The request is answered with an authorization failure.
    Reject(AuthError),
}

/// A path that bypasses credential checking: avatar retrieval and the
/// stats page are publicly readable.
pub open spec fn spec_is_bypass_path(path: Seq<char>) -> bool {
    spec_starts_with(path, "/avatars/"@) || path == "/stats"@
}

/// The decision due for a request with target path `path` and
/// `Authorization` header `header` (absent or its text), against the
/// configured secret `token`.
pub open spec fn spec_auth_decision(
    path: Seq<char>,
    header: Option<Seq<char>>,
    token: Seq<char>,
) -> AuthDecision {
    if spec_is_bypass_path(path) {
        AuthDecision::Allow
    } else {
        match header {
            None => AuthDecision::Reject(AuthError::MissingCredential),
            Some(h) => if !spec_starts_with(h, "Bearer "@) {
                AuthDecision::Reject(AuthError::MalformedCredential)
            } else if h.subrange(7, h.len() as int) != token {
                AuthDecision::Reject(AuthError::InvalidCredential)
            } else {
                AuthDecision::Allow
            },
        }
    }
}

/// The authentication gate placed ahead of routing: it holds the shared
/// secret and decides for every request whether it may proceed.
#[derive(Clone)]
pub struct AuthMiddleware {
    auth_token: String,
}

impl AuthMiddleware {
    /// The configured shared secret.
    pub closed spec fn token(&self) -> Seq<char> {
        self.auth_token@
    }

    /// Builds the authentication gate from the configured shared secret.
    pub fn new(auth_token: String) -> (m: Self)
        ensures
            m.token() == auth_token@,
    {
        AuthMiddleware { auth_token }
    }

    /// Decides whether a request may proceed.
    ///
    /// Retrieval paths and the stats path always pass; every other path
    /// needs an `Authorization: Bearer <secret>` header: a missing header,
    /// a non-bearer scheme, and a wrong token are each rejected with their
    /// own reason.
    pub fn check_request(&self, path: &str, auth_header: Option<&str>) -> (d: AuthDecision)
        ensures
            d == spec_auth_decision(
                path@,
                match auth_header {
                    Some(h) => Some(h@),
                    None => None,
                },
                self.token(),
            ),
            spec_is_bypass_path(path@) ==> d == AuthDecision::Allow,
            !spec_is_bypass_path(path@) && auth_header is None ==> d == AuthDecision::Reject(
                AuthError::MissingCredential,
            ),
            !spec_is_bypass_path(path@) && (d == AuthDecision::Allow) ==> (auth_header matches Some(
                h,
            ) && h@ == "Bearer "@ + self.token()),
    {
        proof {
            reveal_strlit("Bearer ");
            reveal_strlit("/avatars/");
            reveal_strlit("/stats");
        }
        if str_starts_with(path, "/avatars/") || str_eq_str(path, "/stats") {
            return AuthDecision::Allow;
        }
        match auth_header {
            None => AuthDecision::Reject(AuthError::MissingCredential),
            Some(h) => {
                if !str_starts_with(h, "Bearer ") {
                    AuthDecision::Reject(AuthError::MalformedCredential)
                } else {
                    let hlen = h.unicode_len();
                    let token = h.substring_char(7, hlen);
                    if !str_eq_str(token, self.auth_token.as_str()) {
                        AuthDecision::Reject(AuthError::InvalidCredential)
                    } else {
                        proof {
                            assert(h@ =~= "Bearer "@ + h@.subrange(7, h@.len() as int));
                        }
                        AuthDecision::Allow
                    }
                }
            },
        }
    }
}

} // verus!
