//! Identity handling: the token service that mints and verifies signed,
//! time-bounded identity tokens, the cascading guard chain that resolves a
//! request's trust level, and the response-phase refresh that slides a valid
//! token's expiration forward.
//!
//! Everything here is a pure function of its inputs plus one immutable
//! configuration value (the signing secret and lifetime); the credentials
//! store is consulted between the stages by the caller, which hands the
//! looked-up record in as a plain value.

use vstd::prelude::*;
use vstd::string::StringExecFns;
use crate::strutil::{normalized_of, normalized};
use crate::users::{User, FarmOwnerStatus};

verus! {

#[verifier::external_type_specification]
#[verifier::external_body]
pub struct ExJwtError(jsonwebtoken::errors::Error);

/// The payload embedded in a token: the subject and the expiry, as seconds
/// since the Unix epoch.
#[derive(Debug, Clone)]
pub struct Claims {
    pub subject_id: String,
    exp: u64,
}

/// The token that signing the given subject and expiry with the given secret
/// produces: a function of these three alone (the header is fixed).
pub uninterp spec fn token_of(subject: Seq<char>, exp: u64, secret: Seq<u8>) -> Seq<char>;

/// What decoding a token under a secret yields: the embedded subject and
/// expiry when the token is structurally sound and its signature matches
/// that secret, nothing otherwise. The clock plays no part; the outcome is a
/// function of token text and secret alone.
pub uninterp spec fn claims_of(token: Seq<char>, secret: Seq<u8>) -> Option<(Seq<char>, u64)>;

/// Relies on `jsonwebtoken::encode` with an HS512 header: signing never
/// fails for this configuration (the secret key suits the HS512 header, the
/// two-entry claims map always serializes, and the HMAC family signs every
/// message); the token is a non-empty function of subject, expiry and secret
/// alone; and decoding it under the same secret hands the claims back.
#[verifier::external_body]
fn jwt_encode(subject: &str, exp: u64, secret: &[u8]) -> (r: Result<
    String,
    jsonwebtoken::errors::Error,
>)
    ensures
        r is Ok,
        r matches Ok(t) ==> t@ == token_of(subject@, exp, secret@),
        r matches Ok(t) ==> t@.len() > 0,
        r matches Ok(t) ==> claims_of(t@, secret@) == Some((subject@, exp)),
{
    let header = jsonwebtoken::Header::new(jsonwebtoken::Algorithm::HS512);
    let key = jsonwebtoken::EncodingKey::from_secret(secret);
    let mut claims = serde_json::Map::new();
    claims.insert("subject_id".to_string(), serde_json::Value::String(subject.to_string()));
    claims.insert("exp".to_string(), serde_json::Value::from(exp));
    jsonwebtoken::encode(&header, &serde_json::Value::Object(claims), &key)
}

/// Relies on `jsonwebtoken::decode` with an HS512 validation whose clock
/// check is switched off: structure, signature, algorithm and claim shape
/// are checked, the expiry is read but not compared, so the outcome is a
/// function of token text and secret alone.
#[verifier::external_body]
fn jwt_decode(token: &str, secret: &[u8]) -> (r: Option<Claims>)
    ensures
        r matches Some(c) ==> claims_of(token@, secret@) == Some((c.subject_id@, c.exp)),
        r is None <==> claims_of(token@, secret@) is None,
{
    let key = jsonwebtoken::DecodingKey::from_secret(secret);
    let mut validation = jsonwebtoken::Validation::new(jsonwebtoken::Algorithm::HS512);
    validation.validate_exp = false;
    let data = jsonwebtoken::decode::<serde_json::Value>(token, &key, &validation).ok()?;
    let subject_id = data.claims.get("subject_id")?.as_str()?.to_string();
    let exp = data.claims.get("exp")?.as_u64()?;
    Some(Claims { subject_id, exp })
}

/// Relies on chrono's `Utc::now`: the current time in seconds since the Unix
/// epoch; nothing is assumed of the value.
#[verifier::external_body]
fn now_unix() -> i64 {
    chrono::Utc::now().timestamp()
}

/// The payload of a login request: a username or email address, and the
/// password to check it against.
pub struct LoginCredentials {
    pub identity: String,
    pub password: String,
}

/// The fixed lifetime of an issued token, in seconds.
pub const TOKEN_TTL_SECONDS: u64 = 900;

/// What a token verifies to at a given time: the embedded subject when the
/// token decodes under the secret and the time lies strictly before the
/// embedded expiry; nothing otherwise. A token is invalid from the moment
/// of its expiry on.
pub open spec fn verify_spec(token: Seq<char>, secret: Seq<u8>, now: u64) -> Option<Seq<char>> {
    match claims_of(token, secret) {
        Some(c) => if now < c.1 {
            Some(c.0)
        } else {
            None
        },
        None => None,
    }
}

/// Mints and verifies identity tokens under one process-wide, immutable
/// configuration: a non-empty signing secret and a fixed lifetime. The
/// configuration is handed in at construction and never read from ambient
/// state.
pub struct TokenService {
    secret: Vec<u8>,
    ttl: u64,
}

impl TokenService {
    /// The configured signing secret.
    pub closed spec fn spec_secret(&self) -> Seq<u8> {
        self.secret@
    }

    /// The configured token lifetime in seconds.
    pub closed spec fn spec_ttl(&self) -> u64 {
        self.ttl
    }

    #[verifier::type_invariant]
    spec fn type_inv(&self) -> bool {
        self.secret@.len() > 0 && self.ttl > 0
    }

    /// Builds the service from an explicit secret, with the standard
    /// lifetime. An empty secret is refused, never defaulted: the service
    /// must not run without a configured secret.
    pub fn new(secret: Vec<u8>) -> (r: Option<TokenService>)
        ensures
            r is Some <==> secret@.len() > 0,
            r matches Some(s) ==> s.spec_secret() == secret@ && s.spec_ttl() == TOKEN_TTL_SECONDS,
    {
        if secret.len() == 0 {
            None
        } else {
            Some(TokenService { secret, ttl: TOKEN_TTL_SECONDS })
        }
    }

    /// Mints a token at an explicit time: the subject is normalized
    /// (trimmed, lower-cased) and signed together with the expiry
    /// `now + ttl`. Minting never fails: the expiry fits by the caller's
    /// bound, and signing is total for this configuration.
    pub fn issue_at(&self, username: &str, now: u64) -> (token: String)
        requires
            now + self.spec_ttl() <= u64::MAX,
        ensures
            token@ == token_of(
                normalized_of(username@),
                (now + self.spec_ttl()) as u64,
                self.spec_secret(),
            ),
            claims_of(token@, self.spec_secret()) == Some(
                (normalized_of(username@), (now + self.spec_ttl()) as u64),
            ),
            token@.len() > 0,
    {
        let subject = normalized(username);
        let exp: u64 = now + self.ttl;
        match jwt_encode(subject.as_str(), exp, self.secret.as_slice()) {
            Ok(t) => t,
            Err(_) => {
                // signing is total for this configuration
                proof {
                    assert(false);
                }
                String::new()
            },
        }
    }

    /// Mints a token expiring one lifetime from the current clock reading.
    /// `None` only when the clock reads outside the representable range:
    /// before the epoch, or so late that the expiry would not fit.
    pub fn issue(&self, username: &str) -> (r: Option<String>)
        ensures
            r matches Some(t) ==> exists|e: u64|
                {
                    &&& t@ == #[trigger] token_of(normalized_of(username@), e, self.spec_secret())
                    &&& claims_of(t@, self.spec_secret()) == Some((normalized_of(username@), e))
                },
            r matches Some(t) ==> t@.len() > 0,
    {
        let stamp: i64 = now_unix();
        if stamp < 0 {
            return None;
        }
        let now = stamp as u64;
        if now > u64::MAX - self.ttl {
            return None;
        }
        let t = self.issue_at(username, now);
        proof {
            assert(t@ == token_of(
                normalized_of(username@),
                (now + self.spec_ttl()) as u64,
                self.spec_secret(),
            ));
        }
        Some(t)
    }

    /// Verifies a presented token at an explicit time: the embedded subject
    /// when the signature matches the configured secret and the time lies
    /// strictly before the embedded expiry; `None` for every malformed,
    /// forged or expired token — an expected outcome, never an error.
    ///
    /// The subject comes back exactly as embedded, with no re-folding of its
    /// casing: this service mints only normalized subjects, and a subject is
    /// immutable once minted into a token, so what was stored is what is
    /// returned (see `lemma_verified_subject_is_embedded`).
    pub fn verify_at(&self, token: &str, now: u64) -> (r: Option<String>)
        ensures
            match r {
                Some(u) => verify_spec(token@, self.spec_secret(), now) == Some(u@),
                None => verify_spec(token@, self.spec_secret(), now) is None,
            },
            claims_of(token@, self.spec_secret()) matches Some(c) ==> (c.1 <= now ==> r is None),
    {
        match jwt_decode(token, self.secret.as_slice()) {
            Some(c) => if now < c.exp {
                Some(c.subject_id)
            } else {
                None
            },
            None => None,
        }
    }

    /// Verifies a presented token against the current clock reading.
    pub fn verify(&self, token: &str) -> (r: Option<String>)
        ensures
            r matches Some(u) ==> exists|at: u64|
                #[trigger] verify_spec(token@, self.spec_secret(), at) == Some(u@),
    {
        let stamp: i64 = now_unix();
        if stamp < 0 {
            return None;
        }
        let now = stamp as u64;
        let r = self.verify_at(token, now);
        proof {
            if r is Some {
                assert(verify_spec(token@, self.spec_secret(), now) == Some(r->Some_0@));
            }
        }
        r
    }
}

/// An accepted subject is the embedded subject, unchanged: verification
/// never re-folds a token's casing. A subject is normalized when it is
/// minted and immutable thereafter, so every token this service issued
/// resolves to a normalized subject; a token minted elsewhere under the same
/// secret resolves to whatever casing its claims carry.
pub proof fn lemma_verified_subject_is_embedded(token: Seq<char>, secret: Seq<u8>, at: u64)
    ensures
        verify_spec(token, secret, at) matches Some(u) ==> claims_of(token, secret) matches Some(c)
            && c.0 == u,
{
}

/// Issuing then verifying round-trips: a token whose claims decode to the
/// given subject and expiry — which is what `issue_at` guarantees of every
/// token it returns — verifies, at any time strictly before that expiry, to
/// exactly that subject.
pub proof fn lemma_issue_then_verify(
    token: Seq<char>,
    subject: Seq<char>,
    secret: Seq<u8>,
    exp: u64,
    at: u64,
)
    requires
        claims_of(token, secret) == Some((subject, exp)),
        at < exp,
    ensures
        verify_spec(token, secret, at) == Some(subject),
{
}

/// Verification is expiry-monotone: from the embedded expiry on, a token
/// never verifies, whatever its signature.
pub proof fn lemma_verify_expired(token: Seq<char>, secret: Seq<u8>, at: u64)
    requires
        match claims_of(token, secret) {
            Some(c) => c.1 <= at,
            None => true,
        },
    ensures
        verify_spec(token, secret, at) is None,
{
}

/// Resolving one token twice within its validity window yields the same
/// subject both times: the subject a verification returns does not depend on
/// the time of the call.
pub proof fn lemma_verify_idempotent(token: Seq<char>, secret: Seq<u8>, first: u64, second: u64)
    requires
        verify_spec(token, secret, first) is Some,
        verify_spec(token, secret, second) is Some,
    ensures
        verify_spec(token, secret, first) == verify_spec(token, secret, second),
{
}

/// Why a guard stage declined and forwarded the request to the next handler
/// instead of failing it.
#[derive(Clone, Copy, Debug, PartialEq, Eq, Structural)]
pub enum Denial {
    Unauthorized,
    Forbidden,
}

/// The resolution of a request's trust level: forwarded with a hint, or a
/// resolved identity at one of the two trust ranks.
pub enum AuthOutcome {
    Forward(Denial),
    Authenticated(User),
    Privileged(User),
}

/// A stage-one success, carrying the resolved user record.
pub struct UserLogin(pub User);

/// A stage-two success: the resolved user additionally holds owner status.
pub struct FarmOwner(pub User);

/// The subject named by a request's trust header at a given time: the
/// verified token subject, or nothing when the header is absent or its token
/// does not verify.
pub open spec fn header_subject_spec(
    header: Option<Seq<char>>,
    secret: Seq<u8>,
    now: u64,
) -> Option<Seq<char>> {
    match header {
        Some(h) => verify_spec(h, secret, now),
        None => None,
    }
}

/// Stage one, given the looked-up record for a verified subject: a found
/// record authenticates; a missing header, a failed verification or an
/// unknown subject all forward with an Unauthorized hint.
pub open spec fn stage1_spec(subject: Option<Seq<char>>, found: Option<User>) -> AuthOutcome {
    match subject {
        Some(_) => match found {
            Some(u) => AuthOutcome::Authenticated(u),
            None => AuthOutcome::Forward(Denial::Unauthorized),
        },
        None => AuthOutcome::Forward(Denial::Unauthorized),
    }
}

/// Stage two on top of stage one: an authenticated owner is privileged, an
/// authenticated non-owner forwards with a Forbidden hint, and a forwarded
/// request stays as it was.
pub open spec fn stage2_spec(outcome: AuthOutcome) -> AuthOutcome {
    match outcome {
        AuthOutcome::Authenticated(u) => if u.farmowner == FarmOwnerStatus::YES {
            AuthOutcome::Privileged(u)
        } else {
            AuthOutcome::Forward(Denial::Forbidden)
        },
        other => other,
    }
}

impl TokenService {
    /// The decision half of stage one: the subject to look up, exactly when
    /// the request's trust header holds a token that verifies now.
    pub fn token_subject(&self, header: Option<&String>, now: u64) -> (r: Option<String>)
        ensures
            match r {
                Some(u) => header_subject_spec(header.deep_view(), self.spec_secret(), now)
                    == Some(u@),
                None => header_subject_spec(header.deep_view(), self.spec_secret(), now) is None,
            },
    {
        match header {
            Some(h) => self.verify_at(h.as_str(), now),
            None => None,
        }
    }
}

/// Completes stage one from the verified subject and the record the
/// credentials store returned for it. Idempotent and side-effect-free.
pub fn authenticate(subject: &Option<String>, found: Option<User>) -> (r: AuthOutcome)
    ensures
        r == stage1_spec(subject.deep_view(), found),
{
    match subject {
        Some(_) => match found {
            Some(u) => AuthOutcome::Authenticated(u),
            None => AuthOutcome::Forward(Denial::Unauthorized),
        },
        None => AuthOutcome::Forward(Denial::Unauthorized),
    }
}

/// Stage two: evaluates the owner predicate over the resolved record.
/// Idempotent and side-effect-free; touches no store.
pub fn authorize_owner(outcome: AuthOutcome) -> (r: AuthOutcome)
    ensures
        r == stage2_spec(outcome),
{
    match outcome {
        AuthOutcome::Authenticated(u) => {
            if u.farmowner == FarmOwnerStatus::YES {
                AuthOutcome::Privileged(u)
            } else {
                AuthOutcome::Forward(Denial::Forbidden)
            }
        },
        other => other,
    }
}

/// The login decision, after the credentials store has answered: a token is
/// minted if and only if the identity resolved to a username, the password
/// check passed, and the expiry fits the clock's range; wrong credentials
/// yield nothing, with no hint which part was wrong.
pub fn login_token(
    service: &TokenService,
    username: Option<&String>,
    password_ok: bool,
    now: u64,
) -> (r: Option<String>)
    ensures
        r is Some <==> username is Some && password_ok && now + service.spec_ttl() <= u64::MAX,
        r matches Some(t) ==> {
            &&& username matches Some(u)
            &&& claims_of(t@, service.spec_secret()) == Some(
                (normalized_of(u@), (now + service.spec_ttl()) as u64),
            )
            &&& t@.len() > 0
        },
{
    match username {
        Some(u) => {
            if !password_ok {
                return None;
            }
            if now > u64::MAX - service.ttl {
                return None;
            }
            Some(service.issue_at(u.as_str(), now))
        },
        None => None,
    }
}

/// Whether a submitted identity names an email address rather than a
/// username, which decides how the credentials store is queried.
pub fn identity_is_email(identity: &str) -> (r: bool)
    ensures
        r == identity@.contains('@'),
{
    crate::strutil::str_contains_char(identity, '@')
}

/// The subject a response-phase refresh would re-issue for: the resolved
/// user's name, or nothing for a forwarded request.
pub open spec fn refresh_subject_of(outcome: AuthOutcome) -> Option<Seq<char>> {
    match outcome {
        AuthOutcome::Authenticated(u) => Some(u.username@),
        AuthOutcome::Privileged(u) => Some(u.username@),
        AuthOutcome::Forward(_) => None,
    }
}

/// That a refreshed token belongs to the outcome it was minted for: its
/// claims name the resolved user's normalized name and the given expiry, and
/// a forwarded outcome has no such token.
pub open spec fn refreshed_token_spec(
    outcome: AuthOutcome,
    secret: Seq<u8>,
    exp: u64,
    token: Seq<char>,
) -> bool {
    match refresh_subject_of(outcome) {
        Some(name) => claims_of(token, secret) == Some((normalized_of(name), exp)),
        None => false,
    }
}

/// The response-phase hook of sliding expiration: on every outgoing
/// response, the identity of the original request is re-derived (stage one
/// only; privilege plays no part), and exactly when that succeeds a fresh
/// token with a full lifetime is handed back to be stamped onto the
/// response. Failure is silent: no valid token in, no token out.
pub struct JwtRefreshFairing {
    pub service: TokenService,
}

impl JwtRefreshFairing {
    pub fn new(service: TokenService) -> (r: Self)
        ensures
            r.service == service,
    {
        Self { service }
    }

    /// The token to attach to the response: a fresh one for the resolved
    /// user of an authenticated request — owed whenever the expiry fits the
    /// clock's range — and nothing for a forwarded one.
    pub fn response_token(&self, outcome: &AuthOutcome, now: u64) -> (r: Option<String>)
        ensures
            outcome is Forward ==> r is None,
            r is Some <==> !(outcome is Forward) && now + self.service.spec_ttl() <= u64::MAX,
            r matches Some(t) ==> refreshed_token_spec(
                *outcome,
                self.service.spec_secret(),
                (now + self.service.spec_ttl()) as u64,
                t@,
            ) && t@.len() > 0,
    {
        let name: &String = match outcome {
            AuthOutcome::Authenticated(u) => &u.username,
            AuthOutcome::Privileged(u) => &u.username,
            AuthOutcome::Forward(_) => {
                return None;
            },
        };
        if now > u64::MAX - self.service.ttl {
            return None;
        }
        Some(self.service.issue_at(name.as_str(), now))
    }
}

/// A request that carried no valid token is never given one: when the trust
/// header resolves to no subject, stage one forwards — whatever the
/// credentials store would have answered — and a forwarded outcome carries
/// no refresh subject, so `response_token` attaches nothing to it.
pub proof fn lemma_no_refresh_without_valid_token(
    header: Option<Seq<char>>,
    secret: Seq<u8>,
    now: u64,
    found: Option<User>,
)
    requires
        header_subject_spec(header, secret, now) is None,
    ensures
        stage1_spec(header_subject_spec(header, secret, now), found) is Forward,
        refresh_subject_of(stage1_spec(header_subject_spec(header, secret, now), found)) is None,
{
}

} // verus!
