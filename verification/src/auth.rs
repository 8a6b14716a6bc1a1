//! Device authentication with signed tokens (HS256 JWTs that expire after a
//! day), API keys, and the generation of secrets.
use vstd::prelude::*;
use crate::collections::StrMap;
use crate::digest::{hex_encode, hex_of, lemma_hex_len, random_below, random_bytes};
use crate::text::{concat2, owned, str_eq};

verus! {

/// A device's request to authenticate.
pub struct AuthRequest {
    pub device_id: String,
    pub public_key: String,
}

/// The answer to a successful authentication or refresh.
pub struct AuthResponse {
    pub token: String,
    pub expires_at: String,
    pub status: String,
}

/// The claims a token carries.
pub struct Claims {
    /// The subject, a device identifier.
    pub sub: String,
    /// Expiry, seconds since the Unix epoch.
    pub exp: i64,
    /// Issue time, seconds since the Unix epoch.
    pub iat: i64,
    /// The token type.
    pub typ: String,
}

/// Tokens last a day.
pub const TOKEN_LIFETIME_SECS: i64 = 86400;

/// The token that `jsonwebtoken::encode` makes with the default (HS256)
/// header and the secret's bytes as key, for a claims object holding
/// `sub`, `exp`, `iat` and `typ`.
pub uninterp spec fn jwt_encoding(secret: Seq<char>, sub: Seq<char>, exp: i64, iat: i64, typ: Seq<char>) -> Seq<char>;

/// The number of dots in `s`.
pub open spec fn dot_count(s: Seq<char>) -> nat
    decreases s.len(),
{
    if s.len() == 0 { 0 } else { dot_count(s.drop_last()) + if s.last() == '.' { 1nat } else { 0nat } }
}

/// A token in the three-part form `header.claims.signature`: its parts are
/// URL-safe base64, which has no dot, so it holds exactly two dots.
pub open spec fn jwt_shaped(t: Seq<char>) -> bool {
    dot_count(t) == 2
}

/// `c` holds the claims that `token` was made from with `secret`, whatever
/// they were.
pub open spec fn decodes_to(secret: Seq<char>, token: Seq<char>, c: Claims) -> bool {
    forall|sub: Seq<char>, exp: i64, iat: i64, typ: Seq<char>|
        #[trigger] jwt_encoding(secret, sub, exp, iat, typ) == token
            ==> c.sub@ == sub && c.exp == exp && c.iat == iat && c.typ@ == typ
}

/// Calls `jsonwebtoken::encode` with the default header, the claims as a
/// JSON object whose keys keep the order `sub`, `exp`, `iat`, `typ`
/// (`serde_json` is built to preserve insertion order) and the secret's
/// bytes as HMAC key. For an HMAC key and an
/// HS256 header the source has no failing path, so the token is always
/// made; its text is named `jwt_encoding`, and it is the URL-safe base64
/// header and claims and the signature joined by dots.
#[verifier::external_body]
fn jwt_encode(secret: &str, sub: &str, exp: i64, iat: i64, typ: &str) -> (r: String)
    ensures
        r@ == jwt_encoding(secret@, sub@, exp, iat, typ@),
        jwt_shaped(r@),
{
    let mut claims = serde_json::Map::new();
    claims.insert("sub".to_string(), serde_json::Value::from(sub));
    claims.insert("exp".to_string(), serde_json::Value::from(exp));
    claims.insert("iat".to_string(), serde_json::Value::from(iat));
    claims.insert("typ".to_string(), serde_json::Value::from(typ));
    let key = jsonwebtoken::EncodingKey::from_secret(secret.as_bytes());
    jsonwebtoken::encode(&jsonwebtoken::Header::default(), &claims, &key).unwrap_or_default()
}

/// A token's claims as plain values: subject, expiry, issue time, type.
pub open spec fn claims_view(c: Claims) -> (Seq<char>, i64, i64, Seq<char>) {
    (c.sub@, c.exp, c.iat, c.typ@)
}

/// A decoding result as plain values.
pub open spec fn claims_result(r: Result<Claims, String>) -> Result<(Seq<char>, i64, i64, Seq<char>), Seq<char>> {
    match r {
        Ok(c) => Ok(claims_view(c)),
        Err(e) => Err(e@),
    }
}

/// What `jsonwebtoken::decode` gives for `token` under `secret` with the
/// default validation (HS256 signature, `exp` required) but the expiry left
/// unchecked, followed by reading the four claims: the claims, or the
/// error's text.
pub uninterp spec fn jwt_decoding(secret: Seq<char>, token: Seq<char>) -> Result<(Seq<char>, i64, i64, Seq<char>), Seq<char>>;

/// Calls `jsonwebtoken::decode` with the secret's bytes as key and the
/// default validation, the expiry check switched off, and reads the four
/// claims; the outcome is named `jwt_decoding`. Also stated, as the source
/// shows: a token made by `jwt_encode` with the same secret and a
/// non-negative expiry decodes to the claims it was made from; a decoded
/// token has three dot-separated parts, since the source splits it at its
/// last two dots and decodes each part from URL-safe base64; and a decoded
/// expiry is not negative, since `exp` must read as an unsigned number. Not
/// stated: which other tokens decode, which rests on the signature.
#[verifier::external_body]
fn jwt_decode(secret: &str, token: &str) -> (r: Result<Claims, String>)
    ensures
        claims_result(r) == jwt_decoding(secret@, token@),
        r is Ok ==> decodes_to(secret@, token@, r->Ok_0) && jwt_shaped(token@) && r->Ok_0.exp >= 0,
        forall|sub: Seq<char>, exp: i64, iat: i64, typ: Seq<char>|
            #[trigger] jwt_encoding(secret@, sub, exp, iat, typ) == token@ && exp >= 0 ==> r is Ok,
{
    let key = jsonwebtoken::DecodingKey::from_secret(secret.as_bytes());
    let mut validation = jsonwebtoken::Validation::default();
    validation.validate_exp = false;
    let data = jsonwebtoken::decode::<serde_json::Value>(token, &key, &validation);
    let c = data.map_err(|e| e.to_string())?.claims;
    match (c["sub"].as_str(), c["exp"].as_i64(), c["iat"].as_i64(), c["typ"].as_str()) {
        (Some(sub), Some(exp), Some(iat), Some(typ)) => Ok(Claims { sub: sub.to_string(), exp, iat, typ: typ.to_string() }),
        _ => Err("missing claim".to_string()),
    }
}

/// Seconds that a token may be past its expiry and still verify.
pub const EXPIRY_LEEWAY_SECS: i64 = 60;

/// The outcome of verifying `token` under `secret` at `now` (seconds since
/// the epoch): what decoding gives, except that a token whose expiry lies
/// more than a minute before `now` is refused with "ExpiredSignature".
pub open spec fn verify_verdict(secret: Seq<char>, token: Seq<char>, now: i64) -> Result<(Seq<char>, i64, i64, Seq<char>), Seq<char>> {
    match jwt_decoding(secret, token) {
        Err(e) => Err(e),
        Ok(t) => if t.1 < now - EXPIRY_LEEWAY_SECS { Err("ExpiredSignature"@) } else { Ok(t) },
    }
}

/// Reads the system clock: `chrono::Utc::now().timestamp()`. `chrono`
/// computes it as the day count since year one (an `i32`) less the epoch's,
/// times 86400, plus the seconds of the day, so it lies within a thousand
/// million million seconds of the epoch; the value itself is left free.
#[verifier::external_body]
fn now_timestamp() -> (t: i64)
    ensures
        -1_000_000_000_000_000 <= t <= 1_000_000_000_000_000,
{
    chrono::Utc::now().timestamp()
}

/// The time a day from now on the system clock, as `chrono` writes it in
/// RFC 3339. Nothing is stated of the value.
#[verifier::external_body]
fn expiry_rfc3339() -> (s: String) {
    (chrono::Utc::now() + chrono::Duration::hours(24)).to_rfc3339()
}

/// The token issued at `now` for `sub` of type `typ`: it expires a day later.
pub open spec fn issued_token(secret: Seq<char>, sub: Seq<char>, typ: Seq<char>, now: i64) -> Seq<char> {
    jwt_encoding(secret, sub, (now + TOKEN_LIFETIME_SECS) as i64, now, typ)
}

/// A token issued for a subject and a type, then checked with the same
/// secret, gives back that subject and type, issued at the time it was made
/// and expiring a day later.
pub proof fn law_token_round_trip(secret: Seq<char>, sub: Seq<char>, typ: Seq<char>, now: i64, c: Claims)
    requires
        now <= i64::MAX - TOKEN_LIFETIME_SECS,
        decodes_to(secret, issued_token(secret, sub, typ, now), c),
    ensures
        c.sub@ == sub,
        c.typ@ == typ,
        c.iat == now,
        c.exp == now + TOKEN_LIFETIME_SECS,
{
    assert(jwt_encoding(secret, sub, (now + TOKEN_LIFETIME_SECS) as i64, now, typ) == issued_token(secret, sub, typ, now));
}

/// The characters of generated passwords and keys.
pub open spec fn alphanumerics() -> Seq<char> {
    seq!['a', 'b', 'c', 'd', 'e', 'f', 'g', 'h', 'i', 'j', 'k', 'l', 'm', 'n', 'o', 'p', 'q', 'r', 's',
        't', 'u', 'v', 'w', 'x', 'y', 'z', 'A', 'B', 'C', 'D', 'E', 'F', 'G', 'H', 'I', 'J', 'K', 'L',
        'M', 'N', 'O', 'P', 'Q', 'R', 'S', 'T', 'U', 'V', 'W', 'X', 'Y', 'Z', '0', '1', '2', '3', '4',
        '5', '6', '7', '8', '9']
}

/// `s` is made of characters from `alphanumerics`.
pub open spec fn is_alphanumeric_text(s: Seq<char>) -> bool {
    forall|i: int| 0 <= i < s.len() ==> alphanumerics().contains(#[trigger] s[i])
}

/// The device-token check on decoded claims: the type must be `device` and
/// the expiry not before `now`; the subject comes back.
pub open spec fn device_claims_verdict(typ: Seq<char>, exp: i64, now: i64) -> Option<Seq<char>> {
    if typ != "device"@ {
        Some("Invalid token type"@)
    } else if exp < now {
        Some("Token expired"@)
    } else {
        None
    }
}

/// Token and key management.
pub struct AuthManager {
    pub jwt_secret: String,
    pub device_tokens: StrMap<String>,
}

impl AuthManager {
    /// A manager whose secret is `JWT_SECRET` when it is set (`env_secret`),
    /// else a freshly generated one.
    pub fn new(env_secret: Option<String>) -> (m: Self)
        ensures
            match env_secret {
                Some(s) => m.jwt_secret@ == s@,
                None => m.jwt_secret@.len() == 128 && exists|b: Seq<u8>| b.len() == 64 && m.jwt_secret@ == hex_of(b),
            },
            m.device_tokens@ == Map::<Seq<char>, String>::empty(),
    {
        let jwt_secret = Self::get_or_generate_jwt_secret(env_secret);
        AuthManager { jwt_secret, device_tokens: StrMap::new() }
    }

    /// A fresh 512-bit secret, as 128 lowercase hexadecimal digits.
    pub fn generate_jwt_secret() -> (s: String)
        ensures
            s@.len() == 128,
            exists|b: Seq<u8>| b.len() == 64 && s@ == hex_of(b),
    {
        let bytes = random_bytes(64);
        let s = hex_encode(&bytes);
        proof { lemma_hex_len(bytes@); }
        s
    }

    /// The configured secret when there is one, else a fresh one.
    pub fn get_or_generate_jwt_secret(env_secret: Option<String>) -> (s: String)
        ensures
            match env_secret {
                Some(e) => s@ == e@,
                None => s@.len() == 128 && exists|b: Seq<u8>| b.len() == 64 && s@ == hex_of(b),
            },
    {
        match env_secret {
            Some(s) => s,
            None => Self::generate_jwt_secret(),
        }
    }

    /// A token for `subject` of type `token_type`, issued at `now` and
    /// expiring a day later.
    pub fn generate_jwt_token_at(secret: &str, subject: &str, token_type: &str, now: i64) -> (t: String)
        requires
            now <= i64::MAX - TOKEN_LIFETIME_SECS,
        ensures
            t@ == issued_token(secret@, subject@, token_type@, now),
            jwt_shaped(t@),
    {
        jwt_encode(secret, subject, now + TOKEN_LIFETIME_SECS, now, token_type)
    }

    /// A token for `subject` of type `token_type`, issued now on the system
    /// clock and expiring a day later.
    pub fn generate_jwt_token(secret: &str, subject: &str, token_type: &str) -> (t: String)
        ensures
            exists|now: i64| now <= i64::MAX - TOKEN_LIFETIME_SECS
                && t@ == #[trigger] issued_token(secret@, subject@, token_type@, now),
            jwt_shaped(t@),
    {
        let now = now_timestamp();
        Self::generate_jwt_token_at(secret, subject, token_type, now)
    }

    /// The claims of `token` signed with `secret`, verified at `now` (see
    /// `verify_verdict`). A token made by `generate_jwt_token_at` with the same
    /// secret, whose expiry is not negative and at most a minute behind `now`,
    /// gives back the claims it was made from.
    pub fn verify_jwt_token_at(secret: &str, token: &str, now: i64) -> (r: Result<Claims, String>)
        requires
            now >= i64::MIN + EXPIRY_LEEWAY_SECS,
        ensures
            claims_result(r) == verify_verdict(secret@, token@, now),
            r is Ok ==> jwt_shaped(token@) && decodes_to(secret@, token@, r->Ok_0),
            forall|sub: Seq<char>, exp: i64, iat: i64, typ: Seq<char>|
                #[trigger] jwt_encoding(secret@, sub, exp, iat, typ) == token@ && 0 <= exp && now - EXPIRY_LEEWAY_SECS <= exp
                    ==> r is Ok && claims_view(r->Ok_0) == (sub, exp, iat, typ),
    {
        let claims = jwt_decode(secret, token)?;
        if claims.exp < now - EXPIRY_LEEWAY_SECS {
            return Err(owned("ExpiredSignature"));
        }
        Ok(claims)
    }

    /// The claims of `token` signed with `secret`, verified on the system
    /// clock: the outcome of `verify_verdict` at the time read.
    pub fn verify_jwt_token(secret: &str, token: &str) -> (r: Result<Claims, String>)
        ensures
            exists|now: i64| -1_000_000_000_000_000 <= now <= 1_000_000_000_000_000
                && claims_result(r) == #[trigger] verify_verdict(secret@, token@, now),
            r is Ok ==> jwt_shaped(token@) && decodes_to(secret@, token@, r->Ok_0),
    {
        let now = now_timestamp();
        Self::verify_jwt_token_at(secret, token, now)
    }

    /// Authenticates a device: both fields must be non-empty; the answer
    /// carries a device token for it.
    pub fn authenticate_device(&self, request: &AuthRequest) -> (r: Result<AuthResponse, String>)
        ensures
            request.device_id@.len() == 0 ==> r is Err && r->Err_0@ == "Device ID is required"@,
            request.device_id@.len() > 0 && request.public_key@.len() == 0
                ==> r is Err && r->Err_0@ == "Public key is required"@,
            request.device_id@.len() > 0 && request.public_key@.len() > 0 ==> r is Ok && {
                let a = r->Ok_0;
                &&& a.status@ == "authenticated"@
                &&& exists|now: i64| now <= i64::MAX - TOKEN_LIFETIME_SECS
                    && a.token@ == #[trigger] issued_token(self.jwt_secret@, request.device_id@, "device"@, now)
            },
    {
        if request.device_id.as_str().is_empty() {
            return Err(owned("Device ID is required"));
        }
        if request.public_key.as_str().is_empty() {
            return Err(owned("Public key is required"));
        }
        let token = Self::generate_jwt_token(self.jwt_secret.as_str(), request.device_id.as_str(), "device");
        Ok(AuthResponse { token, expires_at: expiry_rfc3339(), status: owned("authenticated") })
    }

    /// Whether `api_key` is the expected key (`API_KEY`, or `dev_api_key`
    /// when it is not set).
    pub fn validate_api_key(&self, api_key: &str, expected: &str) -> (r: bool)
        ensures
            r == (api_key@ == expected@),
    {
        str_eq(api_key, expected)
    }

    /// A fresh 256-bit API key, as 64 lowercase hexadecimal digits.
    pub fn generate_api_key() -> (s: String)
        ensures
            s@.len() == 64,
            exists|b: Seq<u8>| b.len() == 32 && s@ == hex_of(b),
    {
        let bytes = random_bytes(32);
        let s = hex_encode(&bytes);
        proof { lemma_hex_len(bytes@); }
        s
    }

    /// The configured API key when there is one, else a fresh one.
    pub fn get_or_generate_api_key(env_key: Option<String>) -> (s: String)
        ensures
            match env_key {
                Some(e) => s@ == e@,
                None => s@.len() == 64 && exists|b: Seq<u8>| b.len() == 32 && s@ == hex_of(b),
            },
    {
        match env_key {
            Some(s) => s,
            None => Self::generate_api_key(),
        }
    }

    /// A random string of `length` characters drawn from `alphanumerics`.
    pub fn generate_random_string(length: usize) -> (s: String)
        ensures
            s@.len() == length,
            is_alphanumeric_text(s@),
    {
        let chars: Vec<char> = vec!['a', 'b', 'c', 'd', 'e', 'f', 'g', 'h', 'i', 'j', 'k', 'l', 'm', 'n', 'o', 'p', 'q', 'r', 's',
            't', 'u', 'v', 'w', 'x', 'y', 'z', 'A', 'B', 'C', 'D', 'E', 'F', 'G', 'H', 'I', 'J', 'K', 'L',
            'M', 'N', 'O', 'P', 'Q', 'R', 'S', 'T', 'U', 'V', 'W', 'X', 'Y', 'Z', '0', '1', '2', '3', '4',
            '5', '6', '7', '8', '9'];
        assert(chars@ =~= alphanumerics());
        let mut s = String::new();
        let mut i: usize = 0;
        while i < length
            invariant
                i <= length,
                chars@ == alphanumerics(),
                s@.len() == i,
                is_alphanumeric_text(s@),
            decreases length - i,
        {
            let k = random_below(chars.len());
            let ghost before = s@;
            crate::text::push_char(&mut s, chars[k]);
            assert(alphanumerics().contains(chars@[k as int]));
            assert forall|j: int| 0 <= j < s@.len() implies alphanumerics().contains(#[trigger] s@[j]) by {
                if j < before.len() {
                    assert(s@[j] == before[j]);
                }
            }
            i = i + 1;
        }
        s
    }

    /// Fresh secrets for a production deployment: a JWT secret, an API key,
    /// database and Redis passwords of 16 characters and an encryption key
    /// of 32.
    pub fn generate_production_secrets() -> (m: StrMap<String>)
        ensures
            m@.dom() == set!["JWT_SECRET"@, "API_KEY"@, "DATABASE_PASSWORD"@, "REDIS_PASSWORD"@, "ENCRYPTION_KEY"@],
            m@["JWT_SECRET"@]@.len() == 128 && exists|b: Seq<u8>| b.len() == 64 && m@["JWT_SECRET"@]@ == hex_of(b),
            m@["API_KEY"@]@.len() == 64 && exists|b: Seq<u8>| b.len() == 32 && m@["API_KEY"@]@ == hex_of(b),
            m@["DATABASE_PASSWORD"@]@.len() == 16 && is_alphanumeric_text(m@["DATABASE_PASSWORD"@]@),
            m@["REDIS_PASSWORD"@]@.len() == 16 && is_alphanumeric_text(m@["REDIS_PASSWORD"@]@),
            m@["ENCRYPTION_KEY"@]@.len() == 32 && is_alphanumeric_text(m@["ENCRYPTION_KEY"@]@),
    {
        proof {
            reveal_strlit("JWT_SECRET");
            reveal_strlit("API_KEY");
            reveal_strlit("DATABASE_PASSWORD");
            reveal_strlit("REDIS_PASSWORD");
            reveal_strlit("ENCRYPTION_KEY");
            assert("JWT_SECRET"@.len() != "API_KEY"@.len());
            assert("JWT_SECRET"@.len() != "DATABASE_PASSWORD"@.len());
            assert("JWT_SECRET"@.len() != "REDIS_PASSWORD"@.len());
            assert("API_KEY"@.len() != "DATABASE_PASSWORD"@.len());
            assert("API_KEY"@.len() != "REDIS_PASSWORD"@.len());
            assert("API_KEY"@.len() != "ENCRYPTION_KEY"@.len());
            assert("DATABASE_PASSWORD"@.len() != "REDIS_PASSWORD"@.len());
            assert("DATABASE_PASSWORD"@.len() != "ENCRYPTION_KEY"@.len());
            assert("REDIS_PASSWORD"@.len() == "ENCRYPTION_KEY"@.len());
            assert("REDIS_PASSWORD"@[0] != "ENCRYPTION_KEY"@[0]);
            assert("JWT_SECRET"@[0] != "ENCRYPTION_KEY"@[0]);
        }
        let mut m: StrMap<String> = StrMap::new();
        m.insert(owned("JWT_SECRET"), Self::generate_jwt_secret());
        m.insert(owned("API_KEY"), Self::generate_api_key());
        m.insert(owned("DATABASE_PASSWORD"), Self::generate_random_string(16));
        m.insert(owned("REDIS_PASSWORD"), Self::generate_random_string(16));
        m.insert(owned("ENCRYPTION_KEY"), Self::generate_random_string(32));
        assert(m@.dom() =~= set!["JWT_SECRET"@, "API_KEY"@, "DATABASE_PASSWORD"@, "REDIS_PASSWORD"@, "ENCRYPTION_KEY"@]);
        m
    }

    /// The device-token check on decoded claims (see `device_claims_verdict`).
    pub fn check_device_claims(claims: &Claims, now: i64) -> (r: Result<String, String>)
        ensures
            match r {
                Ok(sub) => device_claims_verdict(claims.typ@, claims.exp, now) is None && sub@ == claims.sub@,
                Err(e) => device_claims_verdict(claims.typ@, claims.exp, now) == Some(e@),
            },
    {
        if !str_eq(claims.typ.as_str(), "device") {
            return Err(owned("Invalid token type"));
        }
        if claims.exp < now {
            return Err(owned("Token expired"));
        }
        Ok(owned(claims.sub.as_str()))
    }

    /// The outcome of validating a device token at `now`: the verification
    /// failure, else the device-claims failure, else the device.
    pub open spec fn device_token_verdict(&self, token: Seq<char>, now: i64) -> Result<Seq<char>, Seq<char>> {
        match verify_verdict(self.jwt_secret@, token, now) {
            Err(e) => Err(e),
            Ok(t) => match device_claims_verdict(t.3, t.1, now) {
                Some(e) => Err(e),
                None => Ok(t.0),
            },
        }
    }

    /// The device a token was issued to, checked at `now` (see
    /// `device_token_verdict`): it must verify with this manager's secret, be
    /// a device token and not have expired.
    pub fn validate_device_token_at(&self, token: &str, now: i64) -> (r: Result<String, String>)
        requires
            now >= i64::MIN + EXPIRY_LEEWAY_SECS,
        ensures
            match r {
                Ok(d) => self.device_token_verdict(token@, now) == Ok::<Seq<char>, Seq<char>>(d@),
                Err(e) => self.device_token_verdict(token@, now) == Err::<Seq<char>, Seq<char>>(e@),
            },
            r is Ok ==> jwt_shaped(token@),
            forall|sub: Seq<char>, exp: i64, iat: i64, typ: Seq<char>|
                #[trigger] jwt_encoding(self.jwt_secret@, sub, exp, iat, typ) == token@ && r is Ok
                    ==> r->Ok_0@ == sub && typ == "device"@,
            r is Ok ==> exists|c: Claims|
                #![trigger decodes_to(self.jwt_secret@, token@, c)]
                decodes_to(self.jwt_secret@, token@, c)
                && device_claims_verdict(c.typ@, c.exp, now) is None && r->Ok_0@ == c.sub@,
    {
        let claims = Self::verify_jwt_token_at(self.jwt_secret.as_str(), token, now)?;
        let r = Self::check_device_claims(&claims, now);
        proof {
            if r is Ok {
                assert(decodes_to(self.jwt_secret@, token@, claims));
            }
        }
        r
    }

    /// The device a token was issued to, when it verifies with this
    /// manager's secret, is a device token and has not expired, on the
    /// system clock (see `validate_device_token_at`).
    pub fn validate_device_token(&self, token: &str) -> (r: Result<String, String>)
        ensures
            exists|now: i64| -1_000_000_000_000_000 <= now <= 1_000_000_000_000_000
                && #[trigger] self.device_token_verdict(token@, now) == match r {
                    Ok(d) => Ok::<Seq<char>, Seq<char>>(d@),
                    Err(e) => Err::<Seq<char>, Seq<char>>(e@),
                },
            r is Ok ==> jwt_shaped(token@),
            forall|sub: Seq<char>, exp: i64, iat: i64, typ: Seq<char>|
                #[trigger] jwt_encoding(self.jwt_secret@, sub, exp, iat, typ) == token@ && r is Ok
                    ==> r->Ok_0@ == sub && typ == "device"@,
            r is Ok ==> exists|c: Claims, now: i64|
                #![trigger decodes_to(self.jwt_secret@, token@, c), device_claims_verdict(c.typ@, c.exp, now)]
                decodes_to(self.jwt_secret@, token@, c)
                && device_claims_verdict(c.typ@, c.exp, now) is None && r->Ok_0@ == c.sub@,
    {
        let now = now_timestamp();
        self.validate_device_token_at(token, now)
    }

    /// A new device token for the device of a valid old one.
    pub fn refresh_device_token(&self, old_token: &str) -> (r: Result<AuthResponse, String>)
        ensures
            r is Ok ==> jwt_shaped(old_token@),
            r is Ok ==> r->Ok_0.status@ == "refreshed"@,
            forall|sub: Seq<char>, exp: i64, iat: i64, typ: Seq<char>|
                #[trigger] jwt_encoding(self.jwt_secret@, sub, exp, iat, typ) == old_token@ && r is Ok ==>
                    exists|now: i64| now <= i64::MAX - TOKEN_LIFETIME_SECS
                        && r->Ok_0.token@ == #[trigger] issued_token(self.jwt_secret@, sub, "device"@, now),
            r is Ok ==> exists|c: Claims, then: i64, now: i64|
                #![trigger decodes_to(self.jwt_secret@, old_token@, c), device_claims_verdict(c.typ@, c.exp, then), issued_token(self.jwt_secret@, c.sub@, "device"@, now)]
                decodes_to(self.jwt_secret@, old_token@, c)
                && device_claims_verdict(c.typ@, c.exp, then) is None
                && now <= i64::MAX - TOKEN_LIFETIME_SECS
                && r->Ok_0.token@ == issued_token(self.jwt_secret@, c.sub@, "device"@, now),
    {
        let device_id = self.validate_device_token(old_token)?;
        let token = Self::generate_jwt_token(self.jwt_secret.as_str(), device_id.as_str(), "device");
        Ok(AuthResponse { token, expires_at: expiry_rfc3339(), status: owned("refreshed") })
    }

    /// Revokes a device's token: no list of revoked tokens is kept, so this
    /// only gives the line to log, "Token revoked for device: {id}".
    pub fn revoke_device_token(&self, device_id: &str) -> (line: String)
        ensures
            line@ == "Token revoked for device: "@ + device_id@,
    {
        concat2("Token revoked for device: ", device_id)
    }

    /// The claims of a token signed with this manager's secret, verified at
    /// `now`: exactly what `verify_jwt_token_at` gives for that secret.
    pub fn get_token_info_at(&self, token: &str, now: i64) -> (r: Result<Claims, String>)
        requires
            now >= i64::MIN + EXPIRY_LEEWAY_SECS,
        ensures
            claims_result(r) == verify_verdict(self.jwt_secret@, token@, now),
            r is Ok ==> jwt_shaped(token@) && decodes_to(self.jwt_secret@, token@, r->Ok_0),
    {
        Self::verify_jwt_token_at(self.jwt_secret.as_str(), token, now)
    }

    /// The claims of a token signed with this manager's secret, verified on
    /// the system clock (see `get_token_info_at`).
    pub fn get_token_info(&self, token: &str) -> (r: Result<Claims, String>)
        ensures
            exists|now: i64| -1_000_000_000_000_000 <= now <= 1_000_000_000_000_000
                && claims_result(r) == #[trigger] verify_verdict(self.jwt_secret@, token@, now),
            r is Ok ==> jwt_shaped(token@) && decodes_to(self.jwt_secret@, token@, r->Ok_0),
    {
        let now = now_timestamp();
        self.get_token_info_at(token, now)
    }
}

/// A token for `subject` of type `token_type` (see `AuthManager::generate_jwt_token`).
pub fn generate_jwt_token(secret: &str, subject: &str, token_type: &str) -> (t: String)
    ensures
        exists|now: i64| now <= i64::MAX - TOKEN_LIFETIME_SECS
                && t@ == #[trigger] issued_token(secret@, subject@, token_type@, now),
        jwt_shaped(t@),
{
    AuthManager::generate_jwt_token(secret, subject, token_type)
}

/// The claims of a token (see `AuthManager::verify_jwt_token`).
pub fn verify_jwt_token(secret: &str, token: &str) -> (r: Result<Claims, String>)
    ensures
        exists|now: i64| -1_000_000_000_000_000 <= now <= 1_000_000_000_000_000
            && claims_result(r) == #[trigger] verify_verdict(secret@, token@, now),
        r is Ok ==> jwt_shaped(token@) && decodes_to(secret@, token@, r->Ok_0),
{
    AuthManager::verify_jwt_token(secret, token)
}

/// Fresh production secrets (see `AuthManager::generate_production_secrets`).
pub fn generate_production_secrets() -> (m: StrMap<String>)
    ensures
        m@.dom() == set!["JWT_SECRET"@, "API_KEY"@, "DATABASE_PASSWORD"@, "REDIS_PASSWORD"@, "ENCRYPTION_KEY"@],
        m@["JWT_SECRET"@]@.len() == 128 && exists|b: Seq<u8>| b.len() == 64 && m@["JWT_SECRET"@]@ == hex_of(b),
        m@["API_KEY"@]@.len() == 64 && exists|b: Seq<u8>| b.len() == 32 && m@["API_KEY"@]@ == hex_of(b),
        m@["DATABASE_PASSWORD"@]@.len() == 16 && is_alphanumeric_text(m@["DATABASE_PASSWORD"@]@),
        m@["REDIS_PASSWORD"@]@.len() == 16 && is_alphanumeric_text(m@["REDIS_PASSWORD"@]@),
        m@["ENCRYPTION_KEY"@]@.len() == 32 && is_alphanumeric_text(m@["ENCRYPTION_KEY"@]@),
{
    AuthManager::generate_production_secrets()
}

} // verus!
