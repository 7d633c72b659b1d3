//! Token validation: from a raw `Authorization` header to a verified claim
//! set, against a published key set.
//!
//! The checks run in a fixed order: header shape, token structure and key
//! identifier, signature, required claims, audience, issuer, expiry, and
//! issued-at clock skew. The first failing check names the error; a caller
//! surfaces every failure as the same generic response.

use vstd::prelude::*;
use crate::errors::AuthError;
use crate::jwt::{
    decode_header_kid, decode_verified, get_bool_field, get_str_field, get_u64_field, jwt_accepts,
    jwt_bool_claims, jwt_kid, jwt_str_claims, jwt_u64_claims,
};
use crate::models::{AuthUser, Claims, ClaimsView};
use crate::strutil::{concat_str, str_eq};

verus! {

/// Tolerated forward clock skew, in seconds, for the issued-at check.
pub const CLOCK_SKEW_SECONDS: u64 = 60;

/// The published key set of the identity provider: key material indexed by
/// key identifier. Refreshing the set from the provider is the caller's
/// concern; validation only reads it.
pub struct KeySet {
    pub keys: Vec<(String, Vec<u8>)>,
}

impl View for KeySet {
    type V = Seq<(Seq<char>, Seq<u8>)>;

    open spec fn view(&self) -> Seq<(Seq<char>, Seq<u8>)> {
        Seq::new(self.keys@.len(), |i: int| (self.keys@[i].0@, self.keys@[i].1@))
    }
}

/// The key material the set holds for a key identifier: the first entry with
/// that identifier, if any.
pub open spec fn key_lookup(ks: Seq<(Seq<char>, Seq<u8>)>, kid: Seq<char>) -> Option<Seq<u8>>
    decreases ks.len(),
{
    if ks.len() == 0 {
        Option::None
    } else if ks[0].0 == kid {
        Option::Some(ks[0].1)
    } else {
        key_lookup(ks.skip(1), kid)
    }
}

impl KeySet {
    /// An empty key set.
    pub fn new() -> (r: KeySet)
        ensures
            r@ =~= Seq::<(Seq<char>, Seq<u8>)>::empty(),
    {
        KeySet { keys: Vec::new() }
    }

    /// Appends key material under a key identifier.
    pub fn add_key(&mut self, kid: String, key: Vec<u8>)
        ensures
            final(self)@ =~= old(self)@.push((kid@, key@)),
    {
        self.keys.push((kid, key));
    }

    /// The key material stored for a key identifier, if any.
    pub fn find_key(&self, kid: &str) -> (r: Option<Vec<u8>>)
        ensures
            r is Some <==> key_lookup(self@, kid@) is Some,
            r is Some ==> r.unwrap()@ == key_lookup(self@, kid@).unwrap(),
    {
        let ghost full = self@;
        proof {
            assert(self@.skip(0) =~= self@);
        }
        let mut i: usize = 0;
        while i < self.keys.len()
            invariant
                i <= self.keys.len(),
                full == self@,
                self@.len() == self.keys@.len(),
                key_lookup(full, kid@) == key_lookup(self@.skip(i as int), kid@),
            decreases self.keys.len() - i,
        {
            let entry_matches = str_eq(self.keys[i].0.as_str(), kid);
            if entry_matches {
                assert(self@.skip(i as int)[0] == self@[i as int]);
                let material = crate::strutil::clone_bytes(&self.keys[i].1);
                return Some(material);
            }
            proof {
                assert(self@.skip(i as int)[0] == self@[i as int]);
                assert(self@.skip(i as int).skip(1) =~= self@.skip(i as int + 1));
            }
            i += 1;
        }
        proof {
            assert(self@.skip(i as int) =~= Seq::<(Seq<char>, Seq<u8>)>::empty());
        }
        None
    }
}

/// The token carried by a `Bearer` authorization header, or `None` where the
/// header does not have that shape.
pub open spec fn bearer_token(h: Seq<char>) -> Option<Seq<char>> {
    if h.len() >= 7 && h.subrange(0, 7) == "Bearer "@ {
        Option::Some(h.skip(7))
    } else {
        Option::None
    }
}

/// Whether the token's payload carries every claim validation requires:
/// subject, audience and issuer as strings, expiry and issued-at as integers.
pub open spec fn claims_complete(t: Seq<char>) -> bool {
    &&& jwt_str_claims(t).contains_key("sub"@)
    &&& jwt_str_claims(t).contains_key("aud"@)
    &&& jwt_str_claims(t).contains_key("iss"@)
    &&& jwt_u64_claims(t).contains_key("exp"@)
    &&& jwt_u64_claims(t).contains_key("iat"@)
}

/// The claim set a complete token encodes, read claim by claim.
pub open spec fn claims_of(t: Seq<char>) -> ClaimsView {
    ClaimsView {
        subject: jwt_str_claims(t)["sub"@],
        email: if jwt_str_claims(t).contains_key("email"@) {
            Option::Some(jwt_str_claims(t)["email"@])
        } else {
            Option::None
        },
        display_name: if jwt_str_claims(t).contains_key("name"@) {
            Option::Some(jwt_str_claims(t)["name"@])
        } else {
            Option::None
        },
        avatar_url: if jwt_str_claims(t).contains_key("picture"@) {
            Option::Some(jwt_str_claims(t)["picture"@])
        } else {
            Option::None
        },
        email_verified: if jwt_bool_claims(t).contains_key("email_verified"@) {
            Option::Some(jwt_bool_claims(t)["email_verified"@])
        } else {
            Option::None
        },
        issued_at: jwt_u64_claims(t)["iat"@],
        expires_at: jwt_u64_claims(t)["exp"@],
        audience: jwt_str_claims(t)["aud"@],
        issuer: jwt_str_claims(t)["iss"@],
    }
}

/// What validation returns for any header, key set and clock reading: the
/// first failing check names the error, and a token that passes them all
/// yields exactly the claim set it encodes.
pub open spec fn validate_result(
    h: Option<Seq<char>>,
    audience: Seq<char>,
    issuer_prefix: Seq<char>,
    ks: Seq<(Seq<char>, Seq<u8>)>,
    now: u64,
) -> Result<ClaimsView, AuthError> {
    if h is None || bearer_token(h.unwrap()) is None {
        Result::Err(AuthError::MissingOrMalformedHeader)
    } else {
        let t = bearer_token(h.unwrap()).unwrap();
        if jwt_kid(t) is None {
            Result::Err(AuthError::MalformedToken)
        } else if key_lookup(ks, jwt_kid(t).unwrap()) is None {
            Result::Err(AuthError::SignatureInvalid)
        } else if !jwt_accepts(t, key_lookup(ks, jwt_kid(t).unwrap()).unwrap()) {
            Result::Err(AuthError::SignatureInvalid)
        } else if !claims_complete(t) {
            Result::Err(AuthError::MalformedToken)
        } else if claims_of(t).audience != audience {
            Result::Err(AuthError::AudienceMismatch)
        } else if claims_of(t).issuer != issuer_prefix + audience {
            Result::Err(AuthError::IssuerMismatch)
        } else if claims_of(t).expires_at <= now {
            Result::Err(AuthError::TokenExpired)
        } else if claims_of(t).issued_at > now + CLOCK_SKEW_SECONDS {
            Result::Err(AuthError::TokenNotYetValid)
        } else {
            Result::Ok(claims_of(t))
        }
    }
}

/// The view of an optional header value.
pub open spec fn opt_header_view(h: Option<&str>) -> Option<Seq<char>> {
    match h {
        Option::Some(s) => Option::Some(s@),
        Option::None => Option::None,
    }
}

/// The view of a validation result.
pub open spec fn claims_result_view(r: Result<Claims, AuthError>) -> Result<ClaimsView, AuthError> {
    match r {
        Result::Ok(c) => Result::Ok(c@),
        Result::Err(e) => Result::Err(e),
    }
}

/// Validates a bearer token: header shape, token structure and key
/// identifier, signature against the key set, required claims, audience,
/// issuer (the expected prefix followed by the audience), expiry strictly
/// after `now`, and issued-at within the tolerated clock skew. On success the
/// claim set encoded in the token is returned verbatim.
pub fn validate(
    raw_header: Option<&str>,
    expected_audience: &str,
    expected_issuer_prefix: &str,
    keys: &KeySet,
    now: u64,
) -> (r: Result<Claims, AuthError>)
    ensures
        claims_result_view(r) == validate_result(
            opt_header_view(raw_header),
            expected_audience@,
            expected_issuer_prefix@,
            keys@,
            now,
        ),
{
    let header = match raw_header {
        Some(h) => h,
        None => {
            return Err(AuthError::MissingOrMalformedHeader);
        },
    };
    let hlen = header.unicode_len();
    if hlen < 7 {
        return Err(AuthError::MissingOrMalformedHeader);
    }
    let scheme = header.substring_char(0, 7);
    if !str_eq(scheme, "Bearer ") {
        return Err(AuthError::MissingOrMalformedHeader);
    }
    let token = header.substring_char(7, hlen);
    proof {
        assert(header@.subrange(7, header@.len() as int) =~= header@.skip(7));
    }
    let ghost t = header@.skip(7);

    let kid = match decode_header_kid(token) {
        Some(k) => k,
        None => {
            return Err(AuthError::MalformedToken);
        },
    };
    let key = match keys.find_key(kid.as_str()) {
        Some(k) => k,
        None => {
            return Err(AuthError::SignatureInvalid);
        },
    };
    let payload = match decode_verified(token, &key) {
        Some(v) => v,
        None => {
            return Err(AuthError::SignatureInvalid);
        },
    };
    let subject = match get_str_field(&payload, "sub") {
        Some(s) => s,
        None => {
            return Err(AuthError::MalformedToken);
        },
    };
    let audience = match get_str_field(&payload, "aud") {
        Some(s) => s,
        None => {
            return Err(AuthError::MalformedToken);
        },
    };
    let issuer = match get_str_field(&payload, "iss") {
        Some(s) => s,
        None => {
            return Err(AuthError::MalformedToken);
        },
    };
    let expires_at = match get_u64_field(&payload, "exp") {
        Some(n) => n,
        None => {
            return Err(AuthError::MalformedToken);
        },
    };
    let issued_at = match get_u64_field(&payload, "iat") {
        Some(n) => n,
        None => {
            return Err(AuthError::MalformedToken);
        },
    };
    if !str_eq(audience.as_str(), expected_audience) {
        return Err(AuthError::AudienceMismatch);
    }
    let expected_issuer = concat_str(expected_issuer_prefix, expected_audience);
    if !str_eq(issuer.as_str(), expected_issuer.as_str()) {
        return Err(AuthError::IssuerMismatch);
    }
    if expires_at <= now {
        return Err(AuthError::TokenExpired);
    }
    if issued_at > now && issued_at - now > CLOCK_SKEW_SECONDS {
        return Err(AuthError::TokenNotYetValid);
    }
    let email = get_str_field(&payload, "email");
    let display_name = get_str_field(&payload, "name");
    let avatar_url = get_str_field(&payload, "picture");
    let email_verified = get_bool_field(&payload, "email_verified");
    Ok(
        Claims {
            subject,
            email,
            display_name,
            avatar_url,
            email_verified,
            issued_at,
            expires_at,
            audience,
            issuer,
        },
    )
}

/// Validates a bearer token and wraps the verified claim set as the
/// authenticated caller.
pub fn authenticate(
    raw_header: Option<&str>,
    expected_audience: &str,
    expected_issuer_prefix: &str,
    keys: &KeySet,
    now: u64,
) -> (r: Result<AuthUser, AuthError>)
    ensures
        r is Ok <==> validate_result(
            opt_header_view(raw_header),
            expected_audience@,
            expected_issuer_prefix@,
            keys@,
            now,
        ) is Ok,
        r is Ok ==> Result::<ClaimsView, AuthError>::Ok(r->Ok_0.0@) == validate_result(
            opt_header_view(raw_header),
            expected_audience@,
            expected_issuer_prefix@,
            keys@,
            now,
        ),
        r is Err ==> Result::<ClaimsView, AuthError>::Err(r->Err_0) == validate_result(
            opt_header_view(raw_header),
            expected_audience@,
            expected_issuer_prefix@,
            keys@,
            now,
        ),
{
    match validate(raw_header, expected_audience, expected_issuer_prefix, keys, now) {
        Ok(claims) => Ok(AuthUser(claims)),
        Err(e) => Err(e),
    }
}

} // verus!
