//! Trusted boundary to the JSON Web Token and JSON libraries.
//!
//! Everything a token encodes is named by uninterpreted spec functions of the
//! token text (and, for signature acceptance, of the key), so that verified
//! code can state exactly which claim set a validation result came from
//! without restating the token format itself.

use vstd::prelude::*;

verus! {

/// The `kid` (key identifier) field of the token's protected header, or
/// `None` where the token is not a structurally well-formed JWT or its
/// header carries no `kid`.
pub uninterp spec fn jwt_kid(token: Seq<char>) -> Option<Seq<char>>;

/// Whether the token is a well-formed JWT whose HMAC-SHA256 signature
/// verifies under the given key and whose payload is JSON of a shape the
/// decoder accepts (an object, or the positional form serde admits for
/// one; a token whose payload is no object carries no claims, and the
/// required-claims check rejects it).
pub uninterp spec fn jwt_accepts(token: Seq<char>, key: Seq<u8>) -> bool;

/// The string-valued claims encoded in the token's payload, keyed by claim
/// name. Meaningful only for tokens some key accepts.
pub uninterp spec fn jwt_str_claims(token: Seq<char>) -> Map<Seq<char>, Seq<char>>;

/// The unsigned-integer claims encoded in the token's payload (those whose
/// value fits in a `u64`), keyed by claim name.
pub uninterp spec fn jwt_u64_claims(token: Seq<char>) -> Map<Seq<char>, u64>;

/// The boolean claims encoded in the token's payload, keyed by claim name.
pub uninterp spec fn jwt_bool_claims(token: Seq<char>) -> Map<Seq<char>, bool>;

/// The string-valued members of a decoded JSON object, keyed by member name.
pub uninterp spec fn json_str_fields(v: serde_json::Value) -> Map<Seq<char>, Seq<char>>;

/// The unsigned-integer members of a decoded JSON object, keyed by member name.
pub uninterp spec fn json_u64_fields(v: serde_json::Value) -> Map<Seq<char>, u64>;

/// The boolean members of a decoded JSON object, keyed by member name.
pub uninterp spec fn json_bool_fields(v: serde_json::Value) -> Map<Seq<char>, bool>;

#[verifier::external_type_specification]
#[verifier::external_body]
pub struct ExValue(serde_json::Value);

/// Relies on `jsonwebtoken::decode_header`: decodes the token's protected
/// header without touching the signature, and hands out its `kid` field.
#[verifier::external_body]
pub(crate) fn decode_header_kid(token: &str) -> (r: Option<String>)
    ensures
        r is Some <==> jwt_kid(token@) is Some,
        r is Some ==> r.unwrap()@ == jwt_kid(token@).unwrap(),
{
    match jsonwebtoken::decode_header(token) {
        Ok(h) => h.kid,
        Err(_) => None,
    }
}

/// Relies on `jsonwebtoken::decode`: checks that the token is a well-formed
/// JWT and that its HMAC-SHA256 signature verifies under `key`, and returns
/// the decoded payload. Audience and expiry checking are switched off here
/// on purpose: verified code performs those checks itself on plain values.
#[verifier::external_body]
pub(crate) fn decode_verified(token: &str, key: &Vec<u8>) -> (r: Option<serde_json::Value>)
    ensures
        r is Some <==> jwt_accepts(token@, key@),
        r is Some ==> json_str_fields(r.unwrap()) == jwt_str_claims(token@),
        r is Some ==> json_u64_fields(r.unwrap()) == jwt_u64_claims(token@),
        r is Some ==> json_bool_fields(r.unwrap()) == jwt_bool_claims(token@),
{
    let mut validation = jsonwebtoken::Validation::new(jsonwebtoken::Algorithm::HS256);
    validation.validate_exp = false;
    validation.validate_aud = false;
    validation.required_spec_claims = std::collections::HashSet::new();
    let decoding_key = jsonwebtoken::DecodingKey::from_secret(key.as_slice());
    match jsonwebtoken::decode::<serde_json::Value>(token, &decoding_key, &validation) {
        Ok(data) => Some(data.claims),
        Err(_) => None,
    }
}

/// Relies on `serde_json::Value::get` and `Value::as_str`: the string member
/// of a JSON object at the given key, `None` where absent or not a string.
#[verifier::external_body]
pub(crate) fn get_str_field(v: &serde_json::Value, k: &str) -> (r: Option<String>)
    ensures
        r is Some <==> json_str_fields(*v).contains_key(k@),
        r is Some ==> r.unwrap()@ == json_str_fields(*v)[k@],
{
    match v.get(k) {
        Some(f) => f.as_str().map(|s| s.to_string()),
        None => None,
    }
}

/// Relies on `serde_json::Value::get` and `Value::as_u64`: the
/// unsigned-integer member of a JSON object at the given key, `None` where
/// absent or not an integer that fits in a `u64`.
#[verifier::external_body]
pub(crate) fn get_u64_field(v: &serde_json::Value, k: &str) -> (r: Option<u64>)
    ensures
        r is Some <==> json_u64_fields(*v).contains_key(k@),
        r is Some ==> r.unwrap() == json_u64_fields(*v)[k@],
{
    match v.get(k) {
        Some(f) => f.as_u64(),
        None => None,
    }
}

/// Relies on `serde_json::Value::get` and `Value::as_bool`: the boolean
/// member of a JSON object at the given key, `None` where absent or not a
/// boolean.
#[verifier::external_body]
pub(crate) fn get_bool_field(v: &serde_json::Value, k: &str) -> (r: Option<bool>)
    ensures
        r is Some <==> json_bool_fields(*v).contains_key(k@),
        r is Some ==> r.unwrap() == json_bool_fields(*v)[k@],
{
    match v.get(k) {
        Some(f) => f.as_bool(),
        None => None,
    }
}

} // verus!
