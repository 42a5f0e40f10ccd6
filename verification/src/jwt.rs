//! Checking identity tokens: their key id, the key that signed them and
//! the rules they must pass, with jsonwebtoken's header and key decoding.

use vstd::prelude::*;
use crate::entities::AuthenticationClaims;
use crate::interface::{AuthenticationError, AuthenticationErrorView};
use crate::text::{concat2, concat3};
use crate::values::{first_key_with_id, JwkSet};

verus! {

#[verifier::external_type_specification]
#[verifier::external_body]
pub struct ExDecodingKey(jsonwebtoken::DecodingKey);

/// What `jsonwebtoken::decode_header` reads of a token: the header's key id
/// (`kid`, which may be absent), or the text of the error when the token is
/// not three dot-separated parts with a well-formed header.
pub uninterp spec fn jwt_header_kid(token: Seq<char>) -> Result<Option<Seq<char>>, Seq<char>>;

/// The value of a symbol of the URL-safe base64 alphabet, or -1 for any
/// other character.
pub open spec fn base64url_value(c: char) -> int {
    if 'A' <= c && c <= 'Z' {
        c as int - 'A' as int
    } else if 'a' <= c && c <= 'z' {
        c as int - 'a' as int + 26
    } else if '0' <= c && c <= '9' {
        c as int - '0' as int + 52
    } else if c == '-' {
        62
    } else if c == '_' {
        63
    } else {
        -1
    }
}

/// Whether `s` is canonical unpadded URL-safe base64, as jsonwebtoken
/// decodes it (base64's `URL_SAFE_NO_PAD`): only symbols of the alphabet (no
/// `=`), a length that is not one more than a multiple of four, and no bits
/// set in the last symbol beyond those that the decoded bytes use.
pub open spec fn base64url_accepts(s: Seq<char>) -> bool {
    &&& forall|i: int| 0 <= i < s.len() ==> base64url_value(#[trigger] s[i]) >= 0
    &&& s.len() % 4 != 1
    &&& s.len() % 4 == 2 ==> base64url_value(s[s.len() - 1]) % 16 == 0
    &&& s.len() % 4 == 3 ==> base64url_value(s[s.len() - 1]) % 4 == 0
}

/// Whether `jsonwebtoken::DecodingKey::from_rsa_components` accepts the
/// given modulus and exponent: it base64url-decodes both.
pub open spec fn rsa_components_accepted(modulus: Seq<char>, exponent: Seq<char>) -> bool {
    base64url_accepts(modulus) && base64url_accepts(exponent)
}

/// The key that `jsonwebtoken::DecodingKey::from_rsa_components` builds from
/// the given modulus and exponent (both base64url text) when it accepts them.
pub uninterp spec fn rsa_key_of(modulus: Seq<char>, exponent: Seq<char>) -> jsonwebtoken::DecodingKey;

/// An optional string by its view.
pub open spec fn opt_view(o: Option<String>) -> Option<Seq<char>> {
    match o {
        Some(s) => Some(s@),
        None => None,
    }
}

/// Calls `jsonwebtoken::decode_header` and keeps the header's `kid`; an
/// error is turned into its `Debug` text. Claimed: the result is
/// [`jwt_header_kid`] of the token.
#[verifier::external_body]
fn decode_header_kid(token: &str) -> (res: Result<Option<String>, String>)
    ensures
        match res {
            Ok(k) => jwt_header_kid(token@) == Ok::<Option<Seq<char>>, Seq<char>>(opt_view(k)),
            Err(d) => jwt_header_kid(token@) == Err::<Option<Seq<char>>, Seq<char>>(d@),
        },
{
    match jsonwebtoken::decode_header(token) {
        Ok(header) => Ok(header.kid),
        Err(e) => Err(format!("{:?}", e)),
    }
}

/// Calls `jsonwebtoken::DecodingKey::from_rsa_components`. Claimed: it
/// succeeds exactly when both components are canonical unpadded URL-safe
/// base64 ([`rsa_components_accepted`]), and the key it
/// builds is [`rsa_key_of`] the modulus and exponent. What the key holds
/// inside is opaque here.
#[verifier::external_body]
fn rsa_decoding_key(modulus: &str, exponent: &str) -> (res: Result<jsonwebtoken::DecodingKey, ()>)
    ensures
        res is Ok <==> rsa_components_accepted(modulus@, exponent@),
        res matches Ok(k) ==> k == rsa_key_of(modulus@, exponent@),
{
    jsonwebtoken::DecodingKey::from_rsa_components(modulus, exponent).map_err(|_| ())
}

/// The signature algorithms that identity tokens are checked against.
#[derive(Debug, Clone, Copy, PartialEq, Eq, Structural)]
pub enum SigningAlgorithm {
    RS256,
}

/// The rules an identity token must pass besides its signature: the
/// algorithm it is signed with, the audience it is issued to and its issuer.
#[derive(Debug, Clone)]
pub struct TokenRules {
    pub algorithm: SigningAlgorithm,
    pub audience: String,
    pub issuer: String,
}

/// The issuer that the identity provider's tokens name.
pub open spec fn issuer_text(region: Seq<char>, pool_id: Seq<char>) -> Seq<char> {
    "https://cognito-idp."@ + region + ".amazonaws.com/"@ + pool_id
}

/// Where the identity provider publishes its signing keys.
pub open spec fn jwks_endpoint_text(region: Seq<char>, pool_id: Seq<char>) -> Seq<char> {
    issuer_text(region, pool_id) + "/.well-known/jwks.json"@
}

/// The issuer of the pool `pool_id` in `region`.
pub fn issuer_url(region: &str, pool_id: &str) -> (res: String)
    ensures
        res@ == issuer_text(region@, pool_id@),
{
    let head = concat3("https://cognito-idp.", region, ".amazonaws.com/");
    concat2(head.as_str(), pool_id)
}

/// The JWKS endpoint of the pool `pool_id` in `region`.
pub fn jwks_endpoint(region: &str, pool_id: &str) -> (res: String)
    ensures
        res@ == jwks_endpoint_text(region@, pool_id@),
{
    let issuer = issuer_url(region, pool_id);
    concat2(issuer.as_str(), "/.well-known/jwks.json")
}

/// What [`token_key_id`] gives for a token: its key id, or the error.
pub open spec fn key_id_outcome(token: Seq<char>) -> Result<Seq<char>, AuthenticationErrorView> {
    match jwt_header_kid(token) {
        Err(detail) => Err(AuthenticationErrorView::Unexpected("Failed to decode JWT header: "@ + detail)),
        Ok(None) => Err(AuthenticationErrorView::InvalidCredential),
        Ok(Some(kid)) => Ok(kid),
    }
}

/// A string result by its view.
pub open spec fn string_result_view(r: Result<String, AuthenticationError>) -> Result<Seq<char>, AuthenticationErrorView> {
    match r {
        Ok(s) => Ok(s@),
        Err(e) => Err(e@),
    }
}

/// The id of the key that signed `id_token`, read from its header.
pub fn token_key_id(id_token: &str) -> (res: Result<String, AuthenticationError>)
    ensures
        string_result_view(res) == key_id_outcome(id_token@),
{
    match decode_header_kid(id_token) {
        Err(detail) => Err(AuthenticationError::Unexpected(concat2("Failed to decode JWT header: ", detail.as_str()))),
        Ok(None) => Err(AuthenticationError::InvalidCredential),
        Ok(Some(kid)) => Ok(kid),
    }
}

/// The key and the rules that an identity token is checked against.
pub struct TokenVerifier {
    pub key: jsonwebtoken::DecodingKey,
    pub rules: TokenRules,
}

/// Whether [`token_verifier`] succeeds for the key id and key set: it
/// fails with `InvalidCredential` when no key has the id, and with
/// `Unexpected` when the first such key's components are refused.
pub open spec fn verifier_outcome(kid: Seq<char>, keys: Seq<crate::values::Jwk>) -> Result<(), AuthenticationErrorView> {
    if !(exists|i: int| first_key_with_id(keys, kid, i)) {
        Err(AuthenticationErrorView::InvalidCredential)
    } else {
        let i = choose|i: int| first_key_with_id(keys, kid, i);
        if rsa_components_accepted(keys[i].n@, keys[i].e@) {
            Ok(())
        } else {
            Err(AuthenticationErrorView::Unexpected("Failed to construct decoding key"@))
        }
    }
}

/// `i` and `j` both being the first position of a key id means they are equal.
proof fn lemma_first_key_unique(keys: Seq<crate::values::Jwk>, kid: Seq<char>, i: int, j: int)
    requires
        first_key_with_id(keys, kid, i),
        first_key_with_id(keys, kid, j),
    ensures
        i == j,
{
    if i < j {
        assert(keys[i].kid@ != kid);
    } else if j < i {
        assert(keys[j].kid@ != kid);
    }
}

/// Prepares the check of a token signed with key `kid`: the key from the
/// set, and RS256 validation with the app client as audience and the pool
/// as issuer.
pub fn token_verifier(kid: &str, jwks: &JwkSet, client_id: &str, region: &str, pool_id: &str)
    -> (res: Result<TokenVerifier, AuthenticationError>)
    ensures
        match res {
            Ok(v) => {
                &&& verifier_outcome(kid@, jwks.keys@) == Ok::<(), AuthenticationErrorView>(())
                &&& exists|i: int| first_key_with_id(jwks.keys@, kid@, i)
                    && v.key == rsa_key_of(jwks.keys@[i].n@, jwks.keys@[i].e@)
                &&& v.rules.algorithm == SigningAlgorithm::RS256
                &&& v.rules.audience@ == client_id@
                &&& v.rules.issuer@ == issuer_text(region@, pool_id@)
            },
            Err(e) => verifier_outcome(kid@, jwks.keys@) == Err::<(), AuthenticationErrorView>(e@),
        },
{
    let jwk = match jwks.find_key(kid) {
        None => {
            return Err(AuthenticationError::InvalidCredential);
        },
        Some(k) => k,
    };
    proof {
        let i = choose|i: int| first_key_with_id(jwks.keys@, kid@, i) && jwks.keys@[i] == *jwk;
        let c = choose|i: int| first_key_with_id(jwks.keys@, kid@, i);
        lemma_first_key_unique(jwks.keys@, kid@, i, c);
    }
    let key = match rsa_decoding_key(jwk.n.as_str(), jwk.e.as_str()) {
        Err(()) => {
            return Err(AuthenticationError::unexpected("Failed to construct decoding key"));
        },
        Ok(k) => k,
    };
    let rules = TokenRules {
        algorithm: SigningAlgorithm::RS256,
        audience: client_id.to_owned(),
        issuer: issuer_url(region, pool_id),
    };
    Ok(TokenVerifier { key, rules })
}

/// The subject of a token once its signature and claims have been checked;
/// a token that failed the check is an invalid credential.
pub fn sub_from_verified_claims(checked: Result<AuthenticationClaims, ()>) -> (res: Result<String, AuthenticationError>)
    ensures
        match checked {
            Ok(claims) => res == Ok::<String, AuthenticationError>(claims.sub),
            Err(()) => res is Err && res->Err_0@ == AuthenticationErrorView::InvalidCredential,
        },
{
    match checked {
        Ok(claims) => Ok(claims.sub_id()),
        Err(()) => Err(AuthenticationError::InvalidCredential),
    }
}

} // verus!
