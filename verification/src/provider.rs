//! What the library asks of an OpenID Connect implementation, over plain values.

use crate::crypto::sha256;
use crate::encoding::{base64_bytes, base64_round_trip, base64_text};
use crate::text::{optional_text, texts};
use openidconnect::{
    AuthenticationFlow, ClientId, CsrfToken, IssuerUrl, Nonce, PkceCodeChallenge,
    PkceCodeVerifier, RedirectUrl, Scope,
};
use vstd::prelude::*;
use vstd::utf8::encode_utf8;

verus! {

/// Why `IssuerUrl::new` refuses a text, if it does: the text of its error.
pub uninterp spec fn issuer_url_rejection(text: Seq<char>) -> Option<Seq<char>>;

/// Why `RedirectUrl::new` refuses a text, if it does: the text of its error.
pub uninterp spec fn redirect_url_rejection(text: Seq<char>) -> Option<Seq<char>>;

/// Why `serde_json::from_str` refuses a document as `CoreProviderMetadata`, if it does: the text of
/// its error.
pub uninterp spec fn metadata_rejection(document: Seq<char>) -> Option<Seq<char>>;

/// Why `serde_json::from_str` refuses a document as `CoreJsonWebKeySet`, if it does: the text of its
/// error.
pub uninterp spec fn key_set_rejection(document: Seq<char>) -> Option<Seq<char>>;

/// The text that `AuthorizationRequest::url` gives: the authorization endpoint of the metadata, with
/// the given query parameters appended in order.
pub uninterp spec fn authorization_url(
    metadata: Seq<char>,
    parameters: Seq<(Seq<char>, Seq<char>)>,
) -> Seq<char>;

/// Why a text is refused as a `CoreIdToken`, if it is: the text of the error.
pub uninterp spec fn id_token_rejection(text: Seq<char>) -> Option<Seq<char>>;

/// What `IdToken::claims` gives for an ID token at a given time: its subject and expiry, or the text
/// of the error with which it is refused.
pub uninterp spec fn id_token_verdict(
    metadata: Seq<char>,
    keys: Seq<char>,
    client_id: Seq<char>,
    id_token: Seq<char>,
    nonce: Seq<char>,
    now: int,
) -> Result<(Seq<char>, i64), Seq<char>>;

/// The nonce claim that an ID token carries, as `IdTokenClaims::nonce` gives it.
pub uninterp spec fn id_token_nonce(id_token: Seq<char>) -> Option<Seq<char>>;

/// The S256 code challenge of a PKCE verifier: the unpadded URL-safe Base64 text of its SHA-256
/// digest.
pub open spec fn pkce_challenge(verifier: Seq<char>) -> Seq<char> {
    base64_text(sha256(encode_utf8(verifier)))
}

/// The scopes of a request, separated by spaces, with `openid` before all others.
pub open spec fn scope_text(scopes: Seq<Seq<char>>) -> Seq<char>
    decreases scopes.len(),
{
    if scopes.len() == 0 {
        "openid"@
    } else {
        scope_text(scopes.drop_last()) + " "@ + scopes.last()
    }
}

/// The query parameters of an authorization request for a code with S256 PKCE.
pub open spec fn authorization_parameters(
    client_id: Seq<char>,
    redirect_uri: Seq<char>,
    scopes: Seq<Seq<char>>,
    state: Seq<char>,
    nonce: Seq<char>,
    challenge: Seq<char>,
) -> Seq<(Seq<char>, Seq<char>)> {
    seq![
        ("response_type"@, "code"@),
        ("client_id"@, client_id),
        ("state"@, state),
        ("code_challenge"@, challenge),
        ("code_challenge_method"@, "S256"@),
        ("redirect_uri"@, redirect_uri),
        ("scope"@, scope_text(scopes)),
        ("nonce"@, nonce),
    ]
}

/// Whether a URL tells the state, nonce and challenge of its request: no others give the same URL
/// for the same metadata, client identifier, redirect URI and scopes.
pub open spec fn url_tells_request(
    url: Seq<char>,
    metadata: Seq<char>,
    client_id: Seq<char>,
    redirect_uri: Seq<char>,
    scopes: Seq<Seq<char>>,
    state: Seq<char>,
    nonce: Seq<char>,
    challenge: Seq<char>,
) -> bool {
    forall|other_state: Seq<char>, other_nonce: Seq<char>, other_challenge: Seq<char>|
        url == authorization_url(
            metadata,
            #[trigger] authorization_parameters(
                client_id,
                redirect_uri,
                scopes,
                other_state,
                other_nonce,
                other_challenge,
            ),
        ) ==> other_state == state && other_nonce == nonce && other_challenge == challenge
}

/// Every authorization request asks for a code, and names the S256 challenge of PKCE and the state
/// and nonce of its login; every request asks for the scope `openid` first.
pub proof fn request_is_code_flow_with_s256(
    client_id: Seq<char>,
    redirect_uri: Seq<char>,
    scopes: Seq<Seq<char>>,
    state: Seq<char>,
    nonce: Seq<char>,
    challenge: Seq<char>,
)
    ensures
        ({
            let parameters = authorization_parameters(
                client_id,
                redirect_uri,
                scopes,
                state,
                nonce,
                challenge,
            );
            &&& parameters.contains(("response_type"@, "code"@))
            &&& parameters.contains(("code_challenge_method"@, "S256"@))
            &&& parameters.contains(("code_challenge"@, challenge))
            &&& parameters.contains(("state"@, state))
            &&& parameters.contains(("nonce"@, nonce))
            &&& parameters.contains(("scope"@, scope_text(scopes)))
        }),
        "openid"@.is_prefix_of(scope_text(scopes)),
{
    let parameters = authorization_parameters(
        client_id,
        redirect_uri,
        scopes,
        state,
        nonce,
        challenge,
    );
    assert(parameters[0] == ("response_type"@, "code"@));
    assert(parameters[2] == ("state"@, state));
    assert(parameters[3] == ("code_challenge"@, challenge));
    assert(parameters[4] == ("code_challenge_method"@, "S256"@));
    assert(parameters[6] == ("scope"@, scope_text(scopes)));
    assert(parameters[7] == ("nonce"@, nonce));
    scope_text_begins_with_openid(scopes);
}

proof fn scope_text_begins_with_openid(scopes: Seq<Seq<char>>)
    ensures
        "openid"@.is_prefix_of(scope_text(scopes)),
    decreases scopes.len(),
{
    if scopes.len() > 0 {
        let shorter = scope_text(scopes.drop_last());
        scope_text_begins_with_openid(scopes.drop_last());
        assert(scope_text(scopes).take("openid"@.len() as int) =~= shorter.take(
            "openid"@.len() as int,
        ));
    }
}

/// The query of an authorization request consists of eight parameters, in this order, each with
/// the whole of its value.
pub proof fn request_names_each_parameter_once(
    client_id: Seq<char>,
    redirect_uri: Seq<char>,
    scopes: Seq<Seq<char>>,
    state: Seq<char>,
    nonce: Seq<char>,
    challenge: Seq<char>,
)
    ensures
        ({
            let parameters = authorization_parameters(
                client_id,
                redirect_uri,
                scopes,
                state,
                nonce,
                challenge,
            );
            &&& parameters.len() == 8
            &&& parameters[0] == ("response_type"@, "code"@)
            &&& parameters[1] == ("client_id"@, client_id)
            &&& parameters[2] == ("state"@, state)
            &&& parameters[3] == ("code_challenge"@, challenge)
            &&& parameters[4] == ("code_challenge_method"@, "S256"@)
            &&& parameters[5] == ("redirect_uri"@, redirect_uri)
            &&& parameters[6] == ("scope"@, scope_text(scopes))
            &&& parameters[7] == ("nonce"@, nonce)
        }),
{
}

/// Without further scopes a request asks for `openid` alone, and each further scope adds a space
/// and its name at the end: nothing is left out, changed or moved.
pub proof fn each_scope_is_appended(scopes: Seq<Seq<char>>, scope: Seq<char>)
    ensures
        scope_text(Seq::empty()) == "openid"@,
        scope_text(scopes.push(scope)) == scope_text(scopes) + " "@ + scope,
{
    assert(scopes.push(scope).drop_last() =~= scopes);
}

/// Every scope is one of the names, separated by spaces, that a request asks for: a space stands
/// before it, and another space or the end of the text behind it. The scopes before it stand
/// before it, in their order.
pub proof fn every_scope_is_requested(scopes: Seq<Seq<char>>, i: int)
    requires
        0 <= i < scopes.len(),
    ensures
        exists|after: Seq<char>|
            {
                &&& scope_text(scopes) == #[trigger] (scope_text(scopes.take(i)) + " "@ + scopes[i]
                    + after)
                &&& after.len() == 0 || after[0] == ' '
            },
    decreases scopes.len(),
{
    reveal_strlit(" ");
    let shorter = scopes.drop_last();
    if i == scopes.len() - 1 {
        let after = Seq::<char>::empty();
        assert(scopes.take(i) =~= shorter);
        assert(scope_text(scopes) =~= scope_text(scopes.take(i)) + " "@ + scopes[i] + after);
    } else {
        every_scope_is_requested(shorter, i);
        assert(shorter.take(i) =~= scopes.take(i));
        let before = scope_text(scopes.take(i)) + " "@ + scopes[i];
        let after = choose|after: Seq<char>|
            {
                &&& scope_text(shorter) == #[trigger] (scope_text(shorter.take(i)) + " "@
                    + shorter[i] + after)
                &&& after.len() == 0 || after[0] == ' '
            };
        let longer = after + " "@ + scopes.last();
        assert(scope_text(shorter) == before + after);
        assert(scope_text(scopes) =~= before + longer);
        assert(longer[0] == ' ');
    }
}

/// The challenge of a verifier is that of the whole verifier: it gives back the SHA-256 digest of
/// its UTF-8 bytes.
pub proof fn challenge_is_the_digest_of_the_verifier(verifier: Seq<char>)
    ensures
        base64_bytes(pkce_challenge(verifier)) == Some(sha256(encode_utf8(verifier))),
        pkce_challenge(verifier) == base64_text(sha256(encode_utf8(verifier))),
{
    base64_round_trip(sha256(encode_utf8(verifier)));
}

/// A text encodes a number of random bytes exactly if it can be read as Base64 and gives that many.
pub proof fn random_text_gives_its_bytes(text: Seq<char>, count: nat)
    ensures
        encodes_random_bytes(text, count) <==> (base64_bytes(text) matches Some(bytes)
            && bytes.len() == count),
{
    if encodes_random_bytes(text, count) {
        let bytes = choose|bytes: Seq<u8>| bytes.len() == count && text == #[trigger] base64_text(bytes);
        base64_round_trip(bytes);
    }
}

/// The contents of a verdict are its own subject and expiry, or its own reason.
pub proof fn verdict_contents_are_its_own(verdict: Result<(String, i64), String>)
    ensures
        match verdict {
            Ok(claims) => verdict_contents(verdict) == Ok::<(Seq<char>, i64), Seq<char>>(
                (claims.0@, claims.1),
            ),
            Err(reason) => verdict_contents(verdict) == Err::<(Seq<char>, i64), Seq<char>>(reason@),
        },
{
}

/// Whether a text can be the random secret of `count` bytes, in Base64.
pub open spec fn encodes_random_bytes(text: Seq<char>, count: nat) -> bool {
    exists|bytes: Seq<u8>| bytes.len() == count && text == #[trigger] base64_text(bytes)
}

/// The contents of the outcome of an ID token verification.
pub open spec fn verdict_contents(verdict: Result<(String, i64), String>) -> Result<
    (Seq<char>, i64),
    Seq<char>,
> {
    match verdict {
        Ok((subject, expiration)) => Ok((subject@, expiration)),
        Err(reason) => Err(reason@),
    }
}

/// Calls `IssuerUrl::new` and hands back the text of its error, if it gives one.
#[verifier::external_body]
pub(crate) fn issuer_url_error(text: &str) -> (res: Option<String>)
    ensures
        optional_text(res) == issuer_url_rejection(text@),
{
    IssuerUrl::new(text.to_owned()).err().map(|error| error.to_string())
}

/// Calls `RedirectUrl::new` and hands back the text of its error, if it gives one.
#[verifier::external_body]
pub(crate) fn redirect_url_error(text: &str) -> (res: Option<String>)
    ensures
        optional_text(res) == redirect_url_rejection(text@),
{
    RedirectUrl::new(text.to_owned()).err().map(|error| error.to_string())
}

/// Calls `serde_json::from_str` for `CoreProviderMetadata` and hands back the text of its error,
/// if it gives one.
#[verifier::external_body]
pub(crate) fn metadata_error(document: &str) -> (res: Option<String>)
    ensures
        optional_text(res) == metadata_rejection(document@),
{
    serde_json::from_str::<openidconnect::core::CoreProviderMetadata>(document).err().map(|error| error.to_string())
}

/// Calls `serde_json::from_str` for `CoreJsonWebKeySet` and hands back the text of its error, if
/// it gives one.
#[verifier::external_body]
pub(crate) fn key_set_error(document: &str) -> (res: Option<String>)
    ensures
        optional_text(res) == key_set_rejection(document@),
{
    serde_json::from_str::<openidconnect::core::CoreJsonWebKeySet>(document).err().map(|error| error.to_string())
}

/// Calls `str::parse` for `CoreIdToken` and hands back the text of its error, if it gives one.
#[verifier::external_body]
pub(crate) fn id_token_error(text: &str) -> (res: Option<String>)
    ensures
        optional_text(res) == id_token_rejection(text@),
{
    text.parse::<openidconnect::core::CoreIdToken>().err().map(|error| error.to_string())
}

/// Calls `CsrfToken::new_random`, which encodes 16 random bytes in Base64.
#[verifier::external_body]
pub(crate) fn random_csrf_state() -> (res: String)
    ensures
        encodes_random_bytes(res@, 16),
{
    CsrfToken::new_random().into_secret()
}

/// Calls `Nonce::new_random`, which encodes 16 random bytes in Base64.
#[verifier::external_body]
pub(crate) fn random_nonce() -> (res: String)
    ensures
        encodes_random_bytes(res@, 16),
{
    Nonce::new_random().secret().clone()
}

/// Calls `PkceCodeChallenge::new_random_sha256` and hands back the verifier, which encodes 32
/// random bytes in Base64. The challenge that comes with it is the one that
/// `PkceCodeChallenge::from_code_verifier_sha256` gives for this verifier.
#[verifier::external_body]
pub(crate) fn random_pkce_verifier() -> (res: String)
    ensures
        encodes_random_bytes(res@, 32),
{
    let (_, verifier) = PkceCodeChallenge::new_random_sha256();
    verifier.into_secret()
}

/// Calls `Client::authorize_url` of a public client for the metadata, sets the scopes and the
/// S256 challenge of the verifier, and hands back `AuthorizationRequest::url`: the authorization
/// endpoint with these parameters in its query. The parameters are appended form-encoded to one
/// endpoint, so requests that differ in state, nonce or challenge have different URLs. A PKCE
/// verifier must have 43 to 128 bytes.
#[verifier::external_body]
pub(crate) fn build_authorization_url(
    metadata: &str,
    client_id: &str,
    redirect_uri: &str,
    scopes: &Vec<String>,
    state: String,
    nonce: String,
    pkce_verifier: &str,
) -> (res: String)
    requires
        metadata_rejection(metadata@) is None,
        redirect_url_rejection(redirect_uri@) is None,
        43 <= encode_utf8(pkce_verifier@).len() <= 128,
    ensures
        res@ == authorization_url(
            metadata@,
            authorization_parameters(
                client_id@,
                redirect_uri@,
                texts(scopes@),
                state@,
                nonce@,
                pkce_challenge(pkce_verifier@),
            ),
        ),
        url_tells_request(
            res@,
            metadata@,
            client_id@,
            redirect_uri@,
            texts(scopes@),
            state@,
            nonce@,
            pkce_challenge(pkce_verifier@),
        ),
{
    let provider: openidconnect::core::CoreProviderMetadata = serde_json::from_str(metadata).expect("metadata");
    let redirect = RedirectUrl::new(redirect_uri.to_owned()).expect("redirect URI");
    let verifier = PkceCodeVerifier::new(pkce_verifier.to_owned());
    let client = openidconnect::core::CoreClient::from_provider_metadata(provider, ClientId::new(client_id.to_owned()), None)
        .set_redirect_uri(redirect);
    let flow = AuthenticationFlow::<openidconnect::core::CoreResponseType>::AuthorizationCode;
    let (url, _, _) = client
        .authorize_url(flow, move || CsrfToken::new(state), move || Nonce::new(nonce))
        .add_scopes(scopes.iter().map(|scope| Scope::new(scope.clone())))
        .set_pkce_challenge(PkceCodeChallenge::from_code_verifier_sha256(&verifier))
        .url();
    url.to_string()
}

/// Calls `IdToken::claims` with the ID token verifier of a public client for the metadata and its
/// key set, and hands back the subject and the expiry, or the text of the error. The outcome
/// depends on the time at which it is called. A token is accepted only if its nonce claim has the
/// same SHA-256 digest as the nonce given.
#[verifier::external_body]
pub(crate) fn verify_id_token(
    metadata: &str,
    keys: &str,
    client_id: &str,
    id_token: &str,
    nonce: &str,
) -> (res: Result<(String, i64), String>)
    requires
        metadata_rejection(metadata@) is None,
        key_set_rejection(keys@) is None,
        id_token_rejection(id_token@) is None,
    ensures
        exists|now: int|
            verdict_contents(res) == #[trigger] id_token_verdict(
                metadata@,
                keys@,
                client_id@,
                id_token@,
                nonce@,
                now,
            ),
        res is Ok ==> (id_token_nonce(id_token@) matches Some(claimed) && sha256(
            encode_utf8(claimed),
        ) == sha256(encode_utf8(nonce@))),
{
    let provider: openidconnect::core::CoreProviderMetadata = serde_json::from_str(metadata).expect("metadata");
    let key_set: openidconnect::core::CoreJsonWebKeySet = serde_json::from_str(keys).expect("key set");
    let id = ClientId::new(client_id.to_owned());
    let client = openidconnect::core::CoreClient::from_provider_metadata(provider.set_jwks(key_set), id, None);
    let token: openidconnect::core::CoreIdToken = id_token.parse().expect("ID token");
    let expected = Nonce::new(nonce.to_owned());
    let verifier = client.id_token_verifier();
    let claims = token.claims(&verifier, &expected).map_err(|error| error.to_string())?;
    Ok((claims.subject().as_str().to_owned(), claims.expiration().timestamp()))
}

} // verus!
