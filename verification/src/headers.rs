//! The header set that each request carries.

use crate::error::{ClientError, CredentialHeader};
use crate::provider::{AuthScheme, ProviderDescriptor, auth_scheme, scheme_for};
use reqwest::header::{HeaderMap, HeaderValue, InvalidHeaderValue};
use vstd::prelude::*;
use vstd::string::*;
use vstd::utf8::encode_utf8;

verus! {

/// `reqwest::header::HeaderValue`, carried as it is.
#[verifier::external_type_specification]
#[verifier::external_body]
pub struct ExHeaderValue(HeaderValue);

/// `reqwest::header::InvalidHeaderValue`, carried as it is.
#[verifier::external_type_specification]
#[verifier::external_body]
pub struct ExInvalidHeaderValue(InvalidHeaderValue);

/// `reqwest::header::HeaderMap`, read only through `header_entries`.
#[verifier::external_type_specification]
#[verifier::external_body]
#[verifier::reject_recursive_types(T)]
pub struct ExHeaderMap<T>(HeaderMap<T>);

/// The bytes that a header value holds.
pub uninterp spec fn header_value_bytes(value: HeaderValue) -> Seq<u8>;

/// What a header map holds: for each name present, in lower case, the bytes of
/// the value stored under it; where several are stored, of the last.
pub uninterp spec fn header_entries(headers: HeaderMap<HeaderValue>) -> Map<Seq<char>, Seq<u8>>;

/// The header set without entries.
pub open spec fn no_headers() -> Map<Seq<char>, Seq<u8>> {
    Map::empty()
}

/// How the header layer words its refusal of a value.
pub open spec fn rejection_text() -> Seq<char> {
    "failed to parse header value"@
}

/// The header that carries a key for the provider `id`.
pub open spec fn credential_header(id: Seq<char>) -> CredentialHeader {
    if id == "anthropic"@ {
        CredentialHeader::ApiKey
    } else {
        CredentialHeader::Authorization
    }
}

/// A character that a header value may hold: a tab, or anything from the space
/// upwards except DEL.
pub open spec fn is_value_char(c: char) -> bool {
    c == '\t' || (c as u32 >= 32 && c as u32 != 127)
}

/// Text that can be sent as a header value.
pub open spec fn is_header_text(s: Seq<char>) -> bool {
    forall|i: int| 0 <= i < s.len() ==> is_value_char(#[trigger] s[i])
}

/// A character of the header names used here: a lower-case letter or a hyphen.
pub open spec fn is_name_char(c: char) -> bool {
    c == '-' || ('a' as u32 <= c as u32 && c as u32 <= 'z' as u32)
}

/// A header name of lower-case letters and hyphens, at most 64 characters long.
pub open spec fn is_plain_name(s: Seq<char>) -> bool {
    &&& 0 < s.len() <= 64
    &&& forall|i: int| 0 <= i < s.len() ==> is_name_char(#[trigger] s[i])
}

/// `HeaderValue::from_str`: succeeds exactly on text whose every character is
/// a tab or at least a space and not DEL, and then holds the text's UTF-8
/// bytes.
#[verifier::external_body]
fn header_value_from_str(text: &str) -> (parsed: Result<HeaderValue, InvalidHeaderValue>)
    ensures
        parsed is Ok <==> is_header_text(text@),
        parsed is Ok ==> header_value_bytes(parsed->Ok_0) == encode_utf8(text@),
{
    HeaderValue::from_str(text)
}

/// `Display` of `InvalidHeaderValue`: one fixed sentence.
#[verifier::external_body]
fn invalid_value_text(error: &InvalidHeaderValue) -> (text: String)
    ensures
        text@ == rejection_text(),
{
    error.to_string()
}

/// `HeaderMap::new`: a map without entries.
#[verifier::external_body]
fn header_map_new() -> (headers: HeaderMap<HeaderValue>)
    ensures
        header_entries(headers) == no_headers(),
{
    HeaderMap::new()
}

/// `HeaderMap::insert` with a string for the name: afterwards the name maps
/// to the new value alone, and every other entry is as before. The map must
/// be far from its size limit, and the name a valid one that is already in
/// lower case.
#[verifier::external_body]
fn header_map_insert(headers: &mut HeaderMap<HeaderValue>, name: &'static str, value: HeaderValue)
    requires
        is_plain_name(name@),
        header_entries(*old(headers)).dom().finite(),
        header_entries(*old(headers)).dom().len() < 64,
    ensures
        header_entries(*final(headers)) == header_entries(*old(headers)).insert(
            name@,
            header_value_bytes(value),
        ),
{
    headers.insert(name, value);
}

/// Whether every character of `s` from position `i` on satisfies `p`.
pub open spec fn all_from(s: Seq<char>, i: nat, p: spec_fn(char) -> bool) -> bool
    decreases s.len() - i,
{
    if i >= s.len() {
        true
    } else {
        p(s[i as int]) && all_from(s, i + 1, p)
    }
}

proof fn lemma_all_from(s: Seq<char>, i: nat, p: spec_fn(char) -> bool)
    requires
        all_from(s, i, p),
    ensures
        forall|j: int| i <= j < s.len() ==> p(#[trigger] s[j]),
    decreases s.len() - i,
{
    if i < s.len() {
        lemma_all_from(s, i + 1, p);
    }
}

/// The headers that every request carries, whatever the credentials.
pub open spec fn common_headers() -> Map<Seq<char>, Seq<u8>> {
    no_headers().insert(
        "content-type"@,
        encode_utf8("application/json"@),
    ).insert("referer"@, encode_utf8("https://github.com/cjpais/Handy"@)).insert(
        "user-agent"@,
        encode_utf8("Handy/1.0 (+https://github.com/cjpais/Handy)"@),
    ).insert("x-title"@, encode_utf8("Handy"@))
}

/// The headers of a request to the provider `id` with the key `key`.
pub open spec fn headers_for(id: Seq<char>, key: Seq<char>) -> Map<Seq<char>, Seq<u8>> {
    match scheme_for(id, key) {
        AuthScheme::Unauthenticated => common_headers(),
        AuthScheme::AnthropicKey => common_headers().insert("x-api-key"@, encode_utf8(key)).insert(
            "anthropic-version"@,
            encode_utf8("2023-06-01"@),
        ),
        AuthScheme::GenericBearer => common_headers().insert(
            "authorization"@,
            encode_utf8("Bearer "@ + key),
        ),
    }
}

/// Stores a fixed header, whose name and value are known to be valid.
fn insert_fixed(headers: &mut HeaderMap<HeaderValue>, name: &'static str, value: &'static str)
    requires
        all_from(name@, 0, |c: char| is_name_char(c)),
        0 < name@.len() <= 64,
        all_from(value@, 0, |c: char| is_value_char(c)),
        header_entries(*old(headers)).dom().finite(),
        header_entries(*old(headers)).dom().len() < 64,
    ensures
        header_entries(*final(headers)) == header_entries(*old(headers)).insert(
            name@,
            encode_utf8(value@),
        ),
{
    proof {
        lemma_all_from(name@, 0, |c: char| is_name_char(c));
        lemma_all_from(value@, 0, |c: char| is_value_char(c));
    }
    match header_value_from_str(value) {
        Ok(v) => header_map_insert(headers, name, v),
        Err(_) => {},
    }
}

/// Builds the header set for a request to `provider` with `api_key`.
///
/// An empty key gives a request without credentials. The one way to fail is a
/// key that cannot be written into a header; the failure names the header
/// that refused it.
pub fn build_headers(provider: &ProviderDescriptor, api_key: &str) -> (built: Result<
    HeaderMap<HeaderValue>,
    ClientError,
>)
    ensures
        built is Ok <==> (api_key@.len() == 0 || is_header_text(api_key@)),
        built is Ok ==> header_entries(built->Ok_0) == headers_for(provider.id@, api_key@),
        built is Err ==> built->Err_0.is_invalid_credential(
            credential_header(provider.id@),
            rejection_text(),
        ),
{
    let mut headers = header_map_new();
    proof {
        reveal_strlit("content-type");
        reveal_strlit("application/json");
        reveal_strlit("referer");
        reveal_strlit("https://github.com/cjpais/Handy");
        reveal_strlit("user-agent");
        reveal_strlit("Handy/1.0 (+https://github.com/cjpais/Handy)");
        reveal_strlit("x-title");
        reveal_strlit("Handy");
        reveal_strlit("x-api-key");
        reveal_strlit("anthropic-version");
        reveal_strlit("2023-06-01");
        reveal_strlit("authorization");
        reveal_strlit("Bearer ");
        reveal_with_fuel(all_from, 50);
    }
    insert_fixed(&mut headers, "content-type", "application/json");
    insert_fixed(&mut headers, "referer", "https://github.com/cjpais/Handy");
    insert_fixed(&mut headers, "user-agent", "Handy/1.0 (+https://github.com/cjpais/Handy)");
    insert_fixed(&mut headers, "x-title", "Handy");
    assert(header_entries(headers) == common_headers());
    match auth_scheme(provider, api_key) {
        AuthScheme::Unauthenticated => Ok(headers),
        AuthScheme::AnthropicKey => {
            match header_value_from_str(api_key) {
                Ok(v) => {
                    proof {
                        lemma_all_from("x-api-key"@, 0, |c: char| is_name_char(c));
                    }
                    header_map_insert(&mut headers, "x-api-key", v);
                    insert_fixed(&mut headers, "anthropic-version", "2023-06-01");
                    Ok(headers)
                },
                Err(e) => Err(
                    ClientError::InvalidCredentialEncoding {
                        header: CredentialHeader::ApiKey,
                        detail: invalid_value_text(&e),
                    },
                ),
            }
        },
        AuthScheme::GenericBearer => {
            let text = String::from_str("Bearer ").concat(api_key);
            proof {
                lemma_all_from("Bearer "@, 0, |c: char| is_value_char(c));
                lemma_all_from("authorization"@, 0, |c: char| is_name_char(c));
                assert(is_header_text(text@) <==> is_header_text(api_key@)) by {
                    let prefix = "Bearer "@;
                    if is_header_text(text@) {
                        assert forall|i: int| 0 <= i < api_key@.len() implies is_value_char(
                            #[trigger] api_key@[i],
                        ) by {
                            assert(text@[i + prefix.len()] == api_key@[i]);
                        }
                    }
                    if is_header_text(api_key@) {
                        assert forall|i: int| 0 <= i < text@.len() implies is_value_char(
                            #[trigger] text@[i],
                        ) by {
                            if i >= prefix.len() {
                                assert(text@[i] == api_key@[i - prefix.len()]);
                            } else {
                                assert(text@[i] == prefix[i]);
                            }
                        }
                    }
                }
            }
            match header_value_from_str(text.as_str()) {
                Ok(v) => {
                    header_map_insert(&mut headers, "authorization", v);
                    Ok(headers)
                },
                Err(e) => Err(
                    ClientError::InvalidCredentialEncoding {
                        header: CredentialHeader::Authorization,
                        detail: invalid_value_text(&e),
                    },
                ),
            }
        },
    }
}

/// With a key, a request to the provider `anthropic` carries the key under
/// `x-api-key` together with the fixed `anthropic-version`, and carries no
/// `authorization`.
pub proof fn lemma_anthropic_uses_key_header(id: Seq<char>, key: Seq<char>)
    requires
        id == "anthropic"@,
        key.len() > 0,
    ensures
        headers_for(id, key).contains_key("x-api-key"@),
        headers_for(id, key)["x-api-key"@] == encode_utf8(key),
        headers_for(id, key).contains_key("anthropic-version"@),
        headers_for(id, key)["anthropic-version"@] == encode_utf8("2023-06-01"@),
        !headers_for(id, key).contains_key("authorization"@),
{
    reveal_names();
}

/// With a key, a request to any other provider carries `Bearer <key>` under
/// `authorization`, and neither `x-api-key` nor `anthropic-version`.
pub proof fn lemma_other_providers_use_bearer(id: Seq<char>, key: Seq<char>)
    requires
        id != "anthropic"@,
        key.len() > 0,
    ensures
        headers_for(id, key).contains_key("authorization"@),
        headers_for(id, key)["authorization"@] == encode_utf8("Bearer "@ + key),
        !headers_for(id, key).contains_key("x-api-key"@),
        !headers_for(id, key).contains_key("anthropic-version"@),
{
    reveal_names();
}

/// Without a key a request carries the common headers and no credential,
/// whoever the provider is.
pub proof fn lemma_empty_key_sends_no_credential(id: Seq<char>, key: Seq<char>)
    requires
        key.len() == 0,
    ensures
        headers_for(id, key) == common_headers(),
        !headers_for(id, key).contains_key("authorization"@),
        !headers_for(id, key).contains_key("x-api-key"@),
        !headers_for(id, key).contains_key("anthropic-version"@),
{
    reveal_names();
}

/// Whatever the credentials, a request carries the four common headers.
pub proof fn lemma_common_headers_always_sent(id: Seq<char>, key: Seq<char>)
    ensures
        headers_for(id, key).contains_key("content-type"@),
        headers_for(id, key)["content-type"@] == encode_utf8("application/json"@),
        headers_for(id, key).contains_key("referer"@),
        headers_for(id, key).contains_key("user-agent"@),
        headers_for(id, key).contains_key("x-title"@),
{
    reveal_names();
}

/// A key selects exactly one scheme: no request carries both `authorization`
/// and `x-api-key`.
pub proof fn lemma_never_both_schemes(id: Seq<char>, key: Seq<char>)
    ensures
        !(headers_for(id, key).contains_key("authorization"@) && headers_for(id, key).contains_key(
            "x-api-key"@,
        )),
        key.len() > 0 ==> (headers_for(id, key).contains_key("authorization"@) || headers_for(
            id,
            key,
        ).contains_key("x-api-key"@)),
{
    reveal_names();
}

/// The header names used here have pairwise different lengths, but for
/// `referer` and `x-title`, which differ in their first character.
proof fn reveal_names()
    ensures
        "content-type"@.len() == 12,
        "referer"@.len() == 7,
        "referer"@[0] == 'r',
        "user-agent"@.len() == 10,
        "x-title"@.len() == 7,
        "x-title"@[0] == 'x',
        "x-api-key"@.len() == 9,
        "anthropic-version"@.len() == 17,
        "authorization"@.len() == 13,
{
    reveal_strlit("content-type");
    reveal_strlit("referer");
    reveal_strlit("user-agent");
    reveal_strlit("x-title");
    reveal_strlit("x-api-key");
    reveal_strlit("anthropic-version");
    reveal_strlit("authorization");
}

} // verus!
