//! An HTTP client with a provider's headers attached.

use crate::error::ClientError;
use crate::headers::{
    build_headers, credential_header, header_entries, headers_for, is_header_text, rejection_text,
};
use crate::provider::ProviderDescriptor;
use reqwest::header::{HeaderMap, HeaderValue};
use vstd::prelude::*;
use vstd::utf8::encode_utf8;

verus! {

/// `reqwest::Client`, read only through `client_default_headers`.
#[verifier::external_type_specification]
#[verifier::external_body]
pub struct ExClient(reqwest::Client);

/// `reqwest::Error`, read only through `client_error_text`.
#[verifier::external_type_specification]
#[verifier::external_body]
pub struct ExClientError(reqwest::Error);

/// The headers that a client attaches to every request, as a header map is
/// read by `header_entries`.
pub uninterp spec fn client_default_headers(client: reqwest::Client) -> Map<Seq<char>, Seq<u8>>;

/// An error of the HTTP layer in its own words.
pub uninterp spec fn client_error_text(error: reqwest::Error) -> Seq<char>;

/// The headers of a client built with `headers`: the builder's own
/// `accept: */*`, then `headers`, which win where they name the same header.
pub open spec fn with_accept(headers: Map<Seq<char>, Seq<u8>>) -> Map<Seq<char>, Seq<u8>> {
    Map::<Seq<char>, Seq<u8>>::empty().insert("accept"@, encode_utf8("*/*"@)).union_prefer_right(
        headers,
    )
}

/// `reqwest::Client::builder()`, `default_headers` and `build`: the builder
/// starts from `accept: */*` and stores each given header over it. Whether
/// the build succeeds depends on the machine; a client that is built sends
/// those headers. The map must be far from its size limit.
#[verifier::external_body]
fn client_with_headers(headers: HeaderMap<HeaderValue>) -> (built: Result<
    reqwest::Client,
    reqwest::Error,
>)
    requires
        header_entries(headers).dom().finite(),
        header_entries(headers).dom().len() < 64,
    ensures
        built is Ok ==> client_default_headers(built->Ok_0) == with_accept(header_entries(headers)),
{
    reqwest::Client::builder().default_headers(headers).build()
}

/// `Display` of `reqwest::Error`.
#[verifier::external_body]
fn client_error_to_text(error: &reqwest::Error) -> (text: String)
    ensures
        text@ == client_error_text(*error),
{
    error.to_string()
}

/// Reports the result of building a client: the client where there is one,
/// else a failure of construction with the builder's reason.
pub fn client_outcome(built: Result<reqwest::Client, reqwest::Error>) -> (created: Result<
    reqwest::Client,
    ClientError,
>)
    ensures
        created is Ok <==> built is Ok,
        created is Ok ==> created->Ok_0 == built->Ok_0,
        created is Err ==> created->Err_0.is_construction_failure(
            client_error_text(built->Err_0),
        ),
{
    match built {
        Ok(client) => Ok(client),
        Err(e) => Err(ClientError::ClientConstructionFailure { detail: client_error_to_text(&e) }),
    }
}

/// Creates a client whose requests carry the headers of `provider` with
/// `api_key`.
///
/// A key that cannot be written into a header is reported as such and no
/// client is built; any other failure is one of construction.
pub fn create_client(provider: &ProviderDescriptor, api_key: &str) -> (created: Result<
    reqwest::Client,
    ClientError,
>)
    ensures
        !(api_key@.len() == 0 || is_header_text(api_key@)) ==> created is Err
            && created->Err_0.is_invalid_credential(
            credential_header(provider.id@),
            rejection_text(),
        ),
        (api_key@.len() == 0 || is_header_text(api_key@)) && created is Err
            ==> created->Err_0 is ClientConstructionFailure,
        created is Ok ==> client_default_headers(created->Ok_0) == with_accept(
            headers_for(provider.id@, api_key@),
        ),
{
    match build_headers(provider, api_key) {
        Err(e) => Err(e),
        Ok(headers) => {
            proof {
                lemma_headers_are_few(provider.id@, api_key@);
            }
            client_outcome(client_with_headers(headers))
        },
    }
}

/// A header set of this crate has at most six entries.
pub proof fn lemma_headers_are_few(id: Seq<char>, key: Seq<char>)
    ensures
        headers_for(id, key).dom().finite(),
        headers_for(id, key).dom().len() <= 6,
{
}

} // verus!
