//! Provider descriptors, authentication schemes and request targets.

use vstd::prelude::*;
use vstd::string::*;

verus! {

/// A provider as configured: its identifier and the root of its API.
#[derive(Debug, Clone, PartialEq, Eq)]
pub struct ProviderDescriptor {
    pub id: String,
    pub base_url: String,
}

/// How a request proves who sends it.
#[derive(Debug, Clone, Copy, PartialEq, Eq, Structural)]
pub enum AuthScheme {
    /// No key is configured: the request carries no credential.
    Unauthenticated,
    /// `Authorization: Bearer <key>`.
    GenericBearer,
    /// `x-api-key: <key>` with a fixed `anthropic-version`.
    AnthropicKey,
}

/// The scheme that a provider identifier and a key select.
pub open spec fn scheme_for(id: Seq<char>, key: Seq<char>) -> AuthScheme {
    if key.len() == 0 {
        AuthScheme::Unauthenticated
    } else if id == "anthropic"@ {
        AuthScheme::AnthropicKey
    } else {
        AuthScheme::GenericBearer
    }
}

/// Selects the authentication scheme for `provider` with `api_key`.
pub fn auth_scheme(provider: &ProviderDescriptor, api_key: &str) -> (scheme: AuthScheme)
    ensures
        scheme == scheme_for(provider.id@, api_key@),
{
    if api_key.unicode_len() == 0 {
        AuthScheme::Unauthenticated
    } else if provider.id == String::from_str("anthropic") {
        AuthScheme::AnthropicKey
    } else {
        AuthScheme::GenericBearer
    }
}

/// `s` without its trailing `/` characters.
pub open spec fn without_trailing_slashes(s: Seq<char>) -> Seq<char>
    decreases s.len(),
{
    if s.len() > 0 && s.last() == '/' {
        without_trailing_slashes(s.drop_last())
    } else {
        s
    }
}

/// The request target: the normalized base followed by `path`.
pub open spec fn endpoint(base_url: Seq<char>, path: Seq<char>) -> Seq<char> {
    without_trailing_slashes(base_url) + path
}

/// Strips every trailing `/` from `base_url`.
pub fn normalize_base_url(base_url: &str) -> (normalized: String)
    ensures
        normalized@ == without_trailing_slashes(base_url@),
{
    let mut n: usize = base_url.unicode_len();
    assert(base_url@.subrange(0, n as int) =~= base_url@);
    while n > 0 && base_url.get_char(n - 1) == '/'
        invariant
            n <= base_url@.len(),
            without_trailing_slashes(base_url@) == without_trailing_slashes(
                base_url@.subrange(0, n as int),
            ),
        decreases n,
    {
        proof {
            let cur = base_url@.subrange(0, n as int);
            assert(cur.last() == '/');
            assert(cur.drop_last() =~= base_url@.subrange(0, n - 1));
        }
        n = n - 1;
    }
    proof {
        let cur = base_url@.subrange(0, n as int);
        assert(n > 0 ==> cur.last() == base_url@[n - 1]);
    }
    String::from_str(base_url.substring_char(0, n))
}

/// Joins the normalized `base_url` and `path`.
pub fn endpoint_url(base_url: &str, path: &str) -> (url: String)
    ensures
        url@ == endpoint(base_url@, path@),
{
    normalize_base_url(base_url).concat(path)
}

/// Where a chat completion is posted.
pub fn chat_completions_url(base_url: &str) -> (url: String)
    ensures
        url@ == endpoint(base_url@, "/chat/completions"@),
{
    endpoint_url(base_url, "/chat/completions")
}

/// Where the list of models is fetched.
pub fn models_url(base_url: &str) -> (url: String)
    ensures
        url@ == endpoint(base_url@, "/models"@),
{
    endpoint_url(base_url, "/models")
}

/// Where audio is posted for transcription.
pub fn transcriptions_url(base_url: &str) -> (url: String)
    ensures
        url@ == endpoint(base_url@, "/audio/transcriptions"@),
{
    endpoint_url(base_url, "/audio/transcriptions")
}

/// Normalizing never leaves a trailing `/`.
pub proof fn lemma_normalized_has_no_trailing_slash(s: Seq<char>)
    ensures
        without_trailing_slashes(s).len() > 0 ==> without_trailing_slashes(s).last() != '/',
        without_trailing_slashes(s).len() <= s.len(),
    decreases s.len(),
{
    if s.len() > 0 && s.last() == '/' {
        lemma_normalized_has_no_trailing_slash(s.drop_last());
    }
}

/// Normalizing twice is normalizing once.
pub proof fn lemma_normalize_idempotent(s: Seq<char>)
    ensures
        without_trailing_slashes(without_trailing_slashes(s)) == without_trailing_slashes(s),
{
    lemma_normalized_has_no_trailing_slash(s);
}

/// A base URL written with one more trailing `/` names the same request target.
pub proof fn lemma_trailing_slash_is_ignored(base_url: Seq<char>, path: Seq<char>)
    ensures
        endpoint(base_url.push('/'), path) == endpoint(base_url, path),
{
    assert(base_url.push('/').drop_last() =~= base_url);
}

} // verus!
