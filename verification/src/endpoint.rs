//! Where Meta models are asked for, and which key may be sent there.

use crate::text::{
    is_white_space, law_nothing_is_left_of_white_space, law_trimmed_is_the_part_between,
    law_without_trailing_is_the_part_before, lemma_trimmed, lemma_trimmed_fixpoint,
    lemma_without_trailing, opt_view, trim_end_char, trimmed, without_trailing,
};
use vstd::prelude::*;

verus! {

/// The base URL that is used where none is configured.
pub const META_API_BASE_URL: &'static str = "https://api.meta.ai/v1";

/// The environment variable that names another base URL.
pub const META_API_BASE_URL_ENV: &'static str = "OPENGROK_META_API_BASE_URL";

/// The environment variable that holds the API key.
pub const META_API_KEY_ENV: &'static str = "META_API_KEY";

/// The scheme and the host of the URL that a text stands for, as `url::Url::parse`
/// reads it and `Url::scheme` and `Url::host_str` tell it; `None` where the text is
/// no absolute URL.
pub uninterp spec fn parsed_url(input: Seq<char>) -> Option<(Seq<char>, Option<Seq<char>>)>;

/// The scheme and the host of a URL, taken by their characters.
pub open spec fn origin_view(
    origin: Option<(String, Option<String>)>,
) -> Option<(Seq<char>, Option<Seq<char>>)> {
    match origin {
        Some((scheme, host)) => Some((scheme@, opt_view(host))),
        None => None,
    }
}

/// Calls `url::Url::parse`, and `Url::scheme` and `Url::host_str` on its result. The
/// contract gives the scheme and the host a name, and claims only that they depend
/// on the text alone.
#[verifier::external_body]
fn parse_url(input: &str) -> (res: Option<(String, Option<String>)>)
    ensures
        origin_view(res) == parsed_url(input@),
{
    match url::Url::parse(input) {
        Ok(url) => Some((url.scheme().to_owned(), url.host_str().map(str::to_owned))),
        Err(_) => None,
    }
}

/// Whether a URL with this scheme and host belongs to the provider.
pub open spec fn owned_origin(origin: Option<(Seq<char>, Option<Seq<char>>)>) -> bool {
    origin == Some(("https"@, Some("api.meta.ai"@)))
}

/// Whether stored keys may be sent to `base_url`.
pub open spec fn trusted_base_url(base_url: Seq<char>) -> bool {
    owned_origin(parsed_url(base_url))
}

/// Whether a URL with this scheme and host, `None` where there is no URL, belongs to
/// the provider.
pub fn is_owned_origin(origin: &Option<(String, Option<String>)>) -> (res: bool)
    ensures
        res == owned_origin(origin_view(*origin)),
{
    match origin {
        Some((scheme, Some(host))) => {
            scheme.as_str().eq("https") && host.as_str().eq("api.meta.ai")
        },
        _ => false,
    }
}

/// Whether `base_url` is an HTTPS URL on the provider's own host.
pub fn is_trusted_api_base_url(base_url: &str) -> (res: bool)
    ensures
        res == trusted_base_url(base_url@),
{
    is_owned_origin(&parse_url(base_url))
}

/// The base URL that a configured value stands for: the value without the white space
/// around it and the slashes that end it, or the default where nothing is left.
pub open spec fn effective_base_url(configured: Option<Seq<char>>) -> Seq<char> {
    match configured {
        Some(value) => {
            let url = without_trailing(trimmed(value), '/');
            if url.len() > 0 {
                url
            } else {
                META_API_BASE_URL@
            }
        },
        None => META_API_BASE_URL@,
    }
}

/// The base URL to use, where `configured` is the value of `META_API_BASE_URL_ENV`.
pub fn api_base_url(configured: Option<String>) -> (res: String)
    ensures
        res@ == effective_base_url(opt_view(configured)),
{
    if let Some(value) = configured {
        let url = trim_end_char(value.as_str().trim(), '/');
        if !url.is_empty() {
            return url.to_owned();
        }
    }
    META_API_BASE_URL.to_owned()
}

/// The key that a configured value stands for: the value without the white space
/// around it, where anything is left.
pub open spec fn effective_key(configured: Option<Seq<char>>) -> Option<Seq<char>> {
    match configured {
        Some(value) => if trimmed(value).len() > 0 {
            Some(trimmed(value))
        } else {
            None
        },
        None => None,
    }
}

/// The key of the environment, where `configured` is the value of `META_API_KEY_ENV`.
pub fn environment_api_key(configured: Option<String>) -> (res: Option<String>)
    ensures
        opt_view(res) == effective_key(opt_view(configured)),
{
    if let Some(value) = configured {
        let key = value.as_str().trim();
        if !key.is_empty() {
            return Some(key.to_owned());
        }
    }
    None
}

/// Whether the environment holds a key, where `configured` is the value of
/// `META_API_KEY_ENV`.
pub fn environment_api_key_is_configured(configured: Option<String>) -> (res: bool)
    ensures
        res == (effective_key(opt_view(configured)) is Some),
{
    environment_api_key(configured).is_some()
}

/// The key to send: that of the environment before the stored one, and the stored one
/// only to a trusted base URL.
pub open spec fn selected_key(
    trusted: bool,
    environment_key: Option<Seq<char>>,
    stored_key: Option<Seq<char>>,
) -> Option<Seq<char>> {
    if environment_key is Some {
        environment_key
    } else if trusted {
        stored_key
    } else {
        None
    }
}

/// The key to send to a base URL that is trusted or not.
pub fn select_api_key_when(
    trusted: bool,
    environment_key: Option<String>,
    stored_key: Option<String>,
) -> (res: Option<String>)
    ensures
        opt_view(res) == selected_key(trusted, opt_view(environment_key), opt_view(stored_key)),
{
    if environment_key.is_some() {
        environment_key
    } else if trusted {
        stored_key
    } else {
        None
    }
}

/// The key to send to `base_url`.
pub fn select_api_key(
    base_url: &str,
    environment_key: Option<String>,
    stored_key: Option<String>,
) -> (res: Option<String>)
    ensures
        opt_view(res) == selected_key(
            trusted_base_url(base_url@),
            opt_view(environment_key),
            opt_view(stored_key),
        ),
{
    let trusted = environment_key.is_none() && is_trusted_api_base_url(base_url);
    select_api_key_when(trusted, environment_key, stored_key)
}

/// The key to send to `base_url`, where `configured_key` is the value of
/// `META_API_KEY_ENV`.
pub open spec fn key_for_base_url(
    base_url: Seq<char>,
    configured_key: Option<Seq<char>>,
    stored_key: Option<Seq<char>>,
) -> Option<Seq<char>> {
    selected_key(trusted_base_url(base_url), effective_key(configured_key), stored_key)
}

/// The key to send to `base_url`, where `configured_key` is the value of
/// `META_API_KEY_ENV`.
pub fn api_key_for_base_url(
    base_url: &str,
    configured_key: Option<String>,
    stored_key: Option<String>,
) -> (res: Option<String>)
    ensures
        opt_view(res) == key_for_base_url(
            base_url@,
            opt_view(configured_key),
            opt_view(stored_key),
        ),
{
    select_api_key(base_url, environment_api_key(configured_key), stored_key)
}

/// A base URL that is not trusted gets the same key whatever is stored: a stored key
/// never leaves the provider's own host.
pub proof fn law_stored_key_stays_on_owned_host(
    base_url: Seq<char>,
    configured_key: Option<Seq<char>>,
    stored_key: Option<Seq<char>>,
)
    requires
        !trusted_base_url(base_url),
    ensures
        key_for_base_url(base_url, configured_key, stored_key) == effective_key(configured_key),
        key_for_base_url(base_url, configured_key, stored_key) == key_for_base_url(
            base_url,
            configured_key,
            None,
        ),
{
}

/// A key of the environment is sent to every base URL, before a stored one.
pub proof fn law_environment_key_comes_first(
    base_url: Seq<char>,
    configured_key: Option<Seq<char>>,
    stored_key: Option<Seq<char>>,
)
    requires
        effective_key(configured_key) is Some,
    ensures
        key_for_base_url(base_url, configured_key, stored_key) == effective_key(configured_key),
{
}

/// A trusted base URL has a key exactly where the environment or the store holds one.
pub proof fn law_trusted_host_uses_either_key(
    base_url: Seq<char>,
    configured_key: Option<Seq<char>>,
    stored_key: Option<Seq<char>>,
)
    requires
        trusted_base_url(base_url),
    ensures
        key_for_base_url(base_url, configured_key, stored_key) is Some <==> effective_key(
            configured_key,
        ) is Some || stored_key is Some,
{
}

/// A key of the environment is not empty and has no white space at its ends; reading
/// it again gives the same key.
pub proof fn law_environment_key_is_trimmed(configured: Option<Seq<char>>)
    ensures
        effective_key(configured) matches Some(key) ==> {
            &&& key.len() > 0
            &&& !is_white_space(key.first())
            &&& !is_white_space(key.last())
        },
        effective_key(effective_key(configured)) == effective_key(configured),
{
    if let Some(value) = configured {
        lemma_trimmed(value);
    }
}

/// The base URL is never empty and never ends with a slash.
pub proof fn law_base_url_is_never_blank(configured: Option<Seq<char>>)
    ensures
        effective_base_url(configured).len() > 0,
        effective_base_url(configured).last() != '/',
{
    reveal_strlit("https://api.meta.ai/v1");
    if let Some(value) = configured {
        lemma_without_trailing(trimmed(value), '/');
    }
}

/// Cleaning a base URL that is clean already changes nothing. A base URL that ends with
/// white space, left by a slash after it, is not.
pub proof fn law_base_url_settles(configured: Option<Seq<char>>)
    requires
        !is_white_space(effective_base_url(configured).last()),
    ensures
        effective_base_url(Some(effective_base_url(configured))) == effective_base_url(configured),
{
    let url = effective_base_url(configured);
    law_base_url_is_never_blank(configured);
    reveal_strlit("https://api.meta.ai/v1");
    if let Some(value) = configured {
        lemma_trimmed(value);
        lemma_without_trailing(trimmed(value), '/');
    }
    lemma_trimmed_fixpoint(url);
}

/// A key of the environment is the part of the configured value from its first to its last
/// character that is no white space, character for character.
pub proof fn law_environment_key_is_part_of_the_value(value: Seq<char>, a: int, c: int)
    requires
        0 <= a < c <= value.len(),
        forall|i: int| 0 <= i < a ==> is_white_space(#[trigger] value[i]),
        forall|i: int| c <= i < value.len() ==> is_white_space(#[trigger] value[i]),
        !is_white_space(value[a]),
        !is_white_space(value[c - 1]),
    ensures
        effective_key(Some(value)) == Some(value.subrange(a, c)),
{
    law_trimmed_is_the_part_between(value, a, c);
}

/// A configured value with no white space at its ends is itself the key of the environment.
pub proof fn law_clean_value_is_the_environment_key(value: Seq<char>)
    requires
        value.len() > 0,
        !is_white_space(value.first()),
        !is_white_space(value.last()),
    ensures
        effective_key(Some(value)) == Some(value),
{
    law_environment_key_is_part_of_the_value(value, 0, value.len() as int);
    assert(value.subrange(0, value.len() as int) =~= value);
}

/// There is no key of the environment where the value is missing or all white space.
pub proof fn law_no_environment_key_without_a_value(configured: Option<Seq<char>>)
    requires
        configured matches Some(value) ==> forall|i: int|
            0 <= i < value.len() ==> is_white_space(#[trigger] value[i]),
    ensures
        effective_key(configured) is None,
{
    if let Some(value) = configured {
        law_nothing_is_left_of_white_space(value);
    }
}

/// A configured key is sent to every base URL as it stands in the value, whatever is
/// stored.
pub proof fn law_configured_key_is_sent_as_it_is(
    base_url: Seq<char>,
    value: Seq<char>,
    stored_key: Option<Seq<char>>,
    a: int,
    c: int,
)
    requires
        0 <= a < c <= value.len(),
        forall|i: int| 0 <= i < a ==> is_white_space(#[trigger] value[i]),
        forall|i: int| c <= i < value.len() ==> is_white_space(#[trigger] value[i]),
        !is_white_space(value[a]),
        !is_white_space(value[c - 1]),
    ensures
        key_for_base_url(base_url, Some(value), stored_key) == Some(value.subrange(a, c)),
{
    law_environment_key_is_part_of_the_value(value, a, c);
}

/// Where no key is configured, the stored key is sent as it is to an HTTPS URL on the
/// provider's own host, and no key to any other.
pub proof fn law_stored_key_is_sent_as_it_is(
    base_url: Seq<char>,
    configured_key: Option<Seq<char>>,
    stored_key: Option<Seq<char>>,
)
    requires
        configured_key matches Some(value) ==> forall|i: int|
            0 <= i < value.len() ==> is_white_space(#[trigger] value[i]),
    ensures
        parsed_url(base_url) == Some(("https"@, Some("api.meta.ai"@))) ==> key_for_base_url(
            base_url,
            configured_key,
            stored_key,
        ) == stored_key,
        parsed_url(base_url) != Some(("https"@, Some("api.meta.ai"@))) ==> key_for_base_url(
            base_url,
            configured_key,
            stored_key,
        ) is None,
{
    law_no_environment_key_without_a_value(configured_key);
}

/// Which key is selected, whatever the keys are: that of the environment as it is; without
/// one the stored one as it is, where the base URL is trusted; and no other.
pub proof fn law_selected_key_is_one_of_the_two(
    environment_key: Option<Seq<char>>,
    stored_key: Option<Seq<char>>,
    key: Seq<char>,
)
    ensures
        selected_key(true, Some(key), stored_key) == Some(key),
        selected_key(false, Some(key), stored_key) == Some(key),
        selected_key(true, None, stored_key) == stored_key,
        selected_key(false, None, stored_key) is None,
        selected_key(true, environment_key, None) == environment_key,
{
}

/// An origin is owned exactly where its scheme and its host are, letter for letter, those
/// of the provider's API.
pub proof fn law_owned_origin_is_the_api_host(scheme: Seq<char>, host: Option<Seq<char>>)
    ensures
        owned_origin(Some((scheme, host))) <==> scheme == seq!['h', 't', 't', 'p', 's']
            && host == Some(seq!['a', 'p', 'i', '.', 'm', 'e', 't', 'a', '.', 'a', 'i']),
        !owned_origin(None),
{
    reveal_strlit("https");
    reveal_strlit("api.meta.ai");
    assert("https"@ =~= seq!['h', 't', 't', 'p', 's']);
    assert("api.meta.ai"@ =~= seq!['a', 'p', 'i', '.', 'm', 'e', 't', 'a', '.', 'a', 'i']);
}

/// A base URL is trusted exactly where it parses to the provider's scheme and host.
pub proof fn law_trust_is_read_off_the_parsed_url(base_url: Seq<char>)
    ensures
        trusted_base_url(base_url) <==> parsed_url(base_url) == Some(
            ("https"@, Some("api.meta.ai"@)),
        ),
{
}

/// A base URL is the part of the configured value between the white space before it and
/// the slashes and the white space after it, character for character; the default takes
/// its place only where that part is empty.
pub proof fn law_base_url_is_part_of_the_value(value: Seq<char>, a: int, b: int, c: int)
    requires
        0 <= a <= b <= c <= value.len(),
        a < c,
        forall|i: int| 0 <= i < a ==> is_white_space(#[trigger] value[i]),
        forall|i: int| c <= i < value.len() ==> is_white_space(#[trigger] value[i]),
        !is_white_space(value[a]),
        !is_white_space(value[c - 1]),
        forall|i: int| b <= i < c ==> #[trigger] value[i] == '/',
        a < b ==> value[b - 1] != '/',
    ensures
        a < b ==> effective_base_url(Some(value)) == value.subrange(a, b),
        a == b ==> effective_base_url(Some(value)) == "https://api.meta.ai/v1"@,
{
    law_trimmed_is_the_part_between(value, a, c);
    let inner = value.subrange(a, c);
    assert forall|i: int| b - a <= i < inner.len() implies #[trigger] inner[i] == '/' by {
        assert(inner[i] == value[i + a]);
    }
    law_without_trailing_is_the_part_before(inner, '/', b - a);
    assert(inner.subrange(0, b - a) =~= value.subrange(a, b));
}

/// A configured value with no white space at its ends and no slash at its end is itself
/// the base URL.
pub proof fn law_clean_value_is_the_base_url(value: Seq<char>)
    requires
        value.len() > 0,
        !is_white_space(value.first()),
        !is_white_space(value.last()),
        value.last() != '/',
    ensures
        effective_base_url(Some(value)) == value,
{
    let n = value.len() as int;
    law_base_url_is_part_of_the_value(value, 0, n, n);
    assert(value.subrange(0, n) =~= value);
}

/// The default is used where the value is missing or all white space.
pub proof fn law_default_base_url_without_a_value(configured: Option<Seq<char>>)
    requires
        configured matches Some(value) ==> forall|i: int|
            0 <= i < value.len() ==> is_white_space(#[trigger] value[i]),
    ensures
        effective_base_url(configured) == "https://api.meta.ai/v1"@,
{
    if let Some(value) = configured {
        law_nothing_is_left_of_white_space(value);
        lemma_without_trailing(trimmed(value), '/');
    }
}

} // verus!
