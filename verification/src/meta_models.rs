//! Discovery of Meta models: what is asked of the provider's API, and the catalog that
//! its answer gives.

use crate::endpoint::{
    api_base_url, api_key_for_base_url, effective_base_url, key_for_base_url,
    law_base_url_is_never_blank, trusted_base_url, META_API_KEY_ENV,
};
use crate::entry_map::{clone_map, has_key, insert_entry, map_entries, map_is_empty, new_map};
use crate::fingerprint::{
    blake3_hash, credential_fingerprint, fingerprint, law_fingerprint_covers_the_whole_key,
    lower_hex,
};
use crate::model_entry::{
    curated_entry, curated_meta_models, curated_model_entry, curated_models,
    law_curated_keys_differ, CuratedMetaModel, ModelEntry, ModelEntryView,
};
use crate::redaction::{error_excerpt, safe_error_excerpt};
use crate::text::{
    law_without_trailing_is_the_part_before, opt_view, trim_end_char, trimmed, without_trailing,
};
use indexmap::IndexMap;
use vstd::prelude::*;
use vstd::string::StringExecFns;
use vstd::utf8::encode_utf8;

verus! {

/// The models that the provider lists.
#[derive(Debug)]
pub struct MetaModelsResponse {
    pub data: Vec<MetaWireModel>,
}

/// A model that the provider lists.
#[derive(Debug)]
pub struct MetaWireModel {
    pub id: String,
}

/// Whether one of the listed models is `slug`, but for white space around it.
pub open spec fn lists(listed: Seq<MetaWireModel>, slug: Seq<char>) -> bool {
    exists|i: int| 0 <= i < listed.len() && trimmed(#[trigger] listed[i].id@) == slug
}

/// Whether a model is one of the listed ones.
pub open spec fn is_offered(listed: Seq<MetaWireModel>) -> spec_fn(CuratedMetaModel) -> bool {
    |model: CuratedMetaModel| lists(listed, model.slug@)
}

/// The key and the entry of a model that is served at `base_url`.
pub open spec fn keyed_entry(base_url: Seq<char>) -> spec_fn(CuratedMetaModel) -> (
    Seq<char>,
    ModelEntryView,
) {
    |model: CuratedMetaModel| (model.key@, curated_entry(model, base_url))
}

/// The entries of those of `models` that the provider lists, in the order of `models`.
pub open spec fn offered(
    models: Seq<CuratedMetaModel>,
    listed: Seq<MetaWireModel>,
    base_url: Seq<char>,
) -> Seq<(Seq<char>, ModelEntryView)> {
    models.filter(is_offered(listed)).map_values(keyed_entry(base_url))
}

/// Whether one of the listed models is `slug`, but for white space around it.
fn is_listed(listed: &Vec<MetaWireModel>, slug: &str) -> (res: bool)
    ensures
        res == lists(listed@, slug@),
{
    let mut i: usize = 0;
    while i < listed.len()
        invariant
            i <= listed.len(),
            forall|j: int| 0 <= j < i ==> trimmed(#[trigger] listed@[j].id@) != slug@,
        decreases listed.len() - i,
    {
        if listed[i].id.as_str().trim().eq(slug) {
            return true;
        }
        i += 1;
    }
    false
}

/// The models that the provider offers, as one credential sees them.
#[derive(Debug)]
pub struct MetaModelsCatalog {
    entries: IndexMap<String, ModelEntry>,
    credential_fingerprint: String,
}

impl MetaModelsCatalog {
    /// The keys and the entries of the models, in the order in which they are shown.
    pub closed spec fn models(&self) -> Seq<(Seq<char>, ModelEntryView)> {
        map_entries(self.entries)
    }

    /// The fingerprint of the credential that the catalog was asked for with.
    pub closed spec fn credential(&self) -> Seq<char> {
        self.credential_fingerprint@
    }

    /// A copy of the entries.
    pub fn entries(&self) -> (res: IndexMap<String, ModelEntry>)
        ensures
            map_entries(res) == self.models(),
    {
        clone_map(&self.entries)
    }

    /// Whether the catalog says anything: an empty one does not.
    pub fn is_authoritative(&self) -> (res: bool)
        ensures
            res == (self.models().len() > 0),
    {
        !map_is_empty(&self.entries)
    }
}

impl Clone for MetaModelsCatalog {
    fn clone(&self) -> (res: Self)
        ensures
            res.models() == self.models(),
            res.credential() == self.credential(),
    {
        MetaModelsCatalog {
            entries: clone_map(&self.entries),
            credential_fingerprint: self.credential_fingerprint.clone(),
        }
    }
}

/// Everything that `offered` gives is the key and the entry of one of `models` that is
/// listed.
proof fn lemma_offered_entry(
    models: Seq<CuratedMetaModel>,
    listed: Seq<MetaWireModel>,
    base_url: Seq<char>,
    i: int,
) -> (j: int)
    requires
        0 <= i < offered(models, listed, base_url).len(),
    ensures
        0 <= j < models.len(),
        offered(models, listed, base_url)[i] == (
            models[j].key@,
            curated_entry(models[j], base_url),
        ),
        lists(listed, models[j].slug@),
{
    let found = models.filter(is_offered(listed));
    models.lemma_filter_contains_rev(is_offered(listed), found[i]);
    models.lemma_filter_pred(is_offered(listed), i);
    choose|j: int| 0 <= j < models.len() && models[j] == found[i]
}

/// What one model more adds to the entries.
proof fn lemma_offered_next(
    models: Seq<CuratedMetaModel>,
    listed: Seq<MetaWireModel>,
    base_url: Seq<char>,
    i: int,
)
    requires
        0 <= i < models.len(),
    ensures
        offered(models.take(i + 1), listed, base_url) == if lists(listed, models[i].slug@) {
            offered(models.take(i), listed, base_url).push(
                (models[i].key@, curated_entry(models[i], base_url)),
            )
        } else {
            offered(models.take(i), listed, base_url)
        },
{
    reveal(Seq::filter);
    assert(models.take(i + 1).drop_last() =~= models.take(i));
    assert(offered(models.take(i + 1), listed, base_url) =~= if lists(listed, models[i].slug@) {
        offered(models.take(i), listed, base_url).push(
            (models[i].key@, curated_entry(models[i], base_url)),
        )
    } else {
        offered(models.take(i), listed, base_url)
    });
}

/// The time that a request for the models may take, in seconds.
pub const META_MODELS_REQUEST_TIMEOUT_SECS: u64 = 10;

/// A request for the models, to be sent with `GET` and the key as its bearer token.
#[derive(Debug)]
pub struct ModelsRequest {
    pub url: String,
    pub bearer_token: String,
    pub timeout_secs: u64,
}

/// The address at which an API lists its models.
pub open spec fn models_url(base_url: Seq<char>) -> Seq<char> {
    without_trailing(base_url, '/') + "/models"@
}

/// A request for the models, taken by its characters.
#[verifier::ext_equal]
pub struct ModelsRequestView {
    pub url: Seq<char>,
    pub bearer_token: Seq<char>,
    pub timeout_secs: u64,
}

impl View for ModelsRequest {
    type V = ModelsRequestView;

    open spec fn view(&self) -> ModelsRequestView {
        ModelsRequestView {
            url: self.url@,
            bearer_token: self.bearer_token@,
            timeout_secs: self.timeout_secs,
        }
    }
}

/// The request for the models of the API at `base_url` with `api_key`.
pub open spec fn models_request(base_url: Seq<char>, api_key: Seq<char>) -> ModelsRequestView {
    ModelsRequestView {
        url: models_url(base_url),
        bearer_token: api_key,
        timeout_secs: META_MODELS_REQUEST_TIMEOUT_SECS,
    }
}

/// The request for the models of the API at `base_url` with the key that is chosen for
/// it, `None` where there is no key.
pub open spec fn planned_request(
    base_url: Seq<char>,
    configured_key: Option<Seq<char>>,
    stored_key: Option<Seq<char>>,
) -> Option<ModelsRequestView> {
    match key_for_base_url(base_url, configured_key, stored_key) {
        Some(key) => Some(models_request(base_url, key)),
        None => None,
    }
}

/// What is to be read of a response.
#[derive(Clone, Copy, Debug, PartialEq, Eq, Structural)]
pub enum ResponseBody {
    /// The body as text, for an error message.
    ErrorText,
    /// The body as a list of models.
    ModelList,
}

/// What is to be read of a response with this status: the models where the status is a
/// success, and the text of the error where it is not.
pub fn body_to_read(status: u16) -> (res: ResponseBody)
    ensures
        res == if 200 <= status < 300 {
            ResponseBody::ModelList
        } else {
            ResponseBody::ErrorText
        },
{
    if 200 <= status && status < 300 {
        ResponseBody::ModelList
    } else {
        ResponseBody::ErrorText
    }
}

/// What came of a request for the models.
#[derive(Debug)]
pub enum ModelsReply {
    /// There was no response.
    Unreachable,
    /// The response was no success. The status is given as it is shown; the body is
    /// missing where it could not be read.
    Refused { status: String, body: Option<String> },
    /// The response was a success, and its body no list of models.
    Malformed,
    /// The response was a success.
    Listed(MetaModelsResponse),
}

/// Why a request for the models gave no catalog.
#[derive(Debug)]
pub enum MetaModelsError {
    RequestFailed { url: String },
    Refused { status: String, excerpt: String },
    InvalidResponse,
}

impl MetaModelsError {
    /// The text that tells a user of the error.
    pub open spec fn text(&self) -> Seq<char> {
        match self {
            MetaModelsError::RequestFailed { url } => "Meta models request to "@ + url@
                + " failed"@,
            MetaModelsError::Refused { status, excerpt } => "Meta models request returned "@
                + status@ + ": "@ + excerpt@,
            MetaModelsError::InvalidResponse => "Meta models response was invalid"@,
        }
    }

    /// The text that tells a user of the error.
    pub fn message(&self) -> (res: String)
        ensures
            res@ == self.text(),
            self matches MetaModelsError::RequestFailed { url } ==> res@
                == "Meta models request to "@ + url@ + " failed"@,
            self matches MetaModelsError::Refused { status, excerpt } ==> res@
                == "Meta models request returned "@ + status@ + ": "@ + excerpt@,
            self is InvalidResponse ==> res@ == "Meta models response was invalid"@,
    {
        match self {
            MetaModelsError::RequestFailed { url } => {
                let mut message = "Meta models request to ".to_owned();
                message.append(url.as_str());
                message.append(" failed");
                message
            },
            MetaModelsError::Refused { status, excerpt } => {
                let mut message = "Meta models request returned ".to_owned();
                message.append(status.as_str());
                message.append(": ");
                message.append(excerpt.as_str());
                message
            },
            MetaModelsError::InvalidResponse => "Meta models response was invalid".to_owned(),
        }
    }
}

/// The text of the body of a refusal: empty where it could not be read.
pub open spec fn body_text(body: Option<String>) -> Seq<char> {
    match body {
        Some(body) => body@,
        None => Seq::empty(),
    }
}

/// Whether `credential` is the fingerprint of `key`; without a key it is not.
pub open spec fn is_current(credential: Seq<char>, key: Option<Seq<char>>) -> bool {
    key matches Some(key) && fingerprint(key) == credential
}

/// A client of the provider's API at one base URL.
#[derive(Debug)]
pub struct MetaModelsClient {
    base_url: String,
}

impl Clone for MetaModelsClient {
    fn clone(&self) -> (res: Self)
        ensures
            res.base() == self.base(),
    {
        MetaModelsClient { base_url: self.base_url.clone() }
    }
}

impl MetaModelsClient {
    /// The base URL of the API.
    pub closed spec fn base(&self) -> Seq<char> {
        self.base_url@
    }

    /// A client of the API at the configured base URL, where `configured` is the value of
    /// `META_API_BASE_URL_ENV`.
    pub fn new(configured: Option<String>) -> (res: Self)
        ensures
            res.base() == effective_base_url(opt_view(configured)),
    {
        MetaModelsClient { base_url: api_base_url(configured) }
    }

    /// A client of the API at this base URL.
    pub fn with_base_url(base_url: String) -> (res: Self)
        ensures
            res.base() == base_url@,
    {
        MetaModelsClient { base_url }
    }

    /// The request for the models with `api_key`.
    pub fn query_with_key(&self, api_key: &str) -> (res: ModelsRequest)
        ensures
            res@ == models_request(self.base(), api_key@),
    {
        let mut url = trim_end_char(self.base_url.as_str(), '/').to_owned();
        url.append("/models");
        ModelsRequest {
            url,
            bearer_token: api_key.to_owned(),
            timeout_secs: META_MODELS_REQUEST_TIMEOUT_SECS,
        }
    }

    /// The request for the models, `None` where there is no key to send with it. Here and
    /// below `configured_key` is the value of `META_API_KEY_ENV`.
    pub fn query(&self, configured_key: Option<String>, stored_key: Option<String>) -> (res: Option<
        ModelsRequest,
    >)
        ensures
            match planned_request(self.base(), opt_view(configured_key), opt_view(stored_key)) {
                Some(request) => res matches Some(made) && made@ == request,
                None => res is None,
            },
    {
        match api_key_for_base_url(self.base_url.as_str(), configured_key, stored_key) {
            Some(key) => Some(self.query_with_key(key.as_str())),
            None => None,
        }
    }

    /// What a reply to `request` means: a catalog where the provider listed its models, and
    /// an error otherwise. An error that quotes the provider hides the key of the request.
    pub fn conclude(&self, request: &ModelsRequest, reply: ModelsReply) -> (res: Result<
        MetaModelsCatalog,
        MetaModelsError,
    >)
        ensures
            match reply {
                ModelsReply::Unreachable => res matches Err(MetaModelsError::RequestFailed { url })
                    && url@ == request.url@,
                ModelsReply::Refused { status, body } => res matches Err(
                    MetaModelsError::Refused { status: shown, excerpt },
                ) && shown@ == status@ && excerpt@ == error_excerpt(
                    body_text(body),
                    request.bearer_token@,
                ) && (body matches Some(text) ==> excerpt@ == error_excerpt(
                    text@,
                    request.bearer_token@,
                )) && (body is None ==> excerpt@ == error_excerpt(
                    Seq::empty(),
                    request.bearer_token@,
                )),
                ModelsReply::Malformed => res matches Err(MetaModelsError::InvalidResponse),
                ModelsReply::Listed(wire) => res matches Ok(catalog) && catalog.models() == offered(
                    curated_models(),
                    wire.data@,
                    self.base(),
                ) && catalog.credential() == fingerprint(request.bearer_token@),
            },
    {
        match reply {
            ModelsReply::Unreachable => Err(
                MetaModelsError::RequestFailed { url: request.url.clone() },
            ),
            ModelsReply::Refused { status, body } => {
                let body = match body {
                    Some(body) => body,
                    None => String::new(),
                };
                let excerpt = safe_error_excerpt(body.as_str(), request.bearer_token.as_str());
                Err(MetaModelsError::Refused { status, excerpt })
            },
            ModelsReply::Malformed => Err(MetaModelsError::InvalidResponse),
            ModelsReply::Listed(wire) => Ok(
                self.catalog_from_wire(wire, request.bearer_token.as_str()),
            ),
        }
    }

    /// Whether there is a key to send.
    pub fn has_usable_api_key(
        &self,
        configured_key: Option<String>,
        stored_key: Option<String>,
    ) -> (res: bool)
        ensures
            res == (key_for_base_url(
                self.base(),
                opt_view(configured_key),
                opt_view(stored_key),
            ) is Some),
    {
        api_key_for_base_url(self.base_url.as_str(), configured_key, stored_key).is_some()
    }

    /// Whether `catalog` was asked for with the key that would be sent now.
    pub fn catalog_matches_current_credential(
        &self,
        catalog: &MetaModelsCatalog,
        configured_key: Option<String>,
        stored_key: Option<String>,
    ) -> (res: bool)
        ensures
            res == is_current(
                catalog.credential(),
                key_for_base_url(self.base(), opt_view(configured_key), opt_view(stored_key)),
            ),
    {
        match api_key_for_base_url(self.base_url.as_str(), configured_key, stored_key) {
            Some(key) => credential_fingerprint(key.as_str()) == catalog.credential_fingerprint,
            None => false,
        }
    }

    /// The catalog that the provider's answer to a request with `api_key` gives: the
    /// curated models that it lists.
    pub fn catalog_from_wire(&self, wire: MetaModelsResponse, api_key: &str) -> (res:
        MetaModelsCatalog)
        ensures
            res.models() == offered(curated_models(), wire.data@, self.base()),
            res.credential() == fingerprint(api_key@),
            forall|i: int, j: int|
                #![trigger wire.data@[i], curated_models()[j]]
                0 <= i < wire.data@.len() && 0 <= j < curated_models().len() && trimmed(
                    wire.data@[i].id@,
                ) == curated_models()[j].slug@ ==> has_key(
                    res.models(),
                    curated_models()[j].key@,
                ),
            forall|key: Seq<char>| #[trigger]
                has_key(res.models(), key) ==> exists|i: int, j: int|
                    0 <= i < wire.data@.len() && 0 <= j < curated_models().len() && trimmed(
                        (#[trigger] wire.data@[i]).id@,
                    ) == (#[trigger] curated_models()[j]).slug@ && curated_models()[j].key@ == key,
            res.credential() == lower_hex(blake3_hash(encode_utf8(api_key@))),
    {
        let curated = curated_meta_models();
        let mut entries = new_map();
        let mut i: usize = 0;
        proof {
            reveal(Seq::filter);
            assert(map_entries(entries) =~= offered(
                curated_models().take(0),
                wire.data@,
                self.base(),
            ));
        }
        while i < 3
            invariant
                i <= 3,
                curated@ == curated_models(),
                map_entries(entries) == offered(
                    curated_models().take(i as int),
                    wire.data@,
                    self.base(),
                ),
            decreases 3 - i,
        {
            let model = &curated[i];
            proof {
                law_curated_keys_differ();
                lemma_offered_next(curated_models(), wire.data@, self.base(), i as int);
                if has_key(map_entries(entries), model.key@) {
                    let k = choose|k: int|
                        0 <= k < map_entries(entries).len() && (#[trigger] map_entries(
                            entries,
                        )[k]).0 == model.key@;
                    let j = lemma_offered_entry(
                        curated_models().take(i as int),
                        wire.data@,
                        self.base(),
                        k,
                    );
                    assert(curated_models()[j].key@ == curated_models()[i as int].key@);
                }
            }
            if is_listed(&wire.data, model.slug) {
                let key = model.key.to_owned();
                let entry = curated_model_entry(model, self.base_url.as_str());
                insert_entry(&mut entries, key, entry);
            }
            i += 1;
        }
        assert(curated_models().take(3) =~= curated_models());
        let res = MetaModelsCatalog {
            entries,
            credential_fingerprint: credential_fingerprint(api_key),
        };
        proof {
            let listed = wire.data@;
            assert forall|i: int, j: int|
                #![trigger listed[i], curated_models()[j]]
                0 <= i < listed.len() && 0 <= j < curated_models().len() && trimmed(listed[i].id@)
                    == curated_models()[j].slug@ implies has_key(
                res.models(),
                curated_models()[j].key@,
            ) by {
                law_listed_model_is_offered(listed, self.base(), i, j);
            }
            assert forall|key: Seq<char>| #[trigger] has_key(res.models(), key) implies exists|
                i: int,
                j: int,
            |
                0 <= i < listed.len() && 0 <= j < curated_models().len() && trimmed(
                    (#[trigger] listed[i]).id@,
                ) == (#[trigger] curated_models()[j]).slug@ && curated_models()[j].key@ == key by {
                let k = choose|k: int|
                    0 <= k < res.models().len() && (#[trigger] res.models()[k]).0 == key;
                law_offered_model_is_listed(listed, self.base(), k);
            }
        }
        res
    }
}

/// A catalog holds a key exactly where it is the key of a curated model that the
/// provider lists.
pub proof fn law_catalog_holds_the_listed_curated_models(
    listed: Seq<MetaWireModel>,
    base_url: Seq<char>,
    key: Seq<char>,
)
    ensures
        has_key(offered(curated_models(), listed, base_url), key) <==> exists|j: int|
            0 <= j < curated_models().len() && (#[trigger] curated_models()[j]).key@ == key
                && lists(listed, curated_models()[j].slug@),
{
    let models = curated_models();
    let entries = offered(models, listed, base_url);
    if has_key(entries, key) {
        let i = choose|i: int| 0 <= i < entries.len() && (#[trigger] entries[i]).0 == key;
        let j = lemma_offered_entry(models, listed, base_url, i);
        assert(models[j].key@ == key);
    }
    if exists|j: int|
        0 <= j < models.len() && (#[trigger] models[j]).key@ == key && lists(
            listed,
            models[j].slug@,
        ) {
        let j = choose|j: int|
            0 <= j < models.len() && (#[trigger] models[j]).key@ == key && lists(
                listed,
                models[j].slug@,
            );
        models.lemma_filter_contains(is_offered(listed), j);
        let found = models.filter(is_offered(listed));
        let i = choose|i: int| 0 <= i < found.len() && found[i] == models[j];
        assert(entries[i].0 == key);
    }
}

/// Every entry of a catalog describes a curated model that the provider lists, with all
/// that is known of the model.
pub proof fn law_catalog_preserves_curated_capabilities(
    listed: Seq<MetaWireModel>,
    base_url: Seq<char>,
    i: int,
)
    requires
        0 <= i < offered(curated_models(), listed, base_url).len(),
    ensures
        exists|j: int|
            0 <= j < curated_models().len() && lists(
                listed,
                (#[trigger] curated_models()[j]).slug@,
            ) && offered(curated_models(), listed, base_url)[i] == (
                curated_models()[j].key@,
                curated_entry(curated_models()[j], base_url),
            ),
{
    let j = lemma_offered_entry(curated_models(), listed, base_url, i);
    assert(lists(listed, curated_models()[j].slug@));
}

proof fn lemma_offered_order(
    models: Seq<CuratedMetaModel>,
    listed: Seq<MetaWireModel>,
    base_url: Seq<char>,
    n: int,
    i: int,
    k: int,
) -> (places: (int, int))
    requires
        0 <= n <= models.len(),
        0 <= i < k < offered(models.take(n), listed, base_url).len(),
    ensures
        0 <= places.0 < places.1 < n,
        offered(models.take(n), listed, base_url)[i].0 == models[places.0].key@,
        offered(models.take(n), listed, base_url)[k].0 == models[places.1].key@,
    decreases n,
{
    if n == 0 {
        models.take(0).lemma_filter_len(is_offered(listed));
        (0, 0)
    } else {
        lemma_offered_next(models, listed, base_url, n - 1);
        let before = offered(models.take(n - 1), listed, base_url);
        if k < before.len() {
            lemma_offered_order(models, listed, base_url, n - 1, i, k)
        } else {
            (lemma_offered_entry(models.take(n - 1), listed, base_url, i), n - 1)
        }
    }
}

/// The entries of a catalog stand in the order in which the models are curated.
pub proof fn law_catalog_keeps_the_curated_order(
    listed: Seq<MetaWireModel>,
    base_url: Seq<char>,
    i: int,
    k: int,
)
    requires
        0 <= i < k < offered(curated_models(), listed, base_url).len(),
    ensures
        exists|a: int, b: int|
            0 <= a < b < curated_models().len() && offered(
                curated_models(),
                listed,
                base_url,
            )[i].0 == (#[trigger] curated_models()[a]).key@ && offered(
                curated_models(),
                listed,
                base_url,
            )[k].0 == (#[trigger] curated_models()[b]).key@,
{
    let models = curated_models();
    let n = models.len() as int;
    assert(models.take(n) =~= models);
    let (a, b) = lemma_offered_order(models, listed, base_url, n, i, k);
    assert(models[a].key@ == offered(models, listed, base_url)[i].0);
    assert(models[b].key@ == offered(models, listed, base_url)[k].0);
}

/// What the catalog holds depends only on which curated models are listed: not on the
/// order of the list, on models that are not known, or on white space and repetition.
pub proof fn law_catalog_ignores_everything_but_curated_models(
    listed: Seq<MetaWireModel>,
    other: Seq<MetaWireModel>,
    base_url: Seq<char>,
)
    requires
        forall|j: int|
            0 <= j < curated_models().len() ==> lists(
                listed,
                (#[trigger] curated_models()[j]).slug@,
            ) == lists(other, curated_models()[j].slug@),
    ensures
        offered(curated_models(), listed, base_url) == offered(curated_models(), other, base_url),
{
    lemma_offered_same(listed, other, base_url, curated_models().len() as int);
    assert(curated_models().take(curated_models().len() as int) =~= curated_models());
}

proof fn lemma_offered_same(
    listed: Seq<MetaWireModel>,
    other: Seq<MetaWireModel>,
    base_url: Seq<char>,
    n: int,
)
    requires
        0 <= n <= curated_models().len(),
        forall|j: int|
            0 <= j < curated_models().len() ==> lists(
                listed,
                (#[trigger] curated_models()[j]).slug@,
            ) == lists(other, curated_models()[j].slug@),
    ensures
        offered(curated_models().take(n), listed, base_url) == offered(
            curated_models().take(n),
            other,
            base_url,
        ),
    decreases n,
{
    if n > 0 {
        lemma_offered_same(listed, other, base_url, n - 1);
        lemma_offered_next(curated_models(), listed, base_url, n - 1);
        lemma_offered_next(curated_models(), other, base_url, n - 1);
        assert(lists(listed, curated_models()[n - 1].slug@) == lists(
            other,
            curated_models()[n - 1].slug@,
        ));
    } else {
        reveal(Seq::filter);
    }
}

/// A catalog has entries exactly where the provider lists a curated model.
pub proof fn law_catalog_is_empty_without_curated_models(
    listed: Seq<MetaWireModel>,
    base_url: Seq<char>,
)
    ensures
        offered(curated_models(), listed, base_url).len() > 0 <==> exists|j: int|
            0 <= j < curated_models().len() && lists(
                listed,
                (#[trigger] curated_models()[j]).slug@,
            ),
{
    let models = curated_models();
    let entries = offered(models, listed, base_url);
    if entries.len() > 0 {
        let j = lemma_offered_entry(models, listed, base_url, 0);
        assert(lists(listed, models[j].slug@));
    }
    if exists|j: int| 0 <= j < models.len() && lists(listed, (#[trigger] models[j]).slug@) {
        let j = choose|j: int| 0 <= j < models.len() && lists(listed, (#[trigger] models[j]).slug@);
        models.lemma_filter_contains(is_offered(listed), j);
    }
}

/// No entry of a catalog holds a key: each names the environment variable instead.
pub proof fn law_catalog_holds_no_key(listed: Seq<MetaWireModel>, base_url: Seq<char>, i: int)
    requires
        0 <= i < offered(curated_models(), listed, base_url).len(),
    ensures
        offered(curated_models(), listed, base_url)[i].1.api_key is None,
        offered(curated_models(), listed, base_url)[i].1.env_key == Some(seq![META_API_KEY_ENV@]),
{
}

/// A catalog that was asked for with the key that is chosen now is current, and stays so
/// for every choice that gives the same key; where no key is chosen, no catalog is.
pub proof fn law_catalog_is_current_for_its_own_key(
    base_url: Seq<char>,
    configured_key: Option<Seq<char>>,
    stored_key: Option<Seq<char>>,
    api_key: Seq<char>,
)
    ensures
        key_for_base_url(base_url, configured_key, stored_key) == Some(api_key) ==> is_current(
            fingerprint(api_key),
            key_for_base_url(base_url, configured_key, stored_key),
        ),
        key_for_base_url(base_url, configured_key, stored_key) is None ==> !is_current(
            fingerprint(api_key),
            key_for_base_url(base_url, configured_key, stored_key),
        ),
{
}

/// A request is made exactly where there is a key to send, and carries that key.
pub proof fn law_request_carries_the_chosen_key(
    base_url: Seq<char>,
    configured_key: Option<Seq<char>>,
    stored_key: Option<Seq<char>>,
)
    ensures
        planned_request(base_url, configured_key, stored_key) is Some <==> key_for_base_url(
            base_url,
            configured_key,
            stored_key,
        ) is Some,
        planned_request(base_url, configured_key, stored_key) matches Some(request) ==> Some(
            request.bearer_token,
        ) == key_for_base_url(base_url, configured_key, stored_key),
{
}

/// What is asked of a base URL that is not trusted is the same whatever is stored.
pub proof fn law_request_elsewhere_ignores_the_stored_key(
    base_url: Seq<char>,
    configured_key: Option<Seq<char>>,
    stored_key: Option<Seq<char>>,
)
    requires
        !trusted_base_url(base_url),
    ensures
        planned_request(base_url, configured_key, stored_key) == planned_request(
            base_url,
            configured_key,
            None,
        ),
{
}

/// The models of a configured API are listed right under its base URL.
pub proof fn law_models_are_listed_under_the_base_url(configured: Option<Seq<char>>)
    ensures
        models_url(effective_base_url(configured)) == effective_base_url(configured) + "/models"@,
{
    law_base_url_is_never_blank(configured);
}

/// A slash at the end of a base URL changes neither the request nor the catalog.
pub proof fn law_trailing_slash_makes_no_difference(
    base_url: Seq<char>,
    listed: Seq<MetaWireModel>,
)
    ensures
        models_url(base_url.push('/')) == models_url(base_url),
        offered(curated_models(), listed, base_url.push('/')) == offered(
            curated_models(),
            listed,
            base_url,
        ),
{
    assert(base_url.push('/').drop_last() =~= base_url);
    assert(without_trailing(base_url.push('/'), '/') == without_trailing(base_url, '/'));
    assert(offered(curated_models(), listed, base_url.push('/')) =~= offered(
        curated_models(),
        listed,
        base_url,
    ));
}

/// Whatever its place in the list, a listed model whose trimmed id is the slug of a curated
/// model puts that model into the catalog, with its entry.
pub proof fn law_listed_model_is_offered(
    listed: Seq<MetaWireModel>,
    base_url: Seq<char>,
    i: int,
    j: int,
)
    requires
        0 <= i < listed.len(),
        0 <= j < curated_models().len(),
        trimmed(listed[i].id@) == curated_models()[j].slug@,
    ensures
        has_key(offered(curated_models(), listed, base_url), curated_models()[j].key@),
        offered(curated_models(), listed, base_url).contains(
            (curated_models()[j].key@, curated_entry(curated_models()[j], base_url)),
        ),
{
    let models = curated_models();
    let entries = offered(models, listed, base_url);
    models.lemma_filter_contains(is_offered(listed), j);
    let found = models.filter(is_offered(listed));
    let k = choose|k: int| 0 <= k < found.len() && found[k] == models[j];
    assert(entries[k] == (models[j].key@, curated_entry(models[j], base_url)));
}

/// Everything in a catalog is there because some listed model has the slug of a curated
/// model as its trimmed id.
pub proof fn law_offered_model_is_listed(listed: Seq<MetaWireModel>, base_url: Seq<char>, k: int)
    requires
        0 <= k < offered(curated_models(), listed, base_url).len(),
    ensures
        exists|i: int, j: int|
            0 <= i < listed.len() && 0 <= j < curated_models().len() && trimmed(
                (#[trigger] listed[i]).id@,
            ) == (#[trigger] curated_models()[j]).slug@ && offered(
                curated_models(),
                listed,
                base_url,
            )[k] == (curated_models()[j].key@, curated_entry(curated_models()[j], base_url)),
{
    let j = lemma_offered_entry(curated_models(), listed, base_url, k);
    let slug = curated_models()[j].slug@;
    let i = choose|i: int| 0 <= i < listed.len() && trimmed(#[trigger] listed[i].id@) == slug;
    assert(trimmed(listed[i].id@) == curated_models()[j].slug@);
}

/// The catalog of a list holds every key that the catalog of a part of the list holds,
/// wherever the models of the part stand in the list.
pub proof fn law_longer_list_offers_no_less(
    part: Seq<MetaWireModel>,
    listed: Seq<MetaWireModel>,
    base_url: Seq<char>,
    key: Seq<char>,
)
    requires
        forall|i: int|
            0 <= i < part.len() ==> exists|l: int|
                0 <= l < listed.len() && (#[trigger] listed[l]).id@ == (#[trigger] part[i]).id@,
        has_key(offered(curated_models(), part, base_url), key),
    ensures
        has_key(offered(curated_models(), listed, base_url), key),
{
    let entries = offered(curated_models(), part, base_url);
    let k = choose|k: int| 0 <= k < entries.len() && (#[trigger] entries[k]).0 == key;
    law_offered_model_is_listed(part, base_url, k);
    let (i, j) = choose|i: int, j: int|
        0 <= i < part.len() && 0 <= j < curated_models().len() && trimmed(
            (#[trigger] part[i]).id@,
        ) == (#[trigger] curated_models()[j]).slug@ && entries[k] == (
            curated_models()[j].key@,
            curated_entry(curated_models()[j], base_url),
        );
    let l = choose|l: int|
        0 <= l < listed.len() && (#[trigger] listed[l]).id@ == part[i].id@;
    law_listed_model_is_offered(listed, base_url, l, j);
}

/// A catalog has entries exactly where the trimmed id of some listed model is the slug of a
/// curated model.
pub proof fn law_catalog_has_entries_for_listed_ids(
    listed: Seq<MetaWireModel>,
    base_url: Seq<char>,
)
    ensures
        offered(curated_models(), listed, base_url).len() > 0 <==> exists|i: int, j: int|
            0 <= i < listed.len() && 0 <= j < curated_models().len() && trimmed(
                (#[trigger] listed[i]).id@,
            ) == (#[trigger] curated_models()[j]).slug@,
{
    let entries = offered(curated_models(), listed, base_url);
    if entries.len() > 0 {
        law_offered_model_is_listed(listed, base_url, 0);
    }
    if exists|i: int, j: int|
        0 <= i < listed.len() && 0 <= j < curated_models().len() && trimmed(
            (#[trigger] listed[i]).id@,
        ) == (#[trigger] curated_models()[j]).slug@ {
        let (i, j) = choose|i: int, j: int|
            0 <= i < listed.len() && 0 <= j < curated_models().len() && trimmed(
                (#[trigger] listed[i]).id@,
            ) == (#[trigger] curated_models()[j]).slug@;
        law_listed_model_is_offered(listed, base_url, i, j);
    }
}

/// A catalog that was asked for with one key is current for another exactly where the hash
/// does not tell the bytes of the two whole keys apart.
pub proof fn law_catalog_of_another_key_is_stale(api_key: Seq<char>, current: Seq<char>)
    ensures
        is_current(fingerprint(api_key), Some(current)) <==> blake3_hash(encode_utf8(api_key))
            == blake3_hash(encode_utf8(current)),
        !is_current(fingerprint(api_key), None),
{
    law_fingerprint_covers_the_whole_key(api_key, current);
}

/// The models are listed under the base URL, character for character, but for the slashes
/// that end it.
pub proof fn law_models_url_extends_the_base_url(base_url: Seq<char>, b: int)
    requires
        0 <= b <= base_url.len(),
        forall|i: int| b <= i < base_url.len() ==> #[trigger] base_url[i] == '/',
        b > 0 ==> base_url[b - 1] != '/',
    ensures
        models_url(base_url) == base_url.subrange(0, b) + "/models"@,
{
    law_without_trailing_is_the_part_before(base_url, '/', b);
}

/// A request goes to the address of the models, with the key as it is, and may take ten
/// seconds.
pub proof fn law_request_is_made_of_url_and_key(base_url: Seq<char>, api_key: Seq<char>, b: int)
    requires
        0 <= b <= base_url.len(),
        forall|i: int| b <= i < base_url.len() ==> #[trigger] base_url[i] == '/',
        b > 0 ==> base_url[b - 1] != '/',
    ensures
        models_request(base_url, api_key).url == base_url.subrange(0, b) + "/models"@,
        models_request(base_url, api_key).bearer_token == api_key,
        models_request(base_url, api_key).timeout_secs == 10,
{
    law_models_url_extends_the_base_url(base_url, b);
}

/// What is asked is the request with the key that is chosen, and nothing is asked without
/// one.
pub proof fn law_planned_request_is_the_request_with_the_key(
    base_url: Seq<char>,
    configured_key: Option<Seq<char>>,
    stored_key: Option<Seq<char>>,
)
    ensures
        key_for_base_url(base_url, configured_key, stored_key) matches Some(key)
            ==> planned_request(base_url, configured_key, stored_key) == Some(
            models_request(base_url, key),
        ),
        key_for_base_url(base_url, configured_key, stored_key) is None ==> planned_request(
            base_url,
            configured_key,
            stored_key,
        ) is None,
{
}

} // verus!
