//! The models that the provider offers, and how each is described to a session.

use crate::endpoint::META_API_KEY_ENV;
use crate::text::{
    copy_opt, law_without_trailing_is_the_part_before, opt_view, trim_end_char, without_trailing,
};
use vstd::prelude::*;

verus! {

/// A model that is known by name, with what is shown of it.
#[derive(Clone, Copy, Debug)]
pub struct CuratedMetaModel {
    pub key: &'static str,
    pub slug: &'static str,
    pub name: &'static str,
    pub description: &'static str,
}

/// The models that are offered where the provider lists them, in the order in which
/// they are shown.
pub open spec fn curated_models() -> Seq<CuratedMetaModel> {
    seq![
        CuratedMetaModel {
            key: "meta:muse-spark-1.2",
            slug: "muse-spark-1.2",
            name: "Muse Spark 1.2",
            description: "Meta's Muse Spark 1.2 agentic reasoning model",
        },
        CuratedMetaModel {
            key: "meta:muse-spark-1.1",
            slug: "muse-spark-1.1",
            name: "Muse Spark 1.1",
            description: "Meta's Muse Spark 1.1 multimodal reasoning model",
        },
        CuratedMetaModel {
            key: "meta:muse-spark-1.2-contributor",
            slug: "muse-spark-1.2-contributor",
            name: "Muse Spark 1.2 Contributor",
            description: "Meta's contributor-tuned Muse Spark 1.2 model",
        },
    ]
}

/// The models that are offered where the provider lists them, in the order in which
/// they are shown.
pub fn curated_meta_models() -> (res: [CuratedMetaModel; 3])
    ensures
        res@ == curated_models(),
{
    let res = [
        CuratedMetaModel {
            key: "meta:muse-spark-1.2",
            slug: "muse-spark-1.2",
            name: "Muse Spark 1.2",
            description: "Meta's Muse Spark 1.2 agentic reasoning model",
        },
        CuratedMetaModel {
            key: "meta:muse-spark-1.1",
            slug: "muse-spark-1.1",
            name: "Muse Spark 1.1",
            description: "Meta's Muse Spark 1.1 multimodal reasoning model",
        },
        CuratedMetaModel {
            key: "meta:muse-spark-1.2-contributor",
            slug: "muse-spark-1.2-contributor",
            name: "Muse Spark 1.2 Contributor",
            description: "Meta's contributor-tuned Muse Spark 1.2 model",
        },
    ];
    assert(res@ =~= curated_models());
    res
}

/// The protocol by which a model is asked.
#[derive(Clone, Copy, Debug, PartialEq, Eq, Structural)]
pub enum ApiBackend {
    Responses,
}

/// The company that serves a model.
#[derive(Clone, Copy, Debug, PartialEq, Eq, Structural)]
pub enum ModelProvider {
    Meta,
}

/// How a model is given its tools.
#[derive(Clone, Copy, Debug, PartialEq, Eq, Structural)]
pub enum ToolMode {
    Direct,
}

/// How deeply a model is asked to reason.
#[derive(Clone, Copy, Debug, PartialEq, Eq, Structural)]
pub enum ReasoningEffort {
    Low,
    Medium,
    High,
    Xhigh,
}

impl ReasoningEffort {
    /// The name of the effort in requests.
    pub open spec fn id(self) -> Seq<char> {
        match self {
            ReasoningEffort::Low => "low"@,
            ReasoningEffort::Medium => "medium"@,
            ReasoningEffort::High => "high"@,
            ReasoningEffort::Xhigh => "xhigh"@,
        }
    }

    /// The name of the effort that is shown.
    pub open spec fn shown(self) -> Seq<char> {
        match self {
            ReasoningEffort::Low => "Low"@,
            ReasoningEffort::Medium => "Medium"@,
            ReasoningEffort::High => "High"@,
            ReasoningEffort::Xhigh => "XHigh"@,
        }
    }

    /// The name of the effort in requests.
    pub fn as_str(self) -> (res: &'static str)
        ensures
            res@ == self.id(),
    {
        match self {
            ReasoningEffort::Low => "low",
            ReasoningEffort::Medium => "medium",
            ReasoningEffort::High => "high",
            ReasoningEffort::Xhigh => "xhigh",
        }
    }

    /// The name of the effort that is shown.
    pub fn label(self) -> (res: &'static str)
        ensures
            res@ == self.shown(),
    {
        match self {
            ReasoningEffort::Low => "Low",
            ReasoningEffort::Medium => "Medium",
            ReasoningEffort::High => "High",
            ReasoningEffort::Xhigh => "XHigh",
        }
    }
}

/// One of the efforts that a user can choose for a model.
#[derive(Debug)]
pub struct ReasoningEffortOption {
    pub id: String,
    pub value: ReasoningEffort,
    pub label: String,
    pub description: Option<String>,
    pub default: bool,
}

/// An option, taken by its characters.
#[verifier::ext_equal]
pub struct ReasoningEffortOptionView {
    pub id: Seq<char>,
    pub value: ReasoningEffort,
    pub label: Seq<char>,
    pub description: Option<Seq<char>>,
    pub default: bool,
}

impl View for ReasoningEffortOption {
    type V = ReasoningEffortOptionView;

    open spec fn view(&self) -> ReasoningEffortOptionView {
        ReasoningEffortOptionView {
            id: self.id@,
            value: self.value,
            label: self.label@,
            description: opt_view(self.description),
            default: self.default,
        }
    }
}

impl Clone for ReasoningEffortOption {
    fn clone(&self) -> (res: Self)
        ensures
            res@ == self@,
    {
        ReasoningEffortOption {
            id: self.id.clone(),
            value: self.value,
            label: self.label.clone(),
            description: copy_opt(&self.description),
            default: self.default,
        }
    }
}

/// The options, each taken by its view.
pub open spec fn options_view(
    options: Seq<ReasoningEffortOption>,
) -> Seq<ReasoningEffortOptionView> {
    options.map_values(|option: ReasoningEffortOption| option@)
}

/// The option for an effort with this description.
pub open spec fn effort_option(
    value: ReasoningEffort,
    description: Seq<char>,
    default: bool,
) -> ReasoningEffortOptionView {
    ReasoningEffortOptionView {
        id: value.id(),
        value,
        label: value.shown(),
        description: Some(description),
        default,
    }
}

/// The efforts that the provider's models offer, from the lightest to the deepest.
pub open spec fn meta_efforts() -> Seq<ReasoningEffortOptionView> {
    seq![
        effort_option(ReasoningEffort::Low, "Faster responses with lighter reasoning"@, false),
        effort_option(
            ReasoningEffort::Medium,
            "Balanced reasoning depth for everyday tasks"@,
            true,
        ),
        effort_option(
            ReasoningEffort::High,
            "Greater reasoning depth for complex problems"@,
            false,
        ),
        effort_option(
            ReasoningEffort::Xhigh,
            "Extra-high reasoning depth for difficult tasks"@,
            false,
        ),
    ]
}

/// The option for an effort with this description.
fn new_effort_option(
    value: ReasoningEffort,
    description: &str,
    default: bool,
) -> (res: ReasoningEffortOption)
    ensures
        res@ == effort_option(value, description@, default),
{
    ReasoningEffortOption {
        id: value.as_str().to_owned(),
        value,
        label: value.label().to_owned(),
        description: Some(description.to_owned()),
        default,
    }
}

/// The efforts that the provider's models offer, from the lightest to the deepest.
pub fn meta_reasoning_efforts() -> (res: Vec<ReasoningEffortOption>)
    ensures
        options_view(res@) == meta_efforts(),
{
    let mut res: Vec<ReasoningEffortOption> = Vec::new();
    res.push(
        new_effort_option(ReasoningEffort::Low, "Faster responses with lighter reasoning", false),
    );
    res.push(
        new_effort_option(
            ReasoningEffort::Medium,
            "Balanced reasoning depth for everyday tasks",
            true,
        ),
    );
    res.push(
        new_effort_option(
            ReasoningEffort::High,
            "Greater reasoning depth for complex problems",
            false,
        ),
    );
    res.push(
        new_effort_option(
            ReasoningEffort::Xhigh,
            "Extra-high reasoning depth for difficult tasks",
            false,
        ),
    );
    assert(options_view(res@) =~= meta_efforts());
    res
}

/// The environment variables that may hold the key for a model, the first one before
/// the others.
#[derive(Debug)]
pub struct EnvKeys {
    pub names: Vec<String>,
}

impl View for EnvKeys {
    type V = Seq<Seq<char>>;

    open spec fn view(&self) -> Seq<Seq<char>> {
        self.names@.map_values(|name: String| name@)
    }
}

impl Clone for EnvKeys {
    fn clone(&self) -> (res: Self)
        ensures
            res@ == self@,
    {
        let mut names: Vec<String> = Vec::new();
        let mut i: usize = 0;
        while i < self.names.len()
            invariant
                i <= self.names.len(),
                names.len() == i,
                forall|j: int| 0 <= j < i ==> #[trigger] names@[j]@ == self.names@[j]@,
            decreases self.names.len() - i,
        {
            names.push(self.names[i].clone());
            i += 1;
        }
        let res = EnvKeys { names };
        assert(res@ =~= self@);
        res
    }
}

impl EnvKeys {
    /// One variable alone.
    pub fn single(name: &str) -> (res: EnvKeys)
        ensures
            res@ == seq![name@],
    {
        let mut names: Vec<String> = Vec::new();
        names.push(name.to_owned());
        let res = EnvKeys { names };
        assert(res@ =~= seq![name@]);
        res
    }

    /// The variable that comes first.
    pub fn primary(&self) -> (res: Option<&str>)
        ensures
            res is Some <==> self@.len() > 0,
            res matches Some(name) ==> name@ == self@.first(),
    {
        if self.names.len() > 0 {
            Some(self.names[0].as_str())
        } else {
            None
        }
    }
}

/// What a session knows of a model.
#[derive(Debug)]
pub struct ModelInfo {
    pub id: Option<String>,
    pub model: String,
    pub base_url: String,
    pub name: Option<String>,
    pub description: Option<String>,
    pub api_backend: ApiBackend,
    pub provider: ModelProvider,
    pub tool_mode: Option<ToolMode>,
    pub context_window: u64,
    pub supports_reasoning_effort: bool,
    pub reasoning_efforts: Vec<ReasoningEffortOption>,
    pub reasoning_effort: Option<ReasoningEffort>,
    pub supports_backend_search: bool,
    pub supported_in_api: bool,
}

/// What a session knows of a model, taken by its characters.
#[verifier::ext_equal]
pub struct ModelInfoView {
    pub id: Option<Seq<char>>,
    pub model: Seq<char>,
    pub base_url: Seq<char>,
    pub name: Option<Seq<char>>,
    pub description: Option<Seq<char>>,
    pub api_backend: ApiBackend,
    pub provider: ModelProvider,
    pub tool_mode: Option<ToolMode>,
    pub context_window: u64,
    pub supports_reasoning_effort: bool,
    pub reasoning_efforts: Seq<ReasoningEffortOptionView>,
    pub reasoning_effort: Option<ReasoningEffort>,
    pub supports_backend_search: bool,
    pub supported_in_api: bool,
}

impl View for ModelInfo {
    type V = ModelInfoView;

    open spec fn view(&self) -> ModelInfoView {
        ModelInfoView {
            id: opt_view(self.id),
            model: self.model@,
            base_url: self.base_url@,
            name: opt_view(self.name),
            description: opt_view(self.description),
            api_backend: self.api_backend,
            provider: self.provider,
            tool_mode: self.tool_mode,
            context_window: self.context_window,
            supports_reasoning_effort: self.supports_reasoning_effort,
            reasoning_efforts: options_view(self.reasoning_efforts@),
            reasoning_effort: self.reasoning_effort,
            supports_backend_search: self.supports_backend_search,
            supported_in_api: self.supported_in_api,
        }
    }
}

impl Clone for ModelInfo {
    fn clone(&self) -> (res: Self)
        ensures
            res@ == self@,
    {
        let mut efforts: Vec<ReasoningEffortOption> = Vec::new();
        let mut i: usize = 0;
        while i < self.reasoning_efforts.len()
            invariant
                i <= self.reasoning_efforts.len(),
                efforts.len() == i,
                forall|j: int|
                    0 <= j < i ==> #[trigger] efforts@[j]@ == self.reasoning_efforts@[j]@,
            decreases self.reasoning_efforts.len() - i,
        {
            efforts.push(self.reasoning_efforts[i].clone());
            i += 1;
        }
        assert(options_view(efforts@) =~= options_view(self.reasoning_efforts@));
        ModelInfo {
            id: copy_opt(&self.id),
            model: self.model.clone(),
            base_url: self.base_url.clone(),
            name: copy_opt(&self.name),
            description: copy_opt(&self.description),
            api_backend: self.api_backend,
            provider: self.provider,
            tool_mode: self.tool_mode,
            context_window: self.context_window,
            supports_reasoning_effort: self.supports_reasoning_effort,
            reasoning_efforts: efforts,
            reasoning_effort: self.reasoning_effort,
            supports_backend_search: self.supports_backend_search,
            supported_in_api: self.supported_in_api,
        }
    }
}

/// A model in a catalog: what is known of it, and where its key and its address come
/// from.
#[derive(Debug)]
pub struct ModelEntry {
    pub info: ModelInfo,
    pub api_key: Option<String>,
    pub env_key: Option<EnvKeys>,
    pub auth_provider: Option<String>,
    pub api_base_url: Option<String>,
}

/// A model in a catalog, taken by its characters.
#[verifier::ext_equal]
pub struct ModelEntryView {
    pub info: ModelInfoView,
    pub api_key: Option<Seq<char>>,
    pub env_key: Option<Seq<Seq<char>>>,
    pub auth_provider: Option<Seq<char>>,
    pub api_base_url: Option<Seq<char>>,
}

impl View for ModelEntry {
    type V = ModelEntryView;

    open spec fn view(&self) -> ModelEntryView {
        ModelEntryView {
            info: self.info@,
            api_key: opt_view(self.api_key),
            env_key: match self.env_key {
                Some(keys) => Some(keys@),
                None => None,
            },
            auth_provider: opt_view(self.auth_provider),
            api_base_url: opt_view(self.api_base_url),
        }
    }
}

impl Clone for ModelEntry {
    fn clone(&self) -> (res: Self)
        ensures
            res@ == self@,
    {
        ModelEntry {
            info: self.info.clone(),
            api_key: copy_opt(&self.api_key),
            env_key: match &self.env_key {
                Some(keys) => Some(keys.clone()),
                None => None,
            },
            auth_provider: copy_opt(&self.auth_provider),
            api_base_url: copy_opt(&self.api_base_url),
        }
    }
}

/// The number of tokens that the provider's models can take in.
pub const META_CONTEXT_WINDOW: u64 = 1_000_000;

/// The entry of a curated model that is served at `base_url`.
pub open spec fn curated_entry(curated: CuratedMetaModel, base_url: Seq<char>) -> ModelEntryView {
    ModelEntryView {
        info: ModelInfoView {
            id: Some(curated.key@),
            model: curated.slug@,
            base_url: without_trailing(base_url, '/'),
            name: Some(curated.name@),
            description: Some(curated.description@),
            api_backend: ApiBackend::Responses,
            provider: ModelProvider::Meta,
            tool_mode: Some(ToolMode::Direct),
            context_window: META_CONTEXT_WINDOW,
            supports_reasoning_effort: true,
            reasoning_efforts: meta_efforts(),
            reasoning_effort: Some(ReasoningEffort::Medium),
            supports_backend_search: true,
            supported_in_api: true,
        },
        api_key: None,
        env_key: Some(seq![META_API_KEY_ENV@]),
        auth_provider: None,
        api_base_url: None,
    }
}

/// The entry of a curated model that is served at `base_url`.
pub fn curated_model_entry(curated: &CuratedMetaModel, base_url: &str) -> (res: ModelEntry)
    ensures
        res@ == curated_entry(*curated, base_url@),
{
    ModelEntry {
        info: ModelInfo {
            id: Some(curated.key.to_owned()),
            model: curated.slug.to_owned(),
            base_url: trim_end_char(base_url, '/').to_owned(),
            name: Some(curated.name.to_owned()),
            description: Some(curated.description.to_owned()),
            api_backend: ApiBackend::Responses,
            provider: ModelProvider::Meta,
            tool_mode: Some(ToolMode::Direct),
            context_window: META_CONTEXT_WINDOW,
            supports_reasoning_effort: true,
            reasoning_efforts: meta_reasoning_efforts(),
            reasoning_effort: Some(ReasoningEffort::Medium),
            supports_backend_search: true,
            supported_in_api: true,
        },
        api_key: None,
        env_key: Some(EnvKeys::single(META_API_KEY_ENV)),
        auth_provider: None,
        api_base_url: None,
    }
}

/// No two curated models have the same key.
pub proof fn law_curated_keys_differ()
    ensures
        forall|i: int, j: int|
            0 <= i < j < curated_models().len() ==> #[trigger] curated_models()[i].key@
                != #[trigger] curated_models()[j].key@,
{
    reveal_strlit("meta:muse-spark-1.2");
    reveal_strlit("meta:muse-spark-1.1");
    reveal_strlit("meta:muse-spark-1.2-contributor");
    let models = curated_models();
    assert(models[0].key@[18] != models[1].key@[18]);
    assert(models[0].key@.len() != models[2].key@.len());
    assert(models[1].key@.len() != models[2].key@.len());
}

/// The key of a curated model is its name at the provider, after the provider's prefix.
pub proof fn law_curated_keys_are_prefixed_slugs(i: int)
    requires
        0 <= i < curated_models().len(),
    ensures
        curated_models()[i].key@ == "meta:"@ + curated_models()[i].slug@,
{
    reveal_strlit("meta:");
    reveal_strlit("meta:muse-spark-1.2");
    reveal_strlit("muse-spark-1.2");
    reveal_strlit("meta:muse-spark-1.1");
    reveal_strlit("muse-spark-1.1");
    reveal_strlit("meta:muse-spark-1.2-contributor");
    reveal_strlit("muse-spark-1.2-contributor");
    assert("meta:muse-spark-1.2"@ =~= "meta:"@ + "muse-spark-1.2"@);
    assert("meta:muse-spark-1.1"@ =~= "meta:"@ + "muse-spark-1.1"@);
    assert("meta:muse-spark-1.2-contributor"@ =~= "meta:"@ + "muse-spark-1.2-contributor"@);
}

/// Of the efforts that an entry offers, the one that it starts with is the default, and
/// no other is.
pub proof fn law_initial_effort_is_the_default(
    curated: CuratedMetaModel,
    base_url: Seq<char>,
    i: int,
)
    requires
        0 <= i < curated_entry(curated, base_url).info.reasoning_efforts.len(),
    ensures
        ({
            let info = curated_entry(curated, base_url).info;
            info.reasoning_efforts[i].default <==> info.reasoning_effort == Some(
                info.reasoning_efforts[i].value,
            )
        }),
        exists|j: int|
            0 <= j < curated_entry(curated, base_url).info.reasoning_efforts.len() && (
            #[trigger] curated_entry(curated, base_url).info.reasoning_efforts[j]).default,
{
    assert(meta_efforts()[1].default);
    assert(curated_entry(curated, base_url).info.reasoning_efforts[1].default);
}

/// An entry says of a curated model what is known of it, and of its address the base URL,
/// character for character, but for the slashes that end it. Everything else is the same
/// for every model and every base URL.
pub proof fn law_entry_describes_the_model(curated: CuratedMetaModel, base_url: Seq<char>, b: int)
    requires
        0 <= b <= base_url.len(),
        forall|i: int| b <= i < base_url.len() ==> #[trigger] base_url[i] == '/',
        b > 0 ==> base_url[b - 1] != '/',
    ensures
        ({
            let entry = curated_entry(curated, base_url);
            let info = entry.info;
            &&& info.id == Some(curated.key@)
            &&& info.model == curated.slug@
            &&& info.name == Some(curated.name@)
            &&& info.description == Some(curated.description@)
            &&& info.base_url == base_url.subrange(0, b)
            &&& info.api_backend is Responses
            &&& info.provider is Meta
            &&& info.tool_mode == Some(ToolMode::Direct)
            &&& info.context_window == 1_000_000
            &&& info.supports_reasoning_effort
            &&& info.reasoning_efforts.len() == 4
            &&& info.reasoning_effort == Some(ReasoningEffort::Medium)
            &&& info.supports_backend_search
            &&& info.supported_in_api
            &&& entry.api_key is None
            &&& entry.env_key == Some(seq!["META_API_KEY"@])
            &&& entry.auth_provider is None
            &&& entry.api_base_url is None
        }),
{
    law_without_trailing_is_the_part_before(base_url, '/', b);
}

/// The efforts go from the lightest to the deepest; each is named, in requests and to the
/// user, by its own name.
pub proof fn law_efforts_are_listed_in_order(i: int)
    requires
        0 <= i < 4,
    ensures
        meta_efforts().len() == 4,
        meta_efforts()[0].value == ReasoningEffort::Low,
        meta_efforts()[1].value == ReasoningEffort::Medium,
        meta_efforts()[2].value == ReasoningEffort::High,
        meta_efforts()[3].value == ReasoningEffort::Xhigh,
        meta_efforts()[i].id == meta_efforts()[i].value.id(),
        meta_efforts()[i].label == meta_efforts()[i].value.shown(),
        meta_efforts()[i].default <==> i == 1,
{
}

/// The view of an entry shows each of its fields as it is.
pub proof fn law_entry_view_shows_every_field(entry: ModelEntry)
    ensures
        entry@.info == entry.info@,
        entry.api_key matches Some(text) ==> entry@.api_key == Some(text@),
        entry.api_key is None ==> entry@.api_key is None,
        entry.env_key matches Some(keys) ==> entry@.env_key == Some(keys@),
        entry.env_key is None ==> entry@.env_key is None,
        entry.auth_provider matches Some(text) ==> entry@.auth_provider == Some(text@),
        entry.auth_provider is None ==> entry@.auth_provider is None,
        entry.api_base_url matches Some(text) ==> entry@.api_base_url == Some(text@),
        entry.api_base_url is None ==> entry@.api_base_url is None,
{
}

/// The view of what is known of a model shows each of its fields as it is.
pub proof fn law_info_view_shows_every_field(info: ModelInfo)
    ensures
        info.id matches Some(text) ==> info@.id == Some(text@),
        info.id is None ==> info@.id is None,
        info@.model == info.model@,
        info@.base_url == info.base_url@,
        info.name matches Some(text) ==> info@.name == Some(text@),
        info.name is None ==> info@.name is None,
        info.description matches Some(text) ==> info@.description == Some(text@),
        info.description is None ==> info@.description is None,
        info@.api_backend == info.api_backend,
        info@.provider == info.provider,
        info@.tool_mode == info.tool_mode,
        info@.context_window == info.context_window,
        info@.supports_reasoning_effort == info.supports_reasoning_effort,
        info@.reasoning_efforts.len() == info.reasoning_efforts@.len(),
        forall|i: int|
            0 <= i < info.reasoning_efforts@.len() ==> #[trigger] info@.reasoning_efforts[i]
                == info.reasoning_efforts@[i]@,
        info@.reasoning_effort == info.reasoning_effort,
        info@.supports_backend_search == info.supports_backend_search,
        info@.supported_in_api == info.supported_in_api,
{
}

/// The view of an option shows each of its fields as it is.
pub proof fn law_option_view_shows_every_field(option: ReasoningEffortOption)
    ensures
        option@.id == option.id@,
        option@.value == option.value,
        option@.label == option.label@,
        option.description matches Some(text) ==> option@.description == Some(text@),
        option.description is None ==> option@.description is None,
        option@.default == option.default,
{
}

/// The view of environment variables shows each name as it is, in their order.
pub proof fn law_env_view_shows_every_name(keys: EnvKeys)
    ensures
        keys@.len() == keys.names@.len(),
        forall|i: int| 0 <= i < keys.names@.len() ==> #[trigger] keys@[i] == keys.names@[i]@,
{
}

} // verus!
