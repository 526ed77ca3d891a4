use opengrok_core::endpoint::{META_API_BASE_URL, META_API_KEY_ENV};
use opengrok_core::fingerprint::credential_fingerprint;
use opengrok_core::meta_models::{
    body_to_read, MetaModelsClient, MetaModelsError, MetaModelsResponse, MetaWireModel,
    ModelsReply, ResponseBody, META_MODELS_REQUEST_TIMEOUT_SECS,
};
use opengrok_core::model_entry::{
    curated_meta_models, curated_model_entry, meta_reasoning_efforts, ApiBackend, EnvKeys,
    ModelProvider, ReasoningEffort, ToolMode,
};

fn wire(ids: &[&str]) -> MetaModelsResponse {
    MetaModelsResponse {
        data: ids
            .iter()
            .map(|id| MetaWireModel {
                id: (*id).to_owned(),
            })
            .collect(),
    }
}

fn client(base_url: &str) -> MetaModelsClient {
    MetaModelsClient::with_base_url(base_url.to_owned())
}

fn text(value: &str) -> Option<String> {
    Some(value.to_owned())
}

fn keys(client: &MetaModelsClient, ids: &[&str]) -> Vec<String> {
    let catalog = client.catalog_from_wire(wire(ids), "key");
    catalog.entries().keys().cloned().collect()
}

#[test]
fn wire_catalog_preserves_curated_capabilities() {
    let client = MetaModelsClient::with_base_url(META_API_BASE_URL.to_owned());
    let catalog = client.catalog_from_wire(
        MetaModelsResponse {
            data: vec![
                MetaWireModel {
                    id: "muse-spark-1.2".to_owned(),
                },
                MetaWireModel {
                    id: "muse-spark-1.1".to_owned(),
                },
                MetaWireModel {
                    id: "muse-spark-1.2-contributor".to_owned(),
                },
                MetaWireModel {
                    id: "future-unknown".to_owned(),
                },
            ],
        },
        "catalog-key",
    );
    let entries = catalog.entries();
    assert_eq!(entries.len(), 3);
    let model = &entries["meta:muse-spark-1.2"];
    assert_eq!(model.info.provider, ModelProvider::Meta);
    assert_eq!(model.info.api_backend, ApiBackend::Responses);
    assert_eq!(model.info.context_window, 1_000_000);
    assert!(model.info.supports_backend_search);
    assert_eq!(model.info.reasoning_effort, Some(ReasoningEffort::Medium));
    assert_eq!(
        model
            .info
            .reasoning_efforts
            .iter()
            .map(|option| option.value)
            .collect::<Vec<_>>(),
        vec![
            ReasoningEffort::Low,
            ReasoningEffort::Medium,
            ReasoningEffort::High,
            ReasoningEffort::Xhigh
        ]
    );
    assert_eq!(
        model.env_key.as_ref().and_then(EnvKeys::primary),
        Some(META_API_KEY_ENV)
    );
}

#[test]
fn catalog_keeps_the_curated_order() {
    let client = client(META_API_BASE_URL);
    assert_eq!(
        keys(
            &client,
            &[
                "muse-spark-1.2-contributor",
                "other",
                " muse-spark-1.2\n",
                "muse-spark-1.2",
                "",
            ]
        ),
        vec!["meta:muse-spark-1.2", "meta:muse-spark-1.2-contributor"]
    );
    assert_eq!(
        keys(&client, &["muse-spark-1.2", "muse-spark-1.2-contributor"]),
        vec!["meta:muse-spark-1.2", "meta:muse-spark-1.2-contributor"]
    );
    assert_eq!(
        keys(&client, &["muse-spark-1.1", "MUSE-SPARK-1.2"]),
        vec!["meta:muse-spark-1.1"]
    );
}

#[test]
fn catalog_without_curated_models_is_not_authoritative() {
    let client = client(META_API_BASE_URL);
    assert!(!client
        .catalog_from_wire(wire(&["other", " "]), "key")
        .is_authoritative());
    assert!(!client.catalog_from_wire(wire(&[]), "key").is_authoritative());
    assert!(client
        .catalog_from_wire(wire(&["muse-spark-1.1"]), "key")
        .is_authoritative());
}

#[test]
fn entry_describes_the_curated_model() {
    let models = curated_meta_models();
    let entry = curated_model_entry(&models[1], "https://proxy.example/v1//");
    assert_eq!(entry.info.id.as_deref(), Some("meta:muse-spark-1.1"));
    assert_eq!(entry.info.model, "muse-spark-1.1");
    assert_eq!(entry.info.base_url, "https://proxy.example/v1");
    assert_eq!(entry.info.name.as_deref(), Some("Muse Spark 1.1"));
    assert_eq!(
        entry.info.description.as_deref(),
        Some("Meta's Muse Spark 1.1 multimodal reasoning model")
    );
    assert_eq!(entry.info.tool_mode, Some(ToolMode::Direct));
    assert!(entry.info.supports_reasoning_effort);
    assert!(entry.info.supported_in_api);
    assert!(entry.api_key.is_none());
    assert!(entry.auth_provider.is_none());
    assert!(entry.api_base_url.is_none());
    assert_eq!(models[0].name, "Muse Spark 1.2");
    assert_eq!(
        models[0].description,
        "Meta's Muse Spark 1.2 agentic reasoning model"
    );
    assert_eq!(models[2].name, "Muse Spark 1.2 Contributor");
    assert_eq!(
        models[2].description,
        "Meta's contributor-tuned Muse Spark 1.2 model"
    );
}

#[test]
fn curated_keys_are_prefixed_and_distinct() {
    let models = curated_meta_models();
    for model in models {
        assert_eq!(model.key, format!("meta:{}", model.slug));
    }
    assert_ne!(models[0].key, models[1].key);
    assert_ne!(models[0].key, models[2].key);
    assert_ne!(models[1].key, models[2].key);
}

#[test]
fn efforts_are_named_and_one_is_the_default() {
    let efforts = meta_reasoning_efforts();
    let shown: Vec<(&str, &str, &str, bool)> = efforts
        .iter()
        .map(|option| {
            (
                option.id.as_str(),
                option.label.as_str(),
                option.description.as_deref().unwrap_or(""),
                option.default,
            )
        })
        .collect();
    assert_eq!(
        shown,
        vec![
            ("low", "Low", "Faster responses with lighter reasoning", false),
            (
                "medium",
                "Medium",
                "Balanced reasoning depth for everyday tasks",
                true
            ),
            (
                "high",
                "High",
                "Greater reasoning depth for complex problems",
                false
            ),
            (
                "xhigh",
                "XHigh",
                "Extra-high reasoning depth for difficult tasks",
                false
            ),
        ]
    );
}

#[test]
fn environment_names_have_a_first_one() {
    assert_eq!(EnvKeys::single("NAME").primary(), Some("NAME"));
    assert_eq!(EnvKeys { names: Vec::new() }.primary(), None);
}

#[test]
fn clones_hold_the_same_entries() {
    let client = client(META_API_BASE_URL);
    let catalog = client.catalog_from_wire(wire(&["muse-spark-1.2"]), "key");
    let copy = catalog.clone();
    assert_eq!(
        format!("{:?}", copy.entries()),
        format!("{:?}", catalog.entries())
    );
    assert!(client
        .clone()
        .catalog_matches_current_credential(&copy, text("key"), None));
}

#[test]
fn fingerprint_is_the_hash_in_hexadecimal() {
    assert_eq!(
        credential_fingerprint(""),
        "af1349b9f5f9a1a6a0404dea36dcc9499bcb25c9adc112b7cc9a93cae41f3262"
    );
    assert_ne!(credential_fingerprint("a"), credential_fingerprint("b"));
    assert_eq!(credential_fingerprint("a").len(), 64);
}

#[test]
fn catalog_is_current_for_its_own_key_only() {
    let client = client(META_API_BASE_URL);
    let catalog = client.catalog_from_wire(wire(&["muse-spark-1.2"]), "key");
    assert!(client.catalog_matches_current_credential(&catalog, text(" key "), None));
    assert!(client.catalog_matches_current_credential(&catalog, None, text("key")));
    assert!(!client.catalog_matches_current_credential(&catalog, text("other"), text("key")));
    assert!(!client.catalog_matches_current_credential(&catalog, None, None));
    let proxy = MetaModelsClient::with_base_url("https://proxy.example/v1".to_owned());
    assert!(!proxy.catalog_matches_current_credential(&catalog, None, text("key")));
}

#[test]
fn request_carries_the_key_as_its_bearer_token() {
    let client = client("http://127.0.0.1:8080/");
    let request = client.query_with_key("meta-query-canary");
    assert_eq!(request.url, "http://127.0.0.1:8080/models");
    assert_eq!(request.bearer_token, "meta-query-canary");
    assert_eq!(request.timeout_secs, 10);
    assert_eq!(META_MODELS_REQUEST_TIMEOUT_SECS, 10);
}

#[test]
fn nothing_is_asked_without_a_key() {
    let client = MetaModelsClient::new(None);
    assert!(client.query(None, None).is_none());
    assert!(!client.has_usable_api_key(None, None));
    assert!(client.has_usable_api_key(None, text("stored")));
    let request = client.query(text(" key "), text("stored")).unwrap();
    assert_eq!(request.url, "https://api.meta.ai/v1/models");
    assert_eq!(request.bearer_token, "key");
    let proxy = MetaModelsClient::new(text("https://proxy.example/v1/"));
    assert!(proxy.query(None, text("stored")).is_none());
    assert!(!proxy.has_usable_api_key(None, text("stored")));
    assert_eq!(
        proxy.query(text("key"), None).unwrap().url,
        "https://proxy.example/v1/models"
    );
}

#[test]
fn only_a_success_is_read_as_models() {
    assert_eq!(body_to_read(199), ResponseBody::ErrorText);
    assert_eq!(body_to_read(200), ResponseBody::ModelList);
    assert_eq!(body_to_read(299), ResponseBody::ModelList);
    assert_eq!(body_to_read(300), ResponseBody::ErrorText);
    assert_eq!(body_to_read(401), ResponseBody::ErrorText);
}

#[test]
fn listed_models_conclude_a_request() {
    let client = client(META_API_BASE_URL);
    let request = client.query_with_key("meta-query-canary");
    let catalog = client
        .conclude(&request, ModelsReply::Listed(wire(&["muse-spark-1.2"])))
        .unwrap();
    assert!(catalog.entries().contains_key("meta:muse-spark-1.2"));
    assert!(client.catalog_matches_current_credential(&catalog, text("meta-query-canary"), None));
}

#[test]
fn failures_are_told_without_the_key() {
    let client = client(META_API_BASE_URL);
    let request = client.query_with_key("meta-canary");
    let unreachable = client
        .conclude(&request, ModelsReply::Unreachable)
        .unwrap_err();
    assert!(matches!(
        unreachable,
        MetaModelsError::RequestFailed { .. }
    ));
    assert_eq!(
        unreachable.message(),
        "Meta models request to https://api.meta.ai/v1/models failed"
    );
    let refused = client
        .conclude(
            &request,
            ModelsReply::Refused {
                status: "401 Unauthorized".to_owned(),
                body: text("no meta-canary\nhere"),
            },
        )
        .unwrap_err();
    assert!(matches!(refused, MetaModelsError::Refused { .. }));
    assert_eq!(
        refused.message(),
        "Meta models request returned 401 Unauthorized: no [REDACTED] here"
    );
    let silent = client
        .conclude(
            &request,
            ModelsReply::Refused {
                status: "500 Internal Server Error".to_owned(),
                body: None,
            },
        )
        .unwrap_err();
    assert_eq!(
        silent.message(),
        "Meta models request returned 500 Internal Server Error: "
    );
    let malformed = client
        .conclude(&request, ModelsReply::Malformed)
        .unwrap_err();
    assert!(matches!(malformed, MetaModelsError::InvalidResponse));
    assert_eq!(malformed.message(), "Meta models response was invalid");
}

#[test]
fn trailing_slashes_make_no_difference() {
    let plain = client("https://proxy.example/v1");
    let slashed = client("https://proxy.example/v1/");
    assert_eq!(
        plain.query_with_key("key").url,
        slashed.query_with_key("key").url
    );
    assert_eq!(
        format!(
            "{:?}",
            plain
                .catalog_from_wire(wire(&["muse-spark-1.1"]), "key")
                .entries()
        ),
        format!(
            "{:?}",
            slashed
                .catalog_from_wire(wire(&["muse-spark-1.1"]), "key")
                .entries()
        )
    );
}
