use opengrok_core::endpoint::{
    api_base_url, api_key_for_base_url, environment_api_key, environment_api_key_is_configured,
    is_owned_origin, is_trusted_api_base_url, select_api_key, select_api_key_when,
    META_API_BASE_URL, META_API_BASE_URL_ENV, META_API_KEY_ENV,
};

fn text(value: &str) -> Option<String> {
    Some(value.to_owned())
}

#[test]
fn trusted_hosts_are_provider_scoped() {
    assert!(is_trusted_api_base_url(META_API_BASE_URL));
    assert!(is_trusted_api_base_url("https://api.meta.ai/v1"));
    assert!(!is_trusted_api_base_url("http://api.meta.ai/v1"));
    assert!(!is_trusted_api_base_url("https://api.x.ai/v1"));
    assert!(!is_trusted_api_base_url("https://meta.example/v1"));
}

#[test]
fn stored_keys_never_leave_owned_hosts() {
    let stored = Some("meta-stored-secret".to_owned());
    assert_eq!(
        select_api_key(META_API_BASE_URL, None, stored.clone()).as_deref(),
        Some("meta-stored-secret")
    );
    assert_eq!(
        select_api_key("https://proxy.example/v1", None, stored),
        None
    );
    assert_eq!(
        select_api_key(
            "https://proxy.example/v1",
            Some("explicit-environment-secret".to_owned()),
            None,
        )
        .as_deref(),
        Some("explicit-environment-secret")
    );
}

#[test]
fn trust_is_read_off_the_parsed_url() {
    assert!(is_trusted_api_base_url("HTTPS://API.META.AI"));
    assert!(is_trusted_api_base_url("https://user@api.meta.ai:8443/v1"));
    assert!(!is_trusted_api_base_url("https://api.meta.ai.example/v1"));
    assert!(!is_trusted_api_base_url("https://api.meta.ai@proxy.example/v1"));
    assert!(!is_trusted_api_base_url("https://sub.api.meta.ai/v1"));
    assert!(!is_trusted_api_base_url("api.meta.ai/v1"));
    assert!(!is_trusted_api_base_url("https"));
    assert!(!is_trusted_api_base_url(""));
}

#[test]
fn only_https_on_the_own_host_is_owned() {
    assert!(is_owned_origin(&Some((
        "https".to_owned(),
        text("api.meta.ai")
    ))));
    assert!(!is_owned_origin(&Some((
        "http".to_owned(),
        text("api.meta.ai")
    ))));
    assert!(!is_owned_origin(&Some((
        "https".to_owned(),
        text("api.x.ai")
    ))));
    assert!(!is_owned_origin(&Some(("https".to_owned(), None))));
    assert!(!is_owned_origin(&None));
}

#[test]
fn environment_key_comes_before_the_stored_one() {
    assert_eq!(
        select_api_key(META_API_BASE_URL, text("environment"), text("stored")).as_deref(),
        Some("environment")
    );
    assert_eq!(
        select_api_key_when(true, text("environment"), text("stored")).as_deref(),
        Some("environment")
    );
    assert_eq!(
        select_api_key_when(true, None, text("stored")).as_deref(),
        Some("stored")
    );
    assert_eq!(select_api_key_when(false, None, text("stored")), None);
    assert_eq!(select_api_key_when(true, None, None), None);
}

#[test]
fn keys_are_trimmed_before_they_are_chosen() {
    assert_eq!(
        api_key_for_base_url("https://proxy.example/v1", text(" key\n"), text("stored")).as_deref(),
        Some("key")
    );
    assert_eq!(
        api_key_for_base_url("https://proxy.example/v1", text(" \t"), text("stored")),
        None
    );
    assert_eq!(
        api_key_for_base_url(META_API_BASE_URL, text(" \t"), text("stored")).as_deref(),
        Some("stored")
    );
}

#[test]
fn blank_environment_keys_do_not_count() {
    assert_eq!(environment_api_key(text("\u{3000}key\u{a0}")).as_deref(), Some("key"));
    assert_eq!(environment_api_key(text("")), None);
    assert_eq!(environment_api_key(text(" \r\n\u{b}\u{2028}")), None);
    assert_eq!(environment_api_key(text("\u{200b}")).as_deref(), Some("\u{200b}"));
    assert_eq!(environment_api_key(None), None);
    assert!(environment_api_key_is_configured(text("key")));
    assert!(!environment_api_key_is_configured(text("  ")));
    assert!(!environment_api_key_is_configured(None));
}

#[test]
fn white_space_is_what_unicode_says() {
    for code in 0..0x11_0000_u32 {
        if let Some(c) = char::from_u32(code) {
            let white = matches!(code,
                0x9..=0xd | 0x20 | 0x85 | 0xa0 | 0x1680 | 0x2000..=0x200a
                | 0x2028 | 0x2029 | 0x202f | 0x205f | 0x3000);
            assert_eq!(c.is_whitespace(), white, "{:x}", code);
        }
    }
}

#[test]
fn base_url_is_cleaned_or_the_default() {
    assert_eq!(META_API_BASE_URL, "https://api.meta.ai/v1");
    assert_eq!(META_API_BASE_URL_ENV, "OPENGROK_META_API_BASE_URL");
    assert_eq!(META_API_KEY_ENV, "META_API_KEY");
    assert_eq!(api_base_url(None), META_API_BASE_URL);
    assert_eq!(api_base_url(text("")), META_API_BASE_URL);
    assert_eq!(api_base_url(text(" // ")), META_API_BASE_URL);
    assert_eq!(
        api_base_url(text(" https://proxy.example/v1// ")),
        "https://proxy.example/v1"
    );
    assert_eq!(api_base_url(text("a /")), "a ");
    assert_eq!(api_base_url(text("/a")), "/a");
}

#[test]
fn a_clean_base_url_stays_as_it_is() {
    let clean = api_base_url(text(" https://proxy.example/v1/ "));
    assert_eq!(api_base_url(Some(clean.clone())), clean);
    let loose = api_base_url(text("a /"));
    assert_eq!(api_base_url(Some(loose)), "a");
}
