use opengrok_core::image_generation_provider::ImageGenerationProvider;

#[test]
fn canonical_strings_round_trip() {
    assert_eq!(ImageGenerationProvider::Grok.as_canonical(), "grok");
    assert_eq!(ImageGenerationProvider::OpenAi.as_canonical(), "openai");
    assert_eq!(
        ImageGenerationProvider::from_canonical("grok"),
        Some(ImageGenerationProvider::Grok)
    );
    assert_eq!(
        ImageGenerationProvider::from_canonical(" OpenAI "),
        Some(ImageGenerationProvider::OpenAi)
    );
    assert_eq!(ImageGenerationProvider::from_canonical("imagine"), None);
}

#[test]
fn default_service_is_grok() {
    assert_eq!(
        ImageGenerationProvider::default(),
        ImageGenerationProvider::Grok
    );
}

#[test]
fn only_ascii_case_is_folded() {
    assert_eq!(
        ImageGenerationProvider::from_canonical("\u{2003}GROK\n"),
        Some(ImageGenerationProvider::Grok)
    );
    // The Kelvin sign is no ASCII capital.
    assert_eq!(ImageGenerationProvider::from_canonical("GRO\u{212a}"), None);
    assert_eq!(ImageGenerationProvider::from_canonical("open ai"), None);
    assert_eq!(ImageGenerationProvider::from_canonical(""), None);
    assert_eq!(ImageGenerationProvider::from_canonical("grokk"), None);
}
