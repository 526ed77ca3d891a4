//! The choice of an image generation service.

use crate::text::{
    ascii_lower, ascii_lowered, is_white_space, lemma_trimmed, trimmed, trimmed_end, trimmed_start,
};
use vstd::prelude::*;

verus! {

/// User-selected image generation service.
///
/// This is a routing decision only. Each provider keeps its own endpoint, credentials,
/// headers, and retry path.
#[derive(Debug, Clone, Copy, PartialEq, Eq, Structural)]
pub enum ImageGenerationProvider {
    Grok,
    OpenAi,
}

impl Default for ImageGenerationProvider {
    fn default() -> (res: Self)
        ensures
            res == ImageGenerationProvider::Grok,
    {
        ImageGenerationProvider::Grok
    }
}

impl ImageGenerationProvider {
    /// The name of the service in settings.
    pub open spec fn canonical(self) -> Seq<char> {
        match self {
            ImageGenerationProvider::Grok => "grok"@,
            ImageGenerationProvider::OpenAi => "openai"@,
        }
    }

    /// The service that a setting names, whatever its case and the white space around it.
    pub open spec fn named_by(value: Seq<char>) -> Option<ImageGenerationProvider> {
        let name = ascii_lowered(trimmed(value));
        if name == "grok"@ {
            Some(ImageGenerationProvider::Grok)
        } else if name == "openai"@ {
            Some(ImageGenerationProvider::OpenAi)
        } else {
            None
        }
    }

    /// The name of the service in settings.
    pub fn as_canonical(self) -> (res: &'static str)
        ensures
            res@ == self.canonical(),
    {
        match self {
            ImageGenerationProvider::Grok => "grok",
            ImageGenerationProvider::OpenAi => "openai",
        }
    }

    /// The service that a setting names, whatever its case and the white space around it.
    pub fn from_canonical(value: &str) -> (res: Option<Self>)
        ensures
            res == Self::named_by(value@),
    {
        let name = value.trim().to_ascii_lowercase();
        if name.as_str().eq("grok") {
            Some(ImageGenerationProvider::Grok)
        } else if name.as_str().eq("openai") {
            Some(ImageGenerationProvider::OpenAi)
        } else {
            None
        }
    }
}

/// The canonical name of a service names that service.
pub proof fn law_canonical_names_round_trip(provider: ImageGenerationProvider)
    ensures
        ImageGenerationProvider::named_by(provider.canonical()) == Some(provider),
{
    reveal_strlit("grok");
    reveal_strlit("openai");
    let name = provider.canonical();
    assert(trimmed(name) == name);
    assert(ascii_lowered(name) =~= name);
    assert("grok"@.len() != "openai"@.len());
}

/// A value names a service exactly where it is the service's canonical name, but for its
/// case and the white space around it.
pub proof fn law_named_only_by_the_canonical_name(
    value: Seq<char>,
    provider: ImageGenerationProvider,
)
    ensures
        ImageGenerationProvider::named_by(value) == Some(provider) <==> ascii_lowered(
            trimmed(value),
        ) == provider.canonical(),
{
    reveal_strlit("grok");
    reveal_strlit("openai");
    assert("grok"@.len() != "openai"@.len());
}

proof fn lemma_ascii_lower_again(c: char)
    ensures
        ascii_lower(ascii_lower(c)) == ascii_lower(c),
        is_white_space(ascii_lower(c)) == is_white_space(c),
{
}

proof fn lemma_trimmed_start_lowered(s: Seq<char>)
    ensures
        trimmed_start(ascii_lowered(s)) == ascii_lowered(trimmed_start(s)),
    decreases s.len(),
{
    if s.len() > 0 {
        lemma_ascii_lower_again(s.first());
        assert(ascii_lowered(s).drop_first() =~= ascii_lowered(s.drop_first()));
        lemma_trimmed_start_lowered(s.drop_first());
    }
}

proof fn lemma_trimmed_end_lowered(s: Seq<char>)
    ensures
        trimmed_end(ascii_lowered(s)) == ascii_lowered(trimmed_end(s)),
    decreases s.len(),
{
    if s.len() > 0 {
        lemma_ascii_lower_again(s.last());
        assert(ascii_lowered(s).drop_last() =~= ascii_lowered(s.drop_last()));
        lemma_trimmed_end_lowered(s.drop_last());
    }
}

/// Neither the case of a value nor the white space around it makes a difference.
pub proof fn law_case_and_white_space_make_no_difference(value: Seq<char>)
    ensures
        ImageGenerationProvider::named_by(trimmed(value)) == ImageGenerationProvider::named_by(
            value,
        ),
        ImageGenerationProvider::named_by(ascii_lowered(value))
            == ImageGenerationProvider::named_by(value),
{
    lemma_trimmed(value);
    lemma_trimmed_start_lowered(value);
    lemma_trimmed_end_lowered(trimmed_start(value));
    assert(ascii_lowered(ascii_lowered(trimmed(value))) =~= ascii_lowered(trimmed(value))) by {
        assert forall|i: int| 0 <= i < trimmed(value).len() implies ascii_lower(
            ascii_lower(#[trigger] trimmed(value)[i]),
        ) == ascii_lower(trimmed(value)[i]) by {
            lemma_ascii_lower_again(trimmed(value)[i]);
        }
    }
}

/// A value names a service exactly where it is, but for its ASCII case and the white space
/// around it, "grok" or "openai": any other names none.
pub proof fn law_services_have_these_names_alone(value: Seq<char>)
    ensures
        ImageGenerationProvider::named_by(value) == Some(ImageGenerationProvider::Grok)
            <==> ascii_lowered(trimmed(value)) == "grok"@,
        ImageGenerationProvider::named_by(value) == Some(ImageGenerationProvider::OpenAi)
            <==> ascii_lowered(trimmed(value)) == "openai"@,
        ImageGenerationProvider::Grok.canonical() == "grok"@,
        ImageGenerationProvider::OpenAi.canonical() == "openai"@,
{
    reveal_strlit("grok");
    reveal_strlit("openai");
    assert("grok"@.len() != "openai"@.len());
}

} // verus!
