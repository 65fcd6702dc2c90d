//! Names of AI generation tools and the text patterns that identify them.
use vstd::prelude::*;

use crate::text::{
    agrees_from, chars_of, contains_seq, find_chars, lemma_contains_iff_occurs, lowercase, occurs_from, to_lowercase,
};

verus! {

/// Number of entries in the tool table.
pub const TOOL_COUNT: usize = 48;

/// The tool table: a lowercase pattern and the tool it identifies. Earlier
/// entries take precedence over later ones.
pub open spec fn tool_table() -> Seq<(Seq<char>, Seq<char>)> {
    seq![
        ("dall-e"@, "dall-e"@),
        ("dalle"@, "dall-e"@),
        ("midjourney"@, "midjourney"@),
        ("stable diffusion"@, "stable diffusion"@),
        ("stable-diffusion"@, "stable diffusion"@),
        ("stablediffusion"@, "stable diffusion"@),
        ("firefly"@, "adobe firefly"@),
        ("imagen"@, "imagen"@),
        ("flux"@, "flux"@),
        ("ideogram"@, "ideogram"@),
        ("leonardo.ai"@, "leonardo.ai"@),
        ("leonardo ai"@, "leonardo.ai"@),
        ("novelai"@, "novelai"@),
        ("sora"@, "sora"@),
        ("google veo"@, "google veo"@),
        ("runway"@, "runway"@),
        ("pika"@, "pika"@),
        ("kling"@, "kling"@),
        ("vidu"@, "vidu"@),
        ("gpt-4o"@, "gpt-4o"@),
        ("gpt image"@, "gpt image"@),
        ("gpt-image"@, "gpt image"@),
        ("gpt-4"@, "gpt-4"@),
        ("chatgpt"@, "chatgpt"@),
        ("openai"@, "openai"@),
        ("bing image creator"@, "bing image creator"@),
        ("copilot designer"@, "copilot designer"@),
        ("microsoft designer"@, "microsoft designer"@),
        ("canva ai"@, "canva ai"@),
        ("dreamstudio"@, "dreamstudio"@),
        ("nightcafe"@, "nightcafe"@),
        ("craiyon"@, "craiyon"@),
        ("deepai"@, "deepai"@),
        ("meta ai"@, "meta ai"@),
        ("stability ai"@, "stability ai"@),
        ("stability.ai"@, "stability ai"@),
        ("comfyui"@, "comfyui"@),
        ("automatic1111"@, "automatic1111"@),
        ("a1111"@, "automatic1111"@),
        ("invokeai"@, "invokeai"@),
        ("fooocus"@, "fooocus"@),
        ("glide"@, "glide"@),
        ("parti"@, "parti"@),
        ("muse"@, "muse"@),
        ("seedream"@, "seedream"@),
        ("recraft"@, "recraft"@),
        ("suno"@, "suno"@),
        ("elevenlabs"@, "elevenlabs"@)
    ]
}

/// Entry `i` of the tool table.
fn tool_entry(i: usize) -> (r: (&'static str, &'static str))
    requires
        i < TOOL_COUNT,
    ensures
        r.0@ == tool_table()[i as int].0,
        r.1@ == tool_table()[i as int].1,
{
    match i {
        0 => ("dall-e", "dall-e"),
        1 => ("dalle", "dall-e"),
        2 => ("midjourney", "midjourney"),
        3 => ("stable diffusion", "stable diffusion"),
        4 => ("stable-diffusion", "stable diffusion"),
        5 => ("stablediffusion", "stable diffusion"),
        6 => ("firefly", "adobe firefly"),
        7 => ("imagen", "imagen"),
        8 => ("flux", "flux"),
        9 => ("ideogram", "ideogram"),
        10 => ("leonardo.ai", "leonardo.ai"),
        11 => ("leonardo ai", "leonardo.ai"),
        12 => ("novelai", "novelai"),
        13 => ("sora", "sora"),
        14 => ("google veo", "google veo"),
        15 => ("runway", "runway"),
        16 => ("pika", "pika"),
        17 => ("kling", "kling"),
        18 => ("vidu", "vidu"),
        19 => ("gpt-4o", "gpt-4o"),
        20 => ("gpt image", "gpt image"),
        21 => ("gpt-image", "gpt image"),
        22 => ("gpt-4", "gpt-4"),
        23 => ("chatgpt", "chatgpt"),
        24 => ("openai", "openai"),
        25 => ("bing image creator", "bing image creator"),
        26 => ("copilot designer", "copilot designer"),
        27 => ("microsoft designer", "microsoft designer"),
        28 => ("canva ai", "canva ai"),
        29 => ("dreamstudio", "dreamstudio"),
        30 => ("nightcafe", "nightcafe"),
        31 => ("craiyon", "craiyon"),
        32 => ("deepai", "deepai"),
        33 => ("meta ai", "meta ai"),
        34 => ("stability ai", "stability ai"),
        35 => ("stability.ai", "stability ai"),
        36 => ("comfyui", "comfyui"),
        37 => ("automatic1111", "automatic1111"),
        38 => ("a1111", "automatic1111"),
        39 => ("invokeai", "invokeai"),
        40 => ("fooocus", "fooocus"),
        41 => ("glide", "glide"),
        42 => ("parti", "parti"),
        43 => ("muse", "muse"),
        44 => ("seedream", "seedream"),
        45 => ("recraft", "recraft"),
        46 => ("suno", "suno"),
        _ => ("elevenlabs", "elevenlabs"),
    }
}

/// The tool of the first table entry, from entry `i` on, whose pattern occurs in `lower`.
pub open spec fn first_tool_from(lower: Seq<char>, i: int) -> Option<Seq<char>>
    decreases TOOL_COUNT - i,
{
    if i < 0 || i >= TOOL_COUNT {
        None
    } else if contains_seq(lower, tool_table()[i].0) {
        Some(tool_table()[i].1)
    } else {
        first_tool_from(lower, i + 1)
    }
}

/// The AI tool that a piece of text names: the first table entry whose
/// pattern occurs in the lowercased text.
pub open spec fn ai_tool_of(s: Seq<char>) -> Option<Seq<char>> {
    first_tool_from(lowercase(s), 0)
}

pub open spec fn opt_static_view(r: Option<&'static str>) -> Option<Seq<char>> {
    match r {
        Some(t) => Some(t@),
        None => None,
    }
}

/// Matches `s` case-insensitively against the known AI tools and returns the
/// tool it names, if any.
pub fn match_ai_tool(s: &str) -> (r: Option<&'static str>)
    ensures
        opt_static_view(r) == ai_tool_of(s@),
{
    let lower = to_lowercase(s);
    let chars = chars_of(lower.as_str());
    let mut i: usize = 0;
    while i < TOOL_COUNT
        invariant
            i <= TOOL_COUNT,
            chars@ == lowercase(s@),
            first_tool_from(chars@, 0) == first_tool_from(chars@, i as int),
        decreases TOOL_COUNT - i,
    {
        let (pattern, tool) = tool_entry(i);
        let pat = chars_of(pattern);
        if find_chars(chars.as_slice(), pat.as_slice()).is_some() {
            return Some(tool);
        }
        i = i + 1;
    }
    None
}

proof fn lemma_recognizes_dall_e()
    ensures
        first_tool_from("dall-e"@, 0) == Some("dall-e"@),
{
    reveal_strlit("dall-e");
    assert(first_tool_from("dall-e"@, 0) == Some("dall-e"@)) by {
        assert("dall-e"@.subrange(0, 6) =~= "dall-e"@);
        assert(crate::text::matches_at("dall-e"@, "dall-e"@, 0));
    }
}

proof fn lemma_recognizes_midjourney()
    ensures
        first_tool_from("midjourney"@, 0) == Some("midjourney"@),
{
    reveal_strlit("dall-e");
    reveal_strlit("dalle");
    reveal_strlit("midjourney");
    assert(first_tool_from("midjourney"@, 2) == Some("midjourney"@)) by {
        assert("midjourney"@.subrange(0, 10) =~= "midjourney"@);
        assert(crate::text::matches_at("midjourney"@, "midjourney"@, 0));
    }
    assert(!contains_seq("midjourney"@, "dalle"@)) by {
        lemma_contains_iff_occurs("midjourney"@, "dalle"@);
        reveal_with_fuel(occurs_from, 12);
        reveal_with_fuel(agrees_from, 6);
    }
    assert(first_tool_from("midjourney"@, 1) == first_tool_from("midjourney"@, 2));
    assert(!contains_seq("midjourney"@, "dall-e"@)) by {
        lemma_contains_iff_occurs("midjourney"@, "dall-e"@);
        reveal_with_fuel(occurs_from, 12);
        reveal_with_fuel(agrees_from, 7);
    }
    assert(first_tool_from("midjourney"@, 0) == first_tool_from("midjourney"@, 1));
}

proof fn lemma_recognizes_stable_diffusion()
    ensures
        first_tool_from("stable diffusion"@, 0) == Some("stable diffusion"@),
{
    reveal_strlit("dall-e");
    reveal_strlit("dalle");
    reveal_strlit("midjourney");
    reveal_strlit("stable diffusion");
    assert(first_tool_from("stable diffusion"@, 3) == Some("stable diffusion"@)) by {
        assert("stable diffusion"@.subrange(0, 16) =~= "stable diffusion"@);
        assert(crate::text::matches_at("stable diffusion"@, "stable diffusion"@, 0));
    }
    assert(!contains_seq("stable diffusion"@, "midjourney"@)) by {
        lemma_contains_iff_occurs("stable diffusion"@, "midjourney"@);
        reveal_with_fuel(occurs_from, 18);
        reveal_with_fuel(agrees_from, 11);
    }
    assert(first_tool_from("stable diffusion"@, 2) == first_tool_from("stable diffusion"@, 3));
    assert(!contains_seq("stable diffusion"@, "dalle"@)) by {
        lemma_contains_iff_occurs("stable diffusion"@, "dalle"@);
        reveal_with_fuel(occurs_from, 18);
        reveal_with_fuel(agrees_from, 6);
    }
    assert(first_tool_from("stable diffusion"@, 1) == first_tool_from("stable diffusion"@, 2));
    assert(!contains_seq("stable diffusion"@, "dall-e"@)) by {
        lemma_contains_iff_occurs("stable diffusion"@, "dall-e"@);
        reveal_with_fuel(occurs_from, 18);
        reveal_with_fuel(agrees_from, 7);
    }
    assert(first_tool_from("stable diffusion"@, 0) == first_tool_from("stable diffusion"@, 1));
}

proof fn lemma_recognizes_adobe_firefly()
    ensures
        first_tool_from("adobe firefly"@, 0) == Some("adobe firefly"@),
{
    reveal_strlit("adobe firefly");
    reveal_strlit("dall-e");
    reveal_strlit("dalle");
    reveal_strlit("firefly");
    reveal_strlit("midjourney");
    reveal_strlit("stable diffusion");
    reveal_strlit("stable-diffusion");
    reveal_strlit("stablediffusion");
    assert(first_tool_from("adobe firefly"@, 6) == Some("adobe firefly"@)) by {
        assert("adobe firefly"@.subrange(6, 13) =~= "firefly"@);
        assert(crate::text::matches_at("adobe firefly"@, "firefly"@, 6));
    }
    assert(!contains_seq("adobe firefly"@, "stablediffusion"@)) by {
        lemma_contains_iff_occurs("adobe firefly"@, "stablediffusion"@);
    }
    assert(first_tool_from("adobe firefly"@, 5) == first_tool_from("adobe firefly"@, 6));
    assert(!contains_seq("adobe firefly"@, "stable-diffusion"@)) by {
        lemma_contains_iff_occurs("adobe firefly"@, "stable-diffusion"@);
    }
    assert(first_tool_from("adobe firefly"@, 4) == first_tool_from("adobe firefly"@, 5));
    assert(!contains_seq("adobe firefly"@, "stable diffusion"@)) by {
        lemma_contains_iff_occurs("adobe firefly"@, "stable diffusion"@);
    }
    assert(first_tool_from("adobe firefly"@, 3) == first_tool_from("adobe firefly"@, 4));
    assert(!contains_seq("adobe firefly"@, "midjourney"@)) by {
        lemma_contains_iff_occurs("adobe firefly"@, "midjourney"@);
        reveal_with_fuel(occurs_from, 15);
        reveal_with_fuel(agrees_from, 11);
    }
    assert(first_tool_from("adobe firefly"@, 2) == first_tool_from("adobe firefly"@, 3));
    assert(!contains_seq("adobe firefly"@, "dalle"@)) by {
        lemma_contains_iff_occurs("adobe firefly"@, "dalle"@);
        reveal_with_fuel(occurs_from, 15);
        reveal_with_fuel(agrees_from, 6);
    }
    assert(first_tool_from("adobe firefly"@, 1) == first_tool_from("adobe firefly"@, 2));
    assert(!contains_seq("adobe firefly"@, "dall-e"@)) by {
        lemma_contains_iff_occurs("adobe firefly"@, "dall-e"@);
        reveal_with_fuel(occurs_from, 15);
        reveal_with_fuel(agrees_from, 7);
    }
    assert(first_tool_from("adobe firefly"@, 0) == first_tool_from("adobe firefly"@, 1));
}

proof fn lemma_recognizes_imagen()
    ensures
        first_tool_from("imagen"@, 0) == Some("imagen"@),
{
    reveal_strlit("dall-e");
    reveal_strlit("dalle");
    reveal_strlit("firefly");
    reveal_strlit("imagen");
    reveal_strlit("midjourney");
    reveal_strlit("stable diffusion");
    reveal_strlit("stable-diffusion");
    reveal_strlit("stablediffusion");
    assert(first_tool_from("imagen"@, 7) == Some("imagen"@)) by {
        assert("imagen"@.subrange(0, 6) =~= "imagen"@);
        assert(crate::text::matches_at("imagen"@, "imagen"@, 0));
    }
    assert(!contains_seq("imagen"@, "firefly"@)) by {
        lemma_contains_iff_occurs("imagen"@, "firefly"@);
    }
    assert(first_tool_from("imagen"@, 6) == first_tool_from("imagen"@, 7));
    assert(!contains_seq("imagen"@, "stablediffusion"@)) by {
        lemma_contains_iff_occurs("imagen"@, "stablediffusion"@);
    }
    assert(first_tool_from("imagen"@, 5) == first_tool_from("imagen"@, 6));
    assert(!contains_seq("imagen"@, "stable-diffusion"@)) by {
        lemma_contains_iff_occurs("imagen"@, "stable-diffusion"@);
    }
    assert(first_tool_from("imagen"@, 4) == first_tool_from("imagen"@, 5));
    assert(!contains_seq("imagen"@, "stable diffusion"@)) by {
        lemma_contains_iff_occurs("imagen"@, "stable diffusion"@);
    }
    assert(first_tool_from("imagen"@, 3) == first_tool_from("imagen"@, 4));
    assert(!contains_seq("imagen"@, "midjourney"@)) by {
        lemma_contains_iff_occurs("imagen"@, "midjourney"@);
    }
    assert(first_tool_from("imagen"@, 2) == first_tool_from("imagen"@, 3));
    assert(!contains_seq("imagen"@, "dalle"@)) by {
        lemma_contains_iff_occurs("imagen"@, "dalle"@);
        reveal_with_fuel(occurs_from, 8);
        reveal_with_fuel(agrees_from, 6);
    }
    assert(first_tool_from("imagen"@, 1) == first_tool_from("imagen"@, 2));
    assert(!contains_seq("imagen"@, "dall-e"@)) by {
        lemma_contains_iff_occurs("imagen"@, "dall-e"@);
        reveal_with_fuel(occurs_from, 8);
        reveal_with_fuel(agrees_from, 7);
    }
    assert(first_tool_from("imagen"@, 0) == first_tool_from("imagen"@, 1));
}

proof fn lemma_recognizes_flux()
    ensures
        first_tool_from("flux"@, 0) == Some("flux"@),
{
    reveal_strlit("dall-e");
    reveal_strlit("dalle");
    reveal_strlit("firefly");
    reveal_strlit("flux");
    reveal_strlit("imagen");
    reveal_strlit("midjourney");
    reveal_strlit("stable diffusion");
    reveal_strlit("stable-diffusion");
    reveal_strlit("stablediffusion");
    assert(first_tool_from("flux"@, 8) == Some("flux"@)) by {
        assert("flux"@.subrange(0, 4) =~= "flux"@);
        assert(crate::text::matches_at("flux"@, "flux"@, 0));
    }
    assert(!contains_seq("flux"@, "imagen"@)) by {
        lemma_contains_iff_occurs("flux"@, "imagen"@);
    }
    assert(first_tool_from("flux"@, 7) == first_tool_from("flux"@, 8));
    assert(!contains_seq("flux"@, "firefly"@)) by {
        lemma_contains_iff_occurs("flux"@, "firefly"@);
    }
    assert(first_tool_from("flux"@, 6) == first_tool_from("flux"@, 7));
    assert(!contains_seq("flux"@, "stablediffusion"@)) by {
        lemma_contains_iff_occurs("flux"@, "stablediffusion"@);
    }
    assert(first_tool_from("flux"@, 5) == first_tool_from("flux"@, 6));
    assert(!contains_seq("flux"@, "stable-diffusion"@)) by {
        lemma_contains_iff_occurs("flux"@, "stable-diffusion"@);
    }
    assert(first_tool_from("flux"@, 4) == first_tool_from("flux"@, 5));
    assert(!contains_seq("flux"@, "stable diffusion"@)) by {
        lemma_contains_iff_occurs("flux"@, "stable diffusion"@);
    }
    assert(first_tool_from("flux"@, 3) == first_tool_from("flux"@, 4));
    assert(!contains_seq("flux"@, "midjourney"@)) by {
        lemma_contains_iff_occurs("flux"@, "midjourney"@);
    }
    assert(first_tool_from("flux"@, 2) == first_tool_from("flux"@, 3));
    assert(!contains_seq("flux"@, "dalle"@)) by {
        lemma_contains_iff_occurs("flux"@, "dalle"@);
    }
    assert(first_tool_from("flux"@, 1) == first_tool_from("flux"@, 2));
    assert(!contains_seq("flux"@, "dall-e"@)) by {
        lemma_contains_iff_occurs("flux"@, "dall-e"@);
    }
    assert(first_tool_from("flux"@, 0) == first_tool_from("flux"@, 1));
}

proof fn lemma_recognizes_ideogram()
    ensures
        first_tool_from("ideogram"@, 0) == Some("ideogram"@),
{
    reveal_strlit("dall-e");
    reveal_strlit("dalle");
    reveal_strlit("firefly");
    reveal_strlit("flux");
    reveal_strlit("ideogram");
    reveal_strlit("imagen");
    reveal_strlit("midjourney");
    reveal_strlit("stable diffusion");
    reveal_strlit("stable-diffusion");
    reveal_strlit("stablediffusion");
    assert(first_tool_from("ideogram"@, 9) == Some("ideogram"@)) by {
        assert("ideogram"@.subrange(0, 8) =~= "ideogram"@);
        assert(crate::text::matches_at("ideogram"@, "ideogram"@, 0));
    }
    assert(!contains_seq("ideogram"@, "flux"@)) by {
        lemma_contains_iff_occurs("ideogram"@, "flux"@);
        reveal_with_fuel(occurs_from, 10);
        reveal_with_fuel(agrees_from, 5);
    }
    assert(first_tool_from("ideogram"@, 8) == first_tool_from("ideogram"@, 9));
    assert(!contains_seq("ideogram"@, "imagen"@)) by {
        lemma_contains_iff_occurs("ideogram"@, "imagen"@);
        reveal_with_fuel(occurs_from, 10);
        reveal_with_fuel(agrees_from, 7);
    }
    assert(first_tool_from("ideogram"@, 7) == first_tool_from("ideogram"@, 8));
    assert(!contains_seq("ideogram"@, "firefly"@)) by {
        lemma_contains_iff_occurs("ideogram"@, "firefly"@);
        reveal_with_fuel(occurs_from, 10);
        reveal_with_fuel(agrees_from, 8);
    }
    assert(first_tool_from("ideogram"@, 6) == first_tool_from("ideogram"@, 7));
    assert(!contains_seq("ideogram"@, "stablediffusion"@)) by {
        lemma_contains_iff_occurs("ideogram"@, "stablediffusion"@);
    }
    assert(first_tool_from("ideogram"@, 5) == first_tool_from("ideogram"@, 6));
    assert(!contains_seq("ideogram"@, "stable-diffusion"@)) by {
        lemma_contains_iff_occurs("ideogram"@, "stable-diffusion"@);
    }
    assert(first_tool_from("ideogram"@, 4) == first_tool_from("ideogram"@, 5));
    assert(!contains_seq("ideogram"@, "stable diffusion"@)) by {
        lemma_contains_iff_occurs("ideogram"@, "stable diffusion"@);
    }
    assert(first_tool_from("ideogram"@, 3) == first_tool_from("ideogram"@, 4));
    assert(!contains_seq("ideogram"@, "midjourney"@)) by {
        lemma_contains_iff_occurs("ideogram"@, "midjourney"@);
    }
    assert(first_tool_from("ideogram"@, 2) == first_tool_from("ideogram"@, 3));
    assert(!contains_seq("ideogram"@, "dalle"@)) by {
        lemma_contains_iff_occurs("ideogram"@, "dalle"@);
        reveal_with_fuel(occurs_from, 10);
        reveal_with_fuel(agrees_from, 6);
    }
    assert(first_tool_from("ideogram"@, 1) == first_tool_from("ideogram"@, 2));
    assert(!contains_seq("ideogram"@, "dall-e"@)) by {
        lemma_contains_iff_occurs("ideogram"@, "dall-e"@);
        reveal_with_fuel(occurs_from, 10);
        reveal_with_fuel(agrees_from, 7);
    }
    assert(first_tool_from("ideogram"@, 0) == first_tool_from("ideogram"@, 1));
}

proof fn lemma_recognizes_leonardo_ai()
    ensures
        first_tool_from("leonardo.ai"@, 0) == Some("leonardo.ai"@),
{
    reveal_strlit("dall-e");
    reveal_strlit("dalle");
    reveal_strlit("firefly");
    reveal_strlit("flux");
    reveal_strlit("ideogram");
    reveal_strlit("imagen");
    reveal_strlit("leonardo.ai");
    reveal_strlit("midjourney");
    reveal_strlit("stable diffusion");
    reveal_strlit("stable-diffusion");
    reveal_strlit("stablediffusion");
    assert(first_tool_from("leonardo.ai"@, 10) == Some("leonardo.ai"@)) by {
        assert("leonardo.ai"@.subrange(0, 11) =~= "leonardo.ai"@);
        assert(crate::text::matches_at("leonardo.ai"@, "leonardo.ai"@, 0));
    }
    assert(!contains_seq("leonardo.ai"@, "ideogram"@)) by {
        lemma_contains_iff_occurs("leonardo.ai"@, "ideogram"@);
        reveal_with_fuel(occurs_from, 13);
        reveal_with_fuel(agrees_from, 9);
    }
    assert(first_tool_from("leonardo.ai"@, 9) == first_tool_from("leonardo.ai"@, 10));
    assert(!contains_seq("leonardo.ai"@, "flux"@)) by {
        lemma_contains_iff_occurs("leonardo.ai"@, "flux"@);
        reveal_with_fuel(occurs_from, 13);
        reveal_with_fuel(agrees_from, 5);
    }
    assert(first_tool_from("leonardo.ai"@, 8) == first_tool_from("leonardo.ai"@, 9));
    assert(!contains_seq("leonardo.ai"@, "imagen"@)) by {
        lemma_contains_iff_occurs("leonardo.ai"@, "imagen"@);
        reveal_with_fuel(occurs_from, 13);
        reveal_with_fuel(agrees_from, 7);
    }
    assert(first_tool_from("leonardo.ai"@, 7) == first_tool_from("leonardo.ai"@, 8));
    assert(!contains_seq("leonardo.ai"@, "firefly"@)) by {
        lemma_contains_iff_occurs("leonardo.ai"@, "firefly"@);
        reveal_with_fuel(occurs_from, 13);
        reveal_with_fuel(agrees_from, 8);
    }
    assert(first_tool_from("leonardo.ai"@, 6) == first_tool_from("leonardo.ai"@, 7));
    assert(!contains_seq("leonardo.ai"@, "stablediffusion"@)) by {
        lemma_contains_iff_occurs("leonardo.ai"@, "stablediffusion"@);
    }
    assert(first_tool_from("leonardo.ai"@, 5) == first_tool_from("leonardo.ai"@, 6));
    assert(!contains_seq("leonardo.ai"@, "stable-diffusion"@)) by {
        lemma_contains_iff_occurs("leonardo.ai"@, "stable-diffusion"@);
    }
    assert(first_tool_from("leonardo.ai"@, 4) == first_tool_from("leonardo.ai"@, 5));
    assert(!contains_seq("leonardo.ai"@, "stable diffusion"@)) by {
        lemma_contains_iff_occurs("leonardo.ai"@, "stable diffusion"@);
    }
    assert(first_tool_from("leonardo.ai"@, 3) == first_tool_from("leonardo.ai"@, 4));
    assert(!contains_seq("leonardo.ai"@, "midjourney"@)) by {
        lemma_contains_iff_occurs("leonardo.ai"@, "midjourney"@);
        reveal_with_fuel(occurs_from, 13);
        reveal_with_fuel(agrees_from, 11);
    }
    assert(first_tool_from("leonardo.ai"@, 2) == first_tool_from("leonardo.ai"@, 3));
    assert(!contains_seq("leonardo.ai"@, "dalle"@)) by {
        lemma_contains_iff_occurs("leonardo.ai"@, "dalle"@);
        reveal_with_fuel(occurs_from, 13);
        reveal_with_fuel(agrees_from, 6);
    }
    assert(first_tool_from("leonardo.ai"@, 1) == first_tool_from("leonardo.ai"@, 2));
    assert(!contains_seq("leonardo.ai"@, "dall-e"@)) by {
        lemma_contains_iff_occurs("leonardo.ai"@, "dall-e"@);
        reveal_with_fuel(occurs_from, 13);
        reveal_with_fuel(agrees_from, 7);
    }
    assert(first_tool_from("leonardo.ai"@, 0) == first_tool_from("leonardo.ai"@, 1));
}

proof fn lemma_recognizes_novelai()
    ensures
        first_tool_from("novelai"@, 0) == Some("novelai"@),
{
    reveal_strlit("dall-e");
    reveal_strlit("dalle");
    reveal_strlit("firefly");
    reveal_strlit("flux");
    reveal_strlit("ideogram");
    reveal_strlit("imagen");
    reveal_strlit("leonardo ai");
    reveal_strlit("leonardo.ai");
    reveal_strlit("midjourney");
    reveal_strlit("novelai");
    reveal_strlit("stable diffusion");
    reveal_strlit("stable-diffusion");
    reveal_strlit("stablediffusion");
    assert(first_tool_from("novelai"@, 12) == Some("novelai"@)) by {
        assert("novelai"@.subrange(0, 7) =~= "novelai"@);
        assert(crate::text::matches_at("novelai"@, "novelai"@, 0));
    }
    assert(!contains_seq("novelai"@, "leonardo ai"@)) by {
        lemma_contains_iff_occurs("novelai"@, "leonardo ai"@);
    }
    assert(first_tool_from("novelai"@, 11) == first_tool_from("novelai"@, 12));
    assert(!contains_seq("novelai"@, "leonardo.ai"@)) by {
        lemma_contains_iff_occurs("novelai"@, "leonardo.ai"@);
    }
    assert(first_tool_from("novelai"@, 10) == first_tool_from("novelai"@, 11));
    assert(!contains_seq("novelai"@, "ideogram"@)) by {
        lemma_contains_iff_occurs("novelai"@, "ideogram"@);
    }
    assert(first_tool_from("novelai"@, 9) == first_tool_from("novelai"@, 10));
    assert(!contains_seq("novelai"@, "flux"@)) by {
        lemma_contains_iff_occurs("novelai"@, "flux"@);
        reveal_with_fuel(occurs_from, 9);
        reveal_with_fuel(agrees_from, 5);
    }
    assert(first_tool_from("novelai"@, 8) == first_tool_from("novelai"@, 9));
    assert(!contains_seq("novelai"@, "imagen"@)) by {
        lemma_contains_iff_occurs("novelai"@, "imagen"@);
        reveal_with_fuel(occurs_from, 9);
        reveal_with_fuel(agrees_from, 7);
    }
    assert(first_tool_from("novelai"@, 7) == first_tool_from("novelai"@, 8));
    assert(!contains_seq("novelai"@, "firefly"@)) by {
        lemma_contains_iff_occurs("novelai"@, "firefly"@);
        reveal_with_fuel(occurs_from, 9);
        reveal_with_fuel(agrees_from, 8);
    }
    assert(first_tool_from("novelai"@, 6) == first_tool_from("novelai"@, 7));
    assert(!contains_seq("novelai"@, "stablediffusion"@)) by {
        lemma_contains_iff_occurs("novelai"@, "stablediffusion"@);
    }
    assert(first_tool_from("novelai"@, 5) == first_tool_from("novelai"@, 6));
    assert(!contains_seq("novelai"@, "stable-diffusion"@)) by {
        lemma_contains_iff_occurs("novelai"@, "stable-diffusion"@);
    }
    assert(first_tool_from("novelai"@, 4) == first_tool_from("novelai"@, 5));
    assert(!contains_seq("novelai"@, "stable diffusion"@)) by {
        lemma_contains_iff_occurs("novelai"@, "stable diffusion"@);
    }
    assert(first_tool_from("novelai"@, 3) == first_tool_from("novelai"@, 4));
    assert(!contains_seq("novelai"@, "midjourney"@)) by {
        lemma_contains_iff_occurs("novelai"@, "midjourney"@);
    }
    assert(first_tool_from("novelai"@, 2) == first_tool_from("novelai"@, 3));
    assert(!contains_seq("novelai"@, "dalle"@)) by {
        lemma_contains_iff_occurs("novelai"@, "dalle"@);
        reveal_with_fuel(occurs_from, 9);
        reveal_with_fuel(agrees_from, 6);
    }
    assert(first_tool_from("novelai"@, 1) == first_tool_from("novelai"@, 2));
    assert(!contains_seq("novelai"@, "dall-e"@)) by {
        lemma_contains_iff_occurs("novelai"@, "dall-e"@);
        reveal_with_fuel(occurs_from, 9);
        reveal_with_fuel(agrees_from, 7);
    }
    assert(first_tool_from("novelai"@, 0) == first_tool_from("novelai"@, 1));
}

proof fn lemma_recognizes_sora()
    ensures
        first_tool_from("sora"@, 0) == Some("sora"@),
{
    reveal_strlit("dall-e");
    reveal_strlit("dalle");
    reveal_strlit("firefly");
    reveal_strlit("flux");
    reveal_strlit("ideogram");
    reveal_strlit("imagen");
    reveal_strlit("leonardo ai");
    reveal_strlit("leonardo.ai");
    reveal_strlit("midjourney");
    reveal_strlit("novelai");
    reveal_strlit("sora");
    reveal_strlit("stable diffusion");
    reveal_strlit("stable-diffusion");
    reveal_strlit("stablediffusion");
    assert(first_tool_from("sora"@, 13) == Some("sora"@)) by {
        assert("sora"@.subrange(0, 4) =~= "sora"@);
        assert(crate::text::matches_at("sora"@, "sora"@, 0));
    }
    assert(!contains_seq("sora"@, "novelai"@)) by {
        lemma_contains_iff_occurs("sora"@, "novelai"@);
    }
    assert(first_tool_from("sora"@, 12) == first_tool_from("sora"@, 13));
    assert(!contains_seq("sora"@, "leonardo ai"@)) by {
        lemma_contains_iff_occurs("sora"@, "leonardo ai"@);
    }
    assert(first_tool_from("sora"@, 11) == first_tool_from("sora"@, 12));
    assert(!contains_seq("sora"@, "leonardo.ai"@)) by {
        lemma_contains_iff_occurs("sora"@, "leonardo.ai"@);
    }
    assert(first_tool_from("sora"@, 10) == first_tool_from("sora"@, 11));
    assert(!contains_seq("sora"@, "ideogram"@)) by {
        lemma_contains_iff_occurs("sora"@, "ideogram"@);
    }
    assert(first_tool_from("sora"@, 9) == first_tool_from("sora"@, 10));
    assert(!contains_seq("sora"@, "flux"@)) by {
        lemma_contains_iff_occurs("sora"@, "flux"@);
        reveal_with_fuel(occurs_from, 6);
        reveal_with_fuel(agrees_from, 5);
    }
    assert(first_tool_from("sora"@, 8) == first_tool_from("sora"@, 9));
    assert(!contains_seq("sora"@, "imagen"@)) by {
        lemma_contains_iff_occurs("sora"@, "imagen"@);
    }
    assert(first_tool_from("sora"@, 7) == first_tool_from("sora"@, 8));
    assert(!contains_seq("sora"@, "firefly"@)) by {
        lemma_contains_iff_occurs("sora"@, "firefly"@);
    }
    assert(first_tool_from("sora"@, 6) == first_tool_from("sora"@, 7));
    assert(!contains_seq("sora"@, "stablediffusion"@)) by {
        lemma_contains_iff_occurs("sora"@, "stablediffusion"@);
    }
    assert(first_tool_from("sora"@, 5) == first_tool_from("sora"@, 6));
    assert(!contains_seq("sora"@, "stable-diffusion"@)) by {
        lemma_contains_iff_occurs("sora"@, "stable-diffusion"@);
    }
    assert(first_tool_from("sora"@, 4) == first_tool_from("sora"@, 5));
    assert(!contains_seq("sora"@, "stable diffusion"@)) by {
        lemma_contains_iff_occurs("sora"@, "stable diffusion"@);
    }
    assert(first_tool_from("sora"@, 3) == first_tool_from("sora"@, 4));
    assert(!contains_seq("sora"@, "midjourney"@)) by {
        lemma_contains_iff_occurs("sora"@, "midjourney"@);
    }
    assert(first_tool_from("sora"@, 2) == first_tool_from("sora"@, 3));
    assert(!contains_seq("sora"@, "dalle"@)) by {
        lemma_contains_iff_occurs("sora"@, "dalle"@);
    }
    assert(first_tool_from("sora"@, 1) == first_tool_from("sora"@, 2));
    assert(!contains_seq("sora"@, "dall-e"@)) by {
        lemma_contains_iff_occurs("sora"@, "dall-e"@);
    }
    assert(first_tool_from("sora"@, 0) == first_tool_from("sora"@, 1));
}

proof fn lemma_recognizes_google_veo()
    ensures
        first_tool_from("google veo"@, 0) == Some("google veo"@),
{
    reveal_strlit("dall-e");
    reveal_strlit("dalle");
    reveal_strlit("firefly");
    reveal_strlit("flux");
    reveal_strlit("google veo");
    reveal_strlit("ideogram");
    reveal_strlit("imagen");
    reveal_strlit("leonardo ai");
    reveal_strlit("leonardo.ai");
    reveal_strlit("midjourney");
    reveal_strlit("novelai");
    reveal_strlit("sora");
    reveal_strlit("stable diffusion");
    reveal_strlit("stable-diffusion");
    reveal_strlit("stablediffusion");
    assert(first_tool_from("google veo"@, 14) == Some("google veo"@)) by {
        assert("google veo"@.subrange(0, 10) =~= "google veo"@);
        assert(crate::text::matches_at("google veo"@, "google veo"@, 0));
    }
    assert(!contains_seq("google veo"@, "sora"@)) by {
        lemma_contains_iff_occurs("google veo"@, "sora"@);
        reveal_with_fuel(occurs_from, 12);
        reveal_with_fuel(agrees_from, 5);
    }
    assert(first_tool_from("google veo"@, 13) == first_tool_from("google veo"@, 14));
    assert(!contains_seq("google veo"@, "novelai"@)) by {
        lemma_contains_iff_occurs("google veo"@, "novelai"@);
        reveal_with_fuel(occurs_from, 12);
        reveal_with_fuel(agrees_from, 8);
    }
    assert(first_tool_from("google veo"@, 12) == first_tool_from("google veo"@, 13));
    assert(!contains_seq("google veo"@, "leonardo ai"@)) by {
        lemma_contains_iff_occurs("google veo"@, "leonardo ai"@);
    }
    assert(first_tool_from("google veo"@, 11) == first_tool_from("google veo"@, 12));
    assert(!contains_seq("google veo"@, "leonardo.ai"@)) by {
        lemma_contains_iff_occurs("google veo"@, "leonardo.ai"@);
    }
    assert(first_tool_from("google veo"@, 10) == first_tool_from("google veo"@, 11));
    assert(!contains_seq("google veo"@, "ideogram"@)) by {
        lemma_contains_iff_occurs("google veo"@, "ideogram"@);
        reveal_with_fuel(occurs_from, 12);
        reveal_with_fuel(agrees_from, 9);
    }
    assert(first_tool_from("google veo"@, 9) == first_tool_from("google veo"@, 10));
    assert(!contains_seq("google veo"@, "flux"@)) by {
        lemma_contains_iff_occurs("google veo"@, "flux"@);
        reveal_with_fuel(occurs_from, 12);
        reveal_with_fuel(agrees_from, 5);
    }
    assert(first_tool_from("google veo"@, 8) == first_tool_from("google veo"@, 9));
    assert(!contains_seq("google veo"@, "imagen"@)) by {
        lemma_contains_iff_occurs("google veo"@, "imagen"@);
        reveal_with_fuel(occurs_from, 12);
        reveal_with_fuel(agrees_from, 7);
    }
    assert(first_tool_from("google veo"@, 7) == first_tool_from("google veo"@, 8));
    assert(!contains_seq("google veo"@, "firefly"@)) by {
        lemma_contains_iff_occurs("google veo"@, "firefly"@);
        reveal_with_fuel(occurs_from, 12);
        reveal_with_fuel(agrees_from, 8);
    }
    assert(first_tool_from("google veo"@, 6) == first_tool_from("google veo"@, 7));
    assert(!contains_seq("google veo"@, "stablediffusion"@)) by {
        lemma_contains_iff_occurs("google veo"@, "stablediffusion"@);
    }
    assert(first_tool_from("google veo"@, 5) == first_tool_from("google veo"@, 6));
    assert(!contains_seq("google veo"@, "stable-diffusion"@)) by {
        lemma_contains_iff_occurs("google veo"@, "stable-diffusion"@);
    }
    assert(first_tool_from("google veo"@, 4) == first_tool_from("google veo"@, 5));
    assert(!contains_seq("google veo"@, "stable diffusion"@)) by {
        lemma_contains_iff_occurs("google veo"@, "stable diffusion"@);
    }
    assert(first_tool_from("google veo"@, 3) == first_tool_from("google veo"@, 4));
    assert(!contains_seq("google veo"@, "midjourney"@)) by {
        lemma_contains_iff_occurs("google veo"@, "midjourney"@);
        reveal_with_fuel(occurs_from, 12);
        reveal_with_fuel(agrees_from, 11);
    }
    assert(first_tool_from("google veo"@, 2) == first_tool_from("google veo"@, 3));
    assert(!contains_seq("google veo"@, "dalle"@)) by {
        lemma_contains_iff_occurs("google veo"@, "dalle"@);
        reveal_with_fuel(occurs_from, 12);
        reveal_with_fuel(agrees_from, 6);
    }
    assert(first_tool_from("google veo"@, 1) == first_tool_from("google veo"@, 2));
    assert(!contains_seq("google veo"@, "dall-e"@)) by {
        lemma_contains_iff_occurs("google veo"@, "dall-e"@);
        reveal_with_fuel(occurs_from, 12);
        reveal_with_fuel(agrees_from, 7);
    }
    assert(first_tool_from("google veo"@, 0) == first_tool_from("google veo"@, 1));
}

proof fn lemma_recognizes_runway()
    ensures
        first_tool_from("runway"@, 0) == Some("runway"@),
{
    reveal_strlit("dall-e");
    reveal_strlit("dalle");
    reveal_strlit("firefly");
    reveal_strlit("flux");
    reveal_strlit("google veo");
    reveal_strlit("ideogram");
    reveal_strlit("imagen");
    reveal_strlit("leonardo ai");
    reveal_strlit("leonardo.ai");
    reveal_strlit("midjourney");
    reveal_strlit("novelai");
    reveal_strlit("runway");
    reveal_strlit("sora");
    reveal_strlit("stable diffusion");
    reveal_strlit("stable-diffusion");
    reveal_strlit("stablediffusion");
    assert(first_tool_from("runway"@, 15) == Some("runway"@)) by {
        assert("runway"@.subrange(0, 6) =~= "runway"@);
        assert(crate::text::matches_at("runway"@, "runway"@, 0));
    }
    assert(!contains_seq("runway"@, "google veo"@)) by {
        lemma_contains_iff_occurs("runway"@, "google veo"@);
    }
    assert(first_tool_from("runway"@, 14) == first_tool_from("runway"@, 15));
    assert(!contains_seq("runway"@, "sora"@)) by {
        lemma_contains_iff_occurs("runway"@, "sora"@);
        reveal_with_fuel(occurs_from, 8);
        reveal_with_fuel(agrees_from, 5);
    }
    assert(first_tool_from("runway"@, 13) == first_tool_from("runway"@, 14));
    assert(!contains_seq("runway"@, "novelai"@)) by {
        lemma_contains_iff_occurs("runway"@, "novelai"@);
    }
    assert(first_tool_from("runway"@, 12) == first_tool_from("runway"@, 13));
    assert(!contains_seq("runway"@, "leonardo ai"@)) by {
        lemma_contains_iff_occurs("runway"@, "leonardo ai"@);
    }
    assert(first_tool_from("runway"@, 11) == first_tool_from("runway"@, 12));
    assert(!contains_seq("runway"@, "leonardo.ai"@)) by {
        lemma_contains_iff_occurs("runway"@, "leonardo.ai"@);
    }
    assert(first_tool_from("runway"@, 10) == first_tool_from("runway"@, 11));
    assert(!contains_seq("runway"@, "ideogram"@)) by {
        lemma_contains_iff_occurs("runway"@, "ideogram"@);
    }
    assert(first_tool_from("runway"@, 9) == first_tool_from("runway"@, 10));
    assert(!contains_seq("runway"@, "flux"@)) by {
        lemma_contains_iff_occurs("runway"@, "flux"@);
        reveal_with_fuel(occurs_from, 8);
        reveal_with_fuel(agrees_from, 5);
    }
    assert(first_tool_from("runway"@, 8) == first_tool_from("runway"@, 9));
    assert(!contains_seq("runway"@, "imagen"@)) by {
        lemma_contains_iff_occurs("runway"@, "imagen"@);
        reveal_with_fuel(occurs_from, 8);
        reveal_with_fuel(agrees_from, 7);
    }
    assert(first_tool_from("runway"@, 7) == first_tool_from("runway"@, 8));
    assert(!contains_seq("runway"@, "firefly"@)) by {
        lemma_contains_iff_occurs("runway"@, "firefly"@);
    }
    assert(first_tool_from("runway"@, 6) == first_tool_from("runway"@, 7));
    assert(!contains_seq("runway"@, "stablediffusion"@)) by {
        lemma_contains_iff_occurs("runway"@, "stablediffusion"@);
    }
    assert(first_tool_from("runway"@, 5) == first_tool_from("runway"@, 6));
    assert(!contains_seq("runway"@, "stable-diffusion"@)) by {
        lemma_contains_iff_occurs("runway"@, "stable-diffusion"@);
    }
    assert(first_tool_from("runway"@, 4) == first_tool_from("runway"@, 5));
    assert(!contains_seq("runway"@, "stable diffusion"@)) by {
        lemma_contains_iff_occurs("runway"@, "stable diffusion"@);
    }
    assert(first_tool_from("runway"@, 3) == first_tool_from("runway"@, 4));
    assert(!contains_seq("runway"@, "midjourney"@)) by {
        lemma_contains_iff_occurs("runway"@, "midjourney"@);
    }
    assert(first_tool_from("runway"@, 2) == first_tool_from("runway"@, 3));
    assert(!contains_seq("runway"@, "dalle"@)) by {
        lemma_contains_iff_occurs("runway"@, "dalle"@);
        reveal_with_fuel(occurs_from, 8);
        reveal_with_fuel(agrees_from, 6);
    }
    assert(first_tool_from("runway"@, 1) == first_tool_from("runway"@, 2));
    assert(!contains_seq("runway"@, "dall-e"@)) by {
        lemma_contains_iff_occurs("runway"@, "dall-e"@);
        reveal_with_fuel(occurs_from, 8);
        reveal_with_fuel(agrees_from, 7);
    }
    assert(first_tool_from("runway"@, 0) == first_tool_from("runway"@, 1));
}

proof fn lemma_recognizes_pika()
    ensures
        first_tool_from("pika"@, 0) == Some("pika"@),
{
    reveal_strlit("dall-e");
    reveal_strlit("dalle");
    reveal_strlit("firefly");
    reveal_strlit("flux");
    reveal_strlit("google veo");
    reveal_strlit("ideogram");
    reveal_strlit("imagen");
    reveal_strlit("leonardo ai");
    reveal_strlit("leonardo.ai");
    reveal_strlit("midjourney");
    reveal_strlit("novelai");
    reveal_strlit("pika");
    reveal_strlit("runway");
    reveal_strlit("sora");
    reveal_strlit("stable diffusion");
    reveal_strlit("stable-diffusion");
    reveal_strlit("stablediffusion");
    assert(first_tool_from("pika"@, 16) == Some("pika"@)) by {
        assert("pika"@.subrange(0, 4) =~= "pika"@);
        assert(crate::text::matches_at("pika"@, "pika"@, 0));
    }
    assert(!contains_seq("pika"@, "runway"@)) by {
        lemma_contains_iff_occurs("pika"@, "runway"@);
    }
    assert(first_tool_from("pika"@, 15) == first_tool_from("pika"@, 16));
    assert(!contains_seq("pika"@, "google veo"@)) by {
        lemma_contains_iff_occurs("pika"@, "google veo"@);
    }
    assert(first_tool_from("pika"@, 14) == first_tool_from("pika"@, 15));
    assert(!contains_seq("pika"@, "sora"@)) by {
        lemma_contains_iff_occurs("pika"@, "sora"@);
        reveal_with_fuel(occurs_from, 6);
        reveal_with_fuel(agrees_from, 5);
    }
    assert(first_tool_from("pika"@, 13) == first_tool_from("pika"@, 14));
    assert(!contains_seq("pika"@, "novelai"@)) by {
        lemma_contains_iff_occurs("pika"@, "novelai"@);
    }
    assert(first_tool_from("pika"@, 12) == first_tool_from("pika"@, 13));
    assert(!contains_seq("pika"@, "leonardo ai"@)) by {
        lemma_contains_iff_occurs("pika"@, "leonardo ai"@);
    }
    assert(first_tool_from("pika"@, 11) == first_tool_from("pika"@, 12));
    assert(!contains_seq("pika"@, "leonardo.ai"@)) by {
        lemma_contains_iff_occurs("pika"@, "leonardo.ai"@);
    }
    assert(first_tool_from("pika"@, 10) == first_tool_from("pika"@, 11));
    assert(!contains_seq("pika"@, "ideogram"@)) by {
        lemma_contains_iff_occurs("pika"@, "ideogram"@);
    }
    assert(first_tool_from("pika"@, 9) == first_tool_from("pika"@, 10));
    assert(!contains_seq("pika"@, "flux"@)) by {
        lemma_contains_iff_occurs("pika"@, "flux"@);
        reveal_with_fuel(occurs_from, 6);
        reveal_with_fuel(agrees_from, 5);
    }
    assert(first_tool_from("pika"@, 8) == first_tool_from("pika"@, 9));
    assert(!contains_seq("pika"@, "imagen"@)) by {
        lemma_contains_iff_occurs("pika"@, "imagen"@);
    }
    assert(first_tool_from("pika"@, 7) == first_tool_from("pika"@, 8));
    assert(!contains_seq("pika"@, "firefly"@)) by {
        lemma_contains_iff_occurs("pika"@, "firefly"@);
    }
    assert(first_tool_from("pika"@, 6) == first_tool_from("pika"@, 7));
    assert(!contains_seq("pika"@, "stablediffusion"@)) by {
        lemma_contains_iff_occurs("pika"@, "stablediffusion"@);
    }
    assert(first_tool_from("pika"@, 5) == first_tool_from("pika"@, 6));
    assert(!contains_seq("pika"@, "stable-diffusion"@)) by {
        lemma_contains_iff_occurs("pika"@, "stable-diffusion"@);
    }
    assert(first_tool_from("pika"@, 4) == first_tool_from("pika"@, 5));
    assert(!contains_seq("pika"@, "stable diffusion"@)) by {
        lemma_contains_iff_occurs("pika"@, "stable diffusion"@);
    }
    assert(first_tool_from("pika"@, 3) == first_tool_from("pika"@, 4));
    assert(!contains_seq("pika"@, "midjourney"@)) by {
        lemma_contains_iff_occurs("pika"@, "midjourney"@);
    }
    assert(first_tool_from("pika"@, 2) == first_tool_from("pika"@, 3));
    assert(!contains_seq("pika"@, "dalle"@)) by {
        lemma_contains_iff_occurs("pika"@, "dalle"@);
    }
    assert(first_tool_from("pika"@, 1) == first_tool_from("pika"@, 2));
    assert(!contains_seq("pika"@, "dall-e"@)) by {
        lemma_contains_iff_occurs("pika"@, "dall-e"@);
    }
    assert(first_tool_from("pika"@, 0) == first_tool_from("pika"@, 1));
}

proof fn lemma_recognizes_kling()
    ensures
        first_tool_from("kling"@, 0) == Some("kling"@),
{
    reveal_strlit("dall-e");
    reveal_strlit("dalle");
    reveal_strlit("firefly");
    reveal_strlit("flux");
    reveal_strlit("google veo");
    reveal_strlit("ideogram");
    reveal_strlit("imagen");
    reveal_strlit("kling");
    reveal_strlit("leonardo ai");
    reveal_strlit("leonardo.ai");
    reveal_strlit("midjourney");
    reveal_strlit("novelai");
    reveal_strlit("pika");
    reveal_strlit("runway");
    reveal_strlit("sora");
    reveal_strlit("stable diffusion");
    reveal_strlit("stable-diffusion");
    reveal_strlit("stablediffusion");
    assert(first_tool_from("kling"@, 17) == Some("kling"@)) by {
        assert("kling"@.subrange(0, 5) =~= "kling"@);
        assert(crate::text::matches_at("kling"@, "kling"@, 0));
    }
    assert(!contains_seq("kling"@, "pika"@)) by {
        lemma_contains_iff_occurs("kling"@, "pika"@);
        reveal_with_fuel(occurs_from, 7);
        reveal_with_fuel(agrees_from, 5);
    }
    assert(first_tool_from("kling"@, 16) == first_tool_from("kling"@, 17));
    assert(!contains_seq("kling"@, "runway"@)) by {
        lemma_contains_iff_occurs("kling"@, "runway"@);
    }
    assert(first_tool_from("kling"@, 15) == first_tool_from("kling"@, 16));
    assert(!contains_seq("kling"@, "google veo"@)) by {
        lemma_contains_iff_occurs("kling"@, "google veo"@);
    }
    assert(first_tool_from("kling"@, 14) == first_tool_from("kling"@, 15));
    assert(!contains_seq("kling"@, "sora"@)) by {
        lemma_contains_iff_occurs("kling"@, "sora"@);
        reveal_with_fuel(occurs_from, 7);
        reveal_with_fuel(agrees_from, 5);
    }
    assert(first_tool_from("kling"@, 13) == first_tool_from("kling"@, 14));
    assert(!contains_seq("kling"@, "novelai"@)) by {
        lemma_contains_iff_occurs("kling"@, "novelai"@);
    }
    assert(first_tool_from("kling"@, 12) == first_tool_from("kling"@, 13));
    assert(!contains_seq("kling"@, "leonardo ai"@)) by {
        lemma_contains_iff_occurs("kling"@, "leonardo ai"@);
    }
    assert(first_tool_from("kling"@, 11) == first_tool_from("kling"@, 12));
    assert(!contains_seq("kling"@, "leonardo.ai"@)) by {
        lemma_contains_iff_occurs("kling"@, "leonardo.ai"@);
    }
    assert(first_tool_from("kling"@, 10) == first_tool_from("kling"@, 11));
    assert(!contains_seq("kling"@, "ideogram"@)) by {
        lemma_contains_iff_occurs("kling"@, "ideogram"@);
    }
    assert(first_tool_from("kling"@, 9) == first_tool_from("kling"@, 10));
    assert(!contains_seq("kling"@, "flux"@)) by {
        lemma_contains_iff_occurs("kling"@, "flux"@);
        reveal_with_fuel(occurs_from, 7);
        reveal_with_fuel(agrees_from, 5);
    }
    assert(first_tool_from("kling"@, 8) == first_tool_from("kling"@, 9));
    assert(!contains_seq("kling"@, "imagen"@)) by {
        lemma_contains_iff_occurs("kling"@, "imagen"@);
    }
    assert(first_tool_from("kling"@, 7) == first_tool_from("kling"@, 8));
    assert(!contains_seq("kling"@, "firefly"@)) by {
        lemma_contains_iff_occurs("kling"@, "firefly"@);
    }
    assert(first_tool_from("kling"@, 6) == first_tool_from("kling"@, 7));
    assert(!contains_seq("kling"@, "stablediffusion"@)) by {
        lemma_contains_iff_occurs("kling"@, "stablediffusion"@);
    }
    assert(first_tool_from("kling"@, 5) == first_tool_from("kling"@, 6));
    assert(!contains_seq("kling"@, "stable-diffusion"@)) by {
        lemma_contains_iff_occurs("kling"@, "stable-diffusion"@);
    }
    assert(first_tool_from("kling"@, 4) == first_tool_from("kling"@, 5));
    assert(!contains_seq("kling"@, "stable diffusion"@)) by {
        lemma_contains_iff_occurs("kling"@, "stable diffusion"@);
    }
    assert(first_tool_from("kling"@, 3) == first_tool_from("kling"@, 4));
    assert(!contains_seq("kling"@, "midjourney"@)) by {
        lemma_contains_iff_occurs("kling"@, "midjourney"@);
    }
    assert(first_tool_from("kling"@, 2) == first_tool_from("kling"@, 3));
    assert(!contains_seq("kling"@, "dalle"@)) by {
        lemma_contains_iff_occurs("kling"@, "dalle"@);
        reveal_with_fuel(occurs_from, 7);
        reveal_with_fuel(agrees_from, 6);
    }
    assert(first_tool_from("kling"@, 1) == first_tool_from("kling"@, 2));
    assert(!contains_seq("kling"@, "dall-e"@)) by {
        lemma_contains_iff_occurs("kling"@, "dall-e"@);
    }
    assert(first_tool_from("kling"@, 0) == first_tool_from("kling"@, 1));
}

proof fn lemma_recognizes_vidu()
    ensures
        first_tool_from("vidu"@, 0) == Some("vidu"@),
{
    reveal_strlit("dall-e");
    reveal_strlit("dalle");
    reveal_strlit("firefly");
    reveal_strlit("flux");
    reveal_strlit("google veo");
    reveal_strlit("ideogram");
    reveal_strlit("imagen");
    reveal_strlit("kling");
    reveal_strlit("leonardo ai");
    reveal_strlit("leonardo.ai");
    reveal_strlit("midjourney");
    reveal_strlit("novelai");
    reveal_strlit("pika");
    reveal_strlit("runway");
    reveal_strlit("sora");
    reveal_strlit("stable diffusion");
    reveal_strlit("stable-diffusion");
    reveal_strlit("stablediffusion");
    reveal_strlit("vidu");
    assert(first_tool_from("vidu"@, 18) == Some("vidu"@)) by {
        assert("vidu"@.subrange(0, 4) =~= "vidu"@);
        assert(crate::text::matches_at("vidu"@, "vidu"@, 0));
    }
    assert(!contains_seq("vidu"@, "kling"@)) by {
        lemma_contains_iff_occurs("vidu"@, "kling"@);
    }
    assert(first_tool_from("vidu"@, 17) == first_tool_from("vidu"@, 18));
    assert(!contains_seq("vidu"@, "pika"@)) by {
        lemma_contains_iff_occurs("vidu"@, "pika"@);
        reveal_with_fuel(occurs_from, 6);
        reveal_with_fuel(agrees_from, 5);
    }
    assert(first_tool_from("vidu"@, 16) == first_tool_from("vidu"@, 17));
    assert(!contains_seq("vidu"@, "runway"@)) by {
        lemma_contains_iff_occurs("vidu"@, "runway"@);
    }
    assert(first_tool_from("vidu"@, 15) == first_tool_from("vidu"@, 16));
    assert(!contains_seq("vidu"@, "google veo"@)) by {
        lemma_contains_iff_occurs("vidu"@, "google veo"@);
    }
    assert(first_tool_from("vidu"@, 14) == first_tool_from("vidu"@, 15));
    assert(!contains_seq("vidu"@, "sora"@)) by {
        lemma_contains_iff_occurs("vidu"@, "sora"@);
        reveal_with_fuel(occurs_from, 6);
        reveal_with_fuel(agrees_from, 5);
    }
    assert(first_tool_from("vidu"@, 13) == first_tool_from("vidu"@, 14));
    assert(!contains_seq("vidu"@, "novelai"@)) by {
        lemma_contains_iff_occurs("vidu"@, "novelai"@);
    }
    assert(first_tool_from("vidu"@, 12) == first_tool_from("vidu"@, 13));
    assert(!contains_seq("vidu"@, "leonardo ai"@)) by {
        lemma_contains_iff_occurs("vidu"@, "leonardo ai"@);
    }
    assert(first_tool_from("vidu"@, 11) == first_tool_from("vidu"@, 12));
    assert(!contains_seq("vidu"@, "leonardo.ai"@)) by {
        lemma_contains_iff_occurs("vidu"@, "leonardo.ai"@);
    }
    assert(first_tool_from("vidu"@, 10) == first_tool_from("vidu"@, 11));
    assert(!contains_seq("vidu"@, "ideogram"@)) by {
        lemma_contains_iff_occurs("vidu"@, "ideogram"@);
    }
    assert(first_tool_from("vidu"@, 9) == first_tool_from("vidu"@, 10));
    assert(!contains_seq("vidu"@, "flux"@)) by {
        lemma_contains_iff_occurs("vidu"@, "flux"@);
        reveal_with_fuel(occurs_from, 6);
        reveal_with_fuel(agrees_from, 5);
    }
    assert(first_tool_from("vidu"@, 8) == first_tool_from("vidu"@, 9));
    assert(!contains_seq("vidu"@, "imagen"@)) by {
        lemma_contains_iff_occurs("vidu"@, "imagen"@);
    }
    assert(first_tool_from("vidu"@, 7) == first_tool_from("vidu"@, 8));
    assert(!contains_seq("vidu"@, "firefly"@)) by {
        lemma_contains_iff_occurs("vidu"@, "firefly"@);
    }
    assert(first_tool_from("vidu"@, 6) == first_tool_from("vidu"@, 7));
    assert(!contains_seq("vidu"@, "stablediffusion"@)) by {
        lemma_contains_iff_occurs("vidu"@, "stablediffusion"@);
    }
    assert(first_tool_from("vidu"@, 5) == first_tool_from("vidu"@, 6));
    assert(!contains_seq("vidu"@, "stable-diffusion"@)) by {
        lemma_contains_iff_occurs("vidu"@, "stable-diffusion"@);
    }
    assert(first_tool_from("vidu"@, 4) == first_tool_from("vidu"@, 5));
    assert(!contains_seq("vidu"@, "stable diffusion"@)) by {
        lemma_contains_iff_occurs("vidu"@, "stable diffusion"@);
    }
    assert(first_tool_from("vidu"@, 3) == first_tool_from("vidu"@, 4));
    assert(!contains_seq("vidu"@, "midjourney"@)) by {
        lemma_contains_iff_occurs("vidu"@, "midjourney"@);
    }
    assert(first_tool_from("vidu"@, 2) == first_tool_from("vidu"@, 3));
    assert(!contains_seq("vidu"@, "dalle"@)) by {
        lemma_contains_iff_occurs("vidu"@, "dalle"@);
    }
    assert(first_tool_from("vidu"@, 1) == first_tool_from("vidu"@, 2));
    assert(!contains_seq("vidu"@, "dall-e"@)) by {
        lemma_contains_iff_occurs("vidu"@, "dall-e"@);
    }
    assert(first_tool_from("vidu"@, 0) == first_tool_from("vidu"@, 1));
}

proof fn lemma_recognizes_gpt_4o()
    ensures
        first_tool_from("gpt-4o"@, 0) == Some("gpt-4o"@),
{
    reveal_strlit("dall-e");
    reveal_strlit("dalle");
    reveal_strlit("firefly");
    reveal_strlit("flux");
    reveal_strlit("google veo");
    reveal_strlit("gpt-4o");
    reveal_strlit("ideogram");
    reveal_strlit("imagen");
    reveal_strlit("kling");
    reveal_strlit("leonardo ai");
    reveal_strlit("leonardo.ai");
    reveal_strlit("midjourney");
    reveal_strlit("novelai");
    reveal_strlit("pika");
    reveal_strlit("runway");
    reveal_strlit("sora");
    reveal_strlit("stable diffusion");
    reveal_strlit("stable-diffusion");
    reveal_strlit("stablediffusion");
    reveal_strlit("vidu");
    assert(first_tool_from("gpt-4o"@, 19) == Some("gpt-4o"@)) by {
        assert("gpt-4o"@.subrange(0, 6) =~= "gpt-4o"@);
        assert(crate::text::matches_at("gpt-4o"@, "gpt-4o"@, 0));
    }
    assert(!contains_seq("gpt-4o"@, "vidu"@)) by {
        lemma_contains_iff_occurs("gpt-4o"@, "vidu"@);
        reveal_with_fuel(occurs_from, 8);
        reveal_with_fuel(agrees_from, 5);
    }
    assert(first_tool_from("gpt-4o"@, 18) == first_tool_from("gpt-4o"@, 19));
    assert(!contains_seq("gpt-4o"@, "kling"@)) by {
        lemma_contains_iff_occurs("gpt-4o"@, "kling"@);
        reveal_with_fuel(occurs_from, 8);
        reveal_with_fuel(agrees_from, 6);
    }
    assert(first_tool_from("gpt-4o"@, 17) == first_tool_from("gpt-4o"@, 18));
    assert(!contains_seq("gpt-4o"@, "pika"@)) by {
        lemma_contains_iff_occurs("gpt-4o"@, "pika"@);
        reveal_with_fuel(occurs_from, 8);
        reveal_with_fuel(agrees_from, 5);
    }
    assert(first_tool_from("gpt-4o"@, 16) == first_tool_from("gpt-4o"@, 17));
    assert(!contains_seq("gpt-4o"@, "runway"@)) by {
        lemma_contains_iff_occurs("gpt-4o"@, "runway"@);
        reveal_with_fuel(occurs_from, 8);
        reveal_with_fuel(agrees_from, 7);
    }
    assert(first_tool_from("gpt-4o"@, 15) == first_tool_from("gpt-4o"@, 16));
    assert(!contains_seq("gpt-4o"@, "google veo"@)) by {
        lemma_contains_iff_occurs("gpt-4o"@, "google veo"@);
    }
    assert(first_tool_from("gpt-4o"@, 14) == first_tool_from("gpt-4o"@, 15));
    assert(!contains_seq("gpt-4o"@, "sora"@)) by {
        lemma_contains_iff_occurs("gpt-4o"@, "sora"@);
        reveal_with_fuel(occurs_from, 8);
        reveal_with_fuel(agrees_from, 5);
    }
    assert(first_tool_from("gpt-4o"@, 13) == first_tool_from("gpt-4o"@, 14));
    assert(!contains_seq("gpt-4o"@, "novelai"@)) by {
        lemma_contains_iff_occurs("gpt-4o"@, "novelai"@);
    }
    assert(first_tool_from("gpt-4o"@, 12) == first_tool_from("gpt-4o"@, 13));
    assert(!contains_seq("gpt-4o"@, "leonardo ai"@)) by {
        lemma_contains_iff_occurs("gpt-4o"@, "leonardo ai"@);
    }
    assert(first_tool_from("gpt-4o"@, 11) == first_tool_from("gpt-4o"@, 12));
    assert(!contains_seq("gpt-4o"@, "leonardo.ai"@)) by {
        lemma_contains_iff_occurs("gpt-4o"@, "leonardo.ai"@);
    }
    assert(first_tool_from("gpt-4o"@, 10) == first_tool_from("gpt-4o"@, 11));
    assert(!contains_seq("gpt-4o"@, "ideogram"@)) by {
        lemma_contains_iff_occurs("gpt-4o"@, "ideogram"@);
    }
    assert(first_tool_from("gpt-4o"@, 9) == first_tool_from("gpt-4o"@, 10));
    assert(!contains_seq("gpt-4o"@, "flux"@)) by {
        lemma_contains_iff_occurs("gpt-4o"@, "flux"@);
        reveal_with_fuel(occurs_from, 8);
        reveal_with_fuel(agrees_from, 5);
    }
    assert(first_tool_from("gpt-4o"@, 8) == first_tool_from("gpt-4o"@, 9));
    assert(!contains_seq("gpt-4o"@, "imagen"@)) by {
        lemma_contains_iff_occurs("gpt-4o"@, "imagen"@);
        reveal_with_fuel(occurs_from, 8);
        reveal_with_fuel(agrees_from, 7);
    }
    assert(first_tool_from("gpt-4o"@, 7) == first_tool_from("gpt-4o"@, 8));
    assert(!contains_seq("gpt-4o"@, "firefly"@)) by {
        lemma_contains_iff_occurs("gpt-4o"@, "firefly"@);
    }
    assert(first_tool_from("gpt-4o"@, 6) == first_tool_from("gpt-4o"@, 7));
    assert(!contains_seq("gpt-4o"@, "stablediffusion"@)) by {
        lemma_contains_iff_occurs("gpt-4o"@, "stablediffusion"@);
    }
    assert(first_tool_from("gpt-4o"@, 5) == first_tool_from("gpt-4o"@, 6));
    assert(!contains_seq("gpt-4o"@, "stable-diffusion"@)) by {
        lemma_contains_iff_occurs("gpt-4o"@, "stable-diffusion"@);
    }
    assert(first_tool_from("gpt-4o"@, 4) == first_tool_from("gpt-4o"@, 5));
    assert(!contains_seq("gpt-4o"@, "stable diffusion"@)) by {
        lemma_contains_iff_occurs("gpt-4o"@, "stable diffusion"@);
    }
    assert(first_tool_from("gpt-4o"@, 3) == first_tool_from("gpt-4o"@, 4));
    assert(!contains_seq("gpt-4o"@, "midjourney"@)) by {
        lemma_contains_iff_occurs("gpt-4o"@, "midjourney"@);
    }
    assert(first_tool_from("gpt-4o"@, 2) == first_tool_from("gpt-4o"@, 3));
    assert(!contains_seq("gpt-4o"@, "dalle"@)) by {
        lemma_contains_iff_occurs("gpt-4o"@, "dalle"@);
        reveal_with_fuel(occurs_from, 8);
        reveal_with_fuel(agrees_from, 6);
    }
    assert(first_tool_from("gpt-4o"@, 1) == first_tool_from("gpt-4o"@, 2));
    assert(!contains_seq("gpt-4o"@, "dall-e"@)) by {
        lemma_contains_iff_occurs("gpt-4o"@, "dall-e"@);
        reveal_with_fuel(occurs_from, 8);
        reveal_with_fuel(agrees_from, 7);
    }
    assert(first_tool_from("gpt-4o"@, 0) == first_tool_from("gpt-4o"@, 1));
}

proof fn lemma_recognizes_gpt_4()
    ensures
        first_tool_from("gpt-4"@, 0) == Some("gpt-4"@),
{
    reveal_strlit("dall-e");
    reveal_strlit("dalle");
    reveal_strlit("firefly");
    reveal_strlit("flux");
    reveal_strlit("google veo");
    reveal_strlit("gpt image");
    reveal_strlit("gpt-4");
    reveal_strlit("gpt-4o");
    reveal_strlit("gpt-image");
    reveal_strlit("ideogram");
    reveal_strlit("imagen");
    reveal_strlit("kling");
    reveal_strlit("leonardo ai");
    reveal_strlit("leonardo.ai");
    reveal_strlit("midjourney");
    reveal_strlit("novelai");
    reveal_strlit("pika");
    reveal_strlit("runway");
    reveal_strlit("sora");
    reveal_strlit("stable diffusion");
    reveal_strlit("stable-diffusion");
    reveal_strlit("stablediffusion");
    reveal_strlit("vidu");
    assert(first_tool_from("gpt-4"@, 22) == Some("gpt-4"@)) by {
        assert("gpt-4"@.subrange(0, 5) =~= "gpt-4"@);
        assert(crate::text::matches_at("gpt-4"@, "gpt-4"@, 0));
    }
    assert(!contains_seq("gpt-4"@, "gpt-image"@)) by {
        lemma_contains_iff_occurs("gpt-4"@, "gpt-image"@);
    }
    assert(first_tool_from("gpt-4"@, 21) == first_tool_from("gpt-4"@, 22));
    assert(!contains_seq("gpt-4"@, "gpt image"@)) by {
        lemma_contains_iff_occurs("gpt-4"@, "gpt image"@);
    }
    assert(first_tool_from("gpt-4"@, 20) == first_tool_from("gpt-4"@, 21));
    assert(!contains_seq("gpt-4"@, "gpt-4o"@)) by {
        lemma_contains_iff_occurs("gpt-4"@, "gpt-4o"@);
    }
    assert(first_tool_from("gpt-4"@, 19) == first_tool_from("gpt-4"@, 20));
    assert(!contains_seq("gpt-4"@, "vidu"@)) by {
        lemma_contains_iff_occurs("gpt-4"@, "vidu"@);
        reveal_with_fuel(occurs_from, 7);
        reveal_with_fuel(agrees_from, 5);
    }
    assert(first_tool_from("gpt-4"@, 18) == first_tool_from("gpt-4"@, 19));
    assert(!contains_seq("gpt-4"@, "kling"@)) by {
        lemma_contains_iff_occurs("gpt-4"@, "kling"@);
        reveal_with_fuel(occurs_from, 7);
        reveal_with_fuel(agrees_from, 6);
    }
    assert(first_tool_from("gpt-4"@, 17) == first_tool_from("gpt-4"@, 18));
    assert(!contains_seq("gpt-4"@, "pika"@)) by {
        lemma_contains_iff_occurs("gpt-4"@, "pika"@);
        reveal_with_fuel(occurs_from, 7);
        reveal_with_fuel(agrees_from, 5);
    }
    assert(first_tool_from("gpt-4"@, 16) == first_tool_from("gpt-4"@, 17));
    assert(!contains_seq("gpt-4"@, "runway"@)) by {
        lemma_contains_iff_occurs("gpt-4"@, "runway"@);
    }
    assert(first_tool_from("gpt-4"@, 15) == first_tool_from("gpt-4"@, 16));
    assert(!contains_seq("gpt-4"@, "google veo"@)) by {
        lemma_contains_iff_occurs("gpt-4"@, "google veo"@);
    }
    assert(first_tool_from("gpt-4"@, 14) == first_tool_from("gpt-4"@, 15));
    assert(!contains_seq("gpt-4"@, "sora"@)) by {
        lemma_contains_iff_occurs("gpt-4"@, "sora"@);
        reveal_with_fuel(occurs_from, 7);
        reveal_with_fuel(agrees_from, 5);
    }
    assert(first_tool_from("gpt-4"@, 13) == first_tool_from("gpt-4"@, 14));
    assert(!contains_seq("gpt-4"@, "novelai"@)) by {
        lemma_contains_iff_occurs("gpt-4"@, "novelai"@);
    }
    assert(first_tool_from("gpt-4"@, 12) == first_tool_from("gpt-4"@, 13));
    assert(!contains_seq("gpt-4"@, "leonardo ai"@)) by {
        lemma_contains_iff_occurs("gpt-4"@, "leonardo ai"@);
    }
    assert(first_tool_from("gpt-4"@, 11) == first_tool_from("gpt-4"@, 12));
    assert(!contains_seq("gpt-4"@, "leonardo.ai"@)) by {
        lemma_contains_iff_occurs("gpt-4"@, "leonardo.ai"@);
    }
    assert(first_tool_from("gpt-4"@, 10) == first_tool_from("gpt-4"@, 11));
    assert(!contains_seq("gpt-4"@, "ideogram"@)) by {
        lemma_contains_iff_occurs("gpt-4"@, "ideogram"@);
    }
    assert(first_tool_from("gpt-4"@, 9) == first_tool_from("gpt-4"@, 10));
    assert(!contains_seq("gpt-4"@, "flux"@)) by {
        lemma_contains_iff_occurs("gpt-4"@, "flux"@);
        reveal_with_fuel(occurs_from, 7);
        reveal_with_fuel(agrees_from, 5);
    }
    assert(first_tool_from("gpt-4"@, 8) == first_tool_from("gpt-4"@, 9));
    assert(!contains_seq("gpt-4"@, "imagen"@)) by {
        lemma_contains_iff_occurs("gpt-4"@, "imagen"@);
    }
    assert(first_tool_from("gpt-4"@, 7) == first_tool_from("gpt-4"@, 8));
    assert(!contains_seq("gpt-4"@, "firefly"@)) by {
        lemma_contains_iff_occurs("gpt-4"@, "firefly"@);
    }
    assert(first_tool_from("gpt-4"@, 6) == first_tool_from("gpt-4"@, 7));
    assert(!contains_seq("gpt-4"@, "stablediffusion"@)) by {
        lemma_contains_iff_occurs("gpt-4"@, "stablediffusion"@);
    }
    assert(first_tool_from("gpt-4"@, 5) == first_tool_from("gpt-4"@, 6));
    assert(!contains_seq("gpt-4"@, "stable-diffusion"@)) by {
        lemma_contains_iff_occurs("gpt-4"@, "stable-diffusion"@);
    }
    assert(first_tool_from("gpt-4"@, 4) == first_tool_from("gpt-4"@, 5));
    assert(!contains_seq("gpt-4"@, "stable diffusion"@)) by {
        lemma_contains_iff_occurs("gpt-4"@, "stable diffusion"@);
    }
    assert(first_tool_from("gpt-4"@, 3) == first_tool_from("gpt-4"@, 4));
    assert(!contains_seq("gpt-4"@, "midjourney"@)) by {
        lemma_contains_iff_occurs("gpt-4"@, "midjourney"@);
    }
    assert(first_tool_from("gpt-4"@, 2) == first_tool_from("gpt-4"@, 3));
    assert(!contains_seq("gpt-4"@, "dalle"@)) by {
        lemma_contains_iff_occurs("gpt-4"@, "dalle"@);
        reveal_with_fuel(occurs_from, 7);
        reveal_with_fuel(agrees_from, 6);
    }
    assert(first_tool_from("gpt-4"@, 1) == first_tool_from("gpt-4"@, 2));
    assert(!contains_seq("gpt-4"@, "dall-e"@)) by {
        lemma_contains_iff_occurs("gpt-4"@, "dall-e"@);
    }
    assert(first_tool_from("gpt-4"@, 0) == first_tool_from("gpt-4"@, 1));
}

proof fn lemma_recognizes_chatgpt()
    ensures
        first_tool_from("chatgpt"@, 0) == Some("chatgpt"@),
{
    reveal_strlit("chatgpt");
    reveal_strlit("dall-e");
    reveal_strlit("dalle");
    reveal_strlit("firefly");
    reveal_strlit("flux");
    reveal_strlit("google veo");
    reveal_strlit("gpt image");
    reveal_strlit("gpt-4");
    reveal_strlit("gpt-4o");
    reveal_strlit("gpt-image");
    reveal_strlit("ideogram");
    reveal_strlit("imagen");
    reveal_strlit("kling");
    reveal_strlit("leonardo ai");
    reveal_strlit("leonardo.ai");
    reveal_strlit("midjourney");
    reveal_strlit("novelai");
    reveal_strlit("pika");
    reveal_strlit("runway");
    reveal_strlit("sora");
    reveal_strlit("stable diffusion");
    reveal_strlit("stable-diffusion");
    reveal_strlit("stablediffusion");
    reveal_strlit("vidu");
    assert(first_tool_from("chatgpt"@, 23) == Some("chatgpt"@)) by {
        assert("chatgpt"@.subrange(0, 7) =~= "chatgpt"@);
        assert(crate::text::matches_at("chatgpt"@, "chatgpt"@, 0));
    }
    assert(!contains_seq("chatgpt"@, "gpt-4"@)) by {
        lemma_contains_iff_occurs("chatgpt"@, "gpt-4"@);
        reveal_with_fuel(occurs_from, 9);
        reveal_with_fuel(agrees_from, 6);
    }
    assert(first_tool_from("chatgpt"@, 22) == first_tool_from("chatgpt"@, 23));
    assert(!contains_seq("chatgpt"@, "gpt-image"@)) by {
        lemma_contains_iff_occurs("chatgpt"@, "gpt-image"@);
    }
    assert(first_tool_from("chatgpt"@, 21) == first_tool_from("chatgpt"@, 22));
    assert(!contains_seq("chatgpt"@, "gpt image"@)) by {
        lemma_contains_iff_occurs("chatgpt"@, "gpt image"@);
    }
    assert(first_tool_from("chatgpt"@, 20) == first_tool_from("chatgpt"@, 21));
    assert(!contains_seq("chatgpt"@, "gpt-4o"@)) by {
        lemma_contains_iff_occurs("chatgpt"@, "gpt-4o"@);
        reveal_with_fuel(occurs_from, 9);
        reveal_with_fuel(agrees_from, 7);
    }
    assert(first_tool_from("chatgpt"@, 19) == first_tool_from("chatgpt"@, 20));
    assert(!contains_seq("chatgpt"@, "vidu"@)) by {
        lemma_contains_iff_occurs("chatgpt"@, "vidu"@);
        reveal_with_fuel(occurs_from, 9);
        reveal_with_fuel(agrees_from, 5);
    }
    assert(first_tool_from("chatgpt"@, 18) == first_tool_from("chatgpt"@, 19));
    assert(!contains_seq("chatgpt"@, "kling"@)) by {
        lemma_contains_iff_occurs("chatgpt"@, "kling"@);
        reveal_with_fuel(occurs_from, 9);
        reveal_with_fuel(agrees_from, 6);
    }
    assert(first_tool_from("chatgpt"@, 17) == first_tool_from("chatgpt"@, 18));
    assert(!contains_seq("chatgpt"@, "pika"@)) by {
        lemma_contains_iff_occurs("chatgpt"@, "pika"@);
        reveal_with_fuel(occurs_from, 9);
        reveal_with_fuel(agrees_from, 5);
    }
    assert(first_tool_from("chatgpt"@, 16) == first_tool_from("chatgpt"@, 17));
    assert(!contains_seq("chatgpt"@, "runway"@)) by {
        lemma_contains_iff_occurs("chatgpt"@, "runway"@);
        reveal_with_fuel(occurs_from, 9);
        reveal_with_fuel(agrees_from, 7);
    }
    assert(first_tool_from("chatgpt"@, 15) == first_tool_from("chatgpt"@, 16));
    assert(!contains_seq("chatgpt"@, "google veo"@)) by {
        lemma_contains_iff_occurs("chatgpt"@, "google veo"@);
    }
    assert(first_tool_from("chatgpt"@, 14) == first_tool_from("chatgpt"@, 15));
    assert(!contains_seq("chatgpt"@, "sora"@)) by {
        lemma_contains_iff_occurs("chatgpt"@, "sora"@);
        reveal_with_fuel(occurs_from, 9);
        reveal_with_fuel(agrees_from, 5);
    }
    assert(first_tool_from("chatgpt"@, 13) == first_tool_from("chatgpt"@, 14));
    assert(!contains_seq("chatgpt"@, "novelai"@)) by {
        lemma_contains_iff_occurs("chatgpt"@, "novelai"@);
        reveal_with_fuel(occurs_from, 9);
        reveal_with_fuel(agrees_from, 8);
    }
    assert(first_tool_from("chatgpt"@, 12) == first_tool_from("chatgpt"@, 13));
    assert(!contains_seq("chatgpt"@, "leonardo ai"@)) by {
        lemma_contains_iff_occurs("chatgpt"@, "leonardo ai"@);
    }
    assert(first_tool_from("chatgpt"@, 11) == first_tool_from("chatgpt"@, 12));
    assert(!contains_seq("chatgpt"@, "leonardo.ai"@)) by {
        lemma_contains_iff_occurs("chatgpt"@, "leonardo.ai"@);
    }
    assert(first_tool_from("chatgpt"@, 10) == first_tool_from("chatgpt"@, 11));
    assert(!contains_seq("chatgpt"@, "ideogram"@)) by {
        lemma_contains_iff_occurs("chatgpt"@, "ideogram"@);
    }
    assert(first_tool_from("chatgpt"@, 9) == first_tool_from("chatgpt"@, 10));
    assert(!contains_seq("chatgpt"@, "flux"@)) by {
        lemma_contains_iff_occurs("chatgpt"@, "flux"@);
        reveal_with_fuel(occurs_from, 9);
        reveal_with_fuel(agrees_from, 5);
    }
    assert(first_tool_from("chatgpt"@, 8) == first_tool_from("chatgpt"@, 9));
    assert(!contains_seq("chatgpt"@, "imagen"@)) by {
        lemma_contains_iff_occurs("chatgpt"@, "imagen"@);
        reveal_with_fuel(occurs_from, 9);
        reveal_with_fuel(agrees_from, 7);
    }
    assert(first_tool_from("chatgpt"@, 7) == first_tool_from("chatgpt"@, 8));
    assert(!contains_seq("chatgpt"@, "firefly"@)) by {
        lemma_contains_iff_occurs("chatgpt"@, "firefly"@);
        reveal_with_fuel(occurs_from, 9);
        reveal_with_fuel(agrees_from, 8);
    }
    assert(first_tool_from("chatgpt"@, 6) == first_tool_from("chatgpt"@, 7));
    assert(!contains_seq("chatgpt"@, "stablediffusion"@)) by {
        lemma_contains_iff_occurs("chatgpt"@, "stablediffusion"@);
    }
    assert(first_tool_from("chatgpt"@, 5) == first_tool_from("chatgpt"@, 6));
    assert(!contains_seq("chatgpt"@, "stable-diffusion"@)) by {
        lemma_contains_iff_occurs("chatgpt"@, "stable-diffusion"@);
    }
    assert(first_tool_from("chatgpt"@, 4) == first_tool_from("chatgpt"@, 5));
    assert(!contains_seq("chatgpt"@, "stable diffusion"@)) by {
        lemma_contains_iff_occurs("chatgpt"@, "stable diffusion"@);
    }
    assert(first_tool_from("chatgpt"@, 3) == first_tool_from("chatgpt"@, 4));
    assert(!contains_seq("chatgpt"@, "midjourney"@)) by {
        lemma_contains_iff_occurs("chatgpt"@, "midjourney"@);
    }
    assert(first_tool_from("chatgpt"@, 2) == first_tool_from("chatgpt"@, 3));
    assert(!contains_seq("chatgpt"@, "dalle"@)) by {
        lemma_contains_iff_occurs("chatgpt"@, "dalle"@);
        reveal_with_fuel(occurs_from, 9);
        reveal_with_fuel(agrees_from, 6);
    }
    assert(first_tool_from("chatgpt"@, 1) == first_tool_from("chatgpt"@, 2));
    assert(!contains_seq("chatgpt"@, "dall-e"@)) by {
        lemma_contains_iff_occurs("chatgpt"@, "dall-e"@);
        reveal_with_fuel(occurs_from, 9);
        reveal_with_fuel(agrees_from, 7);
    }
    assert(first_tool_from("chatgpt"@, 0) == first_tool_from("chatgpt"@, 1));
}

proof fn lemma_recognizes_openai()
    ensures
        first_tool_from("openai"@, 0) == Some("openai"@),
{
    reveal_strlit("chatgpt");
    reveal_strlit("dall-e");
    reveal_strlit("dalle");
    reveal_strlit("firefly");
    reveal_strlit("flux");
    reveal_strlit("google veo");
    reveal_strlit("gpt image");
    reveal_strlit("gpt-4");
    reveal_strlit("gpt-4o");
    reveal_strlit("gpt-image");
    reveal_strlit("ideogram");
    reveal_strlit("imagen");
    reveal_strlit("kling");
    reveal_strlit("leonardo ai");
    reveal_strlit("leonardo.ai");
    reveal_strlit("midjourney");
    reveal_strlit("novelai");
    reveal_strlit("openai");
    reveal_strlit("pika");
    reveal_strlit("runway");
    reveal_strlit("sora");
    reveal_strlit("stable diffusion");
    reveal_strlit("stable-diffusion");
    reveal_strlit("stablediffusion");
    reveal_strlit("vidu");
    assert(first_tool_from("openai"@, 24) == Some("openai"@)) by {
        assert("openai"@.subrange(0, 6) =~= "openai"@);
        assert(crate::text::matches_at("openai"@, "openai"@, 0));
    }
    assert(!contains_seq("openai"@, "chatgpt"@)) by {
        lemma_contains_iff_occurs("openai"@, "chatgpt"@);
    }
    assert(first_tool_from("openai"@, 23) == first_tool_from("openai"@, 24));
    assert(!contains_seq("openai"@, "gpt-4"@)) by {
        lemma_contains_iff_occurs("openai"@, "gpt-4"@);
        reveal_with_fuel(occurs_from, 8);
        reveal_with_fuel(agrees_from, 6);
    }
    assert(first_tool_from("openai"@, 22) == first_tool_from("openai"@, 23));
    assert(!contains_seq("openai"@, "gpt-image"@)) by {
        lemma_contains_iff_occurs("openai"@, "gpt-image"@);
    }
    assert(first_tool_from("openai"@, 21) == first_tool_from("openai"@, 22));
    assert(!contains_seq("openai"@, "gpt image"@)) by {
        lemma_contains_iff_occurs("openai"@, "gpt image"@);
    }
    assert(first_tool_from("openai"@, 20) == first_tool_from("openai"@, 21));
    assert(!contains_seq("openai"@, "gpt-4o"@)) by {
        lemma_contains_iff_occurs("openai"@, "gpt-4o"@);
        reveal_with_fuel(occurs_from, 8);
        reveal_with_fuel(agrees_from, 7);
    }
    assert(first_tool_from("openai"@, 19) == first_tool_from("openai"@, 20));
    assert(!contains_seq("openai"@, "vidu"@)) by {
        lemma_contains_iff_occurs("openai"@, "vidu"@);
        reveal_with_fuel(occurs_from, 8);
        reveal_with_fuel(agrees_from, 5);
    }
    assert(first_tool_from("openai"@, 18) == first_tool_from("openai"@, 19));
    assert(!contains_seq("openai"@, "kling"@)) by {
        lemma_contains_iff_occurs("openai"@, "kling"@);
        reveal_with_fuel(occurs_from, 8);
        reveal_with_fuel(agrees_from, 6);
    }
    assert(first_tool_from("openai"@, 17) == first_tool_from("openai"@, 18));
    assert(!contains_seq("openai"@, "pika"@)) by {
        lemma_contains_iff_occurs("openai"@, "pika"@);
        reveal_with_fuel(occurs_from, 8);
        reveal_with_fuel(agrees_from, 5);
    }
    assert(first_tool_from("openai"@, 16) == first_tool_from("openai"@, 17));
    assert(!contains_seq("openai"@, "runway"@)) by {
        lemma_contains_iff_occurs("openai"@, "runway"@);
        reveal_with_fuel(occurs_from, 8);
        reveal_with_fuel(agrees_from, 7);
    }
    assert(first_tool_from("openai"@, 15) == first_tool_from("openai"@, 16));
    assert(!contains_seq("openai"@, "google veo"@)) by {
        lemma_contains_iff_occurs("openai"@, "google veo"@);
    }
    assert(first_tool_from("openai"@, 14) == first_tool_from("openai"@, 15));
    assert(!contains_seq("openai"@, "sora"@)) by {
        lemma_contains_iff_occurs("openai"@, "sora"@);
        reveal_with_fuel(occurs_from, 8);
        reveal_with_fuel(agrees_from, 5);
    }
    assert(first_tool_from("openai"@, 13) == first_tool_from("openai"@, 14));
    assert(!contains_seq("openai"@, "novelai"@)) by {
        lemma_contains_iff_occurs("openai"@, "novelai"@);
    }
    assert(first_tool_from("openai"@, 12) == first_tool_from("openai"@, 13));
    assert(!contains_seq("openai"@, "leonardo ai"@)) by {
        lemma_contains_iff_occurs("openai"@, "leonardo ai"@);
    }
    assert(first_tool_from("openai"@, 11) == first_tool_from("openai"@, 12));
    assert(!contains_seq("openai"@, "leonardo.ai"@)) by {
        lemma_contains_iff_occurs("openai"@, "leonardo.ai"@);
    }
    assert(first_tool_from("openai"@, 10) == first_tool_from("openai"@, 11));
    assert(!contains_seq("openai"@, "ideogram"@)) by {
        lemma_contains_iff_occurs("openai"@, "ideogram"@);
    }
    assert(first_tool_from("openai"@, 9) == first_tool_from("openai"@, 10));
    assert(!contains_seq("openai"@, "flux"@)) by {
        lemma_contains_iff_occurs("openai"@, "flux"@);
        reveal_with_fuel(occurs_from, 8);
        reveal_with_fuel(agrees_from, 5);
    }
    assert(first_tool_from("openai"@, 8) == first_tool_from("openai"@, 9));
    assert(!contains_seq("openai"@, "imagen"@)) by {
        lemma_contains_iff_occurs("openai"@, "imagen"@);
        reveal_with_fuel(occurs_from, 8);
        reveal_with_fuel(agrees_from, 7);
    }
    assert(first_tool_from("openai"@, 7) == first_tool_from("openai"@, 8));
    assert(!contains_seq("openai"@, "firefly"@)) by {
        lemma_contains_iff_occurs("openai"@, "firefly"@);
    }
    assert(first_tool_from("openai"@, 6) == first_tool_from("openai"@, 7));
    assert(!contains_seq("openai"@, "stablediffusion"@)) by {
        lemma_contains_iff_occurs("openai"@, "stablediffusion"@);
    }
    assert(first_tool_from("openai"@, 5) == first_tool_from("openai"@, 6));
    assert(!contains_seq("openai"@, "stable-diffusion"@)) by {
        lemma_contains_iff_occurs("openai"@, "stable-diffusion"@);
    }
    assert(first_tool_from("openai"@, 4) == first_tool_from("openai"@, 5));
    assert(!contains_seq("openai"@, "stable diffusion"@)) by {
        lemma_contains_iff_occurs("openai"@, "stable diffusion"@);
    }
    assert(first_tool_from("openai"@, 3) == first_tool_from("openai"@, 4));
    assert(!contains_seq("openai"@, "midjourney"@)) by {
        lemma_contains_iff_occurs("openai"@, "midjourney"@);
    }
    assert(first_tool_from("openai"@, 2) == first_tool_from("openai"@, 3));
    assert(!contains_seq("openai"@, "dalle"@)) by {
        lemma_contains_iff_occurs("openai"@, "dalle"@);
        reveal_with_fuel(occurs_from, 8);
        reveal_with_fuel(agrees_from, 6);
    }
    assert(first_tool_from("openai"@, 1) == first_tool_from("openai"@, 2));
    assert(!contains_seq("openai"@, "dall-e"@)) by {
        lemma_contains_iff_occurs("openai"@, "dall-e"@);
        reveal_with_fuel(occurs_from, 8);
        reveal_with_fuel(agrees_from, 7);
    }
    assert(first_tool_from("openai"@, 0) == first_tool_from("openai"@, 1));
}

proof fn lemma_recognizes_gpt_image()
    ensures
        first_tool_from("gpt image"@, 0) == Some("gpt image"@),
{
    reveal_strlit("dall-e");
    reveal_strlit("dalle");
    reveal_strlit("firefly");
    reveal_strlit("flux");
    reveal_strlit("google veo");
    reveal_strlit("gpt image");
    reveal_strlit("gpt-4o");
    reveal_strlit("ideogram");
    reveal_strlit("imagen");
    reveal_strlit("kling");
    reveal_strlit("leonardo ai");
    reveal_strlit("leonardo.ai");
    reveal_strlit("midjourney");
    reveal_strlit("novelai");
    reveal_strlit("pika");
    reveal_strlit("runway");
    reveal_strlit("sora");
    reveal_strlit("stable diffusion");
    reveal_strlit("stable-diffusion");
    reveal_strlit("stablediffusion");
    reveal_strlit("vidu");
    assert(first_tool_from("gpt image"@, 20) == Some("gpt image"@)) by {
        assert("gpt image"@.subrange(0, 9) =~= "gpt image"@);
        assert(crate::text::matches_at("gpt image"@, "gpt image"@, 0));
    }
    assert(!contains_seq("gpt image"@, "gpt-4o"@)) by {
        lemma_contains_iff_occurs("gpt image"@, "gpt-4o"@);
        reveal_with_fuel(occurs_from, 11);
        reveal_with_fuel(agrees_from, 7);
    }
    assert(first_tool_from("gpt image"@, 19) == first_tool_from("gpt image"@, 20));
    assert(!contains_seq("gpt image"@, "vidu"@)) by {
        lemma_contains_iff_occurs("gpt image"@, "vidu"@);
        reveal_with_fuel(occurs_from, 11);
        reveal_with_fuel(agrees_from, 5);
    }
    assert(first_tool_from("gpt image"@, 18) == first_tool_from("gpt image"@, 19));
    assert(!contains_seq("gpt image"@, "kling"@)) by {
        lemma_contains_iff_occurs("gpt image"@, "kling"@);
        reveal_with_fuel(occurs_from, 11);
        reveal_with_fuel(agrees_from, 6);
    }
    assert(first_tool_from("gpt image"@, 17) == first_tool_from("gpt image"@, 18));
    assert(!contains_seq("gpt image"@, "pika"@)) by {
        lemma_contains_iff_occurs("gpt image"@, "pika"@);
        reveal_with_fuel(occurs_from, 11);
        reveal_with_fuel(agrees_from, 5);
    }
    assert(first_tool_from("gpt image"@, 16) == first_tool_from("gpt image"@, 17));
    assert(!contains_seq("gpt image"@, "runway"@)) by {
        lemma_contains_iff_occurs("gpt image"@, "runway"@);
        reveal_with_fuel(occurs_from, 11);
        reveal_with_fuel(agrees_from, 7);
    }
    assert(first_tool_from("gpt image"@, 15) == first_tool_from("gpt image"@, 16));
    assert(!contains_seq("gpt image"@, "google veo"@)) by {
        lemma_contains_iff_occurs("gpt image"@, "google veo"@);
    }
    assert(first_tool_from("gpt image"@, 14) == first_tool_from("gpt image"@, 15));
    assert(!contains_seq("gpt image"@, "sora"@)) by {
        lemma_contains_iff_occurs("gpt image"@, "sora"@);
        reveal_with_fuel(occurs_from, 11);
        reveal_with_fuel(agrees_from, 5);
    }
    assert(first_tool_from("gpt image"@, 13) == first_tool_from("gpt image"@, 14));
    assert(!contains_seq("gpt image"@, "novelai"@)) by {
        lemma_contains_iff_occurs("gpt image"@, "novelai"@);
        reveal_with_fuel(occurs_from, 11);
        reveal_with_fuel(agrees_from, 8);
    }
    assert(first_tool_from("gpt image"@, 12) == first_tool_from("gpt image"@, 13));
    assert(!contains_seq("gpt image"@, "leonardo ai"@)) by {
        lemma_contains_iff_occurs("gpt image"@, "leonardo ai"@);
    }
    assert(first_tool_from("gpt image"@, 11) == first_tool_from("gpt image"@, 12));
    assert(!contains_seq("gpt image"@, "leonardo.ai"@)) by {
        lemma_contains_iff_occurs("gpt image"@, "leonardo.ai"@);
    }
    assert(first_tool_from("gpt image"@, 10) == first_tool_from("gpt image"@, 11));
    assert(!contains_seq("gpt image"@, "ideogram"@)) by {
        lemma_contains_iff_occurs("gpt image"@, "ideogram"@);
        reveal_with_fuel(occurs_from, 11);
        reveal_with_fuel(agrees_from, 9);
    }
    assert(first_tool_from("gpt image"@, 9) == first_tool_from("gpt image"@, 10));
    assert(!contains_seq("gpt image"@, "flux"@)) by {
        lemma_contains_iff_occurs("gpt image"@, "flux"@);
        reveal_with_fuel(occurs_from, 11);
        reveal_with_fuel(agrees_from, 5);
    }
    assert(first_tool_from("gpt image"@, 8) == first_tool_from("gpt image"@, 9));
    assert(!contains_seq("gpt image"@, "imagen"@)) by {
        lemma_contains_iff_occurs("gpt image"@, "imagen"@);
        reveal_with_fuel(occurs_from, 11);
        reveal_with_fuel(agrees_from, 7);
    }
    assert(first_tool_from("gpt image"@, 7) == first_tool_from("gpt image"@, 8));
    assert(!contains_seq("gpt image"@, "firefly"@)) by {
        lemma_contains_iff_occurs("gpt image"@, "firefly"@);
        reveal_with_fuel(occurs_from, 11);
        reveal_with_fuel(agrees_from, 8);
    }
    assert(first_tool_from("gpt image"@, 6) == first_tool_from("gpt image"@, 7));
    assert(!contains_seq("gpt image"@, "stablediffusion"@)) by {
        lemma_contains_iff_occurs("gpt image"@, "stablediffusion"@);
    }
    assert(first_tool_from("gpt image"@, 5) == first_tool_from("gpt image"@, 6));
    assert(!contains_seq("gpt image"@, "stable-diffusion"@)) by {
        lemma_contains_iff_occurs("gpt image"@, "stable-diffusion"@);
    }
    assert(first_tool_from("gpt image"@, 4) == first_tool_from("gpt image"@, 5));
    assert(!contains_seq("gpt image"@, "stable diffusion"@)) by {
        lemma_contains_iff_occurs("gpt image"@, "stable diffusion"@);
    }
    assert(first_tool_from("gpt image"@, 3) == first_tool_from("gpt image"@, 4));
    assert(!contains_seq("gpt image"@, "midjourney"@)) by {
        lemma_contains_iff_occurs("gpt image"@, "midjourney"@);
    }
    assert(first_tool_from("gpt image"@, 2) == first_tool_from("gpt image"@, 3));
    assert(!contains_seq("gpt image"@, "dalle"@)) by {
        lemma_contains_iff_occurs("gpt image"@, "dalle"@);
        reveal_with_fuel(occurs_from, 11);
        reveal_with_fuel(agrees_from, 6);
    }
    assert(first_tool_from("gpt image"@, 1) == first_tool_from("gpt image"@, 2));
    assert(!contains_seq("gpt image"@, "dall-e"@)) by {
        lemma_contains_iff_occurs("gpt image"@, "dall-e"@);
        reveal_with_fuel(occurs_from, 11);
        reveal_with_fuel(agrees_from, 7);
    }
    assert(first_tool_from("gpt image"@, 0) == first_tool_from("gpt image"@, 1));
}

proof fn lemma_recognizes_bing_image_creator()
    ensures
        first_tool_from("bing image creator"@, 0) == Some("bing image creator"@),
{
    reveal_strlit("bing image creator");
    reveal_strlit("chatgpt");
    reveal_strlit("dall-e");
    reveal_strlit("dalle");
    reveal_strlit("firefly");
    reveal_strlit("flux");
    reveal_strlit("google veo");
    reveal_strlit("gpt image");
    reveal_strlit("gpt-4");
    reveal_strlit("gpt-4o");
    reveal_strlit("gpt-image");
    reveal_strlit("ideogram");
    reveal_strlit("imagen");
    reveal_strlit("kling");
    reveal_strlit("leonardo ai");
    reveal_strlit("leonardo.ai");
    reveal_strlit("midjourney");
    reveal_strlit("novelai");
    reveal_strlit("openai");
    reveal_strlit("pika");
    reveal_strlit("runway");
    reveal_strlit("sora");
    reveal_strlit("stable diffusion");
    reveal_strlit("stable-diffusion");
    reveal_strlit("stablediffusion");
    reveal_strlit("vidu");
    assert(first_tool_from("bing image creator"@, 25) == Some("bing image creator"@)) by {
        assert("bing image creator"@.subrange(0, 18) =~= "bing image creator"@);
        assert(crate::text::matches_at("bing image creator"@, "bing image creator"@, 0));
    }
    assert(!contains_seq("bing image creator"@, "openai"@)) by {
        lemma_contains_iff_occurs("bing image creator"@, "openai"@);
        reveal_with_fuel(occurs_from, 20);
        reveal_with_fuel(agrees_from, 7);
    }
    assert(first_tool_from("bing image creator"@, 24) == first_tool_from("bing image creator"@, 25));
    assert(!contains_seq("bing image creator"@, "chatgpt"@)) by {
        lemma_contains_iff_occurs("bing image creator"@, "chatgpt"@);
        reveal_with_fuel(occurs_from, 20);
        reveal_with_fuel(agrees_from, 8);
    }
    assert(first_tool_from("bing image creator"@, 23) == first_tool_from("bing image creator"@, 24));
    assert(!contains_seq("bing image creator"@, "gpt-4"@)) by {
        lemma_contains_iff_occurs("bing image creator"@, "gpt-4"@);
        reveal_with_fuel(occurs_from, 20);
        reveal_with_fuel(agrees_from, 6);
    }
    assert(first_tool_from("bing image creator"@, 22) == first_tool_from("bing image creator"@, 23));
    assert(!contains_seq("bing image creator"@, "gpt-image"@)) by {
        lemma_contains_iff_occurs("bing image creator"@, "gpt-image"@);
        reveal_with_fuel(occurs_from, 20);
        reveal_with_fuel(agrees_from, 10);
    }
    assert(first_tool_from("bing image creator"@, 21) == first_tool_from("bing image creator"@, 22));
    assert(!contains_seq("bing image creator"@, "gpt image"@)) by {
        lemma_contains_iff_occurs("bing image creator"@, "gpt image"@);
        reveal_with_fuel(occurs_from, 20);
        reveal_with_fuel(agrees_from, 10);
    }
    assert(first_tool_from("bing image creator"@, 20) == first_tool_from("bing image creator"@, 21));
    assert(!contains_seq("bing image creator"@, "gpt-4o"@)) by {
        lemma_contains_iff_occurs("bing image creator"@, "gpt-4o"@);
        reveal_with_fuel(occurs_from, 20);
        reveal_with_fuel(agrees_from, 7);
    }
    assert(first_tool_from("bing image creator"@, 19) == first_tool_from("bing image creator"@, 20));
    assert(!contains_seq("bing image creator"@, "vidu"@)) by {
        lemma_contains_iff_occurs("bing image creator"@, "vidu"@);
        reveal_with_fuel(occurs_from, 20);
        reveal_with_fuel(agrees_from, 5);
    }
    assert(first_tool_from("bing image creator"@, 18) == first_tool_from("bing image creator"@, 19));
    assert(!contains_seq("bing image creator"@, "kling"@)) by {
        lemma_contains_iff_occurs("bing image creator"@, "kling"@);
        reveal_with_fuel(occurs_from, 20);
        reveal_with_fuel(agrees_from, 6);
    }
    assert(first_tool_from("bing image creator"@, 17) == first_tool_from("bing image creator"@, 18));
    assert(!contains_seq("bing image creator"@, "pika"@)) by {
        lemma_contains_iff_occurs("bing image creator"@, "pika"@);
        reveal_with_fuel(occurs_from, 20);
        reveal_with_fuel(agrees_from, 5);
    }
    assert(first_tool_from("bing image creator"@, 16) == first_tool_from("bing image creator"@, 17));
    assert(!contains_seq("bing image creator"@, "runway"@)) by {
        lemma_contains_iff_occurs("bing image creator"@, "runway"@);
        reveal_with_fuel(occurs_from, 20);
        reveal_with_fuel(agrees_from, 7);
    }
    assert(first_tool_from("bing image creator"@, 15) == first_tool_from("bing image creator"@, 16));
    assert(!contains_seq("bing image creator"@, "google veo"@)) by {
        lemma_contains_iff_occurs("bing image creator"@, "google veo"@);
        reveal_with_fuel(occurs_from, 20);
        reveal_with_fuel(agrees_from, 11);
    }
    assert(first_tool_from("bing image creator"@, 14) == first_tool_from("bing image creator"@, 15));
    assert(!contains_seq("bing image creator"@, "sora"@)) by {
        lemma_contains_iff_occurs("bing image creator"@, "sora"@);
        reveal_with_fuel(occurs_from, 20);
        reveal_with_fuel(agrees_from, 5);
    }
    assert(first_tool_from("bing image creator"@, 13) == first_tool_from("bing image creator"@, 14));
    assert(!contains_seq("bing image creator"@, "novelai"@)) by {
        lemma_contains_iff_occurs("bing image creator"@, "novelai"@);
        reveal_with_fuel(occurs_from, 20);
        reveal_with_fuel(agrees_from, 8);
    }
    assert(first_tool_from("bing image creator"@, 12) == first_tool_from("bing image creator"@, 13));
    assert(!contains_seq("bing image creator"@, "leonardo ai"@)) by {
        lemma_contains_iff_occurs("bing image creator"@, "leonardo ai"@);
        reveal_with_fuel(occurs_from, 20);
        reveal_with_fuel(agrees_from, 12);
    }
    assert(first_tool_from("bing image creator"@, 11) == first_tool_from("bing image creator"@, 12));
    assert(!contains_seq("bing image creator"@, "leonardo.ai"@)) by {
        lemma_contains_iff_occurs("bing image creator"@, "leonardo.ai"@);
        reveal_with_fuel(occurs_from, 20);
        reveal_with_fuel(agrees_from, 12);
    }
    assert(first_tool_from("bing image creator"@, 10) == first_tool_from("bing image creator"@, 11));
    assert(!contains_seq("bing image creator"@, "ideogram"@)) by {
        lemma_contains_iff_occurs("bing image creator"@, "ideogram"@);
        reveal_with_fuel(occurs_from, 20);
        reveal_with_fuel(agrees_from, 9);
    }
    assert(first_tool_from("bing image creator"@, 9) == first_tool_from("bing image creator"@, 10));
    assert(!contains_seq("bing image creator"@, "flux"@)) by {
        lemma_contains_iff_occurs("bing image creator"@, "flux"@);
        reveal_with_fuel(occurs_from, 20);
        reveal_with_fuel(agrees_from, 5);
    }
    assert(first_tool_from("bing image creator"@, 8) == first_tool_from("bing image creator"@, 9));
    assert(!contains_seq("bing image creator"@, "imagen"@)) by {
        lemma_contains_iff_occurs("bing image creator"@, "imagen"@);
        reveal_with_fuel(occurs_from, 20);
        reveal_with_fuel(agrees_from, 7);
    }
    assert(first_tool_from("bing image creator"@, 7) == first_tool_from("bing image creator"@, 8));
    assert(!contains_seq("bing image creator"@, "firefly"@)) by {
        lemma_contains_iff_occurs("bing image creator"@, "firefly"@);
        reveal_with_fuel(occurs_from, 20);
        reveal_with_fuel(agrees_from, 8);
    }
    assert(first_tool_from("bing image creator"@, 6) == first_tool_from("bing image creator"@, 7));
    assert(!contains_seq("bing image creator"@, "stablediffusion"@)) by {
        lemma_contains_iff_occurs("bing image creator"@, "stablediffusion"@);
        reveal_with_fuel(occurs_from, 20);
        reveal_with_fuel(agrees_from, 16);
    }
    assert(first_tool_from("bing image creator"@, 5) == first_tool_from("bing image creator"@, 6));
    assert(!contains_seq("bing image creator"@, "stable-diffusion"@)) by {
        lemma_contains_iff_occurs("bing image creator"@, "stable-diffusion"@);
        reveal_with_fuel(occurs_from, 20);
        reveal_with_fuel(agrees_from, 17);
    }
    assert(first_tool_from("bing image creator"@, 4) == first_tool_from("bing image creator"@, 5));
    assert(!contains_seq("bing image creator"@, "stable diffusion"@)) by {
        lemma_contains_iff_occurs("bing image creator"@, "stable diffusion"@);
        reveal_with_fuel(occurs_from, 20);
        reveal_with_fuel(agrees_from, 17);
    }
    assert(first_tool_from("bing image creator"@, 3) == first_tool_from("bing image creator"@, 4));
    assert(!contains_seq("bing image creator"@, "midjourney"@)) by {
        lemma_contains_iff_occurs("bing image creator"@, "midjourney"@);
        reveal_with_fuel(occurs_from, 20);
        reveal_with_fuel(agrees_from, 11);
    }
    assert(first_tool_from("bing image creator"@, 2) == first_tool_from("bing image creator"@, 3));
    assert(!contains_seq("bing image creator"@, "dalle"@)) by {
        lemma_contains_iff_occurs("bing image creator"@, "dalle"@);
        reveal_with_fuel(occurs_from, 20);
        reveal_with_fuel(agrees_from, 6);
    }
    assert(first_tool_from("bing image creator"@, 1) == first_tool_from("bing image creator"@, 2));
    assert(!contains_seq("bing image creator"@, "dall-e"@)) by {
        lemma_contains_iff_occurs("bing image creator"@, "dall-e"@);
        reveal_with_fuel(occurs_from, 20);
        reveal_with_fuel(agrees_from, 7);
    }
    assert(first_tool_from("bing image creator"@, 0) == first_tool_from("bing image creator"@, 1));
}

proof fn lemma_recognizes_copilot_designer()
    ensures
        first_tool_from("copilot designer"@, 0) == Some("copilot designer"@),
{
    reveal_strlit("bing image creator");
    reveal_strlit("chatgpt");
    reveal_strlit("copilot designer");
    reveal_strlit("dall-e");
    reveal_strlit("dalle");
    reveal_strlit("firefly");
    reveal_strlit("flux");
    reveal_strlit("google veo");
    reveal_strlit("gpt image");
    reveal_strlit("gpt-4");
    reveal_strlit("gpt-4o");
    reveal_strlit("gpt-image");
    reveal_strlit("ideogram");
    reveal_strlit("imagen");
    reveal_strlit("kling");
    reveal_strlit("leonardo ai");
    reveal_strlit("leonardo.ai");
    reveal_strlit("midjourney");
    reveal_strlit("novelai");
    reveal_strlit("openai");
    reveal_strlit("pika");
    reveal_strlit("runway");
    reveal_strlit("sora");
    reveal_strlit("stable diffusion");
    reveal_strlit("stable-diffusion");
    reveal_strlit("stablediffusion");
    reveal_strlit("vidu");
    assert(first_tool_from("copilot designer"@, 26) == Some("copilot designer"@)) by {
        assert("copilot designer"@.subrange(0, 16) =~= "copilot designer"@);
        assert(crate::text::matches_at("copilot designer"@, "copilot designer"@, 0));
    }
    assert(!contains_seq("copilot designer"@, "bing image creator"@)) by {
        lemma_contains_iff_occurs("copilot designer"@, "bing image creator"@);
    }
    assert(first_tool_from("copilot designer"@, 25) == first_tool_from("copilot designer"@, 26));
    assert(!contains_seq("copilot designer"@, "openai"@)) by {
        lemma_contains_iff_occurs("copilot designer"@, "openai"@);
        reveal_with_fuel(occurs_from, 18);
        reveal_with_fuel(agrees_from, 7);
    }
    assert(first_tool_from("copilot designer"@, 24) == first_tool_from("copilot designer"@, 25));
    assert(!contains_seq("copilot designer"@, "chatgpt"@)) by {
        lemma_contains_iff_occurs("copilot designer"@, "chatgpt"@);
        reveal_with_fuel(occurs_from, 18);
        reveal_with_fuel(agrees_from, 8);
    }
    assert(first_tool_from("copilot designer"@, 23) == first_tool_from("copilot designer"@, 24));
    assert(!contains_seq("copilot designer"@, "gpt-4"@)) by {
        lemma_contains_iff_occurs("copilot designer"@, "gpt-4"@);
        reveal_with_fuel(occurs_from, 18);
        reveal_with_fuel(agrees_from, 6);
    }
    assert(first_tool_from("copilot designer"@, 22) == first_tool_from("copilot designer"@, 23));
    assert(!contains_seq("copilot designer"@, "gpt-image"@)) by {
        lemma_contains_iff_occurs("copilot designer"@, "gpt-image"@);
        reveal_with_fuel(occurs_from, 18);
        reveal_with_fuel(agrees_from, 10);
    }
    assert(first_tool_from("copilot designer"@, 21) == first_tool_from("copilot designer"@, 22));
    assert(!contains_seq("copilot designer"@, "gpt image"@)) by {
        lemma_contains_iff_occurs("copilot designer"@, "gpt image"@);
        reveal_with_fuel(occurs_from, 18);
        reveal_with_fuel(agrees_from, 10);
    }
    assert(first_tool_from("copilot designer"@, 20) == first_tool_from("copilot designer"@, 21));
    assert(!contains_seq("copilot designer"@, "gpt-4o"@)) by {
        lemma_contains_iff_occurs("copilot designer"@, "gpt-4o"@);
        reveal_with_fuel(occurs_from, 18);
        reveal_with_fuel(agrees_from, 7);
    }
    assert(first_tool_from("copilot designer"@, 19) == first_tool_from("copilot designer"@, 20));
    assert(!contains_seq("copilot designer"@, "vidu"@)) by {
        lemma_contains_iff_occurs("copilot designer"@, "vidu"@);
        reveal_with_fuel(occurs_from, 18);
        reveal_with_fuel(agrees_from, 5);
    }
    assert(first_tool_from("copilot designer"@, 18) == first_tool_from("copilot designer"@, 19));
    assert(!contains_seq("copilot designer"@, "kling"@)) by {
        lemma_contains_iff_occurs("copilot designer"@, "kling"@);
        reveal_with_fuel(occurs_from, 18);
        reveal_with_fuel(agrees_from, 6);
    }
    assert(first_tool_from("copilot designer"@, 17) == first_tool_from("copilot designer"@, 18));
    assert(!contains_seq("copilot designer"@, "pika"@)) by {
        lemma_contains_iff_occurs("copilot designer"@, "pika"@);
        reveal_with_fuel(occurs_from, 18);
        reveal_with_fuel(agrees_from, 5);
    }
    assert(first_tool_from("copilot designer"@, 16) == first_tool_from("copilot designer"@, 17));
    assert(!contains_seq("copilot designer"@, "runway"@)) by {
        lemma_contains_iff_occurs("copilot designer"@, "runway"@);
        reveal_with_fuel(occurs_from, 18);
        reveal_with_fuel(agrees_from, 7);
    }
    assert(first_tool_from("copilot designer"@, 15) == first_tool_from("copilot designer"@, 16));
    assert(!contains_seq("copilot designer"@, "google veo"@)) by {
        lemma_contains_iff_occurs("copilot designer"@, "google veo"@);
        reveal_with_fuel(occurs_from, 18);
        reveal_with_fuel(agrees_from, 11);
    }
    assert(first_tool_from("copilot designer"@, 14) == first_tool_from("copilot designer"@, 15));
    assert(!contains_seq("copilot designer"@, "sora"@)) by {
        lemma_contains_iff_occurs("copilot designer"@, "sora"@);
        reveal_with_fuel(occurs_from, 18);
        reveal_with_fuel(agrees_from, 5);
    }
    assert(first_tool_from("copilot designer"@, 13) == first_tool_from("copilot designer"@, 14));
    assert(!contains_seq("copilot designer"@, "novelai"@)) by {
        lemma_contains_iff_occurs("copilot designer"@, "novelai"@);
        reveal_with_fuel(occurs_from, 18);
        reveal_with_fuel(agrees_from, 8);
    }
    assert(first_tool_from("copilot designer"@, 12) == first_tool_from("copilot designer"@, 13));
    assert(!contains_seq("copilot designer"@, "leonardo ai"@)) by {
        lemma_contains_iff_occurs("copilot designer"@, "leonardo ai"@);
        reveal_with_fuel(occurs_from, 18);
        reveal_with_fuel(agrees_from, 12);
    }
    assert(first_tool_from("copilot designer"@, 11) == first_tool_from("copilot designer"@, 12));
    assert(!contains_seq("copilot designer"@, "leonardo.ai"@)) by {
        lemma_contains_iff_occurs("copilot designer"@, "leonardo.ai"@);
        reveal_with_fuel(occurs_from, 18);
        reveal_with_fuel(agrees_from, 12);
    }
    assert(first_tool_from("copilot designer"@, 10) == first_tool_from("copilot designer"@, 11));
    assert(!contains_seq("copilot designer"@, "ideogram"@)) by {
        lemma_contains_iff_occurs("copilot designer"@, "ideogram"@);
        reveal_with_fuel(occurs_from, 18);
        reveal_with_fuel(agrees_from, 9);
    }
    assert(first_tool_from("copilot designer"@, 9) == first_tool_from("copilot designer"@, 10));
    assert(!contains_seq("copilot designer"@, "flux"@)) by {
        lemma_contains_iff_occurs("copilot designer"@, "flux"@);
        reveal_with_fuel(occurs_from, 18);
        reveal_with_fuel(agrees_from, 5);
    }
    assert(first_tool_from("copilot designer"@, 8) == first_tool_from("copilot designer"@, 9));
    assert(!contains_seq("copilot designer"@, "imagen"@)) by {
        lemma_contains_iff_occurs("copilot designer"@, "imagen"@);
        reveal_with_fuel(occurs_from, 18);
        reveal_with_fuel(agrees_from, 7);
    }
    assert(first_tool_from("copilot designer"@, 7) == first_tool_from("copilot designer"@, 8));
    assert(!contains_seq("copilot designer"@, "firefly"@)) by {
        lemma_contains_iff_occurs("copilot designer"@, "firefly"@);
        reveal_with_fuel(occurs_from, 18);
        reveal_with_fuel(agrees_from, 8);
    }
    assert(first_tool_from("copilot designer"@, 6) == first_tool_from("copilot designer"@, 7));
    assert(!contains_seq("copilot designer"@, "stablediffusion"@)) by {
        lemma_contains_iff_occurs("copilot designer"@, "stablediffusion"@);
        reveal_with_fuel(occurs_from, 18);
        reveal_with_fuel(agrees_from, 16);
    }
    assert(first_tool_from("copilot designer"@, 5) == first_tool_from("copilot designer"@, 6));
    assert(!contains_seq("copilot designer"@, "stable-diffusion"@)) by {
        lemma_contains_iff_occurs("copilot designer"@, "stable-diffusion"@);
        reveal_with_fuel(occurs_from, 18);
        reveal_with_fuel(agrees_from, 17);
    }
    assert(first_tool_from("copilot designer"@, 4) == first_tool_from("copilot designer"@, 5));
    assert(!contains_seq("copilot designer"@, "stable diffusion"@)) by {
        lemma_contains_iff_occurs("copilot designer"@, "stable diffusion"@);
        reveal_with_fuel(occurs_from, 18);
        reveal_with_fuel(agrees_from, 17);
    }
    assert(first_tool_from("copilot designer"@, 3) == first_tool_from("copilot designer"@, 4));
    assert(!contains_seq("copilot designer"@, "midjourney"@)) by {
        lemma_contains_iff_occurs("copilot designer"@, "midjourney"@);
        reveal_with_fuel(occurs_from, 18);
        reveal_with_fuel(agrees_from, 11);
    }
    assert(first_tool_from("copilot designer"@, 2) == first_tool_from("copilot designer"@, 3));
    assert(!contains_seq("copilot designer"@, "dalle"@)) by {
        lemma_contains_iff_occurs("copilot designer"@, "dalle"@);
        reveal_with_fuel(occurs_from, 18);
        reveal_with_fuel(agrees_from, 6);
    }
    assert(first_tool_from("copilot designer"@, 1) == first_tool_from("copilot designer"@, 2));
    assert(!contains_seq("copilot designer"@, "dall-e"@)) by {
        lemma_contains_iff_occurs("copilot designer"@, "dall-e"@);
        reveal_with_fuel(occurs_from, 18);
        reveal_with_fuel(agrees_from, 7);
    }
    assert(first_tool_from("copilot designer"@, 0) == first_tool_from("copilot designer"@, 1));
}

proof fn lemma_recognizes_microsoft_designer()
    ensures
        first_tool_from("microsoft designer"@, 0) == Some("microsoft designer"@),
{
    reveal_strlit("bing image creator");
    reveal_strlit("chatgpt");
    reveal_strlit("copilot designer");
    reveal_strlit("dall-e");
    reveal_strlit("dalle");
    reveal_strlit("firefly");
    reveal_strlit("flux");
    reveal_strlit("google veo");
    reveal_strlit("gpt image");
    reveal_strlit("gpt-4");
    reveal_strlit("gpt-4o");
    reveal_strlit("gpt-image");
    reveal_strlit("ideogram");
    reveal_strlit("imagen");
    reveal_strlit("kling");
    reveal_strlit("leonardo ai");
    reveal_strlit("leonardo.ai");
    reveal_strlit("microsoft designer");
    reveal_strlit("midjourney");
    reveal_strlit("novelai");
    reveal_strlit("openai");
    reveal_strlit("pika");
    reveal_strlit("runway");
    reveal_strlit("sora");
    reveal_strlit("stable diffusion");
    reveal_strlit("stable-diffusion");
    reveal_strlit("stablediffusion");
    reveal_strlit("vidu");
    assert(first_tool_from("microsoft designer"@, 27) == Some("microsoft designer"@)) by {
        assert("microsoft designer"@.subrange(0, 18) =~= "microsoft designer"@);
        assert(crate::text::matches_at("microsoft designer"@, "microsoft designer"@, 0));
    }
    assert(!contains_seq("microsoft designer"@, "copilot designer"@)) by {
        lemma_contains_iff_occurs("microsoft designer"@, "copilot designer"@);
        reveal_with_fuel(occurs_from, 20);
        reveal_with_fuel(agrees_from, 17);
    }
    assert(first_tool_from("microsoft designer"@, 26) == first_tool_from("microsoft designer"@, 27));
    assert(!contains_seq("microsoft designer"@, "bing image creator"@)) by {
        lemma_contains_iff_occurs("microsoft designer"@, "bing image creator"@);
        reveal_with_fuel(occurs_from, 20);
        reveal_with_fuel(agrees_from, 19);
    }
    assert(first_tool_from("microsoft designer"@, 25) == first_tool_from("microsoft designer"@, 26));
    assert(!contains_seq("microsoft designer"@, "openai"@)) by {
        lemma_contains_iff_occurs("microsoft designer"@, "openai"@);
        reveal_with_fuel(occurs_from, 20);
        reveal_with_fuel(agrees_from, 7);
    }
    assert(first_tool_from("microsoft designer"@, 24) == first_tool_from("microsoft designer"@, 25));
    assert(!contains_seq("microsoft designer"@, "chatgpt"@)) by {
        lemma_contains_iff_occurs("microsoft designer"@, "chatgpt"@);
        reveal_with_fuel(occurs_from, 20);
        reveal_with_fuel(agrees_from, 8);
    }
    assert(first_tool_from("microsoft designer"@, 23) == first_tool_from("microsoft designer"@, 24));
    assert(!contains_seq("microsoft designer"@, "gpt-4"@)) by {
        lemma_contains_iff_occurs("microsoft designer"@, "gpt-4"@);
        reveal_with_fuel(occurs_from, 20);
        reveal_with_fuel(agrees_from, 6);
    }
    assert(first_tool_from("microsoft designer"@, 22) == first_tool_from("microsoft designer"@, 23));
    assert(!contains_seq("microsoft designer"@, "gpt-image"@)) by {
        lemma_contains_iff_occurs("microsoft designer"@, "gpt-image"@);
        reveal_with_fuel(occurs_from, 20);
        reveal_with_fuel(agrees_from, 10);
    }
    assert(first_tool_from("microsoft designer"@, 21) == first_tool_from("microsoft designer"@, 22));
    assert(!contains_seq("microsoft designer"@, "gpt image"@)) by {
        lemma_contains_iff_occurs("microsoft designer"@, "gpt image"@);
        reveal_with_fuel(occurs_from, 20);
        reveal_with_fuel(agrees_from, 10);
    }
    assert(first_tool_from("microsoft designer"@, 20) == first_tool_from("microsoft designer"@, 21));
    assert(!contains_seq("microsoft designer"@, "gpt-4o"@)) by {
        lemma_contains_iff_occurs("microsoft designer"@, "gpt-4o"@);
        reveal_with_fuel(occurs_from, 20);
        reveal_with_fuel(agrees_from, 7);
    }
    assert(first_tool_from("microsoft designer"@, 19) == first_tool_from("microsoft designer"@, 20));
    assert(!contains_seq("microsoft designer"@, "vidu"@)) by {
        lemma_contains_iff_occurs("microsoft designer"@, "vidu"@);
        reveal_with_fuel(occurs_from, 20);
        reveal_with_fuel(agrees_from, 5);
    }
    assert(first_tool_from("microsoft designer"@, 18) == first_tool_from("microsoft designer"@, 19));
    assert(!contains_seq("microsoft designer"@, "kling"@)) by {
        lemma_contains_iff_occurs("microsoft designer"@, "kling"@);
        reveal_with_fuel(occurs_from, 20);
        reveal_with_fuel(agrees_from, 6);
    }
    assert(first_tool_from("microsoft designer"@, 17) == first_tool_from("microsoft designer"@, 18));
    assert(!contains_seq("microsoft designer"@, "pika"@)) by {
        lemma_contains_iff_occurs("microsoft designer"@, "pika"@);
        reveal_with_fuel(occurs_from, 20);
        reveal_with_fuel(agrees_from, 5);
    }
    assert(first_tool_from("microsoft designer"@, 16) == first_tool_from("microsoft designer"@, 17));
    assert(!contains_seq("microsoft designer"@, "runway"@)) by {
        lemma_contains_iff_occurs("microsoft designer"@, "runway"@);
        reveal_with_fuel(occurs_from, 20);
        reveal_with_fuel(agrees_from, 7);
    }
    assert(first_tool_from("microsoft designer"@, 15) == first_tool_from("microsoft designer"@, 16));
    assert(!contains_seq("microsoft designer"@, "google veo"@)) by {
        lemma_contains_iff_occurs("microsoft designer"@, "google veo"@);
        reveal_with_fuel(occurs_from, 20);
        reveal_with_fuel(agrees_from, 11);
    }
    assert(first_tool_from("microsoft designer"@, 14) == first_tool_from("microsoft designer"@, 15));
    assert(!contains_seq("microsoft designer"@, "sora"@)) by {
        lemma_contains_iff_occurs("microsoft designer"@, "sora"@);
        reveal_with_fuel(occurs_from, 20);
        reveal_with_fuel(agrees_from, 5);
    }
    assert(first_tool_from("microsoft designer"@, 13) == first_tool_from("microsoft designer"@, 14));
    assert(!contains_seq("microsoft designer"@, "novelai"@)) by {
        lemma_contains_iff_occurs("microsoft designer"@, "novelai"@);
        reveal_with_fuel(occurs_from, 20);
        reveal_with_fuel(agrees_from, 8);
    }
    assert(first_tool_from("microsoft designer"@, 12) == first_tool_from("microsoft designer"@, 13));
    assert(!contains_seq("microsoft designer"@, "leonardo ai"@)) by {
        lemma_contains_iff_occurs("microsoft designer"@, "leonardo ai"@);
        reveal_with_fuel(occurs_from, 20);
        reveal_with_fuel(agrees_from, 12);
    }
    assert(first_tool_from("microsoft designer"@, 11) == first_tool_from("microsoft designer"@, 12));
    assert(!contains_seq("microsoft designer"@, "leonardo.ai"@)) by {
        lemma_contains_iff_occurs("microsoft designer"@, "leonardo.ai"@);
        reveal_with_fuel(occurs_from, 20);
        reveal_with_fuel(agrees_from, 12);
    }
    assert(first_tool_from("microsoft designer"@, 10) == first_tool_from("microsoft designer"@, 11));
    assert(!contains_seq("microsoft designer"@, "ideogram"@)) by {
        lemma_contains_iff_occurs("microsoft designer"@, "ideogram"@);
        reveal_with_fuel(occurs_from, 20);
        reveal_with_fuel(agrees_from, 9);
    }
    assert(first_tool_from("microsoft designer"@, 9) == first_tool_from("microsoft designer"@, 10));
    assert(!contains_seq("microsoft designer"@, "flux"@)) by {
        lemma_contains_iff_occurs("microsoft designer"@, "flux"@);
        reveal_with_fuel(occurs_from, 20);
        reveal_with_fuel(agrees_from, 5);
    }
    assert(first_tool_from("microsoft designer"@, 8) == first_tool_from("microsoft designer"@, 9));
    assert(!contains_seq("microsoft designer"@, "imagen"@)) by {
        lemma_contains_iff_occurs("microsoft designer"@, "imagen"@);
        reveal_with_fuel(occurs_from, 20);
        reveal_with_fuel(agrees_from, 7);
    }
    assert(first_tool_from("microsoft designer"@, 7) == first_tool_from("microsoft designer"@, 8));
    assert(!contains_seq("microsoft designer"@, "firefly"@)) by {
        lemma_contains_iff_occurs("microsoft designer"@, "firefly"@);
        reveal_with_fuel(occurs_from, 20);
        reveal_with_fuel(agrees_from, 8);
    }
    assert(first_tool_from("microsoft designer"@, 6) == first_tool_from("microsoft designer"@, 7));
    assert(!contains_seq("microsoft designer"@, "stablediffusion"@)) by {
        lemma_contains_iff_occurs("microsoft designer"@, "stablediffusion"@);
        reveal_with_fuel(occurs_from, 20);
        reveal_with_fuel(agrees_from, 16);
    }
    assert(first_tool_from("microsoft designer"@, 5) == first_tool_from("microsoft designer"@, 6));
    assert(!contains_seq("microsoft designer"@, "stable-diffusion"@)) by {
        lemma_contains_iff_occurs("microsoft designer"@, "stable-diffusion"@);
        reveal_with_fuel(occurs_from, 20);
        reveal_with_fuel(agrees_from, 17);
    }
    assert(first_tool_from("microsoft designer"@, 4) == first_tool_from("microsoft designer"@, 5));
    assert(!contains_seq("microsoft designer"@, "stable diffusion"@)) by {
        lemma_contains_iff_occurs("microsoft designer"@, "stable diffusion"@);
        reveal_with_fuel(occurs_from, 20);
        reveal_with_fuel(agrees_from, 17);
    }
    assert(first_tool_from("microsoft designer"@, 3) == first_tool_from("microsoft designer"@, 4));
    assert(!contains_seq("microsoft designer"@, "midjourney"@)) by {
        lemma_contains_iff_occurs("microsoft designer"@, "midjourney"@);
        reveal_with_fuel(occurs_from, 20);
        reveal_with_fuel(agrees_from, 11);
    }
    assert(first_tool_from("microsoft designer"@, 2) == first_tool_from("microsoft designer"@, 3));
    assert(!contains_seq("microsoft designer"@, "dalle"@)) by {
        lemma_contains_iff_occurs("microsoft designer"@, "dalle"@);
        reveal_with_fuel(occurs_from, 20);
        reveal_with_fuel(agrees_from, 6);
    }
    assert(first_tool_from("microsoft designer"@, 1) == first_tool_from("microsoft designer"@, 2));
    assert(!contains_seq("microsoft designer"@, "dall-e"@)) by {
        lemma_contains_iff_occurs("microsoft designer"@, "dall-e"@);
        reveal_with_fuel(occurs_from, 20);
        reveal_with_fuel(agrees_from, 7);
    }
    assert(first_tool_from("microsoft designer"@, 0) == first_tool_from("microsoft designer"@, 1));
}

proof fn lemma_recognizes_canva_ai()
    ensures
        first_tool_from("canva ai"@, 0) == Some("canva ai"@),
{
    reveal_strlit("bing image creator");
    reveal_strlit("canva ai");
    reveal_strlit("chatgpt");
    reveal_strlit("copilot designer");
    reveal_strlit("dall-e");
    reveal_strlit("dalle");
    reveal_strlit("firefly");
    reveal_strlit("flux");
    reveal_strlit("google veo");
    reveal_strlit("gpt image");
    reveal_strlit("gpt-4");
    reveal_strlit("gpt-4o");
    reveal_strlit("gpt-image");
    reveal_strlit("ideogram");
    reveal_strlit("imagen");
    reveal_strlit("kling");
    reveal_strlit("leonardo ai");
    reveal_strlit("leonardo.ai");
    reveal_strlit("microsoft designer");
    reveal_strlit("midjourney");
    reveal_strlit("novelai");
    reveal_strlit("openai");
    reveal_strlit("pika");
    reveal_strlit("runway");
    reveal_strlit("sora");
    reveal_strlit("stable diffusion");
    reveal_strlit("stable-diffusion");
    reveal_strlit("stablediffusion");
    reveal_strlit("vidu");
    assert(first_tool_from("canva ai"@, 28) == Some("canva ai"@)) by {
        assert("canva ai"@.subrange(0, 8) =~= "canva ai"@);
        assert(crate::text::matches_at("canva ai"@, "canva ai"@, 0));
    }
    assert(!contains_seq("canva ai"@, "microsoft designer"@)) by {
        lemma_contains_iff_occurs("canva ai"@, "microsoft designer"@);
    }
    assert(first_tool_from("canva ai"@, 27) == first_tool_from("canva ai"@, 28));
    assert(!contains_seq("canva ai"@, "copilot designer"@)) by {
        lemma_contains_iff_occurs("canva ai"@, "copilot designer"@);
    }
    assert(first_tool_from("canva ai"@, 26) == first_tool_from("canva ai"@, 27));
    assert(!contains_seq("canva ai"@, "bing image creator"@)) by {
        lemma_contains_iff_occurs("canva ai"@, "bing image creator"@);
    }
    assert(first_tool_from("canva ai"@, 25) == first_tool_from("canva ai"@, 26));
    assert(!contains_seq("canva ai"@, "openai"@)) by {
        lemma_contains_iff_occurs("canva ai"@, "openai"@);
        reveal_with_fuel(occurs_from, 10);
        reveal_with_fuel(agrees_from, 7);
    }
    assert(first_tool_from("canva ai"@, 24) == first_tool_from("canva ai"@, 25));
    assert(!contains_seq("canva ai"@, "chatgpt"@)) by {
        lemma_contains_iff_occurs("canva ai"@, "chatgpt"@);
        reveal_with_fuel(occurs_from, 10);
        reveal_with_fuel(agrees_from, 8);
    }
    assert(first_tool_from("canva ai"@, 23) == first_tool_from("canva ai"@, 24));
    assert(!contains_seq("canva ai"@, "gpt-4"@)) by {
        lemma_contains_iff_occurs("canva ai"@, "gpt-4"@);
        reveal_with_fuel(occurs_from, 10);
        reveal_with_fuel(agrees_from, 6);
    }
    assert(first_tool_from("canva ai"@, 22) == first_tool_from("canva ai"@, 23));
    assert(!contains_seq("canva ai"@, "gpt-image"@)) by {
        lemma_contains_iff_occurs("canva ai"@, "gpt-image"@);
    }
    assert(first_tool_from("canva ai"@, 21) == first_tool_from("canva ai"@, 22));
    assert(!contains_seq("canva ai"@, "gpt image"@)) by {
        lemma_contains_iff_occurs("canva ai"@, "gpt image"@);
    }
    assert(first_tool_from("canva ai"@, 20) == first_tool_from("canva ai"@, 21));
    assert(!contains_seq("canva ai"@, "gpt-4o"@)) by {
        lemma_contains_iff_occurs("canva ai"@, "gpt-4o"@);
        reveal_with_fuel(occurs_from, 10);
        reveal_with_fuel(agrees_from, 7);
    }
    assert(first_tool_from("canva ai"@, 19) == first_tool_from("canva ai"@, 20));
    assert(!contains_seq("canva ai"@, "vidu"@)) by {
        lemma_contains_iff_occurs("canva ai"@, "vidu"@);
        reveal_with_fuel(occurs_from, 10);
        reveal_with_fuel(agrees_from, 5);
    }
    assert(first_tool_from("canva ai"@, 18) == first_tool_from("canva ai"@, 19));
    assert(!contains_seq("canva ai"@, "kling"@)) by {
        lemma_contains_iff_occurs("canva ai"@, "kling"@);
        reveal_with_fuel(occurs_from, 10);
        reveal_with_fuel(agrees_from, 6);
    }
    assert(first_tool_from("canva ai"@, 17) == first_tool_from("canva ai"@, 18));
    assert(!contains_seq("canva ai"@, "pika"@)) by {
        lemma_contains_iff_occurs("canva ai"@, "pika"@);
        reveal_with_fuel(occurs_from, 10);
        reveal_with_fuel(agrees_from, 5);
    }
    assert(first_tool_from("canva ai"@, 16) == first_tool_from("canva ai"@, 17));
    assert(!contains_seq("canva ai"@, "runway"@)) by {
        lemma_contains_iff_occurs("canva ai"@, "runway"@);
        reveal_with_fuel(occurs_from, 10);
        reveal_with_fuel(agrees_from, 7);
    }
    assert(first_tool_from("canva ai"@, 15) == first_tool_from("canva ai"@, 16));
    assert(!contains_seq("canva ai"@, "google veo"@)) by {
        lemma_contains_iff_occurs("canva ai"@, "google veo"@);
    }
    assert(first_tool_from("canva ai"@, 14) == first_tool_from("canva ai"@, 15));
    assert(!contains_seq("canva ai"@, "sora"@)) by {
        lemma_contains_iff_occurs("canva ai"@, "sora"@);
        reveal_with_fuel(occurs_from, 10);
        reveal_with_fuel(agrees_from, 5);
    }
    assert(first_tool_from("canva ai"@, 13) == first_tool_from("canva ai"@, 14));
    assert(!contains_seq("canva ai"@, "novelai"@)) by {
        lemma_contains_iff_occurs("canva ai"@, "novelai"@);
        reveal_with_fuel(occurs_from, 10);
        reveal_with_fuel(agrees_from, 8);
    }
    assert(first_tool_from("canva ai"@, 12) == first_tool_from("canva ai"@, 13));
    assert(!contains_seq("canva ai"@, "leonardo ai"@)) by {
        lemma_contains_iff_occurs("canva ai"@, "leonardo ai"@);
    }
    assert(first_tool_from("canva ai"@, 11) == first_tool_from("canva ai"@, 12));
    assert(!contains_seq("canva ai"@, "leonardo.ai"@)) by {
        lemma_contains_iff_occurs("canva ai"@, "leonardo.ai"@);
    }
    assert(first_tool_from("canva ai"@, 10) == first_tool_from("canva ai"@, 11));
    assert(!contains_seq("canva ai"@, "ideogram"@)) by {
        lemma_contains_iff_occurs("canva ai"@, "ideogram"@);
        reveal_with_fuel(occurs_from, 10);
        reveal_with_fuel(agrees_from, 9);
    }
    assert(first_tool_from("canva ai"@, 9) == first_tool_from("canva ai"@, 10));
    assert(!contains_seq("canva ai"@, "flux"@)) by {
        lemma_contains_iff_occurs("canva ai"@, "flux"@);
        reveal_with_fuel(occurs_from, 10);
        reveal_with_fuel(agrees_from, 5);
    }
    assert(first_tool_from("canva ai"@, 8) == first_tool_from("canva ai"@, 9));
    assert(!contains_seq("canva ai"@, "imagen"@)) by {
        lemma_contains_iff_occurs("canva ai"@, "imagen"@);
        reveal_with_fuel(occurs_from, 10);
        reveal_with_fuel(agrees_from, 7);
    }
    assert(first_tool_from("canva ai"@, 7) == first_tool_from("canva ai"@, 8));
    assert(!contains_seq("canva ai"@, "firefly"@)) by {
        lemma_contains_iff_occurs("canva ai"@, "firefly"@);
        reveal_with_fuel(occurs_from, 10);
        reveal_with_fuel(agrees_from, 8);
    }
    assert(first_tool_from("canva ai"@, 6) == first_tool_from("canva ai"@, 7));
    assert(!contains_seq("canva ai"@, "stablediffusion"@)) by {
        lemma_contains_iff_occurs("canva ai"@, "stablediffusion"@);
    }
    assert(first_tool_from("canva ai"@, 5) == first_tool_from("canva ai"@, 6));
    assert(!contains_seq("canva ai"@, "stable-diffusion"@)) by {
        lemma_contains_iff_occurs("canva ai"@, "stable-diffusion"@);
    }
    assert(first_tool_from("canva ai"@, 4) == first_tool_from("canva ai"@, 5));
    assert(!contains_seq("canva ai"@, "stable diffusion"@)) by {
        lemma_contains_iff_occurs("canva ai"@, "stable diffusion"@);
    }
    assert(first_tool_from("canva ai"@, 3) == first_tool_from("canva ai"@, 4));
    assert(!contains_seq("canva ai"@, "midjourney"@)) by {
        lemma_contains_iff_occurs("canva ai"@, "midjourney"@);
    }
    assert(first_tool_from("canva ai"@, 2) == first_tool_from("canva ai"@, 3));
    assert(!contains_seq("canva ai"@, "dalle"@)) by {
        lemma_contains_iff_occurs("canva ai"@, "dalle"@);
        reveal_with_fuel(occurs_from, 10);
        reveal_with_fuel(agrees_from, 6);
    }
    assert(first_tool_from("canva ai"@, 1) == first_tool_from("canva ai"@, 2));
    assert(!contains_seq("canva ai"@, "dall-e"@)) by {
        lemma_contains_iff_occurs("canva ai"@, "dall-e"@);
        reveal_with_fuel(occurs_from, 10);
        reveal_with_fuel(agrees_from, 7);
    }
    assert(first_tool_from("canva ai"@, 0) == first_tool_from("canva ai"@, 1));
}

proof fn lemma_recognizes_dreamstudio()
    ensures
        first_tool_from("dreamstudio"@, 0) == Some("dreamstudio"@),
{
    reveal_strlit("bing image creator");
    reveal_strlit("canva ai");
    reveal_strlit("chatgpt");
    reveal_strlit("copilot designer");
    reveal_strlit("dall-e");
    reveal_strlit("dalle");
    reveal_strlit("dreamstudio");
    reveal_strlit("firefly");
    reveal_strlit("flux");
    reveal_strlit("google veo");
    reveal_strlit("gpt image");
    reveal_strlit("gpt-4");
    reveal_strlit("gpt-4o");
    reveal_strlit("gpt-image");
    reveal_strlit("ideogram");
    reveal_strlit("imagen");
    reveal_strlit("kling");
    reveal_strlit("leonardo ai");
    reveal_strlit("leonardo.ai");
    reveal_strlit("microsoft designer");
    reveal_strlit("midjourney");
    reveal_strlit("novelai");
    reveal_strlit("openai");
    reveal_strlit("pika");
    reveal_strlit("runway");
    reveal_strlit("sora");
    reveal_strlit("stable diffusion");
    reveal_strlit("stable-diffusion");
    reveal_strlit("stablediffusion");
    reveal_strlit("vidu");
    assert(first_tool_from("dreamstudio"@, 29) == Some("dreamstudio"@)) by {
        assert("dreamstudio"@.subrange(0, 11) =~= "dreamstudio"@);
        assert(crate::text::matches_at("dreamstudio"@, "dreamstudio"@, 0));
    }
    assert(!contains_seq("dreamstudio"@, "canva ai"@)) by {
        lemma_contains_iff_occurs("dreamstudio"@, "canva ai"@);
        reveal_with_fuel(occurs_from, 13);
        reveal_with_fuel(agrees_from, 9);
    }
    assert(first_tool_from("dreamstudio"@, 28) == first_tool_from("dreamstudio"@, 29));
    assert(!contains_seq("dreamstudio"@, "microsoft designer"@)) by {
        lemma_contains_iff_occurs("dreamstudio"@, "microsoft designer"@);
    }
    assert(first_tool_from("dreamstudio"@, 27) == first_tool_from("dreamstudio"@, 28));
    assert(!contains_seq("dreamstudio"@, "copilot designer"@)) by {
        lemma_contains_iff_occurs("dreamstudio"@, "copilot designer"@);
    }
    assert(first_tool_from("dreamstudio"@, 26) == first_tool_from("dreamstudio"@, 27));
    assert(!contains_seq("dreamstudio"@, "bing image creator"@)) by {
        lemma_contains_iff_occurs("dreamstudio"@, "bing image creator"@);
    }
    assert(first_tool_from("dreamstudio"@, 25) == first_tool_from("dreamstudio"@, 26));
    assert(!contains_seq("dreamstudio"@, "openai"@)) by {
        lemma_contains_iff_occurs("dreamstudio"@, "openai"@);
        reveal_with_fuel(occurs_from, 13);
        reveal_with_fuel(agrees_from, 7);
    }
    assert(first_tool_from("dreamstudio"@, 24) == first_tool_from("dreamstudio"@, 25));
    assert(!contains_seq("dreamstudio"@, "chatgpt"@)) by {
        lemma_contains_iff_occurs("dreamstudio"@, "chatgpt"@);
        reveal_with_fuel(occurs_from, 13);
        reveal_with_fuel(agrees_from, 8);
    }
    assert(first_tool_from("dreamstudio"@, 23) == first_tool_from("dreamstudio"@, 24));
    assert(!contains_seq("dreamstudio"@, "gpt-4"@)) by {
        lemma_contains_iff_occurs("dreamstudio"@, "gpt-4"@);
        reveal_with_fuel(occurs_from, 13);
        reveal_with_fuel(agrees_from, 6);
    }
    assert(first_tool_from("dreamstudio"@, 22) == first_tool_from("dreamstudio"@, 23));
    assert(!contains_seq("dreamstudio"@, "gpt-image"@)) by {
        lemma_contains_iff_occurs("dreamstudio"@, "gpt-image"@);
        reveal_with_fuel(occurs_from, 13);
        reveal_with_fuel(agrees_from, 10);
    }
    assert(first_tool_from("dreamstudio"@, 21) == first_tool_from("dreamstudio"@, 22));
    assert(!contains_seq("dreamstudio"@, "gpt image"@)) by {
        lemma_contains_iff_occurs("dreamstudio"@, "gpt image"@);
        reveal_with_fuel(occurs_from, 13);
        reveal_with_fuel(agrees_from, 10);
    }
    assert(first_tool_from("dreamstudio"@, 20) == first_tool_from("dreamstudio"@, 21));
    assert(!contains_seq("dreamstudio"@, "gpt-4o"@)) by {
        lemma_contains_iff_occurs("dreamstudio"@, "gpt-4o"@);
        reveal_with_fuel(occurs_from, 13);
        reveal_with_fuel(agrees_from, 7);
    }
    assert(first_tool_from("dreamstudio"@, 19) == first_tool_from("dreamstudio"@, 20));
    assert(!contains_seq("dreamstudio"@, "vidu"@)) by {
        lemma_contains_iff_occurs("dreamstudio"@, "vidu"@);
        reveal_with_fuel(occurs_from, 13);
        reveal_with_fuel(agrees_from, 5);
    }
    assert(first_tool_from("dreamstudio"@, 18) == first_tool_from("dreamstudio"@, 19));
    assert(!contains_seq("dreamstudio"@, "kling"@)) by {
        lemma_contains_iff_occurs("dreamstudio"@, "kling"@);
        reveal_with_fuel(occurs_from, 13);
        reveal_with_fuel(agrees_from, 6);
    }
    assert(first_tool_from("dreamstudio"@, 17) == first_tool_from("dreamstudio"@, 18));
    assert(!contains_seq("dreamstudio"@, "pika"@)) by {
        lemma_contains_iff_occurs("dreamstudio"@, "pika"@);
        reveal_with_fuel(occurs_from, 13);
        reveal_with_fuel(agrees_from, 5);
    }
    assert(first_tool_from("dreamstudio"@, 16) == first_tool_from("dreamstudio"@, 17));
    assert(!contains_seq("dreamstudio"@, "runway"@)) by {
        lemma_contains_iff_occurs("dreamstudio"@, "runway"@);
        reveal_with_fuel(occurs_from, 13);
        reveal_with_fuel(agrees_from, 7);
    }
    assert(first_tool_from("dreamstudio"@, 15) == first_tool_from("dreamstudio"@, 16));
    assert(!contains_seq("dreamstudio"@, "google veo"@)) by {
        lemma_contains_iff_occurs("dreamstudio"@, "google veo"@);
        reveal_with_fuel(occurs_from, 13);
        reveal_with_fuel(agrees_from, 11);
    }
    assert(first_tool_from("dreamstudio"@, 14) == first_tool_from("dreamstudio"@, 15));
    assert(!contains_seq("dreamstudio"@, "sora"@)) by {
        lemma_contains_iff_occurs("dreamstudio"@, "sora"@);
        reveal_with_fuel(occurs_from, 13);
        reveal_with_fuel(agrees_from, 5);
    }
    assert(first_tool_from("dreamstudio"@, 13) == first_tool_from("dreamstudio"@, 14));
    assert(!contains_seq("dreamstudio"@, "novelai"@)) by {
        lemma_contains_iff_occurs("dreamstudio"@, "novelai"@);
        reveal_with_fuel(occurs_from, 13);
        reveal_with_fuel(agrees_from, 8);
    }
    assert(first_tool_from("dreamstudio"@, 12) == first_tool_from("dreamstudio"@, 13));
    assert(!contains_seq("dreamstudio"@, "leonardo ai"@)) by {
        lemma_contains_iff_occurs("dreamstudio"@, "leonardo ai"@);
        reveal_with_fuel(occurs_from, 13);
        reveal_with_fuel(agrees_from, 12);
    }
    assert(first_tool_from("dreamstudio"@, 11) == first_tool_from("dreamstudio"@, 12));
    assert(!contains_seq("dreamstudio"@, "leonardo.ai"@)) by {
        lemma_contains_iff_occurs("dreamstudio"@, "leonardo.ai"@);
        reveal_with_fuel(occurs_from, 13);
        reveal_with_fuel(agrees_from, 12);
    }
    assert(first_tool_from("dreamstudio"@, 10) == first_tool_from("dreamstudio"@, 11));
    assert(!contains_seq("dreamstudio"@, "ideogram"@)) by {
        lemma_contains_iff_occurs("dreamstudio"@, "ideogram"@);
        reveal_with_fuel(occurs_from, 13);
        reveal_with_fuel(agrees_from, 9);
    }
    assert(first_tool_from("dreamstudio"@, 9) == first_tool_from("dreamstudio"@, 10));
    assert(!contains_seq("dreamstudio"@, "flux"@)) by {
        lemma_contains_iff_occurs("dreamstudio"@, "flux"@);
        reveal_with_fuel(occurs_from, 13);
        reveal_with_fuel(agrees_from, 5);
    }
    assert(first_tool_from("dreamstudio"@, 8) == first_tool_from("dreamstudio"@, 9));
    assert(!contains_seq("dreamstudio"@, "imagen"@)) by {
        lemma_contains_iff_occurs("dreamstudio"@, "imagen"@);
        reveal_with_fuel(occurs_from, 13);
        reveal_with_fuel(agrees_from, 7);
    }
    assert(first_tool_from("dreamstudio"@, 7) == first_tool_from("dreamstudio"@, 8));
    assert(!contains_seq("dreamstudio"@, "firefly"@)) by {
        lemma_contains_iff_occurs("dreamstudio"@, "firefly"@);
        reveal_with_fuel(occurs_from, 13);
        reveal_with_fuel(agrees_from, 8);
    }
    assert(first_tool_from("dreamstudio"@, 6) == first_tool_from("dreamstudio"@, 7));
    assert(!contains_seq("dreamstudio"@, "stablediffusion"@)) by {
        lemma_contains_iff_occurs("dreamstudio"@, "stablediffusion"@);
    }
    assert(first_tool_from("dreamstudio"@, 5) == first_tool_from("dreamstudio"@, 6));
    assert(!contains_seq("dreamstudio"@, "stable-diffusion"@)) by {
        lemma_contains_iff_occurs("dreamstudio"@, "stable-diffusion"@);
    }
    assert(first_tool_from("dreamstudio"@, 4) == first_tool_from("dreamstudio"@, 5));
    assert(!contains_seq("dreamstudio"@, "stable diffusion"@)) by {
        lemma_contains_iff_occurs("dreamstudio"@, "stable diffusion"@);
    }
    assert(first_tool_from("dreamstudio"@, 3) == first_tool_from("dreamstudio"@, 4));
    assert(!contains_seq("dreamstudio"@, "midjourney"@)) by {
        lemma_contains_iff_occurs("dreamstudio"@, "midjourney"@);
        reveal_with_fuel(occurs_from, 13);
        reveal_with_fuel(agrees_from, 11);
    }
    assert(first_tool_from("dreamstudio"@, 2) == first_tool_from("dreamstudio"@, 3));
    assert(!contains_seq("dreamstudio"@, "dalle"@)) by {
        lemma_contains_iff_occurs("dreamstudio"@, "dalle"@);
        reveal_with_fuel(occurs_from, 13);
        reveal_with_fuel(agrees_from, 6);
    }
    assert(first_tool_from("dreamstudio"@, 1) == first_tool_from("dreamstudio"@, 2));
    assert(!contains_seq("dreamstudio"@, "dall-e"@)) by {
        lemma_contains_iff_occurs("dreamstudio"@, "dall-e"@);
        reveal_with_fuel(occurs_from, 13);
        reveal_with_fuel(agrees_from, 7);
    }
    assert(first_tool_from("dreamstudio"@, 0) == first_tool_from("dreamstudio"@, 1));
}

proof fn lemma_recognizes_nightcafe()
    ensures
        first_tool_from("nightcafe"@, 0) == Some("nightcafe"@),
{
    reveal_strlit("bing image creator");
    reveal_strlit("canva ai");
    reveal_strlit("chatgpt");
    reveal_strlit("copilot designer");
    reveal_strlit("dall-e");
    reveal_strlit("dalle");
    reveal_strlit("dreamstudio");
    reveal_strlit("firefly");
    reveal_strlit("flux");
    reveal_strlit("google veo");
    reveal_strlit("gpt image");
    reveal_strlit("gpt-4");
    reveal_strlit("gpt-4o");
    reveal_strlit("gpt-image");
    reveal_strlit("ideogram");
    reveal_strlit("imagen");
    reveal_strlit("kling");
    reveal_strlit("leonardo ai");
    reveal_strlit("leonardo.ai");
    reveal_strlit("microsoft designer");
    reveal_strlit("midjourney");
    reveal_strlit("nightcafe");
    reveal_strlit("novelai");
    reveal_strlit("openai");
    reveal_strlit("pika");
    reveal_strlit("runway");
    reveal_strlit("sora");
    reveal_strlit("stable diffusion");
    reveal_strlit("stable-diffusion");
    reveal_strlit("stablediffusion");
    reveal_strlit("vidu");
    assert(first_tool_from("nightcafe"@, 30) == Some("nightcafe"@)) by {
        assert("nightcafe"@.subrange(0, 9) =~= "nightcafe"@);
        assert(crate::text::matches_at("nightcafe"@, "nightcafe"@, 0));
    }
    assert(!contains_seq("nightcafe"@, "dreamstudio"@)) by {
        lemma_contains_iff_occurs("nightcafe"@, "dreamstudio"@);
    }
    assert(first_tool_from("nightcafe"@, 29) == first_tool_from("nightcafe"@, 30));
    assert(!contains_seq("nightcafe"@, "canva ai"@)) by {
        lemma_contains_iff_occurs("nightcafe"@, "canva ai"@);
        reveal_with_fuel(occurs_from, 11);
        reveal_with_fuel(agrees_from, 9);
    }
    assert(first_tool_from("nightcafe"@, 28) == first_tool_from("nightcafe"@, 29));
    assert(!contains_seq("nightcafe"@, "microsoft designer"@)) by {
        lemma_contains_iff_occurs("nightcafe"@, "microsoft designer"@);
    }
    assert(first_tool_from("nightcafe"@, 27) == first_tool_from("nightcafe"@, 28));
    assert(!contains_seq("nightcafe"@, "copilot designer"@)) by {
        lemma_contains_iff_occurs("nightcafe"@, "copilot designer"@);
    }
    assert(first_tool_from("nightcafe"@, 26) == first_tool_from("nightcafe"@, 27));
    assert(!contains_seq("nightcafe"@, "bing image creator"@)) by {
        lemma_contains_iff_occurs("nightcafe"@, "bing image creator"@);
    }
    assert(first_tool_from("nightcafe"@, 25) == first_tool_from("nightcafe"@, 26));
    assert(!contains_seq("nightcafe"@, "openai"@)) by {
        lemma_contains_iff_occurs("nightcafe"@, "openai"@);
        reveal_with_fuel(occurs_from, 11);
        reveal_with_fuel(agrees_from, 7);
    }
    assert(first_tool_from("nightcafe"@, 24) == first_tool_from("nightcafe"@, 25));
    assert(!contains_seq("nightcafe"@, "chatgpt"@)) by {
        lemma_contains_iff_occurs("nightcafe"@, "chatgpt"@);
        reveal_with_fuel(occurs_from, 11);
        reveal_with_fuel(agrees_from, 8);
    }
    assert(first_tool_from("nightcafe"@, 23) == first_tool_from("nightcafe"@, 24));
    assert(!contains_seq("nightcafe"@, "gpt-4"@)) by {
        lemma_contains_iff_occurs("nightcafe"@, "gpt-4"@);
        reveal_with_fuel(occurs_from, 11);
        reveal_with_fuel(agrees_from, 6);
    }
    assert(first_tool_from("nightcafe"@, 22) == first_tool_from("nightcafe"@, 23));
    assert(!contains_seq("nightcafe"@, "gpt-image"@)) by {
        lemma_contains_iff_occurs("nightcafe"@, "gpt-image"@);
        reveal_with_fuel(occurs_from, 11);
        reveal_with_fuel(agrees_from, 10);
    }
    assert(first_tool_from("nightcafe"@, 21) == first_tool_from("nightcafe"@, 22));
    assert(!contains_seq("nightcafe"@, "gpt image"@)) by {
        lemma_contains_iff_occurs("nightcafe"@, "gpt image"@);
        reveal_with_fuel(occurs_from, 11);
        reveal_with_fuel(agrees_from, 10);
    }
    assert(first_tool_from("nightcafe"@, 20) == first_tool_from("nightcafe"@, 21));
    assert(!contains_seq("nightcafe"@, "gpt-4o"@)) by {
        lemma_contains_iff_occurs("nightcafe"@, "gpt-4o"@);
        reveal_with_fuel(occurs_from, 11);
        reveal_with_fuel(agrees_from, 7);
    }
    assert(first_tool_from("nightcafe"@, 19) == first_tool_from("nightcafe"@, 20));
    assert(!contains_seq("nightcafe"@, "vidu"@)) by {
        lemma_contains_iff_occurs("nightcafe"@, "vidu"@);
        reveal_with_fuel(occurs_from, 11);
        reveal_with_fuel(agrees_from, 5);
    }
    assert(first_tool_from("nightcafe"@, 18) == first_tool_from("nightcafe"@, 19));
    assert(!contains_seq("nightcafe"@, "kling"@)) by {
        lemma_contains_iff_occurs("nightcafe"@, "kling"@);
        reveal_with_fuel(occurs_from, 11);
        reveal_with_fuel(agrees_from, 6);
    }
    assert(first_tool_from("nightcafe"@, 17) == first_tool_from("nightcafe"@, 18));
    assert(!contains_seq("nightcafe"@, "pika"@)) by {
        lemma_contains_iff_occurs("nightcafe"@, "pika"@);
        reveal_with_fuel(occurs_from, 11);
        reveal_with_fuel(agrees_from, 5);
    }
    assert(first_tool_from("nightcafe"@, 16) == first_tool_from("nightcafe"@, 17));
    assert(!contains_seq("nightcafe"@, "runway"@)) by {
        lemma_contains_iff_occurs("nightcafe"@, "runway"@);
        reveal_with_fuel(occurs_from, 11);
        reveal_with_fuel(agrees_from, 7);
    }
    assert(first_tool_from("nightcafe"@, 15) == first_tool_from("nightcafe"@, 16));
    assert(!contains_seq("nightcafe"@, "google veo"@)) by {
        lemma_contains_iff_occurs("nightcafe"@, "google veo"@);
    }
    assert(first_tool_from("nightcafe"@, 14) == first_tool_from("nightcafe"@, 15));
    assert(!contains_seq("nightcafe"@, "sora"@)) by {
        lemma_contains_iff_occurs("nightcafe"@, "sora"@);
        reveal_with_fuel(occurs_from, 11);
        reveal_with_fuel(agrees_from, 5);
    }
    assert(first_tool_from("nightcafe"@, 13) == first_tool_from("nightcafe"@, 14));
    assert(!contains_seq("nightcafe"@, "novelai"@)) by {
        lemma_contains_iff_occurs("nightcafe"@, "novelai"@);
        reveal_with_fuel(occurs_from, 11);
        reveal_with_fuel(agrees_from, 8);
    }
    assert(first_tool_from("nightcafe"@, 12) == first_tool_from("nightcafe"@, 13));
    assert(!contains_seq("nightcafe"@, "leonardo ai"@)) by {
        lemma_contains_iff_occurs("nightcafe"@, "leonardo ai"@);
    }
    assert(first_tool_from("nightcafe"@, 11) == first_tool_from("nightcafe"@, 12));
    assert(!contains_seq("nightcafe"@, "leonardo.ai"@)) by {
        lemma_contains_iff_occurs("nightcafe"@, "leonardo.ai"@);
    }
    assert(first_tool_from("nightcafe"@, 10) == first_tool_from("nightcafe"@, 11));
    assert(!contains_seq("nightcafe"@, "ideogram"@)) by {
        lemma_contains_iff_occurs("nightcafe"@, "ideogram"@);
        reveal_with_fuel(occurs_from, 11);
        reveal_with_fuel(agrees_from, 9);
    }
    assert(first_tool_from("nightcafe"@, 9) == first_tool_from("nightcafe"@, 10));
    assert(!contains_seq("nightcafe"@, "flux"@)) by {
        lemma_contains_iff_occurs("nightcafe"@, "flux"@);
        reveal_with_fuel(occurs_from, 11);
        reveal_with_fuel(agrees_from, 5);
    }
    assert(first_tool_from("nightcafe"@, 8) == first_tool_from("nightcafe"@, 9));
    assert(!contains_seq("nightcafe"@, "imagen"@)) by {
        lemma_contains_iff_occurs("nightcafe"@, "imagen"@);
        reveal_with_fuel(occurs_from, 11);
        reveal_with_fuel(agrees_from, 7);
    }
    assert(first_tool_from("nightcafe"@, 7) == first_tool_from("nightcafe"@, 8));
    assert(!contains_seq("nightcafe"@, "firefly"@)) by {
        lemma_contains_iff_occurs("nightcafe"@, "firefly"@);
        reveal_with_fuel(occurs_from, 11);
        reveal_with_fuel(agrees_from, 8);
    }
    assert(first_tool_from("nightcafe"@, 6) == first_tool_from("nightcafe"@, 7));
    assert(!contains_seq("nightcafe"@, "stablediffusion"@)) by {
        lemma_contains_iff_occurs("nightcafe"@, "stablediffusion"@);
    }
    assert(first_tool_from("nightcafe"@, 5) == first_tool_from("nightcafe"@, 6));
    assert(!contains_seq("nightcafe"@, "stable-diffusion"@)) by {
        lemma_contains_iff_occurs("nightcafe"@, "stable-diffusion"@);
    }
    assert(first_tool_from("nightcafe"@, 4) == first_tool_from("nightcafe"@, 5));
    assert(!contains_seq("nightcafe"@, "stable diffusion"@)) by {
        lemma_contains_iff_occurs("nightcafe"@, "stable diffusion"@);
    }
    assert(first_tool_from("nightcafe"@, 3) == first_tool_from("nightcafe"@, 4));
    assert(!contains_seq("nightcafe"@, "midjourney"@)) by {
        lemma_contains_iff_occurs("nightcafe"@, "midjourney"@);
    }
    assert(first_tool_from("nightcafe"@, 2) == first_tool_from("nightcafe"@, 3));
    assert(!contains_seq("nightcafe"@, "dalle"@)) by {
        lemma_contains_iff_occurs("nightcafe"@, "dalle"@);
        reveal_with_fuel(occurs_from, 11);
        reveal_with_fuel(agrees_from, 6);
    }
    assert(first_tool_from("nightcafe"@, 1) == first_tool_from("nightcafe"@, 2));
    assert(!contains_seq("nightcafe"@, "dall-e"@)) by {
        lemma_contains_iff_occurs("nightcafe"@, "dall-e"@);
        reveal_with_fuel(occurs_from, 11);
        reveal_with_fuel(agrees_from, 7);
    }
    assert(first_tool_from("nightcafe"@, 0) == first_tool_from("nightcafe"@, 1));
}

proof fn lemma_recognizes_craiyon()
    ensures
        first_tool_from("craiyon"@, 0) == Some("craiyon"@),
{
    reveal_strlit("bing image creator");
    reveal_strlit("canva ai");
    reveal_strlit("chatgpt");
    reveal_strlit("copilot designer");
    reveal_strlit("craiyon");
    reveal_strlit("dall-e");
    reveal_strlit("dalle");
    reveal_strlit("dreamstudio");
    reveal_strlit("firefly");
    reveal_strlit("flux");
    reveal_strlit("google veo");
    reveal_strlit("gpt image");
    reveal_strlit("gpt-4");
    reveal_strlit("gpt-4o");
    reveal_strlit("gpt-image");
    reveal_strlit("ideogram");
    reveal_strlit("imagen");
    reveal_strlit("kling");
    reveal_strlit("leonardo ai");
    reveal_strlit("leonardo.ai");
    reveal_strlit("microsoft designer");
    reveal_strlit("midjourney");
    reveal_strlit("nightcafe");
    reveal_strlit("novelai");
    reveal_strlit("openai");
    reveal_strlit("pika");
    reveal_strlit("runway");
    reveal_strlit("sora");
    reveal_strlit("stable diffusion");
    reveal_strlit("stable-diffusion");
    reveal_strlit("stablediffusion");
    reveal_strlit("vidu");
    assert(first_tool_from("craiyon"@, 31) == Some("craiyon"@)) by {
        assert("craiyon"@.subrange(0, 7) =~= "craiyon"@);
        assert(crate::text::matches_at("craiyon"@, "craiyon"@, 0));
    }
    assert(!contains_seq("craiyon"@, "nightcafe"@)) by {
        lemma_contains_iff_occurs("craiyon"@, "nightcafe"@);
    }
    assert(first_tool_from("craiyon"@, 30) == first_tool_from("craiyon"@, 31));
    assert(!contains_seq("craiyon"@, "dreamstudio"@)) by {
        lemma_contains_iff_occurs("craiyon"@, "dreamstudio"@);
    }
    assert(first_tool_from("craiyon"@, 29) == first_tool_from("craiyon"@, 30));
    assert(!contains_seq("craiyon"@, "canva ai"@)) by {
        lemma_contains_iff_occurs("craiyon"@, "canva ai"@);
    }
    assert(first_tool_from("craiyon"@, 28) == first_tool_from("craiyon"@, 29));
    assert(!contains_seq("craiyon"@, "microsoft designer"@)) by {
        lemma_contains_iff_occurs("craiyon"@, "microsoft designer"@);
    }
    assert(first_tool_from("craiyon"@, 27) == first_tool_from("craiyon"@, 28));
    assert(!contains_seq("craiyon"@, "copilot designer"@)) by {
        lemma_contains_iff_occurs("craiyon"@, "copilot designer"@);
    }
    assert(first_tool_from("craiyon"@, 26) == first_tool_from("craiyon"@, 27));
    assert(!contains_seq("craiyon"@, "bing image creator"@)) by {
        lemma_contains_iff_occurs("craiyon"@, "bing image creator"@);
    }
    assert(first_tool_from("craiyon"@, 25) == first_tool_from("craiyon"@, 26));
    assert(!contains_seq("craiyon"@, "openai"@)) by {
        lemma_contains_iff_occurs("craiyon"@, "openai"@);
        reveal_with_fuel(occurs_from, 9);
        reveal_with_fuel(agrees_from, 7);
    }
    assert(first_tool_from("craiyon"@, 24) == first_tool_from("craiyon"@, 25));
    assert(!contains_seq("craiyon"@, "chatgpt"@)) by {
        lemma_contains_iff_occurs("craiyon"@, "chatgpt"@);
        reveal_with_fuel(occurs_from, 9);
        reveal_with_fuel(agrees_from, 8);
    }
    assert(first_tool_from("craiyon"@, 23) == first_tool_from("craiyon"@, 24));
    assert(!contains_seq("craiyon"@, "gpt-4"@)) by {
        lemma_contains_iff_occurs("craiyon"@, "gpt-4"@);
        reveal_with_fuel(occurs_from, 9);
        reveal_with_fuel(agrees_from, 6);
    }
    assert(first_tool_from("craiyon"@, 22) == first_tool_from("craiyon"@, 23));
    assert(!contains_seq("craiyon"@, "gpt-image"@)) by {
        lemma_contains_iff_occurs("craiyon"@, "gpt-image"@);
    }
    assert(first_tool_from("craiyon"@, 21) == first_tool_from("craiyon"@, 22));
    assert(!contains_seq("craiyon"@, "gpt image"@)) by {
        lemma_contains_iff_occurs("craiyon"@, "gpt image"@);
    }
    assert(first_tool_from("craiyon"@, 20) == first_tool_from("craiyon"@, 21));
    assert(!contains_seq("craiyon"@, "gpt-4o"@)) by {
        lemma_contains_iff_occurs("craiyon"@, "gpt-4o"@);
        reveal_with_fuel(occurs_from, 9);
        reveal_with_fuel(agrees_from, 7);
    }
    assert(first_tool_from("craiyon"@, 19) == first_tool_from("craiyon"@, 20));
    assert(!contains_seq("craiyon"@, "vidu"@)) by {
        lemma_contains_iff_occurs("craiyon"@, "vidu"@);
        reveal_with_fuel(occurs_from, 9);
        reveal_with_fuel(agrees_from, 5);
    }
    assert(first_tool_from("craiyon"@, 18) == first_tool_from("craiyon"@, 19));
    assert(!contains_seq("craiyon"@, "kling"@)) by {
        lemma_contains_iff_occurs("craiyon"@, "kling"@);
        reveal_with_fuel(occurs_from, 9);
        reveal_with_fuel(agrees_from, 6);
    }
    assert(first_tool_from("craiyon"@, 17) == first_tool_from("craiyon"@, 18));
    assert(!contains_seq("craiyon"@, "pika"@)) by {
        lemma_contains_iff_occurs("craiyon"@, "pika"@);
        reveal_with_fuel(occurs_from, 9);
        reveal_with_fuel(agrees_from, 5);
    }
    assert(first_tool_from("craiyon"@, 16) == first_tool_from("craiyon"@, 17));
    assert(!contains_seq("craiyon"@, "runway"@)) by {
        lemma_contains_iff_occurs("craiyon"@, "runway"@);
        reveal_with_fuel(occurs_from, 9);
        reveal_with_fuel(agrees_from, 7);
    }
    assert(first_tool_from("craiyon"@, 15) == first_tool_from("craiyon"@, 16));
    assert(!contains_seq("craiyon"@, "google veo"@)) by {
        lemma_contains_iff_occurs("craiyon"@, "google veo"@);
    }
    assert(first_tool_from("craiyon"@, 14) == first_tool_from("craiyon"@, 15));
    assert(!contains_seq("craiyon"@, "sora"@)) by {
        lemma_contains_iff_occurs("craiyon"@, "sora"@);
        reveal_with_fuel(occurs_from, 9);
        reveal_with_fuel(agrees_from, 5);
    }
    assert(first_tool_from("craiyon"@, 13) == first_tool_from("craiyon"@, 14));
    assert(!contains_seq("craiyon"@, "novelai"@)) by {
        lemma_contains_iff_occurs("craiyon"@, "novelai"@);
        reveal_with_fuel(occurs_from, 9);
        reveal_with_fuel(agrees_from, 8);
    }
    assert(first_tool_from("craiyon"@, 12) == first_tool_from("craiyon"@, 13));
    assert(!contains_seq("craiyon"@, "leonardo ai"@)) by {
        lemma_contains_iff_occurs("craiyon"@, "leonardo ai"@);
    }
    assert(first_tool_from("craiyon"@, 11) == first_tool_from("craiyon"@, 12));
    assert(!contains_seq("craiyon"@, "leonardo.ai"@)) by {
        lemma_contains_iff_occurs("craiyon"@, "leonardo.ai"@);
    }
    assert(first_tool_from("craiyon"@, 10) == first_tool_from("craiyon"@, 11));
    assert(!contains_seq("craiyon"@, "ideogram"@)) by {
        lemma_contains_iff_occurs("craiyon"@, "ideogram"@);
    }
    assert(first_tool_from("craiyon"@, 9) == first_tool_from("craiyon"@, 10));
    assert(!contains_seq("craiyon"@, "flux"@)) by {
        lemma_contains_iff_occurs("craiyon"@, "flux"@);
        reveal_with_fuel(occurs_from, 9);
        reveal_with_fuel(agrees_from, 5);
    }
    assert(first_tool_from("craiyon"@, 8) == first_tool_from("craiyon"@, 9));
    assert(!contains_seq("craiyon"@, "imagen"@)) by {
        lemma_contains_iff_occurs("craiyon"@, "imagen"@);
        reveal_with_fuel(occurs_from, 9);
        reveal_with_fuel(agrees_from, 7);
    }
    assert(first_tool_from("craiyon"@, 7) == first_tool_from("craiyon"@, 8));
    assert(!contains_seq("craiyon"@, "firefly"@)) by {
        lemma_contains_iff_occurs("craiyon"@, "firefly"@);
        reveal_with_fuel(occurs_from, 9);
        reveal_with_fuel(agrees_from, 8);
    }
    assert(first_tool_from("craiyon"@, 6) == first_tool_from("craiyon"@, 7));
    assert(!contains_seq("craiyon"@, "stablediffusion"@)) by {
        lemma_contains_iff_occurs("craiyon"@, "stablediffusion"@);
    }
    assert(first_tool_from("craiyon"@, 5) == first_tool_from("craiyon"@, 6));
    assert(!contains_seq("craiyon"@, "stable-diffusion"@)) by {
        lemma_contains_iff_occurs("craiyon"@, "stable-diffusion"@);
    }
    assert(first_tool_from("craiyon"@, 4) == first_tool_from("craiyon"@, 5));
    assert(!contains_seq("craiyon"@, "stable diffusion"@)) by {
        lemma_contains_iff_occurs("craiyon"@, "stable diffusion"@);
    }
    assert(first_tool_from("craiyon"@, 3) == first_tool_from("craiyon"@, 4));
    assert(!contains_seq("craiyon"@, "midjourney"@)) by {
        lemma_contains_iff_occurs("craiyon"@, "midjourney"@);
    }
    assert(first_tool_from("craiyon"@, 2) == first_tool_from("craiyon"@, 3));
    assert(!contains_seq("craiyon"@, "dalle"@)) by {
        lemma_contains_iff_occurs("craiyon"@, "dalle"@);
        reveal_with_fuel(occurs_from, 9);
        reveal_with_fuel(agrees_from, 6);
    }
    assert(first_tool_from("craiyon"@, 1) == first_tool_from("craiyon"@, 2));
    assert(!contains_seq("craiyon"@, "dall-e"@)) by {
        lemma_contains_iff_occurs("craiyon"@, "dall-e"@);
        reveal_with_fuel(occurs_from, 9);
        reveal_with_fuel(agrees_from, 7);
    }
    assert(first_tool_from("craiyon"@, 0) == first_tool_from("craiyon"@, 1));
}

proof fn lemma_recognizes_deepai()
    ensures
        first_tool_from("deepai"@, 0) == Some("deepai"@),
{
    reveal_strlit("bing image creator");
    reveal_strlit("canva ai");
    reveal_strlit("chatgpt");
    reveal_strlit("copilot designer");
    reveal_strlit("craiyon");
    reveal_strlit("dall-e");
    reveal_strlit("dalle");
    reveal_strlit("deepai");
    reveal_strlit("dreamstudio");
    reveal_strlit("firefly");
    reveal_strlit("flux");
    reveal_strlit("google veo");
    reveal_strlit("gpt image");
    reveal_strlit("gpt-4");
    reveal_strlit("gpt-4o");
    reveal_strlit("gpt-image");
    reveal_strlit("ideogram");
    reveal_strlit("imagen");
    reveal_strlit("kling");
    reveal_strlit("leonardo ai");
    reveal_strlit("leonardo.ai");
    reveal_strlit("microsoft designer");
    reveal_strlit("midjourney");
    reveal_strlit("nightcafe");
    reveal_strlit("novelai");
    reveal_strlit("openai");
    reveal_strlit("pika");
    reveal_strlit("runway");
    reveal_strlit("sora");
    reveal_strlit("stable diffusion");
    reveal_strlit("stable-diffusion");
    reveal_strlit("stablediffusion");
    reveal_strlit("vidu");
    assert(first_tool_from("deepai"@, 32) == Some("deepai"@)) by {
        assert("deepai"@.subrange(0, 6) =~= "deepai"@);
        assert(crate::text::matches_at("deepai"@, "deepai"@, 0));
    }
    assert(!contains_seq("deepai"@, "craiyon"@)) by {
        lemma_contains_iff_occurs("deepai"@, "craiyon"@);
    }
    assert(first_tool_from("deepai"@, 31) == first_tool_from("deepai"@, 32));
    assert(!contains_seq("deepai"@, "nightcafe"@)) by {
        lemma_contains_iff_occurs("deepai"@, "nightcafe"@);
    }
    assert(first_tool_from("deepai"@, 30) == first_tool_from("deepai"@, 31));
    assert(!contains_seq("deepai"@, "dreamstudio"@)) by {
        lemma_contains_iff_occurs("deepai"@, "dreamstudio"@);
    }
    assert(first_tool_from("deepai"@, 29) == first_tool_from("deepai"@, 30));
    assert(!contains_seq("deepai"@, "canva ai"@)) by {
        lemma_contains_iff_occurs("deepai"@, "canva ai"@);
    }
    assert(first_tool_from("deepai"@, 28) == first_tool_from("deepai"@, 29));
    assert(!contains_seq("deepai"@, "microsoft designer"@)) by {
        lemma_contains_iff_occurs("deepai"@, "microsoft designer"@);
    }
    assert(first_tool_from("deepai"@, 27) == first_tool_from("deepai"@, 28));
    assert(!contains_seq("deepai"@, "copilot designer"@)) by {
        lemma_contains_iff_occurs("deepai"@, "copilot designer"@);
    }
    assert(first_tool_from("deepai"@, 26) == first_tool_from("deepai"@, 27));
    assert(!contains_seq("deepai"@, "bing image creator"@)) by {
        lemma_contains_iff_occurs("deepai"@, "bing image creator"@);
    }
    assert(first_tool_from("deepai"@, 25) == first_tool_from("deepai"@, 26));
    assert(!contains_seq("deepai"@, "openai"@)) by {
        lemma_contains_iff_occurs("deepai"@, "openai"@);
        reveal_with_fuel(occurs_from, 8);
        reveal_with_fuel(agrees_from, 7);
    }
    assert(first_tool_from("deepai"@, 24) == first_tool_from("deepai"@, 25));
    assert(!contains_seq("deepai"@, "chatgpt"@)) by {
        lemma_contains_iff_occurs("deepai"@, "chatgpt"@);
    }
    assert(first_tool_from("deepai"@, 23) == first_tool_from("deepai"@, 24));
    assert(!contains_seq("deepai"@, "gpt-4"@)) by {
        lemma_contains_iff_occurs("deepai"@, "gpt-4"@);
        reveal_with_fuel(occurs_from, 8);
        reveal_with_fuel(agrees_from, 6);
    }
    assert(first_tool_from("deepai"@, 22) == first_tool_from("deepai"@, 23));
    assert(!contains_seq("deepai"@, "gpt-image"@)) by {
        lemma_contains_iff_occurs("deepai"@, "gpt-image"@);
    }
    assert(first_tool_from("deepai"@, 21) == first_tool_from("deepai"@, 22));
    assert(!contains_seq("deepai"@, "gpt image"@)) by {
        lemma_contains_iff_occurs("deepai"@, "gpt image"@);
    }
    assert(first_tool_from("deepai"@, 20) == first_tool_from("deepai"@, 21));
    assert(!contains_seq("deepai"@, "gpt-4o"@)) by {
        lemma_contains_iff_occurs("deepai"@, "gpt-4o"@);
        reveal_with_fuel(occurs_from, 8);
        reveal_with_fuel(agrees_from, 7);
    }
    assert(first_tool_from("deepai"@, 19) == first_tool_from("deepai"@, 20));
    assert(!contains_seq("deepai"@, "vidu"@)) by {
        lemma_contains_iff_occurs("deepai"@, "vidu"@);
        reveal_with_fuel(occurs_from, 8);
        reveal_with_fuel(agrees_from, 5);
    }
    assert(first_tool_from("deepai"@, 18) == first_tool_from("deepai"@, 19));
    assert(!contains_seq("deepai"@, "kling"@)) by {
        lemma_contains_iff_occurs("deepai"@, "kling"@);
        reveal_with_fuel(occurs_from, 8);
        reveal_with_fuel(agrees_from, 6);
    }
    assert(first_tool_from("deepai"@, 17) == first_tool_from("deepai"@, 18));
    assert(!contains_seq("deepai"@, "pika"@)) by {
        lemma_contains_iff_occurs("deepai"@, "pika"@);
        reveal_with_fuel(occurs_from, 8);
        reveal_with_fuel(agrees_from, 5);
    }
    assert(first_tool_from("deepai"@, 16) == first_tool_from("deepai"@, 17));
    assert(!contains_seq("deepai"@, "runway"@)) by {
        lemma_contains_iff_occurs("deepai"@, "runway"@);
        reveal_with_fuel(occurs_from, 8);
        reveal_with_fuel(agrees_from, 7);
    }
    assert(first_tool_from("deepai"@, 15) == first_tool_from("deepai"@, 16));
    assert(!contains_seq("deepai"@, "google veo"@)) by {
        lemma_contains_iff_occurs("deepai"@, "google veo"@);
    }
    assert(first_tool_from("deepai"@, 14) == first_tool_from("deepai"@, 15));
    assert(!contains_seq("deepai"@, "sora"@)) by {
        lemma_contains_iff_occurs("deepai"@, "sora"@);
        reveal_with_fuel(occurs_from, 8);
        reveal_with_fuel(agrees_from, 5);
    }
    assert(first_tool_from("deepai"@, 13) == first_tool_from("deepai"@, 14));
    assert(!contains_seq("deepai"@, "novelai"@)) by {
        lemma_contains_iff_occurs("deepai"@, "novelai"@);
    }
    assert(first_tool_from("deepai"@, 12) == first_tool_from("deepai"@, 13));
    assert(!contains_seq("deepai"@, "leonardo ai"@)) by {
        lemma_contains_iff_occurs("deepai"@, "leonardo ai"@);
    }
    assert(first_tool_from("deepai"@, 11) == first_tool_from("deepai"@, 12));
    assert(!contains_seq("deepai"@, "leonardo.ai"@)) by {
        lemma_contains_iff_occurs("deepai"@, "leonardo.ai"@);
    }
    assert(first_tool_from("deepai"@, 10) == first_tool_from("deepai"@, 11));
    assert(!contains_seq("deepai"@, "ideogram"@)) by {
        lemma_contains_iff_occurs("deepai"@, "ideogram"@);
    }
    assert(first_tool_from("deepai"@, 9) == first_tool_from("deepai"@, 10));
    assert(!contains_seq("deepai"@, "flux"@)) by {
        lemma_contains_iff_occurs("deepai"@, "flux"@);
        reveal_with_fuel(occurs_from, 8);
        reveal_with_fuel(agrees_from, 5);
    }
    assert(first_tool_from("deepai"@, 8) == first_tool_from("deepai"@, 9));
    assert(!contains_seq("deepai"@, "imagen"@)) by {
        lemma_contains_iff_occurs("deepai"@, "imagen"@);
        reveal_with_fuel(occurs_from, 8);
        reveal_with_fuel(agrees_from, 7);
    }
    assert(first_tool_from("deepai"@, 7) == first_tool_from("deepai"@, 8));
    assert(!contains_seq("deepai"@, "firefly"@)) by {
        lemma_contains_iff_occurs("deepai"@, "firefly"@);
    }
    assert(first_tool_from("deepai"@, 6) == first_tool_from("deepai"@, 7));
    assert(!contains_seq("deepai"@, "stablediffusion"@)) by {
        lemma_contains_iff_occurs("deepai"@, "stablediffusion"@);
    }
    assert(first_tool_from("deepai"@, 5) == first_tool_from("deepai"@, 6));
    assert(!contains_seq("deepai"@, "stable-diffusion"@)) by {
        lemma_contains_iff_occurs("deepai"@, "stable-diffusion"@);
    }
    assert(first_tool_from("deepai"@, 4) == first_tool_from("deepai"@, 5));
    assert(!contains_seq("deepai"@, "stable diffusion"@)) by {
        lemma_contains_iff_occurs("deepai"@, "stable diffusion"@);
    }
    assert(first_tool_from("deepai"@, 3) == first_tool_from("deepai"@, 4));
    assert(!contains_seq("deepai"@, "midjourney"@)) by {
        lemma_contains_iff_occurs("deepai"@, "midjourney"@);
    }
    assert(first_tool_from("deepai"@, 2) == first_tool_from("deepai"@, 3));
    assert(!contains_seq("deepai"@, "dalle"@)) by {
        lemma_contains_iff_occurs("deepai"@, "dalle"@);
        reveal_with_fuel(occurs_from, 8);
        reveal_with_fuel(agrees_from, 6);
    }
    assert(first_tool_from("deepai"@, 1) == first_tool_from("deepai"@, 2));
    assert(!contains_seq("deepai"@, "dall-e"@)) by {
        lemma_contains_iff_occurs("deepai"@, "dall-e"@);
        reveal_with_fuel(occurs_from, 8);
        reveal_with_fuel(agrees_from, 7);
    }
    assert(first_tool_from("deepai"@, 0) == first_tool_from("deepai"@, 1));
}

proof fn lemma_recognizes_meta_ai()
    ensures
        first_tool_from("meta ai"@, 0) == Some("meta ai"@),
{
    reveal_strlit("bing image creator");
    reveal_strlit("canva ai");
    reveal_strlit("chatgpt");
    reveal_strlit("copilot designer");
    reveal_strlit("craiyon");
    reveal_strlit("dall-e");
    reveal_strlit("dalle");
    reveal_strlit("deepai");
    reveal_strlit("dreamstudio");
    reveal_strlit("firefly");
    reveal_strlit("flux");
    reveal_strlit("google veo");
    reveal_strlit("gpt image");
    reveal_strlit("gpt-4");
    reveal_strlit("gpt-4o");
    reveal_strlit("gpt-image");
    reveal_strlit("ideogram");
    reveal_strlit("imagen");
    reveal_strlit("kling");
    reveal_strlit("leonardo ai");
    reveal_strlit("leonardo.ai");
    reveal_strlit("meta ai");
    reveal_strlit("microsoft designer");
    reveal_strlit("midjourney");
    reveal_strlit("nightcafe");
    reveal_strlit("novelai");
    reveal_strlit("openai");
    reveal_strlit("pika");
    reveal_strlit("runway");
    reveal_strlit("sora");
    reveal_strlit("stable diffusion");
    reveal_strlit("stable-diffusion");
    reveal_strlit("stablediffusion");
    reveal_strlit("vidu");
    assert(first_tool_from("meta ai"@, 33) == Some("meta ai"@)) by {
        assert("meta ai"@.subrange(0, 7) =~= "meta ai"@);
        assert(crate::text::matches_at("meta ai"@, "meta ai"@, 0));
    }
    assert(!contains_seq("meta ai"@, "deepai"@)) by {
        lemma_contains_iff_occurs("meta ai"@, "deepai"@);
        reveal_with_fuel(occurs_from, 9);
        reveal_with_fuel(agrees_from, 7);
    }
    assert(first_tool_from("meta ai"@, 32) == first_tool_from("meta ai"@, 33));
    assert(!contains_seq("meta ai"@, "craiyon"@)) by {
        lemma_contains_iff_occurs("meta ai"@, "craiyon"@);
        reveal_with_fuel(occurs_from, 9);
        reveal_with_fuel(agrees_from, 8);
    }
    assert(first_tool_from("meta ai"@, 31) == first_tool_from("meta ai"@, 32));
    assert(!contains_seq("meta ai"@, "nightcafe"@)) by {
        lemma_contains_iff_occurs("meta ai"@, "nightcafe"@);
    }
    assert(first_tool_from("meta ai"@, 30) == first_tool_from("meta ai"@, 31));
    assert(!contains_seq("meta ai"@, "dreamstudio"@)) by {
        lemma_contains_iff_occurs("meta ai"@, "dreamstudio"@);
    }
    assert(first_tool_from("meta ai"@, 29) == first_tool_from("meta ai"@, 30));
    assert(!contains_seq("meta ai"@, "canva ai"@)) by {
        lemma_contains_iff_occurs("meta ai"@, "canva ai"@);
    }
    assert(first_tool_from("meta ai"@, 28) == first_tool_from("meta ai"@, 29));
    assert(!contains_seq("meta ai"@, "microsoft designer"@)) by {
        lemma_contains_iff_occurs("meta ai"@, "microsoft designer"@);
    }
    assert(first_tool_from("meta ai"@, 27) == first_tool_from("meta ai"@, 28));
    assert(!contains_seq("meta ai"@, "copilot designer"@)) by {
        lemma_contains_iff_occurs("meta ai"@, "copilot designer"@);
    }
    assert(first_tool_from("meta ai"@, 26) == first_tool_from("meta ai"@, 27));
    assert(!contains_seq("meta ai"@, "bing image creator"@)) by {
        lemma_contains_iff_occurs("meta ai"@, "bing image creator"@);
    }
    assert(first_tool_from("meta ai"@, 25) == first_tool_from("meta ai"@, 26));
    assert(!contains_seq("meta ai"@, "openai"@)) by {
        lemma_contains_iff_occurs("meta ai"@, "openai"@);
        reveal_with_fuel(occurs_from, 9);
        reveal_with_fuel(agrees_from, 7);
    }
    assert(first_tool_from("meta ai"@, 24) == first_tool_from("meta ai"@, 25));
    assert(!contains_seq("meta ai"@, "chatgpt"@)) by {
        lemma_contains_iff_occurs("meta ai"@, "chatgpt"@);
        reveal_with_fuel(occurs_from, 9);
        reveal_with_fuel(agrees_from, 8);
    }
    assert(first_tool_from("meta ai"@, 23) == first_tool_from("meta ai"@, 24));
    assert(!contains_seq("meta ai"@, "gpt-4"@)) by {
        lemma_contains_iff_occurs("meta ai"@, "gpt-4"@);
        reveal_with_fuel(occurs_from, 9);
        reveal_with_fuel(agrees_from, 6);
    }
    assert(first_tool_from("meta ai"@, 22) == first_tool_from("meta ai"@, 23));
    assert(!contains_seq("meta ai"@, "gpt-image"@)) by {
        lemma_contains_iff_occurs("meta ai"@, "gpt-image"@);
    }
    assert(first_tool_from("meta ai"@, 21) == first_tool_from("meta ai"@, 22));
    assert(!contains_seq("meta ai"@, "gpt image"@)) by {
        lemma_contains_iff_occurs("meta ai"@, "gpt image"@);
    }
    assert(first_tool_from("meta ai"@, 20) == first_tool_from("meta ai"@, 21));
    assert(!contains_seq("meta ai"@, "gpt-4o"@)) by {
        lemma_contains_iff_occurs("meta ai"@, "gpt-4o"@);
        reveal_with_fuel(occurs_from, 9);
        reveal_with_fuel(agrees_from, 7);
    }
    assert(first_tool_from("meta ai"@, 19) == first_tool_from("meta ai"@, 20));
    assert(!contains_seq("meta ai"@, "vidu"@)) by {
        lemma_contains_iff_occurs("meta ai"@, "vidu"@);
        reveal_with_fuel(occurs_from, 9);
        reveal_with_fuel(agrees_from, 5);
    }
    assert(first_tool_from("meta ai"@, 18) == first_tool_from("meta ai"@, 19));
    assert(!contains_seq("meta ai"@, "kling"@)) by {
        lemma_contains_iff_occurs("meta ai"@, "kling"@);
        reveal_with_fuel(occurs_from, 9);
        reveal_with_fuel(agrees_from, 6);
    }
    assert(first_tool_from("meta ai"@, 17) == first_tool_from("meta ai"@, 18));
    assert(!contains_seq("meta ai"@, "pika"@)) by {
        lemma_contains_iff_occurs("meta ai"@, "pika"@);
        reveal_with_fuel(occurs_from, 9);
        reveal_with_fuel(agrees_from, 5);
    }
    assert(first_tool_from("meta ai"@, 16) == first_tool_from("meta ai"@, 17));
    assert(!contains_seq("meta ai"@, "runway"@)) by {
        lemma_contains_iff_occurs("meta ai"@, "runway"@);
        reveal_with_fuel(occurs_from, 9);
        reveal_with_fuel(agrees_from, 7);
    }
    assert(first_tool_from("meta ai"@, 15) == first_tool_from("meta ai"@, 16));
    assert(!contains_seq("meta ai"@, "google veo"@)) by {
        lemma_contains_iff_occurs("meta ai"@, "google veo"@);
    }
    assert(first_tool_from("meta ai"@, 14) == first_tool_from("meta ai"@, 15));
    assert(!contains_seq("meta ai"@, "sora"@)) by {
        lemma_contains_iff_occurs("meta ai"@, "sora"@);
        reveal_with_fuel(occurs_from, 9);
        reveal_with_fuel(agrees_from, 5);
    }
    assert(first_tool_from("meta ai"@, 13) == first_tool_from("meta ai"@, 14));
    assert(!contains_seq("meta ai"@, "novelai"@)) by {
        lemma_contains_iff_occurs("meta ai"@, "novelai"@);
        reveal_with_fuel(occurs_from, 9);
        reveal_with_fuel(agrees_from, 8);
    }
    assert(first_tool_from("meta ai"@, 12) == first_tool_from("meta ai"@, 13));
    assert(!contains_seq("meta ai"@, "leonardo ai"@)) by {
        lemma_contains_iff_occurs("meta ai"@, "leonardo ai"@);
    }
    assert(first_tool_from("meta ai"@, 11) == first_tool_from("meta ai"@, 12));
    assert(!contains_seq("meta ai"@, "leonardo.ai"@)) by {
        lemma_contains_iff_occurs("meta ai"@, "leonardo.ai"@);
    }
    assert(first_tool_from("meta ai"@, 10) == first_tool_from("meta ai"@, 11));
    assert(!contains_seq("meta ai"@, "ideogram"@)) by {
        lemma_contains_iff_occurs("meta ai"@, "ideogram"@);
    }
    assert(first_tool_from("meta ai"@, 9) == first_tool_from("meta ai"@, 10));
    assert(!contains_seq("meta ai"@, "flux"@)) by {
        lemma_contains_iff_occurs("meta ai"@, "flux"@);
        reveal_with_fuel(occurs_from, 9);
        reveal_with_fuel(agrees_from, 5);
    }
    assert(first_tool_from("meta ai"@, 8) == first_tool_from("meta ai"@, 9));
    assert(!contains_seq("meta ai"@, "imagen"@)) by {
        lemma_contains_iff_occurs("meta ai"@, "imagen"@);
        reveal_with_fuel(occurs_from, 9);
        reveal_with_fuel(agrees_from, 7);
    }
    assert(first_tool_from("meta ai"@, 7) == first_tool_from("meta ai"@, 8));
    assert(!contains_seq("meta ai"@, "firefly"@)) by {
        lemma_contains_iff_occurs("meta ai"@, "firefly"@);
        reveal_with_fuel(occurs_from, 9);
        reveal_with_fuel(agrees_from, 8);
    }
    assert(first_tool_from("meta ai"@, 6) == first_tool_from("meta ai"@, 7));
    assert(!contains_seq("meta ai"@, "stablediffusion"@)) by {
        lemma_contains_iff_occurs("meta ai"@, "stablediffusion"@);
    }
    assert(first_tool_from("meta ai"@, 5) == first_tool_from("meta ai"@, 6));
    assert(!contains_seq("meta ai"@, "stable-diffusion"@)) by {
        lemma_contains_iff_occurs("meta ai"@, "stable-diffusion"@);
    }
    assert(first_tool_from("meta ai"@, 4) == first_tool_from("meta ai"@, 5));
    assert(!contains_seq("meta ai"@, "stable diffusion"@)) by {
        lemma_contains_iff_occurs("meta ai"@, "stable diffusion"@);
    }
    assert(first_tool_from("meta ai"@, 3) == first_tool_from("meta ai"@, 4));
    assert(!contains_seq("meta ai"@, "midjourney"@)) by {
        lemma_contains_iff_occurs("meta ai"@, "midjourney"@);
    }
    assert(first_tool_from("meta ai"@, 2) == first_tool_from("meta ai"@, 3));
    assert(!contains_seq("meta ai"@, "dalle"@)) by {
        lemma_contains_iff_occurs("meta ai"@, "dalle"@);
        reveal_with_fuel(occurs_from, 9);
        reveal_with_fuel(agrees_from, 6);
    }
    assert(first_tool_from("meta ai"@, 1) == first_tool_from("meta ai"@, 2));
    assert(!contains_seq("meta ai"@, "dall-e"@)) by {
        lemma_contains_iff_occurs("meta ai"@, "dall-e"@);
        reveal_with_fuel(occurs_from, 9);
        reveal_with_fuel(agrees_from, 7);
    }
    assert(first_tool_from("meta ai"@, 0) == first_tool_from("meta ai"@, 1));
}

proof fn lemma_recognizes_stability_ai()
    ensures
        first_tool_from("stability ai"@, 0) == Some("stability ai"@),
{
    reveal_strlit("bing image creator");
    reveal_strlit("canva ai");
    reveal_strlit("chatgpt");
    reveal_strlit("copilot designer");
    reveal_strlit("craiyon");
    reveal_strlit("dall-e");
    reveal_strlit("dalle");
    reveal_strlit("deepai");
    reveal_strlit("dreamstudio");
    reveal_strlit("firefly");
    reveal_strlit("flux");
    reveal_strlit("google veo");
    reveal_strlit("gpt image");
    reveal_strlit("gpt-4");
    reveal_strlit("gpt-4o");
    reveal_strlit("gpt-image");
    reveal_strlit("ideogram");
    reveal_strlit("imagen");
    reveal_strlit("kling");
    reveal_strlit("leonardo ai");
    reveal_strlit("leonardo.ai");
    reveal_strlit("meta ai");
    reveal_strlit("microsoft designer");
    reveal_strlit("midjourney");
    reveal_strlit("nightcafe");
    reveal_strlit("novelai");
    reveal_strlit("openai");
    reveal_strlit("pika");
    reveal_strlit("runway");
    reveal_strlit("sora");
    reveal_strlit("stability ai");
    reveal_strlit("stable diffusion");
    reveal_strlit("stable-diffusion");
    reveal_strlit("stablediffusion");
    reveal_strlit("vidu");
    assert(first_tool_from("stability ai"@, 34) == Some("stability ai"@)) by {
        assert("stability ai"@.subrange(0, 12) =~= "stability ai"@);
        assert(crate::text::matches_at("stability ai"@, "stability ai"@, 0));
    }
    assert(!contains_seq("stability ai"@, "meta ai"@)) by {
        lemma_contains_iff_occurs("stability ai"@, "meta ai"@);
        reveal_with_fuel(occurs_from, 14);
        reveal_with_fuel(agrees_from, 8);
    }
    assert(first_tool_from("stability ai"@, 33) == first_tool_from("stability ai"@, 34));
    assert(!contains_seq("stability ai"@, "deepai"@)) by {
        lemma_contains_iff_occurs("stability ai"@, "deepai"@);
        reveal_with_fuel(occurs_from, 14);
        reveal_with_fuel(agrees_from, 7);
    }
    assert(first_tool_from("stability ai"@, 32) == first_tool_from("stability ai"@, 33));
    assert(!contains_seq("stability ai"@, "craiyon"@)) by {
        lemma_contains_iff_occurs("stability ai"@, "craiyon"@);
        reveal_with_fuel(occurs_from, 14);
        reveal_with_fuel(agrees_from, 8);
    }
    assert(first_tool_from("stability ai"@, 31) == first_tool_from("stability ai"@, 32));
    assert(!contains_seq("stability ai"@, "nightcafe"@)) by {
        lemma_contains_iff_occurs("stability ai"@, "nightcafe"@);
        reveal_with_fuel(occurs_from, 14);
        reveal_with_fuel(agrees_from, 10);
    }
    assert(first_tool_from("stability ai"@, 30) == first_tool_from("stability ai"@, 31));
    assert(!contains_seq("stability ai"@, "dreamstudio"@)) by {
        lemma_contains_iff_occurs("stability ai"@, "dreamstudio"@);
        reveal_with_fuel(occurs_from, 14);
        reveal_with_fuel(agrees_from, 12);
    }
    assert(first_tool_from("stability ai"@, 29) == first_tool_from("stability ai"@, 30));
    assert(!contains_seq("stability ai"@, "canva ai"@)) by {
        lemma_contains_iff_occurs("stability ai"@, "canva ai"@);
        reveal_with_fuel(occurs_from, 14);
        reveal_with_fuel(agrees_from, 9);
    }
    assert(first_tool_from("stability ai"@, 28) == first_tool_from("stability ai"@, 29));
    assert(!contains_seq("stability ai"@, "microsoft designer"@)) by {
        lemma_contains_iff_occurs("stability ai"@, "microsoft designer"@);
    }
    assert(first_tool_from("stability ai"@, 27) == first_tool_from("stability ai"@, 28));
    assert(!contains_seq("stability ai"@, "copilot designer"@)) by {
        lemma_contains_iff_occurs("stability ai"@, "copilot designer"@);
    }
    assert(first_tool_from("stability ai"@, 26) == first_tool_from("stability ai"@, 27));
    assert(!contains_seq("stability ai"@, "bing image creator"@)) by {
        lemma_contains_iff_occurs("stability ai"@, "bing image creator"@);
    }
    assert(first_tool_from("stability ai"@, 25) == first_tool_from("stability ai"@, 26));
    assert(!contains_seq("stability ai"@, "openai"@)) by {
        lemma_contains_iff_occurs("stability ai"@, "openai"@);
        reveal_with_fuel(occurs_from, 14);
        reveal_with_fuel(agrees_from, 7);
    }
    assert(first_tool_from("stability ai"@, 24) == first_tool_from("stability ai"@, 25));
    assert(!contains_seq("stability ai"@, "chatgpt"@)) by {
        lemma_contains_iff_occurs("stability ai"@, "chatgpt"@);
        reveal_with_fuel(occurs_from, 14);
        reveal_with_fuel(agrees_from, 8);
    }
    assert(first_tool_from("stability ai"@, 23) == first_tool_from("stability ai"@, 24));
    assert(!contains_seq("stability ai"@, "gpt-4"@)) by {
        lemma_contains_iff_occurs("stability ai"@, "gpt-4"@);
        reveal_with_fuel(occurs_from, 14);
        reveal_with_fuel(agrees_from, 6);
    }
    assert(first_tool_from("stability ai"@, 22) == first_tool_from("stability ai"@, 23));
    assert(!contains_seq("stability ai"@, "gpt-image"@)) by {
        lemma_contains_iff_occurs("stability ai"@, "gpt-image"@);
        reveal_with_fuel(occurs_from, 14);
        reveal_with_fuel(agrees_from, 10);
    }
    assert(first_tool_from("stability ai"@, 21) == first_tool_from("stability ai"@, 22));
    assert(!contains_seq("stability ai"@, "gpt image"@)) by {
        lemma_contains_iff_occurs("stability ai"@, "gpt image"@);
        reveal_with_fuel(occurs_from, 14);
        reveal_with_fuel(agrees_from, 10);
    }
    assert(first_tool_from("stability ai"@, 20) == first_tool_from("stability ai"@, 21));
    assert(!contains_seq("stability ai"@, "gpt-4o"@)) by {
        lemma_contains_iff_occurs("stability ai"@, "gpt-4o"@);
        reveal_with_fuel(occurs_from, 14);
        reveal_with_fuel(agrees_from, 7);
    }
    assert(first_tool_from("stability ai"@, 19) == first_tool_from("stability ai"@, 20));
    assert(!contains_seq("stability ai"@, "vidu"@)) by {
        lemma_contains_iff_occurs("stability ai"@, "vidu"@);
        reveal_with_fuel(occurs_from, 14);
        reveal_with_fuel(agrees_from, 5);
    }
    assert(first_tool_from("stability ai"@, 18) == first_tool_from("stability ai"@, 19));
    assert(!contains_seq("stability ai"@, "kling"@)) by {
        lemma_contains_iff_occurs("stability ai"@, "kling"@);
        reveal_with_fuel(occurs_from, 14);
        reveal_with_fuel(agrees_from, 6);
    }
    assert(first_tool_from("stability ai"@, 17) == first_tool_from("stability ai"@, 18));
    assert(!contains_seq("stability ai"@, "pika"@)) by {
        lemma_contains_iff_occurs("stability ai"@, "pika"@);
        reveal_with_fuel(occurs_from, 14);
        reveal_with_fuel(agrees_from, 5);
    }
    assert(first_tool_from("stability ai"@, 16) == first_tool_from("stability ai"@, 17));
    assert(!contains_seq("stability ai"@, "runway"@)) by {
        lemma_contains_iff_occurs("stability ai"@, "runway"@);
        reveal_with_fuel(occurs_from, 14);
        reveal_with_fuel(agrees_from, 7);
    }
    assert(first_tool_from("stability ai"@, 15) == first_tool_from("stability ai"@, 16));
    assert(!contains_seq("stability ai"@, "google veo"@)) by {
        lemma_contains_iff_occurs("stability ai"@, "google veo"@);
        reveal_with_fuel(occurs_from, 14);
        reveal_with_fuel(agrees_from, 11);
    }
    assert(first_tool_from("stability ai"@, 14) == first_tool_from("stability ai"@, 15));
    assert(!contains_seq("stability ai"@, "sora"@)) by {
        lemma_contains_iff_occurs("stability ai"@, "sora"@);
        reveal_with_fuel(occurs_from, 14);
        reveal_with_fuel(agrees_from, 5);
    }
    assert(first_tool_from("stability ai"@, 13) == first_tool_from("stability ai"@, 14));
    assert(!contains_seq("stability ai"@, "novelai"@)) by {
        lemma_contains_iff_occurs("stability ai"@, "novelai"@);
        reveal_with_fuel(occurs_from, 14);
        reveal_with_fuel(agrees_from, 8);
    }
    assert(first_tool_from("stability ai"@, 12) == first_tool_from("stability ai"@, 13));
    assert(!contains_seq("stability ai"@, "leonardo ai"@)) by {
        lemma_contains_iff_occurs("stability ai"@, "leonardo ai"@);
        reveal_with_fuel(occurs_from, 14);
        reveal_with_fuel(agrees_from, 12);
    }
    assert(first_tool_from("stability ai"@, 11) == first_tool_from("stability ai"@, 12));
    assert(!contains_seq("stability ai"@, "leonardo.ai"@)) by {
        lemma_contains_iff_occurs("stability ai"@, "leonardo.ai"@);
        reveal_with_fuel(occurs_from, 14);
        reveal_with_fuel(agrees_from, 12);
    }
    assert(first_tool_from("stability ai"@, 10) == first_tool_from("stability ai"@, 11));
    assert(!contains_seq("stability ai"@, "ideogram"@)) by {
        lemma_contains_iff_occurs("stability ai"@, "ideogram"@);
        reveal_with_fuel(occurs_from, 14);
        reveal_with_fuel(agrees_from, 9);
    }
    assert(first_tool_from("stability ai"@, 9) == first_tool_from("stability ai"@, 10));
    assert(!contains_seq("stability ai"@, "flux"@)) by {
        lemma_contains_iff_occurs("stability ai"@, "flux"@);
        reveal_with_fuel(occurs_from, 14);
        reveal_with_fuel(agrees_from, 5);
    }
    assert(first_tool_from("stability ai"@, 8) == first_tool_from("stability ai"@, 9));
    assert(!contains_seq("stability ai"@, "imagen"@)) by {
        lemma_contains_iff_occurs("stability ai"@, "imagen"@);
        reveal_with_fuel(occurs_from, 14);
        reveal_with_fuel(agrees_from, 7);
    }
    assert(first_tool_from("stability ai"@, 7) == first_tool_from("stability ai"@, 8));
    assert(!contains_seq("stability ai"@, "firefly"@)) by {
        lemma_contains_iff_occurs("stability ai"@, "firefly"@);
        reveal_with_fuel(occurs_from, 14);
        reveal_with_fuel(agrees_from, 8);
    }
    assert(first_tool_from("stability ai"@, 6) == first_tool_from("stability ai"@, 7));
    assert(!contains_seq("stability ai"@, "stablediffusion"@)) by {
        lemma_contains_iff_occurs("stability ai"@, "stablediffusion"@);
    }
    assert(first_tool_from("stability ai"@, 5) == first_tool_from("stability ai"@, 6));
    assert(!contains_seq("stability ai"@, "stable-diffusion"@)) by {
        lemma_contains_iff_occurs("stability ai"@, "stable-diffusion"@);
    }
    assert(first_tool_from("stability ai"@, 4) == first_tool_from("stability ai"@, 5));
    assert(!contains_seq("stability ai"@, "stable diffusion"@)) by {
        lemma_contains_iff_occurs("stability ai"@, "stable diffusion"@);
    }
    assert(first_tool_from("stability ai"@, 3) == first_tool_from("stability ai"@, 4));
    assert(!contains_seq("stability ai"@, "midjourney"@)) by {
        lemma_contains_iff_occurs("stability ai"@, "midjourney"@);
        reveal_with_fuel(occurs_from, 14);
        reveal_with_fuel(agrees_from, 11);
    }
    assert(first_tool_from("stability ai"@, 2) == first_tool_from("stability ai"@, 3));
    assert(!contains_seq("stability ai"@, "dalle"@)) by {
        lemma_contains_iff_occurs("stability ai"@, "dalle"@);
        reveal_with_fuel(occurs_from, 14);
        reveal_with_fuel(agrees_from, 6);
    }
    assert(first_tool_from("stability ai"@, 1) == first_tool_from("stability ai"@, 2));
    assert(!contains_seq("stability ai"@, "dall-e"@)) by {
        lemma_contains_iff_occurs("stability ai"@, "dall-e"@);
        reveal_with_fuel(occurs_from, 14);
        reveal_with_fuel(agrees_from, 7);
    }
    assert(first_tool_from("stability ai"@, 0) == first_tool_from("stability ai"@, 1));
}

proof fn lemma_recognizes_comfyui()
    ensures
        first_tool_from("comfyui"@, 0) == Some("comfyui"@),
{
    reveal_strlit("bing image creator");
    reveal_strlit("canva ai");
    reveal_strlit("chatgpt");
    reveal_strlit("comfyui");
    reveal_strlit("copilot designer");
    reveal_strlit("craiyon");
    reveal_strlit("dall-e");
    reveal_strlit("dalle");
    reveal_strlit("deepai");
    reveal_strlit("dreamstudio");
    reveal_strlit("firefly");
    reveal_strlit("flux");
    reveal_strlit("google veo");
    reveal_strlit("gpt image");
    reveal_strlit("gpt-4");
    reveal_strlit("gpt-4o");
    reveal_strlit("gpt-image");
    reveal_strlit("ideogram");
    reveal_strlit("imagen");
    reveal_strlit("kling");
    reveal_strlit("leonardo ai");
    reveal_strlit("leonardo.ai");
    reveal_strlit("meta ai");
    reveal_strlit("microsoft designer");
    reveal_strlit("midjourney");
    reveal_strlit("nightcafe");
    reveal_strlit("novelai");
    reveal_strlit("openai");
    reveal_strlit("pika");
    reveal_strlit("runway");
    reveal_strlit("sora");
    reveal_strlit("stability ai");
    reveal_strlit("stability.ai");
    reveal_strlit("stable diffusion");
    reveal_strlit("stable-diffusion");
    reveal_strlit("stablediffusion");
    reveal_strlit("vidu");
    assert(first_tool_from("comfyui"@, 36) == Some("comfyui"@)) by {
        assert("comfyui"@.subrange(0, 7) =~= "comfyui"@);
        assert(crate::text::matches_at("comfyui"@, "comfyui"@, 0));
    }
    assert(!contains_seq("comfyui"@, "stability.ai"@)) by {
        lemma_contains_iff_occurs("comfyui"@, "stability.ai"@);
    }
    assert(first_tool_from("comfyui"@, 35) == first_tool_from("comfyui"@, 36));
    assert(!contains_seq("comfyui"@, "stability ai"@)) by {
        lemma_contains_iff_occurs("comfyui"@, "stability ai"@);
    }
    assert(first_tool_from("comfyui"@, 34) == first_tool_from("comfyui"@, 35));
    assert(!contains_seq("comfyui"@, "meta ai"@)) by {
        lemma_contains_iff_occurs("comfyui"@, "meta ai"@);
        reveal_with_fuel(occurs_from, 9);
        reveal_with_fuel(agrees_from, 8);
    }
    assert(first_tool_from("comfyui"@, 33) == first_tool_from("comfyui"@, 34));
    assert(!contains_seq("comfyui"@, "deepai"@)) by {
        lemma_contains_iff_occurs("comfyui"@, "deepai"@);
        reveal_with_fuel(occurs_from, 9);
        reveal_with_fuel(agrees_from, 7);
    }
    assert(first_tool_from("comfyui"@, 32) == first_tool_from("comfyui"@, 33));
    assert(!contains_seq("comfyui"@, "craiyon"@)) by {
        lemma_contains_iff_occurs("comfyui"@, "craiyon"@);
        reveal_with_fuel(occurs_from, 9);
        reveal_with_fuel(agrees_from, 8);
    }
    assert(first_tool_from("comfyui"@, 31) == first_tool_from("comfyui"@, 32));
    assert(!contains_seq("comfyui"@, "nightcafe"@)) by {
        lemma_contains_iff_occurs("comfyui"@, "nightcafe"@);
    }
    assert(first_tool_from("comfyui"@, 30) == first_tool_from("comfyui"@, 31));
    assert(!contains_seq("comfyui"@, "dreamstudio"@)) by {
        lemma_contains_iff_occurs("comfyui"@, "dreamstudio"@);
    }
    assert(first_tool_from("comfyui"@, 29) == first_tool_from("comfyui"@, 30));
    assert(!contains_seq("comfyui"@, "canva ai"@)) by {
        lemma_contains_iff_occurs("comfyui"@, "canva ai"@);
    }
    assert(first_tool_from("comfyui"@, 28) == first_tool_from("comfyui"@, 29));
    assert(!contains_seq("comfyui"@, "microsoft designer"@)) by {
        lemma_contains_iff_occurs("comfyui"@, "microsoft designer"@);
    }
    assert(first_tool_from("comfyui"@, 27) == first_tool_from("comfyui"@, 28));
    assert(!contains_seq("comfyui"@, "copilot designer"@)) by {
        lemma_contains_iff_occurs("comfyui"@, "copilot designer"@);
    }
    assert(first_tool_from("comfyui"@, 26) == first_tool_from("comfyui"@, 27));
    assert(!contains_seq("comfyui"@, "bing image creator"@)) by {
        lemma_contains_iff_occurs("comfyui"@, "bing image creator"@);
    }
    assert(first_tool_from("comfyui"@, 25) == first_tool_from("comfyui"@, 26));
    assert(!contains_seq("comfyui"@, "openai"@)) by {
        lemma_contains_iff_occurs("comfyui"@, "openai"@);
        reveal_with_fuel(occurs_from, 9);
        reveal_with_fuel(agrees_from, 7);
    }
    assert(first_tool_from("comfyui"@, 24) == first_tool_from("comfyui"@, 25));
    assert(!contains_seq("comfyui"@, "chatgpt"@)) by {
        lemma_contains_iff_occurs("comfyui"@, "chatgpt"@);
        reveal_with_fuel(occurs_from, 9);
        reveal_with_fuel(agrees_from, 8);
    }
    assert(first_tool_from("comfyui"@, 23) == first_tool_from("comfyui"@, 24));
    assert(!contains_seq("comfyui"@, "gpt-4"@)) by {
        lemma_contains_iff_occurs("comfyui"@, "gpt-4"@);
        reveal_with_fuel(occurs_from, 9);
        reveal_with_fuel(agrees_from, 6);
    }
    assert(first_tool_from("comfyui"@, 22) == first_tool_from("comfyui"@, 23));
    assert(!contains_seq("comfyui"@, "gpt-image"@)) by {
        lemma_contains_iff_occurs("comfyui"@, "gpt-image"@);
    }
    assert(first_tool_from("comfyui"@, 21) == first_tool_from("comfyui"@, 22));
    assert(!contains_seq("comfyui"@, "gpt image"@)) by {
        lemma_contains_iff_occurs("comfyui"@, "gpt image"@);
    }
    assert(first_tool_from("comfyui"@, 20) == first_tool_from("comfyui"@, 21));
    assert(!contains_seq("comfyui"@, "gpt-4o"@)) by {
        lemma_contains_iff_occurs("comfyui"@, "gpt-4o"@);
        reveal_with_fuel(occurs_from, 9);
        reveal_with_fuel(agrees_from, 7);
    }
    assert(first_tool_from("comfyui"@, 19) == first_tool_from("comfyui"@, 20));
    assert(!contains_seq("comfyui"@, "vidu"@)) by {
        lemma_contains_iff_occurs("comfyui"@, "vidu"@);
        reveal_with_fuel(occurs_from, 9);
        reveal_with_fuel(agrees_from, 5);
    }
    assert(first_tool_from("comfyui"@, 18) == first_tool_from("comfyui"@, 19));
    assert(!contains_seq("comfyui"@, "kling"@)) by {
        lemma_contains_iff_occurs("comfyui"@, "kling"@);
        reveal_with_fuel(occurs_from, 9);
        reveal_with_fuel(agrees_from, 6);
    }
    assert(first_tool_from("comfyui"@, 17) == first_tool_from("comfyui"@, 18));
    assert(!contains_seq("comfyui"@, "pika"@)) by {
        lemma_contains_iff_occurs("comfyui"@, "pika"@);
        reveal_with_fuel(occurs_from, 9);
        reveal_with_fuel(agrees_from, 5);
    }
    assert(first_tool_from("comfyui"@, 16) == first_tool_from("comfyui"@, 17));
    assert(!contains_seq("comfyui"@, "runway"@)) by {
        lemma_contains_iff_occurs("comfyui"@, "runway"@);
        reveal_with_fuel(occurs_from, 9);
        reveal_with_fuel(agrees_from, 7);
    }
    assert(first_tool_from("comfyui"@, 15) == first_tool_from("comfyui"@, 16));
    assert(!contains_seq("comfyui"@, "google veo"@)) by {
        lemma_contains_iff_occurs("comfyui"@, "google veo"@);
    }
    assert(first_tool_from("comfyui"@, 14) == first_tool_from("comfyui"@, 15));
    assert(!contains_seq("comfyui"@, "sora"@)) by {
        lemma_contains_iff_occurs("comfyui"@, "sora"@);
        reveal_with_fuel(occurs_from, 9);
        reveal_with_fuel(agrees_from, 5);
    }
    assert(first_tool_from("comfyui"@, 13) == first_tool_from("comfyui"@, 14));
    assert(!contains_seq("comfyui"@, "novelai"@)) by {
        lemma_contains_iff_occurs("comfyui"@, "novelai"@);
        reveal_with_fuel(occurs_from, 9);
        reveal_with_fuel(agrees_from, 8);
    }
    assert(first_tool_from("comfyui"@, 12) == first_tool_from("comfyui"@, 13));
    assert(!contains_seq("comfyui"@, "leonardo ai"@)) by {
        lemma_contains_iff_occurs("comfyui"@, "leonardo ai"@);
    }
    assert(first_tool_from("comfyui"@, 11) == first_tool_from("comfyui"@, 12));
    assert(!contains_seq("comfyui"@, "leonardo.ai"@)) by {
        lemma_contains_iff_occurs("comfyui"@, "leonardo.ai"@);
    }
    assert(first_tool_from("comfyui"@, 10) == first_tool_from("comfyui"@, 11));
    assert(!contains_seq("comfyui"@, "ideogram"@)) by {
        lemma_contains_iff_occurs("comfyui"@, "ideogram"@);
    }
    assert(first_tool_from("comfyui"@, 9) == first_tool_from("comfyui"@, 10));
    assert(!contains_seq("comfyui"@, "flux"@)) by {
        lemma_contains_iff_occurs("comfyui"@, "flux"@);
        reveal_with_fuel(occurs_from, 9);
        reveal_with_fuel(agrees_from, 5);
    }
    assert(first_tool_from("comfyui"@, 8) == first_tool_from("comfyui"@, 9));
    assert(!contains_seq("comfyui"@, "imagen"@)) by {
        lemma_contains_iff_occurs("comfyui"@, "imagen"@);
        reveal_with_fuel(occurs_from, 9);
        reveal_with_fuel(agrees_from, 7);
    }
    assert(first_tool_from("comfyui"@, 7) == first_tool_from("comfyui"@, 8));
    assert(!contains_seq("comfyui"@, "firefly"@)) by {
        lemma_contains_iff_occurs("comfyui"@, "firefly"@);
        reveal_with_fuel(occurs_from, 9);
        reveal_with_fuel(agrees_from, 8);
    }
    assert(first_tool_from("comfyui"@, 6) == first_tool_from("comfyui"@, 7));
    assert(!contains_seq("comfyui"@, "stablediffusion"@)) by {
        lemma_contains_iff_occurs("comfyui"@, "stablediffusion"@);
    }
    assert(first_tool_from("comfyui"@, 5) == first_tool_from("comfyui"@, 6));
    assert(!contains_seq("comfyui"@, "stable-diffusion"@)) by {
        lemma_contains_iff_occurs("comfyui"@, "stable-diffusion"@);
    }
    assert(first_tool_from("comfyui"@, 4) == first_tool_from("comfyui"@, 5));
    assert(!contains_seq("comfyui"@, "stable diffusion"@)) by {
        lemma_contains_iff_occurs("comfyui"@, "stable diffusion"@);
    }
    assert(first_tool_from("comfyui"@, 3) == first_tool_from("comfyui"@, 4));
    assert(!contains_seq("comfyui"@, "midjourney"@)) by {
        lemma_contains_iff_occurs("comfyui"@, "midjourney"@);
    }
    assert(first_tool_from("comfyui"@, 2) == first_tool_from("comfyui"@, 3));
    assert(!contains_seq("comfyui"@, "dalle"@)) by {
        lemma_contains_iff_occurs("comfyui"@, "dalle"@);
        reveal_with_fuel(occurs_from, 9);
        reveal_with_fuel(agrees_from, 6);
    }
    assert(first_tool_from("comfyui"@, 1) == first_tool_from("comfyui"@, 2));
    assert(!contains_seq("comfyui"@, "dall-e"@)) by {
        lemma_contains_iff_occurs("comfyui"@, "dall-e"@);
        reveal_with_fuel(occurs_from, 9);
        reveal_with_fuel(agrees_from, 7);
    }
    assert(first_tool_from("comfyui"@, 0) == first_tool_from("comfyui"@, 1));
}

proof fn lemma_recognizes_automatic1111()
    ensures
        first_tool_from("automatic1111"@, 0) == Some("automatic1111"@),
{
    reveal_strlit("automatic1111");
    reveal_strlit("bing image creator");
    reveal_strlit("canva ai");
    reveal_strlit("chatgpt");
    reveal_strlit("comfyui");
    reveal_strlit("copilot designer");
    reveal_strlit("craiyon");
    reveal_strlit("dall-e");
    reveal_strlit("dalle");
    reveal_strlit("deepai");
    reveal_strlit("dreamstudio");
    reveal_strlit("firefly");
    reveal_strlit("flux");
    reveal_strlit("google veo");
    reveal_strlit("gpt image");
    reveal_strlit("gpt-4");
    reveal_strlit("gpt-4o");
    reveal_strlit("gpt-image");
    reveal_strlit("ideogram");
    reveal_strlit("imagen");
    reveal_strlit("kling");
    reveal_strlit("leonardo ai");
    reveal_strlit("leonardo.ai");
    reveal_strlit("meta ai");
    reveal_strlit("microsoft designer");
    reveal_strlit("midjourney");
    reveal_strlit("nightcafe");
    reveal_strlit("novelai");
    reveal_strlit("openai");
    reveal_strlit("pika");
    reveal_strlit("runway");
    reveal_strlit("sora");
    reveal_strlit("stability ai");
    reveal_strlit("stability.ai");
    reveal_strlit("stable diffusion");
    reveal_strlit("stable-diffusion");
    reveal_strlit("stablediffusion");
    reveal_strlit("vidu");
    assert(first_tool_from("automatic1111"@, 37) == Some("automatic1111"@)) by {
        assert("automatic1111"@.subrange(0, 13) =~= "automatic1111"@);
        assert(crate::text::matches_at("automatic1111"@, "automatic1111"@, 0));
    }
    assert(!contains_seq("automatic1111"@, "comfyui"@)) by {
        lemma_contains_iff_occurs("automatic1111"@, "comfyui"@);
        reveal_with_fuel(occurs_from, 15);
        reveal_with_fuel(agrees_from, 8);
    }
    assert(first_tool_from("automatic1111"@, 36) == first_tool_from("automatic1111"@, 37));
    assert(!contains_seq("automatic1111"@, "stability.ai"@)) by {
        lemma_contains_iff_occurs("automatic1111"@, "stability.ai"@);
        reveal_with_fuel(occurs_from, 15);
        reveal_with_fuel(agrees_from, 13);
    }
    assert(first_tool_from("automatic1111"@, 35) == first_tool_from("automatic1111"@, 36));
    assert(!contains_seq("automatic1111"@, "stability ai"@)) by {
        lemma_contains_iff_occurs("automatic1111"@, "stability ai"@);
        reveal_with_fuel(occurs_from, 15);
        reveal_with_fuel(agrees_from, 13);
    }
    assert(first_tool_from("automatic1111"@, 34) == first_tool_from("automatic1111"@, 35));
    assert(!contains_seq("automatic1111"@, "meta ai"@)) by {
        lemma_contains_iff_occurs("automatic1111"@, "meta ai"@);
        reveal_with_fuel(occurs_from, 15);
        reveal_with_fuel(agrees_from, 8);
    }
    assert(first_tool_from("automatic1111"@, 33) == first_tool_from("automatic1111"@, 34));
    assert(!contains_seq("automatic1111"@, "deepai"@)) by {
        lemma_contains_iff_occurs("automatic1111"@, "deepai"@);
        reveal_with_fuel(occurs_from, 15);
        reveal_with_fuel(agrees_from, 7);
    }
    assert(first_tool_from("automatic1111"@, 32) == first_tool_from("automatic1111"@, 33));
    assert(!contains_seq("automatic1111"@, "craiyon"@)) by {
        lemma_contains_iff_occurs("automatic1111"@, "craiyon"@);
        reveal_with_fuel(occurs_from, 15);
        reveal_with_fuel(agrees_from, 8);
    }
    assert(first_tool_from("automatic1111"@, 31) == first_tool_from("automatic1111"@, 32));
    assert(!contains_seq("automatic1111"@, "nightcafe"@)) by {
        lemma_contains_iff_occurs("automatic1111"@, "nightcafe"@);
        reveal_with_fuel(occurs_from, 15);
        reveal_with_fuel(agrees_from, 10);
    }
    assert(first_tool_from("automatic1111"@, 30) == first_tool_from("automatic1111"@, 31));
    assert(!contains_seq("automatic1111"@, "dreamstudio"@)) by {
        lemma_contains_iff_occurs("automatic1111"@, "dreamstudio"@);
        reveal_with_fuel(occurs_from, 15);
        reveal_with_fuel(agrees_from, 12);
    }
    assert(first_tool_from("automatic1111"@, 29) == first_tool_from("automatic1111"@, 30));
    assert(!contains_seq("automatic1111"@, "canva ai"@)) by {
        lemma_contains_iff_occurs("automatic1111"@, "canva ai"@);
        reveal_with_fuel(occurs_from, 15);
        reveal_with_fuel(agrees_from, 9);
    }
    assert(first_tool_from("automatic1111"@, 28) == first_tool_from("automatic1111"@, 29));
    assert(!contains_seq("automatic1111"@, "microsoft designer"@)) by {
        lemma_contains_iff_occurs("automatic1111"@, "microsoft designer"@);
    }
    assert(first_tool_from("automatic1111"@, 27) == first_tool_from("automatic1111"@, 28));
    assert(!contains_seq("automatic1111"@, "copilot designer"@)) by {
        lemma_contains_iff_occurs("automatic1111"@, "copilot designer"@);
    }
    assert(first_tool_from("automatic1111"@, 26) == first_tool_from("automatic1111"@, 27));
    assert(!contains_seq("automatic1111"@, "bing image creator"@)) by {
        lemma_contains_iff_occurs("automatic1111"@, "bing image creator"@);
    }
    assert(first_tool_from("automatic1111"@, 25) == first_tool_from("automatic1111"@, 26));
    assert(!contains_seq("automatic1111"@, "openai"@)) by {
        lemma_contains_iff_occurs("automatic1111"@, "openai"@);
        reveal_with_fuel(occurs_from, 15);
        reveal_with_fuel(agrees_from, 7);
    }
    assert(first_tool_from("automatic1111"@, 24) == first_tool_from("automatic1111"@, 25));
    assert(!contains_seq("automatic1111"@, "chatgpt"@)) by {
        lemma_contains_iff_occurs("automatic1111"@, "chatgpt"@);
        reveal_with_fuel(occurs_from, 15);
        reveal_with_fuel(agrees_from, 8);
    }
    assert(first_tool_from("automatic1111"@, 23) == first_tool_from("automatic1111"@, 24));
    assert(!contains_seq("automatic1111"@, "gpt-4"@)) by {
        lemma_contains_iff_occurs("automatic1111"@, "gpt-4"@);
        reveal_with_fuel(occurs_from, 15);
        reveal_with_fuel(agrees_from, 6);
    }
    assert(first_tool_from("automatic1111"@, 22) == first_tool_from("automatic1111"@, 23));
    assert(!contains_seq("automatic1111"@, "gpt-image"@)) by {
        lemma_contains_iff_occurs("automatic1111"@, "gpt-image"@);
        reveal_with_fuel(occurs_from, 15);
        reveal_with_fuel(agrees_from, 10);
    }
    assert(first_tool_from("automatic1111"@, 21) == first_tool_from("automatic1111"@, 22));
    assert(!contains_seq("automatic1111"@, "gpt image"@)) by {
        lemma_contains_iff_occurs("automatic1111"@, "gpt image"@);
        reveal_with_fuel(occurs_from, 15);
        reveal_with_fuel(agrees_from, 10);
    }
    assert(first_tool_from("automatic1111"@, 20) == first_tool_from("automatic1111"@, 21));
    assert(!contains_seq("automatic1111"@, "gpt-4o"@)) by {
        lemma_contains_iff_occurs("automatic1111"@, "gpt-4o"@);
        reveal_with_fuel(occurs_from, 15);
        reveal_with_fuel(agrees_from, 7);
    }
    assert(first_tool_from("automatic1111"@, 19) == first_tool_from("automatic1111"@, 20));
    assert(!contains_seq("automatic1111"@, "vidu"@)) by {
        lemma_contains_iff_occurs("automatic1111"@, "vidu"@);
        reveal_with_fuel(occurs_from, 15);
        reveal_with_fuel(agrees_from, 5);
    }
    assert(first_tool_from("automatic1111"@, 18) == first_tool_from("automatic1111"@, 19));
    assert(!contains_seq("automatic1111"@, "kling"@)) by {
        lemma_contains_iff_occurs("automatic1111"@, "kling"@);
        reveal_with_fuel(occurs_from, 15);
        reveal_with_fuel(agrees_from, 6);
    }
    assert(first_tool_from("automatic1111"@, 17) == first_tool_from("automatic1111"@, 18));
    assert(!contains_seq("automatic1111"@, "pika"@)) by {
        lemma_contains_iff_occurs("automatic1111"@, "pika"@);
        reveal_with_fuel(occurs_from, 15);
        reveal_with_fuel(agrees_from, 5);
    }
    assert(first_tool_from("automatic1111"@, 16) == first_tool_from("automatic1111"@, 17));
    assert(!contains_seq("automatic1111"@, "runway"@)) by {
        lemma_contains_iff_occurs("automatic1111"@, "runway"@);
        reveal_with_fuel(occurs_from, 15);
        reveal_with_fuel(agrees_from, 7);
    }
    assert(first_tool_from("automatic1111"@, 15) == first_tool_from("automatic1111"@, 16));
    assert(!contains_seq("automatic1111"@, "google veo"@)) by {
        lemma_contains_iff_occurs("automatic1111"@, "google veo"@);
        reveal_with_fuel(occurs_from, 15);
        reveal_with_fuel(agrees_from, 11);
    }
    assert(first_tool_from("automatic1111"@, 14) == first_tool_from("automatic1111"@, 15));
    assert(!contains_seq("automatic1111"@, "sora"@)) by {
        lemma_contains_iff_occurs("automatic1111"@, "sora"@);
        reveal_with_fuel(occurs_from, 15);
        reveal_with_fuel(agrees_from, 5);
    }
    assert(first_tool_from("automatic1111"@, 13) == first_tool_from("automatic1111"@, 14));
    assert(!contains_seq("automatic1111"@, "novelai"@)) by {
        lemma_contains_iff_occurs("automatic1111"@, "novelai"@);
        reveal_with_fuel(occurs_from, 15);
        reveal_with_fuel(agrees_from, 8);
    }
    assert(first_tool_from("automatic1111"@, 12) == first_tool_from("automatic1111"@, 13));
    assert(!contains_seq("automatic1111"@, "leonardo ai"@)) by {
        lemma_contains_iff_occurs("automatic1111"@, "leonardo ai"@);
        reveal_with_fuel(occurs_from, 15);
        reveal_with_fuel(agrees_from, 12);
    }
    assert(first_tool_from("automatic1111"@, 11) == first_tool_from("automatic1111"@, 12));
    assert(!contains_seq("automatic1111"@, "leonardo.ai"@)) by {
        lemma_contains_iff_occurs("automatic1111"@, "leonardo.ai"@);
        reveal_with_fuel(occurs_from, 15);
        reveal_with_fuel(agrees_from, 12);
    }
    assert(first_tool_from("automatic1111"@, 10) == first_tool_from("automatic1111"@, 11));
    assert(!contains_seq("automatic1111"@, "ideogram"@)) by {
        lemma_contains_iff_occurs("automatic1111"@, "ideogram"@);
        reveal_with_fuel(occurs_from, 15);
        reveal_with_fuel(agrees_from, 9);
    }
    assert(first_tool_from("automatic1111"@, 9) == first_tool_from("automatic1111"@, 10));
    assert(!contains_seq("automatic1111"@, "flux"@)) by {
        lemma_contains_iff_occurs("automatic1111"@, "flux"@);
        reveal_with_fuel(occurs_from, 15);
        reveal_with_fuel(agrees_from, 5);
    }
    assert(first_tool_from("automatic1111"@, 8) == first_tool_from("automatic1111"@, 9));
    assert(!contains_seq("automatic1111"@, "imagen"@)) by {
        lemma_contains_iff_occurs("automatic1111"@, "imagen"@);
        reveal_with_fuel(occurs_from, 15);
        reveal_with_fuel(agrees_from, 7);
    }
    assert(first_tool_from("automatic1111"@, 7) == first_tool_from("automatic1111"@, 8));
    assert(!contains_seq("automatic1111"@, "firefly"@)) by {
        lemma_contains_iff_occurs("automatic1111"@, "firefly"@);
        reveal_with_fuel(occurs_from, 15);
        reveal_with_fuel(agrees_from, 8);
    }
    assert(first_tool_from("automatic1111"@, 6) == first_tool_from("automatic1111"@, 7));
    assert(!contains_seq("automatic1111"@, "stablediffusion"@)) by {
        lemma_contains_iff_occurs("automatic1111"@, "stablediffusion"@);
    }
    assert(first_tool_from("automatic1111"@, 5) == first_tool_from("automatic1111"@, 6));
    assert(!contains_seq("automatic1111"@, "stable-diffusion"@)) by {
        lemma_contains_iff_occurs("automatic1111"@, "stable-diffusion"@);
    }
    assert(first_tool_from("automatic1111"@, 4) == first_tool_from("automatic1111"@, 5));
    assert(!contains_seq("automatic1111"@, "stable diffusion"@)) by {
        lemma_contains_iff_occurs("automatic1111"@, "stable diffusion"@);
    }
    assert(first_tool_from("automatic1111"@, 3) == first_tool_from("automatic1111"@, 4));
    assert(!contains_seq("automatic1111"@, "midjourney"@)) by {
        lemma_contains_iff_occurs("automatic1111"@, "midjourney"@);
        reveal_with_fuel(occurs_from, 15);
        reveal_with_fuel(agrees_from, 11);
    }
    assert(first_tool_from("automatic1111"@, 2) == first_tool_from("automatic1111"@, 3));
    assert(!contains_seq("automatic1111"@, "dalle"@)) by {
        lemma_contains_iff_occurs("automatic1111"@, "dalle"@);
        reveal_with_fuel(occurs_from, 15);
        reveal_with_fuel(agrees_from, 6);
    }
    assert(first_tool_from("automatic1111"@, 1) == first_tool_from("automatic1111"@, 2));
    assert(!contains_seq("automatic1111"@, "dall-e"@)) by {
        lemma_contains_iff_occurs("automatic1111"@, "dall-e"@);
        reveal_with_fuel(occurs_from, 15);
        reveal_with_fuel(agrees_from, 7);
    }
    assert(first_tool_from("automatic1111"@, 0) == first_tool_from("automatic1111"@, 1));
}

proof fn lemma_recognizes_a1111()
    ensures
        first_tool_from("a1111"@, 0) == Some("automatic1111"@),
{
    reveal_strlit("a1111");
    reveal_strlit("automatic1111");
    reveal_strlit("bing image creator");
    reveal_strlit("canva ai");
    reveal_strlit("chatgpt");
    reveal_strlit("comfyui");
    reveal_strlit("copilot designer");
    reveal_strlit("craiyon");
    reveal_strlit("dall-e");
    reveal_strlit("dalle");
    reveal_strlit("deepai");
    reveal_strlit("dreamstudio");
    reveal_strlit("firefly");
    reveal_strlit("flux");
    reveal_strlit("google veo");
    reveal_strlit("gpt image");
    reveal_strlit("gpt-4");
    reveal_strlit("gpt-4o");
    reveal_strlit("gpt-image");
    reveal_strlit("ideogram");
    reveal_strlit("imagen");
    reveal_strlit("kling");
    reveal_strlit("leonardo ai");
    reveal_strlit("leonardo.ai");
    reveal_strlit("meta ai");
    reveal_strlit("microsoft designer");
    reveal_strlit("midjourney");
    reveal_strlit("nightcafe");
    reveal_strlit("novelai");
    reveal_strlit("openai");
    reveal_strlit("pika");
    reveal_strlit("runway");
    reveal_strlit("sora");
    reveal_strlit("stability ai");
    reveal_strlit("stability.ai");
    reveal_strlit("stable diffusion");
    reveal_strlit("stable-diffusion");
    reveal_strlit("stablediffusion");
    reveal_strlit("vidu");
    assert(first_tool_from("a1111"@, 38) == Some("automatic1111"@)) by {
        assert("a1111"@.subrange(0, 5) =~= "a1111"@);
        assert(crate::text::matches_at("a1111"@, "a1111"@, 0));
    }
    assert(!contains_seq("a1111"@, "automatic1111"@)) by {
        lemma_contains_iff_occurs("a1111"@, "automatic1111"@);
    }
    assert(first_tool_from("a1111"@, 37) == first_tool_from("a1111"@, 38));
    assert(!contains_seq("a1111"@, "comfyui"@)) by {
        lemma_contains_iff_occurs("a1111"@, "comfyui"@);
    }
    assert(first_tool_from("a1111"@, 36) == first_tool_from("a1111"@, 37));
    assert(!contains_seq("a1111"@, "stability.ai"@)) by {
        lemma_contains_iff_occurs("a1111"@, "stability.ai"@);
    }
    assert(first_tool_from("a1111"@, 35) == first_tool_from("a1111"@, 36));
    assert(!contains_seq("a1111"@, "stability ai"@)) by {
        lemma_contains_iff_occurs("a1111"@, "stability ai"@);
    }
    assert(first_tool_from("a1111"@, 34) == first_tool_from("a1111"@, 35));
    assert(!contains_seq("a1111"@, "meta ai"@)) by {
        lemma_contains_iff_occurs("a1111"@, "meta ai"@);
    }
    assert(first_tool_from("a1111"@, 33) == first_tool_from("a1111"@, 34));
    assert(!contains_seq("a1111"@, "deepai"@)) by {
        lemma_contains_iff_occurs("a1111"@, "deepai"@);
    }
    assert(first_tool_from("a1111"@, 32) == first_tool_from("a1111"@, 33));
    assert(!contains_seq("a1111"@, "craiyon"@)) by {
        lemma_contains_iff_occurs("a1111"@, "craiyon"@);
    }
    assert(first_tool_from("a1111"@, 31) == first_tool_from("a1111"@, 32));
    assert(!contains_seq("a1111"@, "nightcafe"@)) by {
        lemma_contains_iff_occurs("a1111"@, "nightcafe"@);
    }
    assert(first_tool_from("a1111"@, 30) == first_tool_from("a1111"@, 31));
    assert(!contains_seq("a1111"@, "dreamstudio"@)) by {
        lemma_contains_iff_occurs("a1111"@, "dreamstudio"@);
    }
    assert(first_tool_from("a1111"@, 29) == first_tool_from("a1111"@, 30));
    assert(!contains_seq("a1111"@, "canva ai"@)) by {
        lemma_contains_iff_occurs("a1111"@, "canva ai"@);
    }
    assert(first_tool_from("a1111"@, 28) == first_tool_from("a1111"@, 29));
    assert(!contains_seq("a1111"@, "microsoft designer"@)) by {
        lemma_contains_iff_occurs("a1111"@, "microsoft designer"@);
    }
    assert(first_tool_from("a1111"@, 27) == first_tool_from("a1111"@, 28));
    assert(!contains_seq("a1111"@, "copilot designer"@)) by {
        lemma_contains_iff_occurs("a1111"@, "copilot designer"@);
    }
    assert(first_tool_from("a1111"@, 26) == first_tool_from("a1111"@, 27));
    assert(!contains_seq("a1111"@, "bing image creator"@)) by {
        lemma_contains_iff_occurs("a1111"@, "bing image creator"@);
    }
    assert(first_tool_from("a1111"@, 25) == first_tool_from("a1111"@, 26));
    assert(!contains_seq("a1111"@, "openai"@)) by {
        lemma_contains_iff_occurs("a1111"@, "openai"@);
    }
    assert(first_tool_from("a1111"@, 24) == first_tool_from("a1111"@, 25));
    assert(!contains_seq("a1111"@, "chatgpt"@)) by {
        lemma_contains_iff_occurs("a1111"@, "chatgpt"@);
    }
    assert(first_tool_from("a1111"@, 23) == first_tool_from("a1111"@, 24));
    assert(!contains_seq("a1111"@, "gpt-4"@)) by {
        lemma_contains_iff_occurs("a1111"@, "gpt-4"@);
        reveal_with_fuel(occurs_from, 7);
        reveal_with_fuel(agrees_from, 6);
    }
    assert(first_tool_from("a1111"@, 22) == first_tool_from("a1111"@, 23));
    assert(!contains_seq("a1111"@, "gpt-image"@)) by {
        lemma_contains_iff_occurs("a1111"@, "gpt-image"@);
    }
    assert(first_tool_from("a1111"@, 21) == first_tool_from("a1111"@, 22));
    assert(!contains_seq("a1111"@, "gpt image"@)) by {
        lemma_contains_iff_occurs("a1111"@, "gpt image"@);
    }
    assert(first_tool_from("a1111"@, 20) == first_tool_from("a1111"@, 21));
    assert(!contains_seq("a1111"@, "gpt-4o"@)) by {
        lemma_contains_iff_occurs("a1111"@, "gpt-4o"@);
    }
    assert(first_tool_from("a1111"@, 19) == first_tool_from("a1111"@, 20));
    assert(!contains_seq("a1111"@, "vidu"@)) by {
        lemma_contains_iff_occurs("a1111"@, "vidu"@);
        reveal_with_fuel(occurs_from, 7);
        reveal_with_fuel(agrees_from, 5);
    }
    assert(first_tool_from("a1111"@, 18) == first_tool_from("a1111"@, 19));
    assert(!contains_seq("a1111"@, "kling"@)) by {
        lemma_contains_iff_occurs("a1111"@, "kling"@);
        reveal_with_fuel(occurs_from, 7);
        reveal_with_fuel(agrees_from, 6);
    }
    assert(first_tool_from("a1111"@, 17) == first_tool_from("a1111"@, 18));
    assert(!contains_seq("a1111"@, "pika"@)) by {
        lemma_contains_iff_occurs("a1111"@, "pika"@);
        reveal_with_fuel(occurs_from, 7);
        reveal_with_fuel(agrees_from, 5);
    }
    assert(first_tool_from("a1111"@, 16) == first_tool_from("a1111"@, 17));
    assert(!contains_seq("a1111"@, "runway"@)) by {
        lemma_contains_iff_occurs("a1111"@, "runway"@);
    }
    assert(first_tool_from("a1111"@, 15) == first_tool_from("a1111"@, 16));
    assert(!contains_seq("a1111"@, "google veo"@)) by {
        lemma_contains_iff_occurs("a1111"@, "google veo"@);
    }
    assert(first_tool_from("a1111"@, 14) == first_tool_from("a1111"@, 15));
    assert(!contains_seq("a1111"@, "sora"@)) by {
        lemma_contains_iff_occurs("a1111"@, "sora"@);
        reveal_with_fuel(occurs_from, 7);
        reveal_with_fuel(agrees_from, 5);
    }
    assert(first_tool_from("a1111"@, 13) == first_tool_from("a1111"@, 14));
    assert(!contains_seq("a1111"@, "novelai"@)) by {
        lemma_contains_iff_occurs("a1111"@, "novelai"@);
    }
    assert(first_tool_from("a1111"@, 12) == first_tool_from("a1111"@, 13));
    assert(!contains_seq("a1111"@, "leonardo ai"@)) by {
        lemma_contains_iff_occurs("a1111"@, "leonardo ai"@);
    }
    assert(first_tool_from("a1111"@, 11) == first_tool_from("a1111"@, 12));
    assert(!contains_seq("a1111"@, "leonardo.ai"@)) by {
        lemma_contains_iff_occurs("a1111"@, "leonardo.ai"@);
    }
    assert(first_tool_from("a1111"@, 10) == first_tool_from("a1111"@, 11));
    assert(!contains_seq("a1111"@, "ideogram"@)) by {
        lemma_contains_iff_occurs("a1111"@, "ideogram"@);
    }
    assert(first_tool_from("a1111"@, 9) == first_tool_from("a1111"@, 10));
    assert(!contains_seq("a1111"@, "flux"@)) by {
        lemma_contains_iff_occurs("a1111"@, "flux"@);
        reveal_with_fuel(occurs_from, 7);
        reveal_with_fuel(agrees_from, 5);
    }
    assert(first_tool_from("a1111"@, 8) == first_tool_from("a1111"@, 9));
    assert(!contains_seq("a1111"@, "imagen"@)) by {
        lemma_contains_iff_occurs("a1111"@, "imagen"@);
    }
    assert(first_tool_from("a1111"@, 7) == first_tool_from("a1111"@, 8));
    assert(!contains_seq("a1111"@, "firefly"@)) by {
        lemma_contains_iff_occurs("a1111"@, "firefly"@);
    }
    assert(first_tool_from("a1111"@, 6) == first_tool_from("a1111"@, 7));
    assert(!contains_seq("a1111"@, "stablediffusion"@)) by {
        lemma_contains_iff_occurs("a1111"@, "stablediffusion"@);
    }
    assert(first_tool_from("a1111"@, 5) == first_tool_from("a1111"@, 6));
    assert(!contains_seq("a1111"@, "stable-diffusion"@)) by {
        lemma_contains_iff_occurs("a1111"@, "stable-diffusion"@);
    }
    assert(first_tool_from("a1111"@, 4) == first_tool_from("a1111"@, 5));
    assert(!contains_seq("a1111"@, "stable diffusion"@)) by {
        lemma_contains_iff_occurs("a1111"@, "stable diffusion"@);
    }
    assert(first_tool_from("a1111"@, 3) == first_tool_from("a1111"@, 4));
    assert(!contains_seq("a1111"@, "midjourney"@)) by {
        lemma_contains_iff_occurs("a1111"@, "midjourney"@);
    }
    assert(first_tool_from("a1111"@, 2) == first_tool_from("a1111"@, 3));
    assert(!contains_seq("a1111"@, "dalle"@)) by {
        lemma_contains_iff_occurs("a1111"@, "dalle"@);
        reveal_with_fuel(occurs_from, 7);
        reveal_with_fuel(agrees_from, 6);
    }
    assert(first_tool_from("a1111"@, 1) == first_tool_from("a1111"@, 2));
    assert(!contains_seq("a1111"@, "dall-e"@)) by {
        lemma_contains_iff_occurs("a1111"@, "dall-e"@);
    }
    assert(first_tool_from("a1111"@, 0) == first_tool_from("a1111"@, 1));
}

proof fn lemma_recognizes_invokeai()
    ensures
        first_tool_from("invokeai"@, 0) == Some("invokeai"@),
{
    reveal_strlit("a1111");
    reveal_strlit("automatic1111");
    reveal_strlit("bing image creator");
    reveal_strlit("canva ai");
    reveal_strlit("chatgpt");
    reveal_strlit("comfyui");
    reveal_strlit("copilot designer");
    reveal_strlit("craiyon");
    reveal_strlit("dall-e");
    reveal_strlit("dalle");
    reveal_strlit("deepai");
    reveal_strlit("dreamstudio");
    reveal_strlit("firefly");
    reveal_strlit("flux");
    reveal_strlit("google veo");
    reveal_strlit("gpt image");
    reveal_strlit("gpt-4");
    reveal_strlit("gpt-4o");
    reveal_strlit("gpt-image");
    reveal_strlit("ideogram");
    reveal_strlit("imagen");
    reveal_strlit("invokeai");
    reveal_strlit("kling");
    reveal_strlit("leonardo ai");
    reveal_strlit("leonardo.ai");
    reveal_strlit("meta ai");
    reveal_strlit("microsoft designer");
    reveal_strlit("midjourney");
    reveal_strlit("nightcafe");
    reveal_strlit("novelai");
    reveal_strlit("openai");
    reveal_strlit("pika");
    reveal_strlit("runway");
    reveal_strlit("sora");
    reveal_strlit("stability ai");
    reveal_strlit("stability.ai");
    reveal_strlit("stable diffusion");
    reveal_strlit("stable-diffusion");
    reveal_strlit("stablediffusion");
    reveal_strlit("vidu");
    assert(first_tool_from("invokeai"@, 39) == Some("invokeai"@)) by {
        assert("invokeai"@.subrange(0, 8) =~= "invokeai"@);
        assert(crate::text::matches_at("invokeai"@, "invokeai"@, 0));
    }
    assert(!contains_seq("invokeai"@, "a1111"@)) by {
        lemma_contains_iff_occurs("invokeai"@, "a1111"@);
        reveal_with_fuel(occurs_from, 10);
        reveal_with_fuel(agrees_from, 6);
    }
    assert(first_tool_from("invokeai"@, 38) == first_tool_from("invokeai"@, 39));
    assert(!contains_seq("invokeai"@, "automatic1111"@)) by {
        lemma_contains_iff_occurs("invokeai"@, "automatic1111"@);
    }
    assert(first_tool_from("invokeai"@, 37) == first_tool_from("invokeai"@, 38));
    assert(!contains_seq("invokeai"@, "comfyui"@)) by {
        lemma_contains_iff_occurs("invokeai"@, "comfyui"@);
        reveal_with_fuel(occurs_from, 10);
        reveal_with_fuel(agrees_from, 8);
    }
    assert(first_tool_from("invokeai"@, 36) == first_tool_from("invokeai"@, 37));
    assert(!contains_seq("invokeai"@, "stability.ai"@)) by {
        lemma_contains_iff_occurs("invokeai"@, "stability.ai"@);
    }
    assert(first_tool_from("invokeai"@, 35) == first_tool_from("invokeai"@, 36));
    assert(!contains_seq("invokeai"@, "stability ai"@)) by {
        lemma_contains_iff_occurs("invokeai"@, "stability ai"@);
    }
    assert(first_tool_from("invokeai"@, 34) == first_tool_from("invokeai"@, 35));
    assert(!contains_seq("invokeai"@, "meta ai"@)) by {
        lemma_contains_iff_occurs("invokeai"@, "meta ai"@);
        reveal_with_fuel(occurs_from, 10);
        reveal_with_fuel(agrees_from, 8);
    }
    assert(first_tool_from("invokeai"@, 33) == first_tool_from("invokeai"@, 34));
    assert(!contains_seq("invokeai"@, "deepai"@)) by {
        lemma_contains_iff_occurs("invokeai"@, "deepai"@);
        reveal_with_fuel(occurs_from, 10);
        reveal_with_fuel(agrees_from, 7);
    }
    assert(first_tool_from("invokeai"@, 32) == first_tool_from("invokeai"@, 33));
    assert(!contains_seq("invokeai"@, "craiyon"@)) by {
        lemma_contains_iff_occurs("invokeai"@, "craiyon"@);
        reveal_with_fuel(occurs_from, 10);
        reveal_with_fuel(agrees_from, 8);
    }
    assert(first_tool_from("invokeai"@, 31) == first_tool_from("invokeai"@, 32));
    assert(!contains_seq("invokeai"@, "nightcafe"@)) by {
        lemma_contains_iff_occurs("invokeai"@, "nightcafe"@);
    }
    assert(first_tool_from("invokeai"@, 30) == first_tool_from("invokeai"@, 31));
    assert(!contains_seq("invokeai"@, "dreamstudio"@)) by {
        lemma_contains_iff_occurs("invokeai"@, "dreamstudio"@);
    }
    assert(first_tool_from("invokeai"@, 29) == first_tool_from("invokeai"@, 30));
    assert(!contains_seq("invokeai"@, "canva ai"@)) by {
        lemma_contains_iff_occurs("invokeai"@, "canva ai"@);
        reveal_with_fuel(occurs_from, 10);
        reveal_with_fuel(agrees_from, 9);
    }
    assert(first_tool_from("invokeai"@, 28) == first_tool_from("invokeai"@, 29));
    assert(!contains_seq("invokeai"@, "microsoft designer"@)) by {
        lemma_contains_iff_occurs("invokeai"@, "microsoft designer"@);
    }
    assert(first_tool_from("invokeai"@, 27) == first_tool_from("invokeai"@, 28));
    assert(!contains_seq("invokeai"@, "copilot designer"@)) by {
        lemma_contains_iff_occurs("invokeai"@, "copilot designer"@);
    }
    assert(first_tool_from("invokeai"@, 26) == first_tool_from("invokeai"@, 27));
    assert(!contains_seq("invokeai"@, "bing image creator"@)) by {
        lemma_contains_iff_occurs("invokeai"@, "bing image creator"@);
    }
    assert(first_tool_from("invokeai"@, 25) == first_tool_from("invokeai"@, 26));
    assert(!contains_seq("invokeai"@, "openai"@)) by {
        lemma_contains_iff_occurs("invokeai"@, "openai"@);
        reveal_with_fuel(occurs_from, 10);
        reveal_with_fuel(agrees_from, 7);
    }
    assert(first_tool_from("invokeai"@, 24) == first_tool_from("invokeai"@, 25));
    assert(!contains_seq("invokeai"@, "chatgpt"@)) by {
        lemma_contains_iff_occurs("invokeai"@, "chatgpt"@);
        reveal_with_fuel(occurs_from, 10);
        reveal_with_fuel(agrees_from, 8);
    }
    assert(first_tool_from("invokeai"@, 23) == first_tool_from("invokeai"@, 24));
    assert(!contains_seq("invokeai"@, "gpt-4"@)) by {
        lemma_contains_iff_occurs("invokeai"@, "gpt-4"@);
        reveal_with_fuel(occurs_from, 10);
        reveal_with_fuel(agrees_from, 6);
    }
    assert(first_tool_from("invokeai"@, 22) == first_tool_from("invokeai"@, 23));
    assert(!contains_seq("invokeai"@, "gpt-image"@)) by {
        lemma_contains_iff_occurs("invokeai"@, "gpt-image"@);
    }
    assert(first_tool_from("invokeai"@, 21) == first_tool_from("invokeai"@, 22));
    assert(!contains_seq("invokeai"@, "gpt image"@)) by {
        lemma_contains_iff_occurs("invokeai"@, "gpt image"@);
    }
    assert(first_tool_from("invokeai"@, 20) == first_tool_from("invokeai"@, 21));
    assert(!contains_seq("invokeai"@, "gpt-4o"@)) by {
        lemma_contains_iff_occurs("invokeai"@, "gpt-4o"@);
        reveal_with_fuel(occurs_from, 10);
        reveal_with_fuel(agrees_from, 7);
    }
    assert(first_tool_from("invokeai"@, 19) == first_tool_from("invokeai"@, 20));
    assert(!contains_seq("invokeai"@, "vidu"@)) by {
        lemma_contains_iff_occurs("invokeai"@, "vidu"@);
        reveal_with_fuel(occurs_from, 10);
        reveal_with_fuel(agrees_from, 5);
    }
    assert(first_tool_from("invokeai"@, 18) == first_tool_from("invokeai"@, 19));
    assert(!contains_seq("invokeai"@, "kling"@)) by {
        lemma_contains_iff_occurs("invokeai"@, "kling"@);
        reveal_with_fuel(occurs_from, 10);
        reveal_with_fuel(agrees_from, 6);
    }
    assert(first_tool_from("invokeai"@, 17) == first_tool_from("invokeai"@, 18));
    assert(!contains_seq("invokeai"@, "pika"@)) by {
        lemma_contains_iff_occurs("invokeai"@, "pika"@);
        reveal_with_fuel(occurs_from, 10);
        reveal_with_fuel(agrees_from, 5);
    }
    assert(first_tool_from("invokeai"@, 16) == first_tool_from("invokeai"@, 17));
    assert(!contains_seq("invokeai"@, "runway"@)) by {
        lemma_contains_iff_occurs("invokeai"@, "runway"@);
        reveal_with_fuel(occurs_from, 10);
        reveal_with_fuel(agrees_from, 7);
    }
    assert(first_tool_from("invokeai"@, 15) == first_tool_from("invokeai"@, 16));
    assert(!contains_seq("invokeai"@, "google veo"@)) by {
        lemma_contains_iff_occurs("invokeai"@, "google veo"@);
    }
    assert(first_tool_from("invokeai"@, 14) == first_tool_from("invokeai"@, 15));
    assert(!contains_seq("invokeai"@, "sora"@)) by {
        lemma_contains_iff_occurs("invokeai"@, "sora"@);
        reveal_with_fuel(occurs_from, 10);
        reveal_with_fuel(agrees_from, 5);
    }
    assert(first_tool_from("invokeai"@, 13) == first_tool_from("invokeai"@, 14));
    assert(!contains_seq("invokeai"@, "novelai"@)) by {
        lemma_contains_iff_occurs("invokeai"@, "novelai"@);
        reveal_with_fuel(occurs_from, 10);
        reveal_with_fuel(agrees_from, 8);
    }
    assert(first_tool_from("invokeai"@, 12) == first_tool_from("invokeai"@, 13));
    assert(!contains_seq("invokeai"@, "leonardo ai"@)) by {
        lemma_contains_iff_occurs("invokeai"@, "leonardo ai"@);
    }
    assert(first_tool_from("invokeai"@, 11) == first_tool_from("invokeai"@, 12));
    assert(!contains_seq("invokeai"@, "leonardo.ai"@)) by {
        lemma_contains_iff_occurs("invokeai"@, "leonardo.ai"@);
    }
    assert(first_tool_from("invokeai"@, 10) == first_tool_from("invokeai"@, 11));
    assert(!contains_seq("invokeai"@, "ideogram"@)) by {
        lemma_contains_iff_occurs("invokeai"@, "ideogram"@);
        reveal_with_fuel(occurs_from, 10);
        reveal_with_fuel(agrees_from, 9);
    }
    assert(first_tool_from("invokeai"@, 9) == first_tool_from("invokeai"@, 10));
    assert(!contains_seq("invokeai"@, "flux"@)) by {
        lemma_contains_iff_occurs("invokeai"@, "flux"@);
        reveal_with_fuel(occurs_from, 10);
        reveal_with_fuel(agrees_from, 5);
    }
    assert(first_tool_from("invokeai"@, 8) == first_tool_from("invokeai"@, 9));
    assert(!contains_seq("invokeai"@, "imagen"@)) by {
        lemma_contains_iff_occurs("invokeai"@, "imagen"@);
        reveal_with_fuel(occurs_from, 10);
        reveal_with_fuel(agrees_from, 7);
    }
    assert(first_tool_from("invokeai"@, 7) == first_tool_from("invokeai"@, 8));
    assert(!contains_seq("invokeai"@, "firefly"@)) by {
        lemma_contains_iff_occurs("invokeai"@, "firefly"@);
        reveal_with_fuel(occurs_from, 10);
        reveal_with_fuel(agrees_from, 8);
    }
    assert(first_tool_from("invokeai"@, 6) == first_tool_from("invokeai"@, 7));
    assert(!contains_seq("invokeai"@, "stablediffusion"@)) by {
        lemma_contains_iff_occurs("invokeai"@, "stablediffusion"@);
    }
    assert(first_tool_from("invokeai"@, 5) == first_tool_from("invokeai"@, 6));
    assert(!contains_seq("invokeai"@, "stable-diffusion"@)) by {
        lemma_contains_iff_occurs("invokeai"@, "stable-diffusion"@);
    }
    assert(first_tool_from("invokeai"@, 4) == first_tool_from("invokeai"@, 5));
    assert(!contains_seq("invokeai"@, "stable diffusion"@)) by {
        lemma_contains_iff_occurs("invokeai"@, "stable diffusion"@);
    }
    assert(first_tool_from("invokeai"@, 3) == first_tool_from("invokeai"@, 4));
    assert(!contains_seq("invokeai"@, "midjourney"@)) by {
        lemma_contains_iff_occurs("invokeai"@, "midjourney"@);
    }
    assert(first_tool_from("invokeai"@, 2) == first_tool_from("invokeai"@, 3));
    assert(!contains_seq("invokeai"@, "dalle"@)) by {
        lemma_contains_iff_occurs("invokeai"@, "dalle"@);
        reveal_with_fuel(occurs_from, 10);
        reveal_with_fuel(agrees_from, 6);
    }
    assert(first_tool_from("invokeai"@, 1) == first_tool_from("invokeai"@, 2));
    assert(!contains_seq("invokeai"@, "dall-e"@)) by {
        lemma_contains_iff_occurs("invokeai"@, "dall-e"@);
        reveal_with_fuel(occurs_from, 10);
        reveal_with_fuel(agrees_from, 7);
    }
    assert(first_tool_from("invokeai"@, 0) == first_tool_from("invokeai"@, 1));
}

proof fn lemma_recognizes_fooocus()
    ensures
        first_tool_from("fooocus"@, 0) == Some("fooocus"@),
{
    reveal_strlit("a1111");
    reveal_strlit("automatic1111");
    reveal_strlit("bing image creator");
    reveal_strlit("canva ai");
    reveal_strlit("chatgpt");
    reveal_strlit("comfyui");
    reveal_strlit("copilot designer");
    reveal_strlit("craiyon");
    reveal_strlit("dall-e");
    reveal_strlit("dalle");
    reveal_strlit("deepai");
    reveal_strlit("dreamstudio");
    reveal_strlit("firefly");
    reveal_strlit("flux");
    reveal_strlit("fooocus");
    reveal_strlit("google veo");
    reveal_strlit("gpt image");
    reveal_strlit("gpt-4");
    reveal_strlit("gpt-4o");
    reveal_strlit("gpt-image");
    reveal_strlit("ideogram");
    reveal_strlit("imagen");
    reveal_strlit("invokeai");
    reveal_strlit("kling");
    reveal_strlit("leonardo ai");
    reveal_strlit("leonardo.ai");
    reveal_strlit("meta ai");
    reveal_strlit("microsoft designer");
    reveal_strlit("midjourney");
    reveal_strlit("nightcafe");
    reveal_strlit("novelai");
    reveal_strlit("openai");
    reveal_strlit("pika");
    reveal_strlit("runway");
    reveal_strlit("sora");
    reveal_strlit("stability ai");
    reveal_strlit("stability.ai");
    reveal_strlit("stable diffusion");
    reveal_strlit("stable-diffusion");
    reveal_strlit("stablediffusion");
    reveal_strlit("vidu");
    assert(first_tool_from("fooocus"@, 40) == Some("fooocus"@)) by {
        assert("fooocus"@.subrange(0, 7) =~= "fooocus"@);
        assert(crate::text::matches_at("fooocus"@, "fooocus"@, 0));
    }
    assert(!contains_seq("fooocus"@, "invokeai"@)) by {
        lemma_contains_iff_occurs("fooocus"@, "invokeai"@);
    }
    assert(first_tool_from("fooocus"@, 39) == first_tool_from("fooocus"@, 40));
    assert(!contains_seq("fooocus"@, "a1111"@)) by {
        lemma_contains_iff_occurs("fooocus"@, "a1111"@);
        reveal_with_fuel(occurs_from, 9);
        reveal_with_fuel(agrees_from, 6);
    }
    assert(first_tool_from("fooocus"@, 38) == first_tool_from("fooocus"@, 39));
    assert(!contains_seq("fooocus"@, "automatic1111"@)) by {
        lemma_contains_iff_occurs("fooocus"@, "automatic1111"@);
    }
    assert(first_tool_from("fooocus"@, 37) == first_tool_from("fooocus"@, 38));
    assert(!contains_seq("fooocus"@, "comfyui"@)) by {
        lemma_contains_iff_occurs("fooocus"@, "comfyui"@);
        reveal_with_fuel(occurs_from, 9);
        reveal_with_fuel(agrees_from, 8);
    }
    assert(first_tool_from("fooocus"@, 36) == first_tool_from("fooocus"@, 37));
    assert(!contains_seq("fooocus"@, "stability.ai"@)) by {
        lemma_contains_iff_occurs("fooocus"@, "stability.ai"@);
    }
    assert(first_tool_from("fooocus"@, 35) == first_tool_from("fooocus"@, 36));
    assert(!contains_seq("fooocus"@, "stability ai"@)) by {
        lemma_contains_iff_occurs("fooocus"@, "stability ai"@);
    }
    assert(first_tool_from("fooocus"@, 34) == first_tool_from("fooocus"@, 35));
    assert(!contains_seq("fooocus"@, "meta ai"@)) by {
        lemma_contains_iff_occurs("fooocus"@, "meta ai"@);
        reveal_with_fuel(occurs_from, 9);
        reveal_with_fuel(agrees_from, 8);
    }
    assert(first_tool_from("fooocus"@, 33) == first_tool_from("fooocus"@, 34));
    assert(!contains_seq("fooocus"@, "deepai"@)) by {
        lemma_contains_iff_occurs("fooocus"@, "deepai"@);
        reveal_with_fuel(occurs_from, 9);
        reveal_with_fuel(agrees_from, 7);
    }
    assert(first_tool_from("fooocus"@, 32) == first_tool_from("fooocus"@, 33));
    assert(!contains_seq("fooocus"@, "craiyon"@)) by {
        lemma_contains_iff_occurs("fooocus"@, "craiyon"@);
        reveal_with_fuel(occurs_from, 9);
        reveal_with_fuel(agrees_from, 8);
    }
    assert(first_tool_from("fooocus"@, 31) == first_tool_from("fooocus"@, 32));
    assert(!contains_seq("fooocus"@, "nightcafe"@)) by {
        lemma_contains_iff_occurs("fooocus"@, "nightcafe"@);
    }
    assert(first_tool_from("fooocus"@, 30) == first_tool_from("fooocus"@, 31));
    assert(!contains_seq("fooocus"@, "dreamstudio"@)) by {
        lemma_contains_iff_occurs("fooocus"@, "dreamstudio"@);
    }
    assert(first_tool_from("fooocus"@, 29) == first_tool_from("fooocus"@, 30));
    assert(!contains_seq("fooocus"@, "canva ai"@)) by {
        lemma_contains_iff_occurs("fooocus"@, "canva ai"@);
    }
    assert(first_tool_from("fooocus"@, 28) == first_tool_from("fooocus"@, 29));
    assert(!contains_seq("fooocus"@, "microsoft designer"@)) by {
        lemma_contains_iff_occurs("fooocus"@, "microsoft designer"@);
    }
    assert(first_tool_from("fooocus"@, 27) == first_tool_from("fooocus"@, 28));
    assert(!contains_seq("fooocus"@, "copilot designer"@)) by {
        lemma_contains_iff_occurs("fooocus"@, "copilot designer"@);
    }
    assert(first_tool_from("fooocus"@, 26) == first_tool_from("fooocus"@, 27));
    assert(!contains_seq("fooocus"@, "bing image creator"@)) by {
        lemma_contains_iff_occurs("fooocus"@, "bing image creator"@);
    }
    assert(first_tool_from("fooocus"@, 25) == first_tool_from("fooocus"@, 26));
    assert(!contains_seq("fooocus"@, "openai"@)) by {
        lemma_contains_iff_occurs("fooocus"@, "openai"@);
        reveal_with_fuel(occurs_from, 9);
        reveal_with_fuel(agrees_from, 7);
    }
    assert(first_tool_from("fooocus"@, 24) == first_tool_from("fooocus"@, 25));
    assert(!contains_seq("fooocus"@, "chatgpt"@)) by {
        lemma_contains_iff_occurs("fooocus"@, "chatgpt"@);
        reveal_with_fuel(occurs_from, 9);
        reveal_with_fuel(agrees_from, 8);
    }
    assert(first_tool_from("fooocus"@, 23) == first_tool_from("fooocus"@, 24));
    assert(!contains_seq("fooocus"@, "gpt-4"@)) by {
        lemma_contains_iff_occurs("fooocus"@, "gpt-4"@);
        reveal_with_fuel(occurs_from, 9);
        reveal_with_fuel(agrees_from, 6);
    }
    assert(first_tool_from("fooocus"@, 22) == first_tool_from("fooocus"@, 23));
    assert(!contains_seq("fooocus"@, "gpt-image"@)) by {
        lemma_contains_iff_occurs("fooocus"@, "gpt-image"@);
    }
    assert(first_tool_from("fooocus"@, 21) == first_tool_from("fooocus"@, 22));
    assert(!contains_seq("fooocus"@, "gpt image"@)) by {
        lemma_contains_iff_occurs("fooocus"@, "gpt image"@);
    }
    assert(first_tool_from("fooocus"@, 20) == first_tool_from("fooocus"@, 21));
    assert(!contains_seq("fooocus"@, "gpt-4o"@)) by {
        lemma_contains_iff_occurs("fooocus"@, "gpt-4o"@);
        reveal_with_fuel(occurs_from, 9);
        reveal_with_fuel(agrees_from, 7);
    }
    assert(first_tool_from("fooocus"@, 19) == first_tool_from("fooocus"@, 20));
    assert(!contains_seq("fooocus"@, "vidu"@)) by {
        lemma_contains_iff_occurs("fooocus"@, "vidu"@);
        reveal_with_fuel(occurs_from, 9);
        reveal_with_fuel(agrees_from, 5);
    }
    assert(first_tool_from("fooocus"@, 18) == first_tool_from("fooocus"@, 19));
    assert(!contains_seq("fooocus"@, "kling"@)) by {
        lemma_contains_iff_occurs("fooocus"@, "kling"@);
        reveal_with_fuel(occurs_from, 9);
        reveal_with_fuel(agrees_from, 6);
    }
    assert(first_tool_from("fooocus"@, 17) == first_tool_from("fooocus"@, 18));
    assert(!contains_seq("fooocus"@, "pika"@)) by {
        lemma_contains_iff_occurs("fooocus"@, "pika"@);
        reveal_with_fuel(occurs_from, 9);
        reveal_with_fuel(agrees_from, 5);
    }
    assert(first_tool_from("fooocus"@, 16) == first_tool_from("fooocus"@, 17));
    assert(!contains_seq("fooocus"@, "runway"@)) by {
        lemma_contains_iff_occurs("fooocus"@, "runway"@);
        reveal_with_fuel(occurs_from, 9);
        reveal_with_fuel(agrees_from, 7);
    }
    assert(first_tool_from("fooocus"@, 15) == first_tool_from("fooocus"@, 16));
    assert(!contains_seq("fooocus"@, "google veo"@)) by {
        lemma_contains_iff_occurs("fooocus"@, "google veo"@);
    }
    assert(first_tool_from("fooocus"@, 14) == first_tool_from("fooocus"@, 15));
    assert(!contains_seq("fooocus"@, "sora"@)) by {
        lemma_contains_iff_occurs("fooocus"@, "sora"@);
        reveal_with_fuel(occurs_from, 9);
        reveal_with_fuel(agrees_from, 5);
    }
    assert(first_tool_from("fooocus"@, 13) == first_tool_from("fooocus"@, 14));
    assert(!contains_seq("fooocus"@, "novelai"@)) by {
        lemma_contains_iff_occurs("fooocus"@, "novelai"@);
        reveal_with_fuel(occurs_from, 9);
        reveal_with_fuel(agrees_from, 8);
    }
    assert(first_tool_from("fooocus"@, 12) == first_tool_from("fooocus"@, 13));
    assert(!contains_seq("fooocus"@, "leonardo ai"@)) by {
        lemma_contains_iff_occurs("fooocus"@, "leonardo ai"@);
    }
    assert(first_tool_from("fooocus"@, 11) == first_tool_from("fooocus"@, 12));
    assert(!contains_seq("fooocus"@, "leonardo.ai"@)) by {
        lemma_contains_iff_occurs("fooocus"@, "leonardo.ai"@);
    }
    assert(first_tool_from("fooocus"@, 10) == first_tool_from("fooocus"@, 11));
    assert(!contains_seq("fooocus"@, "ideogram"@)) by {
        lemma_contains_iff_occurs("fooocus"@, "ideogram"@);
    }
    assert(first_tool_from("fooocus"@, 9) == first_tool_from("fooocus"@, 10));
    assert(!contains_seq("fooocus"@, "flux"@)) by {
        lemma_contains_iff_occurs("fooocus"@, "flux"@);
        reveal_with_fuel(occurs_from, 9);
        reveal_with_fuel(agrees_from, 5);
    }
    assert(first_tool_from("fooocus"@, 8) == first_tool_from("fooocus"@, 9));
    assert(!contains_seq("fooocus"@, "imagen"@)) by {
        lemma_contains_iff_occurs("fooocus"@, "imagen"@);
        reveal_with_fuel(occurs_from, 9);
        reveal_with_fuel(agrees_from, 7);
    }
    assert(first_tool_from("fooocus"@, 7) == first_tool_from("fooocus"@, 8));
    assert(!contains_seq("fooocus"@, "firefly"@)) by {
        lemma_contains_iff_occurs("fooocus"@, "firefly"@);
        reveal_with_fuel(occurs_from, 9);
        reveal_with_fuel(agrees_from, 8);
    }
    assert(first_tool_from("fooocus"@, 6) == first_tool_from("fooocus"@, 7));
    assert(!contains_seq("fooocus"@, "stablediffusion"@)) by {
        lemma_contains_iff_occurs("fooocus"@, "stablediffusion"@);
    }
    assert(first_tool_from("fooocus"@, 5) == first_tool_from("fooocus"@, 6));
    assert(!contains_seq("fooocus"@, "stable-diffusion"@)) by {
        lemma_contains_iff_occurs("fooocus"@, "stable-diffusion"@);
    }
    assert(first_tool_from("fooocus"@, 4) == first_tool_from("fooocus"@, 5));
    assert(!contains_seq("fooocus"@, "stable diffusion"@)) by {
        lemma_contains_iff_occurs("fooocus"@, "stable diffusion"@);
    }
    assert(first_tool_from("fooocus"@, 3) == first_tool_from("fooocus"@, 4));
    assert(!contains_seq("fooocus"@, "midjourney"@)) by {
        lemma_contains_iff_occurs("fooocus"@, "midjourney"@);
    }
    assert(first_tool_from("fooocus"@, 2) == first_tool_from("fooocus"@, 3));
    assert(!contains_seq("fooocus"@, "dalle"@)) by {
        lemma_contains_iff_occurs("fooocus"@, "dalle"@);
        reveal_with_fuel(occurs_from, 9);
        reveal_with_fuel(agrees_from, 6);
    }
    assert(first_tool_from("fooocus"@, 1) == first_tool_from("fooocus"@, 2));
    assert(!contains_seq("fooocus"@, "dall-e"@)) by {
        lemma_contains_iff_occurs("fooocus"@, "dall-e"@);
        reveal_with_fuel(occurs_from, 9);
        reveal_with_fuel(agrees_from, 7);
    }
    assert(first_tool_from("fooocus"@, 0) == first_tool_from("fooocus"@, 1));
}

proof fn lemma_recognizes_glide()
    ensures
        first_tool_from("glide"@, 0) == Some("glide"@),
{
    reveal_strlit("a1111");
    reveal_strlit("automatic1111");
    reveal_strlit("bing image creator");
    reveal_strlit("canva ai");
    reveal_strlit("chatgpt");
    reveal_strlit("comfyui");
    reveal_strlit("copilot designer");
    reveal_strlit("craiyon");
    reveal_strlit("dall-e");
    reveal_strlit("dalle");
    reveal_strlit("deepai");
    reveal_strlit("dreamstudio");
    reveal_strlit("firefly");
    reveal_strlit("flux");
    reveal_strlit("fooocus");
    reveal_strlit("glide");
    reveal_strlit("google veo");
    reveal_strlit("gpt image");
    reveal_strlit("gpt-4");
    reveal_strlit("gpt-4o");
    reveal_strlit("gpt-image");
    reveal_strlit("ideogram");
    reveal_strlit("imagen");
    reveal_strlit("invokeai");
    reveal_strlit("kling");
    reveal_strlit("leonardo ai");
    reveal_strlit("leonardo.ai");
    reveal_strlit("meta ai");
    reveal_strlit("microsoft designer");
    reveal_strlit("midjourney");
    reveal_strlit("nightcafe");
    reveal_strlit("novelai");
    reveal_strlit("openai");
    reveal_strlit("pika");
    reveal_strlit("runway");
    reveal_strlit("sora");
    reveal_strlit("stability ai");
    reveal_strlit("stability.ai");
    reveal_strlit("stable diffusion");
    reveal_strlit("stable-diffusion");
    reveal_strlit("stablediffusion");
    reveal_strlit("vidu");
    assert(first_tool_from("glide"@, 41) == Some("glide"@)) by {
        assert("glide"@.subrange(0, 5) =~= "glide"@);
        assert(crate::text::matches_at("glide"@, "glide"@, 0));
    }
    assert(!contains_seq("glide"@, "fooocus"@)) by {
        lemma_contains_iff_occurs("glide"@, "fooocus"@);
    }
    assert(first_tool_from("glide"@, 40) == first_tool_from("glide"@, 41));
    assert(!contains_seq("glide"@, "invokeai"@)) by {
        lemma_contains_iff_occurs("glide"@, "invokeai"@);
    }
    assert(first_tool_from("glide"@, 39) == first_tool_from("glide"@, 40));
    assert(!contains_seq("glide"@, "a1111"@)) by {
        lemma_contains_iff_occurs("glide"@, "a1111"@);
        reveal_with_fuel(occurs_from, 7);
        reveal_with_fuel(agrees_from, 6);
    }
    assert(first_tool_from("glide"@, 38) == first_tool_from("glide"@, 39));
    assert(!contains_seq("glide"@, "automatic1111"@)) by {
        lemma_contains_iff_occurs("glide"@, "automatic1111"@);
    }
    assert(first_tool_from("glide"@, 37) == first_tool_from("glide"@, 38));
    assert(!contains_seq("glide"@, "comfyui"@)) by {
        lemma_contains_iff_occurs("glide"@, "comfyui"@);
    }
    assert(first_tool_from("glide"@, 36) == first_tool_from("glide"@, 37));
    assert(!contains_seq("glide"@, "stability.ai"@)) by {
        lemma_contains_iff_occurs("glide"@, "stability.ai"@);
    }
    assert(first_tool_from("glide"@, 35) == first_tool_from("glide"@, 36));
    assert(!contains_seq("glide"@, "stability ai"@)) by {
        lemma_contains_iff_occurs("glide"@, "stability ai"@);
    }
    assert(first_tool_from("glide"@, 34) == first_tool_from("glide"@, 35));
    assert(!contains_seq("glide"@, "meta ai"@)) by {
        lemma_contains_iff_occurs("glide"@, "meta ai"@);
    }
    assert(first_tool_from("glide"@, 33) == first_tool_from("glide"@, 34));
    assert(!contains_seq("glide"@, "deepai"@)) by {
        lemma_contains_iff_occurs("glide"@, "deepai"@);
    }
    assert(first_tool_from("glide"@, 32) == first_tool_from("glide"@, 33));
    assert(!contains_seq("glide"@, "craiyon"@)) by {
        lemma_contains_iff_occurs("glide"@, "craiyon"@);
    }
    assert(first_tool_from("glide"@, 31) == first_tool_from("glide"@, 32));
    assert(!contains_seq("glide"@, "nightcafe"@)) by {
        lemma_contains_iff_occurs("glide"@, "nightcafe"@);
    }
    assert(first_tool_from("glide"@, 30) == first_tool_from("glide"@, 31));
    assert(!contains_seq("glide"@, "dreamstudio"@)) by {
        lemma_contains_iff_occurs("glide"@, "dreamstudio"@);
    }
    assert(first_tool_from("glide"@, 29) == first_tool_from("glide"@, 30));
    assert(!contains_seq("glide"@, "canva ai"@)) by {
        lemma_contains_iff_occurs("glide"@, "canva ai"@);
    }
    assert(first_tool_from("glide"@, 28) == first_tool_from("glide"@, 29));
    assert(!contains_seq("glide"@, "microsoft designer"@)) by {
        lemma_contains_iff_occurs("glide"@, "microsoft designer"@);
    }
    assert(first_tool_from("glide"@, 27) == first_tool_from("glide"@, 28));
    assert(!contains_seq("glide"@, "copilot designer"@)) by {
        lemma_contains_iff_occurs("glide"@, "copilot designer"@);
    }
    assert(first_tool_from("glide"@, 26) == first_tool_from("glide"@, 27));
    assert(!contains_seq("glide"@, "bing image creator"@)) by {
        lemma_contains_iff_occurs("glide"@, "bing image creator"@);
    }
    assert(first_tool_from("glide"@, 25) == first_tool_from("glide"@, 26));
    assert(!contains_seq("glide"@, "openai"@)) by {
        lemma_contains_iff_occurs("glide"@, "openai"@);
    }
    assert(first_tool_from("glide"@, 24) == first_tool_from("glide"@, 25));
    assert(!contains_seq("glide"@, "chatgpt"@)) by {
        lemma_contains_iff_occurs("glide"@, "chatgpt"@);
    }
    assert(first_tool_from("glide"@, 23) == first_tool_from("glide"@, 24));
    assert(!contains_seq("glide"@, "gpt-4"@)) by {
        lemma_contains_iff_occurs("glide"@, "gpt-4"@);
        reveal_with_fuel(occurs_from, 7);
        reveal_with_fuel(agrees_from, 6);
    }
    assert(first_tool_from("glide"@, 22) == first_tool_from("glide"@, 23));
    assert(!contains_seq("glide"@, "gpt-image"@)) by {
        lemma_contains_iff_occurs("glide"@, "gpt-image"@);
    }
    assert(first_tool_from("glide"@, 21) == first_tool_from("glide"@, 22));
    assert(!contains_seq("glide"@, "gpt image"@)) by {
        lemma_contains_iff_occurs("glide"@, "gpt image"@);
    }
    assert(first_tool_from("glide"@, 20) == first_tool_from("glide"@, 21));
    assert(!contains_seq("glide"@, "gpt-4o"@)) by {
        lemma_contains_iff_occurs("glide"@, "gpt-4o"@);
    }
    assert(first_tool_from("glide"@, 19) == first_tool_from("glide"@, 20));
    assert(!contains_seq("glide"@, "vidu"@)) by {
        lemma_contains_iff_occurs("glide"@, "vidu"@);
        reveal_with_fuel(occurs_from, 7);
        reveal_with_fuel(agrees_from, 5);
    }
    assert(first_tool_from("glide"@, 18) == first_tool_from("glide"@, 19));
    assert(!contains_seq("glide"@, "kling"@)) by {
        lemma_contains_iff_occurs("glide"@, "kling"@);
        reveal_with_fuel(occurs_from, 7);
        reveal_with_fuel(agrees_from, 6);
    }
    assert(first_tool_from("glide"@, 17) == first_tool_from("glide"@, 18));
    assert(!contains_seq("glide"@, "pika"@)) by {
        lemma_contains_iff_occurs("glide"@, "pika"@);
        reveal_with_fuel(occurs_from, 7);
        reveal_with_fuel(agrees_from, 5);
    }
    assert(first_tool_from("glide"@, 16) == first_tool_from("glide"@, 17));
    assert(!contains_seq("glide"@, "runway"@)) by {
        lemma_contains_iff_occurs("glide"@, "runway"@);
    }
    assert(first_tool_from("glide"@, 15) == first_tool_from("glide"@, 16));
    assert(!contains_seq("glide"@, "google veo"@)) by {
        lemma_contains_iff_occurs("glide"@, "google veo"@);
    }
    assert(first_tool_from("glide"@, 14) == first_tool_from("glide"@, 15));
    assert(!contains_seq("glide"@, "sora"@)) by {
        lemma_contains_iff_occurs("glide"@, "sora"@);
        reveal_with_fuel(occurs_from, 7);
        reveal_with_fuel(agrees_from, 5);
    }
    assert(first_tool_from("glide"@, 13) == first_tool_from("glide"@, 14));
    assert(!contains_seq("glide"@, "novelai"@)) by {
        lemma_contains_iff_occurs("glide"@, "novelai"@);
    }
    assert(first_tool_from("glide"@, 12) == first_tool_from("glide"@, 13));
    assert(!contains_seq("glide"@, "leonardo ai"@)) by {
        lemma_contains_iff_occurs("glide"@, "leonardo ai"@);
    }
    assert(first_tool_from("glide"@, 11) == first_tool_from("glide"@, 12));
    assert(!contains_seq("glide"@, "leonardo.ai"@)) by {
        lemma_contains_iff_occurs("glide"@, "leonardo.ai"@);
    }
    assert(first_tool_from("glide"@, 10) == first_tool_from("glide"@, 11));
    assert(!contains_seq("glide"@, "ideogram"@)) by {
        lemma_contains_iff_occurs("glide"@, "ideogram"@);
    }
    assert(first_tool_from("glide"@, 9) == first_tool_from("glide"@, 10));
    assert(!contains_seq("glide"@, "flux"@)) by {
        lemma_contains_iff_occurs("glide"@, "flux"@);
        reveal_with_fuel(occurs_from, 7);
        reveal_with_fuel(agrees_from, 5);
    }
    assert(first_tool_from("glide"@, 8) == first_tool_from("glide"@, 9));
    assert(!contains_seq("glide"@, "imagen"@)) by {
        lemma_contains_iff_occurs("glide"@, "imagen"@);
    }
    assert(first_tool_from("glide"@, 7) == first_tool_from("glide"@, 8));
    assert(!contains_seq("glide"@, "firefly"@)) by {
        lemma_contains_iff_occurs("glide"@, "firefly"@);
    }
    assert(first_tool_from("glide"@, 6) == first_tool_from("glide"@, 7));
    assert(!contains_seq("glide"@, "stablediffusion"@)) by {
        lemma_contains_iff_occurs("glide"@, "stablediffusion"@);
    }
    assert(first_tool_from("glide"@, 5) == first_tool_from("glide"@, 6));
    assert(!contains_seq("glide"@, "stable-diffusion"@)) by {
        lemma_contains_iff_occurs("glide"@, "stable-diffusion"@);
    }
    assert(first_tool_from("glide"@, 4) == first_tool_from("glide"@, 5));
    assert(!contains_seq("glide"@, "stable diffusion"@)) by {
        lemma_contains_iff_occurs("glide"@, "stable diffusion"@);
    }
    assert(first_tool_from("glide"@, 3) == first_tool_from("glide"@, 4));
    assert(!contains_seq("glide"@, "midjourney"@)) by {
        lemma_contains_iff_occurs("glide"@, "midjourney"@);
    }
    assert(first_tool_from("glide"@, 2) == first_tool_from("glide"@, 3));
    assert(!contains_seq("glide"@, "dalle"@)) by {
        lemma_contains_iff_occurs("glide"@, "dalle"@);
        reveal_with_fuel(occurs_from, 7);
        reveal_with_fuel(agrees_from, 6);
    }
    assert(first_tool_from("glide"@, 1) == first_tool_from("glide"@, 2));
    assert(!contains_seq("glide"@, "dall-e"@)) by {
        lemma_contains_iff_occurs("glide"@, "dall-e"@);
    }
    assert(first_tool_from("glide"@, 0) == first_tool_from("glide"@, 1));
}

proof fn lemma_recognizes_parti()
    ensures
        first_tool_from("parti"@, 0) == Some("parti"@),
{
    reveal_strlit("a1111");
    reveal_strlit("automatic1111");
    reveal_strlit("bing image creator");
    reveal_strlit("canva ai");
    reveal_strlit("chatgpt");
    reveal_strlit("comfyui");
    reveal_strlit("copilot designer");
    reveal_strlit("craiyon");
    reveal_strlit("dall-e");
    reveal_strlit("dalle");
    reveal_strlit("deepai");
    reveal_strlit("dreamstudio");
    reveal_strlit("firefly");
    reveal_strlit("flux");
    reveal_strlit("fooocus");
    reveal_strlit("glide");
    reveal_strlit("google veo");
    reveal_strlit("gpt image");
    reveal_strlit("gpt-4");
    reveal_strlit("gpt-4o");
    reveal_strlit("gpt-image");
    reveal_strlit("ideogram");
    reveal_strlit("imagen");
    reveal_strlit("invokeai");
    reveal_strlit("kling");
    reveal_strlit("leonardo ai");
    reveal_strlit("leonardo.ai");
    reveal_strlit("meta ai");
    reveal_strlit("microsoft designer");
    reveal_strlit("midjourney");
    reveal_strlit("nightcafe");
    reveal_strlit("novelai");
    reveal_strlit("openai");
    reveal_strlit("parti");
    reveal_strlit("pika");
    reveal_strlit("runway");
    reveal_strlit("sora");
    reveal_strlit("stability ai");
    reveal_strlit("stability.ai");
    reveal_strlit("stable diffusion");
    reveal_strlit("stable-diffusion");
    reveal_strlit("stablediffusion");
    reveal_strlit("vidu");
    assert(first_tool_from("parti"@, 42) == Some("parti"@)) by {
        assert("parti"@.subrange(0, 5) =~= "parti"@);
        assert(crate::text::matches_at("parti"@, "parti"@, 0));
    }
    assert(!contains_seq("parti"@, "glide"@)) by {
        lemma_contains_iff_occurs("parti"@, "glide"@);
        reveal_with_fuel(occurs_from, 7);
        reveal_with_fuel(agrees_from, 6);
    }
    assert(first_tool_from("parti"@, 41) == first_tool_from("parti"@, 42));
    assert(!contains_seq("parti"@, "fooocus"@)) by {
        lemma_contains_iff_occurs("parti"@, "fooocus"@);
    }
    assert(first_tool_from("parti"@, 40) == first_tool_from("parti"@, 41));
    assert(!contains_seq("parti"@, "invokeai"@)) by {
        lemma_contains_iff_occurs("parti"@, "invokeai"@);
    }
    assert(first_tool_from("parti"@, 39) == first_tool_from("parti"@, 40));
    assert(!contains_seq("parti"@, "a1111"@)) by {
        lemma_contains_iff_occurs("parti"@, "a1111"@);
        reveal_with_fuel(occurs_from, 7);
        reveal_with_fuel(agrees_from, 6);
    }
    assert(first_tool_from("parti"@, 38) == first_tool_from("parti"@, 39));
    assert(!contains_seq("parti"@, "automatic1111"@)) by {
        lemma_contains_iff_occurs("parti"@, "automatic1111"@);
    }
    assert(first_tool_from("parti"@, 37) == first_tool_from("parti"@, 38));
    assert(!contains_seq("parti"@, "comfyui"@)) by {
        lemma_contains_iff_occurs("parti"@, "comfyui"@);
    }
    assert(first_tool_from("parti"@, 36) == first_tool_from("parti"@, 37));
    assert(!contains_seq("parti"@, "stability.ai"@)) by {
        lemma_contains_iff_occurs("parti"@, "stability.ai"@);
    }
    assert(first_tool_from("parti"@, 35) == first_tool_from("parti"@, 36));
    assert(!contains_seq("parti"@, "stability ai"@)) by {
        lemma_contains_iff_occurs("parti"@, "stability ai"@);
    }
    assert(first_tool_from("parti"@, 34) == first_tool_from("parti"@, 35));
    assert(!contains_seq("parti"@, "meta ai"@)) by {
        lemma_contains_iff_occurs("parti"@, "meta ai"@);
    }
    assert(first_tool_from("parti"@, 33) == first_tool_from("parti"@, 34));
    assert(!contains_seq("parti"@, "deepai"@)) by {
        lemma_contains_iff_occurs("parti"@, "deepai"@);
    }
    assert(first_tool_from("parti"@, 32) == first_tool_from("parti"@, 33));
    assert(!contains_seq("parti"@, "craiyon"@)) by {
        lemma_contains_iff_occurs("parti"@, "craiyon"@);
    }
    assert(first_tool_from("parti"@, 31) == first_tool_from("parti"@, 32));
    assert(!contains_seq("parti"@, "nightcafe"@)) by {
        lemma_contains_iff_occurs("parti"@, "nightcafe"@);
    }
    assert(first_tool_from("parti"@, 30) == first_tool_from("parti"@, 31));
    assert(!contains_seq("parti"@, "dreamstudio"@)) by {
        lemma_contains_iff_occurs("parti"@, "dreamstudio"@);
    }
    assert(first_tool_from("parti"@, 29) == first_tool_from("parti"@, 30));
    assert(!contains_seq("parti"@, "canva ai"@)) by {
        lemma_contains_iff_occurs("parti"@, "canva ai"@);
    }
    assert(first_tool_from("parti"@, 28) == first_tool_from("parti"@, 29));
    assert(!contains_seq("parti"@, "microsoft designer"@)) by {
        lemma_contains_iff_occurs("parti"@, "microsoft designer"@);
    }
    assert(first_tool_from("parti"@, 27) == first_tool_from("parti"@, 28));
    assert(!contains_seq("parti"@, "copilot designer"@)) by {
        lemma_contains_iff_occurs("parti"@, "copilot designer"@);
    }
    assert(first_tool_from("parti"@, 26) == first_tool_from("parti"@, 27));
    assert(!contains_seq("parti"@, "bing image creator"@)) by {
        lemma_contains_iff_occurs("parti"@, "bing image creator"@);
    }
    assert(first_tool_from("parti"@, 25) == first_tool_from("parti"@, 26));
    assert(!contains_seq("parti"@, "openai"@)) by {
        lemma_contains_iff_occurs("parti"@, "openai"@);
    }
    assert(first_tool_from("parti"@, 24) == first_tool_from("parti"@, 25));
    assert(!contains_seq("parti"@, "chatgpt"@)) by {
        lemma_contains_iff_occurs("parti"@, "chatgpt"@);
    }
    assert(first_tool_from("parti"@, 23) == first_tool_from("parti"@, 24));
    assert(!contains_seq("parti"@, "gpt-4"@)) by {
        lemma_contains_iff_occurs("parti"@, "gpt-4"@);
        reveal_with_fuel(occurs_from, 7);
        reveal_with_fuel(agrees_from, 6);
    }
    assert(first_tool_from("parti"@, 22) == first_tool_from("parti"@, 23));
    assert(!contains_seq("parti"@, "gpt-image"@)) by {
        lemma_contains_iff_occurs("parti"@, "gpt-image"@);
    }
    assert(first_tool_from("parti"@, 21) == first_tool_from("parti"@, 22));
    assert(!contains_seq("parti"@, "gpt image"@)) by {
        lemma_contains_iff_occurs("parti"@, "gpt image"@);
    }
    assert(first_tool_from("parti"@, 20) == first_tool_from("parti"@, 21));
    assert(!contains_seq("parti"@, "gpt-4o"@)) by {
        lemma_contains_iff_occurs("parti"@, "gpt-4o"@);
    }
    assert(first_tool_from("parti"@, 19) == first_tool_from("parti"@, 20));
    assert(!contains_seq("parti"@, "vidu"@)) by {
        lemma_contains_iff_occurs("parti"@, "vidu"@);
        reveal_with_fuel(occurs_from, 7);
        reveal_with_fuel(agrees_from, 5);
    }
    assert(first_tool_from("parti"@, 18) == first_tool_from("parti"@, 19));
    assert(!contains_seq("parti"@, "kling"@)) by {
        lemma_contains_iff_occurs("parti"@, "kling"@);
        reveal_with_fuel(occurs_from, 7);
        reveal_with_fuel(agrees_from, 6);
    }
    assert(first_tool_from("parti"@, 17) == first_tool_from("parti"@, 18));
    assert(!contains_seq("parti"@, "pika"@)) by {
        lemma_contains_iff_occurs("parti"@, "pika"@);
        reveal_with_fuel(occurs_from, 7);
        reveal_with_fuel(agrees_from, 5);
    }
    assert(first_tool_from("parti"@, 16) == first_tool_from("parti"@, 17));
    assert(!contains_seq("parti"@, "runway"@)) by {
        lemma_contains_iff_occurs("parti"@, "runway"@);
    }
    assert(first_tool_from("parti"@, 15) == first_tool_from("parti"@, 16));
    assert(!contains_seq("parti"@, "google veo"@)) by {
        lemma_contains_iff_occurs("parti"@, "google veo"@);
    }
    assert(first_tool_from("parti"@, 14) == first_tool_from("parti"@, 15));
    assert(!contains_seq("parti"@, "sora"@)) by {
        lemma_contains_iff_occurs("parti"@, "sora"@);
        reveal_with_fuel(occurs_from, 7);
        reveal_with_fuel(agrees_from, 5);
    }
    assert(first_tool_from("parti"@, 13) == first_tool_from("parti"@, 14));
    assert(!contains_seq("parti"@, "novelai"@)) by {
        lemma_contains_iff_occurs("parti"@, "novelai"@);
    }
    assert(first_tool_from("parti"@, 12) == first_tool_from("parti"@, 13));
    assert(!contains_seq("parti"@, "leonardo ai"@)) by {
        lemma_contains_iff_occurs("parti"@, "leonardo ai"@);
    }
    assert(first_tool_from("parti"@, 11) == first_tool_from("parti"@, 12));
    assert(!contains_seq("parti"@, "leonardo.ai"@)) by {
        lemma_contains_iff_occurs("parti"@, "leonardo.ai"@);
    }
    assert(first_tool_from("parti"@, 10) == first_tool_from("parti"@, 11));
    assert(!contains_seq("parti"@, "ideogram"@)) by {
        lemma_contains_iff_occurs("parti"@, "ideogram"@);
    }
    assert(first_tool_from("parti"@, 9) == first_tool_from("parti"@, 10));
    assert(!contains_seq("parti"@, "flux"@)) by {
        lemma_contains_iff_occurs("parti"@, "flux"@);
        reveal_with_fuel(occurs_from, 7);
        reveal_with_fuel(agrees_from, 5);
    }
    assert(first_tool_from("parti"@, 8) == first_tool_from("parti"@, 9));
    assert(!contains_seq("parti"@, "imagen"@)) by {
        lemma_contains_iff_occurs("parti"@, "imagen"@);
    }
    assert(first_tool_from("parti"@, 7) == first_tool_from("parti"@, 8));
    assert(!contains_seq("parti"@, "firefly"@)) by {
        lemma_contains_iff_occurs("parti"@, "firefly"@);
    }
    assert(first_tool_from("parti"@, 6) == first_tool_from("parti"@, 7));
    assert(!contains_seq("parti"@, "stablediffusion"@)) by {
        lemma_contains_iff_occurs("parti"@, "stablediffusion"@);
    }
    assert(first_tool_from("parti"@, 5) == first_tool_from("parti"@, 6));
    assert(!contains_seq("parti"@, "stable-diffusion"@)) by {
        lemma_contains_iff_occurs("parti"@, "stable-diffusion"@);
    }
    assert(first_tool_from("parti"@, 4) == first_tool_from("parti"@, 5));
    assert(!contains_seq("parti"@, "stable diffusion"@)) by {
        lemma_contains_iff_occurs("parti"@, "stable diffusion"@);
    }
    assert(first_tool_from("parti"@, 3) == first_tool_from("parti"@, 4));
    assert(!contains_seq("parti"@, "midjourney"@)) by {
        lemma_contains_iff_occurs("parti"@, "midjourney"@);
    }
    assert(first_tool_from("parti"@, 2) == first_tool_from("parti"@, 3));
    assert(!contains_seq("parti"@, "dalle"@)) by {
        lemma_contains_iff_occurs("parti"@, "dalle"@);
        reveal_with_fuel(occurs_from, 7);
        reveal_with_fuel(agrees_from, 6);
    }
    assert(first_tool_from("parti"@, 1) == first_tool_from("parti"@, 2));
    assert(!contains_seq("parti"@, "dall-e"@)) by {
        lemma_contains_iff_occurs("parti"@, "dall-e"@);
    }
    assert(first_tool_from("parti"@, 0) == first_tool_from("parti"@, 1));
}

proof fn lemma_recognizes_muse()
    ensures
        first_tool_from("muse"@, 0) == Some("muse"@),
{
    reveal_strlit("a1111");
    reveal_strlit("automatic1111");
    reveal_strlit("bing image creator");
    reveal_strlit("canva ai");
    reveal_strlit("chatgpt");
    reveal_strlit("comfyui");
    reveal_strlit("copilot designer");
    reveal_strlit("craiyon");
    reveal_strlit("dall-e");
    reveal_strlit("dalle");
    reveal_strlit("deepai");
    reveal_strlit("dreamstudio");
    reveal_strlit("firefly");
    reveal_strlit("flux");
    reveal_strlit("fooocus");
    reveal_strlit("glide");
    reveal_strlit("google veo");
    reveal_strlit("gpt image");
    reveal_strlit("gpt-4");
    reveal_strlit("gpt-4o");
    reveal_strlit("gpt-image");
    reveal_strlit("ideogram");
    reveal_strlit("imagen");
    reveal_strlit("invokeai");
    reveal_strlit("kling");
    reveal_strlit("leonardo ai");
    reveal_strlit("leonardo.ai");
    reveal_strlit("meta ai");
    reveal_strlit("microsoft designer");
    reveal_strlit("midjourney");
    reveal_strlit("muse");
    reveal_strlit("nightcafe");
    reveal_strlit("novelai");
    reveal_strlit("openai");
    reveal_strlit("parti");
    reveal_strlit("pika");
    reveal_strlit("runway");
    reveal_strlit("sora");
    reveal_strlit("stability ai");
    reveal_strlit("stability.ai");
    reveal_strlit("stable diffusion");
    reveal_strlit("stable-diffusion");
    reveal_strlit("stablediffusion");
    reveal_strlit("vidu");
    assert(first_tool_from("muse"@, 43) == Some("muse"@)) by {
        assert("muse"@.subrange(0, 4) =~= "muse"@);
        assert(crate::text::matches_at("muse"@, "muse"@, 0));
    }
    assert(!contains_seq("muse"@, "parti"@)) by {
        lemma_contains_iff_occurs("muse"@, "parti"@);
    }
    assert(first_tool_from("muse"@, 42) == first_tool_from("muse"@, 43));
    assert(!contains_seq("muse"@, "glide"@)) by {
        lemma_contains_iff_occurs("muse"@, "glide"@);
    }
    assert(first_tool_from("muse"@, 41) == first_tool_from("muse"@, 42));
    assert(!contains_seq("muse"@, "fooocus"@)) by {
        lemma_contains_iff_occurs("muse"@, "fooocus"@);
    }
    assert(first_tool_from("muse"@, 40) == first_tool_from("muse"@, 41));
    assert(!contains_seq("muse"@, "invokeai"@)) by {
        lemma_contains_iff_occurs("muse"@, "invokeai"@);
    }
    assert(first_tool_from("muse"@, 39) == first_tool_from("muse"@, 40));
    assert(!contains_seq("muse"@, "a1111"@)) by {
        lemma_contains_iff_occurs("muse"@, "a1111"@);
    }
    assert(first_tool_from("muse"@, 38) == first_tool_from("muse"@, 39));
    assert(!contains_seq("muse"@, "automatic1111"@)) by {
        lemma_contains_iff_occurs("muse"@, "automatic1111"@);
    }
    assert(first_tool_from("muse"@, 37) == first_tool_from("muse"@, 38));
    assert(!contains_seq("muse"@, "comfyui"@)) by {
        lemma_contains_iff_occurs("muse"@, "comfyui"@);
    }
    assert(first_tool_from("muse"@, 36) == first_tool_from("muse"@, 37));
    assert(!contains_seq("muse"@, "stability.ai"@)) by {
        lemma_contains_iff_occurs("muse"@, "stability.ai"@);
    }
    assert(first_tool_from("muse"@, 35) == first_tool_from("muse"@, 36));
    assert(!contains_seq("muse"@, "stability ai"@)) by {
        lemma_contains_iff_occurs("muse"@, "stability ai"@);
    }
    assert(first_tool_from("muse"@, 34) == first_tool_from("muse"@, 35));
    assert(!contains_seq("muse"@, "meta ai"@)) by {
        lemma_contains_iff_occurs("muse"@, "meta ai"@);
    }
    assert(first_tool_from("muse"@, 33) == first_tool_from("muse"@, 34));
    assert(!contains_seq("muse"@, "deepai"@)) by {
        lemma_contains_iff_occurs("muse"@, "deepai"@);
    }
    assert(first_tool_from("muse"@, 32) == first_tool_from("muse"@, 33));
    assert(!contains_seq("muse"@, "craiyon"@)) by {
        lemma_contains_iff_occurs("muse"@, "craiyon"@);
    }
    assert(first_tool_from("muse"@, 31) == first_tool_from("muse"@, 32));
    assert(!contains_seq("muse"@, "nightcafe"@)) by {
        lemma_contains_iff_occurs("muse"@, "nightcafe"@);
    }
    assert(first_tool_from("muse"@, 30) == first_tool_from("muse"@, 31));
    assert(!contains_seq("muse"@, "dreamstudio"@)) by {
        lemma_contains_iff_occurs("muse"@, "dreamstudio"@);
    }
    assert(first_tool_from("muse"@, 29) == first_tool_from("muse"@, 30));
    assert(!contains_seq("muse"@, "canva ai"@)) by {
        lemma_contains_iff_occurs("muse"@, "canva ai"@);
    }
    assert(first_tool_from("muse"@, 28) == first_tool_from("muse"@, 29));
    assert(!contains_seq("muse"@, "microsoft designer"@)) by {
        lemma_contains_iff_occurs("muse"@, "microsoft designer"@);
    }
    assert(first_tool_from("muse"@, 27) == first_tool_from("muse"@, 28));
    assert(!contains_seq("muse"@, "copilot designer"@)) by {
        lemma_contains_iff_occurs("muse"@, "copilot designer"@);
    }
    assert(first_tool_from("muse"@, 26) == first_tool_from("muse"@, 27));
    assert(!contains_seq("muse"@, "bing image creator"@)) by {
        lemma_contains_iff_occurs("muse"@, "bing image creator"@);
    }
    assert(first_tool_from("muse"@, 25) == first_tool_from("muse"@, 26));
    assert(!contains_seq("muse"@, "openai"@)) by {
        lemma_contains_iff_occurs("muse"@, "openai"@);
    }
    assert(first_tool_from("muse"@, 24) == first_tool_from("muse"@, 25));
    assert(!contains_seq("muse"@, "chatgpt"@)) by {
        lemma_contains_iff_occurs("muse"@, "chatgpt"@);
    }
    assert(first_tool_from("muse"@, 23) == first_tool_from("muse"@, 24));
    assert(!contains_seq("muse"@, "gpt-4"@)) by {
        lemma_contains_iff_occurs("muse"@, "gpt-4"@);
    }
    assert(first_tool_from("muse"@, 22) == first_tool_from("muse"@, 23));
    assert(!contains_seq("muse"@, "gpt-image"@)) by {
        lemma_contains_iff_occurs("muse"@, "gpt-image"@);
    }
    assert(first_tool_from("muse"@, 21) == first_tool_from("muse"@, 22));
    assert(!contains_seq("muse"@, "gpt image"@)) by {
        lemma_contains_iff_occurs("muse"@, "gpt image"@);
    }
    assert(first_tool_from("muse"@, 20) == first_tool_from("muse"@, 21));
    assert(!contains_seq("muse"@, "gpt-4o"@)) by {
        lemma_contains_iff_occurs("muse"@, "gpt-4o"@);
    }
    assert(first_tool_from("muse"@, 19) == first_tool_from("muse"@, 20));
    assert(!contains_seq("muse"@, "vidu"@)) by {
        lemma_contains_iff_occurs("muse"@, "vidu"@);
        reveal_with_fuel(occurs_from, 6);
        reveal_with_fuel(agrees_from, 5);
    }
    assert(first_tool_from("muse"@, 18) == first_tool_from("muse"@, 19));
    assert(!contains_seq("muse"@, "kling"@)) by {
        lemma_contains_iff_occurs("muse"@, "kling"@);
    }
    assert(first_tool_from("muse"@, 17) == first_tool_from("muse"@, 18));
    assert(!contains_seq("muse"@, "pika"@)) by {
        lemma_contains_iff_occurs("muse"@, "pika"@);
        reveal_with_fuel(occurs_from, 6);
        reveal_with_fuel(agrees_from, 5);
    }
    assert(first_tool_from("muse"@, 16) == first_tool_from("muse"@, 17));
    assert(!contains_seq("muse"@, "runway"@)) by {
        lemma_contains_iff_occurs("muse"@, "runway"@);
    }
    assert(first_tool_from("muse"@, 15) == first_tool_from("muse"@, 16));
    assert(!contains_seq("muse"@, "google veo"@)) by {
        lemma_contains_iff_occurs("muse"@, "google veo"@);
    }
    assert(first_tool_from("muse"@, 14) == first_tool_from("muse"@, 15));
    assert(!contains_seq("muse"@, "sora"@)) by {
        lemma_contains_iff_occurs("muse"@, "sora"@);
        reveal_with_fuel(occurs_from, 6);
        reveal_with_fuel(agrees_from, 5);
    }
    assert(first_tool_from("muse"@, 13) == first_tool_from("muse"@, 14));
    assert(!contains_seq("muse"@, "novelai"@)) by {
        lemma_contains_iff_occurs("muse"@, "novelai"@);
    }
    assert(first_tool_from("muse"@, 12) == first_tool_from("muse"@, 13));
    assert(!contains_seq("muse"@, "leonardo ai"@)) by {
        lemma_contains_iff_occurs("muse"@, "leonardo ai"@);
    }
    assert(first_tool_from("muse"@, 11) == first_tool_from("muse"@, 12));
    assert(!contains_seq("muse"@, "leonardo.ai"@)) by {
        lemma_contains_iff_occurs("muse"@, "leonardo.ai"@);
    }
    assert(first_tool_from("muse"@, 10) == first_tool_from("muse"@, 11));
    assert(!contains_seq("muse"@, "ideogram"@)) by {
        lemma_contains_iff_occurs("muse"@, "ideogram"@);
    }
    assert(first_tool_from("muse"@, 9) == first_tool_from("muse"@, 10));
    assert(!contains_seq("muse"@, "flux"@)) by {
        lemma_contains_iff_occurs("muse"@, "flux"@);
        reveal_with_fuel(occurs_from, 6);
        reveal_with_fuel(agrees_from, 5);
    }
    assert(first_tool_from("muse"@, 8) == first_tool_from("muse"@, 9));
    assert(!contains_seq("muse"@, "imagen"@)) by {
        lemma_contains_iff_occurs("muse"@, "imagen"@);
    }
    assert(first_tool_from("muse"@, 7) == first_tool_from("muse"@, 8));
    assert(!contains_seq("muse"@, "firefly"@)) by {
        lemma_contains_iff_occurs("muse"@, "firefly"@);
    }
    assert(first_tool_from("muse"@, 6) == first_tool_from("muse"@, 7));
    assert(!contains_seq("muse"@, "stablediffusion"@)) by {
        lemma_contains_iff_occurs("muse"@, "stablediffusion"@);
    }
    assert(first_tool_from("muse"@, 5) == first_tool_from("muse"@, 6));
    assert(!contains_seq("muse"@, "stable-diffusion"@)) by {
        lemma_contains_iff_occurs("muse"@, "stable-diffusion"@);
    }
    assert(first_tool_from("muse"@, 4) == first_tool_from("muse"@, 5));
    assert(!contains_seq("muse"@, "stable diffusion"@)) by {
        lemma_contains_iff_occurs("muse"@, "stable diffusion"@);
    }
    assert(first_tool_from("muse"@, 3) == first_tool_from("muse"@, 4));
    assert(!contains_seq("muse"@, "midjourney"@)) by {
        lemma_contains_iff_occurs("muse"@, "midjourney"@);
    }
    assert(first_tool_from("muse"@, 2) == first_tool_from("muse"@, 3));
    assert(!contains_seq("muse"@, "dalle"@)) by {
        lemma_contains_iff_occurs("muse"@, "dalle"@);
    }
    assert(first_tool_from("muse"@, 1) == first_tool_from("muse"@, 2));
    assert(!contains_seq("muse"@, "dall-e"@)) by {
        lemma_contains_iff_occurs("muse"@, "dall-e"@);
    }
    assert(first_tool_from("muse"@, 0) == first_tool_from("muse"@, 1));
}

proof fn lemma_recognizes_seedream()
    ensures
        first_tool_from("seedream"@, 0) == Some("seedream"@),
{
    reveal_strlit("a1111");
    reveal_strlit("automatic1111");
    reveal_strlit("bing image creator");
    reveal_strlit("canva ai");
    reveal_strlit("chatgpt");
    reveal_strlit("comfyui");
    reveal_strlit("copilot designer");
    reveal_strlit("craiyon");
    reveal_strlit("dall-e");
    reveal_strlit("dalle");
    reveal_strlit("deepai");
    reveal_strlit("dreamstudio");
    reveal_strlit("firefly");
    reveal_strlit("flux");
    reveal_strlit("fooocus");
    reveal_strlit("glide");
    reveal_strlit("google veo");
    reveal_strlit("gpt image");
    reveal_strlit("gpt-4");
    reveal_strlit("gpt-4o");
    reveal_strlit("gpt-image");
    reveal_strlit("ideogram");
    reveal_strlit("imagen");
    reveal_strlit("invokeai");
    reveal_strlit("kling");
    reveal_strlit("leonardo ai");
    reveal_strlit("leonardo.ai");
    reveal_strlit("meta ai");
    reveal_strlit("microsoft designer");
    reveal_strlit("midjourney");
    reveal_strlit("muse");
    reveal_strlit("nightcafe");
    reveal_strlit("novelai");
    reveal_strlit("openai");
    reveal_strlit("parti");
    reveal_strlit("pika");
    reveal_strlit("runway");
    reveal_strlit("seedream");
    reveal_strlit("sora");
    reveal_strlit("stability ai");
    reveal_strlit("stability.ai");
    reveal_strlit("stable diffusion");
    reveal_strlit("stable-diffusion");
    reveal_strlit("stablediffusion");
    reveal_strlit("vidu");
    assert(first_tool_from("seedream"@, 44) == Some("seedream"@)) by {
        assert("seedream"@.subrange(0, 8) =~= "seedream"@);
        assert(crate::text::matches_at("seedream"@, "seedream"@, 0));
    }
    assert(!contains_seq("seedream"@, "muse"@)) by {
        lemma_contains_iff_occurs("seedream"@, "muse"@);
        reveal_with_fuel(occurs_from, 10);
        reveal_with_fuel(agrees_from, 5);
    }
    assert(first_tool_from("seedream"@, 43) == first_tool_from("seedream"@, 44));
    assert(!contains_seq("seedream"@, "parti"@)) by {
        lemma_contains_iff_occurs("seedream"@, "parti"@);
        reveal_with_fuel(occurs_from, 10);
        reveal_with_fuel(agrees_from, 6);
    }
    assert(first_tool_from("seedream"@, 42) == first_tool_from("seedream"@, 43));
    assert(!contains_seq("seedream"@, "glide"@)) by {
        lemma_contains_iff_occurs("seedream"@, "glide"@);
        reveal_with_fuel(occurs_from, 10);
        reveal_with_fuel(agrees_from, 6);
    }
    assert(first_tool_from("seedream"@, 41) == first_tool_from("seedream"@, 42));
    assert(!contains_seq("seedream"@, "fooocus"@)) by {
        lemma_contains_iff_occurs("seedream"@, "fooocus"@);
        reveal_with_fuel(occurs_from, 10);
        reveal_with_fuel(agrees_from, 8);
    }
    assert(first_tool_from("seedream"@, 40) == first_tool_from("seedream"@, 41));
    assert(!contains_seq("seedream"@, "invokeai"@)) by {
        lemma_contains_iff_occurs("seedream"@, "invokeai"@);
        reveal_with_fuel(occurs_from, 10);
        reveal_with_fuel(agrees_from, 9);
    }
    assert(first_tool_from("seedream"@, 39) == first_tool_from("seedream"@, 40));
    assert(!contains_seq("seedream"@, "a1111"@)) by {
        lemma_contains_iff_occurs("seedream"@, "a1111"@);
        reveal_with_fuel(occurs_from, 10);
        reveal_with_fuel(agrees_from, 6);
    }
    assert(first_tool_from("seedream"@, 38) == first_tool_from("seedream"@, 39));
    assert(!contains_seq("seedream"@, "automatic1111"@)) by {
        lemma_contains_iff_occurs("seedream"@, "automatic1111"@);
    }
    assert(first_tool_from("seedream"@, 37) == first_tool_from("seedream"@, 38));
    assert(!contains_seq("seedream"@, "comfyui"@)) by {
        lemma_contains_iff_occurs("seedream"@, "comfyui"@);
        reveal_with_fuel(occurs_from, 10);
        reveal_with_fuel(agrees_from, 8);
    }
    assert(first_tool_from("seedream"@, 36) == first_tool_from("seedream"@, 37));
    assert(!contains_seq("seedream"@, "stability.ai"@)) by {
        lemma_contains_iff_occurs("seedream"@, "stability.ai"@);
    }
    assert(first_tool_from("seedream"@, 35) == first_tool_from("seedream"@, 36));
    assert(!contains_seq("seedream"@, "stability ai"@)) by {
        lemma_contains_iff_occurs("seedream"@, "stability ai"@);
    }
    assert(first_tool_from("seedream"@, 34) == first_tool_from("seedream"@, 35));
    assert(!contains_seq("seedream"@, "meta ai"@)) by {
        lemma_contains_iff_occurs("seedream"@, "meta ai"@);
        reveal_with_fuel(occurs_from, 10);
        reveal_with_fuel(agrees_from, 8);
    }
    assert(first_tool_from("seedream"@, 33) == first_tool_from("seedream"@, 34));
    assert(!contains_seq("seedream"@, "deepai"@)) by {
        lemma_contains_iff_occurs("seedream"@, "deepai"@);
        reveal_with_fuel(occurs_from, 10);
        reveal_with_fuel(agrees_from, 7);
    }
    assert(first_tool_from("seedream"@, 32) == first_tool_from("seedream"@, 33));
    assert(!contains_seq("seedream"@, "craiyon"@)) by {
        lemma_contains_iff_occurs("seedream"@, "craiyon"@);
        reveal_with_fuel(occurs_from, 10);
        reveal_with_fuel(agrees_from, 8);
    }
    assert(first_tool_from("seedream"@, 31) == first_tool_from("seedream"@, 32));
    assert(!contains_seq("seedream"@, "nightcafe"@)) by {
        lemma_contains_iff_occurs("seedream"@, "nightcafe"@);
    }
    assert(first_tool_from("seedream"@, 30) == first_tool_from("seedream"@, 31));
    assert(!contains_seq("seedream"@, "dreamstudio"@)) by {
        lemma_contains_iff_occurs("seedream"@, "dreamstudio"@);
    }
    assert(first_tool_from("seedream"@, 29) == first_tool_from("seedream"@, 30));
    assert(!contains_seq("seedream"@, "canva ai"@)) by {
        lemma_contains_iff_occurs("seedream"@, "canva ai"@);
        reveal_with_fuel(occurs_from, 10);
        reveal_with_fuel(agrees_from, 9);
    }
    assert(first_tool_from("seedream"@, 28) == first_tool_from("seedream"@, 29));
    assert(!contains_seq("seedream"@, "microsoft designer"@)) by {
        lemma_contains_iff_occurs("seedream"@, "microsoft designer"@);
    }
    assert(first_tool_from("seedream"@, 27) == first_tool_from("seedream"@, 28));
    assert(!contains_seq("seedream"@, "copilot designer"@)) by {
        lemma_contains_iff_occurs("seedream"@, "copilot designer"@);
    }
    assert(first_tool_from("seedream"@, 26) == first_tool_from("seedream"@, 27));
    assert(!contains_seq("seedream"@, "bing image creator"@)) by {
        lemma_contains_iff_occurs("seedream"@, "bing image creator"@);
    }
    assert(first_tool_from("seedream"@, 25) == first_tool_from("seedream"@, 26));
    assert(!contains_seq("seedream"@, "openai"@)) by {
        lemma_contains_iff_occurs("seedream"@, "openai"@);
        reveal_with_fuel(occurs_from, 10);
        reveal_with_fuel(agrees_from, 7);
    }
    assert(first_tool_from("seedream"@, 24) == first_tool_from("seedream"@, 25));
    assert(!contains_seq("seedream"@, "chatgpt"@)) by {
        lemma_contains_iff_occurs("seedream"@, "chatgpt"@);
        reveal_with_fuel(occurs_from, 10);
        reveal_with_fuel(agrees_from, 8);
    }
    assert(first_tool_from("seedream"@, 23) == first_tool_from("seedream"@, 24));
    assert(!contains_seq("seedream"@, "gpt-4"@)) by {
        lemma_contains_iff_occurs("seedream"@, "gpt-4"@);
        reveal_with_fuel(occurs_from, 10);
        reveal_with_fuel(agrees_from, 6);
    }
    assert(first_tool_from("seedream"@, 22) == first_tool_from("seedream"@, 23));
    assert(!contains_seq("seedream"@, "gpt-image"@)) by {
        lemma_contains_iff_occurs("seedream"@, "gpt-image"@);
    }
    assert(first_tool_from("seedream"@, 21) == first_tool_from("seedream"@, 22));
    assert(!contains_seq("seedream"@, "gpt image"@)) by {
        lemma_contains_iff_occurs("seedream"@, "gpt image"@);
    }
    assert(first_tool_from("seedream"@, 20) == first_tool_from("seedream"@, 21));
    assert(!contains_seq("seedream"@, "gpt-4o"@)) by {
        lemma_contains_iff_occurs("seedream"@, "gpt-4o"@);
        reveal_with_fuel(occurs_from, 10);
        reveal_with_fuel(agrees_from, 7);
    }
    assert(first_tool_from("seedream"@, 19) == first_tool_from("seedream"@, 20));
    assert(!contains_seq("seedream"@, "vidu"@)) by {
        lemma_contains_iff_occurs("seedream"@, "vidu"@);
        reveal_with_fuel(occurs_from, 10);
        reveal_with_fuel(agrees_from, 5);
    }
    assert(first_tool_from("seedream"@, 18) == first_tool_from("seedream"@, 19));
    assert(!contains_seq("seedream"@, "kling"@)) by {
        lemma_contains_iff_occurs("seedream"@, "kling"@);
        reveal_with_fuel(occurs_from, 10);
        reveal_with_fuel(agrees_from, 6);
    }
    assert(first_tool_from("seedream"@, 17) == first_tool_from("seedream"@, 18));
    assert(!contains_seq("seedream"@, "pika"@)) by {
        lemma_contains_iff_occurs("seedream"@, "pika"@);
        reveal_with_fuel(occurs_from, 10);
        reveal_with_fuel(agrees_from, 5);
    }
    assert(first_tool_from("seedream"@, 16) == first_tool_from("seedream"@, 17));
    assert(!contains_seq("seedream"@, "runway"@)) by {
        lemma_contains_iff_occurs("seedream"@, "runway"@);
        reveal_with_fuel(occurs_from, 10);
        reveal_with_fuel(agrees_from, 7);
    }
    assert(first_tool_from("seedream"@, 15) == first_tool_from("seedream"@, 16));
    assert(!contains_seq("seedream"@, "google veo"@)) by {
        lemma_contains_iff_occurs("seedream"@, "google veo"@);
    }
    assert(first_tool_from("seedream"@, 14) == first_tool_from("seedream"@, 15));
    assert(!contains_seq("seedream"@, "sora"@)) by {
        lemma_contains_iff_occurs("seedream"@, "sora"@);
        reveal_with_fuel(occurs_from, 10);
        reveal_with_fuel(agrees_from, 5);
    }
    assert(first_tool_from("seedream"@, 13) == first_tool_from("seedream"@, 14));
    assert(!contains_seq("seedream"@, "novelai"@)) by {
        lemma_contains_iff_occurs("seedream"@, "novelai"@);
        reveal_with_fuel(occurs_from, 10);
        reveal_with_fuel(agrees_from, 8);
    }
    assert(first_tool_from("seedream"@, 12) == first_tool_from("seedream"@, 13));
    assert(!contains_seq("seedream"@, "leonardo ai"@)) by {
        lemma_contains_iff_occurs("seedream"@, "leonardo ai"@);
    }
    assert(first_tool_from("seedream"@, 11) == first_tool_from("seedream"@, 12));
    assert(!contains_seq("seedream"@, "leonardo.ai"@)) by {
        lemma_contains_iff_occurs("seedream"@, "leonardo.ai"@);
    }
    assert(first_tool_from("seedream"@, 10) == first_tool_from("seedream"@, 11));
    assert(!contains_seq("seedream"@, "ideogram"@)) by {
        lemma_contains_iff_occurs("seedream"@, "ideogram"@);
        reveal_with_fuel(occurs_from, 10);
        reveal_with_fuel(agrees_from, 9);
    }
    assert(first_tool_from("seedream"@, 9) == first_tool_from("seedream"@, 10));
    assert(!contains_seq("seedream"@, "flux"@)) by {
        lemma_contains_iff_occurs("seedream"@, "flux"@);
        reveal_with_fuel(occurs_from, 10);
        reveal_with_fuel(agrees_from, 5);
    }
    assert(first_tool_from("seedream"@, 8) == first_tool_from("seedream"@, 9));
    assert(!contains_seq("seedream"@, "imagen"@)) by {
        lemma_contains_iff_occurs("seedream"@, "imagen"@);
        reveal_with_fuel(occurs_from, 10);
        reveal_with_fuel(agrees_from, 7);
    }
    assert(first_tool_from("seedream"@, 7) == first_tool_from("seedream"@, 8));
    assert(!contains_seq("seedream"@, "firefly"@)) by {
        lemma_contains_iff_occurs("seedream"@, "firefly"@);
        reveal_with_fuel(occurs_from, 10);
        reveal_with_fuel(agrees_from, 8);
    }
    assert(first_tool_from("seedream"@, 6) == first_tool_from("seedream"@, 7));
    assert(!contains_seq("seedream"@, "stablediffusion"@)) by {
        lemma_contains_iff_occurs("seedream"@, "stablediffusion"@);
    }
    assert(first_tool_from("seedream"@, 5) == first_tool_from("seedream"@, 6));
    assert(!contains_seq("seedream"@, "stable-diffusion"@)) by {
        lemma_contains_iff_occurs("seedream"@, "stable-diffusion"@);
    }
    assert(first_tool_from("seedream"@, 4) == first_tool_from("seedream"@, 5));
    assert(!contains_seq("seedream"@, "stable diffusion"@)) by {
        lemma_contains_iff_occurs("seedream"@, "stable diffusion"@);
    }
    assert(first_tool_from("seedream"@, 3) == first_tool_from("seedream"@, 4));
    assert(!contains_seq("seedream"@, "midjourney"@)) by {
        lemma_contains_iff_occurs("seedream"@, "midjourney"@);
    }
    assert(first_tool_from("seedream"@, 2) == first_tool_from("seedream"@, 3));
    assert(!contains_seq("seedream"@, "dalle"@)) by {
        lemma_contains_iff_occurs("seedream"@, "dalle"@);
        reveal_with_fuel(occurs_from, 10);
        reveal_with_fuel(agrees_from, 6);
    }
    assert(first_tool_from("seedream"@, 1) == first_tool_from("seedream"@, 2));
    assert(!contains_seq("seedream"@, "dall-e"@)) by {
        lemma_contains_iff_occurs("seedream"@, "dall-e"@);
        reveal_with_fuel(occurs_from, 10);
        reveal_with_fuel(agrees_from, 7);
    }
    assert(first_tool_from("seedream"@, 0) == first_tool_from("seedream"@, 1));
}

proof fn lemma_recognizes_recraft()
    ensures
        first_tool_from("recraft"@, 0) == Some("recraft"@),
{
    reveal_strlit("a1111");
    reveal_strlit("automatic1111");
    reveal_strlit("bing image creator");
    reveal_strlit("canva ai");
    reveal_strlit("chatgpt");
    reveal_strlit("comfyui");
    reveal_strlit("copilot designer");
    reveal_strlit("craiyon");
    reveal_strlit("dall-e");
    reveal_strlit("dalle");
    reveal_strlit("deepai");
    reveal_strlit("dreamstudio");
    reveal_strlit("firefly");
    reveal_strlit("flux");
    reveal_strlit("fooocus");
    reveal_strlit("glide");
    reveal_strlit("google veo");
    reveal_strlit("gpt image");
    reveal_strlit("gpt-4");
    reveal_strlit("gpt-4o");
    reveal_strlit("gpt-image");
    reveal_strlit("ideogram");
    reveal_strlit("imagen");
    reveal_strlit("invokeai");
    reveal_strlit("kling");
    reveal_strlit("leonardo ai");
    reveal_strlit("leonardo.ai");
    reveal_strlit("meta ai");
    reveal_strlit("microsoft designer");
    reveal_strlit("midjourney");
    reveal_strlit("muse");
    reveal_strlit("nightcafe");
    reveal_strlit("novelai");
    reveal_strlit("openai");
    reveal_strlit("parti");
    reveal_strlit("pika");
    reveal_strlit("recraft");
    reveal_strlit("runway");
    reveal_strlit("seedream");
    reveal_strlit("sora");
    reveal_strlit("stability ai");
    reveal_strlit("stability.ai");
    reveal_strlit("stable diffusion");
    reveal_strlit("stable-diffusion");
    reveal_strlit("stablediffusion");
    reveal_strlit("vidu");
    assert(first_tool_from("recraft"@, 45) == Some("recraft"@)) by {
        assert("recraft"@.subrange(0, 7) =~= "recraft"@);
        assert(crate::text::matches_at("recraft"@, "recraft"@, 0));
    }
    assert(!contains_seq("recraft"@, "seedream"@)) by {
        lemma_contains_iff_occurs("recraft"@, "seedream"@);
    }
    assert(first_tool_from("recraft"@, 44) == first_tool_from("recraft"@, 45));
    assert(!contains_seq("recraft"@, "muse"@)) by {
        lemma_contains_iff_occurs("recraft"@, "muse"@);
        reveal_with_fuel(occurs_from, 9);
        reveal_with_fuel(agrees_from, 5);
    }
    assert(first_tool_from("recraft"@, 43) == first_tool_from("recraft"@, 44));
    assert(!contains_seq("recraft"@, "parti"@)) by {
        lemma_contains_iff_occurs("recraft"@, "parti"@);
        reveal_with_fuel(occurs_from, 9);
        reveal_with_fuel(agrees_from, 6);
    }
    assert(first_tool_from("recraft"@, 42) == first_tool_from("recraft"@, 43));
    assert(!contains_seq("recraft"@, "glide"@)) by {
        lemma_contains_iff_occurs("recraft"@, "glide"@);
        reveal_with_fuel(occurs_from, 9);
        reveal_with_fuel(agrees_from, 6);
    }
    assert(first_tool_from("recraft"@, 41) == first_tool_from("recraft"@, 42));
    assert(!contains_seq("recraft"@, "fooocus"@)) by {
        lemma_contains_iff_occurs("recraft"@, "fooocus"@);
        reveal_with_fuel(occurs_from, 9);
        reveal_with_fuel(agrees_from, 8);
    }
    assert(first_tool_from("recraft"@, 40) == first_tool_from("recraft"@, 41));
    assert(!contains_seq("recraft"@, "invokeai"@)) by {
        lemma_contains_iff_occurs("recraft"@, "invokeai"@);
    }
    assert(first_tool_from("recraft"@, 39) == first_tool_from("recraft"@, 40));
    assert(!contains_seq("recraft"@, "a1111"@)) by {
        lemma_contains_iff_occurs("recraft"@, "a1111"@);
        reveal_with_fuel(occurs_from, 9);
        reveal_with_fuel(agrees_from, 6);
    }
    assert(first_tool_from("recraft"@, 38) == first_tool_from("recraft"@, 39));
    assert(!contains_seq("recraft"@, "automatic1111"@)) by {
        lemma_contains_iff_occurs("recraft"@, "automatic1111"@);
    }
    assert(first_tool_from("recraft"@, 37) == first_tool_from("recraft"@, 38));
    assert(!contains_seq("recraft"@, "comfyui"@)) by {
        lemma_contains_iff_occurs("recraft"@, "comfyui"@);
        reveal_with_fuel(occurs_from, 9);
        reveal_with_fuel(agrees_from, 8);
    }
    assert(first_tool_from("recraft"@, 36) == first_tool_from("recraft"@, 37));
    assert(!contains_seq("recraft"@, "stability.ai"@)) by {
        lemma_contains_iff_occurs("recraft"@, "stability.ai"@);
    }
    assert(first_tool_from("recraft"@, 35) == first_tool_from("recraft"@, 36));
    assert(!contains_seq("recraft"@, "stability ai"@)) by {
        lemma_contains_iff_occurs("recraft"@, "stability ai"@);
    }
    assert(first_tool_from("recraft"@, 34) == first_tool_from("recraft"@, 35));
    assert(!contains_seq("recraft"@, "meta ai"@)) by {
        lemma_contains_iff_occurs("recraft"@, "meta ai"@);
        reveal_with_fuel(occurs_from, 9);
        reveal_with_fuel(agrees_from, 8);
    }
    assert(first_tool_from("recraft"@, 33) == first_tool_from("recraft"@, 34));
    assert(!contains_seq("recraft"@, "deepai"@)) by {
        lemma_contains_iff_occurs("recraft"@, "deepai"@);
        reveal_with_fuel(occurs_from, 9);
        reveal_with_fuel(agrees_from, 7);
    }
    assert(first_tool_from("recraft"@, 32) == first_tool_from("recraft"@, 33));
    assert(!contains_seq("recraft"@, "craiyon"@)) by {
        lemma_contains_iff_occurs("recraft"@, "craiyon"@);
        reveal_with_fuel(occurs_from, 9);
        reveal_with_fuel(agrees_from, 8);
    }
    assert(first_tool_from("recraft"@, 31) == first_tool_from("recraft"@, 32));
    assert(!contains_seq("recraft"@, "nightcafe"@)) by {
        lemma_contains_iff_occurs("recraft"@, "nightcafe"@);
    }
    assert(first_tool_from("recraft"@, 30) == first_tool_from("recraft"@, 31));
    assert(!contains_seq("recraft"@, "dreamstudio"@)) by {
        lemma_contains_iff_occurs("recraft"@, "dreamstudio"@);
    }
    assert(first_tool_from("recraft"@, 29) == first_tool_from("recraft"@, 30));
    assert(!contains_seq("recraft"@, "canva ai"@)) by {
        lemma_contains_iff_occurs("recraft"@, "canva ai"@);
    }
    assert(first_tool_from("recraft"@, 28) == first_tool_from("recraft"@, 29));
    assert(!contains_seq("recraft"@, "microsoft designer"@)) by {
        lemma_contains_iff_occurs("recraft"@, "microsoft designer"@);
    }
    assert(first_tool_from("recraft"@, 27) == first_tool_from("recraft"@, 28));
    assert(!contains_seq("recraft"@, "copilot designer"@)) by {
        lemma_contains_iff_occurs("recraft"@, "copilot designer"@);
    }
    assert(first_tool_from("recraft"@, 26) == first_tool_from("recraft"@, 27));
    assert(!contains_seq("recraft"@, "bing image creator"@)) by {
        lemma_contains_iff_occurs("recraft"@, "bing image creator"@);
    }
    assert(first_tool_from("recraft"@, 25) == first_tool_from("recraft"@, 26));
    assert(!contains_seq("recraft"@, "openai"@)) by {
        lemma_contains_iff_occurs("recraft"@, "openai"@);
        reveal_with_fuel(occurs_from, 9);
        reveal_with_fuel(agrees_from, 7);
    }
    assert(first_tool_from("recraft"@, 24) == first_tool_from("recraft"@, 25));
    assert(!contains_seq("recraft"@, "chatgpt"@)) by {
        lemma_contains_iff_occurs("recraft"@, "chatgpt"@);
        reveal_with_fuel(occurs_from, 9);
        reveal_with_fuel(agrees_from, 8);
    }
    assert(first_tool_from("recraft"@, 23) == first_tool_from("recraft"@, 24));
    assert(!contains_seq("recraft"@, "gpt-4"@)) by {
        lemma_contains_iff_occurs("recraft"@, "gpt-4"@);
        reveal_with_fuel(occurs_from, 9);
        reveal_with_fuel(agrees_from, 6);
    }
    assert(first_tool_from("recraft"@, 22) == first_tool_from("recraft"@, 23));
    assert(!contains_seq("recraft"@, "gpt-image"@)) by {
        lemma_contains_iff_occurs("recraft"@, "gpt-image"@);
    }
    assert(first_tool_from("recraft"@, 21) == first_tool_from("recraft"@, 22));
    assert(!contains_seq("recraft"@, "gpt image"@)) by {
        lemma_contains_iff_occurs("recraft"@, "gpt image"@);
    }
    assert(first_tool_from("recraft"@, 20) == first_tool_from("recraft"@, 21));
    assert(!contains_seq("recraft"@, "gpt-4o"@)) by {
        lemma_contains_iff_occurs("recraft"@, "gpt-4o"@);
        reveal_with_fuel(occurs_from, 9);
        reveal_with_fuel(agrees_from, 7);
    }
    assert(first_tool_from("recraft"@, 19) == first_tool_from("recraft"@, 20));
    assert(!contains_seq("recraft"@, "vidu"@)) by {
        lemma_contains_iff_occurs("recraft"@, "vidu"@);
        reveal_with_fuel(occurs_from, 9);
        reveal_with_fuel(agrees_from, 5);
    }
    assert(first_tool_from("recraft"@, 18) == first_tool_from("recraft"@, 19));
    assert(!contains_seq("recraft"@, "kling"@)) by {
        lemma_contains_iff_occurs("recraft"@, "kling"@);
        reveal_with_fuel(occurs_from, 9);
        reveal_with_fuel(agrees_from, 6);
    }
    assert(first_tool_from("recraft"@, 17) == first_tool_from("recraft"@, 18));
    assert(!contains_seq("recraft"@, "pika"@)) by {
        lemma_contains_iff_occurs("recraft"@, "pika"@);
        reveal_with_fuel(occurs_from, 9);
        reveal_with_fuel(agrees_from, 5);
    }
    assert(first_tool_from("recraft"@, 16) == first_tool_from("recraft"@, 17));
    assert(!contains_seq("recraft"@, "runway"@)) by {
        lemma_contains_iff_occurs("recraft"@, "runway"@);
        reveal_with_fuel(occurs_from, 9);
        reveal_with_fuel(agrees_from, 7);
    }
    assert(first_tool_from("recraft"@, 15) == first_tool_from("recraft"@, 16));
    assert(!contains_seq("recraft"@, "google veo"@)) by {
        lemma_contains_iff_occurs("recraft"@, "google veo"@);
    }
    assert(first_tool_from("recraft"@, 14) == first_tool_from("recraft"@, 15));
    assert(!contains_seq("recraft"@, "sora"@)) by {
        lemma_contains_iff_occurs("recraft"@, "sora"@);
        reveal_with_fuel(occurs_from, 9);
        reveal_with_fuel(agrees_from, 5);
    }
    assert(first_tool_from("recraft"@, 13) == first_tool_from("recraft"@, 14));
    assert(!contains_seq("recraft"@, "novelai"@)) by {
        lemma_contains_iff_occurs("recraft"@, "novelai"@);
        reveal_with_fuel(occurs_from, 9);
        reveal_with_fuel(agrees_from, 8);
    }
    assert(first_tool_from("recraft"@, 12) == first_tool_from("recraft"@, 13));
    assert(!contains_seq("recraft"@, "leonardo ai"@)) by {
        lemma_contains_iff_occurs("recraft"@, "leonardo ai"@);
    }
    assert(first_tool_from("recraft"@, 11) == first_tool_from("recraft"@, 12));
    assert(!contains_seq("recraft"@, "leonardo.ai"@)) by {
        lemma_contains_iff_occurs("recraft"@, "leonardo.ai"@);
    }
    assert(first_tool_from("recraft"@, 10) == first_tool_from("recraft"@, 11));
    assert(!contains_seq("recraft"@, "ideogram"@)) by {
        lemma_contains_iff_occurs("recraft"@, "ideogram"@);
    }
    assert(first_tool_from("recraft"@, 9) == first_tool_from("recraft"@, 10));
    assert(!contains_seq("recraft"@, "flux"@)) by {
        lemma_contains_iff_occurs("recraft"@, "flux"@);
        reveal_with_fuel(occurs_from, 9);
        reveal_with_fuel(agrees_from, 5);
    }
    assert(first_tool_from("recraft"@, 8) == first_tool_from("recraft"@, 9));
    assert(!contains_seq("recraft"@, "imagen"@)) by {
        lemma_contains_iff_occurs("recraft"@, "imagen"@);
        reveal_with_fuel(occurs_from, 9);
        reveal_with_fuel(agrees_from, 7);
    }
    assert(first_tool_from("recraft"@, 7) == first_tool_from("recraft"@, 8));
    assert(!contains_seq("recraft"@, "firefly"@)) by {
        lemma_contains_iff_occurs("recraft"@, "firefly"@);
        reveal_with_fuel(occurs_from, 9);
        reveal_with_fuel(agrees_from, 8);
    }
    assert(first_tool_from("recraft"@, 6) == first_tool_from("recraft"@, 7));
    assert(!contains_seq("recraft"@, "stablediffusion"@)) by {
        lemma_contains_iff_occurs("recraft"@, "stablediffusion"@);
    }
    assert(first_tool_from("recraft"@, 5) == first_tool_from("recraft"@, 6));
    assert(!contains_seq("recraft"@, "stable-diffusion"@)) by {
        lemma_contains_iff_occurs("recraft"@, "stable-diffusion"@);
    }
    assert(first_tool_from("recraft"@, 4) == first_tool_from("recraft"@, 5));
    assert(!contains_seq("recraft"@, "stable diffusion"@)) by {
        lemma_contains_iff_occurs("recraft"@, "stable diffusion"@);
    }
    assert(first_tool_from("recraft"@, 3) == first_tool_from("recraft"@, 4));
    assert(!contains_seq("recraft"@, "midjourney"@)) by {
        lemma_contains_iff_occurs("recraft"@, "midjourney"@);
    }
    assert(first_tool_from("recraft"@, 2) == first_tool_from("recraft"@, 3));
    assert(!contains_seq("recraft"@, "dalle"@)) by {
        lemma_contains_iff_occurs("recraft"@, "dalle"@);
        reveal_with_fuel(occurs_from, 9);
        reveal_with_fuel(agrees_from, 6);
    }
    assert(first_tool_from("recraft"@, 1) == first_tool_from("recraft"@, 2));
    assert(!contains_seq("recraft"@, "dall-e"@)) by {
        lemma_contains_iff_occurs("recraft"@, "dall-e"@);
        reveal_with_fuel(occurs_from, 9);
        reveal_with_fuel(agrees_from, 7);
    }
    assert(first_tool_from("recraft"@, 0) == first_tool_from("recraft"@, 1));
}

/// Every AI tool the documentation lists is recognized by its name: a text
/// that lowercases to the name (written in any case) is matched to that tool.
pub proof fn lemma_listed_tools_recognized(s: Seq<char>)
    ensures
        lowercase(s) == "dall-e"@ ==> ai_tool_of(s) == Some("dall-e"@),
        lowercase(s) == "midjourney"@ ==> ai_tool_of(s) == Some("midjourney"@),
        lowercase(s) == "stable diffusion"@ ==> ai_tool_of(s) == Some("stable diffusion"@),
        lowercase(s) == "adobe firefly"@ ==> ai_tool_of(s) == Some("adobe firefly"@),
        lowercase(s) == "imagen"@ ==> ai_tool_of(s) == Some("imagen"@),
        lowercase(s) == "flux"@ ==> ai_tool_of(s) == Some("flux"@),
        lowercase(s) == "ideogram"@ ==> ai_tool_of(s) == Some("ideogram"@),
        lowercase(s) == "leonardo.ai"@ ==> ai_tool_of(s) == Some("leonardo.ai"@),
        lowercase(s) == "novelai"@ ==> ai_tool_of(s) == Some("novelai"@),
        lowercase(s) == "sora"@ ==> ai_tool_of(s) == Some("sora"@),
        lowercase(s) == "google veo"@ ==> ai_tool_of(s) == Some("google veo"@),
        lowercase(s) == "runway"@ ==> ai_tool_of(s) == Some("runway"@),
        lowercase(s) == "pika"@ ==> ai_tool_of(s) == Some("pika"@),
        lowercase(s) == "kling"@ ==> ai_tool_of(s) == Some("kling"@),
        lowercase(s) == "vidu"@ ==> ai_tool_of(s) == Some("vidu"@),
        lowercase(s) == "gpt-4o"@ ==> ai_tool_of(s) == Some("gpt-4o"@),
        lowercase(s) == "gpt-4"@ ==> ai_tool_of(s) == Some("gpt-4"@),
        lowercase(s) == "chatgpt"@ ==> ai_tool_of(s) == Some("chatgpt"@),
        lowercase(s) == "openai"@ ==> ai_tool_of(s) == Some("openai"@),
        lowercase(s) == "gpt image"@ ==> ai_tool_of(s) == Some("gpt image"@),
        lowercase(s) == "bing image creator"@ ==> ai_tool_of(s) == Some("bing image creator"@),
        lowercase(s) == "copilot designer"@ ==> ai_tool_of(s) == Some("copilot designer"@),
        lowercase(s) == "microsoft designer"@ ==> ai_tool_of(s) == Some("microsoft designer"@),
        lowercase(s) == "canva ai"@ ==> ai_tool_of(s) == Some("canva ai"@),
        lowercase(s) == "dreamstudio"@ ==> ai_tool_of(s) == Some("dreamstudio"@),
        lowercase(s) == "nightcafe"@ ==> ai_tool_of(s) == Some("nightcafe"@),
        lowercase(s) == "craiyon"@ ==> ai_tool_of(s) == Some("craiyon"@),
        lowercase(s) == "deepai"@ ==> ai_tool_of(s) == Some("deepai"@),
        lowercase(s) == "meta ai"@ ==> ai_tool_of(s) == Some("meta ai"@),
        lowercase(s) == "stability ai"@ ==> ai_tool_of(s) == Some("stability ai"@),
        lowercase(s) == "comfyui"@ ==> ai_tool_of(s) == Some("comfyui"@),
        lowercase(s) == "automatic1111"@ ==> ai_tool_of(s) == Some("automatic1111"@),
        lowercase(s) == "a1111"@ ==> ai_tool_of(s) == Some("automatic1111"@),
        lowercase(s) == "invokeai"@ ==> ai_tool_of(s) == Some("invokeai"@),
        lowercase(s) == "fooocus"@ ==> ai_tool_of(s) == Some("fooocus"@),
        lowercase(s) == "glide"@ ==> ai_tool_of(s) == Some("glide"@),
        lowercase(s) == "parti"@ ==> ai_tool_of(s) == Some("parti"@),
        lowercase(s) == "muse"@ ==> ai_tool_of(s) == Some("muse"@),
        lowercase(s) == "seedream"@ ==> ai_tool_of(s) == Some("seedream"@),
        lowercase(s) == "recraft"@ ==> ai_tool_of(s) == Some("recraft"@),
{
    lemma_recognizes_dall_e();
    lemma_recognizes_midjourney();
    lemma_recognizes_stable_diffusion();
    lemma_recognizes_adobe_firefly();
    lemma_recognizes_imagen();
    lemma_recognizes_flux();
    lemma_recognizes_ideogram();
    lemma_recognizes_leonardo_ai();
    lemma_recognizes_novelai();
    lemma_recognizes_sora();
    lemma_recognizes_google_veo();
    lemma_recognizes_runway();
    lemma_recognizes_pika();
    lemma_recognizes_kling();
    lemma_recognizes_vidu();
    lemma_recognizes_gpt_4o();
    lemma_recognizes_gpt_4();
    lemma_recognizes_chatgpt();
    lemma_recognizes_openai();
    lemma_recognizes_gpt_image();
    lemma_recognizes_bing_image_creator();
    lemma_recognizes_copilot_designer();
    lemma_recognizes_microsoft_designer();
    lemma_recognizes_canva_ai();
    lemma_recognizes_dreamstudio();
    lemma_recognizes_nightcafe();
    lemma_recognizes_craiyon();
    lemma_recognizes_deepai();
    lemma_recognizes_meta_ai();
    lemma_recognizes_stability_ai();
    lemma_recognizes_comfyui();
    lemma_recognizes_automatic1111();
    lemma_recognizes_a1111();
    lemma_recognizes_invokeai();
    lemma_recognizes_fooocus();
    lemma_recognizes_glide();
    lemma_recognizes_parti();
    lemma_recognizes_muse();
    lemma_recognizes_seedream();
    lemma_recognizes_recraft();
}

} // verus!
