use aicheck::known_tools::match_ai_tool;

#[test]
fn tool_matching_is_case_insensitive_and_ordered() {
    assert_eq!(match_ai_tool("DALL-E 3/OpenAI"), Some("dall-e"));
    assert_eq!(match_ai_tool("Runway Gen-3"), Some("runway"));
    assert_eq!(match_ai_tool("Sora v2"), Some("sora"));
    assert_eq!(match_ai_tool("GPT-4o image"), Some("gpt-4o"));
    assert_eq!(match_ai_tool("Lavf60.16.100"), None);
    assert_eq!(match_ai_tool("Google"), None);
    assert_eq!(match_ai_tool(""), None);
    assert_eq!(match_ai_tool("Google Parti"), Some("parti"));
    assert_eq!(match_ai_tool("MUSE model"), Some("muse"));
}
