use voice_pipeline::llm::AppType;
use voice_pipeline::multimodal::prompt::{
    build_multimodal_prompt, CHAT_ADDON, DOCUMENT_ADDON, EMAIL_ADDON, MULTIMODAL_BASE_PROMPT,
    SELECTED_TEXT_ADDON,
};

#[test]
fn test_basic_prompt() {
    let prompt = build_multimodal_prompt(AppType::General, &[], false, "", false);
    assert!(prompt.contains("Listen to the following audio"));
    assert!(prompt.contains("PUNCTUATION"));
    assert!(prompt.contains("CLEANUP"));
}

#[test]
fn test_email_addon() {
    let prompt = build_multimodal_prompt(AppType::Email, &[], false, "", false);
    assert!(prompt.contains("Email"));
    assert!(prompt.contains("formal tone"));
}

#[test]
fn test_dictionary() {
    let prompt = build_multimodal_prompt(
        AppType::General,
        &["Kubernetes".to_string(), "PostgreSQL".to_string()],
        false,
        "",
        false,
    );
    assert!(prompt.contains("Kubernetes"));
    assert!(prompt.contains("PostgreSQL"));
}

#[test]
fn test_translation() {
    let prompt = build_multimodal_prompt(AppType::General, &[], true, "zh", false);
    assert!(prompt.contains("Chinese"));
}

#[test]
fn test_selected_text_mode() {
    let prompt = build_multimodal_prompt(AppType::General, &[], false, "", true);
    assert!(prompt.contains("SELECTED TEXT MODE"));
}

#[test]
fn general_prompt_is_the_base_prompt() {
    let prompt = build_multimodal_prompt(AppType::General, &[], false, "", false);
    assert_eq!(prompt, MULTIMODAL_BASE_PROMPT);
}

#[test]
fn code_and_general_prompts_are_equal() {
    let words = vec!["Rust".to_string()];
    let a = build_multimodal_prompt(AppType::Code, &words, true, "fr", true);
    let b = build_multimodal_prompt(AppType::General, &words, true, "fr", true);
    assert_eq!(a, b);
}

#[test]
fn addons_follow_the_app_type() {
    let chat = build_multimodal_prompt(AppType::Chat, &[], false, "", false);
    assert_eq!(chat, format!("{}{}", MULTIMODAL_BASE_PROMPT, CHAT_ADDON));
    let doc = build_multimodal_prompt(AppType::Document, &[], false, "", false);
    assert_eq!(doc, format!("{}{}", MULTIMODAL_BASE_PROMPT, DOCUMENT_ADDON));
    let email = build_multimodal_prompt(AppType::Email, &[], false, "", false);
    assert_eq!(email, format!("{}{}", MULTIMODAL_BASE_PROMPT, EMAIL_ADDON));
}

#[test]
fn dictionary_terms_are_sanitized() {
    let prompt = build_multimodal_prompt(
        AppType::General,
        &["say \"hi\"\nnow\r".to_string()],
        false,
        "",
        false,
    );
    let expected = format!(
        "{}\n\nIMPORTANT: The following are the user's custom terms. Always use these exact spellings:\n- \"say hi now\"",
        MULTIMODAL_BASE_PROMPT
    );
    assert_eq!(prompt, expected);
}

#[test]
fn full_prompt_sections_in_order() {
    let prompt = build_multimodal_prompt(
        AppType::Email,
        &["A".to_string(), "B".to_string()],
        true,
        "  ja ",
        true,
    );
    let expected = format!(
        "{}{}\n\nIMPORTANT: The following are the user's custom terms. Always use these exact spellings:\n- \"A\"\n- \"B\"{}\n\nAFTER applying the user's instruction to the selected text, translate the final result into Japanese (日本語). Output ONLY the translated text.",
        MULTIMODAL_BASE_PROMPT, EMAIL_ADDON, SELECTED_TEXT_ADDON
    );
    assert_eq!(prompt, expected);
}

#[test]
fn translation_without_selection() {
    let prompt = build_multimodal_prompt(AppType::General, &[], true, "de", false);
    assert!(prompt.ends_with(
        "\n\nTranslate the final transcription into German (Deutsch). Output ONLY the translated text."
    ));
}

#[test]
fn unknown_short_alphabetic_code_is_used_as_name() {
    let prompt = build_multimodal_prompt(AppType::General, &[], true, "sv", false);
    assert!(prompt.ends_with("into sv. Output ONLY the translated text."));
}

#[test]
fn invalid_code_gives_no_translation() {
    let long = build_multimodal_prompt(AppType::General, &[], true, "swedish", false);
    assert_eq!(long, MULTIMODAL_BASE_PROMPT);
    let digits = build_multimodal_prompt(AppType::General, &[], true, "x1", false);
    assert_eq!(digits, MULTIMODAL_BASE_PROMPT);
    let blank = build_multimodal_prompt(AppType::General, &[], true, "   ", false);
    assert_eq!(blank, MULTIMODAL_BASE_PROMPT);
}

#[test]
fn translation_disabled_ignores_target() {
    let prompt = build_multimodal_prompt(AppType::General, &[], false, "zh", false);
    assert!(!prompt.contains("Chinese"));
}

#[test]
fn padded_code_is_trimmed() {
    let padded = build_multimodal_prompt(AppType::General, &[], true, " zh ", true);
    let bare = build_multimodal_prompt(AppType::General, &[], true, "zh", true);
    assert_eq!(padded, bare);
    let english = build_multimodal_prompt(AppType::Chat, &[], true, "english", false);
    assert_eq!(english, build_multimodal_prompt(AppType::Chat, &[], false, "", false));
}
