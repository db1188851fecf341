use erpy_ai::character::{default_system_prompt, is_blank_text, CharacterCard, CharacterCardData, ChubAiChracterNode, ChubAiDefinition};
use erpy_ai::disk::{find_models_path_segment, huggingface_model_info, lm_studio_model_info, models_segment_in, owner_and_name};
use erpy_ai::sync::{error_body, Error};

fn card(system_prompt: &str) -> CharacterCard {
    CharacterCard {
        spec: "chara_card_v2".to_string(),
        spec_version: "2.0".to_string(),
        data: CharacterCardData {
            alternate_greetings: vec!["hey".to_string(), "yo".to_string()],
            avatar: Some("a.png".to_string()),
            character_version: "1".to_string(),
            creator: "c".to_string(),
            creator_notes: String::new(),
            description: "desc".to_string(),
            first_message: "hello".to_string(),
            message_example: String::new(),
            name: "Ann".to_string(),
            personality: "kind".to_string(),
            post_history_instructions: None,
            scenario: String::new(),
            system_prompt: system_prompt.to_string(),
            tags: vec!["t1".to_string()],
        },
    }
}

#[test]
fn card_maps_to_character() {
    let info = card("Be brief.").into_information("data:image/webp;base64,AAAA".to_string());
    assert_eq!(info.name, "Ann");
    assert_eq!(info.description, "desc");
    assert_eq!(info.personality, "kind");
    assert_eq!(info.first_messages, vec!["hello".to_string(), "hey".to_string(), "yo".to_string()]);
    assert_eq!(info.tags, vec!["t1".to_string()]);
    assert_eq!(info.system_prompt, "Be brief.");
    assert_eq!(info.avatar.as_deref(), Some("a.png"));
    assert_eq!(info.image_base64.as_deref(), Some("data:image/webp;base64,AAAA"));
}

#[test]
fn blank_system_prompt_gets_default() {
    let info = card(" \t\n\u{3000}").into_information(String::new());
    assert_eq!(info.system_prompt, "Write {{char}}'s next reply in a fictional chat between {{char}} and {{user}}.");
    assert_eq!(info.system_prompt, default_system_prompt());
    let empty = card("").into_information(String::new());
    assert_eq!(empty.system_prompt, default_system_prompt());
}

#[test]
fn blank_text_matches_trim() {
    for s in ["", " ", "\u{a0}\u{2003}\r\n", " x ", "\u{200b}", "\u{85}\u{1680}\u{205f}"] {
        assert_eq!(is_blank_text(s), s.trim().is_empty(), "{:?}", s);
    }
}

#[test]
fn hub_character_maps_to_character() {
    let node = ChubAiChracterNode {
        topics: vec!["fantasy".to_string()],
        definition: ChubAiDefinition {
            avatar: "https://img/x.png".to_string(),
            name: "Bo".to_string(),
            first_message: "hi".to_string(),
            alternate_greetings: vec!["hello".to_string()],
            system_prompt: "  ".to_string(),
            ..Default::default()
        },
        ..Default::default()
    };
    let info = node.into_information("QUJD".to_string());
    assert_eq!(info.name, "Bo");
    assert_eq!(info.first_messages, vec!["hi".to_string(), "hello".to_string()]);
    assert_eq!(info.tags, vec!["fantasy".to_string()]);
    assert_eq!(info.avatar.as_deref(), Some("https://img/x.png"));
    assert_eq!(info.system_prompt, default_system_prompt());
    assert_eq!(info.image_base64.as_deref(), Some("QUJD"));
}

#[test]
fn sync_error_response_is_json() {
    let r = Error("db \"down\"".to_string()).into_response();
    assert_eq!(r.status, 500);
    assert_eq!(r.content_type, "application/json");
    assert_eq!(r.body, "{\"error\":\"db \\\"down\\\"\"}");
}

#[test]
fn hf_cache_file_is_recognized() {
    let path = "/home/u/.cache/huggingface/hub/models--bartowski--Meta-Llama-3.1-8B-Instruct-GGUF/snapshots/abc/Meta-Llama-3.1-8B-Instruct-Q4_K_M.gguf";
    assert_eq!(
        find_models_path_segment(path).as_deref(),
        Some("models--bartowski--Meta-Llama-3.1-8B-Instruct-GGUF")
    );
    let info = huggingface_model_info(path.to_string()).unwrap();
    assert_eq!(info.user, "bartowski");
    assert_eq!(info.name, "Meta-Llama-3.1-8B-Instruct-GGUF");
    assert_eq!(info.path, path);
}

#[test]
fn hf_cache_other_files_are_skipped() {
    assert!(huggingface_model_info("/c/models--a--b/snapshots/x/config.json".to_string()).is_none());
    assert!(huggingface_model_info("/c/plain/x.gguf".to_string()).is_none());
    assert!(huggingface_model_info("/c/models--single/x.gguf".to_string()).is_none());
    assert_eq!(find_models_path_segment("/a/b/c"), None);
}

#[test]
fn lm_studio_file_is_recognized() {
    let info = lm_studio_model_info("/home/u/.lmstudio/models/lmstudio-community/Qwen3-8B-GGUF/q.gguf".to_string()).unwrap();
    assert_eq!(info.user, "lmstudio-community");
    assert_eq!(info.name, "Qwen3-8B-GGUF");
    assert!(lm_studio_model_info("/home/u/.lmstudio/models/a/b/readme.md".to_string()).is_none());
    assert!(lm_studio_model_info("x.gguf".to_string()).is_none());
}

#[test]
fn models_segment_is_first_matching_component() {
    let parts = vec![Some("home".to_string()), None, Some("models".to_string()), Some("models--a--b".to_string()), Some("models--c--d".to_string())];
    assert_eq!(models_segment_in(&parts).as_deref(), Some("models--a--b"));
    assert_eq!(models_segment_in(&vec![None, Some("model--x".to_string())]), None);
    assert_eq!(models_segment_in(&vec![]), None);
}

#[test]
fn owner_and_name_from_groups() {
    let groups = vec![Some("models--a--b".to_string()), Some("a".to_string()), Some("b".to_string())];
    assert_eq!(owner_and_name(&groups), Some(("a".to_string(), "b".to_string())));
    assert_eq!(owner_and_name(&vec![Some("x".to_string()), None, Some("b".to_string())]), None);
    assert_eq!(owner_and_name(&vec![Some("x".to_string()), Some("a".to_string())]), None);
}

#[test]
fn error_body_wraps_encoded_text() {
    assert_eq!(error_body("\"x\""), "{\"error\":\"x\"}");
}

#[test]
fn sync_error_escapes_control_characters() {
    let r = Error("a\\b\u{1}\n\u{1f}é\u{7f}".to_string()).into_response();
    assert_eq!(r.body, "{\"error\":\"a\\\\b\\u0001\\n\\u001fé\u{7f}\"}");
}
