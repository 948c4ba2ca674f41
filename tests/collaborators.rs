use obsidian_ai_agent::models::SettingsPayload;
use obsidian_ai_agent::publish::{
    after_cli, after_direct, cli_candidates, cli_failure_message, is_within, note_file_name,
    publish_note, resolve_vault_path, temp_note_name, PublishError, PublishStep, WriteMode,
};
use obsidian_ai_agent::secrets::{
    get_gemini_api_key_source, resolve_gemini_api_key, save_gemini_api_key, GeminiApiKeySource,
};
use obsidian_ai_agent::summary::{
    check_api_key, pick_summary_text, summary_prompt, summary_url, SummaryCandidate,
};

fn settings(vault: &str, mode: &str) -> SettingsPayload {
    SettingsPayload {
        vault_path: vault.to_string(),
        obsidian_cli_path: "obsidian".to_string(),
        gemini_model: "m".to_string(),
        write_mode: mode.to_string(),
    }
}

#[test]
fn key_source_names() {
    assert_eq!(GeminiApiKeySource::OsKeychain.as_str(), "os_keychain");
    assert_eq!(GeminiApiKeySource::Environment.as_str(), "environment");
    assert_eq!(GeminiApiKeySource::Missing.as_str(), "missing");
}

#[test]
fn key_resolution_prefers_store_then_environment() {
    let env = Some(" env-key ".to_string());
    assert_eq!(resolve_gemini_api_key(&Ok(Some(" k ".to_string())), &env).unwrap(), Some("k".to_string()));
    assert_eq!(resolve_gemini_api_key(&Ok(Some("  ".to_string())), &env).unwrap(), Some("env-key".to_string()));
    assert_eq!(resolve_gemini_api_key(&Ok(None), &Some(" ".to_string())).unwrap(), None);
    assert_eq!(resolve_gemini_api_key(&Err("locked".to_string()), &env).unwrap_err(), "locked");
    assert_eq!(get_gemini_api_key_source(&Ok(Some("k".to_string())), &env).unwrap(), GeminiApiKeySource::OsKeychain);
    assert_eq!(get_gemini_api_key_source(&Ok(None), &env).unwrap(), GeminiApiKeySource::Environment);
    assert_eq!(get_gemini_api_key_source(&Ok(None), &None).unwrap(), GeminiApiKeySource::Missing);
    assert!(get_gemini_api_key_source(&Err("e".to_string()), &env).is_err());
}

#[test]
fn saving_a_blank_key_is_refused() {
    assert_eq!(save_gemini_api_key("  abc ").unwrap(), "abc");
    assert_eq!(save_gemini_api_key(" \t").unwrap_err(), "Gemini API key cannot be empty");
}

#[test]
fn summary_request_parts() {
    assert_eq!(check_api_key(" ").unwrap_err(), "missing Gemini API key");
    assert!(check_api_key("k").is_ok());
    assert_eq!(
        summary_prompt(&["a.mp3".to_string(), "b.png".to_string()]),
        "Summarize this ingestion batch for an Obsidian note.\nReturn exactly 3 concise bullet points (Portuguese).\nSource files:\n- a.mp3\n- b.png"
    );
    assert_eq!(
        summary_url(" gemini-2.5-flash ", " KEY "),
        "https://generativelanguage.googleapis.com/v1beta/models/gemini-2.5-flash:generateContent?key=KEY"
    );
}

#[test]
fn summary_text_comes_from_last_candidate() {
    let cands = Some(vec![
        SummaryCandidate { parts: Some(vec![Some("first".to_string())]) },
        SummaryCandidate { parts: Some(vec![None, Some("  second \n".to_string()), Some("third".to_string())]) },
    ]);
    assert_eq!(pick_summary_text(&cands).unwrap(), "second");
    let none = Some(vec![SummaryCandidate { parts: Some(vec![None]) }]);
    assert_eq!(pick_summary_text(&none).unwrap_err(), "Gemini API response did not contain text output");
    assert!(pick_summary_text(&None).is_err());
    assert!(pick_summary_text(&Some(vec![])).is_err());
    assert!(pick_summary_text(&Some(vec![SummaryCandidate { parts: None }])).is_err());
}

#[test]
fn note_names_are_safe() {
    assert_eq!(note_file_name("  My trip: day/1  "), "My-trip_-day_1.md");
    assert_eq!(temp_note_name("a b", 42), "a-b.42.tmp");
    assert_eq!(note_file_name("../../etc"), ".._.._etc.md");
}

#[test]
fn vault_resolution() {
    assert_eq!(resolve_vault_path(" /v ", Some("/d".to_string())).unwrap(), "/v");
    assert_eq!(resolve_vault_path("  ", Some("/d".to_string())).unwrap(), "/d");
    let err = resolve_vault_path("", None).unwrap_err();
    assert!(matches!(err, PublishError::VaultNotFound));
    assert_eq!(err.message(), "could not detect obsidian vault path");
}

#[test]
fn cli_candidate_order() {
    assert_eq!(
        cli_candidates(" /opt/obs ", Some("/home/u/Obsidian.exe".to_string())),
        vec!["/opt/obs".to_string(), "obsidian".to_string(), "/home/u/Obsidian.exe".to_string()]
    );
    assert_eq!(cli_candidates("", None), vec!["obsidian".to_string()]);
    assert_eq!(
        cli_failure_message(&["a: no".to_string(), "b: gone".to_string()]),
        "failed to publish through Obsidian CLI candidates: a: no | b: gone"
    );
}

#[test]
fn containment_by_components() {
    let root = vec!["/".to_string(), "vault".to_string()];
    assert!(is_within(&root, &["/".to_string(), "vault".to_string(), "n.md".to_string()]));
    assert!(!is_within(&root, &["/".to_string(), "vault2".to_string()]));
    assert!(!is_within(&root, &["/".to_string()]));
}

#[test]
fn write_mode_dispatch() {
    assert_eq!(WriteMode::parse(" filesystem_only "), WriteMode::FilesystemOnly);
    assert_eq!(WriteMode::parse("cli_only"), WriteMode::CliOnly);
    assert_eq!(WriteMode::parse("cli_fallback"), WriteMode::CliFallback);
    assert_eq!(WriteMode::parse("other"), WriteMode::CliFallback);

    let plan = publish_note(&settings("/v", "filesystem_only"), None).unwrap();
    assert!(matches!(plan.first, PublishStep::WriteDirect));
    assert_eq!(plan.vault_path, "/v");
    let plan = publish_note(&settings("", "cli_only"), Some("/d".to_string())).unwrap();
    assert!(matches!(plan.first, PublishStep::RunCli));
    assert!(matches!(publish_note(&settings("", "cli_only"), None), Err(PublishError::VaultNotFound)));

    match after_cli(WriteMode::CliOnly, Ok("/v/AI Captures/n.md".to_string())) {
        PublishStep::Done(r) => assert_eq!((r.note_path.as_str(), r.method.as_str()), ("/v/AI Captures/n.md", "cli")),
        other => panic!("unexpected {:?}", other),
    }
    assert!(matches!(after_cli(WriteMode::CliOnly, Err("x".to_string())), PublishStep::Failed(PublishError::CliFailed(_))));
    assert!(matches!(after_cli(WriteMode::CliFallback, Err("x".to_string())), PublishStep::WriteDirect));
    match after_direct(WriteMode::CliFallback, Ok("/n.md".to_string())) {
        PublishStep::Done(r) => assert_eq!(r.method, "filesystem_fallback"),
        other => panic!("unexpected {:?}", other),
    }
    match after_direct(WriteMode::FilesystemOnly, Ok("/n.md".to_string())) {
        PublishStep::Done(r) => assert_eq!(r.method, "filesystem"),
        other => panic!("unexpected {:?}", other),
    }
    assert!(matches!(after_direct(WriteMode::FilesystemOnly, Err("disk".to_string())), PublishStep::Failed(PublishError::WriteFailed(_))));
}
