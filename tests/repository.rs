use obsidian_ai_agent::ingest::prepared_asset;
use obsidian_ai_agent::lifecycle::plan_enqueue;
use obsidian_ai_agent::ids::JobIdGenerator;
use obsidian_ai_agent::models::{EnqueueIngestionRequest, JobAsset, JobRow, SettingsPayload};
use obsidian_ai_agent::repo::{
    count_assets, default_settings, find_job_with_assets, list_jobs, normalize_settings,
    plan_status_update, RepoError, StatusUpdate,
};

fn job(id: &str, status: &str, created: i64, updated: i64) -> JobRow {
    JobRow {
        id: id.to_string(),
        title: format!("title {id}"),
        status: status.to_string(),
        created_at: created,
        updated_at: updated,
    }
}

fn asset(id: i64, job_id: &str, path: &str) -> JobAsset {
    JobAsset {
        id,
        job_id: job_id.to_string(),
        original_path: path.to_string(),
        storage_path: format!("/store/{id}"),
        media_type: "audio".to_string(),
        mime_type: "audio/mpeg".to_string(),
        size_bytes: 10,
        sha256: "ab".repeat(32),
    }
}

#[test]
fn list_orders_by_recency_with_live_counts() {
    let jobs = vec![job("a", "queued", 1, 10), job("b", "failed", 2, 30), job("c", "completed", 3, 20)];
    let assets = vec![asset(1, "a", "/x"), asset(2, "b", "/y"), asset(3, "a", "/z")];
    let list = list_jobs(&jobs, &assets);
    let ids: Vec<&str> = list.iter().map(|s| s.id.as_str()).collect();
    assert_eq!(ids, vec!["b", "c", "a"]);
    let counts: Vec<i64> = list.iter().map(|s| s.asset_count).collect();
    assert_eq!(counts, vec![1, 0, 2]);
    assert_eq!(list[0].status, "failed");
    assert_eq!(list[2].title, "title a");
}

#[test]
fn list_of_empty_store_is_empty() {
    assert!(list_jobs(&[], &[]).is_empty());
}

#[test]
fn count_ignores_other_jobs() {
    let assets = vec![asset(1, "a", "/x"), asset(2, "ab", "/y")];
    assert_eq!(count_assets(&assets, "a"), 1);
    assert_eq!(count_assets(&assets, "z"), 0);
}

#[test]
fn find_unknown_job_is_absent() {
    let jobs = vec![job("a", "queued", 1, 1)];
    assert!(find_job_with_assets(&jobs, &[], "missing").is_none());
    assert!(find_job_with_assets(&[], &[], "a").is_none());
}

#[test]
fn find_returns_job_and_its_assets_in_order() {
    let jobs = vec![job("a", "queued", 1, 1), job("b", "queued", 2, 2)];
    let assets = vec![asset(1, "b", "/1"), asset(2, "a", "/2"), asset(3, "b", "/3")];
    let d = find_job_with_assets(&jobs, &assets, "b").unwrap();
    assert_eq!(d.job.id, "b");
    assert_eq!(d.job.asset_count, 2);
    let paths: Vec<&str> = d.assets.iter().map(|a| a.original_path.as_str()).collect();
    assert_eq!(paths, vec!["/1", "/3"]);
}

#[test]
fn status_update_on_missing_job_is_not_found() {
    assert_eq!(plan_status_update(None, "queued").unwrap(), StatusUpdate::NotFound);
}

#[test]
fn illegal_status_update_names_both_states() {
    let err = plan_status_update(Some("processing"), "queued").unwrap_err();
    assert!(matches!(err, RepoError::InvalidTransition { .. }));
    assert_eq!(err.message(), "invalid status transition: processing -> queued");
    assert_eq!(plan_status_update(Some("failed"), "queued").unwrap(), StatusUpdate::Apply);
}

#[test]
fn enqueue_list_and_transition_scenario() {
    let request = EnqueueIngestionRequest {
        file_paths: vec!["/in/a.mp3".to_string(), "/in/b.png".to_string()],
        note_title: None,
    };
    let mut ids = JobIdGenerator::new();
    let new_job = plan_enqueue(&request, &mut ids, 1000).unwrap();
    let prepared = vec![
        prepared_asset("/in/a.mp3".into(), "/s/1".into(), "audio".into(), "audio/mpeg".into(), 3, "aa".into()),
        prepared_asset("/in/b.png".into(), "/s/2".into(), "image".into(), "image/png".into(), 4, "bb".into()),
    ];
    let mut jobs = vec![JobRow {
        id: new_job.job_id.clone(),
        title: new_job.title.clone(),
        status: new_job.status.as_str().to_string(),
        created_at: 1000,
        updated_at: 1000,
    }];
    let assets: Vec<JobAsset> = prepared
        .iter()
        .enumerate()
        .map(|(i, p)| JobAsset {
            id: i as i64 + 1,
            job_id: new_job.job_id.clone(),
            original_path: p.original_path.clone(),
            storage_path: p.storage_path.clone(),
            media_type: p.media_type.clone(),
            mime_type: p.mime_type.clone(),
            size_bytes: p.size_bytes,
            sha256: p.sha256.clone(),
        })
        .collect();
    let list = list_jobs(&jobs, &assets);
    assert_eq!(list.len(), 1);
    assert_eq!(list[0].asset_count, 2);
    assert_eq!(list[0].status, "queued");
    assert_eq!(list[0].title, "Capture batch (2 files)");

    assert_eq!(plan_status_update(Some(&jobs[0].status), "processing").unwrap(), StatusUpdate::Apply);
    jobs[0].status = "processing".to_string();
    assert!(matches!(
        plan_status_update(Some(&jobs[0].status), "queued"),
        Err(RepoError::InvalidTransition { .. })
    ));
    assert_eq!(plan_status_update(Some(&jobs[0].status), "completed").unwrap(), StatusUpdate::Apply);
    jobs[0].status = "completed".to_string();
    assert!(matches!(
        plan_status_update(Some(&jobs[0].status), "queued"),
        Err(RepoError::InvalidTransition { .. })
    ));
}

#[test]
fn settings_are_trimmed_and_mode_checked() {
    let payload = SettingsPayload {
        vault_path: "  /vault ".to_string(),
        obsidian_cli_path: " obsidian".to_string(),
        gemini_model: "m ".to_string(),
        write_mode: " cli_only ".to_string(),
    };
    let s = normalize_settings(&payload).unwrap();
    assert_eq!(s.vault_path, "/vault");
    assert_eq!(s.obsidian_cli_path, "obsidian");
    assert_eq!(s.gemini_model, "m");
    assert_eq!(s.write_mode, "cli_only");
    let bad = SettingsPayload { write_mode: "sometimes".to_string(), ..payload };
    let err = normalize_settings(&bad).unwrap_err();
    assert_eq!(err.message(), "write_mode must be cli_only, filesystem_only, or cli_fallback");
}

#[test]
fn default_settings_are_seeded_values() {
    let s = default_settings();
    assert_eq!(s.vault_path, "");
    assert_eq!(s.obsidian_cli_path, "obsidian");
    assert_eq!(s.gemini_model, "gemini-2.5-flash");
    assert_eq!(s.write_mode, "cli_fallback");
}
