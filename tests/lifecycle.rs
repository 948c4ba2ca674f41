use obsidian_ai_agent::ids::{make_job_id, JobIdGenerator};
use obsidian_ai_agent::ingest::IngestError;
use obsidian_ai_agent::lifecycle::{build_note_markdown, normalize_job_id, plan_enqueue, EnqueueError};
use obsidian_ai_agent::models::{EnqueueIngestionRequest, JobAsset, JobDetails, JobSummary};
use obsidian_ai_agent::JobStatus;

#[test]
fn enqueue_without_files_creates_nothing() {
    let request = EnqueueIngestionRequest { file_paths: vec![], note_title: Some("x".to_string()) };
    let mut ids = JobIdGenerator::new();
    let err = plan_enqueue(&request, &mut ids, 5).unwrap_err();
    assert!(matches!(err, EnqueueError::Invalid(IngestError::EmptyBatch)));
    assert_eq!(err.message(), "at least one file path is required");
    let next = plan_enqueue(
        &EnqueueIngestionRequest { file_paths: vec!["a.mp3".to_string()], note_title: None },
        &mut ids,
        5,
    )
    .unwrap();
    assert_eq!(next.job_id, "job-5-0");
}

#[test]
fn enqueue_assigns_id_title_and_queued_status() {
    let request = EnqueueIngestionRequest {
        file_paths: vec!["a.mp3".to_string()],
        note_title: Some("  Morning  ".to_string()),
    };
    let mut ids = JobIdGenerator::starting_at(41);
    let job = plan_enqueue(&request, &mut ids, 1700000000123).unwrap();
    assert_eq!(job.job_id, "job-1700000000123-41");
    assert_eq!(job.title, "Morning");
    assert_eq!(job.status, JobStatus::Queued);
}

#[test]
fn enqueue_fails_when_ids_run_out() {
    let request = EnqueueIngestionRequest { file_paths: vec!["a.mp3".to_string()], note_title: None };
    let mut ids = JobIdGenerator::starting_at(u64::MAX);
    assert!(matches!(plan_enqueue(&request, &mut ids, 1), Err(EnqueueError::IdsExhausted)));
}

#[test]
fn job_ids_never_repeat() {
    let mut ids = JobIdGenerator::new();
    let a = ids.next_id(7).unwrap();
    let b = ids.next_id(7).unwrap();
    assert_eq!(a, "job-7-0");
    assert_eq!(b, "job-7-1");
    assert_ne!(make_job_id(1, 23), make_job_id(12, 3));
    assert_eq!(make_job_id(-1, 2), "job--1-2");
}

#[test]
fn job_id_lookup_is_trimmed() {
    assert_eq!(normalize_job_id("  job-1-0 ").unwrap(), "job-1-0");
    assert_eq!(normalize_job_id("   ").unwrap_err(), "get_job requires a non-empty job_id");
}

#[test]
fn note_markdown_lists_sources() {
    let job = JobDetails {
        job: JobSummary {
            id: "j".to_string(),
            title: "Trip".to_string(),
            status: "queued".to_string(),
            created_at: 1,
            updated_at: 1,
            asset_count: 1,
        },
        assets: vec![JobAsset {
            id: 1,
            job_id: "j".to_string(),
            original_path: "/in/a.mp3".to_string(),
            storage_path: "/s/a".to_string(),
            media_type: "audio".to_string(),
            mime_type: "audio/mpeg".to_string(),
            size_bytes: 1,
            sha256: String::new(),
        }],
    };
    let expected = "---\ntitle: \"[AI Capture] Trip\"\ntags: [ai-capture, obsidian-agent]\n---\n\n## Key Insights\n- Insights extraction scaffold is active.\n- Gemini integration module is initialized.\n- Obsidian write path is CLI-first with fallback.\n\n## Source Files\n- /in/a.mp3 (audio)\n";
    assert_eq!(build_note_markdown(&job), expected);
}
