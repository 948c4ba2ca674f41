//! Records exchanged with callers and read from the store.

use vstd::prelude::*;

verus! {

/// What a caller hands in to start a job.
#[derive(Debug, Clone)]
pub struct EnqueueIngestionRequest {
    pub file_paths: Vec<String>,
    pub note_title: Option<String>,
}

#[derive(Debug, Clone)]
pub struct EnqueueIngestionResponse {
    pub job_id: String,
}

/// One row of the job table.
#[derive(Debug, Clone)]
pub struct JobRow {
    pub id: String,
    pub title: String,
    pub status: String,
    pub created_at: i64,
    pub updated_at: i64,
}

/// A job with the number of assets that reference it.
#[derive(Debug, Clone)]
pub struct JobSummary {
    pub id: String,
    pub title: String,
    pub status: String,
    pub created_at: i64,
    pub updated_at: i64,
    pub asset_count: i64,
}

/// One row of the asset table.
#[derive(Debug, Clone)]
pub struct JobAsset {
    pub id: i64,
    pub job_id: String,
    pub original_path: String,
    pub storage_path: String,
    pub media_type: String,
    pub mime_type: String,
    pub size_bytes: i64,
    pub sha256: String,
}

#[derive(Debug, Clone)]
pub struct JobDetails {
    pub job: JobSummary,
    pub assets: Vec<JobAsset>,
}

#[derive(Debug, Clone)]
pub struct UpdateJobResponse {
    pub ok: bool,
}

/// The single settings record.
#[derive(Debug, Clone)]
pub struct SettingsPayload {
    pub vault_path: String,
    pub obsidian_cli_path: String,
    pub gemini_model: String,
    pub write_mode: String,
}

#[derive(Debug, Clone)]
pub struct PreviewNoteResponse {
    pub markdown: String,
}

#[derive(Debug, Clone)]
pub struct PublishNoteResponse {
    pub note_path: String,
    pub method: String,
}

} // verus!
