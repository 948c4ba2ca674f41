//! Ingestion core of a media-capture assistant: validation and fingerprinting
//! of incoming files, the job lifecycle state machine, and the decisions that
//! the transactional metadata store relies on.

pub mod fingerprint;
pub mod ids;
pub mod ingest;
pub mod lifecycle;
pub mod media;
pub mod migrate;
pub mod models;
pub mod publish;
pub mod repo;
pub mod secrets;
pub mod status;
pub mod summary;
pub mod text;

pub use ingest::{build_job_title, PreparedAsset};
pub use media::infer_media_type;
pub use models::{
    EnqueueIngestionRequest, EnqueueIngestionResponse, JobAsset, JobDetails, JobSummary,
    PreviewNoteResponse, PublishNoteResponse, SettingsPayload, UpdateJobResponse,
};
pub use status::{can_transition, JobStatus};
