//! The enqueue decision and the note rendered for a job.

use vstd::prelude::*;
use crate::ids::{job_id_text, JobIdGenerator};
use crate::ingest::{build_job_title, job_title, IngestError};
use crate::models::{EnqueueIngestionRequest, JobAsset, JobDetails};
use crate::status::JobStatus;
use crate::text::{owned, push_str, string_of, trim, trimmed};

verus! {

/// The job row that an accepted enqueue request creates.
#[derive(Debug, Clone)]
pub struct NewJob {
    pub job_id: String,
    pub title: String,
    pub status: JobStatus,
}

/// Why an enqueue request was refused before any file was touched.
#[derive(Debug, Clone)]
pub enum EnqueueError {
    Invalid(IngestError),
    IdsExhausted,
}

impl EnqueueError {
    pub open spec fn spec_message(&self) -> Seq<char> {
        match self {
            EnqueueError::Invalid(e) => e.spec_message(),
            EnqueueError::IdsExhausted => "no job ids are left in this process"@,
        }
    }

    pub fn message(&self) -> (r: String)
        ensures
            r@ == self.spec_message(),
    {
        match self {
            EnqueueError::Invalid(e) => e.message(),
            EnqueueError::IdsExhausted => owned("no job ids are left in this process"),
        }
    }
}

/// Accepts or refuses an enqueue request. An empty file list is refused and
/// nothing is created; otherwise the job gets the generator's next id, the
/// title from `build_job_title` and the status `queued`.
pub fn plan_enqueue(request: &EnqueueIngestionRequest, ids: &mut JobIdGenerator, now: i64) -> (r:
    Result<NewJob, EnqueueError>)
    ensures
        request.file_paths@.len() == 0 ==> (r matches Err(EnqueueError::Invalid(e))
            && e is EmptyBatch) && final(ids).next_sequence() == old(ids).next_sequence(),
        request.file_paths@.len() > 0 && old(ids).next_sequence() < u64::MAX ==> (r matches Ok(
            job,
        ) && job.job_id@ == job_id_text(now as int, old(ids).next_sequence())
            && job.title@ == job_title(
            match request.note_title {
                Some(t) => Some(t@),
                None => None,
            },
            request.file_paths@.len(),
        ) && job.status == JobStatus::Queued && final(ids).next_sequence() == old(
            ids,
        ).next_sequence() + 1),
        request.file_paths@.len() > 0 && old(ids).next_sequence() == u64::MAX ==> r matches Err(
            EnqueueError::IdsExhausted,
        ),
{
    if request.file_paths.len() == 0 {
        return Err(EnqueueError::Invalid(IngestError::EmptyBatch));
    }
    let job_id = match ids.next_id(now) {
        Some(id) => id,
        None => return Err(EnqueueError::IdsExhausted),
    };
    let title = match &request.note_title {
        Some(t) => build_job_title(Some(t.as_str()), request.file_paths.len()),
        None => build_job_title(None, request.file_paths.len()),
    };
    Ok(NewJob { job_id, title, status: JobStatus::Queued })
}

/// A job id as looked up: trimmed, and refused when blank.
pub fn normalize_job_id(job_id: &str) -> (r: Result<String, String>)
    ensures
        r is Ok <==> trimmed(job_id@).len() > 0,
        r matches Ok(id) ==> id@ == trimmed(job_id@),
        r matches Err(m) ==> m@ == "get_job requires a non-empty job_id"@,
{
    let t = trim(job_id);
    if t.len() == 0 {
        return Err(owned("get_job requires a non-empty job_id"));
    }
    Ok(string_of(&t))
}

/// Front matter and fixed sections of a job's note.
pub open spec fn note_header(title: Seq<char>) -> Seq<char> {
    "---\n"@ + "title: \"[AI Capture] "@ + title + "\"\n"@ + "tags: [ai-capture, obsidian-agent]\n"@
        + "---\n\n"@ + "## Key Insights\n"@ + "- Insights extraction scaffold is active.\n"@
        + "- Gemini integration module is initialized.\n"@
        + "- Obsidian write path is CLI-first with fallback.\n\n"@ + "## Source Files\n"@
}

/// One line per asset: its original path and media category.
pub open spec fn source_lines(assets: Seq<JobAsset>) -> Seq<char>
    decreases assets.len(),
{
    if assets.len() == 0 {
        Seq::empty()
    } else {
        source_lines(assets.drop_last()) + "- "@ + assets.last().original_path@ + " ("@
            + assets.last().media_type@ + ")\n"@
    }
}

pub open spec fn note_markdown(job: JobDetails) -> Seq<char> {
    note_header(job.job.title@) + source_lines(job.assets@)
}

/// The markdown note for a job: front matter with its title, the fixed
/// sections, and one line per source file.
pub fn build_note_markdown(job: &JobDetails) -> (r: String)
    ensures
        r@ == note_markdown(*job),
{
    let mut md = String::new();
    push_str(&mut md, "---\n");
    push_str(&mut md, "title: \"[AI Capture] ");
    push_str(&mut md, job.job.title.as_str());
    push_str(&mut md, "\"\n");
    push_str(&mut md, "tags: [ai-capture, obsidian-agent]\n");
    push_str(&mut md, "---\n\n");
    push_str(&mut md, "## Key Insights\n");
    push_str(&mut md, "- Insights extraction scaffold is active.\n");
    push_str(&mut md, "- Gemini integration module is initialized.\n");
    push_str(&mut md, "- Obsidian write path is CLI-first with fallback.\n\n");
    push_str(&mut md, "## Source Files\n");
    let ghost head = md@;
    let mut i: usize = 0;
    while i < job.assets.len()
        invariant
            i <= job.assets.len(),
            head == note_header(job.job.title@),
            md@ == head + source_lines(job.assets@.take(i as int)),
        decreases job.assets.len() - i,
    {
        let a = &job.assets[i];
        push_str(&mut md, "- ");
        push_str(&mut md, a.original_path.as_str());
        push_str(&mut md, " (");
        push_str(&mut md, a.media_type.as_str());
        push_str(&mut md, ")\n");
        assert(job.assets@.take(i + 1).drop_last() =~= job.assets@.take(i as int));
        i = i + 1;
        assert(md@ =~= head + source_lines(job.assets@.take(i as int)));
    }
    assert(job.assets@.take(i as int) =~= job.assets@);
    md
}

} // verus!
