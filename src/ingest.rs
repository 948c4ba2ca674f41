//! Per-file validation of an incoming batch, storage naming and the job title.

use vstd::prelude::*;
use chrono::Datelike;
use crate::media::{
    detect_mime, detected_mime, infer_media_type, media_type_of, mime_fits,
    mime_matches_media_type, sanitize_file_name, sanitized, MAX_FILE_BYTES,
};
use crate::text::{
    decimal, decimal_chars, owned, push_all, push_str, same_text, signed_decimal,
    signed_decimal_chars, string_of, trim, trimmed,
};

verus! {

/// One input file after validation, fingerprinting and relocation into the
/// content store.
#[derive(Debug, Clone)]
pub struct PreparedAsset {
    pub original_path: String,
    pub storage_path: String,
    pub media_type: String,
    pub mime_type: String,
    pub size_bytes: i64,
    pub sha256: String,
}

/// Why a batch was refused before anything was persisted.
#[derive(Debug, Clone)]
pub enum IngestError {
    EmptyBatch,
    NotAFile { path: String },
    TooLarge { path: String },
    UnsupportedMedia { path: String },
    MimeMismatch { path: String, mime: String },
}

impl IngestError {
    pub open spec fn spec_message(&self) -> Seq<char> {
        match self {
            IngestError::EmptyBatch => "at least one file path is required"@,
            IngestError::NotAFile { path } => "path is not a file: "@ + path@,
            IngestError::TooLarge { path } => "file exceeds 2GB limit: "@ + path@,
            IngestError::UnsupportedMedia { path } => "unsupported media type for file: "@ + path@,
            IngestError::MimeMismatch { path, mime } => "file extension/media mismatch for '"@
                + path@ + "' (detected mime: "@ + mime@ + ")"@,
        }
    }

    /// A readable description naming the offending path.
    pub fn message(&self) -> (r: String)
        ensures
            r@ == self.spec_message(),
    {
        match self {
            IngestError::EmptyBatch => owned("at least one file path is required"),
            IngestError::NotAFile { path } => {
                let mut s = owned("path is not a file: ");
                push_str(&mut s, path.as_str());
                s
            },
            IngestError::TooLarge { path } => {
                let mut s = owned("file exceeds 2GB limit: ");
                push_str(&mut s, path.as_str());
                s
            },
            IngestError::UnsupportedMedia { path } => {
                let mut s = owned("unsupported media type for file: ");
                push_str(&mut s, path.as_str());
                s
            },
            IngestError::MimeMismatch { path, mime } => {
                let mut s = owned("file extension/media mismatch for '");
                push_str(&mut s, path.as_str());
                push_str(&mut s, "' (detected mime: ");
                push_str(&mut s, mime.as_str());
                push_str(&mut s, ")");
                s
            },
        }
    }
}

/// Validates a resolved source file from its metadata; on success gives its
/// media category.
pub fn check_source(input_path: &str, is_file: bool, size_bytes: u64) -> (r: Result<
    &'static str,
    IngestError,
>)
    ensures
        r matches Ok(m) ==> is_file && size_bytes <= MAX_FILE_BYTES && m@ == media_type_of(
            input_path@,
        ) && m@ != "unknown"@,
        r matches Err(e) ==> match e {
            IngestError::NotAFile { path } => !is_file && path@ == input_path@,
            IngestError::TooLarge { path } => is_file && size_bytes > MAX_FILE_BYTES && path@
                == input_path@,
            IngestError::UnsupportedMedia { path } => is_file && size_bytes <= MAX_FILE_BYTES
                && media_type_of(input_path@) == "unknown"@ && path@ == input_path@,
            _ => false,
        },
{
    if !is_file {
        return Err(IngestError::NotAFile { path: owned(input_path) });
    }
    if size_bytes > MAX_FILE_BYTES {
        return Err(IngestError::TooLarge { path: owned(input_path) });
    }
    let media_type = infer_media_type(input_path);
    if same_text(media_type, "unknown") {
        return Err(IngestError::UnsupportedMedia { path: owned(input_path) });
    }
    Ok(media_type)
}

/// Cross-checks a file's first bytes against its category; on success gives
/// the detected MIME type.
pub fn check_content(input_path: &str, media_type: &str, header: &[u8]) -> (r: Result<
    String,
    IngestError,
>)
    ensures
        r matches Ok(m) ==> m@ == detected_mime(header@) && mime_fits(media_type@, m@),
        r matches Err(e) ==> e matches IngestError::MimeMismatch { path, mime } && path@
            == input_path@ && mime@ == detected_mime(header@) && !mime_fits(
            media_type@,
            detected_mime(header@),
        ),
{
    let mime_type = detect_mime(header);
    if !mime_matches_media_type(media_type, mime_type.as_str()) {
        return Err(IngestError::MimeMismatch { path: owned(input_path), mime: mime_type });
    }
    Ok(mime_type)
}

/// The name under which a file is stored: batch timestamp, position in the
/// batch and the sanitised original name, joined by `-`.
pub open spec fn storage_name(now: int, index: nat, original_name: Seq<char>) -> Seq<char> {
    signed_decimal(now) + seq!['-'] + decimal(index) + seq!['-'] + sanitized(original_name)
}

pub fn storage_file_name(now: i64, index: usize, original_name: &str) -> (r: String)
    ensures
        r@ == storage_name(now as int, index as nat, original_name@),
{
    let mut s = string_of(&signed_decimal_chars(now));
    push_str(&mut s, "-");
    push_all(&mut s, &decimal_chars(index as u64));
    push_str(&mut s, "-");
    let safe = sanitize_file_name(original_name);
    push_str(&mut s, safe.as_str());
    proof {
        reveal_strlit("-");
    }
    s
}

/// A digit string padded on the left with zeros to at least `width` digits.
pub open spec fn zero_pad(s: Seq<char>, width: nat) -> Seq<char> {
    if s.len() < width {
        Seq::new((width - s.len()) as nat, |i: int| '0') + s
    } else {
        s
    }
}

fn zero_padded(digits: Vec<char>, width: usize) -> (r: Vec<char>)
    ensures
        r@ == zero_pad(digits@, width as nat),
{
    if digits.len() >= width {
        return digits;
    }
    let fill = width - digits.len();
    let mut out: Vec<char> = Vec::new();
    let mut i: usize = 0;
    while i < fill
        invariant
            i <= fill,
            out@ =~= Seq::new(i as nat, |k: int| '0'),
        decreases fill - i,
    {
        out.push('0');
        i = i + 1;
    }
    let mut j: usize = 0;
    while j < digits.len()
        invariant
            j <= digits.len(),
            out@ =~= Seq::new(fill as nat, |k: int| '0') + digits@.take(j as int),
        decreases digits.len() - j,
    {
        out.push(digits[j]);
        j = j + 1;
    }
    assert(digits@.take(j as int) =~= digits@);
    out
}

/// Year directory name as chrono's `%Y` writes it: four digits, zero padded,
/// with a sign for years before 0 or after 9999.
pub open spec fn year_name(year: int) -> Seq<char> {
    let digits = zero_pad(decimal((if year < 0 { -year } else { year }) as nat), 4);
    if year < 0 {
        seq!['-'] + digits
    } else if year > 9999 {
        seq!['+'] + digits
    } else {
        digits
    }
}

/// Month directory name as chrono's `%m` writes it: two digits, zero padded.
pub open spec fn month_name(month: int) -> Seq<char> {
    zero_pad(decimal(month as nat), 2)
}

/// The two directory names under which a batch is stored: its year and month.
pub fn month_partition(year: i32, month: u32) -> (r: (String, String))
    ensures
        r.0@ == year_name(year as int),
        r.1@ == month_name(month as int),
{
    let magnitude: u64 = if year < 0 {
        (-(year as i64)) as u64
    } else {
        year as u64
    };
    let digits = zero_padded(decimal_chars(magnitude), 4);
    let mut y = String::new();
    if year < 0 {
        push_str(&mut y, "-");
    } else if year > 9999 {
        push_str(&mut y, "+");
    }
    push_all(&mut y, &digits);
    proof {
        reveal_strlit("-");
        reveal_strlit("+");
        assert(y@ =~= year_name(year as int));
    }
    let m = string_of(&zero_padded(decimal_chars(month as u64), 2));
    (y, m)
}

/// Calendar year and month (1 to 12) in UTC of an instant given in
/// milliseconds since the Unix epoch, if chrono can represent it.
pub uninterp spec fn utc_year_month(millis: int) -> Option<(int, int)>;

/// Relies on `DateTime::from_timestamp_millis` (chrono), which gives `None`
/// for an instant out of its range, and on `Datelike::year` / `month`, the
/// latter ranging from 1 to 12.
#[verifier::external_body]
fn year_month_of_millis(millis: i64) -> (r: Option<(i32, u32)>)
    ensures
        r matches Some(p) ==> utc_year_month(millis as int) == Some((p.0 as int, p.1 as int))
            && 1 <= p.1 <= 12,
        r is None ==> utc_year_month(millis as int) is None,
{
    match chrono::DateTime::from_timestamp_millis(millis) {
        Some(t) => Some((t.year(), t.month())),
        None => None,
    }
}

/// The year and month directories for a batch stamped `now` (milliseconds
/// since the epoch), or `None` when the instant is out of the calendar's range.
pub fn batch_partition(now: i64) -> (r: Option<(String, String)>)
    ensures
        r matches Some(p) ==> utc_year_month(now as int) matches Some(ym) && p.0@ == year_name(
            ym.0,
        ) && p.1@ == month_name(ym.1),
        r is None ==> utc_year_month(now as int) is None,
{
    match year_month_of_millis(now) {
        Some((y, m)) => Some(month_partition(y, m)),
        None => None,
    }
}

/// Record of a prepared file; its size is within the cap.
pub fn prepared_asset(
    original_path: String,
    storage_path: String,
    media_type: String,
    mime_type: String,
    size_bytes: u64,
    sha256: String,
) -> (r: PreparedAsset)
    requires
        size_bytes <= MAX_FILE_BYTES,
    ensures
        r.original_path == original_path,
        r.storage_path == storage_path,
        r.media_type == media_type,
        r.mime_type == mime_type,
        r.size_bytes == size_bytes,
        r.sha256 == sha256,
{
    PreparedAsset {
        original_path,
        storage_path,
        media_type,
        mime_type,
        size_bytes: size_bytes as i64,
        sha256,
    }
}

/// Progress through a batch: the files are prepared one by one, in order,
/// and the batch yields assets only once every file has one.
pub struct BatchProgress {
    total: usize,
    done: Vec<PreparedAsset>,
}

impl BatchProgress {
    /// Number of files in the batch.
    pub closed spec fn total(&self) -> nat {
        self.total as nat
    }

    /// The assets prepared so far, in file order.
    pub closed spec fn prepared(&self) -> Seq<PreparedAsset> {
        self.done@
    }

    pub closed spec fn wf(&self) -> bool {
        self.done@.len() <= self.total
    }

    /// Starts a batch; an empty one is refused.
    pub fn start(file_paths: &[String]) -> (r: Result<BatchProgress, IngestError>)
        ensures
            r is Ok <==> file_paths@.len() > 0,
            r matches Ok(b) ==> b.wf() && b.total() == file_paths@.len() && b.prepared()
                == Seq::<PreparedAsset>::empty(),
            r matches Err(e) ==> e is EmptyBatch,
    {
        if file_paths.len() == 0 {
            return Err(IngestError::EmptyBatch);
        }
        Ok(BatchProgress { total: file_paths.len(), done: Vec::new() })
    }

    /// The position of the next file to prepare, or `None` when all are done.
    pub fn next_index(&self) -> (r: Option<usize>)
        requires
            self.wf(),
        ensures
            self.prepared().len() < self.total() ==> r == Some(self.prepared().len() as usize),
            self.prepared().len() == self.total() ==> r is None,
    {
        if self.done.len() < self.total {
            Some(self.done.len())
        } else {
            None
        }
    }

    /// Records the asset prepared for the next file.
    pub fn record(&mut self, asset: PreparedAsset)
        requires
            old(self).wf(),
            old(self).prepared().len() < old(self).total(),
        ensures
            final(self).wf(),
            final(self).total() == old(self).total(),
            final(self).prepared() == old(self).prepared().push(asset),
    {
        self.done.push(asset);
    }

    /// The batch's assets, one per file in file order, or `None` while a file
    /// is still missing: there is no partial result.
    pub fn finish(self) -> (r: Option<Vec<PreparedAsset>>)
        requires
            self.wf(),
        ensures
            r is Some <==> self.prepared().len() == self.total(),
            r matches Some(v) ==> v@ == self.prepared(),
    {
        if self.done.len() == self.total {
            Some(self.done)
        } else {
            None
        }
    }

    /// Gives up on the batch: the assets already copied, all of which are
    /// to be removed again.
    pub fn abort(self) -> (r: Vec<PreparedAsset>)
        ensures
            r@ == self.prepared(),
    {
        self.done
    }
}

/// The title given to a job: the supplied title, trimmed, when it is not
/// blank; otherwise one that counts the files.
pub open spec fn job_title(optional_title: Option<Seq<char>>, file_count: nat) -> Seq<char> {
    match optional_title {
        Some(t) if trimmed(t).len() > 0 => trimmed(t),
        _ => "Capture batch ("@ + decimal(file_count) + " files)"@,
    }
}

pub fn build_job_title(optional_title: Option<&str>, file_count: usize) -> (r: String)
    ensures
        r@ == job_title(
            match optional_title {
                Some(t) => Some(t@),
                None => None,
            },
            file_count as nat,
        ),
{
    if let Some(title) = optional_title {
        let t = trim(title);
        if t.len() > 0 {
            return string_of(&t);
        }
    }
    let mut s = owned("Capture batch (");
    push_all(&mut s, &decimal_chars(file_count as u64));
    push_str(&mut s, " files)");
    s
}

} // verus!
