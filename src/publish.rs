//! Note publishing: vault choice, file naming and the write-mode steps.

use vstd::prelude::*;
use crate::models::{PublishNoteResponse, SettingsPayload};
use crate::text::{
    chars_of, owned, push_all, push_str, same_text, signed_decimal, signed_decimal_chars,
    string_of, trim, trim_chars, trimmed,
};

verus! {

/// How a note reaches the vault.
#[derive(Debug, Clone, Copy, PartialEq, Eq, Structural)]
pub enum WriteMode {
    /// Write the file directly.
    FilesystemOnly,
    /// Go through the external command-line tool only.
    CliOnly,
    /// Try the tool first and write directly if it fails.
    CliFallback,
}

pub open spec fn write_mode_of(s: Seq<char>) -> WriteMode {
    if trimmed(s) == "filesystem_only"@ {
        WriteMode::FilesystemOnly
    } else if trimmed(s) == "cli_only"@ {
        WriteMode::CliOnly
    } else {
        WriteMode::CliFallback
    }
}

impl WriteMode {
    /// The mode named by a setting, after trimming; any other value falls
    /// back to trying the tool first.
    pub fn parse(s: &str) -> (r: WriteMode)
        ensures
            r == write_mode_of(s@),
    {
        let t = string_of(&trim(s));
        if same_text(t.as_str(), "filesystem_only") {
            WriteMode::FilesystemOnly
        } else if same_text(t.as_str(), "cli_only") {
            WriteMode::CliOnly
        } else {
            WriteMode::CliFallback
        }
    }
}

/// Why a note could not be published.
#[derive(Debug, Clone)]
pub enum PublishError {
    VaultNotFound,
    CliFailed(String),
    WriteFailed(String),
}

impl PublishError {
    pub open spec fn spec_message(&self) -> Seq<char> {
        match self {
            PublishError::VaultNotFound => "could not detect obsidian vault path"@,
            PublishError::CliFailed(m) => m@,
            PublishError::WriteFailed(m) => m@,
        }
    }

    pub fn message(&self) -> (r: String)
        ensures
            r@ == self.spec_message(),
    {
        match self {
            PublishError::VaultNotFound => owned("could not detect obsidian vault path"),
            PublishError::CliFailed(m) => m.clone(),
            PublishError::WriteFailed(m) => m.clone(),
        }
    }
}

/// Characters kept in note names: ASCII letters and digits, `-`, `_`, space
/// and `.`; every other character becomes `_`.
pub open spec fn note_char(c: char) -> char {
    if ('a' <= c <= 'z') || ('A' <= c <= 'Z') || ('0' <= c <= '9') || c == '-' || c == '_' || c
        == ' ' || c == '.' {
        c
    } else {
        '_'
    }
}

/// A note's base name: unsafe characters replaced, white space trimmed, and
/// the remaining spaces turned into `-`.
pub open spec fn note_stem(title: Seq<char>) -> Seq<char> {
    let kept = trimmed(Seq::new(title.len(), |i: int| note_char(title[i])));
    Seq::new(kept.len(), |i: int| if kept[i] == ' ' { '-' } else { kept[i] })
}

pub fn note_stem_chars(title: &str) -> (r: Vec<char>)
    ensures
        r@ == note_stem(title@),
{
    let cs = chars_of(title);
    let mut kept: Vec<char> = Vec::new();
    let mut i: usize = 0;
    while i < cs.len()
        invariant
            i <= cs.len(),
            cs@ == title@,
            kept@ =~= Seq::new(title@.len(), |k: int| note_char(title@[k])).take(i as int),
        decreases cs.len() - i,
    {
        let c = cs[i];
        let keep = ('a' <= c && c <= 'z') || ('A' <= c && c <= 'Z') || ('0' <= c && c <= '9') || c
            == '-' || c == '_' || c == ' ' || c == '.';
        if keep {
            kept.push(c);
        } else {
            kept.push('_');
        }
        i = i + 1;
    }
    assert(kept@ =~= Seq::new(title@.len(), |k: int| note_char(title@[k])));
    let t = trim_chars(&kept);
    let mut out: Vec<char> = Vec::new();
    let mut j: usize = 0;
    while j < t.len()
        invariant
            j <= t.len(),
            out@ =~= Seq::new(t@.len(), |k: int| if t@[k] == ' ' { '-' } else { t@[k] }).take(
                j as int,
            ),
        decreases t.len() - j,
    {
        if t[j] == ' ' {
            out.push('-');
        } else {
            out.push(t[j]);
        }
        j = j + 1;
    }
    out
}

/// The note's file name: its base name with `.md`.
pub fn note_file_name(title: &str) -> (r: String)
    ensures
        r@ == note_stem(title@) + ".md"@,
{
    let mut s = string_of(&note_stem_chars(title));
    push_str(&mut s, ".md");
    s
}

/// The temporary file that a direct write fills before renaming it.
pub fn temp_note_name(title: &str, now: i64) -> (r: String)
    ensures
        r@ == note_stem(title@) + "."@ + signed_decimal(now as int) + ".tmp"@,
{
    let mut s = string_of(&note_stem_chars(title));
    push_str(&mut s, ".");
    push_all(&mut s, &signed_decimal_chars(now));
    push_str(&mut s, ".tmp");
    s
}

/// The vault to publish into: the configured path, trimmed, unless it is
/// blank; then the vault detected from the note app's own configuration.
pub fn resolve_vault_path(configured: &str, detected: Option<String>) -> (r: Result<
    String,
    PublishError,
>)
    ensures
        trimmed(configured@).len() > 0 ==> (r matches Ok(v) && v@ == trimmed(configured@)),
        trimmed(configured@).len() == 0 ==> match detected {
            Some(d) => (r matches Ok(v) && v@ == d@),
            None => (r matches Err(e) && e is VaultNotFound),
        },
{
    let t = trim(configured);
    if t.len() > 0 {
        return Ok(string_of(&t));
    }
    match detected {
        Some(d) => Ok(d),
        None => Err(PublishError::VaultNotFound),
    }
}

/// The command-line tools to try, in order: the configured one when set,
/// the one on the search path, then the per-user install when known.
pub fn cli_candidates(cli_path: &str, local_install: Option<String>) -> (r: Vec<String>)
    ensures
        r@.len() == (if trimmed(cli_path@).len() > 0 { 1int } else { 0int }) + 1 + (
        if local_install is Some { 1int } else { 0int }),
        trimmed(cli_path@).len() > 0 ==> r@[0]@ == trimmed(cli_path@),
        r@[if trimmed(cli_path@).len() > 0 { 1int } else { 0int }]@ == "obsidian"@,
        local_install matches Some(p) ==> r@.last() == p,
{
    let mut v: Vec<String> = Vec::new();
    let t = trim(cli_path);
    if t.len() > 0 {
        v.push(string_of(&t));
    }
    v.push(owned("obsidian"));
    if let Some(p) = local_install {
        v.push(p);
    }
    v
}

/// Failure messages of the tools, separated by ` | `.
pub open spec fn joined(errors: Seq<String>) -> Seq<char>
    decreases errors.len(),
{
    if errors.len() == 0 {
        Seq::empty()
    } else if errors.len() == 1 {
        errors[0]@
    } else {
        joined(errors.drop_last()) + " | "@ + errors.last()@
    }
}

/// The error reported when every tool failed.
pub fn cli_failure_message(errors: &[String]) -> (r: String)
    ensures
        r@ == "failed to publish through Obsidian CLI candidates: "@ + joined(errors@),
{
    let mut s = owned("failed to publish through Obsidian CLI candidates: ");
    let ghost head = s@;
    let mut i: usize = 0;
    while i < errors.len()
        invariant
            i <= errors.len(),
            head == "failed to publish through Obsidian CLI candidates: "@,
            s@ == head + joined(errors@.take(i as int)),
        decreases errors.len() - i,
    {
        if i > 0 {
            push_str(&mut s, " | ");
        }
        push_str(&mut s, errors[i].as_str());
        assert(errors@.take(i + 1).drop_last() =~= errors@.take(i as int));
        i = i + 1;
        assert(s@ =~= head + joined(errors@.take(i as int)));
    }
    assert(errors@.take(i as int) =~= errors@);
    s
}

/// Whether a path, given as its components, lies inside a root: the root's
/// components are a prefix of the path's.
pub fn is_within(root: &[String], path: &[String]) -> (r: bool)
    ensures
        r == (root@.len() <= path@.len() && forall|i: int|
            0 <= i < root@.len() ==> path@[i]@ == root@[i]@),
{
    if root.len() > path.len() {
        return false;
    }
    let mut i: usize = 0;
    while i < root.len()
        invariant
            i <= root.len() <= path.len(),
            forall|k: int| 0 <= k < i ==> path@[k]@ == root@[k]@,
        decreases root.len() - i,
    {
        if !same_text(path[i].as_str(), root[i].as_str()) {
            return false;
        }
        i = i + 1;
    }
    true
}

/// What the publisher does next.
#[derive(Debug, Clone)]
pub enum PublishStep {
    /// Run the command-line tools in turn until one succeeds.
    RunCli,
    /// Write the note into the vault atomically: temporary file, flush, rename.
    WriteDirect,
    /// Published.
    Done(PublishNoteResponse),
    /// Gave up.
    Failed(PublishError),
}

/// Where publishing starts: the vault and the mode, and the first step.
#[derive(Debug, Clone)]
pub struct PublishPlan {
    pub vault_path: String,
    pub mode: WriteMode,
    pub first: PublishStep,
}

/// Starts publishing a note under the given settings; `detected_vault` is
/// the vault found in the note app's configuration, if any. Writing directly
/// comes first in `filesystem_only` mode, the tools otherwise.
pub fn publish_note(settings: &SettingsPayload, detected_vault: Option<String>) -> (r: Result<
    PublishPlan,
    PublishError,
>)
    ensures
        r is Err <==> trimmed(settings.vault_path@).len() == 0 && detected_vault is None,
        r matches Err(e) ==> e is VaultNotFound,
        r matches Ok(p) ==> {
            &&& p.mode == write_mode_of(settings.write_mode@)
            &&& trimmed(settings.vault_path@).len() > 0 ==> p.vault_path@ == trimmed(
                settings.vault_path@,
            )
            &&& trimmed(settings.vault_path@).len() == 0 ==> (detected_vault matches Some(d)
                && p.vault_path@ == d@)
            &&& (p.mode == WriteMode::FilesystemOnly ==> p.first is WriteDirect)
            &&& (p.mode != WriteMode::FilesystemOnly ==> p.first is RunCli)
        },
{
    let vault_path = resolve_vault_path(settings.vault_path.as_str(), detected_vault)?;
    let mode = WriteMode::parse(settings.write_mode.as_str());
    let first = match mode {
        WriteMode::FilesystemOnly => PublishStep::WriteDirect,
        _ => PublishStep::RunCli,
    };
    Ok(PublishPlan { vault_path, mode, first })
}

/// The step after the tools ran: `Ok` holds the note's path, `Err` what went
/// wrong. Success ends with method `cli`; a failure ends publishing unless
/// the mode falls back to a direct write.
pub fn after_cli(mode: WriteMode, outcome: Result<String, String>) -> (r: PublishStep)
    ensures
        outcome matches Ok(path) ==> (r matches PublishStep::Done(resp) && resp.note_path == path
            && resp.method@ == "cli"@),
        outcome matches Err(e) ==> if mode == WriteMode::CliFallback {
            r is WriteDirect
        } else {
            (r matches PublishStep::Failed(PublishError::CliFailed(m)) && m == e)
        },
{
    match outcome {
        Ok(note_path) => PublishStep::Done(
            PublishNoteResponse { note_path, method: owned("cli") },
        ),
        Err(e) => match mode {
            WriteMode::CliFallback => PublishStep::WriteDirect,
            _ => PublishStep::Failed(PublishError::CliFailed(e)),
        },
    }
}

/// The step after a direct write: `Ok` holds the written note's path. The
/// method is `filesystem_fallback` when the tools were tried first.
pub fn after_direct(mode: WriteMode, outcome: Result<String, String>) -> (r: PublishStep)
    ensures
        outcome matches Ok(path) ==> (r matches PublishStep::Done(resp) && resp.note_path == path
            && resp.method@ == if mode == WriteMode::CliFallback {
            "filesystem_fallback"@
        } else {
            "filesystem"@
        }),
        outcome matches Err(e) ==> (r matches PublishStep::Failed(PublishError::WriteFailed(m))
            && m == e),
{
    match outcome {
        Ok(note_path) => {
            let method = match mode {
                WriteMode::CliFallback => owned("filesystem_fallback"),
                _ => owned("filesystem"),
            };
            PublishStep::Done(PublishNoteResponse { note_path, method })
        },
        Err(e) => PublishStep::Failed(PublishError::WriteFailed(e)),
    }
}

} // verus!
