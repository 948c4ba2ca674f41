//! Versioned schema changes and the ledger that makes applying them idempotent.

use vstd::prelude::*;

verus! {

/// One versioned schema change.
#[derive(Debug, Clone, Copy)]
pub struct Migration {
    pub version: i64,
    pub name: &'static str,
    pub sql: &'static str,
}

/// Session settings applied to every connection: foreign keys, write-ahead
/// journaling, relaxed sync and a bounded wait on a busy store.
pub const CONNECTION_PRAGMAS: &'static str = "
    PRAGMA foreign_keys = ON;
    PRAGMA journal_mode = WAL;
    PRAGMA synchronous = NORMAL;
    PRAGMA busy_timeout = 5000;
";

/// Creates the ledger of applied migrations if it is missing.
pub const LEDGER_TABLE_SQL: &'static str = "
    CREATE TABLE IF NOT EXISTS schema_migrations (
      version INTEGER PRIMARY KEY,
      name TEXT NOT NULL,
      applied_at INTEGER NOT NULL
    );
";

/// Asks whether a version is in the ledger.
pub const LEDGER_LOOKUP_SQL: &'static str = "SELECT version FROM schema_migrations WHERE version = ?1";

/// Records an applied migration in the ledger.
pub const LEDGER_RECORD_SQL: &'static str =
    "INSERT INTO schema_migrations (version, name, applied_at) VALUES (?1, ?2, ?3)";

/// Seeds the settings row if absent, never overwriting it.
pub const SEED_SETTINGS_SQL: &'static str = "
    INSERT OR IGNORE INTO settings (id, vault_path, obsidian_cli_path, gemini_model, write_mode)
    VALUES (1, '', 'obsidian', 'gemini-2.5-flash', 'cli_fallback')
";

/// The schema's migrations, oldest first.
pub fn migrations() -> (r: Vec<Migration>)
    ensures
        versions(r@) == seq![1i64, 2i64, 3i64],
{
    let mut v: Vec<Migration> = Vec::new();
    v.push(Migration {
        version: 1,
        name: "init_core_tables",
        sql: "
        CREATE TABLE IF NOT EXISTS ingestion_job (
          id TEXT PRIMARY KEY,
          title TEXT NOT NULL,
          status TEXT NOT NULL,
          created_at INTEGER NOT NULL,
          updated_at INTEGER NOT NULL
        );

        CREATE TABLE IF NOT EXISTS media_asset (
          id INTEGER PRIMARY KEY AUTOINCREMENT,
          job_id TEXT NOT NULL REFERENCES ingestion_job(id) ON DELETE CASCADE,
          original_path TEXT NOT NULL,
          storage_path TEXT NOT NULL DEFAULT '',
          media_type TEXT NOT NULL,
          mime_type TEXT NOT NULL DEFAULT 'application/octet-stream',
          size_bytes INTEGER NOT NULL DEFAULT 0,
          sha256 TEXT NOT NULL DEFAULT '',
          duration_ms INTEGER,
          created_at INTEGER NOT NULL
        );

        CREATE TABLE IF NOT EXISTS settings (
          id INTEGER PRIMARY KEY CHECK (id = 1),
          vault_path TEXT NOT NULL,
          obsidian_cli_path TEXT NOT NULL,
          gemini_model TEXT NOT NULL,
          write_mode TEXT NOT NULL
        );
      ",
    });
    v.push(Migration {
        version: 2,
        name: "add_traceability_tables",
        sql: "
        CREATE TABLE IF NOT EXISTS extraction_result (
          id INTEGER PRIMARY KEY AUTOINCREMENT,
          job_id TEXT NOT NULL REFERENCES ingestion_job(id) ON DELETE CASCADE,
          model TEXT NOT NULL,
          raw_output TEXT NOT NULL,
          normalized_output TEXT NOT NULL,
          confidence REAL,
          created_at INTEGER NOT NULL
        );

        CREATE TABLE IF NOT EXISTS keyword (
          id INTEGER PRIMARY KEY AUTOINCREMENT,
          value TEXT NOT NULL UNIQUE
        );

        CREATE TABLE IF NOT EXISTS extraction_keyword (
          extraction_id INTEGER NOT NULL REFERENCES extraction_result(id) ON DELETE CASCADE,
          keyword_id INTEGER NOT NULL REFERENCES keyword(id) ON DELETE CASCADE,
          weight REAL,
          PRIMARY KEY (extraction_id, keyword_id)
        );

        CREATE TABLE IF NOT EXISTS obsidian_note (
          id INTEGER PRIMARY KEY AUTOINCREMENT,
          job_id TEXT NOT NULL REFERENCES ingestion_job(id) ON DELETE CASCADE,
          note_path TEXT NOT NULL,
          method TEXT NOT NULL,
          created_at INTEGER NOT NULL
        );

        CREATE TABLE IF NOT EXISTS prompt_template (
          id INTEGER PRIMARY KEY AUTOINCREMENT,
          key TEXT NOT NULL UNIQUE,
          content TEXT NOT NULL,
          updated_at INTEGER NOT NULL
        );

        CREATE TABLE IF NOT EXISTS prompt_run (
          id INTEGER PRIMARY KEY AUTOINCREMENT,
          job_id TEXT NOT NULL REFERENCES ingestion_job(id) ON DELETE CASCADE,
          prompt_template_key TEXT NOT NULL,
          prompt_body TEXT NOT NULL,
          response_body TEXT,
          created_at INTEGER NOT NULL
        );

        CREATE TABLE IF NOT EXISTS job_event (
          id INTEGER PRIMARY KEY AUTOINCREMENT,
          job_id TEXT NOT NULL REFERENCES ingestion_job(id) ON DELETE CASCADE,
          kind TEXT NOT NULL,
          message TEXT NOT NULL,
          created_at INTEGER NOT NULL
        );
      ",
    });
    v.push(Migration {
        version: 3,
        name: "add_indexes_and_fts",
        sql: "
        CREATE INDEX IF NOT EXISTS idx_ingestion_job_status ON ingestion_job(status, updated_at DESC);
        CREATE INDEX IF NOT EXISTS idx_media_asset_job ON media_asset(job_id);
        CREATE INDEX IF NOT EXISTS idx_extraction_result_job ON extraction_result(job_id, created_at DESC);
        CREATE INDEX IF NOT EXISTS idx_obsidian_note_job ON obsidian_note(job_id, created_at DESC);
        CREATE INDEX IF NOT EXISTS idx_job_event_job ON job_event(job_id, created_at DESC);
        CREATE INDEX IF NOT EXISTS idx_extraction_keyword_keyword ON extraction_keyword(keyword_id);

        CREATE VIRTUAL TABLE IF NOT EXISTS extraction_fts USING fts5(
          job_id UNINDEXED,
          content
        );

        CREATE TRIGGER IF NOT EXISTS extraction_fts_insert AFTER INSERT ON extraction_result BEGIN
          INSERT INTO extraction_fts(job_id, content)
          VALUES (new.job_id, new.normalized_output);
        END;
      ",
    });
    assert(versions(v@) =~= seq![1i64, 2i64, 3i64]);
    v
}

/// The versions of a list of migrations, in order.
pub open spec fn versions(ms: Seq<Migration>) -> Seq<i64> {
    ms.map_values(|m: Migration| m.version)
}

/// The migrations, in their order, whose version the ledger does not hold.
pub open spec fn unapplied(ms: Seq<Migration>, applied: Seq<i64>) -> Seq<Migration>
    decreases ms.len(),
{
    if ms.len() == 0 {
        Seq::empty()
    } else {
        let rest = unapplied(ms.drop_last(), applied);
        if applied.contains(ms.last().version) {
            rest
        } else {
            rest.push(ms.last())
        }
    }
}

/// The ledger after a run: what it held, then the version of each migration
/// that the run applied, in order.
pub open spec fn ledger_after(ms: Seq<Migration>, applied: Seq<i64>) -> Seq<i64> {
    applied + versions(unapplied(ms, applied))
}

fn ledger_holds(applied: &[i64], version: i64) -> (r: bool)
    ensures
        r == applied@.contains(version),
{
    let mut i: usize = 0;
    while i < applied.len()
        invariant
            i <= applied.len(),
            forall|k: int| 0 <= k < i ==> applied@[k] != version,
        decreases applied.len() - i,
    {
        if applied[i] == version {
            return true;
        }
        i = i + 1;
    }
    false
}

/// The migrations that a run applies, given the versions already in the
/// ledger: every listed migration not recorded there, in list order.
pub fn pending_migrations(all: &[Migration], applied: &[i64]) -> (r: Vec<Migration>)
    ensures
        r@ == unapplied(all@, applied@),
{
    let mut out: Vec<Migration> = Vec::new();
    let mut i: usize = 0;
    while i < all.len()
        invariant
            i <= all.len(),
            out@ == unapplied(all@.take(i as int), applied@),
        decreases all.len() - i,
    {
        let m = all[i];
        assert(all@.take(i + 1).drop_last() =~= all@.take(i as int));
        if !ledger_holds(applied, m.version) {
            out.push(m);
        }
        i = i + 1;
    }
    assert(all@.take(i as int) =~= all@);
    out
}

/// What a run leaves out is either recorded already or not listed at all,
/// and what it applies is listed and unrecorded.
pub proof fn lemma_unapplied_members(ms: Seq<Migration>, applied: Seq<i64>, m: Migration)
    ensures
        unapplied(ms, applied).contains(m) <==> ms.contains(m) && !applied.contains(m.version),
    decreases ms.len(),
{
    if ms.len() > 0 {
        let init = ms.drop_last();
        lemma_unapplied_members(init, applied, m);
        assert(ms =~= init.push(ms.last()));
        if ms.contains(m) && !init.contains(m) {
            assert(m == ms.last());
        }
        if init.contains(m) {
            let k = choose|k: int| 0 <= k < init.len() && init[k] == m;
            assert(ms[k] == m);
        }
        let rest = unapplied(init, applied);
        if !applied.contains(ms.last().version) {
            assert(rest.push(ms.last()).last() == ms.last());
            if rest.contains(m) {
                let k = choose|k: int| 0 <= k < rest.len() && rest[k] == m;
                assert(rest.push(ms.last())[k] == m);
            }
            if rest.push(ms.last()).contains(m) && m != ms.last() {
                let k = choose|k: int| 0 <= k < rest.len() + 1 && rest.push(ms.last())[k] == m;
                assert(rest[k] == m);
            }
        }
    }
}

proof fn lemma_versions_contains(ms: Seq<Migration>, v: i64)
    ensures
        versions(ms).contains(v) <==> exists|m: Migration| ms.contains(m) && m.version == v,
{
    if versions(ms).contains(v) {
        let k = choose|k: int| 0 <= k < versions(ms).len() && versions(ms)[k] == v;
        assert(ms.contains(ms[k]));
    }
    if exists|m: Migration| ms.contains(m) && m.version == v {
        let m = choose|m: Migration| ms.contains(m) && m.version == v;
        let k = choose|k: int| 0 <= k < ms.len() && ms[k] == m;
        assert(versions(ms)[k] == v);
    }
}

proof fn lemma_unapplied_distinct(ms: Seq<Migration>, applied: Seq<i64>)
    requires
        versions(ms).no_duplicates(),
    ensures
        versions(unapplied(ms, applied)).no_duplicates(),
    decreases ms.len(),
{
    if ms.len() > 0 {
        let init = ms.drop_last();
        assert(versions(init) =~= versions(ms).drop_last());
        lemma_unapplied_distinct(init, applied);
        let rest = unapplied(init, applied);
        if !applied.contains(ms.last().version) {
            let out = rest.push(ms.last());
            assert(versions(out) =~= versions(rest).push(ms.last().version));
            if versions(rest).contains(ms.last().version) {
                lemma_versions_contains(rest, ms.last().version);
                let m = choose|m: Migration| rest.contains(m) && m.version == ms.last().version;
                lemma_unapplied_members(init, applied, m);
                let k = choose|k: int| 0 <= k < init.len() && init[k] == m;
                assert(versions(ms)[k] == versions(ms)[ms.len() - 1]);
            }
        }
    }
}

/// Running the migrations twice leaves the same ledger as running them once:
/// the second run finds nothing to apply. When the ledger and the list hold
/// each version once, so does the ledger after a run.
pub proof fn lemma_migrations_idempotent(ms: Seq<Migration>, applied: Seq<i64>)
    ensures
        unapplied(ms, ledger_after(ms, applied)) == Seq::<Migration>::empty(),
        ledger_after(ms, ledger_after(ms, applied)) == ledger_after(ms, applied),
        applied.no_duplicates() && versions(ms).no_duplicates() ==> ledger_after(
            ms,
            applied,
        ).no_duplicates(),
{
    let done = ledger_after(ms, applied);
    let again = unapplied(ms, done);
    if again.len() > 0 {
        let m = again[0];
        assert(again.contains(m));
        lemma_unapplied_members(ms, done, m);
        if applied.contains(m.version) {
            let k = choose|k: int| 0 <= k < applied.len() && applied[k] == m.version;
            assert(done[k] == m.version);
        }
        lemma_unapplied_members(ms, applied, m);
        let u = unapplied(ms, applied);
        let k = choose|k: int| 0 <= k < u.len() && u[k] == m;
        assert(versions(u)[k] == m.version);
        assert(done[applied.len() + k] == m.version);
    }
    assert(again =~= Seq::<Migration>::empty());
    assert(versions(again) =~= Seq::<i64>::empty());
    assert(done + versions(again) =~= done);
    if applied.no_duplicates() && versions(ms).no_duplicates() {
        let fresh = versions(unapplied(ms, applied));
        lemma_unapplied_distinct(ms, applied);
        assert forall|i: int, j: int| 0 <= i < j < done.len() implies done[i] != done[j] by {
            if i < applied.len() && j >= applied.len() {
                let v = fresh[j - applied.len()];
                assert(fresh.contains(v));
                lemma_versions_contains(unapplied(ms, applied), v);
                let m = choose|m: Migration| unapplied(ms, applied).contains(m) && m.version == v;
                lemma_unapplied_members(ms, applied, m);
                assert(applied.contains(applied[i]));
            } else if i >= applied.len() {
                assert(fresh[i - applied.len()] != fresh[j - applied.len()]);
            }
        }
    }
}

} // verus!
