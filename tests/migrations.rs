use obsidian_ai_agent::migrate::{migrations, pending_migrations, Migration};

fn versions(ms: &[Migration]) -> Vec<i64> {
    ms.iter().map(|m| m.version).collect()
}

#[test]
fn migrations_are_ordered_and_named() {
    let ms = migrations();
    assert_eq!(versions(&ms), vec![1, 2, 3]);
    assert_eq!(ms[0].name, "init_core_tables");
    assert_eq!(ms[1].name, "add_traceability_tables");
    assert_eq!(ms[2].name, "add_indexes_and_fts");
    assert!(ms[0].sql.contains("CREATE TABLE IF NOT EXISTS ingestion_job"));
    assert!(ms[0].sql.contains("ON DELETE CASCADE"));
    assert!(ms[0].sql.contains("CHECK (id = 1)"));
}

#[test]
fn fresh_store_applies_everything() {
    let ms = migrations();
    assert_eq!(versions(&pending_migrations(&ms, &[])), vec![1, 2, 3]);
}

#[test]
fn recorded_versions_are_skipped() {
    let ms = migrations();
    assert_eq!(versions(&pending_migrations(&ms, &[2])), vec![1, 3]);
    assert_eq!(versions(&pending_migrations(&ms, &[1, 2, 3])), Vec::<i64>::new());
    assert_eq!(versions(&pending_migrations(&ms, &[7])), vec![1, 2, 3]);
}

#[test]
fn running_twice_applies_nothing_more() {
    let ms = migrations();
    let mut ledger: Vec<i64> = vec![1];
    let first = pending_migrations(&ms, &ledger);
    ledger.extend(versions(&first));
    assert_eq!(ledger, vec![1, 2, 3]);
    let second = pending_migrations(&ms, &ledger);
    assert!(second.is_empty());
}
