use obsidian_ai_agent::status::JobStatus;
use obsidian_ai_agent::can_transition;

const ALL: [JobStatus; 5] = [
    JobStatus::Queued,
    JobStatus::Processing,
    JobStatus::Completed,
    JobStatus::Failed,
    JobStatus::Cancelled,
];

#[test]
fn status_names_are_stored_lowercase() {
    assert_eq!(JobStatus::Queued.as_str(), "queued");
    assert_eq!(JobStatus::Processing.as_str(), "processing");
    assert_eq!(JobStatus::Completed.as_str(), "completed");
    assert_eq!(JobStatus::Failed.as_str(), "failed");
    assert_eq!(JobStatus::Cancelled.as_str(), "cancelled");
}

#[test]
fn status_parse_round_trips_and_rejects_unknown() {
    for s in ALL {
        assert_eq!(JobStatus::parse(s.as_str()), Some(s));
    }
    assert_eq!(JobStatus::parse("Queued"), None);
    assert_eq!(JobStatus::parse(""), None);
    assert_eq!(JobStatus::parse("done"), None);
}

#[test]
fn transition_table_is_exact_for_every_pair() {
    let allowed = [
        ("queued", "processing"),
        ("queued", "cancelled"),
        ("queued", "failed"),
        ("processing", "completed"),
        ("processing", "failed"),
        ("processing", "cancelled"),
        ("failed", "queued"),
        ("cancelled", "queued"),
    ];
    let mut count = 0;
    for from in ALL {
        for to in ALL {
            let expected = allowed.contains(&(from.as_str(), to.as_str()));
            assert_eq!(can_transition(from.as_str(), to.as_str()), expected, "{:?} -> {:?}", from, to);
            assert_eq!(from.can_move_to(to), expected);
            if expected {
                count += 1;
            }
        }
    }
    assert_eq!(count, 8);
}

#[test]
fn completed_has_no_outgoing_transition() {
    for to in ALL {
        assert!(!can_transition("completed", to.as_str()));
    }
}

#[test]
fn unknown_status_names_never_transition() {
    assert!(!can_transition("archived", "queued"));
    assert!(!can_transition("queued", "archived"));
    assert!(!can_transition("QUEUED", "processing"));
}
