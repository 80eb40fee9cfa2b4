use todo_api::data::{run_migrations, MigrationEvent, MigrationStep};

fn versions(list: &[&str]) -> Vec<String> {
    let mut versions = Vec::new();
    for version in list {
        versions.push(version.to_string());
    }
    versions
}

#[test]
fn an_empty_ledger_starts_with_the_first_migration() {
    let authored = versions(&["20221001000000", "20221002000000"]);
    let step = run_migrations(&authored, &versions(&[]), MigrationEvent::Started);
    assert_eq!(step, MigrationStep::Apply(0));
}

#[test]
fn migrations_are_asked_for_in_authored_order() {
    let authored = versions(&["20221003000000", "20221001000000", "20221002000000"]);
    let mut ledger = versions(&[]);
    let mut asked = Vec::new();
    let mut event = MigrationEvent::Started;
    loop {
        match run_migrations(&authored, &ledger, event) {
            MigrationStep::Apply(position) => {
                asked.push(position);
                ledger.push(authored[position].clone());
                event = MigrationEvent::Applied;
            }
            MigrationStep::Finished => break,
            MigrationStep::Aborted => panic!("nothing failed"),
        }
    }
    assert_eq!(asked, vec![0, 1, 2]);
    assert_eq!(ledger, authored);
}

#[test]
fn applied_migrations_are_skipped() {
    let authored = versions(&["a", "b", "c", "d"]);
    let ledger = versions(&["c", "a"]);
    assert_eq!(
        run_migrations(&authored, &ledger, MigrationEvent::Started),
        MigrationStep::Apply(1)
    );
    let ledger = versions(&["c", "a", "b"]);
    assert_eq!(
        run_migrations(&authored, &ledger, MigrationEvent::Applied),
        MigrationStep::Apply(3)
    );
}

#[test]
fn nothing_pending_finishes_at_once() {
    let authored = versions(&["a", "b"]);
    let ledger = versions(&["a", "b"]);
    assert_eq!(
        run_migrations(&authored, &ledger, MigrationEvent::Started),
        MigrationStep::Finished
    );
    assert_eq!(
        run_migrations(&authored, &ledger, MigrationEvent::Applied),
        MigrationStep::Finished
    );
    assert_eq!(
        run_migrations(&versions(&[]), &versions(&[]), MigrationEvent::Started),
        MigrationStep::Finished
    );
}

#[test]
fn ledger_entries_that_were_never_authored_are_ignored() {
    let authored = versions(&["a"]);
    let ledger = versions(&["zz", "a"]);
    assert_eq!(
        run_migrations(&authored, &ledger, MigrationEvent::Started),
        MigrationStep::Finished
    );
}

#[test]
fn a_failure_aborts() {
    let authored = versions(&["a", "b"]);
    assert_eq!(
        run_migrations(&authored, &versions(&["a"]), MigrationEvent::Failed),
        MigrationStep::Aborted
    );
    assert_eq!(
        run_migrations(&authored, &versions(&["a", "b"]), MigrationEvent::Failed),
        MigrationStep::Aborted
    );
}
