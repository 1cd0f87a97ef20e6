use backup::appconfig::Archive;
use backup::archive_generator::{build_path, decide_archive_write, ArchiveDecision};
use backup::orchestrator::{AggregateError, Orchestrator};

#[test]
fn empty_batch_aggregates_ok() {
    let o = Orchestrator::new(0, 4);
    assert!(!o.pending());
    assert!(o.aggregate().is_ok());
}

#[test]
fn concurrency_never_exceeds_limit() {
    let mut o = Orchestrator::new(10, 3);
    let mut started = 0;
    // Fill every slot: admission stops at the cap, not at the item count.
    while o.can_start() {
        o.start_next();
        started += 1;
        assert!(o.active <= o.limit);
    }
    assert_eq!(started, 3);
    // Releasing one slot lets exactly one more item in.
    o.record(Ok(()));
    assert!(o.can_start());
    o.start_next();
    assert!(o.active <= o.limit);
    assert_eq!(o.next, 4);
}

#[test]
fn all_success_aggregates_ok() {
    let mut o = Orchestrator::new(5, 2);
    while o.pending() {
        if o.can_start() {
            o.start_next();
        } else {
            o.record(Ok(()));
        }
    }
    assert_eq!(o.done, 5);
    assert!(o.aggregate().is_ok());
}

#[test]
fn failures_are_counted_with_first_cause() {
    let mut o = Orchestrator::new(4, 2);
    o.start_next();
    o.start_next();
    // Outcomes arrive in an order unrelated to admission order.
    o.record(Err(String::from("first cause")));
    o.start_next();
    o.record(Ok(()));
    o.start_next();
    o.record(Err(String::from("second cause")));
    o.record(Ok(()));
    assert_eq!(o.done, 4);
    let err = o.aggregate().unwrap_err();
    assert_eq!(err.count, 2);
    assert_eq!(err.cause, "first cause");
}

#[test]
fn one_blocked_item_does_not_stop_the_rest() {
    // One slot stays occupied for the whole run; the other slot still
    // carries every remaining item to completion.
    let mut o = Orchestrator::new(6, 2);
    o.start_next(); // the stuck operation occupies its slot
    let mut finished = 0;
    while o.next < o.total {
        assert!(o.can_start());
        o.start_next();
        o.record(Ok(()));
        finished += 1;
    }
    assert_eq!(finished, 5);
    // Only once the stuck operation finally reports does the batch finish.
    assert!(o.pending());
    o.record(Ok(()));
    assert!(!o.pending());
    assert!(o.aggregate().is_ok());
}

#[test]
fn generation_phase_with_one_failing_generator() {
    // End-to-end shape of an archive-generation phase: two archives, one
    // generator exits nonzero. The other still runs, the phase aggregates
    // to an error counting one failure, and the healthy archive's content
    // is written.
    let archives = vec![
        Archive { name: String::from("good"), content: String::from("echo hi") },
        Archive { name: String::from("bad"), content: String::from("blah") },
    ];
    // What the application observed from each generator command.
    let observed = [
        (true, String::from("hi\n"), String::new()),
        (false, String::new(), String::from("sh: blah: command not found")),
    ];

    let archive_path = String::from("/tmp/archives");
    let mut written: Vec<(String, String)> = Vec::new();
    let mut o = Orchestrator::new(archives.len(), 4);
    while o.pending() {
        if o.can_start() {
            let i = o.start_next();
            let (status_ok, stdout, stderr) = &observed[i];
            let decision = decide_archive_write(false, *status_ok, stdout, stderr, &String::new());
            let outcome = match decision {
                ArchiveDecision::Write(content) => {
                    written.push((build_path(&archive_path, &archives[i].name), content));
                    Ok(())
                }
                ArchiveDecision::Skip => Ok(()),
                ArchiveDecision::Reject(cause) => Err(cause),
            };
            o.record(outcome);
        }
    }
    let err = o.aggregate().unwrap_err();
    assert_eq!(err.count, 1);
    assert_eq!(err.cause, "sh: blah: command not found");
    assert_eq!(written.len(), 1);
    assert_eq!(written[0].0, "/tmp/archives/good.txt");
    assert_eq!(written[0].1, "hi\n");
}

#[test]
fn aggregate_message_shape() {
    let e = AggregateError { count: 12, cause: String::from("boom") };
    assert_eq!(e.message("backups"), "12 backups failed because of e.g. boom");
    let e2 = AggregateError { count: 205, cause: String::from("x") };
    assert_eq!(
        e2.message("archive generations"),
        "205 archive generations failed because of e.g. x"
    );
    let e3 = AggregateError { count: 0, cause: String::new() };
    assert_eq!(e3.message("backups"), "0 backups failed because of e.g. ");
}
