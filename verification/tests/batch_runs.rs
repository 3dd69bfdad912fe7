use rushmap_db::batch::{BatchEvent, BatchMode, BatchRun, BatchStep};

#[test]
fn direct_batch_sums_row_counts() {
    let (mut run, step) = BatchRun::<String>::start(3, BatchMode::Direct);
    assert_eq!(step, BatchStep::Execute(0));
    assert_eq!(run.step(BatchEvent::Executed(Ok(1))), BatchStep::Execute(1));
    assert_eq!(run.step(BatchEvent::Executed(Ok(4))), BatchStep::Execute(2));
    assert_eq!(run.affected_rows(), 5);
    assert_eq!(run.step(BatchEvent::Executed(Ok(2))), BatchStep::Done(Ok(7)));
}

#[test]
fn direct_batch_stops_at_first_failure() {
    let (mut run, _) = BatchRun::<String>::start(3, BatchMode::Direct);
    assert_eq!(run.step(BatchEvent::Executed(Ok(1))), BatchStep::Execute(1));
    assert_eq!(
        run.step(BatchEvent::Executed(Err("constraint failed".to_string()))),
        BatchStep::Done(Err("constraint failed".to_string()))
    );
}

#[test]
fn empty_direct_batch_is_done_at_once() {
    let (_, step) = BatchRun::<String>::start(0, BatchMode::Direct);
    assert_eq!(step, BatchStep::Done(Ok(0)));
}

#[test]
fn transaction_commits_after_last_statement() {
    let (mut run, step) = BatchRun::<String>::start(2, BatchMode::Transaction);
    assert_eq!(step, BatchStep::Execute(0));
    assert_eq!(run.step(BatchEvent::Executed(Ok(1))), BatchStep::Execute(1));
    assert_eq!(run.step(BatchEvent::Executed(Ok(3))), BatchStep::Commit);
    assert_eq!(run.step(BatchEvent::Committed(Ok(()))), BatchStep::Done(Ok(4)));
}

#[test]
fn transaction_rolls_back_on_failure() {
    let (mut run, _) = BatchRun::<String>::start(3, BatchMode::Transaction);
    assert_eq!(run.step(BatchEvent::Executed(Ok(1))), BatchStep::Execute(1));
    assert_eq!(
        run.step(BatchEvent::Executed(Err("disk full".to_string()))),
        BatchStep::Rollback
    );
    assert_eq!(
        run.step(BatchEvent::RolledBack),
        BatchStep::Done(Err("disk full".to_string()))
    );
}

#[test]
fn transaction_reports_failed_commit() {
    let (mut run, _) = BatchRun::<String>::start(1, BatchMode::Transaction);
    assert_eq!(run.step(BatchEvent::Executed(Ok(2))), BatchStep::Commit);
    assert_eq!(
        run.step(BatchEvent::Committed(Err("busy".to_string()))),
        BatchStep::Done(Err("busy".to_string()))
    );
}

#[test]
fn empty_transaction_still_commits() {
    let (mut run, step) = BatchRun::<String>::start(0, BatchMode::Transaction);
    assert_eq!(step, BatchStep::Commit);
    assert_eq!(run.step(BatchEvent::Committed(Ok(()))), BatchStep::Done(Ok(0)));
}
