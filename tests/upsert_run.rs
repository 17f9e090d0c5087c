use lancedb_ffi::table::WritePlan;
use lancedb_ffi::upsert::{StoreAction, StoreEvent, StoreStage, UpsertRun};
use lancedb_ffi::LanceError;

#[test]
fn fresh_store_creates_table() {
    let (mut run, a) = UpsertRun::begin("k1".to_string());
    assert!(matches!(a, StoreAction::OpenTable));
    assert!(matches!(run.step(StoreEvent::OpenFailed), StoreAction::ListTables));
    assert!(matches!(run.step(StoreEvent::Listed(false)), StoreAction::CreateTable));
    assert_eq!(run.stage(), StoreStage::Writing(WritePlan::CreateTable));
    assert!(matches!(run.step(StoreEvent::Succeeded), StoreAction::Finish(Ok(()))));
    assert_eq!(run.stage(), StoreStage::Finished);
}

#[test]
fn existing_key_is_deleted_then_appended() {
    let (mut run, _) = UpsertRun::begin("it's".to_string());
    match run.step(StoreEvent::Opened) {
        StoreAction::DeleteWhere(p) => assert_eq!(p, "key = 'it''s'"),
        other => panic!("unexpected {:?}", other),
    }
    assert!(matches!(run.step(StoreEvent::Failed("ignored".to_string())), StoreAction::ListTables));
    assert!(matches!(run.step(StoreEvent::Listed(true)), StoreAction::OpenTable));
    assert!(matches!(run.step(StoreEvent::Opened), StoreAction::AppendRow));
    assert!(matches!(
        run.step(StoreEvent::Failed("full".to_string())),
        StoreAction::Finish(Err(LanceError::InsertError { .. }))
    ));
}

#[test]
fn unreadable_table_is_dropped_and_recreated() {
    let (mut run, _) = UpsertRun::begin("k".to_string());
    assert!(matches!(run.step(StoreEvent::OpenFailed), StoreAction::ListTables));
    assert!(matches!(run.step(StoreEvent::Listed(true)), StoreAction::OpenTable));
    assert!(matches!(run.step(StoreEvent::OpenFailed), StoreAction::DropTable));
    assert!(matches!(run.step(StoreEvent::Succeeded), StoreAction::CreateTable));
    assert_eq!(run.stage(), StoreStage::Writing(WritePlan::RecreateTable));
    assert!(matches!(
        run.step(StoreEvent::Failed("io".to_string())),
        StoreAction::Finish(Err(LanceError::TableError { .. }))
    ));
}

#[test]
fn failed_listing_or_drop_is_table_error() {
    let (mut run, _) = UpsertRun::begin("k".to_string());
    run.step(StoreEvent::OpenFailed);
    assert!(matches!(
        run.step(StoreEvent::ListFailed("x".to_string())),
        StoreAction::Finish(Err(LanceError::TableError { .. }))
    ));
    let (mut run, _) = UpsertRun::begin("k".to_string());
    run.step(StoreEvent::OpenFailed);
    run.step(StoreEvent::Listed(true));
    run.step(StoreEvent::OpenFailed);
    assert!(matches!(
        run.step(StoreEvent::Failed("x".to_string())),
        StoreAction::Finish(Err(LanceError::TableError { .. }))
    ));
}
