use torq::config_update::{ConfigUpdate, UpdateEffect, Which};

#[test]
fn successful_update_applies_saves_and_sets() {
    let (mut update, first) = ConfigUpdate::begin();
    assert_eq!(first, UpdateEffect::ApplyToRuntime(Which::Next));
    assert_eq!(update.on_result(Ok(())), vec![UpdateEffect::SaveToFile(Which::Next)]);
    assert_eq!(update.on_result(Ok(())), vec![UpdateEffect::SetInMemory(Which::Next)]);
    assert_eq!(update.on_result(Ok(())), vec![UpdateEffect::Finish(Ok(()))]);
    assert!(update.is_done());
    assert!(update.on_result(Ok(())).is_empty());
}

#[test]
fn refused_by_runtime_changes_nothing() {
    let (mut update, _) = ConfigUpdate::begin();
    assert_eq!(
        update.on_result(Err("runtime config cannot be changed while Tor is Starting or Running".to_string())),
        vec![UpdateEffect::Finish(Err(
            "runtime config cannot be changed while Tor is Starting or Running".to_string()
        ))]
    );
    assert!(update.is_done());
}

#[test]
fn failed_save_rolls_back() {
    let (mut update, _) = ConfigUpdate::begin();
    update.on_result(Ok(()));
    assert_eq!(
        update.on_result(Err("disk full".to_string())),
        vec![UpdateEffect::ApplyToRuntime(Which::Previous)]
    );
    assert_eq!(
        update.on_result(Ok(())),
        vec![UpdateEffect::SetInMemory(Which::Previous)]
    );
    assert_eq!(
        update.on_result(Ok(())),
        vec![UpdateEffect::Finish(Err(
            "failed to persist runtime config. disk full".to_string()
        ))]
    );
}

#[test]
fn failed_rollback_is_reported() {
    let (mut update, _) = ConfigUpdate::begin();
    update.on_result(Ok(()));
    update.on_result(Err("disk full".to_string()));
    assert_eq!(
        update.on_result(Err("tor runtime supervisor is not available".to_string())),
        vec![UpdateEffect::Finish(Err(
            "failed to persist runtime config. disk full. runtime rollback also failed: tor runtime supervisor is not available".to_string()
        ))]
    );
    assert!(update.is_done());
}
