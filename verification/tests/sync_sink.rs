//! Waiting for the end of a synchronisation.

use spambayes_addin::com::S_OK;
use spambayes_addin::sync_sink::{
    advise_sync_event, force_sync_complete, is_sync_complete, log_sync, reset_sync_state,
    setup_sync_hook, sync_sink_invoke, AdviseStage, AppSource, Disconnection, HookReply, HookSetup,
    HookStage, SyncHook, SyncState, DISPID_SYNC_END,
};

#[test]
fn test_sync_state_default_is_complete() {
    let state = SyncState::default();
    assert!(is_sync_complete(&state));
}

#[test]
fn test_reset_and_force_complete() {
    let mut state = SyncState::default();
    // Reset → not complete
    reset_sync_state(&mut state);
    assert!(!is_sync_complete(&state));

    // Force complete → complete again
    force_sync_complete(&mut state);
    assert!(is_sync_complete(&state));
}

#[test]
fn test_force_complete_is_idempotent() {
    let mut state = SyncState::default();
    force_sync_complete(&mut state);
    assert!(is_sync_complete(&state));
    force_sync_complete(&mut state);
    assert!(is_sync_complete(&state));
}

#[test]
fn only_the_end_of_the_synchronisation_ends_the_wait() {
    let mut state = SyncState::default();
    reset_sync_state(&mut state);
    let other = sync_sink_invoke(&mut state, 0xF001);
    assert!(!other.drain_and_stop_timer);
    assert_eq!(other.status, S_OK);
    assert_eq!(other.log, "SyncObjectEvents DISPID=0xF001 received (ignored)");
    assert!(!is_sync_complete(&state));
    let negative = sync_sink_invoke(&mut state, -1);
    assert_eq!(negative.log, "SyncObjectEvents DISPID=0xFFFFFFFF received (ignored)");
    let end = sync_sink_invoke(&mut state, DISPID_SYNC_END);
    assert!(end.drain_and_stop_timer);
    assert_eq!(end.status, S_OK);
    assert!(is_sync_complete(&state));
}

#[test]
fn log_line_has_the_time_of_day() {
    let line = log_sync(20285 * 86400 + 13 * 3600 + 5 * 60 + 9, "hello");
    assert!(line.contains("13:05:09"), "{line}");
    assert!(line.contains("hello"), "{line}");
}

#[test]
fn application_object_is_created_or_passed_in() {
    assert_eq!(setup_sync_hook(true, true), AppSource::Created);
    assert_eq!(setup_sync_hook(false, true), AppSource::PassedIn);
    assert_eq!(setup_sync_hook(false, false), AppSource::Missing);
}

#[test]
fn references_are_released_once_on_the_way_to_a_hook() {
    let mut setup = HookSetup::start(true);
    let mut released = [0; 4];
    for reply in [HookReply::Object, HookReply::Object, HookReply::Object, HookReply::Object] {
        let decision = setup.advance(reply);
        released[0] += decision.release.app as i32;
        released[1] += decision.release.session as i32;
        released[2] += decision.release.sync_objects as i32;
        released[3] += decision.release.sync_object as i32;
    }
    assert_eq!(setup.stage, HookStage::Established);
    assert_eq!(released, [1, 1, 1, 0]);
}

#[test]
fn a_failed_call_ends_the_set_up() {
    let mut setup = HookSetup::start(true);
    let decision = setup.advance(HookReply::Error(0x8000_4005));
    assert_eq!(setup.stage, HookStage::Failed);
    assert!(decision.release.app);
    assert!(!decision.release.session);
    assert!(decision.log.contains("80004005"), "{}", decision.log);
    let mut setup = HookSetup::start(false);
    setup.advance(HookReply::Object);
    let decision = setup.advance(HookReply::Null);
    assert_eq!(setup.stage, HookStage::Failed);
    assert!(decision.release.session);
    assert!(!decision.release.app);
}

#[test]
fn connecting_the_sink() {
    let first = advise_sync_event(AdviseStage::QueryContainer, true);
    assert_eq!(first.next, Some(AdviseStage::FindPoint));
    assert!(!first.release_container);
    let second = advise_sync_event(AdviseStage::FindPoint, true);
    assert_eq!(second.next, Some(AdviseStage::Connect));
    assert!(second.release_container);
    let third = advise_sync_event(AdviseStage::Connect, true);
    assert!(third.connected);
    assert!(!third.release_sink && !third.release_point);
    let refused = advise_sync_event(AdviseStage::Connect, false);
    assert!(!refused.connected);
    assert!(refused.release_sink && refused.release_point);
}

#[test]
fn disconnecting_a_second_time_does_nothing() {
    let mut hook = SyncHook { sync_object: 11, connection_point: 22, cookie: 33 };
    assert_eq!(
        hook.disconnect(),
        Disconnection { unadvise: Some((22, 33)), release: Some(11) }
    );
    assert_eq!(hook.disconnect(), Disconnection { unadvise: None, release: None });
}
