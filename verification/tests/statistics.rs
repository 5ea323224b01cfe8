//! The counters and how they are saved.

use spambayes_addin::config::Classification;
use spambayes_addin::statistics::{
    IoOutcome, LifetimeStats, RetryIo, RetryStep, SaveAction, SaveProcess, StatisticsManager,
    StatsFile,
};

/// A manager without stored counters.
fn fresh(save_interval: u32) -> StatisticsManager {
    StatisticsManager::new(None, save_interval).0
}

#[test]
fn test_new_no_existing_file_gives_zeros() {
    let mgr = fresh(10);

    let session = mgr.session_stats();
    assert_eq!(session.ham_classified, 0);
    assert_eq!(session.unsure_classified, 0);
    assert_eq!(session.spam_classified, 0);
    assert_eq!(session.ham_trained, 0);
    assert_eq!(session.spam_trained, 0);

    let lifetime = mgr.lifetime_stats();
    assert_eq!(lifetime.total_ham_trained, 0);
    assert_eq!(lifetime.total_spam_trained, 0);
    assert_eq!(lifetime.total_ham_classified, 0);
    assert_eq!(lifetime.total_unsure_classified, 0);
    assert_eq!(lifetime.total_spam_classified, 0);
}

#[test]
fn test_new_with_valid_stats_file() {
    let stored = StatsFile {
        version: 1,
        lifetime: LifetimeStats {
            total_ham_trained: 100,
            total_spam_trained: 200,
            total_ham_classified: 300,
            total_unsure_classified: 40,
            total_spam_classified: 500,
            ..LifetimeStats::default()
        },
    };
    let (mgr, to_save) = StatisticsManager::new(Some(stored), 10);
    assert!(to_save.is_none());

    let lifetime = mgr.lifetime_stats();
    assert_eq!(lifetime.total_ham_trained, 100);
    assert_eq!(lifetime.total_spam_trained, 200);
    assert_eq!(lifetime.total_ham_classified, 300);
    assert_eq!(lifetime.total_unsure_classified, 40);
    assert_eq!(lifetime.total_spam_classified, 500);

    let session = mgr.session_stats();
    assert_eq!(session.ham_classified, 0);
    assert_eq!(session.spam_classified, 0);
}

#[test]
fn test_on_classified_increments_correct_counters() {
    let mut mgr = fresh(100);

    mgr.on_classified(Classification::Ham);
    mgr.on_classified(Classification::Ham);
    mgr.on_classified(Classification::Spam);
    mgr.on_classified(Classification::Unsure);
    mgr.on_classified(Classification::Unsure);
    mgr.on_classified(Classification::Unsure);

    let session = mgr.session_stats();
    assert_eq!(session.ham_classified, 2);
    assert_eq!(session.spam_classified, 1);
    assert_eq!(session.unsure_classified, 3);

    let lifetime = mgr.lifetime_stats();
    assert_eq!(lifetime.total_ham_classified, 2);
    assert_eq!(lifetime.total_spam_classified, 1);
    assert_eq!(lifetime.total_unsure_classified, 3);
}

#[test]
fn test_on_trained_increments_correct_counters() {
    let mut mgr = fresh(100);

    mgr.on_trained(true);
    mgr.on_trained(true);
    mgr.on_trained(false);

    let session = mgr.session_stats();
    assert_eq!(session.spam_trained, 2);
    assert_eq!(session.ham_trained, 1);

    let lifetime = mgr.lifetime_stats();
    assert_eq!(lifetime.total_spam_trained, 2);
    assert_eq!(lifetime.total_ham_trained, 1);
}

#[test]
fn test_auto_save_triggers_at_save_interval() {
    let (mut mgr, created) = StatisticsManager::new(None, 3);

    // The file is created at once, with zeros.
    assert_eq!(created.unwrap().lifetime.total_ham_classified, 0);

    assert!(mgr.on_classified(Classification::Ham).is_none());
    assert!(mgr.on_classified(Classification::Spam).is_none());

    // The third classification reaches the interval.
    let saved = mgr.on_classified(Classification::Unsure).unwrap();
    assert_eq!(saved.lifetime.total_ham_classified, 1);
    assert_eq!(saved.lifetime.total_spam_classified, 1);
    assert_eq!(saved.lifetime.total_unsure_classified, 1);
}

#[test]
fn test_save_creates_valid_json_file() {
    let mut mgr = fresh(100);

    mgr.on_classified(Classification::Ham);
    mgr.on_trained(true);
    let saved = mgr.save();

    assert_eq!(saved.version, 1);
    assert_eq!(saved.lifetime.total_ham_classified, 1);
    assert_eq!(saved.lifetime.total_spam_trained, 1);
}

#[test]
fn test_reset_lifetime_zeros_all_and_saves() {
    let mut mgr = fresh(100);

    mgr.on_classified(Classification::Ham);
    mgr.on_classified(Classification::Spam);
    mgr.on_trained(true);
    mgr.on_trained(false);

    let saved = mgr.reset_lifetime();

    let lifetime = mgr.lifetime_stats();
    assert_eq!(lifetime.total_ham_trained, 0);
    assert_eq!(lifetime.total_spam_trained, 0);
    assert_eq!(lifetime.total_ham_classified, 0);
    assert_eq!(lifetime.total_unsure_classified, 0);
    assert_eq!(lifetime.total_spam_classified, 0);

    assert_eq!(saved.lifetime.total_ham_classified, 0);
    assert_eq!(saved.lifetime.total_spam_classified, 0);
    assert_eq!(mgr.session_stats().ham_classified, 1);
}

#[test]
fn a_failed_save_is_tried_again_at_the_next_change() {
    let mut mgr = fresh(2);
    assert!(mgr.on_classified(Classification::Ham).is_none());
    assert!(mgr.on_classified(Classification::Ham).is_some());
    mgr.save_finished(false);
    assert!(mgr.on_classified(Classification::Ham).is_some());
    mgr.save_finished(true);
    assert!(mgr.on_classified(Classification::Ham).is_none());
}

#[test]
fn corrections_are_counted_by_their_kind() {
    let mut mgr = fresh(100);
    mgr.on_correction(Classification::Spam, true);
    mgr.on_correction(Classification::Ham, false);
    mgr.on_correction(Classification::Ham, true);
    mgr.on_correction(Classification::Unsure, true);
    mgr.on_correction(Classification::Spam, false);
    let lifetime = mgr.lifetime_stats();
    assert_eq!(lifetime.correctly_classified, 2);
    assert_eq!(lifetime.false_negatives, 2);
    assert_eq!(lifetime.false_positives, 1);
    assert_eq!(mgr.session_stats().false_negatives, 2);
}

#[test]
fn untraining_undoes_training_and_stops_at_zero() {
    let mut mgr = fresh(100);
    mgr.on_trained(true);
    mgr.on_untrained(true);
    assert_eq!(mgr.lifetime_stats().total_spam_trained, 0);
    mgr.on_untrained(true);
    assert_eq!(mgr.lifetime_stats().total_spam_trained, 0);
    assert_eq!(mgr.session_stats().spam_trained, 1);
}

#[test]
fn session_counters_can_be_reset_alone() {
    let mut mgr = fresh(100);
    mgr.on_classified(Classification::Spam);
    mgr.reset_session();
    assert_eq!(mgr.session_stats().spam_classified, 0);
    assert_eq!(mgr.lifetime_stats().total_spam_classified, 1);
}

#[test]
fn sharing_violations() {
    assert!(StatisticsManager::is_sharing_violation(true, Some(32), false));
    assert!(!StatisticsManager::is_sharing_violation(true, Some(5), true));
    assert!(StatisticsManager::is_sharing_violation(false, None, true));
    assert!(!StatisticsManager::is_sharing_violation(false, Some(32), false));
}

#[test]
fn retries_wait_twice_as_long_each_time() {
    let mut retry = RetryIo::new(5, 50);
    let mut waited = 0;
    let mut waits = Vec::new();
    while let RetryStep::RetryAfter(ms) = retry.step(IoOutcome::SharingViolation) {
        waited += ms;
        waits.push(ms);
    }
    assert_eq!(waits, [50, 100, 200, 400, 800]);
    assert_eq!(waited, 1550);
    assert_eq!(retry.step(IoOutcome::SharingViolation), RetryStep::GaveUp);
    assert_eq!(RetryIo::new(5, 50).step(IoOutcome::Failed), RetryStep::GaveUp);
    assert_eq!(RetryIo::new(5, 50).step(IoOutcome::Done), RetryStep::Succeeded);
}

#[test]
fn saving_writes_then_renames() {
    let mut process = SaveProcess::start();
    assert_eq!(process.advance(IoOutcome::SharingViolation), SaveAction::WriteTemp(50));
    assert_eq!(process.advance(IoOutcome::Done), SaveAction::Rename(0));
    assert_eq!(process.advance(IoOutcome::SharingViolation), SaveAction::Rename(50));
    assert_eq!(process.advance(IoOutcome::Done), SaveAction::Finish);
}

#[test]
fn a_failed_rename_leaves_no_temporary_file() {
    let mut process = SaveProcess::start();
    assert_eq!(process.advance(IoOutcome::Done), SaveAction::Rename(0));
    assert_eq!(process.advance(IoOutcome::Failed), SaveAction::RemoveTempAndFail);
    assert_eq!(SaveProcess::start().advance(IoOutcome::Failed), SaveAction::Fail);
}

#[test]
fn counters_survive_a_restart() {
    let mut mgr = fresh(100);
    mgr.on_classified(Classification::Spam);
    mgr.on_classified(Classification::Ham);
    mgr.on_trained(true);
    let (restarted, to_save) = StatisticsManager::new(Some(mgr.save()), 5);
    assert!(to_save.is_none());
    assert_eq!(restarted.lifetime_stats(), mgr.lifetime_stats());
    assert_eq!(restarted.lifetime_stats().total_spam_trained, 1);
    assert_eq!(restarted.session_stats(), fresh(1).session_stats());
}

#[test]
fn full_counters_take_nothing_more() {
    let full = StatsFile {
        version: 1,
        lifetime: LifetimeStats {
            total_ham_classified: u64::MAX,
            total_spam_trained: u64::MAX,
            false_negatives: u64::MAX,
            ..LifetimeStats::default()
        },
    };
    let (mgr, _) = StatisticsManager::new(Some(full), 10);
    assert!(!mgr.can_classify(Classification::Ham));
    assert!(mgr.can_classify(Classification::Spam) && mgr.can_classify(Classification::Unsure));
    assert!(!mgr.can_train(true) && mgr.can_train(false));
    assert!(!mgr.can_correct(Classification::Unsure, true));
    assert!(mgr.can_correct(Classification::Spam, true));
    assert!(mgr.can_correct(Classification::Spam, false));
}
