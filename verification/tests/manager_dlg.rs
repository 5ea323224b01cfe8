//! The manager dialog, its settings and its statistics.

use spambayes_addin::config::{
    AppConfig, CalendarConfig, CalendarSpamAction, Classification, EntryId, FilterAction, FilterConfig,
    FilterNowConfig, FolderId, GeneralConfig, MessageReadState, NotificationConfig, StoreId,
    TrainingConfig, UpdateCheckInterval, UpdateConfig,
};
use spambayes_addin::double::Double;
use spambayes_addin::manager_dlg::{
    format_stat, format_with_thousands, DialogAction, FolderTarget, ManagerDialog, ManagerState,
    ManagerStats, IDC_BROWSE_WATCH, IDC_CANCEL, IDC_FILTER_NOW, IDC_OK, IDC_RESET_STATS,
    IDC_STATS_TIMER, IDC_STAT_HAM_TRAINED, IDC_TRAIN_NOW, STATS_REFRESH_MS, WM_CLOSE, WM_COMMAND,
    WM_INITDIALOG, WM_TIMER,
};
use spambayes_addin::statistics::StatisticsManager;

fn double(value: f64) -> Double {
    Double { bits: value.to_bits() }
}

fn make_folder_id(store: &str, entry: &str) -> FolderId {
    FolderId::new(StoreId::new(store), EntryId::new(entry))
}

/// Settings without folders, with the filter off.
fn plain_config() -> AppConfig {
    AppConfig {
        general: GeneralConfig {
            data_directory: String::new(),
            verbose: 0,
            delete_as_spam_message_state: MessageReadState::Unchanged,
            recover_from_spam_message_state: MessageReadState::Unchanged,
        },
        filter: FilterConfig {
            enabled: false,
            spam_threshold: double(90.0),
            unsure_threshold: double(15.0),
            spam_action: FilterAction::Untouched,
            unsure_action: FilterAction::Untouched,
            ham_action: FilterAction::Untouched,
            spam_mark_as_read: false,
            unsure_mark_as_read: false,
            ham_mark_as_read: false,
            watch_folder_ids: vec![],
            spam_folder_id: None,
            unsure_folder_id: None,
            ham_folder_id: None,
            spam_auto_cleanup_enabled: false,
            spam_auto_cleanup_days: 30,
            timer_enabled: true,
            timer_start_delay: double(2.0),
            timer_interval: double(1.0),
            timer_only_receive_folders: true,
            timer_wait_for_sync: true,
            save_spam_info: true,
        },
        training: TrainingConfig {
            ham_folder_ids: vec![],
            spam_folder_ids: vec![],
            rescore: true,
            rebuild: true,
            train_recovered_spam: true,
            train_manual_spam: true,
        },
        filter_now: FilterNowConfig {
            folder_ids: vec![],
            only_unread: false,
            only_unseen: false,
            action_all: true,
        },
        notification: NotificationConfig {
            notify_sound_enabled: false,
            notify_ham_sound: String::new(),
            notify_unsure_sound: String::new(),
            notify_spam_sound: String::new(),
            notify_accumulate_delay: double(10.0),
        },
        calendar: CalendarConfig {
            calendar_filtering_enabled: false,
            calendar_spam_action: CalendarSpamAction::Prompt,
        },
        update: UpdateConfig {
            check_interval: UpdateCheckInterval::Weekly,
            update_url: String::new(),
        },
    }
}

/// Settings with the filter on and a folder for each purpose.
fn make_test_config() -> AppConfig {
    let mut config = plain_config();
    config.filter.enabled = true;
    config.filter.spam_threshold = double(90.0);
    config.filter.unsure_threshold = double(15.0);
    config.filter.spam_action = FilterAction::Move;
    config.filter.unsure_action = FilterAction::Move;
    config.filter.ham_action = FilterAction::Untouched;
    config.filter.watch_folder_ids = vec![make_folder_id("STORE01", "INBOX01")];
    config.filter.spam_folder_id = Some(make_folder_id("STORE01", "SPAM01"));
    config.filter.unsure_folder_id = Some(make_folder_id("STORE01", "UNSURE01"));
    config.training.ham_folder_ids = vec![make_folder_id("STORE01", "HAM01")];
    config.training.spam_folder_ids = vec![make_folder_id("STORE01", "SPAMTRAIN01")];
    config
}

#[test]
fn test_stats_new_is_zero() {
    let stats = ManagerStats::new();
    assert_eq!(stats.ham_trained, 0);
    assert_eq!(stats.spam_trained, 0);
    assert_eq!(stats.session_classified, 0);
    assert_eq!(stats.session_ham_trained, 0);
    assert_eq!(stats.session_spam_trained, 0);
    assert_eq!(stats.session_ham_classified, 0);
    assert_eq!(stats.session_unsure_classified, 0);
    assert_eq!(stats.session_spam_classified, 0);
    assert_eq!(stats.total_ham_classified, 0);
    assert_eq!(stats.total_unsure_classified, 0);
    assert_eq!(stats.total_spam_classified, 0);
}

#[test]
fn test_stats_with_values() {
    let stats = ManagerStats::with_values(100, 200, 50);
    assert_eq!(stats.ham_trained, 100);
    assert_eq!(stats.spam_trained, 200);
    assert_eq!(stats.session_classified, 50);
    // Other fields should be zero via ..Self::new()
    assert_eq!(stats.session_ham_trained, 0);
    assert_eq!(stats.session_spam_trained, 0);
    assert_eq!(stats.session_ham_classified, 0);
    assert_eq!(stats.session_unsure_classified, 0);
    assert_eq!(stats.session_spam_classified, 0);
    assert_eq!(stats.total_ham_classified, 0);
    assert_eq!(stats.total_unsure_classified, 0);
    assert_eq!(stats.total_spam_classified, 0);
}

#[test]
fn test_stats_default() {
    let stats = ManagerStats::default();
    assert_eq!(stats, ManagerStats::new());
}

#[test]
fn test_stats_from_statistics() {
    let (mut mgr, _) = StatisticsManager::new(None, 100);

    // Simulate some activity.
    mgr.on_classified(Classification::Ham);
    mgr.on_classified(Classification::Ham);
    mgr.on_classified(Classification::Spam);
    mgr.on_classified(Classification::Unsure);
    mgr.on_trained(false); // ham
    mgr.on_trained(true); // spam
    mgr.on_trained(true); // spam

    let stats = ManagerStats::from_statistics(&mgr);

    // Lifetime training
    assert_eq!(stats.ham_trained, 1);
    assert_eq!(stats.spam_trained, 2);

    // Session training
    assert_eq!(stats.session_ham_trained, 1);
    assert_eq!(stats.session_spam_trained, 2);

    // Session classification
    assert_eq!(stats.session_ham_classified, 2);
    assert_eq!(stats.session_unsure_classified, 1);
    assert_eq!(stats.session_spam_classified, 1);
    assert_eq!(stats.session_classified, 4); // 2 + 1 + 1

    // Lifetime classification
    assert_eq!(stats.total_ham_classified, 2);
    assert_eq!(stats.total_unsure_classified, 1);
    assert_eq!(stats.total_spam_classified, 1);
}

#[test]
fn test_format_with_thousands_zero() {
    assert_eq!(format_with_thousands(0), "0");
}

#[test]
fn test_format_with_thousands_small() {
    assert_eq!(format_with_thousands(1), "1");
    assert_eq!(format_with_thousands(12), "12");
    assert_eq!(format_with_thousands(123), "123");
}

#[test]
fn test_format_with_thousands_thousands() {
    assert_eq!(format_with_thousands(1_523), "1,523");
    assert_eq!(format_with_thousands(12_345), "12,345");
    assert_eq!(format_with_thousands(123_456), "123,456");
}

#[test]
fn test_format_with_thousands_millions() {
    assert_eq!(format_with_thousands(1_000_000), "1,000,000");
    assert_eq!(format_with_thousands(1_234_567), "1,234,567");
}

#[test]
fn test_format_with_thousands_exact_boundary() {
    assert_eq!(format_with_thousands(999), "999");
    assert_eq!(format_with_thousands(1_000), "1,000");
    assert_eq!(format_with_thousands(999_999), "999,999");
    assert_eq!(format_with_thousands(1_000_000), "1,000,000");
}

#[test]
fn test_format_stat_combined() {
    assert_eq!(format_stat(1_523, 12), "1,523 (session: 12)");
    assert_eq!(format_stat(0, 0), "0 (session: 0)");
    assert_eq!(format_stat(1_000_000, 1_000), "1,000,000 (session: 1,000)");
}

#[test]
fn test_state_from_config() {
    let config = make_test_config();
    let state = ManagerState::from_config(&config);

    assert!(state.filter_enabled);
    assert_eq!(state.spam_threshold, double(90.0));
    assert_eq!(state.unsure_threshold, double(15.0));
    assert_eq!(state.spam_action, FilterAction::Move);
    assert_eq!(state.unsure_action, FilterAction::Move);
    assert_eq!(state.ham_action, FilterAction::Untouched);
    assert_eq!(state.watch_folder_ids.len(), 1);
    assert!(state.spam_folder_id.is_some());
    assert!(state.unsure_folder_id.is_some());
    assert_eq!(state.ham_training_folder_ids.len(), 1);
    assert_eq!(state.spam_training_folder_ids.len(), 1);
    assert!(!state.is_dirty());
}

#[test]
fn test_state_not_dirty_initially() {
    let config = make_test_config();
    let state = ManagerState::from_config(&config);
    assert!(!state.is_dirty());
}

#[test]
fn test_set_spam_threshold_marks_dirty() {
    let config = make_test_config();
    let mut state = ManagerState::from_config(&config);

    state.set_spam_threshold(double(85.0));
    assert!(state.is_dirty());
    assert_eq!(state.spam_threshold, double(85.0));
}

#[test]
fn test_set_spam_threshold_clamps_to_valid_range() {
    let config = make_test_config();
    let mut state = ManagerState::from_config(&config);

    state.set_spam_threshold(double(150.0));
    assert_eq!(state.spam_threshold, double(100.0));

    state.set_spam_threshold(double(-10.0));
    assert_eq!(state.spam_threshold, double(0.0));
}

#[test]
fn test_set_same_threshold_not_dirty() {
    let config = make_test_config();
    let mut state = ManagerState::from_config(&config);

    // Setting the same value should not mark dirty
    state.set_spam_threshold(double(90.0));
    assert!(!state.is_dirty());
}

#[test]
fn test_set_unsure_threshold_marks_dirty() {
    let config = make_test_config();
    let mut state = ManagerState::from_config(&config);

    state.set_unsure_threshold(double(20.0));
    assert!(state.is_dirty());
    assert_eq!(state.unsure_threshold, double(20.0));
}

#[test]
fn test_set_unsure_threshold_clamps() {
    let config = make_test_config();
    let mut state = ManagerState::from_config(&config);

    state.set_unsure_threshold(double(200.0));
    assert_eq!(state.unsure_threshold, double(100.0));

    state.set_unsure_threshold(double(-5.0));
    assert_eq!(state.unsure_threshold, double(0.0));
}

#[test]
fn test_set_spam_action_marks_dirty() {
    let config = make_test_config();
    let mut state = ManagerState::from_config(&config);

    state.set_spam_action(FilterAction::Copy);
    assert!(state.is_dirty());
    assert_eq!(state.spam_action, FilterAction::Copy);
}

#[test]
fn test_set_same_action_not_dirty() {
    let config = make_test_config();
    let mut state = ManagerState::from_config(&config);

    // Setting same action should not mark dirty
    state.set_spam_action(FilterAction::Move);
    assert!(!state.is_dirty());
}

#[test]
fn test_set_unsure_action() {
    let config = make_test_config();
    let mut state = ManagerState::from_config(&config);

    state.set_unsure_action(FilterAction::Untouched);
    assert!(state.is_dirty());
    assert_eq!(state.unsure_action, FilterAction::Untouched);
}

#[test]
fn test_set_ham_action() {
    let config = make_test_config();
    let mut state = ManagerState::from_config(&config);

    state.set_ham_action(FilterAction::Move);
    assert!(state.is_dirty());
    assert_eq!(state.ham_action, FilterAction::Move);
}

#[test]
fn test_set_filter_enabled() {
    let config = make_test_config();
    let mut state = ManagerState::from_config(&config);

    // Disable filtering
    state.set_filter_enabled(false);
    assert!(state.is_dirty());
    assert!(!state.filter_enabled);
}

#[test]
fn test_set_filter_enabled_same_not_dirty() {
    let config = make_test_config();
    let mut state = ManagerState::from_config(&config);

    // Setting same value should not mark dirty
    state.set_filter_enabled(true);
    assert!(!state.is_dirty());
}

#[test]
fn test_set_watch_folders() {
    let config = make_test_config();
    let mut state = ManagerState::from_config(&config);

    let new_folders = vec![
        make_folder_id("STORE01", "FOLDER_A"),
        make_folder_id("STORE01", "FOLDER_B"),
    ];
    state.set_watch_folders(new_folders.clone());
    assert!(state.is_dirty());
    assert_eq!(state.watch_folder_ids, new_folders);
}

#[test]
fn test_set_spam_folder() {
    let config = make_test_config();
    let mut state = ManagerState::from_config(&config);

    let new_folder = make_folder_id("STORE02", "SPAM_NEW");
    state.set_spam_folder(Some(new_folder.clone()));
    assert!(state.is_dirty());
    assert_eq!(state.spam_folder_id, Some(new_folder));
}

#[test]
fn test_set_unsure_folder() {
    let config = make_test_config();
    let mut state = ManagerState::from_config(&config);

    let new_folder = make_folder_id("STORE02", "UNSURE_NEW");
    state.set_unsure_folder(Some(new_folder.clone()));
    assert!(state.is_dirty());
    assert_eq!(state.unsure_folder_id, Some(new_folder));
}

#[test]
fn test_set_ham_training_folders() {
    let config = make_test_config();
    let mut state = ManagerState::from_config(&config);

    let folders = vec![
        make_folder_id("STORE01", "HAM_A"),
        make_folder_id("STORE01", "HAM_B"),
    ];
    state.set_ham_training_folders(folders.clone());
    assert!(state.is_dirty());
    assert_eq!(state.ham_training_folder_ids, folders);
}

#[test]
fn test_set_spam_training_folders() {
    let config = make_test_config();
    let mut state = ManagerState::from_config(&config);

    let folders = vec![make_folder_id("STORE01", "SPAM_T")];
    state.set_spam_training_folders(folders.clone());
    assert!(state.is_dirty());
    assert_eq!(state.spam_training_folder_ids, folders);
}

#[test]
fn test_apply_to_config() {
    let config = make_test_config();
    let mut state = ManagerState::from_config(&config);

    // Make changes
    state.set_spam_threshold(double(80.0));
    state.set_unsure_threshold(double(25.0));
    state.set_spam_action(FilterAction::Copy);
    state.set_filter_enabled(false);

    // Apply to a fresh config
    let mut target_config = plain_config();
    state.apply_to_config(&mut target_config);

    assert!(!target_config.filter.enabled);
    assert_eq!(target_config.filter.spam_threshold, double(80.0));
    assert_eq!(target_config.filter.unsure_threshold, double(25.0));
    assert_eq!(target_config.filter.spam_action, FilterAction::Copy);
    assert_eq!(target_config.filter.unsure_action, FilterAction::Move);
    assert_eq!(target_config.filter.ham_action, FilterAction::Untouched);
    assert_eq!(target_config.filter.watch_folder_ids.len(), 1);
    assert!(target_config.filter.spam_folder_id.is_some());
    assert!(target_config.filter.unsure_folder_id.is_some());
    assert_eq!(target_config.training.ham_folder_ids.len(), 1);
    assert_eq!(target_config.training.spam_folder_ids.len(), 1);
}

#[test]
fn test_apply_preserves_folder_selections() {
    let config = make_test_config();
    let mut state = ManagerState::from_config(&config);

    let new_watch = vec![
        make_folder_id("S1", "W1"),
        make_folder_id("S1", "W2"),
    ];
    state.set_watch_folders(new_watch.clone());

    let mut target_config = plain_config();
    state.apply_to_config(&mut target_config);

    assert_eq!(target_config.filter.watch_folder_ids, new_watch);
}

#[test]
fn test_dialog_new() {
    let config = make_test_config();
    let stats = ManagerStats::with_values(500, 300, 42);
    let dialog = ManagerDialog::new(&config, stats.clone(), None);

    assert_eq!(dialog.stats().ham_trained, 500);
    assert_eq!(dialog.stats().spam_trained, 300);
    assert_eq!(dialog.stats().session_classified, 42);
    assert!(dialog.state().filter_enabled);
}

#[test]
fn test_dialog_apply_changes_when_dirty() {
    let config = make_test_config();
    let stats = ManagerStats::new();
    let mut dialog = ManagerDialog::new(&config, stats, None);

    // Modify state
    dialog.state_mut().set_spam_threshold(double(75.0));

    let mut target = make_test_config();
    let saved = dialog.apply_changes(&mut target);

    assert!(saved);
    assert_eq!(target.filter.spam_threshold, double(75.0));
}

#[test]
fn test_dialog_apply_changes_not_dirty() {
    let config = make_test_config();
    let stats = ManagerStats::new();
    let dialog = ManagerDialog::new(&config, stats, None);

    // No changes made — apply should return false
    let mut target = make_test_config();
    let saved = dialog.apply_changes(&mut target);

    assert!(!saved);
}

#[test]
fn test_dialog_show_train_progress() {
    let config = make_test_config();
    let stats = ManagerStats::new();
    let dialog = ManagerDialog::new(&config, stats, None);

    let req = dialog.show_train_progress();
    assert_eq!(req.ham_folder_ids.len(), 1);
    assert_eq!(req.spam_folder_ids.len(), 1);
    assert_eq!(req.ham_folder_ids[0], make_folder_id("STORE01", "HAM01"));
    assert_eq!(req.spam_folder_ids[0], make_folder_id("STORE01", "SPAMTRAIN01"));
}

#[test]
fn test_dialog_show_filter_now_progress() {
    let config = make_test_config();
    let stats = ManagerStats::new();
    let dialog = ManagerDialog::new(&config, stats, None);

    let req = dialog.show_filter_now_progress();
    assert_eq!(req.folder_ids.len(), 1);
    assert_eq!(req.folder_ids[0], make_folder_id("STORE01", "INBOX01"));
}

#[test]
fn test_dialog_on_folder_select_watch() {
    let config = make_test_config();
    let stats = ManagerStats::new();
    let mut dialog = ManagerDialog::new(&config, stats, None);

    let new_folders = vec![
        make_folder_id("S1", "F1"),
        make_folder_id("S1", "F2"),
    ];
    dialog.on_folder_select(FolderTarget::Watch, new_folders.clone());

    assert_eq!(dialog.state().watch_folder_ids, new_folders);
    assert!(dialog.state().is_dirty());
}

#[test]
fn test_dialog_on_folder_select_spam() {
    let config = make_test_config();
    let stats = ManagerStats::new();
    let mut dialog = ManagerDialog::new(&config, stats, None);

    let folder = make_folder_id("S2", "SPAM_NEW");
    dialog.on_folder_select(FolderTarget::Spam, vec![folder.clone()]);

    assert_eq!(dialog.state().spam_folder_id, Some(folder));
    assert!(dialog.state().is_dirty());
}

#[test]
fn test_dialog_on_folder_select_unsure() {
    let config = make_test_config();
    let stats = ManagerStats::new();
    let mut dialog = ManagerDialog::new(&config, stats, None);

    let folder = make_folder_id("S2", "UNSURE_NEW");
    dialog.on_folder_select(FolderTarget::Unsure, vec![folder.clone()]);

    assert_eq!(dialog.state().unsure_folder_id, Some(folder));
    assert!(dialog.state().is_dirty());
}

#[test]
fn test_dialog_on_folder_select_ham_training() {
    let config = make_test_config();
    let stats = ManagerStats::new();
    let mut dialog = ManagerDialog::new(&config, stats, None);

    let folders = vec![
        make_folder_id("S1", "H1"),
        make_folder_id("S1", "H2"),
    ];
    dialog.on_folder_select(FolderTarget::HamTraining, folders.clone());

    assert_eq!(dialog.state().ham_training_folder_ids, folders);
    assert!(dialog.state().is_dirty());
}

#[test]
fn test_dialog_on_folder_select_spam_training() {
    let config = make_test_config();
    let stats = ManagerStats::new();
    let mut dialog = ManagerDialog::new(&config, stats, None);

    let folders = vec![make_folder_id("S1", "ST1")];
    dialog.on_folder_select(FolderTarget::SpamTraining, folders.clone());

    assert_eq!(dialog.state().spam_training_folder_ids, folders);
    assert!(dialog.state().is_dirty());
}

#[test]
fn test_dialog_update_stats() {
    let config = make_test_config();
    let stats = ManagerStats::new();
    let mut dialog = ManagerDialog::new(&config, stats, None);

    let new_stats = ManagerStats {
        ham_trained: 1000,
        spam_trained: 500,
        session_ham_trained: 10,
        session_spam_trained: 5,
        session_classified: 100,
        session_ham_classified: 60,
        session_unsure_classified: 15,
        session_spam_classified: 25,
        total_ham_classified: 5000,
        total_unsure_classified: 300,
        total_spam_classified: 2000,
        correctly_classified: 0,
        false_positives: 0,
        false_negatives: 0,
        manually_classified_good: 0,
        manually_classified_spam: 0,
        last_reset_date: None,
    };
    dialog.update_stats(new_stats.clone());

    assert_eq!(dialog.stats(), &new_stats);
}

#[test]
fn test_stats_timer_id_is_distinct() {
    // The timer ID must not conflict with any dialog control IDs.
    assert_eq!(IDC_STATS_TIMER, 3100);
    // Ensure it doesn't overlap with the highest control ID (IDC_RESET_STATS = 3044).
    assert!(IDC_STATS_TIMER as u16 > IDC_RESET_STATS);
}

#[test]
fn test_stats_refresh_interval() {
    // The refresh interval should be 2 seconds (2000ms) per the design.
    assert_eq!(STATS_REFRESH_MS, 2000);
}

#[test]
fn a_state_can_be_marked_as_changed() {
    let mut state = ManagerState::from_config(&plain_config());
    assert!(!state.is_dirty());
    state.set_dirty();
    assert!(state.is_dirty());
}

#[test]
fn thresholds_that_differ_by_rounding_only_are_the_same() {
    let mut state = ManagerState::from_config(&make_test_config());
    state.set_spam_threshold(double(90.0 + 1e-14));
    assert_eq!(f64::from_bits(state.spam_threshold.bits), 90.00000000000001);
    assert!(state.is_dirty());
    let mut config = make_test_config();
    config.filter.spam_threshold = double(0.1 + 0.2);
    let mut state = ManagerState::from_config(&config);
    state.set_spam_threshold(double(0.3));
    assert!(!state.is_dirty());
}

#[test]
fn a_threshold_that_is_no_number_changes_nothing() {
    let mut state = ManagerState::from_config(&make_test_config());
    state.set_unsure_threshold(double(f64::NAN));
    assert!(!state.is_dirty());
    assert_eq!(state.unsure_threshold, double(15.0));
}

#[test]
fn applying_twice_is_applying_once() {
    let mut state = ManagerState::from_config(&make_test_config());
    state.set_unsure_threshold(double(40.0));
    let mut target = plain_config();
    state.apply_to_config(&mut target);
    let again = ManagerState::from_config(&target);
    assert_eq!(again.unsure_threshold, state.unsure_threshold);
    assert_eq!(again.watch_folder_ids, state.watch_folder_ids);
    assert_eq!(again.spam_folder_id, state.spam_folder_id);
    assert!(!again.is_dirty());
}

#[test]
fn choosing_no_folder_for_spam_clears_it() {
    let mut dialog = ManagerDialog::new(&make_test_config(), ManagerStats::new(), None);
    dialog.on_folder_select(FolderTarget::Spam, vec![]);
    assert_eq!(dialog.state().spam_folder_id, None);
}

#[test]
fn messages_to_the_dialog() {
    assert_eq!(ManagerDialog::dialog_proc(WM_INITDIALOG, 0), DialogAction::Initialise);
    assert_eq!(ManagerDialog::dialog_proc(WM_INITDIALOG, 0).result(), 1);
    assert_eq!(ManagerDialog::dialog_proc(WM_COMMAND, IDC_OK as u64), DialogAction::End(1));
    assert_eq!(
        ManagerDialog::dialog_proc(WM_COMMAND, 0x1_0000 + IDC_CANCEL as u64),
        DialogAction::End(0)
    );
    assert_eq!(
        ManagerDialog::dialog_proc(WM_COMMAND, IDC_RESET_STATS as u64),
        DialogAction::AskForReset
    );
    for id in [IDC_TRAIN_NOW, IDC_FILTER_NOW, IDC_BROWSE_WATCH] {
        assert_eq!(ManagerDialog::dialog_proc(WM_COMMAND, id as u64), DialogAction::Ignore);
    }
    assert_eq!(ManagerDialog::dialog_proc(WM_TIMER, 7), DialogAction::Refresh);
    assert_eq!(ManagerDialog::dialog_proc(WM_CLOSE, 0), DialogAction::StopTimerAndEnd);
    assert_eq!(ManagerDialog::dialog_proc(0x0002, 0), DialogAction::Ignore);
    assert_eq!(ManagerDialog::dialog_proc(0x0002, 0).result(), 0);
}

#[test]
fn statistics_controls() {
    let mut stats = ManagerStats::with_values(1_523, 7, 12_345);
    stats.session_ham_trained = 12;
    let texts = ManagerDialog::populate_stats_controls(&stats);
    assert_eq!(texts.len(), 9);
    assert_eq!(texts[0], (IDC_STAT_HAM_TRAINED, "1,523 (session: 12)".to_string()));
    assert_eq!(texts[8].1, "12,345");
}

#[test]
fn corrections_are_shown() {
    let (mut counters, _) = StatisticsManager::new(None, 100);
    counters.on_correction(Classification::Spam, true);
    counters.on_correction(Classification::Ham, false);
    counters.on_correction(Classification::Ham, false);
    counters.on_correction(Classification::Spam, false);
    counters.on_correction(Classification::Unsure, true);
    counters.on_correction(Classification::Ham, true);
    assert!(ManagerStats::can_show(&counters));
    let stats = ManagerStats::from_statistics(&counters);
    assert_eq!(stats.correctly_classified, 3);
    assert_eq!(stats.false_positives, 1);
    assert_eq!(stats.false_negatives, 2);
    assert_eq!((stats.manually_classified_good, stats.manually_classified_spam), (0, 0));
    assert_eq!(stats.last_reset_date, None);

    let mut dialog =
        ManagerDialog::new(&make_test_config(), ManagerStats::new(), Some(counters));
    assert!(dialog.counters_can_be_shown());
    assert!(dialog.refresh());
    assert_eq!(dialog.stats().false_negatives, 2);
    assert!(dialog.reset_statistics(true).is_some());
    assert_eq!(dialog.stats().correctly_classified, 0);
    assert_eq!(dialog.stats().false_positives, 0);
    assert_eq!(dialog.stats().false_negatives, 0);
}

#[test]
fn settings_are_saved_if_they_changed_and_were_written() {
    let mut config = make_test_config();
    let mut dialog = ManagerDialog::new(&config, ManagerStats::new(), None);
    let applied = dialog.apply_changes(&mut config);
    assert!(!ManagerDialog::saved(applied, true));
    dialog.state_mut().set_filter_enabled(!config.filter.enabled);
    let applied = dialog.apply_changes(&mut config);
    assert!(ManagerDialog::saved(applied, true));
    assert!(!ManagerDialog::saved(applied, false));
}

#[test]
fn resetting_needs_counters_and_a_confirmation() {
    let (mut counters, _) = StatisticsManager::new(None, 100);
    counters.on_trained(true);
    let mut dialog =
        ManagerDialog::new(&make_test_config(), ManagerStats::new(), Some(counters));
    assert!(dialog.refresh());
    assert_eq!(dialog.stats().spam_trained, 1);
    assert!(dialog.asks_before_reset());
    assert!(dialog.reset_statistics(false).is_none());
    assert_eq!(dialog.stats().spam_trained, 1);
    assert!(dialog.reset_statistics(true).is_some());
    assert_eq!(dialog.stats().spam_trained, 0);
    assert_eq!(dialog.stats().session_spam_trained, 1);
    let mut without = ManagerDialog::new(&make_test_config(), ManagerStats::new(), None);
    assert!(!without.asks_before_reset());
    assert!(!without.refresh());
    assert!(without.reset_statistics(true).is_none());
}
