//! The manager window and its tabs.

use spambayes_addin::config::{
    AppConfig, CalendarConfig, CalendarSpamAction, Classification, EntryId, FilterAction, FilterConfig,
    FilterNowConfig, FolderId, GeneralConfig, MessageReadState, NotificationConfig, StoreId,
    TrainingConfig, UpdateCheckInterval, UpdateConfig,
};
use spambayes_addin::double::Double;
use spambayes_addin::gui::manager_window::{
    combo_to_filter_action, dirs_or_default, CloseRequest, KeyAction, ManagerTexts, ManagerWindow,
    FILTERING_TAB, GENERAL_TAB, KEY_F1, TAB_TITLES, TRAINING_TAB,
};
use spambayes_addin::gui::slider::SliderControl;
use spambayes_addin::gui::tabs::advanced::{
    check_for_update, log_file_missing, log_viewer, reset_database, show_reset_result, AdvancedTab,
    UpdateFetch, UpdateStatus,
};
use spambayes_addin::gui::tabs::calendar::CalendarTab;
use spambayes_addin::gui::tabs::filtering::{action_to_index, ActionSection, FilteringTab};
use spambayes_addin::gui::tabs::general::{
    format_spam_folder, format_unsure_folder, format_watched_folders, update_imbalance_warning,
    FolderNames, GeneralTab, IMBALANCE_WARNING,
};
use spambayes_addin::gui::tabs::notifications::NotificationsTab;
use spambayes_addin::gui::tabs::statistics::{
    percentage_ratios, sums_can_be_shown, Percentages, Ratio, StatisticsTab,
};
use spambayes_addin::gui::tabs::training::{
    index_to_message_read_state, message_read_state_to_index, on_training_message, training_outcome,
    FolderChoice, StartTraining, TrainingMessage, TrainingReaction, TrainingResult, TrainingTab,
    DISCONNECTED_MESSAGE, NO_FOLDERS_MESSAGE, PANIC_MESSAGE, REBUILD_QUESTION, UNAVAILABLE_MESSAGE,
};
use spambayes_addin::manager_dlg::{ManagerState, ManagerStats};
use spambayes_addin::statistics::StatisticsManager;

fn double(value: f64) -> Double {
    Double { bits: value.to_bits() }
}

fn folder(entry: &str) -> FolderId {
    FolderId::new(StoreId::new("STORE"), EntryId::new(entry))
}

fn owned(texts: &[&str]) -> Vec<String> {
    texts.iter().map(|text| text.to_string()).collect()
}

fn some_config() -> AppConfig {
    AppConfig {
        general: GeneralConfig {
            data_directory: String::new(),
            verbose: 0,
            delete_as_spam_message_state: MessageReadState::Unchanged,
            recover_from_spam_message_state: MessageReadState::Unchanged,
        },
        filter: FilterConfig {
            enabled: false,
            spam_threshold: double(90.0),
            unsure_threshold: double(15.0),
            spam_action: FilterAction::Untouched,
            unsure_action: FilterAction::Untouched,
            ham_action: FilterAction::Untouched,
            spam_mark_as_read: false,
            unsure_mark_as_read: false,
            ham_mark_as_read: false,
            watch_folder_ids: vec![],
            spam_folder_id: None,
            unsure_folder_id: None,
            ham_folder_id: None,
            spam_auto_cleanup_enabled: false,
            spam_auto_cleanup_days: 30,
            timer_enabled: true,
            timer_start_delay: double(2.0),
            timer_interval: double(1.0),
            timer_only_receive_folders: true,
            timer_wait_for_sync: true,
            save_spam_info: true,
        },
        training: TrainingConfig {
            ham_folder_ids: vec![],
            spam_folder_ids: vec![],
            rescore: true,
            rebuild: true,
            train_recovered_spam: true,
            train_manual_spam: true,
        },
        filter_now: FilterNowConfig {
            folder_ids: vec![],
            only_unread: false,
            only_unseen: false,
            action_all: true,
        },
        notification: NotificationConfig {
            notify_sound_enabled: false,
            notify_ham_sound: String::new(),
            notify_unsure_sound: String::new(),
            notify_spam_sound: String::new(),
            notify_accumulate_delay: double(10.0),
        },
        calendar: CalendarConfig {
            calendar_filtering_enabled: false,
            calendar_spam_action: CalendarSpamAction::Prompt,
        },
        update: UpdateConfig {
            check_interval: UpdateCheckInterval::Weekly,
            update_url: String::new(),
        },
    }
}

fn texts() -> ManagerTexts {
    ManagerTexts {
        spam_threshold: "90.0".to_string(),
        unsure_threshold: "15.0".to_string(),
        start_delay: "2.0".to_string(),
        interval: "1.0".to_string(),
        folders: FolderNames { watched: owned(&["Inbox"]), spam: vec![], unsure: vec![] },
        ham_training: owned(&["Good"]),
        spam_training: vec![],
    }
}

fn window(config: AppConfig) -> ManagerWindow {
    let state = ManagerState::from_config(&config);
    ManagerWindow::new(&state, &ManagerStats::with_values(10, 3, 0), config, &texts(), None)
}

#[test]
fn sliders_and_entries_go_together() {
    let mut control = SliderControl::new(double(90.0), "90.0", double(100.0).bits);
    assert!(control.on_scale_changed(double(42.5), "42.5"));
    assert_eq!((control.value, control.entry.as_str()), (double(42.5), "42.5"));
    assert!(!control.on_scale_changed(double(7.0), "7.0"));
    assert!(!control.on_entry_committed(Some(double(7.0)), "7.0"));
    assert_eq!((control.value, control.entry.as_str()), (double(42.5), "42.5"));
    control.end_update();
    assert!(control.on_entry_committed(Some(double(250.0)), "100.0"));
    assert_eq!((control.value, control.entry.as_str()), (double(100.0), "100.0"));
    control.end_update();
    assert!(control.on_entry_committed(None, "ignored"));
    assert_eq!(control.entry, "100.0");
}

#[test]
fn general_tab_texts() {
    let mut config = some_config();
    let state = ManagerState::from_config(&config);
    assert_eq!(format_watched_folders(&state, &vec![]), "Watching: (not configured)");
    assert_eq!(format_spam_folder(&state, &vec![]), "Spam folder: (not configured)");
    assert_eq!(format_unsure_folder(&state, &vec![]), "Unsure folder: (not configured)");
    config.filter.watch_folder_ids = vec![folder("A"), folder("B")];
    config.filter.spam_folder_id = Some(folder("S"));
    config.filter.unsure_folder_id = Some(folder("U"));
    let state = ManagerState::from_config(&config);
    assert_eq!(
        format_watched_folders(&state, &owned(&["Inbox", "Lists"])),
        "Watching 'Inbox'; 'Lists'."
    );
    assert_eq!(format_spam_folder(&state, &owned(&["Junk"])), "Spam managed in 'Junk'.");
    assert_eq!(format_unsure_folder(&state, &vec![]), "Unsure managed in '(configured)'.");
}

#[test]
fn imbalanced_training_is_pointed_out() {
    assert_eq!(update_imbalance_warning(0, 0), None);
    assert_eq!(update_imbalance_warning(1, 0), Some(IMBALANCE_WARNING));
    assert_eq!(update_imbalance_warning(20, 10), None);
    assert_eq!(update_imbalance_warning(21, 10), Some(IMBALANCE_WARNING));
    assert_eq!(update_imbalance_warning(10, 21), Some(IMBALANCE_WARNING));
    assert_eq!(update_imbalance_warning(u64::MAX, u64::MAX), None);
}

#[test]
fn general_tab_changes() {
    let state = ManagerState::from_config(&some_config());
    let names = FolderNames { watched: vec![], spam: vec![], unsure: vec![] };
    let mut tab = GeneralTab::new(&state, &ManagerStats::with_values(7, 7, 0), &names);
    assert_eq!(tab.db_status, "Database has 7 good and 7 spam.");
    assert_eq!(tab.filter_status, "Filter is PAUSED");
    assert!(!tab.is_filter_enabled());
    tab.update_filter_status(true);
    assert_eq!(tab.filter_status, "Filter is ACTIVE");
    tab.update_db_status(100, 7);
    assert_eq!(tab.db_status, "Database has 100 good and 7 spam.");
    assert_eq!(tab.imbalance, Some(IMBALANCE_WARNING));
    tab.set_filter_progress(double(0.5), true);
    assert_eq!((tab.progress, tab.progress_visible), (double(0.5), true));
    tab.show_filter_results(9, 4, 3, 2);
    assert!(!tab.progress_visible);
    assert_eq!(
        tab.filter_results.unwrap(),
        "Filtered 9 messages: 4 spam, 3 good, 2 unsure."
    );
}

#[test]
fn filtering_tab_sections() {
    let mut section = ActionSection::new(FilterAction::Untouched, Some(folder("S")), true);
    assert_eq!(section.folder_entry, "(configured)");
    assert!(!section.folder_sensitive);
    section.on_action_changed(Some(0));
    assert!(section.folder_sensitive);
    section.on_folder_browsed(&None);
    section.on_folder_browsed(&Some(vec![]));
    assert_eq!(section.folder_id, Some(folder("S")));
    section.on_folder_browsed(&Some(vec![(folder("T"), "Trash".to_string())]));
    assert_eq!((section.folder_id, section.folder_entry.as_str()), (Some(folder("T")), "Trash"));
}

#[test]
fn sliders_start_in_their_range() {
    let start = |value: f64, upper: f64| {
        let control = SliderControl::new(double(value), "shown", double(upper).bits);
        assert_eq!(control.entry, "shown");
        control.value
    };
    assert_eq!(start(150.0, 100.0), double(100.0));
    assert_eq!(start(-3.0, 100.0), double(0.0));
    assert_eq!(start(99.5, 100.0), double(99.5));
    assert_eq!(start(61.0, 60.0), double(60.0));

    let mut config = some_config();
    config.filter.spam_threshold = double(150.0);
    config.filter.unsure_threshold = double(-1.0);
    config.filter.timer_start_delay = double(600.0);
    config.filter.timer_interval = double(-2.5);
    config.notification.notify_accumulate_delay = double(90.0);
    let tab = FilteringTab::new(&ManagerState::from_config(&config), "150.0", "-1.0");
    assert_eq!((tab.spam.value, tab.unsure.value), (double(100.0), double(0.0)));
    assert_eq!((tab.spam.entry.as_str(), tab.unsure.entry.as_str()), ("150.0", "-1.0"));
    assert_eq!(tab.validate("100.0", "0.0"), Ok(()));
    let values = AdvancedTab::new(&config, "600.0", "-2.5").read_values();
    assert_eq!(values.timer_start_delay, double(60.0));
    assert_eq!(values.timer_interval, double(0.0));
    let tab = NotificationsTab::new(&config.notification);
    assert_eq!(tab.read_values().notify_accumulate_delay, double(60.0));
}

#[test]
fn filtering_tab_thresholds() {
    let state = ManagerState::from_config(&some_config());
    let mut tab = FilteringTab::new(&state, "90.0", "15.0");
    assert_eq!(tab.watched_label, "(no folders selected)");
    assert_eq!(tab.validate("90.0", "15.0"), Ok(()));
    tab.cross_validate();
    assert_eq!(tab.spam_note, None);
    tab.unsure.value = double(90.0);
    tab.cross_validate();
    assert!(tab.spam_note.is_some() && tab.unsure_note.is_some());
    assert_eq!(
        tab.validate("90.0", "90.0").unwrap_err(),
        "Spam threshold (90.0) must be greater than unsure threshold (90.0)"
    );
    tab.unsure.value = double(-1.0);
    assert_eq!(
        tab.validate("90.0", "-1.0").unwrap_err(),
        "Unsure threshold (-1.0) must be between 0 and 100"
    );
    tab.spam.value = double(101.0);
    assert_eq!(
        tab.validate("101.0", "-1.0").unwrap_err(),
        "Spam threshold (101.0) must be between 0 and 100"
    );
    tab.spam.value = double(f64::NAN);
    assert!(tab.validate("NaN", "-1.0").is_err());
}

#[test]
fn notes_follow_the_sliders() {
    let state = ManagerState::from_config(&some_config());
    let mut tab = FilteringTab::new(&state, "90.0", "15.0");
    assert!(tab.on_spam_changed(double(10.0), "10.0"));
    assert!(tab.spam_note.is_some() && tab.unsure_note.is_some());
    assert!(!tab.on_spam_committed(Some(double(95.0)), "95.0"));
    assert_eq!(tab.spam.value, double(10.0));
    assert!(tab.on_unsure_committed(Some(double(5.0)), "5.0"));
    assert!(tab.spam_note.is_none() && tab.unsure_note.is_none());
    tab.unsure.end_update();
    assert!(tab.on_unsure_changed(double(10.0), "10.0"));
    assert!(tab.spam_note.is_some() && tab.unsure_note.is_some());
}

#[test]
fn filtering_tab_folders_and_clean_up() {
    let state = ManagerState::from_config(&some_config());
    let mut tab = FilteringTab::new(&state, "90.0", "15.0");
    tab.on_watched_browsed(&Some(vec![(folder("A"), "a".to_string())]));
    assert_eq!(tab.watched_folder_ids, [folder("A")]);
    assert_eq!(tab.watched_label, "1 folder selected");
    tab.on_watched_browsed(&None);
    assert_eq!(tab.watched_label, "1 folder selected");
    tab.on_cleanup_toggled(true);
    assert!(tab.cleanup_enabled && tab.cleanup_sensitive);
    assert_eq!(tab.cleanup_days, 30);
}

#[test]
fn actions_are_found_again() {
    for action in [FilterAction::Move, FilterAction::Copy, FilterAction::Untouched] {
        assert_eq!(combo_to_filter_action(Some(action_to_index(action))), action);
    }
    assert_eq!(combo_to_filter_action(None), FilterAction::Untouched);
    assert_eq!(combo_to_filter_action(Some(9)), FilterAction::Untouched);
}

#[test]
fn read_states_are_found_again() {
    for state in [MessageReadState::Unchanged, MessageReadState::Read, MessageReadState::Unread] {
        assert_eq!(index_to_message_read_state(Some(message_read_state_to_index(state))), state);
    }
    assert_eq!(index_to_message_read_state(None), MessageReadState::Unchanged);
}

#[test]
fn training_folders() {
    let mut choice = FolderChoice::new(&vec![], &owned(&["x"]));
    assert_eq!(choice.entry, "");
    choice.resolve_folder_names(&owned(&["x"]));
    assert_eq!(choice.entry, "");
    choice.on_browsed(&Some(vec![
        (folder("A"), "a".to_string()),
        (folder("B"), "b".to_string()),
    ]));
    assert_eq!(choice.entry, "a; b");
    assert_eq!(choice.ids, [folder("A"), folder("B")]);
    choice.resolve_folder_names(&owned(&["c", "d"]));
    assert_eq!(choice.entry, "c; d");
    choice.on_browsed(&None);
    assert_eq!(choice.ids.len(), 2);
}

#[test]
fn starting_a_training() {
    let mut config = some_config();
    let tab = |config: &AppConfig| {
        let state = ManagerState::from_config(config);
        TrainingTab::new(&state, config, &vec![], &vec![])
    };
    assert!(matches!(
        tab(&config).start_training(None, true),
        StartTraining::Refuse(NO_FOLDERS_MESSAGE)
    ));
    config.training.spam_folder_ids = vec![folder("S")];
    assert!(matches!(
        tab(&config).start_training(None, true),
        StartTraining::Ask(REBUILD_QUESTION)
    ));
    assert!(matches!(tab(&config).start_training(Some(false), true), StartTraining::Cancel));
    assert!(matches!(
        tab(&config).start_training(Some(true), false),
        StartTraining::Refuse(UNAVAILABLE_MESSAGE)
    ));
    config.training.rebuild = false;
    match tab(&config).start_training(None, true) {
        StartTraining::Run { ham, spam, rescore, rebuild } => {
            assert!(ham.is_empty());
            assert_eq!(spam, [folder("S")]);
            assert!(rescore && !rebuild);
        }
        other => panic!("{other:?}"),
    }
}

#[test]
fn reports_of_a_training() {
    let progress = TrainingMessage::Progress {
        folder_name: "Inbox".to_string(),
        current: 3,
        total: 8,
    };
    match on_training_message(&progress) {
        TrainingReaction::Show { status, part } => {
            assert_eq!(status, "Training: Inbox (3/8)");
            assert_eq!(part, Some((3, 8)));
        }
        other => panic!("{other:?}"),
    }
    let empty = TrainingMessage::Progress { folder_name: String::new(), current: 0, total: 0 };
    assert!(matches!(
        on_training_message(&empty),
        TrainingReaction::Show { part: None, .. }
    ));
    let done = TrainingResult { total_processed: 10, new_entries: 4, errors: 1 };
    match on_training_message(&training_outcome(Some(Ok(done)))) {
        TrainingReaction::Finish(text) => assert_eq!(
            text,
            "Training complete!\n\nMessages processed: 10\nNew entries trained: 4\nErrors: 1"
        ),
        other => panic!("{other:?}"),
    }
    match on_training_message(&training_outcome(Some(Err("x".to_string())))) {
        TrainingReaction::Fail(text) => assert_eq!(text, "Training failed:\n\nx"),
        other => panic!("{other:?}"),
    }
    match on_training_message(&training_outcome(None)) {
        TrainingReaction::Fail(text) => assert!(text.ends_with(PANIC_MESSAGE)),
        other => panic!("{other:?}"),
    }
    match on_training_message(&TrainingMessage::Disconnected) {
        TrainingReaction::Fail(text) => assert_eq!(text, DISCONNECTED_MESSAGE),
        other => panic!("{other:?}"),
    }
}

#[test]
fn advanced_tab_values_are_read_back() {
    let mut config = some_config();
    config.update.check_interval = UpdateCheckInterval::Monthly;
    config.general.verbose = 3;
    let mut tab = AdvancedTab::new(&config, "2.0", "1.0");
    let values = tab.read_values();
    assert_eq!(values.timer_start_delay, double(2.0));
    assert_eq!(values.update_check_interval, UpdateCheckInterval::Monthly);
    assert_eq!(tab.verbosity_text(), "3");
    tab.on_diagnostics_saved("7", false);
    assert_eq!(tab.read_values().verbose, 7);
    assert!(!tab.read_values().save_spam_info);
    tab.on_diagnostics_saved("many", true);
    assert_eq!(tab.read_values().verbose, 0);
    tab.on_timer_toggled(false);
    assert!(!tab.timer_controls_sensitive);
    assert!(!tab.read_values().timer_enabled);
}

#[test]
fn update_notices() {
    let notice = |fetch: UpdateFetch| check_for_update(&fetch, "1.0", "77");
    let failed = notice(UpdateFetch::NetworkError("x".to_string())).unwrap();
    assert_eq!((failed.title, failed.message.as_str()), ("Update Check Failed", "Network error: x"));
    assert!(notice(UpdateFetch::Answered(200)).is_none());
    assert_eq!(notice(UpdateFetch::Answered(404)).unwrap().message, "Server returned HTTP 404");
    assert_eq!(
        notice(UpdateFetch::ReadError("y".to_string())).unwrap().message,
        "Failed to read response: y"
    );
    assert_eq!(
        notice(UpdateFetch::InvalidManifest("z".to_string())).unwrap().message,
        "Invalid version manifest: z"
    );
    let current = notice(UpdateFetch::Compared(UpdateStatus::UpToDate)).unwrap();
    assert_eq!(current.title, "Up to Date");
    assert_eq!(
        current.message,
        "You are running the latest version.\n\nVersion: 1.0\nBuild: 77"
    );
    let version = |notes: &str| {
        notice(UpdateFetch::Compared(UpdateStatus::NewVersionAvailable {
            current: "1.0".to_string(),
            latest: "2.0".to_string(),
            download_url: "u".to_string(),
            release_notes: notes.to_string(),
        }))
        .unwrap()
    };
    assert_eq!(
        version("").message,
        "A new version is available!\n\nCurrent: 1.0\nLatest: 2.0"
    );
    assert!(version("more").message.ends_with("\n\nWhat's new: more"));
    assert_eq!(version("").download_url, Some("u".to_string()));
    let build = notice(UpdateFetch::Compared(UpdateStatus::NewBuildAvailable {
        version: "1.0".to_string(),
        current_build: "77".to_string(),
        latest_build: "78".to_string(),
        download_url: "u".to_string(),
    }))
    .unwrap();
    assert_eq!(build.title, "Build Update Available");
    assert!(build.message.contains("Your build: 77\nLatest build: 78"));
}

#[test]
fn database_reset_and_log_file() {
    assert_eq!(show_reset_result(&reset_database(&None, &None)).0, "Database Reset");
    let lines = reset_database(&Some("busy".to_string()), &Some("gone".to_string()));
    assert_eq!(lines, ["spambayes.db: busy", "spambayes_msg.db: gone"]);
    let (title, text) = show_reset_result(&lines);
    assert_eq!(title, "Reset Error");
    assert_eq!(
        text,
        "Some files could not be deleted:\n\nspambayes.db: busy\nspambayes_msg.db: gone\n\n\
         The database may be in use. Try closing Outlook first."
    );
    assert!(log_file_missing("C:\\x.log").contains("Expected location:\nC:\\x.log\n"));
    assert_eq!(log_viewer(&None), "C:\\Windows\\notepad.exe");
    assert_eq!(log_viewer(&Some("D:\\W".to_string())), "D:\\W\\notepad.exe");
}

#[test]
fn calendar_tab_values_are_read_back() {
    for action in [CalendarSpamAction::Prompt, CalendarSpamAction::Trash, CalendarSpamAction::Move] {
        let config = CalendarConfig {
            calendar_filtering_enabled: true,
            calendar_spam_action: action,
        };
        let mut tab = CalendarTab::new(&config);
        assert_eq!(tab.read_values(), config);
        tab.on_enable_toggled(false);
        assert!(!tab.read_values().calendar_filtering_enabled);
        tab.on_action_changed(None);
        assert_eq!(tab.read_values().calendar_spam_action, CalendarSpamAction::Prompt);
    }
}

#[test]
fn notifications_tab_values_are_read_back() {
    let config = NotificationConfig {
        notify_sound_enabled: true,
        notify_ham_sound: "h".to_string(),
        notify_unsure_sound: "u".to_string(),
        notify_spam_sound: "s".to_string(),
        notify_accumulate_delay: double(12.75),
    };
    let mut tab = NotificationsTab::new(&config);
    assert_eq!(tab.delay.entry, "12");
    let read = tab.read_values();
    assert_eq!(read.notify_spam_sound, "s");
    assert_eq!(read.notify_accumulate_delay, double(12.75));
    assert!(tab.on_delay_changed(double(3.9)));
    assert_eq!(tab.delay.entry, "3");
    assert!(!tab.on_delay_committed(Some(double(75.0))));
    tab.delay.end_update();
    assert!(tab.on_delay_committed(Some(double(75.0))));
    assert_eq!((tab.delay.value, tab.delay.entry.as_str()), (double(60.0), "60"));
    tab.delay.end_update();
    assert!(tab.on_delay_committed(None));
    assert_eq!(tab.delay.entry, "60");
    tab.on_enable_toggled(false);
    assert!(!tab.controls_sensitive);
}

fn percent(ratio: Ratio) -> String {
    format!("{:.1}", ratio.part as f64 / ratio.total as f64 * 100.0)
}

fn shares(stats: &ManagerStats) -> Percentages<String> {
    let ratios = percentage_ratios(stats);
    Percentages {
        good: percent(ratios.good),
        spam: percent(ratios.spam),
        unsure: percent(ratios.unsure),
        correct: percent(ratios.correct),
        incorrect: percent(ratios.incorrect),
        false_positives: percent(ratios.false_positives),
        false_negatives: percent(ratios.false_negatives),
        spam_correct: percent(ratios.spam_correct),
        spam_unsure: percent(ratios.spam_unsure),
        good_incorrect: percent(ratios.good_incorrect),
        good_unsure: percent(ratios.good_unsure),
    }
}

#[test]
fn statistics_tab_labels() {
    let mut stats = ManagerStats::new();
    stats.total_ham_classified = 1_000;
    stats.total_spam_classified = 500;
    stats.total_unsure_classified = 500;
    stats.correctly_classified = 1_990;
    stats.false_positives = 4;
    stats.false_negatives = 6;
    let mut tab = StatisticsTab::new(&stats, &shares(&stats));
    assert_eq!(tab.labels[0], "Messages classified: 2,000");
    assert_eq!(tab.labels[1], "Good:  1,000 (50.0%)");
    assert_eq!(tab.labels[4], "Classified correctly:  1,990 (99.5% of total)");
    assert_eq!(tab.labels[5], "Classified incorrectly:  10 (0.5% of total)");
    assert_eq!(tab.labels[10], "Spam correctly identified:  98.8% (+ 98.8% unsure)");
    assert_eq!(tab.labels[11], "Good incorrectly identified:  0.4% (+ 49.8% unsure)");
    assert_eq!(tab.labels[12], "Last reset:  Never");
    let ratios = percentage_ratios(&stats);
    assert_eq!(ratios.good.part + ratios.spam.part + ratios.unsure.part, ratios.good.total);
    stats.last_reset_date = Some("2025-07-16".to_string());
    tab.refresh(&stats, &shares(&stats));
    assert_eq!(tab.labels[12], "Last reset:  2025-07-16");

    let nothing = ManagerStats::new();
    tab.refresh(&nothing, &shares(&nothing));
    assert_eq!(tab.labels[1], "Good:  0 (0.0%)");
    assert_eq!(tab.labels[7], "False negatives:  0 (0.0% of total)");
    assert_eq!(tab.labels[10], "Spam correctly identified:  0.0% (+ 0.0% unsure)");
    assert_eq!(tab.labels[11], "Good incorrectly identified:  0.0% (+ 0.0% unsure)");
}

#[test]
fn sums_that_the_statistics_tab_can_show() {
    let mut stats = ManagerStats::new();
    stats.total_ham_classified = u64::MAX - 3;
    stats.total_unsure_classified = 1;
    stats.total_spam_classified = 2;
    stats.false_positives = 3;
    assert!(sums_can_be_shown(&stats));
    stats.false_positives = 4;
    assert!(!sums_can_be_shown(&stats));
    stats.false_positives = 0;
    stats.total_spam_classified = 3;
    assert!(!sums_can_be_shown(&stats));
}

#[test]
fn statistics_tab_reset() {
    assert_eq!(StatisticsTab::today_iso_date(None), "Unknown");
    assert_eq!(StatisticsTab::today_iso_date(Some("d".to_string())), "d");
    let (mut counters, _) = StatisticsManager::new(None, 100);
    counters.on_classified(Classification::Spam);
    let mut manager = Some(counters);
    assert!(StatisticsTab::on_reset(&mut manager, false, "d").is_none());
    assert_eq!(manager.unwrap().session_stats().spam_classified, 1);
    let reset = StatisticsTab::on_reset(&mut manager, true, "d").unwrap();
    assert_eq!(reset.stats.last_reset_date, Some("d".to_string()));
    assert_eq!(reset.stats.session_spam_classified, 0);
    assert_eq!(manager.unwrap().lifetime_stats().total_spam_classified, 0);
    assert!(StatisticsTab::on_reset(&mut None, true, "d").is_none());
}

#[test]
fn data_directory() {
    assert_eq!(dirs_or_default(None), "SpamBayes");
    assert_eq!(dirs_or_default(Some("C:\\L")), "C:\\L\\SpamBayes");
    assert_eq!(window(some_config()).data_directory, "SpamBayes");
    let mut config = some_config();
    config.general.data_directory = "D:\\data".to_string();
    assert_eq!(window(config).data_directory, "D:\\data");
}

#[test]
fn an_untouched_window_saves_what_it_was_opened_with() {
    let mut config = some_config();
    config.filter.watch_folder_ids = vec![folder("A")];
    config.training.ham_folder_ids = vec![folder("H")];
    config.general.delete_as_spam_message_state = MessageReadState::Read;
    config.update.check_interval = UpdateCheckInterval::Monthly;
    let mut window = window(config);
    assert_eq!(window.apply_changes("90.0", "15.0"), Ok(()));
    let saved = &window.config;
    assert_eq!(saved.filter.watch_folder_ids, [folder("A")]);
    assert_eq!(saved.filter.spam_threshold, double(90.0));
    assert!(saved.filter.timer_wait_for_sync);
    assert_eq!(saved.training.ham_folder_ids, [folder("H")]);
    assert_eq!(saved.general.delete_as_spam_message_state, MessageReadState::Read);
    assert_eq!(saved.update.check_interval, UpdateCheckInterval::Monthly);
    assert_eq!(saved.filter.spam_auto_cleanup_days, 30);
}

#[test]
fn what_the_tabs_show_is_saved() {
    let mut window = window(some_config());
    window.general.enable_checked = true;
    window.filtering.spam.value = double(80.0);
    window.filtering.ham_section.on_action_changed(Some(1));
    window.filtering.spam_section.mark_read = true;
    window.training.spam_action = Some(2);
    window.training.not_spam_action = Some(1);
    window.advanced.wait_for_sync = false;
    window.advanced.on_diagnostics_saved("5", false);
    window.calendar.on_enable_toggled(true);
    window.notifications.on_enable_toggled(true);
    assert_eq!(window.apply_changes("80.0", "15.0"), Ok(()));
    let saved = &window.config;
    assert!(saved.filter.enabled);
    assert_eq!(saved.filter.spam_threshold, double(80.0));
    assert_eq!(saved.filter.ham_action, FilterAction::Copy);
    assert!(saved.filter.spam_mark_as_read);
    assert_eq!(saved.general.delete_as_spam_message_state, MessageReadState::Unread);
    assert_eq!(saved.general.recover_from_spam_message_state, MessageReadState::Read);
    assert!(!saved.filter.timer_wait_for_sync);
    assert_eq!(saved.general.verbose, 5);
    assert!(saved.calendar.calendar_filtering_enabled);
    assert!(saved.notification.notify_sound_enabled);
}

#[test]
fn refused_thresholds_keep_the_window_open() {
    let mut window = window(some_config());
    window.set_on_close();
    window.filtering.spam.value = double(10.0);
    let applied = window.apply_changes("10.0", "15.0");
    assert_eq!(window.config.filter.spam_threshold, double(90.0));
    let saved = ManagerWindow::saved(applied, Ok(()));
    match window.handle_close_request(saved) {
        CloseRequest::Stop(message) => assert_eq!(
            message,
            "Cannot save settings:\n\n\
             Spam threshold (10.0) must be greater than unsure threshold (15.0)"
        ),
        other => panic!("{other:?}"),
    }
    assert_eq!(window.page, FILTERING_TAB);
    assert!(window.notify_on_close);
}

#[test]
fn closing_is_reported_once() {
    let mut window = window(some_config());
    window.set_on_close();
    assert!(matches!(
        window.handle_close_request(Ok(())),
        CloseRequest::Proceed { notify: true }
    ));
    assert!(matches!(
        window.handle_close_request(Ok(())),
        CloseRequest::Proceed { notify: false }
    ));
}

#[test]
fn settings_that_cannot_be_written() {
    assert_eq!(
        ManagerWindow::saved(Ok(()), Err("disk full".to_string())).unwrap_err(),
        "Failed to save configuration: disk full"
    );
    assert_eq!(ManagerWindow::saved(Err("x".to_string()), Ok(())).unwrap_err(), "x");
    assert_eq!(ManagerWindow::saved(Ok(()), Ok(())), Ok(()));
}

#[test]
fn keys_of_the_manager_window() {
    let mut window = window(some_config());
    window.page = 5;
    assert_eq!(window.handle_key_pressed(KEY_F1, false), KeyAction::About);
    assert_eq!(window.handle_key_pressed('A' as u32, true), KeyAction::About);
    assert_eq!(window.handle_key_pressed('a' as u32, false), KeyAction::Pass);
    assert_eq!(window.handle_key_pressed(0xff1b, false), KeyAction::Close);
    assert_eq!(window.handle_key_pressed('c' as u32, true), KeyAction::Close);
    assert_eq!(window.page, 5);
    assert_eq!(window.handle_key_pressed('t' as u32, true), KeyAction::StartTraining);
    assert_eq!(window.page, TRAINING_TAB);
    assert_eq!(window.handle_key_pressed('R' as u32, true), KeyAction::RunFilter);
    assert_eq!(window.page, GENERAL_TAB);
    assert_eq!(window.handle_key_pressed('x' as u32, true), KeyAction::Pass);
    assert_eq!(TAB_TITLES.len(), 7);
}
