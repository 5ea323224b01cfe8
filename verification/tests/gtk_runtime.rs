//! The user interface's runtime.

use spambayes_addin::config::{
    AppConfig, CalendarConfig, CalendarSpamAction, FilterAction, FilterConfig, FilterNowConfig,
    GeneralConfig, MessageReadState, NotificationConfig, TrainingConfig, UpdateCheckInterval,
    UpdateConfig,
};
use spambayes_addin::double::Double;
use spambayes_addin::gui::gtk_runtime::{
    gtk_directory, gtk_places, gtk_resources, gtk_variables, init_or_fallback, module_file_path,
    GtkInitError, GtkRuntime, GuiAction, GuiCommand,
};
use spambayes_addin::gui::message_boxes::{MsgBoxKind, MsgBoxResult};
use spambayes_addin::gui::wizard_window::WizardResult;
use spambayes_addin::manager_dlg::{ManagerState, ManagerStats};
use spambayes_addin::wide::to_wide_null;

fn double(value: f64) -> Double {
    Double { bits: value.to_bits() }
}

fn some_config() -> AppConfig {
    AppConfig {
        general: GeneralConfig {
            data_directory: String::new(),
            verbose: 0,
            delete_as_spam_message_state: MessageReadState::Unchanged,
            recover_from_spam_message_state: MessageReadState::Unchanged,
        },
        filter: FilterConfig {
            enabled: false,
            spam_threshold: double(90.0),
            unsure_threshold: double(15.0),
            spam_action: FilterAction::Untouched,
            unsure_action: FilterAction::Untouched,
            ham_action: FilterAction::Untouched,
            spam_mark_as_read: false,
            unsure_mark_as_read: false,
            ham_mark_as_read: false,
            watch_folder_ids: vec![],
            spam_folder_id: None,
            unsure_folder_id: None,
            ham_folder_id: None,
            spam_auto_cleanup_enabled: false,
            spam_auto_cleanup_days: 30,
            timer_enabled: true,
            timer_start_delay: double(2.0),
            timer_interval: double(1.0),
            timer_only_receive_folders: true,
            timer_wait_for_sync: true,
            save_spam_info: true,
        },
        training: TrainingConfig {
            ham_folder_ids: vec![],
            spam_folder_ids: vec![],
            rescore: true,
            rebuild: true,
            train_recovered_spam: true,
            train_manual_spam: true,
        },
        filter_now: FilterNowConfig {
            folder_ids: vec![],
            only_unread: false,
            only_unseen: false,
            action_all: true,
        },
        notification: NotificationConfig {
            notify_sound_enabled: false,
            notify_ham_sound: String::new(),
            notify_unsure_sound: String::new(),
            notify_spam_sound: String::new(),
            notify_accumulate_delay: double(10.0),
        },
        calendar: CalendarConfig {
            calendar_filtering_enabled: false,
            calendar_spam_action: CalendarSpamAction::Prompt,
        },
        update: UpdateConfig {
            check_interval: UpdateCheckInterval::Weekly,
            update_url: String::new(),
        },
    }
}

fn show_manager(runtime: &GtkRuntime) -> GuiCommand {
    let config = some_config();
    let state = ManagerState::from_config(&config);
    runtime.show_manager(state, config, None)
}

fn started() -> GtkRuntime {
    GtkRuntime::init(Ok(()), Some(Ok(()))).unwrap()
}

#[test]
fn test_is_open_guard_initially_false() {
    let runtime = started();
    assert!(!runtime.is_manager_open());
}

#[test]
fn test_is_open_guard_set_and_clear() {
    let mut runtime = started();

    // Opening
    let command = show_manager(&runtime);
    assert!(matches!(runtime.handle(command), GuiAction::OpenManager { .. }));
    assert!(runtime.is_manager_open());

    // Closing
    runtime.mark_manager_closed();
    assert!(!runtime.is_manager_open());
}

#[test]
fn test_is_open_guard_prevents_duplicate() {
    let mut runtime = GtkRuntime { is_open: true };

    let command = show_manager(&runtime);
    assert!(matches!(command, GuiCommand::RaiseManager));
    assert!(
        !matches!(runtime.handle(command), GuiAction::OpenManager { .. }),
        "Should not allow opening when already open"
    );
    // Nor does a command that was sent before the window opened.
    let early = show_manager(&started());
    assert!(matches!(runtime.handle(early), GuiAction::RaiseManager));
}

#[test]
fn test_gui_command_enum_construction() {
    let _cmd = GuiCommand::Shutdown;
    let _cmd = GuiCommand::ShowMessageBox {
        kind: MsgBoxKind::Error,
        title: "Test".to_string(),
        message: "Hello".to_string(),
    };
}

#[test]
fn test_gui_command_show_manager_construction() {
    let config = some_config();
    let state = ManagerState::from_config(&config);
    let _cmd = GuiCommand::ShowManager { state, config, folder_tree: None, stats: None };
}

#[test]
fn test_gui_command_show_wizard_construction() {
    let _cmd = GuiCommand::ShowWizard;
}

#[test]
fn test_fallback_message_box_strings() {
    let title_wide: Vec<u16> = to_wide_null("SpamBayes");
    let message_wide: Vec<u16> = to_wide_null("GTK4 DLLs not found.");
    assert!(!title_wide.is_empty());
    assert!(!message_wide.is_empty());
    assert_eq!(*title_wide.last().unwrap(), 0u16);
    assert_eq!(*message_wide.last().unwrap(), 0u16);
}

#[test]
fn test_fallback_message_box_unicode() {
    let title_wide: Vec<u16> = to_wide_null("SpamBayes — エラー");
    let message_wide: Vec<u16> = to_wide_null("GTK4 ランタイムが見つかりません 🚫");
    assert_eq!(*title_wide.last().unwrap(), 0u16);
    assert_eq!(*message_wide.last().unwrap(), 0u16);
}

#[test]
fn test_fallback_message_box_empty_strings() {
    let title_wide: Vec<u16> = to_wide_null("");
    let message_wide: Vec<u16> = to_wide_null("");
    assert_eq!(title_wide.len(), 1);
    assert_eq!(message_wide.len(), 1);
    assert_eq!(title_wide[0], 0u16);
}

#[test]
fn test_channel_send_recv() {
    let (tx, rx) = crossbeam_channel::unbounded::<GuiCommand>();

    tx.send(GuiCommand::Shutdown).unwrap();

    match rx.try_recv() {
        Ok(GuiCommand::Shutdown) => {}
        _ => panic!("Expected Shutdown command"),
    }
}

#[test]
fn test_message_box_response_channel() {
    let (response_tx, response_rx) = crossbeam_channel::bounded::<MsgBoxResult>(1);

    response_tx.send(MsgBoxResult::Yes).unwrap();

    let result = response_rx.recv().unwrap();
    assert_eq!(result, MsgBoxResult::Yes);
    assert_eq!(GtkRuntime::message_box(Some(result)), MsgBoxResult::Yes);
}

#[test]
fn test_message_box_response_timeout() {
    let (_response_tx, response_rx) = crossbeam_channel::bounded::<MsgBoxResult>(1);

    let result = response_rx.recv_timeout(std::time::Duration::from_millis(10));
    assert!(result.is_err(), "Should timeout when no response");
    assert_eq!(GtkRuntime::message_box(result.ok()), MsgBoxResult::Cancel);
}

#[test]
fn test_gui_command_show_clues_construction() {
    let (tx, rx) = crossbeam_channel::unbounded::<GuiCommand>();

    tx.send(GtkRuntime::show_clues("Test Email Subject", "Token: 0.99\nAnother: 0.01")).unwrap();

    match rx.try_recv() {
        Ok(GuiCommand::ShowClues { subject, clues_text }) => {
            assert_eq!(subject, "Test Email Subject");
            assert!(clues_text.contains("Token"));
        }
        _ => panic!("Expected ShowClues command"),
    }
}

#[test]
fn commands_and_what_they_do() {
    let mut runtime = started();
    assert!(matches!(runtime.handle(GuiCommand::RaiseManager), GuiAction::Nothing));
    assert!(matches!(runtime.handle(GuiCommand::ShowWizard), GuiAction::OpenWizard));
    assert!(matches!(
        runtime.handle(GuiCommand::ShowFilterNow { config: some_config(), folder_tree: None }),
        GuiAction::OpenFilterNow { folder_tree: None, .. }
    ));
    let question = GtkRuntime::show_message_box(MsgBoxKind::Question, "t", "m");
    match runtime.handle(question) {
        GuiAction::OpenMessageBox { kind: MsgBoxKind::Question, title, message } => {
            assert_eq!((title.as_str(), message.as_str()), ("t", "m"));
        }
        other => panic!("{other:?}"),
    }
    assert!(matches!(
        runtime.handle(GtkRuntime::show_clues("s", "c")),
        GuiAction::OpenClues { .. }
    ));
    assert!(!runtime.is_manager_open());
    assert!(matches!(runtime.handle(GuiCommand::Shutdown), GuiAction::Quit));
}

#[test]
fn numbers_on_training_are_zero_if_they_are_not_known() {
    let mut runtime = started();
    let config = some_config();
    let state = ManagerState::from_config(&config);
    let known = Some(ManagerStats::with_values(1, 2, 3));
    let command = runtime.show_manager_with_training(state, config, None, known);
    match runtime.handle(command) {
        GuiAction::OpenManager { stats, .. } => {
            assert_eq!(stats, ManagerStats::with_values(1, 2, 3));
        }
        other => panic!("{other:?}"),
    }
    let mut runtime = started();
    let command = show_manager(&runtime);
    match runtime.handle(command) {
        GuiAction::OpenManager { stats, .. } => assert_eq!(stats, ManagerStats::new()),
        other => panic!("{other:?}"),
    }
}

#[test]
fn the_first_run_shows_the_wizard_and_then_the_manager() {
    let runtime = started();
    let config = some_config();
    let state = ManagerState::from_config(&config);
    let (now, later) = runtime.show_manager_or_wizard(true, state, config, None, None);
    assert!(matches!(now, GuiCommand::ShowWizard));
    let completed = WizardResult::Completed {
        spam_folder: "a".to_string(),
        unsure_folder: "b".to_string(),
    };
    let waiting = GtkRuntime::after_wizard(&completed, later.unwrap());
    assert!(matches!(waiting, Some(GuiCommand::ShowManager { .. })));
    assert!(GtkRuntime::after_wizard(&WizardResult::Cancelled, waiting.unwrap()).is_none());

    let config = some_config();
    let state = ManagerState::from_config(&config);
    let (now, later) = runtime.show_manager_or_wizard(false, state, config, None, None);
    assert!(matches!(now, GuiCommand::ShowManager { .. }));
    assert!(later.is_none());
}

#[test]
fn starting_can_fail_in_three_ways() {
    let unspawned = GtkRuntime::init(Err("no thread".to_string()), None).unwrap_err();
    assert_eq!(unspawned.message(), "GTK4 thread startup failed: no thread");
    let silent = GtkRuntime::init(Ok(()), None).unwrap_err();
    assert_eq!(
        silent.message(),
        "GTK4 thread startup failed: GTK thread exited before signaling readiness"
    );
    let failed =
        GtkRuntime::init(Ok(()), Some(Err(GtkInitError::not_initialized("x")))).unwrap_err();
    assert_eq!(
        failed.message(),
        "GTK4 runtime DLLs not found: gtk4::init() failed — GTK4 DLLs may not be installed: x"
    );
    assert_eq!(
        GtkInitError::InitFailed("y".to_string()).message(),
        "GTK4 initialization failed: y"
    );
}

#[test]
fn a_runtime_that_did_not_start_is_explained() {
    assert!(init_or_fallback(Ok(started())).is_ok());
    let message = init_or_fallback(Err(GtkInitError::InitFailed("y".to_string()))).unwrap_err();
    assert_eq!(
        message,
        "The SpamBayes GUI could not be initialized.\n\n\
         Error: GTK4 initialization failed: y\n\n\
         The spam filter will continue to work, but the settings manager is unavailable.\n\n\
         Please ensure GTK4 runtime libraries are installed."
    );
}

#[test]
fn path_of_the_add_in() {
    let buffer: Vec<u16> = "C:\\a.dll".encode_utf16().collect();
    assert_eq!(module_file_path(&buffer, 2), Some("C:".to_string()));
    assert_eq!(module_file_path(&buffer, 7), Some("C:\\a.dl".to_string()));
    assert_eq!(module_file_path(&buffer, 8), None);
    assert_eq!(module_file_path(&buffer, 9), None);
    assert_eq!(module_file_path(&buffer, 0), None);
}

#[test]
fn where_the_toolkit_is_looked_for() {
    let places = gtk_places("C:\\app");
    assert_eq!(places.library, "C:\\app\\libgtk-4-1.dll");
    assert_eq!(places.subdirectory, "C:\\app\\gtk4");
    assert_eq!(gtk_directory("C:\\app", true, true), Some("C:\\app".to_string()));
    assert_eq!(gtk_directory("C:\\app", false, true), Some("C:\\app\\gtk4".to_string()));
    assert_eq!(gtk_directory("C:\\app", false, false), None);
    let (share, loaders) = gtk_resources("C:\\app");
    assert_eq!(share, "C:\\app\\share");
    assert_eq!(loaders, "C:\\app\\lib\\gdk-pixbuf-2.0\\2.10.0\\loaders.cache");
}

#[test]
fn environment_for_the_toolkit() {
    assert_eq!(
        gtk_variables("C:\\app", "C:\\bin", false, "d", false),
        [("PATH", "C:\\app;C:\\bin".to_string())]
    );
    assert_eq!(
        gtk_variables("C:\\app", "", true, "", true),
        [
            ("PATH", "C:\\app;".to_string()),
            ("XDG_DATA_DIRS", "C:\\app\\share".to_string()),
            (
                "GDK_PIXBUF_MODULE_FILE",
                "C:\\app\\lib\\gdk-pixbuf-2.0\\2.10.0\\loaders.cache".to_string()
            ),
        ]
    );
    assert_eq!(
        gtk_variables("C:\\app", "", true, "d", false)[1],
        ("XDG_DATA_DIRS", "C:\\app\\share;d".to_string())
    );
}
