//! The smaller dialogs: progress, clues, wizard, Filter Now, message boxes and the folder browser.

use spambayes_addin::config::{EntryId, FilterNowConfig, FolderId, StoreId};
use spambayes_addin::double::Double;
use spambayes_addin::gui::clues_dialog::{CluesDialog, KEY_ESCAPE};
use spambayes_addin::gui::filter_now_dialog::{
    cut_names, folder_display, label_fits, CloseStep, FilterNowDialog, FilterProgress, FilterRun,
    RunStep, StartStop, CLOSE_QUESTION, SELECT_FOLDER,
};
use spambayes_addin::gui::folder_browser::{
    populate_tree_store, read_selection, FolderBrowserDialog, FolderNode, FolderProvider,
    NullFolderProvider, SelectedRow, SelectionMode,
};
use spambayes_addin::gui::mapi_folder_provider::{
    convert_node, hex_encode, FolderTreeNode, MailboxListing, MapiFolderProvider, StoreOutcome,
};
use spambayes_addin::gui::message_boxes::{
    ask_calendar_spam_action, ask_ok_cancel, ask_question, ask_retry_cancel, ask_yes_no_cancel,
    buttons_for, calendar_buttons, calendar_message, resolve_title, show_message, CalendarAction,
    MsgBoxKind, MsgBoxResult, DISMISSED,
};
use spambayes_addin::gui::progress_dialog::{ProgressDialog, THROTTLE_INTERVAL};
use spambayes_addin::gui::wizard_window::{
    CancelStep, NextStep, Preparation, WizardResult, WizardWindow, CANCEL_QUESTION, LEARN_TEXT,
    NO_SPAM_FOLDER, NO_UNSURE_FOLDER, PRESORTED_TEXT,
};

fn double(value: f64) -> Double {
    Double { bits: value.to_bits() }
}

fn folder(entry: &str) -> FolderId {
    FolderId::new(StoreId::new("STORE"), EntryId::new(entry))
}

fn owned(texts: &[&str]) -> Vec<String> {
    texts.iter().map(|text| text.to_string()).collect()
}

#[test]
fn progress_is_shown_at_most_ten_times_a_second() {
    let mut dialog = ProgressDialog::new();
    assert_eq!(dialog.status, "Initializing...");
    dialog.set_status("one", 5);
    assert_eq!(dialog.status, "one");
    dialog.set_status("two", 5 + THROTTLE_INTERVAL - 1);
    assert_eq!(dialog.status, "one");
    dialog.set_progress(double(0.5), 5 + THROTTLE_INTERVAL - 1);
    assert_eq!(dialog.text, None);
    dialog.set_progress(double(0.5), 5 + THROTTLE_INTERVAL);
    assert_eq!(dialog.text.as_deref(), Some("50%"));
    dialog.set_status("three", 6 + THROTTLE_INTERVAL);
    assert_eq!(dialog.status, "one");
    assert!(!dialog.should_update(3));
}

#[test]
fn percentages_of_progress() {
    for fraction in [0.0, 0.29, 0.57, 0.999, 1.0, 1.5, -2.0, f64::NAN, f64::INFINITY] {
        let mut dialog = ProgressDialog::new();
        dialog.set_progress(double(fraction), 0);
        let clamped = fraction.clamp(0.0, 1.0);
        assert_eq!(dialog.fraction.bits, clamped.to_bits());
        assert_eq!(dialog.text.unwrap(), format!("{}%", (clamped * 100.0) as u32));
    }
}

#[test]
fn a_bar_without_percentage() {
    let mut dialog = ProgressDialog::new();
    dialog.set_progress(double(0.5), 0);
    dialog.set_indeterminate(true);
    assert!(dialog.pulsing);
    assert_eq!(dialog.text, None);
    assert_eq!(dialog.fraction, double(0.0));
    dialog.set_indeterminate(false);
    assert!(!dialog.pulsing);
    assert_eq!(dialog.text.as_deref(), Some("0%"));
    dialog.set_indeterminate(true);
    dialog.close();
    assert!(!dialog.pulsing && !dialog.open);
}

#[test]
fn stopping_an_operation() {
    let mut dialog = ProgressDialog::new();
    assert!(!dialog.is_cancelled());
    dialog.on_stop();
    assert!(dialog.is_cancelled());
    assert_eq!(dialog.stop_label, "Stopping...");
    assert!(!dialog.stop_sensitive);
    let mut other = ProgressDialog::new();
    assert!(!other.on_close_request());
    assert!(other.is_cancelled() && other.open);
    assert_eq!(other.stop_label, "Stop");
}

#[test]
fn clues_title_is_cut_after_fifty_characters() {
    let short = CluesDialog::new("Hello", "clues", false);
    assert_eq!(short.title, "Spam Clues: Hello");
    let subject = "ü".repeat(51);
    let long = CluesDialog::new(&subject, "clues", false);
    assert_eq!(long.title, format!("Spam Clues: {}", "ü".repeat(50)));
    let exact = CluesDialog::new(&"x".repeat(50), "clues", false);
    assert_eq!(exact.title, format!("Spam Clues: {}", "x".repeat(50)));
}

#[test]
fn clues_dialog() {
    let mut dialog = CluesDialog::new("s", "the clues", true);
    assert_eq!(
        CluesDialog::markup("a &amp; b"),
        "<span size=\"large\" weight=\"bold\">a &amp; b</span>"
    );
    assert_eq!(dialog.on_copy(), "the clues");
    assert!(dialog.on_key(KEY_ESCAPE));
    assert!(!dialog.on_key(13));
    assert!(dialog.on_close_request());
    assert!(!dialog.on_close_request());
}

#[test]
fn wizard_goes_through_its_pages() {
    let mut wizard = WizardWindow::new(true);
    assert_eq!(wizard.page_name(), "page-1");
    assert_eq!(wizard.preparation_selection(), 0);
    assert!(!wizard.back_sensitive);
    wizard.go_back();
    assert_eq!(wizard.page, 0);
    assert!(matches!(wizard.go_next(), NextStep::ShowPage));
    assert_eq!(wizard.page_name(), "page-2");
    assert!(wizard.back_sensitive);
    wizard.go_next();
    assert_eq!(wizard.page_name(), "page-3");
    assert_eq!(wizard.training_text, LEARN_TEXT);
    assert_eq!(wizard.next_label, "Next >>");
    wizard.go_next();
    assert_eq!(wizard.page_name(), "page-4");
    assert_eq!(wizard.next_label, "Finish");
    wizard.go_back();
    assert_eq!(wizard.page_name(), "page-3");
    assert_eq!(wizard.next_label, "Next >>");
}

#[test]
fn wizard_skips_pages_for_manual_settings() {
    let mut wizard = WizardWindow::new(true);
    wizard.on_preparation_selected(Preparation::Manual);
    assert_eq!(wizard.preparation_selection(), 2);
    wizard.go_next();
    assert_eq!(wizard.page_name(), "page-4");
    wizard.go_back();
    assert_eq!(wizard.page_name(), "page-3");
    wizard.on_preparation_selected(Preparation::Presorted);
    wizard.update_training_text();
    assert_eq!(wizard.training_text, PRESORTED_TEXT);
    wizard.navigate_to_page(9);
    assert_eq!(wizard.page_name(), "page-3");
}

#[test]
fn wizard_wants_names_for_both_folders() {
    let mut wizard = WizardWindow::new(true);
    wizard.navigate_to_page(3);
    wizard.on_folders_edited(" \u{a0}", "x");
    assert!(matches!(wizard.go_next(), NextStep::Refuse(NO_SPAM_FOLDER)));
    wizard.on_folders_edited("x", "\t");
    assert!(matches!(wizard.go_next(), NextStep::Refuse(NO_UNSURE_FOLDER)));
    assert!(wizard.open && wizard.report_pending);
}

#[test]
fn wizard_reports_its_result_once() {
    let mut wizard = WizardWindow::new(true);
    wizard.navigate_to_page(3);
    match wizard.go_next() {
        NextStep::Finish { summary, report } => {
            assert_eq!(
                summary,
                "Configuration saved successfully!\n\n\
                 Spam folder: Junk E-Mail\n\
                 Unsure folder: Junk Suspects\n\n\
                 Next steps:\n\
                 1. Create these folders in Outlook if they don't exist\n\
                 2. Use the SpamBayes Manager to complete setup\n\
                 3. Enable filtering from the SpamBayes menu"
            );
            match report {
                Some(WizardResult::Completed { spam_folder, unsure_folder }) => {
                    assert_eq!(spam_folder, "Junk E-Mail");
                    assert_eq!(unsure_folder, "Junk Suspects");
                }
                other => panic!("{other:?}"),
            }
        }
        other => panic!("{other:?}"),
    }
    assert!(!wizard.open);
    assert!(matches!(wizard.do_cancel(Some(true)), CancelStep::Close(None)));
    assert!(matches!(wizard.finish(), NextStep::Finish { report: None, .. }));
}

#[test]
fn wizard_asks_before_it_is_left() {
    let mut wizard = WizardWindow::new(true);
    assert!(matches!(wizard.do_cancel(None), CancelStep::Ask(CANCEL_QUESTION)));
    assert!(matches!(wizard.do_cancel(Some(false)), CancelStep::Stay));
    assert!(wizard.open);
    assert!(matches!(
        wizard.do_cancel(Some(true)),
        CancelStep::Close(Some(WizardResult::Cancelled))
    ));
    assert!(!wizard.open);
    let mut unobserved = WizardWindow::new(false);
    assert!(matches!(unobserved.do_cancel(None), CancelStep::Close(None)));
}

fn filter_now(folders: &[&str]) -> FilterNowDialog {
    FilterNowDialog::new(&FilterNowConfig {
        folder_ids: folders.iter().map(|entry| folder(entry)).collect(),
        only_unread: false,
        only_unseen: true,
        action_all: true,
    })
}

#[test]
fn selected_folders_are_named_or_counted() {
    assert_eq!(filter_now(&[]).folder_label, "No folders selected");
    assert_eq!(filter_now(&["A"]).folder_label, "1 folder selected");
    assert_eq!(filter_now(&["A", "B"]).folder_label, "2 folders selected");
    let mut dialog = filter_now(&[]);
    dialog.on_browsed(&Some(vec![
        (folder("A"), "Inbox".to_string()),
        (folder("B"), "Lists".to_string()),
    ]));
    assert_eq!(dialog.folder_label, "Inbox, Lists");
    dialog.on_browsed(&None);
    assert_eq!(dialog.folder_label, "Inbox, Lists");
    dialog.on_browsed(&Some(vec![]));
    assert_eq!(dialog.folder_label, "No folders selected");
    assert_eq!(folder_display(&vec![], &owned(&["x"])), "No folders selected");
}

#[test]
fn long_folder_names_are_cut() {
    let sixty = "x".repeat(60);
    assert_eq!(cut_names(&sixty), sixty);
    let more = "x".repeat(61);
    assert_eq!(cut_names(&more), format!("{}...", "x".repeat(57)));
    let wide = "ü".repeat(30);
    assert_eq!(cut_names(&wide), wide);
    assert!(!label_fits(&vec!["ü".repeat(31)]));
    let odd = format!("x{}", "ü".repeat(30));
    assert!(label_fits(&vec![odd.clone()]));
    assert_eq!(cut_names(&odd), format!("x{}...", "ü".repeat(28)));
}

#[test]
fn filtering_needs_a_folder() {
    let mut dialog = filter_now(&[]);
    assert!(matches!(dialog.on_start_stop(), StartStop::Refuse(SELECT_FOLDER)));
    assert!(!dialog.is_filtering);
}

#[test]
fn a_run_saves_the_options_and_ends() {
    let mut dialog = filter_now(&["A", "B"]);
    assert_eq!(dialog.status, "Ready to filter");
    dialog.on_options_changed(false, true, false);
    assert!(dialog.saved.action_all);
    let options = match dialog.on_start_stop() {
        StartStop::Run(options) => options,
        other => panic!("{other:?}"),
    };
    assert!(!dialog.saved.action_all && dialog.saved.only_unread && !dialog.saved.only_unseen);
    assert_eq!(dialog.button_label, "Stop Filtering");
    assert_eq!(dialog.status, "Filtering messages...");
    assert!(dialog.is_filtering && dialog.pulsing);
    let mut run = FilterRun::new(options);
    let mut reports = Vec::new();
    loop {
        match run.step(dialog.cancelled) {
            RunStep::Work(progress) | RunStep::Stop(progress) => {
                dialog.on_progress(progress);
                reports.push(dialog.status.clone());
            }
            RunStep::End(progress) => {
                dialog.on_run_ended();
                assert!(dialog.on_progress(progress));
                break;
            }
        }
    }
    assert_eq!(
        reports,
        [
            "Filtering folder 1 of 2 (action_all=false, unread=true, unseen=false)...",
            "Filtering folder 2 of 2 (action_all=false, unread=true, unseen=false)..."
        ]
    );
    assert_eq!(dialog.status, "Filtering complete!");
    assert_eq!(dialog.button_label, "Start Filtering");
    assert!(!dialog.is_filtering && !dialog.pulsing);
}

#[test]
fn a_stopped_run_counts_until_it_has_ended() {
    let mut dialog = filter_now(&["A", "B", "C"]);
    let options = match dialog.on_start_stop() {
        StartStop::Run(options) => options,
        other => panic!("{other:?}"),
    };
    let mut run = FilterRun::new(options);
    assert!(matches!(run.step(false), RunStep::Work(_)));
    assert!(matches!(dialog.on_start_stop(), StartStop::Stop));
    assert_eq!(dialog.status, "Stopping...");
    assert!(dialog.is_filtering && dialog.cancelled);
    assert!(matches!(dialog.on_start_stop(), StartStop::Stop));
    match run.step(dialog.cancelled) {
        RunStep::Stop(FilterProgress::Status(text)) => assert_eq!(text, "Filtering cancelled."),
        other => panic!("{other:?}"),
    }
    match run.step(dialog.cancelled) {
        RunStep::End(progress) => {
            assert!(matches!(progress, FilterProgress::Complete { was_cancelled: true }));
            dialog.on_progress(progress);
        }
        other => panic!("{other:?}"),
    }
    assert_eq!(dialog.status, "Filtering stopped.");
    assert!(matches!(dialog.on_start_stop(), StartStop::Run(_)));
}

#[test]
fn closing_during_a_run_is_confirmed() {
    let mut dialog = filter_now(&["A"]);
    assert_eq!(dialog.close(None), CloseStep::Close);
    let mut dialog = filter_now(&["A"]);
    dialog.on_start_stop();
    assert_eq!(dialog.close(None), CloseStep::Ask(CLOSE_QUESTION));
    assert_eq!(dialog.close(Some(false)), CloseStep::Stay);
    assert!(dialog.is_filtering && dialog.open);
    assert_eq!(dialog.on_close_request(Some(true)), CloseStep::Close);
    assert!(dialog.cancelled && !dialog.is_filtering && !dialog.open);
    assert!(dialog.pulsing);
    let mut other = filter_now(&["A"]);
    other.on_start_stop();
    assert_eq!(other.close(Some(true)), CloseStep::Close);
    assert!(!other.pulsing);
}

#[test]
fn message_box_results() {
    assert_eq!(resolve_title(""), "SpamBayes");
    assert_eq!(resolve_title("x"), "x");
    assert!(ask_question(1) && !ask_question(0) && !ask_question(DISMISSED));
    assert!(ask_ok_cancel(1) && !ask_ok_cancel(0));
    assert!(ask_retry_cancel(1) && !ask_retry_cancel(DISMISSED));
    assert_eq!(ask_yes_no_cancel(2), Some(true));
    assert_eq!(ask_yes_no_cancel(1), Some(false));
    assert_eq!(ask_yes_no_cancel(DISMISSED), None);
    assert_eq!(show_message(MsgBoxKind::Info, DISMISSED), MsgBoxResult::Okay);
    assert_eq!(show_message(MsgBoxKind::Warning, 0), MsgBoxResult::Okay);
    assert_eq!(show_message(MsgBoxKind::Error, 0), MsgBoxResult::Okay);
    assert_eq!(show_message(MsgBoxKind::Question, 1), MsgBoxResult::Yes);
    assert_eq!(show_message(MsgBoxKind::Question, 0), MsgBoxResult::No);
    assert_eq!(show_message(MsgBoxKind::OkCancel, 1), MsgBoxResult::Okay);
    assert_eq!(show_message(MsgBoxKind::RetryCancel, 1), MsgBoxResult::Retry);
    assert_eq!(show_message(MsgBoxKind::YesNoCancel, 0), MsgBoxResult::Cancel);
    let buttons = buttons_for(MsgBoxKind::YesNoCancel);
    assert_eq!(buttons.count, 3);
}

#[test]
fn calendar_question_and_its_answers() {
    assert_eq!(
        calendar_message("Meeting"),
        "A calendar invitation has been classified as spam:\n\n\"Meeting\"\n\n\
         What would you like to do?"
    );
    assert_eq!(calendar_buttons().labels, ["Move to Spam", "Move to Trash", "Train as Ham"]);
    assert_eq!(ask_calendar_spam_action(0), CalendarAction::Move);
    assert_eq!(ask_calendar_spam_action(1), CalendarAction::Delete);
    assert_eq!(ask_calendar_spam_action(2), CalendarAction::Ham);
    assert_eq!(ask_calendar_spam_action(DISMISSED), CalendarAction::Move);
}

fn node(name: &str, entry: &str, children: Vec<FolderNode>) -> FolderNode {
    FolderNode {
        name: name.to_string(),
        store_id: "ab".to_string(),
        entry_id: entry.to_string(),
        children,
    }
}

fn tree() -> Vec<FolderNode> {
    vec![
        node("Mailbox", "", vec![
            node("Inbox", "01", vec![node("Lists", "02", vec![])]),
            node("Junk", "0f", vec![]),
        ]),
        node("Archive", "04", vec![]),
    ]
}

#[test]
fn rows_follow_the_folder_tree() {
    let chosen = vec![FolderId::new(StoreId::new("AB"), EntryId::new("0F"))];
    let rows = populate_tree_store(&tree(), &chosen);
    let names: Vec<&str> = rows.iter().map(|row| row.name.as_str()).collect();
    assert_eq!(names, ["Mailbox", "Inbox", "Lists", "Junk", "Archive"]);
    let parents: Vec<Option<usize>> = rows.iter().map(|row| row.parent).collect();
    assert_eq!(parents, [None, Some(0), Some(1), Some(0), None]);
    let marked: Vec<bool> = rows.iter().map(|row| row.preselected).collect();
    assert_eq!(marked, [false, false, false, true, false]);
}

fn row(name: &str, store: &str, entry: &str) -> SelectedRow {
    SelectedRow {
        name: name.to_string(),
        store_id: store.to_string(),
        entry_id: entry.to_string(),
    }
}

#[test]
fn selections_are_read() {
    let rows = vec![row("Inbox", "ab", "01"), row("Mailbox", "ab", "")];
    let selections = read_selection(&rows);
    assert_eq!(selections.len(), 1);
    assert_eq!(selections[0].0, FolderId::new(StoreId::new("ab"), EntryId::new("01")));
    assert_eq!(selections[0].1, "Inbox");
}

#[test]
fn folder_browser_outcomes() {
    let (mut single, message) = FolderBrowserDialog::new(&Ok(()), SelectionMode::Single);
    assert!(message.is_none());
    assert!(!single.on_row_activated(&vec![]));
    single.on_ok(&vec![]);
    assert!(matches!(single.result, Some(None)));
    let (mut single, _) = FolderBrowserDialog::new(&Ok(()), SelectionMode::Single);
    assert!(single.on_row_activated(&vec![row("Inbox", "ab", "01")]));
    single.on_close_request();
    assert!(matches!(&single.result, Some(Some(list)) if list.len() == 1));
    let (mut multi, _) = FolderBrowserDialog::new(&Ok(()), SelectionMode::Multi);
    assert!(!multi.on_row_activated(&vec![row("Inbox", "ab", "01")]));
    multi.on_ok(&vec![]);
    assert!(matches!(&multi.result, Some(Some(list)) if list.is_empty()));
    let (mut cancelled, _) = FolderBrowserDialog::new(&Ok(()), SelectionMode::Multi);
    cancelled.on_cancel();
    assert!(matches!(cancelled.result, Some(None)));
    let (failed, message) =
        FolderBrowserDialog::new(&Err("x".to_string()), SelectionMode::Multi);
    assert!(matches!(failed.result, Some(None)));
    assert_eq!(message.unwrap(), "Failed to load folder list:\n\nx");
    assert_eq!(FolderBrowserDialog::title(SelectionMode::Single), "Select Folder");
    assert_eq!(FolderBrowserDialog::title(SelectionMode::Multi), "Select Folders");
}

#[test]
fn bytes_as_hexadecimal_text() {
    assert_eq!(hex_encode(&[]), "");
    assert_eq!(hex_encode(&[0x00, 0x0f, 0xa5, 0xff]), "000fa5ff");
}

#[test]
fn folder_trees_are_converted() {
    let outside = FolderTreeNode {
        name: "Inbox".to_string(),
        store_id_hex: "s".to_string(),
        entry_id_hex: "e".to_string(),
        children: vec![FolderTreeNode {
            name: "Lists".to_string(),
            store_id_hex: "s".to_string(),
            entry_id_hex: "f".to_string(),
            children: vec![],
        }],
    };
    let inside = convert_node(&outside);
    assert_eq!(inside.name, "Inbox");
    assert_eq!(inside.children[0].entry_id, "f");
}

#[test]
fn mailboxes_are_loaded() {
    let load = |listing: MailboxListing| MapiFolderProvider::load(&listing).into_tree();
    assert_eq!(
        load(MailboxListing::LogonFailed("x".to_string())).unwrap_err(),
        "Failed to connect to Outlook: x"
    );
    assert_eq!(
        load(MailboxListing::EnumerationFailed("y".to_string())).unwrap_err(),
        "Failed to enumerate mailboxes: y"
    );
    assert_eq!(
        load(MailboxListing::Stores(vec![])).unwrap_err(),
        "No mailboxes found in Outlook profile."
    );
    assert_eq!(
        load(MailboxListing::Stores(vec![StoreOutcome::Skipped])).unwrap_err(),
        "Could not open any mailboxes."
    );
    let stores = MailboxListing::Stores(vec![
        StoreOutcome::Skipped,
        StoreOutcome::Loaded {
            display_name: "Me".to_string(),
            entry_id: vec![0xab],
            folders: vec![],
            root_entry_id: Some(vec![1, 2]),
        },
        StoreOutcome::Loaded {
            display_name: "Team".to_string(),
            entry_id: vec![],
            folders: vec![],
            root_entry_id: None,
        },
    ]);
    let provider = MapiFolderProvider::load(&stores);
    let tree = provider.load_folder_tree().unwrap();
    assert_eq!(tree.len(), 2);
    assert_eq!((tree[0].name.as_str(), tree[0].store_id.as_str()), ("Me", "ab"));
    assert_eq!(tree[0].entry_id, "0102");
    assert_eq!(tree[1].entry_id, "");
    assert!(NullFolderProvider.load_folder_tree().unwrap().is_empty());
}
