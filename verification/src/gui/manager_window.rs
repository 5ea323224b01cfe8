//! The manager window: what its tabs hold is checked and saved when it closes.
//!
//! The Statistics tab, which holds no settings, stands beside it.

use vstd::prelude::*;

use crate::config::{copy_folder_choice, copy_folders, AppConfig, FilterAction};
use crate::double::{whole, HUNDRED, SIXTY};
use crate::gui::slider::clamped_to;
use crate::gui::clues_dialog::KEY_ESCAPE;
use crate::gui::tabs::advanced::{advanced_values_of, AdvancedTab};
use crate::gui::tabs::calendar::{calendar_settings_are_read_back, CalendarTab};
use crate::gui::tabs::filtering::{
    index_of_action, threshold_error, threshold_message, FilteringTab, DEFAULT_CLEANUP_DAYS,
};
use crate::gui::tabs::general::{FolderNames, GeneralTab};
use crate::gui::tabs::notifications::{seconds_text, NotificationsTab};
use crate::gui::tabs::training::{index_to_message_read_state, read_state_at, TrainingTab};
use crate::manager_dlg::{settings_of, ManagerState, ManagerStats};
use crate::text::{join_path, path_in, texts_view};

verus! {

/// The titles of the tabs.
pub const TAB_TITLES: [&'static str; 7] = [
    "General",
    "Filtering",
    "Training",
    "Statistics",
    "Notifications",
    "Calendar",
    "Advanced",
];

/// The number of the General tab.
pub const GENERAL_TAB: u32 = 0;

/// The number of the Filtering tab.
pub const FILTERING_TAB: u32 = 1;

/// The number of the Training tab.
pub const TRAINING_TAB: u32 = 2;

/// The toolkit's number for the F1 key.
pub const KEY_F1: u32 = 0xffbe;

/// The action at an entry of the list of actions: no action where nothing is selected.
pub open spec fn action_at(index: Option<u32>) -> FilterAction {
    match index {
        Some(0) => FilterAction::Move,
        Some(1) => FilterAction::Copy,
        _ => FilterAction::Untouched,
    }
}

/// The action at an entry of the list of actions.
pub fn combo_to_filter_action(index: Option<u32>) -> (action: FilterAction)
    ensures
        action == action_at(index),
{
    match index {
        Some(0) => FilterAction::Move,
        Some(1) => FilterAction::Copy,
        _ => FilterAction::Untouched,
    }
}

/// An action that is selected in the list is found again when the list is read.
pub proof fn action_is_found_again(action: FilterAction)
    ensures
        action_at(Some(index_of_action(action))) == action,
{
}

/// The default directory for data: `SpamBayes` in that for a user's data, or in the current one if
/// that is not known.
pub open spec fn default_directory(local_app_data: Option<&str>) -> Seq<char> {
    match local_app_data {
        Some(base) => path_in(base@, "SpamBayes"@),
        None => "SpamBayes"@,
    }
}

/// The default directory for data.
pub fn dirs_or_default(local_app_data: Option<&str>) -> (directory: String)
    ensures
        directory@ == default_directory(local_app_data),
{
    match local_app_data {
        Some(base) => join_path(base, "SpamBayes"),
        None => "SpamBayes".to_owned(),
    }
}

/// The texts that the tabs show for numbers, and the names of folders.
#[derive(Debug)]
pub struct ManagerTexts {
    /// The spam threshold, with one decimal.
    pub spam_threshold: String,
    /// The unsure threshold, with one decimal.
    pub unsure_threshold: String,
    /// The seconds before the first message is filtered.
    pub start_delay: String,
    /// The seconds between two messages.
    pub interval: String,
    pub folders: FolderNames,
    pub ham_training: Vec<String>,
    pub spam_training: Vec<String>,
}

/// What a request to close the window calls for.
#[derive(Debug)]
pub enum CloseRequest {
    /// The window closes; the flag says whether the one who waits for it is told.
    Proceed { notify: bool },
    /// The window stays, and an error is shown.
    Stop(String),
}

/// What a key calls for.
#[derive(Debug, Clone, Copy, PartialEq, Eq, Structural)]
pub enum KeyAction {
    /// The window about the program is shown.
    About,
    /// The window is asked to close.
    Close,
    /// Filtering existing messages is started.
    RunFilter,
    /// Training is started.
    StartTraining,
    /// The key is left to the toolkit.
    Pass,
}

/// Whether a key is that of the given letter, given in lower case.
pub open spec fn is_letter(key: u32, letter: char) -> bool {
    key == letter as u32 || key + 32 == letter as u32
}

/// What a key calls for: F1 and Alt+A, Escape and Alt+C, Alt+R, Alt+T.
pub open spec fn key_action(key: u32, alt: bool) -> KeyAction {
    if key == KEY_F1 || (alt && is_letter(key, 'a')) {
        KeyAction::About
    } else if key == KEY_ESCAPE || (alt && is_letter(key, 'c')) {
        KeyAction::Close
    } else if alt && is_letter(key, 'r') {
        KeyAction::RunFilter
    } else if alt && is_letter(key, 't') {
        KeyAction::StartTraining
    } else {
        KeyAction::Pass
    }
}

/// What is reported when the settings could not be written.
pub open spec fn save_error(reason: Seq<char>) -> Seq<char> {
    "Failed to save configuration: "@ + reason
}

/// What is shown when the window cannot close.
pub open spec fn close_error(reason: Seq<char>) -> Seq<char> {
    "Cannot save settings:\n\n"@ + reason
}

/// The manager window.
#[derive(Debug)]
pub struct ManagerWindow {
    pub general: GeneralTab,
    pub filtering: FilteringTab,
    pub training: TrainingTab,
    pub notifications: NotificationsTab,
    pub calendar: CalendarTab,
    pub advanced: AdvancedTab,
    /// The settings to save.
    pub config: AppConfig,
    /// Where the settings are saved.
    pub data_directory: String,
    /// The tab that is shown.
    pub page: u32,
    /// Whether somebody waits for the window to close and was not told yet.
    pub notify_on_close: bool,
}

impl ManagerWindow {
    /// Settings of the filter hold what the tabs show.
    pub open spec fn filter_settings_in(&self, config: AppConfig) -> bool {
        let filter = config.filter;
        let advanced = self.advanced.values();
        &&& filter.enabled == self.general.enable_checked
        &&& filter.spam_threshold == self.filtering.spam.value
        &&& filter.unsure_threshold == self.filtering.unsure.value
        &&& filter.spam_action == action_at(self.filtering.spam_section.action_index)
        &&& filter.unsure_action == action_at(self.filtering.unsure_section.action_index)
        &&& filter.ham_action == action_at(self.filtering.ham_section.action_index)
        &&& filter.spam_mark_as_read == self.filtering.spam_section.mark_read
        &&& filter.unsure_mark_as_read == self.filtering.unsure_section.mark_read
        &&& filter.ham_mark_as_read == self.filtering.ham_section.mark_read
        &&& filter.watch_folder_ids@ == self.filtering.watched_folder_ids@
        &&& filter.spam_folder_id == self.filtering.spam_section.folder_id
        &&& filter.unsure_folder_id == self.filtering.unsure_section.folder_id
        &&& filter.ham_folder_id == self.filtering.ham_section.folder_id
        &&& filter.spam_auto_cleanup_enabled == self.filtering.cleanup_enabled
        &&& filter.spam_auto_cleanup_days == self.filtering.cleanup_days
        &&& filter.timer_enabled == advanced.timer_enabled
        &&& filter.timer_start_delay == advanced.timer_start_delay
        &&& filter.timer_interval == advanced.timer_interval
        &&& filter.timer_only_receive_folders == advanced.timer_only_receive_folders
        &&& filter.timer_wait_for_sync == advanced.timer_wait_for_sync
        &&& filter.save_spam_info == advanced.save_spam_info
    }

    /// Settings of training hold what the tabs show.
    pub open spec fn training_settings_in(&self, config: AppConfig) -> bool {
        &&& config.training.ham_folder_ids@ == self.training.ham.ids@
        &&& config.training.spam_folder_ids@ == self.training.spam.ids@
        &&& config.training.rescore == self.training.rescore
        &&& config.training.rebuild == self.training.rebuild
        &&& config.training.train_recovered_spam == self.training.train_recovered_spam
        &&& config.training.train_manual_spam == self.training.train_manual_spam
        &&& config.general.recover_from_spam_message_state == read_state_at(
            self.training.not_spam_action,
        )
        &&& config.general.delete_as_spam_message_state == read_state_at(self.training.spam_action)
    }

    /// A configuration holds what the tabs show.
    pub open spec fn settings_in(&self, config: AppConfig) -> bool {
        &&& self.filter_settings_in(config)
        &&& self.training_settings_in(config)
        &&& self.notifications.holds(config.notification)
        &&& config.calendar == self.calendar.values()
        &&& config.general.verbose == self.advanced.values().verbose
        &&& config.update.check_interval == self.advanced.values().update_check_interval
    }

    /// The tabs are those of another window.
    pub open spec fn same_tabs(&self, other: &ManagerWindow) -> bool {
        &&& self.general == other.general
        &&& self.filtering == other.filtering
        &&& self.training == other.training
        &&& self.notifications == other.notifications
        &&& self.calendar == other.calendar
        &&& self.advanced == other.advanced
    }

    /// The tabs show the given working copy of the filter's settings and, for the rest, a
    /// configuration. The clean-up of spam, the marks and the folder for good messages start out
    /// unset.
    pub open spec fn shows(
        &self,
        state: ManagerState,
        stats: ManagerStats,
        config: AppConfig,
        texts: ManagerTexts,
    ) -> bool {
        &&& self.general.shows(state, stats, texts.folders)
        &&& self.filtering.shows(state, texts.spam_threshold@, texts.unsure_threshold@)
        &&& self.training.shows(
            state,
            config,
            texts_view(texts.ham_training@),
            texts_view(texts.spam_training@),
        )
        &&& self.notifications.shows(config.notification)
        &&& self.notifications.delay.entry@ == seconds_text(
            config.notification.notify_accumulate_delay,
        )
        &&& self.notifications.delay.upper == SIXTY
        &&& !self.notifications.delay.updating
        &&& self.notifications.controls_sensitive == config.notification.notify_sound_enabled
        &&& self.calendar == CalendarTab::showing(config.calendar)
        &&& self.advanced.shows(config, texts.start_delay@, texts.interval@)
    }

    /// The window for the given settings.
    pub fn new(
        state: &ManagerState,
        stats: &ManagerStats,
        config: AppConfig,
        texts: &ManagerTexts,
        local_app_data: Option<&str>,
    ) -> (window: ManagerWindow)
        ensures
            window.config == config,
            window.shows(*state, *stats, config, *texts),
            window.data_directory@ == (if config.general.data_directory@.len() == 0 {
                default_directory(local_app_data)
            } else {
                config.general.data_directory@
            }),
            window.page == GENERAL_TAB,
            !window.notify_on_close,
    {
        let data_directory = if config.general.data_directory.as_str().is_empty() {
            dirs_or_default(local_app_data)
        } else {
            config.general.data_directory.clone()
        };
        ManagerWindow {
            general: GeneralTab::new(state, stats, &texts.folders),
            filtering: FilteringTab::new(
                state,
                texts.spam_threshold.as_str(),
                texts.unsure_threshold.as_str(),
            ),
            training: TrainingTab::new(state, &config, &texts.ham_training, &texts.spam_training),
            notifications: NotificationsTab::new(&config.notification),
            calendar: CalendarTab::new(&config.calendar),
            advanced: AdvancedTab::new(
                &config,
                texts.start_delay.as_str(),
                texts.interval.as_str(),
            ),
            config,
            data_directory,
            page: GENERAL_TAB,
            notify_on_close: false,
        }
    }

    /// Notes that somebody waits for the window to close.
    pub fn set_on_close(&mut self)
        ensures
            final(self).notify_on_close,
            final(self).same_tabs(old(self)),
            final(self).config == old(self).config,
            final(self).data_directory == old(self).data_directory,
            final(self).page == old(self).page,
    {
        self.notify_on_close = true;
    }

    /// Checks what the tabs hold and takes it over into the settings to save, unless the
    /// thresholds are refused. `spam_text` and `unsure_text` are the thresholds' texts.
    pub fn apply_changes(&mut self, spam_text: &str, unsure_text: &str) -> (applied: Result<
        (),
        String,
    >)
        ensures
            final(self).same_tabs(old(self)),
            final(self).data_directory == old(self).data_directory,
            final(self).page == old(self).page,
            final(self).notify_on_close == old(self).notify_on_close,
            match threshold_error(old(self).filtering.spam.value, old(self).filtering.unsure.value) {
                None => {
                    &&& applied is Ok
                    &&& old(self).settings_in(final(self).config)
                },
                Some(error) => {
                    &&& applied matches Err(message)
                    &&& message@ == threshold_message(error, spam_text@, unsure_text@)
                    &&& final(self).config == old(self).config
                },
            },
            final(self).config.general.data_directory == old(self).config.general.data_directory,
            final(self).config.filter_now == old(self).config.filter_now,
            final(self).config.update.update_url == old(self).config.update.update_url,
    {
        match self.filtering.validate(spam_text, unsure_text) {
            Err(message) => {
                return Err(message);
            },
            Ok(_) => {},
        }
        let advanced = self.advanced.read_values();
        self.config.filter.enabled = self.general.is_filter_enabled();
        self.config.filter.spam_threshold = self.filtering.spam.value;
        self.config.filter.unsure_threshold = self.filtering.unsure.value;
        self.config.filter.spam_mark_as_read = self.filtering.spam_section.mark_read;
        self.config.filter.unsure_mark_as_read = self.filtering.unsure_section.mark_read;
        self.config.filter.ham_mark_as_read = self.filtering.ham_section.mark_read;
        self.config.filter.watch_folder_ids = copy_folders(&self.filtering.watched_folder_ids);
        self.config.filter.spam_folder_id = copy_folder_choice(
            &self.filtering.spam_section.folder_id,
        );
        self.config.filter.unsure_folder_id = copy_folder_choice(
            &self.filtering.unsure_section.folder_id,
        );
        self.config.filter.ham_folder_id = copy_folder_choice(
            &self.filtering.ham_section.folder_id,
        );
        self.config.filter.spam_action = combo_to_filter_action(
            self.filtering.spam_section.action_index,
        );
        self.config.filter.unsure_action = combo_to_filter_action(
            self.filtering.unsure_section.action_index,
        );
        self.config.filter.ham_action = combo_to_filter_action(
            self.filtering.ham_section.action_index,
        );
        self.config.filter.spam_auto_cleanup_enabled = self.filtering.cleanup_enabled;
        self.config.filter.spam_auto_cleanup_days = self.filtering.cleanup_days;
        self.config.notification = self.notifications.read_values();
        self.config.calendar = self.calendar.read_values();
        self.config.filter.timer_enabled = advanced.timer_enabled;
        self.config.filter.timer_start_delay = advanced.timer_start_delay;
        self.config.filter.timer_interval = advanced.timer_interval;
        self.config.filter.timer_only_receive_folders = advanced.timer_only_receive_folders;
        self.config.filter.timer_wait_for_sync = advanced.timer_wait_for_sync;
        self.config.filter.save_spam_info = advanced.save_spam_info;
        self.config.general.verbose = advanced.verbose;
        self.config.update.check_interval = advanced.update_check_interval;
        self.config.training.ham_folder_ids = copy_folders(&self.training.ham.ids);
        self.config.training.spam_folder_ids = copy_folders(&self.training.spam.ids);
        self.config.training.rescore = self.training.rescore;
        self.config.training.rebuild = self.training.rebuild;
        self.config.training.train_recovered_spam = self.training.train_recovered_spam;
        self.config.training.train_manual_spam = self.training.train_manual_spam;
        self.config.general.recover_from_spam_message_state = index_to_message_read_state(
            self.training.not_spam_action,
        );
        self.config.general.delete_as_spam_message_state = index_to_message_read_state(
            self.training.spam_action,
        );
        Ok(())
    }

    /// The outcome of saving: `written` is that of applying the changes, or, where these were
    /// applied, that of writing the settings, with the reason why they could not be written.
    pub fn saved(applied: Result<(), String>, written: Result<(), String>) -> (saved: Result<
        (),
        String,
    >)
        ensures
            match applied {
                Err(_) => saved == applied,
                Ok(_) => match written {
                    Ok(_) => saved is Ok,
                    Err(reason) => saved matches Err(message) && message@ == save_error(reason@),
                },
            },
    {
        match applied {
            Err(message) => Err(message),
            Ok(_) => match written {
                Ok(_) => Ok(()),
                Err(reason) => Err(
                    "Failed to save configuration: ".to_owned().concat(reason.as_str()),
                ),
            },
        }
    }

    /// Takes a request to close the window, with the outcome of saving. The window closes when all
    /// is saved, and the one who waits for it is told once; else an error is shown and the window
    /// stays, with the Filtering tab, whose settings can be refused, in front.
    pub fn handle_close_request(&mut self, saved: Result<(), String>) -> (request: CloseRequest)
        ensures
            final(self).same_tabs(old(self)),
            final(self).config == old(self).config,
            final(self).data_directory == old(self).data_directory,
            match saved {
                Ok(_) => {
                    &&& request == (CloseRequest::Proceed { notify: old(self).notify_on_close })
                    &&& !final(self).notify_on_close
                    &&& final(self).page == old(self).page
                },
                Err(reason) => {
                    &&& request matches CloseRequest::Stop(message)
                    &&& message@ == close_error(reason@)
                    &&& final(self).notify_on_close == old(self).notify_on_close
                    &&& final(self).page == FILTERING_TAB
                },
            },
    {
        match saved {
            Ok(_) => {
                let notify = self.notify_on_close;
                self.notify_on_close = false;
                CloseRequest::Proceed { notify }
            },
            Err(reason) => {
                self.page = FILTERING_TAB;
                CloseRequest::Stop("Cannot save settings:\n\n".to_owned().concat(reason.as_str()))
            },
        }
    }

    /// Takes a key, by the number that the toolkit gives it, and whether Alt is held. Starting a
    /// filter run or training brings its tab to the front.
    pub fn handle_key_pressed(&mut self, key: u32, alt: bool) -> (action: KeyAction)
        ensures
            action == key_action(key, alt),
            final(self).page == (match action {
                KeyAction::RunFilter => GENERAL_TAB,
                KeyAction::StartTraining => TRAINING_TAB,
                _ => old(self).page,
            }),
            final(self).same_tabs(old(self)),
            final(self).config == old(self).config,
            final(self).data_directory == old(self).data_directory,
            final(self).notify_on_close == old(self).notify_on_close,
    {
        if key == KEY_F1 || (alt && (key == 0x61 || key == 0x41)) {
            KeyAction::About
        } else if key == KEY_ESCAPE || (alt && (key == 0x63 || key == 0x43)) {
            KeyAction::Close
        } else if alt && (key == 0x72 || key == 0x52) {
            self.page = GENERAL_TAB;
            KeyAction::RunFilter
        } else if alt && (key == 0x74 || key == 0x54) {
            self.page = TRAINING_TAB;
            KeyAction::StartTraining
        } else {
            KeyAction::Pass
        }
    }
}

/// What is saved from a window that was opened and not touched is what it was opened with. What the
/// window does not show at first is left out: marks, clean-up and the folder for good messages,
/// which start out unset whatever the settings say. So are numbers outside of their sliders' ranges,
/// which the sliders move.
pub proof fn untouched_settings_are_kept(
    window: ManagerWindow,
    state: ManagerState,
    stats: ManagerStats,
    texts: ManagerTexts,
    opened: AppConfig,
    saved: AppConfig,
)
    requires
        state@ == settings_of(opened),
        window.shows(state, stats, opened, texts),
        window.settings_in(saved),
        !opened.filter.spam_mark_as_read,
        !opened.filter.unsure_mark_as_read,
        !opened.filter.ham_mark_as_read,
        opened.filter.ham_folder_id is None,
        !opened.filter.spam_auto_cleanup_enabled,
        opened.filter.spam_auto_cleanup_days == DEFAULT_CLEANUP_DAYS,
        clamped_to(opened.filter.spam_threshold, HUNDRED) == opened.filter.spam_threshold,
        clamped_to(opened.filter.unsure_threshold, HUNDRED) == opened.filter.unsure_threshold,
        clamped_to(opened.filter.timer_start_delay, SIXTY) == opened.filter.timer_start_delay,
        clamped_to(opened.filter.timer_interval, SIXTY) == opened.filter.timer_interval,
        clamped_to(opened.notification.notify_accumulate_delay, SIXTY)
            == opened.notification.notify_accumulate_delay,
    ensures
        settings_of(saved) == settings_of(opened),
        advanced_values_of(saved) == advanced_values_of(opened),
        saved.filter.spam_mark_as_read == opened.filter.spam_mark_as_read,
        saved.filter.unsure_mark_as_read == opened.filter.unsure_mark_as_read,
        saved.filter.ham_mark_as_read == opened.filter.ham_mark_as_read,
        saved.filter.ham_folder_id == opened.filter.ham_folder_id,
        saved.filter.spam_auto_cleanup_enabled == opened.filter.spam_auto_cleanup_enabled,
        saved.filter.spam_auto_cleanup_days == opened.filter.spam_auto_cleanup_days,
        saved.training.rescore == opened.training.rescore,
        saved.training.rebuild == opened.training.rebuild,
        saved.training.train_recovered_spam == opened.training.train_recovered_spam,
        saved.training.train_manual_spam == opened.training.train_manual_spam,
        saved.general.recover_from_spam_message_state
            == opened.general.recover_from_spam_message_state,
        saved.general.delete_as_spam_message_state == opened.general.delete_as_spam_message_state,
        saved.notification.notify_sound_enabled == opened.notification.notify_sound_enabled,
        saved.notification.notify_ham_sound@ == opened.notification.notify_ham_sound@,
        saved.notification.notify_unsure_sound@ == opened.notification.notify_unsure_sound@,
        saved.notification.notify_spam_sound@ == opened.notification.notify_spam_sound@,
        saved.notification.notify_accumulate_delay == opened.notification.notify_accumulate_delay,
        saved.calendar == opened.calendar,
{
    calendar_settings_are_read_back(opened.calendar);
}

/// Settings that were saved have thresholds in order: the spam threshold lies above the unsure
/// threshold, and both between 0 and 100.
pub proof fn saved_thresholds_are_ordered(window: ManagerWindow, saved: AppConfig)
    requires
        threshold_error(window.filtering.spam.value, window.filtering.unsure.value) is None,
        window.settings_in(saved),
    ensures
        saved.filter.unsure_threshold.lt_spec(saved.filter.spam_threshold),
        crate::gui::tabs::filtering::in_range(saved.filter.spam_threshold),
        crate::gui::tabs::filtering::in_range(saved.filter.unsure_threshold),
{
    crate::gui::tabs::filtering::accepted_thresholds_are_ordered(
        window.filtering.spam.value,
        window.filtering.unsure.value,
    );
}

/// The action that an entry of the list of actions stands for is the one whose own entry it is;
/// without a selection, or beyond the list, nothing is done with messages.
pub proof fn listed_actions_are_taken(index: Option<u32>, action: FilterAction)
    requires
        call_ensures(combo_to_filter_action, (index,), action),
    ensures
        action is Move <==> index == Some(0u32),
        action is Copy <==> index == Some(1u32),
        index is None ==> action is Untouched,
        index == Some(2u32) ==> action is Untouched,
{
}

/// Whatever the tabs hold about the filter when the changes are accepted is what the settings hold
/// then, each setting from its own control: the switch, the thresholds, the actions, marks and
/// folders of each kind of message, the watched folders, the clean-up and its days, and background
/// filtering.
pub proof fn the_filters_settings_are_saved(
    window: &mut ManagerWindow,
    spam_text: &str,
    unsure_text: &str,
    applied: Result<(), String>,
)
    requires
        call_ensures(ManagerWindow::apply_changes, (window, spam_text, unsure_text), applied),
        applied is Ok,
    ensures
        ({
            let filter = final(window).config.filter;
            let tab = old(window).filtering;
            &&& filter.enabled == old(window).general.enable_checked
            &&& filter.spam_threshold == tab.spam.value
            &&& filter.unsure_threshold == tab.unsure.value
            &&& filter.spam_mark_as_read == tab.spam_section.mark_read
            &&& filter.unsure_mark_as_read == tab.unsure_section.mark_read
            &&& filter.ham_mark_as_read == tab.ham_section.mark_read
            &&& filter.watch_folder_ids@ == tab.watched_folder_ids@
            &&& filter.spam_folder_id == tab.spam_section.folder_id
            &&& filter.unsure_folder_id == tab.unsure_section.folder_id
            &&& filter.ham_folder_id == tab.ham_section.folder_id
            &&& filter.spam_auto_cleanup_enabled == tab.cleanup_enabled
            &&& filter.spam_auto_cleanup_days == tab.cleanup_days
            &&& filter.spam_action is Move <==> tab.spam_section.action_index == Some(0u32)
            &&& filter.spam_action is Copy <==> tab.spam_section.action_index == Some(1u32)
            &&& filter.unsure_action is Move <==> tab.unsure_section.action_index == Some(0u32)
            &&& filter.unsure_action is Copy <==> tab.unsure_section.action_index == Some(1u32)
            &&& filter.ham_action is Move <==> tab.ham_section.action_index == Some(0u32)
            &&& filter.ham_action is Copy <==> tab.ham_section.action_index == Some(1u32)
            &&& filter.timer_enabled == old(window).advanced.timer_enabled
            &&& filter.timer_start_delay == old(window).advanced.start_delay.value
            &&& filter.timer_interval == old(window).advanced.interval.value
            &&& filter.timer_only_receive_folders == old(window).advanced.only_receive
            &&& filter.timer_wait_for_sync == old(window).advanced.wait_for_sync
            &&& filter.save_spam_info == old(window).advanced.save_spam_info
        }),
{
}

/// Whatever the tabs hold about training, notifications, the calendar, the diagnostics and the
/// update check when the changes are accepted is what the settings hold then, each setting from its
/// own control.
pub proof fn the_other_settings_are_saved(
    window: &mut ManagerWindow,
    spam_text: &str,
    unsure_text: &str,
    applied: Result<(), String>,
)
    requires
        call_ensures(ManagerWindow::apply_changes, (window, spam_text, unsure_text), applied),
        applied is Ok,
    ensures
        ({
            let config = final(window).config;
            let training = old(window).training;
            let sounds = old(window).notifications;
            &&& config.training.ham_folder_ids@ == training.ham.ids@
            &&& config.training.spam_folder_ids@ == training.spam.ids@
            &&& config.training.rescore == training.rescore
            &&& config.training.rebuild == training.rebuild
            &&& config.training.train_recovered_spam == training.train_recovered_spam
            &&& config.training.train_manual_spam == training.train_manual_spam
            &&& config.general.recover_from_spam_message_state is Read <==> training.not_spam_action
                == Some(1u32)
            &&& config.general.recover_from_spam_message_state is Unread
                <==> training.not_spam_action == Some(2u32)
            &&& config.general.delete_as_spam_message_state is Read <==> training.spam_action
                == Some(1u32)
            &&& config.general.delete_as_spam_message_state is Unread <==> training.spam_action
                == Some(2u32)
            &&& config.notification.notify_sound_enabled == sounds.enabled
            &&& config.notification.notify_ham_sound@ == sounds.ham_sound@
            &&& config.notification.notify_unsure_sound@ == sounds.unsure_sound@
            &&& config.notification.notify_spam_sound@ == sounds.spam_sound@
            &&& config.notification.notify_accumulate_delay == sounds.delay.value
            &&& config.calendar.calendar_filtering_enabled == old(window).calendar.enabled
            &&& config.calendar.calendar_spam_action is Trash
                <==> old(window).calendar.action_index == Some(1u32)
            &&& config.calendar.calendar_spam_action is Move <==> old(window).calendar.action_index
                == Some(2u32)
            &&& config.general.verbose == old(window).advanced.verbose
            &&& config.update.check_interval is Weekly
                <==> old(window).advanced.update_interval_index == 0
        }),
{
}

/// What no tab shows is not touched by saving, and the tabs stay as they are.
pub proof fn nothing_else_is_saved(
    window: &mut ManagerWindow,
    spam_text: &str,
    unsure_text: &str,
    applied: Result<(), String>,
)
    requires
        call_ensures(ManagerWindow::apply_changes, (window, spam_text, unsure_text), applied),
    ensures
        final(window).config.general.data_directory == old(window).config.general.data_directory,
        final(window).config.filter_now == old(window).config.filter_now,
        final(window).config.update.update_url == old(window).config.update.update_url,
        final(window).general == old(window).general,
        final(window).filtering == old(window).filtering,
        final(window).training == old(window).training,
        final(window).notifications == old(window).notifications,
        final(window).calendar == old(window).calendar,
        final(window).advanced == old(window).advanced,
        final(window).data_directory == old(window).data_directory,
        final(window).page == old(window).page,
        final(window).notify_on_close == old(window).notify_on_close,
{
}

/// Two windows save different clean-up settings exactly if their tabs hold different ones: none is
/// lost, and none is made up.
pub proof fn clean_up_settings_are_told_apart(
    one: &mut ManagerWindow,
    other: &mut ManagerWindow,
    spam_text: &str,
    unsure_text: &str,
)
    requires
        call_ensures(
            ManagerWindow::apply_changes,
            (one, spam_text, unsure_text),
            Ok::<(), String>(()),
        ),
        call_ensures(
            ManagerWindow::apply_changes,
            (other, spam_text, unsure_text),
            Ok::<(), String>(()),
        ),
    ensures
        ({
            let first = final(one).config.filter;
            let second = final(other).config.filter;
            &&& first.spam_auto_cleanup_enabled == second.spam_auto_cleanup_enabled
                <==> old(one).filtering.cleanup_enabled == old(other).filtering.cleanup_enabled
            &&& first.spam_auto_cleanup_days == second.spam_auto_cleanup_days
                <==> old(one).filtering.cleanup_days == old(other).filtering.cleanup_days
        }),
{
}

/// Changes are accepted exactly if both thresholds are numbers and 0 <= unsure < spam <= 100; else
/// the settings stay exactly as they were.
pub proof fn only_ordered_thresholds_are_saved(
    window: &mut ManagerWindow,
    spam_text: &str,
    unsure_text: &str,
    applied: Result<(), String>,
)
    requires
        call_ensures(ManagerWindow::apply_changes, (window, spam_text, unsure_text), applied),
    ensures
        ({
            let spam = old(window).filtering.spam.value;
            let unsure = old(window).filtering.unsure.value;
            applied is Ok <==> !spam.is_nan() && !unsure.is_nan() && 0 <= unsure.scaled()
                < spam.scaled() <= whole(100)
        }),
        applied is Err ==> final(window).config == old(window).config,
{
    crate::gui::tabs::filtering::accepted_thresholds_are_ordered(
        old(window).filtering.spam.value,
        old(window).filtering.unsure.value,
    );
}

/// A refused change is reported with its own message; settings that could not be written are
/// reported with the reason; and all is well only if the changes were applied and written.
pub proof fn saving_reports_what_went_wrong(
    applied: Result<(), String>,
    written: Result<(), String>,
    saved: Result<(), String>,
)
    requires
        call_ensures(ManagerWindow::saved, (applied, written), saved),
    ensures
        saved is Ok <==> applied is Ok && written is Ok,
        applied matches Err(refusal) ==> saved == Err::<(), String>(refusal),
        applied is Ok ==> (written matches Err(reason) ==> {
            &&& saved->Err_0@ == "Failed to save configuration: "@ + reason@
            &&& reason@.len() < saved->Err_0@.len()
            &&& saved->Err_0@.skip(saved->Err_0@.len() - reason@.len()) == reason@
        }),
{
    reveal_strlit("Failed to save configuration: ");
    if applied is Ok {
        if let Err(reason) = written {
            let text = saved->Err_0@;
            assert(text.skip(text.len() - reason@.len()) =~= reason@);
        }
    }
}

/// The window closes exactly if all was saved, and tells who waits for it once: a second closing
/// tells nobody. What could not be saved keeps it open, with the reason at the end of the message
/// and the Filtering tab in front, and who waits is still waiting.
pub proof fn the_window_closes_when_all_is_saved(
    window: &mut ManagerWindow,
    saved: Result<(), String>,
    request: CloseRequest,
    again: &mut ManagerWindow,
    second: CloseRequest,
)
    requires
        call_ensures(ManagerWindow::handle_close_request, (window, saved), request),
        *old(again) == *final(window),
        call_ensures(
            ManagerWindow::handle_close_request,
            (again, Ok::<(), String>(())),
            second,
        ),
    ensures
        request is Proceed <==> saved is Ok,
        request matches CloseRequest::Proceed { notify } ==> {
            &&& notify == old(window).notify_on_close
            &&& second == (CloseRequest::Proceed { notify: false })
            &&& final(window).page == old(window).page
        },
        request matches CloseRequest::Stop(message) ==> {
            &&& message@ == "Cannot save settings:\n\n"@ + saved->Err_0@
            &&& saved->Err_0@.len() < message@.len()
            &&& message@.skip(message@.len() - saved->Err_0@.len()) == saved->Err_0@
            &&& final(window).page == 1
            &&& second == (CloseRequest::Proceed { notify: old(window).notify_on_close })
        },
        final(window).config == old(window).config,
{
    reveal_strlit("Cannot save settings:\n\n");
    if let CloseRequest::Stop(message) = request {
        let reason = saved->Err_0@;
        assert(message@.skip(message@.len() - reason.len()) =~= reason);
    }
}

/// Without Alt only F1 and Escape call for anything. With Alt a letter calls for the same as a
/// capital and as a small one. A key never closes the window unless it is Escape or Alt+C, and
/// starting a run brings the tab that shows it to the front; no other key changes the tab.
pub proof fn keys_do_what_they_stand_for(
    window: &mut ManagerWindow,
    key: u32,
    alt: bool,
    action: KeyAction,
    capital: &mut ManagerWindow,
    same: KeyAction,
)
    requires
        call_ensures(ManagerWindow::handle_key_pressed, (window, key, alt), action),
        0x61 <= key <= 0x7a ==> call_ensures(
            ManagerWindow::handle_key_pressed,
            (capital, (key - 32) as u32, alt),
            same,
        ),
    ensures
        0x61 <= key <= 0x7a ==> same == action,
        action is About <==> key == 0xffbe || (alt && (key == 'a' as u32 || key == 'A' as u32)),
        action is Close <==> key == 0xff1b || (alt && (key == 'c' as u32 || key == 'C' as u32)),
        action is RunFilter <==> alt && (key == 'r' as u32 || key == 'R' as u32),
        action is StartTraining <==> alt && (key == 't' as u32 || key == 'T' as u32),
        action is RunFilter ==> final(window).page == 0,
        action is StartTraining ==> final(window).page == 2,
        !(action is RunFilter) && !(action is StartTraining) ==> final(window).page
            == old(window).page,
        final(window).config == old(window).config,
{
}

/// The window keeps its data where the settings say, and where they say nothing in the directory
/// `SpamBayes` of the user's local data. It opens with the General tab, and nobody waits for it.
pub proof fn a_new_window_knows_where_to_save(
    state: &ManagerState,
    stats: &ManagerStats,
    config: AppConfig,
    texts: &ManagerTexts,
    local_app_data: Option<&str>,
    window: ManagerWindow,
)
    requires
        call_ensures(ManagerWindow::new, (state, stats, config, texts, local_app_data), window),
    ensures
        config.general.data_directory@.len() > 0 ==> window.data_directory@
            == config.general.data_directory@,
        config.general.data_directory@.len() == 0 ==> {
            let name = "SpamBayes"@;
            &&& name.len() <= window.data_directory@.len()
            &&& window.data_directory@.skip(window.data_directory@.len() - name.len()) == name
            &&& local_app_data is None ==> window.data_directory@ == name
            &&& local_app_data matches Some(base) ==> base@.len() <= window.data_directory@.len()
                && window.data_directory@.take(base@.len() as int) == base@
        },
        window.config == config,
        window.page == 0,
        !window.notify_on_close,
{
    let name = "SpamBayes"@;
    let directory = window.data_directory@;
    if config.general.data_directory@.len() == 0 {
        assert(directory.skip(directory.len() - name.len()) =~= name);
        if let Some(base) = local_app_data {
            assert(directory.take(base@.len() as int) =~= base@);
        }
    }
}

/// A new window shows the settings in the controls that they are saved from.
pub proof fn a_new_window_shows_the_settings(
    state: &ManagerState,
    stats: &ManagerStats,
    config: AppConfig,
    texts: &ManagerTexts,
    local_app_data: Option<&str>,
    window: ManagerWindow,
)
    requires
        call_ensures(ManagerWindow::new, (state, stats, config, texts, local_app_data), window),
    ensures
        window.general.enable_checked == state.filter_enabled,
        window.general.filter_active == state.filter_enabled,
        window.filtering.spam.value == clamped_to(state.spam_threshold, HUNDRED),
        window.filtering.unsure.value == clamped_to(state.unsure_threshold, HUNDRED),
        window.filtering.watched_folder_ids@ == state.watch_folder_ids@,
        window.filtering.spam_section.folder_id == state.spam_folder_id,
        window.filtering.unsure_section.folder_id == state.unsure_folder_id,
        window.filtering.spam_section.action_index == Some(0u32) <==> state.spam_action is Move,
        window.filtering.spam_section.action_index == Some(1u32) <==> state.spam_action is Copy,
        window.filtering.unsure_section.action_index == Some(0u32) <==> state.unsure_action is Move,
        window.filtering.unsure_section.action_index == Some(1u32) <==> state.unsure_action is Copy,
        window.filtering.ham_section.action_index == Some(0u32) <==> state.ham_action is Move,
        window.filtering.ham_section.action_index == Some(1u32) <==> state.ham_action is Copy,
        window.training.ham.ids@ == state.ham_training_folder_ids@,
        window.training.spam.ids@ == state.spam_training_folder_ids@,
        window.training.rescore == config.training.rescore,
        window.training.rebuild == config.training.rebuild,
        window.training.train_recovered_spam == config.training.train_recovered_spam,
        window.training.train_manual_spam == config.training.train_manual_spam,
        window.training.not_spam_action == Some(1u32)
            <==> config.general.recover_from_spam_message_state is Read,
        window.training.spam_action == Some(1u32)
            <==> config.general.delete_as_spam_message_state is Read,
        window.notifications.enabled == config.notification.notify_sound_enabled,
        window.notifications.ham_sound@ == config.notification.notify_ham_sound@,
        window.notifications.unsure_sound@ == config.notification.notify_unsure_sound@,
        window.notifications.spam_sound@ == config.notification.notify_spam_sound@,
        window.notifications.delay.value == clamped_to(
            config.notification.notify_accumulate_delay,
            SIXTY,
        ),
        window.calendar.enabled == config.calendar.calendar_filtering_enabled,
        window.calendar.action_index == Some(1u32) <==> config.calendar.calendar_spam_action
            is Trash,
        window.calendar.action_index == Some(2u32) <==> config.calendar.calendar_spam_action
            is Move,
        window.advanced.timer_enabled == config.filter.timer_enabled,
        window.advanced.wait_for_sync == config.filter.timer_wait_for_sync,
        window.advanced.start_delay.value == clamped_to(config.filter.timer_start_delay, SIXTY),
        window.advanced.interval.value == clamped_to(config.filter.timer_interval, SIXTY),
        window.advanced.only_receive == config.filter.timer_only_receive_folders,
        window.advanced.verbose == config.general.verbose,
        window.advanced.save_spam_info == config.filter.save_spam_info,
        window.advanced.update_interval_index == 0 <==> config.update.check_interval is Weekly,
{
    assert(window.advanced.values() == crate::gui::tabs::advanced::shown_values(config));
    assert(window.filtering.spam_section@.folder_id == state@.spam_folder);
    assert(window.filtering.unsure_section@.folder_id == state@.unsure_folder);
    assert(window.filtering.ham_section@.action_index == Some(index_of_action(state@.ham_action)));
}

/// A window that somebody waits for says so when it closes, and keeps what its tabs hold until
/// then.
pub proof fn who_waits_is_told_when_the_window_closes(
    window: &mut ManagerWindow,
    closing: &mut ManagerWindow,
    request: CloseRequest,
    base: &str,
    directory: String,
    relative: String,
)
    requires
        call_ensures(ManagerWindow::set_on_close, (window,), ()),
        *old(closing) == *final(window),
        call_ensures(
            ManagerWindow::handle_close_request,
            (closing, Ok::<(), String>(())),
            request,
        ),
        call_ensures(dirs_or_default, (Some(base),), directory),
        call_ensures(dirs_or_default, (None,), relative),
    ensures
        request == (CloseRequest::Proceed { notify: true }),
        final(window).config == old(window).config,
        final(window).filtering == old(window).filtering,
        final(window).page == old(window).page,
        directory@ == path_in(base@, "SpamBayes"@),
        relative@ == "SpamBayes"@,
{
}

/// The titles of the tabs stand in the order of the tabs, and the tabs that are gone to by number
/// are those of their titles.
pub proof fn tabs_are_found_by_number()
    ensures
        TAB_TITLES@.len() == 7,
        TAB_TITLES@[GENERAL_TAB as int]@ == "General"@,
        TAB_TITLES@[FILTERING_TAB as int]@ == "Filtering"@,
        TAB_TITLES@[TRAINING_TAB as int]@ == "Training"@,
        TAB_TITLES@[3]@ == "Statistics"@,
        TAB_TITLES@[4]@ == "Notifications"@,
        TAB_TITLES@[5]@ == "Calendar"@,
        TAB_TITLES@[6]@ == "Advanced"@,
{
}

} // verus!
