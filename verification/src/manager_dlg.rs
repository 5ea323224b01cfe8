//! The Manager dialog: the settings it edits, the statistics it shows and what its messages do.

use vstd::prelude::*;

use crate::config::{
    copy_folder_choice, copy_folders, AppConfig, FilterAction, FilterConfig, FolderId,
    TrainingConfig,
};
use crate::double::{constants_have_their_values, differs_spec, Double, HUNDRED};
use crate::statistics::{StatisticsManager, StatisticsState, StatsFile, Verdict};
use crate::text::{grouped, push_grouped};

verus! {

/// The dialog's resource.
pub const IDD_MANAGER: u32 = 3000;

// Controls that show statistics.
pub const IDC_STAT_HAM_TRAINED: u16 = 3001;

pub const IDC_STAT_SPAM_TRAINED: u16 = 3002;

pub const IDC_STAT_SESSION_CLASSIFIED: u16 = 3003;

pub const IDC_STAT_SESSION_HAM: u16 = 3004;

pub const IDC_STAT_SESSION_UNSURE: u16 = 3005;

pub const IDC_STAT_SESSION_SPAM: u16 = 3006;

pub const IDC_STAT_LIFETIME_HAM_CLASSIFIED: u16 = 3007;

pub const IDC_STAT_LIFETIME_UNSURE_CLASSIFIED: u16 = 3008;

pub const IDC_STAT_LIFETIME_SPAM_CLASSIFIED: u16 = 3009;

// Controls of the filter settings.
pub const IDC_SPAM_THRESHOLD: u16 = 3010;

pub const IDC_UNSURE_THRESHOLD: u16 = 3011;

pub const IDC_SPAM_ACTION: u16 = 3012;

pub const IDC_UNSURE_ACTION: u16 = 3013;

pub const IDC_HAM_ACTION: u16 = 3014;

pub const IDC_ENABLE_FILTERING: u16 = 3015;

// Controls of the folder settings.
pub const IDC_WATCH_FOLDERS: u16 = 3020;

pub const IDC_SPAM_FOLDER: u16 = 3021;

pub const IDC_UNSURE_FOLDER: u16 = 3022;

pub const IDC_HAM_TRAIN_FOLDERS: u16 = 3023;

pub const IDC_SPAM_TRAIN_FOLDERS: u16 = 3024;

pub const IDC_BROWSE_WATCH: u16 = 3030;

pub const IDC_BROWSE_SPAM_FOLDER: u16 = 3031;

pub const IDC_BROWSE_UNSURE_FOLDER: u16 = 3032;

pub const IDC_BROWSE_HAM_TRAIN: u16 = 3033;

pub const IDC_BROWSE_SPAM_TRAIN: u16 = 3034;

// Buttons.
pub const IDC_TRAIN_NOW: u16 = 3040;

pub const IDC_FILTER_NOW: u16 = 3041;

pub const IDC_OK: u16 = 3042;

pub const IDC_CANCEL: u16 = 3043;

pub const IDC_RESET_STATS: u16 = 3044;

/// The timer that refreshes the statistics while the dialog is open.
pub const IDC_STATS_TIMER: usize = 3100;

/// The milliseconds between two refreshes.
pub const STATS_REFRESH_MS: u32 = 2000;

/// The statistics that the dialog shows.
#[derive(Debug, Clone, PartialEq, Eq)]
pub struct ManagerStats {
    pub ham_trained: u64,
    pub spam_trained: u64,
    pub session_ham_trained: u32,
    pub session_spam_trained: u32,
    pub session_classified: u32,
    pub session_ham_classified: u32,
    pub session_unsure_classified: u32,
    pub session_spam_classified: u32,
    pub total_ham_classified: u64,
    pub total_unsure_classified: u64,
    pub total_spam_classified: u64,
    pub correctly_classified: u64,
    pub false_positives: u64,
    pub false_negatives: u64,
    pub manually_classified_good: u64,
    pub manually_classified_spam: u64,
    /// The day of the last reset, or nothing if there was none.
    pub last_reset_date: Option<String>,
}

/// Statistics that are all zero.
pub open spec fn zero_stats() -> ManagerStats {
    ManagerStats {
        ham_trained: 0,
        spam_trained: 0,
        session_ham_trained: 0,
        session_spam_trained: 0,
        session_classified: 0,
        session_ham_classified: 0,
        session_unsure_classified: 0,
        session_spam_classified: 0,
        total_ham_classified: 0,
        total_unsure_classified: 0,
        total_spam_classified: 0,
        correctly_classified: 0,
        false_positives: 0,
        false_negatives: 0,
        manually_classified_good: 0,
        manually_classified_spam: 0,
        last_reset_date: None,
    }
}

/// The statistics shown for the given counters. What these do not count, manual classifications and
/// the day of the last reset, is left out.
pub open spec fn shown_stats(state: StatisticsState) -> ManagerStats {
    ManagerStats {
        ham_trained: state.lifetime.total_ham_trained,
        spam_trained: state.lifetime.total_spam_trained,
        session_ham_trained: state.session.ham_trained,
        session_spam_trained: state.session.spam_trained,
        session_classified: session_total(state) as u32,
        session_ham_classified: state.session.ham_classified,
        session_unsure_classified: state.session.unsure_classified,
        session_spam_classified: state.session.spam_classified,
        total_ham_classified: state.lifetime.total_ham_classified,
        total_unsure_classified: state.lifetime.total_unsure_classified,
        total_spam_classified: state.lifetime.total_spam_classified,
        correctly_classified: state.lifetime.correctly_classified,
        false_positives: state.lifetime.false_positives,
        false_negatives: state.lifetime.false_negatives,
        ..zero_stats()
    }
}

/// The number of messages classified in the session.
pub open spec fn session_total(state: StatisticsState) -> int {
    state.session.ham_classified + state.session.unsure_classified + state.session.spam_classified
}

/// The lifetime counts of what was classified rightly and wrongly are shown as they are, whatever
/// the counters hold.
pub proof fn accuracy_is_shown(state: StatisticsState)
    ensures
        shown_stats(state).correctly_classified == state.lifetime.correctly_classified,
        shown_stats(state).false_positives == state.lifetime.false_positives,
        shown_stats(state).false_negatives == state.lifetime.false_negatives,
{
}

/// A judgement of the user shows in the statistics as one message more of its kind, and as nothing
/// else.
pub proof fn corrections_are_shown(state: StatisticsState, verdict: Verdict)
    requires
        state.can_correct(verdict),
    ensures
        ({
            let before = shown_stats(state);
            shown_stats(state.corrected(verdict)) == match verdict {
                Verdict::Correct => ManagerStats {
                    correctly_classified: (before.correctly_classified + 1) as u64,
                    ..before
                },
                Verdict::FalseNegative => ManagerStats {
                    false_negatives: (before.false_negatives + 1) as u64,
                    ..before
                },
                Verdict::FalsePositive => ManagerStats {
                    false_positives: (before.false_positives + 1) as u64,
                    ..before
                },
            }
        }),
{
}

impl ManagerStats {
    /// Statistics that are all zero.
    pub fn new() -> (stats: ManagerStats)
        ensures
            stats == zero_stats(),
    {
        ManagerStats {
            ham_trained: 0,
            spam_trained: 0,
            session_ham_trained: 0,
            session_spam_trained: 0,
            session_classified: 0,
            session_ham_classified: 0,
            session_unsure_classified: 0,
            session_spam_classified: 0,
            total_ham_classified: 0,
            total_unsure_classified: 0,
            total_spam_classified: 0,
            correctly_classified: 0,
            false_positives: 0,
            false_negatives: 0,
            manually_classified_good: 0,
            manually_classified_spam: 0,
            last_reset_date: None,
        }
    }

    /// Statistics with the given training counts and session total, and zeros elsewhere.
    pub fn with_values(ham_trained: u64, spam_trained: u64, session_classified: u32) -> (stats:
        ManagerStats)
        ensures
            stats == (ManagerStats {
                ham_trained,
                spam_trained,
                session_classified,
                ..zero_stats()
            }),
    {
        let mut stats = ManagerStats::new();
        stats.ham_trained = ham_trained;
        stats.spam_trained = spam_trained;
        stats.session_classified = session_classified;
        stats
    }

    /// Whether statistics can be made of the given counters: whether the number of messages
    /// classified in the session fits.
    pub fn can_show(stats_mgr: &StatisticsManager) -> (fits: bool)
        ensures
            fits == (session_total(stats_mgr@) <= u32::MAX),
    {
        let session = stats_mgr.session_stats();
        let sum: u64 = session.ham_classified as u64 + session.unsure_classified as u64
            + session.spam_classified as u64;
        sum <= u32::MAX as u64
    }

    /// The statistics of the given counters. The numbers of manual classifications, which the
    /// counters do not hold, are zero, and there is no day of a reset.
    pub fn from_statistics(stats_mgr: &StatisticsManager) -> (stats: ManagerStats)
        requires
            session_total(stats_mgr@) <= u32::MAX,
        ensures
            stats == shown_stats(stats_mgr@),
    {
        let session = stats_mgr.session_stats();
        let lifetime = stats_mgr.lifetime_stats();
        let mut stats = ManagerStats::new();
        stats.ham_trained = lifetime.total_ham_trained;
        stats.spam_trained = lifetime.total_spam_trained;
        stats.session_ham_trained = session.ham_trained;
        stats.session_spam_trained = session.spam_trained;
        stats.session_classified =
        session.ham_classified + session.unsure_classified + session.spam_classified;
        stats.session_ham_classified = session.ham_classified;
        stats.session_unsure_classified = session.unsure_classified;
        stats.session_spam_classified = session.spam_classified;
        stats.total_ham_classified = lifetime.total_ham_classified;
        stats.total_unsure_classified = lifetime.total_unsure_classified;
        stats.total_spam_classified = lifetime.total_spam_classified;
        stats.correctly_classified = lifetime.correctly_classified;
        stats.false_positives = lifetime.false_positives;
        stats.false_negatives = lifetime.false_negatives;
        stats
    }
}

impl Default for ManagerStats {
    fn default() -> (stats: Self)
        ensures
            stats == zero_stats(),
    {
        ManagerStats::new()
    }
}

/// A number with a comma between each group of three digits.
pub fn format_with_thousands(n: u64) -> (text: String)
    ensures
        text@ == grouped(n as nat),
{
    let mut text = String::new();
    push_grouped(&mut text, n);
    assert(text@ =~= grouped(n as nat));
    text
}

/// A lifetime total with the session's share of it.
pub open spec fn stat_text(lifetime: nat, session: nat) -> Seq<char> {
    grouped(lifetime) + " (session: "@ + grouped(session) + ")"@
}

/// A lifetime total with the session's share of it, such as `1,523 (session: 12)`.
pub fn format_stat(lifetime: u64, session: u32) -> (text: String)
    ensures
        text@ == stat_text(lifetime as nat, session as nat),
{
    let mut text = format_with_thousands(lifetime);
    text.append(" (session: ");
    push_grouped(&mut text, session as u64);
    text.append(")");
    text
}

/// The values of the settings that the dialog edits.
pub struct ManagerSettings {
    pub filter_enabled: bool,
    pub spam_threshold: Double,
    pub unsure_threshold: Double,
    pub spam_action: FilterAction,
    pub unsure_action: FilterAction,
    pub ham_action: FilterAction,
    pub watch_folders: Seq<FolderId>,
    pub spam_folder: Option<FolderId>,
    pub unsure_folder: Option<FolderId>,
    pub ham_training_folders: Seq<FolderId>,
    pub spam_training_folders: Seq<FolderId>,
}

/// The values that a configuration has for the settings that the dialog edits.
pub open spec fn settings_of(config: AppConfig) -> ManagerSettings {
    ManagerSettings {
        filter_enabled: config.filter.enabled,
        spam_threshold: config.filter.spam_threshold,
        unsure_threshold: config.filter.unsure_threshold,
        spam_action: config.filter.spam_action,
        unsure_action: config.filter.unsure_action,
        ham_action: config.filter.ham_action,
        watch_folders: config.filter.watch_folder_ids@,
        spam_folder: config.filter.spam_folder_id,
        unsure_folder: config.filter.unsure_folder_id,
        ham_training_folders: config.training.ham_folder_ids@,
        spam_training_folders: config.training.spam_folder_ids@,
    }
}

/// Two configurations agree on everything that the dialog does not edit.
pub open spec fn same_other_settings(a: AppConfig, b: AppConfig) -> bool {
    &&& a.general == b.general
    &&& a.filter_now == b.filter_now
    &&& a.notification == b.notification
    &&& a.calendar == b.calendar
    &&& a.update == b.update
    &&& a.filter == (FilterConfig {
        enabled: a.filter.enabled,
        spam_threshold: a.filter.spam_threshold,
        unsure_threshold: a.filter.unsure_threshold,
        spam_action: a.filter.spam_action,
        unsure_action: a.filter.unsure_action,
        ham_action: a.filter.ham_action,
        watch_folder_ids: a.filter.watch_folder_ids,
        spam_folder_id: a.filter.spam_folder_id,
        unsure_folder_id: a.filter.unsure_folder_id,
        ..b.filter
    })
    &&& a.training == (TrainingConfig {
        ham_folder_ids: a.training.ham_folder_ids,
        spam_folder_ids: a.training.spam_folder_ids,
        ..b.training
    })
}

/// `after` is `before` with the given settings in place of its own.
pub open spec fn settings_applied(
    settings: ManagerSettings,
    before: AppConfig,
    after: AppConfig,
) -> bool {
    settings_of(after) == settings && same_other_settings(after, before)
}

/// Applying the settings that were read from a configuration changes none of its values, and
/// applying settings a second time changes nothing more.
pub proof fn applying_is_idempotent(
    settings: ManagerSettings,
    before: AppConfig,
    once: AppConfig,
    twice: AppConfig,
)
    requires
        settings_applied(settings, before, once),
        settings_applied(settings_of(once), once, twice),
    ensures
        settings_of(twice) == settings_of(once),
        settings_applied(settings, before, twice),
        settings == settings_of(before) ==> settings_of(once) == settings_of(before),
{
}

/// A threshold as the dialog takes it: moved into the range from 0 to 100.
pub open spec fn clamped_threshold(value: Double) -> Double {
    value.clamp_spec(Double { bits: 0 }, Double { bits: HUNDRED })
}

/// A threshold, moved into the range from 0 to 100.
pub fn clamp_threshold(value: Double) -> (clamped: Double)
    ensures
        clamped == clamped_threshold(value),
        !value.is_nan() ==> 0 <= clamped.scaled() <= crate::double::whole(100),
{
    proof {
        constants_have_their_values();
        vstd::arithmetic::power2::lemma_pow2_pos(1074);
    }
    value.clamp(Double { bits: 0 }, Double { bits: HUNDRED })
}

/// The mark of a changed working copy. It starts out unset, and nothing takes it back.
#[derive(Debug)]
pub struct DirtyFlag {
    set: bool,
}

/// A working copy of the settings, and whether it has been changed.
#[derive(Debug)]
pub struct ManagerState {
    pub filter_enabled: bool,
    pub spam_threshold: Double,
    pub unsure_threshold: Double,
    pub spam_action: FilterAction,
    pub unsure_action: FilterAction,
    pub ham_action: FilterAction,
    pub watch_folder_ids: Vec<FolderId>,
    pub spam_folder_id: Option<FolderId>,
    pub unsure_folder_id: Option<FolderId>,
    pub ham_training_folder_ids: Vec<FolderId>,
    pub spam_training_folder_ids: Vec<FolderId>,
    /// Whether anything has been changed.
    pub dirty: DirtyFlag,
}

impl View for ManagerState {
    type V = ManagerSettings;

    open spec fn view(&self) -> ManagerSettings {
        ManagerSettings {
            filter_enabled: self.filter_enabled,
            spam_threshold: self.spam_threshold,
            unsure_threshold: self.unsure_threshold,
            spam_action: self.spam_action,
            unsure_action: self.unsure_action,
            ham_action: self.ham_action,
            watch_folders: self.watch_folder_ids@,
            spam_folder: self.spam_folder_id,
            unsure_folder: self.unsure_folder_id,
            ham_training_folders: self.ham_training_folder_ids@,
            spam_training_folders: self.spam_training_folder_ids@,
        }
    }
}

impl ManagerState {
    /// Whether the settings have been changed.
    pub closed spec fn changed(&self) -> bool {
        self.dirty.set
    }

    /// A working copy of a configuration's settings.
    pub fn from_config(config: &AppConfig) -> (state: ManagerState)
        ensures
            state@ == settings_of(*config),
            !state.changed(),
    {
        ManagerState {
            filter_enabled: config.filter.enabled,
            spam_threshold: config.filter.spam_threshold,
            unsure_threshold: config.filter.unsure_threshold,
            spam_action: config.filter.spam_action,
            unsure_action: config.filter.unsure_action,
            ham_action: config.filter.ham_action,
            watch_folder_ids: copy_folders(&config.filter.watch_folder_ids),
            spam_folder_id: copy_folder_choice(&config.filter.spam_folder_id),
            unsure_folder_id: copy_folder_choice(&config.filter.unsure_folder_id),
            ham_training_folder_ids: copy_folders(&config.training.ham_folder_ids),
            spam_training_folder_ids: copy_folders(&config.training.spam_folder_ids),
            dirty: DirtyFlag { set: false },
        }
    }

    /// Puts the settings into a configuration.
    pub fn apply_to_config(&self, config: &mut AppConfig)
        ensures
            settings_applied(self@, *old(config), *final(config)),
    {
        config.filter.enabled = self.filter_enabled;
        config.filter.spam_threshold = self.spam_threshold;
        config.filter.unsure_threshold = self.unsure_threshold;
        config.filter.spam_action = self.spam_action;
        config.filter.unsure_action = self.unsure_action;
        config.filter.ham_action = self.ham_action;
        config.filter.watch_folder_ids = copy_folders(&self.watch_folder_ids);
        config.filter.spam_folder_id = copy_folder_choice(&self.spam_folder_id);
        config.filter.unsure_folder_id = copy_folder_choice(&self.unsure_folder_id);
        config.training.ham_folder_ids = copy_folders(&self.ham_training_folder_ids);
        config.training.spam_folder_ids = copy_folders(&self.spam_training_folder_ids);
    }

    /// Marks the settings as changed.
    pub fn set_dirty(&mut self)
        ensures
            final(self)@ == old(self)@,
            final(self).changed(),
    {
        self.dirty.set = true;
    }

    /// Whether the settings have been changed.
    pub fn is_dirty(&self) -> (dirty: bool)
        ensures
            dirty == self.changed(),
    {
        self.dirty.set
    }

    /// Sets the spam threshold, moved into its range, if that differs from the present one by more
    /// than a rounding error.
    pub fn set_spam_threshold(&mut self, value: Double)
        ensures
            ({
                let differs = differs_spec(clamped_threshold(value), old(self).spam_threshold);
                &&& final(self)@ == (ManagerSettings {
                    spam_threshold: if differs {
                        clamped_threshold(value)
                    } else {
                        old(self).spam_threshold
                    },
                    ..old(self)@
                })
                &&& final(self).changed() == (old(self).changed() || differs)
            }),
    {
        let clamped = clamp_threshold(value);
        if clamped.differs_from(self.spam_threshold) {
            self.spam_threshold = clamped;
            self.dirty.set = true;
        }
    }

    /// Sets the unsure threshold, moved into its range, if that differs from the present one by
    /// more than a rounding error.
    pub fn set_unsure_threshold(&mut self, value: Double)
        ensures
            ({
                let differs = differs_spec(clamped_threshold(value), old(self).unsure_threshold);
                &&& final(self)@ == (ManagerSettings {
                    unsure_threshold: if differs {
                        clamped_threshold(value)
                    } else {
                        old(self).unsure_threshold
                    },
                    ..old(self)@
                })
                &&& final(self).changed() == (old(self).changed() || differs)
            }),
    {
        let clamped = clamp_threshold(value);
        if clamped.differs_from(self.unsure_threshold) {
            self.unsure_threshold = clamped;
            self.dirty.set = true;
        }
    }

    /// Sets what is done with spam.
    pub fn set_spam_action(&mut self, action: FilterAction)
        ensures
            final(self)@ == (ManagerSettings { spam_action: action, ..old(self)@ }),
            final(self).changed() == (old(self).changed() || old(self).spam_action != action),
    {
        if self.spam_action != action {
            self.spam_action = action;
            self.dirty.set = true;
        }
    }

    /// Sets what is done with unsure messages.
    pub fn set_unsure_action(&mut self, action: FilterAction)
        ensures
            final(self)@ == (ManagerSettings { unsure_action: action, ..old(self)@ }),
            final(self).changed() == (old(self).changed() || old(self).unsure_action != action),
    {
        if self.unsure_action != action {
            self.unsure_action = action;
            self.dirty.set = true;
        }
    }

    /// Sets what is done with ham.
    pub fn set_ham_action(&mut self, action: FilterAction)
        ensures
            final(self)@ == (ManagerSettings { ham_action: action, ..old(self)@ }),
            final(self).changed() == (old(self).changed() || old(self).ham_action != action),
    {
        if self.ham_action != action {
            self.ham_action = action;
            self.dirty.set = true;
        }
    }

    /// Turns the filter on or off.
    pub fn set_filter_enabled(&mut self, enabled: bool)
        ensures
            final(self)@ == (ManagerSettings { filter_enabled: enabled, ..old(self)@ }),
            final(self).changed() == (old(self).changed() || old(self).filter_enabled != enabled),
    {
        if self.filter_enabled != enabled {
            self.filter_enabled = enabled;
            self.dirty.set = true;
        }
    }

    /// Sets the watched folders.
    pub fn set_watch_folders(&mut self, folders: Vec<FolderId>)
        ensures
            final(self)@ == (ManagerSettings { watch_folders: folders@, ..old(self)@ }),
            final(self).changed(),
    {
        self.watch_folder_ids = folders;
        self.dirty.set = true;
    }

    /// Sets the folder for spam.
    pub fn set_spam_folder(&mut self, folder_id: Option<FolderId>)
        ensures
            final(self)@ == (ManagerSettings { spam_folder: folder_id, ..old(self)@ }),
            final(self).changed(),
    {
        self.spam_folder_id = folder_id;
        self.dirty.set = true;
    }

    /// Sets the folder for unsure messages.
    pub fn set_unsure_folder(&mut self, folder_id: Option<FolderId>)
        ensures
            final(self)@ == (ManagerSettings { unsure_folder: folder_id, ..old(self)@ }),
            final(self).changed(),
    {
        self.unsure_folder_id = folder_id;
        self.dirty.set = true;
    }

    /// Sets the folders with ham to train on.
    pub fn set_ham_training_folders(&mut self, folders: Vec<FolderId>)
        ensures
            final(self)@ == (ManagerSettings { ham_training_folders: folders@, ..old(self)@ }),
            final(self).changed(),
    {
        self.ham_training_folder_ids = folders;
        self.dirty.set = true;
    }

    /// Sets the folders with spam to train on.
    pub fn set_spam_training_folders(&mut self, folders: Vec<FolderId>)
        ensures
            final(self)@ == (ManagerSettings { spam_training_folders: folders@, ..old(self)@ }),
            final(self).changed(),
    {
        self.spam_training_folder_ids = folders;
        self.dirty.set = true;
    }
}

/// The setting that chosen folders are meant for.
#[derive(Debug, Clone, Copy, PartialEq, Eq, Structural)]
pub enum FolderTarget {
    /// The watched folders.
    Watch,
    /// The folder for spam.
    Spam,
    /// The folder for unsure messages.
    Unsure,
    /// The folders with ham to train on.
    HamTraining,
    /// The folders with spam to train on.
    SpamTraining,
}

/// A request to train on the given folders.
#[derive(Debug)]
pub struct TrainRequest {
    pub ham_folder_ids: Vec<FolderId>,
    pub spam_folder_ids: Vec<FolderId>,
}

/// A request to filter the given folders.
#[derive(Debug)]
pub struct FilterNowRequest {
    pub folder_ids: Vec<FolderId>,
}

/// The settings after folders were chosen for a target. A target that takes one folder takes the
/// first.
pub open spec fn with_folders(
    settings: ManagerSettings,
    target: FolderTarget,
    folders: Seq<FolderId>,
) -> ManagerSettings {
    let first = if folders.len() > 0 {
        Some(folders[0])
    } else {
        None
    };
    match target {
        FolderTarget::Watch => ManagerSettings { watch_folders: folders, ..settings },
        FolderTarget::Spam => ManagerSettings { spam_folder: first, ..settings },
        FolderTarget::Unsure => ManagerSettings { unsure_folder: first, ..settings },
        FolderTarget::HamTraining => ManagerSettings { ham_training_folders: folders, ..settings },
        FolderTarget::SpamTraining => ManagerSettings { spam_training_folders: folders, ..settings },
    }
}

/// The message of a dialog's initialisation.
pub const WM_INITDIALOG: u32 = 0x0110;

/// The message of a control that was used.
pub const WM_COMMAND: u32 = 0x0111;

/// The message of a timer that fired.
pub const WM_TIMER: u32 = 0x0113;

/// The message of a window that is closed.
pub const WM_CLOSE: u32 = 0x0010;

/// What a message to the dialog calls for.
#[derive(Debug, Clone, Copy, PartialEq, Eq, Structural)]
pub enum DialogAction {
    /// Nothing.
    Ignore,
    /// Show the statistics, start the refresh timer and accept the default focus.
    Initialise,
    /// End the dialog with the given result: 1 if its settings are accepted, else 0.
    End(isize),
    /// Ask whether the lifetime statistics shall be reset, and reset them if so.
    AskForReset,
    /// Show the present statistics.
    Refresh,
    /// Stop the refresh timer and end the dialog with result 0.
    StopTimerAndEnd,
}

impl DialogAction {
    /// What the dialog procedure returns: 1 for the initialisation, else 0.
    pub fn result(self) -> (result: isize)
        ensures
            result == (if self == DialogAction::Initialise {
                1int
            } else {
                0
            }),
    {
        match self {
            DialogAction::Initialise => 1,
            _ => 0,
        }
    }
}

/// The texts of the dialog's statistics controls, in the order in which they are set.
pub open spec fn stats_control_texts(stats: ManagerStats) -> Seq<(u16, Seq<char>)> {
    seq![
        (
            IDC_STAT_HAM_TRAINED,
            stat_text(stats.ham_trained as nat, stats.session_ham_trained as nat),
        ),
        (
            IDC_STAT_SPAM_TRAINED,
            stat_text(stats.spam_trained as nat, stats.session_spam_trained as nat),
        ),
        (IDC_STAT_SESSION_HAM, grouped(stats.session_ham_classified as nat)),
        (IDC_STAT_SESSION_UNSURE, grouped(stats.session_unsure_classified as nat)),
        (IDC_STAT_SESSION_SPAM, grouped(stats.session_spam_classified as nat)),
        (
            IDC_STAT_LIFETIME_HAM_CLASSIFIED,
            stat_text(stats.total_ham_classified as nat, stats.session_ham_classified as nat),
        ),
        (
            IDC_STAT_LIFETIME_UNSURE_CLASSIFIED,
            stat_text(stats.total_unsure_classified as nat, stats.session_unsure_classified as nat),
        ),
        (
            IDC_STAT_LIFETIME_SPAM_CLASSIFIED,
            stat_text(stats.total_spam_classified as nat, stats.session_spam_classified as nat),
        ),
        (IDC_STAT_SESSION_CLASSIFIED, grouped(stats.session_classified as nat)),
    ]
}

/// Control texts by their contents.
pub open spec fn control_texts_view(texts: Seq<(u16, String)>) -> Seq<(u16, Seq<char>)> {
    Seq::new(texts.len(), |i: int| (texts[i].0, texts[i].1@))
}

/// The Manager dialog.
#[derive(Debug)]
pub struct ManagerDialog {
    state: ManagerState,
    stats: ManagerStats,
    statistics_manager: Option<StatisticsManager>,
}

impl ManagerDialog {
    /// The settings' working copy.
    pub closed spec fn working_copy(&self) -> ManagerState {
        self.state
    }

    /// The statistics shown.
    pub closed spec fn shown(&self) -> ManagerStats {
        self.stats
    }

    /// The counters behind the statistics, if there are any.
    pub closed spec fn counters(&self) -> Option<StatisticsManager> {
        self.statistics_manager
    }

    /// The counters, if any, can be added up.
    pub open spec fn counters_fit(&self) -> bool {
        self.counters() matches Some(manager) ==> session_total(manager@) <= u32::MAX
    }

    /// A dialog for the given settings and statistics.
    pub fn new(
        config: &AppConfig,
        stats: ManagerStats,
        statistics_manager: Option<StatisticsManager>,
    ) -> (dialog: ManagerDialog)
        ensures
            dialog.working_copy()@ == settings_of(*config),
            !dialog.working_copy().changed(),
            dialog.shown() == stats,
            dialog.counters() == statistics_manager,
    {
        ManagerDialog { state: ManagerState::from_config(config), stats, statistics_manager }
    }

    /// Puts the settings into a configuration if they have been changed; says whether they have,
    /// and so whether the configuration is to be saved.
    pub fn apply_changes(&self, config: &mut AppConfig) -> (applied: bool)
        ensures
            applied == self.working_copy().changed(),
            applied ==> settings_applied(self.working_copy()@, *old(config), *final(config)),
            !applied ==> *final(config) == *old(config),
    {
        if !self.state.is_dirty() {
            return false;
        }
        self.state.apply_to_config(config);
        true
    }

    /// Whether the settings were saved: they had been changed, which is what
    /// [`ManagerDialog::apply_changes`] says, and could be written.
    pub fn saved(applied: bool, written: bool) -> (saved: bool)
        ensures
            saved == (applied && written),
    {
        applied && written
    }

    /// The request that the training button makes.
    pub fn show_train_progress(&self) -> (request: TrainRequest)
        ensures
            request.ham_folder_ids@ == self.working_copy()@.ham_training_folders,
            request.spam_folder_ids@ == self.working_copy()@.spam_training_folders,
    {
        TrainRequest {
            ham_folder_ids: copy_folders(&self.state.ham_training_folder_ids),
            spam_folder_ids: copy_folders(&self.state.spam_training_folder_ids),
        }
    }

    /// The request that the filter button makes.
    pub fn show_filter_now_progress(&self) -> (request: FilterNowRequest)
        ensures
            request.folder_ids@ == self.working_copy()@.watch_folders,
    {
        FilterNowRequest { folder_ids: copy_folders(&self.state.watch_folder_ids) }
    }

    /// Takes the folders that were chosen for a target.
    pub fn on_folder_select(&mut self, target: FolderTarget, folder_ids: Vec<FolderId>)
        ensures
            final(self).working_copy()@ == with_folders(
                old(self).working_copy()@,
                target,
                folder_ids@,
            ),
            final(self).working_copy().changed(),
            final(self).shown() == old(self).shown(),
            final(self).counters() == old(self).counters(),
    {
        match target {
            FolderTarget::Watch => {
                self.state.set_watch_folders(folder_ids);
            },
            FolderTarget::Spam => {
                self.state.set_spam_folder(first_folder(&folder_ids));
            },
            FolderTarget::Unsure => {
                self.state.set_unsure_folder(first_folder(&folder_ids));
            },
            FolderTarget::HamTraining => {
                self.state.set_ham_training_folders(folder_ids);
            },
            FolderTarget::SpamTraining => {
                self.state.set_spam_training_folders(folder_ids);
            },
        }
    }

    /// The settings' working copy.
    pub fn state(&self) -> (state: &ManagerState)
        ensures
            *state == self.working_copy(),
    {
        &self.state
    }

    /// The settings' working copy, to be changed.
    pub fn state_mut(&mut self) -> (state: &mut ManagerState)
        ensures
            *state == old(self).working_copy(),
            final(self).working_copy() == *final(state),
            final(self).shown() == old(self).shown(),
            final(self).counters() == old(self).counters(),
    {
        &mut self.state
    }

    /// The statistics shown.
    pub fn stats(&self) -> (stats: &ManagerStats)
        ensures
            *stats == self.shown(),
    {
        &self.stats
    }

    /// Shows other statistics.
    pub fn update_stats(&mut self, stats: ManagerStats)
        ensures
            final(self).shown() == stats,
            final(self).working_copy() == old(self).working_copy(),
            final(self).counters() == old(self).counters(),
    {
        self.stats = stats;
    }

    /// The counters behind the statistics.
    pub fn statistics_manager(&self) -> (manager: Option<&StatisticsManager>)
        ensures
            match manager {
                Some(m) => self.counters() == Some(*m),
                None => self.counters() is None,
            },
    {
        match &self.statistics_manager {
            Some(manager) => Some(manager),
            None => None,
        }
    }

    /// Takes the present state of the counters, which other parts of the add-in go on changing.
    pub fn attach_counters(&mut self, manager: Option<StatisticsManager>)
        ensures
            final(self).counters() == manager,
            final(self).shown() == old(self).shown(),
            final(self).working_copy() == old(self).working_copy(),
    {
        self.statistics_manager = manager;
    }

    /// Shows the present counters, if there are any; says whether there are.
    pub fn refresh(&mut self) -> (refreshed: bool)
        requires
            old(self).counters_fit(),
        ensures
            refreshed == old(self).counters() is Some,
            final(self).shown() == (match old(self).counters() {
                Some(manager) => shown_stats(manager@),
                None => old(self).shown(),
            }),
            final(self).counters() == old(self).counters(),
            final(self).working_copy() == old(self).working_copy(),
    {
        match &self.statistics_manager {
            Some(manager) => {
                self.stats = ManagerStats::from_statistics(manager);
                true
            },
            None => false,
        }
    }

    /// Whether the user is asked before the statistics are reset: only if there are counters.
    pub fn asks_before_reset(&self) -> (asks: bool)
        ensures
            asks == self.counters() is Some,
    {
        self.statistics_manager.is_some()
    }

    /// Whether the counters, if any, can be shown.
    pub fn counters_can_be_shown(&self) -> (fits: bool)
        ensures
            fits == self.counters_fit(),
    {
        match &self.statistics_manager {
            Some(manager) => ManagerStats::can_show(manager),
            None => true,
        }
    }

    /// Resets the lifetime counters, if there are counters and the user confirmed, and shows the
    /// result. What comes back is to be saved at once; nothing comes back if nothing was reset.
    pub fn reset_statistics(&mut self, confirmed: bool) -> (to_save: Option<StatsFile>)
        requires
            old(self).counters_fit(),
        ensures
            to_save is Some <==> old(self).counters() is Some && confirmed,
            match (old(self).counters(), confirmed) {
                (Some(manager), true) => {
                    &&& final(self).counters() matches Some(after)
                    &&& after@ == (StatisticsState {
                        lifetime: crate::statistics::zero_lifetime(),
                        ..manager@
                    })
                    &&& final(self).shown() == shown_stats(after@)
                    &&& to_save == Some(after@.file())
                },
                _ => final(self).counters() == old(self).counters() && final(self).shown() == old(self).shown(),
            },
            final(self).working_copy() == old(self).working_copy(),
    {
        if !confirmed {
            return None;
        }
        match self.statistics_manager {
            Some(current) => {
                let mut manager = current;
                let file = manager.reset_lifetime();
                self.stats = ManagerStats::from_statistics(&manager);
                self.statistics_manager = Some(manager);
                Some(file)
            },
            None => None,
        }
    }

    /// Decides what a message to the dialog calls for.
    pub fn dialog_proc(msg: u32, wparam: u64) -> (action: DialogAction)
        ensures
            action == (if msg == WM_INITDIALOG {
                DialogAction::Initialise
            } else if msg == WM_COMMAND {
                if wparam % 0x10000 == IDC_OK {
                    DialogAction::End(1)
                } else if wparam % 0x10000 == IDC_CANCEL {
                    DialogAction::End(0)
                } else if wparam % 0x10000 == IDC_RESET_STATS {
                    DialogAction::AskForReset
                } else {
                    DialogAction::Ignore
                }
            } else if msg == WM_TIMER {
                DialogAction::Refresh
            } else if msg == WM_CLOSE {
                DialogAction::StopTimerAndEnd
            } else {
                DialogAction::Ignore
            }),
    {
        if msg == WM_INITDIALOG {
            DialogAction::Initialise
        } else if msg == WM_COMMAND {
            let control_id: u16 = (wparam % 0x10000) as u16;
            if control_id == IDC_OK {
                DialogAction::End(1)
            } else if control_id == IDC_CANCEL {
                DialogAction::End(0)
            } else if control_id == IDC_RESET_STATS {
                DialogAction::AskForReset
            } else {
                DialogAction::Ignore
            }
        } else if msg == WM_TIMER {
            DialogAction::Refresh
        } else if msg == WM_CLOSE {
            DialogAction::StopTimerAndEnd
        } else {
            DialogAction::Ignore
        }
    }

    /// The texts of the statistics controls, in the order in which they are set.
    pub fn populate_stats_controls(stats: &ManagerStats) -> (texts: Vec<(u16, String)>)
        ensures
            control_texts_view(texts@) == stats_control_texts(*stats),
    {
        let mut texts: Vec<(u16, String)> = Vec::new();
        texts.push(
            (IDC_STAT_HAM_TRAINED, format_stat(stats.ham_trained, stats.session_ham_trained)),
        );
        texts.push(
            (IDC_STAT_SPAM_TRAINED, format_stat(stats.spam_trained, stats.session_spam_trained)),
        );
        texts.push(
            (IDC_STAT_SESSION_HAM, format_with_thousands(stats.session_ham_classified as u64)),
        );
        texts.push(
            (
                IDC_STAT_SESSION_UNSURE,
                format_with_thousands(stats.session_unsure_classified as u64),
            ),
        );
        texts.push(
            (IDC_STAT_SESSION_SPAM, format_with_thousands(stats.session_spam_classified as u64)),
        );
        texts.push(
            (
                IDC_STAT_LIFETIME_HAM_CLASSIFIED,
                format_stat(stats.total_ham_classified, stats.session_ham_classified),
            ),
        );
        texts.push(
            (
                IDC_STAT_LIFETIME_UNSURE_CLASSIFIED,
                format_stat(stats.total_unsure_classified, stats.session_unsure_classified),
            ),
        );
        texts.push(
            (
                IDC_STAT_LIFETIME_SPAM_CLASSIFIED,
                format_stat(stats.total_spam_classified, stats.session_spam_classified),
            ),
        );
        texts.push(
            (
                IDC_STAT_SESSION_CLASSIFIED,
                format_with_thousands(stats.session_classified as u64),
            ),
        );
        assert(control_texts_view(texts@) =~= stats_control_texts(*stats));
        texts
    }
}

/// The first of a list of folders.
fn first_folder(folders: &Vec<FolderId>) -> (first: Option<FolderId>)
    ensures
        first == (if folders@.len() > 0 {
            Some(folders@[0])
        } else {
            None
        }),
{
    if folders.len() > 0 {
        Some(folders[0].clone())
    } else {
        None
    }
}

/// The statistics that are shown are the counters: each lifetime and each session counter in its
/// own place, and the messages classified in the session added up. Manual classifications are not
/// counted, and there is no day of a reset.
pub proof fn counters_are_shown_in_their_places(manager: &StatisticsManager, stats: ManagerStats)
    requires
        session_total(manager@) <= u32::MAX,
        call_ensures(ManagerStats::from_statistics, (manager,), stats),
    ensures
        stats.ham_trained == manager@.lifetime.total_ham_trained,
        stats.spam_trained == manager@.lifetime.total_spam_trained,
        stats.session_ham_trained == manager@.session.ham_trained,
        stats.session_spam_trained == manager@.session.spam_trained,
        stats.session_ham_classified == manager@.session.ham_classified,
        stats.session_unsure_classified == manager@.session.unsure_classified,
        stats.session_spam_classified == manager@.session.spam_classified,
        stats.session_classified == stats.session_ham_classified + stats.session_unsure_classified
            + stats.session_spam_classified,
        stats.total_ham_classified == manager@.lifetime.total_ham_classified,
        stats.total_unsure_classified == manager@.lifetime.total_unsure_classified,
        stats.total_spam_classified == manager@.lifetime.total_spam_classified,
        stats.correctly_classified == manager@.lifetime.correctly_classified,
        stats.false_positives == manager@.lifetime.false_positives,
        stats.false_negatives == manager@.lifetime.false_negatives,
        stats.manually_classified_good == 0,
        stats.manually_classified_spam == 0,
        stats.last_reset_date is None,
{
}

/// New statistics are all zero; those with given values have them in their places, and zeros else.
pub proof fn given_values_have_their_places(
    none: ManagerStats,
    ham: u64,
    spam: u64,
    session: u32,
    some: ManagerStats,
)
    requires
        call_ensures(ManagerStats::new, (), none),
        call_ensures(ManagerStats::with_values, (ham, spam, session), some),
    ensures
        none.ham_trained == 0 && none.spam_trained == 0 && none.session_classified == 0,
        none.session_ham_trained == 0 && none.session_spam_trained == 0,
        none.session_ham_classified == 0 && none.session_unsure_classified == 0,
        none.session_spam_classified == 0,
        none.total_ham_classified == 0 && none.total_unsure_classified == 0,
        none.total_spam_classified == 0 && none.correctly_classified == 0,
        none.false_positives == 0 && none.false_negatives == 0,
        none.manually_classified_good == 0 && none.manually_classified_spam == 0,
        none.last_reset_date is None,
        some.ham_trained == ham,
        some.spam_trained == spam,
        some.session_classified == session,
        some == (ManagerStats {
            ham_trained: ham,
            spam_trained: spam,
            session_classified: session,
            ..none
        }),
{
}

/// Each control of the dialog shows the number that it is meant for: lifetime numbers with the
/// session's own number of the same kind beside them, and each control is set once.
pub proof fn controls_show_their_own_numbers(stats: &ManagerStats, texts: Vec<(u16, String)>)
    requires
        call_ensures(ManagerDialog::populate_stats_controls, (stats,), texts),
    ensures
        ({
            let both = |lifetime: u64, session: u32|
                grouped(lifetime as nat) + " (session: "@ + grouped(session as nat) + ")"@;
            &&& texts@.len() == 9
            &&& texts@[0].0 == 3001 && texts@[0].1@ == both(
                stats.ham_trained,
                stats.session_ham_trained,
            )
            &&& texts@[1].0 == 3002 && texts@[1].1@ == both(
                stats.spam_trained,
                stats.session_spam_trained,
            )
            &&& texts@[2].0 == 3004 && texts@[2].1@ == grouped(stats.session_ham_classified as nat)
            &&& texts@[3].0 == 3005 && texts@[3].1@ == grouped(
                stats.session_unsure_classified as nat,
            )
            &&& texts@[4].0 == 3006 && texts@[4].1@ == grouped(stats.session_spam_classified as nat)
            &&& texts@[5].0 == 3007 && texts@[5].1@ == both(
                stats.total_ham_classified,
                stats.session_ham_classified,
            )
            &&& texts@[6].0 == 3008 && texts@[6].1@ == both(
                stats.total_unsure_classified,
                stats.session_unsure_classified,
            )
            &&& texts@[7].0 == 3009 && texts@[7].1@ == both(
                stats.total_spam_classified,
                stats.session_spam_classified,
            )
            &&& texts@[8].0 == 3003 && texts@[8].1@ == grouped(stats.session_classified as nat)
        }),
{
    let shown = control_texts_view(texts@);
    assert(shown.len() == texts@.len());
    assert(shown[0] == (texts@[0].0, texts@[0].1@));
    assert(shown[1] == (texts@[1].0, texts@[1].1@));
    assert(shown[2] == (texts@[2].0, texts@[2].1@));
    assert(shown[3] == (texts@[3].0, texts@[3].1@));
    assert(shown[4] == (texts@[4].0, texts@[4].1@));
    assert(shown[5] == (texts@[5].0, texts@[5].1@));
    assert(shown[6] == (texts@[6].0, texts@[6].1@));
    assert(shown[7] == (texts@[7].0, texts@[7].1@));
    assert(shown[8] == (texts@[8].0, texts@[8].1@));
}

/// The lifetime number stands before the session's, and both can be read off the text.
pub proof fn both_numbers_are_shown(lifetime: u64, session: u32, text: String, alone: String)
    requires
        call_ensures(format_stat, (lifetime, session), text),
        call_ensures(format_with_thousands, (lifetime,), alone),
    ensures
        text@ == alone@ + " (session: "@ + grouped(session as nat) + ")"@,
        crate::text::numeral_value(crate::text::without_commas(alone@)) == lifetime,
{
    crate::text::grouping_only_adds_commas(lifetime as nat);
    crate::text::decimal_reads_back(lifetime as nat);
}

/// A working copy that is put into a configuration gives it the settings of the one that the copy
/// was made from, each in its place, and leaves everything else there.
pub proof fn a_working_copy_carries_the_settings(
    source: &AppConfig,
    state: ManagerState,
    target: &mut AppConfig,
)
    requires
        call_ensures(ManagerState::from_config, (source,), state),
        call_ensures(ManagerState::apply_to_config, (&state, target), ()),
    ensures
        !state.changed(),
        final(target).filter.enabled == source.filter.enabled,
        final(target).filter.spam_threshold == source.filter.spam_threshold,
        final(target).filter.unsure_threshold == source.filter.unsure_threshold,
        final(target).filter.spam_action == source.filter.spam_action,
        final(target).filter.unsure_action == source.filter.unsure_action,
        final(target).filter.ham_action == source.filter.ham_action,
        final(target).filter.watch_folder_ids@ == source.filter.watch_folder_ids@,
        final(target).filter.spam_folder_id == source.filter.spam_folder_id,
        final(target).filter.unsure_folder_id == source.filter.unsure_folder_id,
        final(target).training.ham_folder_ids@ == source.training.ham_folder_ids@,
        final(target).training.spam_folder_ids@ == source.training.spam_folder_ids@,
        final(target).general == old(target).general,
        final(target).filter_now == old(target).filter_now,
        final(target).notification == old(target).notification,
        final(target).calendar == old(target).calendar,
        final(target).update == old(target).update,
        final(target).filter.spam_mark_as_read == old(target).filter.spam_mark_as_read,
        final(target).filter.unsure_mark_as_read == old(target).filter.unsure_mark_as_read,
        final(target).filter.ham_mark_as_read == old(target).filter.ham_mark_as_read,
        final(target).filter.ham_folder_id == old(target).filter.ham_folder_id,
        final(target).filter.spam_auto_cleanup_enabled == old(target).filter.spam_auto_cleanup_enabled,
        final(target).filter.spam_auto_cleanup_days == old(target).filter.spam_auto_cleanup_days,
        final(target).filter.timer_enabled == old(target).filter.timer_enabled,
        final(target).filter.timer_interval == old(target).filter.timer_interval,
        final(target).filter.timer_start_delay == old(target).filter.timer_start_delay,
        final(target).filter.save_spam_info == old(target).filter.save_spam_info,
        final(target).training.rescore == old(target).training.rescore,
        final(target).training.rebuild == old(target).training.rebuild,
        final(target).training.train_manual_spam == old(target).training.train_manual_spam,
        final(target).training.train_recovered_spam == old(target).training.train_recovered_spam,
{
    assert(settings_of(*final(target)) == settings_of(*source));
    assert(settings_of(*final(target)).watch_folders == settings_of(*source).watch_folders);
    assert(settings_of(*final(target)).spam_folder == settings_of(*source).spam_folder);
    assert(settings_of(*final(target)).unsure_folder == settings_of(*source).unsure_folder);
}

/// A working copy holds the settings that it was made from, each in its own field, and puts its own
/// fields into a configuration.
pub proof fn a_working_copy_holds_the_settings(
    source: &AppConfig,
    state: ManagerState,
    other: &ManagerState,
    target: &mut AppConfig,
)
    requires
        call_ensures(ManagerState::from_config, (source,), state),
        call_ensures(ManagerState::apply_to_config, (other, target), ()),
    ensures
        state.filter_enabled == source.filter.enabled,
        state.spam_threshold == source.filter.spam_threshold,
        state.unsure_threshold == source.filter.unsure_threshold,
        state.spam_action == source.filter.spam_action,
        state.unsure_action == source.filter.unsure_action,
        state.ham_action == source.filter.ham_action,
        state.watch_folder_ids@ == source.filter.watch_folder_ids@,
        state.spam_folder_id == source.filter.spam_folder_id,
        state.unsure_folder_id == source.filter.unsure_folder_id,
        state.ham_training_folder_ids@ == source.training.ham_folder_ids@,
        state.spam_training_folder_ids@ == source.training.spam_folder_ids@,
        final(target).filter.enabled == other.filter_enabled,
        final(target).filter.spam_threshold == other.spam_threshold,
        final(target).filter.unsure_threshold == other.unsure_threshold,
        final(target).filter.spam_action == other.spam_action,
        final(target).filter.unsure_action == other.unsure_action,
        final(target).filter.ham_action == other.ham_action,
        final(target).filter.watch_folder_ids@ == other.watch_folder_ids@,
        final(target).filter.spam_folder_id == other.spam_folder_id,
        final(target).filter.unsure_folder_id == other.unsure_folder_id,
        final(target).training.ham_folder_ids@ == other.ham_training_folder_ids@,
        final(target).training.spam_folder_ids@ == other.spam_training_folder_ids@,
{
    assert(state@ == settings_of(*source));
    assert(settings_of(*final(target)) == other@);
}

/// Two working copies agree on everything but, perhaps, the two thresholds.
pub open spec fn same_but_thresholds(a: ManagerState, b: ManagerState) -> bool {
    &&& a.filter_enabled == b.filter_enabled
    &&& a.spam_action == b.spam_action
    &&& a.unsure_action == b.unsure_action
    &&& a.ham_action == b.ham_action
    &&& a.watch_folder_ids@ == b.watch_folder_ids@
    &&& a.spam_folder_id == b.spam_folder_id
    &&& a.unsure_folder_id == b.unsure_folder_id
    &&& a.ham_training_folder_ids@ == b.ham_training_folder_ids@
    &&& a.spam_training_folder_ids@ == b.spam_training_folder_ids@
}

/// Setting a threshold leaves a number from 0 to 100 where it changes anything, leaves the other
/// threshold and all other settings alone, and marks the copy as changed exactly if something
/// changed that was not marked before.
pub proof fn thresholds_are_set_one_by_one(
    first: &mut ManagerState,
    second: &mut ManagerState,
    value: Double,
)
    requires
        call_ensures(ManagerState::set_spam_threshold, (first, value), ()),
        call_ensures(ManagerState::set_unsure_threshold, (second, value), ()),
    ensures
        final(first).unsure_threshold == old(first).unsure_threshold,
        final(second).spam_threshold == old(second).spam_threshold,
        same_but_thresholds(*final(first), *old(first)),
        same_but_thresholds(*final(second), *old(second)),
        final(first).spam_threshold != old(first).spam_threshold ==> final(first).changed(),
        final(second).unsure_threshold != old(second).unsure_threshold ==> final(second).changed(),
        final(first).changed() && !old(first).changed() ==> differs_spec(
            final(first).spam_threshold,
            old(first).spam_threshold,
        ),
        final(second).changed() && !old(second).changed() ==> differs_spec(
            final(second).unsure_threshold,
            old(second).unsure_threshold,
        ),
        old(first).changed() ==> final(first).changed(),
        old(second).changed() ==> final(second).changed(),
        !value.is_nan() && final(first).spam_threshold != old(first).spam_threshold ==> 0
            <= final(first).spam_threshold.scaled() <= crate::double::whole(100),
        !value.is_nan() && final(second).unsure_threshold != old(second).unsure_threshold ==> 0
            <= final(second).unsure_threshold.scaled() <= crate::double::whole(100),
        !value.is_nan() && 0 <= value.scaled() <= crate::double::whole(100) && differs_spec(
            value,
            old(first).spam_threshold,
        ) ==> final(first).spam_threshold == value,
        !value.is_nan() && 0 <= value.scaled() <= crate::double::whole(100) && differs_spec(
            value,
            old(second).unsure_threshold,
        ) ==> final(second).unsure_threshold == value,
{
    constants_have_their_values();
    vstd::arithmetic::power2::lemma_pow2_pos(1074);
    assert(final(first)@.spam_threshold == final(first).spam_threshold);
    assert(final(first)@.unsure_threshold == final(first).unsure_threshold);
    assert(final(second)@.spam_threshold == final(second).spam_threshold);
    assert(final(second)@.unsure_threshold == final(second).unsure_threshold);
    assert(final(first)@.spam_folder == final(first).spam_folder_id);
    assert(final(second)@.spam_folder == final(second).spam_folder_id);
}

/// Setting an action sets the one that is meant, and only that; the copy counts as changed from
/// then on exactly if it did before or if the action is another one.
pub proof fn actions_are_set_one_by_one(
    first: &mut ManagerState,
    second: &mut ManagerState,
    third: &mut ManagerState,
    fourth: &mut ManagerState,
    action: FilterAction,
    enabled: bool,
)
    requires
        call_ensures(ManagerState::set_spam_action, (first, action), ()),
        call_ensures(ManagerState::set_unsure_action, (second, action), ()),
        call_ensures(ManagerState::set_ham_action, (third, action), ()),
        call_ensures(ManagerState::set_filter_enabled, (fourth, enabled), ()),
    ensures
        final(first).spam_action == action,
        final(first).unsure_action == old(first).unsure_action,
        final(first).ham_action == old(first).ham_action,
        final(first).filter_enabled == old(first).filter_enabled,
        final(first).spam_threshold == old(first).spam_threshold,
        final(first).changed() == (old(first).changed() || old(first).spam_action != action),
        final(second).unsure_action == action,
        final(second).spam_action == old(second).spam_action,
        final(second).ham_action == old(second).ham_action,
        final(second).filter_enabled == old(second).filter_enabled,
        final(second).changed() == (old(second).changed() || old(second).unsure_action != action),
        final(third).ham_action == action,
        final(third).spam_action == old(third).spam_action,
        final(third).unsure_action == old(third).unsure_action,
        final(third).filter_enabled == old(third).filter_enabled,
        final(third).changed() == (old(third).changed() || old(third).ham_action != action),
        final(fourth).filter_enabled == enabled,
        final(fourth).spam_action == old(fourth).spam_action,
        final(fourth).unsure_action == old(fourth).unsure_action,
        final(fourth).ham_action == old(fourth).ham_action,
        final(fourth).changed() == (old(fourth).changed() || old(fourth).filter_enabled != enabled),
{
    assert(final(first)@.spam_action == final(first).spam_action);
    assert(final(first)@.spam_threshold == final(first).spam_threshold);
    assert(final(second)@.spam_action == final(second).spam_action);
    assert(final(third)@.spam_action == final(third).spam_action);
    assert(final(fourth)@.spam_action == final(fourth).spam_action);
}

/// Folders that are chosen for a target go there, and nowhere else: all of them where the target is
/// a list, the first where it is one folder, and none if none was chosen. The copy counts as
/// changed.
pub proof fn chosen_folders_go_to_their_target(
    dialog: &mut ManagerDialog,
    target: FolderTarget,
    folders: Vec<FolderId>,
)
    requires
        call_ensures(ManagerDialog::on_folder_select, (dialog, target, folders), ()),
    ensures
        ({
            let before = old(dialog).working_copy();
            let after = final(dialog).working_copy();
            &&& after.changed()
            &&& target is Watch ==> after.watch_folder_ids@ == folders@
            &&& !(target is Watch) ==> after.watch_folder_ids@ == before.watch_folder_ids@
            &&& target is HamTraining ==> after.ham_training_folder_ids@ == folders@
            &&& !(target is HamTraining) ==> after.ham_training_folder_ids@
                == before.ham_training_folder_ids@
            &&& target is SpamTraining ==> after.spam_training_folder_ids@ == folders@
            &&& !(target is SpamTraining) ==> after.spam_training_folder_ids@
                == before.spam_training_folder_ids@
            &&& target is Spam && folders@.len() > 0 ==> after.spam_folder_id == Some(folders@[0])
            &&& target is Spam && folders@.len() == 0 ==> after.spam_folder_id is None
            &&& !(target is Spam) ==> after.spam_folder_id == before.spam_folder_id
            &&& target is Unsure && folders@.len() > 0 ==> after.unsure_folder_id == Some(
                folders@[0],
            )
            &&& target is Unsure && folders@.len() == 0 ==> after.unsure_folder_id is None
            &&& !(target is Unsure) ==> after.unsure_folder_id == before.unsure_folder_id
            &&& after.filter_enabled == before.filter_enabled
            &&& after.spam_threshold == before.spam_threshold
            &&& after.unsure_threshold == before.unsure_threshold
        }),
{
    let before = old(dialog).working_copy();
    let after = final(dialog).working_copy();
    assert(after@.watch_folders == after.watch_folder_ids@);
    assert(before@.watch_folders == before.watch_folder_ids@);
    assert(after@.spam_folder == after.spam_folder_id);
    assert(before@.spam_folder == before.spam_folder_id);
}

/// A dialog writes its settings exactly if they were changed, and then gives the configuration the
/// working copy's values; unchanged ones leave it exactly as it is. They count as saved only if
/// they were changed and could be written.
pub proof fn only_changed_settings_are_written(
    dialog: &ManagerDialog,
    config: &mut AppConfig,
    applied: bool,
    written: bool,
    saved: bool,
)
    requires
        call_ensures(ManagerDialog::apply_changes, (dialog, config), applied),
        call_ensures(ManagerDialog::saved, (applied, written), saved),
    ensures
        applied <==> dialog.working_copy().changed(),
        !applied ==> *final(config) == *old(config),
        applied ==> {
            let copy = dialog.working_copy();
            &&& final(config).filter.enabled == copy.filter_enabled
            &&& final(config).filter.spam_threshold == copy.spam_threshold
            &&& final(config).filter.unsure_threshold == copy.unsure_threshold
            &&& final(config).filter.spam_action == copy.spam_action
            &&& final(config).filter.unsure_action == copy.unsure_action
            &&& final(config).filter.ham_action == copy.ham_action
            &&& final(config).filter.watch_folder_ids@ == copy.watch_folder_ids@
            &&& final(config).filter.spam_folder_id == copy.spam_folder_id
            &&& final(config).filter.unsure_folder_id == copy.unsure_folder_id
            &&& final(config).training.ham_folder_ids@ == copy.ham_training_folder_ids@
            &&& final(config).training.spam_folder_ids@ == copy.spam_training_folder_ids@
        },
        saved ==> dialog.working_copy().changed() && written,
        dialog.working_copy().changed() && written ==> saved,
{
    if applied {
        assert(settings_of(*final(config)) == dialog.working_copy()@);
        assert(settings_of(*final(config)).spam_folder
            == dialog.working_copy().spam_folder_id);
    }
}

/// The buttons for training and filtering hand on the folders of their own settings.
pub proof fn requests_name_the_right_folders(
    dialog: &ManagerDialog,
    train: TrainRequest,
    filter: FilterNowRequest,
)
    requires
        call_ensures(ManagerDialog::show_train_progress, (dialog,), train),
        call_ensures(ManagerDialog::show_filter_now_progress, (dialog,), filter),
    ensures
        train.ham_folder_ids@ == dialog.working_copy().ham_training_folder_ids@,
        train.spam_folder_ids@ == dialog.working_copy().spam_training_folder_ids@,
        filter.folder_ids@ == dialog.working_copy().watch_folder_ids@,
{
}

/// A refresh shows the counters as they are, and nothing new without counters; a confirmed reset
/// leaves lifetime counters of zero and the session's as they were, shows that, and gives that to
/// be saved; one that is not confirmed changes nothing. Settings are never touched.
pub proof fn refresh_and_reset_show_the_counters(
    refreshed: &mut ManagerDialog,
    shown: bool,
    reset: &mut ManagerDialog,
    confirmed: bool,
    to_save: Option<StatsFile>,
)
    requires
        old(refreshed).counters_fit(),
        old(reset).counters_fit(),
        call_ensures(ManagerDialog::refresh, (refreshed,), shown),
        call_ensures(ManagerDialog::reset_statistics, (reset, confirmed), to_save),
    ensures
        shown <==> old(refreshed).counters() is Some,
        !shown ==> final(refreshed).shown() == old(refreshed).shown(),
        old(refreshed).counters() matches Some(manager) ==> {
            let stats = final(refreshed).shown();
            &&& stats.ham_trained == manager@.lifetime.total_ham_trained
            &&& stats.spam_trained == manager@.lifetime.total_spam_trained
            &&& stats.session_ham_classified == manager@.session.ham_classified
            &&& stats.session_spam_classified == manager@.session.spam_classified
            &&& stats.total_spam_classified == manager@.lifetime.total_spam_classified
            &&& stats.false_positives == manager@.lifetime.false_positives
            &&& stats.false_negatives == manager@.lifetime.false_negatives
        },
        final(refreshed).working_copy() == old(refreshed).working_copy(),
        final(reset).working_copy() == old(reset).working_copy(),
        to_save is Some <==> confirmed && old(reset).counters() is Some,
        to_save is None ==> final(reset).counters() == old(reset).counters() && final(reset).shown()
            == old(reset).shown(),
        to_save matches Some(file) ==> final(reset).counters() is Some && ({
            let after = final(reset).counters()->0@;
            &&& after.session == old(reset).counters()->0@.session
            &&& after.lifetime.total_ham_trained == 0 && after.lifetime.total_spam_trained == 0
            &&& after.lifetime.total_ham_classified == 0
            &&& after.lifetime.total_unsure_classified == 0
            &&& after.lifetime.total_spam_classified == 0
            &&& after.lifetime.correctly_classified == 0
            &&& after.lifetime.false_negatives == 0 && after.lifetime.false_positives == 0
            &&& file.lifetime == after.lifetime
            &&& final(reset).shown().ham_trained == 0
            &&& final(reset).shown().session_ham_classified == after.session.ham_classified
        }),
{
}

/// The dialog accepts its settings on OK alone: Cancel and closing end it without, a message of
/// another kind never ends it, and only the low half of the second number names the control.
pub proof fn only_ok_accepts(msg: u32, wparam: u64, action: DialogAction, same: DialogAction)
    requires
        call_ensures(ManagerDialog::dialog_proc, (msg, wparam), action),
        call_ensures(ManagerDialog::dialog_proc, (msg, (wparam % 0x10000) as u64), same),
    ensures
        action == same,
        action == DialogAction::End(1isize) <==> msg == 0x0111 && wparam % 0x10000 == 3042,
        action == DialogAction::End(0isize) <==> msg == 0x0111 && wparam % 0x10000 == 3043,
        action is AskForReset <==> msg == 0x0111 && wparam % 0x10000 == 3044,
        action is Initialise <==> msg == 0x0110,
        action is Refresh <==> msg == 0x0113,
        action is StopTimerAndEnd <==> msg == 0x0010,
{
}

/// Folders that are set go where they are meant to, and nowhere else, and count as a change.
pub proof fn folders_are_set_one_by_one(
    watch: &mut ManagerState,
    spam: &mut ManagerState,
    unsure: &mut ManagerState,
    ham_training: &mut ManagerState,
    spam_training: &mut ManagerState,
    folders: Vec<FolderId>,
    folder: Option<FolderId>,
)
    requires
        call_ensures(ManagerState::set_watch_folders, (watch, folders), ()),
        call_ensures(ManagerState::set_spam_folder, (spam, folder), ()),
        call_ensures(ManagerState::set_unsure_folder, (unsure, folder), ()),
        call_ensures(ManagerState::set_ham_training_folders, (ham_training, folders), ()),
        call_ensures(ManagerState::set_spam_training_folders, (spam_training, folders), ()),
    ensures
        final(watch).changed() && final(watch).watch_folder_ids@ == folders@,
        final(watch).spam_folder_id == old(watch).spam_folder_id,
        final(watch).unsure_folder_id == old(watch).unsure_folder_id,
        final(watch).ham_training_folder_ids@ == old(watch).ham_training_folder_ids@,
        final(watch).spam_training_folder_ids@ == old(watch).spam_training_folder_ids@,
        final(spam).changed() && final(spam).spam_folder_id == folder,
        final(spam).unsure_folder_id == old(spam).unsure_folder_id,
        final(spam).watch_folder_ids@ == old(spam).watch_folder_ids@,
        final(unsure).changed() && final(unsure).unsure_folder_id == folder,
        final(unsure).spam_folder_id == old(unsure).spam_folder_id,
        final(unsure).watch_folder_ids@ == old(unsure).watch_folder_ids@,
        final(ham_training).changed() && final(ham_training).ham_training_folder_ids@ == folders@,
        final(ham_training).spam_training_folder_ids@ == old(ham_training).spam_training_folder_ids@,
        final(ham_training).watch_folder_ids@ == old(ham_training).watch_folder_ids@,
        final(spam_training).changed() && final(spam_training).spam_training_folder_ids@
            == folders@,
        final(spam_training).ham_training_folder_ids@ == old(spam_training).ham_training_folder_ids@,
        final(spam_training).watch_folder_ids@ == old(spam_training).watch_folder_ids@,
{
    assert(final(watch)@.spam_folder == final(watch).spam_folder_id);
    assert(old(watch)@.spam_folder == old(watch).spam_folder_id);
    assert(final(spam)@.spam_folder == final(spam).spam_folder_id);
    assert(old(spam)@.spam_folder == old(spam).spam_folder_id);
    assert(final(unsure)@.spam_folder == final(unsure).spam_folder_id);
    assert(old(unsure)@.spam_folder == old(unsure).spam_folder_id);
    assert(final(ham_training)@.watch_folders == final(ham_training).watch_folder_ids@);
    assert(final(spam_training)@.watch_folders == final(spam_training).watch_folder_ids@);
}

/// A new working copy is not changed; one that is marked is, and keeps its settings.
pub proof fn a_mark_changes_no_setting(
    config: &AppConfig,
    fresh: ManagerState,
    unmarked: bool,
    state: &mut ManagerState,
    marked: bool,
)
    requires
        call_ensures(ManagerState::from_config, (config,), fresh),
        call_ensures(ManagerState::is_dirty, (&fresh,), unmarked),
        call_ensures(ManagerState::set_dirty, (state,), ()),
        call_ensures(ManagerState::is_dirty, (final(state),), marked),
    ensures
        !unmarked,
        marked,
        final(state)@ == old(state)@,
{
}

/// A threshold ends up from 0 to 100, and stays as it is if it was there.
pub proof fn thresholds_lie_between_0_and_100(value: Double, clamped: Double)
    requires
        call_ensures(clamp_threshold, (value,), clamped),
    ensures
        !value.is_nan() ==> 0 <= clamped.scaled() <= crate::double::whole(100),
        !value.is_nan() && 0 <= value.scaled() <= crate::double::whole(100) ==> clamped == value,
        !value.is_nan() && value.scaled() < 0 ==> clamped.scaled() == 0,
        !value.is_nan() && value.scaled() > crate::double::whole(100) ==> clamped.scaled()
            == crate::double::whole(100),
        value.is_nan() ==> clamped == value,
{
    constants_have_their_values();
    vstd::arithmetic::power2::lemma_pow2_pos(1074);
}

/// A dialog opens with the settings of the configuration, unchanged, and with the statistics and
/// counters that it is given; other statistics and counters take their place, and leave the
/// settings.
pub proof fn a_dialog_opens_with_what_it_is_given(
    config: &AppConfig,
    stats: ManagerStats,
    counters: Option<StatisticsManager>,
    dialog: ManagerDialog,
    state: &ManagerState,
    shown: &ManagerStats,
    manager: Option<&StatisticsManager>,
    asks: bool,
)
    requires
        call_ensures(ManagerDialog::new, (config, stats, counters), dialog),
        call_ensures(ManagerDialog::state, (&dialog,), state),
        call_ensures(ManagerDialog::stats, (&dialog,), shown),
        call_ensures(ManagerDialog::statistics_manager, (&dialog,), manager),
        call_ensures(ManagerDialog::asks_before_reset, (&dialog,), asks),
    ensures
        !state.changed(),
        state.filter_enabled == config.filter.enabled,
        state.spam_threshold == config.filter.spam_threshold,
        state.unsure_threshold == config.filter.unsure_threshold,
        state.watch_folder_ids@ == config.filter.watch_folder_ids@,
        state.spam_folder_id == config.filter.spam_folder_id,
        state.unsure_folder_id == config.filter.unsure_folder_id,
        *shown == stats,
        manager is Some <==> counters is Some,
        manager is Some ==> *manager->0 == counters->0,
        asks <==> counters is Some,
{
    assert(state@ == settings_of(*config));
    assert(state@.spam_folder == state.spam_folder_id);
}

/// Other statistics and other counters take the place of those that a dialog has, and leave the
/// rest.
pub proof fn statistics_and_counters_are_replaced(
    one: &mut ManagerDialog,
    stats: ManagerStats,
    other: &mut ManagerDialog,
    counters: Option<StatisticsManager>,
)
    requires
        call_ensures(ManagerDialog::update_stats, (one, stats), ()),
        call_ensures(ManagerDialog::attach_counters, (other, counters), ()),
    ensures
        final(one).shown() == stats,
        final(one).counters() == old(one).counters(),
        final(one).working_copy() == old(one).working_copy(),
        final(other).counters() == counters,
        final(other).shown() == old(other).shown(),
        final(other).working_copy() == old(other).working_copy(),
{
}

/// Counters can be shown exactly if the session's three numbers of classified messages add up to a
/// number of 32 bits, and always where there are none.
pub proof fn counters_that_add_up_can_be_shown(
    manager: &StatisticsManager,
    fits: bool,
    dialog: &ManagerDialog,
    shown: bool,
)
    requires
        call_ensures(ManagerStats::can_show, (manager,), fits),
        call_ensures(ManagerDialog::counters_can_be_shown, (dialog,), shown),
    ensures
        fits <==> manager@.session.ham_classified + manager@.session.unsure_classified
            + manager@.session.spam_classified < 0x1_0000_0000,
        dialog.counters() is None ==> shown,
        dialog.counters() == Some(*manager) ==> shown == fits,
{
}

/// The dialog's procedure returns 1 for the initialisation and 0 for all else.
pub proof fn only_the_initialisation_is_answered(
    msg: u32,
    wparam: u64,
    action: DialogAction,
    result: isize,
)
    requires
        call_ensures(ManagerDialog::dialog_proc, (msg, wparam), action),
        call_ensures(DialogAction::result, (action,), result),
    ensures
        msg == 0x0110 ==> result == 1,
        msg != 0x0110 ==> result == 0,
{
}

/// Setting an action, or the switch of the filter, leaves thresholds, folders and the other actions.
pub proof fn an_action_changes_nothing_else(
    first: &mut ManagerState,
    second: &mut ManagerState,
    third: &mut ManagerState,
    fourth: &mut ManagerState,
    action: FilterAction,
    enabled: bool,
)
    requires
        call_ensures(ManagerState::set_spam_action, (first, action), ()),
        call_ensures(ManagerState::set_unsure_action, (second, action), ()),
        call_ensures(ManagerState::set_ham_action, (third, action), ()),
        call_ensures(ManagerState::set_filter_enabled, (fourth, enabled), ()),
    ensures
        final(first).unsure_action == old(first).unsure_action,
        final(first).ham_action == old(first).ham_action,
        final(first).filter_enabled == old(first).filter_enabled,
        final(first).spam_threshold == old(first).spam_threshold,
        final(first).unsure_threshold == old(first).unsure_threshold,
        final(first).spam_folder_id == old(first).spam_folder_id,
        final(first).unsure_folder_id == old(first).unsure_folder_id,
        final(first).watch_folder_ids@ == old(first).watch_folder_ids@,
        final(first).ham_training_folder_ids@ == old(first).ham_training_folder_ids@,
        final(first).spam_training_folder_ids@ == old(first).spam_training_folder_ids@,
        final(second).spam_action == old(second).spam_action,
        final(second).ham_action == old(second).ham_action,
        final(second).filter_enabled == old(second).filter_enabled,
        final(second).spam_threshold == old(second).spam_threshold,
        final(second).unsure_threshold == old(second).unsure_threshold,
        final(second).spam_folder_id == old(second).spam_folder_id,
        final(second).unsure_folder_id == old(second).unsure_folder_id,
        final(second).watch_folder_ids@ == old(second).watch_folder_ids@,
        final(second).ham_training_folder_ids@ == old(second).ham_training_folder_ids@,
        final(second).spam_training_folder_ids@ == old(second).spam_training_folder_ids@,
        final(third).spam_action == old(third).spam_action,
        final(third).unsure_action == old(third).unsure_action,
        final(third).filter_enabled == old(third).filter_enabled,
        final(third).spam_threshold == old(third).spam_threshold,
        final(third).unsure_threshold == old(third).unsure_threshold,
        final(third).spam_folder_id == old(third).spam_folder_id,
        final(third).unsure_folder_id == old(third).unsure_folder_id,
        final(third).watch_folder_ids@ == old(third).watch_folder_ids@,
        final(third).ham_training_folder_ids@ == old(third).ham_training_folder_ids@,
        final(third).spam_training_folder_ids@ == old(third).spam_training_folder_ids@,
        final(fourth).spam_action == old(fourth).spam_action,
        final(fourth).unsure_action == old(fourth).unsure_action,
        final(fourth).ham_action == old(fourth).ham_action,
        final(fourth).spam_threshold == old(fourth).spam_threshold,
        final(fourth).unsure_threshold == old(fourth).unsure_threshold,
        final(fourth).spam_folder_id == old(fourth).spam_folder_id,
        final(fourth).unsure_folder_id == old(fourth).unsure_folder_id,
        final(fourth).watch_folder_ids@ == old(fourth).watch_folder_ids@,
        final(fourth).ham_training_folder_ids@ == old(fourth).ham_training_folder_ids@,
        final(fourth).spam_training_folder_ids@ == old(fourth).spam_training_folder_ids@,
{
    assert(final(first)@.spam_folder == final(first).spam_folder_id);
    assert(final(first)@.watch_folders == final(first).watch_folder_ids@);
    assert(final(second)@.spam_folder == final(second).spam_folder_id);
    assert(final(second)@.watch_folders == final(second).watch_folder_ids@);
    assert(final(third)@.spam_folder == final(third).spam_folder_id);
    assert(final(third)@.watch_folders == final(third).watch_folder_ids@);
    assert(final(fourth)@.spam_folder == final(fourth).spam_folder_id);
    assert(final(fourth)@.watch_folders == final(fourth).watch_folder_ids@);
}

/// Setting folders leaves thresholds, actions, the switch and the folders of other purposes.
pub proof fn folders_change_nothing_else(
    watch: &mut ManagerState,
    spam: &mut ManagerState,
    unsure: &mut ManagerState,
    ham_training: &mut ManagerState,
    spam_training: &mut ManagerState,
    folders: Vec<FolderId>,
    folder: Option<FolderId>,
)
    requires
        call_ensures(ManagerState::set_watch_folders, (watch, folders), ()),
        call_ensures(ManagerState::set_spam_folder, (spam, folder), ()),
        call_ensures(ManagerState::set_unsure_folder, (unsure, folder), ()),
        call_ensures(ManagerState::set_ham_training_folders, (ham_training, folders), ()),
        call_ensures(ManagerState::set_spam_training_folders, (spam_training, folders), ()),
    ensures
        final(watch).spam_action == old(watch).spam_action,
        final(watch).unsure_action == old(watch).unsure_action,
        final(watch).ham_action == old(watch).ham_action,
        final(watch).filter_enabled == old(watch).filter_enabled,
        final(watch).spam_threshold == old(watch).spam_threshold,
        final(watch).unsure_threshold == old(watch).unsure_threshold,
        final(watch).spam_folder_id == old(watch).spam_folder_id,
        final(watch).unsure_folder_id == old(watch).unsure_folder_id,
        final(watch).ham_training_folder_ids@ == old(watch).ham_training_folder_ids@,
        final(watch).spam_training_folder_ids@ == old(watch).spam_training_folder_ids@,
        final(spam).spam_action == old(spam).spam_action,
        final(spam).unsure_action == old(spam).unsure_action,
        final(spam).ham_action == old(spam).ham_action,
        final(spam).filter_enabled == old(spam).filter_enabled,
        final(spam).spam_threshold == old(spam).spam_threshold,
        final(spam).unsure_threshold == old(spam).unsure_threshold,
        final(spam).unsure_folder_id == old(spam).unsure_folder_id,
        final(spam).watch_folder_ids@ == old(spam).watch_folder_ids@,
        final(spam).ham_training_folder_ids@ == old(spam).ham_training_folder_ids@,
        final(spam).spam_training_folder_ids@ == old(spam).spam_training_folder_ids@,
        final(unsure).spam_action == old(unsure).spam_action,
        final(unsure).unsure_action == old(unsure).unsure_action,
        final(unsure).ham_action == old(unsure).ham_action,
        final(unsure).filter_enabled == old(unsure).filter_enabled,
        final(unsure).spam_threshold == old(unsure).spam_threshold,
        final(unsure).unsure_threshold == old(unsure).unsure_threshold,
        final(unsure).spam_folder_id == old(unsure).spam_folder_id,
        final(unsure).watch_folder_ids@ == old(unsure).watch_folder_ids@,
        final(unsure).ham_training_folder_ids@ == old(unsure).ham_training_folder_ids@,
        final(unsure).spam_training_folder_ids@ == old(unsure).spam_training_folder_ids@,
        final(ham_training).spam_action == old(ham_training).spam_action,
        final(ham_training).unsure_action == old(ham_training).unsure_action,
        final(ham_training).ham_action == old(ham_training).ham_action,
        final(ham_training).filter_enabled == old(ham_training).filter_enabled,
        final(ham_training).spam_threshold == old(ham_training).spam_threshold,
        final(ham_training).unsure_threshold == old(ham_training).unsure_threshold,
        final(ham_training).spam_folder_id == old(ham_training).spam_folder_id,
        final(ham_training).unsure_folder_id == old(ham_training).unsure_folder_id,
        final(ham_training).watch_folder_ids@ == old(ham_training).watch_folder_ids@,
        final(ham_training).spam_training_folder_ids@ == old(ham_training).spam_training_folder_ids@,
        final(spam_training).spam_action == old(spam_training).spam_action,
        final(spam_training).unsure_action == old(spam_training).unsure_action,
        final(spam_training).ham_action == old(spam_training).ham_action,
        final(spam_training).filter_enabled == old(spam_training).filter_enabled,
        final(spam_training).spam_threshold == old(spam_training).spam_threshold,
        final(spam_training).unsure_threshold == old(spam_training).unsure_threshold,
        final(spam_training).spam_folder_id == old(spam_training).spam_folder_id,
        final(spam_training).unsure_folder_id == old(spam_training).unsure_folder_id,
        final(spam_training).watch_folder_ids@ == old(spam_training).watch_folder_ids@,
        final(spam_training).ham_training_folder_ids@ == old(spam_training).ham_training_folder_ids@,
{
    assert(final(watch)@.spam_folder == final(watch).spam_folder_id);
    assert(final(watch)@.watch_folders == final(watch).watch_folder_ids@);
    assert(final(spam)@.spam_folder == final(spam).spam_folder_id);
    assert(final(spam)@.watch_folders == final(spam).watch_folder_ids@);
    assert(final(unsure)@.spam_folder == final(unsure).spam_folder_id);
    assert(final(unsure)@.watch_folders == final(unsure).watch_folder_ids@);
    assert(final(ham_training)@.spam_folder == final(ham_training).spam_folder_id);
    assert(final(ham_training)@.watch_folders == final(ham_training).watch_folder_ids@);
    assert(final(spam_training)@.spam_folder == final(spam_training).spam_folder_id);
    assert(final(spam_training)@.watch_folders == final(spam_training).watch_folder_ids@);
}

/// What the dialog does not edit stays in the configuration, whether its settings are put there
/// directly or, if they were changed, by the dialog.
pub proof fn settings_of_others_are_kept(
    state: &ManagerState,
    direct: &mut AppConfig,
    dialog: &ManagerDialog,
    config: &mut AppConfig,
    applied: bool,
)
    requires
        call_ensures(ManagerState::apply_to_config, (state, direct), ()),
        call_ensures(ManagerDialog::apply_changes, (dialog, config), applied),
    ensures
        final(direct).general == old(direct).general,
        final(direct).filter_now == old(direct).filter_now,
        final(direct).notification == old(direct).notification,
        final(direct).calendar == old(direct).calendar,
        final(direct).update == old(direct).update,
        ({
            let after = final(direct).filter;
            let before = old(direct).filter;
            &&& after.spam_mark_as_read == before.spam_mark_as_read
            &&& after.unsure_mark_as_read == before.unsure_mark_as_read
            &&& after.ham_mark_as_read == before.ham_mark_as_read
            &&& after.ham_folder_id == before.ham_folder_id
            &&& after.spam_auto_cleanup_enabled == before.spam_auto_cleanup_enabled
            &&& after.spam_auto_cleanup_days == before.spam_auto_cleanup_days
            &&& after.timer_enabled == before.timer_enabled
            &&& after.timer_start_delay == before.timer_start_delay
            &&& after.timer_interval == before.timer_interval
            &&& after.timer_only_receive_folders == before.timer_only_receive_folders
            &&& after.timer_wait_for_sync == before.timer_wait_for_sync
            &&& after.save_spam_info == before.save_spam_info
        }),
        ({
            let after = final(direct).training;
            let before = old(direct).training;
            &&& after.rescore == before.rescore
            &&& after.rebuild == before.rebuild
            &&& after.train_recovered_spam == before.train_recovered_spam
            &&& after.train_manual_spam == before.train_manual_spam
        }),
        final(config).general == old(config).general,
        final(config).filter_now == old(config).filter_now,
        final(config).notification == old(config).notification,
        final(config).calendar == old(config).calendar,
        final(config).update == old(config).update,
        ({
            let after = final(config).filter;
            let before = old(config).filter;
            &&& after.spam_mark_as_read == before.spam_mark_as_read
            &&& after.unsure_mark_as_read == before.unsure_mark_as_read
            &&& after.ham_mark_as_read == before.ham_mark_as_read
            &&& after.ham_folder_id == before.ham_folder_id
            &&& after.spam_auto_cleanup_enabled == before.spam_auto_cleanup_enabled
            &&& after.spam_auto_cleanup_days == before.spam_auto_cleanup_days
            &&& after.timer_enabled == before.timer_enabled
            &&& after.timer_start_delay == before.timer_start_delay
            &&& after.timer_interval == before.timer_interval
            &&& after.timer_only_receive_folders == before.timer_only_receive_folders
            &&& after.timer_wait_for_sync == before.timer_wait_for_sync
            &&& after.save_spam_info == before.save_spam_info
        }),
        ({
            let after = final(config).training;
            let before = old(config).training;
            &&& after.rescore == before.rescore
            &&& after.rebuild == before.rebuild
            &&& after.train_recovered_spam == before.train_recovered_spam
            &&& after.train_manual_spam == before.train_manual_spam
        }),
{
}

/// After a refresh, and after a reset, exactly the statistics of the counters are shown.
pub proof fn the_statistics_of_the_counters_are_shown(
    refreshed: &mut ManagerDialog,
    shown: bool,
    before: &StatisticsManager,
    stats: ManagerStats,
    reset: &mut ManagerDialog,
    to_save: Option<StatsFile>,
    after: &StatisticsManager,
    zeros: ManagerStats,
)
    requires
        old(refreshed).counters() == Some(*before),
        old(refreshed).counters_fit(),
        old(reset).counters_fit(),
        old(reset).counters() is Some,
        call_ensures(ManagerDialog::refresh, (refreshed,), shown),
        call_ensures(ManagerStats::from_statistics, (before,), stats),
        call_ensures(ManagerDialog::reset_statistics, (reset, true), to_save),
        final(reset).counters() == Some(*after),
        call_ensures(ManagerStats::from_statistics, (after,), zeros),
    ensures
        final(refreshed).shown() == stats,
        final(refreshed).counters() == old(refreshed).counters(),
        final(reset).shown() == zeros,
        to_save is Some,
{
}

/// The dialog, its controls and its timer have the numbers of the dialog's resource: those of the
/// statistics come first, then those of the filter, the folders, the buttons for folders, and the
/// other buttons.
pub proof fn the_numbers_of_the_controls_are_kept()
    ensures
        IDD_MANAGER == 3000,
        IDC_STAT_HAM_TRAINED == 3001,
        IDC_STAT_SPAM_TRAINED == 3002,
        IDC_STAT_SESSION_CLASSIFIED == 3003,
        IDC_STAT_SESSION_HAM == 3004,
        IDC_STAT_SESSION_UNSURE == 3005,
        IDC_STAT_SESSION_SPAM == 3006,
        IDC_STAT_LIFETIME_HAM_CLASSIFIED == 3007,
        IDC_STAT_LIFETIME_UNSURE_CLASSIFIED == 3008,
        IDC_STAT_LIFETIME_SPAM_CLASSIFIED == 3009,
        IDC_SPAM_THRESHOLD == 3010,
        IDC_UNSURE_THRESHOLD == 3011,
        IDC_SPAM_ACTION == 3012,
        IDC_UNSURE_ACTION == 3013,
        IDC_HAM_ACTION == 3014,
        IDC_ENABLE_FILTERING == 3015,
        IDC_WATCH_FOLDERS == 3020,
        IDC_SPAM_FOLDER == 3021,
        IDC_UNSURE_FOLDER == 3022,
        IDC_HAM_TRAIN_FOLDERS == 3023,
        IDC_SPAM_TRAIN_FOLDERS == 3024,
        IDC_BROWSE_WATCH == 3030,
        IDC_BROWSE_SPAM_FOLDER == 3031,
        IDC_BROWSE_UNSURE_FOLDER == 3032,
        IDC_BROWSE_HAM_TRAIN == 3033,
        IDC_BROWSE_SPAM_TRAIN == 3034,
        IDC_TRAIN_NOW == 3040,
        IDC_FILTER_NOW == 3041,
        IDC_OK == 3042,
        IDC_CANCEL == 3043,
        IDC_RESET_STATS == 3044,
        IDC_STATS_TIMER == 3100,
        STATS_REFRESH_MS == 2000,
{
}

} // verus!
