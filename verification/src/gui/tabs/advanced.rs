//! The Advanced tab: background filtering, the update check, resetting the database and the
//! diagnostics.

use vstd::prelude::*;

use crate::config::{AppConfig, UpdateCheckInterval};
use crate::double::{Double, SIXTY};
use crate::gui::slider::{clamped_to, SliderControl};
use crate::text::{decimal, decimal_string, join_texts, joined, parse_u32, parsed_u32, texts_view};

verus! {

/// The settings that the tab shows.
#[derive(Debug, Clone, Copy, PartialEq, Eq, Structural)]
pub struct AdvancedValues {
    pub timer_enabled: bool,
    pub timer_wait_for_sync: bool,
    pub timer_start_delay: Double,
    pub timer_interval: Double,
    pub timer_only_receive_folders: bool,
    pub verbose: u32,
    pub save_spam_info: bool,
    pub update_check_interval: UpdateCheckInterval,
}

/// The values that a configuration has for the settings that the tab shows.
pub open spec fn advanced_values_of(config: AppConfig) -> AdvancedValues {
    AdvancedValues {
        timer_enabled: config.filter.timer_enabled,
        timer_wait_for_sync: config.filter.timer_wait_for_sync,
        timer_start_delay: config.filter.timer_start_delay,
        timer_interval: config.filter.timer_interval,
        timer_only_receive_folders: config.filter.timer_only_receive_folders,
        verbose: config.general.verbose,
        save_spam_info: config.filter.save_spam_info,
        update_check_interval: config.update.check_interval,
    }
}

/// The settings of the tab as it shows them at first: the times are moved into the sliders' range.
pub open spec fn shown_values(config: AppConfig) -> AdvancedValues {
    AdvancedValues {
        timer_start_delay: clamped_to(config.filter.timer_start_delay, SIXTY),
        timer_interval: clamped_to(config.filter.timer_interval, SIXTY),
        ..advanced_values_of(config)
    }
}

/// The place of an interval in the list of intervals.
pub open spec fn index_of_interval(interval: UpdateCheckInterval) -> u32 {
    match interval {
        UpdateCheckInterval::Weekly => 0,
        UpdateCheckInterval::Monthly => 1,
    }
}

/// The interval that the selected entry of the list stands for.
pub open spec fn interval_at(index: u32) -> UpdateCheckInterval {
    if index == 0 {
        UpdateCheckInterval::Weekly
    } else {
        UpdateCheckInterval::Monthly
    }
}

/// The Advanced tab.
#[derive(Debug)]
pub struct AdvancedTab {
    pub timer_enabled: bool,
    pub wait_for_sync: bool,
    /// The seconds before the first message is filtered.
    pub start_delay: SliderControl,
    /// The seconds between two messages.
    pub interval: SliderControl,
    pub only_receive: bool,
    /// Whether the settings of background filtering can be changed.
    pub timer_controls_sensitive: bool,
    pub verbose: u32,
    pub save_spam_info: bool,
    /// The selected entry of the list of intervals.
    pub update_interval_index: u32,
}

impl AdvancedTab {
    /// The settings that the tab shows.
    pub open spec fn values(&self) -> AdvancedValues {
        AdvancedValues {
            timer_enabled: self.timer_enabled,
            timer_wait_for_sync: self.wait_for_sync,
            timer_start_delay: self.start_delay.value,
            timer_interval: self.interval.value,
            timer_only_receive_folders: self.only_receive,
            verbose: self.verbose,
            save_spam_info: self.save_spam_info,
            update_check_interval: interval_at(self.update_interval_index),
        }
    }

    /// The tab shows the given settings, with the texts for the seconds.
    pub open spec fn shows(
        &self,
        config: AppConfig,
        start_delay_text: Seq<char>,
        interval_text: Seq<char>,
    ) -> bool {
        &&& self.values() == shown_values(config)
        &&& self.update_interval_index == index_of_interval(config.update.check_interval)
        &&& self.start_delay.entry@ == start_delay_text
        &&& self.start_delay.upper == SIXTY
        &&& !self.start_delay.updating
        &&& self.interval.entry@ == interval_text
        &&& self.interval.upper == SIXTY
        &&& !self.interval.updating
        &&& self.timer_controls_sensitive == config.filter.timer_enabled
    }

    /// The tab for the given settings, with the texts of the two times (one decimal). What it shows
    /// is what the settings say, with the two times moved into the sliders' range.
    pub fn new(config: &AppConfig, start_delay_text: &str, interval_text: &str) -> (tab: AdvancedTab)
        ensures
            tab.shows(*config, start_delay_text@, interval_text@),
    {
        let update_interval_index: u32 = match config.update.check_interval {
            UpdateCheckInterval::Weekly => 0,
            UpdateCheckInterval::Monthly => 1,
        };
        AdvancedTab {
            timer_enabled: config.filter.timer_enabled,
            wait_for_sync: config.filter.timer_wait_for_sync,
            start_delay: SliderControl::new(
                config.filter.timer_start_delay,
                start_delay_text,
                SIXTY,
            ),
            interval: SliderControl::new(config.filter.timer_interval, interval_text, SIXTY),
            only_receive: config.filter.timer_only_receive_folders,
            timer_controls_sensitive: config.filter.timer_enabled,
            verbose: config.general.verbose,
            save_spam_info: config.filter.save_spam_info,
            update_interval_index,
        }
    }

    /// Turns background filtering on or off; its settings can be changed only while it is on.
    pub fn on_timer_toggled(&mut self, active: bool)
        ensures
            final(self).values() == (AdvancedValues { timer_enabled: active, ..old(self).values() }),
            final(self).timer_controls_sensitive == active,
            final(self).start_delay == old(self).start_delay,
            final(self).interval == old(self).interval,
            final(self).update_interval_index == old(self).update_interval_index,
    {
        self.timer_enabled = active;
        self.timer_controls_sensitive = active;
    }

    /// Takes what was entered in the diagnostics dialog. A verbosity that is no number counts as 0.
    pub fn on_diagnostics_saved(&mut self, verbosity: &str, save_spam_info: bool)
        ensures
            final(self).values() == (AdvancedValues {
                verbose: match parsed_u32(verbosity@) {
                    Some(n) => n,
                    None => 0,
                },
                save_spam_info,
                ..old(self).values()
            }),
            final(self).timer_controls_sensitive == old(self).timer_controls_sensitive,
            final(self).start_delay == old(self).start_delay,
            final(self).interval == old(self).interval,
            final(self).update_interval_index == old(self).update_interval_index,
    {
        self.verbose = match parse_u32(verbosity) {
            Some(n) => n,
            None => 0,
        };
        self.save_spam_info = save_spam_info;
    }

    /// The verbosity as the diagnostics dialog shows it at first.
    pub fn verbosity_text(&self) -> (text: String)
        ensures
            text@ == decimal(self.verbose as nat),
    {
        decimal_string(self.verbose as u64)
    }

    /// The settings that the tab shows.
    pub fn read_values(&self) -> (values: AdvancedValues)
        ensures
            values == self.values(),
    {
        let update_check_interval = match self.update_interval_index {
            0 => UpdateCheckInterval::Weekly,
            _ => UpdateCheckInterval::Monthly,
        };
        AdvancedValues {
            timer_enabled: self.timer_enabled,
            timer_wait_for_sync: self.wait_for_sync,
            timer_start_delay: self.start_delay.value,
            timer_interval: self.interval.value,
            timer_only_receive_folders: self.only_receive,
            verbose: self.verbose,
            save_spam_info: self.save_spam_info,
            update_check_interval,
        }
    }
}

/// The verbosity that the diagnostics dialog shows is the one that it saves if nothing is changed.
pub proof fn shown_verbosity_is_saved(verbose: u32)
    ensures
        parsed_u32(decimal(verbose as nat)) == Some(verbose),
{
    crate::text::parsing_reads_decimals(verbose);
}

/// How the running version compares with the latest one.
#[derive(Debug)]
pub enum UpdateStatus {
    UpToDate,
    NewVersionAvailable {
        current: String,
        latest: String,
        download_url: String,
        release_notes: String,
    },
    NewBuildAvailable {
        version: String,
        current_build: String,
        latest_build: String,
        download_url: String,
    },
}

/// How the fetching of the latest version's description went.
#[derive(Debug)]
pub enum UpdateFetch {
    /// The server could not be reached, for the given reason.
    NetworkError(String),
    /// The server answered with the given status.
    Answered(u16),
    /// The answer could not be read, for the given reason.
    ReadError(String),
    /// The description makes no sense, for the given reason.
    InvalidManifest(String),
    /// The description was understood.
    Compared(UpdateStatus),
}

/// What the user is told about updates.
#[derive(Debug)]
pub struct UpdateNotice {
    pub title: &'static str,
    pub message: String,
    /// Where an update can be had.
    pub download_url: Option<String>,
}

/// What the user is told about updates, by its contents.
pub struct UpdateNoticeView {
    pub title: Seq<char>,
    pub message: Seq<char>,
    pub download_url: Option<Seq<char>>,
}

impl View for UpdateNotice {
    type V = UpdateNoticeView;

    open spec fn view(&self) -> UpdateNoticeView {
        UpdateNoticeView {
            title: self.title@,
            message: self.message@,
            download_url: crate::text::text_view(self.download_url),
        }
    }
}

/// The notice about a check that failed.
pub open spec fn failed_check(message: Seq<char>) -> UpdateNoticeView {
    UpdateNoticeView { title: "Update Check Failed"@, message, download_url: None }
}

/// The notice about how the running version compares with the latest one.
pub open spec fn status_notice(
    status: UpdateStatus,
    version: Seq<char>,
    build: Seq<char>,
) -> UpdateNoticeView {
    match status {
        UpdateStatus::UpToDate => UpdateNoticeView {
            title: "Up to Date"@,
            message: "You are running the latest version.\n\nVersion: "@ + version + "\nBuild: "@
                + build,
            download_url: None,
        },
        UpdateStatus::NewVersionAvailable { current, latest, download_url, release_notes } => {
            let message = "A new version is available!\n\nCurrent: "@ + current@ + "\nLatest: "@
                + latest@;
            UpdateNoticeView {
                title: "Update Available"@,
                message: if release_notes@.len() == 0 {
                    message
                } else {
                    message + "\n\nWhat's new: "@ + release_notes@
                },
                download_url: Some(download_url@),
            }
        },
        UpdateStatus::NewBuildAvailable { version, current_build, latest_build, download_url } => {
            UpdateNoticeView {
                title: "Build Update Available"@,
                message: "A newer build of "@ + version@ + " is available.\n\nYour build: "@
                    + current_build@ + "\nLatest build: "@ + latest_build@
                    + "\n\nThis is a maintenance update with bug fixes."@,
                download_url: Some(download_url@),
            }
        },
    }
}

/// The notice about the outcome of an update check; none while the answer is still to be read. An
/// answer is read only if its status is 200.
pub open spec fn update_notice(
    fetch: UpdateFetch,
    version: Seq<char>,
    build: Seq<char>,
) -> Option<UpdateNoticeView> {
    match fetch {
        UpdateFetch::NetworkError(e) => Some(failed_check("Network error: "@ + e@)),
        UpdateFetch::Answered(status) => if status == 200 {
            None
        } else {
            Some(failed_check("Server returned HTTP "@ + decimal(status as nat)))
        },
        UpdateFetch::ReadError(e) => Some(failed_check("Failed to read response: "@ + e@)),
        UpdateFetch::InvalidManifest(e) => Some(
            failed_check("Invalid version manifest: "@ + e@),
        ),
        UpdateFetch::Compared(status) => Some(status_notice(status, version, build)),
    }
}

/// The notice about a check that failed.
fn failed_notice(message: String) -> (notice: UpdateNotice)
    ensures
        notice@ == failed_check(message@),
{
    UpdateNotice { title: "Update Check Failed", message, download_url: None }
}

/// Decides what the user is told about an update check; nothing comes back while the answer is
/// still to be read. `version` and `build` are those of the running add-in.
pub fn check_for_update(fetch: &UpdateFetch, version: &str, build: &str) -> (notice: Option<
    UpdateNotice,
>)
    ensures
        match notice {
            Some(n) => update_notice(*fetch, version@, build@) == Some(n@),
            None => update_notice(*fetch, version@, build@) is None,
        },
{
    match fetch {
        UpdateFetch::NetworkError(e) => Some(
            failed_notice("Network error: ".to_owned().concat(e.as_str())),
        ),
        UpdateFetch::Answered(status) => {
            if *status == 200 {
                None
            } else {
                let mut message = "Server returned HTTP ".to_owned();
                crate::text::push_decimal(&mut message, *status as u64);
                Some(failed_notice(message))
            }
        },
        UpdateFetch::ReadError(e) => Some(
            failed_notice("Failed to read response: ".to_owned().concat(e.as_str())),
        ),
        UpdateFetch::InvalidManifest(e) => Some(
            failed_notice("Invalid version manifest: ".to_owned().concat(e.as_str())),
        ),
        UpdateFetch::Compared(status) => Some(
            match status {
                UpdateStatus::UpToDate => {
                    let mut message =
                        "You are running the latest version.\n\nVersion: ".to_owned();
                    message.append(version);
                    message.append("\nBuild: ");
                    message.append(build);
                    UpdateNotice { title: "Up to Date", message, download_url: None }
                },
                UpdateStatus::NewVersionAvailable {
                    current,
                    latest,
                    download_url,
                    release_notes,
                } => {
                    let mut message = "A new version is available!\n\nCurrent: ".to_owned();
                    message.append(current.as_str());
                    message.append("\nLatest: ");
                    message.append(latest.as_str());
                    if !release_notes.as_str().is_empty() {
                        message.append("\n\nWhat's new: ");
                        message.append(release_notes.as_str());
                    }
                    UpdateNotice {
                        title: "Update Available",
                        message,
                        download_url: Some(download_url.clone()),
                    }
                },
                UpdateStatus::NewBuildAvailable {
                    version,
                    current_build,
                    latest_build,
                    download_url,
                } => {
                    let mut message = "A newer build of ".to_owned();
                    message.append(version.as_str());
                    message.append(" is available.\n\nYour build: ");
                    message.append(current_build.as_str());
                    message.append("\nLatest build: ");
                    message.append(latest_build.as_str());
                    message.append("\n\nThis is a maintenance update with bug fixes.");
                    UpdateNotice {
                        title: "Build Update Available",
                        message,
                        download_url: Some(download_url.clone()),
                    }
                },
            },
        ),
    }
}

/// The lines about database files that could not be deleted.
pub open spec fn reset_errors(
    database: Option<Seq<char>>,
    messages: Option<Seq<char>>,
) -> Seq<Seq<char>> {
    (match database {
        Some(e) => seq!["spambayes.db: "@ + e],
        None => Seq::empty(),
    }) + (match messages {
        Some(e) => seq!["spambayes_msg.db: "@ + e],
        None => Seq::empty(),
    })
}

/// The lines about database files that could not be deleted: the classifier's and the one of the
/// trained messages, each with the reason where its deletion was tried and failed.
pub fn reset_database(database: &Option<String>, messages: &Option<String>) -> (lines: Vec<String>)
    ensures
        texts_view(lines@) == reset_errors(
            crate::text::text_view(*database),
            crate::text::text_view(*messages),
        ),
{
    let mut lines: Vec<String> = Vec::new();
    if let Some(e) = database {
        lines.push("spambayes.db: ".to_owned().concat(e.as_str()));
    }
    if let Some(e) = messages {
        lines.push("spambayes_msg.db: ".to_owned().concat(e.as_str()));
    }
    assert(texts_view(lines@) =~= reset_errors(
        crate::text::text_view(*database),
        crate::text::text_view(*messages),
    ));
    lines
}

/// What the user is told about a reset that went well.
pub const RESET_DONE: &'static str =
    "Database has been reset successfully.\n\nThe classifier will start fresh on next use. You \
     will need to retrain it with ham and spam messages.";

/// The title and the text about a reset of the database, from the lines about what could not be
/// deleted.
pub fn show_reset_result(errors: &Vec<String>) -> (shown: (&'static str, String))
    ensures
        errors@.len() == 0 ==> shown.0@ == "Database Reset"@ && shown.1@ == RESET_DONE@,
        errors@.len() > 0 ==> shown.0@ == "Reset Error"@ && shown.1@
            == "Some files could not be deleted:\n\n"@ + joined(texts_view(errors@), "\n"@)
            + "\n\nThe database may be in use. Try closing Outlook first."@,
{
    if errors.len() == 0 {
        ("Database Reset", RESET_DONE.to_owned())
    } else {
        let mut text = "Some files could not be deleted:\n\n".to_owned();
        text.append(join_texts(errors, "\n").as_str());
        text.append("\n\nThe database may be in use. Try closing Outlook first.");
        ("Reset Error", text)
    }
}

/// What the user is told if there is no log file at the given place.
pub fn log_file_missing(path: &str) -> (text: String)
    ensures
        text@ == "Log file not found.\n\nExpected location:\n"@ + path@
            + "\n\nThe log file is created when SpamBayes performs operations with verbosity > 0."@,
{
    let mut text = "Log file not found.\n\nExpected location:\n".to_owned();
    text.append(path);
    text.append(
        "\n\nThe log file is created when SpamBayes performs operations with verbosity > 0.",
    );
    text
}

/// The program that shows the log file, from the value of the environment variable `SystemRoot`.
pub fn log_viewer(system_root: &Option<String>) -> (program: String)
    ensures
        program@ == (match *system_root {
            Some(root) => root@,
            None => "C:\\Windows"@,
        }) + "\\notepad.exe"@,
{
    let mut program = match system_root {
        Some(root) => root.clone(),
        None => "C:\\Windows".to_owned(),
    };
    program.append("\\notepad.exe");
    program
}

/// Background filtering is switched as the user says; no other setting of the tab changes.
pub proof fn background_filtering_is_switched(tab: &mut AdvancedTab, active: bool)
    requires
        call_ensures(AdvancedTab::on_timer_toggled, (tab, active), ()),
    ensures
        final(tab).timer_enabled == active,
        final(tab).timer_controls_sensitive == active,
        final(tab).wait_for_sync == old(tab).wait_for_sync,
        final(tab).start_delay == old(tab).start_delay,
        final(tab).interval == old(tab).interval,
        final(tab).only_receive == old(tab).only_receive,
        final(tab).verbose == old(tab).verbose,
        final(tab).save_spam_info == old(tab).save_spam_info,
        final(tab).update_interval_index == old(tab).update_interval_index,
{
    assert(final(tab).values().timer_wait_for_sync == final(tab).wait_for_sync);
    assert(final(tab).values().timer_only_receive_folders == final(tab).only_receive);
    assert(final(tab).values().verbose == final(tab).verbose);
    assert(final(tab).values().save_spam_info == final(tab).save_spam_info);
    assert(final(tab).values().timer_enabled == final(tab).timer_enabled);
}

/// The diagnostics dialog sets the verbosity to the number that was typed, or to 0, and whether
/// clues are saved; no other setting of the tab changes. The verbosity that it shows is typed back
/// as the same.
pub proof fn diagnostics_are_taken(
    tab: &mut AdvancedTab,
    verbosity: &str,
    save_spam_info: bool,
    shown: String,
)
    requires
        call_ensures(AdvancedTab::on_diagnostics_saved, (tab, verbosity, save_spam_info), ()),
        call_ensures(AdvancedTab::verbosity_text, (old(tab),), shown),
    ensures
        parsed_u32(verbosity@) matches Some(n) ==> final(tab).verbose == n,
        parsed_u32(verbosity@) is None ==> final(tab).verbose == 0,
        verbosity@ == shown@ ==> final(tab).verbose == old(tab).verbose,
        final(tab).save_spam_info == save_spam_info,
        final(tab).timer_enabled == old(tab).timer_enabled,
        final(tab).timer_controls_sensitive == old(tab).timer_controls_sensitive,
        final(tab).wait_for_sync == old(tab).wait_for_sync,
        final(tab).start_delay == old(tab).start_delay,
        final(tab).interval == old(tab).interval,
        final(tab).only_receive == old(tab).only_receive,
        final(tab).update_interval_index == old(tab).update_interval_index,
{
    crate::text::parsing_reads_decimals(old(tab).verbose);
    assert(final(tab).values().timer_wait_for_sync == final(tab).wait_for_sync);
    assert(final(tab).values().timer_only_receive_folders == final(tab).only_receive);
    assert(final(tab).values().verbose == final(tab).verbose);
    assert(final(tab).values().save_spam_info == final(tab).save_spam_info);
    assert(final(tab).values().timer_enabled == final(tab).timer_enabled);
}

/// A new tab, when it is read, gives each setting that it was made for; the two times as long as
/// they are ones that their sliders can show.
pub proof fn advanced_settings_are_read_back(
    config: &AppConfig,
    start_delay_text: &str,
    interval_text: &str,
    tab: AdvancedTab,
    values: AdvancedValues,
)
    requires
        call_ensures(AdvancedTab::new, (config, start_delay_text, interval_text), tab),
        call_ensures(AdvancedTab::read_values, (&tab,), values),
    ensures
        values.timer_enabled == config.filter.timer_enabled,
        values.timer_wait_for_sync == config.filter.timer_wait_for_sync,
        values.timer_only_receive_folders == config.filter.timer_only_receive_folders,
        values.verbose == config.general.verbose,
        values.save_spam_info == config.filter.save_spam_info,
        values.update_check_interval == config.update.check_interval,
        clamped_to(config.filter.timer_start_delay, SIXTY) == config.filter.timer_start_delay
            ==> values.timer_start_delay == config.filter.timer_start_delay,
        clamped_to(config.filter.timer_interval, SIXTY) == config.filter.timer_interval
            ==> values.timer_interval == config.filter.timer_interval,
        tab.start_delay.entry@ == start_delay_text@,
        tab.interval.entry@ == interval_text@,
        tab.timer_controls_sensitive == config.filter.timer_enabled,
{
}

/// The user is told something exactly unless the server's answer is still to be read, which is only
/// so for the status of success. A download is offered exactly if there is something newer, from
/// the place that was named for it.
pub proof fn a_download_is_offered_for_something_newer(
    fetch: &UpdateFetch,
    version: &str,
    build: &str,
    notice: Option<UpdateNotice>,
)
    requires
        call_ensures(check_for_update, (fetch, version, build), notice),
    ensures
        notice is None <==> *fetch == UpdateFetch::Answered(200u16),
        notice matches Some(n) ==> {
            &&& n.download_url is Some <==> (*fetch matches UpdateFetch::Compared(status) && !(
            status is UpToDate))
            &&& *fetch matches UpdateFetch::Compared(status) ==> {
                &&& status matches UpdateStatus::NewVersionAvailable { download_url, .. }
                    ==> n.download_url->0@ == download_url@
                &&& status matches UpdateStatus::NewBuildAvailable { download_url, .. }
                    ==> n.download_url->0@ == download_url@
            }
            &&& !(*fetch is Compared) ==> n.title@ == "Update Check Failed"@
        },
{
    if let Some(n) = notice {
        assert(n@.title == n.title@);
        assert(n@.download_url == crate::text::text_view(n.download_url));
    }
}

/// The notice of a check that failed says why: it ends with the reason, or with the status that the
/// server answered with.
pub proof fn a_failed_check_says_why(
    reason: String,
    status: u16,
    version: &str,
    build: &str,
    unreached: Option<UpdateNotice>,
    unread: Option<UpdateNotice>,
    invalid: Option<UpdateNotice>,
    refused: Option<UpdateNotice>,
)
    requires
        status != 200,
        call_ensures(
            check_for_update,
            (&UpdateFetch::NetworkError(reason), version, build),
            unreached,
        ),
        call_ensures(check_for_update, (&UpdateFetch::ReadError(reason), version, build), unread),
        call_ensures(
            check_for_update,
            (&UpdateFetch::InvalidManifest(reason), version, build),
            invalid,
        ),
        call_ensures(check_for_update, (&UpdateFetch::Answered(status), version, build), refused),
    ensures
        unreached->0.message@ == "Network error: "@ + reason@,
        unread->0.message@ == "Failed to read response: "@ + reason@,
        invalid->0.message@ == "Invalid version manifest: "@ + reason@,
        refused->0.message@ == "Server returned HTTP "@ + decimal(status as nat),
{
    assert(unreached->0@.message == unreached->0.message@);
    assert(unread->0@.message == unread->0.message@);
    assert(invalid->0@.message == invalid->0.message@);
    assert(refused->0@.message == refused->0.message@);
}

/// The notice about something newer names the version or build in use before the latest one.
pub proof fn a_newer_version_is_named(
    current: String,
    latest: String,
    url: String,
    notes: String,
    version: &str,
    build: &str,
    of_version: Option<UpdateNotice>,
    of_build: Option<UpdateNotice>,
    of_none: Option<UpdateNotice>,
)
    requires
        call_ensures(
            check_for_update,
            (
                &UpdateFetch::Compared(
                    UpdateStatus::NewVersionAvailable {
                        current,
                        latest,
                        download_url: url,
                        release_notes: notes,
                    },
                ),
                version,
                build,
            ),
            of_version,
        ),
        call_ensures(
            check_for_update,
            (
                &UpdateFetch::Compared(
                    UpdateStatus::NewBuildAvailable {
                        version: notes,
                        current_build: current,
                        latest_build: latest,
                        download_url: url,
                    },
                ),
                version,
                build,
            ),
            of_build,
        ),
        call_ensures(
            check_for_update,
            (&UpdateFetch::Compared(UpdateStatus::UpToDate), version, build),
            of_none,
        ),
    ensures
        notes@.len() == 0 ==> of_version->0.message@
            == "A new version is available!\n\nCurrent: "@ + current@ + "\nLatest: "@ + latest@,
        notes@.len() > 0 ==> of_version->0.message@
            == "A new version is available!\n\nCurrent: "@ + current@ + "\nLatest: "@ + latest@
            + "\n\nWhat's new: "@ + notes@,
        of_build->0.message@ == "A newer build of "@ + notes@ + " is available.\n\nYour build: "@
            + current@ + "\nLatest build: "@ + latest@
            + "\n\nThis is a maintenance update with bug fixes."@,
        of_none->0.message@ == "You are running the latest version.\n\nVersion: "@ + version@
            + "\nBuild: "@ + build@,
        of_version->0.title@ == "Update Available"@,
        of_build->0.title@ == "Build Update Available"@,
        of_none->0.title@ == "Up to Date"@,
{
    assert(of_version->0@.message == of_version->0.message@);
    assert(of_build->0@.message == of_build->0.message@);
    assert(of_none->0@.message == of_none->0.message@);
    assert(of_version->0@.title == of_version->0.title@);
    assert(of_build->0@.title == of_build->0.title@);
    assert(of_none->0@.title == of_none->0.title@);
}

/// Each file that could not be deleted has a line with its name and its own reason, that of the
/// classifier first; and there are no other lines.
pub proof fn each_kept_file_is_reported(
    database: &Option<String>,
    messages: &Option<String>,
    lines: Vec<String>,
)
    requires
        call_ensures(reset_database, (database, messages), lines),
    ensures
        lines@.len() == (if *database is Some {
            1int
        } else {
            0
        }) + (if *messages is Some {
            1int
        } else {
            0
        }),
        *database matches Some(reason) ==> lines@[0]@ == "spambayes.db: "@ + reason@,
        *messages matches Some(reason) ==> lines@.last()@ == "spambayes_msg.db: "@ + reason@,
{
    let shown = texts_view(lines@);
    assert(shown.len() == lines@.len());
    if lines@.len() > 0 {
        assert(shown[0] == lines@[0]@);
        assert(shown[lines@.len() - 1] == lines@.last()@);
    }
}

/// A reset is reported as done exactly if no file was kept; else every line about a kept file is
/// told, in its place.
pub proof fn a_failed_reset_tells_every_line(
    errors: &Vec<String>,
    shown: (&'static str, String),
)
    requires
        call_ensures(show_reset_result, (errors,), shown),
    ensures
        errors@.len() == 0 ==> shown.0@ == "Database Reset"@ && shown.1@ == RESET_DONE@,
        errors@.len() > 0 ==> shown.0@ == "Reset Error"@,
        errors@.len() == 1 ==> shown.1@ == "Some files could not be deleted:\n\n"@ + errors@[0]@
            + "\n\nThe database may be in use. Try closing Outlook first."@,
        errors@.len() == 2 ==> shown.1@ == "Some files could not be deleted:\n\n"@ + (errors@[0]@
            + "\n"@ + errors@[1]@) + "\n\nThe database may be in use. Try closing Outlook first."@,
{
    let lines = texts_view(errors@);
    reveal_with_fuel(joined, 3);
    if errors@.len() == 2 {
        assert(lines.drop_last()[0] == errors@[0]@);
        assert(joined(lines, "\n"@) == lines[0] + "\n"@ + lines[1]);
    }
}

/// The text about a missing log file names its place, and the log is shown by the program of the
/// system's own directory.
pub proof fn the_log_is_named_and_shown(
    path: &str,
    text: String,
    root: String,
    known: String,
    unknown: String,
)
    requires
        call_ensures(log_file_missing, (path,), text),
        call_ensures(log_viewer, (&Some(root),), known),
        call_ensures(log_viewer, (&None,), unknown),
    ensures
        text@ == "Log file not found.\n\nExpected location:\n"@ + path@
            + "\n\nThe log file is created when SpamBayes performs operations with verbosity > 0."@,
        known@ == root@ + "\\notepad.exe"@,
        unknown@ == "C:\\Windows"@ + "\\notepad.exe"@,
{
}

/// A failed reset tells its lines as one text with line breaks between them, however many there
/// are; a reset that went well says so.
pub proof fn a_reset_is_told(
    errors: &Vec<String>,
    lines: String,
    shown: (&'static str, String),
)
    requires
        call_ensures(join_texts, (errors, "\n"), lines),
        call_ensures(show_reset_result, (errors,), shown),
    ensures
        errors@.len() > 0 ==> shown.1@ == "Some files could not be deleted:\n\n"@ + lines@
            + "\n\nThe database may be in use. Try closing Outlook first."@,
        errors@.len() == 0 ==> shown.1@ == RESET_DONE@,
{
}

/// The times of a new tab are those of the settings, moved into the range from 0 to 60.
pub proof fn times_of_background_filtering_are_shown(
    config: &AppConfig,
    start_delay_text: &str,
    interval_text: &str,
    tab: AdvancedTab,
)
    requires
        call_ensures(AdvancedTab::new, (config, start_delay_text, interval_text), tab),
    ensures
        tab.start_delay.value == clamped_to(config.filter.timer_start_delay, SIXTY),
        tab.interval.value == clamped_to(config.filter.timer_interval, SIXTY),
        tab.start_delay.upper == SIXTY,
        tab.interval.upper == SIXTY,
        !tab.start_delay.updating,
        !tab.interval.updating,
{
    assert(tab.values() == shown_values(*config));
}

} // verus!
