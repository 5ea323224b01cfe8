//! The General tab: the state of the training database and of the filter.

use vstd::prelude::*;

use crate::double::Double;
use crate::manager_dlg::{ManagerState, ManagerStats};
use crate::text::{decimal, join_texts, joined, push_decimal, texts_view};

verus! {

/// The text about the training database.
pub open spec fn db_status(ham: nat, spam: nat) -> Seq<char> {
    "Database has "@ + decimal(ham) + " good and "@ + decimal(spam) + " spam."@
}

/// The text about the training database.
pub fn db_status_text(ham: u64, spam: u64) -> (text: String)
    ensures
        text@ == db_status(ham as nat, spam as nat),
{
    let mut text = "Database has ".to_owned();
    push_decimal(&mut text, ham);
    text.append(" good and ");
    push_decimal(&mut text, spam);
    text.append(" spam.");
    text
}

/// Whether one of two numbers of trained messages is more than twice the other.
pub open spec fn is_imbalanced(ham: int, spam: int) -> bool {
    ham > 2 * spam || spam > 2 * ham
}

/// The warning about an imbalanced database.
pub const IMBALANCE_WARNING: &'static str =
    "Warning: The training database is imbalanced. For best results, train with roughly equal \
     amounts of good and spam.";

/// The warning about the training database, if one is due: if one kind of message is trained more
/// than twice as often as the other.
pub fn update_imbalance_warning(ham: u64, spam: u64) -> (warning: Option<&'static str>)
    ensures
        warning == (if is_imbalanced(ham as int, spam as int) {
            Some(IMBALANCE_WARNING)
        } else {
            None
        }),
{
    if ham as u128 > 2 * spam as u128 || spam as u128 > 2 * ham as u128 {
        Some(IMBALANCE_WARNING)
    } else {
        None
    }
}

/// An empty database is balanced; one with messages of one kind only is not. It does not matter
/// which kind is which.
pub proof fn one_sided_training_is_imbalanced(n: int, m: int)
    requires
        0 < n,
        0 <= m,
    ensures
        !is_imbalanced(0, 0),
        is_imbalanced(n, 0),
        is_imbalanced(n, m) == is_imbalanced(m, n),
        !is_imbalanced(n, n),
{
}

/// The text about the filter.
pub open spec fn filter_status(enabled: bool) -> &'static str {
    if enabled {
        "Filter is ACTIVE"
    } else {
        "Filter is PAUSED"
    }
}

/// The text about the watched folders.
pub open spec fn watching(names: Seq<Seq<char>>) -> Seq<char> {
    "Watching "@ + joined(quoted(names), "; "@) + "."@
}

/// Texts in quotation marks.
pub open spec fn quoted(names: Seq<Seq<char>>) -> Seq<Seq<char>> {
    Seq::new(names.len(), |i: int| "'"@ + names[i] + "'"@)
}

/// The text about the watched folders, with the names that were found for them.
pub fn format_watched_folders(state: &ManagerState, names: &Vec<String>) -> (text: String)
    ensures
        text@ == (if state@.watch_folders.len() == 0 {
            "Watching: (not configured)"@
        } else {
            watching(texts_view(names@))
        }),
{
    if state.watch_folder_ids.len() == 0 {
        return "Watching: (not configured)".to_owned();
    }
    let mut marked: Vec<String> = Vec::new();
    let mut i: usize = 0;
    let ghost all = quoted(texts_view(names@));
    while i < names.len()
        invariant
            i <= names.len(),
            all == quoted(texts_view(names@)),
            texts_view(marked@) =~= all.take(i as int),
        decreases names.len() - i,
    {
        let ghost before = texts_view(marked@);
        let mut name = "'".to_owned();
        name.append(names[i].as_str());
        name.append("'");
        assert(name@ == all[i as int]);
        marked.push(name);
        assert(texts_view(marked@) =~= before.push(all[i as int]));
        i = i + 1;
    }
    assert(all.take(i as int) =~= all);
    let mut text = "Watching ".to_owned();
    text.append(join_texts(&marked, "; ").as_str());
    text.append(".");
    text
}

/// The text about one folder: with the first of the names that were found for it.
fn folder_text(found: bool, names: &Vec<String>, before: &str, missing: &str) -> (text: String)
    ensures
        text@ == (if found {
            before@ + "'"@ + (if names@.len() > 0 {
                names@[0]@
            } else {
                "(configured)"@
            }) + "'."@
        } else {
            missing@
        }),
{
    if found {
        let mut text = before.to_owned();
        text.append("'");
        if names.len() > 0 {
            text.append(names[0].as_str());
        } else {
            text.append("(configured)");
        }
        text.append("'.");
        text
    } else {
        missing.to_owned()
    }
}

/// The text about the folder for spam, with the names that were found for it.
pub fn format_spam_folder(state: &ManagerState, names: &Vec<String>) -> (text: String)
    ensures
        text@ == (if state@.spam_folder is Some {
            "Spam managed in "@ + "'"@ + (if names@.len() > 0 {
                names@[0]@
            } else {
                "(configured)"@
            }) + "'."@
        } else {
            "Spam folder: (not configured)"@
        }),
{
    folder_text(
        state.spam_folder_id.is_some(),
        names,
        "Spam managed in ",
        "Spam folder: (not configured)",
    )
}

/// The text about the folder for unsure messages, with the names that were found for it.
pub fn format_unsure_folder(state: &ManagerState, names: &Vec<String>) -> (text: String)
    ensures
        text@ == (if state@.unsure_folder is Some {
            "Unsure managed in "@ + "'"@ + (if names@.len() > 0 {
                names@[0]@
            } else {
                "(configured)"@
            }) + "'."@
        } else {
            "Unsure folder: (not configured)"@
        }),
{
    folder_text(
        state.unsure_folder_id.is_some(),
        names,
        "Unsure managed in ",
        "Unsure folder: (not configured)",
    )
}

/// The names found for the configured folders.
#[derive(Debug)]
pub struct FolderNames {
    pub watched: Vec<String>,
    pub spam: Vec<String>,
    pub unsure: Vec<String>,
}

/// The General tab.
#[derive(Debug)]
pub struct GeneralTab {
    pub db_status: String,
    /// The warning about the training database, if one is shown.
    pub imbalance: Option<&'static str>,
    pub filter_active: bool,
    pub filter_status: &'static str,
    pub watched_folders: String,
    pub spam_folder: String,
    pub unsure_folder: String,
    /// How much of the messages to filter is done, as a part of 1.
    pub progress: Double,
    /// Whether the filter's progress is shown.
    pub progress_visible: bool,
    /// The outcome of filtering existing messages, if one is shown.
    pub filter_results: Option<String>,
    /// Whether the filter is to be on.
    pub enable_checked: bool,
}

impl GeneralTab {
    /// The tab shows the given settings and statistics, with the folders' names.
    pub open spec fn shows(
        &self,
        state: ManagerState,
        stats: ManagerStats,
        names: FolderNames,
    ) -> bool {
        &&& self.db_status@ == db_status(stats.ham_trained as nat, stats.spam_trained as nat)
        &&& self.imbalance is Some <==> is_imbalanced(
            stats.ham_trained as int,
            stats.spam_trained as int,
        )
        &&& self.imbalance is Some ==> self.imbalance == Some(IMBALANCE_WARNING)
        &&& self.filter_active == state@.filter_enabled
        &&& self.filter_status == filter_status(state@.filter_enabled)
        &&& self.watched_folders@ == (if state@.watch_folders.len() == 0 {
            "Watching: (not configured)"@
        } else {
            watching(texts_view(names.watched@))
        })
        &&& self.spam_folder@ == (if state@.spam_folder is Some {
            "Spam managed in "@ + "'"@ + (if names.spam@.len() > 0 {
                names.spam@[0]@
            } else {
                "(configured)"@
            }) + "'."@
        } else {
            "Spam folder: (not configured)"@
        })
        &&& self.unsure_folder@ == (if state@.unsure_folder is Some {
            "Unsure managed in "@ + "'"@ + (if names.unsure@.len() > 0 {
                names.unsure@[0]@
            } else {
                "(configured)"@
            }) + "'."@
        } else {
            "Unsure folder: (not configured)"@
        })
        &&& self.progress == (Double { bits: 0 })
        &&& !self.progress_visible
        &&& self.filter_results is None
        &&& self.enable_checked == state@.filter_enabled
    }

    /// The tab for the given settings and statistics, with the names found for the folders.
    pub fn new(state: &ManagerState, stats: &ManagerStats, names: &FolderNames) -> (tab: GeneralTab)
        ensures
            tab.shows(*state, *stats, *names),
    {
        GeneralTab {
            db_status: db_status_text(stats.ham_trained, stats.spam_trained),
            imbalance: update_imbalance_warning(stats.ham_trained, stats.spam_trained),
            filter_active: state.filter_enabled,
            filter_status: if state.filter_enabled {
                "Filter is ACTIVE"
            } else {
                "Filter is PAUSED"
            },
            watched_folders: format_watched_folders(state, &names.watched),
            spam_folder: format_spam_folder(state, &names.spam),
            unsure_folder: format_unsure_folder(state, &names.unsure),
            progress: Double { bits: 0 },
            progress_visible: false,
            filter_results: None,
            enable_checked: state.filter_enabled,
        }
    }

    /// Whether the filter is to be on.
    pub fn is_filter_enabled(&self) -> (enabled: bool)
        ensures
            enabled == self.enable_checked,
    {
        self.enable_checked
    }

    /// Shows whether the filter is on.
    pub fn update_filter_status(&mut self, enabled: bool)
        ensures
            *final(self) == (GeneralTab {
                filter_active: enabled,
                filter_status: filter_status(enabled),
                ..*old(self)
            }),
    {
        self.filter_active = enabled;
        self.filter_status = if enabled {
            "Filter is ACTIVE"
        } else {
            "Filter is PAUSED"
        };
    }

    /// Shows other numbers of trained messages.
    pub fn update_db_status(&mut self, ham_trained: u64, spam_trained: u64)
        ensures
            final(self).db_status@ == db_status(ham_trained as nat, spam_trained as nat),
            final(self).imbalance == (if is_imbalanced(ham_trained as int, spam_trained as int) {
                Some(IMBALANCE_WARNING)
            } else {
                None
            }),
            *final(self) == (GeneralTab {
                db_status: final(self).db_status,
                imbalance: final(self).imbalance,
                ..*old(self)
            }),
    {
        self.db_status = db_status_text(ham_trained, spam_trained);
        self.imbalance = update_imbalance_warning(ham_trained, spam_trained);
    }

    /// Shows how much of the messages to filter is done, or hides that.
    pub fn set_filter_progress(&mut self, fraction: Double, visible: bool)
        ensures
            *final(self) == (GeneralTab {
                progress: fraction,
                progress_visible: visible,
                ..*old(self)
            }),
    {
        self.progress = fraction;
        self.progress_visible = visible;
    }

    /// Hides the progress and shows the outcome of filtering existing messages.
    pub fn show_filter_results(&mut self, total: u32, spam: u32, ham: u32, unsure: u32)
        ensures
            *final(self) == (GeneralTab {
                progress_visible: false,
                filter_results: final(self).filter_results,
                ..*old(self)
            }),
            final(self).filter_results matches Some(text) && text@ == "Filtered "@ + decimal(
                total as nat,
            ) + " messages: "@ + decimal(spam as nat) + " spam, "@ + decimal(ham as nat)
                + " good, "@ + decimal(unsure as nat) + " unsure."@,
    {
        let mut text = "Filtered ".to_owned();
        push_decimal(&mut text, total as u64);
        text.append(" messages: ");
        push_decimal(&mut text, spam as u64);
        text.append(" spam, ");
        push_decimal(&mut text, ham as u64);
        text.append(" good, ");
        push_decimal(&mut text, unsure as u64);
        text.append(" unsure.");
        self.progress_visible = false;
        self.filter_results = Some(text);
    }
}

/// The status names the number of good messages before that of spam.
pub proof fn the_database_is_counted(ham: u64, spam: u64, text: String)
    requires
        call_ensures(db_status_text, (ham, spam), text),
    ensures
        text@ == "Database has "@ + decimal(ham as nat) + " good and "@ + decimal(spam as nat)
            + " spam."@,
{
}

/// There is a warning exactly if one kind was trained more than twice as often as the other. It
/// does not matter which, equal numbers never warn, and messages of one kind alone always do.
pub proof fn the_warning_is_about_imbalance(
    ham: u64,
    spam: u64,
    warning: Option<&'static str>,
    exchanged: Option<&'static str>,
)
    requires
        call_ensures(update_imbalance_warning, (ham, spam), warning),
        call_ensures(update_imbalance_warning, (spam, ham), exchanged),
    ensures
        warning is Some <==> exchanged is Some,
        ham == spam ==> warning is None,
        ham > 0 && spam == 0 ==> warning is Some,
        ham <= spam && spam <= 2 * ham ==> warning is None,
        ham < spam && spam > 2 * ham ==> warning is Some,
{
}

/// The texts about the folders name what was found for them, each kind with its own setting; a
/// folder that is not set is said not to be configured.
pub proof fn folders_are_named(
    state: &ManagerState,
    names: &Vec<String>,
    watched: String,
    spam: String,
    unsure: String,
)
    requires
        call_ensures(format_watched_folders, (state, names), watched),
        call_ensures(format_spam_folder, (state, names), spam),
        call_ensures(format_unsure_folder, (state, names), unsure),
    ensures
        state.watch_folder_ids@.len() == 0 ==> watched@ == "Watching: (not configured)"@,
        state.watch_folder_ids@.len() > 0 && names@.len() == 1 ==> watched@ == "Watching "@ + ("'"@
            + names@[0]@ + "'"@) + "."@,
        state.watch_folder_ids@.len() > 0 && names@.len() == 2 ==> watched@ == "Watching "@ + (("'"@
            + names@[0]@ + "'"@) + "; "@ + ("'"@ + names@[1]@ + "'"@)) + "."@,
        state.spam_folder_id is None ==> spam@ == "Spam folder: (not configured)"@,
        state.spam_folder_id is Some && names@.len() > 0 ==> spam@ == "Spam managed in "@ + "'"@
            + names@[0]@ + "'."@,
        state.spam_folder_id is Some && names@.len() == 0 ==> spam@ == "Spam managed in "@ + "'"@
            + "(configured)"@ + "'."@,
        state.unsure_folder_id is None ==> unsure@ == "Unsure folder: (not configured)"@,
        state.unsure_folder_id is Some && names@.len() > 0 ==> unsure@ == "Unsure managed in "@
            + "'"@ + names@[0]@ + "'."@,
        state.unsure_folder_id is Some && names@.len() == 0 ==> unsure@ == "Unsure managed in "@
            + "'"@ + "(configured)"@ + "'."@,
{
    let marked = quoted(texts_view(names@));
    reveal_with_fuel(joined, 3);
    if names@.len() == 1 {
        assert(marked[0] == "'"@ + names@[0]@ + "'"@);
    }
    if names@.len() == 2 {
        assert(marked.drop_last()[0] == "'"@ + names@[0]@ + "'"@);
        assert(joined(marked, "; "@) == marked[0] + "; "@ + marked[1]);
    }
}

/// What is shown about the filter follows the switch, and what is shown about the database follows
/// the numbers, each without the other; whether the filter is to be on stays with the user's
/// choice.
pub proof fn status_and_choice_are_apart(
    status: &mut GeneralTab,
    enabled: bool,
    counted: &mut GeneralTab,
    ham: u64,
    spam: u64,
    asked: bool,
)
    requires
        call_ensures(GeneralTab::update_filter_status, (status, enabled), ()),
        call_ensures(GeneralTab::update_db_status, (counted, ham, spam), ()),
        call_ensures(GeneralTab::is_filter_enabled, (final(status),), asked),
    ensures
        final(status).filter_active == enabled,
        enabled ==> final(status).filter_status@ == "Filter is ACTIVE"@,
        !enabled ==> final(status).filter_status@ == "Filter is PAUSED"@,
        final(status).enable_checked == old(status).enable_checked,
        asked == old(status).enable_checked,
        final(status).db_status == old(status).db_status,
        final(counted).db_status@ == "Database has "@ + decimal(ham as nat) + " good and "@
            + decimal(spam as nat) + " spam."@,
        final(counted).imbalance is Some <==> ham > 2 * spam || spam > 2 * ham,
        final(counted).filter_active == old(counted).filter_active,
        final(counted).filter_status == old(counted).filter_status,
        final(counted).enable_checked == old(counted).enable_checked,
{
}

/// The outcome of a run names each number in its place and ends the display of progress, which is
/// shown as it was given before.
pub proof fn the_outcome_of_a_run_is_shown(
    running: &mut GeneralTab,
    fraction: Double,
    visible: bool,
    ended: &mut GeneralTab,
    total: u32,
    spam: u32,
    ham: u32,
    unsure: u32,
)
    requires
        call_ensures(GeneralTab::set_filter_progress, (running, fraction, visible), ()),
        call_ensures(GeneralTab::show_filter_results, (ended, total, spam, ham, unsure), ()),
    ensures
        final(running).progress == fraction,
        final(running).progress_visible == visible,
        final(running).filter_results == old(running).filter_results,
        final(running).enable_checked == old(running).enable_checked,
        !final(ended).progress_visible,
        final(ended).filter_results is Some,
        final(ended).filter_results->0@ == "Filtered "@ + decimal(total as nat) + " messages: "@
            + decimal(spam as nat) + " spam, "@ + decimal(ham as nat) + " good, "@ + decimal(
            unsure as nat,
        ) + " unsure."@,
        final(ended).enable_checked == old(ended).enable_checked,
{
}

/// However many folders are watched, each further one is named after those before it, in quotation
/// marks and behind a semicolon.
pub proof fn each_watched_folder_is_named(
    state: &ManagerState,
    names: &Vec<String>,
    fewer: &Vec<String>,
    text: String,
    before: String,
)
    requires
        state.watch_folder_ids@.len() > 0,
        names@.len() > 1,
        fewer@ == names@.drop_last(),
        call_ensures(format_watched_folders, (state, names), text),
        call_ensures(format_watched_folders, (state, fewer), before),
    ensures
        before@.len() > 0,
        text@ == before@.drop_last() + "; "@ + ("'"@ + names@.last()@ + "'"@) + "."@,
{
    reveal_strlit(".");
    let all = quoted(texts_view(names@));
    let first = quoted(texts_view(fewer@));
    assert(all.drop_last() =~= first);
    assert(all.last() == "'"@ + names@.last()@ + "'"@);
    assert(before@.drop_last() =~= "Watching "@ + joined(first, "; "@));
    assert(text@ =~= before@.drop_last() + "; "@ + ("'"@ + names@.last()@ + "'"@) + "."@);
}

/// A new tab shows the numbers of trained messages, whether the filter is on, and the folders, each
/// text from its own setting and names; no progress and no outcome of a run is shown.
pub proof fn a_new_general_tab_shows_the_settings(
    state: &ManagerState,
    stats: &ManagerStats,
    names: &FolderNames,
    tab: GeneralTab,
    status: String,
    warning: Option<&'static str>,
    watched: String,
    spam: String,
    unsure: String,
)
    requires
        call_ensures(GeneralTab::new, (state, stats, names), tab),
        call_ensures(db_status_text, (stats.ham_trained, stats.spam_trained), status),
        call_ensures(update_imbalance_warning, (stats.ham_trained, stats.spam_trained), warning),
        call_ensures(format_watched_folders, (state, &names.watched), watched),
        call_ensures(format_spam_folder, (state, &names.spam), spam),
        call_ensures(format_unsure_folder, (state, &names.unsure), unsure),
    ensures
        tab.db_status@ == status@,
        tab.imbalance is Some <==> warning is Some,
        tab.filter_active == state.filter_enabled,
        tab.enable_checked == state.filter_enabled,
        state.filter_enabled ==> tab.filter_status@ == "Filter is ACTIVE"@,
        !state.filter_enabled ==> tab.filter_status@ == "Filter is PAUSED"@,
        tab.watched_folders@ == watched@,
        tab.spam_folder@ == spam@,
        tab.unsure_folder@ == unsure@,
        !tab.progress_visible,
        tab.filter_results is None,
{
}

} // verus!
