//! The Filtering tab: watched folders, the two thresholds, what is done with each kind of message,
//! and the automatic clean-up.

use vstd::prelude::*;

use crate::config::{copy_folder_choice, copy_folders, FilterAction, FolderId};
use crate::double::{whole, Double, HUNDRED};
use crate::gui::slider::{clamped_to, SliderControl};
use crate::manager_dlg::ManagerState;
use crate::text::{folders_selected, folders_selected_text};

verus! {

/// The place of an action in the list of actions.
pub open spec fn index_of_action(action: FilterAction) -> u32 {
    match action {
        FilterAction::Move => 0,
        FilterAction::Copy => 1,
        FilterAction::Untouched => 2,
    }
}

/// The place of an action in the list of actions.
pub fn action_to_index(action: FilterAction) -> (index: u32)
    ensures
        index == index_of_action(action),
{
    match action {
        FilterAction::Move => 0,
        FilterAction::Copy => 1,
        FilterAction::Untouched => 2,
    }
}

/// The text about the watched folders.
pub open spec fn watched_text(count: nat) -> Seq<char> {
    if count == 0 {
        "(no folders selected)"@
    } else {
        folders_selected(count)
    }
}

/// The text about the watched folders.
pub fn format_watched_folders(count: usize) -> (text: String)
    ensures
        text@ == watched_text(count as nat),
{
    if count == 0 {
        "(no folders selected)".to_owned()
    } else {
        folders_selected_text(count)
    }
}

/// The part of the tab about what is done with one kind of message.
#[derive(Debug)]
pub struct ActionSection {
    /// The selected entry of the list of actions.
    pub action_index: Option<u32>,
    /// The folder's text.
    pub folder_entry: String,
    pub folder_id: Option<FolderId>,
    /// Whether a folder can be chosen.
    pub folder_sensitive: bool,
    pub mark_read: bool,
}

/// The contents of an action section.
pub struct ActionSectionView {
    pub action_index: Option<u32>,
    pub folder_entry: Seq<char>,
    pub folder_id: Option<FolderId>,
    pub folder_sensitive: bool,
    pub mark_read: bool,
}

impl View for ActionSection {
    type V = ActionSectionView;

    open spec fn view(&self) -> ActionSectionView {
        ActionSectionView {
            action_index: self.action_index,
            folder_entry: self.folder_entry@,
            folder_id: self.folder_id,
            folder_sensitive: self.folder_sensitive,
            mark_read: self.mark_read,
        }
    }
}

/// Whether a folder can be chosen for the selected entry of the list of actions: not for messages
/// that stay untouched.
pub open spec fn needs_folder(action_index: Option<u32>) -> bool {
    action_index != Some(2u32)
}

impl ActionSection {
    /// A section for the given action and folder. `shows_folder` says whether a folder that is
    /// set is mentioned.
    pub fn new(action: FilterAction, folder_id: Option<FolderId>, shows_folder: bool) -> (section:
        ActionSection)
        ensures
            section@ == (ActionSectionView {
                action_index: Some(index_of_action(action)),
                folder_entry: if shows_folder && folder_id is Some {
                    "(configured)"@
                } else {
                    ""@
                },
                folder_id,
                folder_sensitive: action != FilterAction::Untouched,
                mark_read: false,
            }),
    {
        let folder_entry = if shows_folder && folder_id.is_some() {
            "(configured)".to_owned()
        } else {
            "".to_owned()
        };
        ActionSection {
            action_index: Some(action_to_index(action)),
            folder_entry,
            folder_id,
            folder_sensitive: action != FilterAction::Untouched,
            mark_read: false,
        }
    }

    /// Takes another selection in the list of actions.
    pub fn on_action_changed(&mut self, active: Option<u32>)
        ensures
            final(self)@ == (ActionSectionView {
                action_index: active,
                folder_sensitive: needs_folder(active),
                ..old(self)@
            }),
    {
        self.action_index = active;
        self.folder_sensitive = match active {
            Some(index) => index != 2,
            None => true,
        };
    }

    /// Takes the outcome of browsing for a folder: the first selection, with its name. Nothing
    /// changes if the browsing was cancelled or nothing is selected.
    pub fn on_folder_browsed(&mut self, selections: &Option<Vec<(FolderId, String)>>)
        ensures
            final(self)@ == (match *selections {
                Some(list) => if list@.len() > 0 {
                    ActionSectionView {
                        folder_id: Some(list@[0].0),
                        folder_entry: list@[0].1@,
                        ..old(self)@
                    }
                } else {
                    old(self)@
                },
                None => old(self)@,
            }),
    {
        if let Some(list) = selections {
            if list.len() > 0 {
                self.folder_id = Some(list[0].0.clone());
                self.folder_entry = list[0].1.clone();
            }
        }
    }
}

/// The note about a spam threshold that is not above the unsure threshold.
pub const SPAM_NOTE: &'static str = "Spam threshold must be greater than unsure threshold";

/// The note about an unsure threshold that is not below the spam threshold.
pub const UNSURE_NOTE: &'static str = "Unsure threshold must be less than spam threshold";

/// What is wrong with a pair of thresholds.
#[derive(Debug, Clone, Copy, PartialEq, Eq, Structural)]
pub enum ThresholdError {
    SpamOutOfRange,
    UnsureOutOfRange,
    SpamNotAboveUnsure,
}

/// Whether a threshold lies between 0 and 100.
pub open spec fn in_range(value: Double) -> bool {
    (Double { bits: 0 }).le_spec(value) && value.le_spec(Double { bits: HUNDRED })
}

/// What is wrong with a pair of thresholds, if anything is.
pub open spec fn threshold_error(spam: Double, unsure: Double) -> Option<ThresholdError> {
    if !in_range(spam) {
        Some(ThresholdError::SpamOutOfRange)
    } else if !in_range(unsure) {
        Some(ThresholdError::UnsureOutOfRange)
    } else if spam.le_spec(unsure) {
        Some(ThresholdError::SpamNotAboveUnsure)
    } else {
        None
    }
}

/// The message about what is wrong, with the thresholds' texts (one decimal).
pub open spec fn threshold_message(
    error: ThresholdError,
    spam_text: Seq<char>,
    unsure_text: Seq<char>,
) -> Seq<char> {
    match error {
        ThresholdError::SpamOutOfRange => "Spam threshold ("@ + spam_text
            + ") must be between 0 and 100"@,
        ThresholdError::UnsureOutOfRange => "Unsure threshold ("@ + unsure_text
            + ") must be between 0 and 100"@,
        ThresholdError::SpamNotAboveUnsure => "Spam threshold ("@ + spam_text
            + ") must be greater than unsure threshold ("@ + unsure_text + ")"@,
    }
}

/// A pair of thresholds is accepted exactly if 0 <= unsure < spam <= 100.
pub proof fn accepted_thresholds_are_ordered(spam: Double, unsure: Double)
    ensures
        threshold_error(spam, unsure) is None <==> !spam.is_nan() && !unsure.is_nan() && 0
            <= unsure.scaled() < spam.scaled() <= whole(100),
{
    crate::double::constants_have_their_values();
}

/// What is typed into an entry is always in range, unless it is not a number.
pub proof fn typed_thresholds_are_in_range(typed: Double)
    requires
        !typed.is_nan(),
    ensures
        in_range(clamped_to(typed, HUNDRED)),
{
    crate::double::constants_have_their_values();
    vstd::arithmetic::power2::lemma_pow2_pos(1074);
}

/// The Filtering tab.
#[derive(Debug)]
pub struct FilteringTab {
    pub watched_folder_ids: Vec<FolderId>,
    /// The text about the watched folders.
    pub watched_label: String,
    pub spam: SliderControl,
    /// The note about the spam threshold, if one is shown.
    pub spam_note: Option<&'static str>,
    pub spam_section: ActionSection,
    pub unsure: SliderControl,
    /// The note about the unsure threshold, if one is shown.
    pub unsure_note: Option<&'static str>,
    pub unsure_section: ActionSection,
    pub ham_section: ActionSection,
    pub cleanup_enabled: bool,
    /// The days after which spam is removed.
    pub cleanup_days: u32,
    /// Whether the days can be changed.
    pub cleanup_sensitive: bool,
}

/// The days offered for the clean-up at first; they can be set from 1 to 365.
pub const DEFAULT_CLEANUP_DAYS: u32 = 30;

impl FilteringTab {
    /// The notes about the thresholds stand if and only if the spam threshold is not above the
    /// unsure threshold.
    pub open spec fn notes_are_right(&self) -> bool {
        if self.spam.value.le_spec(self.unsure.value) {
            self.spam_note == Some(SPAM_NOTE) && self.unsure_note == Some(UNSURE_NOTE)
        } else {
            self.spam_note is None && self.unsure_note is None
        }
    }

    /// The tab shows the given settings, with the thresholds' texts.
    pub open spec fn shows(
        &self,
        state: ManagerState,
        spam_text: Seq<char>,
        unsure_text: Seq<char>,
    ) -> bool {
        &&& self.watched_folder_ids@ == state@.watch_folders
        &&& self.watched_label@ == watched_text(state@.watch_folders.len())
        &&& self.spam.value == clamped_to(state@.spam_threshold, HUNDRED)
        &&& self.spam.entry@ == spam_text
        &&& self.spam.upper == HUNDRED
        &&& !self.spam.updating
        &&& self.spam_note is None
        &&& self.spam_section@ == (ActionSectionView {
            action_index: Some(index_of_action(state@.spam_action)),
            folder_entry: if state@.spam_folder is Some {
                "(configured)"@
            } else {
                ""@
            },
            folder_id: state@.spam_folder,
            folder_sensitive: state@.spam_action != FilterAction::Untouched,
            mark_read: false,
        })
        &&& self.unsure.value == clamped_to(state@.unsure_threshold, HUNDRED)
        &&& self.unsure.entry@ == unsure_text
        &&& self.unsure.upper == HUNDRED
        &&& !self.unsure.updating
        &&& self.unsure_note is None
        &&& self.unsure_section@ == (ActionSectionView {
            action_index: Some(index_of_action(state@.unsure_action)),
            folder_entry: if state@.unsure_folder is Some {
                "(configured)"@
            } else {
                ""@
            },
            folder_id: state@.unsure_folder,
            folder_sensitive: state@.unsure_action != FilterAction::Untouched,
            mark_read: false,
        })
        &&& self.ham_section@ == (ActionSectionView {
            action_index: Some(index_of_action(state@.ham_action)),
            folder_entry: ""@,
            folder_id: None,
            folder_sensitive: state@.ham_action != FilterAction::Untouched,
            mark_read: false,
        })
        &&& !self.cleanup_enabled
        &&& self.cleanup_days == DEFAULT_CLEANUP_DAYS
        &&& !self.cleanup_sensitive
    }

    /// The tab for the given settings, with the thresholds' texts (one decimal).
    pub fn new(state: &ManagerState, spam_text: &str, unsure_text: &str) -> (tab: FilteringTab)
        ensures
            tab.shows(*state, spam_text@, unsure_text@),
    {
        FilteringTab {
            watched_folder_ids: copy_folders(&state.watch_folder_ids),
            watched_label: format_watched_folders(state.watch_folder_ids.len()),
            spam: SliderControl::new(state.spam_threshold, spam_text, HUNDRED),
            spam_note: None,
            spam_section: ActionSection::new(
                state.spam_action,
                copy_folder_choice(&state.spam_folder_id),
                true,
            ),
            unsure: SliderControl::new(state.unsure_threshold, unsure_text, HUNDRED),
            unsure_note: None,
            unsure_section: ActionSection::new(
                state.unsure_action,
                copy_folder_choice(&state.unsure_folder_id),
                true,
            ),
            ham_section: ActionSection::new(state.ham_action, None, false),
            cleanup_enabled: false,
            cleanup_days: DEFAULT_CLEANUP_DAYS,
            cleanup_sensitive: false,
        }
    }

    /// Takes the outcome of browsing for the watched folders. Nothing changes if the browsing was
    /// cancelled.
    pub fn on_watched_browsed(&mut self, selections: &Option<Vec<(FolderId, String)>>)
        ensures
            match *selections {
                Some(list) => {
                    &&& final(self).watched_folder_ids@ == Seq::new(
                        list@.len(),
                        |i: int| list@[i].0,
                    )
                    &&& final(self).watched_label@ == watched_text(list@.len())
                },
                None => final(self).watched_folder_ids@ == old(self).watched_folder_ids@ && final(self).watched_label@ == old(self).watched_label@,
            },
            *final(self) == (FilteringTab {
                watched_folder_ids: final(self).watched_folder_ids,
                watched_label: final(self).watched_label,
                ..*old(self)
            }),
    {
        if let Some(list) = selections {
            let mut ids: Vec<FolderId> = Vec::new();
            let mut i: usize = 0;
            while i < list.len()
                invariant
                    i <= list.len(),
                    ids@ =~= Seq::new(i as nat, |j: int| list@[j].0),
                decreases list.len() - i,
            {
                ids.push(list[i].0.clone());
                i = i + 1;
            }
            self.watched_label = format_watched_folders(ids.len());
            self.watched_folder_ids = ids;
        }
    }

    /// Shows or hides the notes about the thresholds: both are shown if the spam threshold is not
    /// above the unsure threshold, else none.
    pub fn cross_validate(&mut self)
        ensures
            final(self).notes_are_right(),
            *final(self) == (FilteringTab {
                spam_note: final(self).spam_note,
                unsure_note: final(self).unsure_note,
                ..*old(self)
            }),
    {
        if self.spam.value.le(self.unsure.value) {
            self.spam_note = Some(SPAM_NOTE);
            self.unsure_note = Some(UNSURE_NOTE);
        } else {
            self.spam_note = None;
            self.unsure_note = None;
        }
    }

    /// Takes the new value of the slider for the spam threshold, whose text is `text`, and says
    /// whether it was taken; the notes follow it.
    pub fn on_spam_changed(&mut self, value: Double, text: &str) -> (taken: bool)
        ensures
            taken == !old(self).spam@.updating,
            final(self).spam@ == old(self).spam@.slid(value, text@),
            taken ==> final(self).notes_are_right(),
            *final(self) == (FilteringTab {
                spam: final(self).spam,
                spam_note: if taken {
                    final(self).spam_note
                } else {
                    old(self).spam_note
                },
                unsure_note: if taken {
                    final(self).unsure_note
                } else {
                    old(self).unsure_note
                },
                ..*old(self)
            }),
    {
        let taken = self.spam.on_scale_changed(value, text);
        if taken {
            self.cross_validate();
        }
        taken
    }

    /// Takes what was typed as the spam threshold and says whether it was taken; the notes follow
    /// it. `clamped_text` is the text of a typed number once it is moved into the range from 0 to
    /// 100.
    pub fn on_spam_committed(&mut self, parsed: Option<Double>, clamped_text: &str) -> (taken: bool)
        requires
            old(self).spam.upper == HUNDRED,
        ensures
            taken == !old(self).spam@.updating,
            final(self).spam@ == old(self).spam@.typed(parsed, clamped_text@),
            taken ==> final(self).notes_are_right(),
            *final(self) == (FilteringTab {
                spam: final(self).spam,
                spam_note: if taken {
                    final(self).spam_note
                } else {
                    old(self).spam_note
                },
                unsure_note: if taken {
                    final(self).unsure_note
                } else {
                    old(self).unsure_note
                },
                ..*old(self)
            }),
    {
        let taken = self.spam.on_entry_committed(parsed, clamped_text);
        if taken {
            self.cross_validate();
        }
        taken
    }

    /// Takes the new value of the slider for the unsure threshold, whose text is `text`, and says
    /// whether it was taken; the notes follow it.
    pub fn on_unsure_changed(&mut self, value: Double, text: &str) -> (taken: bool)
        ensures
            taken == !old(self).unsure@.updating,
            final(self).unsure@ == old(self).unsure@.slid(value, text@),
            taken ==> final(self).notes_are_right(),
            *final(self) == (FilteringTab {
                unsure: final(self).unsure,
                spam_note: if taken {
                    final(self).spam_note
                } else {
                    old(self).spam_note
                },
                unsure_note: if taken {
                    final(self).unsure_note
                } else {
                    old(self).unsure_note
                },
                ..*old(self)
            }),
    {
        let taken = self.unsure.on_scale_changed(value, text);
        if taken {
            self.cross_validate();
        }
        taken
    }

    /// Takes what was typed as the unsure threshold and says whether it was taken; the notes follow
    /// it. `clamped_text` is the text of a typed number once it is moved into the range from 0 to
    /// 100.
    pub fn on_unsure_committed(&mut self, parsed: Option<Double>, clamped_text: &str) -> (taken: bool)
        requires
            old(self).unsure.upper == HUNDRED,
        ensures
            taken == !old(self).unsure@.updating,
            final(self).unsure@ == old(self).unsure@.typed(parsed, clamped_text@),
            taken ==> final(self).notes_are_right(),
            *final(self) == (FilteringTab {
                unsure: final(self).unsure,
                spam_note: if taken {
                    final(self).spam_note
                } else {
                    old(self).spam_note
                },
                unsure_note: if taken {
                    final(self).unsure_note
                } else {
                    old(self).unsure_note
                },
                ..*old(self)
            }),
    {
        let taken = self.unsure.on_entry_committed(parsed, clamped_text);
        if taken {
            self.cross_validate();
        }
        taken
    }

    /// Turns the clean-up on or off.
    pub fn on_cleanup_toggled(&mut self, active: bool)
        ensures
            *final(self) == (FilteringTab {
                cleanup_enabled: active,
                cleanup_sensitive: active,
                ..*old(self)
            }),
    {
        self.cleanup_enabled = active;
        self.cleanup_sensitive = active;
    }

    /// Checks the thresholds. `spam_text` and `unsure_text` are their texts (one decimal).
    pub fn validate(&self, spam_text: &str, unsure_text: &str) -> (checked: Result<(), String>)
        ensures
            match threshold_error(self.spam.value, self.unsure.value) {
                None => checked is Ok,
                Some(error) => checked matches Err(message) && message@ == threshold_message(
                    error,
                    spam_text@,
                    unsure_text@,
                ),
            },
    {
        let lowest = Double { bits: 0 };
        let highest = Double { bits: HUNDRED };
        let spam = self.spam.value;
        let unsure = self.unsure.value;
        if !(lowest.le(spam) && spam.le(highest)) {
            let mut message = "Spam threshold (".to_owned();
            message.append(spam_text);
            message.append(") must be between 0 and 100");
            return Err(message);
        }
        if !(lowest.le(unsure) && unsure.le(highest)) {
            let mut message = "Unsure threshold (".to_owned();
            message.append(unsure_text);
            message.append(") must be between 0 and 100");
            return Err(message);
        }
        if spam.le(unsure) {
            let mut message = "Spam threshold (".to_owned();
            message.append(spam_text);
            message.append(") must be greater than unsure threshold (");
            message.append(unsure_text);
            message.append(")");
            return Err(message);
        }
        Ok(())
    }
}

/// After each change of a slider or an entry the notes tell what saving would say: with thresholds
/// between 0 and 100 they are shown exactly if the pair is not accepted.
pub proof fn notes_tell_what_is_refused(tab: FilteringTab)
    requires
        tab.notes_are_right(),
        in_range(tab.spam.value),
        in_range(tab.unsure.value),
    ensures
        tab.spam_note is Some <==> threshold_error(tab.spam.value, tab.unsure.value) is Some,
        tab.unsure_note is Some <==> threshold_error(tab.spam.value, tab.unsure.value) is Some,
{
}

/// Different actions have different places in the list, in the order move, copy, untouched.
pub proof fn actions_have_places_of_their_own(action: FilterAction, index: u32)
    requires
        call_ensures(action_to_index, (action,), index),
    ensures
        index == 0 <==> action is Move,
        index == 1 <==> action is Copy,
        index == 2 <==> action is Untouched,
{
}

/// The label says how many folders are watched, or that there is none.
pub proof fn watched_folders_are_counted(count: usize, text: String)
    requires
        call_ensures(format_watched_folders, (count,), text),
    ensures
        count == 0 ==> text@ == "(no folders selected)"@,
        count == 1 ==> text@ == "1 folder selected"@,
        count > 1 ==> text@ == crate::text::decimal(count as nat) + " folders selected"@,
{
    reveal_strlit("1 folder selected");
    reveal_strlit(" folders selected");
    reveal_strlit(" folder");
    reveal_strlit(" selected");
    reveal_strlit("s");
    reveal_strlit("");
    if count == 1 {
        assert(crate::text::decimal(1) =~= seq!['1']);
        assert(text@ =~= "1 folder selected"@);
    } else if count > 1 {
        assert(text@ =~= crate::text::decimal(count as nat) + " folders selected"@);
    }
}

/// A section shows the action and keeps the folder that it was made for. A folder can be chosen
/// unless messages are left untouched, also after another action was selected, and the folder and
/// the mark outlast that.
pub proof fn folders_are_for_messages_that_go_somewhere(
    action: FilterAction,
    folder_id: Option<FolderId>,
    shows_folder: bool,
    made: ActionSection,
    section: &mut ActionSection,
    active: Option<u32>,
)
    requires
        call_ensures(ActionSection::new, (action, folder_id, shows_folder), made),
        call_ensures(ActionSection::on_action_changed, (section, active), ()),
    ensures
        made.folder_id == folder_id,
        made.folder_sensitive <==> !(action is Untouched),
        made.action_index == Some(0u32) <==> action is Move,
        made.action_index == Some(1u32) <==> action is Copy,
        made.action_index == Some(2u32) <==> action is Untouched,
        !made.mark_read,
        made.folder_entry@.len() > 0 <==> shows_folder && folder_id is Some,
        final(section).action_index == active,
        final(section).folder_sensitive <==> active != Some(2u32),
        final(section).folder_id == old(section).folder_id,
        final(section).folder_entry@ == old(section).folder_entry@,
        final(section).mark_read == old(section).mark_read,
{
    reveal_strlit("(configured)");
    reveal_strlit("");
    assert(made@.folder_entry == made.folder_entry@);
    assert(final(section)@.folder_id == final(section).folder_id);
}

/// Browsing takes the first selected folder with its own name, and nothing if it was cancelled or
/// nothing was selected; the action and the mark stay.
pub proof fn the_browsed_folder_is_taken(
    section: &mut ActionSection,
    selections: &Option<Vec<(FolderId, String)>>,
)
    requires
        call_ensures(ActionSection::on_folder_browsed, (section, selections), ()),
    ensures
        *selections matches Some(list) ==> list@.len() > 0 ==> {
            &&& final(section).folder_id == Some(list@[0].0)
            &&& final(section).folder_entry@ == list@[0].1@
        },
        *selections is None || (*selections)->0@.len() == 0 ==> {
            &&& final(section).folder_id == old(section).folder_id
            &&& final(section).folder_entry@ == old(section).folder_entry@
        },
        final(section).action_index == old(section).action_index,
        final(section).folder_sensitive == old(section).folder_sensitive,
        final(section).mark_read == old(section).mark_read,
{
    assert(final(section)@.folder_id == final(section).folder_id);
    assert(final(section)@.folder_entry == final(section).folder_entry@);
}

/// Browsing for watched folders takes all that were selected, in their order, and counts them; if
/// it was cancelled, the folders stay. No other setting changes.
pub proof fn browsed_folders_are_watched(
    tab: &mut FilteringTab,
    selections: &Option<Vec<(FolderId, String)>>,
)
    requires
        call_ensures(FilteringTab::on_watched_browsed, (tab, selections), ()),
    ensures
        *selections matches Some(list) ==> {
            &&& final(tab).watched_folder_ids@.len() == list@.len()
            &&& forall|i: int|
                0 <= i < list@.len() ==> #[trigger] final(tab).watched_folder_ids@[i] == list@[i].0
            &&& list@.len() == 0 ==> final(tab).watched_label@ == "(no folders selected)"@
            &&& list@.len() > 0 ==> final(tab).watched_label@ == folders_selected(list@.len())
        },
        *selections is None ==> {
            &&& final(tab).watched_folder_ids@ == old(tab).watched_folder_ids@
            &&& final(tab).watched_label@ == old(tab).watched_label@
        },
        final(tab).spam == old(tab).spam,
        final(tab).unsure == old(tab).unsure,
        final(tab).spam_section == old(tab).spam_section,
        final(tab).unsure_section == old(tab).unsure_section,
        final(tab).ham_section == old(tab).ham_section,
        final(tab).cleanup_enabled == old(tab).cleanup_enabled,
        final(tab).cleanup_days == old(tab).cleanup_days,
{
}

/// The clean-up is switched as the user says, its days can be changed while it is on, and the days
/// that were set are kept whether it is switched on or off; so are the thresholds and the folders.
pub proof fn the_clean_up_is_switched(tab: &mut FilteringTab, active: bool)
    requires
        call_ensures(FilteringTab::on_cleanup_toggled, (tab, active), ()),
    ensures
        final(tab).cleanup_enabled == active,
        final(tab).cleanup_sensitive == active,
        final(tab).cleanup_days == old(tab).cleanup_days,
        final(tab).spam == old(tab).spam,
        final(tab).unsure == old(tab).unsure,
        final(tab).watched_folder_ids == old(tab).watched_folder_ids,
        final(tab).spam_section == old(tab).spam_section,
        final(tab).unsure_section == old(tab).unsure_section,
        final(tab).ham_section == old(tab).ham_section,
{
}

/// Thresholds pass exactly if both are numbers and 0 <= unsure < spam <= 100; what is refused is
/// reported with the text of a threshold that is out of range, or of both.
pub proof fn thresholds_are_checked(
    tab: &FilteringTab,
    spam_text: &str,
    unsure_text: &str,
    checked: Result<(), String>,
)
    requires
        call_ensures(FilteringTab::validate, (tab, spam_text, unsure_text), checked),
    ensures
        ({
            let spam = tab.spam.value;
            let unsure = tab.unsure.value;
            let spam_fits = !spam.is_nan() && 0 <= spam.scaled() <= whole(100);
            let unsure_fits = !unsure.is_nan() && 0 <= unsure.scaled() <= whole(100);
            &&& checked is Ok <==> spam_fits && unsure_fits && unsure.scaled() < spam.scaled()
            &&& !spam_fits ==> checked->Err_0@ == "Spam threshold ("@ + spam_text@
                + ") must be between 0 and 100"@
            &&& spam_fits && !unsure_fits ==> checked->Err_0@ == "Unsure threshold ("@
                + unsure_text@ + ") must be between 0 and 100"@
            &&& spam_fits && unsure_fits && spam.scaled() <= unsure.scaled() ==> checked->Err_0@
                == "Spam threshold ("@ + spam_text@ + ") must be greater than unsure threshold ("@
                + unsure_text@ + ")"@
        }),
{
    crate::double::constants_have_their_values();
    accepted_thresholds_are_ordered(tab.spam.value, tab.unsure.value);
}

/// The notes are shown together, exactly if the spam threshold is at most the unsure one, and
/// showing them changes no setting.
pub proof fn notes_stand_by_crossed_thresholds(tab: &mut FilteringTab)
    requires
        call_ensures(FilteringTab::cross_validate, (tab,), ()),
    ensures
        final(tab).spam_note is Some <==> final(tab).unsure_note is Some,
        !old(tab).spam.value.is_nan() && !old(tab).unsure.value.is_nan() ==> (final(tab).spam_note
            is Some <==> old(tab).spam.value.scaled() <= old(tab).unsure.value.scaled()),
        old(tab).spam.value.is_nan() || old(tab).unsure.value.is_nan() ==> final(tab).spam_note
            is None,
        final(tab).spam == old(tab).spam,
        final(tab).unsure == old(tab).unsure,
        final(tab).watched_folder_ids == old(tab).watched_folder_ids,
        final(tab).spam_section == old(tab).spam_section,
        final(tab).unsure_section == old(tab).unsure_section,
        final(tab).ham_section == old(tab).ham_section,
        final(tab).cleanup_enabled == old(tab).cleanup_enabled,
        final(tab).cleanup_days == old(tab).cleanup_days,
{
}

/// A change of one threshold is taken unless slider and entry are just being brought in line, and
/// leaves the other threshold alone; a typed number is moved into the range from 0 to 100, and what
/// is no number changes nothing.
pub proof fn each_threshold_has_its_own_controls(
    slid: &mut FilteringTab,
    value: Double,
    text: &str,
    taken: bool,
    typed: &mut FilteringTab,
    parsed: Option<Double>,
    took: bool,
)
    requires
        call_ensures(FilteringTab::on_spam_changed, (slid, value, text), taken),
        old(typed).unsure.upper == HUNDRED,
        call_ensures(FilteringTab::on_unsure_committed, (typed, parsed, text), took),
    ensures
        taken <==> !old(slid).spam.updating,
        taken ==> final(slid).spam.value == value && final(slid).spam.entry@ == text@,
        !taken ==> final(slid).spam.value == old(slid).spam.value,
        final(slid).unsure == old(slid).unsure,
        took <==> !old(typed).unsure.updating,
        took && parsed is Some && !parsed->0.is_nan() ==> 0 <= final(typed).unsure.value.scaled()
            <= whole(100),
        took && parsed is Some && !parsed->0.is_nan() && 0 <= parsed->0.scaled() <= whole(100)
            ==> final(typed).unsure.value == parsed->0,
        !took || parsed is None ==> final(typed).unsure.value == old(typed).unsure.value,
        final(typed).spam == old(typed).spam,
{
    crate::double::constants_have_their_values();
    vstd::arithmetic::power2::lemma_pow2_pos(1074);
    assert(final(slid).spam@.value == final(slid).spam.value);
    assert(final(typed).unsure@.value == final(typed).unsure.value);
    assert(old(typed).unsure@.value == old(typed).unsure.value);
}

/// The same holds with the two thresholds exchanged.
pub proof fn each_threshold_has_its_own_controls_too(
    slid: &mut FilteringTab,
    value: Double,
    text: &str,
    taken: bool,
    typed: &mut FilteringTab,
    parsed: Option<Double>,
    took: bool,
)
    requires
        call_ensures(FilteringTab::on_unsure_changed, (slid, value, text), taken),
        old(typed).spam.upper == HUNDRED,
        call_ensures(FilteringTab::on_spam_committed, (typed, parsed, text), took),
    ensures
        taken <==> !old(slid).unsure.updating,
        taken ==> final(slid).unsure.value == value && final(slid).unsure.entry@ == text@,
        !taken ==> final(slid).unsure.value == old(slid).unsure.value,
        final(slid).spam == old(slid).spam,
        took <==> !old(typed).spam.updating,
        took && parsed is Some && !parsed->0.is_nan() ==> 0 <= final(typed).spam.value.scaled()
            <= whole(100),
        took && parsed is Some && !parsed->0.is_nan() && 0 <= parsed->0.scaled() <= whole(100)
            ==> final(typed).spam.value == parsed->0,
        !took || parsed is None ==> final(typed).spam.value == old(typed).spam.value,
        final(typed).unsure == old(typed).unsure,
{
    crate::double::constants_have_their_values();
    vstd::arithmetic::power2::lemma_pow2_pos(1074);
    assert(final(slid).unsure@.value == final(slid).unsure.value);
    assert(final(typed).spam@.value == final(typed).spam.value);
    assert(old(typed).spam@.value == old(typed).spam.value);
}

/// The notes stand exactly if the spam threshold is at most the unsure one.
pub open spec fn notes_fit(tab: FilteringTab) -> bool {
    let spam = tab.spam.value;
    let unsure = tab.unsure.value;
    let crossed = !spam.is_nan() && !unsure.is_nan() && spam.scaled() <= unsure.scaled();
    &&& tab.spam_note is Some <==> crossed
    &&& tab.unsure_note is Some <==> crossed
    &&& tab.spam_note is Some ==> tab.spam_note->0@
        == "Spam threshold must be greater than unsure threshold"@
    &&& tab.unsure_note is Some ==> tab.unsure_note->0@
        == "Unsure threshold must be less than spam threshold"@
}

/// After each change of a threshold that was taken the notes fit the thresholds, each with its own
/// text; a change that was not taken leaves them.
pub proof fn notes_follow_the_thresholds(
    first: &mut FilteringTab,
    second: &mut FilteringTab,
    third: &mut FilteringTab,
    fourth: &mut FilteringTab,
    value: Double,
    text: &str,
    parsed: Option<Double>,
    taken: (bool, bool, bool, bool),
)
    requires
        call_ensures(FilteringTab::on_spam_changed, (first, value, text), taken.0),
        call_ensures(FilteringTab::on_unsure_changed, (second, value, text), taken.1),
        old(third).spam.upper == HUNDRED,
        call_ensures(FilteringTab::on_spam_committed, (third, parsed, text), taken.2),
        old(fourth).unsure.upper == HUNDRED,
        call_ensures(FilteringTab::on_unsure_committed, (fourth, parsed, text), taken.3),
    ensures
        taken.0 ==> notes_fit(*final(first)),
        taken.1 ==> notes_fit(*final(second)),
        taken.2 ==> notes_fit(*final(third)),
        taken.3 ==> notes_fit(*final(fourth)),
        !taken.0 ==> final(first).spam_note == old(first).spam_note,
        !taken.1 ==> final(second).spam_note == old(second).spam_note,
        final(first).cleanup_days == old(first).cleanup_days,
        final(first).spam_section == old(first).spam_section,
        final(third).watched_folder_ids == old(third).watched_folder_ids,
{
}

/// A new tab shows the watched folders, the thresholds with their texts, and for each kind of
/// message its own action and folder; there are no notes, and the clean-up is off, with thirty
/// days.
pub proof fn a_new_filtering_tab_shows_the_settings(
    state: &ManagerState,
    spam_text: &str,
    unsure_text: &str,
    tab: FilteringTab,
)
    requires
        call_ensures(FilteringTab::new, (state, spam_text, unsure_text), tab),
    ensures
        tab.watched_folder_ids@ == state.watch_folder_ids@,
        state.watch_folder_ids@.len() == 0 ==> tab.watched_label@ == "(no folders selected)"@,
        state.watch_folder_ids@.len() > 0 ==> tab.watched_label@ == folders_selected(
            state.watch_folder_ids@.len(),
        ),
        tab.spam.entry@ == spam_text@,
        tab.unsure.entry@ == unsure_text@,
        tab.spam.value == clamped_to(state.spam_threshold, HUNDRED),
        tab.unsure.value == clamped_to(state.unsure_threshold, HUNDRED),
        tab.spam_note is None,
        tab.unsure_note is None,
        tab.spam_section.folder_id == state.spam_folder_id,
        tab.unsure_section.folder_id == state.unsure_folder_id,
        tab.ham_section.folder_id is None,
        state.spam_folder_id is Some ==> tab.spam_section.folder_entry@ == "(configured)"@,
        state.unsure_folder_id is Some ==> tab.unsure_section.folder_entry@ == "(configured)"@,
        tab.spam_section.action_index == Some(0u32) <==> state.spam_action is Move,
        tab.spam_section.action_index == Some(1u32) <==> state.spam_action is Copy,
        tab.spam_section.action_index == Some(2u32) <==> state.spam_action is Untouched,
        tab.unsure_section.action_index == Some(0u32) <==> state.unsure_action is Move,
        tab.unsure_section.action_index == Some(2u32) <==> state.unsure_action is Untouched,
        tab.ham_section.action_index == Some(0u32) <==> state.ham_action is Move,
        tab.ham_section.action_index == Some(2u32) <==> state.ham_action is Untouched,
        tab.spam_section.folder_sensitive <==> !(state.spam_action is Untouched),
        tab.unsure_section.folder_sensitive <==> !(state.unsure_action is Untouched),
        tab.ham_section.folder_sensitive <==> !(state.ham_action is Untouched),
        !tab.spam_section.mark_read && !tab.unsure_section.mark_read && !tab.ham_section.mark_read,
        !tab.cleanup_enabled,
        !tab.cleanup_sensitive,
        tab.cleanup_days == 30,
{
    assert(tab.spam_section@.folder_id == state@.spam_folder);
    assert(tab.unsure_section@.folder_id == state@.unsure_folder);
    assert(tab.ham_section@.folder_id == tab.ham_section.folder_id);
    assert(tab.spam_section@.folder_entry == tab.spam_section.folder_entry@);
    assert(tab.unsure_section@.folder_entry == tab.unsure_section.folder_entry@);
}

} // verus!
