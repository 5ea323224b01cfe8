//! The Calendar tab: whether calendar items are filtered, and what is done with those that are
//! spam.

use vstd::prelude::*;

use crate::config::{CalendarConfig, CalendarSpamAction};

verus! {

/// The place of an action in the list of actions.
pub open spec fn index_of_calendar_action(action: CalendarSpamAction) -> u32 {
    match action {
        CalendarSpamAction::Prompt => 0,
        CalendarSpamAction::Trash => 1,
        CalendarSpamAction::Move => 2,
    }
}

/// The action that the selected entry of the list stands for; without one, the user is asked.
pub open spec fn calendar_action_at(index: Option<u32>) -> CalendarSpamAction {
    match index {
        Some(1) => CalendarSpamAction::Trash,
        Some(2) => CalendarSpamAction::Move,
        _ => CalendarSpamAction::Prompt,
    }
}

/// The action that the selected entry of the list stands for.
pub fn calendar_action(index: Option<u32>) -> (action: CalendarSpamAction)
    ensures
        action == calendar_action_at(index),
{
    match index {
        Some(0) => CalendarSpamAction::Prompt,
        Some(1) => CalendarSpamAction::Trash,
        Some(2) => CalendarSpamAction::Move,
        _ => CalendarSpamAction::Prompt,
    }
}

/// What an action does.
pub open spec fn description_of(action: CalendarSpamAction) -> &'static str {
    match action {
        CalendarSpamAction::Prompt => "You will be asked what to do for each spam calendar item",
        CalendarSpamAction::Trash => "Calendar items classified as spam will be automatically deleted",
        CalendarSpamAction::Move => "Calendar items classified as spam will be moved to the spam folder",
    }
}

/// What an action does, in words.
pub fn update_description(action: CalendarSpamAction) -> (text: &'static str)
    ensures
        text == description_of(action),
{
    match action {
        CalendarSpamAction::Prompt => "You will be asked what to do for each spam calendar item",
        CalendarSpamAction::Trash => "Calendar items classified as spam will be automatically deleted",
        CalendarSpamAction::Move => "Calendar items classified as spam will be moved to the spam folder",
    }
}

/// The Calendar tab.
#[derive(Debug, Clone, Copy)]
pub struct CalendarTab {
    pub enabled: bool,
    /// The selected entry of the list of actions.
    pub action_index: Option<u32>,
    /// What the selected action does.
    pub description: &'static str,
    /// Whether an action can be selected.
    pub action_sensitive: bool,
}

impl CalendarTab {
    /// The settings that the tab shows.
    pub open spec fn values(self) -> CalendarConfig {
        CalendarConfig {
            calendar_filtering_enabled: self.enabled,
            calendar_spam_action: calendar_action_at(self.action_index),
        }
    }

    /// The tab for the given settings.
    pub open spec fn showing(config: CalendarConfig) -> CalendarTab {
        CalendarTab {
            enabled: config.calendar_filtering_enabled,
            action_index: Some(index_of_calendar_action(config.calendar_spam_action)),
            description: description_of(config.calendar_spam_action),
            action_sensitive: config.calendar_filtering_enabled,
        }
    }

    /// The tab for the given settings.
    pub fn new(config: &CalendarConfig) -> (tab: CalendarTab)
        ensures
            tab == CalendarTab::showing(*config),
    {
        let index: u32 = match config.calendar_spam_action {
            CalendarSpamAction::Prompt => 0,
            CalendarSpamAction::Trash => 1,
            CalendarSpamAction::Move => 2,
        };
        CalendarTab {
            enabled: config.calendar_filtering_enabled,
            action_index: Some(index),
            description: update_description(config.calendar_spam_action),
            action_sensitive: config.calendar_filtering_enabled,
        }
    }

    /// Turns the filtering of calendar items on or off.
    pub fn on_enable_toggled(&mut self, active: bool)
        ensures
            *final(self) == (CalendarTab { enabled: active, action_sensitive: active, ..*old(self) }),
    {
        self.enabled = active;
        self.action_sensitive = active;
    }

    /// Takes another selection in the list of actions; the description follows it, unless nothing
    /// is selected.
    pub fn on_action_changed(&mut self, active: Option<u32>)
        ensures
            *final(self) == (CalendarTab {
                action_index: active,
                description: if active is Some {
                    description_of(calendar_action_at(active))
                } else {
                    old(self).description
                },
                ..*old(self)
            }),
    {
        self.action_index = active;
        if active.is_some() {
            self.description = update_description(calendar_action(active));
        }
    }

    /// The settings that the tab shows.
    pub fn read_values(&self) -> (config: CalendarConfig)
        ensures
            config == self.values(),
    {
        CalendarConfig {
            calendar_filtering_enabled: self.enabled,
            calendar_spam_action: calendar_action(self.action_index),
        }
    }
}

/// Settings that are shown and not changed are read back as they were.
pub proof fn calendar_settings_are_read_back(config: CalendarConfig)
    ensures
        CalendarTab::showing(config).values() == config,
{
}

/// The action of an entry is the one whose own entry it is; where nothing is selected, or something
/// beyond the list, the user is asked.
pub proof fn calendar_actions_have_their_places(index: Option<u32>, action: CalendarSpamAction)
    requires
        call_ensures(calendar_action, (index,), action),
    ensures
        action is Trash <==> index == Some(1u32),
        action is Move <==> index == Some(2u32),
        index is None || index == Some(0u32) ==> action is Prompt,
{
}

/// Each action has a description of its own, which says what is done.
pub proof fn descriptions_say_what_is_done(action: CalendarSpamAction, text: &'static str)
    requires
        call_ensures(update_description, (action,), text),
    ensures
        action is Prompt ==> text@ == "You will be asked what to do for each spam calendar item"@,
        action is Trash ==> text@
            == "Calendar items classified as spam will be automatically deleted"@,
        action is Move ==> text@
            == "Calendar items classified as spam will be moved to the spam folder"@,
{
}

/// Switching the filtering keeps the action, selecting an action keeps the switch, and what is read
/// then is what was switched and selected; the description is that of the selected action.
pub proof fn switch_and_action_are_independent(
    switched: &mut CalendarTab,
    active: bool,
    selected: &mut CalendarTab,
    index: u32,
    read: CalendarConfig,
)
    requires
        call_ensures(CalendarTab::on_enable_toggled, (switched, active), ()),
        call_ensures(CalendarTab::on_action_changed, (selected, Some(index)), ()),
        call_ensures(CalendarTab::read_values, (final(selected),), read),
    ensures
        final(switched).enabled == active,
        final(switched).action_sensitive == active,
        final(switched).action_index == old(switched).action_index,
        final(switched).description == old(switched).description,
        final(selected).action_index == Some(index),
        final(selected).enabled == old(selected).enabled,
        final(selected).action_sensitive == old(selected).action_sensitive,
        read.calendar_filtering_enabled == old(selected).enabled,
        read.calendar_spam_action is Trash <==> index == 1,
        read.calendar_spam_action is Move <==> index == 2,
        final(selected).description == description_of(read.calendar_spam_action),
{
}

/// A tab that is made for settings and read gives them back.
pub proof fn a_calendar_tab_gives_its_settings_back(
    config: &CalendarConfig,
    tab: CalendarTab,
    read: CalendarConfig,
)
    requires
        call_ensures(CalendarTab::new, (config,), tab),
        call_ensures(CalendarTab::read_values, (&tab,), read),
    ensures
        read.calendar_filtering_enabled == config.calendar_filtering_enabled,
        read.calendar_spam_action == config.calendar_spam_action,
        tab.action_sensitive == config.calendar_filtering_enabled,
        tab.description == description_of(config.calendar_spam_action),
{
}

/// Where nothing is selected any more, the description stays, and the user is to be asked.
pub proof fn without_a_selection_the_user_is_asked(tab: &mut CalendarTab, read: CalendarConfig)
    requires
        call_ensures(CalendarTab::on_action_changed, (tab, None), ()),
        call_ensures(CalendarTab::read_values, (final(tab),), read),
    ensures
        final(tab).action_index is None,
        final(tab).description == old(tab).description,
        final(tab).enabled == old(tab).enabled,
        read.calendar_spam_action is Prompt,
{
}

} // verus!
