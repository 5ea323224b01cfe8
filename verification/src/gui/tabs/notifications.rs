//! The Notifications tab: the sound files and the time during which messages are gathered.

use vstd::prelude::*;

use crate::config::NotificationConfig;
use crate::double::{scaled_by, Double, SIXTY};
use crate::gui::slider::{clamped_to, SliderControl};
use crate::text::{decimal, decimal_string};

verus! {

/// A number of seconds as the tab shows it: without its fraction.
pub open spec fn seconds_text(seconds: Double) -> Seq<char> {
    decimal(scaled_by(seconds, 1))
}

/// A number of seconds as the tab shows it.
pub fn whole_seconds_text(seconds: Double) -> (text: String)
    ensures
        text@ == seconds_text(seconds),
{
    decimal_string(seconds.scale_to_u32(1) as u64)
}

/// The Notifications tab.
#[derive(Debug)]
pub struct NotificationsTab {
    pub enabled: bool,
    pub ham_sound: String,
    pub unsure_sound: String,
    pub spam_sound: String,
    /// The time during which messages are gathered, in seconds.
    pub delay: SliderControl,
    /// Whether sounds and time can be changed.
    pub controls_sensitive: bool,
}

impl NotificationsTab {
    /// The given settings are what the tab holds.
    pub open spec fn holds(&self, config: NotificationConfig) -> bool {
        &&& self.enabled == config.notify_sound_enabled
        &&& self.ham_sound@ == config.notify_ham_sound@
        &&& self.unsure_sound@ == config.notify_unsure_sound@
        &&& self.spam_sound@ == config.notify_spam_sound@
        &&& self.delay.value == config.notify_accumulate_delay
    }

    /// The tab shows the given settings, with the time moved into the slider's range.
    pub open spec fn shows(&self, config: NotificationConfig) -> bool {
        &&& self.enabled == config.notify_sound_enabled
        &&& self.ham_sound@ == config.notify_ham_sound@
        &&& self.unsure_sound@ == config.notify_unsure_sound@
        &&& self.spam_sound@ == config.notify_spam_sound@
        &&& self.delay.value == clamped_to(config.notify_accumulate_delay, SIXTY)
    }

    /// The tab for the given settings.
    pub fn new(config: &NotificationConfig) -> (tab: NotificationsTab)
        ensures
            tab.shows(*config),
            tab.delay.entry@ == seconds_text(config.notify_accumulate_delay),
            tab.delay.upper == SIXTY,
            !tab.delay.updating,
            tab.controls_sensitive == config.notify_sound_enabled,
    {
        let text = whole_seconds_text(config.notify_accumulate_delay);
        NotificationsTab {
            enabled: config.notify_sound_enabled,
            ham_sound: config.notify_ham_sound.clone(),
            unsure_sound: config.notify_unsure_sound.clone(),
            spam_sound: config.notify_spam_sound.clone(),
            delay: SliderControl::new(config.notify_accumulate_delay, text.as_str(), SIXTY),
            controls_sensitive: config.notify_sound_enabled,
        }
    }

    /// Turns the notification sounds on or off.
    pub fn on_enable_toggled(&mut self, active: bool)
        ensures
            *final(self) == (NotificationsTab {
                enabled: active,
                controls_sensitive: active,
                ..*old(self)
            }),
    {
        self.enabled = active;
        self.controls_sensitive = active;
    }

    /// Takes the slider's new value and says whether it was taken; the entry shows it without its
    /// fraction.
    pub fn on_delay_changed(&mut self, value: Double) -> (taken: bool)
        ensures
            taken == !old(self).delay@.updating,
            final(self).delay@ == old(self).delay@.slid(value, seconds_text(value)),
            *final(self) == (NotificationsTab { delay: final(self).delay, ..*old(self) }),
    {
        let text = whole_seconds_text(value);
        self.delay.on_scale_changed(value, text.as_str())
    }

    /// Takes what was typed as the time and says whether it was taken. A number is moved into the
    /// slider's range, and the entry shows it without its fraction.
    pub fn on_delay_committed(&mut self, parsed: Option<Double>) -> (taken: bool)
        requires
            old(self).delay.upper == SIXTY,
        ensures
            taken == !old(self).delay@.updating,
            final(self).delay@ == old(self).delay@.typed(
                parsed,
                match parsed {
                    Some(typed) => seconds_text(clamped_to(typed, SIXTY)),
                    None => ""@,
                },
            ),
            *final(self) == (NotificationsTab { delay: final(self).delay, ..*old(self) }),
    {
        let text = match parsed {
            Some(typed) => whole_seconds_text(crate::gui::slider::clamp_to(typed, SIXTY)),
            None => "".to_owned(),
        };
        self.delay.on_entry_committed(parsed, text.as_str())
    }

    /// The settings that the tab shows.
    pub fn read_values(&self) -> (config: NotificationConfig)
        ensures
            self.holds(config),
    {
        NotificationConfig {
            notify_sound_enabled: self.enabled,
            notify_ham_sound: self.ham_sound.clone(),
            notify_unsure_sound: self.unsure_sound.clone(),
            notify_spam_sound: self.spam_sound.clone(),
            notify_accumulate_delay: self.delay.value,
        }
    }
}

/// What is shown and not changed is read back as it was, with the time moved into the slider's range.
pub proof fn notification_settings_are_read_back(
    tab: NotificationsTab,
    shown: NotificationConfig,
    read: NotificationConfig,
)
    requires
        tab.shows(shown),
        tab.holds(read),
    ensures
        read.notify_sound_enabled == shown.notify_sound_enabled,
        read.notify_ham_sound@ == shown.notify_ham_sound@,
        read.notify_unsure_sound@ == shown.notify_unsure_sound@,
        read.notify_spam_sound@ == shown.notify_spam_sound@,
        read.notify_accumulate_delay == clamped_to(shown.notify_accumulate_delay, SIXTY),
{
}

/// A tab that is made for settings and read gives back each sound in its own place, the switch, and
/// the time where its slider can show it.
pub proof fn a_notifications_tab_gives_its_settings_back(
    config: &NotificationConfig,
    tab: NotificationsTab,
    read: NotificationConfig,
)
    requires
        call_ensures(NotificationsTab::new, (config,), tab),
        call_ensures(NotificationsTab::read_values, (&tab,), read),
    ensures
        read.notify_sound_enabled == config.notify_sound_enabled,
        read.notify_ham_sound@ == config.notify_ham_sound@,
        read.notify_unsure_sound@ == config.notify_unsure_sound@,
        read.notify_spam_sound@ == config.notify_spam_sound@,
        clamped_to(config.notify_accumulate_delay, SIXTY) == config.notify_accumulate_delay
            ==> read.notify_accumulate_delay == config.notify_accumulate_delay,
        tab.controls_sensitive == config.notify_sound_enabled,
{
}

/// What the tab holds is what is read, each setting from its own control.
pub proof fn sounds_are_read_from_their_own_entries(
    tab: &NotificationsTab,
    read: NotificationConfig,
)
    requires
        call_ensures(NotificationsTab::read_values, (tab,), read),
    ensures
        read.notify_sound_enabled == tab.enabled,
        read.notify_ham_sound@ == tab.ham_sound@,
        read.notify_unsure_sound@ == tab.unsure_sound@,
        read.notify_spam_sound@ == tab.spam_sound@,
        read.notify_accumulate_delay == tab.delay.value,
{
}

/// Switching the sounds changes no sound and no time; a change of the time changes nothing else, is
/// taken unless an update is under way, and leaves a number from 0 to 60 where one was typed.
pub proof fn sounds_are_switched_and_time_is_set(
    switched: &mut NotificationsTab,
    active: bool,
    slid: &mut NotificationsTab,
    value: Double,
    taken: bool,
    typed: &mut NotificationsTab,
    parsed: Option<Double>,
    took: bool,
)
    requires
        call_ensures(NotificationsTab::on_enable_toggled, (switched, active), ()),
        call_ensures(NotificationsTab::on_delay_changed, (slid, value), taken),
        old(typed).delay.upper == SIXTY,
        call_ensures(NotificationsTab::on_delay_committed, (typed, parsed), took),
    ensures
        final(switched).enabled == active,
        final(switched).controls_sensitive == active,
        final(switched).ham_sound == old(switched).ham_sound,
        final(switched).unsure_sound == old(switched).unsure_sound,
        final(switched).spam_sound == old(switched).spam_sound,
        final(switched).delay == old(switched).delay,
        taken == !old(slid).delay.updating,
        taken ==> final(slid).delay.value == value,
        !taken ==> final(slid).delay.value == old(slid).delay.value,
        final(slid).enabled == old(slid).enabled,
        final(slid).ham_sound == old(slid).ham_sound,
        final(slid).unsure_sound == old(slid).unsure_sound,
        final(slid).spam_sound == old(slid).spam_sound,
        took == !old(typed).delay.updating,
        took && parsed is Some && !parsed->0.is_nan() ==> 0 <= final(typed).delay.value.scaled()
            <= crate::double::whole(60),
        !took || parsed is None ==> final(typed).delay.value == old(typed).delay.value,
        final(typed).enabled == old(typed).enabled,
{
    crate::double::constants_have_their_values();
    vstd::arithmetic::power2::lemma_pow2_pos(1074);
    assert(final(slid).delay@.value == final(slid).delay.value);
    assert(final(typed).delay@.value == final(typed).delay.value);
}

/// The time is shown as the numeral of its whole seconds, whether it comes from the settings, from
/// the slider or from the entry.
pub proof fn whole_seconds_are_shown(
    seconds: Double,
    n: u32,
    text: String,
    config: &NotificationConfig,
    tab: NotificationsTab,
    slid: &mut NotificationsTab,
    taken: bool,
)
    requires
        call_ensures(Double::scale_to_u32, (seconds, 1u32), n),
        call_ensures(whole_seconds_text, (seconds,), text),
        config.notify_accumulate_delay == seconds,
        call_ensures(NotificationsTab::new, (config,), tab),
        call_ensures(NotificationsTab::on_delay_changed, (slid, seconds), taken),
    ensures
        text@ == decimal(n as nat),
        crate::text::numeral_value(text@) == n,
        tab.delay.entry@ == text@,
        taken ==> final(slid).delay.entry@ == text@,
        !taken ==> final(slid).delay.entry@ == old(slid).delay.entry@,
{
    crate::text::decimal_reads_back(n as nat);
    assert(final(slid).delay@.entry == final(slid).delay.entry@);
    assert(old(slid).delay@.entry == old(slid).delay.entry@);
}

/// A time that is typed is taken as it is where the slider can show it, and else as the nearer end;
/// the entry then shows its whole seconds. Sounds are left alone.
pub proof fn a_typed_time_is_taken(
    tab: &mut NotificationsTab,
    typed: Double,
    taken: bool,
    text: String,
)
    requires
        old(tab).delay.upper == SIXTY,
        !old(tab).delay.updating,
        !typed.is_nan(),
        call_ensures(NotificationsTab::on_delay_committed, (tab, Some(typed)), taken),
        call_ensures(whole_seconds_text, (final(tab).delay.value,), text),
    ensures
        taken,
        0 <= typed.scaled() <= crate::double::whole(60) ==> final(tab).delay.value == typed,
        typed.scaled() < 0 ==> final(tab).delay.value.scaled() == 0,
        typed.scaled() > crate::double::whole(60) ==> final(tab).delay.value.scaled()
            == crate::double::whole(60),
        final(tab).delay.entry@ == text@,
        final(tab).enabled == old(tab).enabled,
        final(tab).ham_sound == old(tab).ham_sound,
        final(tab).unsure_sound == old(tab).unsure_sound,
        final(tab).spam_sound == old(tab).spam_sound,
{
    crate::double::constants_have_their_values();
    vstd::arithmetic::power2::lemma_pow2_pos(1074);
    assert(final(tab).delay@.value == final(tab).delay.value);
    assert(final(tab).delay@.entry == final(tab).delay.entry@);
}

} // verus!
