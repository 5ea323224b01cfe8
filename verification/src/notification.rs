//! Notification sounds: classified messages are gathered while a timer runs, and when it fires at
//! most one sound is played for all of them.

use vstd::prelude::*;

use crate::config::{Classification, NotificationConfig};
use crate::double::{scaled_by, Double, HALF, SIXTY};

verus! {

/// What the surrounding program is asked to do.
#[derive(Debug, Clone, PartialEq, Eq)]
pub enum NotificationCommand {
    /// Start the timer, or start it anew, with the given duration in milliseconds.
    StartAccumulateTimer(u32),
    /// Stop the timer.
    StopAccumulateTimer,
    /// Play the sound file with the given path.
    PlaySound(String),
}

/// The state of the notification sounds.
pub struct NotificationState {
    pub enabled: bool,
    pub ham_sound: Seq<char>,
    pub unsure_sound: Seq<char>,
    pub spam_sound: Seq<char>,
    pub delay_ms: u32,
    pub timer_active: bool,
    /// What was classified since the last notification.
    pub pending: Seq<Classification>,
}

impl NotificationState {
    /// The sound file for a classification; empty if none is configured.
    pub open spec fn sound_for(self, class: Classification) -> Seq<char> {
        match class {
            Classification::Ham => self.ham_sound,
            Classification::Unsure => self.unsure_sound,
            Classification::Spam => self.spam_sound,
        }
    }

    /// Whether a classification is pending and has a sound.
    pub open spec fn is_audible(self, class: Classification) -> bool {
        self.pending.contains(class) && self.sound_for(class).len() > 0
    }

    /// The sound to play for what is pending: that of the first audible classification in the
    /// order ham, unsure, spam.
    pub open spec fn sound_to_play(self) -> Option<Seq<char>> {
        if self.is_audible(Classification::Ham) {
            Some(self.ham_sound)
        } else if self.is_audible(Classification::Unsure) {
            Some(self.unsure_sound)
        } else if self.is_audible(Classification::Spam) {
            Some(self.spam_sound)
        } else {
            None
        }
    }

    /// The state after a message was classified.
    pub open spec fn recorded(self, class: Classification) -> NotificationState {
        if self.enabled {
            NotificationState { timer_active: true, pending: self.pending.push(class), ..self }
        } else {
            self
        }
    }

    /// The state after the timer fired.
    pub open spec fn fired(self) -> NotificationState {
        NotificationState { timer_active: false, pending: Seq::empty(), ..self }
    }
}

/// The state after a sequence of messages was classified.
pub open spec fn recorded_all(state: NotificationState, classes: Seq<Classification>) ->
    NotificationState
    decreases classes.len(),
{
    if classes.len() == 0 {
        state
    } else {
        recorded_all(state, classes.drop_last()).recorded(classes.last())
    }
}

/// A batch holds exactly the messages classified since the last notification, in their order, and
/// the timer runs from the first of them on.
pub proof fn batch_holds_what_was_classified(
    state: NotificationState,
    classes: Seq<Classification>,
)
    ensures
        state.enabled ==> recorded_all(state.fired(), classes) == (NotificationState {
            timer_active: classes.len() > 0,
            pending: classes,
            ..state
        }),
        !state.enabled ==> recorded_all(state, classes) == state,
    decreases classes.len(),
{
    if classes.len() > 0 {
        batch_holds_what_was_classified(state, classes.drop_last());
        assert(classes.drop_last().push(classes.last()) =~= classes);
    } else {
        assert(state.fired().pending =~= classes);
    }
}

/// When the timer fires, the batch is cleared: nothing is played a second time.
pub proof fn nothing_is_played_twice(state: NotificationState)
    ensures
        state.fired().sound_to_play() is None,
        state.fired().fired() == state.fired(),
{
}

/// Which sound is played depends only on which classifications occur in the batch, not on their
/// order or number.
pub proof fn order_and_number_do_not_matter(a: NotificationState, b: NotificationState)
    requires
        forall|class: Classification| a.pending.contains(class) == b.pending.contains(class),
        forall|class: Classification| a.sound_for(class) == b.sound_for(class),
    ensures
        a.sound_to_play() == b.sound_to_play(),
{
    assert(a.sound_for(Classification::Ham) == b.sound_for(Classification::Ham));
    assert(a.sound_for(Classification::Unsure) == b.sound_for(Classification::Unsure));
    assert(a.sound_for(Classification::Spam) == b.sound_for(Classification::Spam));
}

/// A sound is played exactly if some classification of the batch has one, and it is then the
/// sound of such a classification; none of higher priority in the batch has a sound.
pub proof fn highest_audible_priority_wins(state: NotificationState)
    ensures
        state.sound_to_play() is Some <==> exists|class: Classification| state.is_audible(class),
        state.is_audible(Classification::Ham) ==> state.sound_to_play() == Some(state.ham_sound),
        state.is_audible(Classification::Unsure) && !state.is_audible(Classification::Ham)
            ==> state.sound_to_play() == Some(state.unsure_sound),
        state.is_audible(Classification::Spam) && !state.is_audible(Classification::Ham)
            && !state.is_audible(Classification::Unsure) ==> state.sound_to_play() == Some(
            state.spam_sound,
        ),
{
}

/// The diagnostic about a delay outside the valid range, with the delay's text (two decimals).
pub open spec fn delay_diagnostic(delay_text: Seq<char>) -> Seq<char> {
    "Accumulate delay "@ + delay_text + "s is outside valid range (0.5-60.0s)"@
}

/// Whether a delay lies outside the valid range of half a second to a minute.
pub open spec fn delay_is_invalid(delay: Double) -> bool {
    delay.lt_spec(Double { bits: HALF }) || (Double { bits: SIXTY }).lt_spec(delay)
}

/// The notification sounds' state machine.
#[derive(Debug)]
pub struct NotificationManager {
    enabled: bool,
    ham_sound: String,
    unsure_sound: String,
    spam_sound: String,
    accumulate_delay_ms: u32,
    timer_active: bool,
    pending_classifications: Vec<Classification>,
    diagnostics: Vec<String>,
}

impl View for NotificationManager {
    type V = NotificationState;

    closed spec fn view(&self) -> NotificationState {
        NotificationState {
            enabled: self.enabled,
            ham_sound: self.ham_sound@,
            unsure_sound: self.unsure_sound@,
            spam_sound: self.spam_sound@,
            delay_ms: self.accumulate_delay_ms,
            timer_active: self.timer_active,
            pending: self.pending_classifications@,
        }
    }
}

/// Whether a list of classifications holds a given one.
fn holds(classes: &Vec<Classification>, class: Classification) -> (found: bool)
    ensures
        found == classes@.contains(class),
{
    let mut i: usize = 0;
    while i < classes.len()
        invariant
            i <= classes.len(),
            forall|j: int| 0 <= j < i ==> classes@[j] != class,
        decreases classes.len() - i,
    {
        if classes[i] == class {
            assert(classes@[i as int] == class);
            return true;
        }
        i = i + 1;
    }
    false
}

impl NotificationManager {
    /// The diagnostics gathered so far.
    pub closed spec fn reported(&self) -> Seq<String> {
        self.diagnostics@
    }

    /// A manager with the given settings. `delay_text` is the delay in seconds with two decimals.
    ///
    /// A delay outside the valid range is reported in the diagnostics and used all the same.
    pub fn new(config: &NotificationConfig, delay_text: &str) -> (manager: NotificationManager)
        ensures
            manager@ == (NotificationState {
                enabled: config.notify_sound_enabled,
                ham_sound: config.notify_ham_sound@,
                unsure_sound: config.notify_unsure_sound@,
                spam_sound: config.notify_spam_sound@,
                delay_ms: scaled_by(config.notify_accumulate_delay, 1000) as u32,
                timer_active: false,
                pending: Seq::empty(),
            }),
            delay_is_invalid(config.notify_accumulate_delay) ==> manager.reported().len() == 1
                && manager.reported()[0]@ == delay_diagnostic(delay_text@),
            !delay_is_invalid(config.notify_accumulate_delay) ==> manager.reported().len() == 0,
    {
        let mut diagnostics: Vec<String> = Vec::new();
        let delay = config.notify_accumulate_delay;
        let shortest = Double { bits: HALF };
        let longest = Double { bits: SIXTY };
        if delay.lt(shortest) || longest.lt(delay) {
            let mut line = "Accumulate delay ".to_owned();
            line.append(delay_text);
            line.append("s is outside valid range (0.5-60.0s)");
            diagnostics.push(line);
        }
        NotificationManager {
            enabled: config.notify_sound_enabled,
            ham_sound: config.notify_ham_sound.clone(),
            unsure_sound: config.notify_unsure_sound.clone(),
            spam_sound: config.notify_spam_sound.clone(),
            accumulate_delay_ms: delay.scale_to_u32(1000),
            timer_active: false,
            pending_classifications: Vec::new(),
            diagnostics,
        }
    }

    /// Adds a classified message to the batch and starts the timer, or starts it anew. Does
    /// nothing while notifications are off.
    pub fn record_classification(&mut self, classification: Classification) -> (commands: Vec<
        NotificationCommand,
    >)
        ensures
            final(self)@ == old(self)@.recorded(classification),
            final(self).reported() == old(self).reported(),
            commands@ == (if old(self)@.enabled {
                seq![NotificationCommand::StartAccumulateTimer(old(self)@.delay_ms)]
            } else {
                Seq::empty()
            }),
    {
        if !self.enabled {
            return Vec::new();
        }
        self.pending_classifications.push(classification);
        self.restart_accumulate_timer()
    }

    /// Starts the timer, or starts it anew.
    pub fn restart_accumulate_timer(&mut self) -> (commands: Vec<NotificationCommand>)
        ensures
            final(self)@ == (NotificationState { timer_active: true, ..old(self)@ }),
            final(self).reported() == old(self).reported(),
            commands@ == seq![NotificationCommand::StartAccumulateTimer(old(self)@.delay_ms)],
    {
        self.timer_active = true;
        let mut commands: Vec<NotificationCommand> = Vec::new();
        commands.push(NotificationCommand::StartAccumulateTimer(self.accumulate_delay_ms));
        commands
    }

    /// Handles the timer's firing: clears the batch and plays its sound, if it has one.
    pub fn on_accumulate_timer_fire(&mut self) -> (commands: Vec<NotificationCommand>)
        ensures
            final(self)@ == old(self)@.fired(),
            final(self).reported() == old(self).reported(),
            match old(self)@.sound_to_play() {
                Some(sound) => commands@.len() == 1 && (
                commands@[0] matches NotificationCommand::PlaySound(path) && path@ == sound),
                None => commands@.len() == 0,
            },
    {
        self.timer_active = false;
        let ghost before = old(self)@;
        if self.pending_classifications.len() == 0 {
            assert(self@.pending =~= Seq::empty());
            return Vec::new();
        }
        let has_ham = holds(&self.pending_classifications, Classification::Ham);
        let has_unsure = holds(&self.pending_classifications, Classification::Unsure);
        let has_spam = holds(&self.pending_classifications, Classification::Spam);
        self.pending_classifications.clear();
        let mut commands: Vec<NotificationCommand> = Vec::new();
        if let Some(path) = self.select_sound(has_ham, has_unsure, has_spam) {
            commands.push(NotificationCommand::PlaySound(path));
        }
        commands
    }

    /// The first configured sound among those of the given classifications, in the order ham,
    /// unsure, spam.
    pub fn select_sound(&self, has_ham: bool, has_unsure: bool, has_spam: bool) -> (sound: Option<
        String,
    >)
        ensures
            match sound {
                Some(path) => if has_ham && self@.ham_sound.len() > 0 {
                    path@ == self@.ham_sound
                } else if has_unsure && self@.unsure_sound.len() > 0 {
                    path@ == self@.unsure_sound
                } else {
                    has_spam && self@.spam_sound.len() > 0 && path@ == self@.spam_sound
                },
                None => !(has_ham && self@.ham_sound.len() > 0) && !(has_unsure
                    && self@.unsure_sound.len() > 0) && !(has_spam && self@.spam_sound.len() > 0),
            },
    {
        if has_ham && !self.ham_sound.as_str().is_empty() {
            return Some(self.ham_sound.clone());
        }
        if has_unsure && !self.unsure_sound.as_str().is_empty() {
            return Some(self.unsure_sound.clone());
        }
        if has_spam && !self.spam_sound.as_str().is_empty() {
            return Some(self.spam_sound.clone());
        }
        None
    }

    /// Whether notifications are on.
    pub fn is_enabled(&self) -> (enabled: bool)
        ensures
            enabled == self@.enabled,
    {
        self.enabled
    }

    /// Whether the timer runs.
    pub fn is_timer_active(&self) -> (active: bool)
        ensures
            active == self@.timer_active,
    {
        self.timer_active
    }

    /// The number of messages in the batch.
    pub fn pending_count(&self) -> (count: usize)
        ensures
            count == self@.pending.len(),
    {
        self.pending_classifications.len()
    }

    /// The diagnostics.
    pub fn diagnostics(&self) -> (lines: &[String])
        ensures
            lines@ == self.reported(),
    {
        self.diagnostics.as_slice()
    }

    /// The delay in milliseconds.
    pub fn accumulate_delay_ms(&self) -> (ms: u32)
        ensures
            ms == self@.delay_ms,
    {
        self.accumulate_delay_ms
    }
}

/// When the timer fires, the sound of good messages is played if there is one among them and it has
/// a sound; else that of unsure ones, and else that of spam. At most one sound is played, the batch
/// is empty then, and the timer does not run.
pub proof fn one_sound_is_played_for_a_batch(
    manager: &mut NotificationManager,
    commands: Vec<NotificationCommand>,
)
    requires
        call_ensures(NotificationManager::on_accumulate_timer_fire, (manager,), commands),
    ensures
        ({
            let before = old(manager)@;
            let ham = before.pending.contains(Classification::Ham) && before.ham_sound.len() > 0;
            let unsure = before.pending.contains(Classification::Unsure)
                && before.unsure_sound.len() > 0;
            let spam = before.pending.contains(Classification::Spam) && before.spam_sound.len()
                > 0;
            &&& commands@.len() == (if ham || unsure || spam {
                1int
            } else {
                0
            })
            &&& ham ==> (commands@[0] matches NotificationCommand::PlaySound(path) && path@
                == before.ham_sound)
            &&& !ham && unsure ==> (commands@[0] matches NotificationCommand::PlaySound(path)
                && path@ == before.unsure_sound)
            &&& !ham && !unsure && spam ==> (commands@[0] matches NotificationCommand::PlaySound(
                path,
            ) && path@ == before.spam_sound)
        }),
        final(manager)@.pending.len() == 0,
        !final(manager)@.timer_active,
        final(manager)@.enabled == old(manager)@.enabled,
        final(manager)@.ham_sound == old(manager)@.ham_sound,
        final(manager)@.unsure_sound == old(manager)@.unsure_sound,
        final(manager)@.spam_sound == old(manager)@.spam_sound,
        final(manager)@.delay_ms == old(manager)@.delay_ms,
{
}

/// While notifications are on, each classified message joins the batch at its end and starts the
/// timer anew with the delay; while they are off, it does nothing at all. No sound is played before
/// the timer fires.
pub proof fn classified_messages_join_the_batch(
    manager: &mut NotificationManager,
    class: Classification,
    commands: Vec<NotificationCommand>,
)
    requires
        call_ensures(NotificationManager::record_classification, (manager, class), commands),
    ensures
        old(manager)@.enabled ==> {
            &&& final(manager)@.pending == old(manager)@.pending.push(class)
            &&& final(manager)@.timer_active
            &&& commands@.len() == 1
            &&& commands@[0] == NotificationCommand::StartAccumulateTimer(old(manager)@.delay_ms)
        },
        !old(manager)@.enabled ==> {
            &&& final(manager)@ == old(manager)@
            &&& commands@.len() == 0
        },
        final(manager)@.enabled == old(manager)@.enabled,
        final(manager)@.ham_sound == old(manager)@.ham_sound,
        final(manager)@.unsure_sound == old(manager)@.unsure_sound,
        final(manager)@.spam_sound == old(manager)@.spam_sound,
        final(manager)@.delay_ms == old(manager)@.delay_ms,
{
}

/// Starting the timer anew leaves the batch as it is.
pub proof fn restarting_keeps_the_batch(
    manager: &mut NotificationManager,
    commands: Vec<NotificationCommand>,
)
    requires
        call_ensures(NotificationManager::restart_accumulate_timer, (manager,), commands),
    ensures
        final(manager)@.pending == old(manager)@.pending,
        final(manager)@.timer_active,
        commands@.len() == 1,
        commands@[0] == NotificationCommand::StartAccumulateTimer(old(manager)@.delay_ms),
{
}

/// A new manager takes each sound from its own setting, has nothing pending and no timer running. A
/// delay is reported exactly if it is a number below half a second or above a minute.
pub proof fn a_new_manager_takes_the_settings(
    config: &NotificationConfig,
    delay_text: &str,
    manager: NotificationManager,
    lines: &[String],
)
    requires
        call_ensures(NotificationManager::new, (config, delay_text), manager),
        call_ensures(NotificationManager::diagnostics, (&manager,), lines),
    ensures
        manager@.enabled == config.notify_sound_enabled,
        manager@.ham_sound == config.notify_ham_sound@,
        manager@.unsure_sound == config.notify_unsure_sound@,
        manager@.spam_sound == config.notify_spam_sound@,
        manager@.pending.len() == 0,
        !manager@.timer_active,
        ({
            let delay = config.notify_accumulate_delay;
            &&& delay.is_nan() ==> lines@.len() == 0
            &&& !delay.is_nan() && delay.scaled() > crate::double::whole(60) ==> lines@.len() == 1
            &&& !delay.is_nan() && 2 * delay.scaled() < crate::double::whole(1) ==> lines@.len()
                == 1
            &&& !delay.is_nan() && crate::double::whole(1) <= 2 * delay.scaled() && delay.scaled()
                <= crate::double::whole(60) ==> lines@.len() == 0
            &&& lines@.len() == 1 ==> lines@[0]@ == "Accumulate delay "@ + delay_text@
                + "s is outside valid range (0.5-60.0s)"@
        }),
{
    crate::double::constants_have_their_values();
}

/// What is asked of a manager is what it holds.
pub proof fn a_manager_tells_what_it_holds(
    manager: &NotificationManager,
    enabled: bool,
    active: bool,
    count: usize,
    ms: u32,
)
    requires
        call_ensures(NotificationManager::is_enabled, (manager,), enabled),
        call_ensures(NotificationManager::is_timer_active, (manager,), active),
        call_ensures(NotificationManager::pending_count, (manager,), count),
        call_ensures(NotificationManager::accumulate_delay_ms, (manager,), ms),
    ensures
        enabled == manager@.enabled,
        active == manager@.timer_active,
        count == manager@.pending.len(),
        ms == manager@.delay_ms,
{
}

/// Of the kinds that are there, the first with a sound gives it, in the order good, unsure, spam; a
/// kind that is not there gives none.
pub proof fn the_first_kind_with_a_sound_gives_it(
    manager: &NotificationManager,
    has_ham: bool,
    has_unsure: bool,
    has_spam: bool,
    sound: Option<String>,
)
    requires
        call_ensures(
            NotificationManager::select_sound,
            (manager, has_ham, has_unsure, has_spam),
            sound,
        ),
    ensures
        has_ham && manager@.ham_sound.len() > 0 ==> sound is Some && sound->0@
            == manager@.ham_sound,
        !(has_ham && manager@.ham_sound.len() > 0) && has_unsure && manager@.unsure_sound.len() > 0
            ==> sound is Some && sound->0@ == manager@.unsure_sound,
        !(has_ham && manager@.ham_sound.len() > 0) && !(has_unsure && manager@.unsure_sound.len()
            > 0) && has_spam && manager@.spam_sound.len() > 0 ==> sound is Some && sound->0@
            == manager@.spam_sound,
        !has_ham && !has_unsure && !has_spam ==> sound is None,
        sound is Some ==> sound->0@.len() > 0,
{
}

/// The delay is that of the settings in milliseconds, and what was reported about it stays,
/// whatever happens later.
pub proof fn the_delay_is_kept_in_milliseconds(
    config: &NotificationConfig,
    delay_text: &str,
    manager: NotificationManager,
    ms: u32,
    recording: &mut NotificationManager,
    class: Classification,
    commands: Vec<NotificationCommand>,
    fired: &mut NotificationManager,
    played: Vec<NotificationCommand>,
)
    requires
        call_ensures(NotificationManager::new, (config, delay_text), manager),
        call_ensures(Double::scale_to_u32, (config.notify_accumulate_delay, 1000u32), ms),
        call_ensures(NotificationManager::record_classification, (recording, class), commands),
        call_ensures(NotificationManager::on_accumulate_timer_fire, (fired,), played),
    ensures
        manager@.delay_ms == ms,
        final(recording).reported() == old(recording).reported(),
        final(fired).reported() == old(fired).reported(),
{
}

/// There is a sound exactly if one of the kinds that are there has one.
pub proof fn a_kind_without_a_sound_gives_none(
    manager: &NotificationManager,
    has_ham: bool,
    has_unsure: bool,
    has_spam: bool,
    sound: Option<String>,
)
    requires
        call_ensures(
            NotificationManager::select_sound,
            (manager, has_ham, has_unsure, has_spam),
            sound,
        ),
    ensures
        sound is Some <==> (has_ham && manager@.ham_sound.len() > 0) || (has_unsure
            && manager@.unsure_sound.len() > 0) || (has_spam && manager@.spam_sound.len() > 0),
{
}

} // verus!
