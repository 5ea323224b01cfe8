//! Session and lifetime counters, when they are saved, and how a save is retried.

use vstd::prelude::*;

use crate::config::Classification;

verus! {

/// Counters of the current Outlook session.
#[derive(Debug, Clone, Copy, PartialEq, Eq, Structural)]
pub struct SessionStats {
    pub ham_classified: u32,
    pub unsure_classified: u32,
    pub spam_classified: u32,
    pub ham_trained: u32,
    pub spam_trained: u32,
    /// Messages of which the user said that their classification was right.
    pub correctly_classified: u32,
    /// Messages classified as ham or unsure of which the user said that they are spam.
    pub false_negatives: u32,
    /// Messages classified as spam or unsure of which the user said that they are ham.
    pub false_positives: u32,
}

/// Session counters that are all zero.
pub open spec fn zero_session() -> SessionStats {
    SessionStats {
        ham_classified: 0,
        unsure_classified: 0,
        spam_classified: 0,
        ham_trained: 0,
        spam_trained: 0,
        correctly_classified: 0,
        false_negatives: 0,
        false_positives: 0,
    }
}

impl Default for SessionStats {
    fn default() -> (stats: Self)
        ensures
            stats == zero_session(),
    {
        SessionStats {
            ham_classified: 0,
            unsure_classified: 0,
            spam_classified: 0,
            ham_trained: 0,
            spam_trained: 0,
            correctly_classified: 0,
            false_negatives: 0,
            false_positives: 0,
        }
    }
}

/// Counters over all sessions, which are kept in a file.
#[derive(Debug, Clone, Copy, PartialEq, Eq, Structural)]
pub struct LifetimeStats {
    pub total_ham_trained: u64,
    pub total_spam_trained: u64,
    pub total_ham_classified: u64,
    pub total_unsure_classified: u64,
    pub total_spam_classified: u64,
    pub correctly_classified: u64,
    pub false_negatives: u64,
    pub false_positives: u64,
}

/// Lifetime counters that are all zero.
pub open spec fn zero_lifetime() -> LifetimeStats {
    LifetimeStats {
        total_ham_trained: 0,
        total_spam_trained: 0,
        total_ham_classified: 0,
        total_unsure_classified: 0,
        total_spam_classified: 0,
        correctly_classified: 0,
        false_negatives: 0,
        false_positives: 0,
    }
}

impl Default for LifetimeStats {
    fn default() -> (stats: Self)
        ensures
            stats == zero_lifetime(),
    {
        LifetimeStats {
            total_ham_trained: 0,
            total_spam_trained: 0,
            total_ham_classified: 0,
            total_unsure_classified: 0,
            total_spam_classified: 0,
            correctly_classified: 0,
            false_negatives: 0,
            false_positives: 0,
        }
    }
}

/// What the statistics file holds.
#[derive(Debug, Clone, Copy, PartialEq, Eq, Structural)]
pub struct StatsFile {
    /// The version of the file's format.
    pub version: u32,
    pub lifetime: LifetimeStats,
}

impl Default for StatsFile {
    fn default() -> (file: Self)
        ensures
            file == (StatsFile { version: 1, lifetime: zero_lifetime() }),
    {
        StatsFile { version: 1, lifetime: LifetimeStats::default() }
    }
}

/// What a user's judgement says about a classification.
#[derive(Debug, Clone, Copy, PartialEq, Eq, Structural)]
pub enum Verdict {
    Correct,
    FalseNegative,
    FalsePositive,
}

/// The verdict on a classification: correct if it agrees with the user, else a false negative if
/// the message is spam and a false positive if it is not.
pub open spec fn verdict(original: Classification, user_says_spam: bool) -> Verdict {
    if user_says_spam {
        if original == Classification::Spam {
            Verdict::Correct
        } else {
            Verdict::FalseNegative
        }
    } else {
        if original == Classification::Ham {
            Verdict::Correct
        } else {
            Verdict::FalsePositive
        }
    }
}

/// The counters, and how many changes have not been saved.
#[derive(Debug, Clone, Copy, PartialEq, Eq, Structural)]
pub struct StatisticsState {
    pub session: SessionStats,
    pub lifetime: LifetimeStats,
    pub dirty_count: u32,
    pub save_interval: u32,
}

impl StatisticsState {
    /// No counter that a classification touches is at its limit.
    pub open spec fn can_classify(self, class: Classification) -> bool {
        &&& self.dirty_count < u32::MAX
        &&& match class {
            Classification::Ham => self.session.ham_classified < u32::MAX
                && self.lifetime.total_ham_classified < u64::MAX,
            Classification::Unsure => self.session.unsure_classified < u32::MAX
                && self.lifetime.total_unsure_classified < u64::MAX,
            Classification::Spam => self.session.spam_classified < u32::MAX
                && self.lifetime.total_spam_classified < u64::MAX,
        }
    }

    /// The state after a message was classified.
    pub open spec fn classified(self, class: Classification) -> StatisticsState {
        let dirty_count = (self.dirty_count + 1) as u32;
        match class {
            Classification::Ham => StatisticsState {
                session: SessionStats {
                    ham_classified: (self.session.ham_classified + 1) as u32,
                    ..self.session
                },
                lifetime: LifetimeStats {
                    total_ham_classified: (self.lifetime.total_ham_classified + 1) as u64,
                    ..self.lifetime
                },
                dirty_count,
                ..self
            },
            Classification::Unsure => StatisticsState {
                session: SessionStats {
                    unsure_classified: (self.session.unsure_classified + 1) as u32,
                    ..self.session
                },
                lifetime: LifetimeStats {
                    total_unsure_classified: (self.lifetime.total_unsure_classified + 1) as u64,
                    ..self.lifetime
                },
                dirty_count,
                ..self
            },
            Classification::Spam => StatisticsState {
                session: SessionStats {
                    spam_classified: (self.session.spam_classified + 1) as u32,
                    ..self.session
                },
                lifetime: LifetimeStats {
                    total_spam_classified: (self.lifetime.total_spam_classified + 1) as u64,
                    ..self.lifetime
                },
                dirty_count,
                ..self
            },
        }
    }

    /// No counter that training touches is at its limit.
    pub open spec fn can_train(self, is_spam: bool) -> bool {
        if is_spam {
            self.session.spam_trained < u32::MAX && self.lifetime.total_spam_trained < u64::MAX
        } else {
            self.session.ham_trained < u32::MAX && self.lifetime.total_ham_trained < u64::MAX
        }
    }

    /// The state after a message was trained.
    pub open spec fn trained(self, is_spam: bool) -> StatisticsState {
        if is_spam {
            StatisticsState {
                session: SessionStats {
                    spam_trained: (self.session.spam_trained + 1) as u32,
                    ..self.session
                },
                lifetime: LifetimeStats {
                    total_spam_trained: (self.lifetime.total_spam_trained + 1) as u64,
                    ..self.lifetime
                },
                ..self
            }
        } else {
            StatisticsState {
                session: SessionStats {
                    ham_trained: (self.session.ham_trained + 1) as u32,
                    ..self.session
                },
                lifetime: LifetimeStats {
                    total_ham_trained: (self.lifetime.total_ham_trained + 1) as u64,
                    ..self.lifetime
                },
                ..self
            }
        }
    }

    /// The state after a message's training was taken back: the lifetime counter goes down by one,
    /// but not below zero.
    pub open spec fn untrained(self, was_spam: bool) -> StatisticsState {
        let less_one = |n: u64| (if n == 0 {
            0
        } else {
            n - 1
        }) as u64;
        if was_spam {
            StatisticsState {
                lifetime: LifetimeStats {
                    total_spam_trained: less_one(self.lifetime.total_spam_trained),
                    ..self.lifetime
                },
                ..self
            }
        } else {
            StatisticsState {
                lifetime: LifetimeStats {
                    total_ham_trained: less_one(self.lifetime.total_ham_trained),
                    ..self.lifetime
                },
                ..self
            }
        }
    }

    /// No counter that a correction touches is at its limit.
    pub open spec fn can_correct(self, verdict: Verdict) -> bool {
        &&& self.dirty_count < u32::MAX
        &&& match verdict {
            Verdict::Correct => self.session.correctly_classified < u32::MAX
                && self.lifetime.correctly_classified < u64::MAX,
            Verdict::FalseNegative => self.session.false_negatives < u32::MAX
                && self.lifetime.false_negatives < u64::MAX,
            Verdict::FalsePositive => self.session.false_positives < u32::MAX
                && self.lifetime.false_positives < u64::MAX,
        }
    }

    /// The state after the user judged a classification.
    pub open spec fn corrected(self, verdict: Verdict) -> StatisticsState {
        let dirty_count = (self.dirty_count + 1) as u32;
        match verdict {
            Verdict::Correct => StatisticsState {
                session: SessionStats {
                    correctly_classified: (self.session.correctly_classified + 1) as u32,
                    ..self.session
                },
                lifetime: LifetimeStats {
                    correctly_classified: (self.lifetime.correctly_classified + 1) as u64,
                    ..self.lifetime
                },
                dirty_count,
                ..self
            },
            Verdict::FalseNegative => StatisticsState {
                session: SessionStats {
                    false_negatives: (self.session.false_negatives + 1) as u32,
                    ..self.session
                },
                lifetime: LifetimeStats {
                    false_negatives: (self.lifetime.false_negatives + 1) as u64,
                    ..self.lifetime
                },
                dirty_count,
                ..self
            },
            Verdict::FalsePositive => StatisticsState {
                session: SessionStats {
                    false_positives: (self.session.false_positives + 1) as u32,
                    ..self.session
                },
                lifetime: LifetimeStats {
                    false_positives: (self.lifetime.false_positives + 1) as u64,
                    ..self.lifetime
                },
                dirty_count,
                ..self
            },
        }
    }

    /// The state after a save was tried.
    pub open spec fn saved(self, success: bool) -> StatisticsState {
        if success {
            StatisticsState { dirty_count: 0, ..self }
        } else {
            self
        }
    }

    /// Whether enough has changed for a save.
    pub open spec fn save_is_due(self) -> bool {
        self.dirty_count >= self.save_interval
    }

    /// The file that a save writes.
    pub open spec fn file(self) -> StatsFile {
        StatsFile { version: 1, lifetime: self.lifetime }
    }

    /// The state at the start, from the statistics file where there is one.
    pub open spec fn loaded(stored: Option<StatsFile>, save_interval: u32) -> StatisticsState {
        StatisticsState {
            session: zero_session(),
            lifetime: match stored {
                Some(file) => file.lifetime,
                None => zero_lifetime(),
            },
            dirty_count: 0,
            save_interval,
        }
    }

    /// How much each lifetime counter is ahead of the session's counter of the same events.
    pub open spec fn carried_over(self) -> (int, int, int, int, int, int, int, int) {
        (
            self.lifetime.total_ham_classified - self.session.ham_classified,
            self.lifetime.total_unsure_classified - self.session.unsure_classified,
            self.lifetime.total_spam_classified - self.session.spam_classified,
            self.lifetime.total_ham_trained - self.session.ham_trained,
            self.lifetime.total_spam_trained - self.session.spam_trained,
            self.lifetime.correctly_classified - self.session.correctly_classified,
            self.lifetime.false_negatives - self.session.false_negatives,
            self.lifetime.false_positives - self.session.false_positives,
        )
    }

    /// The state after the given numbers of messages were classified.
    pub open spec fn plus(self, ham: nat, unsure: nat, spam: nat) -> StatisticsState {
        StatisticsState {
            session: SessionStats {
                ham_classified: (self.session.ham_classified + ham) as u32,
                unsure_classified: (self.session.unsure_classified + unsure) as u32,
                spam_classified: (self.session.spam_classified + spam) as u32,
                ..self.session
            },
            lifetime: LifetimeStats {
                total_ham_classified: (self.lifetime.total_ham_classified + ham) as u64,
                total_unsure_classified: (self.lifetime.total_unsure_classified + unsure) as u64,
                total_spam_classified: (self.lifetime.total_spam_classified + spam) as u64,
                ..self.lifetime
            },
            dirty_count: (self.dirty_count + ham + unsure + spam) as u32,
            ..self
        }
    }
}

/// How often a classification occurs in a sequence.
pub open spec fn occurrences(classes: Seq<Classification>, class: Classification) -> nat
    decreases classes.len(),
{
    if classes.len() == 0 {
        0
    } else {
        occurrences(classes.drop_last(), class) + (if classes.last() == class {
            1nat
        } else {
            0nat
        })
    }
}

/// The state after a sequence of messages was classified, with no save in between.
pub open spec fn classified_all(state: StatisticsState, classes: Seq<Classification>) ->
    StatisticsState
    decreases classes.len(),
{
    if classes.len() == 0 {
        state
    } else {
        classified_all(state, classes.drop_last()).classified(classes.last())
    }
}

proof fn lemma_occurrences_bounded(classes: Seq<Classification>)
    ensures
        occurrences(classes, Classification::Ham) + occurrences(classes, Classification::Unsure)
            + occurrences(classes, Classification::Spam) == classes.len(),
    decreases classes.len(),
{
    if classes.len() > 0 {
        lemma_occurrences_bounded(classes.drop_last());
    }
}

/// Each counter grows by exactly the number of classifications of its kind, in whatever order the
/// messages come.
pub proof fn counters_count(state: StatisticsState, classes: Seq<Classification>)
    requires
        state.session.ham_classified + classes.len() <= u32::MAX,
        state.session.unsure_classified + classes.len() <= u32::MAX,
        state.session.spam_classified + classes.len() <= u32::MAX,
        state.lifetime.total_ham_classified + classes.len() <= u64::MAX,
        state.lifetime.total_unsure_classified + classes.len() <= u64::MAX,
        state.lifetime.total_spam_classified + classes.len() <= u64::MAX,
        state.dirty_count + classes.len() <= u32::MAX,
    ensures
        classified_all(state, classes) == state.plus(
            occurrences(classes, Classification::Ham),
            occurrences(classes, Classification::Unsure),
            occurrences(classes, Classification::Spam),
        ),
    decreases classes.len(),
{
    lemma_occurrences_bounded(classes);
    if classes.len() > 0 {
        counters_count(state, classes.drop_last());
        lemma_occurrences_bounded(classes.drop_last());
    }
}

/// What a session counts is also counted over the lifetime: no event of classifying, training or
/// correcting changes how far the lifetime counters are ahead.
pub proof fn session_and_lifetime_grow_alike(
    state: StatisticsState,
    class: Classification,
    is_spam: bool,
    verdict: Verdict,
)
    ensures
        state.can_classify(class) ==> state.classified(class).carried_over()
            == state.carried_over(),
        state.can_train(is_spam) ==> state.trained(is_spam).carried_over() == state.carried_over(),
        state.can_correct(verdict) ==> state.corrected(verdict).carried_over()
            == state.carried_over(),
{
}

/// Taking a training back undoes what the training did to the lifetime counters, wherever another
/// training can be counted. It never touches the session's counters, and leaves a lifetime counter
/// that is at zero there.
pub proof fn untraining_undoes_training(state: StatisticsState, is_spam: bool)
    ensures
        state.can_train(is_spam) ==> state.trained(is_spam).untrained(is_spam).lifetime
            == state.lifetime,
        state.untrained(is_spam).session == state.session,
        state.lifetime.total_spam_trained == 0 ==> state.untrained(true) == state,
        state.lifetime.total_ham_trained == 0 ==> state.untrained(false) == state,
{
}

/// What was counted over the lifetime survives a restart: a manager that starts from what was saved
/// has the same lifetime counters, and a session of its own.
pub proof fn counters_survive_a_restart(state: StatisticsState, save_interval: u32)
    ensures
        StatisticsState::loaded(Some(state.file()), save_interval).lifetime == state.lifetime,
        StatisticsState::loaded(Some(state.file()), save_interval).session == zero_session(),
        StatisticsState::loaded(Some(state.file()), save_interval).file() == state.file(),
{
}

/// As long as saves succeed, fewer changes than the save interval are ever left unsaved.
pub proof fn few_changes_are_unsaved(
    state: StatisticsState,
    class: Classification,
    verdict: Verdict,
)
    requires
        state.dirty_count < state.save_interval,
    ensures
        ({
            let next = state.classified(class);
            let next = next.saved(next.save_is_due());
            next.dirty_count < next.save_interval
        }),
        ({
            let next = state.corrected(verdict);
            let next = next.saved(next.save_is_due());
            next.dirty_count < next.save_interval
        }),
{
}

/// The counters and their unsaved changes.
///
/// A method that finds a save due hands back what the statistics file shall hold; the surrounding
/// program writes it and reports the outcome with [`StatisticsManager::save_finished`].
#[derive(Debug, Clone, Copy)]
pub struct StatisticsManager {
    state: StatisticsState,
}

impl View for StatisticsManager {
    type V = StatisticsState;

    closed spec fn view(&self) -> StatisticsState {
        self.state
    }
}

impl StatisticsManager {
    /// The lifetime counters to start with, and whether a file held them: those of the file that
    /// was read, or zeros if there was none that could be read.
    pub fn load_from_file(stored: Option<StatsFile>) -> (loaded: (LifetimeStats, bool))
        ensures
            loaded == (match stored {
                Some(file) => (file.lifetime, true),
                None => (zero_lifetime(), false),
            }),
    {
        match stored {
            Some(file) => (file.lifetime, true),
            None => (LifetimeStats::default(), false),
        }
    }

    /// A manager that starts from the statistics file, where one could be read, and else what the
    /// file shall hold from now on. The session's counters start at zero.
    pub fn new(stored: Option<StatsFile>, save_interval: u32) -> (created: (
        StatisticsManager,
        Option<StatsFile>,
    ))
        ensures
            created.0@ == StatisticsState::loaded(stored, save_interval),
            created.1 == (match stored {
                Some(_) => None,
                None => Some(StatsFile { version: 1, lifetime: zero_lifetime() }),
            }),
    {
        let (lifetime, file_existed) = Self::load_from_file(stored);
        let manager = StatisticsManager {
            state: StatisticsState {
                session: SessionStats::default(),
                lifetime,
                dirty_count: 0,
                save_interval,
            },
        };
        let to_save = if file_existed {
            None
        } else {
            Some(manager.file())
        };
        (manager, to_save)
    }

    /// What the statistics file shall hold.
    fn file(&self) -> (file: StatsFile)
        ensures
            file == self@.file(),
    {
        StatsFile { version: 1, lifetime: self.state.lifetime }
    }

    /// What to save now, if a save is due.
    fn due_save(&self) -> (to_save: Option<StatsFile>)
        ensures
            to_save == (if self@.save_is_due() {
                Some(self@.file())
            } else {
                None
            }),
    {
        if self.state.dirty_count >= self.state.save_interval {
            Some(self.file())
        } else {
            None
        }
    }

    /// Whether another message of the given kind can be counted: whether no counter that it touches
    /// is at its limit.
    pub fn can_classify(&self, classification: Classification) -> (can: bool)
        ensures
            can == self@.can_classify(classification),
    {
        let session = self.state.session;
        let lifetime = self.state.lifetime;
        self.state.dirty_count < u32::MAX && match classification {
            Classification::Ham => session.ham_classified < u32::MAX
                && lifetime.total_ham_classified < u64::MAX,
            Classification::Unsure => session.unsure_classified < u32::MAX
                && lifetime.total_unsure_classified < u64::MAX,
            Classification::Spam => session.spam_classified < u32::MAX
                && lifetime.total_spam_classified < u64::MAX,
        }
    }

    /// Whether another trained message can be counted.
    pub fn can_train(&self, is_spam: bool) -> (can: bool)
        ensures
            can == self@.can_train(is_spam),
    {
        let session = self.state.session;
        let lifetime = self.state.lifetime;
        if is_spam {
            session.spam_trained < u32::MAX && lifetime.total_spam_trained < u64::MAX
        } else {
            session.ham_trained < u32::MAX && lifetime.total_ham_trained < u64::MAX
        }
    }

    /// Whether another judgement of the user can be counted.
    pub fn can_correct(&self, original_classification: Classification, user_says_spam: bool) -> (can:
        bool)
        ensures
            can == self@.can_correct(verdict(original_classification, user_says_spam)),
    {
        let session = self.state.session;
        let lifetime = self.state.lifetime;
        self.state.dirty_count < u32::MAX && match (original_classification, user_says_spam) {
            (Classification::Spam, true) | (Classification::Ham, false) => {
                session.correctly_classified < u32::MAX && lifetime.correctly_classified < u64::MAX
            },
            (Classification::Ham, true) | (Classification::Unsure, true) => {
                session.false_negatives < u32::MAX && lifetime.false_negatives < u64::MAX
            },
            (Classification::Spam, false) | (Classification::Unsure, false) => {
                session.false_positives < u32::MAX && lifetime.false_positives < u64::MAX
            },
        }
    }

    /// Counts a classified message.
    pub fn on_classified(&mut self, classification: Classification) -> (to_save: Option<StatsFile>)
        requires
            old(self)@.can_classify(classification),
        ensures
            final(self)@ == old(self)@.classified(classification),
            to_save == (if final(self)@.save_is_due() {
                Some(final(self)@.file())
            } else {
                None
            }),
    {
        match classification {
            Classification::Ham => {
                self.state.session.ham_classified = self.state.session.ham_classified + 1;
                self.state.lifetime.total_ham_classified =
                self.state.lifetime.total_ham_classified + 1;
            },
            Classification::Spam => {
                self.state.session.spam_classified = self.state.session.spam_classified + 1;
                self.state.lifetime.total_spam_classified =
                self.state.lifetime.total_spam_classified + 1;
            },
            Classification::Unsure => {
                self.state.session.unsure_classified = self.state.session.unsure_classified + 1;
                self.state.lifetime.total_unsure_classified =
                self.state.lifetime.total_unsure_classified + 1;
            },
        }
        self.state.dirty_count = self.state.dirty_count + 1;
        self.due_save()
    }

    /// Counts a trained message.
    pub fn on_trained(&mut self, is_spam: bool)
        requires
            old(self)@.can_train(is_spam),
        ensures
            final(self)@ == old(self)@.trained(is_spam),
    {
        if is_spam {
            self.state.session.spam_trained = self.state.session.spam_trained + 1;
            self.state.lifetime.total_spam_trained = self.state.lifetime.total_spam_trained + 1;
        } else {
            self.state.session.ham_trained = self.state.session.ham_trained + 1;
            self.state.lifetime.total_ham_trained = self.state.lifetime.total_ham_trained + 1;
        }
    }

    /// Counts a training that was taken back.
    pub fn on_untrained(&mut self, was_spam: bool)
        ensures
            final(self)@ == old(self)@.untrained(was_spam),
    {
        if was_spam {
            self.state.lifetime.total_spam_trained =
            self.state.lifetime.total_spam_trained.saturating_sub(1);
        } else {
            self.state.lifetime.total_ham_trained =
            self.state.lifetime.total_ham_trained.saturating_sub(1);
        }
    }

    /// Counts a user's judgement of a classification.
    pub fn on_correction(
        &mut self,
        original_classification: Classification,
        user_says_spam: bool,
    ) -> (to_save: Option<StatsFile>)
        requires
            old(self)@.can_correct(verdict(original_classification, user_says_spam)),
        ensures
            final(self)@ == old(self)@.corrected(verdict(original_classification, user_says_spam)),
            to_save == (if final(self)@.save_is_due() {
                Some(final(self)@.file())
            } else {
                None
            }),
    {
        match (original_classification, user_says_spam) {
            (Classification::Spam, true) | (Classification::Ham, false) => {
                self.state.session.correctly_classified =
                self.state.session.correctly_classified + 1;
                self.state.lifetime.correctly_classified =
                self.state.lifetime.correctly_classified + 1;
            },
            (Classification::Ham, true) | (Classification::Unsure, true) => {
                self.state.session.false_negatives = self.state.session.false_negatives + 1;
                self.state.lifetime.false_negatives = self.state.lifetime.false_negatives + 1;
            },
            (Classification::Spam, false) | (Classification::Unsure, false) => {
                self.state.session.false_positives = self.state.session.false_positives + 1;
                self.state.lifetime.false_positives = self.state.lifetime.false_positives + 1;
            },
        }
        self.state.dirty_count = self.state.dirty_count + 1;
        self.due_save()
    }

    /// The session's counters.
    pub fn session_stats(&self) -> (stats: SessionStats)
        ensures
            stats == self@.session,
    {
        self.state.session
    }

    /// The lifetime counters.
    pub fn lifetime_stats(&self) -> (stats: LifetimeStats)
        ensures
            stats == self@.lifetime,
    {
        self.state.lifetime
    }

    /// Sets the lifetime counters to zero; what comes back is to be saved at once.
    pub fn reset_lifetime(&mut self) -> (to_save: StatsFile)
        ensures
            final(self)@ == (StatisticsState { lifetime: zero_lifetime(), ..old(self)@ }),
            to_save == (StatsFile { version: 1, lifetime: zero_lifetime() }),
    {
        self.state.lifetime = LifetimeStats::default();
        self.file()
    }

    /// Sets the session's counters to zero.
    pub fn reset_session(&mut self)
        ensures
            final(self)@ == (StatisticsState { session: zero_session(), ..old(self)@ }),
    {
        self.state.session = SessionStats::default();
    }

    /// What to save when a save is asked for, whether or not one is due.
    pub fn save(&self) -> (to_save: StatsFile)
        ensures
            to_save == self@.file(),
    {
        self.file()
    }

    /// Takes note of the outcome of a save: only a save that succeeded leaves nothing unsaved.
    pub fn save_finished(&mut self, success: bool)
        ensures
            final(self)@ == old(self)@.saved(success),
    {
        if success {
            self.state.dirty_count = 0;
        }
    }

    /// Whether a failed file operation says that another process holds the file: on Windows the
    /// sharing violation and the lock violation (32 and 33), elsewhere a denied permission.
    pub fn is_sharing_violation(
        on_windows: bool,
        raw_os_error: Option<i32>,
        permission_denied: bool,
    ) -> (violation: bool)
        ensures
            violation == (if on_windows {
                raw_os_error == Some(32i32) || raw_os_error == Some(33i32)
            } else {
                permission_denied
            }),
    {
        if on_windows {
            match raw_os_error {
                Some(code) => code == 32 || code == 33,
                None => false,
            }
        } else {
            permission_denied
        }
    }
}

/// How a file operation ended.
#[derive(Debug, Clone, Copy, PartialEq, Eq, Structural)]
pub enum IoOutcome {
    Done,
    /// Another process holds the file.
    SharingViolation,
    /// Any other failure.
    Failed,
}

/// What follows a file operation.
#[derive(Debug, Clone, Copy, PartialEq, Eq, Structural)]
pub enum RetryStep {
    /// It succeeded.
    Succeeded,
    /// Wait for the given number of milliseconds and try again.
    RetryAfter(u64),
    /// It failed for good.
    GaveUp,
}

/// How often a save is tried again.
pub const SAVE_MAX_RETRIES: u32 = 5;

/// The milliseconds before the first further attempt.
pub const SAVE_INITIAL_DELAY_MS: u64 = 50;

/// Repeated attempts at a file operation, with a waiting time that doubles each time.
#[derive(Debug, Clone, Copy, PartialEq, Eq, Structural)]
pub struct RetryIo {
    pub attempt: u32,
    pub max_retries: u32,
    pub delay_ms: u64,
}

/// Twice a number of milliseconds, limited to what fits.
pub open spec fn doubled(ms: u64) -> u64 {
    if ms + ms > u64::MAX {
        u64::MAX
    } else {
        (ms + ms) as u64
    }
}

impl RetryIo {
    /// Attempts left after the current one.
    pub open spec fn retries_left(self) -> int {
        self.max_retries - self.attempt
    }

    /// What follows an attempt that ended as given.
    pub open spec fn step_spec(self, outcome: IoOutcome) -> RetryStep {
        if outcome == IoOutcome::Done {
            RetryStep::Succeeded
        } else if outcome == IoOutcome::SharingViolation && self.attempt < self.max_retries {
            RetryStep::RetryAfter(self.delay_ms)
        } else {
            RetryStep::GaveUp
        }
    }

    /// The attempt that follows.
    pub open spec fn next_spec(self) -> RetryIo {
        RetryIo {
            attempt: (self.attempt + 1) as u32,
            max_retries: self.max_retries,
            delay_ms: doubled(self.delay_ms),
        }
    }

    /// The first attempt.
    pub fn new(max_retries: u32, initial_delay_ms: u64) -> (retry: RetryIo)
        ensures
            retry == (RetryIo { attempt: 0, max_retries, delay_ms: initial_delay_ms }),
    {
        RetryIo { attempt: 0, max_retries, delay_ms: initial_delay_ms }
    }

    /// Decides what follows an attempt: a file held by another process is tried again while
    /// attempts are left, any other failure ends the matter.
    pub fn step(&mut self, outcome: IoOutcome) -> (step: RetryStep)
        ensures
            step == old(self).step_spec(outcome),
            step is RetryAfter ==> *final(self) == old(self).next_spec(),
            !(step is RetryAfter) ==> *final(self) == *old(self),
    {
        match outcome {
            IoOutcome::Done => RetryStep::Succeeded,
            IoOutcome::SharingViolation => {
                if self.attempt < self.max_retries {
                    let wait: u64 = self.delay_ms;
                    self.attempt = self.attempt + 1;
                    self.delay_ms = self.delay_ms.saturating_add(self.delay_ms);
                    RetryStep::RetryAfter(wait)
                } else {
                    RetryStep::GaveUp
                }
            },
            IoOutcome::Failed => RetryStep::GaveUp,
        }
    }
}

/// The milliseconds that are waited in all if another process never lets go of the file.
pub open spec fn total_wait(retry: RetryIo) -> int
    decreases retry.retries_left(),
{
    if retry.attempt >= retry.max_retries {
        0
    } else {
        retry.delay_ms + total_wait(retry.next_spec())
    }
}

/// A file that another process never lets go of is tried six times, with waits of 50, 100, 200,
/// 400 and 800 milliseconds in between: about a second and a half.
pub proof fn save_waits_are_bounded()
    ensures
        total_wait(
            RetryIo {
                attempt: 0,
                max_retries: SAVE_MAX_RETRIES,
                delay_ms: SAVE_INITIAL_DELAY_MS,
            },
        ) == 1550,
{
    reveal_with_fuel(total_wait, 6);
}

/// What a save does next.
#[derive(Debug, Clone, Copy, PartialEq, Eq, Structural)]
pub enum SaveAction {
    /// Wait for the given number of milliseconds and write the temporary file.
    WriteTemp(u64),
    /// Wait for the given number of milliseconds and rename the temporary file to the final name.
    Rename(u64),
    /// Give up; the temporary file was not written.
    Fail,
    /// Remove the temporary file and give up.
    RemoveTempAndFail,
    /// The file is saved.
    Finish,
}

/// A save in progress: the new contents are written to a temporary file, which then takes the
/// place of the old file.
#[derive(Debug, Clone, Copy, PartialEq, Eq, Structural)]
pub struct SaveProcess {
    pub renaming: bool,
    pub retry: RetryIo,
}

/// The first attempt at one of a save's two file operations.
pub open spec fn first_attempt() -> RetryIo {
    RetryIo { attempt: 0, max_retries: SAVE_MAX_RETRIES, delay_ms: SAVE_INITIAL_DELAY_MS }
}

impl SaveProcess {
    /// A save whose temporary file is to be written.
    pub fn start() -> (process: SaveProcess)
        ensures
            process == (SaveProcess { renaming: false, retry: first_attempt() }),
    {
        SaveProcess {
            renaming: false,
            retry: RetryIo::new(SAVE_MAX_RETRIES, SAVE_INITIAL_DELAY_MS),
        }
    }

    /// Decides what follows the last file operation. The renaming starts only once the temporary
    /// file is written, and the save is finished only once the renaming succeeded.
    pub fn advance(&mut self, outcome: IoOutcome) -> (action: SaveAction)
        ensures
            action == (match (old(self).renaming, old(self).retry.step_spec(outcome)) {
                (false, RetryStep::Succeeded) => SaveAction::Rename(0),
                (false, RetryStep::RetryAfter(ms)) => SaveAction::WriteTemp(ms),
                (false, RetryStep::GaveUp) => SaveAction::Fail,
                (true, RetryStep::Succeeded) => SaveAction::Finish,
                (true, RetryStep::RetryAfter(ms)) => SaveAction::Rename(ms),
                (true, RetryStep::GaveUp) => SaveAction::RemoveTempAndFail,
            }),
            *final(self) == (match (old(self).renaming, old(self).retry.step_spec(outcome)) {
                (false, RetryStep::Succeeded) => SaveProcess {
                    renaming: true,
                    retry: first_attempt(),
                },
                (_, RetryStep::RetryAfter(_)) => SaveProcess {
                    renaming: old(self).renaming,
                    retry: old(self).retry.next_spec(),
                },
                _ => *old(self),
            }),
    {
        let step = self.retry.step(outcome);
        match step {
            RetryStep::Succeeded => {
                if self.renaming {
                    SaveAction::Finish
                } else {
                    self.renaming = true;
                    self.retry = RetryIo::new(SAVE_MAX_RETRIES, SAVE_INITIAL_DELAY_MS);
                    SaveAction::Rename(0)
                }
            },
            RetryStep::RetryAfter(ms) => {
                if self.renaming {
                    SaveAction::Rename(ms)
                } else {
                    SaveAction::WriteTemp(ms)
                }
            },
            RetryStep::GaveUp => {
                if self.renaming {
                    SaveAction::RemoveTempAndFail
                } else {
                    SaveAction::Fail
                }
            },
        }
    }
}

/// The counters that the user's judgement raises are not at their limits.
pub open spec fn room_for_judgement(
    state: StatisticsState,
    original: Classification,
    user_says_spam: bool,
) -> bool {
    let agrees = (original == Classification::Spam && user_says_spam) || (original
        == Classification::Ham && !user_says_spam);
    &&& state.dirty_count < u32::MAX
    &&& agrees ==> state.session.correctly_classified < u32::MAX
        && state.lifetime.correctly_classified < u64::MAX
    &&& !agrees && user_says_spam ==> state.session.false_negatives < u32::MAX
        && state.lifetime.false_negatives < u64::MAX
    &&& !agrees && !user_says_spam ==> state.session.false_positives < u32::MAX
        && state.lifetime.false_positives < u64::MAX
}

/// The counters that a message of the given class raises are not at their limits.
pub open spec fn room_for_classification(state: StatisticsState, class: Classification) -> bool {
    &&& state.dirty_count < u32::MAX
    &&& class == Classification::Ham ==> state.session.ham_classified < u32::MAX
        && state.lifetime.total_ham_classified < u64::MAX
    &&& class == Classification::Unsure ==> state.session.unsure_classified < u32::MAX
        && state.lifetime.total_unsure_classified < u64::MAX
    &&& class == Classification::Spam ==> state.session.spam_classified < u32::MAX
        && state.lifetime.total_spam_classified < u64::MAX
}

/// The counters that a trained message raises are not at their limits.
pub open spec fn room_for_training(state: StatisticsState, is_spam: bool) -> bool {
    &&& is_spam ==> state.session.spam_trained < u32::MAX && state.lifetime.total_spam_trained
        < u64::MAX
    &&& !is_spam ==> state.session.ham_trained < u32::MAX && state.lifetime.total_ham_trained
        < u64::MAX
}

/// Two states agree on how many messages were classified, and as what.
pub open spec fn same_classified(a: StatisticsState, b: StatisticsState) -> bool {
    &&& a.session.ham_classified == b.session.ham_classified
    &&& a.session.unsure_classified == b.session.unsure_classified
    &&& a.session.spam_classified == b.session.spam_classified
    &&& a.lifetime.total_ham_classified == b.lifetime.total_ham_classified
    &&& a.lifetime.total_unsure_classified == b.lifetime.total_unsure_classified
    &&& a.lifetime.total_spam_classified == b.lifetime.total_spam_classified
}

/// Two states agree on how many messages were trained, and as what.
pub open spec fn same_trained(a: StatisticsState, b: StatisticsState) -> bool {
    &&& a.session.ham_trained == b.session.ham_trained
    &&& a.session.spam_trained == b.session.spam_trained
    &&& a.lifetime.total_ham_trained == b.lifetime.total_ham_trained
    &&& a.lifetime.total_spam_trained == b.lifetime.total_spam_trained
}

/// Two states agree on what users said of the classifications.
pub open spec fn same_accuracy(a: StatisticsState, b: StatisticsState) -> bool {
    &&& a.session.correctly_classified == b.session.correctly_classified
    &&& a.session.false_negatives == b.session.false_negatives
    &&& a.session.false_positives == b.session.false_positives
    &&& a.lifetime.correctly_classified == b.lifetime.correctly_classified
    &&& a.lifetime.false_negatives == b.lifetime.false_negatives
    &&& a.lifetime.false_positives == b.lifetime.false_positives
}

/// A judgement raises exactly one of the three accuracy counters, in the session and over the
/// lifetime, by one. It is the count of correct classifications exactly if the message had been
/// given the definite class that the user names, so never for an unsure message; else it is that of
/// false negatives if the user says spam, and that of false positives if not. Nothing else that is
/// counted changes, and one change more is unsaved.
pub proof fn a_judgement_counts_once(
    manager: &mut StatisticsManager,
    original: Classification,
    user_says_spam: bool,
    to_save: Option<StatsFile>,
)
    requires
        room_for_judgement(old(manager)@, original, user_says_spam),
        call_ensures(
            StatisticsManager::on_correction,
            (manager, original, user_says_spam),
            to_save,
        ),
    ensures
        ({
            let before = old(manager)@;
            let after = final(manager)@;
            let right = after.session.correctly_classified - before.session.correctly_classified;
            let missed = after.session.false_negatives - before.session.false_negatives;
            let alarm = after.session.false_positives - before.session.false_positives;
            &&& right >= 0 && missed >= 0 && alarm >= 0 && right + missed + alarm == 1
            &&& original == Classification::Unsure ==> right == 0
            &&& right == 1 <==> (original == Classification::Spam && user_says_spam) || (original
                == Classification::Ham && !user_says_spam)
            &&& missed == 1 ==> user_says_spam
            &&& alarm == 1 ==> !user_says_spam
            &&& after.lifetime.correctly_classified - before.lifetime.correctly_classified == right
            &&& after.lifetime.false_negatives - before.lifetime.false_negatives == missed
            &&& after.lifetime.false_positives - before.lifetime.false_positives == alarm
            &&& same_classified(before, after)
            &&& same_trained(before, after)
            &&& after.dirty_count == before.dirty_count + 1
            &&& after.save_interval == before.save_interval
        }),
{
}

/// A classified message raises the counter of its own class by one, in the session and over the
/// lifetime, and no other counter; one change more is unsaved.
pub proof fn a_classification_counts_once(
    manager: &mut StatisticsManager,
    class: Classification,
    to_save: Option<StatsFile>,
)
    requires
        room_for_classification(old(manager)@, class),
        call_ensures(StatisticsManager::on_classified, (manager, class), to_save),
    ensures
        ({
            let before = old(manager)@;
            let after = final(manager)@;
            let ham = after.session.ham_classified - before.session.ham_classified;
            let unsure = after.session.unsure_classified - before.session.unsure_classified;
            let spam = after.session.spam_classified - before.session.spam_classified;
            &&& ham >= 0 && unsure >= 0 && spam >= 0 && ham + unsure + spam == 1
            &&& ham == 1 <==> class == Classification::Ham
            &&& unsure == 1 <==> class == Classification::Unsure
            &&& spam == 1 <==> class == Classification::Spam
            &&& after.lifetime.total_ham_classified - before.lifetime.total_ham_classified == ham
            &&& after.lifetime.total_unsure_classified - before.lifetime.total_unsure_classified
                == unsure
            &&& after.lifetime.total_spam_classified - before.lifetime.total_spam_classified == spam
            &&& same_trained(before, after)
            &&& same_accuracy(before, after)
            &&& after.dirty_count == before.dirty_count + 1
            &&& after.save_interval == before.save_interval
        }),
{
}

/// A trained message raises the counter of what it was trained as by one, in the session and over
/// the lifetime, and no other counter; training alone never makes a save due.
pub proof fn a_training_counts_once(manager: &mut StatisticsManager, is_spam: bool)
    requires
        room_for_training(old(manager)@, is_spam),
        call_ensures(StatisticsManager::on_trained, (manager, is_spam), ()),
    ensures
        ({
            let before = old(manager)@;
            let after = final(manager)@;
            let ham = after.session.ham_trained - before.session.ham_trained;
            let spam = after.session.spam_trained - before.session.spam_trained;
            &&& ham >= 0 && spam >= 0 && ham + spam == 1
            &&& spam == 1 <==> is_spam
            &&& after.lifetime.total_ham_trained - before.lifetime.total_ham_trained == ham
            &&& after.lifetime.total_spam_trained - before.lifetime.total_spam_trained == spam
            &&& same_classified(before, after)
            &&& same_accuracy(before, after)
            &&& after.dirty_count == before.dirty_count
            &&& after.save_interval == before.save_interval
        }),
{
}

/// A training that is taken back lowers the lifetime counter of what it was by one, if that is not
/// at zero, and nothing else: not the session's counters, nor the other kind's.
pub proof fn taking_back_a_training_counts_once(manager: &mut StatisticsManager, was_spam: bool)
    requires
        call_ensures(StatisticsManager::on_untrained, (manager, was_spam), ()),
    ensures
        ({
            let before = old(manager)@;
            let after = final(manager)@;
            let ham = before.lifetime.total_ham_trained - after.lifetime.total_ham_trained;
            let spam = before.lifetime.total_spam_trained - after.lifetime.total_spam_trained;
            &&& ham == 1 <==> !was_spam && before.lifetime.total_ham_trained > 0
            &&& spam == 1 <==> was_spam && before.lifetime.total_spam_trained > 0
            &&& ham == 0 || ham == 1
            &&& spam == 0 || spam == 1
            &&& after.session == before.session
            &&& same_classified(before, after)
            &&& same_accuracy(before, after)
            &&& after.dirty_count == before.dirty_count
            &&& after.save_interval == before.save_interval
        }),
{
}

/// After a classification or a judgement there is something to save exactly if as many changes as
/// the save interval are unsaved; what is saved are the lifetime counters that were just reached.
pub proof fn saves_come_after_enough_changes(
    classifying: &mut StatisticsManager,
    class: Classification,
    classified: Option<StatsFile>,
    judging: &mut StatisticsManager,
    original: Classification,
    user_says_spam: bool,
    judged: Option<StatsFile>,
)
    requires
        old(classifying)@.dirty_count < u32::MAX,
        old(judging)@.dirty_count < u32::MAX,
        call_ensures(StatisticsManager::on_classified, (classifying, class), classified),
        call_ensures(
            StatisticsManager::on_correction,
            (judging, original, user_says_spam),
            judged,
        ),
    ensures
        classified is Some <==> old(classifying)@.dirty_count + 1 >= old(classifying)@.save_interval,
        classified matches Some(file) ==> file.lifetime == final(classifying)@.lifetime
            && file.version == 1,
        judged is Some <==> old(judging)@.dirty_count + 1 >= old(judging)@.save_interval,
        judged matches Some(file) ==> file.lifetime == final(judging)@.lifetime && file.version
            == 1,
{
}

/// A manager that starts takes each lifetime counter from the file, and zeros where no file could
/// be read; its session starts with zeros, and nothing is unsaved. Only where there was no file is
/// one to be written at once, and it holds zeros.
pub proof fn a_start_takes_over_the_file(
    stored: Option<StatsFile>,
    save_interval: u32,
    created: (StatisticsManager, Option<StatsFile>),
)
    requires
        call_ensures(StatisticsManager::new, (stored, save_interval), created),
    ensures
        stored matches Some(file) ==> {
            &&& created.0@.lifetime == file.lifetime
            &&& created.1 is None
        },
        stored is None ==> {
            let lifetime = created.0@.lifetime;
            &&& lifetime.total_ham_trained == 0 && lifetime.total_spam_trained == 0
            &&& lifetime.total_ham_classified == 0 && lifetime.total_unsure_classified == 0
            &&& lifetime.total_spam_classified == 0
            &&& lifetime.correctly_classified == 0
            &&& lifetime.false_negatives == 0 && lifetime.false_positives == 0
            &&& created.1 matches Some(file) && file.lifetime == lifetime && file.version == 1
        },
        created.0@.session.ham_classified == 0 && created.0@.session.unsure_classified == 0
            && created.0@.session.spam_classified == 0,
        created.0@.session.ham_trained == 0 && created.0@.session.spam_trained == 0,
        created.0@.session.correctly_classified == 0 && created.0@.session.false_negatives == 0
            && created.0@.session.false_positives == 0,
        created.0@.dirty_count == 0,
        created.0@.save_interval == save_interval,
{
}

/// A reset of the lifetime counters leaves the session's counters as they are, and a reset of the
/// session's leaves the lifetime counters; each leaves zeros behind, and what is to be saved after
/// the first is what the counters then hold.
pub proof fn resets_do_not_touch_each_other(
    lifetime: &mut StatisticsManager,
    to_save: StatsFile,
    session: &mut StatisticsManager,
)
    requires
        call_ensures(StatisticsManager::reset_lifetime, (lifetime,), to_save),
        call_ensures(StatisticsManager::reset_session, (session,), ()),
    ensures
        final(lifetime)@.session == old(lifetime)@.session,
        final(lifetime)@.dirty_count == old(lifetime)@.dirty_count,
        final(lifetime)@.save_interval == old(lifetime)@.save_interval,
        to_save.lifetime == final(lifetime)@.lifetime,
        to_save.version == 1,
        ({
            let zeros = final(lifetime)@.lifetime;
            &&& zeros.total_ham_trained == 0 && zeros.total_spam_trained == 0
            &&& zeros.total_ham_classified == 0 && zeros.total_unsure_classified == 0
            &&& zeros.total_spam_classified == 0
            &&& zeros.correctly_classified == 0
            &&& zeros.false_negatives == 0 && zeros.false_positives == 0
        }),
        final(session)@.lifetime == old(session)@.lifetime,
        final(session)@.dirty_count == old(session)@.dirty_count,
        final(session)@.save_interval == old(session)@.save_interval,
        ({
            let zeros = final(session)@.session;
            &&& zeros.ham_classified == 0 && zeros.unsure_classified == 0
            &&& zeros.spam_classified == 0
            &&& zeros.ham_trained == 0 && zeros.spam_trained == 0
            &&& zeros.correctly_classified == 0
            &&& zeros.false_negatives == 0 && zeros.false_positives == 0
        }),
{
}

/// What is saved, read back by a manager that starts from it, gives the lifetime counters of the
/// one that saved; a save that failed leaves everything unsaved, and one that succeeded nothing,
/// and no counter notices either.
pub proof fn a_save_is_read_back(
    saving: &StatisticsManager,
    file: StatsFile,
    save_interval: u32,
    restarted: (StatisticsManager, Option<StatsFile>),
    noting: &mut StatisticsManager,
    success: bool,
)
    requires
        call_ensures(StatisticsManager::save, (saving,), file),
        call_ensures(StatisticsManager::new, (Some(file), save_interval), restarted),
        call_ensures(StatisticsManager::save_finished, (noting, success), ()),
    ensures
        restarted.0@.lifetime == saving@.lifetime,
        restarted.1 is None,
        file.version == 1,
        final(noting)@.session == old(noting)@.session,
        final(noting)@.lifetime == old(noting)@.lifetime,
        final(noting)@.save_interval == old(noting)@.save_interval,
        success ==> final(noting)@.dirty_count == 0,
        !success ==> final(noting)@.dirty_count == old(noting)@.dirty_count,
{
}

/// Whether a failure says that the file is held depends, on Windows, on the error's number alone,
/// of which two say so, and elsewhere on the permission alone. So a failure that is no such thing
/// on either system is never retried.
pub proof fn held_files_are_told_apart(
    number: Option<i32>,
    denied: bool,
    on_windows: bool,
    elsewhere: bool,
)
    requires
        call_ensures(StatisticsManager::is_sharing_violation, (true, number, denied), on_windows),
        call_ensures(StatisticsManager::is_sharing_violation, (false, number, denied), elsewhere),
    ensures
        on_windows ==> number is Some && 32 <= number->0 <= 33,
        number is Some && 32 <= number->0 <= 33 ==> on_windows,
        elsewhere == denied,
{
}

/// An operation that is done is not tried again, one that failed for another reason than a held
/// file neither, and a held file is tried again exactly as long as attempts are left. Each further
/// attempt uses one of them up, is waited for as long as was planned, and plans twice that for the
/// next, as far as it fits.
pub proof fn held_files_are_tried_again(retry: &mut RetryIo, outcome: IoOutcome, step: RetryStep)
    requires
        call_ensures(RetryIo::step, (retry, outcome), step),
    ensures
        step is Succeeded <==> outcome is Done,
        step is RetryAfter <==> outcome is SharingViolation && old(retry).attempt
            < old(retry).max_retries,
        step matches RetryStep::RetryAfter(ms) ==> {
            &&& ms == old(retry).delay_ms
            &&& final(retry).attempt == old(retry).attempt + 1
            &&& final(retry).delay_ms == 2 * ms || (2 * ms > u64::MAX && final(retry).delay_ms
                == u64::MAX)
        },
        !(step is RetryAfter) ==> *final(retry) == *old(retry),
        final(retry).max_retries == old(retry).max_retries,
{
}

/// The attempt after the given number of attempts that found the file held.
pub open spec fn nth_attempt(retry: RetryIo, n: nat) -> RetryIo
    decreases n,
{
    if n == 0 {
        retry
    } else {
        nth_attempt(retry, (n - 1) as nat).next_spec()
    }
}

/// A save that starts with a held file waits 50 milliseconds, then each time twice as long as
/// before, and gives up after five further attempts.
pub proof fn a_held_file_is_waited_for(process: SaveProcess, n: nat)
    requires
        call_ensures(SaveProcess::start, (), process),
        n <= 5,
    ensures
        !process.renaming,
        nth_attempt(process.retry, 0).delay_ms == 50,
        n > 0 ==> nth_attempt(process.retry, n).delay_ms == 2 * nth_attempt(
            process.retry,
            (n - 1) as nat,
        ).delay_ms,
        nth_attempt(process.retry, n).step_spec(IoOutcome::SharingViolation) is GaveUp <==> n == 5,
{
    reveal_with_fuel(nth_attempt, 6);
}

/// A save is finished only by a renaming that is done, and the renaming starts only when the
/// temporary file is written, with fresh attempts. What is to be tried again is the operation that
/// found the file held. A save that fails leaves no temporary file: it is removed where it had been
/// written.
pub proof fn a_save_replaces_the_file_last(
    process: &mut SaveProcess,
    outcome: IoOutcome,
    action: SaveAction,
)
    requires
        call_ensures(SaveProcess::advance, (process, outcome), action),
    ensures
        action is Finish <==> old(process).renaming && outcome is Done,
        !old(process).renaming && outcome is Done ==> {
            &&& action == SaveAction::Rename(0)
            &&& final(process).renaming
            &&& final(process).retry.attempt == 0
            &&& final(process).retry.max_retries == 5
            &&& final(process).retry.delay_ms == 50
        },
        action is WriteTemp ==> !old(process).renaming && outcome is SharingViolation,
        action is Rename ==> (old(process).renaming && outcome is SharingViolation) || (
        !old(process).renaming && outcome is Done),
        action is Fail ==> !old(process).renaming && !(outcome is Done),
        action is RemoveTempAndFail ==> old(process).renaming && !(outcome is Done),
        outcome is SharingViolation && old(process).retry.attempt < old(process).retry.max_retries
            ==> (action == SaveAction::WriteTemp(old(process).retry.delay_ms) || action
            == SaveAction::Rename(old(process).retry.delay_ms)) && final(process).retry.attempt
            == old(process).retry.attempt + 1,
        outcome is Failed ==> action is Fail || action is RemoveTempAndFail,
        outcome is SharingViolation && old(process).retry.attempt >= old(process).retry.max_retries
            ==> action is Fail || action is RemoveTempAndFail,
        final(process).renaming == (old(process).renaming || outcome is Done),
{
}

/// Something can be counted exactly if no counter that it raises is at its limit.
pub proof fn counters_below_their_limits_can_grow(
    manager: &StatisticsManager,
    class: Classification,
    can_classify: bool,
    is_spam: bool,
    can_train: bool,
    can_correct: bool,
)
    requires
        call_ensures(StatisticsManager::can_classify, (manager, class), can_classify),
        call_ensures(StatisticsManager::can_train, (manager, is_spam), can_train),
        call_ensures(StatisticsManager::can_correct, (manager, class, is_spam), can_correct),
    ensures
        can_classify <==> room_for_classification(manager@, class),
        can_train <==> room_for_training(manager@, is_spam),
        can_correct <==> room_for_judgement(manager@, class, is_spam),
{
}

/// The counters that are asked for are those of the session and of the lifetime, and a file that
/// was read gives the lifetime's.
pub proof fn counters_are_given_as_they_are(
    manager: &StatisticsManager,
    session: SessionStats,
    lifetime: LifetimeStats,
    stored: Option<StatsFile>,
    loaded: (LifetimeStats, bool),
)
    requires
        call_ensures(StatisticsManager::session_stats, (manager,), session),
        call_ensures(StatisticsManager::lifetime_stats, (manager,), lifetime),
        call_ensures(StatisticsManager::load_from_file, (stored,), loaded),
    ensures
        session == manager@.session,
        lifetime == manager@.lifetime,
        loaded.1 <==> stored is Some,
        stored matches Some(file) ==> loaded.0 == file.lifetime,
        stored is None ==> {
            &&& loaded.0.total_ham_trained == 0 && loaded.0.total_spam_trained == 0
            &&& loaded.0.total_ham_classified == 0 && loaded.0.total_unsure_classified == 0
            &&& loaded.0.total_spam_classified == 0
            &&& loaded.0.correctly_classified == 0
            &&& loaded.0.false_negatives == 0 && loaded.0.false_positives == 0
        },
{
}

/// The first attempt has all attempts before it and waits for the given time.
pub proof fn attempts_start_at_the_first(max_retries: u32, delay_ms: u64, retry: RetryIo)
    requires
        call_ensures(RetryIo::new, (max_retries, delay_ms), retry),
    ensures
        retry.attempt == 0,
        retry.max_retries == max_retries,
        retry.delay_ms == delay_ms,
{
}

/// Counters that nobody has counted with are zero, and so is a file's contents before the first
/// save.
pub proof fn counters_start_at_zero(
    session: SessionStats,
    lifetime: LifetimeStats,
    file: StatsFile,
)
    requires
        call_ensures(SessionStats::default, (), session),
        call_ensures(LifetimeStats::default, (), lifetime),
        call_ensures(StatsFile::default, (), file),
    ensures
        session.ham_classified == 0 && session.unsure_classified == 0,
        session.spam_classified == 0,
        session.ham_trained == 0 && session.spam_trained == 0,
        session.correctly_classified == 0,
        session.false_negatives == 0 && session.false_positives == 0,
        lifetime.total_ham_trained == 0 && lifetime.total_spam_trained == 0,
        lifetime.total_ham_classified == 0 && lifetime.total_unsure_classified == 0,
        lifetime.total_spam_classified == 0,
        lifetime.correctly_classified == 0,
        lifetime.false_negatives == 0 && lifetime.false_positives == 0,
        file.version == 1,
        file.lifetime == lifetime,
{
}

} // verus!
