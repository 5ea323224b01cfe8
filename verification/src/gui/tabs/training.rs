//! The Training tab: the folders to train on, the course of a batch training, and the settings of
//! training on single messages.

use vstd::prelude::*;

use crate::config::{copy_folders, AppConfig, FolderId, MessageReadState};
use crate::manager_dlg::ManagerState;
use crate::text::{decimal, join_texts, joined, push_decimal, texts_view};

verus! {

/// The place of a read state in the list of read states.
pub open spec fn index_of_read_state(state: MessageReadState) -> u32 {
    match state {
        MessageReadState::Unchanged => 0,
        MessageReadState::Read => 1,
        MessageReadState::Unread => 2,
    }
}

/// The read state that the selected entry of the list stands for; without a selection, none is
/// set.
pub open spec fn read_state_at(index: Option<u32>) -> MessageReadState {
    match index {
        Some(1) => MessageReadState::Read,
        Some(2) => MessageReadState::Unread,
        _ => MessageReadState::Unchanged,
    }
}

/// A read state is found again at its place in the list.
pub proof fn read_state_is_found_again(state: MessageReadState)
    ensures
        read_state_at(Some(index_of_read_state(state))) == state,
{
}

/// The place of a read state in the list of read states.
pub fn message_read_state_to_index(state: MessageReadState) -> (index: u32)
    ensures
        index == index_of_read_state(state),
{
    match state {
        MessageReadState::Unchanged => 0,
        MessageReadState::Read => 1,
        MessageReadState::Unread => 2,
    }
}

/// The read state that the selected entry of the list stands for.
pub fn index_to_message_read_state(index: Option<u32>) -> (state: MessageReadState)
    ensures
        state == read_state_at(index),
{
    match index {
        Some(1) => MessageReadState::Read,
        Some(2) => MessageReadState::Unread,
        _ => MessageReadState::Unchanged,
    }
}

/// The selected folders of one kind, with the text that names them.
#[derive(Debug)]
pub struct FolderChoice {
    pub ids: Vec<FolderId>,
    pub entry: String,
}

/// The folders of a list of selections.
pub open spec fn selected_ids(selections: Seq<(FolderId, String)>) -> Seq<FolderId> {
    Seq::new(selections.len(), |i: int| selections[i].0)
}

/// The names of a list of selections.
pub open spec fn selected_names(selections: Seq<(FolderId, String)>) -> Seq<Seq<char>> {
    Seq::new(selections.len(), |i: int| selections[i].1@)
}

/// Folder names as the tab shows them.
pub open spec fn names_text(names: Seq<Seq<char>>) -> Seq<char> {
    joined(names, "; "@)
}

impl FolderChoice {
    /// The given folders, with the names that were found for them. Without folders nothing is
    /// shown.
    pub fn new(ids: &Vec<FolderId>, names: &Vec<String>) -> (choice: FolderChoice)
        ensures
            choice.ids@ == ids@,
            choice.entry@ == (if ids@.len() == 0 {
                ""@
            } else {
                names_text(texts_view(names@))
            }),
    {
        let entry = if ids.len() == 0 {
            "".to_owned()
        } else {
            join_texts(names, "; ")
        };
        FolderChoice { ids: copy_folders(ids), entry }
    }

    /// Shows the names that were found for the folders, if there are folders.
    pub fn resolve_folder_names(&mut self, names: &Vec<String>)
        ensures
            final(self).ids@ == old(self).ids@,
            final(self).entry@ == (if old(self).ids@.len() == 0 {
                old(self).entry@
            } else {
                names_text(texts_view(names@))
            }),
    {
        if self.ids.len() > 0 {
            self.entry = join_texts(names, "; ");
        }
    }

    /// Takes the outcome of browsing for folders. Nothing changes if the browsing was cancelled.
    pub fn on_browsed(&mut self, selections: &Option<Vec<(FolderId, String)>>)
        ensures
            match *selections {
                Some(list) => final(self).ids@ == selected_ids(list@) && final(self).entry@
                    == names_text(selected_names(list@)),
                None => final(self).ids@ == old(self).ids@ && final(self).entry@ == old(self).entry@,
            },
    {
        if let Some(list) = selections {
            let mut ids: Vec<FolderId> = Vec::new();
            let mut names: Vec<String> = Vec::new();
            let mut i: usize = 0;
            while i < list.len()
                invariant
                    i <= list.len(),
                    ids@ =~= selected_ids(list@).take(i as int),
                    texts_view(names@) =~= selected_names(list@).take(i as int),
                decreases list.len() - i,
            {
                let ghost before = texts_view(names@);
                ids.push(list[i].0.clone());
                names.push(list[i].1.clone());
                assert(texts_view(names@) =~= before.push(selected_names(list@)[i as int]));
                i = i + 1;
            }
            assert(selected_ids(list@).take(i as int) =~= selected_ids(list@));
            assert(selected_names(list@).take(i as int) =~= selected_names(list@));
            self.ids = ids;
            self.entry = join_texts(&names, "; ");
        }
    }
}

/// What a batch training did.
#[derive(Debug, Clone, Copy, PartialEq, Eq, Structural)]
pub struct TrainingResult {
    /// The messages looked at, skipped ones included.
    pub total_processed: u32,
    /// The messages newly trained or trained again.
    pub new_entries: u32,
    /// The messages that could not be trained.
    pub errors: u32,
}

/// What the training thread reports.
#[derive(Debug)]
pub enum TrainingMessage {
    /// So many messages of a folder are done.
    Progress { folder_name: String, current: u32, total: u32 },
    /// The training is over.
    Complete(TrainingResult),
    /// The training failed.
    Error(String),
    /// The thread is gone without having said how it ended.
    Disconnected,
}

/// What a report of the training thread calls for.
#[derive(Debug)]
pub enum TrainingReaction {
    /// Show a status, and progress as the given part of the whole unless the whole is empty; then
    /// wait for the next report.
    Show { status: String, part: Option<(u32, u32)> },
    /// Tell the user that all went well, close the progress dialog and stop waiting.
    Finish(String),
    /// Tell the user that something went wrong, close the progress dialog and stop waiting.
    Fail(String),
}

/// The message of a thread that panicked.
pub const PANIC_MESSAGE: &'static str = "Training thread panicked unexpectedly";

/// The message about a thread that is gone.
pub const DISCONNECTED_MESSAGE: &'static str =
    "Training ended unexpectedly (worker disconnected).";

/// The text about a finished training.
pub open spec fn completion_text(result: TrainingResult) -> Seq<char> {
    "Training complete!\n\nMessages processed: "@ + decimal(result.total_processed as nat)
        + "\nNew entries trained: "@ + decimal(result.new_entries as nat) + "\nErrors: "@ + decimal(
        result.errors as nat,
    )
}

/// The status while a training runs.
pub open spec fn progress_status(folder_name: Seq<char>, current: nat, total: nat) -> Seq<char> {
    "Training: "@ + folder_name + " ("@ + decimal(current) + "/"@ + decimal(total) + ")"@
}

/// How a training thread's result is reported: its own result, or the message about a panic.
pub fn training_outcome(result: Option<Result<TrainingResult, String>>) -> (message:
    TrainingMessage)
    ensures
        match result {
            Some(Ok(done)) => message == TrainingMessage::Complete(done),
            Some(Err(text)) => message == TrainingMessage::Error(text),
            None => message matches TrainingMessage::Error(text) && text@ == PANIC_MESSAGE@,
        },
{
    match result {
        Some(Ok(done)) => TrainingMessage::Complete(done),
        Some(Err(text)) => TrainingMessage::Error(text),
        None => TrainingMessage::Error(PANIC_MESSAGE.to_owned()),
    }
}

/// Decides what a report of the training thread calls for.
pub fn on_training_message(message: &TrainingMessage) -> (reaction: TrainingReaction)
    ensures
        match *message {
            TrainingMessage::Progress { folder_name, current, total } => {
                &&& reaction matches TrainingReaction::Show { status, part }
                &&& status@ == progress_status(folder_name@, current as nat, total as nat)
                &&& part == (if total > 0 {
                    Some((current, total))
                } else {
                    None
                })
            },
            TrainingMessage::Complete(result) => reaction matches TrainingReaction::Finish(text)
                && text@ == completion_text(result),
            TrainingMessage::Error(error) => reaction matches TrainingReaction::Fail(text) && text@
                == "Training failed:\n\n"@ + error@,
            TrainingMessage::Disconnected => reaction matches TrainingReaction::Fail(text) && text@
                == DISCONNECTED_MESSAGE@,
        },
{
    match message {
        TrainingMessage::Progress { folder_name, current, total } => {
            let mut status = "Training: ".to_owned();
            status.append(folder_name.as_str());
            status.append(" (");
            push_decimal(&mut status, *current as u64);
            status.append("/");
            push_decimal(&mut status, *total as u64);
            status.append(")");
            let part = if *total > 0 {
                Some((*current, *total))
            } else {
                None
            };
            TrainingReaction::Show { status, part }
        },
        TrainingMessage::Complete(result) => {
            let mut text = "Training complete!\n\nMessages processed: ".to_owned();
            push_decimal(&mut text, result.total_processed as u64);
            text.append("\nNew entries trained: ");
            push_decimal(&mut text, result.new_entries as u64);
            text.append("\nErrors: ");
            push_decimal(&mut text, result.errors as u64);
            TrainingReaction::Finish(text)
        },
        TrainingMessage::Error(error) => TrainingReaction::Fail(
            "Training failed:\n\n".to_owned().concat(error.as_str()),
        ),
        TrainingMessage::Disconnected => TrainingReaction::Fail(DISCONNECTED_MESSAGE.to_owned()),
    }
}

/// What the start button calls for.
#[derive(Debug)]
pub enum StartTraining {
    /// Tell the user why the training cannot be started.
    Refuse(&'static str),
    /// Ask whether the database shall really be rebuilt, and come back with the answer.
    Ask(&'static str),
    /// Nothing: the user does not want to rebuild the database.
    Cancel,
    /// Train on the given folders.
    Run { ham: Vec<FolderId>, spam: Vec<FolderId>, rescore: bool, rebuild: bool },
}

/// Why a training without folders is refused.
pub const NO_FOLDERS_MESSAGE: &'static str =
    "You must select at least one ham or spam training folder before starting training.";

/// The question about rebuilding the database.
pub const REBUILD_QUESTION: &'static str =
    "Rebuilding will erase the current training database and retrain from scratch.\n\nAre you \
     sure you want to continue?";

/// Why a training without an engine is refused.
pub const UNAVAILABLE_MESSAGE: &'static str =
    "Training is not available. The training engine has not been initialized.";

/// The Training tab.
#[derive(Debug)]
pub struct TrainingTab {
    pub ham: FolderChoice,
    pub spam: FolderChoice,
    pub rescore: bool,
    pub rebuild: bool,
    pub train_recovered_spam: bool,
    /// The selected read state for messages recovered from spam.
    pub not_spam_action: Option<u32>,
    pub train_manual_spam: bool,
    /// The selected read state for messages moved to spam.
    pub spam_action: Option<u32>,
}

impl TrainingTab {
    /// The tab shows the given settings, with the folders' names.
    pub open spec fn shows(
        &self,
        state: ManagerState,
        config: AppConfig,
        ham_names: Seq<Seq<char>>,
        spam_names: Seq<Seq<char>>,
    ) -> bool {
        &&& self.ham.ids@ == state@.ham_training_folders
        &&& self.ham.entry@ == (if state@.ham_training_folders.len() == 0 {
            ""@
        } else {
            names_text(ham_names)
        })
        &&& self.spam.ids@ == state@.spam_training_folders
        &&& self.spam.entry@ == (if state@.spam_training_folders.len() == 0 {
            ""@
        } else {
            names_text(spam_names)
        })
        &&& self.rescore == config.training.rescore
        &&& self.rebuild == config.training.rebuild
        &&& self.train_recovered_spam == config.training.train_recovered_spam
        &&& self.not_spam_action == Some(
            index_of_read_state(config.general.recover_from_spam_message_state),
        )
        &&& self.train_manual_spam == config.training.train_manual_spam
        &&& self.spam_action == Some(
            index_of_read_state(config.general.delete_as_spam_message_state),
        )
    }

    /// The tab for the given settings, with the names that were found for the folders.
    pub fn new(
        state: &ManagerState,
        config: &AppConfig,
        ham_names: &Vec<String>,
        spam_names: &Vec<String>,
    ) -> (tab: TrainingTab)
        ensures
            tab.shows(*state, *config, texts_view(ham_names@), texts_view(spam_names@)),
    {
        TrainingTab {
            ham: FolderChoice::new(&state.ham_training_folder_ids, ham_names),
            spam: FolderChoice::new(&state.spam_training_folder_ids, spam_names),
            rescore: config.training.rescore,
            rebuild: config.training.rebuild,
            train_recovered_spam: config.training.train_recovered_spam,
            not_spam_action: Some(
                message_read_state_to_index(config.general.recover_from_spam_message_state),
            ),
            train_manual_spam: config.training.train_manual_spam,
            spam_action: Some(
                message_read_state_to_index(config.general.delete_as_spam_message_state),
            ),
        }
    }

    /// Decides what the start button calls for. `rebuild_confirmed` is the answer to the question
    /// about rebuilding the database, once it was asked; `engine_available` says whether there is
    /// a training engine.
    pub fn start_training(&self, rebuild_confirmed: Option<bool>, engine_available: bool) -> (start:
        StartTraining)
        ensures
            if self.ham.ids@.len() == 0 && self.spam.ids@.len() == 0 {
                start == StartTraining::Refuse(NO_FOLDERS_MESSAGE)
            } else if self.rebuild && rebuild_confirmed is None {
                start == StartTraining::Ask(REBUILD_QUESTION)
            } else if self.rebuild && rebuild_confirmed == Some(false) {
                start == StartTraining::Cancel
            } else if !engine_available {
                start == StartTraining::Refuse(UNAVAILABLE_MESSAGE)
            } else {
                &&& start matches StartTraining::Run { ham, spam, rescore, rebuild }
                &&& ham@ == self.ham.ids@
                &&& spam@ == self.spam.ids@
                &&& rescore == self.rescore
                &&& rebuild == self.rebuild
            },
    {
        if self.ham.ids.len() == 0 && self.spam.ids.len() == 0 {
            return StartTraining::Refuse(NO_FOLDERS_MESSAGE);
        }
        if self.rebuild {
            match rebuild_confirmed {
                None => {
                    return StartTraining::Ask(REBUILD_QUESTION);
                },
                Some(confirmed) => {
                    if !confirmed {
                        return StartTraining::Cancel;
                    }
                },
            }
        }
        if !engine_available {
            return StartTraining::Refuse(UNAVAILABLE_MESSAGE);
        }
        StartTraining::Run {
            ham: copy_folders(&self.ham.ids),
            spam: copy_folders(&self.spam.ids),
            rescore: self.rescore,
            rebuild: self.rebuild,
        }
    }
}

/// Read states and entries of the list belong to each other: unchanged, read, unread. Without a
/// selection the state is left as it is.
pub proof fn read_states_have_their_places(
    state: MessageReadState,
    place: u32,
    index: Option<u32>,
    found: MessageReadState,
)
    requires
        call_ensures(message_read_state_to_index, (state,), place),
        call_ensures(index_to_message_read_state, (index,), found),
    ensures
        place == 0 <==> state is Unchanged,
        place == 1 <==> state is Read,
        place == 2 <==> state is Unread,
        found is Read <==> index == Some(1u32),
        found is Unread <==> index == Some(2u32),
        index == Some(place) ==> found == state,
{
}

/// Browsing takes all folders that were selected, in their order, and shows their names with a
/// semicolon between them; if it was cancelled, folders and names stay.
pub proof fn browsed_folders_are_trained_on(
    choice: &mut FolderChoice,
    selections: &Option<Vec<(FolderId, String)>>,
)
    requires
        call_ensures(FolderChoice::on_browsed, (choice, selections), ()),
    ensures
        *selections matches Some(list) ==> {
            &&& final(choice).ids@.len() == list@.len()
            &&& forall|i: int|
                0 <= i < list@.len() ==> #[trigger] final(choice).ids@[i] == list@[i].0
            &&& list@.len() == 0 ==> final(choice).entry@.len() == 0
            &&& list@.len() == 1 ==> final(choice).entry@ == list@[0].1@
            &&& list@.len() == 2 ==> final(choice).entry@ == list@[0].1@ + "; "@ + list@[1].1@
        },
        *selections is None ==> final(choice).ids@ == old(choice).ids@ && final(choice).entry@
            == old(choice).entry@,
{
    if let Some(list) = *selections {
        let names = selected_names(list@);
        reveal_with_fuel(joined, 3);
        if list@.len() == 2 {
            assert(names.drop_last()[0] == list@[0].1@);
            assert(joined(names, "; "@) == names[0] + "; "@ + names[1]);
        }
    }
}

/// A choice keeps the folders that it was made for and shows the names that were found, also later;
/// without folders it shows nothing.
pub proof fn chosen_folders_are_named(
    ids: &Vec<FolderId>,
    names: &Vec<String>,
    made: FolderChoice,
    choice: &mut FolderChoice,
)
    requires
        call_ensures(FolderChoice::new, (ids, names), made),
        call_ensures(FolderChoice::resolve_folder_names, (choice, names), ()),
    ensures
        made.ids@ == ids@,
        ids@.len() == 0 ==> made.entry@.len() == 0,
        ids@.len() > 0 && names@.len() == 1 ==> made.entry@ == names@[0]@,
        ids@.len() > 0 && names@.len() == 2 ==> made.entry@ == names@[0]@ + "; "@ + names@[1]@,
        final(choice).ids@ == old(choice).ids@,
        old(choice).ids@.len() == 0 ==> final(choice).entry@ == old(choice).entry@,
        old(choice).ids@.len() > 0 && names@.len() == 1 ==> final(choice).entry@ == names@[0]@,
{
    reveal_strlit("");
    let all = texts_view(names@);
    reveal_with_fuel(joined, 3);
    if names@.len() == 1 {
        assert(all[0] == names@[0]@);
    }
    if names@.len() == 2 {
        assert(all.drop_last()[0] == names@[0]@);
        assert(joined(all, "; "@) == all[0] + "; "@ + all[1]);
    }
}

/// A training runs on exactly the chosen folders and with the chosen options, and only if there is
/// a folder and an engine and, where the database is to be rebuilt, the user agreed: the question
/// is asked first, and a no ends the matter.
pub proof fn training_runs_on_the_chosen_folders(
    tab: &TrainingTab,
    confirmed: Option<bool>,
    engine: bool,
    start: StartTraining,
)
    requires
        call_ensures(TrainingTab::start_training, (tab, confirmed, engine), start),
    ensures
        start is Run <==> (tab.ham.ids@.len() > 0 || tab.spam.ids@.len() > 0) && engine && (
        tab.rebuild ==> confirmed is Some && confirmed->0),
        start matches StartTraining::Run { ham, spam, rescore, rebuild } ==> {
            &&& ham@ == tab.ham.ids@
            &&& spam@ == tab.spam.ids@
            &&& rescore == tab.rescore
            &&& rebuild == tab.rebuild
        },
        start is Ask <==> (tab.ham.ids@.len() > 0 || tab.spam.ids@.len() > 0) && tab.rebuild
            && confirmed is None,
        start is Cancel <==> (tab.ham.ids@.len() > 0 || tab.spam.ids@.len() > 0) && tab.rebuild
            && confirmed is Some && !confirmed->0,
        tab.ham.ids@.len() == 0 && tab.spam.ids@.len() == 0 ==> start == StartTraining::Refuse(
            NO_FOLDERS_MESSAGE,
        ),
        start is Refuse && !(tab.ham.ids@.len() == 0 && tab.spam.ids@.len() == 0) ==> start
            == StartTraining::Refuse(UNAVAILABLE_MESSAGE) && !engine,
{
}

/// A training goes on after a report of progress, ends well only when it is complete, and with an
/// error in every other case. Progress is shown as the part that was reported, unless the whole is
/// empty, and the texts name each number in its place.
pub proof fn training_reports_are_shown(
    folder: String,
    current: u32,
    total: u32,
    running: TrainingReaction,
    done: TrainingResult,
    ended: TrainingReaction,
    error: String,
    failed: TrainingReaction,
    lost: TrainingReaction,
)
    requires
        call_ensures(
            on_training_message,
            (&TrainingMessage::Progress { folder_name: folder, current, total },),
            running,
        ),
        call_ensures(on_training_message, (&TrainingMessage::Complete(done),), ended),
        call_ensures(on_training_message, (&TrainingMessage::Error(error),), failed),
        call_ensures(on_training_message, (&TrainingMessage::Disconnected,), lost),
    ensures
        running matches TrainingReaction::Show { status, part } && {
            &&& status@ == "Training: "@ + folder@ + " ("@ + decimal(current as nat) + "/"@
                + decimal(total as nat) + ")"@
            &&& total > 0 ==> part == Some((current, total))
            &&& total == 0 ==> part is None
        },
        ended matches TrainingReaction::Finish(text) && text@
            == "Training complete!\n\nMessages processed: "@ + decimal(done.total_processed as nat)
            + "\nNew entries trained: "@ + decimal(done.new_entries as nat) + "\nErrors: "@
            + decimal(done.errors as nat),
        failed matches TrainingReaction::Fail(text) && text@ == "Training failed:\n\n"@ + error@,
        lost matches TrainingReaction::Fail(text) && text@ == DISCONNECTED_MESSAGE@,
{
}

/// What the training gave is what is reported: its result, its error, or that it panicked.
pub proof fn training_outcomes_are_reported(
    done: TrainingResult,
    good: TrainingMessage,
    error: String,
    bad: TrainingMessage,
    panicked: TrainingMessage,
)
    requires
        call_ensures(training_outcome, (Some(Ok::<TrainingResult, String>(done)),), good),
        call_ensures(training_outcome, (Some(Err::<TrainingResult, String>(error)),), bad),
        call_ensures(training_outcome, (None,), panicked),
    ensures
        good == TrainingMessage::Complete(done),
        bad == TrainingMessage::Error(error),
        panicked matches TrainingMessage::Error(text) && text@ == PANIC_MESSAGE@,
{
}

/// However many folders there are, each further name comes after those before it, behind a
/// semicolon; so in a new choice, in one whose names are found later, and after browsing.
pub proof fn each_training_folder_is_named(
    ids: &Vec<FolderId>,
    names: &Vec<String>,
    fewer: &Vec<String>,
    made: FolderChoice,
    before: FolderChoice,
    choice: &mut FolderChoice,
)
    requires
        ids@.len() > 0,
        names@.len() > 1,
        fewer@ == names@.drop_last(),
        call_ensures(FolderChoice::new, (ids, names), made),
        call_ensures(FolderChoice::new, (ids, fewer), before),
        old(choice).ids@.len() > 0,
        call_ensures(FolderChoice::resolve_folder_names, (choice, names), ()),
    ensures
        made.entry@ == before.entry@ + "; "@ + names@.last()@,
        final(choice).entry@ == made.entry@,
{
    let all = texts_view(names@);
    assert(all.drop_last() =~= texts_view(fewer@));
    assert(all.last() == names@.last()@);
}

/// After browsing, the names of all selected folders are shown as a choice of them would be.
pub proof fn browsed_folders_are_named(
    choice: &mut FolderChoice,
    list: Vec<(FolderId, String)>,
    ids: &Vec<FolderId>,
    names: &Vec<String>,
    made: FolderChoice,
)
    requires
        list@.len() > 0,
        names@.len() == list@.len(),
        forall|i: int| 0 <= i < list@.len() ==> #[trigger] names@[i] == list@[i].1,
        ids@.len() > 0,
        call_ensures(FolderChoice::on_browsed, (choice, &Some(list)), ()),
        call_ensures(FolderChoice::new, (ids, names), made),
    ensures
        final(choice).entry@ == made.entry@,
{
    assert(texts_view(names@) =~= selected_names(list@));
}

/// A new tab shows the folders of each kind with their own names, the options, and the read states
/// at their places in the lists.
pub proof fn a_new_training_tab_shows_the_settings(
    state: &ManagerState,
    config: &AppConfig,
    ham_names: &Vec<String>,
    spam_names: &Vec<String>,
    tab: TrainingTab,
    ham: FolderChoice,
    spam: FolderChoice,
)
    requires
        call_ensures(TrainingTab::new, (state, config, ham_names, spam_names), tab),
        call_ensures(FolderChoice::new, (&state.ham_training_folder_ids, ham_names), ham),
        call_ensures(FolderChoice::new, (&state.spam_training_folder_ids, spam_names), spam),
    ensures
        tab.ham.ids@ == state.ham_training_folder_ids@,
        tab.spam.ids@ == state.spam_training_folder_ids@,
        tab.ham.entry@ == ham.entry@,
        tab.spam.entry@ == spam.entry@,
        tab.rescore == config.training.rescore,
        tab.rebuild == config.training.rebuild,
        tab.train_recovered_spam == config.training.train_recovered_spam,
        tab.train_manual_spam == config.training.train_manual_spam,
        tab.not_spam_action == Some(0u32) <==> config.general.recover_from_spam_message_state
            is Unchanged,
        tab.not_spam_action == Some(2u32) <==> config.general.recover_from_spam_message_state
            is Unread,
        tab.spam_action == Some(0u32) <==> config.general.delete_as_spam_message_state is Unchanged,
        tab.spam_action == Some(2u32) <==> config.general.delete_as_spam_message_state is Unread,
{
}

/// The messages say what they are about.
pub proof fn training_messages_say_what_is_wrong(
    tab: &TrainingTab,
    confirmed: Option<bool>,
    engine: bool,
    start: StartTraining,
    lost: TrainingReaction,
    panicked: TrainingMessage,
)
    requires
        call_ensures(TrainingTab::start_training, (tab, confirmed, engine), start),
        call_ensures(on_training_message, (&TrainingMessage::Disconnected,), lost),
        call_ensures(training_outcome, (None,), panicked),
    ensures
        tab.ham.ids@.len() == 0 && tab.spam.ids@.len() == 0 ==> start->Refuse_0@
            == "You must select at least one ham or spam training folder before starting training."@,
        start is Refuse && (tab.ham.ids@.len() > 0 || tab.spam.ids@.len() > 0) ==> start->Refuse_0@
            == "Training is not available. The training engine has not been initialized."@,
        lost->Fail_0@ == "Training ended unexpectedly (worker disconnected)."@,
        panicked->Error_0@ == "Training thread panicked unexpectedly"@,
{
}

} // verus!
