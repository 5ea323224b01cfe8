//! The Filter Now dialog: chooses folders and options, and follows a filter run over them.

use vstd::prelude::*;
use vstd::utf8::{
    decode_utf8, decode_utf8_split, encode_utf8, encode_utf8_decode_utf8, encode_utf8_valid_utf8,
    is_char_boundary,
};

use crate::config::{copy_folders, FilterNowConfig, FolderId};
use crate::gui::tabs::training::{selected_ids, selected_names};
use crate::text::{
    decimal, folders_selected, folders_selected_text, join_texts, joined, push_decimal, texts_view,
};

verus! {

/// The most bytes of folder names that are shown in full.
pub const LABEL_BYTES: usize = 60;

/// How many bytes are left of folder names that are cut.
pub const CUT_BYTES: usize = 57;

/// What is shown while no folder is selected.
pub const NO_FOLDERS: &'static str = "No folders selected";

/// Why filtering does not start without a folder.
pub const SELECT_FOLDER: &'static str = "Please select at least one folder to filter.";

/// What is asked before the dialog is closed during a run.
pub const CLOSE_QUESTION: &'static str =
    "Filtering is still in progress. Are you sure you want to close?";

/// The status at first.
pub const READY: &'static str = "Ready to filter";

/// The status when a run starts.
pub const RUNNING: &'static str = "Filtering messages...";

/// The status after the stop button was pressed.
pub const STOPPING: &'static str = "Stopping...";

/// The status after a run that was stopped.
pub const STOPPED: &'static str = "Filtering stopped.";

/// The status after a run that went through.
pub const COMPLETE: &'static str = "Filtering complete!";

/// The run's last report when it was stopped.
pub const CANCELLED: &'static str = "Filtering cancelled.";

/// The button's label while nothing runs.
pub const START_LABEL: &'static str = "Start Filtering";

/// The button's label during a run.
pub const STOP_LABEL: &'static str = "Stop Filtering";

/// Folder names can be cut between two characters, or need not be cut.
pub open spec fn can_be_cut(names: Seq<char>) -> bool {
    encode_utf8(names).len() > LABEL_BYTES ==> is_char_boundary(
        encode_utf8(names),
        CUT_BYTES as int,
    )
}

/// Folder names as far as they are shown.
pub open spec fn shown_names(names: Seq<char>) -> Seq<char> {
    if encode_utf8(names).len() > LABEL_BYTES {
        decode_utf8(encode_utf8(names).subrange(0, CUT_BYTES as int)) + "..."@
    } else {
        names
    }
}

/// What is shown of the selected folders: their names, or how many there are where the names are
/// not known.
pub open spec fn folder_text(count: nat, names: Seq<Seq<char>>) -> Seq<char> {
    if count == 0 {
        NO_FOLDERS@
    } else if names.len() > 0 {
        shown_names(joined(names, ", "@))
    } else {
        folders_selected(count)
    }
}

/// Names that are cut keep their beginning: the text that is shown is their first 57 bytes and three
/// dots.
pub proof fn cut_names_keep_their_beginning(names: Seq<char>)
    requires
        can_be_cut(names),
        encode_utf8(names).len() > LABEL_BYTES,
    ensures
        exists|n: int|
            0 <= n <= names.len() && shown_names(names) == #[trigger] names.take(n) + "..."@
                && encode_utf8(names.take(n)).len() == CUT_BYTES,
{
    encode_utf8_valid_utf8(names);
    encode_utf8_decode_utf8(names);
    let bytes = encode_utf8(names);
    let head = bytes.subrange(0, CUT_BYTES as int);
    decode_utf8_split(bytes, CUT_BYTES as int);
    vstd::utf8::valid_utf8_split(bytes, CUT_BYTES as int);
    vstd::utf8::decode_utf8_encode_utf8(head);
    let n = decode_utf8(head).len() as int;
    assert(names.take(n) =~= decode_utf8(head));
}

/// Whether folder names can be shown: those that are too long must be cut between two characters.
pub fn label_fits(names: &Vec<String>) -> (fits: bool)
    ensures
        fits == can_be_cut(joined(texts_view(names@), ", "@)),
{
    let text = join_texts(names, ", ");
    let bytes = text.as_str().as_bytes();
    bytes.len() <= LABEL_BYTES || text.as_str().is_char_boundary(CUT_BYTES)
}

/// Folder names, cut if they are too long.
pub fn cut_names(names: &str) -> (shown: String)
    requires
        can_be_cut(names@),
    ensures
        shown@ == shown_names(names@),
{
    let bytes = names.as_bytes();
    if bytes.len() > LABEL_BYTES {
        let (head, _) = names.split_at(CUT_BYTES);
        proof {
            encode_utf8_decode_utf8(head@);
        }
        head.to_owned().concat("...")
    } else {
        names.to_owned()
    }
}

/// What is shown of the selected folders.
pub fn folder_display(ids: &Vec<FolderId>, names: &Vec<String>) -> (text: String)
    requires
        can_be_cut(joined(texts_view(names@), ", "@)),
    ensures
        text@ == folder_text(ids@.len(), texts_view(names@)),
{
    if ids.len() == 0 {
        NO_FOLDERS.to_owned()
    } else if names.len() > 0 {
        let all = join_texts(names, ", ");
        cut_names(all.as_str())
    } else {
        folders_selected_text(ids.len())
    }
}

/// The options of a filter run.
pub struct FilterNowSettings {
    pub folders: Seq<FolderId>,
    pub only_unread: bool,
    pub only_unseen: bool,
    pub action_all: bool,
}

impl View for FilterNowConfig {
    type V = FilterNowSettings;

    open spec fn view(&self) -> FilterNowSettings {
        FilterNowSettings {
            folders: self.folder_ids@,
            only_unread: self.only_unread,
            only_unseen: self.only_unseen,
            action_all: self.action_all,
        }
    }
}

/// A copy of a filter run's options.
pub fn copy_settings(config: &FilterNowConfig) -> (copy: FilterNowConfig)
    ensures
        copy@ == config@,
{
    FilterNowConfig {
        folder_ids: copy_folders(&config.folder_ids),
        only_unread: config.only_unread,
        only_unseen: config.only_unseen,
        action_all: config.action_all,
    }
}

/// What a filter run reports.
#[derive(Debug)]
pub enum FilterProgress {
    /// A status to show.
    Status(String),
    /// The run has ended.
    Complete { was_cancelled: bool },
}

/// What the dialog shows and remembers.
pub struct FilterNowView {
    /// The options as they are selected.
    pub selected: FilterNowSettings,
    /// The options that are saved.
    pub saved: FilterNowSettings,
    pub names: Seq<Seq<char>>,
    pub folder_label: Seq<char>,
    pub is_filtering: bool,
    pub cancelled: bool,
    pub status: Seq<char>,
    pub button_label: &'static str,
    pub pulsing: bool,
    pub open: bool,
}

impl FilterNowView {
    /// The dialog when a run starts: the options are saved.
    pub open spec fn started(self) -> FilterNowView {
        FilterNowView {
            saved: self.selected,
            is_filtering: true,
            cancelled: false,
            status: RUNNING@,
            button_label: STOP_LABEL,
            pulsing: true,
            ..self
        }
    }

    /// The dialog after the stop button was pressed: the run is asked to stop.
    pub open spec fn stopping(self) -> FilterNowView {
        FilterNowView {
            cancelled: true,
            status: STOPPING@,
            button_label: START_LABEL,
            pulsing: false,
            ..self
        }
    }

    /// The dialog after a run's end was reported.
    pub open spec fn finished(self, was_cancelled: bool) -> FilterNowView {
        FilterNowView {
            is_filtering: false,
            status: if was_cancelled {
                STOPPED@
            } else {
                COMPLETE@
            },
            button_label: START_LABEL,
            pulsing: false,
            ..self
        }
    }

    /// The dialog after it was closed: a run on account of which the user was asked is told to stop.
    pub open spec fn closed(self, confirmed: Option<bool>) -> FilterNowView {
        FilterNowView {
            cancelled: self.cancelled || confirmed == Some(true),
            is_filtering: false,
            open: false,
            ..self
        }
    }
}

/// What a press of the start and stop button calls for.
#[derive(Debug)]
pub enum StartStop {
    /// An error is shown.
    Refuse(&'static str),
    /// A run with these options begins.
    Run(FilterNowConfig),
    /// The run is asked to stop.
    Stop,
}

/// What a wish to close the dialog calls for.
#[derive(Debug, Clone, Copy, PartialEq, Eq)]
pub enum CloseStep {
    /// The user is asked.
    Ask(&'static str),
    /// The dialog stays.
    Stay,
    /// The dialog goes.
    Close,
}

/// The Filter Now dialog.
#[derive(Debug)]
pub struct FilterNowDialog {
    /// The options as they are selected.
    pub selected: FilterNowConfig,
    /// The options that are saved.
    pub saved: FilterNowConfig,
    /// The names of the selected folders, where they are known.
    pub folder_names: Vec<String>,
    /// What is shown of the selected folders.
    pub folder_label: String,
    /// Whether a run goes on.
    pub is_filtering: bool,
    /// Whether the run is asked to stop.
    pub cancelled: bool,
    pub status: String,
    /// The label of the start and stop button.
    pub button_label: &'static str,
    /// Whether the bar moves.
    pub pulsing: bool,
    /// Whether the dialog is on the screen.
    pub open: bool,
}

impl View for FilterNowDialog {
    type V = FilterNowView;

    open spec fn view(&self) -> FilterNowView {
        FilterNowView {
            selected: self.selected@,
            saved: self.saved@,
            names: texts_view(self.folder_names@),
            folder_label: self.folder_label@,
            is_filtering: self.is_filtering,
            cancelled: self.cancelled,
            status: self.status@,
            button_label: self.button_label,
            pulsing: self.pulsing,
            open: self.open,
        }
    }
}

impl FilterNowDialog {
    /// The dialog for the given options.
    pub fn new(config: &FilterNowConfig) -> (dialog: FilterNowDialog)
        ensures
            dialog@ == (FilterNowView {
                selected: config@,
                saved: config@,
                names: seq![],
                folder_label: folder_text(config@.folders.len(), seq![]),
                is_filtering: false,
                cancelled: false,
                status: READY@,
                button_label: START_LABEL,
                pulsing: false,
                open: true,
            }),
    {
        let folder_label = if config.folder_ids.len() == 0 {
            NO_FOLDERS.to_owned()
        } else {
            folders_selected_text(config.folder_ids.len())
        };
        let dialog = FilterNowDialog {
            selected: copy_settings(config),
            saved: copy_settings(config),
            folder_names: Vec::new(),
            folder_label,
            is_filtering: false,
            cancelled: false,
            status: READY.to_owned(),
            button_label: START_LABEL,
            pulsing: false,
            open: true,
        };
        assert(texts_view(dialog.folder_names@) =~= Seq::<Seq<char>>::empty());
        dialog
    }

    /// Takes the outcome of browsing for folders. Nothing changes if the browsing was cancelled.
    pub fn on_browsed(&mut self, selections: &Option<Vec<(FolderId, String)>>)
        requires
            selections matches Some(list) ==> can_be_cut(joined(selected_names(list@), ", "@)),
        ensures
            final(self)@ == (match *selections {
                Some(list) => FilterNowView {
                    selected: FilterNowSettings {
                        folders: selected_ids(list@),
                        ..old(self)@.selected
                    },
                    names: selected_names(list@),
                    folder_label: folder_text(list@.len(), selected_names(list@)),
                    ..old(self)@
                },
                None => old(self)@,
            }),
    {
        if let Some(list) = selections {
            let mut ids: Vec<FolderId> = Vec::new();
            let mut names: Vec<String> = Vec::new();
            let mut i: usize = 0;
            while i < list.len()
                invariant
                    i <= list.len(),
                    ids@ =~= selected_ids(list@).take(i as int),
                    texts_view(names@) =~= selected_names(list@).take(i as int),
                decreases list.len() - i,
            {
                let ghost before = texts_view(names@);
                ids.push(list[i].0.clone());
                names.push(list[i].1.clone());
                i = i + 1;
                assert(texts_view(names@) =~= before.push(list@[i - 1].1@));
            }
            assert(selected_ids(list@).take(i as int) =~= selected_ids(list@));
            assert(selected_names(list@).take(i as int) =~= selected_names(list@));
            self.folder_label = folder_display(&ids, &names);
            self.selected.folder_ids = ids;
            self.folder_names = names;
        }
    }

    /// Takes the options as the buttons and boxes show them.
    pub fn on_options_changed(&mut self, action_all: bool, only_unread: bool, only_unseen: bool)
        ensures
            final(self)@ == (FilterNowView {
                selected: FilterNowSettings {
                    action_all,
                    only_unread,
                    only_unseen,
                    ..old(self)@.selected
                },
                ..old(self)@
            }),
    {
        self.selected.action_all = action_all;
        self.selected.only_unread = only_unread;
        self.selected.only_unseen = only_unseen;
    }

    /// Takes a press of the start and stop button.
    pub fn on_start_stop(&mut self) -> (step: StartStop)
        ensures
            if old(self)@.is_filtering {
                step is Stop && final(self)@ == old(self)@.stopping()
            } else {
                starts(old(self)@, final(self)@, step)
            },
    {
        if self.is_filtering {
            self.stop_filtering();
            StartStop::Stop
        } else {
            self.start_filtering()
        }
    }

    /// Saves the options and begins a run with them, unless no folder is selected.
    pub fn start_filtering(&mut self) -> (step: StartStop)
        ensures
            starts(old(self)@, final(self)@, step),
    {
        if self.selected.folder_ids.len() == 0 {
            return StartStop::Refuse(SELECT_FOLDER);
        }
        self.saved = copy_settings(&self.selected);
        self.is_filtering = true;
        self.cancelled = false;
        self.button_label = STOP_LABEL;
        self.status = RUNNING.to_owned();
        self.pulsing = true;
        StartStop::Run(copy_settings(&self.selected))
    }

    /// Asks the run to stop.
    pub fn stop_filtering(&mut self)
        ensures
            final(self)@ == old(self)@.stopping(),
    {
        self.cancelled = true;
        self.button_label = START_LABEL;
        self.status = STOPPING.to_owned();
        self.pulsing = false;
    }

    /// Takes the run's own note that it has ended, which comes before its report.
    pub fn on_run_ended(&mut self)
        ensures
            final(self)@ == (FilterNowView { is_filtering: false, ..old(self)@ }),
    {
        self.is_filtering = false;
    }

    /// Takes a report of the run. Says whether it was the last one.
    pub fn on_progress(&mut self, progress: FilterProgress) -> (last: bool)
        ensures
            match progress {
                FilterProgress::Status(text) => !last && final(self)@ == (FilterNowView {
                    status: text@,
                    ..old(self)@
                }),
                FilterProgress::Complete { was_cancelled } => last && final(self)@ == old(
                    self
                )@.finished(was_cancelled),
            },
    {
        match progress {
            FilterProgress::Status(text) => {
                self.status = text;
                false
            },
            FilterProgress::Complete { was_cancelled } => {
                self.is_filtering = false;
                self.button_label = START_LABEL;
                self.pulsing = false;
                self.status = if was_cancelled {
                    STOPPED.to_owned()
                } else {
                    COMPLETE.to_owned()
                };
                true
            },
        }
    }

    /// Takes the close button. `confirmed` is the answer to the question whether the dialog is to
    /// close during a run, once it was asked.
    pub fn close(&mut self, confirmed: Option<bool>) -> (step: CloseStep)
        ensures
            step == close_step(old(self)@.is_filtering, confirmed),
            final(self)@ == (if step is Close {
                FilterNowView { pulsing: false, ..old(self)@.closed(confirmed) }
            } else {
                old(self)@
            }),
    {
        let step = self.on_close_request(confirmed);
        if let CloseStep::Close = step {
            self.pulsing = false;
        }
        step
    }

    /// Takes the window's own close request.
    pub fn on_close_request(&mut self, confirmed: Option<bool>) -> (step: CloseStep)
        ensures
            step == close_step(old(self)@.is_filtering, confirmed),
            final(self)@ == (if step is Close {
                old(self)@.closed(confirmed)
            } else {
                old(self)@
            }),
    {
        match confirmed {
            None => {
                if self.is_filtering {
                    return CloseStep::Ask(CLOSE_QUESTION);
                }
            },
            Some(sure) => {
                if !sure {
                    return CloseStep::Stay;
                }
                self.cancelled = true;
                self.is_filtering = false;
            },
        }
        self.open = false;
        CloseStep::Close
    }
}

/// What a wish to close calls for: during a run the user is asked first, and the answer counts even
/// if the run has ended meanwhile.
pub open spec fn close_step(is_filtering: bool, confirmed: Option<bool>) -> CloseStep {
    match confirmed {
        None => if is_filtering {
            CloseStep::Ask(CLOSE_QUESTION)
        } else {
            CloseStep::Close
        },
        Some(true) => CloseStep::Close,
        Some(false) => CloseStep::Stay,
    }
}

/// What a press of the start button does: without a folder an error is shown and nothing changes,
/// else a run with the selected options begins.
pub open spec fn starts(before: FilterNowView, after: FilterNowView, step: StartStop) -> bool {
    if before.selected.folders.len() == 0 {
        step == StartStop::Refuse(SELECT_FOLDER) && after == before
    } else {
        &&& after == before.started()
        &&& step matches StartStop::Run(options)
        &&& options@ == before.selected
    }
}

/// A run that was stopped still counts as going on until it has ended, so that the button does
/// not start a second run beside it.
pub proof fn no_second_run_beside_the_first(dialog: FilterNowView)
    ensures
        dialog.started().is_filtering,
        dialog.started().stopping().is_filtering,
        dialog.started().stopping().cancelled,
        !dialog.started().stopping().finished(true).is_filtering,
{
}

/// A run that goes through leaves the dialog as it was, but for the saved options and the status.
pub proof fn a_run_leaves_the_dialog_ready(dialog: FilterNowView)
    requires
        dialog.button_label == START_LABEL,
        !dialog.is_filtering,
        !dialog.cancelled,
        !dialog.pulsing,
    ensures
        dialog.started().finished(false) == (FilterNowView {
            saved: dialog.selected,
            status: COMPLETE@,
            ..dialog
        }),
{
}

/// The word for a truth value.
pub open spec fn word_for(flag: bool) -> Seq<char> {
    if flag {
        "true"@
    } else {
        "false"@
    }
}

/// The word for a truth value.
fn truth_word(flag: bool) -> (word: &'static str)
    ensures
        word@ == word_for(flag),
{
    if flag {
        "true"
    } else {
        "false"
    }
}

/// A run's report when it turns to a folder, the `number`th of `total`.
pub open spec fn folder_report(number: nat, total: nat, options: FilterNowSettings) -> Seq<char> {
    "Filtering folder "@ + decimal(number) + " of "@ + decimal(total) + " (action_all="@ + word_for(
        options.action_all,
    ) + ", unread="@ + word_for(options.only_unread) + ", unseen="@ + word_for(options.only_unseen)
        + ")..."@
}

/// The milliseconds that a run spends on a folder.
pub const FOLDER_MS: u64 = 500;

/// What a run does next.
#[derive(Debug)]
pub enum RunStep {
    /// Reports and works on the next folder.
    Work(FilterProgress),
    /// Reports that it was stopped and turns to its end.
    Stop(FilterProgress),
    /// Notes that it has ended and reports it.
    End(FilterProgress),
}

/// A filter run over the selected folders.
#[derive(Debug)]
pub struct FilterRun {
    pub options: FilterNowConfig,
    /// The folders that are done or begun.
    pub begun: usize,
    /// Whether the run was stopped before all folders were begun.
    pub stopped: bool,
    /// Whether the run has ended.
    pub ended: bool,
}

impl FilterRun {
    /// No more folders are begun than there are.
    pub open spec fn wf(&self) -> bool {
        self.begun <= self.options@.folders.len()
    }

    /// How many steps the run can still take.
    pub open spec fn steps_left(&self) -> int {
        if self.ended {
            0
        } else if self.stopped {
            1
        } else {
            self.options@.folders.len() - self.begun + 2
        }
    }

    /// A run with the given options.
    pub fn new(options: FilterNowConfig) -> (run: FilterRun)
        ensures
            run.wf(),
            run.options == options,
            run.begun == 0,
            !run.stopped,
            !run.ended,
    {
        FilterRun { options, begun: 0, stopped: false, ended: false }
    }

    /// The run's next step. `cancelled` says whether the run is asked to stop.
    pub fn step(&mut self, cancelled: bool) -> (step: RunStep)
        requires
            old(self).wf(),
            !old(self).ended,
        ensures
            final(self).wf(),
            final(self).options == old(self).options,
            final(self).steps_left() < old(self).steps_left(),
            if old(self).stopped || old(self).begun == old(self).options@.folders.len() {
                &&& step == RunStep::End(FilterProgress::Complete { was_cancelled: cancelled })
                &&& final(self).ended
                &&& final(self).begun == old(self).begun
                &&& final(self).stopped == old(self).stopped
            } else if cancelled {
                &&& step matches RunStep::Stop(FilterProgress::Status(text))
                &&& text@ == CANCELLED@
                &&& final(self).stopped
                &&& !final(self).ended
                &&& final(self).begun == old(self).begun
            } else {
                &&& step matches RunStep::Work(FilterProgress::Status(text))
                &&& text@ == folder_report(
                    (old(self).begun + 1) as nat,
                    old(self).options@.folders.len(),
                    old(self).options@,
                )
                &&& final(self).begun == old(self).begun + 1
                &&& !final(self).stopped
                &&& !final(self).ended
            },
    {
        let total: usize = self.options.folder_ids.len();
        if self.stopped || self.begun == total {
            self.ended = true;
            return RunStep::End(FilterProgress::Complete { was_cancelled: cancelled });
        }
        if cancelled {
            self.stopped = true;
            return RunStep::Stop(FilterProgress::Status(CANCELLED.to_owned()));
        }
        self.begun = self.begun + 1;
        let mut text = "Filtering folder ".to_owned();
        push_decimal(&mut text, self.begun as u64);
        text.append(" of ");
        push_decimal(&mut text, total as u64);
        text.append(" (action_all=");
        text.append(truth_word(self.options.action_all));
        text.append(", unread=");
        text.append(truth_word(self.options.only_unread));
        text.append(", unseen=");
        text.append(truth_word(self.options.only_unseen));
        text.append(")...");
        RunStep::Work(FilterProgress::Status(text))
    }
}

/// A run starts exactly if a folder is selected, with the options that are selected then, which are
/// saved; without a folder nothing changes.
pub proof fn a_run_starts_with_the_selected_options(
    dialog: &mut FilterNowDialog,
    step: StartStop,
)
    requires
        call_ensures(FilterNowDialog::start_filtering, (dialog,), step),
    ensures
        step is Run <==> old(dialog).selected.folder_ids@.len() > 0,
        step matches StartStop::Run(options) ==> {
            let chosen = old(dialog).selected;
            &&& options.folder_ids@ == chosen.folder_ids@
            &&& options.only_unread == chosen.only_unread
            &&& options.only_unseen == chosen.only_unseen
            &&& options.action_all == chosen.action_all
            &&& final(dialog).saved.folder_ids@ == chosen.folder_ids@
            &&& final(dialog).saved.only_unread == chosen.only_unread
            &&& final(dialog).saved.only_unseen == chosen.only_unseen
            &&& final(dialog).saved.action_all == chosen.action_all
            &&& final(dialog).is_filtering
            &&& !final(dialog).cancelled
            &&& final(dialog).pulsing
            &&& final(dialog).status@ == "Filtering messages..."@
            &&& final(dialog).button_label@ == "Stop Filtering"@
        },
        !(step is Run) ==> step == StartStop::Refuse(SELECT_FOLDER) && final(dialog)@ == old(dialog)@,
{
    assert(old(dialog)@.selected == old(dialog).selected@);
    assert(final(dialog)@.saved == final(dialog).saved@);
    assert(final(dialog)@.status == final(dialog).status@);
    assert(final(dialog)@.is_filtering == final(dialog).is_filtering);
}

/// During a run the button asks it to stop, and the run counts as going on until it ends; else the
/// button starts one.
pub proof fn the_button_starts_and_stops(
    running: &mut FilterNowDialog,
    step: StartStop,
    idle: &mut FilterNowDialog,
    start: StartStop,
)
    requires
        old(running).is_filtering,
        !old(idle).is_filtering,
        call_ensures(FilterNowDialog::on_start_stop, (running,), step),
        call_ensures(FilterNowDialog::on_start_stop, (idle,), start),
    ensures
        step is Stop,
        final(running).cancelled,
        final(running).is_filtering,
        !final(running).pulsing,
        final(running).status@ == "Stopping..."@,
        final(running).button_label@ == "Start Filtering"@,
        final(running).saved@ == old(running).saved@,
        start is Run <==> old(idle).selected.folder_ids@.len() > 0,
        start is Refuse <==> old(idle).selected.folder_ids@.len() == 0,
{
    assert(old(running)@.is_filtering == old(running).is_filtering);
    assert(old(idle)@.is_filtering == old(idle).is_filtering);
    assert(final(running)@.cancelled == final(running).cancelled);
    assert(final(running)@.status == final(running).status@);
    assert(old(idle)@.selected.folders == old(idle).selected.folder_ids@);
}

/// A status of the run is shown and is not the last report; the last one ends the run and says
/// whether it was stopped or went through.
pub proof fn reports_of_a_run_are_shown(
    told: &mut FilterNowDialog,
    text: String,
    last: bool,
    ended: &mut FilterNowDialog,
    was_cancelled: bool,
    over: bool,
)
    requires
        call_ensures(FilterNowDialog::on_progress, (told, FilterProgress::Status(text)), last),
        call_ensures(
            FilterNowDialog::on_progress,
            (ended, FilterProgress::Complete { was_cancelled }),
            over,
        ),
    ensures
        !last,
        final(told).status@ == text@,
        final(told).is_filtering == old(told).is_filtering,
        final(told).cancelled == old(told).cancelled,
        over,
        !final(ended).is_filtering,
        !final(ended).pulsing,
        was_cancelled ==> final(ended).status@ == "Filtering stopped."@,
        !was_cancelled ==> final(ended).status@ == "Filtering complete!"@,
        final(ended).button_label@ == "Start Filtering"@,
        final(ended).selected@ == old(ended).selected@,
        final(ended).saved@ == old(ended).saved@,
{
    assert(final(told)@.status == final(told).status@);
    assert(final(told)@.is_filtering == final(told).is_filtering);
    assert(final(told)@.cancelled == final(told).cancelled);
    assert(final(ended)@.status == final(ended).status@);
    assert(final(ended)@.is_filtering == final(ended).is_filtering);
    assert(final(ended)@.pulsing == final(ended).pulsing);
    assert(final(ended)@.saved == final(ended).saved@);
}

/// The dialog closes at once while nothing runs, and during a run only if the user agrees, which
/// also asks the run to stop; a no keeps it as it is.
pub proof fn closing_during_a_run_is_asked_about(
    dialog: &mut FilterNowDialog,
    confirmed: Option<bool>,
    step: CloseStep,
    button: &mut FilterNowDialog,
    same: CloseStep,
)
    requires
        call_ensures(FilterNowDialog::on_close_request, (dialog, confirmed), step),
        *old(button) == *old(dialog),
        call_ensures(FilterNowDialog::close, (button, confirmed), same),
    ensures
        step == same,
        step is Ask <==> confirmed is None && old(dialog).is_filtering,
        step is Stay <==> confirmed is Some && !confirmed->0,
        step is Close ==> !final(dialog).open && !final(button).open && !final(dialog).is_filtering,
        step is Close && confirmed is Some ==> final(dialog).cancelled && final(button).cancelled,
        !(step is Close) ==> final(dialog)@ == old(dialog)@ && final(button)@ == old(button)@,
        final(dialog).saved@ == old(dialog).saved@,
{
    assert(final(dialog)@.open == final(dialog).open);
    assert(final(button)@.open == final(button).open);
    assert(final(dialog)@.cancelled == final(dialog).cancelled);
    assert(final(button)@.cancelled == final(button).cancelled);
    assert(final(dialog)@.is_filtering == final(dialog).is_filtering);
    assert(old(dialog)@.is_filtering == old(dialog).is_filtering);
    assert(final(dialog)@.saved == final(dialog).saved@);
}

/// Browsing takes all selected folders, in their order, and no option; options are taken each in
/// its place, and no folder. Neither saves anything yet.
pub proof fn folders_and_options_are_selected(
    browsed: &mut FilterNowDialog,
    list: Vec<(FolderId, String)>,
    changed: &mut FilterNowDialog,
    action_all: bool,
    only_unread: bool,
    only_unseen: bool,
)
    requires
        can_be_cut(joined(selected_names(list@), ", "@)),
        call_ensures(FilterNowDialog::on_browsed, (browsed, &Some(list)), ()),
        call_ensures(
            FilterNowDialog::on_options_changed,
            (changed, action_all, only_unread, only_unseen),
            (),
        ),
    ensures
        final(browsed).selected.folder_ids@.len() == list@.len(),
        forall|i: int|
            0 <= i < list@.len() ==> #[trigger] final(browsed).selected.folder_ids@[i]
                == list@[i].0,
        final(browsed).selected.action_all == old(browsed).selected.action_all,
        final(browsed).selected.only_unread == old(browsed).selected.only_unread,
        final(browsed).selected.only_unseen == old(browsed).selected.only_unseen,
        final(browsed).saved@ == old(browsed).saved@,
        list@.len() == 0 ==> final(browsed).folder_label@ == "No folders selected"@,
        final(changed).selected.action_all == action_all,
        final(changed).selected.only_unread == only_unread,
        final(changed).selected.only_unseen == only_unseen,
        final(changed).selected.folder_ids@ == old(changed).selected.folder_ids@,
        final(changed).saved@ == old(changed).saved@,
{
    assert(final(browsed)@.selected == final(browsed).selected@);
    assert(final(browsed)@.saved == final(browsed).saved@);
    assert(final(browsed)@.folder_label == final(browsed).folder_label@);
    assert(final(changed)@.selected == final(changed).selected@);
    assert(final(changed)@.saved == final(changed).saved@);
    assert(final(browsed).selected@.folders == selected_ids(list@));
}

/// A new dialog holds the options of the settings, both as selected and as saved, and nothing runs.
pub proof fn a_new_dialog_holds_the_options(config: &FilterNowConfig, dialog: FilterNowDialog)
    requires
        call_ensures(FilterNowDialog::new, (config,), dialog),
    ensures
        dialog.selected.folder_ids@ == config.folder_ids@,
        dialog.selected.only_unread == config.only_unread,
        dialog.selected.only_unseen == config.only_unseen,
        dialog.selected.action_all == config.action_all,
        dialog.saved.folder_ids@ == config.folder_ids@,
        dialog.saved.only_unread == config.only_unread,
        dialog.saved.only_unseen == config.only_unseen,
        dialog.saved.action_all == config.action_all,
        !dialog.is_filtering,
        !dialog.cancelled,
        dialog.open,
        dialog.status@ == "Ready to filter"@,
        dialog.button_label@ == "Start Filtering"@,
        config.folder_ids@.len() == 0 ==> dialog.folder_label@ == "No folders selected"@,
        config.folder_ids@.len() > 0 ==> dialog.folder_label@ == folders_selected(
            config.folder_ids@.len(),
        ),
{
    assert(dialog@.selected == dialog.selected@);
    assert(dialog@.saved == dialog.saved@);
    assert(dialog@.status == dialog.status@);
    assert(dialog@.folder_label == dialog.folder_label@);
}

/// Names that are short are shown in full, with a comma between them; where no name is known, the
/// folders are counted.
pub proof fn selected_folders_are_shown(
    ids: &Vec<FolderId>,
    names: &Vec<String>,
    text: String,
)
    requires
        can_be_cut(joined(texts_view(names@), ", "@)),
        call_ensures(folder_display, (ids, names), text),
    ensures
        ids@.len() == 0 ==> text@ == "No folders selected"@,
        ids@.len() > 0 && names@.len() == 0 ==> text@ == folders_selected(ids@.len()),
        ids@.len() > 0 && names@.len() == 1 && encode_utf8(names@[0]@).len() <= 60 ==> text@
            == names@[0]@,
        ids@.len() > 0 && names@.len() == 2 && encode_utf8(
            names@[0]@ + ", "@ + names@[1]@,
        ).len() <= 60 ==> text@ == names@[0]@ + ", "@ + names@[1]@,
{
    let all = texts_view(names@);
    reveal_with_fuel(joined, 3);
    if names@.len() == 1 {
        assert(all[0] == names@[0]@);
    }
    if names@.len() == 2 {
        assert(all.drop_last()[0] == names@[0]@);
        assert(joined(all, ", "@) == all[0] + ", "@ + all[1]);
    }
}

/// A run takes the folders one by one, each with a report that names its number, how many there
/// are, and the options, and ends after the last; one that is asked to stop begins no further
/// folder, says so, and then ends. The end says whether the run was asked to stop.
pub proof fn a_run_takes_folder_by_folder(run: &mut FilterRun, cancelled: bool, step: RunStep)
    requires
        old(run).wf(),
        !old(run).ended,
        call_ensures(FilterRun::step, (run, cancelled), step),
    ensures
        step is End <==> old(run).stopped || old(run).begun == old(run).options.folder_ids@.len(),
        step is Stop <==> !(step is End) && cancelled,
        step is Work ==> final(run).begun == old(run).begun + 1,
        !(step is Work) ==> final(run).begun == old(run).begun,
        final(run).ended <==> step is End,
        final(run).stopped <==> old(run).stopped || step is Stop,
        step matches RunStep::End(report) ==> report == (FilterProgress::Complete {
            was_cancelled: cancelled,
        }),
        step matches RunStep::Stop(report) ==> report is Status && report->Status_0@
            == "Filtering cancelled."@,
        step matches RunStep::Work(report) ==> report is Status && report->Status_0@
            == "Filtering folder "@ + decimal((old(run).begun + 1) as nat) + " of "@ + decimal(
            old(run).options.folder_ids@.len(),
        ) + " (action_all="@ + (if old(run).options.action_all {
            "true"@
        } else {
            "false"@
        }) + ", unread="@ + (if old(run).options.only_unread {
            "true"@
        } else {
            "false"@
        }) + ", unseen="@ + (if old(run).options.only_unseen {
            "true"@
        } else {
            "false"@
        }) + ")..."@,
        final(run).options == old(run).options,
{
    assert(old(run).options@.folders == old(run).options.folder_ids@);
}

/// A run starts with no folder begun and with the options that it was given.
pub proof fn a_new_run_has_begun_nothing(options: FilterNowConfig, run: FilterRun)
    requires
        call_ensures(FilterRun::new, (options,), run),
    ensures
        run.begun == 0,
        !run.stopped,
        !run.ended,
        run.options == options,
{
}

/// Without a folder the user is asked to select one.
pub proof fn a_folder_is_asked_for(dialog: &mut FilterNowDialog, step: StartStop)
    requires
        old(dialog).selected.folder_ids@.len() == 0,
        call_ensures(FilterNowDialog::start_filtering, (dialog,), step),
    ensures
        step is Refuse,
        step->Refuse_0@ == "Please select at least one folder to filter."@,
{
    assert(old(dialog)@.selected == old(dialog).selected@);
}

/// Names that need more than 60 bytes are cut to the characters of the first 57, and dots show it;
/// shorter ones are shown in full. They can be shown exactly if no character would be cut apart.
pub proof fn long_names_are_cut(names: &str, shown: String, list: &Vec<String>, fits: bool)
    requires
        can_be_cut(names@),
        call_ensures(cut_names, (names,), shown),
        call_ensures(label_fits, (list,), fits),
    ensures
        encode_utf8(names@).len() <= 60 ==> shown@ == names@,
        encode_utf8(names@).len() > 60 ==> exists|n: int|
            0 <= n <= names@.len() && shown@ == #[trigger] names@.take(n) + "..."@ && encode_utf8(
                names@.take(n),
            ).len() == 57,
        list@.len() == 1 && encode_utf8(list@[0]@).len() <= 60 ==> fits,
        list@.len() == 1 && encode_utf8(list@[0]@).len() > 60 ==> (fits <==> is_char_boundary(
            encode_utf8(list@[0]@),
            57,
        )),
        list@.len() == 0 ==> fits,
{
    if encode_utf8(names@).len() > 60 {
        cut_names_keep_their_beginning(names@);
    }
    let all = texts_view(list@);
    if list@.len() == 1 {
        assert(all[0] == list@[0]@);
    }
    reveal_with_fuel(encode_utf8, 1);
}

/// Options that are copied are the same, each in its place.
pub proof fn copied_options_are_the_same(options: &FilterNowConfig, copy: FilterNowConfig)
    requires
        call_ensures(copy_settings, (options,), copy),
    ensures
        copy.folder_ids@ == options.folder_ids@,
        copy.only_unread == options.only_unread,
        copy.only_unseen == options.only_unseen,
        copy.action_all == options.action_all,
{
}

/// Asking a run to stop, and its end, change what the dialog shows, and neither the options nor the
/// folders; browsing that was cancelled changes nothing at all.
pub proof fn stopping_changes_no_option(
    stopped: &mut FilterNowDialog,
    ended: &mut FilterNowDialog,
    browsed: &mut FilterNowDialog,
)
    requires
        call_ensures(FilterNowDialog::stop_filtering, (stopped,), ()),
        call_ensures(FilterNowDialog::on_run_ended, (ended,), ()),
        call_ensures(FilterNowDialog::on_browsed, (browsed, &None), ()),
    ensures
        final(stopped).cancelled,
        !final(stopped).pulsing,
        final(stopped).is_filtering == old(stopped).is_filtering,
        final(stopped).status@ == "Stopping..."@,
        final(stopped).button_label@ == "Start Filtering"@,
        final(stopped).selected@ == old(stopped).selected@,
        final(stopped).saved@ == old(stopped).saved@,
        !final(ended).is_filtering,
        final(ended).pulsing == old(ended).pulsing,
        final(ended).status@ == old(ended).status@,
        final(ended).cancelled == old(ended).cancelled,
        final(ended).selected@ == old(ended).selected@,
        final(browsed)@ == old(browsed)@,
{
    assert(final(stopped)@.status == final(stopped).status@);
    assert(final(stopped)@.cancelled == final(stopped).cancelled);
    assert(final(ended)@.status == final(ended).status@);
    assert(final(ended)@.is_filtering == final(ended).is_filtering);
    assert(final(ended)@.cancelled == final(ended).cancelled);
}

/// What is shown of the folders are their names, one after the other and cut where they are too
/// long, if there are folders and names; so also after browsing, with the names that were browsed.
pub proof fn selected_folders_are_shown_by_name(
    ids: &Vec<FolderId>,
    names: &Vec<String>,
    text: String,
    all: String,
    whole: &str,
    cut: String,
    dialog: &mut FilterNowDialog,
    list: Vec<(FolderId, String)>,
)
    requires
        can_be_cut(joined(texts_view(names@), ", "@)),
        ids@.len() > 0,
        names@.len() > 0,
        call_ensures(folder_display, (ids, names), text),
        call_ensures(join_texts, (names, ", "), all),
        whole@ == all@,
        call_ensures(cut_names, (whole,), cut),
        list@.len() == names@.len(),
        forall|i: int| 0 <= i < list@.len() ==> #[trigger] names@[i] == list@[i].1,
        call_ensures(FilterNowDialog::on_browsed, (dialog, &Some(list)), ()),
    ensures
        text@ == cut@,
        final(dialog).folder_label@ == text@,
        final(dialog).folder_names@.len() == list@.len(),
        forall|i: int|
            0 <= i < list@.len() ==> (#[trigger] final(dialog).folder_names@[i])@ == list@[i].1@,
{
    assert(texts_view(names@) =~= selected_names(list@));
    assert(final(dialog)@.folder_label == final(dialog).folder_label@);
    let shown = texts_view(final(dialog).folder_names@);
    assert(final(dialog)@.names == shown);
    assert(shown.len() == final(dialog).folder_names@.len());
    assert forall|i: int| 0 <= i < list@.len() implies (#[trigger] final(dialog).folder_names@[i])@
        == list@[i].1@ by {
        assert(shown[i] == selected_names(list@)[i]);
    }
}

/// Closing without a question asks no run to stop; the close button also ends the bar's movement,
/// and no way of closing changes the options.
pub proof fn closing_keeps_the_options(
    dialog: &mut FilterNowDialog,
    confirmed: Option<bool>,
    step: CloseStep,
    button: &mut FilterNowDialog,
    same: CloseStep,
)
    requires
        call_ensures(FilterNowDialog::on_close_request, (dialog, confirmed), step),
        call_ensures(FilterNowDialog::close, (button, confirmed), same),
    ensures
        confirmed is None ==> final(dialog).cancelled == old(dialog).cancelled,
        confirmed is None && old(dialog).is_filtering ==> step is Ask && step->0@
            == "Filtering is still in progress. Are you sure you want to close?"@,
        confirmed is None && !old(dialog).is_filtering ==> step is Close,
        confirmed is Some && confirmed->0 ==> step is Close && final(dialog).cancelled,
        same is Close ==> !final(button).pulsing,
        final(dialog).pulsing == old(dialog).pulsing,
        final(dialog).selected@ == old(dialog).selected@,
        final(button).selected@ == old(button).selected@,
        final(button).saved@ == old(button).saved@,
{
    assert(final(dialog)@.cancelled == final(dialog).cancelled);
    assert(old(dialog)@.cancelled == old(dialog).cancelled);
    assert(final(dialog)@.pulsing == final(dialog).pulsing);
    assert(final(button)@.pulsing == final(button).pulsing);
    assert(final(dialog)@.selected == final(dialog).selected@);
    assert(final(button)@.selected == final(button).selected@);
}

/// Half a second is spent on each folder.
pub proof fn a_folder_takes_half_a_second()
    ensures
        2 * FOLDER_MS == 1000,
{
}

} // verus!
