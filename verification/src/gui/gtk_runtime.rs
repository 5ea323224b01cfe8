//! The user interface's runtime: what its thread is asked to show, and the guard that keeps the
//! manager window from being opened twice.
//!
//! The surrounding program runs the thread, carries the commands to it and keeps the callbacks that
//! belong to them.

use vstd::prelude::*;

use crate::config::AppConfig;
use crate::gui::folder_browser::FolderNode;
use crate::gui::message_boxes::{MsgBoxKind, MsgBoxResult};
use crate::gui::wizard_window::WizardResult;
use crate::manager_dlg::{zero_stats, ManagerState, ManagerStats};
use crate::registry::get_dll_path;
use crate::text::{join_path, path_in, text_view};
use crate::wide::utf16_text;

verus! {

/// Why the user interface could not be started.
#[derive(Debug)]
pub enum GtkInitError {
    /// The toolkit's libraries were not found.
    DllsNotFound(String),
    /// The toolkit could not be initialized for another reason.
    InitFailed(String),
    /// The thread could not be started, or ended before it was ready.
    ThreadStartFailed(String),
}

/// The text of an error.
pub open spec fn error_text(error: GtkInitError) -> Seq<char> {
    match error {
        GtkInitError::DllsNotFound(detail) => "GTK4 runtime DLLs not found: "@ + detail@,
        GtkInitError::InitFailed(detail) => "GTK4 initialization failed: "@ + detail@,
        GtkInitError::ThreadStartFailed(detail) => "GTK4 thread startup failed: "@ + detail@,
    }
}

impl GtkInitError {
    /// The error as a text.
    pub fn message(&self) -> (text: String)
        ensures
            text@ == error_text(*self),
    {
        match self {
            GtkInitError::DllsNotFound(detail) => {
                "GTK4 runtime DLLs not found: ".to_owned().concat(detail.as_str())
            },
            GtkInitError::InitFailed(detail) => {
                "GTK4 initialization failed: ".to_owned().concat(detail.as_str())
            },
            GtkInitError::ThreadStartFailed(detail) => {
                "GTK4 thread startup failed: ".to_owned().concat(detail.as_str())
            },
        }
    }

    /// The error for a toolkit that could not be initialized; `detail` is what the toolkit said.
    pub fn not_initialized(detail: &str) -> (error: GtkInitError)
        ensures
            error matches GtkInitError::DllsNotFound(text) && text@
                == "gtk4::init() failed — GTK4 DLLs may not be installed: "@ + detail@,
    {
        GtkInitError::DllsNotFound(
            "gtk4::init() failed — GTK4 DLLs may not be installed: ".to_owned().concat(detail),
        )
    }
}

/// What the thread is asked to do.
#[derive(Debug)]
pub enum GuiCommand {
    /// Show the manager window.
    ShowManager {
        state: ManagerState,
        config: AppConfig,
        folder_tree: Option<Vec<FolderNode>>,
        /// What is shown on training; zeros if it is not known.
        stats: Option<ManagerStats>,
    },
    /// Bring the manager window to the front.
    RaiseManager,
    /// Show the configuration wizard.
    ShowWizard,
    /// Show the Filter Now dialog.
    ShowFilterNow { config: AppConfig, folder_tree: Option<Vec<FolderNode>> },
    /// Show a message box; the answer is sent back.
    ShowMessageBox { kind: MsgBoxKind, title: String, message: String },
    /// Show the clues on a message.
    ShowClues { subject: String, clues_text: String },
    /// End the thread.
    Shutdown,
}

/// What the thread does.
#[derive(Debug)]
pub enum GuiAction {
    OpenManager {
        state: ManagerState,
        config: AppConfig,
        folder_tree: Option<Vec<FolderNode>>,
        stats: ManagerStats,
    },
    RaiseManager,
    OpenWizard,
    OpenFilterNow { config: AppConfig, folder_tree: Option<Vec<FolderNode>> },
    OpenMessageBox { kind: MsgBoxKind, title: String, message: String },
    OpenClues { subject: String, clues_text: String },
    Quit,
    Nothing,
}

/// What the thread does on a command while the manager window is open or not.
pub open spec fn action_on(is_open: bool, command: GuiCommand) -> GuiAction {
    match command {
        GuiCommand::ShowManager { state, config, folder_tree, stats } => {
            if is_open {
                GuiAction::RaiseManager
            } else {
                GuiAction::OpenManager {
                    state,
                    config,
                    folder_tree,
                    stats: match stats {
                        Some(known) => known,
                        None => zero_stats(),
                    },
                }
            }
        },
        GuiCommand::RaiseManager => if is_open {
            GuiAction::RaiseManager
        } else {
            GuiAction::Nothing
        },
        GuiCommand::ShowWizard => GuiAction::OpenWizard,
        GuiCommand::ShowFilterNow { config, folder_tree } => GuiAction::OpenFilterNow {
            config,
            folder_tree,
        },
        GuiCommand::ShowMessageBox { kind, title, message } => GuiAction::OpenMessageBox {
            kind,
            title,
            message,
        },
        GuiCommand::ShowClues { subject, clues_text } => GuiAction::OpenClues {
            subject,
            clues_text,
        },
        GuiCommand::Shutdown => GuiAction::Quit,
    }
}

/// Whether the manager window is open after a command.
pub open spec fn open_after(is_open: bool, command: GuiCommand) -> bool {
    is_open || command is ShowManager
}

/// The command that shows the manager window, or brings it to the front if it is open.
pub open spec fn manager_command(
    is_open: bool,
    state: ManagerState,
    config: AppConfig,
    folder_tree: Option<Vec<FolderNode>>,
    stats: Option<ManagerStats>,
) -> GuiCommand {
    if is_open {
        GuiCommand::RaiseManager
    } else {
        GuiCommand::ShowManager { state, config, folder_tree, stats }
    }
}

/// There is one manager window at most: it is opened only while it is not open, it is open then,
/// and until it is closed no command opens another one.
pub proof fn one_manager_window(is_open: bool, first: GuiCommand, second: GuiCommand)
    ensures
        action_on(is_open, first) is OpenManager ==> !is_open && open_after(is_open, first),
        open_after(is_open, first) ==> !(action_on(open_after(is_open, first), second) is OpenManager),
{
}

/// A manager window that is asked for while it is open comes to the front.
pub proof fn an_open_manager_is_raised(
    state: ManagerState,
    config: AppConfig,
    folder_tree: Option<Vec<FolderNode>>,
    stats: Option<ManagerStats>,
)
    ensures
        action_on(true, manager_command(true, state, config, folder_tree, stats)) is RaiseManager,
        action_on(true, manager_command(false, state, config, folder_tree, stats)) is RaiseManager,
        action_on(false, manager_command(false, state, config, folder_tree, stats)) is OpenManager,
{
}

/// The runtime of the user interface.
#[derive(Debug, Clone, Copy, PartialEq, Eq, Structural)]
pub struct GtkRuntime {
    /// Whether the manager window is open.
    pub is_open: bool,
}

impl GtkRuntime {
    /// A runtime whose thread has started: without a window. `spawned` says whether the thread
    /// could be started, and `ready` is what the thread then reported, if it did.
    pub fn init(spawned: Result<(), String>, ready: Option<Result<(), GtkInitError>>) -> (runtime:
        Result<GtkRuntime, GtkInitError>)
        ensures
            match spawned {
                Err(reason) => runtime == Err::<GtkRuntime, GtkInitError>(
                    GtkInitError::ThreadStartFailed(reason),
                ),
                Ok(_) => match ready {
                    None => runtime matches Err(GtkInitError::ThreadStartFailed(text)) && text@
                        == "GTK thread exited before signaling readiness"@,
                    Some(Err(error)) => runtime == Err::<GtkRuntime, GtkInitError>(error),
                    Some(Ok(_)) => runtime == Ok::<GtkRuntime, GtkInitError>(
                        GtkRuntime { is_open: false },
                    ),
                },
            },
    {
        match spawned {
            Err(reason) => Err(GtkInitError::ThreadStartFailed(reason)),
            Ok(_) => match ready {
                None => Err(
                    GtkInitError::ThreadStartFailed(
                        "GTK thread exited before signaling readiness".to_owned(),
                    ),
                ),
                Some(Err(error)) => Err(error),
                Some(Ok(_)) => Ok(GtkRuntime { is_open: false }),
            },
        }
    }

    /// Takes a command on the thread.
    pub fn handle(&mut self, command: GuiCommand) -> (action: GuiAction)
        ensures
            action == action_on(old(self).is_open, command),
            final(self).is_open == open_after(old(self).is_open, command),
    {
        match command {
            GuiCommand::ShowManager { state, config, folder_tree, stats } => {
                if self.is_open {
                    GuiAction::RaiseManager
                } else {
                    self.is_open = true;
                    let stats = match stats {
                        Some(known) => known,
                        None => ManagerStats::new(),
                    };
                    GuiAction::OpenManager { state, config, folder_tree, stats }
                }
            },
            GuiCommand::RaiseManager => {
                if self.is_open {
                    GuiAction::RaiseManager
                } else {
                    GuiAction::Nothing
                }
            },
            GuiCommand::ShowWizard => GuiAction::OpenWizard,
            GuiCommand::ShowFilterNow { config, folder_tree } => GuiAction::OpenFilterNow {
                config,
                folder_tree,
            },
            GuiCommand::ShowMessageBox { kind, title, message } => GuiAction::OpenMessageBox {
                kind,
                title,
                message,
            },
            GuiCommand::ShowClues { subject, clues_text } => GuiAction::OpenClues {
                subject,
                clues_text,
            },
            GuiCommand::Shutdown => GuiAction::Quit,
        }
    }

    /// The command for the manager window: show it, or bring it to the front if it is open.
    pub fn show_manager(
        &self,
        state: ManagerState,
        config: AppConfig,
        folder_tree: Option<Vec<FolderNode>>,
    ) -> (command: GuiCommand)
        ensures
            command == manager_command(self.is_open, state, config, folder_tree, None),
    {
        if self.is_open {
            GuiCommand::RaiseManager
        } else {
            GuiCommand::ShowManager { state, config, folder_tree, stats: None }
        }
    }

    /// The command for the manager window with numbers on training.
    pub fn show_manager_with_training(
        &self,
        state: ManagerState,
        config: AppConfig,
        folder_tree: Option<Vec<FolderNode>>,
        stats: Option<ManagerStats>,
    ) -> (command: GuiCommand)
        ensures
            command == manager_command(self.is_open, state, config, folder_tree, stats),
    {
        if self.is_open {
            GuiCommand::RaiseManager
        } else {
            GuiCommand::ShowManager { state, config, folder_tree, stats }
        }
    }

    /// The commands at the start: on the first run, when there are no settings yet, the wizard, and
    /// the manager window once the wizard is completed; else the manager window at once.
    pub fn show_manager_or_wizard(
        &self,
        first_run: bool,
        state: ManagerState,
        config: AppConfig,
        folder_tree: Option<Vec<FolderNode>>,
        stats: Option<ManagerStats>,
    ) -> (commands: (GuiCommand, Option<GuiCommand>))
        ensures
            first_run ==> commands == (
                GuiCommand::ShowWizard,
                Some(GuiCommand::ShowManager { state, config, folder_tree, stats }),
            ),
            !first_run ==> commands == (
                manager_command(self.is_open, state, config, folder_tree, stats),
                None::<GuiCommand>,
            ),
    {
        if first_run {
            (
                GuiCommand::ShowWizard,
                Some(GuiCommand::ShowManager { state, config, folder_tree, stats }),
            )
        } else {
            (self.show_manager_with_training(state, config, folder_tree, stats), None)
        }
    }

    /// The command after the wizard: the one that waits for it if it was completed. After a wizard
    /// that was cancelled there is none, and the end is reported at once.
    pub fn after_wizard(result: &WizardResult, waiting: GuiCommand) -> (command: Option<GuiCommand>)
        ensures
            command == (if *result is Completed {
                Some(waiting)
            } else {
                None
            }),
    {
        match result {
            WizardResult::Completed { .. } => Some(waiting),
            WizardResult::Cancelled => None,
        }
    }

    /// The command for the clues on a message.
    pub fn show_clues(subject: &str, clues_text: &str) -> (command: GuiCommand)
        ensures
            command matches GuiCommand::ShowClues { subject: about, clues_text: clues } && about@
                == subject@ && clues@ == clues_text@,
    {
        GuiCommand::ShowClues { subject: subject.to_owned(), clues_text: clues_text.to_owned() }
    }

    /// The command for a message box.
    pub fn show_message_box(kind: MsgBoxKind, title: &str, message: &str) -> (command: GuiCommand)
        ensures
            command matches GuiCommand::ShowMessageBox { kind: k, title: t, message: m } && k == kind
                && t@ == title@ && m@ == message@,
    {
        GuiCommand::ShowMessageBox { kind, title: title.to_owned(), message: message.to_owned() }
    }

    /// The result of a message box: what the thread sent back, or a cancellation if it ended.
    pub fn message_box(answer: Option<MsgBoxResult>) -> (result: MsgBoxResult)
        ensures
            result == (match answer {
                Some(sent) => sent,
                None => MsgBoxResult::Cancel,
            }),
    {
        match answer {
            Some(sent) => sent,
            None => MsgBoxResult::Cancel,
        }
    }

    /// Whether the manager window is open.
    pub fn is_manager_open(&self) -> (open: bool)
        ensures
            open == self.is_open,
    {
        self.is_open
    }

    /// Takes the manager window's end; it can be opened again then.
    pub fn mark_manager_closed(&mut self)
        ensures
            !final(self).is_open,
    {
        self.is_open = false;
    }
}

/// A library of the toolkit by which its directory is recognized.
pub const GTK_LIBRARY: &'static str = "libgtk-4-1.dll";

/// Where the toolkit's libraries may be found: as files beside the add-in, or in a directory there.
#[derive(Debug)]
pub struct GtkPlaces {
    /// The library's path if it lies beside the add-in.
    pub library: String,
    /// The directory beside the add-in.
    pub subdirectory: String,
}

/// The path of the add-in's file: the first `len` code units of the buffer that was filled. There
/// is none if nothing was filled in, or if the buffer was too short for it.
pub fn module_file_path(buffer: &[u16], len: usize) -> (path: Option<String>)
    ensures
        match path {
            Some(text) => 0 < len < buffer@.len() && text@ == utf16_text(buffer@.take(len as int)),
            None => len == 0 || len >= buffer@.len(),
        },
{
    if len >= buffer.len() {
        None
    } else {
        get_dll_path(buffer, len)
    }
}

/// The places where the toolkit's libraries may be found, for an add-in in the given directory.
pub fn gtk_places(parent: &str) -> (places: GtkPlaces)
    ensures
        places.library@ == path_in(parent@, GTK_LIBRARY@),
        places.subdirectory@ == path_in(parent@, "gtk4"@),
{
    GtkPlaces { library: join_path(parent, GTK_LIBRARY), subdirectory: join_path(parent, "gtk4") }
}

/// The directory with the toolkit's libraries, if they came with the add-in: that of the add-in if
/// they lie there, else the one beside it if there is one.
pub fn gtk_directory(parent: &str, library_found: bool, subdirectory_found: bool) -> (directory:
    Option<String>)
    ensures
        text_view(directory) == (if library_found {
            Some(parent@)
        } else if subdirectory_found {
            Some(path_in(parent@, "gtk4"@))
        } else {
            None
        }),
{
    if library_found {
        Some(parent.to_owned())
    } else if subdirectory_found {
        Some(join_path(parent, "gtk4"))
    } else {
        None
    }
}

/// The directory with the toolkit's shared data.
pub open spec fn share_path(directory: Seq<char>) -> Seq<char> {
    path_in(directory, "share"@)
}

/// The list of the toolkit's image loaders.
pub open spec fn loaders_path(directory: Seq<char>) -> Seq<char> {
    path_in(
        path_in(path_in(path_in(directory, "lib"@), "gdk-pixbuf-2.0"@), "2.10.0"@),
        "loaders.cache"@,
    )
}

/// The directory with the toolkit's shared data, and the list of its image loaders.
pub fn gtk_resources(directory: &str) -> (resources: (String, String))
    ensures
        resources.0@ == share_path(directory@),
        resources.1@ == loaders_path(directory@),
{
    let share = join_path(directory, "share");
    let lib = join_path(directory, "lib");
    let pixbuf = join_path(lib.as_str(), "gdk-pixbuf-2.0");
    let version = join_path(pixbuf.as_str(), "2.10.0");
    (share, join_path(version.as_str(), "loaders.cache"))
}

/// Environment variables by their names and values.
pub open spec fn variables_view(variables: Seq<(&'static str, String)>) -> Seq<
    (&'static str, Seq<char>),
> {
    Seq::new(variables.len(), |i: int| (variables[i].0, variables[i].1@))
}

/// What the environment variables are set to, so that the toolkit in the given directory is found:
/// the library path, the path of shared data if there are any, and the list of image loaders if
/// there is one. The directory comes before what the variables held.
pub open spec fn variables_for(
    directory: Seq<char>,
    path: Seq<char>,
    share_found: bool,
    data_dirs: Seq<char>,
    loaders_found: bool,
) -> Seq<(&'static str, Seq<char>)> {
    let library_path = seq![("PATH", directory + ";"@ + path)];
    let data = if !share_found {
        seq![]
    } else if data_dirs.len() == 0 {
        seq![("XDG_DATA_DIRS", share_path(directory))]
    } else {
        seq![("XDG_DATA_DIRS", share_path(directory) + ";"@ + data_dirs)]
    };
    let loaders = if loaders_found {
        seq![("GDK_PIXBUF_MODULE_FILE", loaders_path(directory))]
    } else {
        seq![]
    };
    library_path + data + loaders
}

/// What the environment variables are set to. `path` and `data_dirs` are what they hold, empty if
/// they are not set.
pub fn gtk_variables(
    directory: &str,
    path: &str,
    share_found: bool,
    data_dirs: &str,
    loaders_found: bool,
) -> (variables: Vec<(&'static str, String)>)
    ensures
        variables_view(variables@) == variables_for(
            directory@,
            path@,
            share_found,
            data_dirs@,
            loaders_found,
        ),
{
    let (share, loaders) = gtk_resources(directory);
    let mut variables: Vec<(&'static str, String)> = Vec::new();
    let library_path = directory.to_owned().concat(";").concat(path);
    variables.push(("PATH", library_path));
    if share_found {
        let data = if data_dirs.is_empty() {
            share
        } else {
            share.concat(";").concat(data_dirs)
        };
        variables.push(("XDG_DATA_DIRS", data));
    }
    if loaders_found {
        variables.push(("GDK_PIXBUF_MODULE_FILE", loaders));
    }
    assert(variables_view(variables@) =~= variables_for(
        directory@,
        path@,
        share_found,
        data_dirs@,
        loaders_found,
    ));
    variables
}

/// The title of the message for a user interface that could not be started.
pub const FALLBACK_TITLE: &'static str = "SpamBayes";

/// The message for a user interface that could not be started.
pub open spec fn fallback_text(error: GtkInitError) -> Seq<char> {
    "The SpamBayes GUI could not be initialized.\n\nError: "@ + error_text(error)
        + "\n\nThe spam filter will continue to work, but the settings manager is unavailable.\n\nPlease ensure GTK4 runtime libraries are installed."@
}

/// Gives the runtime, or the message to show if there is none.
pub fn init_or_fallback(started: Result<GtkRuntime, GtkInitError>) -> (outcome: Result<
    GtkRuntime,
    String,
>)
    ensures
        match started {
            Ok(runtime) => outcome == Ok::<GtkRuntime, String>(runtime),
            Err(error) => outcome matches Err(message) && message@ == fallback_text(error),
        },
{
    match started {
        Ok(runtime) => Ok(runtime),
        Err(error) => {
            let mut message = "The SpamBayes GUI could not be initialized.\n\nError: ".to_owned();
            message.append(error.message().as_str());
            message.append(
                "\n\nThe spam filter will continue to work, but the settings manager is unavailable.\n\nPlease ensure GTK4 runtime libraries are installed.",
            );
            Err(message)
        },
    }
}

/// The manager window is opened exactly if it is asked for while it is not open, with what it is to
/// show, and with zeros where numbers are not known; while it is open it is brought to the front,
/// and it counts as open from then on.
pub proof fn the_manager_is_opened_once(
    runtime: &mut GtkRuntime,
    command: GuiCommand,
    action: GuiAction,
)
    requires
        call_ensures(GtkRuntime::handle, (runtime, command), action),
    ensures
        action is OpenManager <==> command is ShowManager && !old(runtime).is_open,
        action is RaiseManager <==> (command is ShowManager || command is RaiseManager)
            && old(runtime).is_open,
        final(runtime).is_open <==> old(runtime).is_open || command is ShowManager,
        command matches GuiCommand::ShowManager { state, config, folder_tree, stats }
            ==> !old(runtime).is_open ==> {
            &&& action->OpenManager_state == state
            &&& action->OpenManager_config == config
            &&& action->OpenManager_folder_tree == folder_tree
            &&& stats is Some ==> action->OpenManager_stats == stats->0
            &&& stats is None ==> action->OpenManager_stats.ham_trained == 0
                && action->OpenManager_stats.spam_trained == 0
        },
        action is Quit <==> command is Shutdown,
        action is OpenWizard <==> command is ShowWizard,
        action is Nothing <==> command is RaiseManager && !old(runtime).is_open,
{
}

/// Dialogs and boxes are shown as they were asked for.
pub proof fn commands_are_carried_out_as_given(
    runtime: &mut GtkRuntime,
    command: GuiCommand,
    action: GuiAction,
)
    requires
        call_ensures(GtkRuntime::handle, (runtime, command), action),
    ensures
        command matches GuiCommand::ShowMessageBox { kind, title, message } ==> action
            == (GuiAction::OpenMessageBox { kind, title, message }),
        command matches GuiCommand::ShowClues { subject, clues_text } ==> action
            == (GuiAction::OpenClues { subject, clues_text }),
        command matches GuiCommand::ShowFilterNow { config, folder_tree } ==> action
            == (GuiAction::OpenFilterNow { config, folder_tree }),
{
}

/// On the first run the wizard comes first, and the manager window waits for its completion with
/// all that it is to show: a cancelled wizard leads to nothing. Else the window is shown, or
/// brought to the front if it is open.
pub proof fn the_wizard_comes_before_the_manager(
    runtime: &GtkRuntime,
    first_run: bool,
    state: ManagerState,
    config: AppConfig,
    folder_tree: Option<Vec<FolderNode>>,
    stats: Option<ManagerStats>,
    commands: (GuiCommand, Option<GuiCommand>),
    result: &WizardResult,
    after: Option<GuiCommand>,
)
    requires
        call_ensures(
            GtkRuntime::show_manager_or_wizard,
            (runtime, first_run, state, config, folder_tree, stats),
            commands,
        ),
        first_run ==> call_ensures(
            GtkRuntime::after_wizard,
            (result, commands.1->0),
            after,
        ),
    ensures
        first_run ==> commands.0 is ShowWizard && commands.1 is Some,
        first_run && *result is Completed ==> after == Some(
            GuiCommand::ShowManager { state, config, folder_tree, stats },
        ),
        first_run && *result is Cancelled ==> after is None,
        !first_run ==> commands.1 is None,
        !first_run && runtime.is_open ==> commands.0 is RaiseManager,
        !first_run && !runtime.is_open ==> commands.0 == (GuiCommand::ShowManager {
            state,
            config,
            folder_tree,
            stats,
        }),
{
}

/// The commands for the manager window name what is to be shown while it is not open, and raise it
/// while it is; the command without numbers on training shows none.
pub proof fn manager_commands_name_what_is_shown(
    runtime: &GtkRuntime,
    state: ManagerState,
    config: AppConfig,
    folder_tree: Option<Vec<FolderNode>>,
    stats: Option<ManagerStats>,
    plain: GuiCommand,
    with_numbers: GuiCommand,
)
    requires
        call_ensures(GtkRuntime::show_manager, (runtime, state, config, folder_tree), plain),
        call_ensures(
            GtkRuntime::show_manager_with_training,
            (runtime, state, config, folder_tree, stats),
            with_numbers,
        ),
    ensures
        runtime.is_open ==> plain is RaiseManager && with_numbers is RaiseManager,
        !runtime.is_open ==> plain == (GuiCommand::ShowManager {
            state,
            config,
            folder_tree,
            stats: None,
        }),
        !runtime.is_open ==> with_numbers == (GuiCommand::ShowManager {
            state,
            config,
            folder_tree,
            stats,
        }),
{
}

/// A message box that is answered gives the answer, and one that is not counts as cancelled; what
/// is asked for is what was said.
pub proof fn unanswered_boxes_are_cancelled(
    sent: MsgBoxResult,
    answered: MsgBoxResult,
    unanswered: MsgBoxResult,
    kind: MsgBoxKind,
    title: &str,
    message: &str,
    command: GuiCommand,
    clues: GuiCommand,
)
    requires
        call_ensures(GtkRuntime::message_box, (Some(sent),), answered),
        call_ensures(GtkRuntime::message_box, (None,), unanswered),
        call_ensures(GtkRuntime::show_message_box, (kind, title, message), command),
        call_ensures(GtkRuntime::show_clues, (title, message), clues),
    ensures
        answered == sent,
        unanswered is Cancel,
        command is ShowMessageBox,
        command->ShowMessageBox_kind == kind,
        command->ShowMessageBox_title@ == title@,
        command->ShowMessageBox_message@ == message@,
        clues is ShowClues,
        clues->ShowClues_subject@ == title@,
        clues->ShowClues_clues_text@ == message@,
{
}

/// A runtime starts without a window, and only if its thread was started and said that it is ready;
/// else it fails with the thread's own error, or with the reason why it could not be started. A
/// window that was closed can be opened again.
pub proof fn a_runtime_starts_when_its_thread_is_ready(
    spawned: Result<(), String>,
    ready: Option<Result<(), GtkInitError>>,
    runtime: Result<GtkRuntime, GtkInitError>,
    closed: &mut GtkRuntime,
    open: bool,
)
    requires
        call_ensures(GtkRuntime::init, (spawned, ready), runtime),
        call_ensures(GtkRuntime::mark_manager_closed, (closed,), ()),
        call_ensures(GtkRuntime::is_manager_open, (final(closed),), open),
    ensures
        runtime is Ok <==> spawned is Ok && ready is Some && ready->0 is Ok,
        runtime is Ok ==> !runtime->Ok_0.is_open,
        spawned is Err ==> runtime->Err_0 == GtkInitError::ThreadStartFailed(spawned->Err_0),
        spawned is Ok && ready is Some && ready->0 is Err ==> runtime->Err_0 == ready->0->Err_0,
        spawned is Ok && ready is None ==> runtime->Err_0 is ThreadStartFailed,
        !open,
{
}

/// The message for a user interface that could not be started holds the error's own text, which
/// names what is missing and ends with the detail; a runtime that started is handed on.
pub proof fn a_missing_toolkit_is_explained(
    error: GtkInitError,
    text: String,
    failed: Result<GtkRuntime, String>,
    runtime: GtkRuntime,
    started: Result<GtkRuntime, String>,
)
    requires
        call_ensures(GtkInitError::message, (&error,), text),
        call_ensures(init_or_fallback, (Err::<GtkRuntime, GtkInitError>(error),), failed),
        call_ensures(init_or_fallback, (Ok::<GtkRuntime, GtkInitError>(runtime),), started),
    ensures
        started == Ok::<GtkRuntime, String>(runtime),
        failed is Err,
        failed->Err_0@ == "The SpamBayes GUI could not be initialized.\n\nError: "@ + text@
            + "\n\nThe spam filter will continue to work, but the settings manager is unavailable.\n\nPlease ensure GTK4 runtime libraries are installed."@,
        error matches GtkInitError::DllsNotFound(detail) ==> text@
            == "GTK4 runtime DLLs not found: "@ + detail@,
        error matches GtkInitError::InitFailed(detail) ==> text@ == "GTK4 initialization failed: "@
            + detail@,
        error matches GtkInitError::ThreadStartFailed(detail) ==> text@
            == "GTK4 thread startup failed: "@ + detail@,
{
}

/// The toolkit is taken from beside the add-in before the directory there, and from neither if
/// neither is found.
pub proof fn the_toolkit_is_found_beside_the_add_in(
    parent: &str,
    library: bool,
    subdirectory: bool,
    found: Option<String>,
    places: GtkPlaces,
)
    requires
        call_ensures(gtk_directory, (parent, library, subdirectory), found),
        call_ensures(gtk_places, (parent,), places),
    ensures
        found is Some <==> library || subdirectory,
        library ==> found->0@ == parent@,
        !library && subdirectory ==> found->0@ == places.subdirectory@,
        places.library@ == path_in(parent@, "libgtk-4-1.dll"@),
        places.subdirectory@ == path_in(parent@, "gtk4"@),
{
}

/// The toolkit's directory comes before what the path held; its data come before what was there,
/// and are named only if they were found, as is the list of its loaders.
pub proof fn the_toolkit_comes_first(
    directory: &str,
    path: &str,
    share_found: bool,
    data_dirs: &str,
    loaders_found: bool,
    variables: Vec<(&'static str, String)>,
    resources: (String, String),
)
    requires
        call_ensures(
            gtk_variables,
            (directory, path, share_found, data_dirs, loaders_found),
            variables,
        ),
        call_ensures(gtk_resources, (directory,), resources),
    ensures
        variables@.len() == 1 + (if share_found {
            1int
        } else {
            0
        }) + (if loaders_found {
            1int
        } else {
            0
        }),
        variables@[0].0@ == "PATH"@,
        variables@[0].1@ == directory@ + ";"@ + path@,
        share_found ==> variables@[1].0@ == "XDG_DATA_DIRS"@,
        share_found && data_dirs@.len() == 0 ==> variables@[1].1@ == resources.0@,
        share_found && data_dirs@.len() > 0 ==> variables@[1].1@ == resources.0@ + ";"@
            + data_dirs@,
        loaders_found ==> variables@.last().0@ == "GDK_PIXBUF_MODULE_FILE"@
            && variables@.last().1@ == resources.1@,
        resources.0@ == path_in(directory@, "share"@),
{
    let shown = variables_view(variables@);
    assert(shown.len() == variables@.len());
    assert(shown[0] == (variables@[0].0, variables@[0].1@));
    if variables@.len() > 1 {
        assert(shown[1] == (variables@[1].0, variables@[1].1@));
    }
    let n = variables@.len() - 1;
    assert(shown[n] == (variables@[n].0, variables@[n].1@));
}

/// A path is there exactly if something was filled in and the buffer was not filled to its end; it
/// is then the text of what was filled in.
pub proof fn a_cut_path_is_none(buffer: &[u16], len: usize, path: Option<String>)
    requires
        call_ensures(module_file_path, (buffer, len), path),
    ensures
        path is Some <==> 0 < len && len < buffer@.len(),
        path matches Some(text) ==> text@ == utf16_text(buffer@.take(len as int)),
{
}

/// The error of a toolkit that could not be initialized ends with what the toolkit said.
pub proof fn a_toolkit_that_fails_says_why(detail: &str, error: GtkInitError)
    requires
        call_ensures(GtkInitError::not_initialized, (detail,), error),
    ensures
        error is DllsNotFound,
        detail@.len() <= error->DllsNotFound_0@.len(),
        error->DllsNotFound_0@.skip(error->DllsNotFound_0@.len() - detail@.len()) == detail@,
{
    let text = error->DllsNotFound_0@;
    assert(text.skip(text.len() - detail@.len()) =~= detail@);
}

/// The data and the list of loaders lie in their places below the toolkit's directory.
pub proof fn resources_lie_below_the_toolkit(directory: &str, resources: (String, String))
    requires
        call_ensures(gtk_resources, (directory,), resources),
    ensures
        resources.0@ == path_in(directory@, "share"@),
        resources.1@ == path_in(
            path_in(path_in(path_in(directory@, "lib"@), "gdk-pixbuf-2.0"@), "2.10.0"@),
            "loaders.cache"@,
        ),
{
}

/// What waits for the wizard comes when it is completed, whatever it is, and never if it is cancelled.
pub proof fn what_waits_for_the_wizard_comes_after_it(
    result: &WizardResult,
    waiting: GuiCommand,
    after: Option<GuiCommand>,
)
    requires
        call_ensures(GtkRuntime::after_wizard, (result, waiting), after),
    ensures
        *result is Completed ==> after == Some(waiting),
        *result is Cancelled ==> after is None,
{
}

} // verus!
