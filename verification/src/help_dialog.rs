//! The help dialog: which help belongs to which control, and the life of its only window.

use vstd::prelude::*;

use crate::help_content::sections;
use crate::help_content::HelpEntry;
use crate::help_dialog_template::{
    IDC_HELP_CLOSE, IDC_HELP_DESCRIPTION, IDC_HELP_TIPS, IDC_HELP_TITLE,
};
use crate::manager_dlg::{WM_CLOSE, WM_COMMAND, WM_INITDIALOG};

verus! {

/// The help for a control of the Manager dialog, by the section that the control belongs to.
pub open spec fn section_of(control_id: u16) -> Option<HelpEntry> {
    if 3010 <= control_id <= 3015 || control_id == 3041 {
        Some(sections::filter_settings_spec())
    } else if 3020 <= control_id <= 3024 || 3030 <= control_id <= 3034 {
        Some(sections::folder_config_spec())
    } else if control_id == 3040 {
        Some(sections::training_spec())
    } else if 3050 <= control_id <= 3051 {
        Some(sections::cleanup_spec())
    } else if 3060 <= control_id <= 3061 {
        Some(sections::notification_spec())
    } else {
        None
    }
}

/// The help for a control of the Manager dialog, if there is any: for the filter settings and the
/// filter button, the folder choices and their browse buttons, the training button, the cleanup
/// controls and the notification controls.
pub fn help_section_for_control(control_id: u16) -> (entry: Option<HelpEntry>)
    ensures
        entry == section_of(control_id),
{
    match control_id {
        3010..=3015 => Some(sections::filter_settings()),
        3020..=3024 | 3030..=3034 => Some(sections::folder_config()),
        3040 => Some(sections::training()),
        3041 => Some(sections::filter_settings()),
        3050..=3051 => Some(sections::cleanup()),
        3060..=3061 => Some(sections::notification()),
        _ => None,
    }
}

/// The window of the open help dialog and the font of its title, as handles.
#[derive(Debug, Clone, Copy, PartialEq, Eq, Structural)]
pub struct HelpWindow {
    pub hwnd: usize,
    pub hfont: usize,
}

/// What is done to show a help text.
#[derive(Debug, Clone, Copy, PartialEq, Eq, Structural)]
pub enum HelpRequest {
    /// Put the text into the given window and bring it to the front.
    Update(usize),
    /// Create the dialog.
    Create,
}

/// The help dialog, of which at most one is open.
#[derive(Debug, Clone, Copy, PartialEq, Eq, Structural)]
pub struct HelpDialogState {
    pub window: Option<HelpWindow>,
}

impl Default for HelpDialogState {
    fn default() -> (state: Self)
        ensures
            state.window is None,
    {
        HelpDialogState { window: None }
    }
}

impl HelpDialogState {
    /// How a help text is shown.
    pub open spec fn request(self, still_exists: bool) -> HelpRequest {
        match self.window {
            Some(window) => if still_exists {
                HelpRequest::Update(window.hwnd)
            } else {
                HelpRequest::Create
            },
            None => HelpRequest::Create,
        }
    }

    /// The state after a dialog was created, or, with a null window handle, could not be created.
    pub open spec fn after_opening(self, hwnd: usize, hfont: usize) -> HelpDialogState {
        if hwnd == 0 {
            self
        } else {
            HelpDialogState { window: Some(HelpWindow { hwnd, hfont }) }
        }
    }

    /// The state after the dialog was destroyed.
    pub open spec fn after_destroying(self) -> HelpDialogState {
        HelpDialogState { window: None }
    }

    /// Decides how a help text is shown. `still_exists` says whether the remembered window, if
    /// any, still is one.
    pub fn show_help(&self, still_exists: bool) -> (request: HelpRequest)
        ensures
            request == self.request(still_exists),
    {
        match self.window {
            Some(window) => {
                if still_exists {
                    HelpRequest::Update(window.hwnd)
                } else {
                    HelpRequest::Create
                }
            },
            None => HelpRequest::Create,
        }
    }

    /// Remembers a dialog that was created; a null window handle says that the creation failed.
    pub fn opened(&mut self, hwnd: usize, hfont: usize)
        ensures
            *final(self) == old(self).after_opening(hwnd, hfont),
    {
        if hwnd != 0 {
            self.window = Some(HelpWindow { hwnd, hfont });
        }
    }

    /// Forgets the dialog, which was destroyed; what comes back is the font to delete, if the
    /// dialog had one.
    pub fn destroyed(&mut self) -> (hfont: Option<usize>)
        ensures
            *final(self) == old(self).after_destroying(),
            hfont == (match old(self).window {
                Some(window) => if window.hfont == 0 {
                    None
                } else {
                    Some(window.hfont)
                },
                None => None,
            }),
    {
        let before = self.window;
        self.window = None;
        match before {
            Some(window) => {
                if window.hfont == 0 {
                    None
                } else {
                    Some(window.hfont)
                }
            },
            None => None,
        }
    }
}

/// Once the help dialog was created, further help texts go to its window for as long as it exists;
/// after that, and after it was destroyed, a new one is created.
pub proof fn help_dialog_is_a_singleton(state: HelpDialogState, hwnd: usize, hfont: usize)
    requires
        hwnd != 0,
    ensures
        state.after_opening(hwnd, hfont).request(true) == HelpRequest::Update(hwnd),
        state.after_opening(hwnd, hfont).request(false) == HelpRequest::Create,
        state.after_destroying().request(true) == HelpRequest::Create,
{
}

/// The control that the Escape key stands for.
pub const IDCANCEL: u16 = 2;

/// What a message to the help dialog calls for.
#[derive(Debug, Clone, Copy, PartialEq, Eq, Structural)]
pub enum HelpDlgAction {
    /// Accept the default focus: the procedure returns 1.
    AcceptFocus,
    /// Destroy the dialog: the procedure returns 0.
    Destroy,
    /// Nothing: the procedure returns 0.
    Ignore,
}

/// Decides what a message to the help dialog calls for.
pub fn help_dlg_proc(msg: u32, wparam: u64) -> (action: HelpDlgAction)
    ensures
        action == (if msg == WM_INITDIALOG {
            HelpDlgAction::AcceptFocus
        } else if msg == WM_CLOSE || (msg == WM_COMMAND && (wparam % 0x10000 == IDC_HELP_CLOSE
            || wparam % 0x10000 == IDCANCEL)) {
            HelpDlgAction::Destroy
        } else {
            HelpDlgAction::Ignore
        }),
{
    if msg == WM_INITDIALOG {
        HelpDlgAction::AcceptFocus
    } else if msg == WM_COMMAND {
        let control_id: u16 = (wparam % 0x10000) as u16;
        if control_id == IDC_HELP_CLOSE || control_id == IDCANCEL {
            HelpDlgAction::Destroy
        } else {
            HelpDlgAction::Ignore
        }
    } else if msg == WM_CLOSE {
        HelpDlgAction::Destroy
    } else {
        HelpDlgAction::Ignore
    }
}

/// The texts of the help dialog's controls for a help text; without tips, that control is empty.
pub fn update_help_content(entry: &HelpEntry) -> (texts: [(u16, &'static str); 3])
    ensures
        texts@ == seq![
            (IDC_HELP_TITLE, entry.title),
            (IDC_HELP_DESCRIPTION, entry.description),
            (
                IDC_HELP_TIPS,
                match entry.tips {
                    Some(tips) => tips,
                    None => "",
                },
            ),
        ],
{
    let tips = match entry.tips {
        Some(tips) => tips,
        None => "",
    };
    [
        (IDC_HELP_TITLE, entry.title),
        (IDC_HELP_DESCRIPTION, entry.description),
        (IDC_HELP_TIPS, tips),
    ]
}

/// Each control has the help of its own section, and a control without a section has none.
pub proof fn help_fits_the_control(control: u16, entry: Option<HelpEntry>)
    requires
        call_ensures(help_section_for_control, (control,), entry),
    ensures
        (3010 <= control <= 3015 || control == 3041) ==> entry is Some && entry->0.title@
            == "Filter Settings"@,
        (3020 <= control <= 3024 || 3030 <= control <= 3034) ==> entry is Some && entry->0.title@
            == "Folder Configuration"@,
        control == 3040 ==> entry is Some && entry->0.title@ == "Training"@,
        (control == 3050 || control == 3051) ==> entry is Some && entry->0.title@ == "Cleanup"@,
        (control == 3060 || control == 3061) ==> entry is Some && entry->0.title@
            == "Notification"@,
        control < 3010 || control > 3061 ==> entry is None,
        3001 <= control <= 3009 || 3042 <= control <= 3044 ==> entry is None,
{
}

/// There is one help window at most: a text goes to the window that is open and still there, and
/// else a new one is made; one that could not be made is not remembered, and one that is gone gives
/// back its font once.
pub proof fn one_help_window_is_kept(
    state: &HelpDialogState,
    exists: bool,
    request: HelpRequest,
    opened: &mut HelpDialogState,
    hwnd: usize,
    hfont: usize,
    gone: &mut HelpDialogState,
    font: Option<usize>,
    again: &mut HelpDialogState,
    nothing: Option<usize>,
)
    requires
        call_ensures(HelpDialogState::show_help, (state, exists), request),
        call_ensures(HelpDialogState::opened, (opened, hwnd, hfont), ()),
        call_ensures(HelpDialogState::destroyed, (gone,), font),
        *old(again) == *final(gone),
        call_ensures(HelpDialogState::destroyed, (again,), nothing),
    ensures
        request is Create <==> state.window is None || !exists,
        state.window is Some && exists ==> request == HelpRequest::Update(state.window->0.hwnd),
        hwnd == 0 ==> *final(opened) == *old(opened),
        hwnd != 0 ==> final(opened).window == Some(HelpWindow { hwnd, hfont }),
        final(gone).window is None,
        old(gone).window is Some && old(gone).window->0.hfont != 0 ==> font == Some(
            old(gone).window->0.hfont,
        ),
        old(gone).window is None || old(gone).window->0.hfont == 0 ==> font is None,
        nothing is None,
{
}

/// The dialog goes by its button, by Escape and by closing, and by nothing else.
pub proof fn the_help_dialog_goes_when_told(msg: u32, wparam: u64, action: HelpDlgAction)
    requires
        call_ensures(help_dlg_proc, (msg, wparam), action),
    ensures
        action is Destroy <==> msg == 0x0010 || (msg == 0x0111 && (wparam % 0x10000
            == IDC_HELP_CLOSE || wparam % 0x10000 == 2)),
        action is AcceptFocus <==> msg == 0x0110,
{
}

/// Title, description and tips of a help text go to the controls for them; without tips that
/// control is empty.
pub proof fn help_texts_go_to_their_controls(
    entry: &HelpEntry,
    texts: [(u16, &'static str); 3],
)
    requires
        call_ensures(update_help_content, (entry,), texts),
    ensures
        texts@[0].0 == IDC_HELP_TITLE && texts@[0].1@ == entry.title@,
        texts@[1].0 == IDC_HELP_DESCRIPTION && texts@[1].1@ == entry.description@,
        texts@[2].0 == IDC_HELP_TIPS,
        entry.tips matches Some(tips) ==> texts@[2].1@ == tips@,
        entry.tips is None ==> texts@[2].1@.len() == 0,
        IDC_HELP_TITLE != IDC_HELP_DESCRIPTION,
        IDC_HELP_DESCRIPTION != IDC_HELP_TIPS,
        IDC_HELP_TITLE != IDC_HELP_TIPS,
{
    reveal_strlit("");
}

/// Exactly the controls of the filter settings, the folders, the training and filter buttons, the
/// clean-up and the notifications have help, with the text of their own section.
pub proof fn exactly_these_controls_have_help(control: u16, entry: Option<HelpEntry>)
    requires
        call_ensures(help_section_for_control, (control,), entry),
    ensures
        entry is Some <==> 3010 <= control <= 3015 || 3020 <= control <= 3024 || 3030 <= control
            <= 3034 || 3040 <= control <= 3041 || 3050 <= control <= 3051 || 3060 <= control
            <= 3061,
        3010 <= control <= 3015 || control == 3041 ==> entry->0.description
            == sections::FILTER_SETTINGS_DESCRIPTION && entry->0.tips == Some(
            sections::FILTER_SETTINGS_TIPS,
        ),
        3020 <= control <= 3024 || 3030 <= control <= 3034 ==> entry->0.description
            == sections::FOLDER_CONFIG_DESCRIPTION,
        control == 3040 ==> entry->0.description == sections::TRAINING_DESCRIPTION,
        3050 <= control <= 3051 ==> entry->0.description == sections::CLEANUP_DESCRIPTION,
        3060 <= control <= 3061 ==> entry->0.description == sections::NOTIFICATION_DESCRIPTION,
{
}

/// There is no help window at first, so that the first help text makes one; what was made is then
/// used for the next, as long as it is there.
pub proof fn the_first_help_text_makes_the_window(
    first: HelpDialogState,
    exists: bool,
    request: HelpRequest,
    state: &mut HelpDialogState,
    hwnd: usize,
    hfont: usize,
    next: HelpRequest,
)
    requires
        call_ensures(HelpDialogState::default, (), first),
        call_ensures(HelpDialogState::show_help, (&first, exists), request),
        hwnd != 0,
        call_ensures(HelpDialogState::opened, (state, hwnd, hfont), ()),
        call_ensures(HelpDialogState::show_help, (final(state), true), next),
    ensures
        request is Create,
        next == HelpRequest::Update(hwnd),
{
}

} // verus!
