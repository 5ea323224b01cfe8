//! The tooltips of the Manager dialog and of the setup wizard.

use vstd::prelude::*;

use crate::help_content::TooltipText;

verus! {

pub const IDC_WIZARD_BACK: u16 = 2001;

pub const IDC_WIZARD_NEXT: u16 = 2002;

pub const IDC_WIZARD_CANCEL: u16 = 2003;

pub const IDC_WIZARD_FINISH: u16 = 2004;

pub const IDC_SPAM_THRESHOLD: u16 = 3010;

pub const IDC_UNSURE_THRESHOLD: u16 = 3011;

pub const IDC_SPAM_ACTION: u16 = 3012;

pub const IDC_UNSURE_ACTION: u16 = 3013;

pub const IDC_HAM_ACTION: u16 = 3014;

pub const IDC_ENABLE_FILTERING: u16 = 3015;

pub const IDC_BROWSE_WATCH: u16 = 3030;

pub const IDC_BROWSE_SPAM_FOLDER: u16 = 3031;

pub const IDC_BROWSE_UNSURE_FOLDER: u16 = 3032;

pub const IDC_BROWSE_HAM_TRAIN: u16 = 3033;

pub const IDC_BROWSE_SPAM_TRAIN: u16 = 3034;

pub const IDC_TRAIN_NOW: u16 = 3040;

pub const IDC_FILTER_NOW: u16 = 3041;

pub const IDC_CLEANUP_ENABLE: u16 = 3050;

pub const IDC_CLEANUP_DAYS: u16 = 3051;

pub const IDC_NOTIFY_SOUND_ENABLE: u16 = 3060;

pub const IDC_NOTIFY_ACCUMULATE: u16 = 3061;

pub const TIP_WIZARD_BACK: &'static str =
    "Go back to the previous setup step to review or change your selections.";

pub const TIP_WIZARD_NEXT: &'static str =
    "Continue to the next setup step. Your current selections are saved.";

pub const TIP_WIZARD_CANCEL: &'static str =
    "Cancel the wizard without saving. SpamBayes will ask again next time Outlook starts.";

pub const TIP_WIZARD_FINISH: &'static str =
    "Complete setup and apply your configuration. SpamBayes will begin filtering.";

pub const TIP_SPAM_THRESHOLD: &'static str =
    "Set the score above which messages are classified as spam. Higher values are more \
     strict (fewer false positives, more missed spam).";

pub const TIP_UNSURE_THRESHOLD: &'static str =
    "Set the score above which messages are classified as unsure. Messages scoring between \
     this and the spam threshold land in the unsure folder.";

pub const TIP_SPAM_ACTION: &'static str =
    "Choose what happens to messages classified as spam: move to the spam folder, delete \
     permanently, or do nothing.";

pub const TIP_UNSURE_ACTION: &'static str =
    "Choose what happens to messages classified as unsure: move to the unsure folder, leave \
     in place, or do nothing.";

pub const TIP_HAM_ACTION: &'static str =
    "Choose what happens to messages classified as good (ham): leave in place, move to a \
     specific folder, or do nothing.";

pub const TIP_ENABLE_FILTERING: &'static str =
    "Turn message filtering on or off. When disabled, new messages are not classified or \
     moved.";

pub const TIP_BROWSE_WATCH: &'static str =
    "Open the folder picker to select which folders SpamBayes monitors for incoming messages.";

pub const TIP_BROWSE_SPAM_FOLDER: &'static str =
    "Open the folder picker to choose where spam messages are moved.";

pub const TIP_BROWSE_UNSURE_FOLDER: &'static str =
    "Open the folder picker to choose where unsure messages are moved.";

pub const TIP_BROWSE_HAM_TRAIN: &'static str =
    "Open the folder picker to select the folder containing known good messages used for \
     training.";

pub const TIP_BROWSE_SPAM_TRAIN: &'static str =
    "Open the folder picker to select the folder containing known spam messages used for \
     training.";

pub const TIP_TRAIN_NOW: &'static str =
    "Re-train the classifier using the messages in your ham and spam training folders. This \
     rebuilds the database from scratch.";

pub const TIP_FILTER_NOW: &'static str =
    "Apply the spam filter to all messages currently in your watched folders. Messages are \
     classified and moved according to your action settings.";

pub const TIP_CLEANUP_ENABLE: &'static str =
    "Enable automatic deletion of old spam. When active, messages in the spam folder older \
     than the specified days are removed.";

pub const TIP_CLEANUP_DAYS: &'static str =
    "Set the number of days to keep spam before automatic deletion. Messages older than this \
     are permanently removed during cleanup.";

pub const TIP_NOTIFY_SOUND_ENABLE: &'static str =
    "Enable sound notifications when messages are classified. A different sound plays for \
     ham, unsure, and spam results.";

pub const TIP_NOTIFY_ACCUMULATE: &'static str =
    "Set how long to wait before playing a notification sound. Groups rapid arrivals into a \
     single notification.";

/// The tooltips of the wizard's navigation buttons.
pub open spec fn wizard_tooltips_spec() -> Seq<TooltipText> {
    seq![
        TooltipText { control_id: IDC_WIZARD_BACK, text: TIP_WIZARD_BACK },
        TooltipText { control_id: IDC_WIZARD_NEXT, text: TIP_WIZARD_NEXT },
        TooltipText { control_id: IDC_WIZARD_CANCEL, text: TIP_WIZARD_CANCEL },
        TooltipText { control_id: IDC_WIZARD_FINISH, text: TIP_WIZARD_FINISH },
    ]
}

/// The tooltips of the wizard's navigation buttons.
pub fn wizard_tooltips() -> (tips: Vec<TooltipText>)
    ensures
        tips@ == wizard_tooltips_spec(),
{
    let mut tips: Vec<TooltipText> = Vec::new();
    tips.push(TooltipText { control_id: IDC_WIZARD_BACK, text: TIP_WIZARD_BACK });
    tips.push(TooltipText { control_id: IDC_WIZARD_NEXT, text: TIP_WIZARD_NEXT });
    tips.push(TooltipText { control_id: IDC_WIZARD_CANCEL, text: TIP_WIZARD_CANCEL });
    tips.push(TooltipText { control_id: IDC_WIZARD_FINISH, text: TIP_WIZARD_FINISH });
    tips
}

/// The tooltips of the Manager dialog's controls.
pub open spec fn manager_tooltips_spec() -> Seq<TooltipText> {
    seq![
        TooltipText { control_id: IDC_SPAM_THRESHOLD, text: TIP_SPAM_THRESHOLD },
        TooltipText { control_id: IDC_UNSURE_THRESHOLD, text: TIP_UNSURE_THRESHOLD },
        TooltipText { control_id: IDC_SPAM_ACTION, text: TIP_SPAM_ACTION },
        TooltipText { control_id: IDC_UNSURE_ACTION, text: TIP_UNSURE_ACTION },
        TooltipText { control_id: IDC_HAM_ACTION, text: TIP_HAM_ACTION },
        TooltipText { control_id: IDC_ENABLE_FILTERING, text: TIP_ENABLE_FILTERING },
        TooltipText { control_id: IDC_BROWSE_WATCH, text: TIP_BROWSE_WATCH },
        TooltipText { control_id: IDC_BROWSE_SPAM_FOLDER, text: TIP_BROWSE_SPAM_FOLDER },
        TooltipText { control_id: IDC_BROWSE_UNSURE_FOLDER, text: TIP_BROWSE_UNSURE_FOLDER },
        TooltipText { control_id: IDC_BROWSE_HAM_TRAIN, text: TIP_BROWSE_HAM_TRAIN },
        TooltipText { control_id: IDC_BROWSE_SPAM_TRAIN, text: TIP_BROWSE_SPAM_TRAIN },
        TooltipText { control_id: IDC_TRAIN_NOW, text: TIP_TRAIN_NOW },
        TooltipText { control_id: IDC_FILTER_NOW, text: TIP_FILTER_NOW },
        TooltipText { control_id: IDC_CLEANUP_ENABLE, text: TIP_CLEANUP_ENABLE },
        TooltipText { control_id: IDC_CLEANUP_DAYS, text: TIP_CLEANUP_DAYS },
        TooltipText { control_id: IDC_NOTIFY_SOUND_ENABLE, text: TIP_NOTIFY_SOUND_ENABLE },
        TooltipText { control_id: IDC_NOTIFY_ACCUMULATE, text: TIP_NOTIFY_ACCUMULATE },
    ]
}

/// The tooltips of the Manager dialog's controls.
pub fn manager_tooltips() -> (tips: Vec<TooltipText>)
    ensures
        tips@ == manager_tooltips_spec(),
{
    let mut tips: Vec<TooltipText> = Vec::new();
    tips.push(TooltipText { control_id: IDC_SPAM_THRESHOLD, text: TIP_SPAM_THRESHOLD });
    tips.push(TooltipText { control_id: IDC_UNSURE_THRESHOLD, text: TIP_UNSURE_THRESHOLD });
    tips.push(TooltipText { control_id: IDC_SPAM_ACTION, text: TIP_SPAM_ACTION });
    tips.push(TooltipText { control_id: IDC_UNSURE_ACTION, text: TIP_UNSURE_ACTION });
    tips.push(TooltipText { control_id: IDC_HAM_ACTION, text: TIP_HAM_ACTION });
    tips.push(TooltipText { control_id: IDC_ENABLE_FILTERING, text: TIP_ENABLE_FILTERING });
    tips.push(TooltipText { control_id: IDC_BROWSE_WATCH, text: TIP_BROWSE_WATCH });
    tips.push(TooltipText { control_id: IDC_BROWSE_SPAM_FOLDER, text: TIP_BROWSE_SPAM_FOLDER });
    tips.push(TooltipText { control_id: IDC_BROWSE_UNSURE_FOLDER, text: TIP_BROWSE_UNSURE_FOLDER });
    tips.push(TooltipText { control_id: IDC_BROWSE_HAM_TRAIN, text: TIP_BROWSE_HAM_TRAIN });
    tips.push(TooltipText { control_id: IDC_BROWSE_SPAM_TRAIN, text: TIP_BROWSE_SPAM_TRAIN });
    tips.push(TooltipText { control_id: IDC_TRAIN_NOW, text: TIP_TRAIN_NOW });
    tips.push(TooltipText { control_id: IDC_FILTER_NOW, text: TIP_FILTER_NOW });
    tips.push(TooltipText { control_id: IDC_CLEANUP_ENABLE, text: TIP_CLEANUP_ENABLE });
    tips.push(TooltipText { control_id: IDC_CLEANUP_DAYS, text: TIP_CLEANUP_DAYS });
    tips.push(TooltipText { control_id: IDC_NOTIFY_SOUND_ENABLE, text: TIP_NOTIFY_SOUND_ENABLE });
    tips.push(TooltipText { control_id: IDC_NOTIFY_ACCUMULATE, text: TIP_NOTIFY_ACCUMULATE });
    tips
}

/// Each of the wizard's buttons has its own tooltip, and one only.
pub proof fn wizard_tooltips_fit_their_buttons(tips: Vec<TooltipText>)
    requires
        call_ensures(wizard_tooltips, (), tips),
    ensures
        tips@.len() == 4,
        tips@[0].control_id == 2001 && tips@[0].text == TIP_WIZARD_BACK,
        tips@[1].control_id == 2002 && tips@[1].text == TIP_WIZARD_NEXT,
        tips@[2].control_id == 2003 && tips@[2].text == TIP_WIZARD_CANCEL,
        tips@[3].control_id == 2004 && tips@[3].text == TIP_WIZARD_FINISH,
        forall|i: int, j: int|
            0 <= i < j < tips@.len() ==> (#[trigger] tips@[i]).control_id < (
            #[trigger] tips@[j]).control_id,
{
}

/// Each control of the Manager dialog that has a tooltip has its own, and one only.
pub proof fn manager_tooltips_fit_their_controls(tips: Vec<TooltipText>)
    requires
        call_ensures(manager_tooltips, (), tips),
    ensures
        tips@.len() == 17,
        tips@[0].control_id == 3010 && tips@[0].text == TIP_SPAM_THRESHOLD,
        tips@[1].control_id == 3011 && tips@[1].text == TIP_UNSURE_THRESHOLD,
        tips@[2].control_id == 3012 && tips@[2].text == TIP_SPAM_ACTION,
        tips@[3].control_id == 3013 && tips@[3].text == TIP_UNSURE_ACTION,
        tips@[4].control_id == 3014 && tips@[4].text == TIP_HAM_ACTION,
        tips@[5].control_id == 3015 && tips@[5].text == TIP_ENABLE_FILTERING,
        tips@[6].control_id == 3030 && tips@[6].text == TIP_BROWSE_WATCH,
        tips@[7].control_id == 3031 && tips@[7].text == TIP_BROWSE_SPAM_FOLDER,
        tips@[8].control_id == 3032 && tips@[8].text == TIP_BROWSE_UNSURE_FOLDER,
        tips@[9].control_id == 3033 && tips@[9].text == TIP_BROWSE_HAM_TRAIN,
        tips@[10].control_id == 3034 && tips@[10].text == TIP_BROWSE_SPAM_TRAIN,
        tips@[11].control_id == 3040 && tips@[11].text == TIP_TRAIN_NOW,
        tips@[12].control_id == 3041 && tips@[12].text == TIP_FILTER_NOW,
        tips@[13].control_id == 3050 && tips@[13].text == TIP_CLEANUP_ENABLE,
        tips@[14].control_id == 3051 && tips@[14].text == TIP_CLEANUP_DAYS,
        tips@[15].control_id == 3060 && tips@[15].text == TIP_NOTIFY_SOUND_ENABLE,
        tips@[16].control_id == 3061 && tips@[16].text == TIP_NOTIFY_ACCUMULATE,
        forall|i: int, j: int|
            0 <= i < j < tips@.len() ==> (#[trigger] tips@[i]).control_id < (
            #[trigger] tips@[j]).control_id,
{
}

} // verus!
