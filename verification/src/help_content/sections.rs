//! The help texts, by section of the Manager dialog and by page of the setup wizard.

use vstd::prelude::*;

use crate::help_content::HelpEntry;

verus! {

pub const FILTER_SETTINGS_TITLE: &'static str = "Filter Settings";

pub const FILTER_SETTINGS_DESCRIPTION: &'static str =
    "Configure how SpamBayes classifies incoming mail. The spam threshold sets the score \
     above which messages are treated as spam, while the unsure threshold marks the boundary \
     for uncertain messages. You can also choose what action to take for each classification \
     (move to folder, delete, or leave in place) and enable or disable filtering entirely.";

pub const FILTER_SETTINGS_TIPS: &'static str =
    "• Start with default thresholds (90/15) and adjust after reviewing a week of results\n\
     • Lowering the spam threshold catches more spam but risks false positives\n\
     • Disable filtering temporarily if you need to troubleshoot missed messages";

pub const FOLDER_CONFIG_TITLE: &'static str = "Folder Configuration";

pub const FOLDER_CONFIG_DESCRIPTION: &'static str =
    "Select which folders SpamBayes monitors and where it moves classified messages. The \
     watched folder is checked for new mail, spam is moved to the spam folder, and uncertain \
     messages go to the unsure folder. Training folders tell SpamBayes where to find \
     confirmed ham and spam for learning.";

pub const FOLDER_CONFIG_TIPS: &'static str =
    "• Use a dedicated spam folder rather than Deleted Items so you can review catches\n\
     • Check the unsure folder regularly and train those messages to improve accuracy\n\
     • Training folders can be the same as your spam/unsure folders for convenience";

pub const TRAINING_TITLE: &'static str = "Training";

pub const TRAINING_DESCRIPTION: &'static str =
    "Train SpamBayes to recognize your ham and spam. Use Train Now to perform a full batch \
     retrain from your training folders, or rebuild the database from scratch if results \
     have degraded. Incremental training happens automatically when you use the Spam and Not \
     Spam buttons on individual messages.";

pub const TRAINING_TIPS: &'static str =
    "• Train with at least 20 ham and 20 spam messages for reasonable initial accuracy\n\
     • Rebuild the database if you notice accuracy declining after many months of use\n\
     • Incremental training on mistakes is the fastest way to improve classification";

pub const NOTIFICATION_TITLE: &'static str = "Notification";

pub const NOTIFICATION_DESCRIPTION: &'static str =
    "Control how SpamBayes alerts you about classified messages. You can enable sounds for \
     each classification type (ham, spam, unsure). The accumulate timer batches rapid \
     arrivals into a single notification instead of playing a sound for every message in a \
     burst.";

pub const NOTIFICATION_TIPS: &'static str =
    "• Enable the ham sound only if you want confirmation that good mail arrived\n\
     • Increase the accumulate timer if you receive many messages at once";

pub const CLEANUP_TITLE: &'static str = "Cleanup";

pub const CLEANUP_DESCRIPTION: &'static str =
    "Automatically remove old spam messages to keep your mailbox tidy. When enabled, \
     SpamBayes deletes confirmed spam older than the configured retention period. This only \
     affects messages in the spam folder that were classified by SpamBayes.";

pub const CLEANUP_TIPS: &'static str =
    "• Set retention to at least 7 days so you can recover false positives\n\
     • Review the spam folder before enabling auto-delete for the first time\n\
     • Cleanup runs once per Outlook session at startup";

pub const WIZARD_WELCOME_TITLE: &'static str = "Welcome to SpamBayes";

pub const WIZARD_WELCOME_DESCRIPTION: &'static str =
    "This wizard guides you through the initial setup of SpamBayes. SpamBayes uses \
     statistical analysis to classify incoming email as ham (good), spam (bad), or unsure, \
     and automatically moves messages to the appropriate folder.";

pub const WIZARD_WELCOME_TIPS: &'static str =
    "• You can re-run this wizard later from the SpamBayes Manager\n\
     • The wizard only takes a minute — most defaults work well out of the box";

pub const WIZARD_WATCH_FOLDERS_TITLE: &'static str = "Watch Folders";

pub const WIZARD_WATCH_FOLDERS_DESCRIPTION: &'static str =
    "Select which Outlook folders SpamBayes should monitor for new incoming mail. When a \
     message arrives in a watched folder, SpamBayes scores it and moves spam or unsure \
     messages to their designated folders.";

pub const WIZARD_WATCH_FOLDERS_TIPS: &'static str =
    "• The default watched folder is Junk Email, where Exchange places suspected spam\n\
     • You can watch multiple folders if you receive mail in more than one location\n\
     • Only add folders that receive new mail — avoid sent or archive folders";

pub const WIZARD_SPAM_FOLDER_TITLE: &'static str = "Spam Folder";

pub const WIZARD_SPAM_FOLDER_DESCRIPTION: &'static str =
    "Choose the destination folder for messages SpamBayes classifies as spam. Messages \
     scoring above the spam threshold are moved here automatically. You can review this \
     folder periodically and permanently delete its contents.";

pub const WIZARD_SPAM_FOLDER_TIPS: &'static str =
    "• A dedicated spam folder keeps spam out of your Inbox without losing messages\n\
     • Check the spam folder occasionally for false positives, especially during initial \
     training";

pub const WIZARD_UNSURE_FOLDER_TITLE: &'static str = "Unsure Folder";

pub const WIZARD_UNSURE_FOLDER_DESCRIPTION: &'static str =
    "Choose the destination folder for messages SpamBayes is not confident about. These are \
     messages that score between the unsure and spam thresholds. Reviewing unsure messages \
     and training on them improves classification accuracy.";

pub const WIZARD_UNSURE_FOLDER_TIPS: &'static str =
    "• Training on unsure messages is the fastest way to improve SpamBayes accuracy\n\
     • If very few messages land here, your thresholds may be well tuned\n\
     • Use the Not Spam or Delete As Spam buttons to train on unsure messages";

pub const WIZARD_TRAINING_FOLDERS_TITLE: &'static str = "Training Folders";

pub const WIZARD_TRAINING_FOLDERS_DESCRIPTION: &'static str =
    "Select folders containing known good mail (ham) and known spam for initial training. \
     SpamBayes learns word patterns from these messages to build its classifier database. \
     More training data generally means better accuracy.";

pub const WIZARD_TRAINING_FOLDERS_TIPS: &'static str =
    "• Aim for at least 20-50 messages of each type for a reasonable starting point\n\
     • Use your Inbox or Sent Items as a ham source\n\
     • A balanced mix of ham and spam produces the best classification results";

pub const WIZARD_FINISH_TITLE: &'static str = "Setup Complete";

pub const WIZARD_FINISH_DESCRIPTION: &'static str =
    "Your SpamBayes configuration is ready. After closing this wizard, SpamBayes will begin \
     monitoring your selected folders and classifying incoming mail. Classification improves \
     over time as you train on misclassified messages.";

pub const WIZARD_FINISH_TIPS: &'static str =
    "• Use the toolbar buttons to correct any mistakes — this trains the classifier\n\
     • Open the SpamBayes Manager to adjust thresholds or re-train later";

/// The help for the dialog's filter settings section.
pub open spec fn filter_settings_spec() -> HelpEntry {
    HelpEntry {
        title: FILTER_SETTINGS_TITLE,
        description: FILTER_SETTINGS_DESCRIPTION,
        tips: Some(FILTER_SETTINGS_TIPS),
    }
}

/// The help for the dialog's filter settings section.
pub fn filter_settings() -> (entry: HelpEntry)
    ensures
        entry == filter_settings_spec(),
{
    HelpEntry {
        title: FILTER_SETTINGS_TITLE,
        description: FILTER_SETTINGS_DESCRIPTION,
        tips: Some(FILTER_SETTINGS_TIPS),
    }
}

/// The help for the dialog's folder config section.
pub open spec fn folder_config_spec() -> HelpEntry {
    HelpEntry {
        title: FOLDER_CONFIG_TITLE,
        description: FOLDER_CONFIG_DESCRIPTION,
        tips: Some(FOLDER_CONFIG_TIPS),
    }
}

/// The help for the dialog's folder config section.
pub fn folder_config() -> (entry: HelpEntry)
    ensures
        entry == folder_config_spec(),
{
    HelpEntry {
        title: FOLDER_CONFIG_TITLE,
        description: FOLDER_CONFIG_DESCRIPTION,
        tips: Some(FOLDER_CONFIG_TIPS),
    }
}

/// The help for the dialog's training section.
pub open spec fn training_spec() -> HelpEntry {
    HelpEntry {
        title: TRAINING_TITLE,
        description: TRAINING_DESCRIPTION,
        tips: Some(TRAINING_TIPS),
    }
}

/// The help for the dialog's training section.
pub fn training() -> (entry: HelpEntry)
    ensures
        entry == training_spec(),
{
    HelpEntry {
        title: TRAINING_TITLE,
        description: TRAINING_DESCRIPTION,
        tips: Some(TRAINING_TIPS),
    }
}

/// The help for the dialog's notification section.
pub open spec fn notification_spec() -> HelpEntry {
    HelpEntry {
        title: NOTIFICATION_TITLE,
        description: NOTIFICATION_DESCRIPTION,
        tips: Some(NOTIFICATION_TIPS),
    }
}

/// The help for the dialog's notification section.
pub fn notification() -> (entry: HelpEntry)
    ensures
        entry == notification_spec(),
{
    HelpEntry {
        title: NOTIFICATION_TITLE,
        description: NOTIFICATION_DESCRIPTION,
        tips: Some(NOTIFICATION_TIPS),
    }
}

/// The help for the dialog's cleanup section.
pub open spec fn cleanup_spec() -> HelpEntry {
    HelpEntry {
        title: CLEANUP_TITLE,
        description: CLEANUP_DESCRIPTION,
        tips: Some(CLEANUP_TIPS),
    }
}

/// The help for the dialog's cleanup section.
pub fn cleanup() -> (entry: HelpEntry)
    ensures
        entry == cleanup_spec(),
{
    HelpEntry {
        title: CLEANUP_TITLE,
        description: CLEANUP_DESCRIPTION,
        tips: Some(CLEANUP_TIPS),
    }
}

/// The help for the wizard's welcome page.
pub open spec fn wizard_welcome_spec() -> HelpEntry {
    HelpEntry {
        title: WIZARD_WELCOME_TITLE,
        description: WIZARD_WELCOME_DESCRIPTION,
        tips: Some(WIZARD_WELCOME_TIPS),
    }
}

/// The help for the wizard's welcome page.
pub fn wizard_welcome() -> (entry: HelpEntry)
    ensures
        entry == wizard_welcome_spec(),
{
    HelpEntry {
        title: WIZARD_WELCOME_TITLE,
        description: WIZARD_WELCOME_DESCRIPTION,
        tips: Some(WIZARD_WELCOME_TIPS),
    }
}

/// The help for the wizard's watch folders page.
pub open spec fn wizard_watch_folders_spec() -> HelpEntry {
    HelpEntry {
        title: WIZARD_WATCH_FOLDERS_TITLE,
        description: WIZARD_WATCH_FOLDERS_DESCRIPTION,
        tips: Some(WIZARD_WATCH_FOLDERS_TIPS),
    }
}

/// The help for the wizard's watch folders page.
pub fn wizard_watch_folders() -> (entry: HelpEntry)
    ensures
        entry == wizard_watch_folders_spec(),
{
    HelpEntry {
        title: WIZARD_WATCH_FOLDERS_TITLE,
        description: WIZARD_WATCH_FOLDERS_DESCRIPTION,
        tips: Some(WIZARD_WATCH_FOLDERS_TIPS),
    }
}

/// The help for the wizard's spam folder page.
pub open spec fn wizard_spam_folder_spec() -> HelpEntry {
    HelpEntry {
        title: WIZARD_SPAM_FOLDER_TITLE,
        description: WIZARD_SPAM_FOLDER_DESCRIPTION,
        tips: Some(WIZARD_SPAM_FOLDER_TIPS),
    }
}

/// The help for the wizard's spam folder page.
pub fn wizard_spam_folder() -> (entry: HelpEntry)
    ensures
        entry == wizard_spam_folder_spec(),
{
    HelpEntry {
        title: WIZARD_SPAM_FOLDER_TITLE,
        description: WIZARD_SPAM_FOLDER_DESCRIPTION,
        tips: Some(WIZARD_SPAM_FOLDER_TIPS),
    }
}

/// The help for the wizard's unsure folder page.
pub open spec fn wizard_unsure_folder_spec() -> HelpEntry {
    HelpEntry {
        title: WIZARD_UNSURE_FOLDER_TITLE,
        description: WIZARD_UNSURE_FOLDER_DESCRIPTION,
        tips: Some(WIZARD_UNSURE_FOLDER_TIPS),
    }
}

/// The help for the wizard's unsure folder page.
pub fn wizard_unsure_folder() -> (entry: HelpEntry)
    ensures
        entry == wizard_unsure_folder_spec(),
{
    HelpEntry {
        title: WIZARD_UNSURE_FOLDER_TITLE,
        description: WIZARD_UNSURE_FOLDER_DESCRIPTION,
        tips: Some(WIZARD_UNSURE_FOLDER_TIPS),
    }
}

/// The help for the wizard's training folders page.
pub open spec fn wizard_training_folders_spec() -> HelpEntry {
    HelpEntry {
        title: WIZARD_TRAINING_FOLDERS_TITLE,
        description: WIZARD_TRAINING_FOLDERS_DESCRIPTION,
        tips: Some(WIZARD_TRAINING_FOLDERS_TIPS),
    }
}

/// The help for the wizard's training folders page.
pub fn wizard_training_folders() -> (entry: HelpEntry)
    ensures
        entry == wizard_training_folders_spec(),
{
    HelpEntry {
        title: WIZARD_TRAINING_FOLDERS_TITLE,
        description: WIZARD_TRAINING_FOLDERS_DESCRIPTION,
        tips: Some(WIZARD_TRAINING_FOLDERS_TIPS),
    }
}

/// The help for the wizard's finish page.
pub open spec fn wizard_finish_spec() -> HelpEntry {
    HelpEntry {
        title: WIZARD_FINISH_TITLE,
        description: WIZARD_FINISH_DESCRIPTION,
        tips: Some(WIZARD_FINISH_TIPS),
    }
}

/// The help for the wizard's finish page.
pub fn wizard_finish() -> (entry: HelpEntry)
    ensures
        entry == wizard_finish_spec(),
{
    HelpEntry {
        title: WIZARD_FINISH_TITLE,
        description: WIZARD_FINISH_DESCRIPTION,
        tips: Some(WIZARD_FINISH_TIPS),
    }
}

/// Each section of the dialog has its own title, description and hints.
pub proof fn each_section_has_its_own_help(
    filter_settings_entry: HelpEntry,
    folder_config_entry: HelpEntry,
    training_entry: HelpEntry,
    notification_entry: HelpEntry,
    cleanup_entry: HelpEntry,
)
    requires
        call_ensures(filter_settings, (), filter_settings_entry),
        call_ensures(folder_config, (), folder_config_entry),
        call_ensures(training, (), training_entry),
        call_ensures(notification, (), notification_entry),
        call_ensures(cleanup, (), cleanup_entry),
    ensures
        filter_settings_entry.title@ == "Filter Settings"@,
        filter_settings_entry.description == FILTER_SETTINGS_DESCRIPTION,
        filter_settings_entry.tips == Some(FILTER_SETTINGS_TIPS),
        folder_config_entry.title@ == "Folder Configuration"@,
        folder_config_entry.description == FOLDER_CONFIG_DESCRIPTION,
        folder_config_entry.tips == Some(FOLDER_CONFIG_TIPS),
        training_entry.title@ == "Training"@,
        training_entry.description == TRAINING_DESCRIPTION,
        training_entry.tips == Some(TRAINING_TIPS),
        notification_entry.title@ == "Notification"@,
        notification_entry.description == NOTIFICATION_DESCRIPTION,
        notification_entry.tips == Some(NOTIFICATION_TIPS),
        cleanup_entry.title@ == "Cleanup"@,
        cleanup_entry.description == CLEANUP_DESCRIPTION,
        cleanup_entry.tips == Some(CLEANUP_TIPS),
{
}

/// Each page of the wizard has its own title, description and hints.
pub proof fn each_page_has_its_own_help(
    wizard_welcome_entry: HelpEntry,
    wizard_watch_folders_entry: HelpEntry,
    wizard_spam_folder_entry: HelpEntry,
    wizard_unsure_folder_entry: HelpEntry,
    wizard_training_folders_entry: HelpEntry,
    wizard_finish_entry: HelpEntry,
)
    requires
        call_ensures(wizard_welcome, (), wizard_welcome_entry),
        call_ensures(wizard_watch_folders, (), wizard_watch_folders_entry),
        call_ensures(wizard_spam_folder, (), wizard_spam_folder_entry),
        call_ensures(wizard_unsure_folder, (), wizard_unsure_folder_entry),
        call_ensures(wizard_training_folders, (), wizard_training_folders_entry),
        call_ensures(wizard_finish, (), wizard_finish_entry),
    ensures
        wizard_welcome_entry.title@ == "Welcome to SpamBayes"@,
        wizard_welcome_entry.description == WIZARD_WELCOME_DESCRIPTION,
        wizard_welcome_entry.tips == Some(WIZARD_WELCOME_TIPS),
        wizard_watch_folders_entry.title@ == "Watch Folders"@,
        wizard_watch_folders_entry.description == WIZARD_WATCH_FOLDERS_DESCRIPTION,
        wizard_watch_folders_entry.tips == Some(WIZARD_WATCH_FOLDERS_TIPS),
        wizard_spam_folder_entry.title@ == "Spam Folder"@,
        wizard_spam_folder_entry.description == WIZARD_SPAM_FOLDER_DESCRIPTION,
        wizard_spam_folder_entry.tips == Some(WIZARD_SPAM_FOLDER_TIPS),
        wizard_unsure_folder_entry.title@ == "Unsure Folder"@,
        wizard_unsure_folder_entry.description == WIZARD_UNSURE_FOLDER_DESCRIPTION,
        wizard_unsure_folder_entry.tips == Some(WIZARD_UNSURE_FOLDER_TIPS),
        wizard_training_folders_entry.title@ == "Training Folders"@,
        wizard_training_folders_entry.description == WIZARD_TRAINING_FOLDERS_DESCRIPTION,
        wizard_training_folders_entry.tips == Some(WIZARD_TRAINING_FOLDERS_TIPS),
        wizard_finish_entry.title@ == "Setup Complete"@,
        wizard_finish_entry.description == WIZARD_FINISH_DESCRIPTION,
        wizard_finish_entry.tips == Some(WIZARD_FINISH_TIPS),
{
}

} // verus!
