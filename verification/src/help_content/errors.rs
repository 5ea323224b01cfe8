//! What the user is told about settings that cannot be used.

use vstd::prelude::*;

verus! {

/// A threshold is outside its range, or the unsure threshold exceeds the spam threshold.
pub const THRESHOLD_INVALID: &'static str =
    "The threshold value is out of range.\n\
     \n\
     Both the spam threshold and the unsure threshold must be whole numbers between 0 and \
     100. The unsure threshold must be less than or equal to the spam threshold.\n\
     \n\
     To fix this, enter a number between 0 and 100 for each threshold and make sure the \
     unsure value does not exceed the spam value. Typical defaults are 90 for spam and 15 \
     for unsure.";

/// The number of days to keep spam is no positive number.
pub const CLEANUP_DAYS_INVALID: &'static str =
    "The cleanup days value is not valid.\n\
     \n\
     The number of days to keep spam before automatic deletion must be a positive whole \
     number (1 or greater).\n\
     \n\
     To fix this, enter a number like 7 or 30 to set how many days spam is kept before \
     SpamBayes removes it. If you do not want automatic cleanup, disable the feature instead \
     of entering zero.";

/// A configured folder is no longer there.
pub const FOLDER_NOT_FOUND: &'static str =
    "A configured folder could not be found in Outlook.\n\
     \n\
     The folder may have been renamed, moved, or deleted. SpamBayes cannot filter or train \
     without valid folder paths.\n\
     \n\
     To fix this, open the SpamBayes Manager, go to Folder Configuration, and use the Browse \
     button to select a new folder for the affected role. If the folder was accidentally \
     deleted, you can recreate it in Outlook and then re-select it.";

/// The classifier has not been trained.
pub const TRAINING_REQUIRED: &'static str =
    "SpamBayes needs training before it can filter messages.\n\
     \n\
     The classifier has not been trained with any examples yet. Without training data, \
     SpamBayes cannot distinguish spam from good mail and all messages will be scored as \
     unsure.\n\
     \n\
     To fix this, open the SpamBayes Manager and click Train Now. You need at least a few \
     examples of both good mail (ham) and spam in the designated training folders. The more \
     examples you provide, the more accurate filtering will be.";

} // verus!
