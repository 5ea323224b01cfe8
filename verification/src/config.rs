//! The add-in's settings, as the dialogs read and change them.

use vstd::prelude::*;

use crate::double::Double;

verus! {

/// What the filter decided about a message.
#[derive(Debug, Clone, Copy, PartialEq, Eq, Structural)]
pub enum Classification {
    Ham,
    Unsure,
    Spam,
}

/// What is done with a classified message.
#[derive(Debug, Clone, Copy, PartialEq, Eq, Structural)]
pub enum FilterAction {
    Move,
    Copy,
    Untouched,
}

/// What is done with a calendar item that was classified as spam.
#[derive(Debug, Clone, Copy, PartialEq, Eq, Structural)]
pub enum CalendarSpamAction {
    Prompt,
    Trash,
    Move,
}

/// The read state that a trained message is given.
#[derive(Debug, Clone, Copy, PartialEq, Eq, Structural)]
pub enum MessageReadState {
    /// Left as it is.
    Unchanged,
    Read,
    Unread,
}

/// How often updates are looked for.
#[derive(Debug, Clone, Copy, PartialEq, Eq, Structural)]
pub enum UpdateCheckInterval {
    Weekly,
    Monthly,
}

/// The identifier of a message store, as hexadecimal text.
#[derive(Debug, PartialEq, Eq, Hash)]
pub struct StoreId {
    pub id: String,
}

impl StoreId {
    /// The store with the given identifier.
    pub fn new(id: &str) -> (store: StoreId)
        ensures
            store.id@ == id@,
    {
        StoreId { id: id.to_owned() }
    }
}

impl Clone for StoreId {
    fn clone(&self) -> (copy: Self)
        ensures
            copy == *self,
    {
        StoreId { id: self.id.clone() }
    }
}

/// The identifier of an entry in a message store, as hexadecimal text.
#[derive(Debug, PartialEq, Eq, Hash)]
pub struct EntryId {
    pub id: String,
}

impl EntryId {
    /// The entry with the given identifier.
    pub fn new(id: &str) -> (entry: EntryId)
        ensures
            entry.id@ == id@,
    {
        EntryId { id: id.to_owned() }
    }
}

impl Clone for EntryId {
    fn clone(&self) -> (copy: Self)
        ensures
            copy == *self,
    {
        EntryId { id: self.id.clone() }
    }
}

/// A mail folder: its store and its entry there.
#[derive(Debug, PartialEq, Eq, Hash)]
pub struct FolderId {
    pub store_id: StoreId,
    pub entry_id: EntryId,
}

impl FolderId {
    /// The folder with the given store and entry.
    pub fn new(store_id: StoreId, entry_id: EntryId) -> (folder: FolderId)
        ensures
            folder.store_id == store_id,
            folder.entry_id == entry_id,
    {
        FolderId { store_id, entry_id }
    }
}

impl Clone for FolderId {
    fn clone(&self) -> (copy: Self)
        ensures
            copy == *self,
    {
        FolderId { store_id: self.store_id.clone(), entry_id: self.entry_id.clone() }
    }
}

/// A copy of a list of folders.
pub fn copy_folders(folders: &Vec<FolderId>) -> (copy: Vec<FolderId>)
    ensures
        copy@ == folders@,
{
    let mut copy: Vec<FolderId> = Vec::new();
    let mut i: usize = 0;
    while i < folders.len()
        invariant
            i <= folders.len(),
            copy@ == folders@.take(i as int),
        decreases folders.len() - i,
    {
        copy.push(folders[i].clone());
        i = i + 1;
        assert(copy@ =~= folders@.take(i as int));
    }
    assert(folders@.take(folders.len() as int) =~= folders@);
    copy
}

/// A copy of a choice of folder.
pub fn copy_folder_choice(folder: &Option<FolderId>) -> (copy: Option<FolderId>)
    ensures
        copy == *folder,
{
    match folder {
        Some(id) => Some(id.clone()),
        None => None,
    }
}

/// Settings that no other group holds.
#[derive(Debug)]
pub struct GeneralConfig {
    /// Where data files are kept; empty for the default place.
    pub data_directory: String,
    pub verbose: u32,
    pub delete_as_spam_message_state: MessageReadState,
    pub recover_from_spam_message_state: MessageReadState,
}

/// Settings of the filter.
#[derive(Debug)]
pub struct FilterConfig {
    pub enabled: bool,
    pub spam_threshold: Double,
    pub unsure_threshold: Double,
    pub spam_action: FilterAction,
    pub unsure_action: FilterAction,
    pub ham_action: FilterAction,
    pub spam_mark_as_read: bool,
    pub unsure_mark_as_read: bool,
    pub ham_mark_as_read: bool,
    pub watch_folder_ids: Vec<FolderId>,
    pub spam_folder_id: Option<FolderId>,
    pub unsure_folder_id: Option<FolderId>,
    pub ham_folder_id: Option<FolderId>,
    pub spam_auto_cleanup_enabled: bool,
    pub spam_auto_cleanup_days: u32,
    pub timer_enabled: bool,
    pub timer_start_delay: Double,
    pub timer_interval: Double,
    pub timer_only_receive_folders: bool,
    pub timer_wait_for_sync: bool,
    pub save_spam_info: bool,
}

/// Settings of training.
#[derive(Debug)]
pub struct TrainingConfig {
    pub ham_folder_ids: Vec<FolderId>,
    pub spam_folder_ids: Vec<FolderId>,
    pub rescore: bool,
    pub rebuild: bool,
    pub train_recovered_spam: bool,
    pub train_manual_spam: bool,
}

/// Settings of filtering existing messages on demand.
#[derive(Debug)]
pub struct FilterNowConfig {
    pub folder_ids: Vec<FolderId>,
    pub only_unread: bool,
    pub only_unseen: bool,
    pub action_all: bool,
}

/// Settings of the notification sounds.
#[derive(Debug)]
pub struct NotificationConfig {
    pub notify_sound_enabled: bool,
    pub notify_ham_sound: String,
    pub notify_unsure_sound: String,
    pub notify_spam_sound: String,
    /// The seconds during which classified messages are gathered into one notification.
    pub notify_accumulate_delay: Double,
}

/// Settings of calendar filtering.
#[derive(Debug, Clone, Copy, PartialEq, Eq, Structural)]
pub struct CalendarConfig {
    pub calendar_filtering_enabled: bool,
    pub calendar_spam_action: CalendarSpamAction,
}

/// Settings of the update check.
#[derive(Debug)]
pub struct UpdateConfig {
    pub check_interval: UpdateCheckInterval,
    pub update_url: String,
}

/// All settings.
#[derive(Debug)]
pub struct AppConfig {
    pub general: GeneralConfig,
    pub filter: FilterConfig,
    pub training: TrainingConfig,
    pub filter_now: FilterNowConfig,
    pub notification: NotificationConfig,
    pub calendar: CalendarConfig,
    pub update: UpdateConfig,
}

/// Identifiers hold the texts that they were made of, and a folder its own store and entry; copies
/// hold the same, and a copied list has every folder in its place.
pub proof fn identifiers_keep_their_parts(
    store_text: &str,
    entry_text: &str,
    store: StoreId,
    entry: EntryId,
    folder: FolderId,
    again: FolderId,
    list: &Vec<FolderId>,
    copied: Vec<FolderId>,
    choice: &Option<FolderId>,
    chosen: Option<FolderId>,
)
    requires
        call_ensures(StoreId::new, (store_text,), store),
        call_ensures(EntryId::new, (entry_text,), entry),
        call_ensures(FolderId::new, (store, entry), folder),
        call_ensures(FolderId::clone, (&folder,), again),
        call_ensures(copy_folders, (list,), copied),
        call_ensures(copy_folder_choice, (choice,), chosen),
    ensures
        folder.store_id.id@ == store_text@,
        folder.entry_id.id@ == entry_text@,
        again.store_id.id@ == store_text@,
        again.entry_id.id@ == entry_text@,
        copied@.len() == list@.len(),
        forall|i: int| 0 <= i < list@.len() ==> #[trigger] copied@[i] == list@[i],
        chosen is Some <==> *choice is Some,
        chosen is Some ==> chosen->0.store_id == choice->0.store_id && chosen->0.entry_id
            == choice->0.entry_id,
{
}

} // verus!
