//! The ribbon: the names and numbers of its callbacks, what each calls for, and where its images
//! are looked for.

use vstd::prelude::*;

use crate::com::{
    dll_add_ref, dll_release, one_less, one_more, query_interface_status, LockCount, RefCount,
    DISP_E_UNKNOWNNAME, E_NOINTERFACE, E_POINTER, IID_IDISPATCH, IID_IUNKNOWN, S_OK,
};
use crate::help_dialog_template::le16;
use crate::text::{
    directory_of, directory_of_a_name, directory_part, join_path, path_in, same_text, text_view,
    texts_view,
};
use crate::wide::{from_wide, utf16_text};

verus! {

/// The interface of the ribbon's customisation.
pub const IID_RIBBON_EXTENSIBILITY: u128 = 0x000C0396_0000_0000_C000_000000000046;

/// The number of a callback, by its name.
pub open spec fn dispid_of(name: Seq<char>) -> Option<i32> {
    if name == "wireCall"@ || name == "wireCall2"@ {
        Some(1)
    } else if name == "GetCustomUI"@ {
        Some(2)
    } else if name == "OnSpamClick"@ {
        Some(101)
    } else if name == "OnNotSpamClick"@ {
        Some(102)
    } else if name == "OnManagerClick"@ {
        Some(103)
    } else if name == "Ribbon_OnLoad"@ {
        Some(104)
    } else if name == "GetSpamEnabled"@ {
        Some(105)
    } else if name == "GetNotSpamEnabled"@ {
        Some(106)
    } else if name == "GetNotSpamVisible"@ {
        Some(107)
    } else if name == "LoadImage"@ {
        Some(108)
    } else if name == "GetSpamVisible"@ {
        Some(109)
    } else if name == "OnShowCluesClick"@ {
        Some(110)
    } else if name == "GetShowCluesEnabled"@ {
        Some(111)
    } else {
        None
    }
}

/// The number of the callback whose name is given in UTF-16, without a terminating zero; nothing
/// if there is none of that name.
fn callback_id(name: &[u16]) -> (dispid: Option<i32>)
    ensures
        dispid == dispid_of(utf16_text(name@)),
{
    let name = from_wide(name);
    let name = name.as_str();
    if same_text(name, "wireCall") || same_text(name, "wireCall2") {
        Some(1)
    } else if same_text(name, "GetCustomUI") {
        Some(2)
    } else if same_text(name, "OnSpamClick") {
        Some(101)
    } else if same_text(name, "OnNotSpamClick") {
        Some(102)
    } else if same_text(name, "OnManagerClick") {
        Some(103)
    } else if same_text(name, "Ribbon_OnLoad") {
        Some(104)
    } else if same_text(name, "GetSpamEnabled") {
        Some(105)
    } else if same_text(name, "GetNotSpamEnabled") {
        Some(106)
    } else if same_text(name, "GetNotSpamVisible") {
        Some(107)
    } else if same_text(name, "LoadImage") {
        Some(108)
    } else if same_text(name, "GetSpamVisible") {
        Some(109)
    } else if same_text(name, "OnShowCluesClick") {
        Some(110)
    } else if same_text(name, "GetShowCluesEnabled") {
        Some(111)
    } else {
        None
    }
}

/// The status of a request for a callback's number, and the number that the caller gets, if any.
pub open spec fn id_answer(has_pointers: bool, count: u32, name: Option<Seq<u16>>) -> (
    u32,
    Option<i32>,
) {
    if !has_pointers || count == 0 {
        (E_POINTER, None)
    } else {
        match name {
            None => (DISP_E_UNKNOWNNAME, None),
            Some(units) => match dispid_of(utf16_text(units)) {
                Some(dispid) => (S_OK, Some(dispid)),
                None => (DISP_E_UNKNOWNNAME, Some(-1i32)),
            },
        }
    }
}

/// Answers a request for the number of a callback: the status, and the number that the caller gets,
/// if any. `has_pointers` says whether the caller gave a place for names and one for the number,
/// `count` is how many names it gave, and `name` the first one, in UTF-16 without a terminating
/// zero.
pub fn get_ids_of_names(has_pointers: bool, count: u32, name: Option<&[u16]>) -> (answer: (
    u32,
    Option<i32>,
))
    ensures
        answer == id_answer(
            has_pointers,
            count,
            match name {
                Some(units) => Some(units@),
                None => None,
            },
        ),
{
    if !has_pointers || count == 0 {
        return (E_POINTER, None);
    }
    match name {
        None => (DISP_E_UNKNOWNNAME, None),
        Some(units) => match callback_id(units) {
            Some(dispid) => (S_OK, Some(dispid)),
            None => (DISP_E_UNKNOWNNAME, Some(-1)),
        },
    }
}

/// What a callback calls for.
#[derive(Debug, Clone, Copy, PartialEq, Eq, Structural)]
pub enum RibbonAction {
    /// Train the selected messages as spam.
    TrainAsSpam,
    /// Train the selected messages as ham.
    TrainAsHam,
    /// Open the Manager.
    LaunchManager,
    /// Keep the ribbon's interface, to have it redrawn later.
    StoreRibbon,
    /// Answer a yes-or-no question.
    Answer(RibbonQuestion),
    /// Load an image.
    LoadImage,
    /// Show the clues for the selected message.
    ShowClues,
    /// Nothing.
    Nothing,
}

/// A yes-or-no question about the ribbon.
#[derive(Debug, Clone, Copy, PartialEq, Eq, Structural)]
pub enum RibbonQuestion {
    /// Whether the buttons for spam and ham can be used.
    ButtonsEnabled,
    /// Whether the button for ham is shown.
    NotSpamVisible,
    /// Whether the button for spam is shown.
    SpamVisible,
    /// Whether clues can be shown.
    CluesEnabled,
}

/// What the callback with the given number calls for.
pub open spec fn action_of(disp_id: i32) -> RibbonAction {
    if disp_id == 101 {
        RibbonAction::TrainAsSpam
    } else if disp_id == 102 {
        RibbonAction::TrainAsHam
    } else if disp_id == 103 {
        RibbonAction::LaunchManager
    } else if disp_id == 104 {
        RibbonAction::StoreRibbon
    } else if disp_id == 105 || disp_id == 106 {
        RibbonAction::Answer(RibbonQuestion::ButtonsEnabled)
    } else if disp_id == 107 {
        RibbonAction::Answer(RibbonQuestion::NotSpamVisible)
    } else if disp_id == 108 {
        RibbonAction::LoadImage
    } else if disp_id == 109 {
        RibbonAction::Answer(RibbonQuestion::SpamVisible)
    } else if disp_id == 110 {
        RibbonAction::ShowClues
    } else if disp_id == 111 {
        RibbonAction::Answer(RibbonQuestion::CluesEnabled)
    } else {
        RibbonAction::Nothing
    }
}

/// Decides what the callback with the given number calls for, and how it is answered: always with
/// success.
pub fn invoke(disp_id: i32) -> (answer: (u32, RibbonAction))
    ensures
        answer == (S_OK, action_of(disp_id)),
{
    let action = match disp_id {
        101 => RibbonAction::TrainAsSpam,
        102 => RibbonAction::TrainAsHam,
        103 => RibbonAction::LaunchManager,
        104 => RibbonAction::StoreRibbon,
        105 | 106 => RibbonAction::Answer(RibbonQuestion::ButtonsEnabled),
        107 => RibbonAction::Answer(RibbonQuestion::NotSpamVisible),
        108 => RibbonAction::LoadImage,
        109 => RibbonAction::Answer(RibbonQuestion::SpamVisible),
        110 => RibbonAction::ShowClues,
        111 => RibbonAction::Answer(RibbonQuestion::CluesEnabled),
        _ => RibbonAction::Nothing,
    };
    (S_OK, action)
}

/// Every callback that the ribbon names, other than those that it never calls by number, does
/// something; no two of them do the same, but for the two questions about the buttons.
pub proof fn named_callbacks_act(a: Seq<char>, b: Seq<char>)
    requires
        dispid_of(a) is Some,
        dispid_of(a)->0 > 100,
        dispid_of(b) is Some,
        dispid_of(b)->0 > 100,
    ensures
        action_of(dispid_of(a)->0) != RibbonAction::Nothing,
        action_of(dispid_of(a)->0) == action_of(dispid_of(b)->0) ==> dispid_of(a) == dispid_of(b)
            || action_of(dispid_of(a)->0) == RibbonAction::Answer(RibbonQuestion::ButtonsEnabled),
{
}

/// The answer to a question.
pub open spec fn answer_spec(
    question: RibbonQuestion,
    in_spam_or_unsure_folder: bool,
    in_spam_folder: bool,
    classifier_loaded: bool,
) -> bool {
    match question {
        RibbonQuestion::ButtonsEnabled => true,
        RibbonQuestion::NotSpamVisible => in_spam_or_unsure_folder,
        RibbonQuestion::SpamVisible => !in_spam_folder,
        RibbonQuestion::CluesEnabled => classifier_loaded,
    }
}

/// The answer to a question, from where the user is and whether there is a classifier.
pub fn answer(
    question: RibbonQuestion,
    in_spam_or_unsure_folder: bool,
    in_spam_folder: bool,
    classifier_loaded: bool,
) -> (yes: bool)
    ensures
        yes == answer_spec(
            question,
            in_spam_or_unsure_folder,
            in_spam_folder,
            classifier_loaded,
        ),
{
    match question {
        RibbonQuestion::ButtonsEnabled => true,
        RibbonQuestion::NotSpamVisible => in_spam_or_unsure_folder,
        RibbonQuestion::SpamVisible => !in_spam_folder,
        RibbonQuestion::CluesEnabled => classifier_loaded,
    }
}

/// The spam folder being one of the folders for spam and unsure messages, at least one of the two
/// buttons for spam and ham is shown wherever the user is.
pub proof fn some_button_is_shown(
    in_spam_or_unsure_folder: bool,
    in_spam_folder: bool,
    classifier_loaded: bool,
)
    requires
        in_spam_folder ==> in_spam_or_unsure_folder,
    ensures
        answer_spec(
            RibbonQuestion::NotSpamVisible,
            in_spam_or_unsure_folder,
            in_spam_folder,
            classifier_loaded,
        ) || answer_spec(
            RibbonQuestion::SpamVisible,
            in_spam_or_unsure_folder,
            in_spam_folder,
            classifier_loaded,
        ),
{
}

/// The first bytes of a `VARIANT` that holds a truth value: its type, three reserved fields, and
/// -1 or 0.
pub fn variant_bool(value: bool) -> (bytes: [u8; 10])
    ensures
        bytes@ == le16(11) + le16(0) + le16(0) + le16(0) + le16(
            if value {
                0xFFFF
            } else {
                0
            },
        ),
{
    let last: u8 = if value {
        0xFF
    } else {
        0
    };
    let bytes: [u8; 10] = [11, 0, 0, 0, 0, 0, 0, 0, last, last];
    assert(bytes@ =~= le16(11) + le16(0) + le16(0) + le16(0) + le16(
        if value {
            0xFFFF
        } else {
            0
        },
    ));
    bytes
}

/// The type of a `VARIANT` that holds a string.
pub const VT_BSTR: u16 = 8;

/// The type of a `VARIANT` that holds an object.
pub const VT_DISPATCH: u16 = 9;

/// The type of a `VARIANT` that holds an object of unknown kind.
pub const VT_UNKNOWN: u16 = 13;

/// Whether the first argument of the load callback, of the given type, is a ribbon to keep.
pub fn is_ribbon_argument(vt: u16, is_null: bool) -> (keep: bool)
    ensures
        keep == ((vt == VT_DISPATCH || vt == VT_UNKNOWN) && !is_null),
{
    (vt == VT_DISPATCH || vt == VT_UNKNOWN) && !is_null
}

/// The text of the first argument: of the given type, with the given code units (none for a null
/// pointer).
pub fn extract_first_bstr_param(vt: u16, units: Option<&[u16]>) -> (text: Option<String>)
    ensures
        text is Some <==> vt == VT_BSTR && units is Some,
        text matches Some(t) ==> t@ == utf16_text(units->0@),
{
    if vt == VT_BSTR {
        match units {
            Some(u) => Some(from_wide(u)),
            None => None,
        }
    } else {
        None
    }
}

/// The file of an image, by the image's name.
pub fn image_file(id: &str) -> (file: Option<&'static str>)
    ensures
        file == (if id@ == "delete_as_spam"@ {
            Some("delete_as_spam.bmp")
        } else if id@ == "recover_ham"@ {
            Some("recover_ham.bmp")
        } else {
            None
        }),
{
    if same_text(id, "delete_as_spam") {
        Some("delete_as_spam.bmp")
    } else if same_text(id, "recover_ham") {
        Some("recover_ham.bmp")
    } else {
        None
    }
}

/// The directory of the server's file: the first `len` code units of the buffer that was filled,
/// up to the last backslash.
pub fn get_dll_directory(buffer: &[u16], len: usize) -> (dir: Option<String>)
    requires
        len <= buffer@.len(),
    ensures
        match dir {
            Some(d) => directory_of(utf16_text(buffer@.take(len as int))) == Some(d@),
            None => directory_of(utf16_text(buffer@.take(len as int))) is None,
        },
{
    let used = vstd::slice::slice_subrange(buffer, 0, len);
    assert(used@ =~= buffer@.take(len as int));
    directory_part(from_wide(used).as_str())
}

/// An image file of the directory that ends where the given text does, before a backslash: such a
/// text may be a mere drive, and then stands for the drive's root.
pub open spec fn image_in(dir: Seq<char>, filename: Seq<char>) -> Seq<char> {
    dir + "\\images\\"@ + filename
}

/// Where the parent directory of a directory holds an image file: nowhere if it has no parent.
pub open spec fn image_above(dir: Option<Seq<char>>, filename: Seq<char>) -> Seq<Seq<char>> {
    match dir {
        Some(d) => seq![image_in(d, filename)],
        None => Seq::empty(),
    }
}

/// The parent directory of a directory that may be missing.
pub open spec fn parent_of(dir: Option<Seq<char>>) -> Option<Seq<char>> {
    match dir {
        Some(d) => directory_of(d),
        None => None,
    }
}

/// The places where an image file is looked for, in their order: the directory above the server's,
/// the one above that, and the add-in's directory in the user's local data.
pub open spec fn image_candidates(
    dll_dir: Option<Seq<char>>,
    local_app_data: Option<Seq<char>>,
    filename: Seq<char>,
) -> Seq<Seq<char>> {
    image_above(parent_of(dll_dir), filename) + image_above(
        parent_of(parent_of(dll_dir)),
        filename,
    ) + (match local_app_data {
        Some(base) => seq![path_in(path_in(path_in(base, "SpamBayes"@), "images"@), filename)],
        None => Seq::empty(),
    })
}

/// An image file of the directory that ends where the given text does, before a backslash.
fn image_path(dir: &str, filename: &str) -> (path: String)
    ensures
        path@ == image_in(dir@, filename@),
{
    let mut path = dir.to_owned();
    path.append("\\images\\");
    path.append(filename);
    path
}

/// The places where an image file is looked for, in their order; the first that exists is used.
pub fn find_image_path(
    dll_dir: &Option<String>,
    local_app_data: &Option<String>,
    filename: &str,
) -> (places: Vec<String>)
    ensures
        texts_view(places@) == image_candidates(
            text_view(*dll_dir),
            text_view(*local_app_data),
            filename@,
        ),
{
    let mut places: Vec<String> = Vec::new();
    let parent = match dll_dir {
        Some(dir) => directory_part(dir.as_str()),
        None => None,
    };
    let grandparent = match &parent {
        Some(dir) => directory_part(dir.as_str()),
        None => None,
    };
    if let Some(dir) = &parent {
        places.push(image_path(dir.as_str(), filename));
    }
    assert(texts_view(places@) =~= image_above(text_view(parent), filename@));
    if let Some(dir) = &grandparent {
        places.push(image_path(dir.as_str(), filename));
    }
    assert(texts_view(places@) =~= image_above(text_view(parent), filename@) + image_above(
        text_view(grandparent),
        filename@,
    ));
    if let Some(base) = local_app_data {
        let data = join_path(base.as_str(), "SpamBayes");
        let images = join_path(data.as_str(), "images");
        places.push(join_path(images.as_str(), filename));
    }
    assert(texts_view(places@) =~= image_candidates(
        text_view(*dll_dir),
        text_view(*local_app_data),
        filename@,
    ));
    places
}

/// The ribbon's COM object.
#[derive(Debug, Clone, Copy)]
pub struct RibbonExtensibility {
    pub refs: RefCount,
}

impl RibbonExtensibility {
    /// A new object, with its creator's reference; while it lives, it locks the server.
    pub fn new(locks: &mut LockCount) -> (ribbon: RibbonExtensibility)
        ensures
            ribbon.refs.count == 1,
            final(locks).count == one_more(old(locks).count),
    {
        dll_add_ref(locks);
        RibbonExtensibility { refs: RefCount::new() }
    }

    /// Answers a request for an interface. The object hands itself out, and counts the reference,
    /// if and only if the status is `S_OK`.
    pub fn query_interface(&mut self, has_output: bool, iid: Option<u128>) -> (status: u32)
        requires
            old(self).refs.count < u32::MAX,
        ensures
            status == (if !has_output || iid is None {
                E_POINTER
            } else if iid == Some(IID_IUNKNOWN) || iid == Some(IID_IDISPATCH) || iid == Some(
                IID_RIBBON_EXTENSIBILITY,
            ) {
                S_OK
            } else {
                E_NOINTERFACE
            }),
            final(self).refs.count == old(self).refs.count + (if status == S_OK {
                1int
            } else {
                0
            }),
    {
        let status: u32 = query_interface_status(has_output, iid, IID_RIBBON_EXTENSIBILITY);
        if status == S_OK {
            self.refs.add_ref();
        }
        status
    }

    /// Counts one reference less and gives the new count. With the last reference the object is to
    /// be destroyed, and no longer locks the server.
    pub fn release(&mut self, locks: &mut LockCount) -> (count: u32)
        requires
            old(self).refs.count > 0,
        ensures
            final(self).refs.count == old(self).refs.count - 1,
            count == final(self).refs.count,
            final(locks).count == (if count == 0 {
                one_less(old(locks).count)
            } else {
                old(locks).count
            }),
    {
        let count: u32 = self.refs.release();
        if count == 0 {
            dll_release(locks);
        }
        count
    }
}

/// The button for ham is shown exactly in the folders for spam and for unsure messages, and that
/// for spam everywhere but in the folder for spam; so both are shown in the folder for unsure
/// messages. The buttons can always be used, and clues can be shown exactly if there is a
/// classifier, wherever the user is.
pub proof fn buttons_fit_the_folder(
    in_spam: bool,
    in_unsure: bool,
    loaded: bool,
    enabled: bool,
    ham_shown: bool,
    spam_shown: bool,
    clues: bool,
)
    requires
        call_ensures(
            answer,
            (RibbonQuestion::ButtonsEnabled, in_spam || in_unsure, in_spam, loaded),
            enabled,
        ),
        call_ensures(
            answer,
            (RibbonQuestion::NotSpamVisible, in_spam || in_unsure, in_spam, loaded),
            ham_shown,
        ),
        call_ensures(
            answer,
            (RibbonQuestion::SpamVisible, in_spam || in_unsure, in_spam, loaded),
            spam_shown,
        ),
        call_ensures(
            answer,
            (RibbonQuestion::CluesEnabled, in_spam || in_unsure, in_spam, loaded),
            clues,
        ),
    ensures
        enabled,
        in_spam ==> ham_shown && !spam_shown,
        in_unsure && !in_spam ==> ham_shown && spam_shown,
        !in_spam && !in_unsure ==> !ham_shown && spam_shown,
        clues == loaded,
{
}

proof fn lemma_callback_names_differ()
    ensures
        dispid_of("OnSpamClick"@) == Some(101i32),
        dispid_of("OnNotSpamClick"@) == Some(102i32),
        dispid_of("OnManagerClick"@) == Some(103i32),
        dispid_of("Ribbon_OnLoad"@) == Some(104i32),
        dispid_of("GetSpamEnabled"@) == Some(105i32),
        dispid_of("GetNotSpamEnabled"@) == Some(106i32),
        dispid_of("GetNotSpamVisible"@) == Some(107i32),
        dispid_of("LoadImage"@) == Some(108i32),
        dispid_of("GetSpamVisible"@) == Some(109i32),
        dispid_of("OnShowCluesClick"@) == Some(110i32),
        dispid_of("GetShowCluesEnabled"@) == Some(111i32),
{
    reveal_strlit("wireCall");
    reveal_strlit("wireCall2");
    reveal_strlit("GetCustomUI");
    reveal_strlit("OnSpamClick");
    reveal_strlit("OnNotSpamClick");
    reveal_strlit("OnManagerClick");
    reveal_strlit("Ribbon_OnLoad");
    reveal_strlit("GetSpamEnabled");
    reveal_strlit("GetNotSpamEnabled");
    reveal_strlit("GetNotSpamVisible");
    reveal_strlit("LoadImage");
    reveal_strlit("GetSpamVisible");
    reveal_strlit("OnShowCluesClick");
    reveal_strlit("GetShowCluesEnabled");
    assert("wireCall"@.len() != "wireCall2"@.len());
    assert("wireCall"@.len() != "GetCustomUI"@.len());
    assert("wireCall"@.len() != "OnSpamClick"@.len());
    assert("wireCall"@.len() != "OnNotSpamClick"@.len());
    assert("wireCall"@.len() != "OnManagerClick"@.len());
    assert("wireCall"@.len() != "Ribbon_OnLoad"@.len());
    assert("wireCall"@.len() != "GetSpamEnabled"@.len());
    assert("wireCall"@.len() != "GetNotSpamEnabled"@.len());
    assert("wireCall"@.len() != "GetNotSpamVisible"@.len());
    assert("wireCall"@.len() != "LoadImage"@.len());
    assert("wireCall"@.len() != "GetSpamVisible"@.len());
    assert("wireCall"@.len() != "OnShowCluesClick"@.len());
    assert("wireCall"@.len() != "GetShowCluesEnabled"@.len());
    assert("wireCall2"@.len() != "GetCustomUI"@.len());
    assert("wireCall2"@.len() != "OnSpamClick"@.len());
    assert("wireCall2"@.len() != "OnNotSpamClick"@.len());
    assert("wireCall2"@.len() != "OnManagerClick"@.len());
    assert("wireCall2"@.len() != "Ribbon_OnLoad"@.len());
    assert("wireCall2"@.len() != "GetSpamEnabled"@.len());
    assert("wireCall2"@.len() != "GetNotSpamEnabled"@.len());
    assert("wireCall2"@.len() != "GetNotSpamVisible"@.len());
    assert("wireCall2"@[0] != "LoadImage"@[0]);
    assert("wireCall2"@.len() != "GetSpamVisible"@.len());
    assert("wireCall2"@.len() != "OnShowCluesClick"@.len());
    assert("wireCall2"@.len() != "GetShowCluesEnabled"@.len());
    assert("GetCustomUI"@[0] != "OnSpamClick"@[0]);
    assert("GetCustomUI"@.len() != "OnNotSpamClick"@.len());
    assert("GetCustomUI"@.len() != "OnManagerClick"@.len());
    assert("GetCustomUI"@.len() != "Ribbon_OnLoad"@.len());
    assert("GetCustomUI"@.len() != "GetSpamEnabled"@.len());
    assert("GetCustomUI"@.len() != "GetNotSpamEnabled"@.len());
    assert("GetCustomUI"@.len() != "GetNotSpamVisible"@.len());
    assert("GetCustomUI"@.len() != "LoadImage"@.len());
    assert("GetCustomUI"@.len() != "GetSpamVisible"@.len());
    assert("GetCustomUI"@.len() != "OnShowCluesClick"@.len());
    assert("GetCustomUI"@.len() != "GetShowCluesEnabled"@.len());
    assert("OnSpamClick"@.len() != "OnNotSpamClick"@.len());
    assert("OnSpamClick"@.len() != "OnManagerClick"@.len());
    assert("OnSpamClick"@.len() != "Ribbon_OnLoad"@.len());
    assert("OnSpamClick"@.len() != "GetSpamEnabled"@.len());
    assert("OnSpamClick"@.len() != "GetNotSpamEnabled"@.len());
    assert("OnSpamClick"@.len() != "GetNotSpamVisible"@.len());
    assert("OnSpamClick"@.len() != "LoadImage"@.len());
    assert("OnSpamClick"@.len() != "GetSpamVisible"@.len());
    assert("OnSpamClick"@.len() != "OnShowCluesClick"@.len());
    assert("OnSpamClick"@.len() != "GetShowCluesEnabled"@.len());
    assert("OnNotSpamClick"@[2] != "OnManagerClick"@[2]);
    assert("OnNotSpamClick"@.len() != "Ribbon_OnLoad"@.len());
    assert("OnNotSpamClick"@[0] != "GetSpamEnabled"@[0]);
    assert("OnNotSpamClick"@.len() != "GetNotSpamEnabled"@.len());
    assert("OnNotSpamClick"@.len() != "GetNotSpamVisible"@.len());
    assert("OnNotSpamClick"@.len() != "LoadImage"@.len());
    assert("OnNotSpamClick"@[0] != "GetSpamVisible"@[0]);
    assert("OnNotSpamClick"@.len() != "OnShowCluesClick"@.len());
    assert("OnNotSpamClick"@.len() != "GetShowCluesEnabled"@.len());
    assert("OnManagerClick"@.len() != "Ribbon_OnLoad"@.len());
    assert("OnManagerClick"@[0] != "GetSpamEnabled"@[0]);
    assert("OnManagerClick"@.len() != "GetNotSpamEnabled"@.len());
    assert("OnManagerClick"@.len() != "GetNotSpamVisible"@.len());
    assert("OnManagerClick"@.len() != "LoadImage"@.len());
    assert("OnManagerClick"@[0] != "GetSpamVisible"@[0]);
    assert("OnManagerClick"@.len() != "OnShowCluesClick"@.len());
    assert("OnManagerClick"@.len() != "GetShowCluesEnabled"@.len());
    assert("Ribbon_OnLoad"@.len() != "GetSpamEnabled"@.len());
    assert("Ribbon_OnLoad"@.len() != "GetNotSpamEnabled"@.len());
    assert("Ribbon_OnLoad"@.len() != "GetNotSpamVisible"@.len());
    assert("Ribbon_OnLoad"@.len() != "LoadImage"@.len());
    assert("Ribbon_OnLoad"@.len() != "GetSpamVisible"@.len());
    assert("Ribbon_OnLoad"@.len() != "OnShowCluesClick"@.len());
    assert("Ribbon_OnLoad"@.len() != "GetShowCluesEnabled"@.len());
    assert("GetSpamEnabled"@.len() != "GetNotSpamEnabled"@.len());
    assert("GetSpamEnabled"@.len() != "GetNotSpamVisible"@.len());
    assert("GetSpamEnabled"@.len() != "LoadImage"@.len());
    assert("GetSpamEnabled"@[7] != "GetSpamVisible"@[7]);
    assert("GetSpamEnabled"@.len() != "OnShowCluesClick"@.len());
    assert("GetSpamEnabled"@.len() != "GetShowCluesEnabled"@.len());
    assert("GetNotSpamEnabled"@[10] != "GetNotSpamVisible"@[10]);
    assert("GetNotSpamEnabled"@.len() != "LoadImage"@.len());
    assert("GetNotSpamEnabled"@.len() != "GetSpamVisible"@.len());
    assert("GetNotSpamEnabled"@.len() != "OnShowCluesClick"@.len());
    assert("GetNotSpamEnabled"@.len() != "GetShowCluesEnabled"@.len());
    assert("GetNotSpamVisible"@.len() != "LoadImage"@.len());
    assert("GetNotSpamVisible"@.len() != "GetSpamVisible"@.len());
    assert("GetNotSpamVisible"@.len() != "OnShowCluesClick"@.len());
    assert("GetNotSpamVisible"@.len() != "GetShowCluesEnabled"@.len());
    assert("LoadImage"@.len() != "GetSpamVisible"@.len());
    assert("LoadImage"@.len() != "OnShowCluesClick"@.len());
    assert("LoadImage"@.len() != "GetShowCluesEnabled"@.len());
    assert("GetSpamVisible"@.len() != "OnShowCluesClick"@.len());
    assert("GetSpamVisible"@.len() != "GetShowCluesEnabled"@.len());
    assert("OnShowCluesClick"@.len() != "GetShowCluesEnabled"@.len());
}

/// A callback that is asked for by its name, and then called by the number that was given for it,
/// does what its name says: the clicks train, open the Manager or show clues, the questions are
/// answered, and the loaded ribbon is kept.
pub proof fn a_callback_does_what_its_name_says(
    name: &[u16],
    count: u32,
    id: (u32, Option<i32>),
    action: (u32, RibbonAction),
)
    requires
        count > 0,
        call_ensures(get_ids_of_names, (true, count, Some(name)), id),
        id.0 == 0,
        id.1 is Some,
        call_ensures(invoke, (id.1->0,), action),
    ensures
        action.0 == 0,
        utf16_text(name@) == "OnSpamClick"@ ==> action.1 == RibbonAction::TrainAsSpam,
        utf16_text(name@) == "OnNotSpamClick"@ ==> action.1 == RibbonAction::TrainAsHam,
        utf16_text(name@) == "OnManagerClick"@ ==> action.1 == RibbonAction::LaunchManager,
        utf16_text(name@) == "Ribbon_OnLoad"@ ==> action.1 == RibbonAction::StoreRibbon,
        utf16_text(name@) == "GetSpamEnabled"@ ==> action.1
            == RibbonAction::Answer(RibbonQuestion::ButtonsEnabled),
        utf16_text(name@) == "GetNotSpamEnabled"@ ==> action.1
            == RibbonAction::Answer(RibbonQuestion::ButtonsEnabled),
        utf16_text(name@) == "GetNotSpamVisible"@ ==> action.1
            == RibbonAction::Answer(RibbonQuestion::NotSpamVisible),
        utf16_text(name@) == "LoadImage"@ ==> action.1 == RibbonAction::LoadImage,
        utf16_text(name@) == "GetSpamVisible"@ ==> action.1
            == RibbonAction::Answer(RibbonQuestion::SpamVisible),
        utf16_text(name@) == "OnShowCluesClick"@ ==> action.1 == RibbonAction::ShowClues,
        utf16_text(name@) == "GetShowCluesEnabled"@ ==> action.1
            == RibbonAction::Answer(RibbonQuestion::CluesEnabled),
{
    lemma_callback_names_differ();
}

/// A name that is no callback's gets the status for it and the number -1, which calls for nothing;
/// a request without a place for the answer, or without names, gets a status of its own and no
/// number.
pub proof fn unknown_callbacks_do_nothing(
    has_pointers: bool,
    count: u32,
    name: &[u16],
    id: (u32, Option<i32>),
    action: (u32, RibbonAction),
)
    requires
        call_ensures(get_ids_of_names, (has_pointers, count, Some(name)), id),
        call_ensures(invoke, (-1i32,), action),
    ensures
        !has_pointers || count == 0 <==> id.0 == 0x80004003,
        !has_pointers || count == 0 <==> id.1 is None,
        id.0 == 0 || id.0 == 0x80004003 || id.0 == 0x80020006,
        id.0 == 0x80020006 ==> id.1 == Some(-1i32),
        id.0 == 0 ==> id.1 is Some && id.1->0 > 0,
        action.1 is Nothing,
        action.0 == 0,
{
}

/// A truth value goes to the ribbon as sixteen bits that are all set or all clear, behind the type
/// of truth values.
pub proof fn truth_values_are_all_or_nothing(value: bool, bytes: [u8; 10])
    requires
        call_ensures(variant_bool, (value,), bytes),
    ensures
        bytes@[0] == 11,
        forall|i: int| 0 < i < 8 ==> bytes@[i] == 0,
        bytes@[8] == bytes@[9],
        value ==> bytes@[8] == 0xFF,
        !value ==> bytes@[8] == 0,
{
    assert(bytes@ =~= le16(11) + le16(0) + le16(0) + le16(0) + le16(
        if value {
            0xFFFF
        } else {
            0
        },
    ));
}

/// The ribbon is kept if it is an object of either kind, and not if it is anything else or nothing.
pub proof fn only_objects_are_kept(vt: u16, is_null: bool, keep: bool)
    requires
        call_ensures(is_ribbon_argument, (vt, is_null), keep),
    ensures
        is_null ==> !keep,
        !is_null ==> (keep <==> vt == 9 || vt == 13),
{
}

/// A string argument is read as the text of its code units; an argument of another type, or a null
/// pointer, gives none.
pub proof fn only_strings_are_read(
    vt: u16,
    units: &[u16],
    text: Option<String>,
    null: Option<String>,
)
    requires
        call_ensures(extract_first_bstr_param, (vt, Some(units)), text),
        call_ensures(extract_first_bstr_param, (vt, None), null),
    ensures
        null is None,
        text is Some <==> vt == 8,
        text matches Some(t) ==> t@ == utf16_text(units@),
{
}

/// The file of an image is named like the image, and there are images for the two buttons alone.
pub proof fn image_files_are_named_like_images(id: &str, file: Option<&'static str>)
    requires
        call_ensures(image_file, (id,), file),
    ensures
        file is Some <==> id@ == "delete_as_spam"@ || id@ == "recover_ham"@,
        file matches Some(name) ==> name@ == id@ + ".bmp"@,
{
    reveal_strlit("delete_as_spam");
    reveal_strlit("recover_ham");
    reveal_strlit(".bmp");
    reveal_strlit("delete_as_spam.bmp");
    reveal_strlit("recover_ham.bmp");
    assert("delete_as_spam"@ + ".bmp"@ =~= "delete_as_spam.bmp"@);
    assert("recover_ham"@ + ".bmp"@ =~= "recover_ham.bmp"@);
    assert("delete_as_spam"@.len() != "recover_ham"@.len());
}

/// The server's directory is the directory of its file's path.
pub proof fn the_servers_directory_holds_its_file(
    dir: Seq<char>,
    name: Seq<char>,
    buffer: &[u16],
    len: usize,
    found: Option<String>,
)
    requires
        len <= buffer@.len(),
        utf16_text(buffer@.take(len as int)) == dir + seq!['\\'] + name,
        !name.contains('\\'),
        call_ensures(get_dll_directory, (buffer, len), found),
    ensures
        found matches Some(d) && d@ == dir,
{
    directory_of_a_name(dir, name);
}

/// For a server in a directory three levels deep, images are looked for in the directory `images`
/// of the level above the server's, then of the level above that, and then in the user's local
/// data, if that is known; nowhere else.
pub proof fn images_are_looked_for_above_the_server(
    top: Seq<char>,
    middle: Seq<char>,
    own: Seq<char>,
    dll_dir: &Option<String>,
    local_app_data: &Option<String>,
    filename: &str,
    places: Vec<String>,
)
    requires
        !middle.contains('\\'),
        !own.contains('\\'),
        *dll_dir matches Some(dir) && dir@ == top + seq!['\\'] + middle + seq!['\\'] + own,
        call_ensures(find_image_path, (dll_dir, local_app_data, filename), places),
    ensures
        places@.len() == 2 + (if *local_app_data is Some {
            1int
        } else {
            0
        }),
        places@[0]@ == top + seq!['\\'] + middle + "\\images\\"@ + filename@,
        places@[1]@ == top + "\\images\\"@ + filename@,
        *local_app_data matches Some(base) ==> {
            &&& base@.len() + filename@.len() <= places@[2]@.len()
            &&& places@[2]@.take(base@.len() as int) == base@
            &&& places@[2]@.skip(places@[2]@.len() - filename@.len()) == filename@
        },
{
    let dir = (*dll_dir)->0@;
    directory_of_a_name(top + seq!['\\'] + middle, own);
    directory_of_a_name(top, middle);
    let all = texts_view(places@);
    assert(all.len() == places@.len());
    assert(all[0] == places@[0]@);
    assert(all[1] == places@[1]@);
    if let Some(base) = *local_app_data {
        assert(all[2] == places@[2]@);
        assert(places@[2]@.take(base@.len() as int) =~= base@);
        assert(places@[2]@.skip(places@[2]@.len() - filename@.len()) =~= filename@);
    }
}

/// A ribbon object that is created and released by its creator is gone and leaves the server's
/// locks as they were; one that is still referred to keeps its lock.
pub proof fn a_ribbon_locks_the_server_while_it_lives(
    locks: &mut LockCount,
    ribbon: RibbonExtensibility,
    object: &mut RibbonExtensibility,
    later: &mut LockCount,
    count: u32,
)
    requires
        call_ensures(RibbonExtensibility::new, (locks,), ribbon),
        old(object).refs.count > 0,
        *old(later) == *final(locks),
        call_ensures(RibbonExtensibility::release, (object, later), count),
    ensures
        ribbon.refs.count == 1,
        old(locks).count < u32::MAX ==> final(locks).count == old(locks).count + 1,
        old(object).refs.count == 1 ==> count == 0 && final(later).count == old(locks).count,
        old(object).refs.count > 1 ==> count > 0 && final(later).count == final(locks).count,
        final(object).refs.count == old(object).refs.count - 1,
{
}

/// A ribbon object hands itself out for its own interface as well, and counts exactly the
/// references that it hands out.
pub proof fn a_ribbon_counts_what_it_hands_out(
    object: &mut RibbonExtensibility,
    has_output: bool,
    iid: Option<u128>,
    status: u32,
)
    requires
        old(object).refs.count < u32::MAX,
        call_ensures(RibbonExtensibility::query_interface, (object, has_output, iid), status),
    ensures
        status == 0 ==> final(object).refs.count == old(object).refs.count + 1,
        status != 0 ==> final(object).refs.count == old(object).refs.count,
        has_output && iid == Some(IID_RIBBON_EXTENSIBILITY) ==> status == 0,
        !has_output || iid is None <==> status == 0x80004003,
{
}

/// Every callback is found by its name, under a number of its own, and nothing is found by any
/// other name; a request with a null name gets the status for unknown names and no number.
pub proof fn callbacks_are_found_by_name(
    name: &[u16],
    count: u32,
    id: (u32, Option<i32>),
    null: (u32, Option<i32>),
)
    requires
        count > 0,
        call_ensures(get_ids_of_names, (true, count, Some(name)), id),
        call_ensures(get_ids_of_names, (true, count, None), null),
    ensures
        utf16_text(name@) == "OnSpamClick"@ ==> id == (0u32, Some(101i32)),
        utf16_text(name@) == "OnNotSpamClick"@ ==> id == (0u32, Some(102i32)),
        utf16_text(name@) == "OnManagerClick"@ ==> id == (0u32, Some(103i32)),
        utf16_text(name@) == "Ribbon_OnLoad"@ ==> id == (0u32, Some(104i32)),
        utf16_text(name@) == "GetSpamEnabled"@ ==> id == (0u32, Some(105i32)),
        utf16_text(name@) == "GetNotSpamEnabled"@ ==> id == (0u32, Some(106i32)),
        utf16_text(name@) == "GetNotSpamVisible"@ ==> id == (0u32, Some(107i32)),
        utf16_text(name@) == "LoadImage"@ ==> id == (0u32, Some(108i32)),
        utf16_text(name@) == "GetSpamVisible"@ ==> id == (0u32, Some(109i32)),
        utf16_text(name@) == "OnShowCluesClick"@ ==> id == (0u32, Some(110i32)),
        utf16_text(name@) == "GetShowCluesEnabled"@ ==> id == (0u32, Some(111i32)),
        utf16_text(name@) == "wireCall"@ || utf16_text(name@) == "wireCall2"@ ==> id == (
            0u32,
            Some(1i32),
        ),
        utf16_text(name@) == "GetCustomUI"@ ==> id == (0u32, Some(2i32)),
        id.0 == 0 ==> {
            let text = utf16_text(name@);
            ||| text == "wireCall"@ || text == "wireCall2"@ || text == "GetCustomUI"@
            ||| text == "OnSpamClick"@ || text == "OnNotSpamClick"@ || text == "OnManagerClick"@
            ||| text == "Ribbon_OnLoad"@ || text == "GetSpamEnabled"@
            ||| text == "GetNotSpamEnabled"@ || text == "GetNotSpamVisible"@
            ||| text == "LoadImage"@ || text == "GetSpamVisible"@
            ||| text == "OnShowCluesClick"@ || text == "GetShowCluesEnabled"@
        },
        id.0 != 0 ==> id == (0x80020006u32, Some(-1i32)),
        null.0 == 0x80020006,
        null.1 is None,
{
    lemma_callback_names_differ();
    reveal_strlit("wireCall");
    reveal_strlit("wireCall2");
    reveal_strlit("GetCustomUI");
    assert("GetCustomUI"@.len() == 11);
    assert("wireCall"@.len() == 8);
    assert("wireCall2"@.len() == 9);
}

/// A number that no callback has calls for nothing, and every call succeeds.
pub proof fn other_numbers_call_for_nothing(disp_id: i32, action: (u32, RibbonAction))
    requires
        call_ensures(invoke, (disp_id,), action),
    ensures
        action.0 == 0,
        action.1 is Nothing <==> disp_id < 101 || disp_id > 111,
        action.1 is TrainAsSpam <==> disp_id == 101,
        action.1 is TrainAsHam <==> disp_id == 102,
{
}

/// A server whose path has no directory has none. Without a server's directory, or one without a
/// parent, images are looked for in the user's local data alone, below `SpamBayes` and `images`,
/// and nowhere if that is not known either; below a parent without one of its own, in the parent
/// first.
pub proof fn images_are_looked_for_in_the_local_data(
    dll_dir: &Option<String>,
    local_app_data: &Option<String>,
    filename: &str,
    places: Vec<String>,
    parent: Seq<char>,
    own: Seq<char>,
)
    requires
        call_ensures(find_image_path, (dll_dir, local_app_data, filename), places),
        !own.contains('\\'),
        !parent.contains('\\'),
    ensures
        *dll_dir is None || (*dll_dir)->0@ == own ==> places@.len() == (if *local_app_data is Some {
            1int
        } else {
            0
        }),
        *dll_dir is Some && (*dll_dir)->0@ == parent + seq!['\\'] + own ==> {
            &&& places@.len() == 1 + (if *local_app_data is Some {
                1int
            } else {
                0
            })
            &&& places@[0]@ == parent + "\\images\\"@ + filename@
        },
        *local_app_data is Some ==> places@.len() > 0 && places@.last()@ == path_in(
            path_in(path_in((*local_app_data)->0@, "SpamBayes"@), "images"@),
            filename@,
        ),
{
    crate::text::no_directory_without_backslash(own);
    crate::text::no_directory_without_backslash(parent);
    directory_of_a_name(parent, own);
    let all = texts_view(places@);
    assert(all.len() == places@.len());
    if places@.len() > 0 {
        assert(all[0] == places@[0]@);
        assert(all[places@.len() - 1] == places@.last()@);
    }
}

/// A path of a server's file without a backslash has no directory.
pub proof fn a_bare_file_has_no_directory(buffer: &[u16], len: usize, found: Option<String>)
    requires
        len <= buffer@.len(),
        call_ensures(get_dll_directory, (buffer, len), found),
    ensures
        found is None <==> !utf16_text(buffer@.take(len as int)).contains('\\'),
{
    crate::text::no_directory_without_backslash(utf16_text(buffer@.take(len as int)));
}

/// A ribbon object has three interfaces and no other.
pub proof fn a_ribbon_has_three_interfaces(
    object: &mut RibbonExtensibility,
    iid: u128,
    status: u32,
)
    requires
        old(object).refs.count < u32::MAX,
        call_ensures(RibbonExtensibility::query_interface, (object, true, Some(iid)), status),
    ensures
        status == 0 <==> iid == IID_IUNKNOWN || iid == IID_IDISPATCH || iid
            == IID_RIBBON_EXTENSIBILITY,
        status != 0 ==> status == 0x80004002,
{
}

/// The ribbon's object is handed out, with one reference more, exactly to who gives a place for it
/// and asks for the ribbon's customisation or for one of the two interfaces that go with it.
pub proof fn the_ribbon_has_three_interfaces(
    ribbon: &mut RibbonExtensibility,
    has_output: bool,
    iid: Option<u128>,
    status: u32,
)
    requires
        call_ensures(RibbonExtensibility::query_interface, (ribbon, has_output, iid), status),
    ensures
        status == 0 <==> has_output && iid is Some && (iid->0
            == 0x000C0396_0000_0000_C000_000000000046 || iid->0
            == 0x00020400_0000_0000_C000_000000000046 || iid->0
            == 0x00000000_0000_0000_C000_000000000046),
        status == 0 ==> final(ribbon).refs.count == old(ribbon).refs.count + 1,
        status != 0 ==> final(ribbon).refs.count == old(ribbon).refs.count,
{
}

} // verus!
