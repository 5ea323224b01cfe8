//! The registry entries of the COM server: what registering writes and unregistering removes.

use vstd::prelude::*;

use crate::com::SPAMBAYES_CLSID_STR;
use crate::help_dialog_template::{le32, push_u32, push_wide_string, wide_bytes};
use crate::wide::{from_wide, utf16_text};

verus! {

/// The name under which programs find the add-in.
pub const PROG_ID: &'static str = "SpamBayes.OutlookAddin";

/// The name shown in Outlook's list of add-ins.
pub const FRIENDLY_NAME: &'static str = "SpamBayes";

/// The description of the `ProgID` entry.
pub const SERVER_DESCRIPTION: &'static str = "SpamBayes Outlook Addin";

/// The description shown in Outlook's list of add-ins.
pub const ADDIN_DESCRIPTION: &'static str = "SpamBayes anti-spam tool";

/// The threading model of the server.
pub const THREADING_MODEL: &'static str = "Apartment";

/// The add-in is loaded at start-up.
pub const LOAD_BEHAVIOR: u32 = 3;

/// The add-in is not safe for use from the command line.
pub const COMMAND_LINE_SAFE: u32 = 0;

/// The key of the add-in in Outlook's list.
pub const OUTLOOK_ADDINS_SUBKEY: &'static str =
    "Software\\Microsoft\\Office\\Outlook\\Addins\\SpamBayes.OutlookAddin";

/// The status of a registration that failed.
pub const E_FAIL: i32 = -1;

/// The status of a registration, or of its removal, that went well.
pub const REGISTERED: i32 = 0;

/// The part of the registry that a key is in.
#[derive(Debug, Clone, Copy, PartialEq, Eq, Structural)]
pub enum RegRoot {
    ClassesRoot,
    CurrentUser,
}

/// A value of a registry key.
#[derive(Debug, PartialEq, Eq)]
pub enum RegValue {
    Text(String),
    Number(u32),
}

/// A value of a registry key, by its contents.
pub enum RegValueView {
    Text(Seq<char>),
    Number(u32),
}

impl View for RegValue {
    type V = RegValueView;

    open spec fn view(&self) -> RegValueView {
        match self {
            RegValue::Text(text) => RegValueView::Text(text@),
            RegValue::Number(n) => RegValueView::Number(*n),
        }
    }
}

/// A registry key with the values to set there, by their names; the empty name is the default
/// value's.
#[derive(Debug, PartialEq, Eq)]
pub struct RegKey {
    pub root: RegRoot,
    pub path: String,
    pub values: Vec<(String, RegValue)>,
}

/// A registry key, by its contents.
pub struct RegKeyView {
    pub root: RegRoot,
    pub path: Seq<char>,
    pub values: Seq<(Seq<char>, RegValueView)>,
}

impl View for RegKey {
    type V = RegKeyView;

    open spec fn view(&self) -> RegKeyView {
        RegKeyView {
            root: self.root,
            path: self.path@,
            values: Seq::new(
                self.values@.len(),
                |i: int| (self.values@[i].0@, self.values@[i].1@),
            ),
        }
    }
}

/// Registry keys by their contents.
pub open spec fn keys_view(keys: Seq<RegKey>) -> Seq<RegKeyView> {
    Seq::new(keys.len(), |i: int| keys[i]@)
}

/// The class identifier in braces.
pub open spec fn braced_clsid() -> Seq<char> {
    "{"@ + SPAMBAYES_CLSID_STR@ + "}"@
}

/// The key of the class.
pub open spec fn clsid_path() -> Seq<char> {
    "CLSID\\"@ + braced_clsid()
}

/// The key of the class's server.
pub open spec fn inproc_path() -> Seq<char> {
    clsid_path() + "\\InprocServer32"@
}

/// The key of the class's `ProgID`.
pub open spec fn progid_path() -> Seq<char> {
    clsid_path() + "\\ProgID"@
}

/// The key that leads from the `ProgID` to the class.
pub open spec fn progid_clsid_path() -> Seq<char> {
    PROG_ID@ + "\\CLSID"@
}

/// The class identifier in braces.
fn clsid_with_braces() -> (text: String)
    ensures
        text@ == braced_clsid(),
{
    let mut text = "{".to_owned();
    text.append(SPAMBAYES_CLSID_STR);
    text.append("}");
    text
}

/// The key of the class.
pub fn clsid_key_path() -> (path: String)
    ensures
        path@ == clsid_path(),
{
    let mut path = "CLSID\\".to_owned();
    path.append(clsid_with_braces().as_str());
    path
}

/// The key of the class's server.
pub fn inproc_server32_key_path() -> (path: String)
    ensures
        path@ == inproc_path(),
{
    let mut path = clsid_key_path();
    path.append("\\InprocServer32");
    path
}

/// The key of the class's `ProgID`.
pub fn clsid_progid_key_path() -> (path: String)
    ensures
        path@ == progid_path(),
{
    let mut path = clsid_key_path();
    path.append("\\ProgID");
    path
}

/// The key that leads from the `ProgID` to the class.
pub fn progid_clsid_key_path() -> (path: String)
    ensures
        path@ == progid_clsid_path(),
{
    let mut path = PROG_ID.to_owned();
    path.append("\\CLSID");
    path
}

/// The bytes of a value: a text in UTF-16 with a terminating zero, or a number with the lowest byte
/// first.
pub fn value_bytes(value: &RegValue) -> (bytes: Vec<u8>)
    ensures
        bytes@ == (match value@ {
            RegValueView::Text(text) => wide_bytes(text),
            RegValueView::Number(n) => le32(n),
        }),
{
    let mut bytes: Vec<u8> = Vec::new();
    match value {
        RegValue::Text(text) => {
            push_wide_string(&mut bytes, text.as_str());
            assert(bytes@ =~= wide_bytes(text@));
        },
        RegValue::Number(n) => {
            push_u32(&mut bytes, *n);
            assert(bytes@ =~= le32(*n));
        },
    }
    bytes
}

/// The path of the server's file: the first `len` code units of the buffer that was filled, or
/// nothing if there are none.
pub fn get_dll_path(buffer: &[u16], len: usize) -> (path: Option<String>)
    requires
        len <= buffer@.len(),
    ensures
        match path {
            Some(text) => len > 0 && text@ == utf16_text(buffer@.take(len as int)),
            None => len == 0,
        },
{
    if len == 0 {
        return None;
    }
    let used = vstd::slice::slice_subrange(buffer, 0, len);
    assert(used@ =~= buffer@.take(len as int));
    Some(from_wide(used))
}

/// The default value of a key.
pub open spec fn default_value(text: Seq<char>) -> (Seq<char>, RegValueView) {
    (Seq::empty(), RegValueView::Text(text))
}

/// The entries of the server whose file is at `dll_path`, in the order in which they are written.
pub open spec fn registration(dll_path: Seq<char>) -> Seq<RegKeyView> {
    seq![
        RegKeyView {
            root: RegRoot::ClassesRoot,
            path: clsid_path(),
            values: seq![default_value(PROG_ID@)],
        },
        RegKeyView {
            root: RegRoot::ClassesRoot,
            path: inproc_path(),
            values: seq![
                default_value(dll_path),
                ("ThreadingModel"@, RegValueView::Text(THREADING_MODEL@)),
            ],
        },
        RegKeyView {
            root: RegRoot::ClassesRoot,
            path: progid_path(),
            values: seq![default_value(PROG_ID@)],
        },
        RegKeyView {
            root: RegRoot::ClassesRoot,
            path: PROG_ID@,
            values: seq![default_value(SERVER_DESCRIPTION@)],
        },
        RegKeyView {
            root: RegRoot::ClassesRoot,
            path: progid_clsid_path(),
            values: seq![default_value(braced_clsid())],
        },
        RegKeyView {
            root: RegRoot::CurrentUser,
            path: OUTLOOK_ADDINS_SUBKEY@,
            values: seq![
                ("FriendlyName"@, RegValueView::Text(FRIENDLY_NAME@)),
                ("Description"@, RegValueView::Text(ADDIN_DESCRIPTION@)),
                ("LoadBehavior"@, RegValueView::Number(LOAD_BEHAVIOR)),
                ("CommandLineSafe"@, RegValueView::Number(COMMAND_LINE_SAFE)),
            ],
        },
    ]
}

/// A key whose only value is its default value.
fn key_with_default(root: RegRoot, path: String, value: String) -> (key: RegKey)
    ensures
        key@ == (RegKeyView { root, path: path@, values: seq![default_value(value@)] }),
{
    let mut values: Vec<(String, RegValue)> = Vec::new();
    let ghost text = value@;
    values.push((String::new(), RegValue::Text(value)));
    let key = RegKey { root, path, values };
    assert(key@.values =~= seq![default_value(text)]);
    key
}

/// What follows an attempt to create a key: the status with which the registration ends, or nothing
/// if it goes on with the next key.
pub open spec fn step_after(created: bool, last: bool) -> Option<i32> {
    if !created {
        Some(E_FAIL)
    } else if last {
        Some(REGISTERED)
    } else {
        None
    }
}

/// Decides what follows an attempt to create a key: the registration ends with `E_FAIL` at a key
/// that cannot be created and with success after the last one, and else goes on.
pub fn registration_step(created: bool, last: bool) -> (status: Option<i32>)
    ensures
        status == step_after(created, last),
{
    if !created {
        Some(E_FAIL)
    } else if last {
        Some(REGISTERED)
    } else {
        None
    }
}

/// How a registration ends that goes on with key number `i`, and the last key that it tries to
/// create; `created` says which keys can be created.
pub open spec fn registration_from(created: Seq<bool>, i: int) -> (i32, int)
    decreases created.len() - i,
{
    match step_after(created[i], i + 1 >= created.len()) {
        Some(status) => (status, i),
        None => if i + 1 < created.len() {
            registration_from(created, i + 1)
        } else {
            (E_FAIL, i)
        },
    }
}

/// A registration succeeds if and only if every key can be created, and all keys are then written;
/// else it ends with `E_FAIL` at the first key that cannot be created.
pub proof fn registration_succeeds_with_all_keys(created: Seq<bool>)
    requires
        created.len() > 0,
    ensures
        ({
            let (status, tried) = registration_from(created, 0);
            &&& 0 <= tried < created.len()
            &&& forall|j: int| 0 <= j < tried ==> created[j]
            &&& status == REGISTERED ==> tried == created.len() - 1 && created[tried]
            &&& status != REGISTERED ==> status == E_FAIL && !created[tried]
        }),
{
    lemma_registration_from(created, 0);
}

/// What a registration does from key number `i` on.
proof fn lemma_registration_from(created: Seq<bool>, i: int)
    requires
        0 <= i < created.len(),
    ensures
        ({
            let (status, tried) = registration_from(created, i);
            &&& i <= tried < created.len()
            &&& forall|j: int| i <= j < tried ==> created[j]
            &&& status == REGISTERED ==> tried == created.len() - 1 && created[tried]
            &&& status != REGISTERED ==> status == E_FAIL && !created[tried]
        }),
    decreases created.len() - i,
{
    if created[i] && i + 1 < created.len() {
        lemma_registration_from(created, i + 1);
    }
}

/// The entries to write for the server whose file is at `dll_path`, in their order; the status
/// `E_FAIL` if that is not known.
pub fn register_server(dll_path: Option<&str>) -> (keys: Result<Vec<RegKey>, i32>)
    ensures
        match dll_path {
            Some(path) => keys matches Ok(k) && keys_view(k@) == registration(path@),
            None => keys == Err::<Vec<RegKey>, i32>(E_FAIL),
        },
{
    let dll_path = match dll_path {
        Some(path) => path,
        None => return Err(E_FAIL),
    };
    let mut keys: Vec<RegKey> = Vec::new();
    keys.push(key_with_default(RegRoot::ClassesRoot, clsid_key_path(), PROG_ID.to_owned()));
    let mut inproc = key_with_default(
        RegRoot::ClassesRoot,
        inproc_server32_key_path(),
        dll_path.to_owned(),
    );
    let ghost inproc_before = inproc@.values;
    inproc.values.push(("ThreadingModel".to_owned(), RegValue::Text(THREADING_MODEL.to_owned())));
    assert(inproc@.values =~= inproc_before.push(
        ("ThreadingModel"@, RegValueView::Text(THREADING_MODEL@)),
    ));
    assert(inproc@.values =~= registration(dll_path@)[1].values);
    keys.push(inproc);
    keys.push(key_with_default(RegRoot::ClassesRoot, clsid_progid_key_path(), PROG_ID.to_owned()));
    keys.push(
        key_with_default(RegRoot::ClassesRoot, PROG_ID.to_owned(), SERVER_DESCRIPTION.to_owned()),
    );
    keys.push(key_with_default(RegRoot::ClassesRoot, progid_clsid_key_path(), clsid_with_braces()));
    let mut values: Vec<(String, RegValue)> = Vec::new();
    values.push(("FriendlyName".to_owned(), RegValue::Text(FRIENDLY_NAME.to_owned())));
    values.push(("Description".to_owned(), RegValue::Text(ADDIN_DESCRIPTION.to_owned())));
    values.push(("LoadBehavior".to_owned(), RegValue::Number(LOAD_BEHAVIOR)));
    values.push(("CommandLineSafe".to_owned(), RegValue::Number(COMMAND_LINE_SAFE)));
    let addin = RegKey {
        root: RegRoot::CurrentUser,
        path: OUTLOOK_ADDINS_SUBKEY.to_owned(),
        values,
    };
    assert(addin@.values =~= registration(dll_path@)[5].values);
    keys.push(addin);
    assert(keys_view(keys@) =~= registration(dll_path@));
    Ok(keys)
}

/// Roots and paths by their contents.
pub open spec fn paths_view(paths: Seq<(RegRoot, String)>) -> Seq<(RegRoot, Seq<char>)> {
    Seq::new(paths.len(), |i: int| (paths[i].0, paths[i].1@))
}

/// The keys that unregistering removes, in their order.
pub open spec fn unregistration() -> Seq<(RegRoot, Seq<char>)> {
    seq![
        (RegRoot::CurrentUser, OUTLOOK_ADDINS_SUBKEY@),
        (RegRoot::ClassesRoot, progid_clsid_path()),
        (RegRoot::ClassesRoot, PROG_ID@),
        (RegRoot::ClassesRoot, progid_path()),
        (RegRoot::ClassesRoot, inproc_path()),
        (RegRoot::ClassesRoot, clsid_path()),
    ]
}

/// The keys to remove, in their order, and the status. A key that cannot be removed does not stop
/// the others, and the status is success in any case.
pub fn unregister_server() -> (removal: (Vec<(RegRoot, String)>, i32))
    ensures
        paths_view(removal.0@) == unregistration(),
        removal.1 == REGISTERED,
{
    let mut paths: Vec<(RegRoot, String)> = Vec::new();
    paths.push((RegRoot::CurrentUser, OUTLOOK_ADDINS_SUBKEY.to_owned()));
    paths.push((RegRoot::ClassesRoot, progid_clsid_key_path()));
    paths.push((RegRoot::ClassesRoot, PROG_ID.to_owned()));
    paths.push((RegRoot::ClassesRoot, clsid_progid_key_path()));
    paths.push((RegRoot::ClassesRoot, inproc_server32_key_path()));
    paths.push((RegRoot::ClassesRoot, clsid_key_path()));
    assert(paths_view(paths@) =~= unregistration());
    (paths, REGISTERED)
}

/// Unregistering removes exactly the keys that registering wrote, in the reverse order.
pub proof fn unregistering_undoes_registering(dll_path: Seq<char>)
    ensures
        unregistration().len() == registration(dll_path).len(),
        forall|i: int|
            0 <= i < unregistration().len() ==> #[trigger] unregistration()[i] == (
                registration(dll_path)[5 - i].root,
                registration(dll_path)[5 - i].path,
            ),
{
}

/// Whether a key lies below another one.
pub open spec fn is_below(path: Seq<char>, above: Seq<char>) -> bool {
    (above + "\\"@).is_prefix_of(path)
}

/// Unregistering removes a key before the key that it lies below: no key is removed that has a key
/// below it still to be removed.
pub proof fn children_are_removed_before_parents(i: int, j: int)
    requires
        0 <= i < j < unregistration().len(),
        unregistration()[i].0 == unregistration()[j].0,
    ensures
        !is_below(unregistration()[j].1, unregistration()[i].1),
{
    reveal_strlit("\\");
    reveal_strlit("{");
    reveal_strlit("}");
    reveal_strlit("CLSID\\");
    reveal_strlit("\\InprocServer32");
    reveal_strlit("\\ProgID");
    reveal_strlit("\\CLSID");
    reveal_strlit("SpamBayes.OutlookAddin");
    let above = unregistration()[i].1 + "\\"@;
    let path = unregistration()[j].1;
    if i == 1 || i == 2 {
        if j >= 3 {
            assert(path[0] == 'C');
            assert(above[0] == 'S');
        }
    } else if i == 3 && j == 4 {
        let n = clsid_path().len() as int;
        assert(path[n + 1] == 'I');
        assert(above[n + 1] == 'P');
    }
}

/// A server is registered under its class and its name, which lead to each other and to the file;
/// and in the user's list of add-ins, from which it is loaded at start-up. Without a file there is
/// nothing to write.
pub proof fn the_registration_leads_to_the_file(
    path: &str,
    keys: Result<Vec<RegKey>, i32>,
    none: Result<Vec<RegKey>, i32>,
)
    requires
        call_ensures(register_server, (Some(path),), keys),
        call_ensures(register_server, (None,), none),
    ensures
        none == Err::<Vec<RegKey>, i32>(-1i32),
        keys is Ok,
        ({
            let entries = keys_view(keys->Ok_0@);
            let class = "CLSID\\"@ + ("{"@ + "A3B9E8D1-4F2C-4A6E-B8D7-1234567890AB"@ + "}"@);
            let name = "SpamBayes.OutlookAddin"@;
            let default = Seq::<char>::empty();
            &&& entries.len() == 6
            &&& forall|i: int| 0 <= i < 5 ==> (#[trigger] entries[i]).root is ClassesRoot
            &&& entries[5].root is CurrentUser
            &&& entries[0].path == class
            &&& entries[0].values == seq![(default, RegValueView::Text(name))]
            &&& entries[1].path == class + "\\InprocServer32"@
            &&& entries[1].values.len() == 2
            &&& entries[1].values[0] == (default, RegValueView::Text(path@))
            &&& entries[1].values[1] == ("ThreadingModel"@, RegValueView::Text("Apartment"@))
            &&& entries[2].path == class + "\\ProgID"@
            &&& entries[2].values == seq![(default, RegValueView::Text(name))]
            &&& entries[3].path == name
            &&& entries[4].path == name + "\\CLSID"@
            &&& entries[4].values == seq![
                (
                    default,
                    RegValueView::Text(
                        "{"@ + "A3B9E8D1-4F2C-4A6E-B8D7-1234567890AB"@ + "}"@,
                    ),
                ),
            ]
            &&& entries[5].path
                == "Software\\Microsoft\\Office\\Outlook\\Addins\\SpamBayes.OutlookAddin"@
            &&& entries[5].values.len() == 4
            &&& entries[5].values[0] == ("FriendlyName"@, RegValueView::Text("SpamBayes"@))
            &&& entries[5].values[2] == ("LoadBehavior"@, RegValueView::Number(3))
            &&& entries[5].values[3] == ("CommandLineSafe"@, RegValueView::Number(0))
        }),
{
}

/// What is removed is what was written, key by key, the last first.
pub proof fn what_was_registered_is_removed(
    path: &str,
    keys: Vec<RegKey>,
    removal: (Vec<(RegRoot, String)>, i32),
    i: int,
)
    requires
        call_ensures(register_server, (Some(path),), Ok::<Vec<RegKey>, i32>(keys)),
        call_ensures(unregister_server, (), removal),
        0 <= i < keys@.len(),
    ensures
        removal.1 == 0,
        removal.0@.len() == keys@.len(),
        removal.0@[keys@.len() - 1 - i].0 == keys@[i].root,
        removal.0@[keys@.len() - 1 - i].1@ == keys@[i].path@,
{
    unregistering_undoes_registering(path@);
    let removed = paths_view(removal.0@);
    let written = keys_view(keys@);
    assert(removed.len() == removal.0@.len());
    assert(written.len() == keys@.len());
    assert(written[i] == keys@[i]@);
    assert(removed[5 - i] == (removal.0@[5 - i].0, removal.0@[5 - i].1@));
    assert(unregistration()[5 - i] == (registration(path@)[i].root, registration(path@)[i].path));
}

/// A registration goes on after a key that was created, unless it was the last, which ends it with
/// success; a key that could not be created ends it with the status of failure.
pub proof fn a_key_that_fails_ends_the_registration(
    created: bool,
    last: bool,
    status: Option<i32>,
)
    requires
        call_ensures(registration_step, (created, last), status),
    ensures
        status is None <==> created && !last,
        status is Some && created ==> status->0 == 0,
        !created ==> status == Some(-1i32),
{
}

/// The keys of the class and of the name hang together: what lies below the class's key starts with
/// its path.
pub proof fn keys_lie_below_their_class(
    class: String,
    server: String,
    name: String,
    back: String,
)
    requires
        call_ensures(clsid_key_path, (), class),
        call_ensures(inproc_server32_key_path, (), server),
        call_ensures(clsid_progid_key_path, (), name),
        call_ensures(progid_clsid_key_path, (), back),
    ensures
        class@ == "CLSID\\"@ + ("{"@ + "A3B9E8D1-4F2C-4A6E-B8D7-1234567890AB"@ + "}"@),
        server@ == class@ + "\\InprocServer32"@,
        name@ == class@ + "\\ProgID"@,
        back@ == "SpamBayes.OutlookAddin"@ + "\\CLSID"@,
{
}

/// A number is written as four bytes from which it can be read, lowest first; a text as two bytes
/// for each code unit, with two zeros at the end. The path of a file is the text of the code units
/// that were filled in.
pub proof fn values_are_written_as_bytes(
    number: u32,
    bytes: Vec<u8>,
    text: String,
    wide: Vec<u8>,
    buffer: &[u16],
    len: usize,
    path: Option<String>,
)
    requires
        call_ensures(value_bytes, (&RegValue::Number(number),), bytes),
        call_ensures(value_bytes, (&RegValue::Text(text),), wide),
        len <= buffer@.len(),
        call_ensures(get_dll_path, (buffer, len), path),
    ensures
        bytes@.len() == 4,
        bytes@[0] + 256 * bytes@[1] + 65536 * bytes@[2] + 16777216 * bytes@[3] == number,
        wide@.len() == 2 * (crate::wide::utf16(text@).len() + 1),
        wide@[wide@.len() - 1] == 0,
        wide@[wide@.len() - 2] == 0,
        path is Some <==> len > 0,
        path matches Some(found) ==> found@ == utf16_text(buffer@.take(len as int)),
{
    crate::help_dialog_template::number_bytes_read_back(number);
    crate::help_dialog_template::text_bytes_end_in_zero(text@);
}

/// The class's name, the server and the add-in are described in words.
pub proof fn the_registration_is_described(path: &str, keys: Result<Vec<RegKey>, i32>)
    requires
        call_ensures(register_server, (Some(path),), keys),
    ensures
        ({
            let entries = keys_view(keys->Ok_0@);
            &&& entries[3].values == seq![
                (Seq::<char>::empty(), RegValueView::Text("SpamBayes Outlook Addin"@)),
            ]
            &&& entries[5].values[1] == (
                "Description"@,
                RegValueView::Text("SpamBayes anti-spam tool"@),
            )
        }),
{
}

/// Each code unit of a text can be read off the bytes that are written for it.
pub proof fn texts_are_read_off_their_bytes(text: String, bytes: Vec<u8>, i: int)
    requires
        call_ensures(value_bytes, (&RegValue::Text(text),), bytes),
        0 <= i < crate::wide::utf16(text@).len(),
    ensures
        bytes@[2 * i] + 256 * bytes@[2 * i + 1] == crate::wide::utf16(text@)[i],
{
    crate::help_dialog_template::unit_bytes_read_back(crate::wide::wide_null(text@), i);
}

} // verus!
