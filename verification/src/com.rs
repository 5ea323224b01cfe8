//! The COM server's identity, its lock count and its entry points' decisions.

use vstd::prelude::*;

verus! {

/// The class identifier of the add-in: {A3B9E8D1-4F2C-4A6E-B8D7-1234567890AB}.
pub const SPAMBAYES_CLSID: u128 = 0xA3B9E8D1_4F2C_4A6E_B8D7_1234567890AB;

/// The class identifier in text, without braces, as registry paths hold it.
pub const SPAMBAYES_CLSID_STR: &'static str = "A3B9E8D1-4F2C-4A6E-B8D7-1234567890AB";

/// The interface identifier of `IClassFactory`.
pub const IID_ICLASS_FACTORY: u128 = 0x00000001_0000_0000_C000_000000000046;

/// The interface identifier of `IUnknown`.
pub const IID_IUNKNOWN: u128 = 0x00000000_0000_0000_C000_000000000046;

/// Status: the server does not have the requested class.
pub const CLASS_E_CLASSNOTAVAILABLE: u32 = 0x80040111;

/// Status: the object does not have the requested interface.
pub const E_NOINTERFACE: u32 = 0x80004002;

/// Status: a pointer was null.
pub const E_POINTER: u32 = 0x80004003;

/// Status: success.
pub const S_OK: u32 = 0;

/// Status: success, with a negative answer.
pub const S_FALSE: u32 = 1;

/// The number of live COM objects and server locks.
#[derive(Debug, Clone, Copy, PartialEq, Eq)]
pub struct LockCount {
    pub count: u32,
}

impl Default for LockCount {
    fn default() -> (locks: Self)
        ensures
            locks.count == 0,
    {
        LockCount { count: 0 }
    }
}

/// The lock count after one more lock; it wraps around at its limit.
pub open spec fn one_more(count: u32) -> u32 {
    if count == u32::MAX {
        0
    } else {
        (count + 1) as u32
    }
}

/// The lock count after one lock less; it wraps around at zero.
pub open spec fn one_less(count: u32) -> u32 {
    if count == 0 {
        u32::MAX
    } else {
        (count - 1) as u32
    }
}

/// Giving up a lock undoes taking it, and the other way round.
pub proof fn releasing_undoes_adding(count: u32)
    ensures
        one_less(one_more(count)) == count,
        one_more(one_less(count)) == count,
{
}

/// Counts a new COM object or server lock.
pub fn dll_add_ref(locks: &mut LockCount)
    ensures
        final(locks).count == one_more(old(locks).count),
{
    locks.count = locks.count.wrapping_add(1);
}

/// Counts a COM object or server lock that was given up.
pub fn dll_release(locks: &mut LockCount)
    ensures
        final(locks).count == one_less(old(locks).count),
{
    locks.count = locks.count.wrapping_sub(1);
}

/// The current lock count.
pub fn dll_lock_count(locks: &LockCount) -> (count: u32)
    ensures
        count == locks.count,
{
    locks.count
}

/// The answer to whether the server can be unloaded: `S_OK` if nothing is locked, else `S_FALSE`.
pub fn dll_can_unload_now(locks: &LockCount) -> (status: u32)
    ensures
        status == (if locks.count == 0 {
            S_OK
        } else {
            S_FALSE
        }),
{
    if locks.count == 0 {
        S_OK
    } else {
        S_FALSE
    }
}

/// The status with which a request for a class object is answered.
///
/// `has_output` says whether the caller gave a place for the result; `clsid` and `iid` are what the
/// caller's pointers lead to, where they are not null. A class factory is handed out if and only
/// if the status is `S_OK`.
pub fn class_object_status(has_output: bool, clsid: Option<u128>, iid: Option<u128>) -> (status:
    u32)
    ensures
        status == (if !has_output || clsid is None || iid is None {
            E_POINTER
        } else if clsid != Some(SPAMBAYES_CLSID) {
            CLASS_E_CLASSNOTAVAILABLE
        } else if iid != Some(IID_ICLASS_FACTORY) && iid != Some(IID_IUNKNOWN) {
            E_NOINTERFACE
        } else {
            S_OK
        }),
{
    if !has_output {
        return E_POINTER;
    }
    match (clsid, iid) {
        (Some(c), Some(i)) => {
            if c != SPAMBAYES_CLSID {
                CLASS_E_CLASSNOTAVAILABLE
            } else if i != IID_ICLASS_FACTORY && i != IID_IUNKNOWN {
                E_NOINTERFACE
            } else {
                S_OK
            }
        },
        _ => E_POINTER,
    }
}

/// The interface identifier of `IDispatch`.
pub const IID_IDISPATCH: u128 = 0x00020400_0000_0000_C000_000000000046;

/// Status: the operation is not there.
pub const E_NOTIMPL: u32 = 0x80004001;

/// Status: a member's name is not known.
pub const DISP_E_UNKNOWNNAME: u32 = 0x80020006;

/// The status with which an object that has the interfaces `IUnknown`, `IDispatch` and one of its
/// own answers a request for an interface. It hands itself out, and counts a reference, if and only
/// if the status is `S_OK`.
pub fn query_interface_status(has_output: bool, iid: Option<u128>, own_iid: u128) -> (status: u32)
    ensures
        status == (if !has_output || iid is None {
            E_POINTER
        } else if iid == Some(IID_IUNKNOWN) || iid == Some(IID_IDISPATCH) || iid == Some(own_iid) {
            S_OK
        } else {
            E_NOINTERFACE
        }),
{
    if !has_output {
        return E_POINTER;
    }
    match iid {
        Some(i) => {
            if i == IID_IUNKNOWN || i == IID_IDISPATCH || i == own_iid {
                S_OK
            } else {
                E_NOINTERFACE
            }
        },
        None => E_POINTER,
    }
}

/// The number of references to a COM object.
#[derive(Debug, Clone, Copy, PartialEq, Eq, Structural)]
pub struct RefCount {
    pub count: u32,
}

impl RefCount {
    /// The count of an object that was just created: its creator's reference.
    pub fn new() -> (refs: RefCount)
        ensures
            refs.count == 1,
    {
        RefCount { count: 1 }
    }

    /// Counts one more reference and gives the new count.
    pub fn add_ref(&mut self) -> (count: u32)
        requires
            old(self).count < u32::MAX,
        ensures
            final(self).count == old(self).count + 1,
            count == final(self).count,
    {
        self.count = self.count + 1;
        self.count
    }

    /// Counts one reference less and gives the new count; at zero the object is to be destroyed.
    pub fn release(&mut self) -> (count: u32)
        requires
            old(self).count > 0,
        ensures
            final(self).count == old(self).count - 1,
            count == final(self).count,
    {
        self.count = self.count - 1;
        self.count
    }
}

/// An error of one of the add-in's subsystems, with that subsystem's own message.
#[derive(Debug, Clone)]
pub enum AppError {
    /// The Bayesian classifier.
    Classifier(String),
    /// The token database.
    Storage(String),
    /// The configuration files.
    Config(String),
    /// The message store.
    Mapi(String),
}

impl AppError {
    /// The message shown for an error.
    pub open spec fn message_spec(&self) -> Seq<char> {
        match self {
            AppError::Classifier(e) => "classifier error: "@ + e@,
            AppError::Storage(e) => "storage error: "@ + e@,
            AppError::Config(e) => "config error: "@ + e@,
            AppError::Mapi(e) => "MAPI error: "@ + e@,
        }
    }

    /// The message shown for the error: which subsystem failed, and its own message.
    pub fn message(&self) -> (text: String)
        ensures
            text@ == self.message_spec(),
    {
        match self {
            AppError::Classifier(e) => "classifier error: ".to_owned().concat(e.as_str()),
            AppError::Storage(e) => "storage error: ".to_owned().concat(e.as_str()),
            AppError::Config(e) => "config error: ".to_owned().concat(e.as_str()),
            AppError::Mapi(e) => "MAPI error: ".to_owned().concat(e.as_str()),
        }
    }
}

/// Taking a lock and giving it up again leaves the number of locks as it was; while one is held, of
/// fewer than the greatest number, the server cannot be unloaded.
pub proof fn a_lock_keeps_the_server(
    taken: &mut LockCount,
    given: &mut LockCount,
    held: u32,
    free: u32,
)
    requires
        call_ensures(dll_add_ref, (taken,), ()),
        *old(given) == *final(taken),
        call_ensures(dll_release, (given,), ()),
        call_ensures(dll_can_unload_now, (final(taken),), held),
        call_ensures(dll_can_unload_now, (final(given),), free),
    ensures
        final(given).count == old(taken).count,
        old(taken).count < u32::MAX ==> final(taken).count == old(taken).count + 1,
        old(taken).count < u32::MAX ==> held == S_FALSE,
        free == S_OK <==> old(taken).count == 0,
        free == S_OK || free == S_FALSE,
{
}

/// A class object is handed out exactly to who gives a place for it, asks for this class and for an
/// interface of a class factory. A missing pointer is reported before a class that is not there,
/// and that before an interface that is not there.
pub proof fn only_the_own_class_is_served(
    has_output: bool,
    clsid: Option<u128>,
    iid: Option<u128>,
    status: u32,
)
    requires
        call_ensures(class_object_status, (has_output, clsid, iid), status),
    ensures
        status == 0 ==> has_output && clsid == Some(SPAMBAYES_CLSID),
        status == 0 ==> iid == Some(IID_ICLASS_FACTORY) || iid == Some(IID_IUNKNOWN),
        has_output && clsid == Some(SPAMBAYES_CLSID) && (iid == Some(IID_ICLASS_FACTORY) || iid
            == Some(IID_IUNKNOWN)) ==> status == 0,
        status == 0x80004003 <==> !has_output || clsid is None || iid is None,
        status == 0x80040111 <==> has_output && iid is Some && clsid is Some && clsid != Some(
            SPAMBAYES_CLSID,
        ),
        status == 0 || status == 0x80004003 || status == 0x80040111 || status == 0x80004002,
{
}

/// An object hands itself out for each of its three interfaces and for no other, and never without
/// a place to put the pointer.
pub proof fn only_own_interfaces_are_served(
    has_output: bool,
    iid: Option<u128>,
    own_iid: u128,
    status: u32,
)
    requires
        call_ensures(query_interface_status, (has_output, iid, own_iid), status),
    ensures
        status == 0 ==> has_output && iid is Some,
        status == 0 ==> iid->0 == own_iid || iid->0 == IID_IUNKNOWN || iid->0 == IID_IDISPATCH,
        has_output && (iid == Some(own_iid) || iid == Some(IID_IUNKNOWN) || iid == Some(
            IID_IDISPATCH,
        )) ==> status == 0,
        status == 0x80004003 <==> !has_output || iid is None,
        status == 0 || status == 0x80004003 || status == 0x80004002,
{
}

/// A reference that is taken and given up again leaves the count as it was; the answers are the new
/// counts, and the creator's reference is the only one at first.
pub proof fn references_balance(
    created: RefCount,
    taken: &mut RefCount,
    more: u32,
    given: &mut RefCount,
    less: u32,
)
    requires
        call_ensures(RefCount::new, (), created),
        old(taken).count < u32::MAX,
        call_ensures(RefCount::add_ref, (taken,), more),
        *old(given) == *final(taken),
        call_ensures(RefCount::release, (given,), less),
    ensures
        created.count == 1,
        more == old(taken).count + 1,
        less == old(taken).count,
        final(given).count == old(taken).count,
{
}

/// The message of an error ends with the subsystem's own message and names the subsystem before it,
/// so that errors of different subsystems never read the same where their messages do.
pub proof fn errors_name_their_subsystem(
    error: &AppError,
    text: String,
    other: &AppError,
    same: String,
)
    requires
        call_ensures(AppError::message, (error,), text),
        call_ensures(AppError::message, (other,), same),
        text@ == same@,
    ensures
        error is Classifier <==> other is Classifier,
        error is Storage <==> other is Storage,
        error is Config <==> other is Config,
        error is Mapi <==> other is Mapi,
        error matches AppError::Classifier(e) ==> text@ == "classifier error: "@ + e@,
        error matches AppError::Storage(e) ==> text@ == "storage error: "@ + e@,
        error matches AppError::Config(e) ==> text@ == "config error: "@ + e@,
        error matches AppError::Mapi(e) ==> text@ == "MAPI error: "@ + e@,
{
    reveal_strlit("classifier error: ");
    reveal_strlit("storage error: ");
    reveal_strlit("config error: ");
    reveal_strlit("MAPI error: ");
    assert(error is Classifier ==> text@[0] == 'c' && text@[1] == 'l');
    assert(error is Storage ==> text@[0] == 's');
    assert(error is Config ==> text@[0] == 'c' && text@[1] == 'o');
    assert(error is Mapi ==> text@[0] == 'M');
    assert(other is Classifier ==> same@[0] == 'c' && same@[1] == 'l');
    assert(other is Storage ==> same@[0] == 's');
    assert(other is Config ==> same@[0] == 'c' && same@[1] == 'o');
    assert(other is Mapi ==> same@[0] == 'M');
}

/// The number of locks is told as it is; nothing is locked at first, and the number wraps around at
/// its limits.
pub proof fn locks_are_counted(
    first: LockCount,
    locks: &LockCount,
    count: u32,
    taken: &mut LockCount,
    given: &mut LockCount,
)
    requires
        call_ensures(LockCount::default, (), first),
        call_ensures(dll_lock_count, (locks,), count),
        call_ensures(dll_add_ref, (taken,), ()),
        call_ensures(dll_release, (given,), ()),
    ensures
        first.count == 0,
        count == locks.count,
        old(taken).count < u32::MAX ==> final(taken).count == old(taken).count + 1,
        old(taken).count == u32::MAX ==> final(taken).count == 0,
        old(given).count > 0 ==> final(given).count == old(given).count - 1,
        old(given).count == 0 ==> final(given).count == u32::MAX,
{
}

/// The class identifier in text is the identifier's digits in their five groups, and the statuses
/// and interfaces that other programs know have the values that these know them by.
pub proof fn published_values_are_kept()
    ensures
        SPAMBAYES_CLSID == 0xA3B9E8D1_4F2C_4A6E_B8D7_1234567890AB,
        SPAMBAYES_CLSID_STR@ == "A3B9E8D1-4F2C-4A6E-B8D7-1234567890AB"@,
        IID_IUNKNOWN == 0xC000_000000000046,
        IID_ICLASS_FACTORY - IID_IUNKNOWN == 0x00000001_0000_0000_0000_000000000000,
        IID_IDISPATCH - IID_IUNKNOWN == 0x00020400_0000_0000_0000_000000000000,
        E_NOTIMPL == 0x80004001,
        E_NOINTERFACE == 0x80004002,
        E_POINTER == 0x80004003,
        DISP_E_UNKNOWNNAME == 0x80020006,
        CLASS_E_CLASSNOTAVAILABLE == 0x80040111,
        S_OK == 0,
        S_FALSE == 1,
{
}

} // verus!
