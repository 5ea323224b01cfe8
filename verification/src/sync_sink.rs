//! Waiting for Outlook's first synchronisation: the state of the wait, the event that ends it, and
//! how the event hook is set up and taken down.

use vstd::prelude::*;

use crate::com::S_OK;
use crate::text::{hex, push_hex, push_padded, zero_padded};

verus! {

/// The source interface of the synchronisation events.
pub const IID_SYNC_OBJECT_EVENTS: u128 = 0x00063085_0000_0000_C000_000000000046;

/// The interface of objects that have connection points.
pub const IID_ICONNECTION_POINT_CONTAINER: u128 = 0xB196B284_BAB4_101A_B69C_00AA00341D07;

/// The event of a synchronisation that ended.
pub const DISPID_SYNC_END: i32 = 0xF002;

/// The timer that ends the wait if no event comes.
pub const SYNC_TIMEOUT_TIMER_ID: usize = 0x5B08;

/// Whether the first synchronisation is over, so that messages may be filtered.
#[derive(Debug, Clone, Copy, PartialEq, Eq, Structural)]
pub struct SyncState {
    pub complete: bool,
}

impl Default for SyncState {
    fn default() -> (state: Self)
        ensures
            state.complete,
    {
        SyncState { complete: true }
    }
}

/// Whether messages may be filtered.
pub fn is_sync_complete(state: &SyncState) -> (complete: bool)
    ensures
        complete == state.complete,
{
    state.complete
}

/// Ends the wait: the synchronisation ended, the time ran out, or its events cannot be had.
pub fn force_sync_complete(state: &mut SyncState)
    ensures
        final(state).complete,
{
    state.complete = true;
}

/// Begins the wait.
pub fn reset_sync_state(state: &mut SyncState)
    ensures
        !final(state).complete,
{
    state.complete = false;
}

/// What an event of the synchronisation object calls for.
#[derive(Debug)]
pub struct SyncEventAction {
    /// Filter the messages that have come in meanwhile, and stop the timer.
    pub drain_and_stop_timer: bool,
    /// What is logged.
    pub log: String,
    /// How the event is answered.
    pub status: u32,
}

/// The log text for an event.
pub open spec fn event_log(disp_id: i32) -> Seq<char> {
    if disp_id == DISPID_SYNC_END {
        "SyncEnd event received — marking sync complete and draining queue"@
    } else {
        "SyncObjectEvents DISPID=0x"@ + hex(disp_id as u32 as nat) + " received (ignored)"@
    }
}

/// Handles an event of the synchronisation object. Only the end of a synchronisation counts: it
/// ends the wait. Every event is answered with success.
pub fn sync_sink_invoke(state: &mut SyncState, disp_id: i32) -> (action: SyncEventAction)
    ensures
        final(state).complete == (old(state).complete || disp_id == DISPID_SYNC_END),
        action.drain_and_stop_timer == (disp_id == DISPID_SYNC_END),
        action.log@ == event_log(disp_id),
        action.status == S_OK,
{
    if disp_id == DISPID_SYNC_END {
        force_sync_complete(state);
        SyncEventAction {
            drain_and_stop_timer: true,
            log: "SyncEnd event received — marking sync complete and draining queue".to_owned(),
            status: S_OK,
        }
    } else {
        let mut log = "SyncObjectEvents DISPID=0x".to_owned();
        push_hex(&mut log, disp_id as u32);
        log.append(" received (ignored)");
        SyncEventAction { drain_and_stop_timer: false, log, status: S_OK }
    }
}

/// A line of the synchronisation log.
pub open spec fn sync_log_line(secs: nat, message: Seq<char>) -> Seq<char> {
    "["@ + zero_padded(secs % 86400 / 3600, 2) + ":"@ + zero_padded(secs % 3600 / 60, 2) + ":"@
        + zero_padded(secs % 60, 2) + "] [sync] "@ + message + "\n"@
}

/// A line of the synchronisation log, for a message at the given time (in seconds since 1970).
pub fn log_sync(now_secs: u64, message: &str) -> (line: String)
    ensures
        line@ == sync_log_line(now_secs as nat, message@),
{
    let time_of_day: u64 = now_secs % 86400;
    assert(now_secs % 86400 % 3600 == now_secs % 3600);
    assert(now_secs % 86400 % 60 == now_secs % 60);
    let mut line = "[".to_owned();
    push_padded(&mut line, time_of_day / 3600, 2);
    line.append(":");
    push_padded(&mut line, (time_of_day % 3600) / 60, 2);
    line.append(":");
    push_padded(&mut line, time_of_day % 60, 2);
    line.append("] [sync] ");
    line.append(message);
    line.append("\n");
    line
}

/// Where the `Application` object for the hook comes from.
#[derive(Debug, Clone, Copy, PartialEq, Eq, Structural)]
pub enum AppSource {
    /// It was created for the purpose, and is to be released when it is no longer needed.
    Created,
    /// It was passed in by Outlook and stays its property.
    PassedIn,
    /// There is none.
    Missing,
}

/// Decides which `Application` object the hook uses: a newly created one, or else the one that was
/// passed in.
pub fn setup_sync_hook(created: bool, passed_in: bool) -> (source: AppSource)
    ensures
        source == (if created {
            AppSource::Created
        } else if passed_in {
            AppSource::PassedIn
        } else {
            AppSource::Missing
        }),
{
    if created {
        AppSource::Created
    } else if passed_in {
        AppSource::PassedIn
    } else {
        AppSource::Missing
    }
}

/// The call that the set-up of the hook makes next.
#[derive(Debug, Clone, Copy, PartialEq, Eq, Structural)]
pub enum HookStage {
    /// `Application.Session`.
    GetSession,
    /// `Session.SyncObjects`.
    GetSyncObjects,
    /// `SyncObjects.Item(1)`.
    GetItem,
    /// Connecting the event sink.
    Advise,
    /// Nothing: the hook is established.
    Established,
    /// Nothing: there is no hook.
    Failed,
}

/// How a call ended.
#[derive(Debug, Clone, Copy, PartialEq, Eq, Structural)]
pub enum HookReply {
    /// It gave an object, or the sink was connected.
    Object,
    /// It gave a null pointer.
    Null,
    /// It failed with the given status.
    Error(u32),
}

/// The objects of which a reference is held, or is to be released.
#[derive(Debug, Clone, Copy, PartialEq, Eq, Structural)]
pub struct HookObjects {
    pub app: bool,
    pub session: bool,
    pub sync_objects: bool,
    pub sync_object: bool,
}

/// What follows a call.
#[derive(Debug)]
pub struct HookDecision {
    /// The objects to release.
    pub release: HookObjects,
    /// What is logged.
    pub log: String,
}

/// The set-up of the hook.
#[derive(Debug, Clone, Copy, PartialEq, Eq, Structural)]
pub struct HookSetup {
    pub stage: HookStage,
    /// Whether the `Application` object is to be released.
    pub release_app: bool,
}

/// The name of a call.
pub open spec fn call_name(stage: HookStage) -> Seq<char> {
    match stage {
        HookStage::GetSession => "Application.Session"@,
        HookStage::GetSyncObjects => "Session.SyncObjects"@,
        _ => "SyncObjects.Item(1)"@,
    }
}

/// What is logged about a call.
pub open spec fn call_log(stage: HookStage, reply: HookReply) -> Seq<char> {
    if stage == HookStage::Advise {
        if reply == HookReply::Object {
            "setup_sync_hook: SyncEnd hook established successfully"@
        } else {
            "setup_sync_hook: advise failed on SyncObject"@
        }
    } else {
        match reply {
            HookReply::Object => "setup_sync_hook: got "@ + call_name(stage) + " OK"@,
            HookReply::Null => "setup_sync_hook: "@ + call_name(stage) + " returned null pointer"@,
            HookReply::Error(status) => "setup_sync_hook: "@ + call_name(stage)
                + " failed (HRESULT=0x"@ + hex(status as nat) + ")"@,
        }
    }
}

/// The stage after a call.
pub open spec fn next_stage(stage: HookStage, reply: HookReply) -> HookStage {
    if reply != HookReply::Object {
        HookStage::Failed
    } else {
        match stage {
            HookStage::GetSession => HookStage::GetSyncObjects,
            HookStage::GetSyncObjects => HookStage::GetItem,
            HookStage::GetItem => HookStage::Advise,
            _ => HookStage::Established,
        }
    }
}

/// The references held at a stage.
pub open spec fn held(setup: HookSetup) -> HookObjects {
    let before_item = setup.stage == HookStage::GetSession || setup.stage
        == HookStage::GetSyncObjects || setup.stage == HookStage::GetItem;
    HookObjects {
        app: setup.release_app && before_item,
        session: setup.stage == HookStage::GetSyncObjects,
        sync_objects: setup.stage == HookStage::GetItem,
        sync_object: setup.stage == HookStage::Advise || setup.stage == HookStage::Established,
    }
}

/// The references that a call adds.
pub open spec fn acquired(stage: HookStage, reply: HookReply) -> HookObjects {
    let gave_object = reply == HookReply::Object;
    HookObjects {
        app: false,
        session: gave_object && stage == HookStage::GetSession,
        sync_objects: gave_object && stage == HookStage::GetSyncObjects,
        sync_object: gave_object && stage == HookStage::GetItem,
    }
}

/// The references that are released after a call: the object that the call was made on, once it
/// is no longer needed; the `Application` object after the last call that leads on from it; and on
/// failure everything that is still held.
pub open spec fn released(setup: HookSetup, reply: HookReply) -> HookObjects {
    let failed = reply != HookReply::Object;
    HookObjects {
        app: setup.release_app && (setup.stage == HookStage::GetItem || (failed && (setup.stage
            == HookStage::GetSession || setup.stage == HookStage::GetSyncObjects))),
        session: setup.stage == HookStage::GetSyncObjects,
        sync_objects: setup.stage == HookStage::GetItem,
        sync_object: failed && setup.stage == HookStage::Advise,
    }
}

/// Every reference is released exactly once, or else kept by the established hook: after each call,
/// what was held or came in is either released or still held, and nothing else is released.
pub proof fn references_are_released_once(setup: HookSetup, reply: HookReply)
    requires
        setup.stage != HookStage::Established,
        setup.stage != HookStage::Failed,
    ensures
        ({
            let before = held(setup);
            let new = acquired(setup.stage, reply);
            let gone = released(setup, reply);
            let after = held(HookSetup { stage: next_stage(setup.stage, reply), ..setup });
            &&& gone.app ==> before.app
            &&& gone.session ==> before.session
            &&& gone.sync_objects ==> before.sync_objects
            &&& gone.sync_object ==> before.sync_object
            &&& after.app == (before.app && !gone.app)
            &&& after.session == ((before.session && !gone.session) || new.session)
            &&& after.sync_objects == ((before.sync_objects && !gone.sync_objects)
                || new.sync_objects)
            &&& after.sync_object == ((before.sync_object && !gone.sync_object) || new.sync_object)
        }),
        held(HookSetup { stage: HookStage::Failed, ..setup }) == (HookObjects {
            app: false,
            session: false,
            sync_objects: false,
            sync_object: false,
        }),
        held(HookSetup { stage: HookStage::Established, ..setup }) == (HookObjects {
            app: false,
            session: false,
            sync_objects: false,
            sync_object: true,
        }),
{
}

impl HookSetup {
    /// A set-up whose first call is to be made.
    pub fn start(release_app: bool) -> (setup: HookSetup)
        ensures
            setup == (HookSetup { stage: HookStage::GetSession, release_app }),
    {
        HookSetup { stage: HookStage::GetSession, release_app }
    }

    /// Decides what follows a call.
    pub fn advance(&mut self, reply: HookReply) -> (decision: HookDecision)
        requires
            old(self).stage != HookStage::Established,
            old(self).stage != HookStage::Failed,
        ensures
            final(self).stage == next_stage(old(self).stage, reply),
            final(self).release_app == old(self).release_app,
            decision.release == released(*old(self), reply),
            decision.log@ == call_log(old(self).stage, reply),
    {
        let stage = self.stage;
        let failed = match reply {
            HookReply::Object => false,
            _ => true,
        };
        let at_session = stage == HookStage::GetSession;
        let at_sync_objects = stage == HookStage::GetSyncObjects;
        let at_item = stage == HookStage::GetItem;
        let at_advise = stage == HookStage::Advise;
        let release = HookObjects {
            app: self.release_app && (at_item || (failed && (at_session || at_sync_objects))),
            session: at_sync_objects,
            sync_objects: at_item,
            sync_object: failed && at_advise,
        };
        let log = if at_advise {
            if failed {
                "setup_sync_hook: advise failed on SyncObject".to_owned()
            } else {
                "setup_sync_hook: SyncEnd hook established successfully".to_owned()
            }
        } else {
            let name = match stage {
                HookStage::GetSession => "Application.Session",
                HookStage::GetSyncObjects => "Session.SyncObjects",
                _ => "SyncObjects.Item(1)",
            };
            match reply {
                HookReply::Object => "setup_sync_hook: got ".to_owned().concat(name).concat(" OK"),
                HookReply::Null => "setup_sync_hook: ".to_owned().concat(name).concat(
                    " returned null pointer",
                ),
                HookReply::Error(status) => {
                    let mut text = "setup_sync_hook: ".to_owned();
                    text.append(name);
                    text.append(" failed (HRESULT=0x");
                    push_hex(&mut text, status);
                    text.append(")");
                    text
                },
            }
        };
        self.stage = if failed {
            HookStage::Failed
        } else {
            match stage {
                HookStage::GetSession => HookStage::GetSyncObjects,
                HookStage::GetSyncObjects => HookStage::GetItem,
                HookStage::GetItem => HookStage::Advise,
                _ => HookStage::Established,
            }
        };
        HookDecision { release, log }
    }
}

/// The call that connecting the event sink makes next.
#[derive(Debug, Clone, Copy, PartialEq, Eq, Structural)]
pub enum AdviseStage {
    /// Asking for the connection point container.
    QueryContainer,
    /// Asking the container for the connection point of the events.
    FindPoint,
    /// Connecting the sink to the connection point.
    Connect,
}

/// What follows a call while the event sink is connected.
#[derive(Debug, Clone, Copy, PartialEq, Eq, Structural)]
pub struct AdviseDecision {
    pub release_container: bool,
    pub release_sink: bool,
    pub release_point: bool,
    /// The next call; none if the sink is connected or cannot be.
    pub next: Option<AdviseStage>,
    /// Whether the sink is connected.
    pub connected: bool,
}

/// Decides what follows a call while the event sink is connected: the container is released as soon
/// as it was asked, whatever it answered; the sink and the connection point are released only if
/// they could not be connected.
pub fn advise_sync_event(stage: AdviseStage, succeeded: bool) -> (decision: AdviseDecision)
    ensures
        decision == (AdviseDecision {
            release_container: stage == AdviseStage::FindPoint,
            release_sink: stage == AdviseStage::Connect && !succeeded,
            release_point: stage == AdviseStage::Connect && !succeeded,
            next: match (stage, succeeded) {
                (AdviseStage::QueryContainer, true) => Some(AdviseStage::FindPoint),
                (AdviseStage::FindPoint, true) => Some(AdviseStage::Connect),
                _ => None,
            },
            connected: stage == AdviseStage::Connect && succeeded,
        }),
{
    match stage {
        AdviseStage::QueryContainer => AdviseDecision {
            release_container: false,
            release_sink: false,
            release_point: false,
            next: if succeeded {
                Some(AdviseStage::FindPoint)
            } else {
                None
            },
            connected: false,
        },
        AdviseStage::FindPoint => AdviseDecision {
            release_container: true,
            release_sink: false,
            release_point: false,
            next: if succeeded {
                Some(AdviseStage::Connect)
            } else {
                None
            },
            connected: false,
        },
        AdviseStage::Connect => AdviseDecision {
            release_container: false,
            release_sink: !succeeded,
            release_point: !succeeded,
            next: None,
            connected: succeeded,
        },
    }
}

/// An established hook, by the addresses of its objects; zero stands for none.
#[derive(Debug, Clone, Copy, PartialEq, Eq, Structural)]
pub struct SyncHook {
    pub sync_object: usize,
    pub connection_point: usize,
    pub cookie: u32,
}

/// What taking a hook down does.
#[derive(Debug, Clone, Copy, PartialEq, Eq)]
pub struct Disconnection {
    /// The connection point to disconnect from, with the connection's cookie, and to release.
    pub unadvise: Option<(usize, u32)>,
    /// The synchronisation object to release.
    pub release: Option<usize>,
}

impl SyncHook {
    /// What taking the hook down does.
    pub open spec fn disconnection(self) -> Disconnection {
        Disconnection {
            unadvise: if self.connection_point != 0 {
                Some((self.connection_point, self.cookie))
            } else {
                None
            },
            release: if self.sync_object != 0 {
                Some(self.sync_object)
            } else {
                None
            },
        }
    }

    /// The hook after it was taken down.
    pub open spec fn taken_down(self) -> SyncHook {
        SyncHook { sync_object: 0, connection_point: 0, cookie: self.cookie }
    }

    /// Takes the hook down.
    pub fn disconnect(&mut self) -> (what: Disconnection)
        ensures
            what == old(self).disconnection(),
            *final(self) == old(self).taken_down(),
    {
        let unadvise = if self.connection_point != 0 {
            Some((self.connection_point, self.cookie))
        } else {
            None
        };
        let release = if self.sync_object != 0 {
            Some(self.sync_object)
        } else {
            None
        };
        self.connection_point = 0;
        self.sync_object = 0;
        Disconnection { unadvise, release }
    }
}

/// Taking a hook down a second time does nothing.
pub proof fn disconnecting_twice_does_nothing(hook: SyncHook)
    ensures
        hook.taken_down().disconnection() == (Disconnection { unadvise: None, release: None }),
        hook.taken_down().taken_down() == hook.taken_down(),
{
}

/// The wait ends with the end of a synchronisation and with nothing else, and never begins again by
/// an event; only then are the messages filtered that came in meanwhile. Every event is answered
/// with success.
pub proof fn only_the_end_ends_the_wait(
    state: &mut SyncState,
    event: i32,
    action: SyncEventAction,
)
    requires
        call_ensures(sync_sink_invoke, (state, event), action),
    ensures
        event == 0xF002 ==> final(state).complete && action.drain_and_stop_timer,
        event != 0xF002 ==> final(state).complete == old(state).complete
            && !action.drain_and_stop_timer,
        old(state).complete ==> final(state).complete,
        action.status == 0,
        event != 0xF002 ==> action.log@ == "SyncObjectEvents DISPID=0x"@ + hex(
            event as u32 as nat,
        ) + " received (ignored)"@,
{
}

/// The wait begins and ends when it is told to, and messages may be filtered exactly while there is
/// none.
pub proof fn a_wait_begins_and_ends(
    begun: &mut SyncState,
    waiting: bool,
    ended: &mut SyncState,
    over: bool,
)
    requires
        call_ensures(reset_sync_state, (begun,), ()),
        call_ensures(is_sync_complete, (final(begun),), waiting),
        call_ensures(force_sync_complete, (ended,), ()),
        call_ensures(is_sync_complete, (final(ended),), over),
    ensures
        !waiting,
        over,
{
}

/// A line of the log names the hour, minute and second of the day, and ends with the message.
pub proof fn a_sync_line_names_the_time(now: u64, message: &str, line: String)
    requires
        call_ensures(log_sync, (now, message), line),
    ensures
        line@ == "["@ + zero_padded((now as int / 3600 % 24) as nat, 2) + ":"@ + zero_padded(
            (now as int / 60 % 60) as nat,
            2,
        ) + ":"@ + zero_padded((now as int % 60) as nat, 2) + "] [sync] "@ + message@ + "\n"@,
{
    crate::logger::hours_and_minutes(now as int);
}

/// An object of its own is preferred to the one that was passed in, and only that is ever released;
/// there is none only if neither is there.
pub proof fn an_own_object_is_preferred(created: bool, passed_in: bool, source: AppSource)
    requires
        call_ensures(setup_sync_hook, (created, passed_in), source),
    ensures
        source is Created <==> created,
        source is Missing <==> !created && !passed_in,
        source is PassedIn <==> !created && passed_in,
{
}

/// The set-up makes its calls in their order, each on what the one before gave, and is over after
/// the sink was connected; a call that gives no object ends it without a hook. What is released is
/// what is no longer needed: each object after the call that was made on it, the application at the
/// end of its use, and the last object only if the sink could not be connected to it.
pub proof fn the_hook_is_set_up_step_by_step(
    setup: &mut HookSetup,
    reply: HookReply,
    decision: HookDecision,
)
    requires
        old(setup).stage != HookStage::Established,
        old(setup).stage != HookStage::Failed,
        call_ensures(HookSetup::advance, (setup, reply), decision),
    ensures
        final(setup).stage is Failed <==> !(reply is Object),
        reply is Object ==> {
            &&& old(setup).stage is GetSession ==> final(setup).stage is GetSyncObjects
            &&& old(setup).stage is GetSyncObjects ==> final(setup).stage is GetItem
            &&& old(setup).stage is GetItem ==> final(setup).stage is Advise
            &&& old(setup).stage is Advise ==> final(setup).stage is Established
        },
        final(setup).release_app == old(setup).release_app,
        !old(setup).release_app ==> !decision.release.app,
        decision.release.app ==> reply is Object ==> old(setup).stage is GetItem,
        old(setup).release_app && old(setup).stage is GetItem ==> decision.release.app,
        old(setup).release_app && !(reply is Object) && !(old(setup).stage is Advise)
            ==> decision.release.app,
        old(setup).stage is Advise ==> !decision.release.app,
        decision.release.session <==> old(setup).stage is GetSyncObjects,
        decision.release.sync_objects <==> old(setup).stage is GetItem,
        decision.release.sync_object <==> old(setup).stage is Advise && !(reply is Object),
{
}

/// What is logged about a call names it and how it ended.
pub proof fn the_set_up_is_logged(
    setup: &mut HookSetup,
    reply: HookReply,
    decision: HookDecision,
)
    requires
        old(setup).stage != HookStage::Established,
        old(setup).stage != HookStage::Failed,
        call_ensures(HookSetup::advance, (setup, reply), decision),
    ensures
        ({
            let name = if old(setup).stage is GetSession {
                "Application.Session"@
            } else if old(setup).stage is GetSyncObjects {
                "Session.SyncObjects"@
            } else {
                "SyncObjects.Item(1)"@
            };
            &&& !(old(setup).stage is Advise) && reply is Object ==> decision.log@
                == "setup_sync_hook: got "@ + name + " OK"@
            &&& !(old(setup).stage is Advise) && reply is Null ==> decision.log@
                == "setup_sync_hook: "@ + name + " returned null pointer"@
            &&& old(setup).stage is Advise && reply is Object ==> decision.log@
                == "setup_sync_hook: SyncEnd hook established successfully"@
            &&& old(setup).stage is Advise && !(reply is Object) ==> decision.log@
                == "setup_sync_hook: advise failed on SyncObject"@
        }),
        !(old(setup).stage is Advise) ==> (reply matches HookReply::Error(status) ==> decision.log@
            == "setup_sync_hook: "@ + call_name(old(setup).stage) + " failed (HRESULT=0x"@ + hex(
            status as nat,
        ) + ")"@),
{
}

/// Connecting the sink goes from the container over the point to the connection, and stops at the
/// first call that fails. It is connected only by the last call; the container is released once it
/// was asked, and sink and point are released together, exactly if they could not be connected.
pub proof fn the_sink_is_connected_step_by_step(
    stage: AdviseStage,
    succeeded: bool,
    decision: AdviseDecision,
)
    requires
        call_ensures(advise_sync_event, (stage, succeeded), decision),
    ensures
        !succeeded ==> decision.next is None && !decision.connected,
        succeeded && stage is QueryContainer ==> decision.next == Some(AdviseStage::FindPoint),
        succeeded && stage is FindPoint ==> decision.next == Some(AdviseStage::Connect),
        stage is Connect ==> decision.next is None,
        decision.connected <==> stage is Connect && succeeded,
        decision.release_container <==> stage is FindPoint,
        decision.release_sink <==> stage is Connect && !succeeded,
        decision.release_point == decision.release_sink,
{
}

/// Taking a hook down disconnects from its own point with its own cookie and releases its own
/// object, where they are there, and leaves nothing to take down.
pub proof fn a_hook_is_taken_down_once(
    hook: &mut SyncHook,
    what: Disconnection,
    again: &mut SyncHook,
    nothing: Disconnection,
)
    requires
        call_ensures(SyncHook::disconnect, (hook,), what),
        *old(again) == *final(hook),
        call_ensures(SyncHook::disconnect, (again,), nothing),
    ensures
        old(hook).connection_point != 0 ==> what.unadvise == Some(
            (old(hook).connection_point, old(hook).cookie),
        ),
        old(hook).connection_point == 0 ==> what.unadvise is None,
        old(hook).sync_object != 0 ==> what.release == Some(old(hook).sync_object),
        old(hook).sync_object == 0 ==> what.release is None,
        nothing.unadvise is None,
        nothing.release is None,
{
}

/// A set-up starts with the first call and releases the application only if it was created for it.
pub proof fn a_set_up_starts_at_the_session(release_app: bool, setup: HookSetup)
    requires
        call_ensures(HookSetup::start, (release_app,), setup),
    ensures
        setup.stage is GetSession,
        setup.release_app == release_app,
{
}

/// Messages may be filtered at first, before a wait begins; the end of a synchronisation is logged
/// as such.
pub proof fn there_is_no_wait_at_first(
    first: SyncState,
    state: &mut SyncState,
    action: SyncEventAction,
)
    requires
        call_ensures(SyncState::default, (), first),
        call_ensures(sync_sink_invoke, (state, 0xF002i32), action),
    ensures
        first.complete,
        action.log@ == "SyncEnd event received — marking sync complete and draining queue"@,
{
}

/// The interfaces, the event and the timer of the wait have the numbers that Outlook and the
/// window's procedure know them by.
pub proof fn the_numbers_of_the_wait_are_kept()
    ensures
        IID_SYNC_OBJECT_EVENTS == 0x00063085_0000_0000_C000_000000000046,
        IID_ICONNECTION_POINT_CONTAINER == 0xB196B284_BAB4_101A_B69C_00AA00341D07,
        DISPID_SYNC_END == 0xF002,
        SYNC_TIMEOUT_TIMER_ID == 0x5B08,
{
}

} // verus!
