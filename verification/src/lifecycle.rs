//! Lifecycle glue: the process-wide slot holding the active initiator
//! session, the translation of host observer notifications into loop
//! signals, and the role decision taken at process start.

use crate::message::FeltMessage;
use crate::session::ClientSession;
use vstd::prelude::*;

verus! {

/// A slot holding at most one active initiator session.  The process keeps
/// exactly one such slot, behind a mutual-exclusion lock owned by the caller.
#[derive(Debug)]
pub struct ActiveSessionSlot {
    pub active: Option<ClientSession>,
}

impl ActiveSessionSlot {
    /// An empty slot: no session, so nothing is ready and every notification
    /// send is a no-op.
    pub fn new_empty() -> (r: ActiveSessionSlot)
        ensures
            r.active is None,
    {
        ActiveSessionSlot { active: Option::None }
    }

    /// Installs a session, replacing any previous one.  A previous session's
    /// worker is not joined here; the caller must have set its stop flag
    /// first.
    pub fn install(&mut self, session: ClientSession)
        ensures
            final (self).active == Option::Some(session),
    {
        self.active = Option::Some(session);
    }

    /// Whether a session is installed.
    pub fn has_active(&self) -> (r: bool)
        ensures
            r == (self.active is Some),
    {
        self.active.is_some()
    }

    /// Delegates to the session's startup barrier, and reports "not ready"
    /// when no session exists.
    pub fn is_ready(&self) -> (r: bool)
        ensures
            r == (match self.active {
                Option::Some(s) => s.startup_complete,
                Option::None => false,
            }),
    {
        match &self.active {
            Option::Some(s) => s.is_startup_complete(),
            Option::None => false,
        }
    }

    /// Raises the installed session's startup barrier; a no-op when no
    /// session exists.
    pub fn mark_startup_complete(&mut self)
        ensures
            old(self).active is None ==> final (self).active is None,
            old(self).active matches Option::Some(s) ==> final (self).active == Option::Some(
                ClientSession { startup_complete: true, ..s },
            ),
    {
        match &mut self.active {
            Option::Some(s) => s.mark_startup_complete(),
            Option::None => {},
        }
    }

    /// The `ExtensionReady` send through the installed session: `None` (a
    /// no-op) when no session is installed or its sender is unusable.
    pub fn extension_ready_message(&self) -> (r: Option<FeltMessage>)
        ensures
            r == (match self.active {
                Option::Some(s) => if s.link.tx_usable {
                    Option::Some(FeltMessage::ExtensionReady)
                } else {
                    Option::None
                },
                Option::None => Option::None,
            }),
    {
        match &self.active {
            Option::Some(s) => s.extension_ready_message(),
            Option::None => Option::None,
        }
    }

    /// The `LogoutShutdown` send through the installed session; `None` is a
    /// no-op as above.
    pub fn signout_message(&self) -> (r: Option<FeltMessage>)
        ensures
            r == (match self.active {
                Option::Some(s) => if s.link.tx_usable {
                    Option::Some(FeltMessage::LogoutShutdown)
                } else {
                    Option::None
                },
                Option::None => Option::None,
            }),
    {
        match &self.active {
            Option::Some(s) => s.signout_message(),
            Option::None => Option::None,
        }
    }

    /// The `Restarting` send through the installed session; `None` is a
    /// no-op as above.
    pub fn restart_message(&self) -> (r: Option<FeltMessage>)
        ensures
            r == (match self.active {
                Option::Some(s) => if s.link.tx_usable {
                    Option::Some(FeltMessage::Restarting)
                } else {
                    Option::None
                },
                Option::None => Option::None,
            }),
    {
        match &self.active {
            Option::Some(s) => s.restart_message(),
            Option::None => Option::None,
        }
    }
}

/// What a host observer notification means to the bridge.
#[derive(Clone, Copy, Debug, PartialEq, Eq, Structural)]
pub enum ObserverSignal {
    /// The host profile became usable: cookie injection may begin.
    ProfileReady,
    /// Worker threads must wind down: set the loop's stop flag.
    StopThread,
    /// The application is quitting in order to restart: send `Restarting`
    /// to the peer.
    NotifyRestart,
    /// Any other notification is ignored.
    Ignore,
}

/// The translation of an observer notification, by topic and payload.
pub open spec fn spec_observer_signal(topic: Seq<char>, data: Seq<char>) -> ObserverSignal {
    if topic == "profile-after-change"@ {
        ObserverSignal::ProfileReady
    } else if topic == "xpcom-shutdown-threads"@ {
        ObserverSignal::StopThread
    } else if topic == "quit-application"@ {
        if data == "restart"@ {
            ObserverSignal::NotifyRestart
        } else {
            ObserverSignal::Ignore
        }
    } else {
        ObserverSignal::Ignore
    }
}

/// Translates a host observer notification into the signal the bridge acts
/// on.  A quit notification counts as a restart only when its reason string
/// is exactly `"restart"`; any other reason is ignored.
pub fn observer_signal(topic: &str, data: &str) -> (r: ObserverSignal)
    ensures
        r == spec_observer_signal(topic@, data@),
{
    if str_eq(topic, "profile-after-change") {
        ObserverSignal::ProfileReady
    } else if str_eq(topic, "xpcom-shutdown-threads") {
        ObserverSignal::StopThread
    } else if str_eq(topic, "quit-application") {
        if str_eq(data, "restart") {
            ObserverSignal::NotifyRestart
        } else {
            ObserverSignal::Ignore
        }
    } else {
        ObserverSignal::Ignore
    }
}

/// Character-for-character equality of two string slices.
pub(crate) fn str_eq(a: &str, b: &str) -> (r: bool)
    ensures
        r == (a@ == b@),
{
    let sa = String::from_str(a);
    let sb = String::from_str(b);
    sa == sb
}

/// Which of the two roles this process plays, as decided from its launch
/// arguments and environment at startup.
#[derive(Clone, Copy, Debug, PartialEq, Eq, Structural)]
pub struct ProcessRoles {
    /// This process runs the enterprise-shell UI (the responder side).
    pub is_felt_ui: bool,
    /// This process runs the browser (the initiator side).
    pub is_felt_browser: bool,
}

/// Decides the process roles.  The browser role is requested by a launch
/// argument; the UI role holds otherwise, unless bypassed through the
/// environment.  Requesting both roles at once is a caller error and must be
/// rejected before this decision is taken.
pub fn resolve_roles(
    felt_ui_requested: bool,
    browser_requested: bool,
    bypass_requested: bool,
) -> (r: ProcessRoles)
    requires
        !(browser_requested && felt_ui_requested),
    ensures
        r.is_felt_browser == browser_requested,
        r.is_felt_ui == (!browser_requested && !bypass_requested),
{
    ProcessRoles {
        is_felt_ui: !browser_requested && !bypass_requested,
        is_felt_browser: browser_requested,
    }
}

} // verus!
