//! The Windows service's decisions: how it answers the service control
//! manager, what status it reports, and which process token it launches the
//! injector with.
use vstd::prelude::*;

verus! {

/// A request of the service control manager, as far as the service tells
/// requests apart.
#[derive(Clone, Copy, Debug, PartialEq, Eq, Structural)]
pub enum ServiceControlKind {
    Stop,
    SessionChange,
    Other,
}

/// The answer to a request of the service control manager.
#[derive(Clone, Copy, Debug, PartialEq, Eq, Structural)]
pub enum ControlAnswer {
    NoError,
    NotImplemented,
}

/// How the service handles a request: stop and session changes are
/// handled (only stop asks the service to stop); nothing else is
/// implemented.
pub open spec fn control_outcome(control: ServiceControlKind) -> (ControlAnswer, bool) {
    match control {
        ServiceControlKind::Stop => (ControlAnswer::NoError, true),
        ServiceControlKind::SessionChange => (ControlAnswer::NoError, false),
        ServiceControlKind::Other => (ControlAnswer::NotImplemented, false),
    }
}

/// The answer to a request, and whether the service is to stop.
pub fn handle_control(control: ServiceControlKind) -> (r: (ControlAnswer, bool))
    ensures
        r == control_outcome(control),
{
    match control {
        ServiceControlKind::Stop => (ControlAnswer::NoError, true),
        ServiceControlKind::SessionChange => (ControlAnswer::NoError, false),
        ServiceControlKind::Other => (ControlAnswer::NotImplemented, false),
    }
}

/// A status reported to the service control manager, for a service that
/// runs in its own process.
#[derive(Clone, Copy, Debug, PartialEq, Eq, Structural)]
pub struct ServiceStatusReport {
    pub running: bool,
    pub accepts_stop: bool,
    pub accepts_session_change: bool,
    /// The Win32 exit code.
    pub exit_code: u32,
}

/// The status while running: stop and session-change requests accepted.
pub fn running_status() -> (r: ServiceStatusReport)
    ensures
        r == (ServiceStatusReport {
            running: true,
            accepts_stop: true,
            accepts_session_change: true,
            exit_code: 0,
        }),
{
    ServiceStatusReport { running: true, accepts_stop: true, accepts_session_change: true, exit_code: 0 }
}

/// The status once stopped: no request accepted, exit code 0 when the
/// service ended normally and 1 when it failed.
pub fn stopped_status(ended_normally: bool) -> (r: ServiceStatusReport)
    ensures
        r == (ServiceStatusReport {
            running: false,
            accepts_stop: false,
            accepts_session_change: false,
            exit_code: if ended_normally {
                0
            } else {
                1
            },
        }),
{
    ServiceStatusReport {
        running: false,
        accepts_stop: false,
        accepts_session_change: false,
        exit_code: if ended_normally {
            0
        } else {
            1
        },
    }
}

/// ASCII lower case of a byte.
pub open spec fn ascii_lower(b: u8) -> u8 {
    if 65 <= b <= 90 {
        (b + 32) as u8
    } else {
        b
    }
}

/// Equality of byte strings up to ASCII case.
pub open spec fn eq_ignore_ascii_case(a: Seq<u8>, b: Seq<u8>) -> bool {
    a.len() == b.len() && forall|i: int| 0 <= i < a.len() ==> ascii_lower(a[i]) == ascii_lower(b[i])
}

/// The executable name of the logon process, `winlogon.exe`.
pub open spec fn winlogon_name() -> Seq<u8> {
    seq![119u8, 105, 110, 108, 111, 103, 111, 110, 46, 101, 120, 101]
}

/// The bytes of `winlogon.exe`.
pub const WINLOGON_EXE: [u8; 12] = [119, 105, 110, 108, 111, 103, 111, 110, 46, 101, 120, 101];

fn lower(b: u8) -> (r: u8)
    ensures
        r == ascii_lower(b),
{
    if 65 <= b && b <= 90 {
        b + 32
    } else {
        b
    }
}

/// Whether a process, with executable name `exe` and session `exe_session`
/// (`None` when the session could not be read), is the logon process of
/// `session`: its name is `winlogon.exe` up to ASCII case and it runs in
/// that session.
pub fn is_winlogon_entry(exe: &[u8], exe_session: Option<u32>, session: u32) -> (r: bool)
    ensures
        r == (eq_ignore_ascii_case(exe@, winlogon_name()) && exe_session == Some(session)),
{
    let name = WINLOGON_EXE;
    assert(name@ =~= winlogon_name());
    if exe.len() != 12 {
        return false;
    }
    let mut i: usize = 0;
    while i < 12
        invariant
            exe@.len() == 12,
            name@ == winlogon_name(),
            i <= 12,
            forall|j: int| 0 <= j < i ==> ascii_lower(exe@[j]) == ascii_lower(winlogon_name()[j]),
        decreases 12 - i,
    {
        if lower(exe[i]) != lower(name[i]) {
            return false;
        }
        i = i + 1;
    }
    match exe_session {
        Some(s) => s == session,
        None => false,
    }
}

} // verus!
