//! Supervisory decisions: scanning the profile-event stream for profile
//! changes, and reacting to queue events while a governor runs.

use vstd::prelude::*;
use crate::profile::Profile;
use crate::text::{contains_seq, str_contains};

verus! {

/// The first of the three profile tokens contained in the line, if any.
pub open spec fn profile_token_spec(l: Seq<char>) -> Option<Profile> {
    if contains_seq(l, "power-saver"@) {
        Some(Profile::PowerSaver)
    } else if contains_seq(l, "balanced"@) {
        Some(Profile::Balanced)
    } else if contains_seq(l, "performance"@) {
        Some(Profile::Performance)
    } else {
        None
    }
}

/// Scan a reply or event line for the first profile token it contains.
/// Used on the profile daemon's answer to the initial property query.
pub fn profile_token(line: &str) -> (r: Option<Profile>)
    ensures
        r == profile_token_spec(line@),
{
    if str_contains(line, "power-saver") {
        Some(Profile::PowerSaver)
    } else if str_contains(line, "balanced") {
        Some(Profile::Balanced)
    } else if str_contains(line, "performance") {
        Some(Profile::Performance)
    } else {
        None
    }
}

/// One step of the event-stream reader: a line naming the watched
/// property latches `check_next`; a latched reader skips empty lines and
/// takes the next non-empty line's profile token as the new profile,
/// clearing the latch.
pub open spec fn scan_line_spec(check_next: bool, l: Seq<char>) -> (bool, Option<Profile>) {
    if contains_seq(l, "ActiveProfile"@) {
        (true, None)
    } else if check_next && l.len() == 0 {
        (true, None)
    } else if check_next {
        (false, profile_token_spec(l))
    } else {
        (false, None)
    }
}

/// Feed one line of the profile-event stream to the reader's latch state;
/// returns the new latch and the profile change the line announces, if any.
pub fn scan_line(check_next: bool, line: &str) -> (r: (bool, Option<Profile>))
    ensures
        r == scan_line_spec(check_next, line@),
{
    if str_contains(line, "ActiveProfile") {
        (true, None)
    } else if check_next && line.is_empty() {
        (true, None)
    } else if check_next {
        (false, profile_token(line))
    } else {
        (false, None)
    }
}

/// What the supervisor sees while waiting on the event queue.
#[derive(Debug, Clone, Copy, PartialEq, Eq, Structural)]
pub enum SupervisorEvent {
    /// The reader forwarded a profile value.
    Received(Profile),
    /// The wait timed out.
    Timeout,
    /// The reader is gone and the queue is closed.
    Disconnected,
}

/// What the supervisor does next.
#[derive(Debug, Clone, Copy, PartialEq, Eq, Structural)]
pub enum SupervisorAction {
    /// Keep the current governor and wait again.
    KeepWaiting,
    /// Tear the governor down and restart with this profile.
    SwitchTo(Profile),
    /// Tear the governor down and exit.
    Shutdown,
}

/// The supervisor's reaction to one queue event: a different profile
/// triggers a switch, the same one is ignored, a timeout only matters
/// once the running flag has dropped, and a closed queue ends the run.
pub open spec fn supervisor_step_spec(
    current: Profile,
    event: SupervisorEvent,
    running: bool,
) -> SupervisorAction {
    match event {
        SupervisorEvent::Received(p) => if p == current {
            SupervisorAction::KeepWaiting
        } else {
            SupervisorAction::SwitchTo(p)
        },
        SupervisorEvent::Timeout => if running {
            SupervisorAction::KeepWaiting
        } else {
            SupervisorAction::Shutdown
        },
        SupervisorEvent::Disconnected => SupervisorAction::Shutdown,
    }
}

/// Decide the supervisor's next move from one event of the profile queue
/// and the termination flag.
pub fn supervisor_step(current: Profile, event: SupervisorEvent, running: bool) -> (r:
    SupervisorAction)
    ensures
        r == supervisor_step_spec(current, event, running),
{
    match event {
        SupervisorEvent::Received(p) => if p == current {
            SupervisorAction::KeepWaiting
        } else {
            SupervisorAction::SwitchTo(p)
        },
        SupervisorEvent::Timeout => if running {
            SupervisorAction::KeepWaiting
        } else {
            SupervisorAction::Shutdown
        },
        SupervisorEvent::Disconnected => SupervisorAction::Shutdown,
    }
}

} // verus!
