//! The charging session that is shared with the broadcast worker.

use vstd::prelude::*;

verus! {

/// What has to be published to the broadcast worker: the session flag to store
/// and by how much the session generation grows, wrapping at its width. The
/// worker is notified of every update.
#[derive(Clone, Copy, PartialEq, Eq, Structural, Debug)]
pub struct SessionUpdate {
    pub active: bool,
    pub generation_advance: u32,
}

impl SessionUpdate {
    /// A session begins, under the next generation.
    pub open spec fn started() -> SessionUpdate {
        SessionUpdate { active: true, generation_advance: 1 }
    }

    /// The session is over; the generation stays.
    pub open spec fn stopped() -> SessionUpdate {
        SessionUpdate { active: false, generation_advance: 0 }
    }
}

/// Begins a charging session. One that is active already goes on: nothing is
/// published then.
pub fn start_charging_session(charging_session_active: &mut bool) -> (update: Option<SessionUpdate>)
    ensures
        *final(charging_session_active),
        update == (if *old(charging_session_active) {
            None
        } else {
            Some(SessionUpdate::started())
        }),
{
    if !*charging_session_active {
        *charging_session_active = true;
        Some(SessionUpdate { active: true, generation_advance: 1 })
    } else {
        None
    }
}

/// Ends the charging session. This is published even where none was active.
pub fn stop_charging_session(charging_session_active: &mut bool) -> (update: SessionUpdate)
    ensures
        !*final(charging_session_active),
        update == SessionUpdate::stopped(),
{
    *charging_session_active = false;
    SessionUpdate { active: false, generation_advance: 0 }
}

} // verus!
