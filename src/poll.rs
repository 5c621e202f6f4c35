use vstd::prelude::*;

use crate::error::AcquisitionError;
use crate::status::{empty_status, get_i3_status, status_json};
use crate::sysfs::BatteryInfo;

verus! {

/// The audio-profile change that a cycle asks for.
#[derive(Clone, Copy, Debug, PartialEq, Eq, Structural)]
pub enum ProfileAction {
    /// The link state did not change: nothing to do.
    Keep,
    /// The headset connected: select its audio profile.
    Activate,
    /// The headset disconnected: switch its audio card off.
    Deactivate,
}

/// The state that the polling loop keeps from one cycle to the next.
#[derive(Clone, Copy, Debug, PartialEq, Eq, Structural)]
pub struct PollState {
    pub last_connected: bool,
}

/// What one cycle of the polling loop prints and does.
#[derive(Clone, Debug)]
pub struct Cycle {
    pub line: String,
    pub action: ProfileAction,
}

/// The profile change that a link state asks for after `last`.
pub open spec fn action_of(last: bool, connected: bool) -> ProfileAction {
    if connected && !last {
        ProfileAction::Activate
    } else if !connected && last {
        ProfileAction::Deactivate
    } else {
        ProfileAction::Keep
    }
}

/// The line that a cycle prints: the status of a reading, or the empty
/// record when the headset cannot be found or has no battery reading.
pub open spec fn cycle_line(
    wireless: Result<bool, AcquisitionError>,
    battery: Result<Option<BatteryInfo>, AcquisitionError>,
) -> Seq<char> {
    match wireless {
        Err(_) => "{\"text\":\"\"}"@,
        Ok(false) => status_json(false, 0, false),
        Ok(true) => match battery {
            Ok(Some(b)) => status_json(true, b.percentage as nat, b.charging),
            _ => "{\"text\":\"\"}"@,
        },
    }
}

/// A profile change is asked for exactly when the link state differs from the
/// last one known: the profile is selected when the headset connects and the
/// card switched off when it disconnects, and a repeated state changes nothing.
pub proof fn lemma_action_on_edge_only(last: bool, connected: bool)
    ensures
        (action_of(last, connected) == ProfileAction::Keep) == (last == connected),
        action_of(last, connected) == ProfileAction::Activate <==> (!last && connected),
        action_of(last, connected) == ProfileAction::Deactivate <==> (last && !connected),
        action_of(connected, connected) == ProfileAction::Keep,
{
}

impl PollState {
    /// The state at start: the headset is taken as connected, so that no
    /// profile change is made at start when it is.
    pub fn new() -> (r: PollState)
        ensures
            r.last_connected,
    {
        PollState { last_connected: true }
    }

    /// One cycle of the polling loop on this cycle's link state and battery
    /// reading. The profile changes only when `update_profile` is set and the
    /// link state differs from the last one known; a cycle that could not read
    /// the link state leaves the state as it was.
    pub fn poll_cycle(
        &mut self,
        wireless: Result<bool, AcquisitionError>,
        battery: Result<Option<BatteryInfo>, AcquisitionError>,
        update_profile: bool,
    ) -> (r: Cycle)
        ensures
            r.line@ == cycle_line(wireless, battery),
            match wireless {
                Ok(c) if update_profile => {
                    &&& r.action == action_of(old(self).last_connected, c)
                    &&& final(self).last_connected == c
                },
                _ => {
                    &&& r.action == ProfileAction::Keep
                    &&& *final(self) == *old(self)
                },
            },
    {
        let line = match wireless {
            Err(_) => empty_status(),
            Ok(false) => get_i3_status(false, 0, false),
            Ok(true) => match battery {
                Ok(Some(b)) => get_i3_status(true, b.percentage, b.charging),
                _ => empty_status(),
            },
        };
        let action = match wireless {
            Ok(c) => {
                if update_profile {
                    let a = if c && !self.last_connected {
                        ProfileAction::Activate
                    } else if !c && self.last_connected {
                        ProfileAction::Deactivate
                    } else {
                        ProfileAction::Keep
                    };
                    self.last_connected = c;
                    a
                } else {
                    ProfileAction::Keep
                }
            },
            Err(_) => ProfileAction::Keep,
        };
        Cycle { line, action }
    }
}

} // verus!
