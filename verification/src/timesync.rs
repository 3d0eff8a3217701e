//! Keeping the guest's clock in step with the host's across sleep and wake.

use crate::text::decimal_digits;
use crate::text::decimal_string;
use crate::virtio::VsockConfig;
use vstd::prelude::*;

verus! {

/// What the host's power management reports.
#[derive(Debug, Clone, Copy, PartialEq, Eq)]
pub enum Activity {
    Sleep,
    Wake,
}

/// The numbers by which the host's power management names its messages.
#[derive(Debug, Clone, Copy, PartialEq, Eq)]
pub struct PowerMessages {
    /// The system is about to sleep.
    pub will_sleep: u32,
    /// The system is about to power on.
    pub will_power_on: u32,
    /// The system has powered on.
    pub has_powered_on: u32,
}

/// The activity that a power message stands for, if any.
pub open spec fn activity_spec(message_type: u32, codes: PowerMessages) -> Option<Activity> {
    if message_type == codes.will_sleep {
        Some(Activity::Sleep)
    } else if message_type == codes.will_power_on || message_type == codes.has_powered_on {
        Some(Activity::Wake)
    } else {
        None
    }
}

/// Reads a power message: sleep, wake, or a message of no interest.
pub fn power_callback(message_type: u32, codes: &PowerMessages) -> (r: Option<Activity>)
    ensures
        r == activity_spec(message_type, *codes),
{
    if message_type == codes.will_sleep {
        Some(Activity::Sleep)
    } else if message_type == codes.will_power_on || message_type == codes.has_powered_on {
        Some(Activity::Wake)
    } else {
        None
    }
}

/// The command that sets the guest's clock to `time_ns` nanoseconds since the epoch:
/// one line for the guest agent.
pub open spec fn set_time_command(time_ns: u128) -> Seq<char> {
    "{\"execute\": \"guest-set-time\", \"arguments\":{\"time\": "@ + decimal_digits(time_ns as nat)
        + "}}\n"@
}

/// Writes the command that sets the guest's clock.
pub fn sync_time(time_ns: u128) -> (r: String)
    ensures
        r@ == set_time_command(time_ns),
{
    let mut s = String::from_str("{\"execute\": \"guest-set-time\", \"arguments\":{\"time\": ");
    let digits = decimal_string(time_ns);
    s.append(digits.as_str());
    s.append("}}\n");
    s
}

/// Decides what one activity asks for: on wake, the path of the socket over which the
/// guest's clock is to be set; on sleep, nothing.
pub fn timesync_listener(activity: Activity, vsock_config: &VsockConfig) -> (r: Option<String>)
    ensures
        activity == Activity::Wake ==> (r matches Some(p) && p@ == vsock_config.socket_url@),
        activity == Activity::Sleep ==> r is None,
{
    match activity {
        Activity::Sleep => None,
        Activity::Wake => Some(vsock_config.socket_url.clone()),
    }
}

} // verus!
