//! The vocabulary shared with whoever holds the open device: what the
//! device is asked to do, what it answers, and how failures are named.
//!
//! The crate never touches a device. A transport hands out one [`Request`]
//! at a time; the holder of the handle performs it and reports a [`Reply`].

use vstd::prelude::*;
use crate::discovery::Endpoint;

verus! {

/// How long one bulk transfer may block, in seconds.
pub const TRANSFER_TIMEOUT_SECS: u64 = 10;

/// Why the device refused or failed an operation.
#[derive(Clone, Copy, Debug, PartialEq, Eq, Structural)]
pub enum Cause {
    /// Input or output error.
    Io,
    /// A parameter was not accepted.
    InvalidParam,
    /// Insufficient permissions.
    Access,
    /// The device is gone.
    NoDevice,
    /// The addressed entity does not exist.
    NotFound,
    /// The resource is in use elsewhere.
    Busy,
    /// The operation did not complete within its time limit.
    Timeout,
    /// The device sent more than was asked for.
    Overflow,
    /// The endpoint stalled.
    Pipe,
    /// A signal interrupted the operation.
    Interrupted,
    /// Out of memory.
    NoMem,
    /// The platform does not offer the operation.
    NotSupported,
    /// Anything else.
    Other,
}

/// The sub-steps of configuring a device for an endpoint, in the order in
/// which they run.
#[derive(Clone, Copy, Debug, PartialEq, Eq, Structural)]
pub enum Stage {
    ActivateConfiguration,
    ClaimInterface,
    SetAlternateSetting,
}

/// What can go wrong with a USB transport.
#[derive(Clone, Copy, Debug, PartialEq, Eq, Structural)]
pub enum Error {
    /// No printer was found, or the one found could not be opened.
    DeviceUnavailable,
    /// The device could not be reset at the start of a flush.
    ResetFailed { cause: Cause },
    /// Configuring the device for its write endpoint failed at `stage`.
    ConfigurationFailed { stage: Stage, cause: Cause },
    /// The bulk transfer failed.
    TransferFailed { cause: Cause },
}

/// One operation on the open device.
#[derive(Clone, Copy, Debug, PartialEq, Eq, Structural)]
pub enum Request {
    /// Reset the device.
    Reset,
    /// Activate the configuration with this value.
    SetActiveConfiguration { config: u8 },
    /// Claim the interface with this number.
    ClaimInterface { iface: u8 },
    /// Select an alternate setting of a claimed interface.
    SetAlternateSetting { iface: u8, setting: u8 },
    /// Write the whole payload of the flush in progress to the endpoint at
    /// this address, as one blocking bulk transfer that gives up after
    /// `timeout_secs` seconds.
    WriteBulk { endpoint: u8, timeout_secs: u64 },
}

/// The device's answer to a request. A bulk transfer that moved only part
/// of the payload still counts as done: the remainder is not sent again.
#[derive(Clone, Copy, Debug, PartialEq, Eq, Structural)]
pub enum Reply {
    Done,
    Failed(Cause),
}

/// Configuration as a list: each stage with the request that performs it
/// on the locator, in running order.
pub open spec fn configuration_plan(endpoint: Endpoint) -> Seq<(Stage, Request)> {
    seq![
        (Stage::ActivateConfiguration, Request::SetActiveConfiguration { config: endpoint.config }),
        (Stage::ClaimInterface, Request::ClaimInterface { iface: endpoint.iface }),
        (
            Stage::SetAlternateSetting,
            Request::SetAlternateSetting { iface: endpoint.iface, setting: endpoint.setting },
        ),
    ]
}

/// How many stages of the plan are behind us once `completed` was the last
/// stage to succeed.
pub open spec fn stages_done(completed: Option<Stage>) -> int {
    match completed {
        None => 0,
        Some(Stage::ActivateConfiguration) => 1,
        Some(Stage::ClaimInterface) => 2,
        Some(Stage::SetAlternateSetting) => 3,
    }
}

/// Configuration, one step at a time. Given the stage that succeeded last
/// (`None` before the first), names the stage that must run next and the
/// request that performs it for `endpoint`; `None` once the alternate
/// setting is selected and the device is configured. The stages run in the
/// order activate configuration, claim interface, select alternate setting.
pub fn configure_endpoint(
    endpoint: &Endpoint,
    completed: Option<Stage>,
) -> (next: Option<(Stage, Request)>)
    ensures
        stages_done(completed) < 3 ==> next == Some(
            configuration_plan(*endpoint)[stages_done(completed)],
        ),
        stages_done(completed) == 3 ==> next is None,
{
    match completed {
        None => Some(
            (
                Stage::ActivateConfiguration,
                Request::SetActiveConfiguration { config: endpoint.config },
            ),
        ),
        Some(Stage::ActivateConfiguration) => Some(
            (Stage::ClaimInterface, Request::ClaimInterface { iface: endpoint.iface }),
        ),
        Some(Stage::ClaimInterface) => Some(
            (
                Stage::SetAlternateSetting,
                Request::SetAlternateSetting { iface: endpoint.iface, setting: endpoint.setting },
            ),
        ),
        Some(Stage::SetAlternateSetting) => None,
    }
}

} // verus!
