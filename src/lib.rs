//! Control-plane client for a kernel path-redirection facility.
//!
//! `protocol` encodes the command codes of the control device, `channel`
//! builds its requests and reads its answers, `reconcile` turns a walked
//! module tree into the commands that overlay it onto a destination or remove
//! that overlay, and `batch` applies such commands best-effort.
use vstd::prelude::*;

pub mod batch;
pub mod channel;
pub mod protocol;
pub mod reconcile;

verus! {

/// What a status probe found of the facility.
#[derive(Clone, Copy, Debug, PartialEq, Eq, Structural)]
pub enum HymoFsStatus {
    Available,
    NotPresent,
    /// Reserved for a version check that the protocol does not make yet.
    KernelTooOld,
    /// Reserved for a version check that the protocol does not make yet.
    ModuleTooOld,
}

/// The client of the control device.
pub struct HymoFs;

/// Relies on `std::path::Path::exists`: whether the control path exists. It
/// reads the path's metadata and neither creates nor opens the path.
#[verifier::external_body]
fn control_path_exists() -> bool {
    std::path::Path::new(channel::DEV_PATH).exists()
}

impl HymoFs {
    /// The status that the presence of the control path stands for.
    pub fn status_from_presence(present: bool) -> (r: HymoFsStatus)
        ensures
            present ==> r == HymoFsStatus::Available,
            !present ==> r == HymoFsStatus::NotPresent,
    {
        if present {
            HymoFsStatus::Available
        } else {
            HymoFsStatus::NotPresent
        }
    }

    /// Probes whether the control device is present, without opening it.
    pub fn check_status() -> (r: HymoFsStatus)
        ensures
            r == HymoFsStatus::Available || r == HymoFsStatus::NotPresent,
    {
        Self::status_from_presence(control_path_exists())
    }

    /// Whether the probe finds the control device present.
    pub fn is_available() -> bool {
        Self::check_status() == HymoFsStatus::Available
    }
}

} // verus!
