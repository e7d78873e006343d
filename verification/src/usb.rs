//! The decisions of a USB host controller: what a failed transfer means,
//! whether it is tried again, and what comes after each step of one.
//!
//! The hardware answers "has the transfer finished?"; this module answers
//! "what now, and how long are we prepared to wait?". Each transfer is a
//! state machine that names the next thing to run on the host channel and is
//! told what came of it.
//!
//! - [`port`] watches the root port for devices coming and going.
//! - [`pipe`] binds a host channel to one device endpoint.
//! - [`control`] runs a control transfer, restarting it from its SETUP.
//! - [`request`] runs bulk and interrupt transfers.
//! - [`error`] says what a transfer failure means to the caller.

/// Control transfers.
pub mod control;
/// What a transfer failure means, and which refusal was the last.
pub mod error;
/// Pipes, and how one is allocated.
pub mod pipe;
/// The root port.
pub mod port;
/// Bulk and interrupt transfers.
pub mod request;

pub use control::{control_result, ControlAction, ControlData, ControlTransfer, Stage};
pub use error::{
    last_stalled_setup, last_stalled_stage, map_error, retryable, retryable_control, PipeError,
    StallRecord, TransferError,
};
pub use pipe::{
    timeout_duration, ControlEndpoint, Dwc2Pipe, EndpointInfo, EndpointType, HostError,
    PipeRequest, SplitInfo, SplitSpeed, SplitTarget, Timeout, TimeoutConfig,
};
pub use port::{decode_speed, DeviceEvent, PortAction, PortEvent, PortWatch, Speed};
pub use request::{bulk_buffer_ok, bulk_region_ok, Request, RequestAction, TransferKind};
