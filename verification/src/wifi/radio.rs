//! What is exchanged with the Wi-Fi chip: what it can refuse with, and what
//! it needs to join a network.

use vstd::prelude::*;

verus! {

/// Largest frame moved in either direction: a 14-byte Ethernet header plus a
/// 1500-byte payload.
pub const MTU: usize = 1514;

/// Errors from the SDIO link under the chip.
#[derive(Clone, Copy, Debug, PartialEq, Eq, Structural)]
pub enum SdioError {
    /// A wait for the controller, chip, or a command or data phase exceeded
    /// its budget.
    Timeout,
    /// A command finished with an error flagged.
    CardError {
        /// The interrupt register when the error was detected.
        interrupt: u32,
        /// The command in flight when the error fired.
        command: u32,
    },
    /// The controller's power domain would not turn on.
    ControllerPowerOnFailed,
    /// The controller's base clock could not be read.
    ClockQueryFailed,
    /// The chip never reported ready.
    OpCondTimeout,
    /// The chip's register window is not accessible.
    Function1NotReady,
    /// A core the firmware download needs is missing.
    CoreNotFound,
    /// The chip's firmware load address is not known.
    UnsupportedChip {
        /// What the chip reported itself as.
        chip_id: u32,
    },
    /// The memory the firmware was written into is not reachable.
    SocramNotUp,
    /// The firmware did not come alive.
    FirmwareNotReady,
    /// A data transfer stalled.
    DataStalled {
        /// Which wait timed out.
        stage: u8,
        /// The interrupt register at the timeout.
        interrupt: u32,
        /// The status register at the timeout.
        status: u32,
    },
}

/// Errors from the chip.
#[derive(Clone, Copy, Debug, PartialEq, Eq, Structural)]
pub enum Error {
    /// The SDIO link failed.
    Sdio(SdioError),
    /// A received frame header was malformed. The stream is back in step by
    /// the time this is reported.
    BadFrame {
        /// The length word from the header.
        len: u16,
        /// The word that should be its complement.
        len_check: u16,
        /// The channel the header names.
        channel: u8,
    },
    /// A command came back with this firmware status.
    CommandFailed(i32),
    /// No matching response arrived in time.
    NoResponse,
    /// A join did not lead to an association in time.
    NotAssociated,
    /// The firmware has no transmit credit left, or has paused the data
    /// channel. Transient.
    TxBusy,
    /// The frame is larger than [`MTU`].
    FrameTooLong,
    /// The firmware answered in an unknown layout.
    UnsupportedFormat {
        /// The version the firmware stamped on the answer.
        version: u16,
    },
}

/// How aggressively the radio may sleep between frames.
#[derive(Clone, Copy, Debug, PartialEq, Eq, Structural)]
pub enum PowerManagement {
    /// The receiver stays on.
    Off,
    /// The radio sleeps once a link has been idle briefly.
    Max,
    /// The radio only sleeps after a longer idle period. What the chip
    /// powers on in.
    Fast,
}

/// What a runner needs to put a lost association back by itself.
#[derive(Clone, Copy, Debug, PartialEq, Eq)]
pub struct Reconnect<'a> {
    /// The network to rejoin, the one joined at bring-up.
    pub ssid: &'a str,
    /// Its WPA2-PSK passphrase.
    pub passphrase: &'a str,
    /// Applied again after each association, since the firmware resets it on
    /// every one.
    pub power_management: PowerManagement,
}

} // verus!
