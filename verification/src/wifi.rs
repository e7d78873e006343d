//! The decisions of the Wi-Fi runner, which moves frames between the
//! network stack's packet queues and the radio.
//!
//! `embassy_net_driver`'s `receive` and `transmit` are synchronous, so there
//! is nowhere inside them to do the chip's work. The stack therefore sees a
//! pair of packet queues ([`WifiDriver`]), and the bus work belongs to a
//! task on the far side of them ([`WifiRunner`]). Build both with [`new`].
//!
//! # Receive drains, transmit waits its turn
//!
//! Each pass empties the chip's receive FIFO, up to a bound, before it sends
//! anything. The firmware gates transmits on a credit window it advances in
//! the headers of received frames, so a runner that favoured transmit would
//! run itself out of credit. A transmit refused for want of credit leaves
//! the frame where it is and tries again next pass.
//!
//! # Losing the network, and getting it back
//!
//! The runner watches the association and, given a [`Reconnect`], rejoins by
//! itself. What it watches is the firmware's own answer to whether it is on
//! a network. Asking costs a control command, and the chip drops data frames
//! that arrive while it waits for the reply, so the question is put only to
//! a radio that has received nothing for a while. The stack is told that the
//! link is down for as long as it is.
//!
//! - [`radio`] holds what is exchanged with the chip.
//! - [`telemetry`] holds what the runner has seen since boot.
//! - [`watch`] decides when to ask about the association and when to rejoin.
//! - [`rounds`] orders everything one pass of the runner does.
//! - [`queues`] ties the rounds to the stack's packet queues.
//! - [`laws`] says what the passes come to.

/// What the passes come to, event by event and over whole runs.
pub mod laws;
/// The stack's packet queues, and the runner at work on them.
pub mod queues;
/// What is exchanged with the chip.
pub mod radio;
/// What one pass does, and in what order.
pub mod rounds;
/// What the runner has seen since boot.
pub mod telemetry;
/// When the association is asked about, and what is done about the answer.
pub mod watch;

pub use queues::{attach, new, Running, WifiDriver, WifiRunner, WifiState};
pub use radio::{Error, PowerManagement, Reconnect, SdioError, MTU};
pub use rounds::{Action, Event, QueueOp, Rounds};
pub use telemetry::{
    associated, counters, link, link_stats, passes, request_counters, rx_stats, tx_stats, Link,
    LinkStats, RxStats, Telemetry, TxStats,
};
pub use watch::{probe, Association, Verdict, Watch};
