//! The verified core of Embassy support for Raspberry Pi boards.
//!
//! Everything this crate decides is decided here, on plain values: which
//! deadline to arm, which interrupt source to service, what a USB transfer
//! does next, how long to wait before it is tried again, and what the Wi-Fi
//! runner asks of the radio. The hardware itself is driven from outside:
//! each state machine hands out an action, the caller performs it on the
//! peripheral and hands back what came of it.

/// Which pending interrupt lines lead to which handlers.
pub mod irq;
/// Tick arithmetic at the System Timer's fixed rate.
pub mod ticks;
/// The `embassy-time` driver's queue and alarm.
pub mod time_driver;
/// The USB host controller's decisions.
pub mod usb;
/// The Wi-Fi runner's decisions.
pub mod wifi;

/// `embassy-net-driver-channel`, for an application that builds the queue
/// pair [`wifi::attach`] takes itself.
pub use embassy_net_driver_channel as channel;
