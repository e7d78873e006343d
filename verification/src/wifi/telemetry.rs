//! What the Wi-Fi runner has seen since boot, for the rest of the
//! application to read.
//!
//! Counters rather than log lines: printing each failed frame costs more
//! time than the receive it reports on. They wrap.

use super::radio::Error;
use vstd::prelude::*;

verus! {

/// What the radio last reported about the link it is on.
#[derive(Clone, Copy, Debug, PartialEq, Eq, Structural)]
pub struct Link {
    /// Received signal strength in dBm: negative, and closer to zero is
    /// stronger.
    pub rssi_dbm: i32,
    /// The negotiated rate in kbit/s, which is a ceiling and not an
    /// achievement.
    pub rate_kbps: u32,
}

/// What the runner has seen of the association since boot.
#[derive(Clone, Copy, Debug, PartialEq, Eq, Structural)]
pub struct LinkStats {
    /// Times the association has gone away.
    pub drops: u32,
    /// Joins issued to get it back, which is zero on a runner that was never
    /// given anything to rejoin with.
    pub joins: u32,
}

/// What the receive half has managed since boot.
#[derive(Clone, Copy, Debug, PartialEq, Eq, Structural)]
pub struct RxStats {
    /// Frames handed to the stack.
    pub frames: u32,
    /// Receives that failed.
    pub errors: u32,
    /// Why the most recent receive failed, or `None` if none has.
    pub last_error: Option<Error>,
}

/// What the transmit half has managed since boot.
#[derive(Clone, Copy, Debug, PartialEq, Eq, Structural)]
pub struct TxStats {
    /// Frames the chip accepted.
    pub frames: u32,
    /// Passes that found a frame queued and the firmware unwilling to take
    /// it. Passes, not frames: one frame is counted once per pass until it
    /// goes out.
    pub busy_passes: u32,
    /// Frames dropped because sending them failed for a reason retrying
    /// would not fix.
    pub failures: u32,
    /// Why the most recent failure failed, or `None` if none has.
    pub last_error: Option<Error>,
}

/// Everything the runner reports. `C` is what the firmware's counters read
/// as.
#[derive(Debug)]
pub struct Telemetry<C> {
    /// Whether the runner last saw the chip on a network.
    pub associated: bool,
    /// The most recent link sample.
    pub link: Option<Link>,
    /// Drops and joins.
    pub link_stats: LinkStats,
    /// Passes of the runner.
    pub passes: u32,
    /// Whether a counters reading has been asked for.
    pub counters_wanted: bool,
    /// The most recent counters reading, empty until one has been
    /// attempted.
    pub counters: Option<Result<C, Error>>,
    /// The receive half.
    pub rx: RxStats,
    /// The transmit half.
    pub tx: TxStats,
}

impl<C> Telemetry<C> {
    /// What there is to report before a runner has started.
    pub open spec fn at_boot() -> Telemetry<C> {
        Telemetry {
            associated: false,
            link: None,
            link_stats: LinkStats { drops: 0, joins: 0 },
            passes: 0,
            counters_wanted: false,
            counters: None,
            rx: RxStats { frames: 0, errors: 0, last_error: None },
            tx: TxStats { frames: 0, busy_passes: 0, failures: 0, last_error: None },
        }
    }

    /// The report once a counters reading has been asked for.
    pub open spec fn asked(self) -> Telemetry<C> {
        Telemetry { counters: None, counters_wanted: true, ..self }
    }

    /// Nothing seen yet.
    pub fn new() -> (telemetry: Telemetry<C>)
        ensures
            telemetry == Telemetry::<C>::at_boot(),
    {
        Telemetry {
            associated: false,
            link: None,
            link_stats: LinkStats { drops: 0, joins: 0 },
            passes: 0,
            counters_wanted: false,
            counters: None,
            rx: RxStats { frames: 0, errors: 0, last_error: None },
            tx: TxStats { frames: 0, busy_passes: 0, failures: 0, last_error: None },
        }
    }
}

/// What the radio last reported about the link: `None` before the first
/// sample, and again if the chip stops answering or the network goes away.
pub fn link<C>(telemetry: &Telemetry<C>) -> (sample: Option<Link>)
    ensures
        sample == telemetry.link,
{
    telemetry.link
}

/// Whether the chip is on a network, as of the runner's last look: true from
/// the moment a runner starts, and false once a probe finds the association
/// gone, until one finds it back.
pub fn associated<C>(telemetry: &Telemetry<C>) -> (on_network: bool)
    ensures
        on_network == telemetry.associated,
{
    telemetry.associated
}

/// What the runner has seen of the association.
pub fn link_stats<C>(telemetry: &Telemetry<C>) -> (stats: LinkStats)
    ensures
        stats == telemetry.link_stats,
{
    telemetry.link_stats
}

/// Asks the runner to read the firmware's counters on its next pass, and
/// clears whatever was there, so that [`counters`] answering with something
/// means a reading taken since.
///
/// The reading costs a control round trip, during which the chip drops data
/// frames, so it is not for the middle of a transfer that is being measured.
pub fn request_counters<C>(telemetry: &mut Telemetry<C>)
    ensures
        *final(telemetry) == old(telemetry).asked(),
{
    telemetry.counters = None;
    telemetry.counters_wanted = true;
}

/// What came of the reading [`request_counters`] asked for: `None` until the
/// runner has attempted it, and whatever the chip said after that.
pub fn counters<C: Copy>(telemetry: &Telemetry<C>) -> (reading: Option<Result<C, Error>>)
    ensures
        reading == telemetry.counters,
{
    telemetry.counters
}

/// Times the runner has been round its loop.
pub fn passes<C>(telemetry: &Telemetry<C>) -> (count: u32)
    ensures
        count == telemetry.passes,
{
    telemetry.passes
}

/// What the receive half has managed.
pub fn rx_stats<C>(telemetry: &Telemetry<C>) -> (stats: RxStats)
    ensures
        stats == telemetry.rx,
{
    telemetry.rx
}

/// What the transmit half has managed.
pub fn tx_stats<C>(telemetry: &Telemetry<C>) -> (stats: TxStats)
    ensures
        stats == telemetry.tx,
{
    telemetry.tx
}

/// Before a runner has started there is nothing to report: no network, no
/// sample, no reading, and every count at nought.
pub proof fn law_nothing_to_report_at_boot<C>()
    ensures
        ({
            let boot = Telemetry::<C>::at_boot();
            &&& !boot.associated
            &&& boot.link is None
            &&& boot.link_stats.drops == 0 && boot.link_stats.joins == 0
            &&& boot.passes == 0
            &&& !boot.counters_wanted && boot.counters is None
            &&& boot.rx.frames == 0 && boot.rx.errors == 0 && boot.rx.last_error is None
            &&& boot.tx.frames == 0 && boot.tx.busy_passes == 0 && boot.tx.failures == 0
                && boot.tx.last_error is None
        }),
{
}

/// Asking for a reading clears the last one and touches nothing else of the
/// report.
pub proof fn law_asking_clears_the_last_reading<C>(telemetry: Telemetry<C>)
    ensures
        telemetry.asked().counters is None,
        telemetry.asked().counters_wanted,
        telemetry.asked().associated == telemetry.associated,
        telemetry.asked().link == telemetry.link,
        telemetry.asked().link_stats == telemetry.link_stats,
        telemetry.asked().passes == telemetry.passes,
        telemetry.asked().rx == telemetry.rx,
        telemetry.asked().tx == telemetry.tx,
{
}

} // verus!
