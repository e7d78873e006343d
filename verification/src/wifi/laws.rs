//! What the Wi-Fi runner's passes come to, event by event and over whole
//! runs of them.
//!
//! Spans are given in microseconds here, as the clock counts.

use super::radio::{Error, Reconnect};
use super::rounds::{goes_through, Action, Event, QueueOp, Rounds};
use super::telemetry::{LinkStats, RxStats, Telemetry, TxStats};
use super::watch::{on_network, Association, Watch};
use vstd::prelude::*;

verus! {

/// A count that has gone up by one, and wraps.
pub open spec fn one_more(before: u32, after: u32) -> bool {
    after == before + 1 || before == 0xffff_ffff && after == 0
}

/// Whether a runner that is through with everything else reads the counters
/// if that was wanted, which is then taken care of, and sleeps a millisecond
/// if not. Nothing else of the report changes.
pub open spec fn winds_up<'a, C>(
    action: Action<'a>,
    report: Telemetry<C>,
    telemetry: Telemetry<C>,
) -> bool {
    if telemetry.counters_wanted {
        &&& action is ReadCounters
        &&& report == Telemetry { counters_wanted: false, ..telemetry }
    } else {
        &&& action == Action::<'a>::Sleep(1_000)
        &&& report == telemetry
    }
}

/// Whether the association is looked at when it should be: when that is due
/// and, on a network, nothing has been received for ten seconds. On a
/// network the next look is then five seconds off.
pub open spec fn looks_or_winds_up<'a, C>(
    before: Watch<'a>,
    heard: u64,
    now: u64,
    telemetry: Telemetry<C>,
    next: Rounds<'a>,
    report: Telemetry<C>,
) -> bool {
    if now < before.due || before.state is Up && now - heard < 10_000_000 {
        &&& next.watch == before
        &&& winds_up(next.action, report, telemetry)
    } else {
        &&& next.action is Probe
        &&& report == telemetry
        &&& next.watch.state == before.state
        &&& next.watch.reconnect == before.reconnect
        &&& next.watch.due == if before.state is Up {
            now + 5_000_000
        } else {
            before.due as int
        }
    }
}

/// A runner starts on a network, five seconds from its first look at it,
/// having heard something just now, at the receive half of its first pass.
pub proof fn law_runner_starts_on_the_network<'a, C>(
    reconnect: Option<Reconnect<'a>>,
    now: u64,
    telemetry: Telemetry<C>,
)
    requires
        now <= u64::MAX - 15_000_000,
    ensures
        ({
            let rounds = Rounds::<'a>::starting(reconnect, now);
            let report = telemetry.on_network().another_pass();
            &&& rounds.watch.reconnect == reconnect
            &&& rounds.watch.state is Up
            &&& rounds.watch.due - now == 5_000_000
            &&& rounds.link_due == now
            &&& rounds.heard == now
            &&& rounds.quiet == 0
            &&& rounds.burst == 0
            &&& !rounds.received && !rounds.sent
            &&& rounds.action is TakeSlot
            &&& one_more(telemetry.passes, report.passes)
            &&& report == Telemetry { associated: true, passes: report.passes, ..telemetry }
        }),
{
}

/// Room in the stack's queue has the chip asked for a frame; no room ends
/// the drain, and nothing else changes for it.
pub proof fn law_full_queue_ends_the_drain<'a, C>(
    rounds: Rounds<'a>,
    telemetry: Telemetry<C>,
    free: bool,
)
    ensures
        ({
            let (next, report, op) = rounds.following(telemetry, Event::Slot(free));
            &&& next == Rounds {
                action: if free {
                    Action::Receive
                } else {
                    Action::TakeFrame
                },
                ..rounds
            }
            &&& report == telemetry
            &&& op is Keep
        }),
{
}

/// A frame that arrived is handed up at its own length and counted, and the
/// next is asked for until eight have arrived on the pass.
pub proof fn law_arrived_frame_is_handed_up<'a, C>(
    rounds: Rounds<'a>,
    telemetry: Telemetry<C>,
    len: usize,
)
    requires
        rounds.burst < 8,
    ensures
        ({
            let (next, report, op) = rounds.following(telemetry, Event::Received(Ok(Some(len))));
            &&& op == QueueOp::HandUp(len)
            &&& next.received
            &&& next.burst == rounds.burst + 1
            &&& rounds.burst < 7 ==> next.action is TakeSlot
            &&& rounds.burst == 7 ==> next.action is TakeFrame
            &&& next == Rounds {
                received: true,
                burst: next.burst,
                action: next.action,
                ..rounds
            }
            &&& one_more(telemetry.rx.frames, report.rx.frames)
            &&& report == Telemetry {
                rx: RxStats { frames: report.rx.frames, ..telemetry.rx },
                ..telemetry
            }
        }),
{
}

/// A chip that has nothing more ends the drain and takes back nothing of
/// what the pass has received so far. One that fails ends it too, but has
/// received something: the failure is counted and kept, and nothing is
/// handed up.
pub proof fn law_drain_ends_without_a_frame<'a, C>(
    rounds: Rounds<'a>,
    telemetry: Telemetry<C>,
    error: Error,
)
    ensures
        ({
            let (next, report, op) = rounds.following(telemetry, Event::Received(Ok(None)));
            &&& op is Keep
            &&& next == Rounds { action: Action::TakeFrame, ..rounds }
            &&& report == telemetry
        }),
        ({
            let (next, report, op) = rounds.following(telemetry, Event::Received(Err(error)));
            &&& op is Keep
            &&& next == Rounds { received: true, action: Action::TakeFrame, ..rounds }
            &&& one_more(telemetry.rx.errors, report.rx.errors)
            &&& report == Telemetry {
                rx: RxStats {
                    errors: report.rx.errors,
                    last_error: Some(error),
                    ..telemetry.rx
                },
                ..telemetry
            }
        }),
{
}

/// A queued frame is handed to the chip, and makes the pass one that found
/// something to send; none leads straight on to the clock.
pub proof fn law_queued_frame_is_transmitted<'a, C>(
    rounds: Rounds<'a>,
    telemetry: Telemetry<C>,
    queued: bool,
)
    ensures
        ({
            let (next, report, op) = rounds.following(telemetry, Event::Frame(queued));
            &&& next == Rounds {
                sent: queued,
                action: if queued {
                    Action::Transmit
                } else {
                    Action::ReadClock
                },
                ..rounds
            }
            &&& report == telemetry
            &&& op is Keep
        }),
{
}

/// Each answer to a transmit is counted as what it is: accepted, refused for
/// want of credit, or failed, and then kept as the last failure. All but a
/// refusal release the frame.
pub proof fn law_transmit_is_counted_as_it_went<'a, C>(
    rounds: Rounds<'a>,
    telemetry: Telemetry<C>,
    error: Error,
)
    requires
        !(error is TxBusy),
    ensures
        ({
            let (next, report, op) = rounds.following(telemetry, Event::Transmitted(Ok(())));
            &&& op is Release
            &&& next == Rounds { action: Action::ReadClock, ..rounds }
            &&& one_more(telemetry.tx.frames, report.tx.frames)
            &&& report == Telemetry {
                tx: TxStats { frames: report.tx.frames, ..telemetry.tx },
                ..telemetry
            }
        }),
        ({
            let (next, report, op) = rounds.following(
                telemetry,
                Event::Transmitted(Err(Error::TxBusy)),
            );
            &&& op is Keep
            &&& next == Rounds { action: Action::ReadClock, ..rounds }
            &&& one_more(telemetry.tx.busy_passes, report.tx.busy_passes)
            &&& report == Telemetry {
                tx: TxStats { busy_passes: report.tx.busy_passes, ..telemetry.tx },
                ..telemetry
            }
        }),
        ({
            let (next, report, op) = rounds.following(telemetry, Event::Transmitted(Err(error)));
            &&& op is Release
            &&& next == Rounds { action: Action::ReadClock, ..rounds }
            &&& one_more(telemetry.tx.failures, report.tx.failures)
            &&& report == Telemetry {
                tx: TxStats {
                    failures: report.tx.failures,
                    last_error: Some(error),
                    ..telemetry.tx
                },
                ..telemetry
            }
        }),
{
}

/// The clock settles what the pass was: one that received was heard now, one
/// that moved nothing makes one more quiet pass. After a hundred of those a
/// link sample is taken if the last is five seconds old; if not, the
/// association is looked at.
pub proof fn law_clock_settles_the_pass<'a, C>(
    rounds: Rounds<'a>,
    telemetry: Telemetry<C>,
    now: u64,
)
    requires
        now <= u64::MAX - 15_000_000,
        rounds.heard <= u64::MAX - 15_000_000,
    ensures
        ({
            let (next, report, op) = rounds.following(telemetry, Event::Clock(now));
            let heard = if rounds.received {
                now
            } else {
                rounds.heard
            };
            &&& op is Keep
            &&& next.heard == heard
            &&& rounds.received || rounds.sent ==> next.quiet == 0
            &&& !(rounds.received || rounds.sent) && rounds.quiet < 0xffff_ffff ==> next.quiet
                == rounds.quiet + 1
            &&& !(rounds.received || rounds.sent) && rounds.quiet == 0xffff_ffff ==> next.quiet
                == rounds.quiet
            &&& next.burst == rounds.burst
            &&& next.received == rounds.received
            &&& next.sent == rounds.sent
            &&& if next.quiet >= 100 && now >= rounds.link_due {
                &&& next.action is ReadLink
                &&& next.link_due - now == 5_000_000
                &&& next.watch == rounds.watch
                &&& report == telemetry
            } else {
                &&& next.link_due == rounds.link_due
                &&& looks_or_winds_up(rounds.watch, heard, now, telemetry, next, report)
            }
        }),
{
}

/// A link sample is taken from both figures or from neither, and the
/// association is looked at after it.
pub proof fn law_link_sample_takes_both_figures<'a, C>(
    rounds: Rounds<'a>,
    telemetry: Telemetry<C>,
    rssi_dbm: Result<i32, Error>,
    rate_kbps: Result<u32, Error>,
    now: u64,
)
    requires
        now <= u64::MAX - 15_000_000,
        rounds.heard <= u64::MAX - 15_000_000,
    ensures
        ({
            let (next, report, op) = rounds.following(
                telemetry,
                Event::LinkRead { rssi_dbm, rate_kbps, now },
            );
            &&& op is Keep
            &&& rssi_dbm is Err || rate_kbps is Err ==> report.link is None
            &&& rssi_dbm is Ok && rate_kbps is Ok ==> {
                &&& report.link matches Some(sample)
                &&& sample.rssi_dbm == rssi_dbm->Ok_0
                &&& sample.rate_kbps == rate_kbps->Ok_0
            }
            &&& next == Rounds { watch: next.watch, action: next.action, ..rounds }
            &&& looks_or_winds_up(
                rounds.watch,
                rounds.heard,
                now,
                Telemetry { link: report.link, ..telemetry },
                next,
                report,
            )
        }),
{
}

/// A probe that finds the network gone is a drop: counted once, announced,
/// and the last link sample gone with it. With credentials a join with just
/// those follows, and is counted; without them the pass winds up.
pub proof fn law_lost_network_is_a_drop<'a, C>(
    rounds: Rounds<'a>,
    telemetry: Telemetry<C>,
    bssid: Result<Option<[u8; 6]>, Error>,
    now: u64,
)
    requires
        now <= u64::MAX - 15_000_000,
        rounds.watch.state is Up,
        bssid is Err || bssid->Ok_0 is None,
    ensures
        ({
            let (next, report, op) = rounds.following(telemetry, Event::Probed { bssid, now });
            let dropped = Telemetry {
                associated: false,
                link: None,
                link_stats: LinkStats {
                    drops: report.link_stats.drops,
                    ..telemetry.link_stats
                },
                ..telemetry
            };
            &&& op == QueueOp::Announce(false)
            &&& one_more(telemetry.link_stats.drops, report.link_stats.drops)
            &&& next.watch.state is Down
            &&& next.watch.reconnect == rounds.watch.reconnect
            &&& next == Rounds { watch: next.watch, action: next.action, ..rounds }
            &&& match rounds.watch.reconnect {
                Some(reconnect) => {
                    &&& next.action == Action::Join(reconnect)
                    &&& one_more(telemetry.link_stats.joins, report.link_stats.joins)
                    &&& report == Telemetry { link_stats: report.link_stats, ..dropped }
                },
                None => {
                    &&& next.watch.due - now == 5_000_000
                    &&& winds_up(next.action, report, dropped)
                },
            }
        }),
{
}

/// A probe that finds the network still gone is no second drop and is not
/// announced again. A join under way is left to its deadline; where there is
/// none, another is issued and counted, given the credentials.
pub proof fn law_missing_network_is_rejoined<'a, C>(
    rounds: Rounds<'a>,
    telemetry: Telemetry<C>,
    bssid: Result<Option<[u8; 6]>, Error>,
    now: u64,
)
    requires
        now <= u64::MAX - 15_000_000,
        !(rounds.watch.state is Up),
        bssid is Err || bssid->Ok_0 is None,
    ensures
        ({
            let (next, report, op) = rounds.following(telemetry, Event::Probed { bssid, now });
            &&& op is Keep
            &&& next.watch.reconnect == rounds.watch.reconnect
            &&& next == Rounds { watch: next.watch, action: next.action, ..rounds }
            &&& match (rounds.watch.state, rounds.watch.reconnect) {
                (Association::Joining { deadline }, _) => {
                    &&& winds_up(next.action, report, telemetry)
                    &&& now < deadline ==> next.watch.state == rounds.watch.state
                        && next.watch.due - now == 250_000
                    &&& now >= deadline ==> next.watch.state is Down && next.watch.due - now
                        == 10_000_000
                },
                (_, Some(reconnect)) => {
                    &&& next.action == Action::Join(reconnect)
                    &&& next.watch == rounds.watch
                    &&& one_more(telemetry.link_stats.joins, report.link_stats.joins)
                    &&& report == Telemetry {
                        link_stats: LinkStats {
                            joins: report.link_stats.joins,
                            ..telemetry.link_stats
                        },
                        ..telemetry
                    }
                },
                (_, None) => {
                    &&& next.watch.state is Down
                    &&& next.watch.due - now == 5_000_000
                    &&& winds_up(next.action, report, telemetry)
                },
            }
        }),
{
}

/// A probe that finds a network is no news where it was known, and the pass
/// winds up. Where it was not, the report and the stack have it at once, or
/// once the power management has been put back where there are credentials.
pub proof fn law_found_network_is_news_once<'a, C>(
    rounds: Rounds<'a>,
    telemetry: Telemetry<C>,
    address: [u8; 6],
    now: u64,
)
    requires
        now <= u64::MAX - 15_000_000,
    ensures
        ({
            let (next, report, op) = rounds.following(
                telemetry,
                Event::Probed { bssid: Ok(Some(address)), now },
            );
            &&& next == Rounds { watch: next.watch, action: next.action, ..rounds }
            &&& match (rounds.watch.state, rounds.watch.reconnect) {
                (Association::Up, _) => {
                    &&& op is Keep
                    &&& next.watch == rounds.watch
                    &&& winds_up(next.action, report, telemetry)
                },
                (_, Some(reconnect)) => {
                    &&& op is Keep
                    &&& next.watch == rounds.watch
                    &&& next.action == Action::<'a>::SetPowerManagement(
                        reconnect.power_management,
                    )
                    &&& report == telemetry
                },
                (_, None) => {
                    &&& op == QueueOp::Announce(true)
                    &&& next.watch.state is Up
                    &&& next.watch.due - now == 5_000_000
                    &&& next.watch.reconnect is None
                    &&& winds_up(
                        next.action,
                        report,
                        Telemetry { associated: true, ..telemetry },
                    )
                },
            }
        }),
{
    assert(on_network(Ok(Some(address))));
}

/// A join the chip took is waited on for fifteen seconds, looked at every
/// quarter of one; one it refused is left for ten. Neither is news to the
/// stack.
pub proof fn law_issued_join_is_waited_on<'a, C>(
    rounds: Rounds<'a>,
    telemetry: Telemetry<C>,
    result: Result<(), Error>,
    now: u64,
)
    requires
        now <= u64::MAX - 15_000_000,
    ensures
        ({
            let (next, report, op) = rounds.following(
                telemetry,
                Event::JoinIssued { result, now },
            );
            &&& op is Keep
            &&& winds_up(next.action, report, telemetry)
            &&& next == Rounds { watch: next.watch, action: next.action, ..rounds }
            &&& next.watch.reconnect == rounds.watch.reconnect
            &&& result is Ok ==> {
                &&& next.watch.state matches Association::Joining { deadline }
                &&& deadline - now == 15_000_000
                &&& next.watch.due - now == 250_000
            }
            &&& result is Err ==> next.watch.state is Down && next.watch.due - now == 10_000_000
        }),
{
}

/// With the power management put back the network is on report, the stack is
/// told, and the next look is five seconds off.
pub proof fn law_restored_network_is_announced<'a, C>(
    rounds: Rounds<'a>,
    telemetry: Telemetry<C>,
    now: u64,
)
    requires
        now <= u64::MAX - 15_000_000,
    ensures
        ({
            let (next, report, op) = rounds.following(
                telemetry,
                Event::PowerManagementSet { now },
            );
            &&& op == QueueOp::Announce(true)
            &&& next == Rounds { watch: next.watch, action: next.action, ..rounds }
            &&& next.watch.reconnect == rounds.watch.reconnect
            &&& next.watch.state is Up
            &&& next.watch.due - now == 5_000_000
            &&& winds_up(next.action, report, Telemetry { associated: true, ..telemetry })
        }),
{
}

/// A reading of the counters is kept as the chip gave it, a failure too, and
/// the runner sleeps a millisecond. Waking begins another pass, counted,
/// with nothing received or sent on it yet.
pub proof fn law_pass_ends_and_begins<'a, C>(
    rounds: Rounds<'a>,
    telemetry: Telemetry<C>,
    reading: Result<C, Error>,
)
    ensures
        ({
            let (next, report, op) = rounds.following(telemetry, Event::CountersRead(reading));
            &&& op is Keep
            &&& next == Rounds { action: Action::Sleep(1_000), ..rounds }
            &&& report == Telemetry { counters: Some(reading), ..telemetry }
        }),
        ({
            let (next, report, op) = rounds.following(telemetry, Event::<C>::Woke);
            &&& op is Keep
            &&& next == Rounds {
                burst: 0,
                received: false,
                sent: false,
                action: Action::TakeSlot,
                ..rounds
            }
            &&& one_more(telemetry.passes, report.passes)
            &&& report == Telemetry { passes: report.passes, ..telemetry }
        }),
{
}

/// Every action takes the answer that belongs to it, whatever that says, so
/// long as a frame fits its slot and the clock has fifteen seconds left.
pub proof fn law_every_answer_is_taken<'a, C>(
    rounds: Rounds<'a>,
    flag: bool,
    received: Result<Option<usize>, Error>,
    result: Result<(), Error>,
    rssi_dbm: Result<i32, Error>,
    rate_kbps: Result<u32, Error>,
    bssid: Result<Option<[u8; 6]>, Error>,
    reading: Result<C, Error>,
    now: u64,
)
    requires
        now <= u64::MAX - 15_000_000,
        rounds.heard <= u64::MAX - 15_000_000,
    ensures
        match rounds.action {
            Action::TakeSlot => rounds.expects(Event::<C>::Slot(flag)),
            Action::Receive => rounds.expects(Event::<C>::Received(received)) <==> !(received
                is Ok && received->Ok_0 is Some && received->Ok_0->0 > 1514),
            Action::TakeFrame => rounds.expects(Event::<C>::Frame(flag)),
            Action::Transmit => rounds.expects(Event::<C>::Transmitted(result)),
            Action::ReadClock => rounds.expects(Event::<C>::Clock(now)),
            Action::ReadLink => rounds.expects(
                Event::<C>::LinkRead { rssi_dbm, rate_kbps, now },
            ),
            Action::Probe => rounds.expects(Event::<C>::Probed { bssid, now }),
            Action::Join(_) => rounds.expects(Event::<C>::JoinIssued { result, now }),
            Action::SetPowerManagement(_) => rounds.expects(
                Event::<C>::PowerManagementSet { now },
            ),
            Action::ReadCounters => rounds.expects(Event::<C>::CountersRead(reading)),
            Action::Sleep(_) => rounds.expects(Event::<C>::Woke),
        },
{
}

/// What a pass has received it keeps: the flag goes up and not down before
/// the next pass.
proof fn lemma_received_is_kept<'a, C>(
    stops: Seq<Rounds<'a>>,
    reports: Seq<Telemetry<C>>,
    events: Seq<Event<C>>,
    i: int,
    j: int,
)
    requires
        goes_through(stops, reports, events),
        0 <= i <= j <= events.len(),
        stops[i].received,
        forall|n: int| i <= n < j ==> !((#[trigger] events[n]) is Woke),
    ensures
        stops[j].received,
    decreases j - i,
{
    if i < j {
        lemma_received_is_kept(stops, reports, events, i, j - 1);
        assert(stops[j - 1].expects(events[j - 1]));
        assert(!(events[j - 1] is Woke));
    }
}

/// One receive is enough: if any receive of a pass brought a frame or failed,
/// then whatever the later ones brought, the runner has heard something when
/// the pass reads the clock. That reading is when it last heard anything, the
/// pass is not a quiet one, no link sample is taken, and a network it is on
/// is not probed.
pub proof fn law_one_receive_makes_the_pass_heard<'a, C>(
    stops: Seq<Rounds<'a>>,
    reports: Seq<Telemetry<C>>,
    events: Seq<Event<C>>,
    i: int,
    j: int,
    now: u64,
)
    requires
        goes_through(stops, reports, events),
        0 <= i < j < events.len(),
        events[i] matches Event::Received(result) && (result is Err || result->Ok_0 is Some),
        forall|n: int| i < n < j ==> !((#[trigger] events[n]) is Woke),
        events[j] == Event::<C>::Clock(now),
    ensures
        stops[j + 1].heard == now,
        stops[j + 1].quiet == 0,
        !(stops[j + 1].action is ReadLink),
        stops[j].watch.state is Up ==> !(stops[j + 1].action is Probe),
        forall|n: int| i < n <= j ==> (#[trigger] stops[n]).received,
{
    assert(stops[i].expects(events[i]));
    assert(stops[i + 1].received);
    assert forall|n: int| i < n <= j implies (#[trigger] stops[n]).received by {
        lemma_received_is_kept(stops, reports, events, i + 1, n);
    }
    assert(stops[j].expects(events[j]));
}

/// What a pass found to send it keeps too.
proof fn lemma_sent_is_kept<'a, C>(
    stops: Seq<Rounds<'a>>,
    reports: Seq<Telemetry<C>>,
    events: Seq<Event<C>>,
    i: int,
    j: int,
)
    requires
        goes_through(stops, reports, events),
        0 <= i <= j <= events.len(),
        stops[i].sent,
        stops[i].action is Transmit || stops[i].action is ReadClock,
        forall|n: int|
            i <= n < j ==> !((#[trigger] events[n]) is Woke) && !(events[n] is Clock),
    ensures
        stops[j].sent,
        stops[j].action is Transmit || stops[j].action is ReadClock,
    decreases j - i,
{
    if i < j {
        lemma_sent_is_kept(stops, reports, events, i, j - 1);
        assert(stops[j - 1].expects(events[j - 1]));
        assert(!(events[j - 1] is Woke) && !(events[j - 1] is Clock));
    }
}

/// A frame to send makes the pass a busy one, whether or not the chip takes
/// it.
pub proof fn law_frame_to_send_makes_the_pass_busy<'a, C>(
    stops: Seq<Rounds<'a>>,
    reports: Seq<Telemetry<C>>,
    events: Seq<Event<C>>,
    i: int,
    j: int,
    now: u64,
)
    requires
        goes_through(stops, reports, events),
        0 <= i < j < events.len(),
        events[i] == Event::<C>::Frame(true),
        forall|n: int|
            i < n < j ==> !((#[trigger] events[n]) is Woke) && !(events[n] is Clock),
        events[j] == Event::<C>::Clock(now),
    ensures
        stops[j + 1].quiet == 0,
        !(stops[j + 1].action is ReadLink),
{
    assert(stops[i].expects(events[i]));
    lemma_sent_is_kept(stops, reports, events, i + 1, j);
    assert(stops[j].expects(events[j]));
}

/// A pass that has moved nothing so far has left the quiet count and the
/// last-heard instant as they were.
proof fn lemma_idle_changes_nothing<'a, C>(
    stops: Seq<Rounds<'a>>,
    reports: Seq<Telemetry<C>>,
    events: Seq<Event<C>>,
    i: int,
    j: int,
)
    requires
        goes_through(stops, reports, events),
        0 <= i <= j <= events.len(),
        !stops[i].received && !stops[i].sent,
        forall|n: int|
            i <= n < j ==> {
                &&& !((#[trigger] events[n]) is Woke) && !(events[n] is Clock)
                &&& events[n] matches Event::Received(result) ==> result is Ok && result->Ok_0
                    is None
                &&& events[n] matches Event::Frame(queued) ==> !queued
            },
    ensures
        !stops[j].received && !stops[j].sent,
        stops[j].heard == stops[i].heard,
        stops[j].quiet == stops[i].quiet,
    decreases j - i,
{
    if i < j {
        lemma_idle_changes_nothing(stops, reports, events, i, j - 1);
        assert(stops[j - 1].expects(events[j - 1]));
        assert(!(events[j - 1] is Woke));
    }
}

/// A pass on which the chip had nothing and the stack had nothing is one
/// more quiet pass, and hears nothing.
pub proof fn law_idle_pass_is_a_quiet_one<'a, C>(
    stops: Seq<Rounds<'a>>,
    reports: Seq<Telemetry<C>>,
    events: Seq<Event<C>>,
    i: int,
    j: int,
    now: u64,
)
    requires
        goes_through(stops, reports, events),
        0 <= i < j < events.len(),
        events[i] is Woke,
        forall|n: int|
            i < n < j ==> {
                &&& !((#[trigger] events[n]) is Woke) && !(events[n] is Clock)
                &&& events[n] matches Event::Received(result) ==> result is Ok && result->Ok_0
                    is None
                &&& events[n] matches Event::Frame(queued) ==> !queued
            },
        events[j] == Event::<C>::Clock(now),
    ensures
        stops[j + 1].heard == stops[i].heard,
        stops[i].quiet < 0xffff_ffff ==> stops[j + 1].quiet == stops[i].quiet + 1,
        stops[i].quiet == 0xffff_ffff ==> stops[j + 1].quiet == stops[i].quiet,
{
    assert(stops[i].expects(events[i]));
    lemma_idle_changes_nothing(stops, reports, events, i + 1, j);
    assert(stops[j].expects(events[j]));
}

/// On a clock that has reached `since` and does not run backwards, the
/// last-heard instant does not either.
proof fn lemma_heard_does_not_go_back<'a, C>(
    stops: Seq<Rounds<'a>>,
    reports: Seq<Telemetry<C>>,
    events: Seq<Event<C>>,
    since: u64,
    i: int,
    j: int,
)
    requires
        goes_through(stops, reports, events),
        0 <= i <= j <= events.len(),
        stops[i].heard >= since,
        forall|n: int|
            i <= n < j ==> ((#[trigger] events[n]).reading() matches Some(now) ==> now >= since),
    ensures
        stops[j].heard >= since,
    decreases j - i,
{
    if i < j {
        lemma_heard_does_not_go_back(stops, reports, events, since, i, j - 1);
        assert(stops[j - 1].expects(events[j - 1]));
        assert(events[j - 1].reading() matches Some(now) ==> now >= since);
    }
}

/// A network that anything was received from is left alone for ten seconds:
/// if a receive of a pass brought something and the pass read the clock at
/// `heard`, no reading within ten seconds of that leads to a probe while the
/// network is up. The clock does not run backwards.
pub proof fn law_network_is_left_alone_while_heard<'a, C>(
    stops: Seq<Rounds<'a>>,
    reports: Seq<Telemetry<C>>,
    events: Seq<Event<C>>,
    i: int,
    j: int,
    k: int,
    heard: u64,
    now: u64,
)
    requires
        goes_through(stops, reports, events),
        0 <= i < j <= k < events.len(),
        events[i] matches Event::Received(result) && (result is Err || result->Ok_0 is Some),
        forall|n: int| i < n < j ==> !((#[trigger] events[n]) is Woke),
        events[j] == Event::<C>::Clock(heard),
        forall|n: int|
            j <= n <= k ==> ((#[trigger] events[n]).reading() matches Some(read) ==> read
                >= heard),
        events[k].reading() == Some(now),
        now < heard + 10_000_000,
        stops[k].watch.state is Up,
    ensures
        !(stops[k + 1].action is Probe),
{
    law_one_receive_makes_the_pass_heard(stops, reports, events, i, j, heard);
    assert(stops[k].expects(events[k]));
    if k > j {
        lemma_heard_does_not_go_back(stops, reports, events, heard, j + 1, k);
    }
}

/// What a runner knows of itself between two actions: the drain is at most
/// eight frames long, and is not waited for past that; the chip is told to
/// join with the credentials the runner has, and only off the network; and
/// power management is put back to what they say, only off it too.
pub proof fn law_runner_keeps_its_bounds<'a>(rounds: Rounds<'a>)
    requires
        rounds.wf(),
    ensures
        rounds.burst <= 8,
        rounds.action is TakeSlot || rounds.action is Receive ==> rounds.burst < 8,
        rounds.action matches Action::Join(reconnect) ==> rounds.watch.reconnect == Some(reconnect)
            && !(rounds.watch.state is Up),
        rounds.action matches Action::SetPowerManagement(mode) ==> {
            &&& rounds.watch.reconnect is Some
            &&& rounds.watch.reconnect->0.power_management == mode
            &&& !(rounds.watch.state is Up)
        },
{
}

} // verus!
