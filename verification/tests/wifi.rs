use std::task::{Context, Waker};

use embassy_net_driver::{Driver, HardwareAddress, LinkState, RxToken, TxToken};
use embassy_net_driver_channel as ch;
use rpi_hal_embassy::wifi::{
    associated, attach, counters, link, link_stats, new, passes, probe, request_counters, rx_stats,
    tx_stats, Action, Association, Error, Event, Link, LinkStats, PowerManagement, QueueOp,
    Reconnect, Rounds, Running, RxStats, SdioError, Telemetry, TxStats, Verdict, Watch,
    WifiDriver, WifiState, MTU,
};

const SECOND: u64 = 1_000_000;
const MAC: [u8; 6] = [0xb8, 0x27, 0xeb, 1, 2, 3];
const BSSID: Result<Option<[u8; 6]>, Error> = Ok(Some([9; 6]));
const OFF: Result<Option<[u8; 6]>, Error> = Ok(None);
const HOME: Reconnect<'static> = Reconnect {
    ssid: "home",
    passphrase: "hunter22",
    power_management: PowerManagement::Off,
};

fn told_up(device: &mut WifiDriver<'_>) -> bool {
    let mut context = Context::from_waker(Waker::noop());
    device.link_state(&mut context) == LinkState::Up
}

fn queue(device: &mut WifiDriver<'_>, bytes: &[u8]) -> bool {
    let mut context = Context::from_waker(Waker::noop());
    match device.transmit(&mut context) {
        Some(token) => {
            token.consume(bytes.len(), |buffer| buffer.copy_from_slice(bytes));
            true
        }
        None => false,
    }
}

fn arrived(device: &mut WifiDriver<'_>) -> Option<Vec<u8>> {
    let mut context = Context::from_waker(Waker::noop());
    let (token, _) = device.receive(&mut context)?;
    Some(token.consume(|buffer| buffer.to_vec()))
}

// One pass over a radio with nothing to say, up to its sleep.
fn idle_pass(running: &mut Running<'_>, telemetry: &mut Telemetry<u32>, now: u64) {
    assert_eq!(running.action(), Action::Receive);
    assert_eq!(running.step(telemetry, Event::Received(Ok(None))), Action::ReadClock);
    assert_eq!(running.step(telemetry, Event::Clock(now)), Action::Sleep(1_000));
    running.step(telemetry, Event::Woke);
}

#[test]
fn nothing_is_reported_before_a_runner_starts() {
    let telemetry: Telemetry<u32> = Telemetry::new();
    assert!(!associated(&telemetry));
    assert_eq!(link(&telemetry), None);
    assert_eq!(link_stats(&telemetry), LinkStats { drops: 0, joins: 0 });
    assert_eq!(passes(&telemetry), 0);
    assert!(counters(&telemetry).is_none());
    assert_eq!(rx_stats(&telemetry), RxStats { frames: 0, errors: 0, last_error: None });
    assert_eq!(
        tx_stats(&telemetry),
        TxStats { frames: 0, busy_passes: 0, failures: 0, last_error: None }
    );
}

#[test]
fn the_stack_sees_the_address_and_a_link_that_comes_up_with_the_runner() {
    let mut state: WifiState<2, 2> = WifiState::new();
    let (mut device, runner) = new(&mut state, MAC);
    assert_eq!(device.hardware_address(), HardwareAddress::Ethernet(MAC));
    assert_eq!(device.capabilities().max_transmission_unit, MTU);
    assert!(!told_up(&mut device));
    let mut telemetry: Telemetry<u32> = Telemetry::new();
    let running = runner.run(0, &mut telemetry);
    assert!(told_up(&mut device));
    assert!(associated(&telemetry));
    assert_eq!(passes(&telemetry), 1);
    assert_eq!(running.action(), Action::Receive);
}

#[test]
fn a_runner_attaches_to_a_queue_pair_built_elsewhere() {
    let mut state: ch::State<MTU, 1, 1> = ch::State::new();
    let (runner, mut device) = ch::new(&mut state, HardwareAddress::Ethernet(MAC));
    let runner = attach(runner);
    assert_eq!(runner.reconnect, None);
    let runner = runner.reconnecting(HOME);
    assert_eq!(runner.reconnect, Some(HOME));
    let mut telemetry: Telemetry<u32> = Telemetry::new();
    runner.run(0, &mut telemetry);
    assert!(told_up(&mut device));
}

#[test]
fn received_frames_reach_the_stack_in_order() {
    let mut state: WifiState<4, 1> = WifiState::default();
    let (mut device, runner) = new(&mut state, MAC);
    let mut telemetry: Telemetry<u32> = Telemetry::new();
    let mut running = runner.run(0, &mut telemetry);
    for frame in [[1u8, 2, 3], [4, 5, 6]] {
        running.rx_buffer().unwrap()[..3].copy_from_slice(&frame);
        assert_eq!(
            running.step(&mut telemetry, Event::Received(Ok(Some(3)))),
            Action::Receive
        );
    }
    assert_eq!(running.rx_buffer().unwrap().len(), MTU);
    assert!(running.tx_frame().is_none());
    assert_eq!(running.step(&mut telemetry, Event::Received(Ok(None))), Action::ReadClock);
    assert!(running.rx_buffer().is_none());
    assert_eq!(rx_stats(&telemetry).frames, 2);
    assert_eq!(arrived(&mut device), Some(vec![1, 2, 3]));
    assert_eq!(arrived(&mut device), Some(vec![4, 5, 6]));
    assert_eq!(arrived(&mut device), None);
}

#[test]
fn a_full_queue_ends_the_drain() {
    let mut state: WifiState<1, 1> = WifiState::new();
    let (mut device, runner) = new(&mut state, MAC);
    let mut telemetry: Telemetry<u32> = Telemetry::new();
    let mut running = runner.run(0, &mut telemetry);
    assert_eq!(
        running.step(&mut telemetry, Event::Received(Ok(Some(60)))),
        Action::ReadClock
    );
    running.step(&mut telemetry, Event::Clock(1_000));
    assert_eq!(running.step(&mut telemetry, Event::Woke), Action::ReadClock);
    assert!(arrived(&mut device).is_some());
    running.step(&mut telemetry, Event::Clock(2_000));
    assert_eq!(running.step(&mut telemetry, Event::Woke), Action::Receive);
}

#[test]
fn a_drain_stops_at_its_bound() {
    let mut telemetry: Telemetry<u32> = Telemetry::new();
    let (mut rounds, op) = Rounds::start(None, 0, &mut telemetry);
    assert_eq!(op, QueueOp::Announce(true));
    for frame in 0..8 {
        assert_eq!(rounds.action, Action::TakeSlot);
        rounds.step(&mut telemetry, Event::Slot(true));
        assert_eq!(rounds.action, Action::Receive);
        let op = rounds.step(&mut telemetry, Event::Received(Ok(Some(100 + frame))));
        assert_eq!(op, QueueOp::HandUp(100 + frame));
    }
    assert_eq!(rounds.action, Action::TakeFrame);
    assert_eq!(rx_stats(&telemetry).frames, 8);
}

#[test]
fn a_receive_error_is_counted_and_ends_the_drain() {
    let mut telemetry: Telemetry<u32> = Telemetry::new();
    let (mut rounds, _) = Rounds::start(None, 0, &mut telemetry);
    rounds.step(&mut telemetry, Event::Slot(true));
    let error = Error::BadFrame { len: 7, len_check: 8, channel: 2 };
    assert_eq!(rounds.step(&mut telemetry, Event::Received(Err(error))), QueueOp::Keep);
    assert_eq!(rounds.action, Action::TakeFrame);
    assert!(rounds.received);
    assert_eq!(
        rx_stats(&telemetry),
        RxStats { frames: 0, errors: 1, last_error: Some(error) }
    );
}

#[test]
fn a_frame_refused_for_want_of_credit_goes_out_later() {
    let mut state: WifiState<1, 2> = WifiState::new();
    let (mut device, runner) = new(&mut state, MAC);
    let mut telemetry: Telemetry<u32> = Telemetry::new();
    let mut running = runner.run(0, &mut telemetry);
    assert!(queue(&mut device, &[7; 60]));
    assert!(queue(&mut device, &[8; 61]));
    for pass in 1..4u64 {
        assert_eq!(running.step(&mut telemetry, Event::Received(Ok(None))), Action::Transmit);
        assert_eq!(running.tx_frame().unwrap().to_vec(), vec![7; 60]);
        assert_eq!(
            running.step(&mut telemetry, Event::Transmitted(Err(Error::TxBusy))),
            Action::ReadClock
        );
        running.step(&mut telemetry, Event::Clock(pass * 1_000));
        running.step(&mut telemetry, Event::Woke);
    }
    assert!(!queue(&mut device, &[9; 62]));
    running.step(&mut telemetry, Event::Received(Ok(None)));
    running.step(&mut telemetry, Event::Transmitted(Ok(())));
    assert!(queue(&mut device, &[9; 62]));
    running.step(&mut telemetry, Event::Clock(5_000));
    running.step(&mut telemetry, Event::Woke);
    running.step(&mut telemetry, Event::Received(Ok(None)));
    assert_eq!(running.tx_frame().unwrap().to_vec(), vec![8; 61]);
    assert_eq!(
        tx_stats(&telemetry),
        TxStats { frames: 1, busy_passes: 3, failures: 0, last_error: None }
    );
}

#[test]
fn an_unsendable_frame_is_dropped_and_counted() {
    let mut state: WifiState<1, 1> = WifiState::new();
    let (mut device, runner) = new(&mut state, MAC);
    let mut telemetry: Telemetry<u32> = Telemetry::new();
    let mut running = runner.run(0, &mut telemetry);
    queue(&mut device, &[7; 60]);
    running.step(&mut telemetry, Event::Received(Ok(None)));
    let error = Error::Sdio(SdioError::Timeout);
    running.step(&mut telemetry, Event::Transmitted(Err(error)));
    assert!(queue(&mut device, &[8; 60]));
    assert_eq!(
        tx_stats(&telemetry),
        TxStats { frames: 0, busy_passes: 0, failures: 1, last_error: Some(error) }
    );
}

#[test]
fn both_halves_run_on_a_pass_that_received() {
    let mut state: WifiState<8, 1> = WifiState::new();
    let (mut device, runner) = new(&mut state, MAC);
    let mut telemetry: Telemetry<u32> = Telemetry::new();
    let mut running = runner.run(0, &mut telemetry);
    queue(&mut device, &[1; 60]);
    assert_eq!(running.step(&mut telemetry, Event::Received(Ok(Some(60)))), Action::Receive);
    assert_eq!(running.step(&mut telemetry, Event::Received(Ok(None))), Action::Transmit);
    assert_eq!(running.step(&mut telemetry, Event::Transmitted(Ok(()))), Action::ReadClock);
}

#[test]
fn the_link_is_sampled_on_an_idle_radio_every_five_seconds() {
    let mut state: WifiState<1, 1> = WifiState::new();
    let (_device, runner) = new(&mut state, MAC);
    let mut telemetry: Telemetry<u32> = Telemetry::new();
    let mut running = runner.run(0, &mut telemetry);
    for pass in 1..100u64 {
        idle_pass(&mut running, &mut telemetry, pass * 1_000);
    }
    running.step(&mut telemetry, Event::Received(Ok(None)));
    assert_eq!(running.step(&mut telemetry, Event::Clock(100_000)), Action::ReadLink);
    assert_eq!(
        running.step(
            &mut telemetry,
            Event::LinkRead { rssi_dbm: Ok(-61), rate_kbps: Ok(72_000), now: 101_000 }
        ),
        Action::Sleep(1_000)
    );
    assert_eq!(link(&telemetry), Some(Link { rssi_dbm: -61, rate_kbps: 72_000 }));
    running.step(&mut telemetry, Event::Woke);
    running.step(&mut telemetry, Event::Received(Ok(None)));
    assert_eq!(
        running.step(&mut telemetry, Event::Clock(100_000 + 5 * SECOND - 1)),
        Action::Sleep(1_000)
    );
    running.step(&mut telemetry, Event::Woke);
    running.step(&mut telemetry, Event::Received(Ok(None)));
    assert_eq!(
        running.step(&mut telemetry, Event::Clock(100_000 + 5 * SECOND)),
        Action::ReadLink
    );
    running.step(
        &mut telemetry,
        Event::LinkRead {
            rssi_dbm: Ok(-61),
            rate_kbps: Err(Error::CommandFailed(-1)),
            now: 6 * SECOND,
        },
    );
    assert_eq!(link(&telemetry), None);
}

#[test]
fn traffic_starts_the_quiet_count_over() {
    let mut telemetry: Telemetry<u32> = Telemetry::new();
    let (mut rounds, _) = Rounds::start(None, 0, &mut telemetry);
    rounds.quiet = 99;
    rounds.step(&mut telemetry, Event::Slot(false));
    rounds.step(&mut telemetry, Event::Frame(true));
    rounds.step(&mut telemetry, Event::Transmitted(Err(Error::TxBusy)));
    rounds.step(&mut telemetry, Event::Clock(1_000));
    assert_eq!(rounds.quiet, 0);
    assert_eq!(rounds.action, Action::Sleep(1_000));
    rounds.quiet = u32::MAX;
    rounds.link_due = u64::MAX;
    rounds.step(&mut telemetry, Event::Woke);
    rounds.step(&mut telemetry, Event::Slot(false));
    rounds.step(&mut telemetry, Event::Frame(false));
    rounds.step(&mut telemetry, Event::Clock(2_000));
    assert_eq!(rounds.quiet, u32::MAX);
}

#[test]
fn only_an_address_counts_as_being_on_a_network() {
    assert!(probe(BSSID));
    assert!(!probe(OFF));
    assert!(!probe(Err(Error::NoResponse)));
}

#[test]
fn a_probe_waits_for_silence_and_its_interval() {
    let mut watch = Watch::new(None, 0);
    assert_eq!(watch.due, 5 * SECOND);
    assert!(!watch.pass(4 * SECOND, 0));
    assert!(!watch.pass(10 * SECOND - 1, 0));
    assert!(watch.pass(10 * SECOND, 0));
    assert_eq!(watch.due, 15 * SECOND);
    assert!(!watch.pass(15 * SECOND - 1, 0));
    assert!(watch.pass(15 * SECOND, 0));
    assert!(!watch.pass(30 * SECOND, 20 * SECOND + 1));
}

#[test]
fn a_loss_is_noticed_within_fifteen_seconds_of_silence() {
    // The next probe as far off as it can be.
    let heard = 100 * SECOND;
    let mut watch = Watch::new(Some(HOME), heard);
    watch.due = heard + 15 * SECOND;
    assert!(watch.pass(heard + 15 * SECOND, heard));
    assert_eq!(watch.probed(false, heard + 15 * SECOND), Verdict::Lost(Some(HOME)));
    assert_eq!(watch.state, Association::Down);
}

#[test]
fn a_lost_network_is_announced_and_rejoined() {
    let mut state: WifiState<1, 1> = WifiState::new();
    let (mut device, runner) = new(&mut state, MAC);
    let mut telemetry: Telemetry<u32> = Telemetry::new();
    let mut running = runner.reconnecting(HOME).run(0, &mut telemetry);
    telemetry.link = Some(Link { rssi_dbm: -50, rate_kbps: 1 });
    running.step(&mut telemetry, Event::Received(Ok(None)));
    assert_eq!(running.step(&mut telemetry, Event::Clock(10 * SECOND)), Action::Probe);
    assert_eq!(
        running.step(&mut telemetry, Event::Probed { bssid: OFF, now: 10 * SECOND }),
        Action::Join(HOME)
    );
    assert!(!told_up(&mut device));
    assert!(!associated(&telemetry));
    assert_eq!(link(&telemetry), None);
    assert_eq!(link_stats(&telemetry), LinkStats { drops: 1, joins: 1 });
    assert_eq!(
        running.step(&mut telemetry, Event::JoinIssued { result: Ok(()), now: 11 * SECOND }),
        Action::Sleep(1_000)
    );
    assert_eq!(
        running.rounds.watch.state,
        Association::Joining { deadline: 26 * SECOND }
    );
    assert_eq!(running.rounds.watch.due, 11 * SECOND + 250_000);
    running.step(&mut telemetry, Event::Woke);
    running.step(&mut telemetry, Event::Received(Ok(None)));
    assert_eq!(
        running.step(&mut telemetry, Event::Clock(11 * SECOND + 250_000)),
        Action::Probe
    );
    assert_eq!(
        running.step(&mut telemetry, Event::Probed { bssid: BSSID, now: 12 * SECOND }),
        Action::SetPowerManagement(PowerManagement::Off)
    );
    assert!(!told_up(&mut device));
    running.step(&mut telemetry, Event::PowerManagementSet { now: 13 * SECOND });
    assert!(told_up(&mut device));
    assert!(associated(&telemetry));
    assert_eq!(running.rounds.watch.state, Association::Up);
    assert_eq!(running.rounds.watch.due, 18 * SECOND);
    assert_eq!(link_stats(&telemetry), LinkStats { drops: 1, joins: 1 });
}

#[test]
fn a_join_that_does_not_land_is_written_off() {
    let mut watch = Watch::new(Some(HOME), 0);
    watch.state = Association::Joining { deadline: 20 * SECOND };
    assert_eq!(watch.probed(false, 19 * SECOND), Verdict::Unchanged);
    assert_eq!(watch.due, 19 * SECOND + 250_000);
    assert_eq!(watch.probed(false, 20 * SECOND), Verdict::Unchanged);
    assert_eq!(watch.state, Association::Down);
    assert_eq!(watch.due, 30 * SECOND);
    assert!(watch.pass(30 * SECOND, 30 * SECOND));
    assert_eq!(watch.probed(false, 30 * SECOND), Verdict::Join(HOME));
}

#[test]
fn a_join_the_chip_refuses_is_retried_later() {
    let mut watch = Watch::new(Some(HOME), 0);
    watch.state = Association::Down;
    watch.join_issued(false, 40 * SECOND);
    assert_eq!(watch.state, Association::Down);
    assert_eq!(watch.due, 50 * SECOND);
}

#[test]
fn a_link_that_comes_back_by_itself_is_not_joined() {
    let mut watch = Watch::new(Some(HOME), 0);
    watch.state = Association::Down;
    assert_eq!(watch.probed(true, SECOND), Verdict::Restore(PowerManagement::Off));
    watch.associate(2 * SECOND);
    assert_eq!(watch.state, Association::Up);
    assert_eq!(watch.due, 7 * SECOND);
}

#[test]
fn without_credentials_a_loss_is_reported_and_watched() {
    let mut state: WifiState<1, 1> = WifiState::new();
    let (mut device, runner) = new(&mut state, MAC);
    let mut telemetry: Telemetry<u32> = Telemetry::new();
    let mut running = runner.run(0, &mut telemetry);
    running.step(&mut telemetry, Event::Received(Ok(None)));
    running.step(&mut telemetry, Event::Clock(10 * SECOND));
    assert_eq!(
        running.step(
            &mut telemetry,
            Event::Probed { bssid: Err(Error::NoResponse), now: 10 * SECOND }
        ),
        Action::Sleep(1_000)
    );
    assert!(!told_up(&mut device));
    assert_eq!(running.rounds.watch.due, 15 * SECOND);
    running.step(&mut telemetry, Event::Woke);
    running.step(&mut telemetry, Event::Received(Ok(None)));
    assert_eq!(running.step(&mut telemetry, Event::Clock(15 * SECOND)), Action::Probe);
    assert_eq!(
        running.step(&mut telemetry, Event::Probed { bssid: BSSID, now: 16 * SECOND }),
        Action::Sleep(1_000)
    );
    assert!(told_up(&mut device));
    assert!(associated(&telemetry));
    assert_eq!(link_stats(&telemetry), LinkStats { drops: 1, joins: 0 });
}

#[test]
fn counters_are_read_once_per_request() {
    let mut state: WifiState<1, 1> = WifiState::new();
    let (_device, runner) = new(&mut state, MAC);
    let mut telemetry: Telemetry<u32> = Telemetry::new();
    let mut running = runner.run(0, &mut telemetry);
    telemetry.counters = Some(Ok(1));
    request_counters(&mut telemetry);
    assert!(counters(&telemetry).is_none());
    running.step(&mut telemetry, Event::Received(Ok(None)));
    assert_eq!(running.step(&mut telemetry, Event::Clock(1_000)), Action::ReadCounters);
    assert_eq!(
        running.step(&mut telemetry, Event::CountersRead(Ok(42))),
        Action::Sleep(1_000)
    );
    assert_eq!(counters(&telemetry), Some(Ok(42)));
    running.step(&mut telemetry, Event::Woke);
    idle_pass(&mut running, &mut telemetry, 2_000);
    assert_eq!(counters(&telemetry), Some(Ok(42)));
    assert_eq!(passes(&telemetry), 3);
}

#[test]
fn a_failed_counters_reading_is_kept() {
    let mut telemetry: Telemetry<u32> = Telemetry::new();
    let (mut rounds, _) = Rounds::start(None, 0, &mut telemetry);
    request_counters(&mut telemetry);
    rounds.step(&mut telemetry, Event::Slot(false));
    rounds.step(&mut telemetry, Event::Frame(false));
    rounds.step(&mut telemetry, Event::Clock(0));
    let error = Error::UnsupportedFormat { version: 30 };
    rounds.step(&mut telemetry, Event::CountersRead(Err(error)));
    assert_eq!(counters(&telemetry), Some(Err(error)));
}

#[test]
fn a_pass_that_received_does_not_probe() {
    let mut telemetry: Telemetry<u32> = Telemetry::new();
    let (mut rounds, _) = Rounds::start(None, 0, &mut telemetry);
    rounds.step(&mut telemetry, Event::Slot(true));
    rounds.step(&mut telemetry, Event::Received(Err(Error::NoResponse)));
    rounds.step(&mut telemetry, Event::Frame(false));
    rounds.step(&mut telemetry, Event::Clock(60 * SECOND));
    assert_eq!(rounds.action, Action::Sleep(1_000));
    assert_eq!(rounds.heard, 60 * SECOND);
}

#[test]
fn a_pass_takes_a_bounded_number_of_steps() {
    let mut telemetry: Telemetry<u32> = Telemetry::new();
    let (mut rounds, _) = Rounds::start(Some(HOME), 0, &mut telemetry);
    rounds.watch.state = Association::Down;
    telemetry.associated = false;
    request_counters(&mut telemetry);
    let mut steps = 0;
    loop {
        let event = match rounds.action {
            Action::TakeSlot => Event::Slot(true),
            Action::Receive => Event::Received(Ok(Some(MTU))),
            Action::TakeFrame => Event::Frame(true),
            Action::Transmit => Event::Transmitted(Ok(())),
            Action::ReadClock => Event::Clock(60 * SECOND),
            Action::ReadLink => Event::LinkRead {
                rssi_dbm: Ok(0),
                rate_kbps: Ok(0),
                now: 60 * SECOND,
            },
            Action::Probe => Event::Probed { bssid: OFF, now: 60 * SECOND },
            Action::Join(_) => Event::JoinIssued { result: Ok(()), now: 60 * SECOND },
            Action::SetPowerManagement(_) => Event::PowerManagementSet { now: 60 * SECOND },
            Action::ReadCounters => Event::CountersRead(Ok(7)),
            Action::Sleep(_) => Event::Woke,
        };
        let woke = matches!(event, Event::Woke);
        rounds.step(&mut telemetry, event);
        steps += 1;
        if woke {
            break;
        }
    }
    assert_eq!(steps, 2 * 8 + 2 + 1 + 2 + 1 + 1);
    assert_eq!(passes(&telemetry), 2);
    assert_eq!(rx_stats(&telemetry).frames, 8);
    assert_eq!(tx_stats(&telemetry).frames, 1);
    assert_eq!(link_stats(&telemetry), LinkStats { drops: 0, joins: 1 });
    assert_eq!(counters(&telemetry), Some(Ok(7)));
}

// One pass over a radio that has nothing to hand up, with a frame to send, up
// to its sleep.
fn sending_pass(
    rounds: &mut Rounds<'_>,
    telemetry: &mut Telemetry<u32>,
    bssid: Result<Option<[u8; 6]>, Error>,
    now: u64,
) {
    loop {
        let event = match rounds.action {
            Action::TakeSlot => Event::Slot(true),
            Action::Receive => Event::Received(Ok(None)),
            Action::TakeFrame => Event::Frame(true),
            Action::Transmit => Event::Transmitted(Ok(())),
            Action::ReadClock => Event::Clock(now),
            Action::Probe => Event::Probed { bssid, now },
            Action::Join(_) => Event::JoinIssued { result: Ok(()), now },
            Action::SetPowerManagement(_) => Event::PowerManagementSet { now },
            Action::Sleep(_) => {
                rounds.step(telemetry, Event::Woke);
                return;
            }
            other => panic!("{:?}", other),
        };
        rounds.step(telemetry, event);
    }
}

#[test]
fn a_network_that_goes_quiet_and_away_is_noticed_while_sending() {
    // The network answers up to the last look it gets before fifteen seconds
    // of silence are over, and is gone from there on.
    for gone in [0, 10 * SECOND + 1] {
        let mut telemetry: Telemetry<u32> = Telemetry::new();
        let (mut rounds, _) = Rounds::start(None, 0, &mut telemetry);
        for now in (0..15_000u64).map(|pass| pass * 1_000) {
            let bssid = if now < gone { BSSID } else { OFF };
            sending_pass(&mut rounds, &mut telemetry, bssid, now);
            assert_eq!(associated(&telemetry), now < gone.max(10 * SECOND) || gone > 0);
        }
        for now in (15_000..15_100u64).map(|pass| pass * 1_000) {
            sending_pass(&mut rounds, &mut telemetry, OFF, now);
            assert!(!associated(&telemetry));
        }
        sending_pass(&mut rounds, &mut telemetry, BSSID, 25 * SECOND);
        assert!(associated(&telemetry));
        assert_eq!(link_stats(&telemetry), LinkStats { drops: 1, joins: 0 });
    }
}
