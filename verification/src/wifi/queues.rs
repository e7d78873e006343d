//! The packet queues between the network stack and the Wi-Fi runner, and the
//! runner at work on them.
//!
//! The stack holds the other end of both queues and goes on using it between
//! any two calls here. What is said of a queue is therefore what the stack
//! cannot undo: a slot found free stays free until a frame is handed up in
//! it, and a frame found queued stays at the head until it is released.

use super::radio::{Error, Reconnect, MTU};
use super::rounds::{Action, Event, QueueOp, Rounds};
use super::telemetry::{Telemetry, TxStats};
use super::watch::{probe_interval, reachable};
use embassy_net_driver::{HardwareAddress, LinkState};
use embassy_net_driver_channel as ch;
use vstd::prelude::*;

verus! {

/// `embassy_net_driver_channel::State`, the memory behind a pair of queues.
#[verifier::external_type_specification]
#[verifier::external_body]
pub struct ExState<const M: usize, const N_RX: usize, const N_TX: usize>(ch::State<M, N_RX, N_TX>);

/// `embassy_net_driver_channel::Runner`, the driver's end of the queues.
#[verifier::external_type_specification]
#[verifier::external_body]
pub struct ExRunner<'d, const M: usize>(ch::Runner<'d, M>);

/// `embassy_net_driver_channel::Device`, the stack's end of the queues.
#[verifier::external_type_specification]
#[verifier::external_body]
pub struct ExDevice<'d, const M: usize>(ch::Device<'d, M>);

/// Whether the stack was last told, through this end, that the link is up.
pub uninterp spec fn link_up(runner: ch::Runner<'_, MTU>) -> bool;

/// What stands in the receive slot that was last found free, while nothing
/// has been handed up in it.
pub uninterp spec fn slot_held(runner: ch::Runner<'_, MTU>) -> Option<Seq<u8>>;

/// The frames handed up through this end, in order.
pub uninterp spec fn handed_up(runner: ch::Runner<'_, MTU>) -> Seq<Seq<u8>>;

/// The frame that was last found queued, while it has not been released.
pub uninterp spec fn frame_held(runner: ch::Runner<'_, MTU>) -> Option<Seq<u8>>;

/// The frames released through this end, in order.
pub uninterp spec fn let_go(runner: ch::Runner<'_, MTU>) -> Seq<Seq<u8>>;

/// Whether there was room for a received frame, each time that was asked
/// through this end.
pub uninterp spec fn slot_answers(runner: ch::Runner<'_, MTU>) -> Seq<bool>;

/// Whether there was a frame to send, each time that was asked through this
/// end.
pub uninterp spec fn frame_answers(runner: ch::Runner<'_, MTU>) -> Seq<bool>;

/// The Ethernet address the stack's end reports.
pub uninterp spec fn device_address(device: ch::Device<'_, MTU>) -> Seq<u8>;

/// Whether nothing has changed of the queue of received frames.
pub open spec fn rx_kept(before: ch::Runner<'_, MTU>, after: ch::Runner<'_, MTU>) -> bool {
    &&& slot_held(after) == slot_held(before)
    &&& handed_up(after) == handed_up(before)
    &&& slot_answers(after) == slot_answers(before)
}

/// Whether nothing has changed of the queue of frames to send.
pub open spec fn tx_kept(before: ch::Runner<'_, MTU>, after: ch::Runner<'_, MTU>) -> bool {
    &&& frame_held(after) == frame_held(before)
    &&& let_go(after) == let_go(before)
    &&& frame_answers(after) == frame_answers(before)
}

/// `embassy_net_driver_channel::State::new`: memory for the packets of a
/// pair of queues. The queues themselves are built in it later, by
/// [`channel`], whatever it holds, so nothing is said here of the bytes in
/// it.
#[verifier::external_body]
fn empty_state<const N_RX: usize, const N_TX: usize>() -> (state: ch::State<MTU, N_RX, N_TX>) {
    ch::State::new()
}

/// `embassy_net_driver_channel::new`, with an Ethernet address: two ends of
/// a pair of empty queues, the link down, and the address on the stack's
/// side. It panics on a queue without any room.
#[verifier::external_body]
fn channel<'d, const N_RX: usize, const N_TX: usize>(
    state: &'d mut ch::State<MTU, N_RX, N_TX>,
    mac: [u8; 6],
) -> (ends: (ch::Runner<'d, MTU>, ch::Device<'d, MTU>))
    requires
        N_RX > 0,
        N_TX > 0,
    ensures
        !link_up(ends.0),
        slot_held(ends.0) is None,
        handed_up(ends.0) == Seq::<Seq<u8>>::empty(),
        slot_answers(ends.0) == Seq::<bool>::empty(),
        frame_held(ends.0) is None,
        let_go(ends.0) == Seq::<Seq<u8>>::empty(),
        frame_answers(ends.0) == Seq::<bool>::empty(),
        device_address(ends.1) == mac@,
{
    ch::new(state, HardwareAddress::Ethernet(mac))
}

/// `embassy_net_driver_channel::Runner::try_rx_buf`: a slot of [`MTU`] bytes
/// for a received frame, if the stack's queue has room for one. A slot that
/// was found free before is found again, with what was left in it.
#[verifier::external_body]
fn try_rx_buf<'a>(runner: &'a mut ch::Runner<'_, MTU>) -> (slot: Option<&'a mut [u8]>)
    ensures
        match slot {
            Some(buffer) => {
                &&& buffer@.len() == MTU
                &&& slot_held(*final(runner)) == Some(final(buffer)@)
            },
            None => slot_held(*final(runner)) is None,
        },
        slot_held(*old(runner)) matches Some(held) ==> slot matches Some(buffer) && buffer@
            == held,
        slot_answers(*final(runner)) == slot_answers(*old(runner)).push(slot is Some),
        handed_up(*final(runner)) == handed_up(*old(runner)),
        tx_kept(*old(runner), *final(runner)),
        link_up(*final(runner)) == link_up(*old(runner)),
{
    runner.try_rx_buf()
}

/// `embassy_net_driver_channel::Runner::rx_done`: hands the stack the first
/// `len` bytes of the slot. It panics where there is no slot, and the stack
/// does on a length past the end of one.
#[verifier::external_body]
fn rx_done(runner: &mut ch::Runner<'_, MTU>, len: usize)
    requires
        slot_held(*old(runner)) is Some,
        len <= MTU,
    ensures
        handed_up(*final(runner)) == handed_up(*old(runner)).push(
            slot_held(*old(runner))->0.take(len as int),
        ),
        slot_held(*final(runner)) is None,
        slot_answers(*final(runner)) == slot_answers(*old(runner)),
        tx_kept(*old(runner), *final(runner)),
        link_up(*final(runner)) == link_up(*old(runner)),
{
    runner.rx_done(len)
}

/// `embassy_net_driver_channel::Runner::try_tx_buf`: the frame at the head
/// of the stack's queue, of [`MTU`] bytes at most, if there is one. A frame
/// that was found there before is found again.
#[verifier::external_body]
fn try_tx_buf<'a>(runner: &'a mut ch::Runner<'_, MTU>) -> (frame: Option<&'a mut [u8]>)
    ensures
        match frame {
            Some(buffer) => {
                &&& buffer@.len() <= MTU
                &&& frame_held(*final(runner)) == Some(final(buffer)@)
            },
            None => frame_held(*final(runner)) is None,
        },
        frame_held(*old(runner)) matches Some(held) ==> frame matches Some(buffer) && buffer@
            == held,
        frame_answers(*final(runner)) == frame_answers(*old(runner)).push(frame is Some),
        let_go(*final(runner)) == let_go(*old(runner)),
        rx_kept(*old(runner), *final(runner)),
        link_up(*final(runner)) == link_up(*old(runner)),
{
    runner.try_tx_buf()
}

/// `embassy_net_driver_channel::Runner::tx_done`: releases the frame at the
/// head of the stack's queue. It panics where there is none.
#[verifier::external_body]
fn tx_done(runner: &mut ch::Runner<'_, MTU>)
    requires
        frame_held(*old(runner)) is Some,
    ensures
        let_go(*final(runner)) == let_go(*old(runner)).push(frame_held(*old(runner))->0),
        frame_held(*final(runner)) is None,
        frame_answers(*final(runner)) == frame_answers(*old(runner)),
        rx_kept(*old(runner), *final(runner)),
        link_up(*final(runner)) == link_up(*old(runner)),
{
    runner.tx_done()
}

/// `embassy_net_driver_channel::Runner::set_link_state`: tells the stack
/// whether the link is up.
#[verifier::external_body]
fn set_link_state(runner: &mut ch::Runner<'_, MTU>, up: bool)
    ensures
        link_up(*final(runner)) == up,
        rx_kept(*old(runner), *final(runner)),
        tx_kept(*old(runner), *final(runner)),
{
    runner.set_link_state(match up {
        true => LinkState::Up,
        false => LinkState::Down,
    })
}

/// The packet queues [`new`] builds a [`WifiDriver`] and a [`WifiRunner`]
/// out of, with room for `N_RX` received and `N_TX` outbound frames.
pub struct WifiState<const N_RX: usize, const N_TX: usize> {
    inner: ch::State<MTU, N_RX, N_TX>,
}

impl<const N_RX: usize, const N_TX: usize> WifiState<N_RX, N_TX> {
    /// Whether this is a state as `embassy_net_driver_channel::State::new`
    /// gives one, with no queues built in it yet.
    pub closed spec fn is_fresh(self) -> bool {
        call_ensures(empty_state::<N_RX, N_TX>, (), self.inner)
    }

    /// Creates the queues, empty.
    pub fn new() -> (state: Self)
        ensures
            state.is_fresh(),
    {
        WifiState { inner: empty_state() }
    }
}

impl<const N_RX: usize, const N_TX: usize> Default for WifiState<N_RX, N_TX> {
    /// The same as [`WifiState::new`].
    fn default() -> (state: Self)
        ensures
            state.is_fresh(),
    {
        Self::new()
    }
}

/// The half that goes to the network stack.
pub type WifiDriver<'d> = ch::Device<'d, MTU>;

/// The half that talks to the chip, not yet at work.
pub struct WifiRunner<'d> {
    /// The driver's end of the queues.
    pub runner: ch::Runner<'d, MTU>,
    /// What to rejoin with when the association goes away, or `None` for a
    /// runner that reports the loss and leaves it.
    pub reconnect: Option<Reconnect<'d>>,
}

/// Builds the two halves of a network device, for a chip that has joined a
/// network. `mac` is the chip's own address.
pub fn new<'d, const N_RX: usize, const N_TX: usize>(
    state: &'d mut WifiState<N_RX, N_TX>,
    mac: [u8; 6],
) -> (halves: (WifiDriver<'d>, WifiRunner<'d>))
    requires
        N_RX > 0,
        N_TX > 0,
    ensures
        device_address(halves.0) == mac@,
        halves.1.reconnect is None,
        !link_up(halves.1.runner),
        handed_up(halves.1.runner) == Seq::<Seq<u8>>::empty(),
        slot_held(halves.1.runner) is None,
        slot_answers(halves.1.runner) == Seq::<bool>::empty(),
        frame_held(halves.1.runner) is None,
        let_go(halves.1.runner) == Seq::<Seq<u8>>::empty(),
        frame_answers(halves.1.runner) == Seq::<bool>::empty(),
{
    let (runner, device) = channel(&mut state.inner, mac);
    (device, attach(runner))
}

/// Puts a runner behind a queue pair somebody else built.
pub fn attach<'d>(runner: ch::Runner<'d, MTU>) -> (attached: WifiRunner<'d>)
    ensures
        attached.runner == runner,
        attached.reconnect is None,
{
    WifiRunner { runner, reconnect: None }
}

impl<'d> WifiRunner<'d> {
    /// Gives the runner what it needs to get back onto the network on its
    /// own.
    pub fn reconnecting(self, reconnect: Reconnect<'d>) -> (given: Self)
        ensures
            given.runner == self.runner,
            given.reconnect == Some(reconnect),
    {
        WifiRunner { runner: self.runner, reconnect: Some(reconnect) }
    }

    /// Puts the runner to work at `now`: the link is announced, and the
    /// first pass begun.
    pub fn run<C>(self, now: u64, telemetry: &mut Telemetry<C>) -> (running: Running<'d>)
        requires
            reachable(now, probe_interval()),
        ensures
            running.wf(),
            *final(telemetry) == old(telemetry).on_network().another_pass(),
            exists|slot: bool, frame: bool|
                running.rounds == #[trigger] queried(
                    Rounds::starting(self.reconnect, now),
                    slot,
                    frame,
                ) && answered(
                    Rounds::starting(self.reconnect, now),
                    slot,
                    frame,
                    QueueOp::Announce(true),
                    self.runner,
                    running.runner,
                ),
            link_up(running.runner),
            handed_up(running.runner) == handed_up(self.runner),
            let_go(running.runner) == let_go(self.runner),
    {
        let (rounds, op) = Rounds::start(self.reconnect, now, telemetry);
        let mut running = Running { runner: self.runner, rounds };
        perform(&mut running.runner, op);
        running.query(telemetry);
        running
    }
}

/// The slot that is still held once this has been done to the queues.
pub open spec fn slot_left(runner: ch::Runner<'_, MTU>, op: QueueOp) -> Option<Seq<u8>> {
    if op is HandUp {
        None
    } else {
        slot_held(runner)
    }
}

/// The frame that is still held once this has been done to the queues.
pub open spec fn frame_left(runner: ch::Runner<'_, MTU>, op: QueueOp) -> Option<Seq<u8>> {
    if op is Release {
        None
    } else {
        frame_held(runner)
    }
}

/// Does to the queues what the rounds say is to be done.
fn perform(runner: &mut ch::Runner<'_, MTU>, op: QueueOp)
    requires
        op matches QueueOp::HandUp(len) ==> slot_held(*old(runner)) is Some && len <= MTU,
        op is Release ==> frame_held(*old(runner)) is Some,
    ensures
        link_up(*final(runner)) == match op {
            QueueOp::Announce(up) => up,
            _ => link_up(*old(runner)),
        },
        handed_up(*final(runner)) == match op {
            QueueOp::HandUp(len) => handed_up(*old(runner)).push(
                slot_held(*old(runner))->0.take(len as int),
            ),
            _ => handed_up(*old(runner)),
        },
        let_go(*final(runner)) == if op is Release {
            let_go(*old(runner)).push(frame_held(*old(runner))->0)
        } else {
            let_go(*old(runner))
        },
        slot_held(*final(runner)) == slot_left(*old(runner), op),
        frame_held(*final(runner)) == frame_left(*old(runner), op),
        slot_answers(*final(runner)) == slot_answers(*old(runner)),
        frame_answers(*final(runner)) == frame_answers(*old(runner)),
{
    match op {
        QueueOp::Keep => {},
        QueueOp::HandUp(len) => rx_done(runner, len),
        QueueOp::Release => tx_done(runner),
        QueueOp::Announce(up) => set_link_state(runner, up),
    }
}

/// The rounds once the queues have answered what was to be asked of them:
/// whether there is room for a received frame, and whether there is a frame
/// to send.
pub open spec fn queried<'d>(rounds: Rounds<'d>, slot: bool, frame: bool) -> Rounds<'d> {
    let drained = if rounds.action is TakeSlot {
        rounds.then_do(
            if slot {
                Action::Receive
            } else {
                Action::TakeFrame
            },
        )
    } else {
        rounds
    };
    if drained.action is TakeFrame {
        Rounds {
            sent: frame,
            action: if frame {
                Action::Transmit
            } else {
                Action::ReadClock
            },
            ..drained
        }
    } else {
        drained
    }
}

/// Whether these are the answers the queues gave, once `op` had been done to
/// them: what the rounds want to know is asked once, and nothing else is; a
/// slot or a frame that is still held is found again as it was, and one that
/// is found is held from there on.
pub open spec fn answered<'d>(
    rounds: Rounds<'d>,
    slot: bool,
    frame: bool,
    op: QueueOp,
    before: ch::Runner<'_, MTU>,
    after: ch::Runner<'_, MTU>,
) -> bool {
    &&& if rounds.action is TakeSlot {
        &&& slot_answers(after) == slot_answers(before).push(slot)
        &&& slot == slot_held(after) is Some
        &&& slot_left(before, op) is Some ==> slot_held(after) == slot_left(before, op)
    } else {
        &&& slot_answers(after) == slot_answers(before)
        &&& slot_held(after) == slot_left(before, op)
    }
    &&& if rounds.action is TakeFrame || rounds.action is TakeSlot && !slot {
        &&& frame_answers(after) == frame_answers(before).push(frame)
        &&& frame == frame_held(after) is Some
        &&& frame_left(before, op) is Some ==> frame_held(after) == frame_left(before, op)
    } else {
        &&& frame_answers(after) == frame_answers(before)
        &&& frame_held(after) == frame_left(before, op)
    }
}

/// A runner at work: the queues and the rounds.
///
/// What it waits for is always something of the chip, the clock or the
/// executor; what there is to do to the queues it does itself.
pub struct Running<'d> {
    /// The driver's end of the queues.
    pub runner: ch::Runner<'d, MTU>,
    /// The rounds.
    pub rounds: Rounds<'d>,
}

impl<'d> Running<'d> {
    /// The queues stand as the rounds say: the stack has been told whether
    /// the link is up, there is a slot while the chip is asked for a frame,
    /// and a frame while it is handed one.
    pub open spec fn agrees(self) -> bool {
        &&& self.rounds.wf()
        &&& link_up(self.runner) == self.rounds.watch.state is Up
        &&& self.rounds.action is Receive ==> slot_held(self.runner) is Some
        &&& self.rounds.action is Transmit ==> frame_held(self.runner) is Some
    }

    /// What holds between any two steps.
    pub open spec fn wf(self) -> bool {
        &&& self.agrees()
        &&& !(self.rounds.action is TakeSlot)
        &&& !(self.rounds.action is TakeFrame)
    }

    /// Whether `event`, taken here under this report, can lead to `after`.
    ///
    /// The stack gets the received bytes on a frame that arrived, and
    /// nothing otherwise. The frame at the head is let go when the chip has
    /// answered for it with anything but want of credit, and no frame is
    /// otherwise.
    pub open spec fn steps_to<C>(
        self,
        telemetry: Telemetry<C>,
        event: Event<C>,
        after: Running<'d>,
    ) -> bool {
        let (rounds, _, op) = self.rounds.following(telemetry, event);
        &&& exists|slot: bool, frame: bool|
            after.rounds == #[trigger] queried(rounds, slot, frame) && answered(
                rounds,
                slot,
                frame,
                op,
                self.runner,
                after.runner,
            )
        &&& handed_up(after.runner) == match event {
            Event::Received(Ok(Some(len))) => handed_up(self.runner).push(
                slot_held(self.runner)->0.take(len as int),
            ),
            _ => handed_up(self.runner),
        }
        &&& let_go(after.runner) == match event {
            Event::Transmitted(result) => if result == Err::<(), Error>(Error::TxBusy) {
                let_go(self.runner)
            } else {
                let_go(self.runner).push(frame_held(self.runner)->0)
            },
            _ => let_go(self.runner),
        }
    }

    /// What is to be done next.
    pub fn action(&self) -> (action: Action<'d>)
        ensures
            action == self.rounds.action,
    {
        self.rounds.action
    }

    /// Where the chip puts a received frame, while it is to be asked for
    /// one. What is left there is what gets handed up.
    pub fn rx_buffer(&mut self) -> (buffer: Option<&mut [u8]>)
        requires
            old(self).wf(),
        ensures
            buffer is Some <==> old(self).rounds.action is Receive,
            final(self).wf(),
            final(self).rounds == old(self).rounds,
            handed_up(final(self).runner) == handed_up(old(self).runner),
            tx_kept(old(self).runner, final(self).runner),
            match buffer {
                Some(buffer) => {
                    &&& buffer@.len() == MTU
                    &&& Some(buffer@) == slot_held(old(self).runner)
                    &&& slot_held(final(self).runner) == Some(final(buffer)@)
                    &&& slot_answers(final(self).runner) == slot_answers(old(self).runner).push(
                        true,
                    )
                },
                None => final(self).runner == old(self).runner,
            },
    {
        match self.rounds.action {
            Action::Receive => try_rx_buf(&mut self.runner),
            _ => None,
        }
    }

    /// The frame for the chip, while it is to be handed one.
    pub fn tx_frame(&mut self) -> (frame: Option<&mut [u8]>)
        requires
            old(self).wf(),
        ensures
            frame is Some <==> old(self).rounds.action is Transmit,
            final(self).wf(),
            final(self).rounds == old(self).rounds,
            let_go(final(self).runner) == let_go(old(self).runner),
            rx_kept(old(self).runner, final(self).runner),
            match frame {
                Some(buffer) => {
                    &&& buffer@.len() <= MTU
                    &&& Some(buffer@) == frame_held(old(self).runner)
                    &&& frame_held(final(self).runner) == Some(final(buffer)@)
                    &&& frame_answers(final(self).runner) == frame_answers(old(self).runner).push(
                        true,
                    )
                },
                None => final(self).runner == old(self).runner,
            },
    {
        match self.rounds.action {
            Action::Transmit => try_tx_buf(&mut self.runner),
            _ => None,
        }
    }

    /// Takes what came of the last action, and says what is next.
    ///
    /// What the queues answer on the way is up to the stack. A frame that
    /// was found queued is another matter: it stays there until the chip
    /// has answered for it with something other than want of credit, and
    /// every pass finds it again.
    pub fn step<C>(&mut self, telemetry: &mut Telemetry<C>, event: Event<C>) -> (action: Action<
        'd,
    >)
        requires
            old(self).wf(),
            old(self).rounds.expects(event),
        ensures
            final(self).wf(),
            action == final(self).rounds.action,
            *final(telemetry) == old(self).rounds.following(*old(telemetry), event).1,
            old(self).steps_to(*old(telemetry), event, *final(self)),
    {
        let op = self.rounds.step(telemetry, event);
        assert(self.rounds == old(self).rounds.following(*old(telemetry), event).0);
        perform(&mut self.runner, op);
        self.query(telemetry);
        self.rounds.action
    }

    /// Asks of the queues what the rounds want to know of them.
    fn query<C>(&mut self, telemetry: &mut Telemetry<C>)
        requires
            old(self).agrees(),
        ensures
            final(self).wf(),
            *final(telemetry) == *old(telemetry),
            exists|slot: bool, frame: bool|
                final(self).rounds == #[trigger] queried(old(self).rounds, slot, frame)
                    && answered(
                    old(self).rounds,
                    slot,
                    frame,
                    QueueOp::Keep,
                    old(self).runner,
                    final(self).runner,
                ),
            handed_up(final(self).runner) == handed_up(old(self).runner),
            let_go(final(self).runner) == let_go(old(self).runner),
    {
        let mut slot = false;
        if let Action::TakeSlot = self.rounds.action {
            slot = try_rx_buf(&mut self.runner).is_some();
            self.rounds.step(telemetry, Event::Slot(slot));
        }
        let mut frame = false;
        if let Action::TakeFrame = self.rounds.action {
            frame = try_tx_buf(&mut self.runner).is_some();
            self.rounds.step(telemetry, Event::Frame(frame));
        }
        assert(self.rounds == queried(old(self).rounds, slot, frame));
    }
}

/// A step as a runner took it.
pub struct Taken<'d, C> {
    /// The runner it was taken by.
    pub before: Running<'d>,
    /// The report it was taken under.
    pub report: Telemetry<C>,
    /// What had come of the last action.
    pub event: Event<C>,
    /// The runner it led to.
    pub after: Running<'d>,
}

impl<'d, C> Taken<'d, C> {
    /// Whether a runner can have taken it.
    pub open spec fn possible(self) -> bool {
        &&& self.before.wf()
        &&& self.before.rounds.expects(self.event)
        &&& self.after.wf()
        &&& self.before.steps_to(self.report, self.event, self.after)
    }

    /// The report it led to.
    pub open spec fn reported(self) -> Telemetry<C> {
        self.before.rounds.following(self.report, self.event).1
    }

    /// Whether the chip refused a frame for want of credit.
    pub open spec fn is_refusal(self) -> bool {
        self.event == Event::<C>::Transmitted(Err(Error::TxBusy))
    }

    /// Whether `next` is taken where this one led to. Between the two the
    /// slot or the frame may have been lent to the chip, which does not
    /// change what it sends, and the counters may have been asked for.
    pub open spec fn leads_to(self, next: Taken<'d, C>) -> bool {
        &&& next.before.rounds == self.after.rounds
        &&& frame_held(next.before.runner) == frame_held(self.after.runner)
        &&& let_go(next.before.runner) == let_go(self.after.runner)
        &&& next.report == self.reported() || next.report == self.reported().asked()
    }
}

/// Whether these are steps that a runner can have taken one after the other.
pub open spec fn is_run<'d, C>(run: Seq<Taken<'d, C>>) -> bool {
    &&& forall|i: int| 0 <= i < run.len() ==> (#[trigger] run[i]).possible()
    &&& forall|i: int, j: int|
        #![trigger run[i], run[j]]
        0 <= i && j == i + 1 && j < run.len() ==> run[i].leads_to(run[j])
}

/// How many of these steps are refusals for want of credit.
pub open spec fn refusals<'d, C>(run: Seq<Taken<'d, C>>) -> nat
    decreases run.len(),
{
    if run.len() == 0 {
        0
    } else {
        refusals(run.drop_last()) + if run.last().is_refusal() {
            1nat
        } else {
            0
        }
    }
}

/// A count that has gone up by `more`, and has wrapped if it had to.
pub open spec fn counted_on(count: u32, more: nat) -> u32 {
    ((count + more) % 0x1_0000_0000) as u32
}

/// Counting on by one more.
proof fn lemma_counted_on(count: u32, more: nat)
    ensures
        counted_on(count, 0) == count,
        counted_on(count, more).wrapping_add(1) == counted_on(count, more + 1),
{
}

/// A step that does not answer for the frame, or refuses it, leaves it where
/// it was and lets nothing go.
proof fn lemma_frame_stays<'d, C>(step: Taken<'d, C>, frame: Seq<u8>)
    requires
        step.possible(),
        frame_held(step.before.runner) == Some(frame),
        step.event is Transmitted ==> step.is_refusal(),
    ensures
        frame_held(step.after.runner) == Some(frame),
        let_go(step.after.runner) == let_go(step.before.runner),
        step.is_refusal() ==> step.reported().tx == (TxStats {
            busy_passes: step.report.tx.busy_passes.wrapping_add(1),
            ..step.report.tx
        }),
        !step.is_refusal() ==> step.reported().tx == step.report.tx,
{
}

/// Where a run stands as long as the chip has done nothing but refuse: the
/// frame is where it was, nothing has been let go, and the refusals are all
/// that has been counted of it.
proof fn lemma_refusals_change_nothing<'d, C>(run: Seq<Taken<'d, C>>, frame: Seq<u8>, n: int)
    requires
        is_run(run),
        0 < n <= run.len(),
        frame_held(run[0].before.runner) == Some(frame),
        forall|i: int|
            0 <= i < n ==> ((#[trigger] run[i]).event is Transmitted ==> run[i].is_refusal()),
    ensures
        frame_held(run[n - 1].before.runner) == Some(frame),
        frame_held(run[n - 1].after.runner) == Some(frame),
        let_go(run[n - 1].after.runner) == let_go(run[0].before.runner),
        run[n - 1].reported().tx == (TxStats {
            busy_passes: counted_on(run[0].report.tx.busy_passes, refusals(run.take(n))),
            ..run[0].report.tx
        }),
    decreases n,
{
    let step = run[n - 1];
    let busy = run[0].report.tx.busy_passes;
    assert(step.possible());
    assert(run.take(n).drop_last() =~= run.take(n - 1));
    assert(run.take(n).last() == step);
    lemma_counted_on(busy, refusals(run.take(n - 1)));
    if n > 1 {
        lemma_refusals_change_nothing(run, frame, n - 1);
        assert(run[n - 2].leads_to(run[n - 1]));
    } else {
        assert(refusals(run.take(0)) == 0);
    }
    lemma_frame_stays(step, frame);
}

/// A frame refused for want of credit is neither lost, sent twice nor
/// overtaken. However often the chip refuses the frame at the head, and
/// whatever else goes on meanwhile, every transmit offers it that frame, and
/// finds the radio busy with it; once the chip accepts, that frame is the
/// one let go, and it alone. The report has then gone up by one frame, and
/// by one busy pass for each refusal.
pub proof fn law_refused_frame_is_sent_once<'d, C>(run: Seq<Taken<'d, C>>, frame: Seq<u8>)
    requires
        is_run(run),
        run.len() > 0,
        frame_held(run[0].before.runner) == Some(frame),
        forall|i: int|
            0 <= i < run.len() - 1 ==> ((#[trigger] run[i]).event is Transmitted
                ==> run[i].is_refusal()),
        run.last().event == Event::<C>::Transmitted(Ok(())),
    ensures
        forall|i: int|
            0 <= i < run.len() ==> frame_held((#[trigger] run[i]).before.runner) == Some(frame),
        forall|i: int|
            0 <= i < run.len() ==> ((#[trigger] run[i]).event is Transmitted
                ==> run[i].after.rounds.sent),
        let_go(run.last().after.runner) == let_go(run[0].before.runner).push(frame),
        run.last().reported().tx == (TxStats {
            frames: counted_on(run[0].report.tx.frames, 1),
            busy_passes: counted_on(run[0].report.tx.busy_passes, refusals(run)),
            ..run[0].report.tx
        }),
{
    let n = run.len() - 1;
    let last = run[n];
    let frames = run[0].report.tx.frames;
    assert(last.possible());
    assert forall|i: int| 0 <= i < run.len() implies frame_held(
        (#[trigger] run[i]).before.runner,
    ) == Some(frame) by {
        if i > 0 {
            lemma_refusals_change_nothing(run, frame, i);
            assert(run[i - 1].leads_to(run[i]));
        }
    }
    assert forall|i: int|
        0 <= i < run.len() && (#[trigger] run[i]).event
            is Transmitted implies run[i].after.rounds.sent by {
        assert(run[i].possible());
    }
    assert(run.drop_last() =~= run.take(n));
    lemma_counted_on(frames, 0);
    if n > 0 {
        lemma_refusals_change_nothing(run, frame, n);
        assert(run[n - 1].leads_to(run[n]));
    } else {
        lemma_counted_on(run[0].report.tx.busy_passes, 0);
        assert(refusals(run.take(0)) == 0);
    }
}

/// A slot has the chip asked for a frame; no slot has the stack asked for
/// one; a frame has it transmitted, and makes the pass one that found
/// something to send; no frame leads on to the clock. Whatever else the
/// runner waits for is none of the queues' business.
pub proof fn law_queues_answers_lead_on<'d>(rounds: Rounds<'d>, slot: bool, frame: bool)
    ensures
        ({
            let next = queried(rounds, slot, frame);
            &&& next == Rounds { sent: next.sent, action: next.action, ..rounds }
            &&& rounds.action is TakeSlot && slot ==> next.action is Receive && next.sent
                == rounds.sent
            &&& rounds.action is TakeFrame || rounds.action is TakeSlot && !slot ==> {
                &&& next.sent == frame
                &&& frame ==> next.action is Transmit
                &&& !frame ==> next.action is ReadClock
            }
            &&& !(rounds.action is TakeSlot || rounds.action is TakeFrame) ==> next == rounds
        }),
{
}

/// The answers are the queues' own: each question that has come up is put
/// once, no other is, and there is a slot or a frame to be had exactly where
/// the answer says so.
pub proof fn law_queues_are_asked_once<'d>(
    rounds: Rounds<'d>,
    slot: bool,
    frame: bool,
    op: QueueOp,
    before: ch::Runner<'_, MTU>,
    after: ch::Runner<'_, MTU>,
)
    requires
        answered(rounds, slot, frame, op, before, after),
    ensures
        rounds.action is TakeSlot ==> {
            &&& slot_answers(after).len() == slot_answers(before).len() + 1
            &&& slot_answers(after).last() == slot
            &&& slot <==> slot_held(after) is Some
        },
        !(rounds.action is TakeSlot) ==> slot_answers(after) == slot_answers(before),
        rounds.action is TakeFrame || rounds.action is TakeSlot && !slot ==> {
            &&& frame_answers(after).len() == frame_answers(before).len() + 1
            &&& frame_answers(after).last() == frame
            &&& frame <==> frame_held(after) is Some
        },
        !(rounds.action is TakeFrame || rounds.action is TakeSlot && !slot) ==> frame_answers(
            after,
        ) == frame_answers(before),
        slot_held(before) is Some && !(op is HandUp) ==> slot_held(after) == slot_held(before),
        frame_held(before) is Some && !(op is Release) ==> frame_held(after) == frame_held(before),
        op is HandUp && !(rounds.action is TakeSlot) ==> slot_held(after) is None,
        op is Release && !(rounds.action is TakeFrame || rounds.action is TakeSlot && !slot)
            ==> frame_held(after) is None,
{
}

/// What a step does to the frames: one that arrived goes up whole, at the
/// length the chip gave it and after all that went up before; one the chip
/// has answered for, other than with want of credit, is let go after all
/// that was; and no other event moves a frame either way.
pub proof fn law_frames_move_as_the_chip_says<'d, C>(
    before: Running<'d>,
    telemetry: Telemetry<C>,
    event: Event<C>,
    after: Running<'d>,
)
    requires
        before.wf(),
        before.rounds.expects(event),
        before.steps_to(telemetry, event, after),
    ensures
        match event {
            Event::Received(Ok(Some(len))) => {
                &&& handed_up(after.runner).len() == handed_up(before.runner).len() + 1
                &&& handed_up(after.runner).drop_last() == handed_up(before.runner)
                &&& handed_up(after.runner).last() == slot_held(before.runner)->0.take(len as int)
            },
            _ => handed_up(after.runner) == handed_up(before.runner),
        },
        match event {
            Event::Transmitted(Err(Error::TxBusy)) => {
                &&& let_go(after.runner) == let_go(before.runner)
                &&& frame_held(after.runner) == frame_held(before.runner)
            },
            Event::Transmitted(_) => {
                &&& let_go(after.runner).len() == let_go(before.runner).len() + 1
                &&& let_go(after.runner).drop_last() == let_go(before.runner)
                &&& let_go(after.runner).last() == frame_held(before.runner)->0
            },
            _ => let_go(after.runner) == let_go(before.runner),
        },
{
}

/// Between two steps the stack has been told what the watch knows, and what
/// the chip is about to be asked for or handed is at hand.
pub proof fn law_queues_are_ready_for_the_chip<'d>(running: Running<'d>)
    requires
        running.wf(),
    ensures
        link_up(running.runner) <==> running.rounds.watch.state is Up,
        running.rounds.action is Receive ==> slot_held(running.runner) is Some,
        running.rounds.action is Transmit ==> frame_held(running.runner) is Some,
        !(running.rounds.action is TakeSlot || running.rounds.action is TakeFrame),
{
}

} // verus!
