//! The `embassy-time` driver's decisions: what is queued, what is due, and
//! which deadline the hardware alarm has to be armed for.
//!
//! The System Timer's Compare 1 is an equality test, so a deadline the
//! counter has already walked past would only fire a whole wrap later. The
//! hardware refuses to arm one, and the driver then drains the queue against
//! a fresh clock reading and asks again. Each such round takes at least the
//! deadline that was missed out of the queue
//! ([`law_missed_deadline_shrinks_queue`]), so the rounds come to an end
//! ([`law_arming_comes_to_an_end`]).

use core::task::Waker;
use embassy_time_queue_utils::Queue;
use vstd::multiset::Multiset;
use vstd::prelude::*;

verus! {

/// Timers the queue holds at once.
pub const QUEUE_CAPACITY: usize = 64;

/// `embassy_time_queue_utils::Queue`, the timer queue.
#[verifier::external_type_specification]
#[verifier::external_body]
pub struct ExQueue(Queue);

/// `core::task::Waker`, which wakes one task.
#[verifier::external_type_specification]
#[verifier::external_body]
pub struct ExWaker(Waker);

/// The deadlines a queue holds, one for each task waiting on it.
pub uninterp spec fn queue_deadlines(queue: Queue) -> Multiset<u64>;

/// The deadline of the first entry in a queue that will wake the task behind
/// a waker, as `Waker::will_wake` tells, if there is such an entry.
pub uninterp spec fn queue_entry(queue: Queue, waker: Waker) -> Option<u64>;

/// The deadlines of the entries that have left a queue, the task of each
/// woken as it left.
pub uninterp spec fn queue_woken(queue: Queue) -> Multiset<u64>;

/// How many of the entries that have left a queue woke the task behind a
/// waker as they left, as `Waker::will_wake` tells.
pub uninterp spec fn queue_wakes(queue: Queue, waker: Waker) -> nat;

/// `Queue::new`: an empty queue, which has woken nobody.
#[verifier::external_body]
fn empty_queue() -> (queue: Queue)
    ensures
        queue_deadlines(queue) == Multiset::<u64>::empty(),
        forall|waker: Waker| (#[trigger] queue_entry(queue, waker)) is None,
        queue_woken(queue) == Multiset::<u64>::empty(),
        forall|waker: Waker| (#[trigger] queue_wakes(queue, waker)) == 0,
{
    Queue::new()
}

/// `Queue::schedule_wake`: makes sure the task is woken no later than `at`.
///
/// A task that is queued already keeps the earlier of its two deadlines, and
/// the answer says whether that moved it. A task that is not queued is
/// added, and the answer is yes; in a full queue some other entry makes room
/// for it, its task being woken at once, and nobody is woken otherwise. Which
/// entry that is the contract leaves open, and so it does whether the entry
/// just added is recognised when the same waker comes again:
/// `Waker::will_wake` works on a best-effort basis.
#[verifier::external_body]
fn enqueue(queue: &mut Queue, at: u64, waker: &Waker) -> (changed: bool)
    ensures
        match queue_entry(*old(queue), *waker) {
            Some(due) => {
                &&& queue_deadlines(*old(queue)).contains(due)
                &&& changed == (at < due)
                &&& queue_deadlines(*final(queue)) == if at < due {
                    queue_deadlines(*old(queue)).remove(due).insert(at)
                } else {
                    queue_deadlines(*old(queue))
                }
                &&& queue_entry(*final(queue), *waker) == Some(if at < due { at } else { due })
                &&& queue_woken(*final(queue)) == queue_woken(*old(queue))
            },
            None => {
                &&& changed
                &&& queue_entry(*final(queue), *waker) is None || queue_entry(
                    *final(queue),
                    *waker,
                ) == Some(at)
                &&& queue_deadlines(*old(queue)).len() < QUEUE_CAPACITY ==> queue_deadlines(
                    *final(queue),
                ) == queue_deadlines(*old(queue)).insert(at) && queue_woken(*final(queue))
                    == queue_woken(*old(queue))
                &&& queue_deadlines(*old(queue)).len() >= QUEUE_CAPACITY ==> exists|evicted: u64|
                    #[trigger] queue_deadlines(*old(queue)).contains(evicted) && queue_deadlines(
                        *final(queue),
                    ) == queue_deadlines(*old(queue)).remove(evicted).insert(at) && queue_woken(
                        *final(queue),
                    ) == queue_woken(*old(queue)).insert(evicted)
            },
        },
        forall|other: Waker|
            {
                ||| (#[trigger] queue_entry(*final(queue), other)) == queue_entry(
                    *old(queue),
                    other,
                )
                ||| queue_entry(*final(queue), other) == Some(at)
                ||| queue_entry(*final(queue), other) is None && queue_wakes(*final(queue), other)
                    == queue_wakes(*old(queue), other) + 1
            },
        forall|other: Waker|
            {
                ||| (#[trigger] queue_wakes(*final(queue), other)) == queue_wakes(
                    *old(queue),
                    other,
                )
                ||| {
                    &&& queue_wakes(*final(queue), other) == queue_wakes(*old(queue), other) + 1
                    &&& queue_entry(*old(queue), other) is Some
                    &&& queue_entry(*old(queue), *waker) is None
                    &&& queue_deadlines(*old(queue)).len() >= QUEUE_CAPACITY
                }
            },
{
    queue.schedule_wake(at, waker)
}

/// `Queue::next_expiration`: takes out every entry due by `now`, waking its
/// task, and reports the earliest deadline that stays, or the largest
/// instant when none does. A task with an entry that is not due keeps one,
/// and a task that no entry stands for is not woken.
#[verifier::external_body]
fn dequeue_expired(queue: &mut Queue, now: u64) -> (next: u64)
    ensures
        queue_deadlines(*final(queue)) == queue_deadlines(*old(queue)).filter(
            |deadline: u64| deadline > now,
        ),
        forall|waker: Waker|
            match #[trigger] queue_entry(*final(queue), waker) {
                Some(deadline) => {
                    &&& queue_entry(*old(queue), waker) is Some
                    &&& queue_deadlines(*final(queue)).contains(deadline)
                },
                None => queue_entry(*old(queue), waker) matches Some(deadline) ==> deadline
                    <= now,
            },
        queue_woken(*final(queue)) == queue_woken(*old(queue)).add(
            due_by(queue_deadlines(*old(queue)), now),
        ),
        forall|waker: Waker|
            match queue_entry(*old(queue), waker) {
                Some(deadline) => {
                    &&& (#[trigger] queue_wakes(*final(queue), waker)) >= queue_wakes(
                        *old(queue),
                        waker,
                    )
                    &&& deadline <= now ==> queue_wakes(*final(queue), waker) > queue_wakes(
                        *old(queue),
                        waker,
                    )
                },
                None => queue_wakes(*final(queue), waker) == queue_wakes(*old(queue), waker),
            },
        is_earliest(next, queue_deadlines(*final(queue))),
{
    queue.next_expiration(now)
}

/// Whether `alarm` is the earliest of the pending deadlines, or the largest
/// instant when nothing is pending.
pub open spec fn is_earliest(alarm: u64, pending: Multiset<u64>) -> bool {
    &&& forall|deadline: u64| #[trigger] pending.contains(deadline) ==> alarm <= deadline
    &&& pending.len() > 0 ==> pending.contains(alarm)
    &&& pending.len() == 0 ==> alarm == u64::MAX
}

/// The deadlines still pending once everything due by `now` has been woken.
pub open spec fn still_pending(pending: Multiset<u64>, now: u64) -> Multiset<u64> {
    pending.filter(|deadline: u64| deadline > now)
}

/// The deadlines that have come due by `now`.
pub open spec fn due_by(pending: Multiset<u64>, now: u64) -> Multiset<u64> {
    pending.filter(|deadline: u64| deadline <= now)
}

/// The deadlines still pending once the queue has been drained at each of
/// these readings of the clock.
pub open spec fn pending_after(pending: Multiset<u64>, readings: Seq<u64>) -> Multiset<u64>
    decreases readings.len(),
{
    if readings.len() == 0 {
        pending
    } else {
        still_pending(pending_after(pending, readings.drop_last()), readings.last())
    }
}

/// What the driver needs done next.
#[derive(Clone, Copy, Debug, PartialEq, Eq, Structural)]
pub enum AlarmAction {
    /// Acknowledge the Compare 1 match, then report
    /// [`AlarmEvent::MatchCleared`].
    ClearMatch,
    /// Read the counter, and report it as [`AlarmEvent::Clock`].
    ReadClock,
    /// Arm Compare 1 for this deadline, and report [`AlarmEvent::Armed`], or
    /// [`AlarmEvent::Missed`] if the hardware refused it.
    Arm(u64),
    /// Nothing: the alarm is right as it stands.
    Settled,
}

/// What came of an [`AlarmAction`].
#[derive(Clone, Copy, Debug, PartialEq, Eq, Structural)]
pub enum AlarmEvent {
    /// The match flag has been cleared.
    MatchCleared,
    /// The counter reads this.
    Clock(u64),
    /// The deadline is armed.
    Armed,
    /// The counter reached the deadline before it could be armed.
    Missed,
}

/// The `embassy-time` driver: the queue of tasks waiting on a deadline.
pub struct TimeDriver {
    queue: Queue,
}

impl TimeDriver {
    /// The pending deadlines, one for each waiting task.
    pub closed spec fn pending(self) -> Multiset<u64> {
        queue_deadlines(self.queue)
    }

    /// The deadline found for the task behind `waker`, if one is found.
    pub closed spec fn deadline_of(self, waker: Waker) -> Option<u64> {
        queue_entry(self.queue, waker)
    }

    /// The deadlines that have left the queue, the task of each woken as it
    /// left.
    pub closed spec fn woken(self) -> Multiset<u64> {
        queue_woken(self.queue)
    }

    /// How many times the task behind `waker` has been woken.
    pub closed spec fn wakes_of(self, waker: Waker) -> nat {
        queue_wakes(self.queue, waker)
    }

    /// Whether the task behind `waker` is done right by once everything due
    /// by `now` has been woken: one whose deadline has come is woken, one
    /// whose deadline lies ahead is still waiting, on a pending deadline,
    /// one that waits was waiting, and one that was not is left alone.
    pub open spec fn keeps_after(self, drained: TimeDriver, waker: Waker, now: u64) -> bool {
        &&& match self.deadline_of(waker) {
            Some(deadline) => {
                &&& drained.wakes_of(waker) >= self.wakes_of(waker)
                &&& deadline <= now ==> drained.wakes_of(waker) > self.wakes_of(waker)
            },
            None => drained.wakes_of(waker) == self.wakes_of(waker),
        }
        &&& match drained.deadline_of(waker) {
            Some(deadline) => {
                &&& self.deadline_of(waker) is Some
                &&& drained.pending().contains(deadline)
            },
            None => self.deadline_of(waker) matches Some(deadline) ==> deadline <= now,
        }
    }

    /// Whether putting down the task behind `waker` takes another entry's
    /// place: the task is not queued, and the queue is full.
    pub open spec fn makes_room_for(self, waker: Waker) -> bool {
        self.deadline_of(waker) is None && self.pending().len() >= QUEUE_CAPACITY
    }

    /// Whether the task behind `other` is done right by once one has been
    /// put down for `at`: it waits on what it waited on, or is the task that
    /// was put down, or has been woken to make room where that had to be
    /// made, and nobody is woken for any other reason.
    pub open spec fn keeps_beside(
        self,
        scheduled: TimeDriver,
        other: Waker,
        at: u64,
        makes_room: bool,
    ) -> bool {
        &&& {
            ||| scheduled.deadline_of(other) == self.deadline_of(other)
            ||| scheduled.deadline_of(other) == Some(at)
            ||| scheduled.deadline_of(other) is None && scheduled.wakes_of(other) == self.wakes_of(
                other,
            ) + 1
        }
        &&& {
            ||| scheduled.wakes_of(other) == self.wakes_of(other)
            ||| {
                &&& scheduled.wakes_of(other) == self.wakes_of(other) + 1
                &&& self.deadline_of(other) is Some
                &&& makes_room
            }
        }
    }

    /// A driver with nobody waiting.
    pub fn new() -> (driver: Self)
        ensures
            driver.pending() == Multiset::<u64>::empty(),
            forall|waker: Waker| (#[trigger] driver.deadline_of(waker)) is None,
            driver.woken() == Multiset::<u64>::empty(),
            forall|waker: Waker| (#[trigger] driver.wakes_of(waker)) == 0,
    {
        let driver = TimeDriver { queue: empty_queue() };
        assert forall|waker: Waker| (#[trigger] driver.deadline_of(waker)) is None by {
            assert(queue_entry(driver.queue, waker) is None);
        }
        assert forall|waker: Waker| (#[trigger] driver.wakes_of(waker)) == 0 by {
            assert(queue_wakes(driver.queue, waker) == 0);
        }
        driver
    }

    /// Puts the task behind `waker` down for `at`.
    ///
    /// The alarm only has to be looked at again if that changed the queue; a
    /// task that already wakes earlier leaves the hardware alarm correct.
    pub fn schedule_wake(&mut self, at: u64, waker: &Waker) -> (action: AlarmAction)
        ensures
            action == AlarmAction::ReadClock || action == AlarmAction::Settled,
            action == AlarmAction::Settled ==> final(self).pending() == old(self).pending(),
            match old(self).deadline_of(*waker) {
                Some(due) => {
                    &&& old(self).pending().contains(due)
                    &&& (action == AlarmAction::ReadClock) == (at < due)
                    &&& final(self).pending() == if at < due {
                        old(self).pending().remove(due).insert(at)
                    } else {
                        old(self).pending()
                    }
                    &&& final(self).deadline_of(*waker) == Some(if at < due { at } else { due })
                    &&& final(self).woken() == old(self).woken()
                },
                None => {
                    &&& action == AlarmAction::ReadClock
                    &&& final(self).deadline_of(*waker) is None || final(self).deadline_of(*waker)
                        == Some(at)
                    &&& old(self).pending().len() < QUEUE_CAPACITY ==> final(self).pending()
                        == old(self).pending().insert(at) && final(self).woken()
                        == old(self).woken()
                    &&& old(self).pending().len() >= QUEUE_CAPACITY ==> exists|evicted: u64|
                        #[trigger] old(self).pending().contains(evicted) && final(self).pending()
                            == old(self).pending().remove(evicted).insert(at)
                            && final(self).woken() == old(self).woken().insert(evicted)
                },
            },
            forall|other: Waker| #[trigger]
                old(self).keeps_beside(
                    *final(self),
                    other,
                    at,
                    old(self).makes_room_for(*waker),
                ),
    {
        let head_changed = enqueue(&mut self.queue, at, waker);
        proof {
            assert forall|other: Waker| #[trigger]
                old(self).keeps_beside(
                    *self,
                    other,
                    at,
                    old(self).makes_room_for(*waker),
                ) by {
                assert(queue_entry(self.queue, other) == self.deadline_of(other));
                assert(queue_wakes(self.queue, other) == self.wakes_of(other));
            }
        }
        if head_changed {
            AlarmAction::ReadClock
        } else {
            AlarmAction::Settled
        }
    }

    /// Wakes everything due by `now`, and says which deadline the alarm has
    /// to be armed for: the earliest that is left.
    fn rearm(&mut self, now: u64) -> (next: u64)
        ensures
            final(self).pending() == still_pending(old(self).pending(), now),
            final(self).woken() == old(self).woken().add(due_by(old(self).pending(), now)),
            forall|waker: Waker| #[trigger] old(self).keeps_after(*final(self), waker, now),
            is_earliest(next, final(self).pending()),
    {
        let next = dequeue_expired(&mut self.queue, now);
        assert forall|waker: Waker| #[trigger] old(self).keeps_after(*self, waker, now) by {
            assert(queue_entry(self.queue, waker) == self.deadline_of(waker));
            assert(queue_wakes(self.queue, waker) == self.wakes_of(waker));
        }
        next
    }

    /// Says what to do about `event`.
    ///
    /// The match flag is cleared before anything is drained, so a deadline
    /// that comes due meanwhile can set it again. A refused deadline is not
    /// a failure: the queue is drained against a fresh reading and the next
    /// one is tried.
    pub fn step(&mut self, event: AlarmEvent) -> (action: AlarmAction)
        ensures
            match event {
                AlarmEvent::MatchCleared | AlarmEvent::Missed => {
                    &&& action == AlarmAction::ReadClock
                    &&& *final(self) == *old(self)
                },
                AlarmEvent::Clock(now) => {
                    &&& action matches AlarmAction::Arm(next)
                    &&& is_earliest(next, final(self).pending())
                    &&& final(self).pending() == still_pending(old(self).pending(), now)
                    &&& final(self).woken() == old(self).woken().add(
                        due_by(old(self).pending(), now),
                    )
                    &&& forall|waker: Waker| #[trigger]
                        old(self).keeps_after(*final(self), waker, now)
                },
                AlarmEvent::Armed => {
                    &&& action == AlarmAction::Settled
                    &&& *final(self) == *old(self)
                },
            },
    {
        match event {
            AlarmEvent::MatchCleared => AlarmAction::ReadClock,
            AlarmEvent::Missed => AlarmAction::ReadClock,
            AlarmEvent::Clock(now) => AlarmAction::Arm(self.rearm(now)),
            AlarmEvent::Armed => AlarmAction::Settled,
        }
    }
}

/// Starts servicing a Compare 1 interrupt, by acknowledging the match.
///
/// Harmless to call spuriously: with nothing due, the driver simply arms the
/// same deadline again.
pub fn on_timer_irq() -> (action: AlarmAction)
    ensures
        action == AlarmAction::ClearMatch,
{
    AlarmAction::ClearMatch
}

/// A deadline that the counter reached before it could be armed leaves the
/// queue in the next round: draining against any clock reading from then on
/// leaves strictly fewer deadlines pending.
pub proof fn law_missed_deadline_shrinks_queue(pending: Multiset<u64>, alarm: u64, now: u64)
    requires
        is_earliest(alarm, pending),
        pending.len() > 0,
        alarm <= now,
    ensures
        still_pending(pending, now).len() < pending.len(),
{
    let kept = still_pending(pending, now);
    let dropped = pending.sub(kept);
    broadcast use vstd::multiset::group_multiset_axioms;

    assert(kept.subset_of(pending));
    assert(kept.count(alarm) == 0);
    assert(dropped.count(alarm) > 0);
    assert(dropped.len() == pending.len() - kept.len());
    assert(dropped.count(alarm) <= dropped.len());
}

/// Arming comes to an end: however the clock races ahead, no more deadlines
/// can be missed in a row than were pending. Each of the `alarms` is the
/// earliest deadline left after the readings before it, and is missed by the
/// reading that goes with it.
pub proof fn law_arming_comes_to_an_end(
    pending: Multiset<u64>,
    alarms: Seq<u64>,
    readings: Seq<u64>,
)
    requires
        alarms.len() == readings.len(),
        forall|i: int|
            0 <= i < alarms.len() ==> {
                &&& is_earliest(#[trigger] alarms[i], pending_after(pending, readings.take(i)))
                &&& pending_after(pending, readings.take(i)).len() > 0
                &&& alarms[i] <= readings[i]
            },
    ensures
        pending_after(pending, readings).len() + readings.len() <= pending.len(),
    decreases readings.len(),
{
    if readings.len() > 0 {
        let earlier = readings.drop_last();
        let last = readings.len() - 1;
        assert forall|i: int| 0 <= i < alarms.drop_last().len() implies {
            &&& is_earliest(
                #[trigger] alarms.drop_last()[i],
                pending_after(pending, earlier.take(i)),
            )
            &&& pending_after(pending, earlier.take(i)).len() > 0
            &&& alarms.drop_last()[i] <= earlier[i]
        } by {
            assert(alarms.drop_last()[i] == alarms[i]);
            assert(earlier.take(i) =~= readings.take(i));
        }
        law_arming_comes_to_an_end(pending, alarms.drop_last(), earlier);
        assert(readings.take(last) =~= earlier);
        assert(alarms[last] <= readings[last]);
        law_missed_deadline_shrinks_queue(
            pending_after(pending, earlier),
            alarms[last],
            readings[last],
        );
    }
}

/// A spurious interrupt is a non-event: with nothing due by `now`, draining
/// takes nothing out of the queue, and the deadline to arm stays the same.
pub proof fn law_nothing_due_changes_nothing(pending: Multiset<u64>, alarm: u64, now: u64)
    requires
        is_earliest(alarm, pending),
        now < alarm,
    ensures
        still_pending(pending, now) == pending,
        forall|next: u64| is_earliest(next, still_pending(pending, now)) ==> next == alarm,
{
    broadcast use vstd::multiset::group_multiset_axioms;

    assert forall|deadline: u64| still_pending(pending, now).count(deadline) == pending.count(
        deadline,
    ) by {
        if pending.count(deadline) > 0 {
            assert(pending.contains(deadline));
        }
    }
    assert(still_pending(pending, now) =~= pending);
}

/// No deadline is lost: draining at `now` parts the pending deadlines into
/// those that are woken and those that stay.
pub proof fn law_no_deadline_is_lost(pending: Multiset<u64>, now: u64)
    ensures
        still_pending(pending, now).add(due_by(pending, now)) == pending,
{
    broadcast use vstd::multiset::group_multiset_axioms;

    assert(still_pending(pending, now).add(due_by(pending, now)) =~= pending);
}

/// Nothing that is due stays behind: once drained at `now`, every pending
/// deadline lies ahead, and so does the one to arm if any is left.
pub proof fn law_nothing_due_stays_pending(pending: Multiset<u64>, now: u64)
    ensures
        forall|deadline: u64| #[trigger]
            still_pending(pending, now).contains(deadline) ==> now < deadline && pending.contains(
                deadline,
            ),
        forall|next: u64|
            #![trigger is_earliest(next, still_pending(pending, now))]
            is_earliest(next, still_pending(pending, now)) ==> now < next || still_pending(
                pending,
                now,
            ).len() == 0,
{
    broadcast use vstd::multiset::group_multiset_axioms;

}

/// What has come due by `now`, `now` itself among it, is what is woken, and
/// what has not is what stays: every deadline, as often as it is pending, on
/// one side alone.
pub proof fn law_due_means_by_now(pending: Multiset<u64>, deadline: u64, now: u64)
    ensures
        deadline <= now ==> due_by(pending, now).count(deadline) == pending.count(deadline),
        deadline <= now ==> still_pending(pending, now).count(deadline) == 0,
        deadline > now ==> still_pending(pending, now).count(deadline) == pending.count(deadline),
        deadline > now ==> due_by(pending, now).count(deadline) == 0,
{
    broadcast use vstd::multiset::group_multiset_axioms;

}

/// There is one deadline to arm: the nearest that is pending, or the largest
/// instant when nothing is.
pub proof fn law_nearest_deadline_is_armed(
    pending: Multiset<u64>,
    alarm: u64,
    other: u64,
    deadline: u64,
)
    requires
        is_earliest(alarm, pending),
    ensures
        pending.count(deadline) > 0 ==> alarm <= deadline,
        pending.len() > 0 ==> pending.count(alarm) > 0,
        pending.len() == 0 ==> alarm == u64::MAX,
        is_earliest(other, pending) ==> other == alarm,
{
    broadcast use vstd::multiset::group_multiset_axioms;

    if pending.count(deadline) > 0 {
        assert(pending.contains(deadline));
    }
}

/// Draining wakes a task whose deadline has come, leaves one waiting whose
/// deadline has not, and does nothing to one that does not wait.
pub proof fn law_due_tasks_are_woken(
    before: TimeDriver,
    drained: TimeDriver,
    waker: Waker,
    deadline: u64,
    now: u64,
)
    requires
        before.keeps_after(drained, waker, now),
    ensures
        before.deadline_of(waker) == Some(deadline) && deadline <= now ==> drained.wakes_of(waker)
            > before.wakes_of(waker),
        before.deadline_of(waker) == Some(deadline) && deadline > now ==> drained.deadline_of(
            waker,
        ) is Some,
        before.deadline_of(waker) is None ==> drained.wakes_of(waker) == before.wakes_of(waker)
            && drained.deadline_of(waker) is None,
        drained.wakes_of(waker) >= before.wakes_of(waker),
{
}

/// Putting a task down wakes no other task while the queue has room or the
/// task is queued already, and takes no other task's deadline away; where
/// room has to be made, a task that is no longer waiting has been woken.
pub proof fn law_scheduling_leaves_others_alone(
    before: TimeDriver,
    scheduled: TimeDriver,
    waker: Waker,
    other: Waker,
    at: u64,
)
    requires
        before.keeps_beside(scheduled, other, at, before.makes_room_for(waker)),
    ensures
        before.pending().len() < 64 || before.deadline_of(waker) is Some ==> {
            &&& scheduled.wakes_of(other) == before.wakes_of(other)
            &&& before.deadline_of(other) is Some ==> scheduled.deadline_of(other) is Some
        },
        before.deadline_of(other) is Some && scheduled.deadline_of(other) is None
            ==> scheduled.wakes_of(other) == before.wakes_of(other) + 1,
        scheduled.deadline_of(other) is Some && scheduled.deadline_of(other) != Some(at)
            ==> scheduled.deadline_of(other) == before.deadline_of(other),
        before.deadline_of(other) is None ==> scheduled.wakes_of(other) == before.wakes_of(other),
{
}

} // verus!
