//! Control transfers: SETUP, the data stage if there is one, then STATUS.
//!
//! No stage is ever retried in place. A control transfer is a conversation
//! with state on both ends: issuing a data stage again that has already
//! moved some packets starts the host from the first packet while the device
//! carries on from where it was. A transfer that fails in a way worth
//! retrying is therefore restarted from its SETUP, and any other failure
//! ends it.

use super::error::{map_error, retryable_control, PipeError, StallRecord, TransferError};
use super::pipe::Dwc2Pipe;
use vstd::prelude::*;

verus! {

/// The largest data stage a host channel can stage, in bytes.
pub const MAX_TRANSFER_LEN: usize = 256;

/// A control transfer's data stage, if it has one.
#[derive(Clone, Copy, Debug, PartialEq, Eq, Structural)]
pub enum ControlData {
    /// The transfer carries no data.
    Absent,
    /// The device sends.
    In,
    /// The host sends.
    Out,
}

/// One stage of a control transfer.
#[derive(Clone, Copy, Debug, PartialEq, Eq, Structural)]
pub enum Stage {
    /// The SETUP packet.
    Setup,
    /// The data stage, device to host.
    DataIn,
    /// The data stage, host to device.
    DataOut,
    /// The status stage, device to host.
    StatusIn,
    /// The status stage, host to device.
    StatusOut,
}

/// What a control transfer needs done next.
#[derive(Clone, Copy, Debug, PartialEq, Eq)]
pub enum ControlAction {
    /// Run this stage, and report how many bytes it moved or why it failed.
    Run(Stage),
    /// The transfer is over: this many bytes arrived, or this went wrong.
    Finish(Result<usize, PipeError>),
}

/// The name a refused stage goes by.
pub open spec fn stage_label(stage: Stage) -> &'static str {
    match stage {
        Stage::Setup => "SETUP",
        Stage::DataIn | Stage::DataOut => "DATA",
        Stage::StatusIn | Stage::StatusOut => "STATUS",
    }
}

/// Names a stage for the stall record.
fn label(stage: Stage) -> (label: &'static str)
    ensures
        label == stage_label(stage),
{
    match stage {
        Stage::Setup => "SETUP",
        Stage::DataIn => "DATA",
        Stage::DataOut => "DATA",
        Stage::StatusIn => "STATUS",
        Stage::StatusOut => "STATUS",
    }
}

impl ControlData {
    /// The stages of a transfer that carries this, in order. The status
    /// stage runs opposite the data stage, or IN when there is none.
    pub open spec fn stages(self) -> Seq<Stage> {
        match self {
            ControlData::Absent => seq![Stage::Setup, Stage::StatusIn],
            ControlData::In => seq![Stage::Setup, Stage::DataIn, Stage::StatusOut],
            ControlData::Out => seq![Stage::Setup, Stage::DataOut, Stage::StatusIn],
        }
    }
}

/// One control transfer under way.
#[derive(Clone, Copy, Debug, PartialEq, Eq)]
pub struct ControlTransfer {
    /// The SETUP packet.
    pub setup: [u8; 8],
    /// The data stage.
    pub data: ControlData,
    /// The stage being run.
    pub stage: Stage,
    /// The bytes that arrived in this attempt's data stage.
    pub received: usize,
}

impl ControlTransfer {
    /// Whether the stage being run is one of this transfer's, and nothing is
    /// counted as received before a data stage has run.
    pub open spec fn wf(self) -> bool {
        &&& self.data.stages().contains(self.stage)
        &&& self.stage != Stage::StatusOut ==> self.received == 0
    }

    /// The transfer at its first stage.
    pub open spec fn at_setup(setup: [u8; 8], data: ControlData) -> ControlTransfer {
        ControlTransfer { setup, data, stage: Stage::Setup, received: 0 }
    }

    /// The stage that follows the one being run, if there is one.
    pub open spec fn next_stage(self) -> Option<Stage> {
        match self.stage {
            Stage::Setup => Some(
                match self.data {
                    ControlData::Absent => Stage::StatusIn,
                    ControlData::In => Stage::DataIn,
                    ControlData::Out => Stage::DataOut,
                },
            ),
            Stage::DataIn => Some(Stage::StatusOut),
            Stage::DataOut => Some(Stage::StatusIn),
            Stage::StatusIn | Stage::StatusOut => None,
        }
    }

    /// The transfer after its stage came back with `outcome`.
    pub open spec fn following(self, outcome: Result<usize, TransferError>) -> ControlTransfer {
        match outcome {
            Ok(moved) => match self.next_stage() {
                Some(stage) => ControlTransfer {
                    stage,
                    received: if self.stage == Stage::DataIn {
                        moved
                    } else {
                        self.received
                    },
                    ..self
                },
                None => self,
            },
            Err(error) => if super::error::is_retryable_control(error) {
                ControlTransfer::at_setup(self.setup, self.data)
            } else {
                self
            },
        }
    }

    /// What is asked for after its stage came back with `outcome`.
    pub open spec fn answer(self, outcome: Result<usize, TransferError>) -> ControlAction {
        match outcome {
            Ok(_) => match self.next_stage() {
                Some(stage) => ControlAction::Run(stage),
                None => ControlAction::Finish(Ok(self.received)),
            },
            Err(error) => if super::error::is_retryable_control(error) {
                ControlAction::Run(Stage::Setup)
            } else {
                ControlAction::Finish(Err(super::error::pipe_error_of(error)))
            },
        }
    }

    /// Starts a transfer, at its SETUP.
    pub fn start(setup: [u8; 8], data: ControlData) -> (started: (ControlTransfer, ControlAction))
        ensures
            started.0 == ControlTransfer::at_setup(setup, data),
            started.0.wf(),
            started.1 == ControlAction::Run(Stage::Setup),
    {
        let transfer = ControlTransfer { setup, data, stage: Stage::Setup, received: 0 };
        assert(data.stages()[0] == Stage::Setup);
        (transfer, ControlAction::Run(Stage::Setup))
    }

    /// Says what follows, given how the stage being run came out.
    ///
    /// A stage that moved its data leads to the next; the last one ends the
    /// transfer with what arrived. A failure is put on record if it was a
    /// refusal. It restarts the transfer from its SETUP if that is worth
    /// doing, and ends it otherwise. There is no cap on the restarts: the
    /// caller's deadline is what ends them.
    pub fn step(
        &mut self,
        outcome: Result<usize, TransferError>,
        stalls: &mut StallRecord,
    ) -> (action: ControlAction)
        requires
            old(self).wf(),
        ensures
            final(self).wf(),
            *final(self) == old(self).following(outcome),
            action == old(self).answer(outcome),
            *final(stalls) == match outcome {
                Ok(_) => *old(stalls),
                Err(error) => old(stalls).noting(
                    error,
                    old(self).setup,
                    stage_label(old(self).stage),
                ),
            },
    {
        proof {
            lemma_stages(self.data);
        }
        match outcome {
            Ok(moved) => {
                let next: Option<Stage> = match self.stage {
                    Stage::Setup => Some(
                        match self.data {
                            ControlData::Absent => Stage::StatusIn,
                            ControlData::In => Stage::DataIn,
                            ControlData::Out => Stage::DataOut,
                        },
                    ),
                    Stage::DataIn => Some(Stage::StatusOut),
                    Stage::DataOut => Some(Stage::StatusIn),
                    Stage::StatusIn => None,
                    Stage::StatusOut => None,
                };
                match next {
                    Some(stage) => {
                        if self.stage == Stage::DataIn {
                            self.received = moved;
                        }
                        self.stage = stage;
                        ControlAction::Run(stage)
                    },
                    None => ControlAction::Finish(Ok(self.received)),
                }
            },
            Err(error) => {
                stalls.note_stall(error, &self.setup, label(self.stage));
                if retryable_control(error) {
                    self.stage = Stage::Setup;
                    self.received = 0;
                    ControlAction::Run(Stage::Setup)
                } else {
                    ControlAction::Finish(Err(map_error(error)))
                }
            },
        }
    }
}

/// What a control transfer reports in the end: what it came to, or a timeout
/// if the deadline passed first.
pub fn control_result(finished: Option<Result<usize, PipeError>>) -> (result: Result<
    usize,
    PipeError,
>)
    ensures
        result == match finished {
            Some(outcome) => outcome,
            None => Err(PipeError::Timeout),
        },
{
    match finished {
        Some(outcome) => outcome,
        None => Err(PipeError::Timeout),
    }
}

impl Dwc2Pipe {
    /// The data stage of a device-to-host transfer into a buffer of `len`
    /// bytes, and the ticks the whole transfer may take.
    ///
    /// A buffer longer than the channel can stage is refused.
    pub fn control_in(&self, len: usize) -> (plan: Result<(ControlData, u64), PipeError>)
        requires
            self.wf(),
        ensures
            len > MAX_TRANSFER_LEN ==> plan == Err::<(ControlData, u64), PipeError>(
                PipeError::BufferOverflow,
            ),
            len <= MAX_TRANSFER_LEN ==> plan == Ok::<(ControlData, u64), PipeError>(
                (
                    if len == 0 {
                        ControlData::Absent
                    } else {
                        ControlData::In
                    },
                    self.deadline(len > 0),
                ),
            ),
    {
        if len > MAX_TRANSFER_LEN {
            return Err(PipeError::BufferOverflow);
        }
        let data = if len == 0 {
            ControlData::Absent
        } else {
            ControlData::In
        };
        Ok((data, self.control_timeout(len > 0)))
    }

    /// The data stage of a host-to-device transfer of `len` bytes, and the
    /// ticks the whole transfer may take. Bounded like
    /// [`control_in`](Self::control_in).
    pub fn control_out(&self, len: usize) -> (plan: Result<(ControlData, u64), PipeError>)
        requires
            self.wf(),
        ensures
            len > MAX_TRANSFER_LEN ==> plan == Err::<(ControlData, u64), PipeError>(
                PipeError::BufferOverflow,
            ),
            len <= MAX_TRANSFER_LEN ==> plan == Ok::<(ControlData, u64), PipeError>(
                (
                    if len == 0 {
                        ControlData::Absent
                    } else {
                        ControlData::Out
                    },
                    self.deadline(len > 0),
                ),
            ),
    {
        if len > MAX_TRANSFER_LEN {
            return Err(PipeError::BufferOverflow);
        }
        let data = if len == 0 {
            ControlData::Absent
        } else {
            ControlData::Out
        };
        Ok((data, self.control_timeout(len > 0)))
    }
}

/// Which stages each kind of transfer has.
proof fn lemma_stages(data: ControlData)
    ensures
        forall|stage: Stage|
            #[trigger] data.stages().contains(stage) <==> match data {
                ControlData::Absent => stage == Stage::Setup || stage == Stage::StatusIn,
                ControlData::In => stage == Stage::Setup || stage == Stage::DataIn || stage
                    == Stage::StatusOut,
                ControlData::Out => stage == Stage::Setup || stage == Stage::DataOut || stage
                    == Stage::StatusIn,
            },
{
    let stages = data.stages();
    assert(stages[0] == Stage::Setup);
    match data {
        ControlData::Absent => {
            assert(stages[1] == Stage::StatusIn);
        },
        ControlData::In => {
            assert(stages[1] == Stage::DataIn);
            assert(stages[2] == Stage::StatusOut);
        },
        ControlData::Out => {
            assert(stages[1] == Stage::DataOut);
            assert(stages[2] == Stage::StatusIn);
        },
    }
}

impl ControlTransfer {
    /// Where this stands after its stages came back with `outcomes`.
    pub open spec fn after(self, outcomes: Seq<Result<usize, TransferError>>) -> ControlTransfer
        decreases outcomes.len(),
    {
        if outcomes.len() == 0 {
            self
        } else {
            self.after(outcomes.drop_last()).following(outcomes.last())
        }
    }

    /// What is asked for after its stages came back with `outcomes`.
    pub open spec fn final_answer(
        self,
        outcomes: Seq<Result<usize, TransferError>>,
    ) -> ControlAction {
        self.after(outcomes.drop_last()).answer(outcomes.last())
    }
}

/// How many stages lie behind a transfer, in the attempt under way.
spec fn stages_behind(transfer: ControlTransfer) -> nat {
    match transfer.stage {
        Stage::Setup => 0,
        Stage::DataIn | Stage::DataOut => 1,
        Stage::StatusIn => if transfer.data == ControlData::Absent {
            1
        } else {
            2
        },
        Stage::StatusOut => 2,
    }
}

/// The stages that lie behind a transfer are its most recent outcomes, all
/// of them successes, and what it has received is what its data stage moved.
proof fn lemma_behind_is_clean(
    setup: [u8; 8],
    data: ControlData,
    outcomes: Seq<Result<usize, TransferError>>,
)
    requires
        forall|n: int|
            0 < n <= outcomes.len() ==> (#[trigger] ControlTransfer::at_setup(
                setup,
                data,
            ).final_answer(outcomes.take(n))) is Run,
    ensures
        ({
            let now = ControlTransfer::at_setup(setup, data).after(outcomes);
            let behind = stages_behind(now);
            &&& now.wf()
            &&& now.setup == setup
            &&& now.data == data
            &&& behind <= outcomes.len()
            &&& forall|i: int|
                outcomes.len() - behind <= i < outcomes.len() ==> (#[trigger] outcomes[i]) is Ok
            &&& now.stage == Stage::StatusOut ==> now.received == outcomes.last()->Ok_0
        }),
    decreases outcomes.len(),
{
    lemma_stages(data);
    if outcomes.len() > 0 {
        let fresh = ControlTransfer::at_setup(setup, data);
        let earlier = outcomes.drop_last();
        assert forall|n: int| 0 < n <= earlier.len() implies (#[trigger] fresh.final_answer(
            earlier.take(n),
        )) is Run by {
            assert(earlier.take(n) =~= outcomes.take(n));
            assert(fresh.final_answer(outcomes.take(n)) is Run);
        }
        lemma_behind_is_clean(setup, data, earlier);
        assert(outcomes.take(outcomes.len() as int) =~= outcomes);
        assert(fresh.final_answer(outcomes.take(outcomes.len() as int)) is Run);
        let before = fresh.after(earlier);
        let now = fresh.after(outcomes);
        assert forall|i: int| outcomes.len() - stages_behind(now) <= i < outcomes.len() implies (
        #[trigger] outcomes[i]) is Ok by {
            if i < outcomes.len() - 1 {
                assert(outcomes[i] == earlier[i]);
            }
        }
    }
}

/// A control transfer succeeds only as one clean attempt: the outcomes that
/// end in success are those of its SETUP, its data stage if it has one, and
/// its status stage, run in that order with no failure among them. What is
/// reported as received is what that attempt's own data stage moved, however
/// much earlier attempts had moved before they failed.
pub proof fn law_success_is_one_clean_attempt(
    setup: [u8; 8],
    data: ControlData,
    outcomes: Seq<Result<usize, TransferError>>,
    received: usize,
)
    requires
        outcomes.len() > 0,
        forall|n: int|
            0 < n < outcomes.len() ==> (#[trigger] ControlTransfer::at_setup(
                setup,
                data,
            ).final_answer(outcomes.take(n))) is Run,
        ControlTransfer::at_setup(setup, data).final_answer(outcomes) == ControlAction::Finish(
            Ok(received),
        ),
    ensures
        outcomes.len() >= data.stages().len(),
        forall|i: int|
            outcomes.len() - data.stages().len() <= i < outcomes.len() ==> (
            #[trigger] outcomes[i]) is Ok,
        received == if data == ControlData::In {
            outcomes[outcomes.len() - 2]->Ok_0
        } else {
            0
        },
{
    let fresh = ControlTransfer::at_setup(setup, data);
    let earlier = outcomes.drop_last();
    assert forall|n: int| 0 < n <= earlier.len() implies (#[trigger] fresh.final_answer(
        earlier.take(n),
    )) is Run by {
        assert(earlier.take(n) =~= outcomes.take(n));
        assert(fresh.final_answer(outcomes.take(n)) is Run);
    }
    lemma_behind_is_clean(setup, data, earlier);
    lemma_stages(data);
    assert forall|i: int|
        outcomes.len() - data.stages().len() <= i < outcomes.len() implies (
    #[trigger] outcomes[i]) is Ok by {
        if i < outcomes.len() - 1 {
            assert(outcomes[i] == earlier[i]);
        }
    }
    if data == ControlData::In {
        assert(earlier.last() == outcomes[outcomes.len() - 2]);
    }
}

/// No stage is retried in place: whatever stage a transfer is at, a failure
/// either starts it over from its SETUP with nothing received, or ends it.
/// What starts it over never reaches the caller.
pub proof fn law_no_stage_is_retried_in_place(transfer: ControlTransfer, error: TransferError)
    ensures
        match transfer.answer(Err(error)) {
            ControlAction::Run(stage) => stage == Stage::Setup && transfer.following(Err(error))
                == ControlTransfer::at_setup(transfer.setup, transfer.data),
            ControlAction::Finish(result) => result is Err && !super::error::is_retryable_control(
                error,
            ),
        },
{
}

/// The status stage runs opposite the data stage, and IN when there is none.
pub proof fn law_status_opposes_data(data: ControlData)
    ensures
        data.stages().first() == Stage::Setup,
        data.stages().last() == if data == ControlData::In {
            Stage::StatusOut
        } else {
            Stage::StatusIn
        },
{
}

/// A transfer starts with its SETUP, knowing what it was asked and having
/// received nothing.
pub proof fn law_transfer_starts_at_its_setup(setup: [u8; 8], data: ControlData)
    ensures
        ({
            let fresh = ControlTransfer::at_setup(setup, data);
            &&& fresh.setup == setup
            &&& fresh.data == data
            &&& fresh.stage is Setup
            &&& fresh.received == 0
            &&& fresh.wf()
        }),
{
    assert(data.stages()[0] == Stage::Setup);
}

/// A failure ends the transfer with the error that means the same, at every
/// stage. The three that a SETUP can put right do not: they start the
/// transfer over with what it was asked, and nothing of the attempt is left.
pub proof fn law_failure_ends_or_starts_over(transfer: ControlTransfer, error: TransferError)
    ensures
        match error {
            TransferError::Nak | TransferError::FrameOverrun | TransferError::DataToggleError => {
                let over = transfer.following(Err(error));
                &&& transfer.answer(Err(error)) == ControlAction::Run(Stage::Setup)
                &&& over.stage is Setup
                &&& over.received == 0
                &&& over.setup == transfer.setup
                &&& over.data == transfer.data
            },
            TransferError::Stall => transfer.answer(Err(error)) == ControlAction::Finish(
                Err(PipeError::Stall),
            ),
            TransferError::Babble => transfer.answer(Err(error)) == ControlAction::Finish(
                Err(PipeError::Babble),
            ),
            TransferError::TransactionError | TransferError::Halted => transfer.answer(Err(error))
                == ControlAction::Finish(Err(PipeError::BadResponse)),
            TransferError::Timeout | TransferError::NakTimeout => transfer.answer(Err(error))
                == ControlAction::Finish(Err(PipeError::Timeout)),
        },
{
}

/// An attempt without a failure runs SETUP, the data stage the transfer has,
/// and a status stage against it, in that order, and ends in success with
/// what the device sent: nothing on a transfer without data or on a write,
/// what the data stage moved on a read.
pub proof fn law_clean_attempt_succeeds(
    setup: [u8; 8],
    data: ControlData,
    sent: usize,
    moved: usize,
    acknowledged: usize,
)
    ensures
        ({
            let fresh = ControlTransfer::at_setup(setup, data);
            let second = fresh.following(Ok(sent));
            let third = second.following(Ok(moved));
            match data {
                ControlData::Absent => {
                    &&& fresh.answer(Ok(sent)) == ControlAction::Run(Stage::StatusIn)
                    &&& second.stage is StatusIn
                    &&& second.answer(Ok(moved)) == ControlAction::Finish(Ok(0))
                },
                ControlData::In => {
                    &&& fresh.answer(Ok(sent)) == ControlAction::Run(Stage::DataIn)
                    &&& second.stage is DataIn
                    &&& second.answer(Ok(moved)) == ControlAction::Run(Stage::StatusOut)
                    &&& third.stage is StatusOut
                    &&& third.answer(Ok(acknowledged)) == ControlAction::Finish(Ok(moved))
                },
                ControlData::Out => {
                    &&& fresh.answer(Ok(sent)) == ControlAction::Run(Stage::DataOut)
                    &&& second.stage is DataOut
                    &&& second.answer(Ok(moved)) == ControlAction::Run(Stage::StatusIn)
                    &&& third.stage is StatusIn
                    &&& third.answer(Ok(acknowledged)) == ControlAction::Finish(Ok(0))
                },
            }
        }),
{
}

/// What a transfer was asked never changes under way.
pub proof fn law_request_is_kept(
    transfer: ControlTransfer,
    outcomes: Seq<Result<usize, TransferError>>,
)
    ensures
        transfer.after(outcomes).setup == transfer.setup,
        transfer.after(outcomes).data == transfer.data,
    decreases outcomes.len(),
{
    if outcomes.len() > 0 {
        law_request_is_kept(transfer, outcomes.drop_last());
    }
}

/// A refusal is put on record with the request and the stage that was
/// refused, whichever direction the stage runs in.
pub proof fn law_refusal_names_its_stage(record: StallRecord, transfer: ControlTransfer)
    ensures
        ({
            let noted = record.noting(
                TransferError::Stall,
                transfer.setup,
                stage_label(transfer.stage),
            );
            &&& noted.setup == transfer.setup
            &&& noted.stage == match transfer.stage {
                Stage::Setup => "SETUP",
                Stage::DataIn => "DATA",
                Stage::DataOut => "DATA",
                Stage::StatusIn => "STATUS",
                Stage::StatusOut => "STATUS",
            }
        }),
{
}

/// A stage belongs to a transfer exactly where the transfer's data calls for
/// it.
pub proof fn law_stages_follow_from_the_data(transfer: ControlTransfer)
    requires
        transfer.wf(),
    ensures
        transfer.stage is DataIn ==> transfer.data is In,
        transfer.stage is StatusOut ==> transfer.data is In,
        transfer.stage is DataOut ==> transfer.data is Out,
        transfer.stage is StatusIn ==> !(transfer.data is In),
        transfer.received > 0 ==> transfer.stage is StatusOut,
{
    lemma_stages(transfer.data);
}

} // verus!
