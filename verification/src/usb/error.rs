//! Transfer failures: what each one means to the caller, which are worth
//! trying again, and which request a device last refused.

use vstd::prelude::*;

verus! {

/// Why a host channel's transfer did not complete.
#[derive(Clone, Copy, Debug, PartialEq, Eq, Structural)]
pub enum TransferError {
    /// The device answered with STALL: it will not do that.
    Stall,
    /// No response, a bad CRC, or another error on the wire.
    TransactionError,
    /// The device sent more than expected.
    Babble,
    /// The device is not ready yet; flow control rather than a failure.
    Nak,
    /// A retry budget ran out with the device still answering NAK.
    NakTimeout,
    /// The transaction was armed too late in its microframe to finish.
    FrameOverrun,
    /// The packet carried the other data toggle than the one expected.
    DataToggleError,
    /// The channel halted and nothing says why.
    Halted,
    /// The channel never halted.
    Timeout,
}

/// What a pipe reports to the host stack when a transfer fails.
#[derive(Clone, Copy, Debug, PartialEq, Eq, Structural)]
pub enum PipeError {
    /// The buffer cannot be used for the transfer.
    BufferOverflow,
    /// The device or the controller gave up on the wire.
    BadResponse,
    /// The device sent more than expected.
    Babble,
    /// Host and device disagree about the data toggle.
    DataToggleError,
    /// The device refused the request.
    Stall,
    /// Something ran out of time.
    Timeout,
}

/// The pipe error that means the same as a transfer error.
///
/// Running out of time is the only thing reported as a timeout. A channel
/// that stopped unexplained did not run out of time, so it is a bad
/// response.
pub open spec fn pipe_error_of(error: TransferError) -> PipeError {
    match error {
        TransferError::Stall => PipeError::Stall,
        TransferError::Babble => PipeError::Babble,
        TransferError::DataToggleError => PipeError::DataToggleError,
        TransferError::TransactionError
        | TransferError::Halted
        | TransferError::FrameOverrun => PipeError::BadResponse,
        TransferError::Timeout | TransferError::Nak | TransferError::NakTimeout => {
            PipeError::Timeout
        },
    }
}

/// Whether a transfer failure is not really one: flow control, or a
/// transaction the controller dropped for want of time in its microframe.
pub open spec fn is_retryable(error: TransferError) -> bool {
    error == TransferError::Nak || error == TransferError::FrameOverrun
}

/// Whether a control transfer failure is worth starting over for. A SETUP
/// restarts the sequence with a defined toggle at both ends, so a toggle
/// error is recoverable here as well.
pub open spec fn is_retryable_control(error: TransferError) -> bool {
    is_retryable(error) || error == TransferError::DataToggleError
}

/// Maps a transfer failure onto the pipe error that means the same thing.
pub fn map_error(error: TransferError) -> (mapped: PipeError)
    ensures
        mapped == pipe_error_of(error),
{
    match error {
        TransferError::Stall => PipeError::Stall,
        TransferError::TransactionError => PipeError::BadResponse,
        TransferError::Babble => PipeError::Babble,
        TransferError::DataToggleError => PipeError::DataToggleError,
        TransferError::Halted => PipeError::BadResponse,
        TransferError::FrameOverrun => PipeError::BadResponse,
        TransferError::Timeout => PipeError::Timeout,
        TransferError::Nak => PipeError::Timeout,
        TransferError::NakTimeout => PipeError::Timeout,
    }
}

/// Whether a transfer failure is worth simply trying again.
pub fn retryable(error: TransferError) -> (again: bool)
    ensures
        again == is_retryable(error),
{
    match error {
        TransferError::Nak => true,
        TransferError::FrameOverrun => true,
        _ => false,
    }
}

/// Whether a control transfer failure is worth trying again from its SETUP.
pub fn retryable_control(error: TransferError) -> (again: bool)
    ensures
        again == is_retryable_control(error),
{
    retryable(error) || error == TransferError::DataToggleError
}

/// The most recent control request a device refused.
///
/// Diagnostic only: it is not cleared on success, and with several pipes in
/// use it holds whichever was refused last.
#[derive(Clone, Copy, Debug)]
pub struct StallRecord {
    /// The SETUP packet that was refused, or all zeroes if none was.
    pub setup: [u8; 8],
    /// The stage the device refused: `"SETUP"`, `"DATA"` or `"STATUS"`, or
    /// `""` if none was.
    pub stage: &'static str,
}

impl StallRecord {
    /// A record of nothing refused yet.
    pub fn new() -> (record: Self)
        ensures
            record.setup@ == Seq::new(8, |i: int| 0u8),
            record.stage@ == ""@,
    {
        let record = StallRecord { setup: [0u8; 8], stage: "" };
        assert(record.setup@ =~= Seq::new(8, |i: int| 0u8));
        record
    }

    /// Records `setup` and `stage` if `error` is a STALL, and leaves the
    /// record alone otherwise.
    pub fn note_stall(&mut self, error: TransferError, setup: &[u8; 8], stage: &'static str)
        ensures
            *final(self) == old(self).noting(error, *setup, stage),
    {
        if error == TransferError::Stall {
            self.setup = *setup;
            self.stage = stage;
        }
    }

    /// The record after `error` came back from `stage` of the request
    /// `setup`.
    pub open spec fn noting(
        self,
        error: TransferError,
        setup: [u8; 8],
        stage: &'static str,
    ) -> StallRecord {
        if error == TransferError::Stall {
            StallRecord { setup, stage }
        } else {
            self
        }
    }
}

/// The SETUP packet of the most recent control transfer that a device
/// answered with STALL, or all zeroes if none has.
pub fn last_stalled_setup(record: &StallRecord) -> (setup: [u8; 8])
    ensures
        setup == record.setup,
{
    record.setup
}

/// Which stage of the last refused control transfer the device answered with
/// STALL: `"SETUP"`, `"DATA"`, `"STATUS"`, or `""` if none has.
pub fn last_stalled_stage(record: &StallRecord) -> (stage: &'static str)
    ensures
        stage == record.stage,
{
    record.stage
}

/// What is worth trying again on any endpoint is worth starting a control
/// transfer over for.
pub proof fn law_control_retries_what_others_do(error: TransferError)
    requires
        is_retryable(error),
    ensures
        is_retryable_control(error),
{
}

/// A timeout is reported for nothing but a clock or a retry budget that ran
/// out. Of the failures that end a transfer, those are the two timeouts: a
/// channel that halted unexplained is not one of them, and a NAK never ends
/// a transfer.
pub proof fn law_timeout_means_time_ran_out(error: TransferError)
    requires
        !is_retryable(error),
        pipe_error_of(error) == PipeError::Timeout,
    ensures
        error == TransferError::Timeout || error == TransferError::NakTimeout,
{
}

/// Each failure reaches the caller as the one thing it means, and none as a
/// buffer that is too small.
pub proof fn law_each_failure_keeps_its_meaning(error: TransferError)
    ensures
        pipe_error_of(error) is Stall <==> error is Stall,
        pipe_error_of(error) is Babble <==> error is Babble,
        pipe_error_of(error) is DataToggleError <==> error is DataToggleError,
        pipe_error_of(error) is Timeout <==> error is Timeout || error is Nak
            || error is NakTimeout,
        pipe_error_of(error) is BadResponse <==> error is TransactionError || error is Halted
            || error is FrameOverrun,
        !(pipe_error_of(error) is BufferOverflow),
{
}

/// Flow control and a dropped microframe are tried again everywhere, a
/// toggle that is out of step on a control transfer alone, and nothing else
/// anywhere.
pub proof fn law_only_what_can_recover_is_tried_again(error: TransferError)
    ensures
        is_retryable(error) <==> error is Nak || error is FrameOverrun,
        is_retryable_control(error) && !is_retryable(error) <==> error is DataToggleError,
{
}

/// The record holds the last refusal: a refusal replaces it whole, and no
/// other failure touches it.
pub proof fn law_record_holds_the_last_refusal(
    record: StallRecord,
    refused: [u8; 8],
    at: &'static str,
    error: TransferError,
    setup: [u8; 8],
    stage: &'static str,
)
    ensures
        record.noting(TransferError::Stall, refused, at).setup == refused,
        record.noting(TransferError::Stall, refused, at).stage == at,
        !(error is Stall) ==> record.noting(error, setup, stage) == record,
{
}

} // verus!
