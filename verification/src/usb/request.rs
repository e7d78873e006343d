//! Bulk and interrupt transfers: which buffers can be used, when a transfer
//! the device is not ready for is tried again, and how one is ended.

use super::control::MAX_TRANSFER_LEN;
use super::error::{is_retryable, map_error, pipe_error_of, retryable, PipeError, TransferError};
use super::pipe::{Dwc2Pipe, EndpointType};
use crate::ticks::{self, TICKS_PER_MILLI};
use vstd::prelude::*;

verus! {

/// The cache line the controller's DMA works against, in bytes.
pub const CACHE_LINE: usize = 64;

/// Milliseconds between two tries of a bulk transfer the device answers with
/// NAK.
///
/// Trying flat out would monopolise the bus against every other endpoint.
pub const BULK_NAK_RETRY_MS: u64 = 1;

/// What a bulk or interrupt request runs on the host channel.
#[derive(Clone, Copy, Debug, PartialEq, Eq, Structural)]
pub enum TransferKind {
    /// Poll an interrupt IN endpoint into the caller's buffer.
    InterruptIn,
    /// Read a bulk IN endpoint into the caller's buffer.
    BulkIn,
    /// Write the caller's buffer.
    Out,
    /// Write a packet with nothing in it, which marks the end of the
    /// transfer.
    ZeroLength,
}

/// What a request needs done next.
#[derive(Clone, Copy, Debug, PartialEq, Eq)]
pub enum RequestAction {
    /// Run this on the channel now.
    Transfer(TransferKind),
    /// Wait this many ticks, then run this on the channel.
    PauseThen(u64, TransferKind),
    /// The request is over: this many bytes arrived, or this went wrong.
    Finish(Result<usize, PipeError>),
}

/// Whether a buffer starts on a cache line and occupies whole ones.
///
/// The start is what keeps the transfer's own data in lines it owns. The
/// length is what keeps the invalidate after a read from discarding a
/// neighbour that shares the last line.
pub open spec fn fits_cache_lines(address: usize, len: nat) -> bool {
    address % CACHE_LINE == 0 && len % CACHE_LINE as nat == 0
}

/// `<[u8]>::as_ptr`, as a number: where the buffer lies in memory. Nothing
/// is promised of it.
#[verifier::external_body]
fn buffer_address(buf: &[u8]) -> (address: usize) {
    buf.as_ptr() as usize
}

/// Whether `address` is where `buf` lies, as `<[u8]>::as_ptr` tells.
pub closed spec fn lies_at(buf: &[u8], address: usize) -> bool {
    call_ensures(buffer_address, (buf,), address)
}

/// Whether a buffer of `len` bytes at `address` can be used for bulk DMA.
pub fn bulk_region_ok(address: usize, len: usize) -> (ok: bool)
    ensures
        ok == fits_cache_lines(address, len as nat),
{
    address % CACHE_LINE == 0 && len % CACHE_LINE == 0
}

/// Whether `buf` can be used for bulk DMA: cache-line aligned, and a whole
/// number of cache lines long.
///
/// Where a buffer lies is up to the machine; the address it lies at decides.
pub fn bulk_buffer_ok(buf: &[u8]) -> (ok: bool)
    ensures
        exists|address: usize|
            lies_at(buf, address) && ok == #[trigger] fits_cache_lines(address, buf@.len()),
        buf@.len() % CACHE_LINE as nat != 0 ==> !ok,
{
    let address: usize = buffer_address(buf);
    bulk_region_ok(address, buf.len())
}

/// A bulk or interrupt request under way.
#[derive(Clone, Copy, Debug, PartialEq, Eq, Structural)]
pub struct Request {
    /// What is being run.
    pub kind: TransferKind,
    /// Whether a packet with nothing in it still has to follow.
    pub end_due: bool,
    /// Ticks between two tries.
    pub pause: u64,
}

impl Request {
    /// The request after its transfer came back with `outcome`.
    pub open spec fn following(self, outcome: Result<usize, TransferError>) -> Request {
        if outcome is Ok && self.kind == TransferKind::Out && self.end_due {
            Request { kind: TransferKind::ZeroLength, end_due: false, ..self }
        } else {
            self
        }
    }

    /// What is asked for after its transfer came back with `outcome`.
    pub open spec fn answer(self, outcome: Result<usize, TransferError>) -> RequestAction {
        match outcome {
            Ok(moved) => match self.kind {
                TransferKind::InterruptIn | TransferKind::BulkIn => RequestAction::Finish(
                    Ok(moved),
                ),
                TransferKind::Out => if self.end_due {
                    RequestAction::Transfer(TransferKind::ZeroLength)
                } else {
                    RequestAction::Finish(Ok(0))
                },
                TransferKind::ZeroLength => RequestAction::Finish(Ok(0)),
            },
            Err(error) => if is_retryable(error) {
                RequestAction::PauseThen(self.pause, self.kind)
            } else {
                RequestAction::Finish(Err(pipe_error_of(error)))
            },
        }
    }

    /// Where this stands after its transfers came back with `outcomes`.
    pub open spec fn after(self, outcomes: Seq<Result<usize, TransferError>>) -> Request
        decreases outcomes.len(),
    {
        if outcomes.len() == 0 {
            self
        } else {
            self.after(outcomes.drop_last()).following(outcomes.last())
        }
    }

    /// The first thing to run.
    pub fn first(&self) -> (action: RequestAction)
        ensures
            action == RequestAction::Transfer(self.kind),
    {
        RequestAction::Transfer(self.kind)
    }

    /// Says what follows, given how the transfer came out and where it left
    /// the data toggle.
    ///
    /// A device that is not ready is asked again after a pause, for as long
    /// as it takes: a caller that wants a deadline imposes its own.
    pub fn step(
        &mut self,
        pipe: &mut Dwc2Pipe,
        outcome: Result<usize, TransferError>,
        toggle: bool,
    ) -> (action: RequestAction)
        ensures
            *final(pipe) == (Dwc2Pipe { toggle, ..*old(pipe) }),
            *final(self) == old(self).following(outcome),
            action == old(self).answer(outcome),
    {
        pipe.toggle = toggle;
        match outcome {
            Ok(moved) => match self.kind {
                TransferKind::InterruptIn => RequestAction::Finish(Ok(moved)),
                TransferKind::BulkIn => RequestAction::Finish(Ok(moved)),
                TransferKind::Out => {
                    if self.end_due {
                        self.kind = TransferKind::ZeroLength;
                        self.end_due = false;
                        RequestAction::Transfer(TransferKind::ZeroLength)
                    } else {
                        RequestAction::Finish(Ok(0))
                    }
                },
                TransferKind::ZeroLength => RequestAction::Finish(Ok(0)),
            },
            Err(error) => {
                if retryable(error) {
                    RequestAction::PauseThen(self.pause, self.kind)
                } else {
                    RequestAction::Finish(Err(map_error(error)))
                }
            },
        }
    }
}

impl Dwc2Pipe {
    /// Ticks between two tries on this pipe: one polling interval on an
    /// interrupt endpoint, one millisecond on a bulk one.
    pub open spec fn retry_pause(self) -> int {
        if self.ep_type == EndpointType::Interrupt {
            self.interval_ms * TICKS_PER_MILLI
        } else {
            BULK_NAK_RETRY_MS * TICKS_PER_MILLI
        }
    }

    /// Why a transfer of `len` bytes at `address` is refused on this pipe,
    /// if it is.
    ///
    /// An interrupt transfer is staged through the channel, so its length is
    /// capped. A bulk transfer moves the caller's buffer directly, so that
    /// has to be made of whole cache lines. Anything else has no such
    /// transfer.
    pub open spec fn buffer_refusal(self, address: usize, len: nat) -> Option<PipeError> {
        match self.ep_type {
            EndpointType::Interrupt => if len > MAX_TRANSFER_LEN {
                Some(PipeError::BufferOverflow)
            } else {
                None
            },
            EndpointType::Bulk => if !fits_cache_lines(address, len) {
                Some(PipeError::BufferOverflow)
            } else {
                None
            },
            EndpointType::Control | EndpointType::Isochronous => Some(PipeError::BadResponse),
        }
    }

    /// The request that reads from this pipe.
    pub open spec fn reading(self) -> Request {
        Request {
            kind: if self.ep_type == EndpointType::Interrupt {
                TransferKind::InterruptIn
            } else {
                TransferKind::BulkIn
            },
            end_due: false,
            pause: self.retry_pause() as u64,
        }
    }

    /// The request that writes `len` bytes to this pipe. It ends with a
    /// packet with nothing in it if that is asked for and the data stops
    /// exactly on a packet boundary.
    pub open spec fn writing(self, len: nat, ensure_transaction_end: bool) -> Request {
        Request {
            kind: TransferKind::Out,
            end_due: ensure_transaction_end && self.ends_on_boundary(len),
            pause: self.retry_pause() as u64,
        }
    }

    /// Whether `len` bytes fill their last packet. A packet size of nought
    /// counts as one.
    pub open spec fn ends_on_boundary(self, len: nat) -> bool {
        let packet: nat = if self.endpoint.max_packet_size == 0 {
            1
        } else {
            self.endpoint.max_packet_size as nat
        };
        len > 0 && len % packet == 0
    }

    /// How long to wait between two tries, in ticks.
    fn pause_ticks(&self) -> (ticks: u64)
        ensures
            ticks == self.retry_pause(),
    {
        if self.ep_type == EndpointType::Interrupt {
            ticks::from_millis(self.interval_ms as u64)
        } else {
            ticks::from_millis(BULK_NAK_RETRY_MS)
        }
    }

    /// Plans a read into a buffer of `len` bytes at `address`.
    pub fn request_in_at(&self, address: usize, len: usize) -> (request: Result<
        Request,
        PipeError,
    >)
        ensures
            request == match self.buffer_refusal(address, len as nat) {
                Some(error) => Err::<Request, PipeError>(error),
                None => Ok::<Request, PipeError>(self.reading()),
            },
    {
        match self.ep_type {
            EndpointType::Interrupt => {
                if len > MAX_TRANSFER_LEN {
                    return Err(PipeError::BufferOverflow);
                }
                Ok(
                    Request {
                        kind: TransferKind::InterruptIn,
                        end_due: false,
                        pause: self.pause_ticks(),
                    },
                )
            },
            EndpointType::Bulk => {
                if !bulk_region_ok(address, len) {
                    return Err(PipeError::BufferOverflow);
                }
                Ok(
                    Request {
                        kind: TransferKind::BulkIn,
                        end_due: false,
                        pause: self.pause_ticks(),
                    },
                )
            },
            _ => Err(PipeError::BadResponse),
        }
    }

    /// Plans a read from a bulk or interrupt IN endpoint into `buf`.
    ///
    /// Where the buffer lies decides only on a bulk endpoint, and only for a
    /// buffer of whole cache lines.
    pub fn request_in(&self, buf: &[u8]) -> (request: Result<Request, PipeError>)
        ensures
            exists|address: usize|
                lies_at(buf, address) && request == match #[trigger] self.buffer_refusal(address, buf@.len()) {
                    Some(error) => Err::<Request, PipeError>(error),
                    None => Ok::<Request, PipeError>(self.reading()),
                },
    {
        let address: usize = buffer_address(buf);
        let request = self.request_in_at(address, buf.len());
        assert(request == match self.buffer_refusal(address, buf@.len()) {
            Some(error) => Err::<Request, PipeError>(error),
            None => Ok::<Request, PipeError>(self.reading()),
        });
        request
    }

    /// Plans a write of `len` bytes at `address`.
    pub fn request_out_at(
        &self,
        address: usize,
        len: usize,
        ensure_transaction_end: bool,
    ) -> (request: Result<Request, PipeError>)
        ensures
            request == match self.buffer_refusal(address, len as nat) {
                Some(error) => Err::<Request, PipeError>(error),
                None => Ok::<Request, PipeError>(
                    self.writing(len as nat, ensure_transaction_end),
                ),
            },
    {
        if self.ep_type != EndpointType::Interrupt && self.ep_type != EndpointType::Bulk {
            return Err(PipeError::BadResponse);
        }
        if self.ep_type == EndpointType::Bulk && !bulk_region_ok(address, len) {
            return Err(PipeError::BufferOverflow);
        }
        if self.ep_type == EndpointType::Interrupt && len > MAX_TRANSFER_LEN {
            return Err(PipeError::BufferOverflow);
        }
        let packet: usize = if self.endpoint.max_packet_size == 0 {
            1
        } else {
            self.endpoint.max_packet_size as usize
        };
        let ends_on_boundary = len > 0 && len % packet == 0;
        Ok(
            Request {
                kind: TransferKind::Out,
                end_due: ensure_transaction_end && ends_on_boundary,
                pause: self.pause_ticks(),
            },
        )
    }

    /// Plans a write of `buf` to a bulk or interrupt OUT endpoint, with the
    /// same pauses and the same buffer rules as
    /// [`request_in`](Self::request_in).
    ///
    /// `ensure_transaction_end` adds a packet with nothing in it when the
    /// data ends exactly on a packet boundary, since a short packet is what
    /// normally tells the device that the transfer is over.
    pub fn request_out(&self, buf: &[u8], ensure_transaction_end: bool) -> (request: Result<
        Request,
        PipeError,
    >)
        ensures
            exists|address: usize|
                lies_at(buf, address) && request == match #[trigger] self.buffer_refusal(address, buf@.len()) {
                    Some(error) => Err::<Request, PipeError>(error),
                    None => Ok::<Request, PipeError>(
                        self.writing(buf@.len(), ensure_transaction_end),
                    ),
                },
    {
        let address: usize = buffer_address(buf);
        let request = self.request_out_at(address, buf.len(), ensure_transaction_end);
        assert(request == match self.buffer_refusal(address, buf@.len()) {
            Some(error) => Err::<Request, PipeError>(error),
            None => Ok::<Request, PipeError>(self.writing(buf@.len(), ensure_transaction_end)),
        });
        request
    }
}

/// A device that is not ready is never reported as a failure: flow control
/// and a dropped microframe lead to the same transfer again, unchanged,
/// after the pause.
pub proof fn law_not_ready_is_asked_again(request: Request, error: TransferError)
    requires
        is_retryable(error),
    ensures
        request.answer(Err(error)) == RequestAction::PauseThen(request.pause, request.kind),
        request.following(Err(error)) == request,
{
}

/// However often a device is not ready, a request comes to what its first
/// real answer is: nothing of the wait is left in it.
pub proof fn law_waiting_leaves_no_trace(
    request: Request,
    not_ready: Seq<Result<usize, TransferError>>,
    outcome: Result<usize, TransferError>,
)
    requires
        forall|i: int|
            0 <= i < not_ready.len() ==> ((#[trigger] not_ready[i]) matches Err(error)
                && is_retryable(error)),
    ensures
        request.after(not_ready) == request,
        request.after(not_ready).answer(outcome) == request.answer(outcome),
        request.after(not_ready.push(outcome)) == request.following(outcome),
    decreases not_ready.len(),
{
    if not_ready.len() > 0 {
        let earlier = not_ready.drop_last();
        assert forall|i: int| 0 <= i < earlier.len() implies ((#[trigger] earlier[i]) matches Err(
            error,
        ) && is_retryable(error)) by {
            assert(earlier[i] == not_ready[i]);
        }
        law_waiting_leaves_no_trace(request, earlier, outcome);
        assert(not_ready[not_ready.len() - 1] == not_ready.last());
    }
    assert(not_ready.push(outcome).drop_last() =~= not_ready);
}

/// A write ends with at most one packet with nothing in it, and with one
/// exactly if that was asked for and the data ended on a packet boundary.
pub proof fn law_zero_length_packet_follows_once(
    pipe: Dwc2Pipe,
    len: nat,
    ensure_transaction_end: bool,
    moved: usize,
    ended: usize,
)
    ensures
        ({
            let written = pipe.writing(len, ensure_transaction_end);
            let asked = ensure_transaction_end && pipe.ends_on_boundary(len);
            &&& asked ==> written.answer(Ok(moved)) == RequestAction::Transfer(
                TransferKind::ZeroLength,
            )
            &&& !asked ==> written.answer(Ok(moved)) == RequestAction::Finish(Ok(0))
            &&& asked ==> written.following(Ok(moved)).answer(Ok(ended)) == RequestAction::Finish(
                Ok(0),
            )
        }),
{
}

/// Where a buffer lies makes no difference on an interrupt endpoint, and on
/// a bulk endpoint none that could make up for a length that is not whole
/// cache lines.
pub proof fn law_address_matters_to_whole_lines_only(
    pipe: Dwc2Pipe,
    one: usize,
    other: usize,
    len: nat,
)
    requires
        pipe.ep_type != EndpointType::Bulk || len % CACHE_LINE as nat != 0,
    ensures
        pipe.buffer_refusal(one, len) == pipe.buffer_refusal(other, len),
{
}

/// A read comes to what arrived: on a bulk or an interrupt endpoint, for
/// every number of bytes and after however many answers that the device is
/// not ready.
pub proof fn law_read_reports_what_arrived(
    pipe: Dwc2Pipe,
    not_ready: Seq<Result<usize, TransferError>>,
    arrived: usize,
)
    requires
        forall|i: int|
            0 <= i < not_ready.len() ==> ((#[trigger] not_ready[i]) == Err::<usize, TransferError>(
                TransferError::Nak,
            ) || not_ready[i] == Err::<usize, TransferError>(TransferError::FrameOverrun)),
    ensures
        pipe.reading().after(not_ready).answer(Ok(arrived)) == RequestAction::Finish(Ok(arrived)),
        forall|i: int|
            0 <= i < not_ready.len() ==> pipe.reading().after(not_ready.take(i)).answer(
                #[trigger] not_ready[i],
            ) == RequestAction::PauseThen(pipe.reading().pause, pipe.reading().kind),
{
    law_waiting_leaves_no_trace(pipe.reading(), not_ready, Ok(arrived));
    assert forall|i: int| 0 <= i < not_ready.len() implies pipe.reading().after(
        not_ready.take(i),
    ).answer(#[trigger] not_ready[i]) == RequestAction::PauseThen(
        pipe.reading().pause,
        pipe.reading().kind,
    ) by {
        let before = not_ready.take(i);
        assert forall|j: int| 0 <= j < before.len() implies ((#[trigger] before[j]) matches Err(
            error,
        ) && is_retryable(error)) by {
            assert(before[j] == not_ready[j]);
        }
        law_waiting_leaves_no_trace(pipe.reading(), before, not_ready[i]);
    }
}

/// A write reports no bytes of its own, and is over once its data and the
/// packet that ends it, where there is one, have gone out.
pub proof fn law_write_is_over_when_all_is_out(request: Request, moved: usize)
    requires
        request.kind is Out || request.kind is ZeroLength,
    ensures
        request.kind is ZeroLength || !request.end_due ==> request.answer(Ok(moved))
            == RequestAction::Finish(Ok(0)),
        request.kind is Out && request.end_due ==> {
            let ending = request.following(Ok(moved));
            &&& request.answer(Ok(moved)) == RequestAction::Transfer(TransferKind::ZeroLength)
            &&& ending.kind is ZeroLength
            &&& !ending.end_due
            &&& ending.pause == request.pause
        },
{
}

/// A failure that waiting does not mend ends a read or a write at once, with
/// the error that means the same, and is not asked about again.
pub proof fn law_failure_ends_the_request(request: Request, error: TransferError)
    ensures
        match error {
            TransferError::Nak | TransferError::FrameOverrun => request.answer(Err(error))
                == RequestAction::PauseThen(request.pause, request.kind),
            TransferError::Stall => request.answer(Err(error)) == RequestAction::Finish(
                Err(PipeError::Stall),
            ),
            TransferError::Babble => request.answer(Err(error)) == RequestAction::Finish(
                Err(PipeError::Babble),
            ),
            TransferError::DataToggleError => request.answer(Err(error)) == RequestAction::Finish(
                Err(PipeError::DataToggleError),
            ),
            TransferError::TransactionError | TransferError::Halted => request.answer(Err(error))
                == RequestAction::Finish(Err(PipeError::BadResponse)),
            TransferError::Timeout | TransferError::NakTimeout => request.answer(Err(error))
                == RequestAction::Finish(Err(PipeError::Timeout)),
        },
        request.following(Err(error)) == request,
{
}

/// Each endpoint is read by its own kind of transfer and is left alone for
/// its own time between two tries: an interrupt endpoint for one polling
/// interval, a bulk endpoint for a millisecond, reading and writing alike.
pub proof fn law_each_endpoint_keeps_its_pace(
    pipe: Dwc2Pipe,
    len: nat,
    ensure_transaction_end: bool,
)
    ensures
        ({
            let read = pipe.reading();
            let write = pipe.writing(len, ensure_transaction_end);
            &&& pipe.ep_type is Interrupt ==> read.kind is InterruptIn && read.pause
                == pipe.interval_ms * 1_000 && write.pause == pipe.interval_ms * 1_000
            &&& pipe.ep_type is Bulk ==> read.kind is BulkIn && read.pause == 1_000 && write.pause
                == 1_000
            &&& write.kind is Out
            &&& !read.end_due
        }),
{
}

/// The data of a write ends on a packet boundary where it is a positive
/// number of whole packets: then, and if asked for, an empty packet follows.
/// `packets` whole ones and `rest` bytes more are written.
pub proof fn law_empty_packet_follows_whole_packets(
    pipe: Dwc2Pipe,
    packets: nat,
    rest: nat,
    ensure_transaction_end: bool,
)
    requires
        pipe.endpoint.max_packet_size > 0,
        rest < pipe.endpoint.max_packet_size,
    ensures
        pipe.writing(
            packets * (pipe.endpoint.max_packet_size as nat) + rest,
            ensure_transaction_end,
        ).end_due <==> ensure_transaction_end && packets > 0 && rest == 0,
{
    let size = pipe.endpoint.max_packet_size as int;
    let len = packets * size + rest;
    assert(len % size == rest) by {
        vstd::arithmetic::div_mod::lemma_fundamental_div_mod_converse(
            len,
            size,
            packets as int,
            rest as int,
        );
    }
    assert(packets > 0 ==> packets * size >= size) by (nonlinear_arith)
        requires
            size > 0,
    ;
    assert(packets == 0 ==> packets * size == 0) by (nonlinear_arith);
}

/// On an endpoint that claims packets of no size every write but an empty
/// one ends on a boundary.
pub proof fn law_sizeless_packets_always_end(
    pipe: Dwc2Pipe,
    len: nat,
    ensure_transaction_end: bool,
)
    requires
        pipe.endpoint.max_packet_size == 0,
    ensures
        pipe.writing(len, ensure_transaction_end).end_due <==> ensure_transaction_end && len > 0,
{
}

/// A buffer is refused on an interrupt endpoint where it is longer than 256
/// bytes, on a bulk endpoint where it does not start and end on a cache line
/// of 64 bytes, and on any other endpoint always. `lines` and `lines_before`
/// whole cache lines, and the bytes beyond them, say where it lies and how
/// long it is.
pub proof fn law_unusable_buffers_are_refused(
    pipe: Dwc2Pipe,
    address: usize,
    lines_before: nat,
    bytes_before: nat,
    lines: nat,
    bytes: nat,
)
    requires
        address == lines_before * 64 + bytes_before,
        bytes_before < 64,
        bytes < 64,
    ensures
        ({
            let refusal = pipe.buffer_refusal(address, lines * 64 + bytes);
            match pipe.ep_type {
                EndpointType::Interrupt => if lines * 64 + bytes > 256 {
                    refusal == Some(PipeError::BufferOverflow)
                } else {
                    refusal is None
                },
                EndpointType::Bulk => if bytes_before > 0 || bytes > 0 {
                    refusal == Some(PipeError::BufferOverflow)
                } else {
                    refusal is None
                },
                EndpointType::Control => refusal == Some(PipeError::BadResponse),
                EndpointType::Isochronous => refusal == Some(PipeError::BadResponse),
            }
        }),
{
}

} // verus!
