//! What an operation asks of the I2C bus, and what the bus answers.

use vstd::prelude::*;

verus! {

/// The number of bytes that a reply has room for.
pub const BUFFER_LEN: usize = 8;

/// One transaction on the I2C bus.
#[derive(Clone, Copy, Debug, PartialEq, Eq)]
pub enum BusRequest {
    /// Write the register address `reg` to the device at `addr`, then read
    /// `len` bytes from it, in one transaction.
    WriteRead { addr: u8, reg: [u8; 2], len: usize },
    /// Write `bytes` to the device at `addr`.
    Write { addr: u8, bytes: [u8; 3] },
}

/// The outcome of a transaction.
#[derive(Clone, Copy, Debug, PartialEq, Eq)]
pub enum BusReply {
    /// The transaction succeeded. The bytes that it read stand at the front
    /// of the buffer; what follows them has no meaning.
    Acknowledged([u8; 8]),
    /// The transaction failed.
    Failed,
}

/// What an operation needs next.
#[derive(Debug, PartialEq, Eq)]
pub enum BusStep<R> {
    /// The reply to this request.
    Ask(BusRequest),
    /// Nothing: the operation is finished, with this result.
    Finished(R),
}

/// A request together with the reply that it got.
pub ghost struct Exchange {
    pub request: BusRequest,
    pub reply: BusReply,
}

/// The exchanges of one operation so far, oldest first.
pub type Transcript = Seq<Exchange>;

/// Every request in `transcript` is the one that `step` asks for after the
/// exchanges before it: the transcript of an operation that takes these steps.
pub open spec fn follows<R>(transcript: Transcript, step: spec_fn(Transcript) -> BusStep<R>) -> bool {
    forall|i: int|
        0 <= i < transcript.len() ==> step(transcript.take(i)) == BusStep::<R>::Ask(
            (#[trigger] transcript[i]).request,
        )
}

/// The request at `i` is the one that `step` asks for after the exchanges
/// before it.
pub proof fn lemma_follows_at<R>(
    transcript: Transcript,
    step: spec_fn(Transcript) -> BusStep<R>,
    i: int,
)
    requires
        follows(transcript, step),
        0 <= i < transcript.len(),
    ensures
        step(transcript.take(i)) == BusStep::<R>::Ask(transcript[i].request),
{
}

/// A transcript may be extended by the request that comes next, whatever its
/// reply is.
pub proof fn lemma_follows_push<R>(
    transcript: Transcript,
    exchange: Exchange,
    step: spec_fn(Transcript) -> BusStep<R>,
)
    requires
        follows(transcript, step),
        step(transcript) == BusStep::<R>::Ask(exchange.request),
    ensures
        follows(transcript.push(exchange), step),
{
    let longer = transcript.push(exchange);
    assert forall|i: int| 0 <= i < longer.len() implies step(longer.take(i)) == BusStep::<R>::Ask(
        (#[trigger] longer[i]).request,
    ) by {
        assert(longer.take(i) =~= transcript.take(i));
        if i < transcript.len() {
            assert(longer[i] == transcript[i]);
        } else {
            assert(transcript.take(i) =~= transcript);
        }
    }
}

impl BusRequest {
    /// The device that the request goes to.
    pub open spec fn target(self) -> u8 {
        match self {
            BusRequest::WriteRead { addr, .. } => addr,
            BusRequest::Write { addr, .. } => addr,
        }
    }

    /// The number of bytes that the request reads.
    pub open spec fn read_len(self) -> nat {
        match self {
            BusRequest::WriteRead { len, .. } => len as nat,
            BusRequest::Write { .. } => 0,
        }
    }
}

} // verus!
