//! One poll of a GT911: read the status, read the touch point if there is one,
//! clear the flag.

use vstd::prelude::*;

use super::bus::{BusReply, BusStep, Exchange, Transcript, follows, lemma_follows_push};
use super::gt911::{
    clear_request, decode_point, make_clear_request, make_point_request, make_status_request,
    point_coordinates, point_request, reports_empty, reports_touch, status_reports_empty,
    status_reports_touch, status_request,
};

verus! {

/// The status register was read, and announces a touch.
pub open spec fn touch_announced(reply: BusReply) -> bool {
    reply matches BusReply::Acknowledged(data) && reports_touch(data@[0])
}

/// The status register was read, and announces a ready buffer without a touch.
pub open spec fn empty_announced(reply: BusReply) -> bool {
    reply matches BusReply::Acknowledged(data) && reports_empty(data@[0])
}

/// What a poll of the controller at `addr` needs next, after the exchanges in
/// `transcript`.
pub open spec fn touch_step(addr: u8, transcript: Transcript) -> BusStep<Option<(u16, u16)>> {
    if transcript.len() == 0 {
        BusStep::Ask(status_request(addr))
    } else if empty_announced(transcript[0].reply) {
        if transcript.len() == 1 {
            BusStep::Ask(clear_request(addr))
        } else {
            BusStep::Finished(None)
        }
    } else if !touch_announced(transcript[0].reply) {
        BusStep::Finished(None)
    } else if transcript.len() == 1 {
        BusStep::Ask(point_request(addr))
    } else {
        match transcript[1].reply {
            BusReply::Failed => BusStep::Finished(None),
            BusReply::Acknowledged(point) => if transcript.len() == 2 {
                BusStep::Ask(clear_request(addr))
            } else {
                BusStep::Finished(Some(point_coordinates(point@)))
            },
        }
    }
}

/// `transcript` is that of a poll of the controller at `addr`, finished or not.
pub open spec fn touch_transcript(addr: u8, transcript: Transcript) -> bool {
    follows(transcript, |earlier: Transcript| touch_step(addr, earlier))
}

/// How far a poll has come.
enum Phase {
    /// The status register is to be read.
    Status,
    /// A touch was announced, and its point is to be read.
    Point,
    /// The buffer was read, and its flag is to be cleared.
    Clear { result: Option<(u16, u16)> },
    /// Nothing is left to do.
    Finished { result: Option<(u16, u16)> },
}

/// A poll that is under way or finished. Its view is the transcript so far.
pub struct TouchRead {
    addr: u8,
    phase: Phase,
    transcript: Ghost<Transcript>,
}

impl View for TouchRead {
    type V = Transcript;

    closed spec fn view(&self) -> Transcript {
        self.transcript@
    }
}

impl TouchRead {
    /// The address of the controller that is polled.
    pub closed spec fn addr(self) -> u8 {
        self.addr
    }

    #[verifier::type_invariant]
    spec fn well_formed(self) -> bool {
        let transcript = self.transcript@;
        &&& touch_transcript(self.addr, transcript)
        &&& match self.phase {
            Phase::Status => transcript.len() == 0,
            Phase::Point => transcript.len() == 1 && touch_announced(transcript[0].reply),
            Phase::Clear { result: None } => {
                &&& transcript.len() == 1
                &&& empty_announced(transcript[0].reply)
            },
            Phase::Clear { result: Some(touch) } => {
                &&& transcript.len() == 2
                &&& touch_announced(transcript[0].reply)
                &&& transcript[1].reply matches BusReply::Acknowledged(point)
                    && touch == point_coordinates(point@)
            },
            Phase::Finished { result } => touch_step(self.addr, transcript) == BusStep::Finished(
                result,
            ),
        }
    }

    /// A poll of the controller at `addr`, with nothing done yet.
    pub(super) fn start(addr: u8) -> (read: Self)
        ensures
            read.addr() == addr,
            read@.len() == 0,
    {
        TouchRead { addr, phase: Phase::Status, transcript: Ghost(Seq::empty()) }
    }

    /// What the poll needs next: the reply to a request, or nothing more, in
    /// which case it has the coordinates of the first active touch point, or
    /// `None`.
    pub fn next(&self) -> (step: BusStep<Option<(u16, u16)>>)
        ensures
            step == touch_step(self.addr(), self@),
            touch_transcript(self.addr(), self@),
    {
        proof {
            use_type_invariant(self);
        }
        match &self.phase {
            Phase::Status => BusStep::Ask(make_status_request(self.addr)),
            Phase::Point => BusStep::Ask(make_point_request(self.addr)),
            Phase::Clear { .. } => BusStep::Ask(make_clear_request(self.addr)),
            Phase::Finished { result } => BusStep::Finished(*result),
        }
    }

    /// Goes on with the reply to the request that the poll asked for. A
    /// finished poll asked for none, and stays as it is.
    pub fn resume(self, reply: BusReply) -> (read: Self)
        ensures
            read.addr() == self.addr(),
            touch_step(self.addr(), self@) matches BusStep::Ask(request) ==> read@ == self@.push(
                Exchange { request, reply },
            ),
            touch_step(self.addr(), self@) is Finished ==> read@ == self@,
    {
        proof {
            use_type_invariant(&self);
        }
        let phase = match self.phase {
            Phase::Status => match reply {
                BusReply::Acknowledged(data) => if status_reports_touch(data[0]) {
                    Phase::Point
                } else if status_reports_empty(data[0]) {
                    Phase::Clear { result: None }
                } else {
                    Phase::Finished { result: None }
                },
                BusReply::Failed => Phase::Finished { result: None },
            },
            Phase::Point => match reply {
                BusReply::Acknowledged(point) => Phase::Clear { result: Some(decode_point(&point)) },
                BusReply::Failed => Phase::Finished { result: None },
            },
            // The result stands whether or not the flag could be cleared.
            Phase::Clear { result } => Phase::Finished { result },
            Phase::Finished { result } => Phase::Finished { result },
        };
        let ghost longer = match touch_step(self.addr, self.transcript@) {
            BusStep::Ask(request) => self.transcript@.push(Exchange { request, reply }),
            BusStep::Finished(_) => self.transcript@,
        };
        proof {
            if let BusStep::Ask(request) = touch_step(self.addr, self.transcript@) {
                let addr = self.addr;
                lemma_follows_push(
                    self.transcript@,
                    Exchange { request, reply },
                    |earlier: Transcript| touch_step(addr, earlier),
                );
            }
        }
        TouchRead { addr: self.addr, phase, transcript: Ghost(longer) }
    }
}

} // verus!
