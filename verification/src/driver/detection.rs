//! The search for the address that a GT911 answers at.

use vstd::prelude::*;

use super::bus::{BusReply, BusStep, Exchange, Transcript, follows, lemma_follows_push};
use super::gt911::{GT911_ADDR_ALT, GT911_ADDR_PRIMARY, make_status_request, status_request};

verus! {

/// The addresses that are probed, in this order.
pub const CANDIDATES: [u8; 2] = [GT911_ADDR_PRIMARY, GT911_ADDR_ALT];

/// What the search needs next, after the exchanges in `transcript`: the first
/// candidate that acknowledges a read of the status register is the result.
pub open spec fn detection_step(transcript: Transcript) -> BusStep<Option<u8>> {
    if transcript.len() > 0 && transcript.last().reply is Acknowledged {
        BusStep::Finished(Some(CANDIDATES@[transcript.len() - 1]))
    } else if transcript.len() < CANDIDATES@.len() {
        BusStep::Ask(status_request(CANDIDATES@[transcript.len() as int]))
    } else {
        BusStep::Finished(None)
    }
}

/// `transcript` is that of a search, finished or not.
pub open spec fn detection_transcript(transcript: Transcript) -> bool {
    follows(transcript, |earlier: Transcript| detection_step(earlier))
}

/// A search that is under way or finished. Its view is the transcript so far.
pub struct Detection {
    /// The number of candidates that were probed without success.
    refused: usize,
    /// The candidate after these has acknowledged its probe.
    found: bool,
    transcript: Ghost<Transcript>,
}

impl View for Detection {
    type V = Transcript;

    closed spec fn view(&self) -> Transcript {
        self.transcript@
    }
}

impl Detection {
    #[verifier::type_invariant]
    spec fn well_formed(self) -> bool {
        let transcript = self.transcript@;
        &&& detection_transcript(transcript)
        &&& self.refused <= 2
        &&& self.found ==> self.refused < 2
        &&& transcript.len() == self.refused + if self.found { 1int } else { 0 }
        &&& transcript.len() > 0 ==> (transcript.last().reply is Acknowledged <==> self.found)
    }

    /// A search with nothing done yet.
    pub(super) fn start() -> (detection: Self)
        ensures
            detection@.len() == 0,
    {
        Detection { refused: 0, found: false, transcript: Ghost(Seq::empty()) }
    }

    /// What the search needs next: the reply to a request, or nothing more, in
    /// which case it has the address that responds, or `None` if neither
    /// address acknowledges.
    pub fn next(&self) -> (step: BusStep<Option<u8>>)
        ensures
            step == detection_step(self@),
            detection_transcript(self@),
    {
        proof {
            use_type_invariant(self);
        }
        if self.found {
            BusStep::Finished(Some(CANDIDATES[self.refused]))
        } else if self.refused < 2 {
            BusStep::Ask(make_status_request(CANDIDATES[self.refused]))
        } else {
            BusStep::Finished(None)
        }
    }

    /// Goes on with the reply to the request that the search asked for. A
    /// finished search asked for none, and stays as it is.
    pub fn resume(self, reply: BusReply) -> (detection: Self)
        ensures
            detection_step(self@) matches BusStep::Ask(request) ==> detection@ == self@.push(
                Exchange { request, reply },
            ),
            detection_step(self@) is Finished ==> detection@ == self@,
    {
        proof {
            use_type_invariant(&self);
        }
        if self.found || self.refused == 2 {
            return self;
        }
        let ghost request = status_request(CANDIDATES@[self.refused as int]);
        let ghost exchange = Exchange { request, reply };
        proof {
            lemma_follows_push(
                self.transcript@,
                exchange,
                |earlier: Transcript| detection_step(earlier),
            );
        }
        let longer = Ghost(self.transcript@.push(exchange));
        match reply {
            BusReply::Acknowledged(_) => Detection {
                refused: self.refused,
                found: true,
                transcript: longer,
            },
            BusReply::Failed => Detection {
                refused: self.refused + 1,
                found: false,
                transcript: longer,
            },
        }
    }
}

} // verus!
