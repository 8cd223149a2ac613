//! What holds of every poll and of every search, whatever the bus answers.

use vstd::prelude::*;

use super::bus::{BUFFER_LEN, BusReply, BusRequest, BusStep, Exchange, Transcript, lemma_follows_at};
use super::detection::{detection_step, detection_transcript};
use super::gt911::{
    GT911_ADDR_ALT, GT911_ADDR_PRIMARY, clear_request, little_endian, point_coordinates,
    point_request, reports_empty, reports_touch, status_request,
};
use super::touch_read::{empty_announced, touch_announced, touch_step, touch_transcript};

verus! {

/// A poll makes at most three requests, all to its own controller. The status
/// register is read first. If it announces a touch, the touch point is read,
/// and then the flag is cleared; if it announces a ready buffer without a
/// touch, the flag is cleared at once. No read is longer than a reply has room
/// for.
pub proof fn law_poll_requests(addr: u8, transcript: Transcript)
    requires
        touch_transcript(addr, transcript),
    ensures
        transcript.len() <= 3,
        transcript.len() == 3 ==> touch_step(addr, transcript) is Finished,
        transcript.len() > 0 ==> transcript[0].request == status_request(addr),
        transcript.len() > 1 ==> {
            ||| touch_announced(transcript[0].reply) && transcript[1].request == point_request(addr)
            ||| empty_announced(transcript[0].reply) && transcript[1].request == clear_request(addr)
        },
        transcript.len() > 2 ==> {
            &&& touch_announced(transcript[0].reply)
            &&& transcript[1].reply is Acknowledged
            &&& transcript[2].request == clear_request(addr)
        },
        forall|i: int|
            0 <= i < transcript.len() ==> {
                &&& (#[trigger] transcript[i]).request.target() == addr
                &&& transcript[i].request.read_len() <= BUFFER_LEN
            },
{
    let step = |earlier: Transcript| touch_step(addr, earlier);
    if transcript.len() > 0 {
        lemma_follows_at(transcript, step, 0);
    }
    if transcript.len() > 1 {
        lemma_follows_at(transcript, step, 1);
    }
    if transcript.len() > 2 {
        lemma_follows_at(transcript, step, 2);
    }
    if transcript.len() > 3 {
        lemma_follows_at(transcript, step, 3);
    }
}

/// A finished poll returns a touch if and only if the status register was
/// read and announces one, and the touch point was read. The touch then has
/// the coordinates that the point holds.
pub proof fn law_poll_result(addr: u8, transcript: Transcript, result: Option<(u16, u16)>)
    requires
        touch_transcript(addr, transcript),
        touch_step(addr, transcript) == BusStep::Finished(result),
    ensures
        transcript.len() > 0,
        result is Some <==> {
            &&& touch_announced(transcript[0].reply)
            &&& transcript.len() > 1
            &&& transcript[1].reply is Acknowledged
        },
        result matches Some(touch) ==> {
            &&& transcript[1].reply matches BusReply::Acknowledged(point)
            &&& touch == point_coordinates(point@)
        },
{
}

/// A finished poll has asked for the flag to be cleared, once and as the last
/// thing, if and only if the status register was read with the buffer-ready
/// flag set and the buffer was read to its end: it holds no touch, or its
/// touch point was read. In every other case the poll has written nothing.
pub proof fn law_flag_cleared_after_read(
    addr: u8,
    transcript: Transcript,
    result: Option<(u16, u16)>,
)
    requires
        touch_transcript(addr, transcript),
        touch_step(addr, transcript) == BusStep::Finished(result),
    ensures
        transcript.len() > 0,
        transcript.last().request == clear_request(addr) <==> {
            &&& transcript[0].reply matches BusReply::Acknowledged(data)
            &&& data@[0] >= 0x80
            &&& data@[0] % 0x10 == 0 || transcript[1].reply is Acknowledged
        },
        forall|i: int|
            0 <= i < transcript.len() && (#[trigger] transcript[i]).request is Write ==> {
                &&& i == transcript.len() - 1
                &&& transcript[i].request == clear_request(addr)
            },
        result is Some ==> transcript.last().request == clear_request(addr),
{
    law_poll_requests(addr, transcript);
}

/// Whether the flag could be cleared does not change what the poll returns.
pub proof fn law_clear_outcome_ignored(
    addr: u8,
    transcript: Transcript,
    result: Option<(u16, u16)>,
    reply: BusReply,
)
    requires
        touch_transcript(addr, transcript),
        touch_step(addr, transcript) == BusStep::Finished(result),
        transcript.last().request is Write,
    ensures
        ({
            let other = transcript.update(
                transcript.len() - 1,
                Exchange { request: transcript.last().request, reply },
            );
            &&& touch_transcript(addr, other)
            &&& touch_step(addr, other) == BusStep::Finished(result)
        }),
{
    let step = |earlier: Transcript| touch_step(addr, earlier);
    let other = transcript.update(
        transcript.len() - 1,
        Exchange { request: transcript.last().request, reply },
    );
    law_poll_requests(addr, transcript);
    assert forall|i: int| 0 <= i < other.len() implies step(other.take(i)) == BusStep::<
        Option<(u16, u16)>,
    >::Ask((#[trigger] other[i]).request) by {
        assert(other.take(i) =~= transcript.take(i));
        lemma_follows_at(transcript, step, i);
    }
}

/// Repeated polls do not return the same touch event: after a poll that
/// returned a touch, a poll to which the status register still gives back the
/// byte that the first one wrote there returns none, and does not look at the
/// touch point.
pub proof fn law_touch_returned_once(
    addr: u8,
    first: Transcript,
    touch: (u16, u16),
    second: Transcript,
    status: [u8; 8],
)
    requires
        touch_transcript(addr, first),
        touch_step(addr, first) == BusStep::Finished(Some(touch)),
        touch_transcript(addr, second),
        second.len() > 0,
        second[0].reply == BusReply::Acknowledged(status),
        first.last().request matches BusRequest::Write { bytes, .. } && status@[0] == bytes@[2],
    ensures
        first.last().request matches BusRequest::Write { addr: written, bytes }
            && second[0].request matches BusRequest::WriteRead { addr: read, reg, .. }
            && written == read && bytes@.take(2) == reg@,
        second.len() == 1,
        touch_step(addr, second) == BusStep::<Option<(u16, u16)>>::Finished(None),
{
    law_flag_cleared_after_read(addr, first, Some(touch));
    law_poll_requests(addr, second);
}

/// Only the buffer-ready flag and the number of touches decide whether a
/// status byte announces a touch or an empty buffer; the bits between them do
/// not.
pub proof fn law_other_status_bits_ignored(status: u8, other: u8)
    requires
        status & 0x8F == other & 0x8F,
    ensures
        reports_touch(status) == reports_touch(other),
        reports_empty(status) == reports_empty(other),
{
    assert((status >= 0x80) == (other >= 0x80) && status % 0x10 == other % 0x10) by (bit_vector)
        requires
            status & 0x8F == other & 0x8F,
    ;
}

/// Every pair of coordinates can be reported: it is what a touch point holds
/// whose bytes from 1 to 4 are those of x and y, low byte first.
pub proof fn law_point_holds_coordinates(point: Seq<u8>, x: u16, y: u16)
    requires
        point.len() == BUFFER_LEN,
        point[1] == x % 0x100,
        point[2] == x / 0x100,
        point[3] == y % 0x100,
        point[4] == y / 0x100,
    ensures
        point_coordinates(point) == (x, y),
{
}

/// Two touch points give the same coordinates if and only if they agree in
/// the bytes from 1 to 4.
pub proof fn law_coordinates_are_four_bytes(point: Seq<u8>, other: Seq<u8>)
    requires
        point.len() == BUFFER_LEN,
        other.len() == BUFFER_LEN,
    ensures
        point_coordinates(point) == point_coordinates(other) <==> point.subrange(1, 5)
            == other.subrange(1, 5),
{
    let mine = point.subrange(1, 5);
    let theirs = other.subrange(1, 5);
    assert(mine[0] == point[1] && mine[1] == point[2] && mine[2] == point[3] && mine[3]
        == point[4]);
    assert(theirs[0] == other[1] && theirs[1] == other[2] && theirs[2] == other[3] && theirs[3]
        == other[4]);
    if point_coordinates(point) == point_coordinates(other) {
        assert(little_endian(point[1], point[2]) == little_endian(other[1], other[2]));
        assert(little_endian(point[3], point[4]) == little_endian(other[3], other[4]));
        assert(mine =~= theirs);
    }
}

/// A search makes at most two requests, a read of the status register at the
/// primary address and then one at the alternative address. The second is
/// made only if the first has failed.
pub proof fn law_search_requests(transcript: Transcript)
    requires
        detection_transcript(transcript),
    ensures
        transcript.len() <= 2,
        transcript.len() == 2 ==> detection_step(transcript) is Finished,
        transcript.len() > 0 ==> transcript[0].request == status_request(GT911_ADDR_PRIMARY),
        transcript.len() > 1 ==> {
            &&& transcript[0].reply is Failed
            &&& transcript[1].request == status_request(GT911_ADDR_ALT)
        },
{
    let step = |earlier: Transcript| detection_step(earlier);
    if transcript.len() > 0 {
        lemma_follows_at(transcript, step, 0);
    }
    if transcript.len() > 1 {
        lemma_follows_at(transcript, step, 1);
    }
    if transcript.len() > 2 {
        lemma_follows_at(transcript, step, 2);
    }
}

/// A finished search returns the primary address if that one acknowledged;
/// if it did not, the alternative address if that one acknowledged; and
/// `None` if and only if neither did. What was read does not matter.
pub proof fn law_search_result(transcript: Transcript, result: Option<u8>)
    requires
        detection_transcript(transcript),
        detection_step(transcript) == BusStep::Finished(result),
    ensures
        transcript.len() > 0,
        transcript[0].reply is Acknowledged <==> result == Some(GT911_ADDR_PRIMARY),
        transcript[0].reply is Failed ==> transcript.len() == 2,
        (transcript[0].reply is Failed && transcript[1].reply is Acknowledged) <==> result == Some(
            GT911_ADDR_ALT,
        ),
        (transcript[0].reply is Failed && transcript[1].reply is Failed) <==> result is None,
{
    law_search_requests(transcript);
}

/// The address that a search returns has acknowledged the very request with
/// which a poll of the controller at that address begins.
pub proof fn law_found_controller_can_be_polled(
    transcript: Transcript,
    addr: u8,
    nothing_done: Transcript,
)
    requires
        detection_transcript(transcript),
        detection_step(transcript) == BusStep::Finished(Some(addr)),
        nothing_done.len() == 0,
    ensures
        transcript.len() > 0,
        transcript.last().reply is Acknowledged,
        touch_step(addr, nothing_done) == BusStep::<Option<(u16, u16)>>::Ask(
            transcript.last().request,
        ),
{
    law_search_requests(transcript);
    law_search_result(transcript, Some(addr));
}

} // verus!
