//! Minimal GT911 capacitive touch controller driver (polling, no INT pin).

use vstd::prelude::*;

use super::bus::BusRequest;
use super::detection::Detection;
use super::touch_read::TouchRead;

verus! {

/// The address that a GT911 usually answers at.
pub const GT911_ADDR_PRIMARY: u8 = 0x5D;

/// The address that a GT911 may be strapped to instead.
pub const GT911_ADDR_ALT: u8 = 0x14;

/// The register that holds the buffer-ready flag and the number of touches.
pub const REG_STATUS: [u8; 2] = [0x81, 0x4E];

/// The register at which the data of the first touch point starts.
pub const REG_TOUCH0: [u8; 2] = [0x81, 0x50];

/// The driver of one controller.
pub struct Gt911 {
    /// The controller's I2C address.
    pub addr: u8,
}

impl Gt911 {
    /// A driver for the controller at `addr`.
    pub fn new(addr: u8) -> (driver: Self)
        ensures
            driver.addr == addr,
    {
        Self { addr }
    }

    /// Starts a poll of the controller. It finishes with the (x, y)
    /// coordinates of the first active touch point, or with `None`.
    ///
    /// The poll clears the controller's buffer flag after reading the buffer,
    /// so that repeated polls do not return the same touch event and the next
    /// one sees fresh data. A ready buffer that holds no touch is cleared too;
    /// a touch whose point could not be read is left for the next poll.
    pub fn read_touch(&mut self) -> (read: TouchRead)
        ensures
            *final(self) == *old(self),
            read.addr() == old(self).addr,
            read@.len() == 0,
    {
        TouchRead::start(self.addr)
    }

    /// Starts a search for the controller: both known GT911 addresses are
    /// probed, and the search finishes with the one that responds, or with
    /// `None` if neither address acknowledges.
    pub fn detect() -> (detection: Detection)
        ensures
            detection@.len() == 0,
    {
        Detection::start()
    }
}

/// The request that reads the status register of the controller at `addr`.
pub open spec fn status_request(addr: u8) -> BusRequest {
    BusRequest::WriteRead { addr, reg: REG_STATUS, len: 1 }
}

/// The request that reads the first touch point of the controller at `addr`.
pub open spec fn point_request(addr: u8) -> BusRequest {
    BusRequest::WriteRead { addr, reg: REG_TOUCH0, len: 8 }
}

/// The request that writes zero to the status register of the controller at
/// `addr`, which clears the buffer-ready flag.
pub open spec fn clear_request(addr: u8) -> BusRequest {
    BusRequest::Write { addr, bytes: [0x81, 0x4E, 0x00] }
}

/// A status byte announces a touch: the top bit says that the data is ready,
/// and the low four bits, the number of touches, are not zero.
pub open spec fn reports_touch(status: u8) -> bool {
    status >= 0x80 && status % 0x10 != 0
}

/// A status byte announces a buffer that is ready but holds no touch.
pub open spec fn reports_empty(status: u8) -> bool {
    status >= 0x80 && status % 0x10 == 0
}

/// The number whose little-endian bytes are `low`, `high`.
pub open spec fn little_endian(low: u8, high: u8) -> u16 {
    (low + 0x100 * high) as u16
}

/// The coordinates that the data of a touch point holds: x in the bytes at 1
/// and 2, y in those at 3 and 4.
pub open spec fn point_coordinates(point: Seq<u8>) -> (u16, u16) {
    (little_endian(point[1], point[2]), little_endian(point[3], point[4]))
}

/// The request that reads the status register of the controller at `addr`.
pub(super) fn make_status_request(addr: u8) -> (request: BusRequest)
    ensures
        request == status_request(addr),
{
    BusRequest::WriteRead { addr, reg: REG_STATUS, len: 1 }
}

/// The request that reads the first touch point of the controller at `addr`.
pub(super) fn make_point_request(addr: u8) -> (request: BusRequest)
    ensures
        request == point_request(addr),
{
    BusRequest::WriteRead { addr, reg: REG_TOUCH0, len: 8 }
}

/// The request that clears the buffer-ready flag of the controller at `addr`.
pub(super) fn make_clear_request(addr: u8) -> (request: BusRequest)
    ensures
        request == clear_request(addr),
{
    BusRequest::Write { addr, bytes: [0x81, 0x4E, 0x00] }
}

/// Whether a status byte announces a touch.
pub fn status_reports_touch(status: u8) -> (reported: bool)
    ensures
        reported == reports_touch(status),
{
    let count: u8 = status & 0x0F;
    // The count is valid only together with the buffer-ready flag.
    let ready: u8 = status & 0x80;
    assert(status & 0x0F == status % 0x10) by (bit_vector);
    assert(status & 0x80 == 0 <==> status < 0x80) by (bit_vector);
    count != 0 && ready != 0
}

/// Whether a status byte announces a buffer that is ready but holds no touch.
pub fn status_reports_empty(status: u8) -> (reported: bool)
    ensures
        reported == reports_empty(status),
{
    let count: u8 = status & 0x0F;
    let ready: u8 = status & 0x80;
    assert(status & 0x0F == status % 0x10) by (bit_vector);
    assert(status & 0x80 == 0 <==> status < 0x80) by (bit_vector);
    count == 0 && ready != 0
}

/// The coordinates that the data of a touch point holds.
pub fn decode_point(point: &[u8; 8]) -> (coordinates: (u16, u16))
    ensures
        coordinates == point_coordinates(point@),
{
    let x: u16 = point[1] as u16 + 0x100 * point[2] as u16;
    let y: u16 = point[3] as u16 + 0x100 * point[4] as u16;
    (x, y)
}

} // verus!
