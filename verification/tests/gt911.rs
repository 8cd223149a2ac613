use epaper::driver::bus::{BusReply, BusRequest, BusStep, BUFFER_LEN};
use epaper::driver::gt911::{
    decode_point, status_reports_empty, status_reports_touch, GT911_ADDR_ALT, GT911_ADDR_PRIMARY,
    REG_STATUS, REG_TOUCH0,
};
use epaper::driver::Gt911;

fn read_status(addr: u8) -> BusRequest {
    BusRequest::WriteRead { addr, reg: [0x81, 0x4E], len: 1 }
}

fn read_point(addr: u8) -> BusRequest {
    BusRequest::WriteRead { addr, reg: [0x81, 0x50], len: 8 }
}

fn clear_flag(addr: u8) -> BusRequest {
    BusRequest::Write { addr, bytes: [0x81, 0x4E, 0x00] }
}

fn status(byte: u8) -> BusReply {
    BusReply::Acknowledged([byte, 0, 0, 0, 0, 0, 0, 0])
}

fn written() -> BusReply {
    BusReply::Acknowledged([0; 8])
}

/// Runs a poll against the given replies, which must be just enough.
fn poll(gt911: &mut Gt911, replies: &[BusReply]) -> (Vec<BusRequest>, Option<(u16, u16)>) {
    let mut requests = Vec::new();
    let mut read = gt911.read_touch();
    loop {
        match read.next() {
            BusStep::Ask(request) => {
                let reply = replies[requests.len()];
                requests.push(request);
                read = read.resume(reply);
            }
            BusStep::Finished(touch) => {
                assert_eq!(requests.len(), replies.len());
                return (requests, touch);
            }
        }
    }
}

/// Runs a search against the given replies, which must be just enough.
fn search(replies: &[BusReply]) -> (Vec<BusRequest>, Option<u8>) {
    let mut requests = Vec::new();
    let mut detection = Gt911::detect();
    loop {
        match detection.next() {
            BusStep::Ask(request) => {
                let reply = replies[requests.len()];
                requests.push(request);
                detection = detection.resume(reply);
            }
            BusStep::Finished(addr) => {
                assert_eq!(requests.len(), replies.len());
                return (requests, addr);
            }
        }
    }
}

/// A device with a status register and one touch point.
struct Device {
    status: u8,
    point: [u8; 8],
}

impl Device {
    fn perform(&mut self, addr: u8, request: BusRequest) -> BusReply {
        match request {
            BusRequest::WriteRead { addr: target, reg, len } if target == addr => {
                let mut data = [0xEE; BUFFER_LEN];
                if reg == REG_STATUS {
                    data[0] = self.status;
                    assert_eq!(len, 1);
                } else {
                    assert_eq!(reg, REG_TOUCH0);
                    data[..len].copy_from_slice(&self.point[..len]);
                }
                BusReply::Acknowledged(data)
            }
            BusRequest::Write { addr: target, bytes } if target == addr => {
                assert_eq!([bytes[0], bytes[1]], REG_STATUS);
                self.status = bytes[2];
                written()
            }
            _ => BusReply::Failed,
        }
    }
}

#[test]
fn addresses() {
    assert_eq!(GT911_ADDR_PRIMARY, 0x5D);
    assert_eq!(GT911_ADDR_ALT, 0x14);
    assert_eq!(Gt911::new(0x14).addr, 0x14);
    assert_eq!(Gt911::new(0x5D).addr, 0x5D);
}

#[test]
fn touch_is_read_and_flag_cleared() {
    let mut gt911 = Gt911::new(0x5D);
    let point = BusReply::Acknowledged([0xAA, 0x34, 0x12, 0xCD, 0xAB, 0xBB, 0xCC, 0xDD]);
    let (requests, touch) = poll(&mut gt911, &[status(0x81), point, written()]);
    assert_eq!(requests, vec![read_status(0x5D), read_point(0x5D), clear_flag(0x5D)]);
    assert_eq!(touch, Some((0x1234, 0xABCD)));
    assert_eq!(gt911.addr, 0x5D);
}

#[test]
fn requests_go_to_the_drivers_address() {
    let mut gt911 = Gt911::new(0x14);
    let point = BusReply::Acknowledged([0, 1, 0, 2, 0, 0, 0, 0]);
    let (requests, touch) = poll(&mut gt911, &[status(0x8F), point, written()]);
    assert_eq!(requests, vec![read_status(0x14), read_point(0x14), clear_flag(0x14)]);
    assert_eq!(touch, Some((1, 2)));
}

#[test]
fn failed_clear_keeps_the_touch() {
    let mut gt911 = Gt911::new(0x5D);
    let point = BusReply::Acknowledged([0, 0xC0, 0x03, 0x1C, 0x02, 0, 0, 0]);
    let (requests, touch) = poll(&mut gt911, &[status(0x82), point, BusReply::Failed]);
    assert_eq!(requests.len(), 3);
    assert_eq!(touch, Some((960, 540)));
}

#[test]
fn failed_status_read_is_no_touch() {
    let mut gt911 = Gt911::new(0x5D);
    let (requests, touch) = poll(&mut gt911, &[BusReply::Failed]);
    assert_eq!(requests, vec![read_status(0x5D)]);
    assert_eq!(touch, None);
}

#[test]
fn failed_point_read_is_no_touch_and_clears_nothing() {
    let mut gt911 = Gt911::new(0x5D);
    let (requests, touch) = poll(&mut gt911, &[status(0x81), BusReply::Failed]);
    assert_eq!(requests, vec![read_status(0x5D), read_point(0x5D)]);
    assert_eq!(touch, None);
}

#[test]
fn ready_buffer_without_touch_is_cleared() {
    let mut gt911 = Gt911::new(0x5D);
    for byte in [0x80, 0x90, 0xF0] {
        for reply in [written(), BusReply::Failed] {
            let (requests, touch) = poll(&mut gt911, &[status(byte), reply]);
            assert_eq!(requests, vec![read_status(0x5D), clear_flag(0x5D)]);
            assert_eq!(touch, None);
        }
    }
    let mut gt911 = Gt911::new(0x14);
    let (requests, touch) = poll(&mut gt911, &[status(0x80), written()]);
    assert_eq!(requests, vec![read_status(0x14), clear_flag(0x14)]);
    assert_eq!(touch, None);
}

#[test]
fn no_flag_is_no_touch_and_clears_nothing() {
    let mut gt911 = Gt911::new(0x5D);
    for byte in [0x00, 0x01, 0x0F, 0x10, 0x70, 0x7F] {
        let (requests, touch) = poll(&mut gt911, &[status(byte)]);
        assert_eq!(requests, vec![read_status(0x5D)]);
        assert_eq!(touch, None);
    }
}

#[test]
fn status_byte_is_judged_by_flag_and_count() {
    for byte in 0..=255u8 {
        let count = byte & 0x0F;
        let expected = !(count == 0 || byte & 0x80 == 0);
        assert_eq!(status_reports_touch(byte), expected);
        assert_eq!(status_reports_touch(byte ^ 0x70), expected);
        let empty = count == 0 && byte & 0x80 != 0;
        assert_eq!(status_reports_empty(byte), empty);
        assert_eq!(status_reports_empty(byte ^ 0x70), empty);
    }
    assert!(status_reports_touch(0x81));
    assert!(status_reports_touch(0xFF));
    assert!(!status_reports_touch(0x80));
    assert!(!status_reports_touch(0x7F));
    assert!(status_reports_empty(0x80));
    assert!(status_reports_empty(0xF0));
    assert!(!status_reports_empty(0x81));
    assert!(!status_reports_empty(0x00));
}

#[test]
fn coordinates_are_little_endian() {
    assert_eq!(decode_point(&[0, 0, 0, 0, 0, 0, 0, 0]), (0, 0));
    assert_eq!(decode_point(&[9, 0xFF, 0xFF, 0xFF, 0xFF, 9, 9, 9]), (65535, 65535));
    assert_eq!(decode_point(&[9, 0x01, 0x02, 0x03, 0x04, 9, 9, 9]), (0x0201, 0x0403));
    for (x, y) in [(0u16, 0u16), (1, 256), (255, 65280), (959, 539), (65535, 1)] {
        let [a, b] = x.to_le_bytes();
        let [c, d] = y.to_le_bytes();
        assert_eq!(decode_point(&[7, a, b, c, d, 7, 7, 7]), (x, y));
        assert_eq!(decode_point(&[0, a, b, c, d, 1, 2, 3]), (x, y));
    }
}

#[test]
fn same_touch_is_not_returned_twice() {
    let mut gt911 = Gt911::new(0x14);
    let mut device = Device { status: 0x81, point: [0, 10, 0, 20, 0, 0, 0, 0] };
    let mut results = Vec::new();
    for round in 0..3 {
        if round == 2 {
            device.status = 0x81;
        }
        let mut read = gt911.read_touch();
        loop {
            match read.next() {
                BusStep::Ask(request) => read = read.resume(device.perform(0x14, request)),
                BusStep::Finished(touch) => {
                    results.push(touch);
                    break;
                }
            }
        }
    }
    assert_eq!(results, vec![Some((10, 20)), None, Some((10, 20))]);
}

#[test]
fn finished_poll_stays_finished() {
    let mut gt911 = Gt911::new(0x5D);
    let read = gt911.read_touch().resume(BusReply::Failed);
    assert_eq!(read.next(), BusStep::Finished(None));
    let read = read.resume(status(0x81)).resume(written());
    assert_eq!(read.next(), BusStep::Finished(None));
}

#[test]
fn asking_again_changes_nothing() {
    let mut gt911 = Gt911::new(0x5D);
    let read = gt911.read_touch();
    assert_eq!(read.next(), BusStep::Ask(read_status(0x5D)));
    assert_eq!(read.next(), BusStep::Ask(read_status(0x5D)));
}

#[test]
fn primary_address_is_found_first() {
    let (requests, addr) = search(&[status(0x00)]);
    assert_eq!(requests, vec![read_status(0x5D)]);
    assert_eq!(addr, Some(0x5D));
    assert_eq!(search(&[status(0xFF)]).1, Some(0x5D));
}

#[test]
fn alternative_address_is_found_second() {
    let (requests, addr) = search(&[BusReply::Failed, status(0x80)]);
    assert_eq!(requests, vec![read_status(0x5D), read_status(0x14)]);
    assert_eq!(addr, Some(0x14));
}

#[test]
fn no_controller_is_found() {
    let (requests, addr) = search(&[BusReply::Failed, BusReply::Failed]);
    assert_eq!(requests, vec![read_status(0x5D), read_status(0x14)]);
    assert_eq!(addr, None);
}

#[test]
fn finished_search_stays_finished() {
    let found = Gt911::detect().resume(written()).resume(BusReply::Failed);
    assert_eq!(found.next(), BusStep::Finished(Some(GT911_ADDR_PRIMARY)));
    let none = Gt911::detect().resume(BusReply::Failed).resume(BusReply::Failed).resume(written());
    assert_eq!(none.next(), BusStep::Finished(None));
}

#[test]
fn found_controller_answers_the_first_request_of_a_poll() {
    let (requests, addr) = search(&[BusReply::Failed, status(0)]);
    let mut gt911 = Gt911::new(addr.unwrap());
    assert_eq!(gt911.read_touch().next(), BusStep::Ask(requests[1]));
}
