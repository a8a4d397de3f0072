use tl_mbox::evt::EvtBox;
use tl_mbox::layout::{
    u16_le, u32_le, CcEvt, CsEvt, Evt, EvtPacket, EvtSerial, PacketHeader, CC_EVT_SIZE,
    EVT_PACKET_SIZE, EVT_SERIAL_SIZE, EVT_SIZE,
};

#[test]
fn little_endian_values() {
    assert_eq!(u16_le(0x34, 0x12), 0x1234);
    assert_eq!(u16_le(0xFF, 0xFF), 0xFFFF);
    assert_eq!(u16_le(0, 0), 0);
    assert_eq!(u32_le(0x78, 0x56, 0x34, 0x12), 0x1234_5678);
    assert_eq!(u32_le(0xFF, 0xFF, 0xFF, 0xFF), 0xFFFF_FFFF);
    assert_eq!(u32_le(0, 0, 0, 0x80), 0x8000_0000);
}

#[test]
fn sizes_of_the_shapes() {
    assert_eq!(CC_EVT_SIZE, 3);
    assert_eq!(EVT_SIZE, 3);
    assert_eq!(EVT_SERIAL_SIZE, 4);
    assert_eq!(EVT_PACKET_SIZE, 12);
}

#[test]
fn packet_header_is_two_links() {
    let bytes = [0x00, 0x01, 0x03, 0x20, 0x10, 0x02, 0x03, 0x20, 0xEE];
    assert_eq!(
        PacketHeader::decode(&bytes),
        Some(PacketHeader { next: 0x2003_0100, prev: 0x2003_0210 })
    );
    assert_eq!(PacketHeader::decode(&bytes[..7]), None);
}

#[test]
fn command_status_is_four_bytes() {
    let bytes = [0x00, 0x01, 0x66, 0xFC];
    assert_eq!(
        CsEvt::decode(&bytes),
        Some(CsEvt { status: 0x00, num_cmd: 0x01, cmd_code: 0xFC66 })
    );
    assert_eq!(CsEvt::decode(&bytes[..3]), None);
    assert_eq!(CsEvt::decode(&[]), None);
}

#[test]
fn command_complete_has_one_byte_codes() {
    let bytes = [0x01, 0x52, 0xFC, 0x00];
    assert_eq!(
        CcEvt::decode(&bytes),
        Some(CcEvt { num_cmd: 0x01, cmd_code: 0x52, payload: [0xFC] })
    );
    assert_eq!(CcEvt::decode(&bytes[..2]), None);
}

#[test]
fn event_body_and_serial() {
    let bytes = [0x12, 0xFF, 0x02, 0x00, 0x92];
    assert_eq!(
        EvtSerial::decode(&bytes),
        Some(EvtSerial {
            kind: 0x12,
            evt: Evt { evt_code: 0xFF, payload_len: 2, payload: [0x00] },
        })
    );
    assert_eq!(
        Evt::decode(&bytes[1..]),
        Some(Evt { evt_code: 0xFF, payload_len: 2, payload: [0x00] })
    );
    assert_eq!(EvtSerial::decode(&bytes[..3]), None);
    assert_eq!(Evt::decode(&bytes[..2]), None);
}

#[test]
fn packet_is_header_then_serial() {
    let bytes = [1, 0, 0, 0, 2, 0, 0, 0, 0x04, 0x0E, 4, 0x01, 0x03, 0x0C, 0x00];
    let packet = EvtPacket::decode(&bytes).unwrap();
    assert_eq!(Some(packet.header), PacketHeader::decode(&bytes));
    assert_eq!(Some(packet.evt_serial), EvtSerial::decode(&bytes[8..]));
    assert_eq!(packet.header, PacketHeader { next: 1, prev: 2 });
    assert_eq!(packet.evt_serial.kind, 0x04);
    assert_eq!(packet.evt_serial.evt.evt_code, 0x0E);
    assert_eq!(packet.evt_serial.evt.payload_len, 4);
    assert_eq!(packet.evt_serial.evt.payload, [0x01]);
    assert_eq!(EvtPacket::decode(&bytes[..11]), None);
}

#[test]
fn snapshot_is_the_fixed_part() {
    let bytes = [1, 0, 0, 0, 2, 0, 0, 0, 0x04, 0x0E, 4, 0x01, 0x03, 0x0C, 0x00];
    let evt_box = EvtBox::new(0, &bytes);
    assert_eq!(Some(evt_box.evt()), EvtPacket::decode(&bytes));
    // Of an unrecognized kind too.
    let odd = [0, 0, 0, 0, 0, 0, 0, 0, 0xFF, 0x01, 0x09, 0x33];
    let snapshot = EvtBox::new(0, &odd).evt();
    assert_eq!(snapshot.evt_serial.kind, 0xFF);
    assert_eq!(snapshot.evt_serial.evt.payload_len, 9);
    assert_eq!(snapshot.evt_serial.evt.payload, [0x33]);
}

#[test]
fn command_complete_over_a_copied_event() {
    let bytes = [0, 0, 0, 0, 0, 0, 0, 0, 0x04, 0x0E, 4, 0x01, 0x03, 0x0C, 0x00];
    let evt_box = EvtBox::new(0, &bytes);
    let mut buf = [0u8; 7];
    assert_eq!(evt_box.copy_into_slice(&mut buf), Ok(7));
    assert_eq!(
        CcEvt::decode(&buf[3..]),
        Some(CcEvt { num_cmd: 0x01, cmd_code: 0x03, payload: [0x0C] })
    );
    assert_eq!(
        CsEvt::decode(&buf[3..]),
        Some(CsEvt { status: 0x01, num_cmd: 0x03, cmd_code: 0x000C })
    );
}
