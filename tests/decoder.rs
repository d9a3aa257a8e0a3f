use control::telemetry::{
    ETS2Event, EventData, EventGame, PacketParser, SelectGame, RECORD_SIZE,
};

fn record(alive: bool, code: u32, length: u32, id: u64, time: u64) -> Vec<u8> {
    let mut b = vec![0u8; RECORD_SIZE];
    b[0] = alive as u8;
    b[8..12].copy_from_slice(&code.to_le_bytes());
    b[12..16].copy_from_slice(&length.to_le_bytes());
    b[16..24].copy_from_slice(&id.to_le_bytes());
    b[24..32].copy_from_slice(&time.to_le_bytes());
    b
}

#[test]
fn event_codes_map_to_kinds() {
    let expected = [
        (0u32, EventGame::NotValidEvent),
        (1, EventGame::FrameStartEvent),
        (2, EventGame::FrameEndEvent),
        (3, EventGame::PausedEvent),
        (4, EventGame::StartedEvent),
        (5, EventGame::OtherEvent),
        (6, EventGame::OtherEvent),
        (7, EventGame::NotValidEvent),
        (u32::MAX, EventGame::NotValidEvent),
    ];
    for (code, kind) in expected {
        assert_eq!(ETS2Event::new(code).to_eventgame(), kind);
    }
    assert_eq!(ETS2Event::new(5), ETS2Event::Configuration);
    assert_eq!(ETS2Event::new(6), ETS2Event::Gameplay);
}

#[test]
fn decodes_frame_start_record() {
    let mut b = record(true, 1, 32, 7, 123_456_789_012);
    b[32..36].copy_from_slice(&5u32.to_le_bytes());
    b[40..48].copy_from_slice(&1_000u64.to_le_bytes());
    b[48..56].copy_from_slice(&2_000u64.to_le_bytes());
    b[56..64].copy_from_slice(&u64::MAX.to_le_bytes());
    let pair = PacketParser::new(SelectGame::ETS2).data(&b);
    assert!(pair.0);
    let p = pair.1;
    assert_eq!(p.header(), (7, 1, 123_456_789_012, 32));
    assert_eq!(p.event_type(), EventGame::FrameStartEvent);
    match p.data {
        EventData::FrameStart(fs) => {
            assert_eq!(fs.flags, 5);
            assert_eq!(fs.render_time, 1_000);
            assert_eq!(fs.simulation_time, 2_000);
            assert_eq!(fs.paused_simulation_time, u64::MAX);
        }
        _ => panic!("expected frame start payload"),
    }
}

#[test]
fn decodes_frame_end_record_and_liveness() {
    let mut b = record(false, 2, 216, 0x0102_0304_0506_0708, 9);
    b[32..36].copy_from_slice(&3u32.to_le_bytes());
    b[RECORD_SIZE - 1] = 0xAB;
    let pair = PacketParser::new(SelectGame::ETS2).data(&b);
    assert!(!pair.0);
    assert_eq!(pair.1.id, 0x0102_0304_0506_0708);
    assert_eq!(pair.1.event_type(), EventGame::FrameEndEvent);
    match pair.1.data {
        EventData::FrameEnd(fe) => {
            assert_eq!(fe.engine_gear, 3);
            assert_eq!(fe.raw.len(), 216);
            assert_eq!(fe.raw[215], 0xAB);
            assert_eq!(&fe.raw[..4], &3u32.to_le_bytes());
        }
        _ => panic!("expected frame end payload"),
    }
}

#[test]
fn unknown_code_decodes_as_invalid_without_payload() {
    let b = record(true, 99, 1_000_000, 1, 1);
    let pair = PacketParser::new(SelectGame::ETS2).data(&b);
    assert!(pair.0);
    assert_eq!(pair.1.event_type(), EventGame::NotValidEvent);
    assert!(matches!(pair.1.data, EventData::NoData));
    assert_eq!(pair.1.length, 1_000_000);
}
