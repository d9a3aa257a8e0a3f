use control::screencapture::Pixels;
use control::synchronization::{CaptureItem, Synchronization, UserEvent};
use control::telemetry::{telemetry_packet, EventGame};

fn packet(code: u32, id: u64) -> CaptureItem {
    let mut p = telemetry_packet::new();
    p.type_ = code;
    p.id = id;
    CaptureItem::Telemetry(p)
}

fn image() -> CaptureItem {
    CaptureItem::Image(Pixels::new(vec![1, 2, 3, 4], 1, 1))
}

const FRAME_START: u32 = 1;
const FRAME_END: u32 = 2;
const PAUSED: u32 = 3;
const STARTED: u32 = 4;
const OTHER: u32 = 6;

#[test]
fn only_the_driving_window_is_emitted() {
    let mut sync = Synchronization::new();
    let items = vec![
        packet(STARTED, 0),
        packet(FRAME_START, 1),
        packet(OTHER, 2),
        packet(OTHER, 3),
        packet(FRAME_END, 4),
        packet(PAUSED, 5),
        packet(FRAME_START, 6),
        packet(FRAME_END, 7),
    ];
    let batches = sync.process_all(items);
    assert_eq!(batches.len(), 1);
    let kinds: Vec<EventGame> = batches[0].iter().map(|i| i.event_type()).collect();
    assert_eq!(
        kinds,
        vec![
            EventGame::FrameStartEvent,
            EventGame::OtherEvent,
            EventGame::OtherEvent,
            EventGame::FrameEndEvent
        ]
    );
    let ids: Vec<u64> = batches[0].iter().map(|i| i.header().0).collect();
    assert_eq!(ids, vec![1, 2, 3, 4]);
    assert!(!sync.is_driving());
    assert_eq!(sync.buffered(), 0);
}

#[test]
fn buffer_is_empty_after_each_batch_and_drain_is_idempotent() {
    let mut sync = Synchronization::new();
    assert!(sync.process(packet(STARTED, 0)).is_none());
    assert!(sync.process(packet(FRAME_START, 1)).is_none());
    assert!(sync.process(image()).is_none());
    assert_eq!(sync.buffered(), 2);
    let batch = sync.process(packet(FRAME_END, 2)).expect("frame end emits");
    assert_eq!(batch.len(), 3);
    assert_eq!(sync.buffered(), 0);
    assert!(sync.process(packet(FRAME_START, 3)).is_none());
    let first = sync.drain();
    let second = sync.drain();
    assert_eq!(first.len(), 1);
    assert!(second.is_empty());
    assert!(sync.is_driving());
}

#[test]
fn paused_discards_partial_frame_and_invalid_changes_nothing() {
    let mut sync = Synchronization::new();
    sync.process(packet(STARTED, 0));
    sync.process(packet(FRAME_START, 1));
    sync.process(packet(0, 2));
    assert_eq!(sync.buffered(), 1);
    assert!(sync.is_driving());
    sync.process(packet(PAUSED, 3));
    assert_eq!(sync.buffered(), 0);
    assert!(sync.process(packet(FRAME_END, 4)).is_none());
    assert!(sync.process(image()).is_none());
    assert_eq!(sync.buffered(), 0);
}

#[test]
fn started_again_restarts_with_empty_buffer() {
    let mut sync = Synchronization::new();
    sync.process(packet(STARTED, 0));
    sync.process(packet(FRAME_START, 1));
    sync.process(packet(STARTED, 2));
    assert_eq!(sync.buffered(), 0);
    sync.process(packet(FRAME_START, 3));
    let b = sync.process(packet(FRAME_END, 4)).unwrap();
    let ids: Vec<u64> = b.iter().map(|i| i.header().0).collect();
    assert_eq!(ids, vec![3, 4]);
}

#[test]
fn image_header_carries_dimensions() {
    let item = CaptureItem::Image(Pixels::new(vec![0; 8 * 2 * 4], 8, 2));
    assert_eq!(item.header(), (0, 8, 0, 2));
    assert_eq!(item.event_type(), EventGame::NA);
    assert_eq!(item.input_type(), control::InputType::Image);
}

#[test]
fn items_before_frame_start_are_not_batched() {
    let mut sync = Synchronization::new();
    let items = vec![
        packet(STARTED, 0),
        packet(OTHER, 1),
        image(),
        CaptureItem::User(UserEvent { id: 9, code: 1, time: 2, length: 3 }),
        packet(FRAME_END, 2),
        packet(FRAME_START, 3),
        CaptureItem::User(UserEvent { id: 9, code: 1, time: 2, length: 3 }),
        packet(FRAME_END, 4),
    ];
    let batches = sync.process_all(items);
    assert_eq!(batches.len(), 1);
    let kinds: Vec<EventGame> = batches[0].iter().map(|i| i.event_type()).collect();
    assert_eq!(
        kinds,
        vec![EventGame::FrameStartEvent, EventGame::NA, EventGame::FrameEndEvent]
    );
    assert_eq!(batches[0][1].input_type(), control::InputType::User);
    assert_eq!(batches[0][1].header(), (9, 1, 2, 3));
}
