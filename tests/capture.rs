use control::screencapture::{
    classify_acquire, pack_rows, release_is_fatal, AcquireStep, CaptureError, FramePacer,
    FrameStep, Pixels, DXGI_ERROR_ACCESS_LOST, DXGI_ERROR_INVALID_CALL, DXGI_ERROR_WAIT_TIMEOUT,
    FRAME_INTERVAL_MS,
};

#[test]
fn maps_every_known_code() {
    let cases = [
        (0x887A0026u32, CaptureError::AccessLost),
        (0x887A0005, CaptureError::DeviceRemoved),
        (0x887A000C, CaptureError::ExclusiveOwnership),
        (0x887A0001, CaptureError::InvalidCall),
        (0x887A0002, CaptureError::NotFound),
        (0x887A0027, CaptureError::WaitTimeout),
        (0x887A000A, CaptureError::WasStillDrawing),
        (0x80004005, CaptureError::NoDebugLayer),
        (0x80070057, CaptureError::InvalidParameter),
        (0x887A0006, CaptureError::DxgiError),
        (0, CaptureError::DxgiError),
    ];
    for (hr, e) in cases {
        assert_eq!(CaptureError::from_win_error(hr as i32), e);
    }
}

#[test]
fn packs_rows_without_padding() {
    // Two rows of two pixels, each row padded to 12 bytes.
    let mut data = Vec::new();
    for row in 0..2u8 {
        for i in 0..8u8 {
            data.push(row * 16 + i);
        }
        data.extend_from_slice(&[0xEE; 4]);
    }
    let packed = pack_rows(&data, 12, 2, 2);
    let expected: Vec<u8> = (0..8u8).chain(16..24u8).collect();
    assert_eq!(packed, expected);
    assert!(pack_rows(&data, 12, 0, 2).is_empty());
    assert!(pack_rows(&data, 12, 2, 0).is_empty());
    let p = Pixels::new(packed, 2, 2);
    assert_eq!(p.header(), (0, 2, 0, 2));
}

#[test]
fn pacing_and_stop() {
    let mut p = FramePacer::new(FRAME_INTERVAL_MS, 1_000);
    assert_eq!(p.next_step(false, 1_000), FrameStep::Capture { release_previous: false });
    assert_eq!(p.next_step(false, 1_005), FrameStep::Wait);
    assert_eq!(p.next_step(false, 1_015), FrameStep::Capture { release_previous: true });
    p.frame_emitted(1_015);
    assert_eq!(p.next_step(false, 1_029), FrameStep::Wait);
    assert_eq!(p.next_step(false, 900), FrameStep::Wait);
    assert_eq!(p.next_step(true, 1_029), FrameStep::Exit);
    assert_eq!(p.next_step(true, 5_000), FrameStep::Exit);
    let mut fresh = FramePacer::new(FRAME_INTERVAL_MS, 0);
    assert_eq!(fresh.next_step(true, 0), FrameStep::Exit);
    assert!(fresh.first_iter);
}

#[test]
fn release_and_acquire_outcomes() {
    assert!(!release_is_fatal(0));
    assert!(!release_is_fatal(DXGI_ERROR_INVALID_CALL));
    assert!(release_is_fatal(DXGI_ERROR_ACCESS_LOST));
    assert_eq!(classify_acquire(DXGI_ERROR_WAIT_TIMEOUT, 0), AcquireStep::NoNewFrame);
    assert_eq!(classify_acquire(0, 0), AcquireStep::NoNewFrame);
    assert_eq!(classify_acquire(0, 3), AcquireStep::NewFrame);
    assert_eq!(
        classify_acquire(DXGI_ERROR_ACCESS_LOST, 1),
        AcquireStep::Retry(CaptureError::AccessLost)
    );
}
