use vstd::prelude::*;

use crate::services::{Input, InputType};
use crate::telemetry::EventGame;

verus! {

// HRESULT codes of the duplication backend, as signed 32-bit values.
/// `DXGI_ERROR_ACCESS_LOST` (0x887A0026).
pub const DXGI_ERROR_ACCESS_LOST: i32 = -2005270490;

/// `DXGI_ERROR_DEVICE_REMOVED` (0x887A0005).
pub const DXGI_ERROR_DEVICE_REMOVED: i32 = -2005270523;

/// `DXGI_ERROR_GRAPHICS_VIDPN_SOURCE_IN_USE` (0x887A000C).
pub const DXGI_ERROR_GRAPHICS_VIDPN_SOURCE_IN_USE: i32 = -2005270516;

/// `DXGI_ERROR_INVALID_CALL` (0x887A0001).
pub const DXGI_ERROR_INVALID_CALL: i32 = -2005270527;

/// `DXGI_ERROR_NOT_FOUND` (0x887A0002).
pub const DXGI_ERROR_NOT_FOUND: i32 = -2005270526;

/// `DXGI_ERROR_WAIT_TIMEOUT` (0x887A0027).
pub const DXGI_ERROR_WAIT_TIMEOUT: i32 = -2005270489;

/// `DXGI_ERROR_WAS_STILL_DRAWING` (0x887A000A).
pub const DXGI_ERROR_WAS_STILL_DRAWING: i32 = -2005270518;

/// `E_FAIL` (0x80004005).
pub const E_FAIL: i32 = -2147467259;

/// `E_INVALIDARG` (0x80070057).
pub const E_INVALIDARG: i32 = -2147024809;

#[derive(Debug, Clone, Copy, PartialEq, Eq, Structural)]
pub enum CaptureError {
    AccessLost,
    DeviceRemoved,
    ExclusiveOwnership,
    InvalidCall,
    NotFound,
    WaitTimeout,
    WasStillDrawing,
    /// Any other failure code.
    DxgiError,
    NoDebugLayer,
    InvalidParameter,
}

pub open spec fn capture_error_of(hr: i32) -> CaptureError {
    if hr == DXGI_ERROR_ACCESS_LOST {
        CaptureError::AccessLost
    } else if hr == DXGI_ERROR_DEVICE_REMOVED {
        CaptureError::DeviceRemoved
    } else if hr == DXGI_ERROR_GRAPHICS_VIDPN_SOURCE_IN_USE {
        CaptureError::ExclusiveOwnership
    } else if hr == DXGI_ERROR_INVALID_CALL {
        CaptureError::InvalidCall
    } else if hr == DXGI_ERROR_NOT_FOUND {
        CaptureError::NotFound
    } else if hr == DXGI_ERROR_WAIT_TIMEOUT {
        CaptureError::WaitTimeout
    } else if hr == DXGI_ERROR_WAS_STILL_DRAWING {
        CaptureError::WasStillDrawing
    } else if hr == E_FAIL {
        CaptureError::NoDebugLayer
    } else if hr == E_INVALIDARG {
        CaptureError::InvalidParameter
    } else {
        CaptureError::DxgiError
    }
}

impl CaptureError {
    /// Maps a failure code of the duplication backend to its error.
    pub fn from_win_error(hr: i32) -> (r: CaptureError)
        ensures
            r == capture_error_of(hr),
    {
        if hr == DXGI_ERROR_ACCESS_LOST {
            CaptureError::AccessLost
        } else if hr == DXGI_ERROR_DEVICE_REMOVED {
            CaptureError::DeviceRemoved
        } else if hr == DXGI_ERROR_GRAPHICS_VIDPN_SOURCE_IN_USE {
            CaptureError::ExclusiveOwnership
        } else if hr == DXGI_ERROR_INVALID_CALL {
            CaptureError::InvalidCall
        } else if hr == DXGI_ERROR_NOT_FOUND {
            CaptureError::NotFound
        } else if hr == DXGI_ERROR_WAIT_TIMEOUT {
            CaptureError::WaitTimeout
        } else if hr == DXGI_ERROR_WAS_STILL_DRAWING {
            CaptureError::WasStillDrawing
        } else if hr == E_FAIL {
            CaptureError::NoDebugLayer
        } else if hr == E_INVALIDARG {
            CaptureError::InvalidParameter
        } else {
            CaptureError::DxgiError
        }
    }
}

/// Bytes per pixel of the staging surface's BGRA format.
pub const BYTES_PER_PIXEL: usize = 4;

/// One captured desktop frame: tightly packed BGRA rows, top row first.
#[derive(Debug, Clone)]
pub struct Pixels {
    pub pixels: Vec<u8>,
    pub width: u32,
    pub height: u32,
}

impl Pixels {
    pub fn new(pixels: Vec<u8>, width: u32, height: u32) -> (r: Pixels)
        ensures
            r.pixels@ == pixels@,
            r.width == width,
            r.height == height,
    {
        Pixels { pixels, width, height }
    }

    pub fn input_type(&self) -> (r: InputType)
        ensures
            r == InputType::Image,
    {
        InputType::Image
    }

    pub fn event_type(&self) -> (r: EventGame)
        ensures
            r == EventGame::NA,
    {
        EventGame::NA
    }

    /// The frame's dimensions stand where a packet has its code and length.
    pub fn header(&self) -> (r: (u64, u32, u64, u32))
        ensures
            r == (0u64, self.width, 0u64, self.height),
    {
        (0, self.width, 0, self.height)
    }
}

impl Input for Pixels {
    fn input_type(&self) -> InputType {
        Pixels::input_type(self)
    }

    fn event_type(&self) -> EventGame {
        Pixels::event_type(self)
    }

    fn header(&self) -> (u64, u32, u64, u32) {
        Pixels::header(self)
    }
}

/// The first `rows` rows of a mapped surface with `pitch` bytes between row
/// starts, each cut to its `row_bytes` bytes of pixels.
pub open spec fn packed_rows(data: Seq<u8>, pitch: int, row_bytes: int, rows: int) -> Seq<u8>
    decreases rows,
{
    if rows <= 0 {
        Seq::empty()
    } else {
        packed_rows(data, pitch, row_bytes, rows - 1) + data.subrange(
            (rows - 1) * pitch,
            (rows - 1) * pitch + row_bytes,
        )
    }
}

/// Copies the pixels of a mapped surface into a tightly packed buffer,
/// dropping the padding at the end of each row.
pub fn pack_rows(data: &[u8], row_pitch: usize, width: u32, height: u32) -> (r: Vec<u8>)
    requires
        width as int * BYTES_PER_PIXEL as int <= row_pitch,
        height as int * row_pitch as int <= data@.len(),
    ensures
        r@ == packed_rows(
            data@,
            row_pitch as int,
            width as int * BYTES_PER_PIXEL as int,
            height as int,
        ),
        r@.len() == height as int * width as int * BYTES_PER_PIXEL as int,
{
    let row_bytes: usize = width as usize * BYTES_PER_PIXEL;
    let ghost rb = row_bytes as int;
    let ghost pitch = row_pitch as int;
    let n: usize = data.len();
    let mut r: Vec<u8> = Vec::new();
    let mut y: usize = 0;
    while y < height as usize
        invariant
            n == data@.len(),
            rb == row_bytes,
            rb == width as int * BYTES_PER_PIXEL as int,
            rb <= pitch,
            pitch == row_pitch,
            height as int * pitch <= data@.len(),
            y <= height,
            r@ == packed_rows(data@, pitch, rb, y as int),
            r@.len() == y as int * rb,
        decreases height as int - y,
    {
        assert((y as int + 1) * pitch <= height as int * pitch) by (nonlinear_arith)
            requires
                y < height,
                0 <= pitch,
        ;
        assert((y as int + 1) * pitch == y as int * pitch + pitch) by (nonlinear_arith);
        let start: usize = y * row_pitch;
        let mut x: usize = 0;
        while x < row_bytes
            invariant
                rb == row_bytes,
                rb <= pitch,
                start as int == y as int * pitch,
                start as int + pitch <= data@.len(),
                n == data@.len(),
                x <= rb,
                r@ == packed_rows(data@, pitch, rb, y as int) + data@.subrange(
                    start as int,
                    start as int + x,
                ),
                r@.len() == y as int * rb + x,
            decreases rb - x,
        {
            r.push(data[start + x]);
            x = x + 1;
            assert(r@ =~= packed_rows(data@, pitch, rb, y as int) + data@.subrange(
                start as int,
                start as int + x,
            ));
        }
        assert((y as int + 1) * rb == y as int * rb + rb) by (nonlinear_arith);
        y = y + 1;
    }
    assert(height as int * width as int * BYTES_PER_PIXEL as int == height as int * rb)
        by (nonlinear_arith)
        requires
            rb == width as int * BYTES_PER_PIXEL as int,
    ;
    r
}

/// Target time between two emitted frames.
pub const FRAME_INTERVAL_MS: u64 = 15;

/// Pause before retrying when no new frame was ready.
pub const RETRY_SLEEP_MS: u64 = 2;

/// How long one acquisition waits for a new frame.
pub const ACQUIRE_TIMEOUT_MS: u32 = 1;

/// What the capture loop does next.
#[derive(Debug, Clone, Copy, PartialEq, Eq, Structural)]
pub enum FrameStep {
    /// The stop flag is set: release the session and end the loop.
    Exit,
    /// The pacing interval has not passed since the last frame.
    Wait,
    /// Acquire a frame, after releasing the one held if `release_previous`.
    Capture { release_previous: bool },
}

/// The pacing state of the capture loop.
#[derive(Debug, Clone, Copy, PartialEq, Eq, Structural)]
pub struct FramePacer {
    pub interval_ms: u64,
    pub first_iter: bool,
    pub last_frame_ms: u64,
}

/// Whether a frame is due at `now_ms`: the interval has passed since the last
/// emitted frame (a clock that went back counts as no time passed).
pub open spec fn frame_due(p: FramePacer, now_ms: u64) -> bool {
    now_ms >= p.last_frame_ms && now_ms - p.last_frame_ms >= p.interval_ms
}

impl FramePacer {
    /// A pacer whose clock starts at `start_ms`; its first step captures at once.
    pub fn new(interval_ms: u64, start_ms: u64) -> (r: FramePacer)
        ensures
            r == (FramePacer { interval_ms, first_iter: true, last_frame_ms: start_ms }),
    {
        FramePacer { interval_ms, first_iter: true, last_frame_ms: start_ms }
    }

    /// Decides the next iteration. The stop flag is read before anything else,
    /// so a stop request ends the loop at its next iteration.
    pub fn next_step(&mut self, stop_requested: bool, now_ms: u64) -> (r: FrameStep)
        ensures
            stop_requested ==> r == FrameStep::Exit && *final(self) == *old(self),
            !stop_requested && old(self).first_iter ==> r == (FrameStep::Capture {
                release_previous: false,
            }) && *final(self) == (FramePacer { first_iter: false, ..*old(self) }),
            !stop_requested && !old(self).first_iter ==> *final(self) == *old(self) && r == (if frame_due(
                *old(self),
                now_ms,
            ) {
                FrameStep::Capture { release_previous: true }
            } else {
                FrameStep::Wait
            }),
    {
        if stop_requested {
            FrameStep::Exit
        } else if self.first_iter {
            self.first_iter = false;
            FrameStep::Capture { release_previous: false }
        } else if now_ms >= self.last_frame_ms && now_ms - self.last_frame_ms >= self.interval_ms {
            FrameStep::Capture { release_previous: true }
        } else {
            FrameStep::Wait
        }
    }

    /// Records that a frame was emitted at `now_ms`.
    pub fn frame_emitted(&mut self, now_ms: u64)
        ensures
            *final(self) == (FramePacer { last_frame_ms: now_ms, ..*old(self) }),
    {
        self.last_frame_ms = now_ms;
    }
}

/// Whether the result of releasing the held frame ends the loop: success and
/// "no frame was held" do not, any other failure does.
pub fn release_is_fatal(hr: i32) -> (r: bool)
    ensures
        r == (hr != 0 && hr != DXGI_ERROR_INVALID_CALL),
{
    hr != 0 && hr != DXGI_ERROR_INVALID_CALL
}

/// How the loop goes on after an acquisition attempt.
#[derive(Debug, Clone, Copy, PartialEq, Eq, Structural)]
pub enum AcquireStep {
    /// A new frame is held: copy it out.
    NewFrame,
    /// No new frame is ready: sleep briefly, then retry.
    NoNewFrame,
    /// A transient failure: note it and retry; the session stays.
    Retry(CaptureError),
}

/// Classifies an acquisition result. No result of an acquisition ends the loop.
pub fn classify_acquire(hr: i32, accumulated_frames: u32) -> (r: AcquireStep)
    ensures
        hr == DXGI_ERROR_WAIT_TIMEOUT ==> r == AcquireStep::NoNewFrame,
        hr != 0 && hr != DXGI_ERROR_WAIT_TIMEOUT ==> r == AcquireStep::Retry(capture_error_of(hr)),
        hr == 0 && accumulated_frames == 0 ==> r == AcquireStep::NoNewFrame,
        hr == 0 && accumulated_frames > 0 ==> r == AcquireStep::NewFrame,
{
    if hr == DXGI_ERROR_WAIT_TIMEOUT {
        AcquireStep::NoNewFrame
    } else if hr != 0 {
        AcquireStep::Retry(CaptureError::from_win_error(hr))
    } else if accumulated_frames == 0 {
        AcquireStep::NoNewFrame
    } else {
        AcquireStep::NewFrame
    }
}

} // verus!
