use vstd::prelude::*;

use crate::services::{Input, InputType};

verus! {

/// The simulations whose telemetry layout this decoder knows.
#[derive(Debug, Clone, Copy, PartialEq, Eq, Structural)]
pub enum SelectGame {
    ETS2,
}

impl SelectGame {
    /// The game's events need no setup: every event code is classified by `ETS2Event::new`.
    pub fn get_events(&self) {
    }
}

/// Semantic classification of one captured item.
#[derive(Debug, Clone, Copy, PartialEq, Eq, Structural)]
pub enum EventGame {
    PausedEvent,
    StartedEvent,
    FrameEndEvent,
    FrameStartEvent,
    /// A valid event that drives no transition.
    OtherEvent,
    /// An unrecognised code: a sign of corrupted data, not a failure.
    NotValidEvent,
    /// Items that are not telemetry carry no event.
    NA,
}

/// The raw event classes of the ETS2 telemetry producer.
#[derive(Debug, Clone, Copy, PartialEq, Eq, Structural)]
pub enum ETS2Event {
    Paused,
    Started,
    Gameplay,
    FrameStart,
    FrameEnd,
    Configuration,
    NotValid,
}

pub open spec fn ets2_event_of_code(code: u32) -> ETS2Event {
    if code == 1 {
        ETS2Event::FrameStart
    } else if code == 2 {
        ETS2Event::FrameEnd
    } else if code == 3 {
        ETS2Event::Paused
    } else if code == 4 {
        ETS2Event::Started
    } else if code == 5 {
        ETS2Event::Configuration
    } else if code == 6 {
        ETS2Event::Gameplay
    } else {
        ETS2Event::NotValid
    }
}

pub open spec fn game_event_of(e: ETS2Event) -> EventGame {
    match e {
        ETS2Event::FrameStart => EventGame::FrameStartEvent,
        ETS2Event::FrameEnd => EventGame::FrameEndEvent,
        ETS2Event::Paused => EventGame::PausedEvent,
        ETS2Event::Started => EventGame::StartedEvent,
        ETS2Event::Configuration | ETS2Event::Gameplay => EventGame::OtherEvent,
        ETS2Event::NotValid => EventGame::NotValidEvent,
    }
}

/// The classification of a numeric event code.
pub open spec fn event_of_code(code: u32) -> EventGame {
    game_event_of(ets2_event_of_code(code))
}

impl ETS2Event {
    pub fn new(raw_event_type: u32) -> (r: ETS2Event)
        ensures
            r == ets2_event_of_code(raw_event_type),
    {
        match raw_event_type {
            1 => ETS2Event::FrameStart,
            2 => ETS2Event::FrameEnd,
            3 => ETS2Event::Paused,
            4 => ETS2Event::Started,
            5 => ETS2Event::Configuration,
            6 => ETS2Event::Gameplay,
            _ => ETS2Event::NotValid,
        }
    }

    pub fn to_eventgame(&self) -> (r: EventGame)
        ensures
            r == game_event_of(*self),
    {
        match self {
            ETS2Event::FrameStart => EventGame::FrameStartEvent,
            ETS2Event::FrameEnd => EventGame::FrameEndEvent,
            ETS2Event::Paused => EventGame::PausedEvent,
            ETS2Event::Started => EventGame::StartedEvent,
            ETS2Event::Configuration | ETS2Event::Gameplay => EventGame::OtherEvent,
            ETS2Event::NotValid => EventGame::NotValidEvent,
        }
    }
}

/// The event classification is fixed on the codes one to six, total, and
/// every other code is invalid.
pub proof fn lemma_event_codes(code: u32)
    ensures
        code == 1 ==> event_of_code(code) == EventGame::FrameStartEvent,
        code == 2 ==> event_of_code(code) == EventGame::FrameEndEvent,
        code == 3 ==> event_of_code(code) == EventGame::PausedEvent,
        code == 4 ==> event_of_code(code) == EventGame::StartedEvent,
        code == 5 || code == 6 ==> event_of_code(code) == EventGame::OtherEvent,
        (1 <= code <= 6) <==> event_of_code(code) != EventGame::NotValidEvent,
        event_of_code(code) != EventGame::NA,
{
}

/// Byte offset of the packet inside a shared record; the alive flag stands at offset 0.
pub const PACKET_OFFSET: usize = 8;

/// Size of a shared record: the alive flag, its padding, and the packet.
pub const RECORD_SIZE: usize = 248;

/// Size of the payload union, which the frame-end variant fills.
pub const PAYLOAD_SIZE: usize = 216;

/// The little-endian value of the four bytes at `off`.
pub open spec fn le_u32(b: Seq<u8>, off: int) -> int {
    b[off] + 256 * b[off + 1] + 65536 * b[off + 2] + 16777216 * b[off + 3]
}

/// The little-endian value of the eight bytes at `off`.
pub open spec fn le_u64(b: Seq<u8>, off: int) -> int {
    le_u32(b, off) + 4294967296 * le_u32(b, off + 4)
}

fn read_u32(b: &[u8], off: usize) -> (r: u32)
    requires
        off + 4 <= b@.len(),
    ensures
        r as int == le_u32(b@, off as int),
{
    let b0 = b[off] as u32;
    let b1 = b[off + 1] as u32;
    let b2 = b[off + 2] as u32;
    let b3 = b[off + 3] as u32;
    b0 + 256 * b1 + 65536 * b2 + 16777216 * b3
}

fn read_u64(b: &[u8], off: usize) -> (r: u64)
    requires
        off + 8 <= b@.len(),
    ensures
        r as int == le_u64(b@, off as int),
{
    let n = b.len();
    assert(off + 4 < n);
    let lo = read_u32(b, off) as u64;
    let hi = read_u32(b, off + 4) as u64;
    lo + 4294967296 * hi
}

/// Timing data of a frame-start event.
#[allow(non_camel_case_types)]
#[derive(Debug, Clone, Copy, PartialEq, Eq, Structural)]
pub struct frame_start {
    pub flags: u32,
    pub padding: u32,
    pub render_time: u64,
    pub simulation_time: u64,
    pub paused_simulation_time: u64,
}

/// Vehicle and motion data of a frame-end event. Only the gear is an integer
/// field; `raw` keeps the whole payload, float fields included, as its bytes.
#[allow(non_camel_case_types)]
#[derive(Debug, Clone)]
pub struct frame_end {
    pub engine_gear: u32,
    pub raw: Vec<u8>,
}

/// The payload, built only once the event code that selects it is known.
#[derive(Debug, Clone)]
pub enum EventData {
    FrameStart(frame_start),
    FrameEnd(frame_end),
    NoData,
}

/// One decoded telemetry record.
#[allow(non_camel_case_types)]
#[derive(Debug, Clone)]
pub struct telemetry_packet {
    pub type_: u32,
    pub length: u32,
    pub id: u64,
    pub time: u64,
    pub data: EventData,
}

/// What decoding the record `b` gives: the header fields at their offsets,
/// and the payload variant that the event code selects.
pub open spec fn decodes_to(p: telemetry_packet, b: Seq<u8>) -> bool {
    &&& p.type_ as int == le_u32(b, 8)
    &&& p.length as int == le_u32(b, 12)
    &&& p.id as int == le_u64(b, 16)
    &&& p.time as int == le_u64(b, 24)
    &&& match p.data {
        EventData::FrameStart(fs) => {
            &&& p.type_ == 1
            &&& fs.flags as int == le_u32(b, 32)
            &&& fs.padding as int == le_u32(b, 36)
            &&& fs.render_time as int == le_u64(b, 40)
            &&& fs.simulation_time as int == le_u64(b, 48)
            &&& fs.paused_simulation_time as int == le_u64(b, 56)
        },
        EventData::FrameEnd(fe) => {
            &&& p.type_ == 2
            &&& fe.engine_gear as int == le_u32(b, 32)
            &&& fe.raw@ == b.subrange(32, 32 + PAYLOAD_SIZE as int)
        },
        EventData::NoData => p.type_ != 1 && p.type_ != 2,
    }
}

/// The alive flag of a record: the producer is still running.
pub open spec fn alive_of(b: Seq<u8>) -> bool {
    b[0] != 0
}

impl telemetry_packet {
    /// An all-zero packet without payload.
    pub fn new() -> (r: telemetry_packet)
        ensures
            r.type_ == 0 && r.length == 0 && r.id == 0 && r.time == 0,
            r.data is NoData,
    {
        telemetry_packet { type_: 0, length: 0, id: 0, time: 0, data: EventData::NoData }
    }

    /// Overwrites this packet with the one in `record` and returns the record's
    /// alive flag. Only the static layout is trusted: `length` sizes nothing.
    pub fn parser(&mut self, record: &[u8]) -> (alive: bool)
        requires
            record@.len() >= RECORD_SIZE,
        ensures
            decodes_to(*final(self), record@),
            alive == alive_of(record@),
    {
        let type_ = read_u32(record, PACKET_OFFSET);
        let length = read_u32(record, PACKET_OFFSET + 4);
        let id = read_u64(record, PACKET_OFFSET + 8);
        let time = read_u64(record, PACKET_OFFSET + 16);
        let base: usize = PACKET_OFFSET + 24;
        let data = if type_ == 1 {
            EventData::FrameStart(
                frame_start {
                    flags: read_u32(record, base),
                    padding: read_u32(record, base + 4),
                    render_time: read_u64(record, base + 8),
                    simulation_time: read_u64(record, base + 16),
                    paused_simulation_time: read_u64(record, base + 24),
                },
            )
        } else if type_ == 2 {
            let engine_gear = read_u32(record, base);
            let mut raw: Vec<u8> = Vec::new();
            let mut i: usize = base;
            while i < RECORD_SIZE
                invariant
                    base <= i <= RECORD_SIZE,
                    RECORD_SIZE <= record@.len(),
                    base == 32,
                    raw@ == record@.subrange(32, i as int),
                decreases RECORD_SIZE - i,
            {
                raw.push(record[i]);
                i = i + 1;
                assert(raw@ =~= record@.subrange(32, i as int));
            }
            EventData::FrameEnd(frame_end { engine_gear, raw })
        } else {
            EventData::NoData
        };
        *self = telemetry_packet { type_, length, id, time, data };
        record[0] != 0
    }

    pub fn input_type(&self) -> (r: InputType)
        ensures
            r == InputType::Telemetry,
    {
        InputType::Telemetry
    }

    pub fn event_type(&self) -> (r: EventGame)
        ensures
            r == event_of_code(self.type_),
    {
        ETS2Event::new(self.type_).to_eventgame()
    }

    /// `(id, event code, time, length)`.
    pub fn header(&self) -> (r: (u64, u32, u64, u32))
        ensures
            r == (self.id, self.type_, self.time, self.length),
    {
        (self.id, self.type_, self.time, self.length)
    }
}

impl Input for telemetry_packet {
    fn input_type(&self) -> InputType {
        telemetry_packet::input_type(self)
    }

    fn event_type(&self) -> EventGame {
        telemetry_packet::event_type(self)
    }

    fn header(&self) -> (u64, u32, u64, u32) {
        telemetry_packet::header(self)
    }
}

/// A decoded packet and the alive flag that came with it.
pub struct DataPair(pub bool, pub telemetry_packet);

/// Decodes shared records in the layout of the selected game.
#[derive(Debug, Clone, Copy)]
pub struct PacketParser {
    game: SelectGame,
}

impl PacketParser {
    pub fn new(selected_game: SelectGame) -> (r: PacketParser)
        ensures
            r.game() == selected_game,
    {
        PacketParser { game: selected_game }
    }

    pub closed spec fn game(self) -> SelectGame {
        self.game
    }

    /// Decodes one record, as the producer laid it out in shared memory.
    pub fn data(self, record: &[u8]) -> (r: DataPair)
        requires
            record@.len() >= RECORD_SIZE,
        ensures
            r.0 == alive_of(record@),
            decodes_to(r.1, record@),
    {
        let mut p = match self.game {
            SelectGame::ETS2 => telemetry_packet::new(),
        };
        let is_alive = p.parser(record);
        DataPair(is_alive, p)
    }
}

} // verus!
