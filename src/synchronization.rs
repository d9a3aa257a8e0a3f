use vstd::prelude::*;

use crate::screencapture::Pixels;
use crate::services::{Input, InputType};
use crate::telemetry::{event_of_code, telemetry_packet, EventGame};

verus! {

/// One item on its way from a capture source to the synchronization engine.
#[derive(Debug, Clone)]
pub enum CaptureItem {
    Telemetry(telemetry_packet),
    Image(Pixels),
    User(UserEvent),
}

/// A user-input event: keyboard or controller, described by its header fields.
#[derive(Debug, Clone, Copy, PartialEq, Eq, Structural)]
pub struct UserEvent {
    pub id: u64,
    pub code: u32,
    pub time: u64,
    pub length: u32,
}

/// The event an item carries: a packet's classified code, none for a frame.
pub open spec fn item_event(item: CaptureItem) -> EventGame {
    match item {
        CaptureItem::Telemetry(p) => event_of_code(p.type_),
        CaptureItem::Image(_) => EventGame::NA,
        CaptureItem::User(_) => EventGame::NA,
    }
}

impl CaptureItem {
    pub fn input_type(&self) -> (r: InputType)
        ensures
            r == (match *self {
                CaptureItem::Telemetry(_) => InputType::Telemetry,
                CaptureItem::Image(_) => InputType::Image,
                CaptureItem::User(_) => InputType::User,
            }),
    {
        match self {
            CaptureItem::Telemetry(_) => InputType::Telemetry,
            CaptureItem::Image(_) => InputType::Image,
            CaptureItem::User(_) => InputType::User,
        }
    }

    pub fn event_type(&self) -> (r: EventGame)
        ensures
            r == item_event(*self),
    {
        match self {
            CaptureItem::Telemetry(p) => p.event_type(),
            CaptureItem::Image(f) => f.event_type(),
            CaptureItem::User(_) => EventGame::NA,
        }
    }

    pub fn header(&self) -> (r: (u64, u32, u64, u32))
        ensures
            r == (match *self {
                CaptureItem::Telemetry(p) => (p.id, p.type_, p.time, p.length),
                CaptureItem::Image(f) => (0u64, f.width, 0u64, f.height),
                CaptureItem::User(u) => (u.id, u.code, u.time, u.length),
            }),
    {
        match self {
            CaptureItem::Telemetry(p) => p.header(),
            CaptureItem::Image(f) => f.header(),
            CaptureItem::User(u) => (u.id, u.code, u.time, u.length),
        }
    }
}

impl Input for CaptureItem {
    fn input_type(&self) -> InputType {
        CaptureItem::input_type(self)
    }

    fn event_type(&self) -> EventGame {
        CaptureItem::event_type(self)
    }

    fn header(&self) -> (u64, u32, u64, u32) {
        CaptureItem::header(self)
    }
}

/// The engine's state: whether the simulation is driving, and the items of
/// the frame gathered so far.
pub struct SyncModel {
    pub driving: bool,
    pub buffer: Seq<CaptureItem>,
}

/// An item that may stand inside a frame batch: anything but an event that
/// changes the engine's state, an invalid event, or a frame end.
pub open spec fn batch_body_item(item: CaptureItem) -> bool {
    let e = item_event(item);
    e != EventGame::StartedEvent && e != EventGame::PausedEvent && e != EventGame::NotValidEvent
        && e != EventGame::FrameEndEvent
}

/// The shape of every emitted batch: a frame start first, a frame end last,
/// and in between only items that belong to a frame.
pub open spec fn batch_shape(b: Seq<CaptureItem>) -> bool {
    &&& b.len() >= 2
    &&& item_event(b[0]) == EventGame::FrameStartEvent
    &&& item_event(b.last()) == EventGame::FrameEndEvent
    &&& forall|i: int| 0 <= i < b.len() - 1 ==> batch_body_item(#[trigger] b[i])
}

/// The buffer accumulates only while driving, and only from a frame start on.
pub open spec fn sync_wf(m: SyncModel) -> bool {
    &&& !m.driving ==> m.buffer.len() == 0
    &&& m.buffer.len() > 0 ==> item_event(m.buffer[0]) == EventGame::FrameStartEvent
    &&& forall|i: int| 0 <= i < m.buffer.len() ==> batch_body_item(#[trigger] m.buffer[i])
}

/// One transition of the engine on an arriving item: the next state, and the
/// batch it emits, if any. While driving, a frame start opens the frame;
/// other items join it only once it is open, and a frame end closes it.
pub open spec fn sync_step(m: SyncModel, item: CaptureItem) -> (SyncModel, Option<Seq<CaptureItem>>) {
    match item_event(item) {
        EventGame::StartedEvent => (SyncModel { driving: true, buffer: Seq::empty() }, None),
        EventGame::PausedEvent => (SyncModel { driving: false, buffer: Seq::empty() }, None),
        EventGame::NotValidEvent => (m, None),
        EventGame::FrameStartEvent => if m.driving {
            (SyncModel { driving: true, buffer: m.buffer.push(item) }, None)
        } else {
            (m, None)
        },
        EventGame::FrameEndEvent => if m.driving && m.buffer.len() > 0 {
            (SyncModel { driving: true, buffer: Seq::empty() }, Some(m.buffer.push(item)))
        } else {
            (m, None)
        },
        _ => if m.driving && m.buffer.len() > 0 {
            (SyncModel { driving: true, buffer: m.buffer.push(item) }, None)
        } else {
            (m, None)
        },
    }
}

/// The state after a run of items in arrival order, and the batches emitted, in order.
pub open spec fn sync_run(m: SyncModel, items: Seq<CaptureItem>) -> (SyncModel, Seq<Seq<CaptureItem>>)
    decreases items.len(),
{
    if items.len() == 0 {
        (m, Seq::empty())
    } else {
        let (m1, batches) = sync_run(m, items.drop_last());
        let (m2, out) = sync_step(m1, items.last());
        match out {
            Some(b) => (m2, batches.push(b)),
            None => (m2, batches),
        }
    }
}

/// Draining hands out the whole buffer and leaves it empty.
pub open spec fn sync_drain(m: SyncModel) -> (SyncModel, Seq<CaptureItem>) {
    (SyncModel { driving: m.driving, buffer: Seq::empty() }, m.buffer)
}

/// Gates and groups items into frame batches: a batch is gathered only while
/// the simulation is driving and is emitted when the frame ends.
pub struct Synchronization {
    driving: bool,
    buffer: Vec<CaptureItem>,
}

impl Synchronization {
    pub closed spec fn view(&self) -> SyncModel {
        SyncModel { driving: self.driving, buffer: self.buffer@ }
    }

    /// A new engine: not driving, with an empty buffer.
    pub fn new() -> (r: Synchronization)
        ensures
            r@ == (SyncModel { driving: false, buffer: Seq::empty() }),
    {
        Synchronization { driving: false, buffer: Vec::new() }
    }

    pub fn is_driving(&self) -> (r: bool)
        ensures
            r == self@.driving,
    {
        self.driving
    }

    pub fn buffered(&self) -> (r: usize)
        ensures
            r == self@.buffer.len(),
    {
        self.buffer.len()
    }

    /// Takes one arriving item and returns the batch that it completes, if any.
    pub fn process(&mut self, item: CaptureItem) -> (r: Option<Vec<CaptureItem>>)
        requires
            sync_wf(old(self)@),
        ensures
            sync_wf(final(self)@),
            final(self)@ == sync_step(old(self)@, item).0,
            match r {
                Some(b) => sync_step(old(self)@, item).1 == Some(b@),
                None => sync_step(old(self)@, item).1 is None,
            },
    {
        let event = item.event_type();
        proof {
            lemma_step_keeps_wf(old(self)@, item);
        }
        match event {
            EventGame::StartedEvent => {
                self.driving = true;
                self.buffer = Vec::new();
                None
            },
            EventGame::PausedEvent => {
                self.driving = false;
                self.buffer = Vec::new();
                None
            },
            EventGame::NotValidEvent => None,
            EventGame::FrameStartEvent => {
                if self.driving {
                    self.buffer.push(item);
                }
                None
            },
            EventGame::FrameEndEvent => {
                if self.driving && self.buffer.len() > 0 {
                    self.buffer.push(item);
                    Some(self.drain())
                } else {
                    None
                }
            },
            _ => {
                if self.driving && self.buffer.len() > 0 {
                    self.buffer.push(item);
                }
                None
            },
        }
    }

    /// Hands out the buffered items and empties the buffer.
    pub fn drain(&mut self) -> (r: Vec<CaptureItem>)
        ensures
            final(self)@ == sync_drain(old(self)@).0,
            r@ == sync_drain(old(self)@).1,
    {
        let mut batch: Vec<CaptureItem> = Vec::new();
        core::mem::swap(&mut batch, &mut self.buffer);
        batch
    }

    /// Takes the items drained from the input channel, in arrival order, and
    /// returns the batches they complete, in order.
    pub fn process_all(&mut self, items: Vec<CaptureItem>) -> (r: Vec<Vec<CaptureItem>>)
        requires
            sync_wf(old(self)@),
        ensures
            sync_wf(final(self)@),
            final(self)@ == sync_run(old(self)@, items@).0,
            r@.map_values(|b: Vec<CaptureItem>| b@) == sync_run(old(self)@, items@).1,
    {
        let mut batches: Vec<Vec<CaptureItem>> = Vec::new();
        let mut items = items;
        let ghost all = items@;
        let mut rest: Vec<CaptureItem> = Vec::new();
        // Items are taken from the back; put them in reverse so the first comes first.
        while items.len() > 0
            invariant
                rest@.len() + items@.len() == all.len(),
                forall|j: int| 0 <= j < items@.len() ==> items@[j] == all[j],
                forall|j: int|
                    0 <= j < rest@.len() ==> rest@[j] == all[all.len() - 1 - j],
            decreases items@.len(),
        {
            let it = items.pop().unwrap();
            rest.push(it);
        }
        let ghost n = all.len();
        assert(all.subrange(0, 0) =~= Seq::<CaptureItem>::empty());
        assert(batches@.map_values(|b: Vec<CaptureItem>| b@) =~= Seq::<Seq<CaptureItem>>::empty());
        while rest.len() > 0
            invariant
                rest@.len() <= n,
                n == all.len(),
                forall|j: int|
                    0 <= j < rest@.len() ==> rest@[j] == all[n - 1 - j],
                sync_wf(self@),
                self@ == sync_run(old(self)@, all.subrange(0, n - rest@.len())).0,
                batches@.map_values(|b: Vec<CaptureItem>| b@) == sync_run(
                    old(self)@,
                    all.subrange(0, n - rest@.len()),
                ).1,
            decreases rest@.len(),
        {
            let ghost done = n - rest@.len();
            let it = rest.pop().unwrap();
            assert(it == all[done]);
            let ghost prefix = all.subrange(0, done + 1);
            assert(prefix.drop_last() =~= all.subrange(0, done));
            assert(prefix.last() == it);
            let out = self.process(it);
            match out {
                Some(b) => {
                    let ghost before = batches@;
                    batches.push(b);
                    assert(batches@.map_values(|b: Vec<CaptureItem>| b@) =~= before.map_values(
                        |b: Vec<CaptureItem>| b@,
                    ).push(b@));
                },
                None => {},
            }
        }
        assert(all.subrange(0, n as int) =~= all);
        batches
    }
}

/// Each step keeps the engine's invariant.
pub proof fn lemma_step_keeps_wf(m: SyncModel, item: CaptureItem)
    requires
        sync_wf(m),
    ensures
        sync_wf(sync_step(m, item).0),
{
    let m2 = sync_step(m, item).0;
    if m2.buffer.len() > 0 && m2.buffer != m.buffer {
        assert(m2.buffer == m.buffer.push(item));
        assert forall|i: int| 0 <= i < m2.buffer.len() implies batch_body_item(
            #[trigger] m2.buffer[i],
        ) by {
            if i < m.buffer.len() {
                assert(m2.buffer[i] == m.buffer[i]);
            }
        }
        if m.buffer.len() > 0 {
            assert(m2.buffer[0] == m.buffer[0]);
        }
    }
}

/// Every emitted batch leaves the buffer empty; only a frame end emits one,
/// only while driving; the batch is the buffer followed by that frame end,
/// and it begins with a frame start.
pub proof fn lemma_batch_empties_buffer(m: SyncModel, item: CaptureItem)
    requires
        sync_wf(m),
    ensures
        sync_wf(sync_step(m, item).0),
        sync_step(m, item).1 is Some ==> {
            &&& sync_step(m, item).0.buffer.len() == 0
            &&& m.driving
            &&& item_event(item) == EventGame::FrameEndEvent
            &&& sync_step(m, item).1 == Some(m.buffer.push(item))
            &&& batch_shape(m.buffer.push(item))
        },
{
    lemma_step_keeps_wf(m, item);
    if sync_step(m, item).1 is Some {
        let b = m.buffer.push(item);
        assert(b[0] == m.buffer[0]);
        assert forall|i: int| 0 <= i < b.len() - 1 implies batch_body_item(#[trigger] b[i]) by {
            assert(b[i] == m.buffer[i]);
        }
    }
}

/// Over any run of items, every emitted batch begins with a frame start, ends
/// with a frame end, and holds no state-changing, invalid or other frame-end
/// item in between.
pub proof fn lemma_run_batches_shaped(m: SyncModel, items: Seq<CaptureItem>)
    requires
        sync_wf(m),
    ensures
        sync_wf(sync_run(m, items).0),
        forall|k: int|
            0 <= k < sync_run(m, items).1.len() ==> batch_shape(#[trigger] sync_run(m, items).1[k]),
    decreases items.len(),
{
    if items.len() > 0 {
        lemma_run_batches_shaped(m, items.drop_last());
        let (m1, batches) = sync_run(m, items.drop_last());
        lemma_batch_empties_buffer(m1, items.last());
    }
}

/// Starting from an empty buffer, every item of every emitted batch, and of
/// the buffer left at the end, is one of the run's items: nothing is invented.
pub proof fn lemma_run_items_from_input(m: SyncModel, items: Seq<CaptureItem>)
    requires
        m.buffer.len() == 0,
    ensures
        forall|i: int|
            0 <= i < sync_run(m, items).0.buffer.len() ==> items.contains(
                #[trigger] sync_run(m, items).0.buffer[i],
            ),
        forall|k: int, i: int|
            0 <= k < sync_run(m, items).1.len() && 0 <= i < sync_run(m, items).1[k].len()
                ==> items.contains(#[trigger] sync_run(m, items).1[k][i]),
    decreases items.len(),
{
    if items.len() > 0 {
        let pre = items.drop_last();
        lemma_run_items_from_input(m, pre);
        let (m1, batches) = sync_run(m, pre);
        let it = items.last();
        assert(items.contains(it)) by {
            assert(items[items.len() - 1] == it);
        }
        assert forall|x: CaptureItem| pre.contains(x) implies items.contains(x) by {
            let j = choose|j: int| 0 <= j < pre.len() && pre[j] == x;
            assert(items[j] == x);
        }
        let (m2, out) = sync_step(m1, it);
        assert forall|i: int| 0 <= i < m2.buffer.len() implies items.contains(
            #[trigger] m2.buffer[i],
        ) by {
            if m2.buffer.len() > 0 && m2.buffer != m1.buffer {
                assert(m2.buffer == m1.buffer.push(it));
                if i < m1.buffer.len() {
                    assert(m2.buffer[i] == m1.buffer[i]);
                    assert(pre.contains(m1.buffer[i]));
                }
            } else if m2.buffer.len() > 0 {
                assert(pre.contains(m1.buffer[i]));
            }
        }
        let all = sync_run(m, items).1;
        assert forall|k: int, i: int| 0 <= k < all.len() && 0 <= i < all[k].len() implies items.contains(
            #[trigger] all[k][i],
        ) by {
            if k < batches.len() {
                assert(all[k] == batches[k]);
                assert(pre.contains(batches[k][i]));
            } else {
                assert(out is Some);
                let b = m1.buffer.push(it);
                assert(all[k] == b);
                if i < m1.buffer.len() {
                    assert(b[i] == m1.buffer[i]);
                    assert(pre.contains(m1.buffer[i]));
                }
            }
        }
    }
}

/// A run in which the engine never drives emits nothing: no batch comes out
/// between a pause and the next start.
pub proof fn lemma_run_not_driving_emits_nothing(m: SyncModel, items: Seq<CaptureItem>)
    requires
        sync_wf(m),
        !m.driving,
        forall|i: int| 0 <= i < items.len() ==> item_event(#[trigger] items[i]) != EventGame::StartedEvent,
    ensures
        sync_run(m, items).1.len() == 0,
        !sync_run(m, items).0.driving,
    decreases items.len(),
{
    if items.len() > 0 {
        lemma_run_not_driving_emits_nothing(m, items.drop_last());
        assert(item_event(items[items.len() - 1]) != EventGame::StartedEvent);
    }
}

/// Draining twice in a row hands out the buffer once, then nothing, and leaves
/// the state as the first drain did.
pub proof fn lemma_drain_idempotent(m: SyncModel)
    ensures
        sync_drain(m).1 == m.buffer,
        sync_drain(sync_drain(m).0).1.len() == 0,
        sync_drain(sync_drain(m).0).0 == sync_drain(m).0,
{
}

/// No batch is emitted while not driving.
pub proof fn lemma_no_batch_when_not_driving(m: SyncModel, item: CaptureItem)
    requires
        !m.driving,
    ensures
        sync_step(m, item).1 is None,
{
}

} // verus!
