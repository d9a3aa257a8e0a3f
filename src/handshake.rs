use vstd::prelude::*;

verus! {

/// Who holds the named mutex.
#[derive(Debug, Clone, Copy, PartialEq, Eq, Structural)]
pub enum Holder {
    Nobody,
    Producer,
    Consumer,
}

/// Where one party stands in its handshake cycle.
#[derive(Debug, Clone, Copy, PartialEq, Eq, Structural)]
pub enum Phase {
    /// Blocked in the combined wait on the mutex and the other party's signal.
    Waiting,
    /// Holds the mutex; the other party's signal is still set.
    Holding,
    /// Has reset the other party's signal.
    SignalReset,
    /// Has written (producer) or read (consumer) the shared record.
    Transferred,
    /// Has set its own signal; releases the mutex next.
    Signaled,
}

/// The named objects of the shared telemetry channel, and both parties'
/// progress through their cycles. `writes` and `reads` count the records
/// written and read so far.
#[derive(Debug, Clone, Copy, PartialEq, Eq, Structural)]
pub struct Handshake {
    pub mutex: Holder,
    /// "Producer has written".
    pub write_signaled: bool,
    /// "Consumer has read".
    pub read_signaled: bool,
    pub producer: Phase,
    pub consumer: Phase,
    pub writes: u64,
    pub reads: u64,
}

/// A record is written and not yet read.
pub open spec fn pending(h: Handshake) -> bool {
    h.writes == h.reads + 1
}

/// The record has been read and nothing new is written.
pub open spec fn consumed(h: Handshake) -> bool {
    h.writes == h.reads
}

/// The protocol's invariant: the mutex is held by exactly the party that is
/// past its wait, and the signals and counters agree with that party's phase.
pub open spec fn handshake_wf(h: Handshake) -> bool {
    &&& (h.producer != Phase::Waiting <==> h.mutex == Holder::Producer)
    &&& (h.consumer != Phase::Waiting <==> h.mutex == Holder::Consumer)
    &&& (h.producer == Phase::Holding || h.producer == Phase::SignalReset ==> h.writes < u64::MAX)
    &&& match h.mutex {
        Holder::Nobody => (h.write_signaled && !h.read_signaled && pending(h)) || (
        h.read_signaled && !h.write_signaled && consumed(h)),
        Holder::Consumer => match h.consumer {
            Phase::Holding => h.write_signaled && !h.read_signaled && pending(h),
            Phase::SignalReset => !h.write_signaled && !h.read_signaled && pending(h),
            Phase::Transferred => !h.write_signaled && !h.read_signaled && consumed(h),
            Phase::Signaled => h.read_signaled && !h.write_signaled && consumed(h),
            Phase::Waiting => false,
        },
        Holder::Producer => match h.producer {
            Phase::Holding => h.read_signaled && !h.write_signaled && consumed(h),
            Phase::SignalReset => !h.read_signaled && !h.write_signaled && consumed(h),
            Phase::Transferred => !h.read_signaled && !h.write_signaled && pending(h),
            Phase::Signaled => h.write_signaled && !h.read_signaled && pending(h),
            Phase::Waiting => false,
        },
    }
}

/// The consumer's next state: one step of its cycle, or no change while its
/// combined wait cannot be satisfied.
pub open spec fn consumer_next(h: Handshake) -> Handshake {
    match h.consumer {
        Phase::Waiting => if h.mutex == Holder::Nobody && h.write_signaled {
            Handshake { mutex: Holder::Consumer, consumer: Phase::Holding, ..h }
        } else {
            h
        },
        Phase::Holding => Handshake { write_signaled: false, consumer: Phase::SignalReset, ..h },
        Phase::SignalReset => Handshake {
            reads: (h.reads + 1) as u64,
            consumer: Phase::Transferred,
            ..h
        },
        Phase::Transferred => Handshake { read_signaled: true, consumer: Phase::Signaled, ..h },
        Phase::Signaled => Handshake { mutex: Holder::Nobody, consumer: Phase::Waiting, ..h },
    }
}

/// The producer's next state, as `consumer_next` with the roles exchanged.
pub open spec fn producer_next(h: Handshake) -> Handshake {
    match h.producer {
        Phase::Waiting => if h.mutex == Holder::Nobody && h.read_signaled && h.writes < u64::MAX {
            Handshake { mutex: Holder::Producer, producer: Phase::Holding, ..h }
        } else {
            h
        },
        Phase::Holding => Handshake { read_signaled: false, producer: Phase::SignalReset, ..h },
        Phase::SignalReset => Handshake {
            writes: (h.writes + 1) as u64,
            producer: Phase::Transferred,
            ..h
        },
        Phase::Transferred => Handshake { write_signaled: true, producer: Phase::Signaled, ..h },
        Phase::Signaled => Handshake { mutex: Holder::Nobody, producer: Phase::Waiting, ..h },
    }
}

impl Handshake {
    /// The channel as the producer sets it up: nothing written, and the
    /// producer free to write first.
    pub fn new() -> (r: Handshake)
        ensures
            handshake_wf(r),
            r.writes == 0 && r.reads == 0,
            r.read_signaled && !r.write_signaled,
    {
        Handshake {
            mutex: Holder::Nobody,
            write_signaled: false,
            read_signaled: true,
            producer: Phase::Waiting,
            consumer: Phase::Waiting,
            writes: 0,
            reads: 0,
        }
    }

    /// Advances the consumer by one step of its cycle: wait for the mutex and
    /// "producer has written" together, reset that signal, read the record,
    /// set "consumer has read", release the mutex. Returns whether it moved;
    /// it stays put only while its combined wait cannot be satisfied.
    pub fn consumer_step(&mut self) -> (moved: bool)
        requires
            handshake_wf(*old(self)),
        ensures
            handshake_wf(*final(self)),
            *final(self) == consumer_next(*old(self)),
            final(self).producer == old(self).producer,
            final(self).writes == old(self).writes,
            moved <==> (old(self).consumer != Phase::Waiting || (old(self).mutex == Holder::Nobody
                && old(self).write_signaled)),
            !moved ==> *final(self) == *old(self),
            final(self).reads != old(self).reads ==> {
                &&& old(self).consumer == Phase::SignalReset
                &&& pending(*old(self))
                &&& final(self).reads == old(self).reads + 1
            },
    {
        match self.consumer {
            Phase::Waiting => {
                if self.mutex == Holder::Nobody && self.write_signaled {
                    self.mutex = Holder::Consumer;
                    self.consumer = Phase::Holding;
                    true
                } else {
                    false
                }
            },
            Phase::Holding => {
                self.write_signaled = false;
                self.consumer = Phase::SignalReset;
                true
            },
            Phase::SignalReset => {
                self.reads = self.reads + 1;
                self.consumer = Phase::Transferred;
                true
            },
            Phase::Transferred => {
                self.read_signaled = true;
                self.consumer = Phase::Signaled;
                true
            },
            Phase::Signaled => {
                self.mutex = Holder::Nobody;
                self.consumer = Phase::Waiting;
                true
            },
        }
    }

    /// Advances the producer by one step of its cycle: wait for the mutex and
    /// "consumer has read" together, reset that signal, write a record, set
    /// "producer has written", release the mutex. Returns whether it moved.
    /// It does not begin a cycle that would overflow the write count.
    pub fn producer_step(&mut self) -> (moved: bool)
        requires
            handshake_wf(*old(self)),
        ensures
            handshake_wf(*final(self)),
            *final(self) == producer_next(*old(self)),
            final(self).consumer == old(self).consumer,
            final(self).reads == old(self).reads,
            moved <==> (old(self).producer != Phase::Waiting || (old(self).mutex == Holder::Nobody
                && old(self).read_signaled && old(self).writes < u64::MAX)),
            !moved ==> *final(self) == *old(self),
            final(self).writes != old(self).writes ==> {
                &&& old(self).producer == Phase::SignalReset
                &&& consumed(*old(self))
                &&& final(self).writes == old(self).writes + 1
            },
    {
        match self.producer {
            Phase::Waiting => {
                if self.mutex == Holder::Nobody && self.read_signaled && self.writes < u64::MAX {
                    self.mutex = Holder::Producer;
                    self.producer = Phase::Holding;
                    true
                } else {
                    false
                }
            },
            Phase::Holding => {
                self.read_signaled = false;
                self.producer = Phase::SignalReset;
                true
            },
            Phase::SignalReset => {
                self.writes = self.writes + 1;
                self.producer = Phase::Transferred;
                true
            },
            Phase::Transferred => {
                self.write_signaled = true;
                self.producer = Phase::Signaled;
                true
            },
            Phase::Signaled => {
                self.mutex = Holder::Nobody;
                self.producer = Phase::Waiting;
                true
            },
        }
    }
}

/// Under the protocol, writes and reads alternate: the consumer reads only a
/// record that was written and not yet read, the producer writes only after the
/// last record was read, and the two counts never drift apart by more than one.
pub proof fn lemma_alternation(h: Handshake)
    requires
        handshake_wf(h),
    ensures
        h.reads <= h.writes <= h.reads + 1,
        h.consumer == Phase::SignalReset ==> pending(h),
        h.producer == Phase::SignalReset ==> consumed(h),
        h.consumer != Phase::Waiting ==> h.producer == Phase::Waiting,
        h.producer != Phase::Waiting ==> h.consumer == Phase::Waiting,
{
}

/// Each party's step keeps the protocol's invariant.
pub proof fn lemma_steps_keep_invariant(h: Handshake)
    requires
        handshake_wf(h),
    ensures
        handshake_wf(consumer_next(h)),
        handshake_wf(producer_next(h)),
{
}

/// The result of the combined wait that means both objects were obtained.
pub const WAIT_OBJECT_0: u32 = 0;

/// Whether the combined wait obtained both the mutex and "producer has
/// written"; any other result ends the loop.
pub fn wait_succeeded(code: u32) -> (r: bool)
    ensures
        r == (code == WAIT_OBJECT_0),
{
    code == WAIT_OBJECT_0
}

/// Whether the telemetry loop waits for another record: not once a stop was
/// requested, nor once the producer has marked its last record as not alive.
pub fn telemetry_continues(stop_requested: bool, producer_alive: bool) -> (r: bool)
    ensures
        r == (!stop_requested && producer_alive),
{
    !stop_requested && producer_alive
}

/// The next operation of the telemetry reader's loop.
#[derive(Debug, Clone, Copy, PartialEq, Eq, Structural)]
pub enum ConsumerAction {
    /// Block until the mutex is held and "producer has written" is set.
    Wait,
    /// Reset "producer has written".
    ResetWrite,
    /// Decode the shared record and forward it.
    Decode,
    /// Set "consumer has read".
    SignalRead,
    /// Release the mutex.
    ReleaseMutex,
    /// Leave the loop and release the channel's objects.
    Exit,
}

/// The telemetry reader's loop: its phase in the handshake cycle, whether
/// the producer's last record was alive, and whether a wait failed.
#[derive(Debug, Clone, Copy, PartialEq, Eq, Structural)]
pub struct ConsumerLoop {
    pub phase: Phase,
    pub producer_alive: bool,
    pub failed: bool,
}

/// The operation that follows in the loop. The loop ends only between cycles,
/// never while it holds the mutex.
pub open spec fn consumer_action(l: ConsumerLoop, stop_requested: bool) -> ConsumerAction {
    match l.phase {
        Phase::Waiting => if l.failed || !l.producer_alive || stop_requested {
            ConsumerAction::Exit
        } else {
            ConsumerAction::Wait
        },
        Phase::Holding => ConsumerAction::ResetWrite,
        Phase::SignalReset => ConsumerAction::Decode,
        Phase::Transferred => ConsumerAction::SignalRead,
        Phase::Signaled => ConsumerAction::ReleaseMutex,
    }
}

impl ConsumerLoop {
    pub fn new() -> (r: ConsumerLoop)
        ensures
            r == (ConsumerLoop { phase: Phase::Waiting, producer_alive: true, failed: false }),
    {
        ConsumerLoop { phase: Phase::Waiting, producer_alive: true, failed: false }
    }

    pub fn next_action(&self, stop_requested: bool) -> (r: ConsumerAction)
        ensures
            r == consumer_action(*self, stop_requested),
    {
        match self.phase {
            Phase::Waiting => {
                if self.failed || !telemetry_continues(stop_requested, self.producer_alive) {
                    ConsumerAction::Exit
                } else {
                    ConsumerAction::Wait
                }
            },
            Phase::Holding => ConsumerAction::ResetWrite,
            Phase::SignalReset => ConsumerAction::Decode,
            Phase::Transferred => ConsumerAction::SignalRead,
            Phase::Signaled => ConsumerAction::ReleaseMutex,
        }
    }

    /// The combined wait returned `code`: on success the mutex is held; any
    /// other result is fatal and the loop exits next.
    pub fn waited(&mut self, code: u32)
        requires
            old(self).phase == Phase::Waiting,
        ensures
            code == WAIT_OBJECT_0 ==> *final(self) == (ConsumerLoop {
                phase: Phase::Holding,
                ..*old(self)
            }),
            code != WAIT_OBJECT_0 ==> *final(self) == (ConsumerLoop { failed: true, ..*old(self) }),
    {
        if wait_succeeded(code) {
            self.phase = Phase::Holding;
        } else {
            self.failed = true;
        }
    }

    /// "Producer has written" was reset.
    pub fn write_reset(&mut self)
        requires
            old(self).phase == Phase::Holding,
        ensures
            *final(self) == (ConsumerLoop { phase: Phase::SignalReset, ..*old(self) }),
    {
        self.phase = Phase::SignalReset;
    }

    /// The record was decoded and forwarded, with this alive flag.
    pub fn decoded(&mut self, producer_alive: bool)
        requires
            old(self).phase == Phase::SignalReset,
        ensures
            *final(self) == (ConsumerLoop {
                phase: Phase::Transferred,
                producer_alive,
                ..*old(self)
            }),
    {
        self.phase = Phase::Transferred;
        self.producer_alive = producer_alive;
    }

    /// "Consumer has read" was set.
    pub fn read_signaled(&mut self)
        requires
            old(self).phase == Phase::Transferred,
        ensures
            *final(self) == (ConsumerLoop { phase: Phase::Signaled, ..*old(self) }),
    {
        self.phase = Phase::Signaled;
    }

    /// The mutex was released; the cycle is complete.
    pub fn mutex_released(&mut self)
        requires
            old(self).phase == Phase::Signaled,
        ensures
            *final(self) == (ConsumerLoop { phase: Phase::Waiting, ..*old(self) }),
    {
        self.phase = Phase::Waiting;
    }
}

/// The reader never leaves its loop while it holds the mutex, and once the
/// producer's record says it is no longer alive, the next cycle does not begin.
pub proof fn lemma_exit_only_between_cycles(l: ConsumerLoop, stop_requested: bool)
    ensures
        consumer_action(l, stop_requested) == ConsumerAction::Exit ==> l.phase == Phase::Waiting,
        l.phase == Phase::Waiting && !l.producer_alive ==> consumer_action(l, stop_requested)
            == ConsumerAction::Exit,
        l.phase == Phase::Waiting && stop_requested ==> consumer_action(l, stop_requested)
            == ConsumerAction::Exit,
{
}

/// The loop's phase once the given action has completed successfully.
pub open spec fn phase_after(l: ConsumerLoop, a: ConsumerAction) -> Phase {
    match a {
        ConsumerAction::Wait => Phase::Holding,
        ConsumerAction::ResetWrite => Phase::SignalReset,
        ConsumerAction::Decode => Phase::Transferred,
        ConsumerAction::SignalRead => Phase::Signaled,
        ConsumerAction::ReleaseMutex => Phase::Waiting,
        ConsumerAction::Exit => l.phase,
    }
}

/// The reader's loop performs the consumer's side of the protocol: in a state
/// of the channel where the consumer stands at the loop's phase, the loop's
/// next action moves it to the phase that the protocol's next consumer step
/// reaches, and it decodes only while a record is written and unread.
pub proof fn lemma_loop_follows_protocol(l: ConsumerLoop, h: Handshake, stop_requested: bool)
    requires
        handshake_wf(h),
        h.consumer == l.phase,
        consumer_action(l, stop_requested) != ConsumerAction::Exit,
        consumer_action(l, stop_requested) == ConsumerAction::Wait ==> h.mutex == Holder::Nobody
            && h.write_signaled,
    ensures
        phase_after(l, consumer_action(l, stop_requested)) == consumer_next(h).consumer,
        consumer_action(l, stop_requested) == ConsumerAction::Decode ==> pending(h),
        consumer_action(l, stop_requested) == ConsumerAction::ResetWrite ==> !consumer_next(
            h,
        ).write_signaled,
        consumer_action(l, stop_requested) == ConsumerAction::SignalRead ==> consumer_next(
            h,
        ).read_signaled,
        consumer_action(l, stop_requested) == ConsumerAction::ReleaseMutex ==> consumer_next(h).mutex
            == Holder::Nobody,
{
}

} // verus!
