use vstd::prelude::*;

verus! {

/// Capacity of the hand-off channel between decoding and rendering.
pub const FRAME_CHANNEL_CAPACITY: usize = 64;

/// Largest number of frames taken from the decoder per feed.
pub const FRAME_BATCH_LIMIT: usize = 10;

/// Where the playback of one file stands.
#[derive(PartialEq, Eq, Structural, Clone, Copy, Debug)]
pub enum Phase {
    Idle,
    Streaming,
    Draining,
    Done,
    Errored,
}

/// What the runner observed after carrying out the last action.
#[derive(PartialEq, Eq, Structural, Clone, Copy, Debug)]
pub enum Event {
    /// The media file was opened and a video stream was found.
    SourceOpened,
    /// The next packet belongs to the video stream and was fed to the decoder.
    VideoPacket,
    /// The next packet belongs to another stream.
    OtherPacket,
    /// The container has no packets left.
    InputEnded,
    /// The decoder gave one more frame, now scaled and held in the batch.
    FrameDecoded,
    /// The decoder has no frame to give for now.
    DecoderEmpty,
    /// The oldest frame of the batch was put on the channel.
    FrameSent,
    /// The render stage finished one frame taken from the channel.
    FrameRendered,
    /// The sending end of the channel was closed.
    ChannelClosed,
    /// Opening, decoding, scaling, sending or rendering failed.
    Failed,
}

/// What the runner must do next.
#[derive(PartialEq, Eq, Structural, Clone, Copy, Debug)]
pub enum Action {
    /// Read the next packet of the container.
    ReadPacket,
    /// Ask the decoder for the next frame.
    Decode,
    /// Signal end of stream to the decoder, then ask it for the next frame.
    FlushDecoder,
    /// Put the oldest frame of the batch on the channel.
    SendFrame,
    /// Wait until the render stage has finished one more frame.
    AwaitRender,
    /// Close the sending end of the channel.
    CloseChannel,
    /// Playback is complete.
    Finish,
    /// Playback failed: stop producing and let the render stage drain.
    Abort,
}

/// The decisions of the frame pipeline: when to decode, when to hand frames
/// over, when to wait for the render stage, and when to stop.
#[derive(Clone, Copy, Debug)]
pub struct Coordinator {
    pub phase: Phase,
    /// Frames the channel may hold at once.
    pub capacity: usize,
    /// Frames taken from the decoder per feed at most.
    pub batch_limit: usize,
    /// Frames decoded and not yet put on the channel.
    pub batched: usize,
    /// Frames put on the channel and not yet rendered.
    pub in_flight: usize,
    /// The decoder reported that it has no frame for the current feed.
    pub drained: bool,
    /// End of stream was signalled to the decoder.
    pub flushed: bool,
}

impl Coordinator {
    pub open spec fn wf(self) -> bool {
        &&& 0 < self.capacity
        &&& 0 < self.batch_limit
        &&& self.in_flight <= self.capacity
        &&& self.batched <= self.batch_limit
        &&& self.phase == Phase::Idle ==> self.in_flight == 0 && self.batched == 0
        &&& self.phase == Phase::Draining ==> self.batched == 0
        &&& self.phase == Phase::Done ==> self.batched == 0 && self.in_flight == 0
    }

    /// What follows once the batch is emptied, or the next step of emptying it.
    pub open spec fn hand_off(self) -> (Coordinator, Action) {
        if self.batched > 0 {
            if self.in_flight < self.capacity {
                (self, Action::SendFrame)
            } else {
                (self, Action::AwaitRender)
            }
        } else if !self.drained {
            (self, Action::Decode)
        } else if self.flushed {
            (Coordinator { phase: Phase::Draining, ..self }, Action::CloseChannel)
        } else {
            (self, Action::ReadPacket)
        }
    }

    /// The rest of the draining phase.
    pub open spec fn drain(self) -> (Coordinator, Action) {
        if self.in_flight == 0 {
            (Coordinator { phase: Phase::Done, ..self }, Action::Finish)
        } else {
            (self, Action::AwaitRender)
        }
    }

    pub open spec fn fail(self) -> (Coordinator, Action) {
        (Coordinator { phase: Phase::Errored, ..self }, Action::Abort)
    }

    /// The next state and action after `event`. An event that cannot follow
    /// the last action counts as a failure.
    pub open spec fn transition(self, event: Event) -> (Coordinator, Action) {
        match self.phase {
            Phase::Done => (self, Action::Finish),
            Phase::Errored => (self, Action::Abort),
            Phase::Idle => match event {
                Event::SourceOpened => (Coordinator { phase: Phase::Streaming, ..self }, Action::ReadPacket),
                _ => self.fail(),
            },
            Phase::Streaming => match event {
                Event::VideoPacket => if self.batched == 0 && !self.flushed {
                    (Coordinator { drained: false, ..self }, Action::Decode)
                } else {
                    self.fail()
                },
                Event::OtherPacket => if self.batched == 0 && !self.flushed {
                    (self, Action::ReadPacket)
                } else {
                    self.fail()
                },
                Event::InputEnded => if self.batched == 0 && !self.flushed {
                    (Coordinator { flushed: true, drained: false, ..self }, Action::FlushDecoder)
                } else {
                    self.fail()
                },
                Event::FrameDecoded => if self.batched < self.batch_limit && !self.drained {
                    let s = Coordinator { batched: (self.batched + 1) as usize, ..self };
                    if s.batched < s.batch_limit {
                        (s, Action::Decode)
                    } else {
                        s.hand_off()
                    }
                } else {
                    self.fail()
                },
                Event::DecoderEmpty => if !self.drained {
                    Coordinator { drained: true, ..self }.hand_off()
                } else {
                    self.fail()
                },
                Event::FrameSent => if self.batched > 0 && self.in_flight < self.capacity {
                    Coordinator {
                        batched: (self.batched - 1) as usize,
                        in_flight: (self.in_flight + 1) as usize,
                        ..self
                    }.hand_off()
                } else {
                    self.fail()
                },
                Event::FrameRendered => if self.in_flight > 0 {
                    Coordinator { in_flight: (self.in_flight - 1) as usize, ..self }.hand_off()
                } else {
                    self.fail()
                },
                _ => self.fail(),
            },
            Phase::Draining => match event {
                Event::ChannelClosed => self.drain(),
                Event::FrameRendered => if self.in_flight > 0 {
                    Coordinator { in_flight: (self.in_flight - 1) as usize, ..self }.drain()
                } else {
                    self.fail()
                },
                _ => self.fail(),
            },
        }
    }

    /// A coordinator for a channel of `capacity` frames and batches of at most
    /// `batch_limit` frames; none when either is zero.
    pub fn new(capacity: usize, batch_limit: usize) -> (r: Option<Coordinator>)
        ensures
            r is Some <==> capacity > 0 && batch_limit > 0,
            r matches Some(c) ==> c.wf() && c == (Coordinator {
                phase: Phase::Idle,
                capacity,
                batch_limit,
                batched: 0,
                in_flight: 0,
                drained: false,
                flushed: false,
            }),
    {
        if capacity == 0 || batch_limit == 0 {
            None
        } else {
            Some(Coordinator {
                phase: Phase::Idle,
                capacity,
                batch_limit,
                batched: 0,
                in_flight: 0,
                drained: false,
                flushed: false,
            })
        }
    }

    fn hand_off_exec(&mut self) -> (r: Action)
        ensures
            (*final(self), r) == old(self).hand_off(),
    {
        if self.batched > 0 {
            if self.in_flight < self.capacity {
                Action::SendFrame
            } else {
                Action::AwaitRender
            }
        } else if !self.drained {
            Action::Decode
        } else if self.flushed {
            self.phase = Phase::Draining;
            Action::CloseChannel
        } else {
            Action::ReadPacket
        }
    }

    fn drain_exec(&mut self) -> (r: Action)
        ensures
            (*final(self), r) == old(self).drain(),
    {
        if self.in_flight == 0 {
            self.phase = Phase::Done;
            Action::Finish
        } else {
            Action::AwaitRender
        }
    }

    fn fail_exec(&mut self) -> (r: Action)
        ensures
            (*final(self), r) == old(self).fail(),
    {
        self.phase = Phase::Errored;
        Action::Abort
    }

    /// Takes in what the runner observed and says what it must do next.
    pub fn step(&mut self, event: Event) -> (r: Action)
        requires
            old(self).wf(),
        ensures
            final(self).wf(),
            (*final(self), r) == old(self).transition(event),
    {
        proof {
            self.transition_keeps_wf(event);
        }
        match self.phase {
            Phase::Done => Action::Finish,
            Phase::Errored => Action::Abort,
            Phase::Idle => match event {
                Event::SourceOpened => {
                    self.phase = Phase::Streaming;
                    Action::ReadPacket
                },
                _ => self.fail_exec(),
            },
            Phase::Streaming => match event {
                Event::VideoPacket => if self.batched == 0 && !self.flushed {
                    self.drained = false;
                    Action::Decode
                } else {
                    self.fail_exec()
                },
                Event::OtherPacket => if self.batched == 0 && !self.flushed {
                    Action::ReadPacket
                } else {
                    self.fail_exec()
                },
                Event::InputEnded => if self.batched == 0 && !self.flushed {
                    self.flushed = true;
                    self.drained = false;
                    Action::FlushDecoder
                } else {
                    self.fail_exec()
                },
                Event::FrameDecoded => if self.batched < self.batch_limit && !self.drained {
                    self.batched = self.batched + 1;
                    if self.batched < self.batch_limit {
                        Action::Decode
                    } else {
                        self.hand_off_exec()
                    }
                } else {
                    self.fail_exec()
                },
                Event::DecoderEmpty => if !self.drained {
                    self.drained = true;
                    self.hand_off_exec()
                } else {
                    self.fail_exec()
                },
                Event::FrameSent => if self.batched > 0 && self.in_flight < self.capacity {
                    self.batched = self.batched - 1;
                    self.in_flight = self.in_flight + 1;
                    self.hand_off_exec()
                } else {
                    self.fail_exec()
                },
                Event::FrameRendered => if self.in_flight > 0 {
                    self.in_flight = self.in_flight - 1;
                    self.hand_off_exec()
                } else {
                    self.fail_exec()
                },
                _ => self.fail_exec(),
            },
            Phase::Draining => match event {
                Event::ChannelClosed => self.drain_exec(),
                Event::FrameRendered => if self.in_flight > 0 {
                    self.in_flight = self.in_flight - 1;
                    self.drain_exec()
                } else {
                    self.fail_exec()
                },
                _ => self.fail_exec(),
            },
        }
    }

    /// Every step keeps the coordinator well formed; in particular the channel
    /// never holds more than its capacity of frames.
    pub proof fn transition_keeps_wf(self, event: Event)
        requires
            self.wf(),
        ensures
            self.transition(event).0.wf(),
            self.transition(event).0.in_flight <= self.capacity,
            self.transition(event).0.capacity == self.capacity,
    {
    }
}

/// The state reached from `start` after the events, in order.
pub open spec fn run(start: Coordinator, events: Seq<Event>) -> Coordinator
    decreases events.len(),
{
    if events.len() == 0 {
        start
    } else {
        run(start, events.drop_last()).transition(events.last()).0
    }
}

/// However the events come, the channel never holds more than its capacity
/// of frames, and the coordinator stays well formed.
pub proof fn in_flight_bounded(start: Coordinator, events: Seq<Event>)
    requires
        start.wf(),
    ensures
        run(start, events).wf(),
        run(start, events).in_flight <= start.capacity,
        run(start, events).capacity == start.capacity,
    decreases events.len(),
{
    if events.len() > 0 {
        in_flight_bounded(start, events.drop_last());
        run(start, events.drop_last()).transition_keeps_wf(events.last());
    }
}

/// A failure in any phase before the end makes playback fail; from then on
/// no event leads anywhere else and no action but aborting is asked for, so
/// no further frame is decoded, sent or rendered.
pub proof fn failure_is_final(start: Coordinator, events: Seq<Event>)
    ensures
        start.phase != Phase::Done ==> start.transition(Event::Failed).0.phase == Phase::Errored,
        start.phase != Phase::Done ==> start.transition(Event::Failed).1 == Action::Abort,
        start.phase == Phase::Errored ==> run(start, events).phase == Phase::Errored,
        start.phase == Phase::Errored && events.len() > 0 ==> run(start, events.drop_last()).transition(
            events.last(),
        ).1 == Action::Abort,
    decreases events.len(),
{
    if events.len() > 0 {
        failure_is_final(start, events.drop_last());
    }
}

/// The state after the render stage reports `n` more finished frames.
pub open spec fn after_renders(state: Coordinator, n: nat) -> Coordinator
    decreases n,
{
    if n == 0 {
        state
    } else {
        after_renders(state.transition(Event::FrameRendered).0, (n - 1) as nat)
    }
}

/// Once production has ended and the channel is closed, playback is done as
/// soon as every frame still in the channel has been rendered.
pub proof fn draining_finishes(state: Coordinator)
    requires
        state.wf(),
        state.phase == Phase::Draining,
    ensures
        after_renders(state.transition(Event::ChannelClosed).0, state.in_flight as nat).phase == Phase::Done,
        after_renders(state.transition(Event::ChannelClosed).0, state.in_flight as nat).in_flight == 0,
{
    renders_drain(state.transition(Event::ChannelClosed).0, state.in_flight as nat);
}

proof fn renders_drain(state: Coordinator, n: nat)
    requires
        state.wf(),
        state.phase == Phase::Draining ==> state.in_flight == n && n > 0,
        state.phase == Phase::Done ==> n == 0,
        state.phase == Phase::Draining || state.phase == Phase::Done,
    ensures
        after_renders(state, n).phase == Phase::Done,
        after_renders(state, n).in_flight == 0,
    decreases n,
{
    if n > 0 {
        let next = state.transition(Event::FrameRendered).0;
        state.transition_keeps_wf(Event::FrameRendered);
        renders_drain(next, (n - 1) as nat);
    }
}

} // verus!
