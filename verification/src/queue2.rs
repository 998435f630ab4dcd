//! The queue itself: a controller/consumer pair linked by two message
//! channels.
//!
//! The controller is the producer-side handle: it appends sources and sends
//! control commands, never blocking and never failing visibly. The consumer
//! is the real-time side: on every sample request it first drains one
//! message from each channel, then produces the next sample of the current
//! source, advancing through the pending queue in strict FIFO order.
//!
//! The whole consumer state machine is specified against a mathematical
//! model, [`QueueModel`]: what one production request does to the state and
//! returns is given exactly by [`spec_produce`], command handling by
//! [`spec_apply_command`]. Only the arrival of messages is left open, since
//! it depends on what other threads sent.

use vstd::prelude::*;

use crate::source::{SampleSource, SourceModel};

verus! {

/// Fallback frame length, in samples: a frame is never reported longer than
/// this, so that the queue reconsiders switching sources often enough.
pub const FRAME_LEN_THRESHOLD: usize = 512;

/// Channel count of the keep-alive silence source.
pub const KEEP_ALIVE_CHANNELS: u16 = 1;

/// Sample rate of the keep-alive silence source.
pub const KEEP_ALIVE_SAMPLE_RATE: u32 = 44100;

/// Length of the keep-alive silence source, in samples: 10 ms of one
/// channel at 44100 Hz.
pub const KEEP_ALIVE_SILENCE_SAMPLES: usize = 441;

/// A control message sent from the controller to the consumer.
#[derive(Debug)]
pub enum MusicPlayerCommand {
    Play,
    Pause,
    Stop,
    NextTrack,
}

/// Mathematical model of the consumer: the pending sources in append order,
/// the source currently being drained, and the two flags.
#[verifier::ext_equal]
pub struct QueueModel {
    pub queue: Seq<SourceModel>,
    pub current: SourceModel,
    pub keep_alive: bool,
    pub paused: bool,
}

/// Model of the source installed when the pending queue runs empty under
/// keep-alive: a short run of silence.
pub open spec fn silence_model() -> SourceModel {
    SourceModel {
        channels: KEEP_ALIVE_CHANNELS,
        sample_rate: KEEP_ALIVE_SAMPLE_RATE,
        remaining: Seq::new(KEEP_ALIVE_SILENCE_SAMPLES as nat, |i: int| 0i16),
        frame_len: None,
    }
}

/// Model of a source that produces nothing: the consumer starts on one, and
/// ends on one when it terminates.
pub open spec fn empty_model() -> SourceModel {
    SourceModel {
        channels: 1u16,
        sample_rate: 48000u32,
        remaining: Seq::<i16>::empty(),
        frame_len: None,
    }
}

/// The consumer's state right after construction.
pub open spec fn initial_model(keep_alive_if_empty: bool) -> QueueModel {
    QueueModel {
        queue: Seq::empty(),
        current: empty_model(),
        keep_alive: keep_alive_if_empty,
        paused: false,
    }
}

/// Whether advancing to a next source can succeed: either a source is
/// pending, or keep-alive supplies silence.
pub open spec fn advance_ok(m: QueueModel) -> bool {
    m.queue.len() > 0 || m.keep_alive
}

/// Advancing: the front pending source becomes current; with nothing
/// pending, keep-alive installs the silence source.
pub open spec fn spec_advance(m: QueueModel) -> QueueModel {
    if m.queue.len() > 0 {
        QueueModel { queue: m.queue.drop_first(), current: m.queue[0], ..m }
    } else if m.keep_alive {
        QueueModel { current: silence_model(), ..m }
    } else {
        m
    }
}

/// A forced advance discards the current source's remainder in every case:
/// where no next source can be supplied, an exhausted source takes its
/// place, so that production terminates.
pub open spec fn spec_forced_advance(m: QueueModel) -> QueueModel {
    if advance_ok(m) {
        spec_advance(m)
    } else {
        QueueModel { current: empty_model(), ..m }
    }
}

/// What one command does to the consumer's state.
pub open spec fn spec_apply_command(m: QueueModel, command: MusicPlayerCommand) -> QueueModel {
    match command {
        MusicPlayerCommand::Play => QueueModel { paused: false, ..m },
        MusicPlayerCommand::Pause => QueueModel { paused: true, ..m },
        MusicPlayerCommand::NextTrack => spec_forced_advance(m),
        MusicPlayerCommand::Stop => spec_forced_advance(
            QueueModel { queue: Seq::empty(), ..m },
        ),
    }
}

/// Appending: the new source joins the tail of the pending queue.
pub open spec fn spec_enqueue(m: QueueModel, s: SourceModel) -> QueueModel {
    QueueModel { queue: m.queue.push(s), ..m }
}

/// Termination measure for production: advancing either shortens the
/// pending queue or installs the non-empty silence source.
pub open spec fn produce_measure(m: QueueModel) -> int {
    m.queue.len() * 2 + (if m.current.remaining.len() == 0 { 1int } else { 0int })
}

/// What one production request does, after the channels have been drained:
/// the new state and the produced sample. Paused, the consumer returns a
/// zero sample and consumes nothing; otherwise it returns the current
/// source's next sample, advancing past exhausted sources first; exhausted
/// with nothing pending and no keep-alive, it returns nothing.
pub open spec fn spec_produce(m: QueueModel) -> (QueueModel, Option<i16>)
    decreases produce_measure(m),
{
    if m.paused {
        (m, Some(0i16))
    } else if m.current.remaining.len() > 0 {
        (
            QueueModel {
                current: SourceModel {
                    remaining: m.current.remaining.drop_first(),
                    ..m.current
                },
                ..m
            },
            Some(m.current.remaining[0]),
        )
    } else if advance_ok(m) {
        spec_produce(spec_advance(m))
    } else {
        (m, None)
    }
}

/// The command drain step: either one command was received and applied, or
/// none was present.
pub open spec fn apply_opt(m: QueueModel, c: Option<MusicPlayerCommand>) -> QueueModel {
    match c {
        Some(command) => spec_apply_command(m, command),
        None => m,
    }
}

/// The source drain step: either one source was received and enqueued, or
/// none was present.
pub open spec fn enqueue_opt(m: QueueModel, s: Option<SourceModel>) -> QueueModel {
    match s {
        Some(sm) => spec_enqueue(m, sm),
        None => m,
    }
}

/// One full production request: drain command `c`, drain source `s`, then
/// produce, moving from `pre` to `post` and returning `r`.
pub open spec fn step_matches(
    pre: QueueModel,
    post: QueueModel,
    r: Option<i16>,
    c: Option<MusicPlayerCommand>,
    s: Option<SourceModel>,
) -> bool {
    &&& post == spec_produce(enqueue_opt(apply_opt(pre, c), s)).0
    &&& r == spec_produce(enqueue_opt(apply_opt(pre, c), s)).1
}

/// What the queue reports as its current frame length: the current source's
/// own nonzero frame length; else its remaining length, when that is known,
/// nonzero and below the threshold; else the threshold itself.
pub open spec fn spec_frame_len(m: QueueModel) -> Option<usize> {
    if m.current.frame_len is Some && m.current.frame_len.unwrap() != 0 {
        m.current.frame_len
    } else if m.current.remaining.len() != 0 && m.current.remaining.len() < FRAME_LEN_THRESHOLD {
        Some(m.current.remaining.len() as usize)
    } else {
        Some(FRAME_LEN_THRESHOLD)
    }
}

/// Relied-on declaration of the std channel sender type.
#[verifier::external_type_specification]
#[verifier::external_body]
#[verifier::reject_recursive_types(T)]
pub struct ExSender<T>(std::sync::mpsc::Sender<T>);

/// Relied-on declaration of the std channel receiver type.
#[verifier::external_type_specification]
#[verifier::external_body]
#[verifier::reject_recursive_types(T)]
pub struct ExReceiver<T>(std::sync::mpsc::Receiver<T>);

/// Relies on std::sync::mpsc::channel: returns a connected sender/receiver
/// pair, here carrying control commands.
#[verifier::external_body]
fn command_channel() -> (
    std::sync::mpsc::Sender<MusicPlayerCommand>,
    std::sync::mpsc::Receiver<MusicPlayerCommand>,
) {
    std::sync::mpsc::channel()
}

/// Relies on std::sync::mpsc::channel: returns a connected sender/receiver
/// pair, here carrying newly appended sources.
#[verifier::external_body]
fn source_channel() -> (
    std::sync::mpsc::Sender<SampleSource>,
    std::sync::mpsc::Receiver<SampleSource>,
) {
    std::sync::mpsc::channel()
}

/// Relies on std::sync::mpsc::Sender::send: non-blocking; a failure to
/// deliver (the consumer is gone) is deliberately swallowed.
#[verifier::external_body]
fn send_command(tx: &std::sync::mpsc::Sender<MusicPlayerCommand>, command: MusicPlayerCommand) {
    let _ = tx.send(command);
}

/// Relies on std::sync::mpsc::Sender::send: non-blocking; a failure to
/// deliver (the consumer is gone) is deliberately swallowed.
#[verifier::external_body]
fn send_source(tx: &std::sync::mpsc::Sender<SampleSource>, source: SampleSource) {
    let _ = tx.send(source);
}

/// Relies on std::sync::mpsc::Receiver::try_recv: non-blocking; whether a
/// message is present, and which, depends on what other threads sent, so
/// nothing is promised of the result.
#[verifier::external_body]
fn try_recv_command(
    rx: &std::sync::mpsc::Receiver<MusicPlayerCommand>,
) -> Option<MusicPlayerCommand> {
    rx.try_recv().ok()
}

/// Relies on std::sync::mpsc::Receiver::try_recv: non-blocking; whether a
/// message is present, and which, depends on what other threads sent, so
/// nothing is promised of the result.
#[verifier::external_body]
fn try_recv_source(rx: &std::sync::mpsc::Receiver<SampleSource>) -> Option<SampleSource> {
    rx.try_recv().ok()
}

/// The producer-side handle of the queue: every operation sends one message
/// and returns at once, whatever the consumer is doing.
pub struct SourcesQueueController {
    command_channel: std::sync::mpsc::Sender<MusicPlayerCommand>,
    sound_channel: std::sync::mpsc::Sender<SampleSource>,
}

impl SourcesQueueController {
    /// Adds a new source to the end of the queue. Fire-and-forget: the
    /// source is observed by the consumer when it next drains its channels,
    /// and is silently dropped if the consumer is gone.
    pub fn append(&self, source: SampleSource) {
        send_source(&self.sound_channel, source);
    }

    /// Asks the consumer to pause: to produce zero-valued samples without
    /// consuming its current source. Fire-and-forget.
    pub fn pause(&self) {
        send_command(&self.command_channel, MusicPlayerCommand::Pause);
    }

    /// Asks the consumer to resume where the current source left off.
    /// Fire-and-forget.
    pub fn play(&self) {
        send_command(&self.command_channel, MusicPlayerCommand::Play);
    }

    /// Asks the consumer to discard the current source's remainder and move
    /// to the next one. Fire-and-forget.
    pub fn next(&self) {
        send_command(&self.command_channel, MusicPlayerCommand::NextTrack);
    }

    /// Asks the consumer to discard the current source and everything
    /// pending. Fire-and-forget.
    pub fn stop(&self) {
        send_command(&self.command_channel, MusicPlayerCommand::Stop);
    }
}

/// The output of the queue: the real-time consumer, itself a sample source.
pub struct SourcesQueue {
    sound_queue: Vec<SampleSource>,
    current: SampleSource,
    keep_alive_if_empty: bool,
    command_channel: std::sync::mpsc::Receiver<MusicPlayerCommand>,
    sound_channel: std::sync::mpsc::Receiver<SampleSource>,
    paused: bool,
}

impl View for SourcesQueue {
    type V = QueueModel;

    closed spec fn view(&self) -> QueueModel {
        QueueModel {
            queue: self.sound_queue@.map_values(|s: SampleSource| s@),
            current: self.current@,
            keep_alive: self.keep_alive_if_empty,
            paused: self.paused,
        }
    }
}

/// Builds a new queue: a bound controller/consumer pair sharing fresh
/// channels. With `keep_alive_if_empty`, the consumer plays silence forever
/// once nothing remains; without it, it terminates instead.
pub fn queue2(keep_alive_if_empty: bool) -> (r: (SourcesQueueController, SourcesQueue))
    ensures
        r.1@ == initial_model(keep_alive_if_empty),
{
    let (cmd_tx, cmd_rx) = command_channel();
    let (source_tx, source_rx) = source_channel();
    let output = SourcesQueue {
        sound_queue: Vec::new(),
        current: SampleSource::empty(),
        keep_alive_if_empty,
        command_channel: cmd_rx,
        sound_channel: source_rx,
        paused: false,
    };
    let input = SourcesQueueController {
        command_channel: cmd_tx,
        sound_channel: source_tx,
    };
    proof {
        assert(output@ =~~= initial_model(keep_alive_if_empty));
    }
    (input, output)
}

impl SourcesQueue {
    /// The frame length the queue reports, chosen so that a source
    /// transition falls on a frame boundary: see [`spec_frame_len`].
    pub fn current_frame_len(&self) -> (r: Option<usize>)
        ensures
            r == spec_frame_len(self@),
    {
        match self.current.frame_len() {
            Some(val) => {
                if val != 0 {
                    return Some(val);
                }
            },
            None => {},
        }
        let val = self.current.remaining_len();
        if val < FRAME_LEN_THRESHOLD && val != 0 {
            return Some(val);
        }
        Some(FRAME_LEN_THRESHOLD)
    }

    /// The channel count of whichever source is currently being drained.
    pub fn channels(&self) -> (r: u16)
        ensures
            r == self@.current.channels,
    {
        self.current.channels()
    }

    /// The sample rate of whichever source is currently being drained.
    pub fn sample_rate(&self) -> (r: u32)
        ensures
            r == self@.current.sample_rate,
    {
        self.current.sample_rate()
    }

    /// The composite stream's total duration is never known, since sources
    /// may be appended at any time.
    pub fn total_duration(&self) -> (r: Option<core::time::Duration>)
        ensures
            r is None,
    {
        None
    }

    /// At least the current source's remaining samples will be produced;
    /// no upper bound is known.
    pub fn size_hint(&self) -> (r: (usize, Option<usize>))
        ensures
            r.0 == self@.current.remaining.len(),
            r.1 is None,
    {
        (self.current.remaining_len(), None)
    }

    /// Produces the next sample of the composite stream, or nothing once
    /// the stream has ended. One command and one newly appended source are
    /// drained first; which messages arrive depends on other threads, but
    /// the rest of the step is exact: see [`step_matches`].
    pub fn next(&mut self) -> (r: Option<i16>)
        ensures
            exists|c: Option<MusicPlayerCommand>, s: Option<SourceModel>|
                #[trigger] step_matches(old(self)@, final(self)@, r, c, s),
    {
        let command = try_recv_command(&self.command_channel);
        let new_source = try_recv_source(&self.sound_channel);
        let ghost c = command;
        let ghost s: Option<SourceModel> = if new_source is Some {
            Some(new_source.unwrap()@)
        } else {
            None
        };
        let r = self.step(command, new_source);
        proof {
            assert(step_matches(old(self)@, self@, r, c, s));
        }
        r
    }

    /// One full production step, with the drained messages given
    /// explicitly: applies `command`, enqueues `new_source`, then produces
    /// the next sample. [`Self::next`] drains the channels and calls this;
    /// what the channels deliver is open, but the step itself is exact for
    /// every message they could have delivered.
    pub fn step(
        &mut self,
        command: Option<MusicPlayerCommand>,
        new_source: Option<SampleSource>,
    ) -> (r: Option<i16>)
        ensures
            new_source is Some ==> step_matches(
                old(self)@,
                final(self)@,
                r,
                command,
                Some(new_source.unwrap()@),
            ),
            new_source is None ==> step_matches(
                old(self)@,
                final(self)@,
                r,
                command,
                None::<SourceModel>,
            ),
    {
        match command {
            Some(cmd) => self.handle_command(cmd),
            None => (),
        }
        let ghost m1 = self@;
        match new_source {
            Some(source) => {
                let ghost sm = source@;
                self.sound_queue.push(source);
                proof {
                    assert(self@.queue =~~= m1.queue.push(sm));
                    assert(self@ =~~= spec_enqueue(m1, sm));
                }
            },
            None => (),
        }
        self.produce_sample()
    }

    /// Applies one command to the consumer's state.
    fn handle_command(&mut self, command: MusicPlayerCommand)
        ensures
            final(self)@ == spec_apply_command(old(self)@, command),
    {
        match command {
            MusicPlayerCommand::Play => {
                self.paused = false;
            },
            MusicPlayerCommand::Pause => {
                self.paused = true;
            },
            MusicPlayerCommand::NextTrack => {
                let advanced = self.go_next();
                if advanced.is_err() {
                    self.current = SampleSource::empty();
                }
                proof {
                    assert(self@ =~~= spec_forced_advance(old(self)@));
                }
            },
            MusicPlayerCommand::Stop => {
                self.sound_queue.clear();
                let ghost cleared = QueueModel { queue: Seq::empty(), ..old(self)@ };
                proof {
                    assert(self@ =~~= cleared);
                }
                let advanced = self.go_next();
                if advanced.is_err() {
                    self.current = SampleSource::empty();
                }
                proof {
                    assert(self@ =~~= spec_forced_advance(cleared));
                }
            },
        }
    }

    /// Replaces the current source with the next one: the front of the
    /// pending queue, or the keep-alive silence, or — failing both — leaves
    /// the state alone and reports that the stream should stop.
    fn go_next(&mut self) -> (r: Result<(), ()>)
        ensures
            advance_ok(old(self)@) ==> r == Ok::<(), ()>(()) && final(self)@ == spec_advance(
                old(self)@,
            ),
            !advance_ok(old(self)@) ==> r == Err::<(), ()>(()) && final(self)@ == old(self)@,
    {
        if self.sound_queue.len() == 0 {
            if self.keep_alive_if_empty {
                self.current = SampleSource::silence(
                    KEEP_ALIVE_CHANNELS,
                    KEEP_ALIVE_SAMPLE_RATE,
                    KEEP_ALIVE_SILENCE_SAMPLES,
                );
                proof {
                    assert(self@.current.remaining =~= silence_model().remaining);
                    assert(self@ =~~= spec_advance(old(self)@));
                }
                Ok(())
            } else {
                Err(())
            }
        } else {
            let next = self.sound_queue.remove(0);
            self.current = next;
            proof {
                assert(self@.queue =~~= old(self)@.queue.drop_first());
                assert(self@ =~~= spec_advance(old(self)@));
            }
            Ok(())
        }
    }

    /// The production step proper, once the channels have been drained:
    /// exactly [`spec_produce`].
    #[verifier::loop_isolation(false)]
    fn produce_sample(&mut self) -> (r: Option<i16>)
        ensures
            final(self)@ == spec_produce(old(self)@).0,
            r == spec_produce(old(self)@).1,
    {
        if self.paused {
            return Some(0i16);
        }
        let ghost m0 = self@;
        loop
            invariant
                !self.paused,
                spec_produce(self@) == spec_produce(m0),
                m0 == old(self)@,
            decreases produce_measure(self@),
        {
            let ghost pre = self@;
            match self.current.next() {
                Some(sample) => {
                    proof {
                        assert(self@ =~~= spec_produce(pre).0);
                    }
                    return Some(sample);
                },
                None => {
                    match self.go_next() {
                        Ok(()) => {
                            proof {
                                assert(spec_produce(pre) == spec_produce(spec_advance(pre)));
                            }
                        },
                        Err(()) => {
                            return None;
                        },
                    }
                },
            }
        }
    }
}

} // verus!
