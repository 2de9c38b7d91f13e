//! The audio stream sink: turns the decode engine's audio events into
//! operations on a queue-fed streaming voice of the audio backend.
//!
//! The sink keeps a model of the backend queue (which buffers are queued, in
//! order) and, for each event, returns the backend operations to perform.
//! The caller performs them and reports what the backend says when asked
//! (how many buffers it has processed, whether the voice is playing), so the
//! sink never waits on the backend itself.
use vstd::prelude::*;

verus! {

/// Playback state of the sink, changed only by events.
#[derive(PartialEq, Eq, Structural, Clone, Copy, Debug)]
pub enum SinkState {
    /// Nothing queued and the voice ready: a fresh session, or one just
    /// restarted after a pause, resume or flush.
    Idle,
    /// Packets were submitted since the last restart.
    Playing,
}

/// Sample layout of the stream: samples per second and interleaved channels.
#[derive(PartialEq, Eq, Structural, Clone, Copy, Debug)]
pub struct AudioFormat {
    pub rate: u32,
    pub channels: u32,
}

/// Where the buffer for a packet comes from. Buffers are named by the
/// number the sink gave them when they were first allocated.
#[derive(PartialEq, Eq, Structural, Clone, Copy, Debug)]
pub enum BufferSource {
    /// Create a new backend buffer from the packet.
    Allocate(u64),
    /// Dequeue the oldest processed buffer (this one) and overwrite it.
    Reuse(u64),
}

/// Backend operations for one packet: obtain the buffer, fill it with
/// `values` interleaved samples and enqueue it. Then the voice is started
/// unless it is playing (see [`start_needed`]).
#[derive(PartialEq, Eq, Structural, Clone, Copy, Debug)]
pub struct Submission {
    pub buffer: BufferSource,
    pub values: u64,
}

/// Unrecoverable failure of the audio session.
#[derive(PartialEq, Eq, Structural, Clone, Copy, Debug)]
pub enum AudioError {
    /// No fresh buffer can be named any more.
    QueueExhausted,
}

/// An audio event of the decode engine. `frames` counts samples per channel.
#[derive(PartialEq, Eq, Structural, Clone, Copy, Debug)]
pub enum PlaybackEvent {
    Play { pts: i64, frames: u32 },
    Pause { pts: i64 },
    Resume { pts: i64 },
    Flush { pts: i64 },
    Drain,
}

/// Backend operations for one event.
pub enum AudioPlan {
    /// Submit one packet.
    Submit(Submission),
    /// Stop the voice, dequeue and drop these buffers (oldest first), then
    /// start the voice again on the empty queue.
    Restart(Vec<u64>),
    /// Nothing to do.
    Nothing,
}

/// Abstract state of an [`AudioStreamSink`].
pub struct AudioModel {
    pub format: AudioFormat,
    pub state: SinkState,
    /// Buffers queued on the voice, oldest first.
    pub queue: Seq<u64>,
    /// The name the next allocated buffer gets.
    pub next_id: u64,
    /// The pts of the latest pause, resume or flush.
    pub marker: Option<i64>,
    /// The pts of the latest event that carried one.
    pub last_pts: Option<i64>,
}

/// Every queued buffer was allocated before, and none is queued twice.
pub open spec fn audio_wf(m: AudioModel) -> bool {
    &&& forall|i: int| 0 <= i < m.queue.len() ==> m.queue[i] < m.next_id
    &&& m.queue.no_duplicates()
}

/// A packet reuses a buffer when the backend has processed one.
pub open spec fn reuses(m: AudioModel, processed: u32) -> bool {
    processed > 0 && m.queue.len() > 0
}

/// A packet that needs a new buffer when no new name is left.
pub open spec fn play_exhausted(m: AudioModel, processed: u32) -> bool {
    !reuses(m, processed) && m.next_id == u64::MAX
}

pub open spec fn source_id(b: BufferSource) -> u64 {
    match b {
        BufferSource::Allocate(id) => id,
        BufferSource::Reuse(id) => id,
    }
}

/// The buffer a packet goes into: the oldest queued one once the backend has
/// processed a buffer, else a new one.
pub open spec fn play_buffer(m: AudioModel, processed: u32) -> BufferSource {
    if reuses(m, processed) {
        BufferSource::Reuse(m.queue[0])
    } else {
        BufferSource::Allocate(m.next_id)
    }
}

/// Interleaved sample values in a packet of `frames` samples per channel.
pub open spec fn packet_values(format: AudioFormat, frames: u32) -> int {
    frames as int * format.channels as int
}

/// The backend operations for a packet.
pub open spec fn play_submission(m: AudioModel, frames: u32, processed: u32) -> Submission {
    Submission {
        buffer: play_buffer(m, processed),
        values: packet_values(m.format, frames) as u64,
    }
}

/// The state after a packet was submitted.
pub open spec fn after_play(m: AudioModel, pts: i64, processed: u32) -> AudioModel {
    let id = source_id(play_buffer(m, processed));
    AudioModel {
        state: SinkState::Playing,
        queue: if reuses(m, processed) {
            m.queue.drop_first().push(id)
        } else {
            m.queue.push(id)
        },
        next_id: if reuses(m, processed) {
            m.next_id
        } else {
            (m.next_id + 1) as u64
        },
        last_pts: Some(pts),
        ..m
    }
}

/// The state after a timeline discontinuity (pause, resume or flush, all
/// alike): the queue is drained, the voice restarted ready, the pts recorded.
pub open spec fn after_discontinuity(m: AudioModel, pts: i64) -> AudioModel {
    AudioModel {
        state: SinkState::Idle,
        queue: Seq::empty(),
        marker: Some(pts),
        last_pts: Some(pts),
        ..m
    }
}

/// The state after an event, when it succeeds.
pub open spec fn after_event(m: AudioModel, event: PlaybackEvent, processed: u32) -> AudioModel {
    match event {
        PlaybackEvent::Play { pts, frames } => after_play(m, pts, processed),
        PlaybackEvent::Pause { pts } => after_discontinuity(m, pts),
        PlaybackEvent::Resume { pts } => after_discontinuity(m, pts),
        PlaybackEvent::Flush { pts } => after_discontinuity(m, pts),
        PlaybackEvent::Drain => m,
    }
}

/// The state after packets submitted one after another, each with the pts
/// and processed count the backend gave for it.
pub open spec fn after_plays(m: AudioModel, plays: Seq<(i64, u32)>) -> AudioModel
    decreases plays.len(),
{
    if plays.len() == 0 {
        m
    } else {
        let before = after_plays(m, plays.drop_last());
        after_play(before, plays.last().0, plays.last().1)
    }
}

/// Pause, resume and flush are one identical recovery: from the same state
/// and pts they end in the same state.
pub proof fn lemma_discontinuities_alike(m: AudioModel, pts: i64, processed: u32)
    ensures
        after_event(m, PlaybackEvent::Pause { pts }, processed) == after_event(
            m,
            PlaybackEvent::Flush { pts },
            processed,
        ),
        after_event(m, PlaybackEvent::Resume { pts }, processed) == after_event(
            m,
            PlaybackEvent::Flush { pts },
            processed,
        ),
        after_event(m, PlaybackEvent::Flush { pts }, processed).queue.len() == 0,
        after_event(m, PlaybackEvent::Flush { pts }, processed).state == SinkState::Idle,
        after_event(m, PlaybackEvent::Flush { pts }, processed).marker == Some(pts),
{
}

/// A pause, then a resume, then a packet: afterwards the queue holds only the
/// buffer of that packet, a fresh one, and no buffer queued before the pause
/// survives.
pub proof fn lemma_pause_resume_play_keeps_only_new(
    m: AudioModel,
    pause_pts: i64,
    resume_pts: i64,
    play_pts: i64,
    processed: u32,
)
    requires
        audio_wf(m),
    ensures
        ({
            let resumed = after_discontinuity(after_discontinuity(m, pause_pts), resume_pts);
            let played = after_play(resumed, play_pts, processed);
            &&& resumed.queue.len() == 0
            &&& !play_exhausted(resumed, processed) ==> {
                &&& play_buffer(resumed, processed) == BufferSource::Allocate(m.next_id)
                &&& played.queue == seq![m.next_id]
                &&& forall|b: u64| m.queue.contains(b) ==> !played.queue.contains(b)
            }
        }),
{
    let resumed = after_discontinuity(after_discontinuity(m, pause_pts), resume_pts);
    let played = after_play(resumed, play_pts, processed);
    if !play_exhausted(resumed, processed) {
        assert(played.queue =~= seq![m.next_id]);
    }
}

/// A pause, then a resume, then any number of packets: every buffer queued
/// afterwards was allocated after the pause, so none queued before it
/// survives. Names never run out when fewer packets follow than names are
/// left.
pub proof fn lemma_pause_resume_plays_keep_only_new(
    m: AudioModel,
    pause_pts: i64,
    resume_pts: i64,
    plays: Seq<(i64, u32)>,
)
    requires
        audio_wf(m),
        m.next_id + plays.len() <= u64::MAX,
    ensures
        ({
            let resumed = after_discontinuity(after_discontinuity(m, pause_pts), resume_pts);
            let played = after_plays(resumed, plays);
            &&& forall|i: int| 0 <= i < played.queue.len() ==> played.queue[i] >= m.next_id
            &&& forall|b: u64| m.queue.contains(b) ==> !played.queue.contains(b)
            &&& played.queue.len() <= plays.len()
        }),
{
    let resumed = after_discontinuity(after_discontinuity(m, pause_pts), resume_pts);
    lemma_plays_stay_fresh(resumed, plays, m.next_id);
    let played = after_plays(resumed, plays);
    assert forall|b: u64| m.queue.contains(b) implies !played.queue.contains(b) by {
        if played.queue.contains(b) {
            let j = choose|j: int| 0 <= j < played.queue.len() && played.queue[j] == b;
            let k = choose|k: int| 0 <= k < m.queue.len() && m.queue[k] == b;
            assert(m.queue[k] < m.next_id);
        }
    }
}

/// Packets submitted from a state whose queued buffers are all named at or
/// after `base` keep it so, and never exhaust the names while enough are
/// left.
proof fn lemma_plays_stay_fresh(m: AudioModel, plays: Seq<(i64, u32)>, base: u64)
    requires
        audio_wf(m),
        base <= m.next_id,
        m.next_id + plays.len() <= u64::MAX,
        forall|i: int| 0 <= i < m.queue.len() ==> m.queue[i] >= base,
        m.queue.len() == 0 || base < m.next_id,
    ensures
        ({
            let r = after_plays(m, plays);
            &&& audio_wf(r)
            &&& m.next_id <= r.next_id <= m.next_id + plays.len()
            &&& forall|i: int| 0 <= i < r.queue.len() ==> r.queue[i] >= base
            &&& r.queue.len() <= m.queue.len() + plays.len()
        }),
    decreases plays.len(),
{
    if plays.len() > 0 {
        let rest = plays.drop_last();
        lemma_plays_stay_fresh(m, rest, base);
        let before = after_plays(m, rest);
        let (pts, processed) = plays.last();
        assert(!play_exhausted(before, processed));
        lemma_event_keeps_wf(before, PlaybackEvent::Play { pts, frames: 0 }, processed);
        let r = after_play(before, pts, processed);
        assert forall|i: int| 0 <= i < r.queue.len() implies r.queue[i] >= base by {
            if reuses(before, processed) {
                if i < r.queue.len() - 1 {
                    assert(r.queue[i] == before.queue[i + 1]);
                } else {
                    assert(r.queue[i] == before.queue[0]);
                }
            } else if i < r.queue.len() - 1 {
                assert(r.queue[i] == before.queue[i]);
            }
        }
    }
}

/// Every event keeps the sink's model consistent.
pub proof fn lemma_event_keeps_wf(m: AudioModel, event: PlaybackEvent, processed: u32)
    requires
        audio_wf(m),
        event matches PlaybackEvent::Play { .. } ==> !play_exhausted(m, processed),
    ensures
        audio_wf(after_event(m, event, processed)),
{
    if let PlaybackEvent::Play { pts, frames } = event {
        let n = after_play(m, pts, processed);
        let id = source_id(play_buffer(m, processed));
        if reuses(m, processed) {
            let rest = m.queue.drop_first();
            assert forall|i: int| 0 <= i < rest.len() implies rest[i] != id by {
                assert(rest[i] == m.queue[i + 1]);
            }
            assert(!rest.contains(id));
        }
        assert forall|i: int| 0 <= i < n.queue.len() implies n.queue[i] < n.next_id by {
            if i < n.queue.len() - 1 && reuses(m, processed) {
                assert(n.queue[i] == m.queue[i + 1]);
            }
        }
    }
}

/// After a packet is enqueued, the voice is started unless it is already
/// playing, as the backend reports once the enqueue is done.
pub fn start_needed(voice_playing: bool) -> (r: bool)
    ensures
        r == !voice_playing,
{
    !voice_playing
}

/// Maps decode-engine audio events onto a streaming voice, recycling
/// processed buffers and draining the queue on every discontinuity.
pub struct AudioStreamSink {
    format: AudioFormat,
    state: SinkState,
    queue: Vec<u64>,
    next_id: u64,
    marker: Option<i64>,
    last_pts: Option<i64>,
}

impl View for AudioStreamSink {
    type V = AudioModel;

    closed spec fn view(&self) -> AudioModel {
        AudioModel {
            format: self.format,
            state: self.state,
            queue: self.queue@,
            next_id: self.next_id,
            marker: self.marker,
            last_pts: self.last_pts,
        }
    }
}

impl AudioStreamSink {
    pub open spec fn wf(&self) -> bool {
        audio_wf(self@)
    }

    /// A fresh session: idle, nothing queued, no buffer allocated yet.
    pub fn new(format: AudioFormat) -> (s: AudioStreamSink)
        ensures
            s.wf(),
            s@ == (AudioModel {
                format,
                state: SinkState::Idle,
                queue: Seq::empty(),
                next_id: 0,
                marker: None,
                last_pts: None,
            }),
    {
        AudioStreamSink {
            format,
            state: SinkState::Idle,
            queue: Vec::new(),
            next_id: 0,
            marker: None,
            last_pts: None,
        }
    }

    pub fn format(&self) -> (r: AudioFormat)
        ensures
            r == self@.format,
    {
        self.format
    }

    pub fn state(&self) -> (r: SinkState)
        ensures
            r == self@.state,
    {
        self.state
    }

    /// The buffers queued on the voice, oldest first.
    pub fn queued_buffers(&self) -> (r: &[u64])
        ensures
            r@ == self@.queue,
    {
        self.queue.as_slice()
    }

    pub fn queue_depth(&self) -> (r: usize)
        ensures
            r == self@.queue.len(),
    {
        self.queue.len()
    }

    /// The pts recorded by the latest pause, resume or flush.
    pub fn flush_marker(&self) -> (r: Option<i64>)
        ensures
            r == self@.marker,
    {
        self.marker
    }

    /// The pts of the latest event that carried one: the audio timeline's
    /// current position.
    pub fn current_pts(&self) -> (r: Option<i64>)
        ensures
            r == self@.last_pts,
    {
        self.last_pts
    }

    /// A packet of `frames` samples per channel arrives, while the backend
    /// reports `processed` buffers played. Exactly one packet is submitted:
    /// into a new buffer while the backend has processed none, otherwise into
    /// the oldest queued buffer, dequeued and overwritten.
    pub fn play(&mut self, pts: i64, frames: u32, processed: u32) -> (r: Result<
        Submission,
        AudioError,
    >)
        requires
            old(self).wf(),
        ensures
            final(self).wf(),
            play_exhausted(old(self)@, processed) ==> r == Err::<Submission, AudioError>(
                AudioError::QueueExhausted,
            ) && final(self)@ == old(self)@,
            !play_exhausted(old(self)@, processed) ==> r == Ok::<Submission, AudioError>(
                play_submission(old(self)@, frames, processed),
            ) && final(self)@ == after_play(old(self)@, pts, processed),
    {
        let ghost m = self@;
        let reuse = processed > 0 && self.queue.len() > 0;
        let buffer = if reuse {
            let id = self.queue.remove(0);
            assert(self.queue@ =~= m.queue.drop_first());
            assert(!self.queue@.contains(id)) by {
                assert forall|i: int| 0 <= i < self.queue@.len() implies self.queue@[i] != id by {
                    assert(m.queue[i + 1] == self.queue@[i]);
                }
            }
            BufferSource::Reuse(id)
        } else {
            if self.next_id == u64::MAX {
                return Err(AudioError::QueueExhausted);
            }
            let id = self.next_id;
            self.next_id = id + 1;
            BufferSource::Allocate(id)
        };
        let id = match buffer {
            BufferSource::Allocate(id) => id,
            BufferSource::Reuse(id) => id,
        };
        self.queue.push(id);
        self.state = SinkState::Playing;
        self.last_pts = Some(pts);
        let channels = self.format.channels;
        assert(frames as int * channels as int <= u32::MAX as int * u32::MAX as int) by (nonlinear_arith)
            requires
                frames <= u32::MAX,
                channels <= u32::MAX,
        ;
        let values = (frames as u64) * (channels as u64);
        Ok(Submission { buffer, values })
    }

    /// The one recovery of pause, resume and flush: stop the voice, give up
    /// every queued buffer, restart the voice ready, and record the pts.
    fn restart(&mut self, pts: i64) -> (discarded: Vec<u64>)
        requires
            old(self).wf(),
        ensures
            final(self).wf(),
            discarded@ == old(self)@.queue,
            final(self)@ == after_discontinuity(old(self)@, pts),
    {
        let mut discarded: Vec<u64> = Vec::new();
        std::mem::swap(&mut self.queue, &mut discarded);
        self.state = SinkState::Idle;
        self.marker = Some(pts);
        self.last_pts = Some(pts);
        discarded
    }

    /// The user paused: drain the queue and restart the voice clean.
    pub fn pause(&mut self, pts: i64) -> (discarded: Vec<u64>)
        requires
            old(self).wf(),
        ensures
            final(self).wf(),
            discarded@ == old(self)@.queue,
            final(self)@ == after_discontinuity(old(self)@, pts),
    {
        self.restart(pts)
    }

    /// The user resumed: drain the queue and restart the voice clean.
    pub fn resume(&mut self, pts: i64) -> (discarded: Vec<u64>)
        requires
            old(self).wf(),
        ensures
            final(self).wf(),
            discarded@ == old(self)@.queue,
            final(self)@ == after_discontinuity(old(self)@, pts),
    {
        self.restart(pts)
    }

    /// The timeline jumped (a seek): drain the queue and restart the voice
    /// clean. The queue is empty afterwards, whatever it held.
    pub fn flush(&mut self, pts: i64) -> (discarded: Vec<u64>)
        requires
            old(self).wf(),
        ensures
            final(self).wf(),
            discarded@ == old(self)@.queue,
            final(self)@ == after_discontinuity(old(self)@, pts),
            final(self)@.queue.len() == 0,
    {
        self.restart(pts)
    }

    /// The engine will send no more data. Nothing is queued or drained.
    pub fn drain(&self) {
    }

    /// Dispatches one event to its handler. `processed` is what the backend
    /// reports just before a packet is submitted.
    pub fn handle(&mut self, event: PlaybackEvent, processed: u32) -> (r: Result<
        AudioPlan,
        AudioError,
    >)
        requires
            old(self).wf(),
        ensures
            final(self).wf(),
            match event {
                PlaybackEvent::Play { pts, frames } => if play_exhausted(old(self)@, processed) {
                    r matches Err(AudioError::QueueExhausted) && final(self)@ == old(self)@
                } else {
                    r matches Ok(AudioPlan::Submit(s)) && s == play_submission(
                        old(self)@,
                        frames,
                        processed,
                    ) && final(self)@ == after_event(old(self)@, event, processed)
                },
                PlaybackEvent::Drain => r matches Ok(AudioPlan::Nothing) && final(self)@ == old(
                    self,
                )@,
                _ => r matches Ok(AudioPlan::Restart(d)) && d@ == old(self)@.queue && final(self)@
                    == after_event(old(self)@, event, processed),
            },
    {
        match event {
            PlaybackEvent::Play { pts, frames } => match self.play(pts, frames, processed) {
                Ok(s) => Ok(AudioPlan::Submit(s)),
                Err(e) => Err(e),
            },
            PlaybackEvent::Pause { pts } => Ok(AudioPlan::Restart(self.pause(pts))),
            PlaybackEvent::Resume { pts } => Ok(AudioPlan::Restart(self.resume(pts))),
            PlaybackEvent::Flush { pts } => Ok(AudioPlan::Restart(self.flush(pts))),
            PlaybackEvent::Drain => {
                self.drain();
                Ok(AudioPlan::Nothing)
            },
        }
    }
}

} // verus!
