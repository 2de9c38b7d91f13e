//! The frame sink: one reusable RGB24 pixel buffer shared between the decode
//! engine (the single writer) and the render loop (a non-blocking reader).
use vstd::prelude::*;

verus! {

/// Bytes per pixel of the RGB24 layout.
pub const BYTES_PER_PIXEL: u64 = 3;

/// Number of bytes of a `width` x `height` RGB24 frame.
pub open spec fn frame_len_of(width: u32, height: u32) -> int {
    width as int * height as int * BYTES_PER_PIXEL as int
}

/// Abstract state of a [`FrameSink`].
pub struct FrameModel {
    pub width: u32,
    pub height: u32,
    /// The writer holds the buffer (the lock flag).
    pub locked: bool,
    /// A frame was released and not yet consumed (the dirty flag).
    pub dirty: bool,
    /// The frame as it stood at the most recent release (or the initial
    /// blank frame): what a reader may observe while the buffer is free.
    pub published: Seq<u8>,
}

/// One step of the buffer protocol, as seen by the model.
pub enum FrameOp {
    Acquire,
    Release(Seq<u8>),
    Consume,
}

/// Whether a consume on `m` reports an update.
pub open spec fn consume_ready(m: FrameModel) -> bool {
    !m.locked && m.dirty
}

/// Whether a release of `content` is accepted in state `m`: the writer holds
/// the buffer and hands back a whole frame.
pub open spec fn release_accepted(m: FrameModel, content: Seq<u8>) -> bool {
    m.locked && content.len() == frame_len_of(m.width, m.height)
}

/// The effect of one protocol step on the model.
pub open spec fn frame_step(m: FrameModel, op: FrameOp) -> FrameModel {
    match op {
        FrameOp::Acquire => if m.locked {
            m
        } else {
            FrameModel { locked: true, ..m }
        },
        FrameOp::Release(content) => if release_accepted(m, content) {
            FrameModel { locked: false, dirty: true, published: content, ..m }
        } else {
            m
        },
        FrameOp::Consume => if consume_ready(m) {
            FrameModel { dirty: false, ..m }
        } else {
            m
        },
    }
}

/// The model after a sequence of protocol steps, in order, from `m`.
pub open spec fn run_frame_ops(m: FrameModel, ops: Seq<FrameOp>) -> FrameModel
    decreases ops.len(),
{
    if ops.len() == 0 {
        m
    } else {
        frame_step(run_frame_ops(m, ops.drop_last()), ops.last())
    }
}

/// The frame handed back by the most recent accepted release among `ops`
/// run from `m`, or the frame `m` published if no release was accepted.
pub open spec fn last_released(m: FrameModel, ops: Seq<FrameOp>) -> Seq<u8>
    decreases ops.len(),
{
    if ops.len() == 0 {
        m.published
    } else {
        match ops.last() {
            FrameOp::Release(content) => if release_accepted(
                run_frame_ops(m, ops.drop_last()),
                content,
            ) {
                content
            } else {
                last_released(m, ops.drop_last())
            },
            _ => last_released(m, ops.drop_last()),
        }
    }
}

/// Whatever interleaving of acquires, releases and consumes happens, a
/// consume that reports an update happens while no writer holds the buffer,
/// and observes exactly the whole frame of the most recent accepted release
/// (or the initial frame): never a frame still being written.
pub proof fn lemma_consume_observes_released_frame(m: FrameModel, ops: Seq<FrameOp>)
    requires
        m.published.len() == frame_len_of(m.width, m.height),
    ensures
        consume_ready(run_frame_ops(m, ops)) ==> !run_frame_ops(m, ops).locked,
        run_frame_ops(m, ops).published == last_released(m, ops),
        run_frame_ops(m, ops).published.len() == frame_len_of(m.width, m.height),
    decreases ops.len(),
{
    if ops.len() > 0 {
        lemma_consume_observes_released_frame(m, ops.drop_last());
        lemma_run_keeps_size(m, ops.drop_last());
    }
}

proof fn lemma_run_keeps_size(m: FrameModel, ops: Seq<FrameOp>)
    ensures
        run_frame_ops(m, ops).width == m.width,
        run_frame_ops(m, ops).height == m.height,
    decreases ops.len(),
{
    if ops.len() > 0 {
        lemma_run_keeps_size(m, ops.drop_last());
    }
}

/// The writable view over the whole pixel buffer, held by the writer between
/// `acquire` and `release`. Its length never changes through its methods.
pub struct FrameLease {
    bytes: Vec<u8>,
}

impl View for FrameLease {
    type V = Seq<u8>;

    closed spec fn view(&self) -> Seq<u8> {
        self.bytes@
    }
}

impl FrameLease {
    /// Number of bytes in the view.
    pub fn len(&self) -> (r: usize)
        ensures
            r == self@.len(),
    {
        self.bytes.len()
    }

    /// Reads the bytes written so far.
    pub fn as_bytes(&self) -> (r: &[u8])
        ensures
            r@ == self@,
    {
        self.bytes.as_slice()
    }

    /// Raw mutable access for an engine that writes the frame in place.
    pub fn as_mut_bytes(&mut self) -> (r: &mut [u8])
        ensures
            r@ == old(self)@,
            final(self)@ == final(r)@,
    {
        self.bytes.as_mut_slice()
    }

    /// Copies `data` into the view starting at byte `offset`.
    pub fn write(&mut self, offset: usize, data: &[u8])
        requires
            offset + data@.len() <= old(self)@.len(),
        ensures
            final(self)@ == old(self)@.subrange(0, offset as int) + data@ + old(self)@.subrange(
                offset + data@.len(),
                old(self)@.len() as int,
            ),
    {
        let n = data.len();
        let total = self.bytes.len();
        let mut i: usize = 0;
        while i < n
            invariant
                n == data@.len(),
                offset + n <= old(self)@.len(),
                0 <= i <= n,
                self@.len() == old(self)@.len(),
                total == self@.len(),
                forall|k: int| 0 <= k < offset ==> self@[k] == old(self)@[k],
                forall|k: int| 0 <= k < i ==> self@[offset + k] == data@[k],
                forall|k: int| offset + n <= k < self@.len() ==> self@[k] == old(self)@[k],
            decreases n - i,
        {
            self.bytes.set(offset + i, data[i]);
            i = i + 1;
        }
        assert(self@ =~= old(self)@.subrange(0, offset as int) + data@ + old(self)@.subrange(
            offset + data@.len(),
            old(self)@.len() as int,
        ));
    }
}

/// Holds the pixel buffer of a session. The writer takes it with `acquire`
/// and gives it back with `release`; the reader polls `consume`.
pub struct FrameSink {
    width: u32,
    height: u32,
    buffer: Vec<u8>,
    locked: bool,
    dirty: bool,
    published: Ghost<Seq<u8>>,
}

impl View for FrameSink {
    type V = FrameModel;

    closed spec fn view(&self) -> FrameModel {
        FrameModel {
            width: self.width,
            height: self.height,
            locked: self.locked,
            dirty: self.dirty,
            published: self.published@,
        }
    }
}

impl FrameSink {
    /// The sink is consistent: the published frame has the agreed size, and
    /// while no writer holds the buffer it holds exactly the published frame.
    pub closed spec fn wf(&self) -> bool {
        &&& self.published@.len() == frame_len_of(self.width, self.height)
        &&& frame_len_of(self.width, self.height) <= usize::MAX
        &&& !self.locked ==> self.buffer@ == self.published@
    }

    /// A consistent sink's published frame has the agreed size, which the
    /// frame lemmas above ask of their starting model.
    pub proof fn lemma_frame_size(&self)
        requires
            self.wf(),
        ensures
            self@.published.len() == frame_len_of(self@.width, self@.height),
    {
    }

    /// A sink for `width` x `height` frames, holding a blank (all zero) frame.
    pub fn new(width: u32, height: u32) -> (s: FrameSink)
        requires
            frame_len_of(width, height) <= usize::MAX,
        ensures
            s.wf(),
            s@ == (FrameModel {
                width,
                height,
                locked: false,
                dirty: false,
                published: Seq::new(frame_len_of(width, height) as nat, |i: int| 0u8),
            }),
    {
        let len = (width as usize) * (height as usize) * (BYTES_PER_PIXEL as usize);
        let buffer: Vec<u8> = vec![0u8; len];
        let sink = FrameSink {
            width,
            height,
            buffer,
            locked: false,
            dirty: false,
            published: Ghost(buffer@),
        };
        assert(sink.published@ =~= Seq::new(frame_len_of(width, height) as nat, |i: int| 0u8));
        sink
    }

    pub fn width(&self) -> (r: u32)
        ensures
            r == self@.width,
    {
        self.width
    }

    pub fn height(&self) -> (r: u32)
        ensures
            r == self@.height,
    {
        self.height
    }

    /// Size of one frame in bytes.
    pub fn frame_len(&self) -> (r: usize)
        requires
            self.wf(),
        ensures
            r == frame_len_of(self@.width, self@.height),
    {
        (self.width as usize) * (self.height as usize) * (BYTES_PER_PIXEL as usize)
    }

    pub fn is_locked(&self) -> (r: bool)
        ensures
            r == self@.locked,
    {
        self.locked
    }

    pub fn is_dirty(&self) -> (r: bool)
        ensures
            r == self@.dirty,
    {
        self.dirty
    }

    /// Hands the whole buffer to the writer and sets the lock flag. Storage
    /// is moved, never reallocated. `None` while a writer already holds it.
    pub fn acquire(&mut self) -> (lease: Option<FrameLease>)
        requires
            old(self).wf(),
        ensures
            final(self).wf(),
            final(self)@ == frame_step(old(self)@, FrameOp::Acquire),
            lease is Some <==> !old(self)@.locked,
            lease matches Some(l) ==> l@ == old(self)@.published && l@.len() == frame_len_of(
                old(self)@.width,
                old(self)@.height,
            ),
    {
        if self.locked {
            None
        } else {
            let mut bytes: Vec<u8> = Vec::new();
            std::mem::swap(&mut self.buffer, &mut bytes);
            self.locked = true;
            Some(FrameLease { bytes })
        }
    }

    /// Takes the buffer back after one frame was fully written: clears the
    /// lock flag, sets the dirty flag, and publishes the frame.
    pub fn release(&mut self, lease: FrameLease)
        requires
            old(self).wf(),
            release_accepted(old(self)@, lease@),
        ensures
            final(self).wf(),
            final(self)@ == frame_step(old(self)@, FrameOp::Release(lease@)),
    {
        self.buffer = lease.bytes;
        self.locked = false;
        self.dirty = true;
        self.published = Ghost(self.buffer@);
    }

    /// Presentation hook of the buffer protocol; it has no effect.
    pub fn display(&self) {
    }

    /// Reader side, run once per render tick while holding the guard: reports
    /// whether a released frame is waiting, and if so marks it as taken. The
    /// frame to upload is then `frame()`.
    pub fn consume(&mut self) -> (updated: bool)
        requires
            old(self).wf(),
        ensures
            final(self).wf(),
            updated == consume_ready(old(self)@),
            final(self)@ == frame_step(old(self)@, FrameOp::Consume),
    {
        if !self.locked && self.dirty {
            self.dirty = false;
            true
        } else {
            false
        }
    }

    /// The pixels a reader may upload: the published frame while no writer
    /// holds the buffer.
    pub fn frame(&self) -> (r: &[u8])
        requires
            self.wf(),
        ensures
            !self@.locked ==> r@ == self@.published,
            !self@.locked ==> r@.len() == frame_len_of(self@.width, self@.height),
    {
        self.buffer.as_slice()
    }
}

} // verus!
