//! The sample buffer: the store of captured audio samples, guarded by a
//! recording flag. The capture callback appends a chunk only while the
//! flag is set; a session clears the buffer when it starts and snapshots
//! it when it stops.

use vstd::prelude::*;

verus! {

/// The abstract state of the sample buffer: the samples captured so far
/// and the recording flag.
pub struct BufferModel {
    pub samples: Seq<i64>,
    pub recording: bool,
}

/// One thing that can happen to the buffer while the pipeline runs: a
/// Start command that the controller lets through (it ignores Start
/// while already recording), a Stop command, or a chunk delivered by
/// the capture callback.
pub enum BufferEvent {
    Start,
    Stop,
    Chunk(Seq<i64>),
}

/// How one event changes the buffer.
pub open spec fn buffer_step(m: BufferModel, e: BufferEvent) -> BufferModel {
    match e {
        BufferEvent::Start => if m.recording {
            m
        } else {
            BufferModel { samples: Seq::empty(), recording: true }
        },
        BufferEvent::Stop => BufferModel { samples: m.samples, recording: false },
        BufferEvent::Chunk(c) => if m.recording {
            BufferModel { samples: m.samples + c, recording: true }
        } else {
            m
        },
    }
}

/// The buffer after a run of events.
pub open spec fn buffer_run(m: BufferModel, es: Seq<BufferEvent>) -> BufferModel
    decreases es.len(),
{
    if es.len() == 0 {
        m
    } else {
        buffer_run(buffer_step(m, es[0]), es.drop_first())
    }
}

/// All samples delivered by the chunk events of a run, in order.
pub open spec fn delivered(es: Seq<BufferEvent>) -> Seq<i64>
    decreases es.len(),
{
    if es.len() == 0 {
        Seq::empty()
    } else {
        (match es[0] {
            BufferEvent::Chunk(c) => c,
            _ => Seq::<i64>::empty(),
        }) + delivered(es.drop_first())
    }
}

/// Running one more event after a run is one more step.
proof fn lemma_run_snoc(m: BufferModel, es: Seq<BufferEvent>, e: BufferEvent)
    ensures
        buffer_run(m, es.push(e)) == buffer_step(buffer_run(m, es), e),
    decreases es.len(),
{
    if es.len() == 0 {
        assert(es.push(e)[0] == e);
        assert(es.push(e).drop_first() =~= Seq::<BufferEvent>::empty());
        assert(buffer_run(m, es.push(e)) == buffer_run(
            buffer_step(m, e),
            Seq::<BufferEvent>::empty(),
        ));
        assert(buffer_run(m, es) == m);
    } else {
        assert(es.push(e)[0] == es[0]);
        assert(es.push(e).drop_first() =~= es.drop_first().push(e));
        lemma_run_snoc(buffer_step(m, es[0]), es.drop_first(), e);
        assert(buffer_run(m, es.push(e)) == buffer_run(
            buffer_step(m, es[0]),
            es.drop_first().push(e),
        ));
        assert(buffer_run(m, es) == buffer_run(buffer_step(m, es[0]), es.drop_first()));
    }
}

/// While the flag is set and no Stop arrives, the buffer accumulates
/// exactly what is delivered.
proof fn lemma_recording_run(m: BufferModel, es: Seq<BufferEvent>)
    requires
        m.recording,
        forall|k: int| 0 <= k < es.len() ==> !(es[k] is Stop),
    ensures
        buffer_run(m, es).recording,
        buffer_run(m, es).samples == m.samples + delivered(es),
    decreases es.len(),
{
    if es.len() == 0 {
        assert(m.samples + delivered(es) =~= m.samples);
    } else {
        let m1 = buffer_step(m, es[0]);
        assert(!(es[0] is Stop));
        lemma_recording_run(m1, es.drop_first());
        match es[0] {
            BufferEvent::Start => {
                assert(m1 == m);
                assert(m.samples + (Seq::<i64>::empty() + delivered(es.drop_first())) =~= m.samples
                    + delivered(es.drop_first()));
            },
            BufferEvent::Chunk(c) => {
                assert((m.samples + c) + delivered(es.drop_first()) =~= m.samples + (c + delivered(
                    es.drop_first(),
                )));
            },
            BufferEvent::Stop => {
                assert(false);
            },
        }
    }
}

/// Law: buffer reset. Whatever the buffer held before, after an
/// effective Start, then any events among which no Stop occurs, then
/// the Stop that ends the session, it holds exactly the samples
/// delivered strictly between that Start and that Stop.
pub proof fn lemma_session_buffer(m: BufferModel, mid: Seq<BufferEvent>)
    requires
        !m.recording,
        forall|k: int| 0 <= k < mid.len() ==> !(mid[k] is Stop),
    ensures
        buffer_run(m, seq![BufferEvent::Start] + mid + seq![BufferEvent::Stop]).samples
            == delivered(mid),
        !buffer_run(m, seq![BufferEvent::Start] + mid + seq![BufferEvent::Stop]).recording,
{
    let es = seq![BufferEvent::Start] + mid + seq![BufferEvent::Stop];
    assert(es[0] == BufferEvent::Start);
    assert(es.drop_first() =~= mid.push(BufferEvent::Stop));
    let m1 = buffer_step(m, BufferEvent::Start);
    assert(m1.recording && m1.samples =~= Seq::<i64>::empty());
    lemma_run_snoc(m1, mid, BufferEvent::Stop);
    lemma_recording_run(m1, mid);
    assert(Seq::<i64>::empty() + delivered(mid) =~= delivered(mid));
}

/// The mutable store shared by the capture callback and the controller.
pub struct SampleBuffer {
    samples: Vec<i64>,
    recording: bool,
}

impl View for SampleBuffer {
    type V = BufferModel;

    closed spec fn view(&self) -> BufferModel {
        BufferModel { samples: self.samples@, recording: self.recording }
    }
}

impl SampleBuffer {
    /// An empty buffer with the recording flag cleared.
    pub fn new() -> (r: Self)
        ensures
            r@.samples == Seq::<i64>::empty(),
            !r@.recording,
    {
        SampleBuffer { samples: Vec::new(), recording: false }
    }

    /// Whether the capture callback currently appends.
    pub fn is_recording(&self) -> (r: bool)
        ensures
            r == self@.recording,
    {
        self.recording
    }

    /// How many samples are buffered.
    pub fn len(&self) -> (r: usize)
        ensures
            r == self@.samples.len(),
    {
        self.samples.len()
    }

    /// Start a session: clear the buffer and set the recording flag. The
    /// controller calls this only when not already recording.
    pub fn begin(&mut self)
        ensures
            final (self)@ == (BufferModel { samples: Seq::<i64>::empty(), recording: true }),
    {
        self.samples = Vec::new();
        self.recording = true;
    }

    /// Deliver a chunk from the capture callback: appended in capture
    /// order while recording, dropped otherwise.
    pub fn append(&mut self, chunk: &Vec<i64>)
        ensures
            final (self)@ == buffer_step(old(self)@, BufferEvent::Chunk(chunk@)),
    {
        if self.recording {
            let n = chunk.len();
            for i in 0..n
                invariant
                    n == chunk@.len(),
                    self.recording == old(self).recording,
                    self.samples@ == old(self).samples@ + chunk@.take(i as int),
            {
                self.samples.push(chunk[i]);
                proof {
                    assert(old(self).samples@ + chunk@.take(i + 1int) =~= (old(self).samples@
                        + chunk@.take(i as int)).push(chunk@[i as int]));
                }
            }
            proof {
                assert(old(self).samples@ + chunk@.take(n as int) =~= old(self).samples@ + chunk@);
            }
        }
    }

    /// End the session: clear the recording flag and hand the controller a
    /// snapshot of everything captured since the session started.
    pub fn end_session(&mut self) -> (snap: Vec<i64>)
        ensures
            final (self)@ == buffer_step(old(self)@, BufferEvent::Stop),
            snap@ == old(self)@.samples,
    {
        self.recording = false;
        let n = self.samples.len();
        let mut snap: Vec<i64> = Vec::new();
        for i in 0..n
            invariant
                n == self.samples@.len(),
                self@ == buffer_step(old(self)@, BufferEvent::Stop),
                self.samples@ == old(self).samples@,
                snap@ == self.samples@.take(i as int),
        {
            snap.push(self.samples[i]);
            proof {
                assert(self.samples@.take(i + 1int) =~= self.samples@.take(i as int).push(
                    self.samples@[i as int],
                ));
            }
        }
        proof {
            assert(self.samples@.take(n as int) =~= self.samples@);
        }
        snap
    }
}

} // verus!
