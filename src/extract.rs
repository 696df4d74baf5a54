//! Decisions of the audio extraction pipeline: open the container, select the
//! audio stream, feed its packets to the decoder, drain and resample every
//! decoded frame, flush the decoder at the end of the stream, and return the
//! flattened mono buffer. The caller performs each action on the media
//! library and reports the outcome as the next event.
use vstd::prelude::*;

verus! {

/// Verbosity of the media library's diagnostics.
#[derive(Clone, Copy, Debug, PartialEq, Eq, Structural)]
pub enum AVLogLevel {
    Quiet,
    Panic,
    Fatal,
    Error,
    Warning,
    Info,
    Verbose,
    Debug,
    Trace,
}

/// The media library's numeric code of a verbosity level.
pub open spec fn av_log_code(level: AVLogLevel) -> i32 {
    match level {
        AVLogLevel::Quiet => -8i32,
        AVLogLevel::Panic => 0,
        AVLogLevel::Fatal => 8,
        AVLogLevel::Error => 16,
        AVLogLevel::Warning => 24,
        AVLogLevel::Info => 32,
        AVLogLevel::Verbose => 40,
        AVLogLevel::Debug => 48,
        AVLogLevel::Trace => 56,
    }
}

impl AVLogLevel {
    /// The media library's numeric code of this level.
    pub fn code(&self) -> (r: i32)
        ensures
            r == av_log_code(*self),
    {
        match self {
            AVLogLevel::Quiet => -8,
            AVLogLevel::Panic => 0,
            AVLogLevel::Fatal => 8,
            AVLogLevel::Error => 16,
            AVLogLevel::Warning => 24,
            AVLogLevel::Info => 32,
            AVLogLevel::Verbose => 40,
            AVLogLevel::Debug => 48,
            AVLogLevel::Trace => 56,
        }
    }
}

/// The diagnostics level set for an extraction: the one asked for, quiet by
/// default.
pub fn log_level_code(level: Option<AVLogLevel>) -> (r: i32)
    ensures
        r == match level {
            Some(l) => av_log_code(l),
            None => av_log_code(AVLogLevel::Quiet),
        },
{
    match level {
        Some(l) => l.code(),
        None => AVLogLevel::Quiet.code(),
    }
}

/// The stage at which an extraction failed.
#[derive(Clone, Copy, Debug, PartialEq, Eq, Structural)]
pub enum ExtractError {
    /// The input container could not be opened.
    OpenFailed,
    /// The container holds no audio stream.
    NoAudioStream,
    /// The decoder could not be set up, or refused a packet or the end of
    /// the stream.
    DecodeFailed,
    /// The resampler could not be set up, or failed on a frame.
    ResampleFailed,
}

/// Where an extraction stands.
#[derive(Clone, Copy, Debug, PartialEq, Eq, Structural)]
pub enum Phase {
    Opening,
    SelectingStream,
    OpeningDecoder,
    OpeningResampler,
    /// Waiting for the next packet of the container.
    Reading,
    /// A packet (or, with `eof`, the end of the stream) goes to the decoder.
    Sending { eof: bool },
    /// Draining decoded frames; `flushing` once the end of stream was sent.
    Draining { flushing: bool },
    /// A decoded frame goes to the resampler.
    Resampling { flushing: bool },
    Done,
    Failed(ExtractError),
}

/// What the caller does next on the media library.
#[derive(Clone, Copy, Debug, PartialEq, Eq, Structural)]
pub enum Action {
    /// Open the input container.
    Open,
    /// Find the best audio stream.
    SelectStream,
    /// Set up the decoder for the selected stream.
    OpenDecoder,
    /// Set up the resampler: mono, planar 32-bit float, at the target rate.
    OpenResampler,
    /// Read the next packet of the container.
    ReadPacket,
    /// Send the packet just read to the decoder.
    SendPacket,
    /// Signal the end of the stream to the decoder.
    SendEof,
    /// Ask the decoder for a decoded frame.
    ReceiveFrame,
    /// Resample the frame just decoded.
    Resample,
    /// Stop: the extraction is over, `finish` gives its result.
    Finish,
}

/// The outcome of the last action, reported by the caller.
pub enum Event<T> {
    Opened(bool),
    /// The index of the best audio stream, `None` when there is none.
    StreamSelected(Option<usize>),
    DecoderOpened(bool),
    ResamplerOpened(bool),
    /// The stream index of the packet read, `None` once no packet is left.
    Packet(Option<usize>),
    /// Whether the decoder accepted the packet or the end of the stream.
    Sent(bool),
    /// Whether the decoder had a frame ready.
    Frame(bool),
    /// The single output plane of the resampler, `None` when it failed.
    Resampled(Option<Vec<T>>),
}

/// What an `Event` holds.
pub enum EventView<T> {
    Opened(bool),
    StreamSelected(Option<usize>),
    DecoderOpened(bool),
    ResamplerOpened(bool),
    Packet(Option<usize>),
    Sent(bool),
    Frame(bool),
    Resampled(Option<Seq<T>>),
}

impl<T> View for Event<T> {
    type V = EventView<T>;

    open spec fn view(&self) -> EventView<T> {
        match self {
            Event::Opened(b) => EventView::Opened(*b),
            Event::StreamSelected(s) => EventView::StreamSelected(*s),
            Event::DecoderOpened(b) => EventView::DecoderOpened(*b),
            Event::ResamplerOpened(b) => EventView::ResamplerOpened(*b),
            Event::Packet(p) => EventView::Packet(*p),
            Event::Sent(b) => EventView::Sent(*b),
            Event::Frame(b) => EventView::Frame(*b),
            Event::Resampled(p) => EventView::Resampled(
                match p {
                    Some(v) => Some(v@),
                    None => None,
                },
            ),
        }
    }
}

/// What an extraction holds: its phase, the selected stream and the samples
/// gathered so far.
pub struct ExtractionView<T> {
    pub phase: Phase,
    pub stream: usize,
    pub samples: Seq<T>,
}

/// Whether `e` answers the action that `phase` asked for.
pub open spec fn accepts<T>(phase: Phase, e: EventView<T>) -> bool {
    match phase {
        Phase::Opening => e is Opened,
        Phase::SelectingStream => e is StreamSelected,
        Phase::OpeningDecoder => e is DecoderOpened,
        Phase::OpeningResampler => e is ResamplerOpened,
        Phase::Reading => e is Packet,
        Phase::Sending { .. } => e is Sent,
        Phase::Draining { .. } => e is Frame,
        Phase::Resampling { .. } => e is Resampled,
        Phase::Done => false,
        Phase::Failed(_) => false,
    }
}

/// The phase and the action after a failure at `stage`.
pub open spec fn failed<T>(v: ExtractionView<T>, stage: ExtractError) -> (ExtractionView<T>, Action) {
    (ExtractionView { phase: Phase::Failed(stage), ..v }, Action::Finish)
}

/// One step of the pipeline: the extraction after event `e`, and the next
/// action. An event that does not answer the phase changes nothing.
pub open spec fn step<T>(v: ExtractionView<T>, e: EventView<T>) -> (ExtractionView<T>, Action) {
    match (v.phase, e) {
        (Phase::Opening, EventView::Opened(ok)) => if ok {
            (ExtractionView { phase: Phase::SelectingStream, ..v }, Action::SelectStream)
        } else {
            failed(v, ExtractError::OpenFailed)
        },
        (Phase::SelectingStream, EventView::StreamSelected(s)) => match s {
            Some(i) => (
                ExtractionView { phase: Phase::OpeningDecoder, stream: i, ..v },
                Action::OpenDecoder,
            ),
            None => failed(v, ExtractError::NoAudioStream),
        },
        (Phase::OpeningDecoder, EventView::DecoderOpened(ok)) => if ok {
            (ExtractionView { phase: Phase::OpeningResampler, ..v }, Action::OpenResampler)
        } else {
            failed(v, ExtractError::DecodeFailed)
        },
        (Phase::OpeningResampler, EventView::ResamplerOpened(ok)) => if ok {
            (ExtractionView { phase: Phase::Reading, ..v }, Action::ReadPacket)
        } else {
            failed(v, ExtractError::ResampleFailed)
        },
        (Phase::Reading, EventView::Packet(p)) => match p {
            Some(i) => if i == v.stream {
                (ExtractionView { phase: Phase::Sending { eof: false }, ..v }, Action::SendPacket)
            } else {
                (v, Action::ReadPacket)
            },
            None => (ExtractionView { phase: Phase::Sending { eof: true }, ..v }, Action::SendEof),
        },
        (Phase::Sending { eof }, EventView::Sent(ok)) => if ok {
            (
                ExtractionView { phase: Phase::Draining { flushing: eof }, ..v },
                Action::ReceiveFrame,
            )
        } else {
            failed(v, ExtractError::DecodeFailed)
        },
        (Phase::Draining { flushing }, EventView::Frame(ready)) => if ready {
            (ExtractionView { phase: Phase::Resampling { flushing }, ..v }, Action::Resample)
        } else if flushing {
            (ExtractionView { phase: Phase::Done, ..v }, Action::Finish)
        } else {
            (ExtractionView { phase: Phase::Reading, ..v }, Action::ReadPacket)
        },
        (Phase::Resampling { flushing }, EventView::Resampled(plane)) => match plane {
            Some(p) => (
                ExtractionView {
                    phase: Phase::Draining { flushing },
                    samples: v.samples + p,
                    ..v
                },
                Action::ReceiveFrame,
            ),
            None => failed(v, ExtractError::ResampleFailed),
        },
        _ => (v, Action::Finish),
    }
}

/// What an extraction in a final phase gives: the samples once done, the
/// failed stage otherwise.
pub open spec fn outcome<T>(v: ExtractionView<T>) -> Result<Seq<T>, ExtractError> {
    match v.phase {
        Phase::Failed(e) => Err(e),
        _ => Ok(v.samples),
    }
}

/// One extraction of the mono sample buffer from a container.
pub struct Extraction<T> {
    phase: Phase,
    stream: usize,
    samples: Vec<T>,
}

impl<T> View for Extraction<T> {
    type V = ExtractionView<T>;

    closed spec fn view(&self) -> ExtractionView<T> {
        ExtractionView { phase: self.phase, stream: self.stream, samples: self.samples@ }
    }
}

impl<T> Extraction<T> {
    /// A new extraction, and its first action: open the container.
    pub fn new() -> (r: (Self, Action))
        ensures
            r.0@.phase == Phase::Opening,
            r.0@.samples == Seq::<T>::empty(),
            r.1 == Action::Open,
    {
        (Extraction { phase: Phase::Opening, stream: 0, samples: Vec::new() }, Action::Open)
    }

    /// Where the extraction stands.
    pub fn phase(&self) -> (r: Phase)
        ensures
            r == self@.phase,
    {
        self.phase
    }

    /// Whether the extraction is over, done or failed.
    pub fn is_finished(&self) -> (r: bool)
        ensures
            r == (self@.phase is Done || self@.phase is Failed),
    {
        match self.phase {
            Phase::Done => true,
            Phase::Failed(_) => true,
            _ => false,
        }
    }

    /// Takes the outcome of the last action and gives the next one.
    pub fn step(&mut self, e: Event<T>) -> (r: Action)
        requires
            accepts(old(self)@.phase, e@),
        ensures
            (final(self)@, r) == step(old(self)@, e@),
    {
        match e {
            Event::Opened(ok) => {
                if ok {
                    self.phase = Phase::SelectingStream;
                    Action::SelectStream
                } else {
                    self.fail(ExtractError::OpenFailed)
                }
            },
            Event::StreamSelected(s) => match s {
                Some(i) => {
                    self.phase = Phase::OpeningDecoder;
                    self.stream = i;
                    Action::OpenDecoder
                },
                None => self.fail(ExtractError::NoAudioStream),
            },
            Event::DecoderOpened(ok) => {
                if ok {
                    self.phase = Phase::OpeningResampler;
                    Action::OpenResampler
                } else {
                    self.fail(ExtractError::DecodeFailed)
                }
            },
            Event::ResamplerOpened(ok) => {
                if ok {
                    self.phase = Phase::Reading;
                    Action::ReadPacket
                } else {
                    self.fail(ExtractError::ResampleFailed)
                }
            },
            Event::Packet(p) => match p {
                Some(i) => {
                    if i == self.stream {
                        self.phase = Phase::Sending { eof: false };
                        Action::SendPacket
                    } else {
                        Action::ReadPacket
                    }
                },
                None => {
                    self.phase = Phase::Sending { eof: true };
                    Action::SendEof
                },
            },
            Event::Sent(ok) => {
                let eof = match self.phase {
                    Phase::Sending { eof } => eof,
                    _ => false,
                };
                if ok {
                    self.phase = Phase::Draining { flushing: eof };
                    Action::ReceiveFrame
                } else {
                    self.fail(ExtractError::DecodeFailed)
                }
            },
            Event::Frame(ready) => {
                let flushing = match self.phase {
                    Phase::Draining { flushing } => flushing,
                    _ => false,
                };
                if ready {
                    self.phase = Phase::Resampling { flushing };
                    Action::Resample
                } else if flushing {
                    self.phase = Phase::Done;
                    Action::Finish
                } else {
                    self.phase = Phase::Reading;
                    Action::ReadPacket
                }
            },
            Event::Resampled(plane) => {
                let flushing = match self.phase {
                    Phase::Resampling { flushing } => flushing,
                    _ => false,
                };
                match plane {
                    Some(p) => {
                        let mut p = p;
                        self.samples.append(&mut p);
                        self.phase = Phase::Draining { flushing };
                        Action::ReceiveFrame
                    },
                    None => self.fail(ExtractError::ResampleFailed),
                }
            },
        }
    }

    fn fail(&mut self, stage: ExtractError) -> (r: Action)
        ensures
            (final(self)@, r) == failed(old(self)@, stage),
    {
        self.phase = Phase::Failed(stage);
        Action::Finish
    }

    /// The result of a finished extraction: the whole flattened buffer once
    /// done, or the stage that failed, with no partial buffer.
    pub fn finish(self) -> (r: Result<Vec<T>, ExtractError>)
        requires
            self@.phase is Done || self@.phase is Failed,
        ensures
            match (r, outcome(self@)) {
                (Ok(v), Ok(s)) => v@ == s,
                (Err(e), Err(f)) => e == f,
                _ => false,
            },
    {
        match self.phase {
            Phase::Failed(e) => Err(e),
            _ => Ok(self.samples),
        }
    }
}

/// The extraction after a sequence of events, taken in order.
pub open spec fn run<T>(v: ExtractionView<T>, es: Seq<EventView<T>>) -> ExtractionView<T>
    decreases es.len(),
{
    if es.len() == 0 {
        v
    } else {
        step(run(v, es.drop_last()), es.last()).0
    }
}

/// A sequence of planes laid end to end.
pub open spec fn flatten<T>(planes: Seq<Seq<T>>) -> Seq<T>
    decreases planes.len(),
{
    if planes.len() == 0 {
        Seq::empty()
    } else {
        flatten(planes.drop_last()) + planes.last()
    }
}

/// The events of draining the decoder of one frame per plane, each frame
/// resampled to that plane.
pub open spec fn drain_events<T>(planes: Seq<Seq<T>>) -> Seq<EventView<T>>
    decreases planes.len(),
{
    if planes.len() == 0 {
        Seq::empty()
    } else {
        drain_events(planes.drop_last()) + seq![
            EventView::Frame(true),
            EventView::Resampled(Some(planes.last())),
        ]
    }
}

/// The events of the end of an extraction whose decoder held back frames
/// until the end of the stream: no packet is left, the decoder accepts the
/// end of the stream, gives one frame per plane, then none.
pub open spec fn flush_events<T>(planes: Seq<Seq<T>>) -> Seq<EventView<T>> {
    seq![EventView::Packet(None), EventView::Sent(true)] + drain_events(planes) + seq![
        EventView::Frame(false),
    ]
}

proof fn lemma_run_append<T>(v: ExtractionView<T>, a: Seq<EventView<T>>, b: Seq<EventView<T>>)
    ensures
        run(v, a + b) == run(run(v, a), b),
    decreases b.len(),
{
    if b.len() == 0 {
        assert(a + b =~= a);
    } else {
        lemma_run_append(v, a, b.drop_last());
        assert((a + b).drop_last() =~= a + b.drop_last());
    }
}

proof fn lemma_drain<T>(v: ExtractionView<T>, flushing: bool, planes: Seq<Seq<T>>)
    requires
        v.phase == (Phase::Draining { flushing }),
    ensures
        run(v, drain_events(planes)) == (ExtractionView {
            samples: v.samples + flatten(planes),
            ..v
        }),
    decreases planes.len(),
{
    if planes.len() == 0 {
        assert(v.samples + flatten(planes) =~= v.samples);
    } else {
        let front = planes.drop_last();
        let pair = seq![EventView::Frame(true), EventView::Resampled(Some(planes.last()))];
        lemma_drain(v, flushing, front);
        lemma_run_append(v, drain_events(front), pair);
        let mid = run(v, drain_events(front));
        let one = seq![EventView::<T>::Frame(true)];
        assert(pair.drop_last() =~= one);
        assert(one.drop_last() =~= Seq::<EventView<T>>::empty());
        assert(run(mid, Seq::<EventView<T>>::empty()) == mid);
        assert(run(mid, one) == step(mid, EventView::<T>::Frame(true)).0);
        assert(run(mid, pair) == step(run(mid, one), pair.last()).0);
        assert(drain_events(planes) == drain_events(front) + pair);
        assert(v.samples + flatten(front) + planes.last() =~= v.samples + flatten(planes));
    }
}

/// No audio stream: once the container is open, an extraction that finds no
/// audio stream fails with that error, ends, and gives no buffer.
pub proof fn law_no_audio_stream<T>(v: ExtractionView<T>)
    requires
        v.phase == Phase::SelectingStream,
    ensures
        step(v, EventView::StreamSelected(None)).1 == Action::Finish,
        outcome(step(v, EventView::StreamSelected(None)).0) == Err::<Seq<T>, ExtractError>(
            ExtractError::NoAudioStream,
        ),
{
}

/// Flush completeness: when the packets run out, the end of the stream is
/// sent and every frame the decoder held back is drained and resampled;
/// the buffer then ends with all of them, in order, and the extraction is
/// done with that buffer.
pub proof fn law_flush_completeness<T>(v: ExtractionView<T>, planes: Seq<Seq<T>>)
    requires
        v.phase == Phase::Reading,
    ensures
        run(v, flush_events(planes)).phase == Phase::Done,
        outcome(run(v, flush_events(planes))) == Ok::<Seq<T>, ExtractError>(
            v.samples + flatten(planes),
        ),
{
    let head = seq![EventView::<T>::Packet(None), EventView::Sent(true)];
    let tail = seq![EventView::<T>::Frame(false)];
    assert(head.drop_last() =~= seq![EventView::<T>::Packet(None)]);
    assert(seq![EventView::<T>::Packet(None)].drop_last() =~= Seq::<EventView<T>>::empty());
    assert(tail.drop_last() =~= Seq::<EventView<T>>::empty());
    let one = seq![EventView::<T>::Packet(None)];
    assert(run(v, Seq::<EventView<T>>::empty()) == v);
    assert(run(v, one) == step(v, EventView::<T>::Packet(None)).0);
    assert(run(v, head) == step(run(v, one), EventView::<T>::Sent(true)).0);
    let w = run(v, head);
    assert(w == ExtractionView { phase: Phase::Draining { flushing: true }, ..v });
    let u = run(w, drain_events(planes));
    assert(run(u, Seq::<EventView<T>>::empty()) == u);
    assert(run(u, tail) == step(u, EventView::<T>::Frame(false)).0);
    assert(flush_events(planes) == head + drain_events(planes) + tail);
    lemma_run_append(v, head, drain_events(planes));
    lemma_drain(w, true, planes);
    lemma_run_append(v, head + drain_events(planes), tail);
}

} // verus!
