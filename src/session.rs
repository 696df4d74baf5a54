//! The session context shared between a blocking native inference call and the
//! host: four handler slots, the native session handle last observed, and the
//! adapters that the native engine's four callbacks run against it.
use vstd::prelude::*;

use crate::slot::Slot;
use crate::text::{decode_text, decoded, trim_text, trimmed};

verus! {

/// Opaque handle of the native engine's per-call session state, as an address.
/// It is observed by the adapters and never owned by this library.
#[derive(Clone, Copy, Debug, PartialEq, Eq, Structural)]
pub struct WhisperState {
    pub inner: usize,
}

impl WhisperState {
    /// Wraps the address of a native session state.
    pub fn from_addr(addr: usize) -> (r: Self)
        ensures
            r.inner == addr,
    {
        WhisperState { inner: addr }
    }

    /// The address of the native session state.
    pub fn addr(&self) -> (r: usize)
        ensures
            r == self.inner,
    {
        self.inner
    }
}

/// One finalized segment as the native engine reports it: start and end time
/// in the engine's unit, and the bytes of its text (`None` for a null text).
pub struct RawSegment {
    pub t0: i64,
    pub t1: i64,
    pub text: Option<Vec<u8>>,
}

/// What a `RawSegment` holds.
pub struct RawSegmentView {
    pub t0: i64,
    pub t1: i64,
    pub text: Option<Seq<u8>>,
}

impl View for RawSegment {
    type V = RawSegmentView;

    open spec fn view(&self) -> RawSegmentView {
        RawSegmentView {
            t0: self.t0,
            t1: self.t1,
            text: match self.text {
                Some(b) => Some(b@),
                None => None,
            },
        }
    }
}

/// A new-segment event as the host receives it: trimmed text, start and end.
pub struct Segment {
    pub text: String,
    pub start: u32,
    pub end: u32,
}

/// What a `Segment` holds.
pub struct SegmentView {
    pub text: Seq<char>,
    pub start: u32,
    pub end: u32,
}

impl View for Segment {
    type V = SegmentView;

    open spec fn view(&self) -> SegmentView {
        SegmentView { text: self.text@, start: self.start, end: self.end }
    }
}

/// The text of a raw segment, if it has one that is valid UTF-8.
pub open spec fn segment_text(r: RawSegmentView) -> Option<Seq<char>> {
    match r.text {
        Some(b) => decoded(b),
        None => None,
    }
}

/// The event forwarded for one raw segment: none when its text is null or not
/// valid UTF-8; else its trimmed text with the times forwarded unconverted.
pub open spec fn segment_event(r: RawSegmentView) -> Option<SegmentView> {
    match segment_text(r) {
        Some(t) => Some(SegmentView { text: trimmed(t), start: r.t0 as u32, end: r.t1 as u32 }),
        None => None,
    }
}

/// The events forwarded for a run of raw segments, in their order.
pub open spec fn segment_events(rs: Seq<RawSegmentView>) -> Seq<SegmentView>
    decreases rs.len(),
{
    if rs.len() == 0 {
        Seq::empty()
    } else {
        let before = segment_events(rs.drop_last());
        match segment_event(rs.last()) {
            Some(e) => before.push(e),
            None => before,
        }
    }
}

/// The views of a sequence of raw segments.
pub open spec fn raw_views(rs: Seq<RawSegment>) -> Seq<RawSegmentView> {
    rs.map_values(|r: RawSegment| r@)
}

/// The views of a sequence of events.
pub open spec fn segment_views(es: Seq<Segment>) -> Seq<SegmentView> {
    es.map_values(|e: Segment| e@)
}

/// Converts one raw segment into the event forwarded for it, if any.
pub fn segment_from_raw(raw: &RawSegment) -> (r: Option<Segment>)
    ensures
        r.is_some() == segment_event(raw@).is_some(),
        r.is_some() ==> r.unwrap()@ == segment_event(raw@).unwrap(),
{
    match &raw.text {
        None => None,
        Some(bytes) => {
            let copy = bytes.clone();
            assert(copy@ == bytes@);
            match decode_text(copy) {
                None => None,
                Some(text) => {
                    let t = trim_text(text.as_str());
                    Some(Segment { text: t, start: raw.t0 as u32, end: raw.t1 as u32 })
                },
            }
        },
    }
}

/// Converts the raw segments fetched for one new-segment callback into the
/// events forwarded for them, in ascending order, skipping those without text.
pub fn segments_from_raw(fetched: &Vec<RawSegment>) -> (r: Vec<Segment>)
    ensures
        segment_views(r@) == segment_events(raw_views(fetched@)),
{
    let mut out: Vec<Segment> = Vec::new();
    let mut i: usize = 0;
    while i < fetched.len()
        invariant
            i <= fetched@.len(),
            segment_views(out@) == segment_events(raw_views(fetched@.subrange(0, i as int))),
        decreases fetched@.len() - i,
    {
        let ghost before = out@;
        let ev = segment_from_raw(&fetched[i]);
        proof {
            let pre = raw_views(fetched@.subrange(0, i as int));
            let post = raw_views(fetched@.subrange(0, i + 1));
            assert(post.drop_last() =~= pre);
            assert(post.last() == fetched@[i as int]@);
        }
        match ev {
            Some(e) => {
                out.push(e);
                assert(segment_views(out@) =~= segment_views(before).push(out@.last()@));
            },
            None => {},
        }
        i = i + 1;
    }
    assert(fetched@.subrange(0, i as int) =~= fetched@);
    out
}

/// The index range `[n_segments - n_new, n_segments)` of the segments that a
/// new-segment callback reports as newly finalized.
pub fn new_segment_range(n_segments: i32, n_new: i32) -> (r: (i32, i32))
    requires
        0 <= n_new <= n_segments,
    ensures
        r.0 == n_segments - n_new,
        r.1 == n_segments,
{
    (n_segments - n_new, n_segments)
}

/// What a session context holds: the handler of each slot and the native
/// session handle last observed.
pub struct ContextView<B, P, N, A> {
    pub encoder_begin: Option<B>,
    pub progress: Option<P>,
    pub new_segment: Option<N>,
    pub abort: Option<A>,
    pub session: Option<WhisperState>,
}

/// The block shared by the native callbacks and the host for one inference
/// call: one slot per callback kind (encoder begin, progress, new segment,
/// abort) and the native session handle last observed.
pub struct SessionContext<B, P, N, A> {
    encoder_begin: Slot<B>,
    progress: Slot<P>,
    new_segment: Slot<N>,
    abort: Slot<A>,
    session: Option<WhisperState>,
}

impl<B, P, N, A> View for SessionContext<B, P, N, A> {
    type V = ContextView<B, P, N, A>;

    closed spec fn view(&self) -> ContextView<B, P, N, A> {
        ContextView {
            encoder_begin: self.encoder_begin@,
            progress: self.progress@,
            new_segment: self.new_segment@,
            abort: self.abort@,
            session: self.session,
        }
    }
}

/// What an encoder-begin callback does: the state handed to the installed
/// handler, if one is installed, and the reply to the engine.
pub struct EncoderBeginReply {
    pub deliver: Option<WhisperState>,
    pub proceed: bool,
}

/// What an abort callback does: whether the installed handler is notified,
/// and whether the engine is told to stop.
pub struct AbortReply {
    pub notify: bool,
    pub stop: bool,
}

impl<B, P, N, A> SessionContext<B, P, N, A> {
    /// A context with four empty slots and no session observed.
    pub fn new() -> (r: Self)
        ensures
            r@.encoder_begin.is_none(),
            r@.progress.is_none(),
            r@.new_segment.is_none(),
            r@.abort.is_none(),
            r@.session.is_none(),
    {
        SessionContext {
            encoder_begin: Slot::new(),
            progress: Slot::new(),
            new_segment: Slot::new(),
            abort: Slot::new(),
            session: None,
        }
    }

    /// Installs the encoder-begin handler; returns the one it replaces.
    pub fn set_on_encoder_begin(&mut self, handler: B) -> (retired: Option<B>)
        ensures
            retired == old(self)@.encoder_begin,
            final(self)@ == (ContextView { encoder_begin: Some(handler), ..old(self)@ }),
    {
        self.encoder_begin.install(handler)
    }

    /// Installs the progress handler; returns the one it replaces.
    pub fn set_on_progress(&mut self, handler: P) -> (retired: Option<P>)
        ensures
            retired == old(self)@.progress,
            final(self)@ == (ContextView { progress: Some(handler), ..old(self)@ }),
    {
        self.progress.install(handler)
    }

    /// Installs the new-segment handler; returns the one it replaces.
    pub fn set_on_new_segment(&mut self, handler: N) -> (retired: Option<N>)
        ensures
            retired == old(self)@.new_segment,
            final(self)@ == (ContextView { new_segment: Some(handler), ..old(self)@ }),
    {
        self.new_segment.install(handler)
    }

    /// Installs the abort handler; returns the one it replaces.
    pub fn set_on_abort(&mut self, handler: A) -> (retired: Option<A>)
        ensures
            retired == old(self)@.abort,
            final(self)@ == (ContextView { abort: Some(handler), ..old(self)@ }),
    {
        self.abort.install(handler)
    }

    /// The installed encoder-begin handler.
    pub fn get_on_encoder_begin(&self) -> (r: Option<&B>)
        ensures
            r.is_some() == self@.encoder_begin.is_some(),
            r.is_some() ==> *r.unwrap() == self@.encoder_begin.unwrap(),
    {
        self.encoder_begin.load()
    }

    /// The installed progress handler.
    pub fn get_on_progress(&self) -> (r: Option<&P>)
        ensures
            r.is_some() == self@.progress.is_some(),
            r.is_some() ==> *r.unwrap() == self@.progress.unwrap(),
    {
        self.progress.load()
    }

    /// The installed new-segment handler.
    pub fn get_on_new_segment(&self) -> (r: Option<&N>)
        ensures
            r.is_some() == self@.new_segment.is_some(),
            r.is_some() ==> *r.unwrap() == self@.new_segment.unwrap(),
    {
        self.new_segment.load()
    }

    /// The installed abort handler.
    pub fn get_on_abort(&self) -> (r: Option<&A>)
        ensures
            r.is_some() == self@.abort.is_some(),
            r.is_some() ==> *r.unwrap() == self@.abort.unwrap(),
    {
        self.abort.load()
    }

    /// Records the native session handle seen by a callback.
    pub fn observe_session(&mut self, state: WhisperState)
        ensures
            final(self)@ == (ContextView { session: Some(state), ..old(self)@ }),
    {
        self.session = Some(state);
    }

    /// The native session handle last observed, if any.
    pub fn current_session(&self) -> (r: Option<WhisperState>)
        ensures
            r == self@.session,
    {
        self.session
    }

    /// The encoder-begin callback: records the session, hands the state to
    /// the installed handler if there is one, and lets the engine proceed.
    pub fn on_encoder_begin(&mut self, state: WhisperState) -> (r: EncoderBeginReply)
        ensures
            final(self)@ == (ContextView { session: Some(state), ..old(self)@ }),
            r.deliver == (if old(self)@.encoder_begin.is_some() {
                Some(state)
            } else {
                None
            }),
            r.proceed,
    {
        self.observe_session(state);
        let deliver = if self.encoder_begin.is_installed() {
            Some(state)
        } else {
            None
        };
        EncoderBeginReply { deliver, proceed: true }
    }

    /// The progress callback: records the session and hands the percentage,
    /// as an unsigned integer, to the installed handler if there is one.
    pub fn on_progress(&mut self, state: WhisperState, progress: i32) -> (r: Option<u32>)
        ensures
            final(self)@ == (ContextView { session: Some(state), ..old(self)@ }),
            r == (if old(self)@.progress.is_some() {
                Some(progress as u32)
            } else {
                None
            }),
    {
        self.observe_session(state);
        if self.progress.is_installed() {
            Some(progress as u32)
        } else {
            None
        }
    }

    /// Whether the new-segment callback needs the new segments fetched: only
    /// when a handler is installed.
    pub fn wants_segments(&self) -> (r: bool)
        ensures
            r == self@.new_segment.is_some(),
    {
        self.new_segment.is_installed()
    }

    /// The new-segment callback: records the session and, if a handler is
    /// installed, turns the newly finalized segments into the events handed
    /// to it, in ascending order; without a handler nothing is forwarded.
    pub fn on_new_segment(&mut self, state: WhisperState, fetched: &Vec<RawSegment>) -> (r: Vec<
        Segment,
    >)
        ensures
            final(self)@ == (ContextView { session: Some(state), ..old(self)@ }),
            segment_views(r@) == (if old(self)@.new_segment.is_some() {
                segment_events(raw_views(fetched@))
            } else {
                Seq::<SegmentView>::empty()
            }),
    {
        self.observe_session(state);
        if self.new_segment.is_installed() {
            segments_from_raw(fetched)
        } else {
            let r: Vec<Segment> = Vec::new();
            assert(segment_views(r@) =~= Seq::<SegmentView>::empty());
            r
        }
    }

    /// The abort callback: notifies the installed handler, if any, and never
    /// asks the engine to stop, since the handler runs later on the host and
    /// its answer cannot be awaited here.
    pub fn on_abort(&self) -> (r: AbortReply)
        ensures
            r.notify == self@.abort.is_some(),
            !r.stop,
    {
        AbortReply { notify: self.abort.is_installed(), stop: false }
    }

    /// Retires the four handlers, in the order new segment, encoder begin,
    /// progress, abort, skipping empty slots: the caller drops them in the
    /// order given.
    pub fn into_handlers(self) -> (r: (Option<N>, Option<B>, Option<P>, Option<A>))
        ensures
            r.0 == self@.new_segment,
            r.1 == self@.encoder_begin,
            r.2 == self@.progress,
            r.3 == self@.abort,
    {
        let SessionContext { encoder_begin, progress, new_segment, abort, session: _ } = self;
        let n = new_segment.into_handler();
        let b = encoder_begin.into_handler();
        let p = progress.into_handler();
        let a = abort.into_handler();
        (n, b, p, a)
    }
}

} // verus!
