//! The inference facade: owns the native engine handle, gates each blocking
//! call with an Idle/Running state, and assembles the transcript of a call.
use vstd::prelude::*;
use vstd::string::StringExecFns;

use crate::session::{
    raw_views, segment_event, segment_events, segment_text, RawSegment, RawSegmentView,
    SegmentView, WhisperState,
};
use crate::text::{decode_text, trimmed};

verus! {

/// Failures of the facade.
#[derive(Clone, Copy, Debug, PartialEq, Eq, Structural)]
pub enum WhisperError {
    /// The native engine could not load the model data.
    InitFailed,
    /// The blocking call reported this non-zero status.
    RunFailed(i32),
}

/// The transcript of a call: the text of every segment that has valid text,
/// in ascending segment order, with no separators.
pub open spec fn transcript(rs: Seq<RawSegmentView>) -> Seq<char>
    decreases rs.len(),
{
    if rs.len() == 0 {
        Seq::empty()
    } else {
        transcript(rs.drop_last()) + match segment_text(rs.last()) {
            Some(t) => t,
            None => Seq::empty(),
        }
    }
}

/// The engine facade. `handle` is the address of the native engine, never
/// zero; `running` holds while a blocking call is in flight; `session` is the
/// native session handle observed by the last call that observed one.
pub struct Whisper {
    handle: usize,
    running: bool,
    session: Option<WhisperState>,
}

/// What a facade holds.
pub struct WhisperView {
    pub handle: usize,
    pub running: bool,
    pub session: Option<WhisperState>,
}

impl View for Whisper {
    type V = WhisperView;

    closed spec fn view(&self) -> WhisperView {
        WhisperView { handle: self.handle, running: self.running, session: self.session }
    }
}

/// The session handle that a query resolves to: the live one observed by the
/// running call, or else the one the last call left.
pub open spec fn resolved_session(w: WhisperView, live: Option<WhisperState>) -> Option<
    WhisperState,
> {
    if w.running && live.is_some() {
        live
    } else {
        w.session
    }
}

/// The facade once a blocking call has begun.
pub open spec fn after_begin(w: WhisperView) -> WhisperView {
    WhisperView { running: true, ..w }
}

/// The facade once the blocking call has returned, having observed `observed`.
pub open spec fn after_finish(w: WhisperView, observed: Option<WhisperState>) -> WhisperView {
    WhisperView {
        running: false,
        session: if observed.is_some() {
            observed
        } else {
            w.session
        },
        ..w
    }
}

impl Whisper {
    /// The handle is never zero.
    pub closed spec fn wf(&self) -> bool {
        self.handle != 0
    }

    /// Adopts the engine handle that model initialization returned; zero, the
    /// native null, means the model data could not be loaded.
    pub fn new(raw_handle: usize) -> (r: Result<Whisper, WhisperError>)
        ensures
            r.is_ok() <==> raw_handle != 0,
            raw_handle == 0 ==> r == Err::<Whisper, WhisperError>(WhisperError::InitFailed),
            r.is_ok() ==> r.unwrap().wf() && r.unwrap()@ == (WhisperView {
                handle: raw_handle,
                running: false,
                session: None,
            }),
    {
        if raw_handle == 0 {
            Err(WhisperError::InitFailed)
        } else {
            Ok(Whisper { handle: raw_handle, running: false, session: None })
        }
    }

    /// The address of the native engine.
    pub fn handle(&self) -> (r: usize)
        requires
            self.wf(),
        ensures
            r == self@.handle,
            r != 0,
    {
        self.handle
    }

    /// Whether a blocking call is in flight.
    pub fn is_running(&self) -> (r: bool)
        ensures
            r == self@.running,
    {
        self.running
    }

    /// Enters the Running state before the blocking call; a second call while
    /// one runs is the caller's error.
    pub fn begin_full(&mut self)
        requires
            old(self).wf(),
            !old(self)@.running,
        ensures
            final(self).wf(),
            final(self)@ == after_begin(old(self)@),
    {
        self.running = true;
    }

    /// Leaves the Running state after the blocking call returned: keeps the
    /// session the call observed (if it observed one), then reports the
    /// failure status, or assembles the transcript from the segments.
    pub fn finish_full(
        &mut self,
        observed: Option<WhisperState>,
        status: i32,
        segments: &Vec<RawSegment>,
    ) -> (r: Result<String, WhisperError>)
        requires
            old(self).wf(),
            old(self)@.running,
        ensures
            final(self).wf(),
            final(self)@ == after_finish(old(self)@, observed),
            status != 0 ==> r == Err::<String, WhisperError>(WhisperError::RunFailed(status)),
            status == 0 ==> r.is_ok() && r.unwrap()@ == transcript(raw_views(segments@)),
    {
        self.running = false;
        if observed.is_some() {
            self.session = observed;
        }
        if status != 0 {
            return Err(WhisperError::RunFailed(status));
        }
        Ok(assemble_transcript(segments))
    }

    /// The native session handle a query resolves to; `live` is the one the
    /// running call's context observed so far.
    pub fn get_state(&self, live: Option<WhisperState>) -> (r: Option<WhisperState>)
        ensures
            r == resolved_session(self@, live),
    {
        if self.running && live.is_some() {
            live
        } else {
            self.session
        }
    }

    /// Gives up the engine handle so that it is freed, exactly once; only
    /// once no call is running.
    pub fn release(self) -> (r: usize)
        requires
            self.wf(),
            !self@.running,
        ensures
            r == self@.handle,
            r != 0,
    {
        self.handle
    }
}

/// Concatenates the text of every segment whose text is valid UTF-8, in
/// ascending order; the others are skipped.
pub fn assemble_transcript(segments: &Vec<RawSegment>) -> (r: String)
    ensures
        r@ == transcript(raw_views(segments@)),
{
    let mut out = String::new();
    let mut i: usize = 0;
    while i < segments.len()
        invariant
            i <= segments@.len(),
            out@ == transcript(raw_views(segments@.subrange(0, i as int))),
        decreases segments@.len() - i,
    {
        proof {
            let pre = raw_views(segments@.subrange(0, i as int));
            let post = raw_views(segments@.subrange(0, i + 1));
            assert(post.drop_last() =~= pre);
            assert(post.last() == segments@[i as int]@);
        }
        match &segments[i].text {
            Some(bytes) => {
                let copy = bytes.clone();
                assert(copy@ == bytes@);
                match decode_text(copy) {
                    Some(t) => {
                        out.append(t.as_str());
                    },
                    None => {
                        assert(out@ =~= out@ + Seq::<char>::empty());
                    },
                }
            },
            None => {
                assert(out@ =~= out@ + Seq::<char>::empty());
            },
        }
        i = i + 1;
    }
    assert(segments@.subrange(0, i as int) =~= segments@);
    out
}

/// The texts of a sequence of events, concatenated.
pub open spec fn event_texts(es: Seq<SegmentView>) -> Seq<char>
    decreases es.len(),
{
    if es.len() == 0 {
        Seq::empty()
    } else {
        event_texts(es.drop_last()) + es.last().text
    }
}

/// The texts of the events delivered by successive new-segment callbacks,
/// concatenated; the callback number `k` reports the segments from
/// `bounds[k]` up to `bounds[k + 1]`.
pub open spec fn delivered_texts(rs: Seq<RawSegmentView>, bounds: Seq<int>) -> Seq<char>
    decreases bounds.len(),
{
    if bounds.len() < 2 {
        Seq::empty()
    } else {
        delivered_texts(rs, bounds.drop_last()) + event_texts(
            segment_events(rs.subrange(bounds[bounds.len() - 2], bounds.last())),
        )
    }
}

/// Whether every segment text of `rs` is already free of surrounding white
/// space, so that the events carry it unchanged.
pub open spec fn texts_trimmed(rs: Seq<RawSegmentView>) -> bool {
    forall|i: int|
        0 <= i < rs.len() && (#[trigger] segment_text(rs[i])).is_some() ==> trimmed(
            segment_text(rs[i]).unwrap(),
        ) == segment_text(rs[i]).unwrap()
}

proof fn lemma_event_texts_append(a: Seq<SegmentView>, b: Seq<SegmentView>)
    ensures
        event_texts(a + b) == event_texts(a) + event_texts(b),
    decreases b.len(),
{
    if b.len() == 0 {
        assert(a + b =~= a);
        assert(event_texts(a) + event_texts(b) =~= event_texts(a));
    } else {
        lemma_event_texts_append(a, b.drop_last());
        assert((a + b).drop_last() =~= a + b.drop_last());
        assert(event_texts(a) + event_texts(b) =~= event_texts(a) + event_texts(b.drop_last())
            + b.last().text);
    }
}

proof fn lemma_segment_events_append(a: Seq<RawSegmentView>, b: Seq<RawSegmentView>)
    ensures
        segment_events(a + b) == segment_events(a) + segment_events(b),
    decreases b.len(),
{
    if b.len() == 0 {
        assert(a + b =~= a);
        assert(segment_events(a) + segment_events(b) =~= segment_events(a));
    } else {
        lemma_segment_events_append(a, b.drop_last());
        assert((a + b).drop_last() =~= a + b.drop_last());
        match segment_event(b.last()) {
            Some(e) => {
                assert(segment_events(a) + segment_events(b) =~= (segment_events(a)
                    + segment_events(b.drop_last())).push(e));
            },
            None => {},
        }
    }
}

proof fn lemma_texts_of_events(rs: Seq<RawSegmentView>)
    requires
        texts_trimmed(rs),
    ensures
        event_texts(segment_events(rs)) == transcript(rs),
    decreases rs.len(),
{
    if rs.len() > 0 {
        let front = rs.drop_last();
        assert forall|i: int|
            0 <= i < front.len() && (#[trigger] segment_text(front[i])).is_some() implies trimmed(
            segment_text(front[i]).unwrap(),
        ) == segment_text(front[i]).unwrap() by {
            assert(front[i] == rs[i]);
        }
        lemma_texts_of_events(front);
        let last = rs.last();
        assert(last == rs[rs.len() - 1]);
        match segment_event(last) {
            Some(e) => {
                let es = segment_events(front).push(e);
                assert(es.drop_last() =~= segment_events(front));
            },
            None => {
                assert(transcript(front) + Seq::<char>::empty() =~= transcript(front));
            },
        }
    }
}

proof fn lemma_delivered_texts(rs: Seq<RawSegmentView>, bounds: Seq<int>)
    requires
        bounds.len() >= 1,
        forall|k: int| 0 <= k < bounds.len() ==> 0 <= #[trigger] bounds[k] <= rs.len(),
        forall|k: int| 0 < k < bounds.len() ==> bounds[k - 1] <= #[trigger] bounds[k],
    ensures
        delivered_texts(rs, bounds) == event_texts(
            segment_events(rs.subrange(bounds[0], bounds.last())),
        ),
    decreases bounds.len(),
{
    if bounds.len() == 1 {
        assert(rs.subrange(bounds[0], bounds.last()) =~= Seq::<RawSegmentView>::empty());
    } else {
        let front = bounds.drop_last();
        assert forall|k: int| 0 <= k < front.len() implies 0 <= #[trigger] front[k] <= rs.len() by {
            assert(front[k] == bounds[k]);
        }
        assert forall|k: int| 0 < k < front.len() implies front[k - 1] <= #[trigger] front[k] by {
            assert(front[k] == bounds[k]);
            assert(front[k - 1] == bounds[k - 1]);
        }
        lemma_delivered_texts(rs, front);
        let lo = bounds[0];
        let mid = bounds[bounds.len() - 2];
        let hi = bounds.last();
        assert(lo <= mid) by {
            lemma_bounds_sorted(bounds, 0, bounds.len() - 2);
        }
        assert(rs.subrange(lo, hi) =~= rs.subrange(lo, mid) + rs.subrange(mid, hi));
        lemma_segment_events_append(rs.subrange(lo, mid), rs.subrange(mid, hi));
        lemma_event_texts_append(
            segment_events(rs.subrange(lo, mid)),
            segment_events(rs.subrange(mid, hi)),
        );
    }
}

proof fn lemma_bounds_sorted(bounds: Seq<int>, a: int, b: int)
    requires
        0 <= a <= b < bounds.len(),
        forall|k: int| 0 < k < bounds.len() ==> bounds[k - 1] <= #[trigger] bounds[k],
    ensures
        bounds[a] <= bounds[b],
    decreases b - a,
{
    if a < b {
        lemma_bounds_sorted(bounds, a, b - 1);
        assert(bounds[b - 1] <= bounds[b]);
    }
}

/// A successful call returns the concatenation, with no separators, of the
/// texts of every new-segment event delivered during that call, in order:
/// the callbacks report consecutive runs of the final segment table, from
/// the first segment to the last, and each segment text is already free of
/// surrounding white space (events carry trimmed text, the transcript the
/// text as the engine gave it).
pub proof fn law_transcript_matches_events(rs: Seq<RawSegmentView>, bounds: Seq<int>)
    requires
        bounds.len() >= 1,
        bounds[0] == 0,
        bounds.last() == rs.len(),
        forall|k: int| 0 < k < bounds.len() ==> bounds[k - 1] <= #[trigger] bounds[k],
        texts_trimmed(rs),
    ensures
        delivered_texts(rs, bounds) == transcript(rs),
{
    assert forall|k: int| 0 <= k < bounds.len() implies 0 <= #[trigger] bounds[k] <= rs.len() by {
        lemma_bounds_sorted(bounds, 0, k);
        lemma_bounds_sorted(bounds, k, bounds.len() - 1);
    }
    lemma_delivered_texts(rs, bounds);
    assert(rs.subrange(0, rs.len() as int) =~= rs);
    lemma_texts_of_events(rs);
}

/// The session query: no session before any call; after a call that observed
/// a handle, that handle, which stays while a later call has observed none
/// and after such a call returns.
pub proof fn law_session_persists(
    handle: usize,
    w: WhisperView,
    h: WhisperState,
    live: Option<WhisperState>,
)
    ensures
        resolved_session(WhisperView { handle, running: false, session: None }, live).is_none(),
        resolved_session(after_finish(after_begin(w), Some(h)), live) == Some(h),
        resolved_session(after_begin(after_finish(after_begin(w), Some(h))), None) == Some(h),
        resolved_session(
            after_finish(after_begin(after_finish(after_begin(w), Some(h))), None),
            live,
        ) == Some(h),
{
}

} // verus!
