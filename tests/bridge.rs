use whisper::slot::Slot;
use whisper::{new_segment_range, segments_from_raw, RawSegment, SessionContext, WhisperState};

fn raw(t0: i64, t1: i64, text: Option<&[u8]>) -> RawSegment {
    RawSegment { t0, t1, text: text.map(|t| t.to_vec()) }
}

type Ctx = SessionContext<u32, u32, u32, u32>;

#[test]
fn new_context_is_empty() {
    let ctx: Ctx = SessionContext::new();
    assert!(ctx.get_on_encoder_begin().is_none());
    assert!(ctx.get_on_progress().is_none());
    assert!(ctx.get_on_new_segment().is_none());
    assert!(ctx.get_on_abort().is_none());
    assert_eq!(ctx.current_session(), None);
}

#[test]
fn install_replaces_and_returns_previous() {
    let mut ctx: Ctx = SessionContext::new();
    assert_eq!(ctx.set_on_progress(1), None);
    assert_eq!(ctx.set_on_progress(2), Some(1));
    assert_eq!(ctx.get_on_progress(), Some(&2));
    assert!(ctx.get_on_abort().is_none());
    assert_eq!(ctx.set_on_encoder_begin(7), None);
    assert_eq!(ctx.set_on_new_segment(8), None);
    assert_eq!(ctx.set_on_abort(9), None);
    assert_eq!(ctx.get_on_encoder_begin(), Some(&7));
    assert_eq!(ctx.get_on_new_segment(), Some(&8));
    assert_eq!(ctx.get_on_abort(), Some(&9));
}

#[test]
fn replaced_handler_gets_no_later_event() {
    let mut ctx: Ctx = SessionContext::new();
    ctx.set_on_progress(1);
    ctx.set_on_progress(2);
    let state = WhisperState::from_addr(0x1000);
    for p in 0..10 {
        assert_eq!(ctx.on_progress(state, p), Some(p as u32));
        assert_eq!(ctx.get_on_progress(), Some(&2));
    }
}

#[test]
fn interleaved_installs_and_deliveries_reach_current_handler() {
    let mut slot: Slot<u32> = Slot::new();
    let mut current: Option<u32> = None;
    for round in 0..50u32 {
        if round % 3 == 0 {
            assert_eq!(slot.install(round), current);
            current = Some(round);
        }
        if round % 7 == 0 {
            assert_eq!(slot.remove(), current);
            current = None;
        }
        assert_eq!(slot.load().copied(), current);
        assert_eq!(slot.is_installed(), current.is_some());
    }
}

#[test]
fn encoder_begin_records_session_and_proceeds() {
    let mut ctx: Ctx = SessionContext::new();
    let state = WhisperState::from_addr(42);
    let r = ctx.on_encoder_begin(state);
    assert!(r.proceed);
    assert_eq!(r.deliver, None);
    assert_eq!(ctx.current_session(), Some(state));
    ctx.set_on_encoder_begin(1);
    let other = WhisperState::from_addr(43);
    let r = ctx.on_encoder_begin(other);
    assert!(r.proceed);
    assert_eq!(r.deliver, Some(other));
    assert_eq!(ctx.current_session().map(|s| s.addr()), Some(43));
}

#[test]
fn progress_without_handler_still_records_session() {
    let mut ctx: Ctx = SessionContext::new();
    let state = WhisperState::from_addr(5);
    assert_eq!(ctx.on_progress(state, 50), None);
    assert_eq!(ctx.current_session(), Some(state));
}

#[test]
fn progress_is_forwarded_as_unsigned() {
    let mut ctx: Ctx = SessionContext::new();
    ctx.set_on_progress(3);
    let state = WhisperState::from_addr(5);
    assert_eq!(ctx.on_progress(state, 100), Some(100));
    assert_eq!(ctx.on_progress(state, -1), Some(u32::MAX));
}

#[test]
fn abort_never_stops_the_engine() {
    let mut ctx: Ctx = SessionContext::new();
    let r = ctx.on_abort();
    assert!(!r.notify);
    assert!(!r.stop);
    ctx.set_on_abort(4);
    let r = ctx.on_abort();
    assert!(r.notify);
    assert!(!r.stop);
    assert_eq!(ctx.current_session(), None);
}

#[test]
fn new_segment_events_are_trimmed_and_skip_bad_text() {
    let mut ctx: Ctx = SessionContext::new();
    ctx.set_on_new_segment(1);
    let fetched = vec![
        raw(0, 150, Some(b" Hello there.")),
        raw(150, 300, None),
        raw(300, 420, Some(&[0x20, 0xff, 0xfe])),
        raw(420, 600, Some(b"  General Kenobi!  ")),
    ];
    let state = WhisperState::from_addr(9);
    let events = ctx.on_new_segment(state, &fetched);
    assert_eq!(events.len(), 2);
    assert_eq!(events[0].text, "Hello there.");
    assert_eq!((events[0].start, events[0].end), (0, 150));
    assert_eq!(events[1].text, "General Kenobi!");
    assert_eq!((events[1].start, events[1].end), (420, 600));
    assert_eq!(ctx.current_session(), Some(state));
}

#[test]
fn new_segment_without_handler_forwards_nothing() {
    let mut ctx: Ctx = SessionContext::new();
    assert!(!ctx.wants_segments());
    let fetched = vec![raw(0, 10, Some(b"text"))];
    let state = WhisperState::from_addr(9);
    assert!(ctx.on_new_segment(state, &fetched).is_empty());
    assert_eq!(ctx.current_session(), Some(state));
}

#[test]
fn segment_times_are_forwarded_unconverted() {
    let events = segments_from_raw(&vec![raw(-1, (1i64 << 32) + 5, Some(b"x"))]);
    assert_eq!(events[0].start, u32::MAX);
    assert_eq!(events[0].end, 5);
}

#[test]
fn new_segment_range_covers_the_new_segments() {
    assert_eq!(new_segment_range(5, 2), (3, 5));
    assert_eq!(new_segment_range(5, 0), (5, 5));
    assert_eq!(new_segment_range(4, 4), (0, 4));
}

#[test]
fn handlers_are_retired_in_fixed_order() {
    let mut ctx: Ctx = SessionContext::new();
    ctx.set_on_encoder_begin(1);
    ctx.set_on_new_segment(3);
    ctx.set_on_abort(4);
    assert_eq!(ctx.into_handlers(), (Some(3), Some(1), None, Some(4)));
}
