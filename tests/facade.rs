use whisper::{assemble_transcript, RawSegment, SessionContext, Whisper, WhisperError, WhisperState};

fn raw(t0: i64, t1: i64, text: Option<&[u8]>) -> RawSegment {
    RawSegment { t0, t1, text: text.map(|t| t.to_vec()) }
}

#[test]
fn null_model_handle_is_an_init_error() {
    assert!(matches!(Whisper::new(0), Err(WhisperError::InitFailed)));
}

#[test]
fn valid_model_handle_starts_idle() {
    let w = Whisper::new(0x5000).unwrap();
    assert_eq!(w.handle(), 0x5000);
    assert!(!w.is_running());
    assert_eq!(w.get_state(None), None);
    assert_eq!(w.release(), 0x5000);
}

#[test]
fn run_concatenates_segments_without_separators() {
    let mut w = Whisper::new(1).unwrap();
    w.begin_full();
    assert!(w.is_running());
    let table = vec![
        raw(0, 100, Some(b" And so")),
        raw(100, 200, Some(&[0xff])),
        raw(200, 300, Some(b" my fellow Americans")),
    ];
    let r = w.finish_full(None, 0, &table);
    assert_eq!(r, Ok(" And so my fellow Americans".to_string()));
    assert!(!w.is_running());
}

#[test]
fn run_failure_reports_the_status() {
    let mut w = Whisper::new(1).unwrap();
    w.begin_full();
    let table = vec![raw(0, 100, Some(b"partial"))];
    assert_eq!(w.finish_full(None, -3, &table), Err(WhisperError::RunFailed(-3)));
    assert!(!w.is_running());
}

#[test]
fn transcript_of_no_segments_is_empty() {
    assert_eq!(assemble_transcript(&Vec::new()), "");
}

#[test]
fn transcript_equals_concatenated_event_texts() {
    let table = vec![
        raw(0, 100, Some(b"One.")),
        raw(100, 200, None),
        raw(200, 300, Some(b"Two.")),
        raw(300, 400, Some(b"Three.")),
    ];
    let mut ctx: SessionContext<u8, u8, u8, u8> = SessionContext::new();
    ctx.set_on_new_segment(0);
    let state = WhisperState::from_addr(77);
    let mut delivered = String::new();
    let mut shown: i32 = 0;
    for total in [1i32, 3, 4] {
        let (lo, hi) = whisper::new_segment_range(total, total - shown);
        let fetched: Vec<RawSegment> = (lo..hi)
            .map(|i| {
                let s = &table[i as usize];
                RawSegment { t0: s.t0, t1: s.t1, text: s.text.clone() }
            })
            .collect();
        for e in ctx.on_new_segment(state, &fetched) {
            delivered.push_str(&e.text);
        }
        shown = total;
    }
    let mut w = Whisper::new(1).unwrap();
    w.begin_full();
    let r = w.finish_full(ctx.current_session(), 0, &table).unwrap();
    assert_eq!(r, delivered);
    assert_eq!(r, "One.Two.Three.");
}

#[test]
fn session_handle_survives_the_call() {
    let mut w = Whisper::new(1).unwrap();
    assert_eq!(w.get_state(None), None);
    let mut ctx: SessionContext<u8, u8, u8, u8> = SessionContext::new();
    w.begin_full();
    assert_eq!(w.get_state(ctx.current_session()), None);
    let first = WhisperState::from_addr(0xa0);
    ctx.on_progress(first, 10);
    assert_eq!(w.get_state(ctx.current_session()), Some(first));
    w.finish_full(ctx.current_session(), 0, &Vec::new()).unwrap();
    assert_eq!(w.get_state(None), Some(first));

    let mut later: SessionContext<u8, u8, u8, u8> = SessionContext::new();
    w.begin_full();
    assert_eq!(w.get_state(later.current_session()), Some(first));
    let second = WhisperState::from_addr(0xb0);
    later.on_encoder_begin(second);
    assert_eq!(w.get_state(later.current_session()), Some(second));
    w.finish_full(later.current_session(), 0, &Vec::new()).unwrap();
    assert_eq!(w.get_state(None), Some(second));
}

#[test]
fn call_observing_nothing_keeps_previous_session() {
    let mut w = Whisper::new(1).unwrap();
    let first = WhisperState::from_addr(0xa0);
    w.begin_full();
    w.finish_full(Some(first), 0, &Vec::new()).unwrap();
    w.begin_full();
    let _ = w.finish_full(None, 1, &Vec::new());
    assert_eq!(w.get_state(None), Some(first));
}
