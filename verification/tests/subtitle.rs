use mediadecode::convert::{ConvertError, AV_NOPTS_VALUE};
use mediadecode::extras::SubtitleFrameExtra;
use mediadecode::subtitle::{
    av_subtitle_to_subtitle_frame, bitmap_data_len, subtitle_duration, subtitle_payload, DecodeOutcome, RawSubtitle,
    RawSubtitleRect, SubtitleDecodeError, SubtitleFrame, SubtitleFrameQueue, SubtitlePayload,
    SUBTITLE_ASS, SUBTITLE_BITMAP, SUBTITLE_TEXT,
};
use mediatime::Timebase;

fn rect(kind: i32) -> RawSubtitleRect {
    RawSubtitleRect {
        kind,
        x: 0,
        y: 0,
        w: 0,
        h: 0,
        linesize: 0,
        bitmap: None,
        palette: None,
        text: None,
        ass: None,
    }
}

fn text_rect(t: &str) -> Option<RawSubtitleRect> {
    let mut r = rect(SUBTITLE_TEXT);
    r.text = Some(t.as_bytes().to_vec());
    Some(r)
}

fn ass_rect(t: &str) -> Option<RawSubtitleRect> {
    let mut r = rect(SUBTITLE_ASS);
    r.ass = Some(t.as_bytes().to_vec());
    Some(r)
}

fn bitmap_rect(x: i32, w: i32, h: i32, linesize: i32, palette: bool) -> Option<RawSubtitleRect> {
    let mut r = rect(SUBTITLE_BITMAP);
    r.x = x;
    r.y = -7;
    r.w = w;
    r.h = h;
    r.linesize = linesize;
    r.bitmap = Some((0..200u8).collect());
    r.palette = if palette { Some(vec![9u8; 1100]) } else { None };
    Some(r)
}

fn raw(rects: Vec<Option<RawSubtitleRect>>) -> RawSubtitle {
    RawSubtitle { rects, pts: 1000, start_display_time: 0, end_display_time: 2500 }
}

fn empty_frame() -> SubtitleFrame {
    SubtitleFrame {
        payload: SubtitlePayload::Text { text: Vec::new(), language: None },
        pts: None,
        duration: None,
        extra: SubtitleFrameExtra { start_display_time: 0, end_display_time: 0 },
    }
}

#[test]
fn text_rects_are_joined_with_newlines() {
    let p = subtitle_payload(&vec![text_rect("Hello"), None, ass_rect("Dialogue: x"), text_rect("bye")]);
    assert_eq!(p, SubtitlePayload::Text { text: b"Hello\nDialogue: x\nbye".to_vec(), language: None });
}

#[test]
fn empty_leading_text_adds_no_newline() {
    let p = subtitle_payload(&vec![text_rect(""), text_rect("a")]);
    assert_eq!(p, SubtitlePayload::Text { text: b"a".to_vec(), language: None });
}

#[test]
fn text_wins_over_bitmaps() {
    let p = subtitle_payload(&vec![bitmap_rect(1, 2, 2, 4, true), text_rect("t")]);
    assert_eq!(p, SubtitlePayload::Text { text: b"t".to_vec(), language: None });
}

#[test]
fn null_text_pointer_contributes_nothing() {
    let p = subtitle_payload(&vec![Some(rect(SUBTITLE_TEXT)), Some(rect(SUBTITLE_ASS)), Some(rect(0))]);
    assert_eq!(p, SubtitlePayload::Text { text: Vec::new(), language: None });
}

#[test]
fn empty_text_still_makes_a_text_payload() {
    let p = subtitle_payload(&vec![text_rect(""), bitmap_rect(1, 2, 2, 4, true)]);
    assert_eq!(p, SubtitlePayload::Text { text: Vec::new(), language: None });
    let p = subtitle_payload(&vec![bitmap_rect(1, 2, 2, 4, true), ass_rect("")]);
    assert_eq!(p, SubtitlePayload::Text { text: Vec::new(), language: None });
}

#[test]
fn bitmap_regions_copy_pixels_and_palette() {
    let p = subtitle_payload(&vec![
        bitmap_rect(10, 3, 2, 4, true),
        bitmap_rect(-1, 3, 0, 4, true),
        bitmap_rect(5, 1, 1, 0, false),
        bitmap_rect(20, 2, 3, 2, false),
    ]);
    match p {
        SubtitlePayload::Bitmap { regions } => {
            assert_eq!(regions.len(), 2);
            let a = &regions[0];
            assert_eq!((a.x, a.y, a.width, a.height, a.stride), (10, 0, 3, 2, 4));
            assert_eq!(a.data, (0..8u8).collect::<Vec<u8>>());
            assert_eq!(a.palette, vec![9u8; 1024]);
            let b = &regions[1];
            assert_eq!((b.x, b.width, b.height, b.stride), (20, 2, 3, 2));
            assert_eq!(b.data.len(), 6);
            assert!(b.palette.is_empty());
        }
        other => panic!("expected bitmap payload, got {:?}", other),
    }
}

#[test]
fn bitmap_length_saturates() {
    assert_eq!(bitmap_data_len(4, 2), 8);
    assert_eq!(bitmap_data_len(0, 9), 0);
    assert_eq!(bitmap_data_len(u32::MAX, u32::MAX) as u64, (u32::MAX as u64 * u32::MAX as u64).min(usize::MAX as u64));
}

#[test]
fn subtitle_frame_timestamps() {
    let f = av_subtitle_to_subtitle_frame(&raw(vec![text_rect("x")]), Timebase::MPEG_90K);
    let pts = f.pts.unwrap();
    assert_eq!((pts.pts(), pts.timebase()), (1000, Timebase::MPEG_90K));
    let d = f.duration.unwrap();
    assert_eq!((d.pts(), d.timebase()), (225_000, Timebase::MPEG_90K));
    assert_eq!(f.extra, SubtitleFrameExtra { start_display_time: 0, end_display_time: 2500 });
    let mut r = raw(Vec::new());
    r.pts = AV_NOPTS_VALUE;
    let f = av_subtitle_to_subtitle_frame(&r, Timebase::MPEG_90K);
    assert!(f.pts.is_none());
    assert_eq!(f.payload, SubtitlePayload::Text { text: Vec::new(), language: None });
}

#[test]
fn subtitle_duration_is_the_display_window_rescaled() {
    let d = subtitle_duration(500, 2500, Timebase::MILLIS).unwrap();
    assert_eq!((d.pts(), d.timebase()), (2000, Timebase::MILLIS));
    let d = subtitle_duration(1000, 1500, Timebase::MPEG_90K).unwrap();
    assert_eq!(d.pts(), 45_000);
    let d = subtitle_duration(7, 7, Timebase::MPEG_90K).unwrap();
    assert_eq!(d.pts(), 0);
    assert!(subtitle_duration(2500, 500, Timebase::MPEG_90K).is_none());
}

#[test]
fn queue_hands_out_the_decoded_frame_once() {
    let mut q = SubtitleFrameQueue::new(Timebase::MPEG_90K);
    let mut dst = empty_frame();
    assert_eq!(q.receive_frame(&mut dst), Err(SubtitleDecodeError::NoFrameReady));
    assert_eq!(q.send_packet(DecodeOutcome::Subtitle(raw(vec![text_rect("one")]))), Ok(()));
    assert_eq!(q.receive_frame(&mut dst), Ok(()));
    assert_eq!(dst.payload, SubtitlePayload::Text { text: b"one".to_vec(), language: None });
    assert_eq!(q.receive_frame(&mut dst), Err(SubtitleDecodeError::NoFrameReady));
    assert_eq!(dst.payload, SubtitlePayload::Text { text: b"one".to_vec(), language: None });
}

#[test]
fn queue_errors_keep_pending_frame() {
    let mut q = SubtitleFrameQueue::new(Timebase::MPEG_90K);
    let mut dst = empty_frame();
    assert_eq!(q.send_packet(DecodeOutcome::Subtitle(raw(vec![text_rect("kept")]))), Ok(()));
    assert_eq!(q.send_packet(DecodeOutcome::Failed(-22)), Err(SubtitleDecodeError::Decode(-22)));
    assert_eq!(
        q.send_packet(DecodeOutcome::Unreadable(ConvertError::NullFrame)),
        Err(SubtitleDecodeError::Convert(ConvertError::NullFrame))
    );
    assert_eq!(q.send_packet(DecodeOutcome::NoSubtitle), Ok(()));
    assert_eq!(q.send_eof(), Ok(()));
    assert_eq!(q.receive_frame(&mut dst), Ok(()));
    assert_eq!(dst.payload, SubtitlePayload::Text { text: b"kept".to_vec(), language: None });
}

#[test]
fn queue_newer_replaces_and_flush_empties() {
    let mut q = SubtitleFrameQueue::new(Timebase::MPEG_90K);
    let mut dst = empty_frame();
    assert_eq!(q.send_packet(DecodeOutcome::Subtitle(raw(vec![text_rect("old")]))), Ok(()));
    assert_eq!(q.send_packet(DecodeOutcome::Subtitle(raw(vec![text_rect("new")]))), Ok(()));
    assert_eq!(q.receive_frame(&mut dst), Ok(()));
    assert_eq!(dst.payload, SubtitlePayload::Text { text: b"new".to_vec(), language: None });
    assert_eq!(q.send_packet(DecodeOutcome::Subtitle(raw(vec![text_rect("gone")]))), Ok(()));
    assert_eq!(q.flush(), Ok(()));
    assert_eq!(q.receive_frame(&mut dst), Err(SubtitleDecodeError::NoFrameReady));
}
