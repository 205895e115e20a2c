use mediadecode::timing::stream_timestamp;
use mediatime::Timebase;

#[test]
fn ticks_become_timestamps_in_the_stream_time_base() {
    let t = stream_timestamp(Some(180_000), Timebase::MPEG_90K).unwrap();
    assert_eq!(t.pts(), 180_000);
    assert_eq!(t.timebase(), Timebase::MPEG_90K);
    assert!(stream_timestamp(None, Timebase::MILLIS).is_none());
}
