use mediadecode::channel_layout::{
    AudioChannelOrderKind, ChannelLayoutKind, RawChannelLayout, AV_CHANNEL_ORDER_NATIVE,
};
use mediadecode::color::{ChromaLocation, ColorMatrix, ColorPrimaries, ColorRange, ColorTransfer};
use mediadecode::convert::{
    av_frame_to_audio_frame, av_frame_to_video_frame, build_visible_rect, find_backing_buffer,
    frame_matrix, map_chroma_loc, map_matrix, map_picture_type, map_primaries, map_range, map_transfer,
    BufferRef, ConvertError, PixelLayout, PlaneView, RawFrame, RawSideData, AV_NOPTS_VALUE,
};
use mediadecode::extras::PictureType;
use mediatime::Timebase;

fn blank_frame() -> RawFrame {
    RawFrame {
        format: 23,
        width: 4,
        height: 2,
        sample_rate: 0,
        nb_samples: 0,
        linesize: [0; 8],
        data: [0; 8],
        buf: [None; 8],
        pts: AV_NOPTS_VALUE,
        duration: 0,
        best_effort_timestamp: AV_NOPTS_VALUE,
        crop_left: 0,
        crop_top: 0,
        crop_right: 0,
        crop_bottom: 0,
        color_primaries: 2,
        color_trc: 2,
        colorspace: 2,
        color_range: 0,
        chroma_location: 0,
        sample_aspect_ratio: (0, 1),
        pict_type: 0,
        flags: 0,
        side_data: Vec::new(),
    }
}

/// An NV12-shaped 4x2 frame: a 4-byte-stride luma plane of 2 lines and a
/// chroma plane of 1 line, both in one buffer at address 0x1000.
fn nv12_frame() -> (RawFrame, PixelLayout) {
    let mut f = blank_frame();
    f.linesize[0] = 4;
    f.linesize[1] = 4;
    f.data[0] = 0x1000;
    f.data[1] = 0x1008;
    f.buf[0] = Some(BufferRef { start: 0x1000, size: 12 });
    let layout = PixelLayout { supported: true, plane_heights: [Some(2), Some(1), None, None] };
    (f, layout)
}

#[test]
fn color_codes_map_to_h273_values() {
    assert_eq!(map_primaries(1), ColorPrimaries::Bt709);
    assert_eq!(map_primaries(9), ColorPrimaries::Bt2020);
    assert_eq!(map_primaries(22), ColorPrimaries::Ebu3213E);
    assert_eq!(map_primaries(3), ColorPrimaries::Unspecified);
    assert_eq!(map_transfer(16), ColorTransfer::SmpteSt2084Pq);
    assert_eq!(map_transfer(18), ColorTransfer::AribStdB67Hlg);
    assert_eq!(map_transfer(4), ColorTransfer::Bt470M);
    assert_eq!(map_transfer(99), ColorTransfer::Unspecified);
    assert_eq!(map_matrix(5), ColorMatrix::Bt601);
    assert_eq!(map_matrix(6), ColorMatrix::Bt601);
    assert_eq!(map_matrix(9), ColorMatrix::Bt2020Ncl);
    assert_eq!(map_matrix(2), ColorMatrix::Bt709);
    assert_eq!(map_matrix(0), ColorMatrix::Bt709);
    assert_eq!(map_range(2), ColorRange::Full);
    assert_eq!(map_range(1), ColorRange::Limited);
    assert_eq!(map_range(0), ColorRange::Unspecified);
    assert_eq!(map_chroma_loc(1), ChromaLocation::Left);
    assert_eq!(map_chroma_loc(6), ChromaLocation::Bottom);
    assert_eq!(map_chroma_loc(7), ChromaLocation::Unspecified);
    assert_eq!(map_picture_type(1), PictureType::I);
    assert_eq!(map_picture_type(7), PictureType::Bi);
    assert_eq!(map_picture_type(0), PictureType::Unspecified);
}

#[test]
fn visible_rect_from_crop() {
    let f = blank_frame();
    assert_eq!(build_visible_rect(&f, 1920, 1088), None);
    let mut g = blank_frame();
    g.crop_bottom = 8;
    let r = build_visible_rect(&g, 1920, 1088).unwrap();
    assert_eq!((r.x(), r.y(), r.width(), r.height()), (0, 0, 1920, 1080));
    g.crop_left = 2000;
    let r = build_visible_rect(&g, 1920, 1088).unwrap();
    assert_eq!((r.x(), r.y(), r.width(), r.height()), (2000, 0, 0, 1080));
}

#[test]
fn backing_buffer_is_first_that_holds_the_plane() {
    let mut bufs = [None; 8];
    bufs[1] = Some(BufferRef { start: 0, size: 100 });
    bufs[2] = Some(BufferRef { start: 0x100, size: 0x10 });
    bufs[3] = Some(BufferRef { start: 0x100, size: 0x100 });
    assert_eq!(find_backing_buffer(&bufs, 0x104, 0x8), Some(2));
    assert_eq!(find_backing_buffer(&bufs, 0x104, 0x20), Some(3));
    assert_eq!(find_backing_buffer(&bufs, 0x1f0, 0x20), None);
    assert_eq!(find_backing_buffer(&bufs, 0x10, 0x1), None);
    assert_eq!(find_backing_buffer(&bufs, usize::MAX, 2), None);
}

#[test]
fn video_frame_planes_are_views_into_buffers() {
    let (mut f, layout) = nv12_frame();
    f.pts = 90;
    f.duration = 3;
    f.color_primaries = 9;
    f.color_trc = 16;
    f.colorspace = 9;
    f.color_range = 1;
    f.chroma_location = 1;
    f.sample_aspect_ratio = (4, 3);
    f.pict_type = 2;
    f.flags = 2 | 8;
    f.best_effort_timestamp = 91;
    f.side_data = vec![
        Some(RawSideData { kind: 5, data: Some(vec![1, 2, 3]) }),
        None,
        Some(RawSideData { kind: 7, data: None }),
    ];
    let v = av_frame_to_video_frame(&f, &layout, Timebase::MPEG_90K).unwrap();
    assert_eq!((v.width, v.height, v.pixel_format), (4, 2, 23));
    assert_eq!(
        v.planes,
        vec![
            PlaneView { buffer: 0, offset: 0, len: 8, stride: 4 },
            PlaneView { buffer: 0, offset: 8, len: 4, stride: 4 },
        ]
    );
    let pts = v.pts.unwrap();
    assert_eq!((pts.pts(), pts.timebase()), (90, Timebase::MPEG_90K));
    let duration = v.duration.unwrap();
    assert_eq!((duration.pts(), duration.timebase()), (3, Timebase::MPEG_90K));
    assert_eq!(v.color.primaries, ColorPrimaries::Bt2020);
    assert_eq!(v.color.transfer, ColorTransfer::SmpteSt2084Pq);
    assert_eq!(v.color.matrix, ColorMatrix::Bt2020Ncl);
    assert_eq!(v.color.range, ColorRange::Limited);
    assert_eq!(v.color.chroma_location, ChromaLocation::Left);
    assert_eq!(v.visible_rect, None);
    assert_eq!(v.extra.sample_aspect_ratio, Some((4, 3)));
    assert_eq!(v.extra.picture_type, PictureType::P);
    assert!(v.extra.key_frame);
    assert!(v.extra.interlaced);
    assert!(!v.extra.top_field_first);
    assert_eq!(v.extra.best_effort_timestamp, Some(91));
    assert_eq!(v.extra.side_data.len(), 2);
    assert_eq!(v.extra.side_data[0].kind, 5);
    assert_eq!(v.extra.side_data[0].data, vec![1, 2, 3]);
    assert_eq!(v.extra.side_data[1].kind, 7);
    assert!(v.extra.side_data[1].data.is_empty());
}

#[test]
fn video_frame_without_timestamps_or_proper_sar() {
    let (mut f, layout) = nv12_frame();
    f.sample_aspect_ratio = (1, 1);
    f.width = -5;
    let v = av_frame_to_video_frame(&f, &layout, Timebase::MPEG_90K).unwrap();
    assert!(v.pts.is_none());
    assert!(v.duration.is_none());
    assert_eq!(v.width, 0);
    assert_eq!(v.extra.sample_aspect_ratio, None);
    assert_eq!(v.extra.best_effort_timestamp, None);
    assert_eq!(v.color.matrix, ColorMatrix::Bt601);
}

#[test]
fn unspecified_matrix_follows_frame_height() {
    assert_eq!(frame_matrix(2, 480), ColorMatrix::Bt601);
    assert_eq!(frame_matrix(2, 719), ColorMatrix::Bt601);
    assert_eq!(frame_matrix(2, 720), ColorMatrix::Bt709);
    assert_eq!(frame_matrix(2, 1080), ColorMatrix::Bt709);
    assert_eq!(frame_matrix(9, 480), ColorMatrix::Bt2020Ncl);
    assert_eq!(frame_matrix(5, 1080), ColorMatrix::Bt601);

    let (mut f, mut layout) = nv12_frame();
    f.height = 720;
    layout.plane_heights = [Some(0), Some(0), None, None];
    let v = av_frame_to_video_frame(&f, &layout, Timebase::MPEG_90K).unwrap();
    assert_eq!(v.color.matrix, ColorMatrix::Bt709);
    f.height = 480;
    let v = av_frame_to_video_frame(&f, &layout, Timebase::MPEG_90K).unwrap();
    assert_eq!(v.color.matrix, ColorMatrix::Bt601);
}

#[test]
fn video_frame_errors() {
    let (f, mut layout) = nv12_frame();
    layout.supported = false;
    assert_eq!(av_frame_to_video_frame(&f, &layout, Timebase::MPEG_90K), Err(ConvertError::UnsupportedPixelFormat(23)));

    let (mut f, layout) = nv12_frame();
    f.linesize[1] = -4;
    assert_eq!(av_frame_to_video_frame(&f, &layout, Timebase::MPEG_90K), Err(ConvertError::InvalidPlaneLayout { plane: 1 }));

    let (mut f, layout) = nv12_frame();
    f.data[1] = 0;
    assert_eq!(av_frame_to_video_frame(&f, &layout, Timebase::MPEG_90K), Err(ConvertError::InvalidPlaneLayout { plane: 1 }));

    let (mut f, layout) = nv12_frame();
    f.linesize[2] = 4;
    f.data[2] = 0x100c;
    assert_eq!(av_frame_to_video_frame(&f, &layout, Timebase::MPEG_90K), Err(ConvertError::InvalidPlaneLayout { plane: 2 }));

    let (f, mut layout) = nv12_frame();
    layout.plane_heights[0] = Some(usize::MAX);
    assert_eq!(av_frame_to_video_frame(&f, &layout, Timebase::MPEG_90K), Err(ConvertError::InvalidPlaneLayout { plane: 0 }));

    let (mut f, layout) = nv12_frame();
    f.buf[0] = Some(BufferRef { start: 0x1000, size: 11 });
    assert_eq!(av_frame_to_video_frame(&f, &layout, Timebase::MPEG_90K), Err(ConvertError::BufferAcquireFailed { plane: 1 }));
}

#[test]
fn video_planes_end_at_first_zero_line_size() {
    let (f, layout) = nv12_frame();
    let v = av_frame_to_video_frame(&f, &layout, Timebase::MPEG_90K).unwrap();
    assert_eq!(v.planes.len(), 2);

    let (mut f, mut layout) = nv12_frame();
    f.linesize[1] = 0;
    layout.plane_heights[1] = None;
    let v = av_frame_to_video_frame(&f, &layout, Timebase::MPEG_90K).unwrap();
    assert_eq!(v.planes.len(), 1);
}

#[test]
fn zero_line_size_on_a_used_plane_is_a_layout_error() {
    let (mut f, layout) = nv12_frame();
    f.linesize[0] = 0;
    assert_eq!(
        av_frame_to_video_frame(&f, &layout, Timebase::MPEG_90K),
        Err(ConvertError::InvalidPlaneLayout { plane: 0 })
    );
    let (mut f, layout) = nv12_frame();
    f.linesize[1] = 0;
    assert_eq!(
        av_frame_to_video_frame(&f, &layout, Timebase::MPEG_90K),
        Err(ConvertError::InvalidPlaneLayout { plane: 1 })
    );
}

#[test]
fn convert_error_messages() {
    assert_eq!(ConvertError::NullFrame.message(), "convert: AVFrame pointer was null");
    assert_eq!(
        ConvertError::UnsupportedPixelFormat(-1).message(),
        "convert: unsupported pixel format -1"
    );
    assert_eq!(
        ConvertError::UnsupportedPixelFormat(i32::MIN).message(),
        "convert: unsupported pixel format -2147483648"
    );
    assert_eq!(
        ConvertError::InvalidPlaneLayout { plane: 3 }.message(),
        "convert: invalid layout on plane 3"
    );
    assert_eq!(
        ConvertError::BufferAcquireFailed { plane: 1024 }.message(),
        "convert: could not acquire buffer ref for plane 1024"
    );
}

fn stereo_layout() -> RawChannelLayout {
    RawChannelLayout {
        order: AV_CHANNEL_ORDER_NATIVE,
        nb_channels: 2,
        mask: 0x3,
        positions: vec![0, 1],
        custom: None,
    }
}

fn audio_frame(planes: usize) -> RawFrame {
    let mut f = blank_frame();
    f.format = 8;
    f.sample_rate = 48000;
    f.nb_samples = 1024;
    f.linesize[0] = 4096;
    for i in 0..planes {
        f.data[i] = 0x10000 * (i + 1);
        f.buf[i] = Some(BufferRef { start: 0x10000 * (i + 1), size: 4096 });
    }
    f
}

#[test]
fn planar_audio_frame() {
    let mut f = audio_frame(2);
    f.pts = 0;
    f.duration = 1024;
    let a = av_frame_to_audio_frame(&f, &stereo_layout(), String::from("stereo"), true, Timebase::MPEG_90K).unwrap();
    assert_eq!((a.sample_rate, a.nb_samples, a.channel_count, a.plane_count), (48000, 1024, 2, 2));
    assert_eq!(a.sample_format, 8);
    assert_eq!(
        a.planes,
        vec![
            PlaneView { buffer: 0, offset: 0, len: 4096, stride: 4096 },
            PlaneView { buffer: 1, offset: 0, len: 4096, stride: 4096 },
        ]
    );
    let pts = a.pts.unwrap();
    assert_eq!((pts.pts(), pts.timebase()), (0, Timebase::MPEG_90K));
    let duration = a.duration.unwrap();
    assert_eq!((duration.pts(), duration.timebase()), (1024, Timebase::MPEG_90K));
    assert_eq!(a.channel_layout.known_kind, ChannelLayoutKind::Stereo);
    assert_eq!(a.channel_layout.order, AudioChannelOrderKind::Native);
    assert_eq!(a.channel_layout.native_mask, Some(0x3));
    assert_eq!(a.channel_layout.description, "stereo");
}

#[test]
fn packed_audio_frame_has_one_plane() {
    let f = audio_frame(1);
    let a = av_frame_to_audio_frame(&f, &stereo_layout(), String::new(), false, Timebase::MPEG_90K).unwrap();
    assert_eq!(a.plane_count, 1);
    assert_eq!(a.planes.len(), 1);
}

#[test]
fn audio_planes_stop_at_null_plane_and_cap_at_eight() {
    let f = audio_frame(1);
    let a = av_frame_to_audio_frame(&f, &stereo_layout(), String::new(), true, Timebase::MPEG_90K).unwrap();
    assert_eq!(a.plane_count, 2);
    assert_eq!(a.planes.len(), 1);

    let mut wide = stereo_layout();
    wide.nb_channels = 300;
    wide.mask = 0;
    wide.positions = vec![-1; 300];
    let f = audio_frame(8);
    let a = av_frame_to_audio_frame(&f, &wide, String::new(), true, Timebase::MPEG_90K).unwrap();
    assert_eq!(a.channel_count, 8);
    assert_eq!(a.plane_count, 8);
    assert_eq!(a.planes.len(), 8);
    assert_eq!(a.channel_layout.native_mask, None);
    assert_eq!(a.channel_layout.known_kind, ChannelLayoutKind::Unknown);
}

#[test]
fn audio_channel_count_is_clamped_to_eight() {
    let mut ten = stereo_layout();
    ten.nb_channels = 10;
    ten.mask = 0;
    ten.positions = vec![-1; 10];
    let f = audio_frame(8);
    let a = av_frame_to_audio_frame(&f, &ten, String::new(), true, Timebase::MPEG_90K).unwrap();
    assert_eq!((a.channel_count, a.plane_count), (8, 8));
    let a = av_frame_to_audio_frame(&f, &ten, String::new(), false, Timebase::MPEG_90K).unwrap();
    assert_eq!((a.channel_count, a.plane_count), (8, 1));
    assert!(a.pts.is_none());
    assert!(a.duration.is_none());
}

#[test]
fn audio_plane_without_buffer_fails() {
    let mut f = audio_frame(2);
    f.buf[1] = None;
    assert_eq!(
        av_frame_to_audio_frame(&f, &stereo_layout(), String::new(), true, Timebase::MPEG_90K),
        Err(ConvertError::BufferAcquireFailed { plane: 1 })
    );
}
