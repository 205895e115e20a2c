use mediadecode::channel_layout::{
    audio_channel_layout_from_ffmpeg, audio_channel_order_kind_from_ffmpeg,
    channel_layout_kind_from_ffmpeg, custom_channel_label, custom_channels,
    description_from_buffer, describe_step, mask_channel_list, named_layout,
    AudioChannelOrderKind, ChannelLayoutKind, DescribeStep, RawChannelLayout, RawCustomChannel,
    AV_CHANNEL_ORDER_AMBISONIC, AV_CHANNEL_ORDER_CUSTOM, AV_CHANNEL_ORDER_NATIVE,
    AV_CHANNEL_ORDER_UNSPEC, NAMED_LAYOUT_COUNT,
};

fn native(nb: i32, mask: u64) -> RawChannelLayout {
    RawChannelLayout {
        order: AV_CHANNEL_ORDER_NATIVE,
        nb_channels: nb,
        mask,
        positions: mask_channel_list(mask),
        custom: None,
    }
}

fn name(s: &str) -> Vec<u8> {
    let mut v = s.as_bytes().to_vec();
    v.resize(16, 0);
    v
}

#[test]
fn order_codes() {
    assert_eq!(audio_channel_order_kind_from_ffmpeg(0), AudioChannelOrderKind::Unspecified);
    assert_eq!(audio_channel_order_kind_from_ffmpeg(1), AudioChannelOrderKind::Native);
    assert_eq!(audio_channel_order_kind_from_ffmpeg(2), AudioChannelOrderKind::Custom);
    assert_eq!(audio_channel_order_kind_from_ffmpeg(3), AudioChannelOrderKind::Ambisonic);
    assert_eq!(audio_channel_order_kind_from_ffmpeg(9), AudioChannelOrderKind::Unspecified);
}

#[test]
fn mask_channels_in_native_order() {
    assert_eq!(mask_channel_list(0x3f), vec![0, 1, 2, 3, 4, 5]);
    assert_eq!(mask_channel_list(0x60000000), vec![29, 30]);
    assert_eq!(mask_channel_list(1 << 63), vec![63]);
    assert!(mask_channel_list(0).is_empty());
}

#[test]
fn named_layouts_map_to_their_kind() {
    assert_eq!(channel_layout_kind_from_ffmpeg(&native(1, 0x4)), ChannelLayoutKind::Mono);
    assert_eq!(channel_layout_kind_from_ffmpeg(&native(2, 0x3)), ChannelLayoutKind::Stereo);
    assert_eq!(channel_layout_kind_from_ffmpeg(&native(6, 0x60f)), ChannelLayoutKind::Ch5_1);
    assert_eq!(channel_layout_kind_from_ffmpeg(&native(6, 0x3f)), ChannelLayoutKind::Ch5_1Back);
    assert_eq!(channel_layout_kind_from_ffmpeg(&native(8, 0x63f)), ChannelLayoutKind::Ch7_1);
    for i in 0..NAMED_LAYOUT_COUNT {
        let (kind, nb, mask) = named_layout(i);
        let found = channel_layout_kind_from_ffmpeg(&native(nb, mask));
        if kind == ChannelLayoutKind::Ch7_1TopBack {
            assert_eq!(found, ChannelLayoutKind::Ch5_1_2Back);
        } else {
            assert_eq!(found, kind);
        }
    }
}

#[test]
fn unnamed_and_unspecified_layouts_are_unknown() {
    assert_eq!(channel_layout_kind_from_ffmpeg(&native(3, 0x13)), ChannelLayoutKind::Unknown);
    assert_eq!(channel_layout_kind_from_ffmpeg(&native(3, 0x3)), ChannelLayoutKind::Unknown);
    let mut l = native(2, 0x3);
    l.order = AV_CHANNEL_ORDER_UNSPEC;
    assert_eq!(channel_layout_kind_from_ffmpeg(&l), ChannelLayoutKind::Unknown);
}

#[test]
fn custom_layout_in_native_positions_matches_named_kind() {
    let l = RawChannelLayout {
        order: AV_CHANNEL_ORDER_CUSTOM,
        nb_channels: 2,
        mask: 0,
        positions: vec![0, 1],
        custom: Some(vec![
            RawCustomChannel { id: 0, name: name("L") },
            RawCustomChannel { id: 1, name: name("R") },
        ]),
    };
    assert_eq!(channel_layout_kind_from_ffmpeg(&l), ChannelLayoutKind::Stereo);
    let mut swapped = l.clone();
    swapped.positions = vec![1, 0];
    assert_eq!(channel_layout_kind_from_ffmpeg(&swapped), ChannelLayoutKind::Unknown);
}

#[test]
fn labels_stop_at_nul_and_decode_lossily() {
    assert_eq!(custom_channel_label(&name("Left")), "Left");
    assert_eq!(custom_channel_label(&name("")), "");
    assert_eq!(custom_channel_label(b"0123456789abcdef"), "0123456789abcdef");
    assert_eq!(custom_channel_label(&[0xff, b'a', 0, b'b']), "\u{FFFD}a");
}

#[test]
fn custom_channels_from_map() {
    let l = RawChannelLayout {
        order: AV_CHANNEL_ORDER_CUSTOM,
        nb_channels: 2,
        mask: 0,
        positions: vec![3, 1024],
        custom: Some(vec![
            RawCustomChannel { id: 3, name: name("lfe") },
            RawCustomChannel { id: 1024, name: name("") },
        ]),
    };
    let c = custom_channels(&l);
    assert_eq!(c.len(), 2);
    assert_eq!((c[0].index, c[0].id, c[0].label.as_str()), (0, 3, "lfe"));
    assert_eq!((c[1].index, c[1].id, c[1].label.as_str()), (1, 1024, ""));

    let mut null_map = l.clone();
    null_map.custom = None;
    assert!(custom_channels(&null_map).is_empty());
    assert!(custom_channels(&native(2, 0x3)).is_empty());
}

#[test]
fn describe_buffer_handling() {
    assert_eq!(describe_step(-22, 128), DescribeStep::Failed);
    assert_eq!(describe_step(9, 128), DescribeStep::Ready);
    assert_eq!(describe_step(128, 128), DescribeStep::Grow(129));
    assert_eq!(description_from_buffer(b"5.1(side)\0\0\0", 9), "5.1(side)");
    assert_eq!(description_from_buffer(b"stereo", 6), "stereo");
    assert_eq!(description_from_buffer(b"\0abc", 3), "");
    assert_eq!(description_from_buffer(b"stereo\0", -1), "");
}

#[test]
fn full_layout_for_native_ambisonic_and_custom() {
    let l = audio_channel_layout_from_ffmpeg(&native(6, 0x60f), String::from("5.1(side)"));
    assert_eq!(l.channels(), 6);
    assert_eq!(l.order, AudioChannelOrderKind::Native);
    assert_eq!(l.known_kind, ChannelLayoutKind::Ch5_1);
    assert_eq!(l.native_mask, Some(0x60f));
    assert!(l.custom_channels.is_empty());
    assert_eq!(l.description, "5.1(side)");

    let amb = RawChannelLayout {
        order: AV_CHANNEL_ORDER_AMBISONIC,
        nb_channels: 4,
        mask: 0,
        positions: vec![1024, 1025, 1026, 1027],
        custom: None,
    };
    let l = audio_channel_layout_from_ffmpeg(&amb, String::new());
    assert_eq!(l.order, AudioChannelOrderKind::Ambisonic);
    assert_eq!(l.native_mask, None);
    assert_eq!(l.known_kind, ChannelLayoutKind::Unknown);

    let mut neg = native(-3, 0x3);
    neg.positions = Vec::new();
    assert_eq!(audio_channel_layout_from_ffmpeg(&neg, String::new()).channels(), 0);
}
