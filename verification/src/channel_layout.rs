//! Channel layouts: the library's description of an audio stream's
//! channels, and the decisions that turn FFmpeg's `AVChannelLayout`
//! (order, channel count, mask or custom map) into it.

use vstd::prelude::*;

use crate::convert::copy_prefix;

verus! {

/// `AV_CHANNEL_ORDER_UNSPEC`: only the channel count is known.
pub const AV_CHANNEL_ORDER_UNSPEC: i32 = 0;

/// `AV_CHANNEL_ORDER_NATIVE`: channels in mask order.
pub const AV_CHANNEL_ORDER_NATIVE: i32 = 1;

/// `AV_CHANNEL_ORDER_CUSTOM`: an explicit per-channel map.
pub const AV_CHANNEL_ORDER_CUSTOM: i32 = 2;

/// `AV_CHANNEL_ORDER_AMBISONIC`: ambisonic components, then mask channels.
pub const AV_CHANNEL_ORDER_AMBISONIC: i32 = 3;

// FFmpeg's channel bits (`AV_CH_*`) and named channel layouts
// (`AV_CH_LAYOUT_*`), as `libavutil/channel_layout.h` defines them.

/// `AV_CH_FRONT_LEFT`: the front left channel (bit 0).
pub const AV_CH_FRONT_LEFT: u64 = 0x1;
/// `AV_CH_FRONT_RIGHT`: the front right channel (bit 1).
pub const AV_CH_FRONT_RIGHT: u64 = 0x2;
/// `AV_CH_FRONT_CENTER`: the front center channel (bit 2).
pub const AV_CH_FRONT_CENTER: u64 = 0x4;
/// `AV_CH_LOW_FREQUENCY`: the low-frequency effects channel (bit 3).
pub const AV_CH_LOW_FREQUENCY: u64 = 0x8;
/// `AV_CH_BACK_LEFT`: the back left channel (bit 4).
pub const AV_CH_BACK_LEFT: u64 = 0x10;
/// `AV_CH_BACK_RIGHT`: the back right channel (bit 5).
pub const AV_CH_BACK_RIGHT: u64 = 0x20;
/// `AV_CH_FRONT_LEFT_OF_CENTER`: the front left of center channel (bit 6).
pub const AV_CH_FRONT_LEFT_OF_CENTER: u64 = 0x40;
/// `AV_CH_FRONT_RIGHT_OF_CENTER`: the front right of center channel (bit 7).
pub const AV_CH_FRONT_RIGHT_OF_CENTER: u64 = 0x80;
/// `AV_CH_BACK_CENTER`: the back center channel (bit 8).
pub const AV_CH_BACK_CENTER: u64 = 0x100;
/// `AV_CH_SIDE_LEFT`: the side left channel (bit 9).
pub const AV_CH_SIDE_LEFT: u64 = 0x200;
/// `AV_CH_SIDE_RIGHT`: the side right channel (bit 10).
pub const AV_CH_SIDE_RIGHT: u64 = 0x400;
/// `AV_CH_TOP_CENTER`: the top center channel (bit 11).
pub const AV_CH_TOP_CENTER: u64 = 0x800;
/// `AV_CH_TOP_FRONT_LEFT`: the top front left channel (bit 12).
pub const AV_CH_TOP_FRONT_LEFT: u64 = 0x1000;
/// `AV_CH_TOP_FRONT_CENTER`: the top front center channel (bit 13).
pub const AV_CH_TOP_FRONT_CENTER: u64 = 0x2000;
/// `AV_CH_TOP_FRONT_RIGHT`: the top front right channel (bit 14).
pub const AV_CH_TOP_FRONT_RIGHT: u64 = 0x4000;
/// `AV_CH_TOP_BACK_LEFT`: the top back left channel (bit 15).
pub const AV_CH_TOP_BACK_LEFT: u64 = 0x8000;
/// `AV_CH_TOP_BACK_CENTER`: the top back center channel (bit 16).
pub const AV_CH_TOP_BACK_CENTER: u64 = 0x10000;
/// `AV_CH_TOP_BACK_RIGHT`: the top back right channel (bit 17).
pub const AV_CH_TOP_BACK_RIGHT: u64 = 0x20000;
/// `AV_CH_STEREO_LEFT`: the stereo downmix left channel (bit 29).
pub const AV_CH_STEREO_LEFT: u64 = 0x20000000;
/// `AV_CH_STEREO_RIGHT`: the stereo downmix right channel (bit 30).
pub const AV_CH_STEREO_RIGHT: u64 = 0x40000000;
/// `AV_CH_WIDE_LEFT`: the wide left channel (bit 31).
pub const AV_CH_WIDE_LEFT: u64 = 0x80000000;
/// `AV_CH_WIDE_RIGHT`: the wide right channel (bit 32).
pub const AV_CH_WIDE_RIGHT: u64 = 0x100000000;
/// `AV_CH_LOW_FREQUENCY_2`: the second low-frequency effects channel (bit 35).
pub const AV_CH_LOW_FREQUENCY_2: u64 = 0x800000000;
/// `AV_CH_TOP_SIDE_LEFT`: the top side left channel (bit 36).
pub const AV_CH_TOP_SIDE_LEFT: u64 = 0x1000000000;
/// `AV_CH_TOP_SIDE_RIGHT`: the top side right channel (bit 37).
pub const AV_CH_TOP_SIDE_RIGHT: u64 = 0x2000000000;
/// `AV_CH_BOTTOM_FRONT_CENTER`: the bottom front center channel (bit 38).
pub const AV_CH_BOTTOM_FRONT_CENTER: u64 = 0x4000000000;
/// `AV_CH_BOTTOM_FRONT_LEFT`: the bottom front left channel (bit 39).
pub const AV_CH_BOTTOM_FRONT_LEFT: u64 = 0x8000000000;
/// `AV_CH_BOTTOM_FRONT_RIGHT`: the bottom front right channel (bit 40).
pub const AV_CH_BOTTOM_FRONT_RIGHT: u64 = 0x10000000000;

/// `AV_CH_LAYOUT_MONO`.
pub const AV_CH_LAYOUT_MONO: u64 = AV_CH_FRONT_CENTER;
/// `AV_CH_LAYOUT_STEREO`.
pub const AV_CH_LAYOUT_STEREO: u64 = AV_CH_FRONT_LEFT | AV_CH_FRONT_RIGHT;
/// `AV_CH_LAYOUT_2POINT1`.
pub const AV_CH_LAYOUT_2POINT1: u64 = AV_CH_LAYOUT_STEREO | AV_CH_LOW_FREQUENCY;
/// `AV_CH_LAYOUT_2_1`.
pub const AV_CH_LAYOUT_2_1: u64 = AV_CH_LAYOUT_STEREO | AV_CH_BACK_CENTER;
/// `AV_CH_LAYOUT_SURROUND`.
pub const AV_CH_LAYOUT_SURROUND: u64 = AV_CH_LAYOUT_STEREO | AV_CH_FRONT_CENTER;
/// `AV_CH_LAYOUT_3POINT1`.
pub const AV_CH_LAYOUT_3POINT1: u64 = AV_CH_LAYOUT_SURROUND | AV_CH_LOW_FREQUENCY;
/// `AV_CH_LAYOUT_4POINT0`.
pub const AV_CH_LAYOUT_4POINT0: u64 = AV_CH_LAYOUT_SURROUND | AV_CH_BACK_CENTER;
/// `AV_CH_LAYOUT_4POINT1`.
pub const AV_CH_LAYOUT_4POINT1: u64 = AV_CH_LAYOUT_4POINT0 | AV_CH_LOW_FREQUENCY;
/// `AV_CH_LAYOUT_2_2`.
pub const AV_CH_LAYOUT_2_2: u64 = AV_CH_LAYOUT_STEREO | AV_CH_SIDE_LEFT | AV_CH_SIDE_RIGHT;
/// `AV_CH_LAYOUT_QUAD`.
pub const AV_CH_LAYOUT_QUAD: u64 = AV_CH_LAYOUT_STEREO | AV_CH_BACK_LEFT | AV_CH_BACK_RIGHT;
/// `AV_CH_LAYOUT_5POINT0`.
pub const AV_CH_LAYOUT_5POINT0: u64 = AV_CH_LAYOUT_SURROUND | AV_CH_SIDE_LEFT | AV_CH_SIDE_RIGHT;
/// `AV_CH_LAYOUT_5POINT1`.
pub const AV_CH_LAYOUT_5POINT1: u64 = AV_CH_LAYOUT_5POINT0 | AV_CH_LOW_FREQUENCY;
/// `AV_CH_LAYOUT_5POINT0_BACK`.
pub const AV_CH_LAYOUT_5POINT0_BACK: u64 = AV_CH_LAYOUT_SURROUND | AV_CH_BACK_LEFT | AV_CH_BACK_RIGHT;
/// `AV_CH_LAYOUT_5POINT1_BACK`.
pub const AV_CH_LAYOUT_5POINT1_BACK: u64 = AV_CH_LAYOUT_5POINT0_BACK | AV_CH_LOW_FREQUENCY;
/// `AV_CH_LAYOUT_6POINT0`.
pub const AV_CH_LAYOUT_6POINT0: u64 = AV_CH_LAYOUT_5POINT0 | AV_CH_BACK_CENTER;
/// `AV_CH_LAYOUT_6POINT0_FRONT`.
pub const AV_CH_LAYOUT_6POINT0_FRONT: u64 = AV_CH_LAYOUT_2_2 | AV_CH_FRONT_LEFT_OF_CENTER | AV_CH_FRONT_RIGHT_OF_CENTER;
/// `AV_CH_LAYOUT_HEXAGONAL`.
pub const AV_CH_LAYOUT_HEXAGONAL: u64 = AV_CH_LAYOUT_5POINT0_BACK | AV_CH_BACK_CENTER;
/// `AV_CH_LAYOUT_3POINT1POINT2`.
pub const AV_CH_LAYOUT_3POINT1POINT2: u64 = AV_CH_LAYOUT_3POINT1 | AV_CH_TOP_FRONT_LEFT | AV_CH_TOP_FRONT_RIGHT;
/// `AV_CH_LAYOUT_6POINT1`.
pub const AV_CH_LAYOUT_6POINT1: u64 = AV_CH_LAYOUT_5POINT1 | AV_CH_BACK_CENTER;
/// `AV_CH_LAYOUT_6POINT1_BACK`.
pub const AV_CH_LAYOUT_6POINT1_BACK: u64 = AV_CH_LAYOUT_5POINT1_BACK | AV_CH_BACK_CENTER;
/// `AV_CH_LAYOUT_6POINT1_FRONT`.
pub const AV_CH_LAYOUT_6POINT1_FRONT: u64 = AV_CH_LAYOUT_6POINT0_FRONT | AV_CH_LOW_FREQUENCY;
/// `AV_CH_LAYOUT_7POINT0`.
pub const AV_CH_LAYOUT_7POINT0: u64 = AV_CH_LAYOUT_5POINT0 | AV_CH_BACK_LEFT | AV_CH_BACK_RIGHT;
/// `AV_CH_LAYOUT_7POINT0_FRONT`.
pub const AV_CH_LAYOUT_7POINT0_FRONT: u64 = AV_CH_LAYOUT_5POINT0 | AV_CH_FRONT_LEFT_OF_CENTER | AV_CH_FRONT_RIGHT_OF_CENTER;
/// `AV_CH_LAYOUT_7POINT1`.
pub const AV_CH_LAYOUT_7POINT1: u64 = AV_CH_LAYOUT_5POINT1 | AV_CH_BACK_LEFT | AV_CH_BACK_RIGHT;
/// `AV_CH_LAYOUT_7POINT1_WIDE`.
pub const AV_CH_LAYOUT_7POINT1_WIDE: u64 = AV_CH_LAYOUT_5POINT1 | AV_CH_FRONT_LEFT_OF_CENTER | AV_CH_FRONT_RIGHT_OF_CENTER;
/// `AV_CH_LAYOUT_7POINT1_WIDE_BACK`.
pub const AV_CH_LAYOUT_7POINT1_WIDE_BACK: u64 = AV_CH_LAYOUT_5POINT1_BACK | AV_CH_FRONT_LEFT_OF_CENTER | AV_CH_FRONT_RIGHT_OF_CENTER;
/// `AV_CH_LAYOUT_5POINT1POINT2_BACK`.
pub const AV_CH_LAYOUT_5POINT1POINT2_BACK: u64 = AV_CH_LAYOUT_5POINT1_BACK | AV_CH_TOP_FRONT_LEFT | AV_CH_TOP_FRONT_RIGHT;
/// `AV_CH_LAYOUT_OCTAGONAL`.
pub const AV_CH_LAYOUT_OCTAGONAL: u64 = AV_CH_LAYOUT_5POINT0 | AV_CH_BACK_LEFT | AV_CH_BACK_CENTER | AV_CH_BACK_RIGHT;
/// `AV_CH_LAYOUT_CUBE`.
pub const AV_CH_LAYOUT_CUBE: u64 = AV_CH_LAYOUT_QUAD | AV_CH_TOP_FRONT_LEFT | AV_CH_TOP_FRONT_RIGHT | AV_CH_TOP_BACK_LEFT | AV_CH_TOP_BACK_RIGHT;
/// `AV_CH_LAYOUT_5POINT1POINT4_BACK`.
pub const AV_CH_LAYOUT_5POINT1POINT4_BACK: u64 = AV_CH_LAYOUT_5POINT1POINT2_BACK | AV_CH_TOP_BACK_LEFT | AV_CH_TOP_BACK_RIGHT;
/// `AV_CH_LAYOUT_7POINT1POINT2`.
pub const AV_CH_LAYOUT_7POINT1POINT2: u64 = AV_CH_LAYOUT_7POINT1 | AV_CH_TOP_FRONT_LEFT | AV_CH_TOP_FRONT_RIGHT;
/// `AV_CH_LAYOUT_7POINT1POINT4_BACK`.
pub const AV_CH_LAYOUT_7POINT1POINT4_BACK: u64 = AV_CH_LAYOUT_7POINT1POINT2 | AV_CH_TOP_BACK_LEFT | AV_CH_TOP_BACK_RIGHT;
/// `AV_CH_LAYOUT_7POINT2POINT3`.
pub const AV_CH_LAYOUT_7POINT2POINT3: u64 = AV_CH_LAYOUT_7POINT1POINT2 | AV_CH_TOP_BACK_CENTER | AV_CH_LOW_FREQUENCY_2;
/// `AV_CH_LAYOUT_9POINT1POINT4_BACK`.
pub const AV_CH_LAYOUT_9POINT1POINT4_BACK: u64 = AV_CH_LAYOUT_7POINT1POINT4_BACK | AV_CH_FRONT_LEFT_OF_CENTER | AV_CH_FRONT_RIGHT_OF_CENTER;
/// `AV_CH_LAYOUT_HEXADECAGONAL`.
pub const AV_CH_LAYOUT_HEXADECAGONAL: u64 = AV_CH_LAYOUT_OCTAGONAL | AV_CH_WIDE_LEFT | AV_CH_WIDE_RIGHT | AV_CH_TOP_BACK_LEFT | AV_CH_TOP_BACK_RIGHT | AV_CH_TOP_BACK_CENTER | AV_CH_TOP_FRONT_CENTER | AV_CH_TOP_FRONT_LEFT | AV_CH_TOP_FRONT_RIGHT;
/// `AV_CH_LAYOUT_STEREO_DOWNMIX`.
pub const AV_CH_LAYOUT_STEREO_DOWNMIX: u64 = AV_CH_STEREO_LEFT | AV_CH_STEREO_RIGHT;
/// `AV_CH_LAYOUT_22POINT2`.
pub const AV_CH_LAYOUT_22POINT2: u64 = AV_CH_LAYOUT_5POINT1_BACK | AV_CH_FRONT_LEFT_OF_CENTER | AV_CH_FRONT_RIGHT_OF_CENTER | AV_CH_BACK_CENTER | AV_CH_LOW_FREQUENCY_2 | AV_CH_SIDE_LEFT | AV_CH_SIDE_RIGHT | AV_CH_TOP_FRONT_LEFT | AV_CH_TOP_FRONT_RIGHT | AV_CH_TOP_FRONT_CENTER | AV_CH_TOP_CENTER | AV_CH_TOP_BACK_LEFT | AV_CH_TOP_BACK_RIGHT | AV_CH_TOP_SIDE_LEFT | AV_CH_TOP_SIDE_RIGHT | AV_CH_TOP_BACK_CENTER | AV_CH_BOTTOM_FRONT_CENTER | AV_CH_BOTTOM_FRONT_LEFT | AV_CH_BOTTOM_FRONT_RIGHT;
/// `AV_CH_LAYOUT_7POINT1_TOP_BACK`.
pub const AV_CH_LAYOUT_7POINT1_TOP_BACK: u64 = AV_CH_LAYOUT_5POINT1POINT2_BACK;

/// The number of FFmpeg named layouts the kind lookup consults.
pub const NAMED_LAYOUT_COUNT: usize = 38;

/// The high-level tag of a channel layout: which of FFmpeg's named layouts
/// it is, if any.
#[derive(Debug, Clone, Copy, PartialEq, Eq, Structural, Hash)]
#[non_exhaustive]
pub enum ChannelLayoutKind {
    /// Mono (front center).
    Mono,
    /// Stereo (front left, front right).
    Stereo,
    /// Stereo downmix (stereo left, stereo right).
    StereoDownmix,
    /// 3.0 surround (stereo plus front center).
    Surround,
    /// Quad (stereo plus back left/right).
    Quad,
    /// Hexagonal (5.0 back plus back center).
    Hexagonal,
    /// Octagonal (5.0 plus back left/center/right).
    Octagonal,
    /// Hexadecagonal (16 channels).
    Hexadecagonal,
    /// Cube (quad plus four top channels).
    Cube,
    /// 2.1 (stereo plus LFE).
    Ch2_1,
    /// 2_1 (stereo plus back center).
    Ch2_1Alt,
    /// 2_2 (stereo plus side left/right).
    Ch2_2,
    /// 3.1.
    Ch3_1,
    /// 3.1.2.
    Ch3_1_2,
    /// 4.0.
    Ch4_0,
    /// 4.1.
    Ch4_1,
    /// 5.0 (side).
    Ch5_0,
    /// 5.0 (back).
    Ch5_0Back,
    /// 5.1 (side).
    Ch5_1,
    /// 5.1 (back).
    Ch5_1Back,
    /// 5.1.2 (back).
    Ch5_1_2Back,
    /// 5.1.4 (back).
    Ch5_1_4Back,
    /// 6.0.
    Ch6_0,
    /// 6.0 (front).
    Ch6_0Front,
    /// 6.1.
    Ch6_1,
    /// 6.1 (back).
    Ch6_1Back,
    /// 6.1 (front).
    Ch6_1Front,
    /// 7.0.
    Ch7_0,
    /// 7.0 (front).
    Ch7_0Front,
    /// 7.1.
    Ch7_1,
    /// 7.1 (wide).
    Ch7_1Wide,
    /// 7.1 (wide, back).
    Ch7_1WideBack,
    /// 7.1 (top back).
    Ch7_1TopBack,
    /// 7.1.2.
    Ch7_1_2,
    /// 7.1.4 (back).
    Ch7_1_4Back,
    /// 7.2.3.
    Ch7_2_3,
    /// 9.1.4 (back).
    Ch9_1_4Back,
    /// 22.2.
    Ch22_2,
    /// None of the named layouts.
    Unknown,
}

/// The ordering scheme of a channel layout.
#[derive(Debug, Clone, Copy, PartialEq, Eq, Structural, Hash)]
#[non_exhaustive]
pub enum AudioChannelOrderKind {
    /// Only the channel count is known.
    Unspecified,
    /// Channels in the native (mask) order.
    Native,
    /// An explicit per-channel map.
    Custom,
    /// Ambisonic components, then mask channels.
    Ambisonic,
}

/// The ordering scheme an `AVChannelOrder` code names.
pub open spec fn spec_order_kind(order: i32) -> AudioChannelOrderKind {
    if order == AV_CHANNEL_ORDER_NATIVE {
        AudioChannelOrderKind::Native
    } else if order == AV_CHANNEL_ORDER_CUSTOM {
        AudioChannelOrderKind::Custom
    } else if order == AV_CHANNEL_ORDER_AMBISONIC {
        AudioChannelOrderKind::Ambisonic
    } else {
        AudioChannelOrderKind::Unspecified
    }
}

/// Maps FFmpeg's `AVChannelOrder` code to the [`AudioChannelOrderKind`]
/// tag.
pub fn audio_channel_order_kind_from_ffmpeg(value: i32) -> (r: AudioChannelOrderKind)
    ensures
        r == spec_order_kind(value),
{
    if value == AV_CHANNEL_ORDER_NATIVE {
        AudioChannelOrderKind::Native
    } else if value == AV_CHANNEL_ORDER_CUSTOM {
        AudioChannelOrderKind::Custom
    } else if value == AV_CHANNEL_ORDER_AMBISONIC {
        AudioChannelOrderKind::Ambisonic
    } else {
        AudioChannelOrderKind::Unspecified
    }
}

/// FFmpeg's named layout number `i`, in lookup order: its kind, its channel
/// count and its channel mask (`AV_CH_LAYOUT_*`).
pub open spec fn spec_named_layout(i: usize) -> (ChannelLayoutKind, i32, u64) {
    match i {
        0 => (ChannelLayoutKind::Mono, 1i32, 0x4u64),
        1 => (ChannelLayoutKind::Stereo, 2i32, 0x3u64),
        2 => (ChannelLayoutKind::StereoDownmix, 2i32, 0x60000000u64),
        3 => (ChannelLayoutKind::Surround, 3i32, 0x7u64),
        4 => (ChannelLayoutKind::Quad, 4i32, 0x33u64),
        5 => (ChannelLayoutKind::Hexagonal, 6i32, 0x137u64),
        6 => (ChannelLayoutKind::Octagonal, 8i32, 0x737u64),
        7 => (ChannelLayoutKind::Hexadecagonal, 16i32, 0x18003f737u64),
        8 => (ChannelLayoutKind::Cube, 8i32, 0x2d033u64),
        9 => (ChannelLayoutKind::Ch2_1, 3i32, 0xbu64),
        10 => (ChannelLayoutKind::Ch2_1Alt, 3i32, 0x103u64),
        11 => (ChannelLayoutKind::Ch2_2, 4i32, 0x603u64),
        12 => (ChannelLayoutKind::Ch3_1, 4i32, 0xfu64),
        13 => (ChannelLayoutKind::Ch3_1_2, 6i32, 0x500fu64),
        14 => (ChannelLayoutKind::Ch4_0, 4i32, 0x107u64),
        15 => (ChannelLayoutKind::Ch4_1, 5i32, 0x10fu64),
        16 => (ChannelLayoutKind::Ch5_0, 5i32, 0x607u64),
        17 => (ChannelLayoutKind::Ch5_0Back, 5i32, 0x37u64),
        18 => (ChannelLayoutKind::Ch5_1, 6i32, 0x60fu64),
        19 => (ChannelLayoutKind::Ch5_1Back, 6i32, 0x3fu64),
        20 => (ChannelLayoutKind::Ch5_1_2Back, 8i32, 0x503fu64),
        21 => (ChannelLayoutKind::Ch5_1_4Back, 10i32, 0x2d03fu64),
        22 => (ChannelLayoutKind::Ch6_0, 6i32, 0x707u64),
        23 => (ChannelLayoutKind::Ch6_0Front, 6i32, 0x6c3u64),
        24 => (ChannelLayoutKind::Ch6_1, 7i32, 0x70fu64),
        25 => (ChannelLayoutKind::Ch6_1Back, 7i32, 0x13fu64),
        26 => (ChannelLayoutKind::Ch6_1Front, 7i32, 0x6cbu64),
        27 => (ChannelLayoutKind::Ch7_0, 7i32, 0x637u64),
        28 => (ChannelLayoutKind::Ch7_0Front, 7i32, 0x6c7u64),
        29 => (ChannelLayoutKind::Ch7_1, 8i32, 0x63fu64),
        30 => (ChannelLayoutKind::Ch7_1Wide, 8i32, 0x6cfu64),
        31 => (ChannelLayoutKind::Ch7_1WideBack, 8i32, 0xffu64),
        32 => (ChannelLayoutKind::Ch7_1TopBack, 8i32, 0x503fu64),
        33 => (ChannelLayoutKind::Ch7_1_2, 10i32, 0x563fu64),
        34 => (ChannelLayoutKind::Ch7_1_4Back, 12i32, 0x2d63fu64),
        35 => (ChannelLayoutKind::Ch7_2_3, 12i32, 0x80001563fu64),
        36 => (ChannelLayoutKind::Ch9_1_4Back, 14i32, 0x2d6ffu64),
        37 => (ChannelLayoutKind::Ch22_2, 24i32, 0x1f80003ffffu64),
        _ => (ChannelLayoutKind::Unknown, 0i32, 0u64),
    }
}

/// FFmpeg's named layout number `i`, in lookup order.
pub fn named_layout(i: usize) -> (r: (ChannelLayoutKind, i32, u64))
    requires
        i < NAMED_LAYOUT_COUNT,
    ensures
        r == spec_named_layout(i),
{
    match i {
        0 => (ChannelLayoutKind::Mono, 1i32, 0x4u64),
        1 => (ChannelLayoutKind::Stereo, 2i32, 0x3u64),
        2 => (ChannelLayoutKind::StereoDownmix, 2i32, 0x60000000u64),
        3 => (ChannelLayoutKind::Surround, 3i32, 0x7u64),
        4 => (ChannelLayoutKind::Quad, 4i32, 0x33u64),
        5 => (ChannelLayoutKind::Hexagonal, 6i32, 0x137u64),
        6 => (ChannelLayoutKind::Octagonal, 8i32, 0x737u64),
        7 => (ChannelLayoutKind::Hexadecagonal, 16i32, 0x18003f737u64),
        8 => (ChannelLayoutKind::Cube, 8i32, 0x2d033u64),
        9 => (ChannelLayoutKind::Ch2_1, 3i32, 0xbu64),
        10 => (ChannelLayoutKind::Ch2_1Alt, 3i32, 0x103u64),
        11 => (ChannelLayoutKind::Ch2_2, 4i32, 0x603u64),
        12 => (ChannelLayoutKind::Ch3_1, 4i32, 0xfu64),
        13 => (ChannelLayoutKind::Ch3_1_2, 6i32, 0x500fu64),
        14 => (ChannelLayoutKind::Ch4_0, 4i32, 0x107u64),
        15 => (ChannelLayoutKind::Ch4_1, 5i32, 0x10fu64),
        16 => (ChannelLayoutKind::Ch5_0, 5i32, 0x607u64),
        17 => (ChannelLayoutKind::Ch5_0Back, 5i32, 0x37u64),
        18 => (ChannelLayoutKind::Ch5_1, 6i32, 0x60fu64),
        19 => (ChannelLayoutKind::Ch5_1Back, 6i32, 0x3fu64),
        20 => (ChannelLayoutKind::Ch5_1_2Back, 8i32, 0x503fu64),
        21 => (ChannelLayoutKind::Ch5_1_4Back, 10i32, 0x2d03fu64),
        22 => (ChannelLayoutKind::Ch6_0, 6i32, 0x707u64),
        23 => (ChannelLayoutKind::Ch6_0Front, 6i32, 0x6c3u64),
        24 => (ChannelLayoutKind::Ch6_1, 7i32, 0x70fu64),
        25 => (ChannelLayoutKind::Ch6_1Back, 7i32, 0x13fu64),
        26 => (ChannelLayoutKind::Ch6_1Front, 7i32, 0x6cbu64),
        27 => (ChannelLayoutKind::Ch7_0, 7i32, 0x637u64),
        28 => (ChannelLayoutKind::Ch7_0Front, 7i32, 0x6c7u64),
        29 => (ChannelLayoutKind::Ch7_1, 8i32, 0x63fu64),
        30 => (ChannelLayoutKind::Ch7_1Wide, 8i32, 0x6cfu64),
        31 => (ChannelLayoutKind::Ch7_1WideBack, 8i32, 0xffu64),
        32 => (ChannelLayoutKind::Ch7_1TopBack, 8i32, 0x503fu64),
        33 => (ChannelLayoutKind::Ch7_1_2, 10i32, 0x563fu64),
        34 => (ChannelLayoutKind::Ch7_1_4Back, 12i32, 0x2d63fu64),
        35 => (ChannelLayoutKind::Ch7_2_3, 12i32, 0x80001563fu64),
        36 => (ChannelLayoutKind::Ch9_1_4Back, 14i32, 0x2d6ffu64),
        37 => (ChannelLayoutKind::Ch22_2, 24i32, 0x1f80003ffffu64),
        _ => (ChannelLayoutKind::Unknown, 0i32, 0u64),
    }
}

/// The channels a mask names, in native order: the indices of its set
/// bits from bit `i` upward.
pub open spec fn mask_channels_from(mask: u64, i: nat) -> Seq<i32>
    decreases 64 - i,
{
    if i >= 64 {
        Seq::empty()
    } else if mask & (1u64 << (i as u64)) != 0 {
        seq![i as i32] + mask_channels_from(mask, i + 1)
    } else {
        mask_channels_from(mask, i + 1)
    }
}

/// The channels a mask names, in native order.
pub open spec fn mask_channels(mask: u64) -> Seq<i32> {
    mask_channels_from(mask, 0)
}

/// The channels a mask names, in native order (the `AVChannel` id of each
/// position of a native layout with this mask).
pub fn mask_channel_list(mask: u64) -> (r: Vec<i32>)
    ensures
        r@ == mask_channels(mask),
{
    let mut out: Vec<i32> = Vec::new();
    let mut i: u64 = 0;
    while i < 64
        invariant
            i <= 64,
            out@ + mask_channels_from(mask, i as nat) == mask_channels(mask),
        decreases 64 - i,
    {
        let ghost before = out@;
        if mask & (1u64 << i) != 0 {
            out.push(i as i32);
            assert(before + mask_channels_from(mask, i as nat) == out@ + mask_channels_from(
                mask,
                (i + 1) as nat,
            ));
        }
        i = i + 1;
    }
    assert(out@ + mask_channels_from(mask, 64) == out@);
    out
}

/// One entry of a custom channel map (`AVChannelCustom`): the channel id
/// and the raw bytes of its 16-byte name field.
#[derive(Debug, Clone, PartialEq, Eq)]
pub struct RawCustomChannel {
    /// The `AVChannel` id.
    pub id: i32,
    /// The name field's bytes, NUL-terminated unless all 16 are used.
    pub name: Vec<u8>,
}

/// A plain-value reading of an FFmpeg `AVChannelLayout`.
#[derive(Debug, Clone, PartialEq, Eq)]
pub struct RawChannelLayout {
    /// The `AVChannelOrder` code.
    pub order: i32,
    /// The channel count.
    pub nb_channels: i32,
    /// The channel mask (meaningful for the native and ambisonic orders).
    pub mask: u64,
    /// The `AVChannel` id at each position, as FFmpeg reports it
    /// (`av_channel_layout_channel_from_index`), one per channel.
    pub positions: Vec<i32>,
    /// The custom channel map, for the custom order; `None` when it is null.
    pub custom: Option<Vec<RawCustomChannel>>,
}

impl RawChannelLayout {
    /// The reading is consistent: one position per channel.
    pub open spec fn well_formed(self) -> bool {
        self.nb_channels >= 0 ==> self.positions.len() == self.nb_channels
    }
}

/// Whether layout `l` is semantically the native layout with `nb` channels
/// and mask `mask` (FFmpeg's `av_channel_layout_compare`): the channel
/// counts agree, `l` has a specified order, and either both are native
/// with the same mask or the same channels sit at the same positions.
pub open spec fn same_as_named(l: RawChannelLayout, nb: i32, mask: u64) -> bool {
    &&& l.nb_channels == nb
    &&& l.order != AV_CHANNEL_ORDER_UNSPEC
    &&& if l.order == AV_CHANNEL_ORDER_NATIVE {
        l.mask == mask
    } else {
        l.positions@ == mask_channels(mask)
    }
}

/// Whether two channel lists are equal.
pub fn same_channels(a: &Vec<i32>, b: &Vec<i32>) -> (r: bool)
    ensures
        r == (a@ == b@),
{
    if a.len() != b.len() {
        return false;
    }
    let mut i: usize = 0;
    while i < a.len()
        invariant
            a.len() == b.len(),
            i <= a.len(),
            forall|j: int| 0 <= j < i ==> a@[j] == b@[j],
        decreases a.len() - i,
    {
        if a[i] != b[i] {
            return false;
        }
        i = i + 1;
    }
    assert(a@ =~= b@);
    true
}

/// Whether layout `l` is the native layout with `nb` channels and mask
/// `mask`.
pub fn layout_equals(l: &RawChannelLayout, nb: i32, mask: u64) -> (r: bool)
    ensures
        r == same_as_named(*l, nb, mask),
{
    if l.nb_channels != nb || l.order == AV_CHANNEL_ORDER_UNSPEC {
        return false;
    }
    if l.order == AV_CHANNEL_ORDER_NATIVE {
        return l.mask == mask;
    }
    let named = mask_channel_list(mask);
    same_channels(&l.positions, &named)
}

/// The kind of layout `l`: the kind of the first named layout, from number
/// `i` on, that `l` is the same as, or `Unknown`.
pub open spec fn kind_from(l: RawChannelLayout, i: nat) -> ChannelLayoutKind
    decreases NAMED_LAYOUT_COUNT - i,
{
    if i >= NAMED_LAYOUT_COUNT {
        ChannelLayoutKind::Unknown
    } else {
        let (k, nb, mask) = spec_named_layout(i as usize);
        if same_as_named(l, nb, mask) {
            k
        } else {
            kind_from(l, i + 1)
        }
    }
}

/// The kind of layout `l`: the first of FFmpeg's named layouts, in lookup
/// order, that `l` is the same as, or `Unknown`.
pub open spec fn spec_layout_kind(l: RawChannelLayout) -> ChannelLayoutKind {
    kind_from(l, 0)
}

/// Maps an FFmpeg channel layout to the high-level [`ChannelLayoutKind`]
/// tag; [`ChannelLayoutKind::Unknown`] for layouts that are none of FFmpeg's
/// named layouts.
pub fn channel_layout_kind_from_ffmpeg(value: &RawChannelLayout) -> (r: ChannelLayoutKind)
    ensures
        r == spec_layout_kind(*value),
{
    let mut i: usize = 0;
    while i < NAMED_LAYOUT_COUNT
        invariant
            i <= NAMED_LAYOUT_COUNT,
            spec_layout_kind(*value) == kind_from(*value, i as nat),
        decreases NAMED_LAYOUT_COUNT - i,
    {
        let (kind, nb, mask) = named_layout(i);
        if layout_equals(value, nb, mask) {
            return kind;
        }
        i = i + 1;
    }
    ChannelLayoutKind::Unknown
}

/// The text `String::from_utf8_lossy` makes of `bytes`: their UTF-8
/// decoding, with each invalid sequence replaced by U+FFFD.
pub uninterp spec fn utf8_lossy(bytes: Seq<u8>) -> Seq<char>;

/// `String::from_utf8_lossy` (std), owned: the contract claims only that
/// the result is the lossy decoding of exactly these bytes.
#[verifier::external_body]
fn string_from_utf8_lossy(bytes: &[u8]) -> (r: String)
    ensures
        r@ == utf8_lossy(bytes@),
{
    String::from_utf8_lossy(bytes).into_owned()
}

/// The position of the first NUL byte of `b` at or after `i`.
pub open spec fn nul_from(b: Seq<u8>, i: int) -> Option<int>
    decreases b.len() - i,
{
    if i < 0 || i >= b.len() {
        None
    } else if b[i] == 0 {
        Some(i)
    } else {
        nul_from(b, i + 1)
    }
}

/// The bytes of `b` before its first NUL (all of `b` when it has none).
pub open spec fn until_nul(b: Seq<u8>) -> Seq<u8> {
    match nul_from(b, 0) {
        Some(k) => b.take(k),
        None => b,
    }
}

/// The text of a label's bytes: empty for no bytes, otherwise their lossy
/// UTF-8 decoding.
pub open spec fn label_text(bytes: Seq<u8>) -> Seq<char> {
    if bytes.len() == 0 {
        Seq::empty()
    } else {
        utf8_lossy(bytes)
    }
}

/// The position of the first NUL byte of `b`, if any.
pub fn nul_position(b: &[u8]) -> (r: Option<usize>)
    ensures
        match r {
            Some(k) => nul_from(b@, 0) == Some(k as int),
            None => nul_from(b@, 0) is None,
        },
{
    let mut i: usize = 0;
    while i < b.len()
        invariant
            i <= b.len(),
            nul_from(b@, 0) == nul_from(b@, i as int),
        decreases b.len() - i,
    {
        if b[i] == 0 {
            return Some(i);
        }
        i = i + 1;
    }
    None
}

/// Lemma: a NUL position lies within the bytes.
pub proof fn lemma_nul_from_bounds(b: Seq<u8>, i: int)
    ensures
        nul_from(b, i) matches Some(k) ==> 0 <= i <= k < b.len() && b[k] == 0,
    decreases b.len() - i,
{
    if 0 <= i < b.len() && b[i] != 0 {
        lemma_nul_from_bounds(b, i + 1);
    }
}

/// The text of a label's bytes.
fn text_of_label_bytes(bytes: &[u8], end: usize) -> (r: String)
    requires
        end <= bytes.len(),
    ensures
        r@ == label_text(bytes@.take(end as int)),
{
    if end == 0 {
        return String::new();
    }
    let prefix = copy_prefix(bytes, end);
    string_from_utf8_lossy(prefix.as_slice())
}

/// The label of a custom channel: its name field up to the first NUL,
/// decoded as UTF-8 (lossily); empty when the name is empty.
pub fn custom_channel_label(name: &[u8]) -> (r: String)
    ensures
        r@ == label_text(until_nul(name@)),
{
    let end = match nul_position(name) {
        Some(k) => {
            proof {
                lemma_nul_from_bounds(name@, 0);
            }
            k
        },
        None => {
            assert(name@.take(name@.len() as int) == name@);
            name.len()
        },
    };
    text_of_label_bytes(name, end)
}

/// What to do after `av_channel_layout_describe` reports `needed` bytes for
/// a buffer of `len` bytes.
#[derive(Debug, Clone, Copy, PartialEq, Eq, Structural)]
pub enum DescribeStep {
    /// The call failed: the description is empty.
    Failed,
    /// The buffer was too small: describe again into a buffer of this many
    /// bytes.
    Grow(usize),
    /// The buffer holds the description.
    Ready,
}

/// The step after `av_channel_layout_describe` reported `needed` bytes for
/// a buffer of `len` bytes: fail on a negative report, grow to `needed + 1`
/// bytes when the buffer cannot hold the description and its NUL, and read
/// the buffer otherwise.
pub fn describe_step(needed: i32, len: usize) -> (r: DescribeStep)
    ensures
        needed < 0 ==> r == DescribeStep::Failed,
        needed >= 0 && needed >= len ==> r == DescribeStep::Grow((needed + 1) as usize),
        needed >= 0 && needed < len ==> r == DescribeStep::Ready,
{
    if needed < 0 {
        DescribeStep::Failed
    } else if needed as usize >= len {
        DescribeStep::Grow(needed as usize + 1)
    } else {
        DescribeStep::Ready
    }
}

/// The description `av_channel_layout_describe` wrote into `buf`, having
/// reported `needed` bytes: empty on failure; otherwise the bytes before
/// the first NUL (or the first `needed` bytes when there is none), decoded
/// as UTF-8 (lossily).
pub open spec fn spec_description(buf: Seq<u8>, needed: i32) -> Seq<char> {
    if needed < 0 {
        Seq::empty()
    } else {
        match nul_from(buf, 0) {
            Some(k) => label_text(buf.take(k)),
            None => label_text(buf.take(needed as int)),
        }
    }
}

/// The description held by a buffer that `av_channel_layout_describe`
/// filled, having reported `needed` bytes.
pub fn description_from_buffer(buf: &[u8], needed: i32) -> (r: String)
    requires
        needed < 0 || nul_from(buf@, 0) is Some || needed <= buf.len(),
    ensures
        r@ == spec_description(buf@, needed),
{
    if needed < 0 {
        return String::new();
    }
    let end = match nul_position(buf) {
        Some(k) => {
            proof {
                lemma_nul_from_bounds(buf@, 0);
            }
            k
        },
        None => needed as usize,
    };
    text_of_label_bytes(buf, end)
}

/// One channel of a custom layout.
#[derive(Debug, Clone, PartialEq, Eq)]
pub struct AudioChannelSpec {
    /// The channel's position in the layout.
    pub index: u32,
    /// The channel's `AVChannel` id.
    pub id: u32,
    /// The channel's label (empty when it has none).
    pub label: String,
}

/// The library's description of an audio stream's channel layout.
#[derive(Debug, Clone, PartialEq, Eq)]
pub struct AudioChannelLayout {
    /// The channel count.
    pub channels: u32,
    /// The ordering scheme.
    pub order: AudioChannelOrderKind,
    /// Which named layout this is, if any.
    pub known_kind: ChannelLayoutKind,
    /// The channel mask, for native and ambisonic layouts with a non-zero
    /// mask.
    pub native_mask: Option<u64>,
    /// The per-channel map, for custom layouts.
    pub custom_channels: Vec<AudioChannelSpec>,
    /// FFmpeg's human-readable rendering, such as `"5.1(side)"`.
    pub description: String,
}

impl AudioChannelLayout {
    /// The channel count.
    pub fn channels(&self) -> (r: u32)
        ensures
            r == self.channels,
    {
        self.channels
    }
}

/// The custom map of a layout, when it has one worth reading: a custom
/// order, a positive channel count and a non-null map.
pub open spec fn readable_map(l: RawChannelLayout) -> Option<Seq<RawCustomChannel>> {
    if l.order == AV_CHANNEL_ORDER_CUSTOM && l.nb_channels > 0 {
        match l.custom {
            Some(m) => Some(m@),
            None => None,
        }
    } else {
        None
    }
}

/// `out` is the per-channel map of layout `l`: empty unless `l` has a
/// readable custom map, and otherwise one entry per channel, carrying its
/// position, its id and its label.
pub open spec fn custom_channels_match(out: Seq<AudioChannelSpec>, l: RawChannelLayout) -> bool {
    match readable_map(l) {
        None => out.len() == 0,
        Some(map) => {
            &&& out.len() == l.nb_channels
            &&& forall|i: int|
                0 <= i < out.len() ==> {
                    &&& (#[trigger] out[i]).index == i
                    &&& out[i].id == map[i].id as u32
                    &&& out[i].label@ == label_text(until_nul(map[i].name@))
                }
        },
    }
}

/// The layout's custom map holds an entry for every channel.
pub open spec fn map_covers_channels(l: RawChannelLayout) -> bool {
    readable_map(l) matches Some(map) ==> map.len() >= l.nb_channels
}

/// The per-channel map of a custom layout, each label drawn from the
/// channel's name field; empty for other layouts and for a null map.
pub fn custom_channels(layout: &RawChannelLayout) -> (r: Vec<AudioChannelSpec>)
    requires
        map_covers_channels(*layout),
    ensures
        custom_channels_match(r@, *layout),
{
    let mut out: Vec<AudioChannelSpec> = Vec::new();
    if layout.order != AV_CHANNEL_ORDER_CUSTOM || layout.nb_channels <= 0 {
        return out;
    }
    let count = layout.nb_channels as usize;
    let map = match &layout.custom {
        Some(m) => m,
        None => return out,
    };
    let mut i: usize = 0;
    while i < count
        invariant
            i <= count,
            count == layout.nb_channels,
            map.len() >= count,
            readable_map(*layout) == Some(map@),
            out.len() == i,
            forall|j: int|
                0 <= j < i ==> {
                    &&& (#[trigger] out@[j]).index == j
                    &&& out@[j].id == map@[j].id as u32
                    &&& out@[j].label@ == label_text(until_nul(map@[j].name@))
                },
        decreases count - i,
    {
        let entry = &map[i];
        let label = custom_channel_label(entry.name.as_slice());
        out.push(AudioChannelSpec { index: i as u32, id: entry.id as u32, label });
        i = i + 1;
    }
    out
}

/// The mask a layout contributes: present for native and ambisonic orders
/// when non-zero.
pub open spec fn spec_native_mask(l: RawChannelLayout) -> Option<u64> {
    if (l.order == AV_CHANNEL_ORDER_NATIVE || l.order == AV_CHANNEL_ORDER_AMBISONIC) && l.mask != 0 {
        Some(l.mask)
    } else {
        None
    }
}

/// `out` is the description of layout `l` with rendering `description`.
pub open spec fn layout_matches(out: AudioChannelLayout, l: RawChannelLayout, description: Seq<char>) -> bool {
    &&& out.channels == (if l.nb_channels < 0 { 0 } else { l.nb_channels as u32 })
    &&& out.order == spec_order_kind(l.order)
    &&& out.known_kind == spec_layout_kind(l)
    &&& out.native_mask == spec_native_mask(l)
    &&& custom_channels_match(out.custom_channels@, l)
    &&& out.description@ == description
}

/// Builds the full [`AudioChannelLayout`] of an FFmpeg channel layout,
/// given its rendering by `av_channel_layout_describe`.
///
/// Native and ambisonic layouts carry their mask (none when it is zero);
/// custom layouts carry their per-channel map.
pub fn audio_channel_layout_from_ffmpeg(value: &RawChannelLayout, description: String) -> (r: AudioChannelLayout)
    requires
        map_covers_channels(*value),
    ensures
        layout_matches(r, *value, description@),
{
    let order = audio_channel_order_kind_from_ffmpeg(value.order);
    let native_mask = match order {
        AudioChannelOrderKind::Native | AudioChannelOrderKind::Ambisonic => {
            if value.mask != 0 {
                Some(value.mask)
            } else {
                None
            }
        },
        _ => None,
    };
    let channels = if value.nb_channels < 0 {
        0
    } else {
        value.nb_channels as u32
    };
    AudioChannelLayout {
        channels,
        order,
        known_kind: channel_layout_kind_from_ffmpeg(value),
        native_mask,
        custom_channels: custom_channels(value),
        description,
    }
}

// Laws of the channel-layout lookup.

/// From named layout 21 on, the lookup answers `Ch7_1TopBack` only for a
/// layout that is the same as the 7.1 (top back) entry.
proof fn lemma_top_back_needs_its_entry(l: RawChannelLayout, j: nat)
    requires
        21 <= j,
    ensures
        kind_from(l, j) == ChannelLayoutKind::Ch7_1TopBack ==> same_as_named(
            l,
            spec_named_layout(32).1,
            spec_named_layout(32).2,
        ),
    decreases NAMED_LAYOUT_COUNT - j,
{
    if j < NAMED_LAYOUT_COUNT {
        lemma_top_back_needs_its_entry(l, j + 1);
        let (k, nb, mask) = spec_named_layout(j as usize);
        assert(k == ChannelLayoutKind::Ch7_1TopBack ==> j == 32);
    }
}

/// Before named layout 21, the lookup never answers `Ch7_1TopBack`.
proof fn lemma_no_top_back_before(l: RawChannelLayout, i: nat)
    requires
        i <= 20,
    ensures
        kind_from(l, i) != ChannelLayoutKind::Ch7_1TopBack,
    decreases 20 - i,
{
    if i < 20 {
        lemma_no_top_back_before(l, i + 1);
        let (k, nb, mask) = spec_named_layout(i as usize);
        assert(k != ChannelLayoutKind::Ch7_1TopBack);
    } else {
        lemma_top_back_needs_its_entry(l, 21);
        assert(spec_named_layout(20).1 == spec_named_layout(32).1);
        assert(spec_named_layout(20).2 == spec_named_layout(32).2);
    }
}

/// No layout is ever tagged `Ch7_1TopBack`: FFmpeg defines 7.1 (top back)
/// with the same channels as 5.1.2 (back), which the lookup tries first.
pub proof fn law_top_back_unreachable(l: RawChannelLayout)
    ensures
        spec_layout_kind(l) != ChannelLayoutKind::Ch7_1TopBack,
{
    lemma_no_top_back_before(l, 0);
}

/// A layout whose order is unspecified is none of the named layouts.
pub proof fn law_unspecified_order_is_unknown(l: RawChannelLayout)
    requires
        l.order == AV_CHANNEL_ORDER_UNSPEC,
    ensures
        spec_layout_kind(l) == ChannelLayoutKind::Unknown,
{
    lemma_unspecified_from(l, 0);
}

proof fn lemma_unspecified_from(l: RawChannelLayout, i: nat)
    requires
        l.order == AV_CHANNEL_ORDER_UNSPEC,
    ensures
        kind_from(l, i) == ChannelLayoutKind::Unknown,
    decreases NAMED_LAYOUT_COUNT - i,
{
    if i < NAMED_LAYOUT_COUNT {
        lemma_unspecified_from(l, i + 1);
    }
}

/// Two named layouts before `i` have different channel sets from named
/// layout `i`, unless they are the 5.1.2 (back) and 7.1 (top back) pair.
proof fn lemma_named_distinct(k: usize, i: usize)
    requires
        k < i < NAMED_LAYOUT_COUNT,
        !(k == 20 && i == 32),
    ensures
        spec_named_layout(k).1 != spec_named_layout(i).1 || spec_named_layout(k).2 != spec_named_layout(i).2,
{
}

/// The lookup from `j` on reaches entry `i` untouched when no entry in
/// between is the same as layout `l`.
proof fn lemma_kind_from_reaches(l: RawChannelLayout, j: nat, i: nat)
    requires
        j <= i < NAMED_LAYOUT_COUNT,
        forall|k: nat| j <= k < i ==> !same_as_named(l, #[trigger] spec_named_layout(k as usize).1, spec_named_layout(k as usize).2),
    ensures
        kind_from(l, j) == kind_from(l, i),
    decreases i - j,
{
    if j < i {
        lemma_kind_from_reaches(l, j + 1, i);
    }
}

/// A native layout with the channels of a named layout is tagged with that
/// layout's kind (every named kind but 7.1 (top back), which shares its
/// channels with 5.1.2 (back)).
pub proof fn law_named_layout_roundtrip(l: RawChannelLayout, i: usize)
    requires
        i < NAMED_LAYOUT_COUNT,
        i != 32,
        l.order == AV_CHANNEL_ORDER_NATIVE,
        l.nb_channels == spec_named_layout(i).1,
        l.mask == spec_named_layout(i).2,
    ensures
        spec_layout_kind(l) == spec_named_layout(i).0,
{
    assert forall|k: nat| 0 <= k < i implies !same_as_named(l, #[trigger] spec_named_layout(k as usize).1, spec_named_layout(k as usize).2) by {
        lemma_named_distinct(k as usize, i);
    }
    lemma_kind_from_reaches(l, 0, i as nat);
}

/// The values of FFmpeg's named layout masks.
proof fn lemma_named_layout_masks()
    ensures
        AV_CH_LAYOUT_MONO == 0x4u64,
        AV_CH_LAYOUT_STEREO == 0x3u64,
        AV_CH_LAYOUT_2POINT1 == 0xbu64,
        AV_CH_LAYOUT_2_1 == 0x103u64,
        AV_CH_LAYOUT_SURROUND == 0x7u64,
        AV_CH_LAYOUT_3POINT1 == 0xfu64,
        AV_CH_LAYOUT_4POINT0 == 0x107u64,
        AV_CH_LAYOUT_4POINT1 == 0x10fu64,
        AV_CH_LAYOUT_2_2 == 0x603u64,
        AV_CH_LAYOUT_QUAD == 0x33u64,
        AV_CH_LAYOUT_5POINT0 == 0x607u64,
        AV_CH_LAYOUT_5POINT1 == 0x60fu64,
        AV_CH_LAYOUT_5POINT0_BACK == 0x37u64,
        AV_CH_LAYOUT_5POINT1_BACK == 0x3fu64,
        AV_CH_LAYOUT_6POINT0 == 0x707u64,
        AV_CH_LAYOUT_6POINT0_FRONT == 0x6c3u64,
        AV_CH_LAYOUT_HEXAGONAL == 0x137u64,
        AV_CH_LAYOUT_3POINT1POINT2 == 0x500fu64,
        AV_CH_LAYOUT_6POINT1 == 0x70fu64,
        AV_CH_LAYOUT_6POINT1_BACK == 0x13fu64,
        AV_CH_LAYOUT_6POINT1_FRONT == 0x6cbu64,
        AV_CH_LAYOUT_7POINT0 == 0x637u64,
        AV_CH_LAYOUT_7POINT0_FRONT == 0x6c7u64,
        AV_CH_LAYOUT_7POINT1 == 0x63fu64,
        AV_CH_LAYOUT_7POINT1_WIDE == 0x6cfu64,
        AV_CH_LAYOUT_7POINT1_WIDE_BACK == 0xffu64,
        AV_CH_LAYOUT_5POINT1POINT2_BACK == 0x503fu64,
        AV_CH_LAYOUT_OCTAGONAL == 0x737u64,
        AV_CH_LAYOUT_CUBE == 0x2d033u64,
        AV_CH_LAYOUT_5POINT1POINT4_BACK == 0x2d03fu64,
        AV_CH_LAYOUT_7POINT1POINT2 == 0x563fu64,
        AV_CH_LAYOUT_7POINT1POINT4_BACK == 0x2d63fu64,
        AV_CH_LAYOUT_7POINT2POINT3 == 0x80001563fu64,
        AV_CH_LAYOUT_9POINT1POINT4_BACK == 0x2d6ffu64,
        AV_CH_LAYOUT_HEXADECAGONAL == 0x18003f737u64,
        AV_CH_LAYOUT_STEREO_DOWNMIX == 0x60000000u64,
        AV_CH_LAYOUT_22POINT2 == 0x1f80003ffffu64,
        AV_CH_LAYOUT_7POINT1_TOP_BACK == 0x503fu64,
{
    assert(
        AV_CH_LAYOUT_MONO == 0x4u64 &&
        AV_CH_LAYOUT_STEREO == 0x3u64 &&
        AV_CH_LAYOUT_2POINT1 == 0xbu64 &&
        AV_CH_LAYOUT_2_1 == 0x103u64 &&
        AV_CH_LAYOUT_SURROUND == 0x7u64 &&
        AV_CH_LAYOUT_3POINT1 == 0xfu64 &&
        AV_CH_LAYOUT_4POINT0 == 0x107u64 &&
        AV_CH_LAYOUT_4POINT1 == 0x10fu64 &&
        AV_CH_LAYOUT_2_2 == 0x603u64 &&
        AV_CH_LAYOUT_QUAD == 0x33u64 &&
        AV_CH_LAYOUT_5POINT0 == 0x607u64 &&
        AV_CH_LAYOUT_5POINT1 == 0x60fu64 &&
        AV_CH_LAYOUT_5POINT0_BACK == 0x37u64 &&
        AV_CH_LAYOUT_5POINT1_BACK == 0x3fu64 &&
        AV_CH_LAYOUT_6POINT0 == 0x707u64 &&
        AV_CH_LAYOUT_6POINT0_FRONT == 0x6c3u64 &&
        AV_CH_LAYOUT_HEXAGONAL == 0x137u64 &&
        AV_CH_LAYOUT_3POINT1POINT2 == 0x500fu64 &&
        AV_CH_LAYOUT_6POINT1 == 0x70fu64 &&
        AV_CH_LAYOUT_6POINT1_BACK == 0x13fu64 &&
        AV_CH_LAYOUT_6POINT1_FRONT == 0x6cbu64 &&
        AV_CH_LAYOUT_7POINT0 == 0x637u64 &&
        AV_CH_LAYOUT_7POINT0_FRONT == 0x6c7u64 &&
        AV_CH_LAYOUT_7POINT1 == 0x63fu64 &&
        AV_CH_LAYOUT_7POINT1_WIDE == 0x6cfu64 &&
        AV_CH_LAYOUT_7POINT1_WIDE_BACK == 0xffu64 &&
        AV_CH_LAYOUT_5POINT1POINT2_BACK == 0x503fu64 &&
        AV_CH_LAYOUT_OCTAGONAL == 0x737u64 &&
        AV_CH_LAYOUT_CUBE == 0x2d033u64 &&
        AV_CH_LAYOUT_5POINT1POINT4_BACK == 0x2d03fu64 &&
        AV_CH_LAYOUT_7POINT1POINT2 == 0x563fu64 &&
        AV_CH_LAYOUT_7POINT1POINT4_BACK == 0x2d63fu64 &&
        AV_CH_LAYOUT_7POINT2POINT3 == 0x80001563fu64 &&
        AV_CH_LAYOUT_9POINT1POINT4_BACK == 0x2d6ffu64 &&
        AV_CH_LAYOUT_HEXADECAGONAL == 0x18003f737u64 &&
        AV_CH_LAYOUT_STEREO_DOWNMIX == 0x60000000u64 &&
        AV_CH_LAYOUT_22POINT2 == 0x1f80003ffffu64 &&
        AV_CH_LAYOUT_7POINT1_TOP_BACK == 0x503fu64
    ) by (bit_vector);
}

/// A native layout with the channels of one of FFmpeg's named layouts
/// (`AV_CH_LAYOUT_*`, with its channel count) is tagged with that layout's
/// kind; 7.1 (top back), whose channels are those of 5.1.2 (back), reads as
/// 5.1.2 (back).
pub proof fn law_named_kinds_follow_ffmpeg_masks(l: RawChannelLayout)
    requires
        l.order == AV_CHANNEL_ORDER_NATIVE,
    ensures
        (l.nb_channels == 1 && l.mask == AV_CH_LAYOUT_MONO) ==> spec_layout_kind(l) == ChannelLayoutKind::Mono,
        (l.nb_channels == 2 && l.mask == AV_CH_LAYOUT_STEREO) ==> spec_layout_kind(l) == ChannelLayoutKind::Stereo,
        (l.nb_channels == 2 && l.mask == AV_CH_LAYOUT_STEREO_DOWNMIX) ==> spec_layout_kind(l) == ChannelLayoutKind::StereoDownmix,
        (l.nb_channels == 3 && l.mask == AV_CH_LAYOUT_SURROUND) ==> spec_layout_kind(l) == ChannelLayoutKind::Surround,
        (l.nb_channels == 4 && l.mask == AV_CH_LAYOUT_QUAD) ==> spec_layout_kind(l) == ChannelLayoutKind::Quad,
        (l.nb_channels == 6 && l.mask == AV_CH_LAYOUT_HEXAGONAL) ==> spec_layout_kind(l) == ChannelLayoutKind::Hexagonal,
        (l.nb_channels == 8 && l.mask == AV_CH_LAYOUT_OCTAGONAL) ==> spec_layout_kind(l) == ChannelLayoutKind::Octagonal,
        (l.nb_channels == 16 && l.mask == AV_CH_LAYOUT_HEXADECAGONAL) ==> spec_layout_kind(l) == ChannelLayoutKind::Hexadecagonal,
        (l.nb_channels == 8 && l.mask == AV_CH_LAYOUT_CUBE) ==> spec_layout_kind(l) == ChannelLayoutKind::Cube,
        (l.nb_channels == 3 && l.mask == AV_CH_LAYOUT_2POINT1) ==> spec_layout_kind(l) == ChannelLayoutKind::Ch2_1,
        (l.nb_channels == 3 && l.mask == AV_CH_LAYOUT_2_1) ==> spec_layout_kind(l) == ChannelLayoutKind::Ch2_1Alt,
        (l.nb_channels == 4 && l.mask == AV_CH_LAYOUT_2_2) ==> spec_layout_kind(l) == ChannelLayoutKind::Ch2_2,
        (l.nb_channels == 4 && l.mask == AV_CH_LAYOUT_3POINT1) ==> spec_layout_kind(l) == ChannelLayoutKind::Ch3_1,
        (l.nb_channels == 6 && l.mask == AV_CH_LAYOUT_3POINT1POINT2) ==> spec_layout_kind(l) == ChannelLayoutKind::Ch3_1_2,
        (l.nb_channels == 4 && l.mask == AV_CH_LAYOUT_4POINT0) ==> spec_layout_kind(l) == ChannelLayoutKind::Ch4_0,
        (l.nb_channels == 5 && l.mask == AV_CH_LAYOUT_4POINT1) ==> spec_layout_kind(l) == ChannelLayoutKind::Ch4_1,
        (l.nb_channels == 5 && l.mask == AV_CH_LAYOUT_5POINT0) ==> spec_layout_kind(l) == ChannelLayoutKind::Ch5_0,
        (l.nb_channels == 5 && l.mask == AV_CH_LAYOUT_5POINT0_BACK) ==> spec_layout_kind(l) == ChannelLayoutKind::Ch5_0Back,
        (l.nb_channels == 6 && l.mask == AV_CH_LAYOUT_5POINT1) ==> spec_layout_kind(l) == ChannelLayoutKind::Ch5_1,
        (l.nb_channels == 6 && l.mask == AV_CH_LAYOUT_5POINT1_BACK) ==> spec_layout_kind(l) == ChannelLayoutKind::Ch5_1Back,
        (l.nb_channels == 8 && l.mask == AV_CH_LAYOUT_5POINT1POINT2_BACK) ==> spec_layout_kind(l) == ChannelLayoutKind::Ch5_1_2Back,
        (l.nb_channels == 10 && l.mask == AV_CH_LAYOUT_5POINT1POINT4_BACK) ==> spec_layout_kind(l) == ChannelLayoutKind::Ch5_1_4Back,
        (l.nb_channels == 6 && l.mask == AV_CH_LAYOUT_6POINT0) ==> spec_layout_kind(l) == ChannelLayoutKind::Ch6_0,
        (l.nb_channels == 6 && l.mask == AV_CH_LAYOUT_6POINT0_FRONT) ==> spec_layout_kind(l) == ChannelLayoutKind::Ch6_0Front,
        (l.nb_channels == 7 && l.mask == AV_CH_LAYOUT_6POINT1) ==> spec_layout_kind(l) == ChannelLayoutKind::Ch6_1,
        (l.nb_channels == 7 && l.mask == AV_CH_LAYOUT_6POINT1_BACK) ==> spec_layout_kind(l) == ChannelLayoutKind::Ch6_1Back,
        (l.nb_channels == 7 && l.mask == AV_CH_LAYOUT_6POINT1_FRONT) ==> spec_layout_kind(l) == ChannelLayoutKind::Ch6_1Front,
        (l.nb_channels == 7 && l.mask == AV_CH_LAYOUT_7POINT0) ==> spec_layout_kind(l) == ChannelLayoutKind::Ch7_0,
        (l.nb_channels == 7 && l.mask == AV_CH_LAYOUT_7POINT0_FRONT) ==> spec_layout_kind(l) == ChannelLayoutKind::Ch7_0Front,
        (l.nb_channels == 8 && l.mask == AV_CH_LAYOUT_7POINT1) ==> spec_layout_kind(l) == ChannelLayoutKind::Ch7_1,
        (l.nb_channels == 8 && l.mask == AV_CH_LAYOUT_7POINT1_WIDE) ==> spec_layout_kind(l) == ChannelLayoutKind::Ch7_1Wide,
        (l.nb_channels == 8 && l.mask == AV_CH_LAYOUT_7POINT1_WIDE_BACK) ==> spec_layout_kind(l) == ChannelLayoutKind::Ch7_1WideBack,
        (l.nb_channels == 8 && l.mask == AV_CH_LAYOUT_7POINT1_TOP_BACK) ==> spec_layout_kind(l) == ChannelLayoutKind::Ch5_1_2Back,
        (l.nb_channels == 10 && l.mask == AV_CH_LAYOUT_7POINT1POINT2) ==> spec_layout_kind(l) == ChannelLayoutKind::Ch7_1_2,
        (l.nb_channels == 12 && l.mask == AV_CH_LAYOUT_7POINT1POINT4_BACK) ==> spec_layout_kind(l) == ChannelLayoutKind::Ch7_1_4Back,
        (l.nb_channels == 12 && l.mask == AV_CH_LAYOUT_7POINT2POINT3) ==> spec_layout_kind(l) == ChannelLayoutKind::Ch7_2_3,
        (l.nb_channels == 14 && l.mask == AV_CH_LAYOUT_9POINT1POINT4_BACK) ==> spec_layout_kind(l) == ChannelLayoutKind::Ch9_1_4Back,
        (l.nb_channels == 24 && l.mask == AV_CH_LAYOUT_22POINT2) ==> spec_layout_kind(l) == ChannelLayoutKind::Ch22_2,
{
    lemma_named_layout_masks();
    if l.nb_channels == 1 && l.mask == AV_CH_LAYOUT_MONO {
        law_named_layout_roundtrip(l, 0);
    }
    if l.nb_channels == 2 && l.mask == AV_CH_LAYOUT_STEREO {
        law_named_layout_roundtrip(l, 1);
    }
    if l.nb_channels == 2 && l.mask == AV_CH_LAYOUT_STEREO_DOWNMIX {
        law_named_layout_roundtrip(l, 2);
    }
    if l.nb_channels == 3 && l.mask == AV_CH_LAYOUT_SURROUND {
        law_named_layout_roundtrip(l, 3);
    }
    if l.nb_channels == 4 && l.mask == AV_CH_LAYOUT_QUAD {
        law_named_layout_roundtrip(l, 4);
    }
    if l.nb_channels == 6 && l.mask == AV_CH_LAYOUT_HEXAGONAL {
        law_named_layout_roundtrip(l, 5);
    }
    if l.nb_channels == 8 && l.mask == AV_CH_LAYOUT_OCTAGONAL {
        law_named_layout_roundtrip(l, 6);
    }
    if l.nb_channels == 16 && l.mask == AV_CH_LAYOUT_HEXADECAGONAL {
        law_named_layout_roundtrip(l, 7);
    }
    if l.nb_channels == 8 && l.mask == AV_CH_LAYOUT_CUBE {
        law_named_layout_roundtrip(l, 8);
    }
    if l.nb_channels == 3 && l.mask == AV_CH_LAYOUT_2POINT1 {
        law_named_layout_roundtrip(l, 9);
    }
    if l.nb_channels == 3 && l.mask == AV_CH_LAYOUT_2_1 {
        law_named_layout_roundtrip(l, 10);
    }
    if l.nb_channels == 4 && l.mask == AV_CH_LAYOUT_2_2 {
        law_named_layout_roundtrip(l, 11);
    }
    if l.nb_channels == 4 && l.mask == AV_CH_LAYOUT_3POINT1 {
        law_named_layout_roundtrip(l, 12);
    }
    if l.nb_channels == 6 && l.mask == AV_CH_LAYOUT_3POINT1POINT2 {
        law_named_layout_roundtrip(l, 13);
    }
    if l.nb_channels == 4 && l.mask == AV_CH_LAYOUT_4POINT0 {
        law_named_layout_roundtrip(l, 14);
    }
    if l.nb_channels == 5 && l.mask == AV_CH_LAYOUT_4POINT1 {
        law_named_layout_roundtrip(l, 15);
    }
    if l.nb_channels == 5 && l.mask == AV_CH_LAYOUT_5POINT0 {
        law_named_layout_roundtrip(l, 16);
    }
    if l.nb_channels == 5 && l.mask == AV_CH_LAYOUT_5POINT0_BACK {
        law_named_layout_roundtrip(l, 17);
    }
    if l.nb_channels == 6 && l.mask == AV_CH_LAYOUT_5POINT1 {
        law_named_layout_roundtrip(l, 18);
    }
    if l.nb_channels == 6 && l.mask == AV_CH_LAYOUT_5POINT1_BACK {
        law_named_layout_roundtrip(l, 19);
    }
    if l.nb_channels == 8 && l.mask == AV_CH_LAYOUT_5POINT1POINT2_BACK {
        law_named_layout_roundtrip(l, 20);
    }
    if l.nb_channels == 10 && l.mask == AV_CH_LAYOUT_5POINT1POINT4_BACK {
        law_named_layout_roundtrip(l, 21);
    }
    if l.nb_channels == 6 && l.mask == AV_CH_LAYOUT_6POINT0 {
        law_named_layout_roundtrip(l, 22);
    }
    if l.nb_channels == 6 && l.mask == AV_CH_LAYOUT_6POINT0_FRONT {
        law_named_layout_roundtrip(l, 23);
    }
    if l.nb_channels == 7 && l.mask == AV_CH_LAYOUT_6POINT1 {
        law_named_layout_roundtrip(l, 24);
    }
    if l.nb_channels == 7 && l.mask == AV_CH_LAYOUT_6POINT1_BACK {
        law_named_layout_roundtrip(l, 25);
    }
    if l.nb_channels == 7 && l.mask == AV_CH_LAYOUT_6POINT1_FRONT {
        law_named_layout_roundtrip(l, 26);
    }
    if l.nb_channels == 7 && l.mask == AV_CH_LAYOUT_7POINT0 {
        law_named_layout_roundtrip(l, 27);
    }
    if l.nb_channels == 7 && l.mask == AV_CH_LAYOUT_7POINT0_FRONT {
        law_named_layout_roundtrip(l, 28);
    }
    if l.nb_channels == 8 && l.mask == AV_CH_LAYOUT_7POINT1 {
        law_named_layout_roundtrip(l, 29);
    }
    if l.nb_channels == 8 && l.mask == AV_CH_LAYOUT_7POINT1_WIDE {
        law_named_layout_roundtrip(l, 30);
    }
    if l.nb_channels == 8 && l.mask == AV_CH_LAYOUT_7POINT1_WIDE_BACK {
        law_named_layout_roundtrip(l, 31);
    }
    if l.nb_channels == 8 && l.mask == AV_CH_LAYOUT_7POINT1_TOP_BACK {
        law_named_layout_roundtrip(l, 20);
    }
    if l.nb_channels == 10 && l.mask == AV_CH_LAYOUT_7POINT1POINT2 {
        law_named_layout_roundtrip(l, 33);
    }
    if l.nb_channels == 12 && l.mask == AV_CH_LAYOUT_7POINT1POINT4_BACK {
        law_named_layout_roundtrip(l, 34);
    }
    if l.nb_channels == 12 && l.mask == AV_CH_LAYOUT_7POINT2POINT3 {
        law_named_layout_roundtrip(l, 35);
    }
    if l.nb_channels == 14 && l.mask == AV_CH_LAYOUT_9POINT1POINT4_BACK {
        law_named_layout_roundtrip(l, 36);
    }
    if l.nb_channels == 24 && l.mask == AV_CH_LAYOUT_22POINT2 {
        law_named_layout_roundtrip(l, 37);
    }
}


/// Each `AVChannelOrder` code FFmpeg's header names reads as the ordering
/// scheme of that name, and no other code does; every other code is
/// unspecified.
pub proof fn law_order_codes()
    ensures
        forall|c: i32| (#[trigger] spec_order_kind(c) == AudioChannelOrderKind::Native) <==> c == AV_CHANNEL_ORDER_NATIVE,
        forall|c: i32| (#[trigger] spec_order_kind(c) == AudioChannelOrderKind::Custom) <==> c == AV_CHANNEL_ORDER_CUSTOM,
        forall|c: i32| (#[trigger] spec_order_kind(c) == AudioChannelOrderKind::Ambisonic) <==> c == AV_CHANNEL_ORDER_AMBISONIC,
        spec_order_kind(AV_CHANNEL_ORDER_UNSPEC) == AudioChannelOrderKind::Unspecified,
{
}

/// The channels of a native mask are exactly the numbers of its set bits,
/// each once, in increasing order.
pub proof fn law_mask_channels(mask: u64)
    ensures
        forall|j: int| 0 <= j < mask_channels(mask).len() ==> {
            let c = #[trigger] mask_channels(mask)[j];
            0 <= c < 64 && mask & (1u64 << (c as u64)) != 0
        },
        forall|j: int, k: int| 0 <= j < k < mask_channels(mask).len() ==> #[trigger] mask_channels(mask)[j] < #[trigger] mask_channels(mask)[k],
        forall|c: u64| c < 64 && mask & (1u64 << c) != 0 ==> #[trigger] mask_channels(mask).contains(c as i32),
{
    lemma_mask_channels_from(mask, 0);
}

/// `mask_channels_from(mask, i)` lists the set bits of `mask` from bit `i`
/// upward, in increasing order.
proof fn lemma_mask_channels_from(mask: u64, i: nat)
    ensures
        forall|j: int| 0 <= j < mask_channels_from(mask, i).len() ==> {
            let c = #[trigger] mask_channels_from(mask, i)[j];
            i <= c < 64 && mask & (1u64 << (c as u64)) != 0
        },
        forall|j: int, k: int| 0 <= j < k < mask_channels_from(mask, i).len() ==> #[trigger] mask_channels_from(mask, i)[j]
            < #[trigger] mask_channels_from(mask, i)[k],
        forall|c: u64| i <= c < 64 && mask & (1u64 << c) != 0 ==> #[trigger] mask_channels_from(mask, i).contains(c as i32),
    decreases 64 - i,
{
    if i < 64 {
        lemma_mask_channels_from(mask, i + 1);
        let rest = mask_channels_from(mask, i + 1);
        let s = mask_channels_from(mask, i);
        if mask & (1u64 << (i as u64)) != 0 {
            let head = seq![i as i32];
            assert(s == head + rest);
            assert forall|j: int| 0 <= j < s.len() implies {
                let c = #[trigger] s[j];
                i <= c < 64 && mask & (1u64 << (c as u64)) != 0
            } by {
                if j > 0 {
                    assert(s[j] == rest[j - 1]);
                }
            }
            assert forall|j: int, k: int| 0 <= j < k < s.len() implies #[trigger] s[j] < #[trigger] s[k] by {
                assert(s[k] == rest[k - 1]);
                if j > 0 {
                    assert(s[j] == rest[j - 1]);
                }
            }
            assert forall|c: u64| i <= c < 64 && mask & (1u64 << c) != 0 implies #[trigger] s.contains(c as i32) by {
                if c == i {
                    assert(s[0] == c as i32);
                } else {
                    assert(rest.contains(c as i32));
                    let j = choose|j: int| 0 <= j < rest.len() && rest[j] == c as i32;
                    assert(s[j + 1] == c as i32);
                }
            }
        } else {
            assert forall|c: u64| i <= c < 64 && mask & (1u64 << c) != 0 implies #[trigger] s.contains(c as i32) by {
                if c == i {
                    assert(mask & (1u64 << (i as u64)) != 0);
                } else {
                    assert(rest.contains(c as i32));
                }
            }
        }
    }
}

} // verus!
