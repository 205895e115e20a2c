//! Conversion decisions from FFmpeg's raw frame fields to the library's
//! frame types.
//!
//! FFmpeg hands a decoder an `AVFrame`: a C struct of integer codes, plane
//! pointers, line sizes and reference-counted buffers. Reading that struct
//! is pointer work; deciding what it means is not. This module holds the
//! deciding half: every function here takes the fields as plain values (a
//! pointer becomes its address, `0` for null) and returns the library's
//! description of the frame, with each plane given as a view (buffer index,
//! byte offset, byte length) into the frame's own buffers.
//!
//! The integer codes are those of FFmpeg's public headers
//! (`libavutil/pixfmt.h`, `libavutil/frame.h`, `libavutil/avutil.h`).

use vstd::prelude::*;
use vstd::string::StringExecFns;

use crate::color::{ChromaLocation, ColorInfo, ColorMatrix, ColorPrimaries, ColorRange, ColorTransfer};
use crate::channel_layout::{
    audio_channel_layout_from_ffmpeg, layout_matches, map_covers_channels, AudioChannelLayout,
    RawChannelLayout,
};
use crate::extras::{AudioFrameExtra, PictureType, SideDataEntry, VideoFrameExtra};
use crate::frame::Rect;
use crate::timing::{spec_stream_timestamp, stream_timestamp};
use mediatime::{Timebase, Timestamp};

verus! {

/// FFmpeg's `AV_NOPTS_VALUE`: the timestamp that means "no timestamp".
pub const AV_NOPTS_VALUE: i64 = -9223372036854775808i64;

/// `AV_FRAME_FLAG_KEY`: the frame is a keyframe.
pub const AV_FRAME_FLAG_KEY: i32 = 2;

/// `AV_FRAME_FLAG_INTERLACED`: the frame's content is interlaced.
pub const AV_FRAME_FLAG_INTERLACED: i32 = 8;

/// `AV_FRAME_FLAG_TOP_FIELD_FIRST`: the top field is displayed first.
pub const AV_FRAME_FLAG_TOP_FIELD_FIRST: i32 = 16;

// The codes of FFmpeg's colour and picture-type enums, as its headers
// (`libavutil/pixfmt.h`, `libavutil/avutil.h`) number them.

/// `AVCOL_PRI_BT709`.
pub const AVCOL_PRI_BT709: i32 = 1;
/// `AVCOL_PRI_UNSPECIFIED`.
pub const AVCOL_PRI_UNSPECIFIED: i32 = 2;
/// `AVCOL_PRI_BT470M`.
pub const AVCOL_PRI_BT470M: i32 = 4;
/// `AVCOL_PRI_BT470BG`.
pub const AVCOL_PRI_BT470BG: i32 = 5;
/// `AVCOL_PRI_SMPTE170M`.
pub const AVCOL_PRI_SMPTE170M: i32 = 6;
/// `AVCOL_PRI_SMPTE240M`.
pub const AVCOL_PRI_SMPTE240M: i32 = 7;
/// `AVCOL_PRI_FILM`.
pub const AVCOL_PRI_FILM: i32 = 8;
/// `AVCOL_PRI_BT2020`.
pub const AVCOL_PRI_BT2020: i32 = 9;
/// `AVCOL_PRI_SMPTE428`.
pub const AVCOL_PRI_SMPTE428: i32 = 10;
/// `AVCOL_PRI_SMPTE431`.
pub const AVCOL_PRI_SMPTE431: i32 = 11;
/// `AVCOL_PRI_SMPTE432`.
pub const AVCOL_PRI_SMPTE432: i32 = 12;
/// `AVCOL_PRI_EBU3213`.
pub const AVCOL_PRI_EBU3213: i32 = 22;

/// `AVCOL_TRC_BT709`.
pub const AVCOL_TRC_BT709: i32 = 1;
/// `AVCOL_TRC_UNSPECIFIED`.
pub const AVCOL_TRC_UNSPECIFIED: i32 = 2;
/// `AVCOL_TRC_GAMMA22` (BT.470 System M).
pub const AVCOL_TRC_GAMMA22: i32 = 4;
/// `AVCOL_TRC_GAMMA28` (BT.470 System BG).
pub const AVCOL_TRC_GAMMA28: i32 = 5;
/// `AVCOL_TRC_SMPTE170M`.
pub const AVCOL_TRC_SMPTE170M: i32 = 6;
/// `AVCOL_TRC_SMPTE240M`.
pub const AVCOL_TRC_SMPTE240M: i32 = 7;
/// `AVCOL_TRC_LINEAR`.
pub const AVCOL_TRC_LINEAR: i32 = 8;
/// `AVCOL_TRC_LOG` (100:1).
pub const AVCOL_TRC_LOG: i32 = 9;
/// `AVCOL_TRC_LOG_SQRT` (316.22:1).
pub const AVCOL_TRC_LOG_SQRT: i32 = 10;
/// `AVCOL_TRC_IEC61966_2_4`.
pub const AVCOL_TRC_IEC61966_2_4: i32 = 11;
/// `AVCOL_TRC_BT1361_ECG`.
pub const AVCOL_TRC_BT1361_ECG: i32 = 12;
/// `AVCOL_TRC_IEC61966_2_1`.
pub const AVCOL_TRC_IEC61966_2_1: i32 = 13;
/// `AVCOL_TRC_BT2020_10`.
pub const AVCOL_TRC_BT2020_10: i32 = 14;
/// `AVCOL_TRC_BT2020_12`.
pub const AVCOL_TRC_BT2020_12: i32 = 15;
/// `AVCOL_TRC_SMPTE2084`.
pub const AVCOL_TRC_SMPTE2084: i32 = 16;
/// `AVCOL_TRC_SMPTE428`.
pub const AVCOL_TRC_SMPTE428: i32 = 17;
/// `AVCOL_TRC_ARIB_STD_B67`.
pub const AVCOL_TRC_ARIB_STD_B67: i32 = 18;

/// `AVCOL_SPC_BT709`.
pub const AVCOL_SPC_BT709: i32 = 1;
/// `AVCOL_SPC_FCC`.
pub const AVCOL_SPC_FCC: i32 = 4;
/// `AVCOL_SPC_BT470BG`.
pub const AVCOL_SPC_BT470BG: i32 = 5;
/// `AVCOL_SPC_SMPTE170M`.
pub const AVCOL_SPC_SMPTE170M: i32 = 6;
/// `AVCOL_SPC_SMPTE240M`.
pub const AVCOL_SPC_SMPTE240M: i32 = 7;
/// `AVCOL_SPC_YCGCO`.
pub const AVCOL_SPC_YCGCO: i32 = 8;
/// `AVCOL_SPC_BT2020_NCL`.
pub const AVCOL_SPC_BT2020_NCL: i32 = 9;

/// `AVCOL_RANGE_MPEG` (limited).
pub const AVCOL_RANGE_MPEG: i32 = 1;
/// `AVCOL_RANGE_JPEG` (full).
pub const AVCOL_RANGE_JPEG: i32 = 2;

/// `AVCHROMA_LOC_LEFT`.
pub const AVCHROMA_LOC_LEFT: i32 = 1;
/// `AVCHROMA_LOC_CENTER`.
pub const AVCHROMA_LOC_CENTER: i32 = 2;
/// `AVCHROMA_LOC_TOPLEFT`.
pub const AVCHROMA_LOC_TOPLEFT: i32 = 3;
/// `AVCHROMA_LOC_TOP`.
pub const AVCHROMA_LOC_TOP: i32 = 4;
/// `AVCHROMA_LOC_BOTTOMLEFT`.
pub const AVCHROMA_LOC_BOTTOMLEFT: i32 = 5;
/// `AVCHROMA_LOC_BOTTOM`.
pub const AVCHROMA_LOC_BOTTOM: i32 = 6;

/// `AV_PICTURE_TYPE_I`.
pub const AV_PICTURE_TYPE_I: i32 = 1;
/// `AV_PICTURE_TYPE_P`.
pub const AV_PICTURE_TYPE_P: i32 = 2;
/// `AV_PICTURE_TYPE_B`.
pub const AV_PICTURE_TYPE_B: i32 = 3;
/// `AV_PICTURE_TYPE_S`.
pub const AV_PICTURE_TYPE_S: i32 = 4;
/// `AV_PICTURE_TYPE_SI`.
pub const AV_PICTURE_TYPE_SI: i32 = 5;
/// `AV_PICTURE_TYPE_SP`.
pub const AV_PICTURE_TYPE_SP: i32 = 6;
/// `AV_PICTURE_TYPE_BI`.
pub const AV_PICTURE_TYPE_BI: i32 = 7;

/// Errors from converting an FFmpeg frame.
#[derive(Debug, Clone, Copy, PartialEq, Eq, Structural)]
#[non_exhaustive]
pub enum ConvertError {
    /// The frame pointer was null.
    NullFrame,
    /// The frame's pixel format (the raw `AVPixelFormat` code) is outside
    /// the closed set of CPU formats whose planes can be described safely.
    UnsupportedPixelFormat(i32),
    /// A plane the format uses reported a line size of zero or less, or an
    /// otherwise inconsistent layout.
    InvalidPlaneLayout {
        /// Plane index.
        plane: usize,
    },
    /// No buffer of the frame holds the plane (or a buffer could not be
    /// acquired for it).
    BufferAcquireFailed {
        /// Plane index whose buffer could not be found.
        plane: usize,
    },
}

/// The timestamp a raw FFmpeg timestamp field carries: none when it is
/// `AV_NOPTS_VALUE`.
pub open spec fn spec_timestamp(raw: i64) -> Option<i64> {
    if raw == AV_NOPTS_VALUE {
        None
    } else {
        Some(raw)
    }
}

/// The duration a raw FFmpeg duration field carries: only a positive one.
pub open spec fn spec_duration(raw: i64) -> Option<i64> {
    if raw > 0 {
        Some(raw)
    } else {
        None
    }
}

/// The timestamp carried by a raw FFmpeg timestamp field.
pub fn timestamp_from_raw(raw: i64) -> (r: Option<i64>)
    ensures
        r == spec_timestamp(raw),
{
    if raw != AV_NOPTS_VALUE {
        Some(raw)
    } else {
        None
    }
}

/// The duration carried by a raw FFmpeg duration field.
pub fn duration_from_raw(raw: i64) -> (r: Option<i64>)
    ensures
        r == spec_duration(raw),
{
    if raw > 0 {
        Some(raw)
    } else {
        None
    }
}

/// The primaries an `AVColorPrimaries` code names.
pub open spec fn spec_primaries(raw: i32) -> ColorPrimaries {
    match raw {
        1 => ColorPrimaries::Bt709,
        2 => ColorPrimaries::Unspecified,
        4 => ColorPrimaries::Bt470M,
        5 => ColorPrimaries::Bt470Bg,
        6 => ColorPrimaries::Smpte170M,
        7 => ColorPrimaries::Smpte240M,
        8 => ColorPrimaries::Film,
        9 => ColorPrimaries::Bt2020,
        10 => ColorPrimaries::SmpteSt428,
        11 => ColorPrimaries::SmpteRp431,
        12 => ColorPrimaries::SmpteEg432,
        22 => ColorPrimaries::Ebu3213E,
        _ => ColorPrimaries::Unspecified,
    }
}

/// The transfer characteristic an `AVColorTransferCharacteristic` code
/// names.
pub open spec fn spec_transfer(raw: i32) -> ColorTransfer {
    match raw {
        1 => ColorTransfer::Bt709,
        2 => ColorTransfer::Unspecified,
        4 => ColorTransfer::Bt470M,
        5 => ColorTransfer::Bt470Bg,
        6 => ColorTransfer::Smpte170M,
        7 => ColorTransfer::Smpte240M,
        8 => ColorTransfer::Linear,
        9 => ColorTransfer::Log100,
        10 => ColorTransfer::Log316,
        11 => ColorTransfer::Iec6196624,
        12 => ColorTransfer::Bt1361Ecg,
        13 => ColorTransfer::Iec6196621,
        14 => ColorTransfer::Bt2020_10Bit,
        15 => ColorTransfer::Bt2020_12Bit,
        16 => ColorTransfer::SmpteSt2084Pq,
        17 => ColorTransfer::SmpteSt428,
        18 => ColorTransfer::AribStdB67Hlg,
        _ => ColorTransfer::Unspecified,
    }
}

/// The matrix an `AVColorSpace` code names. The enum has no unspecified
/// value: every other code reads as BT.709, FFmpeg's default for HD sources.
pub open spec fn spec_matrix(raw: i32) -> ColorMatrix {
    match raw {
        1 => ColorMatrix::Bt709,
        9 => ColorMatrix::Bt2020Ncl,
        6 => ColorMatrix::Bt601,
        5 => ColorMatrix::Bt601,
        7 => ColorMatrix::Smpte240m,
        4 => ColorMatrix::Fcc,
        8 => ColorMatrix::YCgCo,
        _ => ColorMatrix::Bt709,
    }
}

/// The range an `AVColorRange` code names (`JPEG` is full, `MPEG` limited).
pub open spec fn spec_range(raw: i32) -> ColorRange {
    match raw {
        2 => ColorRange::Full,
        1 => ColorRange::Limited,
        _ => ColorRange::Unspecified,
    }
}

/// The chroma location an `AVChromaLocation` code names.
pub open spec fn spec_chroma_loc(raw: i32) -> ChromaLocation {
    match raw {
        1 => ChromaLocation::Left,
        2 => ChromaLocation::Center,
        3 => ChromaLocation::TopLeft,
        4 => ChromaLocation::Top,
        5 => ChromaLocation::BottomLeft,
        6 => ChromaLocation::Bottom,
        _ => ChromaLocation::Unspecified,
    }
}

/// Maps an `AVColorPrimaries` code to [`ColorPrimaries`].
pub fn map_primaries(raw: i32) -> (r: ColorPrimaries)
    ensures
        r == spec_primaries(raw),
{
    match raw {
        1 => ColorPrimaries::Bt709,
        2 => ColorPrimaries::Unspecified,
        4 => ColorPrimaries::Bt470M,
        5 => ColorPrimaries::Bt470Bg,
        6 => ColorPrimaries::Smpte170M,
        7 => ColorPrimaries::Smpte240M,
        8 => ColorPrimaries::Film,
        9 => ColorPrimaries::Bt2020,
        10 => ColorPrimaries::SmpteSt428,
        11 => ColorPrimaries::SmpteRp431,
        12 => ColorPrimaries::SmpteEg432,
        22 => ColorPrimaries::Ebu3213E,
        _ => ColorPrimaries::Unspecified,
    }
}

/// Maps an `AVColorTransferCharacteristic` code to [`ColorTransfer`].
pub fn map_transfer(raw: i32) -> (r: ColorTransfer)
    ensures
        r == spec_transfer(raw),
{
    match raw {
        1 => ColorTransfer::Bt709,
        2 => ColorTransfer::Unspecified,
        4 => ColorTransfer::Bt470M,
        5 => ColorTransfer::Bt470Bg,
        6 => ColorTransfer::Smpte170M,
        7 => ColorTransfer::Smpte240M,
        8 => ColorTransfer::Linear,
        9 => ColorTransfer::Log100,
        10 => ColorTransfer::Log316,
        11 => ColorTransfer::Iec6196624,
        12 => ColorTransfer::Bt1361Ecg,
        13 => ColorTransfer::Iec6196621,
        14 => ColorTransfer::Bt2020_10Bit,
        15 => ColorTransfer::Bt2020_12Bit,
        16 => ColorTransfer::SmpteSt2084Pq,
        17 => ColorTransfer::SmpteSt428,
        18 => ColorTransfer::AribStdB67Hlg,
        _ => ColorTransfer::Unspecified,
    }
}

/// Maps an `AVColorSpace` code to [`ColorMatrix`].
pub fn map_matrix(raw: i32) -> (r: ColorMatrix)
    ensures
        r == spec_matrix(raw),
{
    match raw {
        1 => ColorMatrix::Bt709,
        9 => ColorMatrix::Bt2020Ncl,
        6 => ColorMatrix::Bt601,
        5 => ColorMatrix::Bt601,
        7 => ColorMatrix::Smpte240m,
        4 => ColorMatrix::Fcc,
        8 => ColorMatrix::YCgCo,
        _ => ColorMatrix::Bt709,
    }
}

/// Maps an `AVColorRange` code to [`ColorRange`].
pub fn map_range(raw: i32) -> (r: ColorRange)
    ensures
        r == spec_range(raw),
{
    match raw {
        2 => ColorRange::Full,
        1 => ColorRange::Limited,
        _ => ColorRange::Unspecified,
    }
}

/// Maps an `AVChromaLocation` code to [`ChromaLocation`].
pub fn map_chroma_loc(raw: i32) -> (r: ChromaLocation)
    ensures
        r == spec_chroma_loc(raw),
{
    match raw {
        1 => ChromaLocation::Left,
        2 => ChromaLocation::Center,
        3 => ChromaLocation::TopLeft,
        4 => ChromaLocation::Top,
        5 => ChromaLocation::BottomLeft,
        6 => ChromaLocation::Bottom,
        _ => ChromaLocation::Unspecified,
    }
}

/// The picture type an `AVPictureType` code names.
pub open spec fn spec_picture_type(raw: i32) -> PictureType {
    match raw {
        1 => PictureType::I,
        2 => PictureType::P,
        3 => PictureType::B,
        4 => PictureType::S,
        5 => PictureType::Si,
        6 => PictureType::Sp,
        7 => PictureType::Bi,
        _ => PictureType::Unspecified,
    }
}

/// Maps an `AVPictureType` code to [`PictureType`].
pub fn map_picture_type(raw: i32) -> (r: PictureType)
    ensures
        r == spec_picture_type(raw),
{
    match raw {
        1 => PictureType::I,
        2 => PictureType::P,
        3 => PictureType::B,
        4 => PictureType::S,
        5 => PictureType::Si,
        6 => PictureType::Sp,
        7 => PictureType::Bi,
        _ => PictureType::Unspecified,
    }
}

/// A reference-counted buffer of a frame, by address range: `start` is the
/// address of its first byte (`0` when the buffer has no data) and `size`
/// its length in bytes.
#[derive(Debug, Clone, Copy, PartialEq, Eq, Structural)]
pub struct BufferRef {
    /// Address of the buffer's first byte, `0` for none.
    pub start: usize,
    /// Length of the buffer in bytes.
    pub size: usize,
}

/// One raw side-data entry of a frame: its `AVFrameSideDataType` code and
/// its payload (`None` when the payload pointer is null).
#[derive(Debug, Clone, PartialEq, Eq)]
pub struct RawSideData {
    /// The `AVFrameSideDataType` code.
    pub kind: i32,
    /// The payload bytes, `None` for a null payload.
    pub data: Option<Vec<u8>>,
}

/// A plain-value reading of the `AVFrame` fields the conversions consult.
///
/// Pointers are given by address (`0` for null); the buffer array holds
/// `None` for a null `AVBufferRef`; the side-data list holds `None` for a
/// null entry and is empty when the side-data array itself is null.
#[derive(Debug)]
pub struct RawFrame {
    /// `format`: the `AVPixelFormat` or `AVSampleFormat` code.
    pub format: i32,
    /// `width` in pixels.
    pub width: i32,
    /// `height` in pixels.
    pub height: i32,
    /// `sample_rate` in Hz (audio).
    pub sample_rate: i32,
    /// `nb_samples` per channel (audio).
    pub nb_samples: i32,
    /// `linesize[]`: bytes per line of each plane.
    pub linesize: [i32; 8],
    /// `data[]`: the address of each plane.
    pub data: [usize; 8],
    /// `buf[]`: the buffers that back the planes.
    pub buf: [Option<BufferRef>; 8],
    /// `pts`.
    pub pts: i64,
    /// `duration`.
    pub duration: i64,
    /// `best_effort_timestamp`.
    pub best_effort_timestamp: i64,
    /// `crop_left`.
    pub crop_left: usize,
    /// `crop_top`.
    pub crop_top: usize,
    /// `crop_right`.
    pub crop_right: usize,
    /// `crop_bottom`.
    pub crop_bottom: usize,
    /// `color_primaries` code.
    pub color_primaries: i32,
    /// `color_trc` code.
    pub color_trc: i32,
    /// `colorspace` code.
    pub colorspace: i32,
    /// `color_range` code.
    pub color_range: i32,
    /// `chroma_location` code.
    pub chroma_location: i32,
    /// `sample_aspect_ratio` as `(num, den)`.
    pub sample_aspect_ratio: (i32, i32),
    /// `pict_type` code.
    pub pict_type: i32,
    /// `flags` bit set.
    pub flags: i32,
    /// `side_data[]`.
    pub side_data: Vec<Option<RawSideData>>,
}

/// The difference `a - b`, or zero when `b` is larger.
pub open spec fn sat_sub(a: u32, b: u32) -> u32 {
    if a >= b {
        (a - b) as u32
    } else {
        0
    }
}

/// The visible rectangle `(x, y, width, height)` a frame's crop fields
/// describe, or none when nothing is cropped. The crop fields are read as
/// `u32` (truncating, as the frame's `size_t` fields are), and the size
/// shrinks by the crop on both sides without going below zero.
pub open spec fn spec_visible_rect(f: RawFrame, width: u32, height: u32) -> Option<(u32, u32, u32, u32)> {
    let l = f.crop_left as u32;
    let t = f.crop_top as u32;
    let r = f.crop_right as u32;
    let b = f.crop_bottom as u32;
    if l == 0 && t == 0 && r == 0 && b == 0 {
        None
    } else {
        Some((l, t, sat_sub(sat_sub(width, l), r), sat_sub(sat_sub(height, t), b)))
    }
}

/// The visible rectangle of a frame of the given size, from its crop
/// fields; `None` when the frame is not cropped.
pub fn build_visible_rect(frame: &RawFrame, width: u32, height: u32) -> (r: Option<Rect>)
    ensures
        match r {
            None => spec_visible_rect(*frame, width, height) is None,
            Some(rect) => spec_visible_rect(*frame, width, height) == Some(rect.parts()),
        },
{
    let crop_left = frame.crop_left as u32;
    let crop_top = frame.crop_top as u32;
    let crop_right = frame.crop_right as u32;
    let crop_bottom = frame.crop_bottom as u32;
    if crop_left == 0 && crop_top == 0 && crop_right == 0 && crop_bottom == 0 {
        return None;
    }
    let w0 = if width >= crop_left { width - crop_left } else { 0 };
    let w = if w0 >= crop_right { w0 - crop_right } else { 0 };
    let h0 = if height >= crop_top { height - crop_top } else { 0 };
    let h = if h0 >= crop_bottom { h0 - crop_bottom } else { 0 };
    Some(Rect::new(crop_left, crop_top, w, h))
}

/// The sample aspect ratio a raw `(num, den)` pair carries: only a proper
/// ratio (both parts positive) that is not 1:1.
pub open spec fn spec_sample_aspect_ratio(sar: (i32, i32)) -> Option<(u32, u32)> {
    if sar.0 > 0 && sar.1 > 0 && (sar.0 != 1 || sar.1 != 1) {
        Some((sar.0 as u32, sar.1 as u32))
    } else {
        None
    }
}

/// The bytes a raw side-data entry carries: none for a null payload.
pub open spec fn side_data_bytes(e: RawSideData) -> Seq<u8> {
    match e.data {
        Some(d) => d@,
        None => Seq::empty(),
    }
}

/// The non-null entries of a raw side-data list, in order.
pub open spec fn kept_side_data(raw: Seq<Option<RawSideData>>) -> Seq<RawSideData>
    decreases raw.len(),
{
    if raw.len() == 0 {
        Seq::empty()
    } else {
        let rest = kept_side_data(raw.drop_last());
        match raw.last() {
            Some(e) => rest.push(e),
            None => rest,
        }
    }
}

/// `out` is the side data a raw list carries: one entry per non-null raw
/// entry, in order, with the same kind and bytes.
pub open spec fn side_data_matches(out: Seq<SideDataEntry>, raw: Seq<Option<RawSideData>>) -> bool {
    let kept = kept_side_data(raw);
    &&& out.len() == kept.len()
    &&& forall|i: int|
        0 <= i < kept.len() ==> (#[trigger] out[i]).kind == kept[i].kind && out[i].data@
            == side_data_bytes(kept[i])
}

/// A copy of the first `n` bytes of `v`.
pub fn copy_prefix(v: &[u8], n: usize) -> (r: Vec<u8>)
    requires
        n <= v.len(),
    ensures
        r@ == v@.take(n as int),
{
    let mut out: Vec<u8> = Vec::new();
    let mut i: usize = 0;
    while i < n
        invariant
            n <= v.len(),
            i <= n,
            out@ == v@.take(i as int),
        decreases n - i,
    {
        out.push(v[i]);
        i = i + 1;
        assert(out@ == v@.take(i as int));
    }
    out
}

/// Copies a frame's side data out as raw bytes, skipping null entries.
pub fn collect_side_data(raw: &Vec<Option<RawSideData>>) -> (r: Vec<SideDataEntry>)
    ensures
        side_data_matches(r@, raw@),
{
    let mut out: Vec<SideDataEntry> = Vec::new();
    let mut i: usize = 0;
    while i < raw.len()
        invariant
            i <= raw.len(),
            side_data_matches(out@, raw@.take(i as int)),
        decreases raw.len() - i,
    {
        let ghost before = out@;
        assert(raw@.take(i + 1).drop_last() == raw@.take(i as int));
        match &raw[i] {
            Some(e) => {
                let data = match &e.data {
                    Some(d) => copy_prefix(d.as_slice(), d.len()),
                    None => Vec::new(),
                };
                assert(e.data matches Some(d) ==> d@.take(d@.len() as int) == d@);
                out.push(SideDataEntry { kind: e.kind, data });
            },
            None => {},
        }
        i = i + 1;
        proof {
            let kept = kept_side_data(raw@.take(i as int));
            assert forall|j: int| 0 <= j < kept.len() implies (#[trigger] out@[j]).kind == kept[j].kind
                && out@[j].data@ == side_data_bytes(kept[j]) by {
                if j < before.len() {
                    assert(out@[j] == before[j]);
                }
            }
        }
    }
    assert(raw@.take(raw.len() as int) == raw@);
    out
}

/// The extra metadata a raw frame carries, apart from its side data.
pub open spec fn extra_matches(x: VideoFrameExtra, f: RawFrame) -> bool {
    &&& x.sample_aspect_ratio == spec_sample_aspect_ratio(f.sample_aspect_ratio)
    &&& x.picture_type == spec_picture_type(f.pict_type)
    &&& x.key_frame == (f.flags & AV_FRAME_FLAG_KEY != 0)
    &&& x.interlaced == (f.flags & AV_FRAME_FLAG_INTERLACED != 0)
    &&& x.top_field_first == (f.flags & AV_FRAME_FLAG_TOP_FIELD_FIRST != 0)
    &&& x.best_effort_timestamp == spec_timestamp(f.best_effort_timestamp)
    &&& side_data_matches(x.side_data@, f.side_data@)
}

/// The backend-specific extras of a video frame: sample aspect ratio,
/// picture type, keyframe and field flags, best-effort timestamp and side
/// data.
pub fn build_video_frame_extra(frame: &RawFrame) -> (r: VideoFrameExtra)
    ensures
        extra_matches(r, *frame),
{
    let (sar_num, sar_den) = frame.sample_aspect_ratio;
    let sample_aspect_ratio = if sar_num > 0 && sar_den > 0 && (sar_num != 1 || sar_den != 1) {
        Some((sar_num as u32, sar_den as u32))
    } else {
        None
    };
    VideoFrameExtra {
        sample_aspect_ratio,
        picture_type: map_picture_type(frame.pict_type),
        key_frame: frame.flags & AV_FRAME_FLAG_KEY != 0,
        interlaced: frame.flags & AV_FRAME_FLAG_INTERLACED != 0,
        top_field_first: frame.flags & AV_FRAME_FLAG_TOP_FIELD_FIRST != 0,
        best_effort_timestamp: timestamp_from_raw(frame.best_effort_timestamp),
        side_data: collect_side_data(&frame.side_data),
    }
}

/// Whether buffer `b` holds the `bytes` bytes that start at address
/// `data`.
pub open spec fn buffer_holds(b: Option<BufferRef>, data: usize, bytes: usize) -> bool {
    match b {
        Some(r) => r.start != 0 && r.start <= data && data + bytes <= r.start + r.size,
        None => false,
    }
}

/// The first buffer, at index `k` or later, that holds the `bytes` bytes at
/// address `data`.
pub open spec fn first_holding(bufs: Seq<Option<BufferRef>>, data: usize, bytes: usize, k: int) -> Option<usize>
    decreases bufs.len() - k,
{
    if k < 0 || k >= bufs.len() {
        None
    } else if buffer_holds(bufs[k], data, bytes) {
        Some(k as usize)
    } else {
        first_holding(bufs, data, bytes, k + 1)
    }
}

/// The index of the frame buffer that backs the `bytes` bytes at address
/// `data`: the first buffer whose range contains them, or `None` when no
/// buffer does.
pub fn find_backing_buffer(bufs: &[Option<BufferRef>; 8], data: usize, bytes: usize) -> (r: Option<usize>)
    ensures
        r == first_holding(bufs@, data, bytes, 0),
{
    let mut i: usize = 0;
    while i < 8
        invariant
            i <= 8,
            bufs@.len() == 8,
            first_holding(bufs@, data, bytes, 0) == first_holding(bufs@, data, bytes, i as int),
        decreases 8 - i,
    {
        match bufs[i] {
            Some(b) => {
                if b.start != 0 && b.start <= data && data - b.start <= b.size && bytes <= b.size - (
                data - b.start) {
                    return Some(i);
                }
            },
            None => {},
        }
        i = i + 1;
    }
    None
}

/// A plane of a converted frame, as a view into one of the source frame's
/// buffers.
#[derive(Debug, Clone, Copy, PartialEq, Eq, Structural)]
pub struct PlaneView {
    /// Index of the backing buffer in the frame's buffer array.
    pub buffer: usize,
    /// Byte offset of the plane in that buffer.
    pub offset: usize,
    /// Length of the plane in bytes.
    pub len: usize,
    /// Bytes per line.
    pub stride: u32,
}

/// The pixel-format facts a video conversion relies on: whether the format
/// belongs to the closed set of CPU formats whose planes can be described,
/// and the height in lines of each of its planes (`None` past the format's
/// last plane).
#[derive(Debug, Clone, Copy)]
pub struct PixelLayout {
    /// Whether the format is a supported CPU format.
    pub supported: bool,
    /// The height in lines of each plane.
    pub plane_heights: [Option<usize>; 4],
}

/// What one plane slot of a frame yields.
#[derive(Debug, Clone, Copy, PartialEq, Eq, Structural)]
pub enum PlaneStep {
    /// No plane here: the frame's planes end before this slot.
    End,
    /// The slot is malformed.
    Fail(ConvertError),
    /// The slot holds this plane.
    View(PlaneView),
}

/// What plane slot `i` of a video frame yields: the planes end at the
/// first zero line size on a slot the format has no plane for; a zero line
/// size on a plane the format uses, a negative line size, a null plane, a slot the
/// format has no height for, or a size that does not fit in memory is a
/// layout error; a plane no buffer holds is a buffer error.
pub open spec fn spec_video_plane_step(f: RawFrame, layout: PixelLayout, i: int) -> PlaneStep {
    let ls = f.linesize[i];
    if ls <= 0 {
        if ls == 0 && layout.plane_heights[i] is None {
            PlaneStep::End
        } else {
            PlaneStep::Fail(ConvertError::InvalidPlaneLayout { plane: i as usize })
        }
    } else if f.data[i] == 0 {
        PlaneStep::Fail(ConvertError::InvalidPlaneLayout { plane: i as usize })
    } else {
        match layout.plane_heights[i] {
            None => PlaneStep::Fail(ConvertError::InvalidPlaneLayout { plane: i as usize }),
            Some(h) => if ls * h > usize::MAX {
                PlaneStep::Fail(ConvertError::InvalidPlaneLayout { plane: i as usize })
            } else {
                let bytes = (ls * h) as usize;
                match first_holding(f.buf@, f.data[i], bytes, 0) {
                    None => PlaneStep::Fail(ConvertError::BufferAcquireFailed { plane: i as usize }),
                    Some(k) => PlaneStep::View(
                        PlaneView {
                            buffer: k,
                            offset: (f.data[i] - f.buf@[k as int]->0.start) as usize,
                            len: bytes,
                            stride: ls as u32,
                        },
                    ),
                }
            },
        }
    }
}

/// The planes of a video frame from slot `i` on (there are four slots),
/// or the first error among them.
pub open spec fn spec_video_planes(f: RawFrame, layout: PixelLayout, i: nat) -> Result<Seq<PlaneView>, ConvertError>
    decreases 4 - i,
{
    if i >= 4 {
        Ok(Seq::empty())
    } else {
        match spec_video_plane_step(f, layout, i as int) {
            PlaneStep::End => Ok(Seq::empty()),
            PlaneStep::Fail(e) => Err(e),
            PlaneStep::View(v) => match spec_video_planes(f, layout, i + 1) {
                Ok(rest) => Ok(seq![v] + rest),
                Err(e) => Err(e),
            },
        }
    }
}

/// `acc` followed by the planes of `rest`, or the error of `rest`.
pub open spec fn prepend_planes(acc: Seq<PlaneView>, rest: Result<Seq<PlaneView>, ConvertError>) -> Result<Seq<PlaneView>, ConvertError> {
    match rest {
        Ok(s) => Ok(acc + s),
        Err(e) => Err(e),
    }
}

/// What plane slot `i` of a video frame yields.
pub fn video_plane_step(frame: &RawFrame, layout: &PixelLayout, i: usize) -> (r: PlaneStep)
    requires
        i < 4,
    ensures
        r == spec_video_plane_step(*frame, *layout, i as int),
{
    let ls = frame.linesize[i];
    if ls <= 0 {
        if ls == 0 && layout.plane_heights[i].is_none() {
            return PlaneStep::End;
        }
        return PlaneStep::Fail(ConvertError::InvalidPlaneLayout { plane: i });
    }
    let data = frame.data[i];
    if data == 0 {
        return PlaneStep::Fail(ConvertError::InvalidPlaneLayout { plane: i });
    }
    match layout.plane_heights[i] {
        None => PlaneStep::Fail(ConvertError::InvalidPlaneLayout { plane: i }),
        Some(h) => match (ls as usize).checked_mul(h) {
            None => PlaneStep::Fail(ConvertError::InvalidPlaneLayout { plane: i }),
            Some(bytes) => match find_backing_buffer(&frame.buf, data, bytes) {
                None => PlaneStep::Fail(ConvertError::BufferAcquireFailed { plane: i }),
                Some(k) => {
                    proof {
                        lemma_first_holding_holds(frame.buf@, data, bytes, 0);
                    }
                    let b = frame.buf[k];
                    let start = match b {
                        Some(r) => r.start,
                        None => 0,
                    };
                    PlaneStep::View(PlaneView { buffer: k, offset: data - start, len: bytes, stride: ls as u32 })
                },
            },
        },
    }
}

/// The buffer `first_holding` finds does hold the bytes, and lies within
/// the array.
pub proof fn lemma_first_holding_holds(bufs: Seq<Option<BufferRef>>, data: usize, bytes: usize, k: int)
    requires
        0 <= k,
        bufs.len() <= usize::MAX,
    ensures
        first_holding(bufs, data, bytes, k) matches Some(j) ==> k <= j < bufs.len() && buffer_holds(
            bufs[j as int],
            data,
            bytes,
        ),
    decreases bufs.len() - k,
{
    if k < bufs.len() && !buffer_holds(bufs[k], data, bytes) {
        lemma_first_holding_holds(bufs, data, bytes, k + 1);
    }
}

/// The planes of a video frame, as views into its buffers, or the first
/// plane error.
pub fn video_planes(frame: &RawFrame, layout: &PixelLayout) -> (r: Result<Vec<PlaneView>, ConvertError>)
    ensures
        match r {
            Ok(v) => spec_video_planes(*frame, *layout, 0) == Ok::<Seq<PlaneView>, ConvertError>(v@),
            Err(e) => spec_video_planes(*frame, *layout, 0) == Err::<Seq<PlaneView>, ConvertError>(e),
        },
{
    let mut planes: Vec<PlaneView> = Vec::new();
    let mut i: usize = 0;
    while i < 4
        invariant
            i <= 4,
            spec_video_planes(*frame, *layout, 0) == prepend_planes(planes@, spec_video_planes(*frame, *layout, i as nat)),
        decreases 4 - i,
    {
        match video_plane_step(frame, layout, i) {
            PlaneStep::End => {
                assert(planes@ + Seq::<PlaneView>::empty() == planes@);
                return Ok(planes);
            },
            PlaneStep::Fail(e) => {
                return Err(e);
            },
            PlaneStep::View(v) => {
                let ghost before = planes@;
                planes.push(v);
                proof {
                    let rest = spec_video_planes(*frame, *layout, (i + 1) as nat);
                    if let Ok(s) = rest {
                        assert(before + (seq![v] + s) == planes@ + s);
                    }
                }
                i = i + 1;
            },
        }
    }
    assert(planes@ + Seq::<PlaneView>::empty() == planes@);
    Ok(planes)
}

/// A decoded video frame, described over the source frame's buffers.
#[derive(Debug, Clone, PartialEq, Eq)]
pub struct VideoFrame {
    /// Width in pixels.
    pub width: u32,
    /// Height in pixels.
    pub height: u32,
    /// The `AVPixelFormat` code.
    pub pixel_format: i32,
    /// The planes, in order, as views into the source frame's buffers.
    pub planes: Vec<PlaneView>,
    /// Presentation timestamp, labelled with the stream's time base.
    pub pts: Option<Timestamp>,
    /// Duration, labelled with the stream's time base.
    pub duration: Option<Timestamp>,
    /// Colour metadata.
    pub color: ColorInfo,
    /// The visible rectangle, when the frame is cropped.
    pub visible_rect: Option<Rect>,
    /// Backend-specific extras.
    pub extra: VideoFrameExtra,
}

/// A signed size field read as unsigned: negative values become zero.
pub open spec fn clamp_u32(v: i32) -> u32 {
    if v < 0 {
        0
    } else {
        v as u32
    }
}

/// A signed size field read as unsigned: negative values become zero.
pub fn non_negative_u32(v: i32) -> (r: u32)
    ensures
        r == clamp_u32(v),
{
    if v < 0 {
        0
    } else {
        v as u32
    }
}

/// `AVCOL_SPC_UNSPECIFIED`: the colour-space code that names no matrix.
pub const AVCOL_SPC_UNSPECIFIED: i32 = 2;

/// The matrix of a frame `height` lines tall whose colour-space code is
/// `raw`: an unspecified code reads as BT.709 from 720 lines up and as
/// BT.601 below (FFmpeg's convention); any other code as it names.
pub open spec fn spec_frame_matrix(raw: i32, height: u32) -> ColorMatrix {
    if raw == AVCOL_SPC_UNSPECIFIED {
        if height >= 720 {
            ColorMatrix::Bt709
        } else {
            ColorMatrix::Bt601
        }
    } else {
        spec_matrix(raw)
    }
}

/// The matrix of a frame `height` lines tall whose colour-space code is
/// `raw`, the unspecified code resolved by the frame's height.
pub fn frame_matrix(raw: i32, height: u32) -> (r: ColorMatrix)
    ensures
        r == spec_frame_matrix(raw, height),
{
    if raw == AVCOL_SPC_UNSPECIFIED {
        if height >= 720 {
            ColorMatrix::Bt709
        } else {
            ColorMatrix::Bt601
        }
    } else {
        map_matrix(raw)
    }
}

/// The colour metadata a raw frame's codes name, the matrix of an
/// unspecified colour space resolved by the frame's height.
pub open spec fn spec_color(f: RawFrame) -> ColorInfo {
    ColorInfo {
        primaries: spec_primaries(f.color_primaries),
        transfer: spec_transfer(f.color_trc),
        matrix: spec_frame_matrix(f.colorspace, clamp_u32(f.height)),
        range: spec_range(f.color_range),
        chroma_location: spec_chroma_loc(f.chroma_location),
    }
}

/// The colour metadata of a raw frame.
pub fn color_info_from_raw(frame: &RawFrame) -> (r: ColorInfo)
    ensures
        r == spec_color(*frame),
{
    ColorInfo {
        primaries: map_primaries(frame.color_primaries),
        transfer: map_transfer(frame.color_trc),
        matrix: frame_matrix(frame.colorspace, non_negative_u32(frame.height)),
        range: map_range(frame.color_range),
        chroma_location: map_chroma_loc(frame.chroma_location),
    }
}

/// `v` is the video frame that raw frame `f` with planes `planes`
/// describes, its timestamps labelled with time base `tb`.
pub open spec fn video_frame_matches(v: VideoFrame, f: RawFrame, planes: Seq<PlaneView>, tb: Timebase) -> bool {
    &&& v.width == clamp_u32(f.width)
    &&& v.height == clamp_u32(f.height)
    &&& v.pixel_format == f.format
    &&& v.planes@ == planes
    &&& v.pts == spec_stream_timestamp(spec_timestamp(f.pts), tb)
    &&& v.duration == spec_stream_timestamp(spec_duration(f.duration), tb)
    &&& v.color == spec_color(f)
    &&& match v.visible_rect {
        None => spec_visible_rect(f, v.width, v.height) is None,
        Some(r) => spec_visible_rect(f, v.width, v.height) == Some(r.parts()),
    }
    &&& extra_matches(v.extra, f)
}

/// Converts a raw FFmpeg video frame (CPU-side, from a software decoder or
/// after a hardware transfer) into a [`VideoFrame`] whose planes are views
/// into the frame's own buffers. `time_base` is the stream's time base,
/// with which the timestamps are labelled.
///
/// Fails with `UnsupportedPixelFormat` when the format is outside the
/// supported CPU set, and otherwise with the first plane error; on success
/// every field is read from the raw frame as [`video_frame_matches`] states.
pub fn av_frame_to_video_frame(frame: &RawFrame, layout: &PixelLayout, time_base: Timebase) -> (r: Result<VideoFrame, ConvertError>)
    ensures
        !layout.supported ==> r == Err::<VideoFrame, ConvertError>(
            ConvertError::UnsupportedPixelFormat(frame.format),
        ),
        layout.supported ==> match spec_video_planes(*frame, *layout, 0) {
            Err(e) => r == Err::<VideoFrame, ConvertError>(e),
            Ok(planes) => r matches Ok(v) && video_frame_matches(v, *frame, planes, time_base),
        },
{
    if !layout.supported {
        return Err(ConvertError::UnsupportedPixelFormat(frame.format));
    }
    let width = non_negative_u32(frame.width);
    let height = non_negative_u32(frame.height);
    let planes = match video_planes(frame, layout) {
        Ok(p) => p,
        Err(e) => return Err(e),
    };
    let visible_rect = build_visible_rect(frame, width, height);
    Ok(
        VideoFrame {
            width,
            height,
            pixel_format: frame.format,
            planes,
            pts: stream_timestamp(timestamp_from_raw(frame.pts), time_base),
            duration: stream_timestamp(duration_from_raw(frame.duration), time_base),
            color: color_info_from_raw(frame),
            visible_rect,
            extra: build_video_frame_extra(frame),
        },
    )
}

/// A decoded audio frame, described over the source frame's buffers.
#[derive(Debug, Clone, PartialEq, Eq)]
pub struct AudioFrame {
    /// Sample rate in Hz.
    pub sample_rate: u32,
    /// Samples per channel.
    pub nb_samples: u32,
    /// Channel count, clamped to eight.
    pub channel_count: u8,
    /// The `AVSampleFormat` code.
    pub sample_format: i32,
    /// The channel layout.
    pub channel_layout: AudioChannelLayout,
    /// The planes found, in order, as views into the source frame's
    /// buffers; a prefix of the `plane_count` the format calls for, shorter
    /// when the decoder produced fewer planes.
    pub planes: Vec<PlaneView>,
    /// The number of planes the format calls for: one when packed, one per
    /// channel when planar, at most eight.
    pub plane_count: u8,
    /// Presentation timestamp, labelled with the stream's time base.
    pub pts: Option<Timestamp>,
    /// Duration, labelled with the stream's time base.
    pub duration: Option<Timestamp>,
    /// Backend-specific extras.
    pub extra: AudioFrameExtra,
}

/// The channel count an audio frame records: the layout's count, clamped
/// to eight (channels past the eighth would spill out of the frame's fixed
/// plane array).
pub open spec fn spec_channel_count(layout_channels: u32) -> u8 {
    if layout_channels > 8 {
        8
    } else {
        layout_channels as u8
    }
}

/// The number of planes an audio frame's format calls for: one per channel
/// when planar, one when packed, at most eight.
pub open spec fn spec_audio_plane_count(channel_count: u8, planar: bool) -> u8 {
    let full: u8 = if planar {
        channel_count
    } else {
        1
    };
    if full > 8 {
        8
    } else {
        full
    }
}

/// The planes of an audio frame from slot `i` on, each `bytes` long, up to
/// `count` of them: they end at the first null plane, and a plane no buffer
/// holds is an error.
pub open spec fn spec_audio_planes(f: RawFrame, count: nat, bytes: usize, i: nat) -> Result<Seq<PlaneView>, ConvertError>
    decreases count - i,
{
    if i >= count || i >= 8 {
        Ok(Seq::empty())
    } else if f.data[i as int] == 0 {
        Ok(Seq::empty())
    } else {
        match first_holding(f.buf@, f.data[i as int], bytes, 0) {
            None => Err(ConvertError::BufferAcquireFailed { plane: i as usize }),
            Some(k) => {
                let v = PlaneView {
                    buffer: k,
                    offset: (f.data[i as int] - f.buf@[k as int]->0.start) as usize,
                    len: bytes,
                    stride: bytes as u32,
                };
                match spec_audio_planes(f, count, bytes, i + 1) {
                    Ok(rest) => Ok(seq![v] + rest),
                    Err(e) => Err(e),
                }
            },
        }
    }
}

/// The planes of an audio frame: up to `count` planes of `bytes` bytes each.
pub fn audio_planes(frame: &RawFrame, count: u8, bytes: usize) -> (r: Result<Vec<PlaneView>, ConvertError>)
    requires
        count <= 8,
    ensures
        match r {
            Ok(v) => spec_audio_planes(*frame, count as nat, bytes, 0) == Ok::<Seq<PlaneView>, ConvertError>(v@),
            Err(e) => spec_audio_planes(*frame, count as nat, bytes, 0) == Err::<Seq<PlaneView>, ConvertError>(e),
        },
{
    let mut planes: Vec<PlaneView> = Vec::new();
    let mut i: usize = 0;
    while i < count as usize
        invariant
            i <= count <= 8,
            spec_audio_planes(*frame, count as nat, bytes, 0) == prepend_planes(
                planes@,
                spec_audio_planes(*frame, count as nat, bytes, i as nat),
            ),
        decreases count - i,
    {
        let data = frame.data[i];
        if data == 0 {
            assert(planes@ + Seq::<PlaneView>::empty() == planes@);
            return Ok(planes);
        }
        match find_backing_buffer(&frame.buf, data, bytes) {
            None => {
                return Err(ConvertError::BufferAcquireFailed { plane: i });
            },
            Some(k) => {
                proof {
                    lemma_first_holding_holds(frame.buf@, data, bytes, 0);
                }
                let start = match frame.buf[k] {
                    Some(b) => b.start,
                    None => 0,
                };
                let v = PlaneView { buffer: k, offset: data - start, len: bytes, stride: bytes as u32 };
                let ghost before = planes@;
                planes.push(v);
                proof {
                    let rest = spec_audio_planes(*frame, count as nat, bytes, (i + 1) as nat);
                    if let Ok(s) = rest {
                        assert(before + (seq![v] + s) == planes@ + s);
                    }
                }
                i = i + 1;
            },
        }
    }
    assert(planes@ + Seq::<PlaneView>::empty() == planes@);
    Ok(planes)
}

/// `a` is the audio frame that raw frame `f`, with channel layout `l`
/// rendered as `description`, describes, its planes being `planes` and its
/// timestamps labelled with time base `tb`.
pub open spec fn audio_frame_matches(
    a: AudioFrame,
    f: RawFrame,
    l: RawChannelLayout,
    description: Seq<char>,
    planar: bool,
    planes: Seq<PlaneView>,
    tb: Timebase,
) -> bool {
    &&& a.sample_rate == clamp_u32(f.sample_rate)
    &&& a.nb_samples == clamp_u32(f.nb_samples)
    &&& a.sample_format == f.format
    &&& layout_matches(a.channel_layout, l, description)
    &&& a.channel_count == spec_channel_count(a.channel_layout.channels)
    &&& a.plane_count == spec_audio_plane_count(a.channel_count, planar)
    &&& a.planes@ == planes
    &&& a.pts == spec_stream_timestamp(spec_timestamp(f.pts), tb)
    &&& a.duration == spec_stream_timestamp(spec_duration(f.duration), tb)
    &&& a.extra.best_effort_timestamp == spec_timestamp(f.best_effort_timestamp)
    &&& side_data_matches(a.extra.side_data@, f.side_data@)
}

/// The plane length of an audio frame: `linesize[0]`, read as unsigned
/// (every planar plane has that size; a packed buffer holds all channels).
pub open spec fn spec_audio_plane_bytes(f: RawFrame) -> usize {
    clamp_u32(f.linesize[0]) as usize
}

/// Converts a raw FFmpeg audio frame into an [`AudioFrame`] whose planes
/// are views into the frame's own buffers.
///
/// `time_base` is the stream's time base, with which the timestamps are
/// labelled; `layout` is the frame's channel layout (`ch_layout`), `description` its
/// rendering by `av_channel_layout_describe`, and `planar` whether the
/// sample format keeps one plane per channel. Channel counts above eight
/// are clamped to eight. Fails only when a plane is present
/// that no buffer of the frame holds.
pub fn av_frame_to_audio_frame(
    frame: &RawFrame,
    layout: &RawChannelLayout,
    description: String,
    planar: bool,
    time_base: Timebase,
) -> (r: Result<AudioFrame, ConvertError>)
    requires
        map_covers_channels(*layout),
    ensures
        ({
            let channels: u32 = if layout.nb_channels < 0 {
                0
            } else {
                layout.nb_channels as u32
            };
            let count = spec_audio_plane_count(spec_channel_count(channels), planar);
            match spec_audio_planes(*frame, count as nat, spec_audio_plane_bytes(*frame), 0) {
                Err(e) => r == Err::<AudioFrame, ConvertError>(e),
                Ok(planes) => r matches Ok(a) && audio_frame_matches(
                    a,
                    *frame,
                    *layout,
                    description@,
                    planar,
                    planes,
                    time_base,
                ),
            }
        }),
{
    let sample_rate = non_negative_u32(frame.sample_rate);
    let nb_samples = non_negative_u32(frame.nb_samples);
    let channel_layout = audio_channel_layout_from_ffmpeg(layout, description);
    let channels = channel_layout.channels();
    let channel_count: u8 = if channels > 8 {
        8
    } else {
        channels as u8
    };
    let full: u8 = if planar {
        channel_count
    } else {
        1
    };
    let plane_count: u8 = if full > 8 {
        8
    } else {
        full
    };
    let plane_bytes = non_negative_u32(frame.linesize[0]) as usize;
    let planes = match audio_planes(frame, plane_count, plane_bytes) {
        Ok(p) => p,
        Err(e) => return Err(e),
    };
    Ok(
        AudioFrame {
            sample_rate,
            nb_samples,
            channel_count,
            sample_format: frame.format,
            channel_layout,
            planes,
            plane_count,
            pts: stream_timestamp(timestamp_from_raw(frame.pts), time_base),
            duration: stream_timestamp(duration_from_raw(frame.duration), time_base),
            extra: AudioFrameExtra {
                best_effort_timestamp: timestamp_from_raw(frame.best_effort_timestamp),
                side_data: collect_side_data(&frame.side_data),
            },
        },
    )
}

/// The decimal digits of `n`, most significant first.
pub open spec fn decimal_digits(n: nat) -> Seq<char>
    decreases n,
{
    if n < 10 {
        seq![(48 + n) as char]
    } else {
        decimal_digits(n / 10).push((48 + n % 10) as char)
    }
}

/// The decimal rendering of a signed integer: a minus sign before the
/// digits of its magnitude when negative.
pub open spec fn decimal_signed(v: int) -> Seq<char> {
    if v < 0 {
        seq!['-'] + decimal_digits((-v) as nat)
    } else {
        decimal_digits(v as nat)
    }
}

/// `String::push` (std): appends one character.
#[verifier::external_body]
fn string_push(s: &mut String, c: char)
    ensures
        final(s)@ == old(s)@.push(c),
{
    s.push(c);
}

/// Appends the decimal digits of `n`.
fn push_decimal(s: &mut String, n: u64)
    ensures
        final(s)@ == old(s)@ + decimal_digits(n as nat),
    decreases n,
{
    if n >= 10 {
        push_decimal(s, n / 10);
    }
    let d: u8 = (n % 10) as u8;
    let c: char = (48u8 + d) as char;
    string_push(s, c);
    proof {
        if n >= 10 {
            assert(old(s)@ + decimal_digits(n as nat) == old(s)@ + decimal_digits((n / 10) as nat) + seq![c]);
        } else {
            assert(old(s)@ + decimal_digits(n as nat) == old(s)@ + seq![c]);
        }
    }
}

/// Appends the decimal rendering of `v`.
fn push_decimal_signed(s: &mut String, v: i64)
    ensures
        final(s)@ == old(s)@ + decimal_signed(v as int),
{
    if v < 0 {
        string_push(s, '-');
        let magnitude: u64 = if v == i64::MIN {
            9223372036854775808u64
        } else {
            (-v) as u64
        };
        push_decimal(s, magnitude);
        assert(old(s)@ + decimal_signed(v as int) == old(s)@.push('-') + decimal_digits(magnitude as nat));
    } else {
        push_decimal(s, v as u64);
    }
}

impl ConvertError {
    /// The human-readable message of the error.
    pub open spec fn spec_message(self) -> Seq<char> {
        match self {
            ConvertError::NullFrame => "convert: AVFrame pointer was null"@,
            ConvertError::UnsupportedPixelFormat(pf) => "convert: unsupported pixel format "@
                + decimal_signed(pf as int),
            ConvertError::InvalidPlaneLayout { plane } => "convert: invalid layout on plane "@
                + decimal_digits(plane as nat),
            ConvertError::BufferAcquireFailed { plane } =>
                "convert: could not acquire buffer ref for plane "@ + decimal_digits(plane as nat),
        }
    }

    /// The human-readable message of the error; an unsupported pixel
    /// format is named by its `AVPixelFormat` code.
    pub fn message(&self) -> (r: String)
        ensures
            r@ == self.spec_message(),
    {
        match self {
            ConvertError::NullFrame => String::from_str("convert: AVFrame pointer was null"),
            ConvertError::UnsupportedPixelFormat(pf) => {
                let mut s = String::from_str("convert: unsupported pixel format ");
                push_decimal_signed(&mut s, *pf as i64);
                s
            },
            ConvertError::InvalidPlaneLayout { plane } => {
                let mut s = String::from_str("convert: invalid layout on plane ");
                push_decimal(&mut s, *plane as u64);
                s
            },
            ConvertError::BufferAcquireFailed { plane } => {
                let mut s = String::from_str("convert: could not acquire buffer ref for plane ");
                push_decimal(&mut s, *plane as u64);
                s
            },
        }
    }
}

// Laws of the conversions.

/// Plane view `v` lies inside the buffer it names: the buffer exists, has
/// data, and holds the view's bytes.
pub open spec fn view_in_buffer(v: PlaneView, bufs: Seq<Option<BufferRef>>) -> bool {
    &&& v.buffer < bufs.len()
    &&& bufs[v.buffer as int] matches Some(b) && b.start != 0 && v.offset + v.len <= b.size
}

/// Every plane of a converted video frame lies inside the frame buffer it
/// names (so a view never reads outside the memory FFmpeg allocated), and
/// a frame has at most four planes.
pub proof fn law_video_planes_in_bounds(f: RawFrame, layout: PixelLayout, i: nat)
    ensures
        spec_video_planes(f, layout, i) matches Ok(planes) ==> {
            &&& planes.len() + i <= 4 || planes.len() == 0
            &&& forall|j: int| 0 <= j < planes.len() ==> view_in_buffer(#[trigger] planes[j], f.buf@)
        },
    decreases 4 - i,
{
    if i < 4 {
        law_video_planes_in_bounds(f, layout, i + 1);
        let ls = f.linesize[i as int];
        if ls > 0 && f.data[i as int] != 0 {
            if let Some(h) = layout.plane_heights[i as int] {
                if ls * h <= usize::MAX {
                    let bytes = (ls * h) as usize;
                    lemma_first_holding_holds(f.buf@, f.data[i as int], bytes, 0);
                }
            }
        }
        if let Ok(planes) = spec_video_planes(f, layout, i) {
            if let PlaneStep::View(v) = spec_video_plane_step(f, layout, i as int) {
                let rest = spec_video_planes(f, layout, i + 1)->Ok_0;
                assert(planes == seq![v] + rest);
                assert forall|j: int| 0 <= j < planes.len() implies view_in_buffer(
                    #[trigger] planes[j],
                    f.buf@,
                ) by {
                    if j > 0 {
                        assert(planes[j] == rest[j - 1]);
                    }
                }
            }
        }
    }
}

/// Every plane of a converted audio frame lies inside the frame buffer it
/// names and is exactly one plane long, and there are no more planes than
/// the format calls for.
pub proof fn law_audio_planes_in_bounds(f: RawFrame, count: nat, bytes: usize, i: nat)
    ensures
        spec_audio_planes(f, count, bytes, i) matches Ok(planes) ==> {
            &&& planes.len() + i <= count || planes.len() == 0
            &&& forall|j: int|
                0 <= j < planes.len() ==> view_in_buffer(#[trigger] planes[j], f.buf@) && planes[j].len
                    == bytes
        },
    decreases count - i,
{
    if i < count && i < 8 {
        law_audio_planes_in_bounds(f, count, bytes, i + 1);
        if f.data[i as int] != 0 {
            lemma_first_holding_holds(f.buf@, f.data[i as int], bytes, 0);
            if let Ok(planes) = spec_audio_planes(f, count, bytes, i) {
                let rest = spec_audio_planes(f, count, bytes, i + 1)->Ok_0;
                assert forall|j: int| 0 <= j < planes.len() implies view_in_buffer(
                    #[trigger] planes[j],
                    f.buf@,
                ) && planes[j].len == bytes by {
                    if j > 0 {
                        assert(planes[j] == rest[j - 1]);
                    }
                }
            }
        }
    }
}

/// The visible rectangle of a cropped frame never extends past the frame:
/// its size is at most the frame's size, and an uncropped frame has none.
pub proof fn law_visible_rect_within_frame(f: RawFrame, width: u32, height: u32)
    ensures
        spec_visible_rect(f, width, height) matches Some(r) ==> r.2 <= width && r.3 <= height && (
        r.2 > 0 ==> r.0 + r.2 <= width) && (r.3 > 0 ==> r.1 + r.3 <= height),
        (f.crop_left as u32 == 0 && f.crop_top as u32 == 0 && f.crop_right as u32 == 0
            && f.crop_bottom as u32 == 0) ==> spec_visible_rect(f, width, height) is None,
{
}

/// Each `AVColorPrimaries` code FFmpeg's header names reads as the
/// primaries of that name, and no other code does; every other code is
/// unspecified.
pub proof fn law_primaries_codes()
    ensures
        forall|c: i32| (#[trigger] spec_primaries(c) == ColorPrimaries::Bt709) <==> c == AVCOL_PRI_BT709,
        forall|c: i32| (#[trigger] spec_primaries(c) == ColorPrimaries::Bt470M) <==> c == AVCOL_PRI_BT470M,
        forall|c: i32| (#[trigger] spec_primaries(c) == ColorPrimaries::Bt470Bg) <==> c == AVCOL_PRI_BT470BG,
        forall|c: i32| (#[trigger] spec_primaries(c) == ColorPrimaries::Smpte170M) <==> c == AVCOL_PRI_SMPTE170M,
        forall|c: i32| (#[trigger] spec_primaries(c) == ColorPrimaries::Smpte240M) <==> c == AVCOL_PRI_SMPTE240M,
        forall|c: i32| (#[trigger] spec_primaries(c) == ColorPrimaries::Film) <==> c == AVCOL_PRI_FILM,
        forall|c: i32| (#[trigger] spec_primaries(c) == ColorPrimaries::Bt2020) <==> c == AVCOL_PRI_BT2020,
        forall|c: i32| (#[trigger] spec_primaries(c) == ColorPrimaries::SmpteSt428) <==> c == AVCOL_PRI_SMPTE428,
        forall|c: i32| (#[trigger] spec_primaries(c) == ColorPrimaries::SmpteRp431) <==> c == AVCOL_PRI_SMPTE431,
        forall|c: i32| (#[trigger] spec_primaries(c) == ColorPrimaries::SmpteEg432) <==> c == AVCOL_PRI_SMPTE432,
        forall|c: i32| (#[trigger] spec_primaries(c) == ColorPrimaries::Ebu3213E) <==> c == AVCOL_PRI_EBU3213,
        spec_primaries(AVCOL_PRI_UNSPECIFIED) == ColorPrimaries::Unspecified,
{
}

/// Each `AVColorTransferCharacteristic` code FFmpeg's header names (the
/// H.273 TransferCharacteristics number) reads as the characteristic of
/// that name, and no other code does; every other code is unspecified.
pub proof fn law_transfer_codes()
    ensures
        forall|c: i32| (#[trigger] spec_transfer(c) == ColorTransfer::Bt709) <==> c == AVCOL_TRC_BT709,
        forall|c: i32| (#[trigger] spec_transfer(c) == ColorTransfer::Bt470M) <==> c == AVCOL_TRC_GAMMA22,
        forall|c: i32| (#[trigger] spec_transfer(c) == ColorTransfer::Bt470Bg) <==> c == AVCOL_TRC_GAMMA28,
        forall|c: i32| (#[trigger] spec_transfer(c) == ColorTransfer::Smpte170M) <==> c == AVCOL_TRC_SMPTE170M,
        forall|c: i32| (#[trigger] spec_transfer(c) == ColorTransfer::Smpte240M) <==> c == AVCOL_TRC_SMPTE240M,
        forall|c: i32| (#[trigger] spec_transfer(c) == ColorTransfer::Linear) <==> c == AVCOL_TRC_LINEAR,
        forall|c: i32| (#[trigger] spec_transfer(c) == ColorTransfer::Log100) <==> c == AVCOL_TRC_LOG,
        forall|c: i32| (#[trigger] spec_transfer(c) == ColorTransfer::Log316) <==> c == AVCOL_TRC_LOG_SQRT,
        forall|c: i32| (#[trigger] spec_transfer(c) == ColorTransfer::Iec6196624) <==> c == AVCOL_TRC_IEC61966_2_4,
        forall|c: i32| (#[trigger] spec_transfer(c) == ColorTransfer::Bt1361Ecg) <==> c == AVCOL_TRC_BT1361_ECG,
        forall|c: i32| (#[trigger] spec_transfer(c) == ColorTransfer::Iec6196621) <==> c == AVCOL_TRC_IEC61966_2_1,
        forall|c: i32| (#[trigger] spec_transfer(c) == ColorTransfer::Bt2020_10Bit) <==> c == AVCOL_TRC_BT2020_10,
        forall|c: i32| (#[trigger] spec_transfer(c) == ColorTransfer::Bt2020_12Bit) <==> c == AVCOL_TRC_BT2020_12,
        forall|c: i32| (#[trigger] spec_transfer(c) == ColorTransfer::SmpteSt2084Pq) <==> c == AVCOL_TRC_SMPTE2084,
        forall|c: i32| (#[trigger] spec_transfer(c) == ColorTransfer::SmpteSt428) <==> c == AVCOL_TRC_SMPTE428,
        forall|c: i32| (#[trigger] spec_transfer(c) == ColorTransfer::AribStdB67Hlg) <==> c == AVCOL_TRC_ARIB_STD_B67,
        spec_transfer(AVCOL_TRC_UNSPECIFIED) == ColorTransfer::Unspecified,
{
}

/// Each `AVColorSpace` code FFmpeg's header names reads as its matrix, and
/// no other code does: BT.601 comes from exactly the BT.470BG and SMPTE 170M
/// codes (whose coefficients are identical); the BT.709 code reads as
/// BT.709; and a frame with the unspecified code reads as BT.709 from 720
/// lines up and as BT.601 below.
pub proof fn law_matrix_codes()
    ensures
        spec_matrix(AVCOL_SPC_BT709) == ColorMatrix::Bt709,
        forall|c: i32| (#[trigger] spec_matrix(c) == ColorMatrix::Bt601) <==> (c == AVCOL_SPC_BT470BG || c == AVCOL_SPC_SMPTE170M),
        forall|c: i32| (#[trigger] spec_matrix(c) == ColorMatrix::Bt2020Ncl) <==> c == AVCOL_SPC_BT2020_NCL,
        forall|c: i32| (#[trigger] spec_matrix(c) == ColorMatrix::Smpte240m) <==> c == AVCOL_SPC_SMPTE240M,
        forall|c: i32| (#[trigger] spec_matrix(c) == ColorMatrix::Fcc) <==> c == AVCOL_SPC_FCC,
        forall|c: i32| (#[trigger] spec_matrix(c) == ColorMatrix::YCgCo) <==> c == AVCOL_SPC_YCGCO,
        forall|h: u32| #[trigger] spec_frame_matrix(AVCOL_SPC_UNSPECIFIED, h) == (if h >= 720 {
            ColorMatrix::Bt709
        } else {
            ColorMatrix::Bt601
        }),
        forall|c: i32, h: u32| c != AVCOL_SPC_UNSPECIFIED ==> #[trigger] spec_frame_matrix(c, h) == spec_matrix(c),
{
}

/// The `MPEG` range code reads as limited and the `JPEG` code as full, and
/// no other code does; every other code is unspecified.
pub proof fn law_range_codes()
    ensures
        forall|c: i32| (#[trigger] spec_range(c) == ColorRange::Limited) <==> c == AVCOL_RANGE_MPEG,
        forall|c: i32| (#[trigger] spec_range(c) == ColorRange::Full) <==> c == AVCOL_RANGE_JPEG,
{
}

/// Each `AVChromaLocation` code FFmpeg's header names reads as the location
/// of that name, and no other code does; every other code is unspecified.
pub proof fn law_chroma_loc_codes()
    ensures
        forall|c: i32| (#[trigger] spec_chroma_loc(c) == ChromaLocation::Left) <==> c == AVCHROMA_LOC_LEFT,
        forall|c: i32| (#[trigger] spec_chroma_loc(c) == ChromaLocation::Center) <==> c == AVCHROMA_LOC_CENTER,
        forall|c: i32| (#[trigger] spec_chroma_loc(c) == ChromaLocation::TopLeft) <==> c == AVCHROMA_LOC_TOPLEFT,
        forall|c: i32| (#[trigger] spec_chroma_loc(c) == ChromaLocation::Top) <==> c == AVCHROMA_LOC_TOP,
        forall|c: i32| (#[trigger] spec_chroma_loc(c) == ChromaLocation::BottomLeft) <==> c == AVCHROMA_LOC_BOTTOMLEFT,
        forall|c: i32| (#[trigger] spec_chroma_loc(c) == ChromaLocation::Bottom) <==> c == AVCHROMA_LOC_BOTTOM,
{
}

/// Each `AVPictureType` code FFmpeg's header names reads as the picture
/// type of that name, and no other code does; every other code is
/// unspecified. In particular distinct named codes give distinct types.
pub proof fn law_picture_type_codes()
    ensures
        forall|c: i32| (#[trigger] spec_picture_type(c) == PictureType::I) <==> c == AV_PICTURE_TYPE_I,
        forall|c: i32| (#[trigger] spec_picture_type(c) == PictureType::P) <==> c == AV_PICTURE_TYPE_P,
        forall|c: i32| (#[trigger] spec_picture_type(c) == PictureType::B) <==> c == AV_PICTURE_TYPE_B,
        forall|c: i32| (#[trigger] spec_picture_type(c) == PictureType::S) <==> c == AV_PICTURE_TYPE_S,
        forall|c: i32| (#[trigger] spec_picture_type(c) == PictureType::Si) <==> c == AV_PICTURE_TYPE_SI,
        forall|c: i32| (#[trigger] spec_picture_type(c) == PictureType::Sp) <==> c == AV_PICTURE_TYPE_SP,
        forall|c: i32| (#[trigger] spec_picture_type(c) == PictureType::Bi) <==> c == AV_PICTURE_TYPE_BI,
{
}

/// A cropped frame's visible rectangle starts at the left and top crops
/// and removes both crops on each axis: where the two crops of an axis fit
/// in the frame, the rectangle's offset, its extent and the far crop add up
/// to the frame's size; where they do not, the extent is zero.
pub proof fn law_visible_rect_removes_crops(f: RawFrame, width: u32, height: u32)
    ensures
        ({
            let l = f.crop_left as u32;
            let t = f.crop_top as u32;
            let r = f.crop_right as u32;
            let b = f.crop_bottom as u32;
            (l != 0 || t != 0 || r != 0 || b != 0) ==> (spec_visible_rect(f, width, height) matches Some(v) && {
                &&& v.0 == l
                &&& v.1 == t
                &&& (l + r <= width ==> v.0 + v.2 + r == width)
                &&& (l + r > width ==> v.2 == 0)
                &&& (t + b <= height ==> v.1 + v.3 + b == height)
                &&& (t + b > height ==> v.3 == 0)
            })
        }),
{
}

/// A video frame's extras read the frame's own fields: the keyframe,
/// interlaced and top-field-first flags are FFmpeg's `AV_FRAME_FLAG_KEY`,
/// `AV_FRAME_FLAG_INTERLACED` and `AV_FRAME_FLAG_TOP_FIELD_FIRST` bits of
/// the flags, the sample aspect ratio is the frame's own when it is a
/// proper ratio other than 1:1 (and none otherwise), and the best-effort
/// timestamp is the frame's unless it is FFmpeg's no-timestamp marker.
pub proof fn law_video_extra_fields(x: VideoFrameExtra, f: RawFrame)
    requires
        extra_matches(x, f),
    ensures
        x.key_frame <==> f.flags & AV_FRAME_FLAG_KEY != 0,
        x.interlaced <==> f.flags & AV_FRAME_FLAG_INTERLACED != 0,
        x.top_field_first <==> f.flags & AV_FRAME_FLAG_TOP_FIELD_FIRST != 0,
        f.pict_type == AV_PICTURE_TYPE_B ==> x.picture_type == PictureType::B,
        f.pict_type == AV_PICTURE_TYPE_I ==> x.picture_type == PictureType::I,
        f.pict_type == AV_PICTURE_TYPE_P ==> x.picture_type == PictureType::P,
        x.sample_aspect_ratio matches Some(r) ==> r.0 == f.sample_aspect_ratio.0 && r.1 == f.sample_aspect_ratio.1 && r.0 > 0
            && r.1 > 0 && !(r.0 == 1 && r.1 == 1),
        (f.sample_aspect_ratio.0 > 0 && f.sample_aspect_ratio.1 > 0 && !(f.sample_aspect_ratio.0 == 1
            && f.sample_aspect_ratio.1 == 1)) ==> x.sample_aspect_ratio is Some,
        x.best_effort_timestamp is None <==> f.best_effort_timestamp == AV_NOPTS_VALUE,
        x.best_effort_timestamp matches Some(t) ==> t == f.best_effort_timestamp,
{
}

/// An audio frame records the layout's channel count clamped to eight, and
/// calls for one plane per recorded channel when planar and a single plane
/// when packed.
pub proof fn law_audio_counts(
    a: AudioFrame,
    f: RawFrame,
    l: RawChannelLayout,
    description: Seq<char>,
    planar: bool,
    planes: Seq<PlaneView>,
    tb: Timebase,
)
    requires
        audio_frame_matches(a, f, l, description, planar, planes, tb),
    ensures
        a.channel_layout.channels <= 8 ==> a.channel_count == a.channel_layout.channels,
        a.channel_layout.channels > 8 ==> a.channel_count == 8,
        planar ==> a.plane_count == a.channel_count,
        !planar ==> a.plane_count == 1,
{
}

/// Timestamps pass through unchanged except FFmpeg's no-timestamp marker,
/// which becomes none; durations keep only positive values.
pub proof fn law_timestamps(raw: i64)
    ensures
        spec_timestamp(raw) is None <==> raw == AV_NOPTS_VALUE,
        spec_timestamp(raw) matches Some(t) ==> t == raw,
        spec_duration(raw) is Some <==> raw > 0,
{
}

/// Every value of each colour enum is what some FFmpeg code maps to, and
/// a code FFmpeg does not name maps to the unspecified value (BT.709 for
/// the matrix, which has none).
pub proof fn law_color_codes_onto(p: ColorPrimaries, t: ColorTransfer, m: ColorMatrix, r: ColorRange, c: ChromaLocation)
    ensures
        exists|code: i32| spec_primaries(code) == p,
        exists|code: i32| spec_transfer(code) == t,
        exists|code: i32| spec_matrix(code) == m,
        exists|code: i32| spec_range(code) == r,
        exists|code: i32| spec_chroma_loc(code) == c,
        forall|code: i32| (code < 0 || code > 22) ==> #[trigger] spec_primaries(code) == ColorPrimaries::Unspecified,
        forall|code: i32| (code < 0 || code > 18) ==> #[trigger] spec_transfer(code) == ColorTransfer::Unspecified,
        forall|code: i32| (code < 0 || code > 9) ==> #[trigger] spec_matrix(code) == ColorMatrix::Bt709,
        forall|code: i32| (code < 0 || code > 2) ==> #[trigger] spec_range(code) == ColorRange::Unspecified,
        forall|code: i32| (code < 0 || code > 6) ==> #[trigger] spec_chroma_loc(code) == ChromaLocation::Unspecified,
{
    let pc: i32 = match p {
        ColorPrimaries::Bt709 => 1,
        ColorPrimaries::Unspecified => 2,
        ColorPrimaries::Bt470M => 4,
        ColorPrimaries::Bt470Bg => 5,
        ColorPrimaries::Smpte170M => 6,
        ColorPrimaries::Smpte240M => 7,
        ColorPrimaries::Film => 8,
        ColorPrimaries::Bt2020 => 9,
        ColorPrimaries::SmpteSt428 => 10,
        ColorPrimaries::SmpteRp431 => 11,
        ColorPrimaries::SmpteEg432 => 12,
        ColorPrimaries::Ebu3213E => 22,
    };
    assert(spec_primaries(pc) == p);
    let tc: i32 = match t {
        ColorTransfer::Bt709 => 1,
        ColorTransfer::Unspecified => 2,
        ColorTransfer::Bt470M => 4,
        ColorTransfer::Bt470Bg => 5,
        ColorTransfer::Smpte170M => 6,
        ColorTransfer::Smpte240M => 7,
        ColorTransfer::Linear => 8,
        ColorTransfer::Log100 => 9,
        ColorTransfer::Log316 => 10,
        ColorTransfer::Iec6196624 => 11,
        ColorTransfer::Bt1361Ecg => 12,
        ColorTransfer::Iec6196621 => 13,
        ColorTransfer::Bt2020_10Bit => 14,
        ColorTransfer::Bt2020_12Bit => 15,
        ColorTransfer::SmpteSt2084Pq => 16,
        ColorTransfer::SmpteSt428 => 17,
        ColorTransfer::AribStdB67Hlg => 18,
    };
    assert(spec_transfer(tc) == t);
    let mc: i32 = match m {
        ColorMatrix::Bt601 => 6,
        ColorMatrix::Bt709 => 1,
        ColorMatrix::Bt2020Ncl => 9,
        ColorMatrix::Smpte240m => 7,
        ColorMatrix::Fcc => 4,
        ColorMatrix::YCgCo => 8,
    };
    assert(spec_matrix(mc) == m);
    let rc: i32 = match r {
        ColorRange::Unspecified => 0,
        ColorRange::Limited => 1,
        ColorRange::Full => 2,
    };
    assert(spec_range(rc) == r);
    let cc: i32 = match c {
        ChromaLocation::Unspecified => 0,
        ChromaLocation::Left => 1,
        ChromaLocation::Center => 2,
        ChromaLocation::TopLeft => 3,
        ChromaLocation::Top => 4,
        ChromaLocation::BottomLeft => 5,
        ChromaLocation::Bottom => 6,
    };
    assert(spec_chroma_loc(cc) == c);
}

} // verus!
