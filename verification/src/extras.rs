//! Backend-specific frame metadata that rides along with the universal
//! frame description: picture type, field order, side data and the like.

use vstd::prelude::*;

verus! {

/// The coding type of a video picture (FFmpeg `AVPictureType`).
#[derive(Debug, Clone, Copy, PartialEq, Eq, Structural, Hash)]
#[non_exhaustive]
pub enum PictureType {
    /// No picture type reported.
    Unspecified,
    /// Intra.
    I,
    /// Predicted.
    P,
    /// Bi-directionally predicted.
    B,
    /// S(GMC)-VOP, MPEG-4.
    S,
    /// Switching intra.
    Si,
    /// Switching predicted.
    Sp,
    /// BI type.
    Bi,
}

impl Default for PictureType {
    /// `PictureType::Unspecified`.
    fn default() -> (r: Self)
        ensures
            r == PictureType::Unspecified,
    {
        PictureType::Unspecified
    }
}

/// One entry of a frame's side data: FFmpeg's `AVFrameSideDataType` code
/// and the raw payload bytes.
#[derive(Debug, Clone, PartialEq, Eq)]
pub struct SideDataEntry {
    /// The `AVFrameSideDataType` code.
    pub kind: i32,
    /// The payload, copied out of the frame.
    pub data: Vec<u8>,
}

/// Video-frame metadata beyond the universal frame description.
#[derive(Debug, Clone, PartialEq, Eq)]
pub struct VideoFrameExtra {
    /// Sample aspect ratio `(num, den)`, present only when it is a proper
    /// ratio other than 1:1.
    pub sample_aspect_ratio: Option<(u32, u32)>,
    /// The picture's coding type.
    pub picture_type: PictureType,
    /// Whether the frame is a keyframe.
    pub key_frame: bool,
    /// Whether the frame is interlaced.
    pub interlaced: bool,
    /// Whether the top field is displayed first.
    pub top_field_first: bool,
    /// FFmpeg's best-effort presentation timestamp, when it has one.
    pub best_effort_timestamp: Option<i64>,
    /// Side data, passed through as raw bytes.
    pub side_data: Vec<SideDataEntry>,
}

/// Audio-frame metadata beyond the universal frame description.
#[derive(Debug, Clone, PartialEq, Eq)]
pub struct AudioFrameExtra {
    /// FFmpeg's best-effort presentation timestamp, when it has one.
    pub best_effort_timestamp: Option<i64>,
    /// Side data, passed through as raw bytes.
    pub side_data: Vec<SideDataEntry>,
}

/// Subtitle-frame metadata: the display window FFmpeg reports, in
/// milliseconds relative to the packet's timestamp.
#[derive(Debug, Clone, Copy, PartialEq, Eq, Structural, Hash)]
pub struct SubtitleFrameExtra {
    /// Start of display, in milliseconds.
    pub start_display_time: u32,
    /// End of display, in milliseconds.
    pub end_display_time: u32,
}

} // verus!
