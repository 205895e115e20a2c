//! Color metadata: enums for matrix, primaries, transfer, range and chroma
//! location, all closed-form per ITU-T H.273, and the bundle of them that a
//! video frame carries.

use vstd::prelude::*;

verus! {

/// Color matrix coefficients per ITU-T H.273 MatrixCoefficients (Table 4) /
/// ISO/IEC 23001-8.
///
/// Read from `AVFrame.colorspace`. FFmpeg's convention for an unspecified
/// matrix is BT.709 for sources at least 720 lines high and BT.601 below that;
/// the default of this enum is `Bt709`.
#[derive(Debug, Clone, Copy, PartialEq, Eq, Structural, Hash)]
#[non_exhaustive]
pub enum ColorMatrix {
    /// ITU-R BT.601 (SDTV); also the correct choice for SMPTE 170M / BT.470BG (identical coefficients).
    Bt601,
    /// ITU-R BT.709 (HDTV).
    Bt709,
    /// ITU-R BT.2020 non-constant-luminance (UHDTV / HDR10).
    Bt2020Ncl,
    /// SMPTE 240M (legacy 1990s HDTV).
    Smpte240m,
    /// FCC CFR 47 §73.682 (legacy NTSC, very close to BT.601 numerically).
    Fcc,
    /// YCgCo per ITU-T H.273 MatrixCoefficients = 8.
    YCgCo,
}

impl Default for ColorMatrix {
    /// `ColorMatrix::Bt709`.
    fn default() -> (r: Self)
        ensures
            r == ColorMatrix::Bt709,
    {
        ColorMatrix::Bt709
    }
}

impl ColorMatrix {
    /// Whether this is `ColorMatrix::Bt601`.
    pub fn is_bt_601(&self) -> (r: bool)
        ensures
            r == (*self is Bt601),
    {
        matches!(self, ColorMatrix::Bt601)
    }

    /// Whether this is `ColorMatrix::Bt709`.
    pub fn is_bt_709(&self) -> (r: bool)
        ensures
            r == (*self is Bt709),
    {
        matches!(self, ColorMatrix::Bt709)
    }

    /// Whether this is `ColorMatrix::Bt2020Ncl`.
    pub fn is_bt_2020_ncl(&self) -> (r: bool)
        ensures
            r == (*self is Bt2020Ncl),
    {
        matches!(self, ColorMatrix::Bt2020Ncl)
    }

    /// Whether this is `ColorMatrix::Smpte240m`.
    pub fn is_smpte_240_m(&self) -> (r: bool)
        ensures
            r == (*self is Smpte240m),
    {
        matches!(self, ColorMatrix::Smpte240m)
    }

    /// Whether this is `ColorMatrix::Fcc`.
    pub fn is_fcc(&self) -> (r: bool)
        ensures
            r == (*self is Fcc),
    {
        matches!(self, ColorMatrix::Fcc)
    }

    /// Whether this is `ColorMatrix::YCgCo`.
    pub fn is_y_cg_co(&self) -> (r: bool)
        ensures
            r == (*self is YCgCo),
    {
        matches!(self, ColorMatrix::YCgCo)
    }
}

/// Color primaries per ITU-T H.273 ColourPrimaries (Table 2) / ISO/IEC 23001-8.
///
/// Read from `AVFrame.color_primaries`.
#[derive(Debug, Clone, Copy, PartialEq, Eq, Structural, Hash)]
#[non_exhaustive]
pub enum ColorPrimaries {
    /// ITU-R BT.709 (HDTV).
    Bt709,
    /// Unspecified; the caller infers from the height.
    Unspecified,
    /// ITU-R BT.470 System M (legacy NTSC).
    Bt470M,
    /// ITU-R BT.470 System BG (PAL/SECAM).
    Bt470Bg,
    /// SMPTE 170M (NTSC SD; same primaries as BT.601).
    Smpte170M,
    /// SMPTE 240M (legacy 1990s HDTV).
    Smpte240M,
    /// Generic film (ITU-T H.273).
    Film,
    /// ITU-R BT.2020 (UHDTV / HDR10).
    Bt2020,
    /// SMPTE ST 428-1 (XYZ).
    SmpteSt428,
    /// SMPTE RP 431-2 (DCI-P3).
    SmpteRp431,
    /// SMPTE EG 432-1 (Display P3).
    SmpteEg432,
    /// EBU Tech. 3213-E (legacy).
    Ebu3213E,
}

impl Default for ColorPrimaries {
    /// `ColorPrimaries::Unspecified`.
    fn default() -> (r: Self)
        ensures
            r == ColorPrimaries::Unspecified,
    {
        ColorPrimaries::Unspecified
    }
}

impl ColorPrimaries {
    /// Whether this is `ColorPrimaries::Bt709`.
    pub fn is_bt_709(&self) -> (r: bool)
        ensures
            r == (*self is Bt709),
    {
        matches!(self, ColorPrimaries::Bt709)
    }

    /// Whether this is `ColorPrimaries::Unspecified`.
    pub fn is_unspecified(&self) -> (r: bool)
        ensures
            r == (*self is Unspecified),
    {
        matches!(self, ColorPrimaries::Unspecified)
    }

    /// Whether this is `ColorPrimaries::Bt470M`.
    pub fn is_bt_470_m(&self) -> (r: bool)
        ensures
            r == (*self is Bt470M),
    {
        matches!(self, ColorPrimaries::Bt470M)
    }

    /// Whether this is `ColorPrimaries::Bt470Bg`.
    pub fn is_bt_470_bg(&self) -> (r: bool)
        ensures
            r == (*self is Bt470Bg),
    {
        matches!(self, ColorPrimaries::Bt470Bg)
    }

    /// Whether this is `ColorPrimaries::Smpte170M`.
    pub fn is_smpte_170_m(&self) -> (r: bool)
        ensures
            r == (*self is Smpte170M),
    {
        matches!(self, ColorPrimaries::Smpte170M)
    }

    /// Whether this is `ColorPrimaries::Smpte240M`.
    pub fn is_smpte_240_m(&self) -> (r: bool)
        ensures
            r == (*self is Smpte240M),
    {
        matches!(self, ColorPrimaries::Smpte240M)
    }

    /// Whether this is `ColorPrimaries::Film`.
    pub fn is_film(&self) -> (r: bool)
        ensures
            r == (*self is Film),
    {
        matches!(self, ColorPrimaries::Film)
    }

    /// Whether this is `ColorPrimaries::Bt2020`.
    pub fn is_bt_2020(&self) -> (r: bool)
        ensures
            r == (*self is Bt2020),
    {
        matches!(self, ColorPrimaries::Bt2020)
    }

    /// Whether this is `ColorPrimaries::SmpteSt428`.
    pub fn is_smpte_st_428(&self) -> (r: bool)
        ensures
            r == (*self is SmpteSt428),
    {
        matches!(self, ColorPrimaries::SmpteSt428)
    }

    /// Whether this is `ColorPrimaries::SmpteRp431`.
    pub fn is_smpte_rp_431(&self) -> (r: bool)
        ensures
            r == (*self is SmpteRp431),
    {
        matches!(self, ColorPrimaries::SmpteRp431)
    }

    /// Whether this is `ColorPrimaries::SmpteEg432`.
    pub fn is_smpte_eg_432(&self) -> (r: bool)
        ensures
            r == (*self is SmpteEg432),
    {
        matches!(self, ColorPrimaries::SmpteEg432)
    }

    /// Whether this is `ColorPrimaries::Ebu3213E`.
    pub fn is_ebu_3213_e(&self) -> (r: bool)
        ensures
            r == (*self is Ebu3213E),
    {
        matches!(self, ColorPrimaries::Ebu3213E)
    }
}

/// Transfer characteristics per ITU-T H.273 (Table 3).
///
/// Read from `AVFrame.color_trc`.
#[derive(Debug, Clone, Copy, PartialEq, Eq, Structural, Hash)]
#[non_exhaustive]
pub enum ColorTransfer {
    /// ITU-R BT.709.
    Bt709,
    /// Unspecified.
    Unspecified,
    /// BT.470 System M (gamma 2.2).
    Bt470M,
    /// BT.470 System BG (gamma 2.8).
    Bt470Bg,
    /// SMPTE 170M (BT.601).
    Smpte170M,
    /// SMPTE 240M.
    Smpte240M,
    /// Linear transfer.
    Linear,
    /// Log 100:1.
    Log100,
    /// Log 316.22:1.
    Log316,
    /// IEC 61966-2-4 (xvYCC).
    Iec6196624,
    /// ITU-R BT.1361 ECG.
    Bt1361Ecg,
    /// IEC 61966-2-1 (sRGB).
    Iec6196621,
    /// ITU-R BT.2020 10-bit.
    Bt2020_10Bit,
    /// ITU-R BT.2020 12-bit.
    Bt2020_12Bit,
    /// SMPTE ST 2084, Perceptual Quantizer (HDR10).
    SmpteSt2084Pq,
    /// SMPTE ST 428.
    SmpteSt428,
    /// ARIB STD-B67, Hybrid Log-Gamma.
    AribStdB67Hlg,
}

impl Default for ColorTransfer {
    /// `ColorTransfer::Unspecified`.
    fn default() -> (r: Self)
        ensures
            r == ColorTransfer::Unspecified,
    {
        ColorTransfer::Unspecified
    }
}

impl ColorTransfer {
    /// Whether this is `ColorTransfer::Bt709`.
    pub fn is_bt_709(&self) -> (r: bool)
        ensures
            r == (*self is Bt709),
    {
        matches!(self, ColorTransfer::Bt709)
    }

    /// Whether this is `ColorTransfer::Unspecified`.
    pub fn is_unspecified(&self) -> (r: bool)
        ensures
            r == (*self is Unspecified),
    {
        matches!(self, ColorTransfer::Unspecified)
    }

    /// Whether this is `ColorTransfer::Bt470M`.
    pub fn is_bt_470_m(&self) -> (r: bool)
        ensures
            r == (*self is Bt470M),
    {
        matches!(self, ColorTransfer::Bt470M)
    }

    /// Whether this is `ColorTransfer::Bt470Bg`.
    pub fn is_bt_470_bg(&self) -> (r: bool)
        ensures
            r == (*self is Bt470Bg),
    {
        matches!(self, ColorTransfer::Bt470Bg)
    }

    /// Whether this is `ColorTransfer::Smpte170M`.
    pub fn is_smpte_170_m(&self) -> (r: bool)
        ensures
            r == (*self is Smpte170M),
    {
        matches!(self, ColorTransfer::Smpte170M)
    }

    /// Whether this is `ColorTransfer::Smpte240M`.
    pub fn is_smpte_240_m(&self) -> (r: bool)
        ensures
            r == (*self is Smpte240M),
    {
        matches!(self, ColorTransfer::Smpte240M)
    }

    /// Whether this is `ColorTransfer::Linear`.
    pub fn is_linear(&self) -> (r: bool)
        ensures
            r == (*self is Linear),
    {
        matches!(self, ColorTransfer::Linear)
    }

    /// Whether this is `ColorTransfer::Log100`.
    pub fn is_log_100(&self) -> (r: bool)
        ensures
            r == (*self is Log100),
    {
        matches!(self, ColorTransfer::Log100)
    }

    /// Whether this is `ColorTransfer::Log316`.
    pub fn is_log_316(&self) -> (r: bool)
        ensures
            r == (*self is Log316),
    {
        matches!(self, ColorTransfer::Log316)
    }

    /// Whether this is `ColorTransfer::Iec6196624`.
    pub fn is_iec_6196624(&self) -> (r: bool)
        ensures
            r == (*self is Iec6196624),
    {
        matches!(self, ColorTransfer::Iec6196624)
    }

    /// Whether this is `ColorTransfer::Bt1361Ecg`.
    pub fn is_bt_1361_ecg(&self) -> (r: bool)
        ensures
            r == (*self is Bt1361Ecg),
    {
        matches!(self, ColorTransfer::Bt1361Ecg)
    }

    /// Whether this is `ColorTransfer::Iec6196621`.
    pub fn is_iec_6196621(&self) -> (r: bool)
        ensures
            r == (*self is Iec6196621),
    {
        matches!(self, ColorTransfer::Iec6196621)
    }

    /// Whether this is `ColorTransfer::Bt2020_10Bit`.
    pub fn is_bt_2020_10_bit(&self) -> (r: bool)
        ensures
            r == (*self is Bt2020_10Bit),
    {
        matches!(self, ColorTransfer::Bt2020_10Bit)
    }

    /// Whether this is `ColorTransfer::Bt2020_12Bit`.
    pub fn is_bt_2020_12_bit(&self) -> (r: bool)
        ensures
            r == (*self is Bt2020_12Bit),
    {
        matches!(self, ColorTransfer::Bt2020_12Bit)
    }

    /// Whether this is `ColorTransfer::SmpteSt2084Pq`.
    pub fn is_smpte_st_2084_pq(&self) -> (r: bool)
        ensures
            r == (*self is SmpteSt2084Pq),
    {
        matches!(self, ColorTransfer::SmpteSt2084Pq)
    }

    /// Whether this is `ColorTransfer::SmpteSt428`.
    pub fn is_smpte_st_428(&self) -> (r: bool)
        ensures
            r == (*self is SmpteSt428),
    {
        matches!(self, ColorTransfer::SmpteSt428)
    }

    /// Whether this is `ColorTransfer::AribStdB67Hlg`.
    pub fn is_arib_std_b_67_hlg(&self) -> (r: bool)
        ensures
            r == (*self is AribStdB67Hlg),
    {
        matches!(self, ColorTransfer::AribStdB67Hlg)
    }
}

/// Sample range: limited (TV / studio swing) or full (PC).
#[derive(Debug, Clone, Copy, PartialEq, Eq, Structural, Hash)]
#[non_exhaustive]
pub enum ColorRange {
    /// Unspecified; the caller assumes limited.
    Unspecified,
    /// Limited / studio swing (8-bit luma 16..235, chroma 16..240).
    Limited,
    /// Full / PC swing (8-bit 0..255).
    Full,
}

impl Default for ColorRange {
    /// `ColorRange::Unspecified`.
    fn default() -> (r: Self)
        ensures
            r == ColorRange::Unspecified,
    {
        ColorRange::Unspecified
    }
}

impl ColorRange {
    /// Whether this is `ColorRange::Unspecified`.
    pub fn is_unspecified(&self) -> (r: bool)
        ensures
            r == (*self is Unspecified),
    {
        matches!(self, ColorRange::Unspecified)
    }

    /// Whether this is `ColorRange::Limited`.
    pub fn is_limited(&self) -> (r: bool)
        ensures
            r == (*self is Limited),
    {
        matches!(self, ColorRange::Limited)
    }

    /// Whether this is `ColorRange::Full`.
    pub fn is_full(&self) -> (r: bool)
        ensures
            r == (*self is Full),
    {
        matches!(self, ColorRange::Full)
    }
}

/// Chroma sample location (for subsampled YUV formats).
///
/// Aligns with the H.265 SPS chroma location and FFmpeg's `AVChromaLocation`.
#[derive(Debug, Clone, Copy, PartialEq, Eq, Structural, Hash)]
#[non_exhaustive]
pub enum ChromaLocation {
    /// Unspecified.
    Unspecified,
    /// MPEG-2 / H.264 default (chroma at the left of two luma samples).
    Left,
    /// MPEG-1 / JPEG (chroma centered between four luma samples).
    Center,
    /// DV PAL, top-left.
    TopLeft,
    /// Top.
    Top,
    /// Bottom-left.
    BottomLeft,
    /// Bottom.
    Bottom,
}

impl Default for ChromaLocation {
    /// `ChromaLocation::Unspecified`.
    fn default() -> (r: Self)
        ensures
            r == ChromaLocation::Unspecified,
    {
        ChromaLocation::Unspecified
    }
}

impl ChromaLocation {
    /// Whether this is `ChromaLocation::Unspecified`.
    pub fn is_unspecified(&self) -> (r: bool)
        ensures
            r == (*self is Unspecified),
    {
        matches!(self, ChromaLocation::Unspecified)
    }

    /// Whether this is `ChromaLocation::Left`.
    pub fn is_left(&self) -> (r: bool)
        ensures
            r == (*self is Left),
    {
        matches!(self, ChromaLocation::Left)
    }

    /// Whether this is `ChromaLocation::Center`.
    pub fn is_center(&self) -> (r: bool)
        ensures
            r == (*self is Center),
    {
        matches!(self, ChromaLocation::Center)
    }

    /// Whether this is `ChromaLocation::TopLeft`.
    pub fn is_top_left(&self) -> (r: bool)
        ensures
            r == (*self is TopLeft),
    {
        matches!(self, ChromaLocation::TopLeft)
    }

    /// Whether this is `ChromaLocation::Top`.
    pub fn is_top(&self) -> (r: bool)
        ensures
            r == (*self is Top),
    {
        matches!(self, ChromaLocation::Top)
    }

    /// Whether this is `ChromaLocation::BottomLeft`.
    pub fn is_bottom_left(&self) -> (r: bool)
        ensures
            r == (*self is BottomLeft),
    {
        matches!(self, ChromaLocation::BottomLeft)
    }

    /// Whether this is `ChromaLocation::Bottom`.
    pub fn is_bottom(&self) -> (r: bool)
        ensures
            r == (*self is Bottom),
    {
        matches!(self, ChromaLocation::Bottom)
    }
}

/// The colour metadata a video frame carries.
#[derive(Debug, Clone, Copy, PartialEq, Eq, Structural, Hash)]
pub struct ColorInfo {
    /// Color primaries.
    pub primaries: ColorPrimaries,
    /// Transfer characteristics.
    pub transfer: ColorTransfer,
    /// Matrix coefficients.
    pub matrix: ColorMatrix,
    /// Sample range.
    pub range: ColorRange,
    /// Chroma sample location.
    pub chroma_location: ChromaLocation,
}

} // verus!
