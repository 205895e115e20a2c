//! Subtitles: the payload a decoded FFmpeg subtitle carries, and the
//! one-slot queue that lets a subtitle decoder, which produces its frame
//! inline with each packet, answer "send a packet, then receive a frame".

use vstd::prelude::*;

use crate::convert::{
    clamp_u32, copy_prefix, non_negative_u32, spec_timestamp, timestamp_from_raw, ConvertError,
};
use crate::extras::SubtitleFrameExtra;
use crate::timing::{millis_in, rescale_millis, spec_stream_timestamp, stream_timestamp};
use mediatime::{Timebase, Timestamp};

verus! {

/// `SUBTITLE_BITMAP`: a paletted bitmap rectangle.
pub const SUBTITLE_BITMAP: i32 = 1;

/// `SUBTITLE_TEXT`: plain UTF-8 text.
pub const SUBTITLE_TEXT: i32 = 2;

/// `SUBTITLE_ASS`: an ASS event line.
pub const SUBTITLE_ASS: i32 = 3;

/// The size in bytes of a subtitle bitmap's palette: 256 RGBA entries.
pub const PALETTE_BYTES: usize = 1024;

/// A plain-value reading of one `AVSubtitleRect`.
///
/// Text and ASS strings are given as their bytes before the terminating
/// NUL (`None` for a null pointer); the bitmap as the bytes of its first
/// plane (at least [`bitmap_data_len`] of them) and the palette as at least
/// [`PALETTE_BYTES`] bytes, each `None` for a null pointer.
#[derive(Debug, Clone, PartialEq, Eq)]
pub struct RawSubtitleRect {
    /// The `AVSubtitleType` code.
    pub kind: i32,
    /// Left edge in pixels.
    pub x: i32,
    /// Top edge in pixels.
    pub y: i32,
    /// Width in pixels.
    pub w: i32,
    /// Height in pixels.
    pub h: i32,
    /// Bytes per line of the bitmap (`linesize[0]`).
    pub linesize: i32,
    /// The paletted bitmap (`data[0]`).
    pub bitmap: Option<Vec<u8>>,
    /// The RGBA palette (`data[1]`).
    pub palette: Option<Vec<u8>>,
    /// The text (`text`).
    pub text: Option<Vec<u8>>,
    /// The ASS event (`ass`).
    pub ass: Option<Vec<u8>>,
}

/// A plain-value reading of an `AVSubtitle`: its rectangles (`None` for a
/// null entry; empty when the array is null), its timestamp and its display
/// window.
#[derive(Debug, Clone, PartialEq, Eq)]
pub struct RawSubtitle {
    /// `rects[0..num_rects]`.
    pub rects: Vec<Option<RawSubtitleRect>>,
    /// `pts`.
    pub pts: i64,
    /// `start_display_time`, in milliseconds.
    pub start_display_time: u32,
    /// `end_display_time`, in milliseconds.
    pub end_display_time: u32,
}

/// One bitmap region of a subtitle, with its pixels and palette copied out.
#[derive(Debug, Clone, PartialEq, Eq)]
pub struct BitmapRegion {
    /// Left edge in pixels.
    pub x: u32,
    /// Top edge in pixels.
    pub y: u32,
    /// Width in pixels.
    pub width: u32,
    /// Height in pixels.
    pub height: u32,
    /// Bytes per line.
    pub stride: u32,
    /// Paletted indices, `stride * height` bytes.
    pub data: Vec<u8>,
    /// RGBA palette, 1024 bytes (empty when the subtitle has none).
    pub palette: Vec<u8>,
}

/// What a subtitle frame shows.
#[derive(Debug, Clone, PartialEq, Eq)]
pub enum SubtitlePayload {
    /// UTF-8 text (plain or ASS).
    Text {
        /// The text bytes.
        text: Vec<u8>,
        /// The language, when known.
        language: Option<String>,
    },
    /// Paletted bitmap regions.
    Bitmap {
        /// The regions, in order.
        regions: Vec<BitmapRegion>,
    },
}

/// A decoded subtitle frame.
#[derive(Debug, Clone, PartialEq, Eq)]
pub struct SubtitleFrame {
    /// What the frame shows.
    pub payload: SubtitlePayload,
    /// Presentation timestamp, labelled with the stream's time base.
    pub pts: Option<Timestamp>,
    /// How long the subtitle shows, in the stream's time base.
    pub duration: Option<Timestamp>,
    /// The display window.
    pub extra: SubtitleFrameExtra,
}

/// The number of bytes a bitmap of `stride` bytes per line and `height`
/// lines holds, saturating at the address-space size.
pub open spec fn spec_bitmap_data_len(stride: u32, height: u32) -> usize {
    if stride * height > usize::MAX {
        usize::MAX
    } else {
        (stride * height) as usize
    }
}

/// The number of bytes a bitmap of `stride` bytes per line and `height`
/// lines holds, saturating at the address-space size.
pub fn bitmap_data_len(stride: u32, height: u32) -> (r: usize)
    ensures
        r == spec_bitmap_data_len(stride, height),
{
    assert(stride as u64 * height as u64 <= u32::MAX as u64 * u32::MAX as u64) by (nonlinear_arith);
    let product: u64 = stride as u64 * height as u64;
    if product > usize::MAX as u64 {
        usize::MAX
    } else {
        product as usize
    }
}

/// The text a rectangle contributes: that of a text rectangle with text,
/// or of an ASS rectangle with an event; none otherwise.
pub open spec fn rect_text(r: RawSubtitleRect) -> Option<Seq<u8>> {
    if r.kind == SUBTITLE_TEXT && r.text is Some {
        Some(r.text->0@)
    } else if r.kind == SUBTITLE_ASS && r.ass is Some {
        Some(r.ass->0@)
    } else {
        None
    }
}

/// Whether any rectangle of a list is a text rectangle with text or an ASS
/// rectangle with an event (empty or not).
pub open spec fn text_present(rects: Seq<Option<RawSubtitleRect>>) -> bool
    decreases rects.len(),
{
    if rects.len() == 0 {
        false
    } else {
        text_present(rects.drop_last()) || (rects.last() matches Some(r) && rect_text(r) is Some)
    }
}

/// Whether a rectangle contributes a bitmap region: a bitmap rectangle
/// with pixels, a positive stride and a positive height.
pub open spec fn rect_has_region(r: RawSubtitleRect) -> bool {
    &&& r.kind == SUBTITLE_BITMAP
    &&& r.bitmap is Some
    &&& clamp_u32(r.linesize) != 0
    &&& clamp_u32(r.h) != 0
}

/// The rectangle's buffers hold what its fields promise.
pub open spec fn rect_well_formed(r: RawSubtitleRect) -> bool {
    &&& rect_has_region(r) ==> r.bitmap->0.len() >= spec_bitmap_data_len(clamp_u32(r.linesize), clamp_u32(r.h))
    &&& (r.kind == SUBTITLE_BITMAP && r.palette is Some) ==> r.palette->0.len() >= PALETTE_BYTES
}

/// Every rectangle of the list is well formed.
pub open spec fn rects_well_formed(rects: Seq<Option<RawSubtitleRect>>) -> bool {
    forall|i: int| 0 <= i < rects.len() ==> (#[trigger] rects[i] matches Some(r) ==> rect_well_formed(r))
}

/// Appends `t` to the text gathered so far, after a newline unless nothing
/// has been gathered.
pub open spec fn join_text(acc: Seq<u8>, t: Seq<u8>) -> Seq<u8> {
    if acc.len() == 0 {
        t
    } else {
        acc + seq![10u8] + t
    }
}

/// The text of a list of rectangles: the texts of its text and ASS
/// rectangles, in order, newline-separated.
pub open spec fn text_of(rects: Seq<Option<RawSubtitleRect>>) -> Seq<u8>
    decreases rects.len(),
{
    if rects.len() == 0 {
        Seq::empty()
    } else {
        let acc = text_of(rects.drop_last());
        match rects.last() {
            Some(r) => match rect_text(r) {
                Some(t) => join_text(acc, t),
                None => acc,
            },
            None => acc,
        }
    }
}

/// The rectangles of a list that contribute bitmap regions, in order.
pub open spec fn region_rects(rects: Seq<Option<RawSubtitleRect>>) -> Seq<RawSubtitleRect>
    decreases rects.len(),
{
    if rects.len() == 0 {
        Seq::empty()
    } else {
        let acc = region_rects(rects.drop_last());
        match rects.last() {
            Some(r) => if rect_has_region(r) {
                acc.push(r)
            } else {
                acc
            },
            None => acc,
        }
    }
}

/// `g` is the bitmap region of rectangle `r`: its position and size read
/// as unsigned, its stride from the line size, its pixels the first
/// `stride * height` bytes of the bitmap and its palette the first 1024
/// bytes of the palette (empty when there is none).
pub open spec fn region_matches(g: BitmapRegion, r: RawSubtitleRect) -> bool {
    let stride = clamp_u32(r.linesize);
    let height = clamp_u32(r.h);
    &&& g.x == clamp_u32(r.x)
    &&& g.y == clamp_u32(r.y)
    &&& g.width == clamp_u32(r.w)
    &&& g.height == height
    &&& g.stride == stride
    &&& g.data@ == r.bitmap->0@.take(spec_bitmap_data_len(stride, height) as int)
    &&& g.palette@ == match r.palette {
        Some(p) => p@.take(PALETTE_BYTES as int),
        None => Seq::empty(),
    }
}

/// `gs` are the bitmap regions of `rs`, one for one.
pub open spec fn regions_match(gs: Seq<BitmapRegion>, rs: Seq<RawSubtitleRect>) -> bool {
    &&& gs.len() == rs.len()
    &&& forall|i: int| 0 <= i < rs.len() ==> region_matches(#[trigger] gs[i], rs[i])
}

/// `p` is the payload of a subtitle with rectangles `rects`: its gathered
/// text when it has a text or ASS rectangle (bitmaps then contribute
/// nothing); otherwise its bitmap regions when there are any; otherwise
/// empty text. No language is known.
pub open spec fn payload_matches(p: SubtitlePayload, rects: Seq<Option<RawSubtitleRect>>) -> bool {
    if text_present(rects) {
        p matches SubtitlePayload::Text { text, language } && text@ == text_of(rects) && language is None
    } else if region_rects(rects).len() > 0 {
        p matches SubtitlePayload::Bitmap { regions } && regions_match(regions@, region_rects(rects))
    } else {
        p matches SubtitlePayload::Text { text, language } && text@.len() == 0 && language is None
    }
}

/// The bitmap region of a rectangle that contributes one.
fn bitmap_region(r: &RawSubtitleRect) -> (g: BitmapRegion)
    requires
        rect_has_region(*r),
        rect_well_formed(*r),
    ensures
        region_matches(g, *r),
{
    let stride = non_negative_u32(r.linesize);
    let h = non_negative_u32(r.h);
    let data_len = bitmap_data_len(stride, h);
    let data = match &r.bitmap {
        Some(b) => copy_prefix(b.as_slice(), data_len),
        None => Vec::new(),
    };
    let palette = match &r.palette {
        Some(p) => copy_prefix(p.as_slice(), PALETTE_BYTES),
        None => Vec::new(),
    };
    BitmapRegion {
        x: non_negative_u32(r.x),
        y: non_negative_u32(r.y),
        width: non_negative_u32(r.w),
        height: h,
        stride,
        data,
        palette,
    }
}

/// Whether a rectangle contributes a bitmap region.
fn has_region(r: &RawSubtitleRect) -> (b: bool)
    ensures
        b == rect_has_region(*r),
{
    r.kind == SUBTITLE_BITMAP && r.bitmap.is_some() && r.linesize > 0 && r.h > 0
}

/// Appends bytes to a byte vector.
fn append_bytes(out: &mut Vec<u8>, bytes: &Vec<u8>)
    ensures
        final(out)@ == old(out)@ + bytes@,
{
    let mut i: usize = 0;
    while i < bytes.len()
        invariant
            i <= bytes.len(),
            out@ == old(out)@ + bytes@.take(i as int),
        decreases bytes.len() - i,
    {
        out.push(bytes[i]);
        i = i + 1;
        assert(out@ == old(out)@ + bytes@.take(i as int));
    }
    assert(bytes@.take(bytes.len() as int) == bytes@);
}

/// The payload of a subtitle with the given rectangles.
///
/// Text and ASS rectangles are gathered into one text, newline-separated;
/// when there is no text or ASS rectangle, bitmap rectangles become regions with their
/// pixels and palettes copied out; a subtitle with neither is empty text.
pub fn subtitle_payload(rects: &Vec<Option<RawSubtitleRect>>) -> (p: SubtitlePayload)
    requires
        rects_well_formed(rects@),
    ensures
        payload_matches(p, rects@),
{
    let mut text: Vec<u8> = Vec::new();
    let mut regions: Vec<BitmapRegion> = Vec::new();
    let mut saw_text = false;
    let mut i: usize = 0;
    while i < rects.len()
        invariant
            i <= rects.len(),
            rects_well_formed(rects@),
            text@ == text_of(rects@.take(i as int)),
            saw_text == text_present(rects@.take(i as int)),
            regions_match(regions@, region_rects(rects@.take(i as int))),
        decreases rects.len() - i,
    {
        assert(rects@.take(i + 1).drop_last() == rects@.take(i as int));
        assert(rects@.take(i + 1).last() == rects@[i as int]);
        let ghost before = regions@;
        match &rects[i] {
            None => {},
            Some(r) => {
                if r.kind == SUBTITLE_TEXT && r.text.is_some() {
                    if let Some(t) = &r.text {
                        if text.len() > 0 {
                            text.push(10u8);
                        }
                        append_bytes(&mut text, t);
                    }
                    saw_text = true;
                } else if r.kind == SUBTITLE_ASS && r.ass.is_some() {
                    if let Some(t) = &r.ass {
                        if text.len() > 0 {
                            text.push(10u8);
                        }
                        append_bytes(&mut text, t);
                    }
                    saw_text = true;
                } else if has_region(r) {
                    assert(rect_well_formed(*r));
                    let g = bitmap_region(r);
                    regions.push(g);
                }
            },
        }
        i = i + 1;
        proof {
            let rs = region_rects(rects@.take(i as int));
            assert forall|j: int| 0 <= j < rs.len() implies region_matches(#[trigger] regions@[j], rs[j]) by {
                if j < before.len() {
                    assert(regions@[j] == before[j]);
                }
            }
        }
    }
    assert(rects@.take(rects.len() as int) == rects@);
    if saw_text {
        SubtitlePayload::Text { text, language: None }
    } else if regions.len() > 0 {
        SubtitlePayload::Bitmap { regions }
    } else {
        SubtitlePayload::Text { text: Vec::new(), language: None }
    }
}

/// How long a subtitle shown from `start` to `end` (milliseconds) lasts,
/// rescaled into time base `tb` and labelled with it: none when the window
/// ends before it starts, or when the rescale gives no tick count.
pub open spec fn spec_subtitle_duration(start: u32, end: u32, tb: Timebase) -> Option<Timestamp> {
    if end < start {
        None
    } else {
        spec_stream_timestamp(millis_in((end - start) as i64, tb), tb)
    }
}

/// How long a subtitle shown from `start` to `end` (milliseconds) lasts, in
/// time base `time_base`.
pub fn subtitle_duration(start: u32, end: u32, time_base: Timebase) -> (r: Option<Timestamp>)
    ensures
        r == spec_subtitle_duration(start, end, time_base),
{
    if end < start {
        None
    } else {
        let ms: i64 = (end - start) as i64;
        stream_timestamp(rescale_millis(ms, time_base), time_base)
    }
}

/// `f` is the frame converted from subtitle `raw` in a stream of time base
/// `tb`.
pub open spec fn frame_of(f: SubtitleFrame, raw: RawSubtitle, tb: Timebase) -> bool {
    &&& payload_matches(f.payload, raw.rects@)
    &&& f.pts == spec_stream_timestamp(spec_timestamp(raw.pts), tb)
    &&& f.duration == spec_subtitle_duration(raw.start_display_time, raw.end_display_time, tb)
    &&& f.extra.start_display_time == raw.start_display_time
    &&& f.extra.end_display_time == raw.end_display_time
}

/// Converts a decoded FFmpeg subtitle into a [`SubtitleFrame`]: its payload
/// as [`subtitle_payload`] builds it, its timestamp (none for
/// `AV_NOPTS_VALUE`) labelled with the stream's time base `time_base`, its
/// duration (the display window's length, rescaled into `time_base`) and
/// its display window.
pub fn av_subtitle_to_subtitle_frame(sub: &RawSubtitle, time_base: Timebase) -> (f: SubtitleFrame)
    requires
        rects_well_formed(sub.rects@),
    ensures
        frame_of(f, *sub, time_base),
{
    SubtitleFrame {
        payload: subtitle_payload(&sub.rects),
        pts: stream_timestamp(timestamp_from_raw(sub.pts), time_base),
        duration: subtitle_duration(sub.start_display_time, sub.end_display_time, time_base),
        extra: SubtitleFrameExtra {
            start_display_time: sub.start_display_time,
            end_display_time: sub.end_display_time,
        },
    }
}

/// Errors from a subtitle decoder.
#[derive(Debug, Clone, Copy, PartialEq, Eq, Structural)]
#[non_exhaustive]
pub enum SubtitleDecodeError {
    /// The wrapped FFmpeg subtitle decoder reported an error: its
    /// `AVERROR` code.
    Decode(i32),
    /// Converting the decoded `AVSubtitle` into a [`SubtitleFrame`] failed.
    Convert(ConvertError),
    /// A frame was asked for with none ready: the caller should send
    /// another packet first.
    NoFrameReady,
}

/// What FFmpeg's subtitle decoder made of one packet.
#[derive(Debug, Clone, PartialEq, Eq)]
pub enum DecodeOutcome {
    /// The decoder failed with this `AVERROR` code.
    Failed(i32),
    /// The decoder consumed the packet and produced no subtitle.
    NoSubtitle,
    /// The decoder produced this subtitle.
    Subtitle(RawSubtitle),
    /// The decoder produced a subtitle that could not be read.
    Unreadable(ConvertError),
}

/// The one-slot queue between a subtitle decoder and its consumer.
///
/// FFmpeg decodes a subtitle inline with each packet; the queue holds the
/// most recent converted frame until it is received, so that sending a
/// packet and receiving a frame are separate steps.
#[derive(Debug)]
pub struct SubtitleFrameQueue {
    pending: Option<SubtitleFrame>,
    time_base: Timebase,
}

impl View for SubtitleFrameQueue {
    type V = Option<SubtitleFrame>;

    /// The frame waiting to be received, if any.
    closed spec fn view(&self) -> Option<SubtitleFrame> {
        self.pending
    }
}

/// The outcome can be handed to the queue: a produced subtitle is well
/// formed.
pub open spec fn outcome_well_formed(o: DecodeOutcome) -> bool {
    o matches DecodeOutcome::Subtitle(raw) ==> rects_well_formed(raw.rects@)
}

/// What sending a packet with decode outcome `o` to a queue for a stream of
/// time base `tb` does to the waiting frame (`before` then `after`) and what
/// it answers: a produced subtitle, converted, replaces whatever was waiting; every other outcome leaves the
/// queue as it was, answering a decoder error, a conversion error, or
/// success when nothing was produced.
pub open spec fn send_packet_post(
    before: Option<SubtitleFrame>,
    o: DecodeOutcome,
    after: Option<SubtitleFrame>,
    r: Result<(), SubtitleDecodeError>,
    tb: Timebase,
) -> bool {
    match o {
        DecodeOutcome::Failed(code) => after == before && r == Err::<(), SubtitleDecodeError>(
            SubtitleDecodeError::Decode(code),
        ),
        DecodeOutcome::NoSubtitle => after == before && r == Ok::<(), SubtitleDecodeError>(()),
        DecodeOutcome::Unreadable(e) => after == before && r == Err::<(), SubtitleDecodeError>(
            SubtitleDecodeError::Convert(e),
        ),
        DecodeOutcome::Subtitle(raw) => {
            &&& r == Ok::<(), SubtitleDecodeError>(())
            &&& after matches Some(f) && frame_of(f, raw, tb)
        },
    }
}

/// What receiving does: the waiting frame is handed out and the queue
/// empties; with none waiting the answer is `NoFrameReady` and the
/// destination is untouched.
pub open spec fn receive_frame_post(
    before: Option<SubtitleFrame>,
    after: Option<SubtitleFrame>,
    dst_before: SubtitleFrame,
    dst_after: SubtitleFrame,
    r: Result<(), SubtitleDecodeError>,
) -> bool {
    match before {
        Some(f) => {
            &&& r == Ok::<(), SubtitleDecodeError>(())
            &&& dst_after == f
            &&& after is None
        },
        None => {
            &&& r == Err::<(), SubtitleDecodeError>(SubtitleDecodeError::NoFrameReady)
            &&& dst_after == dst_before
            &&& after is None
        },
    }
}

impl SubtitleFrameQueue {
    /// The time base of the stream whose frames the queue holds.
    pub closed spec fn time_base_of(&self) -> Timebase {
        self.time_base
    }

    /// An empty queue for a stream of time base `time_base`.
    pub fn new(time_base: Timebase) -> (q: SubtitleFrameQueue)
        ensures
            q@ is None,
            q.time_base_of() == time_base,
    {
        SubtitleFrameQueue { pending: None, time_base }
    }

    /// Hands the queue the decoder's outcome for one packet.
    pub fn send_packet(&mut self, outcome: DecodeOutcome) -> (r: Result<(), SubtitleDecodeError>)
        requires
            outcome_well_formed(outcome),
        ensures
            send_packet_post(old(self)@, outcome, final(self)@, r, old(self).time_base_of()),
            final(self).time_base_of() == old(self).time_base_of(),
    {
        match outcome {
            DecodeOutcome::Failed(code) => Err(SubtitleDecodeError::Decode(code)),
            DecodeOutcome::NoSubtitle => Ok(()),
            DecodeOutcome::Unreadable(e) => Err(SubtitleDecodeError::Convert(e)),
            DecodeOutcome::Subtitle(raw) => {
                let frame = av_subtitle_to_subtitle_frame(&raw, self.time_base);
                self.pending = Some(frame);
                Ok(())
            },
        }
    }

    /// Moves the waiting frame into `dst`; `NoFrameReady` when none waits.
    pub fn receive_frame(&mut self, dst: &mut SubtitleFrame) -> (r: Result<(), SubtitleDecodeError>)
        ensures
            receive_frame_post(old(self)@, final(self)@, *old(dst), *final(dst), r),
            final(self).time_base_of() == old(self).time_base_of(),
    {
        match self.pending.take() {
            Some(frame) => {
                *dst = frame;
                Ok(())
            },
            None => Err(SubtitleDecodeError::NoFrameReady),
        }
    }

    /// End of stream: subtitle decoding has nothing to drain, so the queue
    /// is unchanged.
    pub fn send_eof(&mut self) -> (r: Result<(), SubtitleDecodeError>)
        ensures
            final(self)@ == old(self)@,
            final(self).time_base_of() == old(self).time_base_of(),
            r == Ok::<(), SubtitleDecodeError>(()),
    {
        Ok(())
    }

    /// Drops the waiting frame, if any.
    pub fn flush(&mut self) -> (r: Result<(), SubtitleDecodeError>)
        ensures
            final(self)@ is None,
            final(self).time_base_of() == old(self).time_base_of(),
            r == Ok::<(), SubtitleDecodeError>(()),
    {
        self.pending = None;
        Ok(())
    }
}

// Laws of subtitle conversion and of the queue.

/// A subtitle's payload is text exactly when one of its rectangles is a
/// text rectangle with text or an ASS rectangle with an event, empty or
/// not, whatever bitmaps it also holds; the text is then the gathered text.
pub proof fn law_text_present(rects: Seq<Option<RawSubtitleRect>>, p: SubtitlePayload)
    requires
        payload_matches(p, rects),
    ensures
        text_present(rects) <==> exists|i: int|
            0 <= i < rects.len() && (#[trigger] rects[i] matches Some(r) && rect_text(r) is Some),
        text_present(rects) ==> (p matches SubtitlePayload::Text { text, .. } && text@ == text_of(rects)),
{
    lemma_text_present_exists(rects);
}

/// `text_present` holds exactly when some rectangle carries text.
proof fn lemma_text_present_exists(rects: Seq<Option<RawSubtitleRect>>)
    ensures
        text_present(rects) <==> exists|i: int|
            0 <= i < rects.len() && (#[trigger] rects[i] matches Some(r) && rect_text(r) is Some),
    decreases rects.len(),
{
    if rects.len() > 0 {
        let init = rects.drop_last();
        lemma_text_present_exists(init);
        let last = rects.len() - 1;
        if text_present(rects) {
            if text_present(init) {
                let i = choose|i: int|
                    0 <= i < init.len() && (#[trigger] init[i] matches Some(r) && rect_text(r) is Some);
                assert(rects[i] == init[i]);
            } else {
                assert(rects[last] == rects.last());
            }
        }
        if exists|i: int|
            0 <= i < rects.len() && (#[trigger] rects[i] matches Some(r) && rect_text(r) is Some) {
            let i = choose|i: int|
                0 <= i < rects.len() && (#[trigger] rects[i] matches Some(r) && rect_text(r) is Some);
            if i < last {
                assert(init[i] == rects[i]);
            } else {
                assert(rects[last] == rects.last());
            }
        }
    }
}

/// The gathered text joins the texts of the text and ASS rectangles in
/// order with a newline (byte 10) between them; a rectangle that adds text
/// to nothing gathered yet adds no newline.
pub proof fn law_text_join(rects: Seq<Option<RawSubtitleRect>>, r: RawSubtitleRect, t: Seq<u8>)
    requires
        rect_text(r) == Some(t),
    ensures
        text_of(rects.push(Some(r))) == (if text_of(rects).len() == 0 {
            t
        } else {
            text_of(rects) + seq![10u8] + t
        }),
        text_present(rects.push(Some(r))),
{
    assert(rects.push(Some(r)).drop_last() == rects);
}

/// A rectangle that is neither text nor ASS leaves the gathered text as it
/// was.
pub proof fn law_text_skips_others(rects: Seq<Option<RawSubtitleRect>>, r: Option<RawSubtitleRect>)
    requires
        r matches Some(x) ==> rect_text(x) is None,
    ensures
        text_of(rects.push(r)) == text_of(rects),
        text_present(rects.push(r)) == text_present(rects),
{
    assert(rects.push(r).drop_last() == rects);
}

/// A subtitle without text shows its bitmap rectangles, in order, each at
/// the rectangle's own position and size: every coordinate and size is the
/// rectangle's, read as unsigned (a negative one becomes zero), the stride
/// is the rectangle's line size, the pixels are the first `stride * height`
/// bytes of its bitmap, and the palette its first 1024 bytes.
pub proof fn law_region_geometry(rects: Seq<Option<RawSubtitleRect>>, p: SubtitlePayload)
    requires
        payload_matches(p, rects),
        !text_present(rects),
        region_rects(rects).len() > 0,
    ensures
        p matches SubtitlePayload::Bitmap { regions } && regions.len() == region_rects(rects).len() && forall|j: int|
            0 <= j < regions.len() ==> {
                let g = #[trigger] regions@[j];
                let r = region_rects(rects)[j];
                &&& r.kind == SUBTITLE_BITMAP
                &&& (r.x >= 0 ==> g.x == r.x) && (r.x < 0 ==> g.x == 0)
                &&& (r.y >= 0 ==> g.y == r.y) && (r.y < 0 ==> g.y == 0)
                &&& (r.w >= 0 ==> g.width == r.w) && (r.w < 0 ==> g.width == 0)
                &&& r.h > 0 && g.height == r.h
                &&& r.linesize > 0 && g.stride == r.linesize
                &&& (r.linesize * r.h <= usize::MAX ==> g.data@ == r.bitmap->0@.take(r.linesize * r.h))
                &&& (r.palette matches Some(pal) ==> g.palette@ == pal@.take(1024))
                &&& (r.palette is None ==> g.palette@.len() == 0)
            },
{
    lemma_region_rects_have_regions(rects);
    if let SubtitlePayload::Bitmap { regions } = p {
        assert forall|j: int| 0 <= j < regions.len() implies region_matches(#[trigger] regions@[j], region_rects(rects)[j]) by {}
    }
}

/// Every rectangle `region_rects` keeps contributes a region.
proof fn lemma_region_rects_have_regions(rects: Seq<Option<RawSubtitleRect>>)
    ensures
        forall|j: int| 0 <= j < region_rects(rects).len() ==> rect_has_region(#[trigger] region_rects(rects)[j]),
    decreases rects.len(),
{
    if rects.len() > 0 {
        let init = rects.drop_last();
        lemma_region_rects_have_regions(init);
        let acc = region_rects(init);
        assert forall|j: int| 0 <= j < region_rects(rects).len() implies rect_has_region(
            #[trigger] region_rects(rects)[j],
        ) by {
            if j < acc.len() {
                assert(rect_has_region(acc[j]));
            }
        }
    }
}

/// Each bitmap region carries exactly `stride * height` bytes of pixels
/// (when that fits in memory) and either no palette or a full 1024-byte
/// one.
pub proof fn law_region_sizes(g: BitmapRegion, r: RawSubtitleRect)
    requires
        rect_has_region(r),
        rect_well_formed(r),
        region_matches(g, r),
    ensures
        g.data.len() == spec_bitmap_data_len(g.stride, g.height),
        g.stride as int * g.height as int <= usize::MAX ==> g.data.len() == g.stride * g.height,
        g.palette.len() == 0 || g.palette.len() == PALETTE_BYTES,
{
}

/// After a packet whose decoding produced a subtitle, the next receive
/// hands out that subtitle's frame, and a receive after that finds nothing.
pub proof fn law_receive_after_send(
    tb: Timebase,
    q0: Option<SubtitleFrame>,
    raw: RawSubtitle,
    q1: Option<SubtitleFrame>,
    r1: Result<(), SubtitleDecodeError>,
    q2: Option<SubtitleFrame>,
    d1: SubtitleFrame,
    d2: SubtitleFrame,
    r2: Result<(), SubtitleDecodeError>,
    q3: Option<SubtitleFrame>,
    d3: SubtitleFrame,
    r3: Result<(), SubtitleDecodeError>,
)
    requires
        send_packet_post(q0, DecodeOutcome::Subtitle(raw), q1, r1, tb),
        receive_frame_post(q1, q2, d1, d2, r2),
        receive_frame_post(q2, q3, d2, d3, r3),
    ensures
        r1 is Ok,
        r2 is Ok,
        frame_of(d2, raw, tb),
        r3 == Err::<(), SubtitleDecodeError>(SubtitleDecodeError::NoFrameReady),
        d3 == d2,
{
}

/// A packet that yields no frame (a decoder error, nothing decoded, or an
/// unreadable subtitle) leaves whatever frame was waiting in place.
pub proof fn law_failed_send_keeps_pending(
    tb: Timebase,
    q0: Option<SubtitleFrame>,
    o: DecodeOutcome,
    q1: Option<SubtitleFrame>,
    r: Result<(), SubtitleDecodeError>,
)
    requires
        !(o is Subtitle),
        send_packet_post(q0, o, q1, r, tb),
    ensures
        q1 == q0,
        r is Err <==> !(o is NoSubtitle),
{
}

/// The queue holds one frame: a newer subtitle replaces a waiting one that
/// was not received.
pub proof fn law_newer_subtitle_replaces(
    tb: Timebase,
    q0: Option<SubtitleFrame>,
    a: RawSubtitle,
    q1: Option<SubtitleFrame>,
    r1: Result<(), SubtitleDecodeError>,
    b: RawSubtitle,
    q2: Option<SubtitleFrame>,
    r2: Result<(), SubtitleDecodeError>,
)
    requires
        send_packet_post(q0, DecodeOutcome::Subtitle(a), q1, r1, tb),
        send_packet_post(q1, DecodeOutcome::Subtitle(b), q2, r2, tb),
    ensures
        q2 matches Some(f) && frame_of(f, b, tb),
{
}

/// Nothing can be received right after a flush.
pub proof fn law_receive_after_flush(
    q1: Option<SubtitleFrame>,
    q2: Option<SubtitleFrame>,
    d1: SubtitleFrame,
    d2: SubtitleFrame,
    r: Result<(), SubtitleDecodeError>,
)
    requires
        q1 is None,
        receive_frame_post(q1, q2, d1, d2, r),
    ensures
        r == Err::<(), SubtitleDecodeError>(SubtitleDecodeError::NoFrameReady),
        d2 == d1,
{
}

} // verus!
