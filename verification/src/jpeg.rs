//! A JPEG marker scan that finds the frame dimensions in the first
//! start-of-frame (SOF) segment, and the size check the cooler needs.

use vstd::prelude::*;

use crate::protocol::{EXPECTED_JPEG_HEIGHT, EXPECTED_JPEG_WIDTH};
use vstd::string::*;

verus! {

/// Why a byte stream was not accepted as a JPEG for the LCD.
#[derive(Debug, Clone, Copy, PartialEq, Eq, Structural)]
pub enum JpegError {
    /// Fewer than 4 bytes.
    TooSmall,
    /// The stream does not start with `FF D8`.
    MissingSoi,
    /// A marker that carries a segment has no room for its length field.
    TruncatedMarker,
    /// A segment declares a length below 2.
    InvalidSegmentLength { len: u16 },
    /// A segment runs past the end of the stream.
    TruncatedSegment,
    /// A start-of-frame segment is too short to hold the dimensions.
    InvalidSofLength { len: u16 },
    /// The scan ended without meeting a start-of-frame segment.
    SofNotFound,
    /// The frame is not 320x320.
    WrongDimensions { width: u16, height: u16 },
}

/// A big-endian 16-bit value.
pub open spec fn be16(hi: u8, lo: u8) -> u16 {
    (hi as int * 256 + lo as int) as u16
}

/// Markers that stand alone, without a length field: TEM and RST0..RST7.
pub open spec fn is_standalone_marker(marker: u8) -> bool {
    marker == 0x01 || (0xd0 <= marker && marker <= 0xd7)
}

/// Start-of-frame markers: C0..CF except DHT (C4), JPG (C8) and DAC (CC).
pub open spec fn is_sof_marker(marker: u8) -> bool {
    (0xc0 <= marker && marker <= 0xc3) || (0xc5 <= marker && marker <= 0xc7) || (0xc9 <= marker
        && marker <= 0xcb) || (0xcd <= marker && marker <= 0xcf)
}

/// The first position at or after `i` that holds `FF`, or the end of the stream.
pub open spec fn skip_to_ff(b: Seq<u8>, i: int) -> int
    decreases b.len() - i,
{
    if i >= b.len() || i < 0 || b[i] == 0xff {
        i
    } else {
        skip_to_ff(b, i + 1)
    }
}

/// The first position at or after `i` that does not hold `FF`, or the end.
pub open spec fn skip_fill_bytes(b: Seq<u8>, i: int) -> int
    decreases b.len() - i,
{
    if i >= b.len() || i < 0 || b[i] != 0xff {
        i
    } else {
        skip_fill_bytes(b, i + 1)
    }
}

/// The marker scan from position `i`: find the next marker (skipping stray
/// bytes and `FF` fill bytes), stop at EOI, step over standalone markers, and
/// either read the dimensions from a SOF segment or skip the segment.
pub open spec fn scan_markers(b: Seq<u8>, i: int) -> Result<(u16, u16), JpegError>
    decreases b.len() - i, 1int,
{
    if i < 0 || !(i + 3 < b.len()) {
        Err(JpegError::SofNotFound)
    } else {
        let j = skip_to_ff(b, i);
        if j + 1 >= b.len() {
            Err(JpegError::SofNotFound)
        } else {
            let k = skip_fill_bytes(b, j);
            if k >= b.len() {
                Err(JpegError::SofNotFound)
            } else {
                scan_segment(b, i, k)
            }
        }
    }
}

/// The scan at the marker byte `b[k]`, entered from the scan at `i <= k`.
pub open spec fn scan_segment(b: Seq<u8>, i: int, k: int) -> Result<(u16, u16), JpegError>
    decreases b.len() - i, 0int,
{
    if !(0 <= i <= k < b.len()) {
        Err(JpegError::SofNotFound)
    } else {
        let marker = b[k];
        let m = k + 1;
        if marker == 0xd9 {
            Err(JpegError::SofNotFound)
        } else if is_standalone_marker(marker) {
            scan_markers(b, m)
        } else if !(m + 1 < b.len()) {
            Err(JpegError::TruncatedMarker)
        } else {
            let seg = be16(b[m], b[m + 1]);
            if seg < 2 {
                Err(JpegError::InvalidSegmentLength { len: seg })
            } else if m + seg > b.len() {
                Err(JpegError::TruncatedSegment)
            } else if is_sof_marker(marker) {
                if seg < 7 {
                    Err(JpegError::InvalidSofLength { len: seg })
                } else {
                    Ok((be16(b[m + 5], b[m + 6]), be16(b[m + 3], b[m + 4])))
                }
            } else {
                scan_markers(b, m + seg)
            }
        }
    }
}

/// The dimensions `(width, height)` that the first SOF segment declares.
pub open spec fn jpeg_dimensions_spec(b: Seq<u8>) -> Result<(u16, u16), JpegError> {
    if b.len() < 4 {
        Err(JpegError::TooSmall)
    } else if !(b[0] == 0xff && b[1] == 0xd8) {
        Err(JpegError::MissingSoi)
    } else {
        scan_markers(b, 2)
    }
}

/// The check that a JPEG is accepted by the cooler: it declares 320x320.
pub open spec fn validate_jpeg_spec(b: Seq<u8>) -> Result<(u16, u16), JpegError> {
    match jpeg_dimensions_spec(b) {
        Ok((w, h)) => if w == EXPECTED_JPEG_WIDTH && h == EXPECTED_JPEG_HEIGHT {
            Ok((w, h))
        } else {
            Err(JpegError::WrongDimensions { width: w, height: h })
        },
        Err(e) => Err(e),
    }
}

proof fn lemma_skip_to_ff_bounds(b: Seq<u8>, i: int)
    requires
        0 <= i <= b.len(),
    ensures
        i <= skip_to_ff(b, i) <= b.len(),
        skip_to_ff(b, i) < b.len() ==> b[skip_to_ff(b, i)] == 0xff,
    decreases b.len() - i,
{
    if i < b.len() && b[i] != 0xff {
        lemma_skip_to_ff_bounds(b, i + 1);
    }
}

proof fn lemma_skip_fill_bytes_bounds(b: Seq<u8>, i: int)
    requires
        0 <= i <= b.len(),
    ensures
        i <= skip_fill_bytes(b, i) <= b.len(),
        skip_fill_bytes(b, i) < b.len() ==> b[skip_fill_bytes(b, i)] != 0xff,
    decreases b.len() - i,
{
    if i < b.len() && b[i] == 0xff {
        lemma_skip_fill_bytes_bounds(b, i + 1);
    }
}

proof fn lemma_skip_to_ff_extend(b: Seq<u8>, e: Seq<u8>, i: int)
    requires
        0 <= i <= b.len(),
        skip_to_ff(b, i) < b.len(),
    ensures
        skip_to_ff(b + e, i) == skip_to_ff(b, i),
    decreases b.len() - i,
{
    if b[i] != 0xff {
        assert((b + e)[i] == b[i]);
        lemma_skip_to_ff_extend(b, e, i + 1);
    } else {
        assert((b + e)[i] == b[i]);
    }
}

proof fn lemma_skip_fill_bytes_extend(b: Seq<u8>, e: Seq<u8>, i: int)
    requires
        0 <= i <= b.len(),
        skip_fill_bytes(b, i) < b.len(),
    ensures
        skip_fill_bytes(b + e, i) == skip_fill_bytes(b, i),
    decreases b.len() - i,
{
    if b[i] == 0xff {
        assert((b + e)[i] == b[i]);
        lemma_skip_fill_bytes_extend(b, e, i + 1);
    } else {
        assert((b + e)[i] == b[i]);
    }
}

proof fn lemma_scan_markers_extend(b: Seq<u8>, e: Seq<u8>, i: int)
    requires
        scan_markers(b, i) is Ok,
    ensures
        scan_markers(b + e, i) == scan_markers(b, i),
    decreases b.len() - i, 1int,
{
    let j = skip_to_ff(b, i);
    lemma_skip_to_ff_bounds(b, i);
    lemma_skip_to_ff_extend(b, e, i);
    lemma_skip_fill_bytes_bounds(b, j);
    lemma_skip_fill_bytes_extend(b, e, j);
    let k = skip_fill_bytes(b, j);
    lemma_scan_segment_extend(b, e, i, k);
}

proof fn lemma_scan_segment_extend(b: Seq<u8>, e: Seq<u8>, i: int, k: int)
    requires
        scan_segment(b, i, k) is Ok,
    ensures
        scan_segment(b + e, i, k) == scan_segment(b, i, k),
    decreases b.len() - i, 0int,
{
    let be = b + e;
    let m = k + 1;
    assert(be[k] == b[k]);
    let marker = b[k];
    if marker != 0xd9 && is_standalone_marker(marker) {
        lemma_scan_markers_extend(b, e, m);
    } else if marker != 0xd9 {
        assert(be[m] == b[m] && be[m + 1] == b[m + 1]);
        let seg = be16(b[m], b[m + 1]);
        if is_sof_marker(marker) {
            assert(be[m + 3] == b[m + 3] && be[m + 4] == b[m + 4]);
            assert(be[m + 5] == b[m + 5] && be[m + 6] == b[m + 6]);
        } else {
            lemma_scan_markers_extend(b, e, m + seg);
        }
    }
}

/// Bytes after the first start-of-frame segment never change the dimensions
/// read: once a stream yields dimensions, any extension of it yields the same.
pub proof fn lemma_dimensions_ignore_trailing_bytes(b: Seq<u8>, extra: Seq<u8>)
    requires
        jpeg_dimensions_spec(b) is Ok,
    ensures
        jpeg_dimensions_spec(b + extra) == jpeg_dimensions_spec(b),
{
    assert((b + extra)[0] == b[0] && (b + extra)[1] == b[1]);
    lemma_scan_markers_extend(b, extra, 2);
}

/// A stream that opens with SOI followed directly by a complete SOF segment
/// (marker `FF <sof>`, length `len >= 7`, precision, height, width) yields the
/// width and height that segment declares.
pub proof fn lemma_sof_right_after_soi(
    sof: u8,
    len_hi: u8,
    len_lo: u8,
    precision: u8,
    height_hi: u8,
    height_lo: u8,
    width_hi: u8,
    width_lo: u8,
    rest: Seq<u8>,
)
    requires
        is_sof_marker(sof),
        7 <= be16(len_hi, len_lo),
        4 + be16(len_hi, len_lo) <= 11 + rest.len(),
    ensures
        jpeg_dimensions_spec(
            seq![0xffu8, 0xd8, 0xff, sof, len_hi, len_lo, precision, height_hi, height_lo, width_hi, width_lo]
                + rest,
        ) == Ok::<(u16, u16), JpegError>((be16(width_hi, width_lo), be16(height_hi, height_lo))),
{
    let b = seq![0xffu8, 0xd8, 0xff, sof, len_hi, len_lo, precision, height_hi, height_lo, width_hi, width_lo]
        + rest;
    assert(b[2] == 0xff && b[3] == sof && b[4] == len_hi && b[5] == len_lo);
    assert(b[7] == height_hi && b[8] == height_lo && b[9] == width_hi && b[10] == width_lo);
    assert(skip_to_ff(b, 2) == 2);
    assert(skip_fill_bytes(b, 3) == 3);
    assert(skip_fill_bytes(b, 2) == 3);
    assert(scan_markers(b, 2) == scan_segment(b, 2, 3));
}

fn read_be16(hi: u8, lo: u8) -> (v: u16)
    ensures
        v == be16(hi, lo),
{
    (hi as u16) * 256 + (lo as u16)
}

fn is_standalone(marker: u8) -> (r: bool)
    ensures
        r == is_standalone_marker(marker),
{
    marker == 0x01 || (0xd0 <= marker && marker <= 0xd7)
}

fn is_sof(marker: u8) -> (r: bool)
    ensures
        r == is_sof_marker(marker),
{
    (0xc0 <= marker && marker <= 0xc3) || (0xc5 <= marker && marker <= 0xc7) || (0xc9 <= marker
        && marker <= 0xcb) || (0xcd <= marker && marker <= 0xcf)
}

/// Reads `(width, height)` from the first start-of-frame segment of a JPEG.
pub fn jpeg_dimensions(bytes: &[u8]) -> (result: Result<(u16, u16), JpegError>)
    ensures
        result == jpeg_dimensions_spec(bytes@),
{
    let len = bytes.len();
    if len < 4 {
        return Err(JpegError::TooSmall);
    }
    if !(bytes[0] == 0xff && bytes[1] == 0xd8) {
        return Err(JpegError::MissingSoi);
    }
    let ghost b = bytes@;
    let mut index: usize = 2;
    loop
        invariant
            b == bytes@,
            len == b.len(),
            4 <= len,
            b[0] == 0xff && b[1] == 0xd8,
            2 <= index <= len,
            jpeg_dimensions_spec(b) == scan_markers(b, index as int),
        decreases len - index,
    {
        if len - index <= 3 {
            return Err(JpegError::SofNotFound);
        }
        let ghost start = index as int;
        while index < len && bytes[index] != 0xff
            invariant
                b == bytes@,
                len == b.len(),
                start <= index <= len,
                skip_to_ff(b, start) == skip_to_ff(b, index as int),
            decreases len - index,
        {
            index = index + 1;
        }
        proof {
            lemma_skip_to_ff_bounds(b, index as int);
        }
        if len - index <= 1 {
            return Err(JpegError::SofNotFound);
        }
        let ghost j = index as int;
        while index < len && bytes[index] == 0xff
            invariant
                b == bytes@,
                len == b.len(),
                j <= index <= len,
                skip_fill_bytes(b, j) == skip_fill_bytes(b, index as int),
            decreases len - index,
        {
            index = index + 1;
        }
        proof {
            lemma_skip_fill_bytes_bounds(b, index as int);
        }
        if index >= len {
            return Err(JpegError::SofNotFound);
        }
        assert(scan_markers(b, start) == scan_segment(b, start, index as int));
        let marker = bytes[index];
        index = index + 1;
        if marker == 0xd9 {
            return Err(JpegError::SofNotFound);
        }
        if is_standalone(marker) {
            continue;
        }
        if len - index <= 1 {
            return Err(JpegError::TruncatedMarker);
        }
        let segment_len = read_be16(bytes[index], bytes[index + 1]);
        if segment_len < 2 {
            return Err(JpegError::InvalidSegmentLength { len: segment_len });
        }
        if segment_len as usize > len - index {
            return Err(JpegError::TruncatedSegment);
        }
        if is_sof(marker) {
            if segment_len < 7 {
                return Err(JpegError::InvalidSofLength { len: segment_len });
            }
            let height = read_be16(bytes[index + 3], bytes[index + 4]);
            let width = read_be16(bytes[index + 5], bytes[index + 6]);
            return Ok((width, height));
        }
        index = index + segment_len as usize;
    }
}

/// Why the JPEG made from the file at `path` cannot be shown on the LCD.
#[derive(Debug, Clone, PartialEq, Eq)]
pub struct LcdJpegError {
    pub path: String,
    pub error: JpegError,
}

/// Checks that `bytes`, the JPEG made from the file at `path`, has a first
/// frame of 320x320, returning its dimensions; a refusal names the file.
pub fn validate_jpeg_for_lcd(path: &str, bytes: &[u8]) -> (result: Result<(u16, u16), LcdJpegError>)
    ensures
        validate_jpeg_spec(bytes@) matches Ok(d) ==> result == Ok::<(u16, u16), LcdJpegError>(d),
        validate_jpeg_spec(bytes@) matches Err(e) ==> (result matches Err(le) && le.error == e
            && le.path@ == path@),
{
    let dims = jpeg_dimensions(bytes);
    match dims {
        Err(error) => Err(LcdJpegError { path: String::from_str(path), error }),
        Ok((width, height)) => if width == EXPECTED_JPEG_WIDTH && height == EXPECTED_JPEG_HEIGHT {
            Ok((width, height))
        } else {
            Err(
                LcdJpegError {
                    path: String::from_str(path),
                    error: JpegError::WrongDimensions { width, height },
                },
            )
        },
    }
}

} // verus!
