//! Frames in memory: an RGBA raster, and a JPEG prepared for upload together
//! with its HID reports.

use vstd::prelude::*;

use crate::protocol::HID_PACKET_LEN;

verus! {

/// The bytes of an opaque black `w` by `h` raster.
pub open spec fn black_pixels(w: u32, h: u32) -> Seq<u8> {
    Seq::new((w as nat) * (h as nat) * 4, |i: int| if i % 4 == 3 {
        255u8
    } else {
        0u8
    })
}

/// An RGBA raster, row after row, four bytes per pixel.
#[derive(Debug, Clone)]
pub struct RenderedFrame {
    width: u32,
    height: u32,
    rgba: Vec<u8>,
}

impl RenderedFrame {
    pub closed spec fn spec_width(&self) -> u32 {
        self.width
    }

    pub closed spec fn spec_height(&self) -> u32 {
        self.height
    }

    pub closed spec fn spec_rgba(&self) -> Seq<u8> {
        self.rgba@
    }

    /// The pixel buffer holds exactly `width * height` RGBA pixels.
    pub open spec fn well_formed(&self) -> bool {
        self.spec_rgba().len() == self.spec_width() as int * self.spec_height() as int * 4
    }

    /// A frame of `width` by `height` pixels with the given RGBA bytes.
    pub fn new(width: u32, height: u32, rgba: Vec<u8>) -> (f: RenderedFrame)
        ensures
            f.spec_width() == width,
            f.spec_height() == height,
            f.spec_rgba() == rgba@,
    {
        RenderedFrame { width, height, rgba }
    }

    pub fn width(&self) -> (w: u32)
        ensures
            w == self.spec_width(),
    {
        self.width
    }

    pub fn height(&self) -> (h: u32)
        ensures
            h == self.spec_height(),
    {
        self.height
    }

    /// The RGBA bytes.
    pub fn rgba(&self) -> (bytes: &[u8])
        ensures
            bytes@ == self.spec_rgba(),
    {
        self.rgba.as_slice()
    }

    /// Whether the pixel buffer holds exactly `width * height` RGBA pixels.
    pub fn is_well_formed(&self) -> (r: bool)
        ensures
            r == self.well_formed(),
    {
        let w = self.width as u64;
        let h = self.height as u64;
        assert(w * h <= 0xffff_ffff * 0xffff_ffff) by (nonlinear_arith)
            requires
                w <= 0xffff_ffff,
                h <= 0xffff_ffff,
        ;
        let pixels = w * h;
        let len = self.rgba.len();
        assert(pixels as int == self.spec_width() as int * self.spec_height() as int);
        if pixels > (usize::MAX / 4) as u64 {
            return false;
        }
        len as u64 == pixels * 4
    }

    /// An opaque black frame of `width` by `height` pixels.
    pub fn black(width: u32, height: u32) -> (f: RenderedFrame)
        requires
            (width as int) * (height as int) * 4 <= usize::MAX,
        ensures
            f.spec_width() == width,
            f.spec_height() == height,
            f.spec_rgba() == black_pixels(width, height),
            f.well_formed(),
    {
        assert((width as usize) * (height as usize) * 4 <= usize::MAX) by (nonlinear_arith)
            requires
                (width as int) * (height as int) * 4 <= usize::MAX,
        ;
        let len: usize = (width as usize) * (height as usize) * 4;
        let mut rgba: Vec<u8> = Vec::new();
        let mut i: usize = 0;
        while i < len
            invariant
                i <= len,
                rgba@.len() == i,
                forall|k: int| 0 <= k < i ==> rgba@[k] == (if k % 4 == 3 {
                    255u8
                } else {
                    0u8
                }),
            decreases len - i,
        {
            if i % 4 == 3 {
                rgba.push(255);
            } else {
                rgba.push(0);
            }
            i = i + 1;
        }
        assert(rgba@ =~= black_pixels(width, height));
        RenderedFrame { width, height, rgba }
    }

    /// A copy of this frame.
    pub fn duplicate(&self) -> (f: RenderedFrame)
        ensures
            f.spec_width() == self.spec_width(),
            f.spec_height() == self.spec_height(),
            f.spec_rgba() == self.spec_rgba(),
    {
        let rgba = self.rgba.clone();
        assert(rgba@ =~= self.rgba@);
        RenderedFrame { width: self.width, height: self.height, rgba }
    }

    /// Gives up the frame for its RGBA bytes.
    pub fn into_rgba(self) -> (bytes: Vec<u8>)
        ensures
            bytes@ == self.spec_rgba(),
    {
        self.rgba
    }
}

/// A JPEG ready for upload: where it came from, its bytes, its HID reports and
/// the dimensions its header declares.
#[derive(Debug, Clone)]
pub struct PreparedImage {
    source_path: String,
    jpeg_bytes: Vec<u8>,
    packets: Vec<[u8; HID_PACKET_LEN]>,
    width: u16,
    height: u16,
}

impl PreparedImage {
    pub closed spec fn spec_source_path(&self) -> Seq<char> {
        self.source_path@
    }

    pub closed spec fn spec_jpeg_bytes(&self) -> Seq<u8> {
        self.jpeg_bytes@
    }

    pub closed spec fn spec_packets(&self) -> Seq<[u8; HID_PACKET_LEN]> {
        self.packets@
    }

    pub closed spec fn spec_width(&self) -> u16 {
        self.width
    }

    pub closed spec fn spec_height(&self) -> u16 {
        self.height
    }

    pub fn new(
        source_path: String,
        jpeg_bytes: Vec<u8>,
        packets: Vec<[u8; HID_PACKET_LEN]>,
        width: u16,
        height: u16,
    ) -> (p: PreparedImage)
        ensures
            p.spec_source_path() == source_path@,
            p.spec_jpeg_bytes() == jpeg_bytes@,
            p.spec_packets() == packets@,
            p.spec_width() == width,
            p.spec_height() == height,
    {
        PreparedImage { source_path, jpeg_bytes, packets, width, height }
    }

    /// The file the image was made from.
    pub fn source_path(&self) -> (p: &str)
        ensures
            p@ == self.spec_source_path(),
    {
        self.source_path.as_str()
    }

    pub fn jpeg_bytes(&self) -> (b: &[u8])
        ensures
            b@ == self.spec_jpeg_bytes(),
    {
        self.jpeg_bytes.as_slice()
    }

    /// The HID reports of the upload, in sending order.
    pub fn packets(&self) -> (p: &[[u8; HID_PACKET_LEN]])
        ensures
            p@ == self.spec_packets(),
    {
        self.packets.as_slice()
    }

    pub fn width(&self) -> (w: u16)
        ensures
            w == self.spec_width(),
    {
        self.width
    }

    pub fn height(&self) -> (h: u16)
        ensures
            h == self.spec_height(),
    {
        self.height
    }
}

} // verus!
